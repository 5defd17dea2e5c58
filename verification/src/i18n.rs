//! Interface languages, the translation of interface texts, and the choice
//! of a language from what the operating system reports.
use vstd::prelude::*;

pub mod keys;
pub mod table;
mod text_index;

use crate::text::{chars_of, contains, find, has_prefix, starts_with};
use table::{entry, lookup};
use text_index::{lemma_text_index_en, lemma_text_index_ja, lemma_text_index_zh};

verus! {

/// An interface language.
#[derive(Debug, Clone, Copy, PartialEq, Eq, Structural, Hash)]
pub enum Language {
    ZhCN,
    EnUS,
    JaJP,
}

impl Language {
    /// The language tag (`"zh-CN"`, `"en-US"`, `"ja-JP"`).
    pub open spec fn code(self) -> Seq<char> {
        match self {
            Language::ZhCN => "zh-CN"@,
            Language::EnUS => "en-US"@,
            Language::JaJP => "ja-JP"@,
        }
    }

    /// The name of the language, written in that language.
    pub open spec fn native_name(self) -> Seq<char> {
        match self {
            Language::ZhCN => "简体中文"@,
            Language::EnUS => "English"@,
            Language::JaJP => "日本語"@,
        }
    }

    /// The language tag.
    pub fn as_str(&self) -> (r: &'static str)
        ensures
            r@ == self.code(),
    {
        match self {
            Language::ZhCN => "zh-CN",
            Language::EnUS => "en-US",
            Language::JaJP => "ja-JP",
        }
    }

    /// The name under which the language is offered to the user.
    pub fn display_name(&self) -> (r: &'static str)
        ensures
            r@ == self.native_name(),
    {
        match self {
            Language::ZhCN => "简体中文",
            Language::EnUS => "English",
            Language::JaJP => "日本語",
        }
    }

    /// Every language, each once, in the order the settings offer them.
    pub fn all() -> (r: &'static [Language])
        ensures
            r@ == seq![Language::ZhCN, Language::EnUS, Language::JaJP],
    {
        &[Language::ZhCN, Language::EnUS, Language::JaJP]
    }
}

impl Default for Language {
    /// Simplified Chinese.
    fn default() -> (r: Self)
        ensures
            r == Language::ZhCN,
    {
        Language::ZhCN
    }
}

/// Two languages with the same tag are the same language, and two with the
/// same display name too.
pub proof fn lemma_language_tags_and_names_identify(a: Language, b: Language)
    ensures
        a.code() == b.code() ==> a == b,
        a.native_name() == b.native_name() ==> a == b,
{
    reveal_strlit("zh-CN");
    reveal_strlit("en-US");
    reveal_strlit("ja-JP");
    reveal_strlit("简体中文");
    reveal_strlit("English");
    reveal_strlit("日本語");
    if a != b {
        match (a, b) {
            (Language::ZhCN, Language::EnUS) | (Language::EnUS, Language::ZhCN) => {
                assert(a.code()[0] != b.code()[0]);
                assert(a.native_name().len() != b.native_name().len());
            },
            (Language::ZhCN, Language::JaJP) | (Language::JaJP, Language::ZhCN) => {
                assert(a.code()[0] != b.code()[0]);
                assert(a.native_name().len() != b.native_name().len());
            },
            _ => {
                assert(a.code()[0] != b.code()[0]);
                assert(a.native_name().len() != b.native_name().len());
            },
        }
    }
}

// ---------------------------------------------------------------------------
// Translation
// ---------------------------------------------------------------------------

/// The text of a table row in `lang`.
pub open spec fn text_in(lang: Language, row: (Seq<char>, Seq<char>, Seq<char>)) -> Seq<char> {
    match lang {
        Language::ZhCN => row.0,
        Language::EnUS => row.1,
        Language::JaJP => row.2,
    }
}

/// What the interface shows for `key` in `lang`: the translation when
/// `key` is in the table, and `key` itself otherwise.
pub open spec fn translate(lang: Language, key: Seq<char>) -> Seq<char> {
    match entry(key) {
        Some(row) => text_in(lang, row),
        None => key,
    }
}

/// The text for `key` in `lang`; an unknown key is returned unchanged.
pub fn t(lang: Language, key: &str) -> (r: String)
    ensures
        r@ == translate(lang, key@),
{
    match lookup(key) {
        Some(row) => {
            let s = match lang {
                Language::ZhCN => row.0,
                Language::EnUS => row.1,
                Language::JaJP => row.2,
            };
            String::from_str(s)
        },
        None => String::from_str(key),
    }
}

/// Every key that `keys` defines.
pub open spec fn all_keys() -> Seq<Seq<char>> {
    seq![
        keys::APP_TITLE@, keys::BUTTON_NEXT@, keys::BUTTON_BACK@, keys::BUTTON_REFRESH@,
        keys::BUTTON_CANCEL@, keys::BUTTON_CONFIRM@, keys::BUTTON_RETRY@,
        keys::BUTTON_SELECT_DIR@, keys::LOADING_TITLE@, keys::LOADING_MESSAGE@,
        keys::VERSION_SELECTION_TITLE@, keys::AVAILABLE_VERSIONS@, keys::LATEST_TAG@,
        keys::TEMP_DIR_LABEL@, keys::TEMP_DIR_HINT@, keys::USB_SELECTION_TITLE@,
        keys::USB_WARNING@, keys::NO_USB_DETECTED@, keys::USB_DETECTED_DEVICES@,
        keys::MANUAL_DRIVE_HINT@, keys::MANUAL_DRIVE_EXAMPLE@, keys::FORMAT_WARNING_TITLE@,
        keys::FORMAT_WARNING_MESSAGE@, keys::FORMAT_BACKUP_NOTICE@,
        keys::FORMAT_CONFIRM_CHECK@, keys::DOWNLOADING_TITLE@, keys::PREPARING_DOWNLOAD@,
        keys::VERIFYING@, keys::SKIP_VERIFY_TITLE@, keys::SKIP_VERIFY_MESSAGE@,
        keys::SKIP_VERIFY_CONFIRM@, keys::SKIP_CURRENT_VERIFY@, keys::VERIFY_SKIPPED@,
        keys::STATUS_PENDING@, keys::STATUS_DOWNLOADING@, keys::STATUS_COMPLETED@,
        keys::STATUS_FAILED@, keys::DOWNLOAD_COMPLETE@, keys::NEXT_STEP_FORMAT@,
        keys::DOWNLOAD_FAILED@, keys::ERROR_DETAILS@, keys::TIP_TITLE@, keys::TIP_403_ERROR@,
        keys::TIP_403_CAUSE_1@, keys::TIP_403_CAUSE_2@, keys::TIP_403_CAUSE_3@,
        keys::TIP_403_SUGGESTION@, keys::FORMAT_CONFIRMATION_TITLE@, keys::FINAL_WARNING@,
        keys::OPERATIONS_LIST@, keys::OP_CLEAR_PARTITIONS@, keys::OP_CREATE_EXFAT@,
        keys::OP_SET_LABEL@, keys::OP_ASSIGN_LETTER@, keys::OP_COPY_FILES@,
        keys::TARGET_DEVICE@, keys::START_FORMAT@, keys::FORMATTING_TITLE@,
        keys::FORMATTING_MESSAGE@, keys::FORMATTING_WARNING@, keys::STATUS_LABEL@,
        keys::COPYING_TITLE@, keys::COPYING_MESSAGE@, keys::CURRENT_FILE@,
        keys::COMPLETED_TITLE@, keys::COMPLETED_MESSAGE@, keys::COMPLETED_SUBMESSAGE@,
        keys::RETURN_HOME@, keys::ERROR_TITLE@, keys::ERROR_PREFIX@,
        keys::DISK_SPACE_WARNING_TITLE@, keys::DISK_SPACE_WARNING_MESSAGE@,
        keys::REQUIRED_SPACE@, keys::AVAILABLE_SPACE@, keys::SELECT_OTHER_DIR@,
        keys::LANGUAGE_SETTINGS@, keys::LANGUAGE_LABEL@
    ]
}

/// Every key of `keys` has a text in every language: the table is
/// complete for all three languages.
pub proof fn lemma_every_key_has_a_text()
    ensures
        forall|i: int| 0 <= i < all_keys().len() ==> (#[trigger] entry(all_keys()[i])) is Some,
{
    assert forall|i: int| 0 <= i < all_keys().len() implies (#[trigger] entry(
        all_keys()[i],
    )) is Some by {
        assert(all_keys().len() == 77);
        lemma_key_has_row(all_keys()[i]);
    }
}

/// The table has a row for exactly the keys of `keys`, and none of its
/// texts, in any language, is empty.
pub proof fn lemma_table_rows_are_the_keys(key: Seq<char>)
    ensures
        entry(key) is Some <==> all_keys().contains(key),
        entry(key) matches Some(row) ==> row.0.len() > 0 && row.1.len() > 0 && row.2.len() > 0,
{
    if all_keys().contains(key) {
        lemma_key_has_row(key);
    }
    if entry(key) is Some {
        lemma_row_texts_nonempty(key);
        if key == keys::APP_TITLE@ {
            assert(all_keys()[0] == key);
        } else if key == keys::BUTTON_NEXT@ {
            assert(all_keys()[1] == key);
        } else if key == keys::BUTTON_BACK@ {
            assert(all_keys()[2] == key);
        } else if key == keys::BUTTON_REFRESH@ {
            assert(all_keys()[3] == key);
        } else if key == keys::BUTTON_CANCEL@ {
            assert(all_keys()[4] == key);
        } else if key == keys::BUTTON_CONFIRM@ {
            assert(all_keys()[5] == key);
        } else if key == keys::BUTTON_RETRY@ {
            assert(all_keys()[6] == key);
        } else if key == keys::BUTTON_SELECT_DIR@ {
            assert(all_keys()[7] == key);
        } else if key == keys::LOADING_TITLE@ {
            assert(all_keys()[8] == key);
        } else if key == keys::LOADING_MESSAGE@ {
            assert(all_keys()[9] == key);
        } else if key == keys::VERSION_SELECTION_TITLE@ {
            assert(all_keys()[10] == key);
        } else if key == keys::AVAILABLE_VERSIONS@ {
            assert(all_keys()[11] == key);
        } else if key == keys::LATEST_TAG@ {
            assert(all_keys()[12] == key);
        } else if key == keys::TEMP_DIR_LABEL@ {
            assert(all_keys()[13] == key);
        } else if key == keys::TEMP_DIR_HINT@ {
            assert(all_keys()[14] == key);
        } else if key == keys::USB_SELECTION_TITLE@ {
            assert(all_keys()[15] == key);
        } else if key == keys::USB_WARNING@ {
            assert(all_keys()[16] == key);
        } else if key == keys::NO_USB_DETECTED@ {
            assert(all_keys()[17] == key);
        } else if key == keys::USB_DETECTED_DEVICES@ {
            assert(all_keys()[18] == key);
        } else if key == keys::MANUAL_DRIVE_HINT@ {
            assert(all_keys()[19] == key);
        } else if key == keys::MANUAL_DRIVE_EXAMPLE@ {
            assert(all_keys()[20] == key);
        } else if key == keys::FORMAT_WARNING_TITLE@ {
            assert(all_keys()[21] == key);
        } else if key == keys::FORMAT_WARNING_MESSAGE@ {
            assert(all_keys()[22] == key);
        } else if key == keys::FORMAT_BACKUP_NOTICE@ {
            assert(all_keys()[23] == key);
        } else if key == keys::FORMAT_CONFIRM_CHECK@ {
            assert(all_keys()[24] == key);
        } else if key == keys::DOWNLOADING_TITLE@ {
            assert(all_keys()[25] == key);
        } else if key == keys::PREPARING_DOWNLOAD@ {
            assert(all_keys()[26] == key);
        } else if key == keys::VERIFYING@ {
            assert(all_keys()[27] == key);
        } else if key == keys::SKIP_VERIFY_TITLE@ {
            assert(all_keys()[28] == key);
        } else if key == keys::SKIP_VERIFY_MESSAGE@ {
            assert(all_keys()[29] == key);
        } else if key == keys::SKIP_VERIFY_CONFIRM@ {
            assert(all_keys()[30] == key);
        } else if key == keys::SKIP_CURRENT_VERIFY@ {
            assert(all_keys()[31] == key);
        } else if key == keys::VERIFY_SKIPPED@ {
            assert(all_keys()[32] == key);
        } else if key == keys::STATUS_PENDING@ {
            assert(all_keys()[33] == key);
        } else if key == keys::STATUS_DOWNLOADING@ {
            assert(all_keys()[34] == key);
        } else if key == keys::STATUS_COMPLETED@ {
            assert(all_keys()[35] == key);
        } else if key == keys::STATUS_FAILED@ {
            assert(all_keys()[36] == key);
        } else if key == keys::DOWNLOAD_COMPLETE@ {
            assert(all_keys()[37] == key);
        } else if key == keys::NEXT_STEP_FORMAT@ {
            assert(all_keys()[38] == key);
        } else if key == keys::DOWNLOAD_FAILED@ {
            assert(all_keys()[39] == key);
        } else if key == keys::ERROR_DETAILS@ {
            assert(all_keys()[40] == key);
        } else if key == keys::TIP_TITLE@ {
            assert(all_keys()[41] == key);
        } else if key == keys::TIP_403_ERROR@ {
            assert(all_keys()[42] == key);
        } else if key == keys::TIP_403_CAUSE_1@ {
            assert(all_keys()[43] == key);
        } else if key == keys::TIP_403_CAUSE_2@ {
            assert(all_keys()[44] == key);
        } else if key == keys::TIP_403_CAUSE_3@ {
            assert(all_keys()[45] == key);
        } else if key == keys::TIP_403_SUGGESTION@ {
            assert(all_keys()[46] == key);
        } else if key == keys::FORMAT_CONFIRMATION_TITLE@ {
            assert(all_keys()[47] == key);
        } else if key == keys::FINAL_WARNING@ {
            assert(all_keys()[48] == key);
        } else if key == keys::OPERATIONS_LIST@ {
            assert(all_keys()[49] == key);
        } else if key == keys::OP_CLEAR_PARTITIONS@ {
            assert(all_keys()[50] == key);
        } else if key == keys::OP_CREATE_EXFAT@ {
            assert(all_keys()[51] == key);
        } else if key == keys::OP_SET_LABEL@ {
            assert(all_keys()[52] == key);
        } else if key == keys::OP_ASSIGN_LETTER@ {
            assert(all_keys()[53] == key);
        } else if key == keys::OP_COPY_FILES@ {
            assert(all_keys()[54] == key);
        } else if key == keys::TARGET_DEVICE@ {
            assert(all_keys()[55] == key);
        } else if key == keys::START_FORMAT@ {
            assert(all_keys()[56] == key);
        } else if key == keys::FORMATTING_TITLE@ {
            assert(all_keys()[57] == key);
        } else if key == keys::FORMATTING_MESSAGE@ {
            assert(all_keys()[58] == key);
        } else if key == keys::FORMATTING_WARNING@ {
            assert(all_keys()[59] == key);
        } else if key == keys::STATUS_LABEL@ {
            assert(all_keys()[60] == key);
        } else if key == keys::COPYING_TITLE@ {
            assert(all_keys()[61] == key);
        } else if key == keys::COPYING_MESSAGE@ {
            assert(all_keys()[62] == key);
        } else if key == keys::CURRENT_FILE@ {
            assert(all_keys()[63] == key);
        } else if key == keys::COMPLETED_TITLE@ {
            assert(all_keys()[64] == key);
        } else if key == keys::COMPLETED_MESSAGE@ {
            assert(all_keys()[65] == key);
        } else if key == keys::COMPLETED_SUBMESSAGE@ {
            assert(all_keys()[66] == key);
        } else if key == keys::RETURN_HOME@ {
            assert(all_keys()[67] == key);
        } else if key == keys::ERROR_TITLE@ {
            assert(all_keys()[68] == key);
        } else if key == keys::ERROR_PREFIX@ {
            assert(all_keys()[69] == key);
        } else if key == keys::DISK_SPACE_WARNING_TITLE@ {
            assert(all_keys()[70] == key);
        } else if key == keys::DISK_SPACE_WARNING_MESSAGE@ {
            assert(all_keys()[71] == key);
        } else if key == keys::REQUIRED_SPACE@ {
            assert(all_keys()[72] == key);
        } else if key == keys::AVAILABLE_SPACE@ {
            assert(all_keys()[73] == key);
        } else if key == keys::SELECT_OTHER_DIR@ {
            assert(all_keys()[74] == key);
        } else if key == keys::LANGUAGE_SETTINGS@ {
            assert(all_keys()[75] == key);
        } else if key == keys::LANGUAGE_LABEL@ {
            assert(all_keys()[76] == key);
        }
    }
}

/// Every text of a row of the table is non-empty.
proof fn lemma_row_texts_nonempty(key: Seq<char>)
    ensures
        entry(key) matches Some(row) ==> row.0.len() > 0 && row.1.len() > 0 && row.2.len() > 0,
{
    reveal_strlit("ZundaLink Installer");
    reveal_strlit("下一步 →");
    reveal_strlit("Next →");
    reveal_strlit("次へ →");
    reveal_strlit("← 返回");
    reveal_strlit("← Back");
    reveal_strlit("← 戻る");
    reveal_strlit("🔄 刷新");
    reveal_strlit("🔄 Refresh");
    reveal_strlit("🔄 更新");
    reveal_strlit("取消");
    reveal_strlit("Cancel");
    reveal_strlit("キャンセル");
    reveal_strlit("确认继续");
    reveal_strlit("Confirm");
    reveal_strlit("確認");
    reveal_strlit("[重试] 重新下载");
    reveal_strlit("[Retry] Redownload");
    reveal_strlit("[再試行] 再ダウンロード");
    reveal_strlit("选择目录");
    reveal_strlit("Select Directory");
    reveal_strlit("ディレクトリを選択");
    reveal_strlit("正在加载配置...");
    reveal_strlit("Loading configuration...");
    reveal_strlit("設定を読み込み中...");
    reveal_strlit("选择安装版本");
    reveal_strlit("Select Installation Version");
    reveal_strlit("インストールバージョンを選択");
    reveal_strlit("可用版本:");
    reveal_strlit("Available Versions:");
    reveal_strlit("利用可能なバージョン:");
    reveal_strlit("(最新)");
    reveal_strlit("(Latest)");
    reveal_strlit("临时文件目录:");
    reveal_strlit("Temporary Directory:");
    reveal_strlit("一時ディレクトリ:");
    reveal_strlit("下载的文件将保存在此目录");
    reveal_strlit("Downloaded files will be saved to this directory");
    reveal_strlit("ダウンロードしたファイルはこのディレクトリに保存されます");
    reveal_strlit("选择目标U盘");
    reveal_strlit("Select Target USB Drive");
    reveal_strlit("対象USBドライブを選択");
    reveal_strlit("[!] 警告：此操作将格式化选中的U盘并清除所有数据！");
    reveal_strlit("[!] Warning: This operation will format the selected USB drive and erase all data!");
    reveal_strlit("[!] 警告: この操作は選択したUSBドライブをフォーマットし、すべてのデータを削除します！");
    reveal_strlit("未检测到U盘设备。请手动输入盘符:");
    reveal_strlit("No USB device detected. Please enter drive letter manually:");
    reveal_strlit("USBデバイスが検出されませんでした。ドライブ文字を手動で入力してください:");
    reveal_strlit("检测到的U盘设备:");
    reveal_strlit("Detected USB devices:");
    reveal_strlit("検出されたUSBデバイス:");
    reveal_strlit("手动输入盘符:");
    reveal_strlit("Enter drive letter:");
    reveal_strlit("ドライブ文字を入力:");
    reveal_strlit("例如: Q 或 Q:");
    reveal_strlit("Example: Q or Q:");
    reveal_strlit("例: Q または Q:");
    reveal_strlit("[!] 重要警告");
    reveal_strlit("[!] Important Warning");
    reveal_strlit("[!] 重要な警告");
    reveal_strlit("此操作将格式化U盘并删除所有数据！");
    reveal_strlit("This operation will format the USB drive and delete all data!");
    reveal_strlit("この操作はUSBドライブをフォーマットし、すべてのデータを削除します！");
    reveal_strlit("请确认您已备份重要数据。");
    reveal_strlit("Please make sure you have backed up important data.");
    reveal_strlit("重要なデータをバックアップしたことを確認してください。");
    reveal_strlit("我已了解风险并确认继续");
    reveal_strlit("I understand the risks and confirm to continue");
    reveal_strlit("リスクを理解し、続行することを確認します");
    reveal_strlit("下载安装文件");
    reveal_strlit("Downloading Installation Files");
    reveal_strlit("インストールファイルをダウンロード中");
    reveal_strlit("准备下载...");
    reveal_strlit("Preparing download...");
    reveal_strlit("ダウンロードを準備中...");
    reveal_strlit("校验中");
    reveal_strlit("Verifying");
    reveal_strlit("検証中");
    reveal_strlit("确认跳过校验");
    reveal_strlit("Confirm Skip Verification");
    reveal_strlit("検証のスキップを確認");
    reveal_strlit("确定要跳过文件校验吗？");
    reveal_strlit("Are you sure you want to skip file verification?");
    reveal_strlit("ファイル検証をスキップしてもよろしいですか？");
    reveal_strlit("跳过校验可能会导致安装损坏的文件。");
    reveal_strlit("Skipping verification may result in installing corrupted files.");
    reveal_strlit("検証をスキップすると、破損したファイルがインストールされる可能性があります。");
    reveal_strlit("跳过当前文件校验");
    reveal_strlit("Skip Current File Verification");
    reveal_strlit("現在のファイル検証をスキップ");
    reveal_strlit("已跳过校验");
    reveal_strlit("Verification Skipped");
    reveal_strlit("検証をスキップしました");
    reveal_strlit("等待中");
    reveal_strlit("Pending");
    reveal_strlit("待機中");
    reveal_strlit("下载中");
    reveal_strlit("Downloading");
    reveal_strlit("ダウンロード中");
    reveal_strlit("完成");
    reveal_strlit("Completed");
    reveal_strlit("完了");
    reveal_strlit("失败");
    reveal_strlit("Failed");
    reveal_strlit("失敗");
    reveal_strlit("[OK] 所有文件下载完成！");
    reveal_strlit("[OK] All files downloaded!");
    reveal_strlit("[OK] すべてのファイルがダウンロードされました！");
    reveal_strlit("下一步：格式化U盘 →");
    reveal_strlit("Next: Format USB →");
    reveal_strlit("次へ: USBをフォーマット →");
    reveal_strlit("[X] 部分文件下载失败");
    reveal_strlit("[X] Some files failed to download");
    reveal_strlit("[X] 一部のファイルのダウンロードに失敗しました");
    reveal_strlit("失败详情:");
    reveal_strlit("Error Details:");
    reveal_strlit("エラーの詳細:");
    reveal_strlit("[i] 提示:");
    reveal_strlit("[i] Tip:");
    reveal_strlit("[i] ヒント:");
    reveal_strlit("遇到 403 错误通常表示:");
    reveal_strlit("403 errors usually indicate:");
    reveal_strlit("403エラーは通常、以下を示します:");
    reveal_strlit("• 下载链接已过期");
    reveal_strlit("• Download link has expired");
    reveal_strlit("• ダウンロードリンクが期限切れ");
    reveal_strlit("• 需要更新安装器版本");
    reveal_strlit("• Installer update required");
    reveal_strlit("• インストーラーの更新が必要");
    reveal_strlit("• 服务器限制了访问");
    reveal_strlit("• Server access restrictions");
    reveal_strlit("• サーバーアクセス制限");
    reveal_strlit("建议: 请检查是否有新版本安装器，或稍后重试。");
    reveal_strlit("Suggestion: Check for new installer version or try again later.");
    reveal_strlit("提案: 新しいバージョンのインストーラーを確認するか、後でもう一度お試しください。");
    reveal_strlit("最终确认");
    reveal_strlit("Final Confirmation");
    reveal_strlit("最終確認");
    reveal_strlit("[!] 最后一次警告！");
    reveal_strlit("[!] Final Warning!");
    reveal_strlit("[!] 最終警告！");
    reveal_strlit("即将执行以下操作:");
    reveal_strlit("The following operations will be performed:");
    reveal_strlit("以下の操作が実行されます:");
    reveal_strlit("1. 清除U盘所有分区和数据");
    reveal_strlit("1. Clear all partitions and data");
    reveal_strlit("1. すべてのパーティションとデータを削除");
    reveal_strlit("2. 创建新的exFAT分区");
    reveal_strlit("2. Create new exFAT partition");
    reveal_strlit("2. 新しいexFATパーティションを作成");
    reveal_strlit("3. 设置卷标");
    reveal_strlit("3. Set volume label");
    reveal_strlit("3. ボリュームラベルを設定");
    reveal_strlit("4. 分配盘符为 Q:");
    reveal_strlit("4. Assign drive letter Q:");
    reveal_strlit("4. ドライブ文字Q:を割り当て");
    reveal_strlit("5. 复制安装文件到U盘");
    reveal_strlit("5. Copy installation files to USB");
    reveal_strlit("5. インストールファイルをUSBにコピー");
    reveal_strlit("目标设备:");
    reveal_strlit("Target Device:");
    reveal_strlit("対象デバイス:");
    reveal_strlit("开始格式化并安装");
    reveal_strlit("Start Format and Install");
    reveal_strlit("フォーマットとインストールを開始");
    reveal_strlit("正在格式化U盘...");
    reveal_strlit("Formatting USB Drive...");
    reveal_strlit("USBドライブをフォーマット中...");
    reveal_strlit("请稍候，正在清除分区并创建新分区...");
    reveal_strlit("Please wait, clearing partitions and creating new partition...");
    reveal_strlit("お待ちください。パーティションを削除し、新しいパーティションを作成中...");
    reveal_strlit("此过程可能需要几分钟，请勿拔出U盘。");
    reveal_strlit("This may take a few minutes. Do not remove the USB drive.");
    reveal_strlit("これには数分かかる場合があります。USBドライブを取り外さないでください。");
    reveal_strlit("状态:");
    reveal_strlit("Status:");
    reveal_strlit("状態:");
    reveal_strlit("正在复制文件...");
    reveal_strlit("Copying Files...");
    reveal_strlit("ファイルをコピー中...");
    reveal_strlit("正在将安装文件复制到U盘...");
    reveal_strlit("Copying installation files to USB drive...");
    reveal_strlit("インストールファイルをUSBドライブにコピー中...");
    reveal_strlit("当前文件:");
    reveal_strlit("Current File:");
    reveal_strlit("現在のファイル:");
    reveal_strlit("[OK] 安装完成！");
    reveal_strlit("[OK] Installation Complete!");
    reveal_strlit("[OK] インストール完了！");
    reveal_strlit("ZundaLink 安装U盘制作成功！");
    reveal_strlit("ZundaLink installation USB created successfully!");
    reveal_strlit("ZundaLinkインストールUSBが正常に作成されました！");
    reveal_strlit("您的U盘现在可以用于安装 ZundaLink 系统。");
    reveal_strlit("Your USB drive is now ready to install ZundaLink.");
    reveal_strlit("USBドライブはZundaLinkのインストール準備ができました。");
    reveal_strlit("← 返回主页面");
    reveal_strlit("← Return to Home");
    reveal_strlit("← ホームに戻る");
    reveal_strlit("[X] 错误");
    reveal_strlit("[X] Error");
    reveal_strlit("[X] エラー");
    reveal_strlit("错误:");
    reveal_strlit("Error:");
    reveal_strlit("エラー:");
    reveal_strlit("[!] 磁盘空间不足");
    reveal_strlit("[!] Insufficient Disk Space");
    reveal_strlit("[!] ディスク容量不足");
    reveal_strlit("临时目录所在磁盘空间不足！");
    reveal_strlit("Not enough disk space in temporary directory!");
    reveal_strlit("一時ディレクトリのディスク容量が不足しています！");
    reveal_strlit("所需空间:");
    reveal_strlit("Required:");
    reveal_strlit("必要:");
    reveal_strlit("可用空间:");
    reveal_strlit("Available:");
    reveal_strlit("利用可能:");
    reveal_strlit("选择其他目录");
    reveal_strlit("Select Other Directory");
    reveal_strlit("別のディレクトリを選択");
    reveal_strlit("语言设置");
    reveal_strlit("Language Settings");
    reveal_strlit("言語設定");
    reveal_strlit("界面语言:");
    reveal_strlit("Interface Language:");
    reveal_strlit("インターフェース言語:");
}

/// The text of the `i`-th key of `all_keys` in `lang`.
pub open spec fn text_at(lang: Language, i: int) -> Seq<char> {
    text_in(lang, entry(all_keys()[i])->0)
}

/// Keys of different meaning never share a text: when two different keys
/// of the table have the same text in a language, they are the two title
/// keys (`app_title` and `loading_title`, both "ZundaLink Installer").
pub proof fn lemma_keys_have_distinct_texts(lang: Language, k1: Seq<char>, k2: Seq<char>)
    requires
        entry(k1) is Some,
        entry(k2) is Some,
        k1 != k2,
        text_in(lang, entry(k1)->0) == text_in(lang, entry(k2)->0),
    ensures
        (k1 == keys::APP_TITLE@ && k2 == keys::LOADING_TITLE@) || (k1 == keys::LOADING_TITLE@ && k2
            == keys::APP_TITLE@),
{
    lemma_table_rows_are_the_keys(k1);
    lemma_table_rows_are_the_keys(k2);
    let i1 = choose|i: int| 0 <= i < all_keys().len() && all_keys()[i] == k1;
    let i2 = choose|i: int| 0 <= i < all_keys().len() && all_keys()[i] == k2;
    assert(all_keys().len() == 77);
    assert(text_at(lang, i1) == text_at(lang, i2));
    match lang {
        Language::ZhCN => {
            lemma_text_index_zh(i1);
            lemma_text_index_zh(i2);
        },
        Language::EnUS => {
            lemma_text_index_en(i1);
            lemma_text_index_en(i2);
        },
        Language::JaJP => {
            lemma_text_index_ja(i1);
            lemma_text_index_ja(i2);
        },
    }
    assert(all_keys()[0] == keys::APP_TITLE@);
    assert(all_keys()[8] == keys::LOADING_TITLE@);
}

/// A text equal to one of the keys has a row in the table.
proof fn lemma_key_has_row(k: Seq<char>)
    requires
        all_keys().contains(k),
    ensures
        entry(k) is Some,
{
    let i = choose|i: int| 0 <= i < all_keys().len() && all_keys()[i] == k;
    assert(all_keys().len() == 77);
    assert(entry(k) is Some);
}

/// A text that is not a key is shown as it is, in every language.
pub proof fn lemma_unknown_key_shown_verbatim(lang: Language, key: Seq<char>)
    requires
        entry(key) is None,
    ensures
        translate(lang, key) == key,
{
}

/// A key has a text in one language exactly when it has one in every other.
pub proof fn lemma_translated_in_all_or_none(a: Language, b: Language, key: Seq<char>)
    ensures
        (entry(key) is Some) ==> translate(a, key) == text_in(a, entry(key)->0)
            && translate(b, key) == text_in(b, entry(key)->0),
        (entry(key) is None) ==> translate(a, key) == translate(b, key),
{
}

// ---------------------------------------------------------------------------
// The current language
// ---------------------------------------------------------------------------

/// The interface language in use, and translation in it.
#[derive(Debug, Clone)]
pub struct I18n {
    current_language: Language,
}

impl I18n {
    /// The language in use.
    pub closed spec fn language(self) -> Language {
        self.current_language
    }

    pub fn new(lang: Language) -> (r: Self)
        ensures
            r.language() == lang,
    {
        I18n { current_language: lang }
    }

    pub fn current_language(&self) -> (r: Language)
        ensures
            r == self.language(),
    {
        self.current_language
    }

    /// Switches to `lang`: from then on `current_language` reports `lang`
    /// and `t` looks texts up in `lang`, whatever the language was before.
    pub fn set_language(&mut self, lang: Language)
        ensures
            final(self).language() == lang,
    {
        self.current_language = lang;
    }

    /// The text for `key` in the language in use.
    pub fn t(&self, key: &str) -> (r: String)
        ensures
            r@ == translate(self.language(), key@),
    {
        t(self.current_language, key)
    }
}

// ---------------------------------------------------------------------------
// Language reported by the operating system
// ---------------------------------------------------------------------------

/// The language that a Windows user interface language id selects: its
/// primary language (low 10 bits) Chinese gives simplified Chinese,
/// Japanese gives Japanese, and any other gives English.
pub open spec fn windows_language(lang_id: u16) -> Language {
    let primary = lang_id & 0x3ff;
    if primary == 0x04 {
        Language::ZhCN
    } else if primary == 0x11 {
        Language::JaJP
    } else {
        Language::EnUS
    }
}

/// The language for the id that `GetUserDefaultUILanguage` returned.
pub fn language_from_windows_ui_language(lang_id: u16) -> (r: Language)
    ensures
        r == windows_language(lang_id),
{
    let primary = lang_id & 0x3ff;
    if primary == 0x04 {
        Language::ZhCN
    } else if primary == 0x11 {
        Language::JaJP
    } else {
        Language::EnUS
    }
}

/// The language that the macOS preferred language list selects: any
/// mention of `zh-Hans` or `zh-CN` gives simplified Chinese, otherwise any
/// mention of `ja` gives Japanese, otherwise English.
pub open spec fn apple_language(list: Seq<char>) -> Language {
    if contains(list, "zh-Hans"@) || contains(list, "zh-CN"@) {
        Language::ZhCN
    } else if contains(list, "ja"@) || contains(list, "ja-JP"@) {
        Language::JaJP
    } else {
        Language::EnUS
    }
}

/// The language for the output of `defaults read -g AppleLanguages`, or
/// English when the command gave no output.
pub fn language_from_apple_languages(output: Option<&str>) -> (r: Language)
    ensures
        r == match output {
            Some(o) => apple_language(o@),
            None => Language::EnUS,
        },
{
    match output {
        None => Language::EnUS,
        Some(o) => {
            let cs = chars_of(o);
            let zh_hans = chars_of("zh-Hans");
            let zh_cn = chars_of("zh-CN");
            let ja = chars_of("ja");
            let ja_jp = chars_of("ja-JP");
            if find(cs.as_slice(), zh_hans.as_slice()).is_some() || find(
                cs.as_slice(),
                zh_cn.as_slice(),
            ).is_some() {
                Language::ZhCN
            } else if find(cs.as_slice(), ja.as_slice()).is_some() || find(
                cs.as_slice(),
                ja_jp.as_slice(),
            ).is_some() {
                Language::JaJP
            } else {
                Language::EnUS
            }
        },
    }
}

/// The language that one POSIX locale variable selects, if any: a value
/// starting with `zh_CN` or `zh-Hans` gives simplified Chinese, one
/// starting with `ja` gives Japanese.
pub open spec fn posix_language(value: Seq<char>) -> Option<Language> {
    if starts_with(value, "zh_CN"@) || starts_with(value, "zh-Hans"@) {
        Some(Language::ZhCN)
    } else if starts_with(value, "ja"@) || starts_with(value, "ja_JP"@) {
        Some(Language::JaJP)
    } else {
        None
    }
}

/// The language one locale variable selects, if any.
pub fn language_from_locale_value(value: &str) -> (r: Option<Language>)
    ensures
        r == posix_language(value@),
{
    let cs = chars_of(value);
    let zh_cn = chars_of("zh_CN");
    let zh_hans = chars_of("zh-Hans");
    let ja = chars_of("ja");
    let ja_jp = chars_of("ja_JP");
    if has_prefix(cs.as_slice(), zh_cn.as_slice()) || has_prefix(cs.as_slice(), zh_hans.as_slice()) {
        Some(Language::ZhCN)
    } else if has_prefix(cs.as_slice(), ja.as_slice()) || has_prefix(cs.as_slice(), ja_jp.as_slice()) {
        Some(Language::JaJP)
    } else {
        None
    }
}

/// The language for the values of `LANG` and `LC_ALL` (each `None` when
/// unset): `LANG` decides when it selects a language, then `LC_ALL`, and
/// English otherwise.
pub open spec fn posix_env_language(lang: Option<Seq<char>>, lc_all: Option<Seq<char>>) -> Language {
    let from_lang = match lang {
        Some(v) => posix_language(v),
        None => None,
    };
    let from_lc_all = match lc_all {
        Some(v) => posix_language(v),
        None => None,
    };
    match from_lang {
        Some(l) => l,
        None => match from_lc_all {
            Some(l) => l,
            None => Language::EnUS,
        },
    }
}

/// The language for the values of `LANG` and `LC_ALL`.
pub fn language_from_posix_env(lang: Option<&str>, lc_all: Option<&str>) -> (r: Language)
    ensures
        r == posix_env_language(
            match lang {
                Some(v) => Some(v@),
                None => None,
            },
            match lc_all {
                Some(v) => Some(v@),
                None => None,
            },
        ),
{
    if let Some(v) = lang {
        if let Some(l) = language_from_locale_value(v) {
            return l;
        }
    }
    if let Some(v) = lc_all {
        if let Some(l) = language_from_locale_value(v) {
            return l;
        }
    }
    Language::EnUS
}

} // verus!
