//! Finding a key again from its text, in each language: the facts behind
//! the law that different keys of the table have different texts.
use vstd::prelude::*;

use super::keys;
use super::table::entry;
use super::{all_keys, text_at, text_in, Language};

verus! {

/// The position in `all_keys` of the first key whose text in `lang` is `t`
/// (-1 for none).
pub(crate) closed spec fn text_index(lang: Language, t: Seq<char>) -> int {
    match lang {
        Language::ZhCN => {
            if t == "ZundaLink Installer"@ {
                0
            } else if t == "下一步 →"@ {
                1
            } else if t == "← 返回"@ {
                2
            } else if t == "🔄 刷新"@ {
                3
            } else if t == "取消"@ {
                4
            } else if t == "确认继续"@ {
                5
            } else if t == "[重试] 重新下载"@ {
                6
            } else if t == "选择目录"@ {
                7
            } else if t == "正在加载配置..."@ {
                9
            } else if t == "选择安装版本"@ {
                10
            } else if t == "可用版本:"@ {
                11
            } else if t == "(最新)"@ {
                12
            } else if t == "临时文件目录:"@ {
                13
            } else if t == "下载的文件将保存在此目录"@ {
                14
            } else if t == "选择目标U盘"@ {
                15
            } else if t == "[!] 警告：此操作将格式化选中的U盘并清除所有数据！"@ {
                16
            } else if t == "未检测到U盘设备。请手动输入盘符:"@ {
                17
            } else if t == "检测到的U盘设备:"@ {
                18
            } else if t == "手动输入盘符:"@ {
                19
            } else if t == "例如: Q 或 Q:"@ {
                20
            } else if t == "[!] 重要警告"@ {
                21
            } else if t == "此操作将格式化U盘并删除所有数据！"@ {
                22
            } else if t == "请确认您已备份重要数据。"@ {
                23
            } else if t == "我已了解风险并确认继续"@ {
                24
            } else if t == "下载安装文件"@ {
                25
            } else if t == "准备下载..."@ {
                26
            } else if t == "校验中"@ {
                27
            } else if t == "确认跳过校验"@ {
                28
            } else if t == "确定要跳过文件校验吗？"@ {
                29
            } else if t == "跳过校验可能会导致安装损坏的文件。"@ {
                30
            } else if t == "跳过当前文件校验"@ {
                31
            } else if t == "已跳过校验"@ {
                32
            } else if t == "等待中"@ {
                33
            } else if t == "下载中"@ {
                34
            } else if t == "完成"@ {
                35
            } else if t == "失败"@ {
                36
            } else if t == "[OK] 所有文件下载完成！"@ {
                37
            } else if t == "下一步：格式化U盘 →"@ {
                38
            } else if t == "[X] 部分文件下载失败"@ {
                39
            } else if t == "失败详情:"@ {
                40
            } else if t == "[i] 提示:"@ {
                41
            } else if t == "遇到 403 错误通常表示:"@ {
                42
            } else if t == "• 下载链接已过期"@ {
                43
            } else if t == "• 需要更新安装器版本"@ {
                44
            } else if t == "• 服务器限制了访问"@ {
                45
            } else if t == "建议: 请检查是否有新版本安装器，或稍后重试。"@ {
                46
            } else if t == "最终确认"@ {
                47
            } else if t == "[!] 最后一次警告！"@ {
                48
            } else if t == "即将执行以下操作:"@ {
                49
            } else if t == "1. 清除U盘所有分区和数据"@ {
                50
            } else if t == "2. 创建新的exFAT分区"@ {
                51
            } else if t == "3. 设置卷标"@ {
                52
            } else if t == "4. 分配盘符为 Q:"@ {
                53
            } else if t == "5. 复制安装文件到U盘"@ {
                54
            } else if t == "目标设备:"@ {
                55
            } else if t == "开始格式化并安装"@ {
                56
            } else if t == "正在格式化U盘..."@ {
                57
            } else if t == "请稍候，正在清除分区并创建新分区..."@ {
                58
            } else if t == "此过程可能需要几分钟，请勿拔出U盘。"@ {
                59
            } else if t == "状态:"@ {
                60
            } else if t == "正在复制文件..."@ {
                61
            } else if t == "正在将安装文件复制到U盘..."@ {
                62
            } else if t == "当前文件:"@ {
                63
            } else if t == "[OK] 安装完成！"@ {
                64
            } else if t == "ZundaLink 安装U盘制作成功！"@ {
                65
            } else if t == "您的U盘现在可以用于安装 ZundaLink 系统。"@ {
                66
            } else if t == "← 返回主页面"@ {
                67
            } else if t == "[X] 错误"@ {
                68
            } else if t == "错误:"@ {
                69
            } else if t == "[!] 磁盘空间不足"@ {
                70
            } else if t == "临时目录所在磁盘空间不足！"@ {
                71
            } else if t == "所需空间:"@ {
                72
            } else if t == "可用空间:"@ {
                73
            } else if t == "选择其他目录"@ {
                74
            } else if t == "语言设置"@ {
                75
            } else if t == "界面语言:"@ {
                76
            } else {
                -1
            }
        },
        Language::EnUS => {
            if t == "ZundaLink Installer"@ {
                0
            } else if t == "Next →"@ {
                1
            } else if t == "← Back"@ {
                2
            } else if t == "🔄 Refresh"@ {
                3
            } else if t == "Cancel"@ {
                4
            } else if t == "Confirm"@ {
                5
            } else if t == "[Retry] Redownload"@ {
                6
            } else if t == "Select Directory"@ {
                7
            } else if t == "Loading configuration..."@ {
                9
            } else if t == "Select Installation Version"@ {
                10
            } else if t == "Available Versions:"@ {
                11
            } else if t == "(Latest)"@ {
                12
            } else if t == "Temporary Directory:"@ {
                13
            } else if t == "Downloaded files will be saved to this directory"@ {
                14
            } else if t == "Select Target USB Drive"@ {
                15
            } else if t == "[!] Warning: This operation will format the selected USB drive and erase all data!"@ {
                16
            } else if t == "No USB device detected. Please enter drive letter manually:"@ {
                17
            } else if t == "Detected USB devices:"@ {
                18
            } else if t == "Enter drive letter:"@ {
                19
            } else if t == "Example: Q or Q:"@ {
                20
            } else if t == "[!] Important Warning"@ {
                21
            } else if t == "This operation will format the USB drive and delete all data!"@ {
                22
            } else if t == "Please make sure you have backed up important data."@ {
                23
            } else if t == "I understand the risks and confirm to continue"@ {
                24
            } else if t == "Downloading Installation Files"@ {
                25
            } else if t == "Preparing download..."@ {
                26
            } else if t == "Verifying"@ {
                27
            } else if t == "Confirm Skip Verification"@ {
                28
            } else if t == "Are you sure you want to skip file verification?"@ {
                29
            } else if t == "Skipping verification may result in installing corrupted files."@ {
                30
            } else if t == "Skip Current File Verification"@ {
                31
            } else if t == "Verification Skipped"@ {
                32
            } else if t == "Pending"@ {
                33
            } else if t == "Downloading"@ {
                34
            } else if t == "Completed"@ {
                35
            } else if t == "Failed"@ {
                36
            } else if t == "[OK] All files downloaded!"@ {
                37
            } else if t == "Next: Format USB →"@ {
                38
            } else if t == "[X] Some files failed to download"@ {
                39
            } else if t == "Error Details:"@ {
                40
            } else if t == "[i] Tip:"@ {
                41
            } else if t == "403 errors usually indicate:"@ {
                42
            } else if t == "• Download link has expired"@ {
                43
            } else if t == "• Installer update required"@ {
                44
            } else if t == "• Server access restrictions"@ {
                45
            } else if t == "Suggestion: Check for new installer version or try again later."@ {
                46
            } else if t == "Final Confirmation"@ {
                47
            } else if t == "[!] Final Warning!"@ {
                48
            } else if t == "The following operations will be performed:"@ {
                49
            } else if t == "1. Clear all partitions and data"@ {
                50
            } else if t == "2. Create new exFAT partition"@ {
                51
            } else if t == "3. Set volume label"@ {
                52
            } else if t == "4. Assign drive letter Q:"@ {
                53
            } else if t == "5. Copy installation files to USB"@ {
                54
            } else if t == "Target Device:"@ {
                55
            } else if t == "Start Format and Install"@ {
                56
            } else if t == "Formatting USB Drive..."@ {
                57
            } else if t == "Please wait, clearing partitions and creating new partition..."@ {
                58
            } else if t == "This may take a few minutes. Do not remove the USB drive."@ {
                59
            } else if t == "Status:"@ {
                60
            } else if t == "Copying Files..."@ {
                61
            } else if t == "Copying installation files to USB drive..."@ {
                62
            } else if t == "Current File:"@ {
                63
            } else if t == "[OK] Installation Complete!"@ {
                64
            } else if t == "ZundaLink installation USB created successfully!"@ {
                65
            } else if t == "Your USB drive is now ready to install ZundaLink."@ {
                66
            } else if t == "← Return to Home"@ {
                67
            } else if t == "[X] Error"@ {
                68
            } else if t == "Error:"@ {
                69
            } else if t == "[!] Insufficient Disk Space"@ {
                70
            } else if t == "Not enough disk space in temporary directory!"@ {
                71
            } else if t == "Required:"@ {
                72
            } else if t == "Available:"@ {
                73
            } else if t == "Select Other Directory"@ {
                74
            } else if t == "Language Settings"@ {
                75
            } else if t == "Interface Language:"@ {
                76
            } else {
                -1
            }
        },
        Language::JaJP => {
            if t == "ZundaLink Installer"@ {
                0
            } else if t == "次へ →"@ {
                1
            } else if t == "← 戻る"@ {
                2
            } else if t == "🔄 更新"@ {
                3
            } else if t == "キャンセル"@ {
                4
            } else if t == "確認"@ {
                5
            } else if t == "[再試行] 再ダウンロード"@ {
                6
            } else if t == "ディレクトリを選択"@ {
                7
            } else if t == "設定を読み込み中..."@ {
                9
            } else if t == "インストールバージョンを選択"@ {
                10
            } else if t == "利用可能なバージョン:"@ {
                11
            } else if t == "(最新)"@ {
                12
            } else if t == "一時ディレクトリ:"@ {
                13
            } else if t == "ダウンロードしたファイルはこのディレクトリに保存されます"@ {
                14
            } else if t == "対象USBドライブを選択"@ {
                15
            } else if t == "[!] 警告: この操作は選択したUSBドライブをフォーマットし、すべてのデータを削除します！"@ {
                16
            } else if t == "USBデバイスが検出されませんでした。ドライブ文字を手動で入力してください:"@ {
                17
            } else if t == "検出されたUSBデバイス:"@ {
                18
            } else if t == "ドライブ文字を入力:"@ {
                19
            } else if t == "例: Q または Q:"@ {
                20
            } else if t == "[!] 重要な警告"@ {
                21
            } else if t == "この操作はUSBドライブをフォーマットし、すべてのデータを削除します！"@ {
                22
            } else if t == "重要なデータをバックアップしたことを確認してください。"@ {
                23
            } else if t == "リスクを理解し、続行することを確認します"@ {
                24
            } else if t == "インストールファイルをダウンロード中"@ {
                25
            } else if t == "ダウンロードを準備中..."@ {
                26
            } else if t == "検証中"@ {
                27
            } else if t == "検証のスキップを確認"@ {
                28
            } else if t == "ファイル検証をスキップしてもよろしいですか？"@ {
                29
            } else if t == "検証をスキップすると、破損したファイルがインストールされる可能性があります。"@ {
                30
            } else if t == "現在のファイル検証をスキップ"@ {
                31
            } else if t == "検証をスキップしました"@ {
                32
            } else if t == "待機中"@ {
                33
            } else if t == "ダウンロード中"@ {
                34
            } else if t == "完了"@ {
                35
            } else if t == "失敗"@ {
                36
            } else if t == "[OK] すべてのファイルがダウンロードされました！"@ {
                37
            } else if t == "次へ: USBをフォーマット →"@ {
                38
            } else if t == "[X] 一部のファイルのダウンロードに失敗しました"@ {
                39
            } else if t == "エラーの詳細:"@ {
                40
            } else if t == "[i] ヒント:"@ {
                41
            } else if t == "403エラーは通常、以下を示します:"@ {
                42
            } else if t == "• ダウンロードリンクが期限切れ"@ {
                43
            } else if t == "• インストーラーの更新が必要"@ {
                44
            } else if t == "• サーバーアクセス制限"@ {
                45
            } else if t == "提案: 新しいバージョンのインストーラーを確認するか、後でもう一度お試しください。"@ {
                46
            } else if t == "最終確認"@ {
                47
            } else if t == "[!] 最終警告！"@ {
                48
            } else if t == "以下の操作が実行されます:"@ {
                49
            } else if t == "1. すべてのパーティションとデータを削除"@ {
                50
            } else if t == "2. 新しいexFATパーティションを作成"@ {
                51
            } else if t == "3. ボリュームラベルを設定"@ {
                52
            } else if t == "4. ドライブ文字Q:を割り当て"@ {
                53
            } else if t == "5. インストールファイルをUSBにコピー"@ {
                54
            } else if t == "対象デバイス:"@ {
                55
            } else if t == "フォーマットとインストールを開始"@ {
                56
            } else if t == "USBドライブをフォーマット中..."@ {
                57
            } else if t == "お待ちください。パーティションを削除し、新しいパーティションを作成中..."@ {
                58
            } else if t == "これには数分かかる場合があります。USBドライブを取り外さないでください。"@ {
                59
            } else if t == "状態:"@ {
                60
            } else if t == "ファイルをコピー中..."@ {
                61
            } else if t == "インストールファイルをUSBドライブにコピー中..."@ {
                62
            } else if t == "現在のファイル:"@ {
                63
            } else if t == "[OK] インストール完了！"@ {
                64
            } else if t == "ZundaLinkインストールUSBが正常に作成されました！"@ {
                65
            } else if t == "USBドライブはZundaLinkのインストール準備ができました。"@ {
                66
            } else if t == "← ホームに戻る"@ {
                67
            } else if t == "[X] エラー"@ {
                68
            } else if t == "エラー:"@ {
                69
            } else if t == "[!] ディスク容量不足"@ {
                70
            } else if t == "一時ディレクトリのディスク容量が不足しています！"@ {
                71
            } else if t == "必要:"@ {
                72
            } else if t == "利用可能:"@ {
                73
            } else if t == "別のディレクトリを選択"@ {
                74
            } else if t == "言語設定"@ {
                75
            } else if t == "インターフェース言語:"@ {
                76
            } else {
                -1
            }
        },
    }
}

/// Each key's text in `Language::ZhCN` is found again at its own position,
/// but for the second title key, whose text is the first one's.
pub(crate) proof fn lemma_text_index_zh(i: int)
    requires
        0 <= i < 77,
    ensures
        text_index(Language::ZhCN, text_at(Language::ZhCN, i)) == if i == 8 {
            0
        } else {
            i
        },
{
    reveal_strlit("app_title");
    reveal_strlit("available_space");
    reveal_strlit("available_versions");
    reveal_strlit("button_back");
    reveal_strlit("button_cancel");
    reveal_strlit("button_confirm");
    reveal_strlit("button_next");
    reveal_strlit("button_refresh");
    reveal_strlit("button_retry");
    reveal_strlit("button_select_dir");
    reveal_strlit("completed_message");
    reveal_strlit("completed_submessage");
    reveal_strlit("completed_title");
    reveal_strlit("copying_message");
    reveal_strlit("copying_title");
    reveal_strlit("current_file");
    reveal_strlit("disk_space_warning_message");
    reveal_strlit("disk_space_warning_title");
    reveal_strlit("download_complete");
    reveal_strlit("download_failed");
    reveal_strlit("downloading_title");
    reveal_strlit("error_details");
    reveal_strlit("error_prefix");
    reveal_strlit("error_title");
    reveal_strlit("final_warning");
    reveal_strlit("format_backup_notice");
    reveal_strlit("format_confirm_check");
    reveal_strlit("format_confirmation_title");
    reveal_strlit("format_warning_message");
    reveal_strlit("format_warning_title");
    reveal_strlit("formatting_message");
    reveal_strlit("formatting_title");
    reveal_strlit("formatting_warning");
    reveal_strlit("language_label");
    reveal_strlit("language_settings");
    reveal_strlit("latest_tag");
    reveal_strlit("loading_message");
    reveal_strlit("loading_title");
    reveal_strlit("manual_drive_example");
    reveal_strlit("manual_drive_hint");
    reveal_strlit("next_step_format");
    reveal_strlit("no_usb_detected");
    reveal_strlit("op_assign_letter");
    reveal_strlit("op_clear_partitions");
    reveal_strlit("op_copy_files");
    reveal_strlit("op_create_exfat");
    reveal_strlit("op_set_label");
    reveal_strlit("operations_list");
    reveal_strlit("preparing_download");
    reveal_strlit("required_space");
    reveal_strlit("return_home");
    reveal_strlit("select_other_dir");
    reveal_strlit("skip_current_verify");
    reveal_strlit("skip_verify_confirm");
    reveal_strlit("skip_verify_message");
    reveal_strlit("skip_verify_title");
    reveal_strlit("start_format");
    reveal_strlit("status_completed");
    reveal_strlit("status_downloading");
    reveal_strlit("status_failed");
    reveal_strlit("status_label");
    reveal_strlit("status_pending");
    reveal_strlit("target_device");
    reveal_strlit("temp_dir_hint");
    reveal_strlit("temp_dir_label");
    reveal_strlit("tip_403_cause_1");
    reveal_strlit("tip_403_cause_2");
    reveal_strlit("tip_403_cause_3");
    reveal_strlit("tip_403_error");
    reveal_strlit("tip_403_suggestion");
    reveal_strlit("tip_title");
    reveal_strlit("usb_detected_devices");
    reveal_strlit("usb_selection_title");
    reveal_strlit("usb_warning");
    reveal_strlit("verify_skipped");
    reveal_strlit("verifying");
    reveal_strlit("version_selection_title");
    reveal_strlit("(最新)");
    reveal_strlit("1. 清除U盘所有分区和数据");
    reveal_strlit("2. 创建新的exFAT分区");
    reveal_strlit("3. 设置卷标");
    reveal_strlit("4. 分配盘符为 Q:");
    reveal_strlit("5. 复制安装文件到U盘");
    reveal_strlit("ZundaLink Installer");
    reveal_strlit("ZundaLink 安装U盘制作成功！");
    reveal_strlit("[!] 最后一次警告！");
    reveal_strlit("[!] 磁盘空间不足");
    reveal_strlit("[!] 警告：此操作将格式化选中的U盘并清除所有数据！");
    reveal_strlit("[!] 重要警告");
    reveal_strlit("[OK] 安装完成！");
    reveal_strlit("[OK] 所有文件下载完成！");
    reveal_strlit("[X] 部分文件下载失败");
    reveal_strlit("[X] 错误");
    reveal_strlit("[i] 提示:");
    reveal_strlit("[重试] 重新下载");
    reveal_strlit("• 下载链接已过期");
    reveal_strlit("• 服务器限制了访问");
    reveal_strlit("• 需要更新安装器版本");
    reveal_strlit("← 返回");
    reveal_strlit("← 返回主页面");
    reveal_strlit("下一步 →");
    reveal_strlit("下一步：格式化U盘 →");
    reveal_strlit("下载中");
    reveal_strlit("下载安装文件");
    reveal_strlit("下载的文件将保存在此目录");
    reveal_strlit("临时文件目录:");
    reveal_strlit("临时目录所在磁盘空间不足！");
    reveal_strlit("例如: Q 或 Q:");
    reveal_strlit("准备下载...");
    reveal_strlit("即将执行以下操作:");
    reveal_strlit("取消");
    reveal_strlit("可用版本:");
    reveal_strlit("可用空间:");
    reveal_strlit("失败");
    reveal_strlit("失败详情:");
    reveal_strlit("完成");
    reveal_strlit("已跳过校验");
    reveal_strlit("建议: 请检查是否有新版本安装器，或稍后重试。");
    reveal_strlit("开始格式化并安装");
    reveal_strlit("当前文件:");
    reveal_strlit("您的U盘现在可以用于安装 ZundaLink 系统。");
    reveal_strlit("我已了解风险并确认继续");
    reveal_strlit("所需空间:");
    reveal_strlit("手动输入盘符:");
    reveal_strlit("最终确认");
    reveal_strlit("未检测到U盘设备。请手动输入盘符:");
    reveal_strlit("校验中");
    reveal_strlit("检测到的U盘设备:");
    reveal_strlit("正在加载配置...");
    reveal_strlit("正在复制文件...");
    reveal_strlit("正在将安装文件复制到U盘...");
    reveal_strlit("正在格式化U盘...");
    reveal_strlit("此操作将格式化U盘并删除所有数据！");
    reveal_strlit("此过程可能需要几分钟，请勿拔出U盘。");
    reveal_strlit("状态:");
    reveal_strlit("界面语言:");
    reveal_strlit("目标设备:");
    reveal_strlit("确定要跳过文件校验吗？");
    reveal_strlit("确认继续");
    reveal_strlit("确认跳过校验");
    reveal_strlit("等待中");
    reveal_strlit("语言设置");
    reveal_strlit("请确认您已备份重要数据。");
    reveal_strlit("请稍候，正在清除分区并创建新分区...");
    reveal_strlit("跳过当前文件校验");
    reveal_strlit("跳过校验可能会导致安装损坏的文件。");
    reveal_strlit("选择其他目录");
    reveal_strlit("选择安装版本");
    reveal_strlit("选择目录");
    reveal_strlit("选择目标U盘");
    reveal_strlit("遇到 403 错误通常表示:");
    reveal_strlit("错误:");
    reveal_strlit("🔄 刷新");
    assert("app_title"@.len() == 9);
    assert("available_space"@.len() == 15);
    assert("available_versions"@.len() == 18);
    assert("button_back"@.len() == 11);
    assert("button_cancel"@.len() == 13);
    assert("button_confirm"@.len() == 14);
    assert("button_next"@.len() == 11);
    assert("button_refresh"@.len() == 14);
    assert("button_retry"@.len() == 12);
    assert("button_select_dir"@.len() == 17);
    assert("completed_message"@.len() == 17);
    assert("completed_submessage"@.len() == 20);
    assert("completed_title"@.len() == 15);
    assert("copying_message"@.len() == 15);
    assert("copying_title"@.len() == 13);
    assert("current_file"@.len() == 12);
    assert("disk_space_warning_message"@.len() == 26);
    assert("disk_space_warning_title"@.len() == 24);
    assert("download_complete"@.len() == 17);
    assert("download_failed"@.len() == 15);
    assert("downloading_title"@.len() == 17);
    assert("error_details"@.len() == 13);
    assert("error_prefix"@.len() == 12);
    assert("error_title"@.len() == 11);
    assert("final_warning"@.len() == 13);
    assert("format_backup_notice"@.len() == 20);
    assert("format_confirm_check"@.len() == 20);
    assert("format_confirmation_title"@.len() == 25);
    assert("format_warning_message"@.len() == 22);
    assert("format_warning_title"@.len() == 20);
    assert("formatting_message"@.len() == 18);
    assert("formatting_title"@.len() == 16);
    assert("formatting_warning"@.len() == 18);
    assert("language_label"@.len() == 14);
    assert("language_settings"@.len() == 17);
    assert("latest_tag"@.len() == 10);
    assert("loading_message"@.len() == 15);
    assert("loading_title"@.len() == 13);
    assert("manual_drive_example"@.len() == 20);
    assert("manual_drive_hint"@.len() == 17);
    assert("next_step_format"@.len() == 16);
    assert("no_usb_detected"@.len() == 15);
    assert("op_assign_letter"@.len() == 16);
    assert("op_clear_partitions"@.len() == 19);
    assert("op_copy_files"@.len() == 13);
    assert("op_create_exfat"@.len() == 15);
    assert("op_set_label"@.len() == 12);
    assert("operations_list"@.len() == 15);
    assert("preparing_download"@.len() == 18);
    assert("required_space"@.len() == 14);
    assert("return_home"@.len() == 11);
    assert("select_other_dir"@.len() == 16);
    assert("skip_current_verify"@.len() == 19);
    assert("skip_verify_confirm"@.len() == 19);
    assert("skip_verify_message"@.len() == 19);
    assert("skip_verify_title"@.len() == 17);
    assert("start_format"@.len() == 12);
    assert("status_completed"@.len() == 16);
    assert("status_downloading"@.len() == 18);
    assert("status_failed"@.len() == 13);
    assert("status_label"@.len() == 12);
    assert("status_pending"@.len() == 14);
    assert("target_device"@.len() == 13);
    assert("temp_dir_hint"@.len() == 13);
    assert("temp_dir_label"@.len() == 14);
    assert("tip_403_cause_1"@.len() == 15);
    assert("tip_403_cause_2"@.len() == 15);
    assert("tip_403_cause_3"@.len() == 15);
    assert("tip_403_error"@.len() == 13);
    assert("tip_403_suggestion"@.len() == 18);
    assert("tip_title"@.len() == 9);
    assert("usb_detected_devices"@.len() == 20);
    assert("usb_selection_title"@.len() == 19);
    assert("usb_warning"@.len() == 11);
    assert("verify_skipped"@.len() == 14);
    assert("verifying"@.len() == 9);
    assert("version_selection_title"@.len() == 23);
    assert("app_title"@[0] == '\u{61}');
    assert("tip_title"@[0] == '\u{74}');
    assert("verifying"@[0] == '\u{76}');
    assert("available_space"@[0] == '\u{61}');
    assert("available_space"@[2] == '\u{61}');
    assert("available_space"@[14] == '\u{65}');
    assert("completed_title"@[0] == '\u{63}');
    assert("completed_title"@[2] == '\u{6d}');
    assert("completed_title"@[14] == '\u{65}');
    assert("copying_message"@[0] == '\u{63}');
    assert("copying_message"@[2] == '\u{70}');
    assert("copying_message"@[14] == '\u{65}');
    assert("download_failed"@[0] == '\u{64}');
    assert("download_failed"@[2] == '\u{77}');
    assert("download_failed"@[14] == '\u{64}');
    assert("loading_message"@[0] == '\u{6c}');
    assert("loading_message"@[2] == '\u{61}');
    assert("loading_message"@[14] == '\u{65}');
    assert("no_usb_detected"@[0] == '\u{6e}');
    assert("no_usb_detected"@[2] == '\u{5f}');
    assert("no_usb_detected"@[14] == '\u{64}');
    assert("op_create_exfat"@[0] == '\u{6f}');
    assert("op_create_exfat"@[2] == '\u{5f}');
    assert("op_create_exfat"@[14] == '\u{74}');
    assert("operations_list"@[0] == '\u{6f}');
    assert("operations_list"@[2] == '\u{65}');
    assert("operations_list"@[14] == '\u{74}');
    assert("tip_403_cause_1"@[0] == '\u{74}');
    assert("tip_403_cause_1"@[2] == '\u{70}');
    assert("tip_403_cause_1"@[14] == '\u{31}');
    assert("tip_403_cause_2"@[0] == '\u{74}');
    assert("tip_403_cause_2"@[2] == '\u{70}');
    assert("tip_403_cause_2"@[14] == '\u{32}');
    assert("tip_403_cause_3"@[0] == '\u{74}');
    assert("tip_403_cause_3"@[2] == '\u{70}');
    assert("tip_403_cause_3"@[14] == '\u{33}');
    assert("available_versions"@[0] == '\u{61}');
    assert("available_versions"@[11] == '\u{65}');
    assert("formatting_message"@[0] == '\u{66}');
    assert("formatting_message"@[11] == '\u{6d}');
    assert("formatting_warning"@[0] == '\u{66}');
    assert("formatting_warning"@[11] == '\u{77}');
    assert("preparing_download"@[0] == '\u{70}');
    assert("preparing_download"@[11] == '\u{6f}');
    assert("status_downloading"@[0] == '\u{73}');
    assert("status_downloading"@[11] == '\u{6c}');
    assert("tip_403_suggestion"@[0] == '\u{74}');
    assert("tip_403_suggestion"@[11] == '\u{67}');
    assert("button_back"@[0] == '\u{62}');
    assert("button_back"@[7] == '\u{62}');
    assert("button_next"@[0] == '\u{62}');
    assert("button_next"@[7] == '\u{6e}');
    assert("error_title"@[0] == '\u{65}');
    assert("error_title"@[7] == '\u{69}');
    assert("return_home"@[0] == '\u{72}');
    assert("return_home"@[7] == '\u{68}');
    assert("usb_warning"@[0] == '\u{75}');
    assert("usb_warning"@[7] == '\u{6e}');
    assert("button_cancel"@[0] == '\u{62}');
    assert("button_cancel"@[1] == '\u{75}');
    assert("copying_title"@[0] == '\u{63}');
    assert("copying_title"@[1] == '\u{6f}');
    assert("error_details"@[0] == '\u{65}');
    assert("error_details"@[1] == '\u{72}');
    assert("final_warning"@[0] == '\u{66}');
    assert("final_warning"@[1] == '\u{69}');
    assert("loading_title"@[0] == '\u{6c}');
    assert("loading_title"@[1] == '\u{6f}');
    assert("op_copy_files"@[0] == '\u{6f}');
    assert("op_copy_files"@[1] == '\u{70}');
    assert("status_failed"@[0] == '\u{73}');
    assert("status_failed"@[1] == '\u{74}');
    assert("target_device"@[0] == '\u{74}');
    assert("target_device"@[1] == '\u{61}');
    assert("temp_dir_hint"@[0] == '\u{74}');
    assert("temp_dir_hint"@[1] == '\u{65}');
    assert("tip_403_error"@[0] == '\u{74}');
    assert("tip_403_error"@[1] == '\u{69}');
    assert("button_confirm"@[0] == '\u{62}');
    assert("button_confirm"@[7] == '\u{63}');
    assert("button_refresh"@[0] == '\u{62}');
    assert("button_refresh"@[7] == '\u{72}');
    assert("language_label"@[0] == '\u{6c}');
    assert("language_label"@[7] == '\u{65}');
    assert("required_space"@[0] == '\u{72}');
    assert("required_space"@[7] == '\u{64}');
    assert("status_pending"@[0] == '\u{73}');
    assert("status_pending"@[7] == '\u{70}');
    assert("temp_dir_label"@[0] == '\u{74}');
    assert("temp_dir_label"@[7] == '\u{72}');
    assert("verify_skipped"@[0] == '\u{76}');
    assert("verify_skipped"@[7] == '\u{73}');
    assert("button_retry"@[0] == '\u{62}');
    assert("button_retry"@[3] == '\u{74}');
    assert("current_file"@[0] == '\u{63}');
    assert("current_file"@[3] == '\u{72}');
    assert("error_prefix"@[0] == '\u{65}');
    assert("error_prefix"@[3] == '\u{6f}');
    assert("op_set_label"@[0] == '\u{6f}');
    assert("op_set_label"@[3] == '\u{73}');
    assert("start_format"@[0] == '\u{73}');
    assert("start_format"@[3] == '\u{72}');
    assert("status_label"@[0] == '\u{73}');
    assert("status_label"@[3] == '\u{74}');
    assert("button_select_dir"@[0] == '\u{62}');
    assert("button_select_dir"@[8] == '\u{65}');
    assert("completed_message"@[0] == '\u{63}');
    assert("completed_message"@[8] == '\u{64}');
    assert("download_complete"@[0] == '\u{64}');
    assert("download_complete"@[8] == '\u{5f}');
    assert("downloading_title"@[0] == '\u{64}');
    assert("downloading_title"@[8] == '\u{69}');
    assert("language_settings"@[0] == '\u{6c}');
    assert("language_settings"@[8] == '\u{5f}');
    assert("manual_drive_hint"@[0] == '\u{6d}');
    assert("manual_drive_hint"@[8] == '\u{72}');
    assert("skip_verify_title"@[0] == '\u{73}');
    assert("skip_verify_title"@[8] == '\u{69}');
    assert("completed_submessage"@[0] == '\u{63}');
    assert("completed_submessage"@[7] == '\u{65}');
    assert("format_backup_notice"@[0] == '\u{66}');
    assert("format_backup_notice"@[7] == '\u{62}');
    assert("format_confirm_check"@[0] == '\u{66}');
    assert("format_confirm_check"@[7] == '\u{63}');
    assert("format_warning_title"@[0] == '\u{66}');
    assert("format_warning_title"@[7] == '\u{77}');
    assert("manual_drive_example"@[0] == '\u{6d}');
    assert("manual_drive_example"@[7] == '\u{64}');
    assert("usb_detected_devices"@[0] == '\u{75}');
    assert("usb_detected_devices"@[7] == '\u{65}');
    assert("formatting_title"@[0] == '\u{66}');
    assert("formatting_title"@[1] == '\u{6f}');
    assert("next_step_format"@[0] == '\u{6e}');
    assert("next_step_format"@[1] == '\u{65}');
    assert("op_assign_letter"@[0] == '\u{6f}');
    assert("op_assign_letter"@[1] == '\u{70}');
    assert("select_other_dir"@[0] == '\u{73}');
    assert("select_other_dir"@[1] == '\u{65}');
    assert("status_completed"@[0] == '\u{73}');
    assert("status_completed"@[1] == '\u{74}');
    assert("op_clear_partitions"@[0] == '\u{6f}');
    assert("op_clear_partitions"@[5] == '\u{65}');
    assert("op_clear_partitions"@[12] == '\u{74}');
    assert("skip_current_verify"@[0] == '\u{73}');
    assert("skip_current_verify"@[5] == '\u{63}');
    assert("skip_current_verify"@[12] == '\u{5f}');
    assert("skip_verify_confirm"@[0] == '\u{73}');
    assert("skip_verify_confirm"@[5] == '\u{76}');
    assert("skip_verify_confirm"@[12] == '\u{63}');
    assert("skip_verify_message"@[0] == '\u{73}');
    assert("skip_verify_message"@[5] == '\u{76}');
    assert("skip_verify_message"@[12] == '\u{6d}');
    assert("usb_selection_title"@[0] == '\u{75}');
    assert("usb_selection_title"@[5] == '\u{65}');
    assert("usb_selection_title"@[12] == '\u{6e}');
    assert("(最新)"@.len() == 4);
    assert("1. 清除U盘所有分区和数据"@.len() == 14);
    assert("2. 创建新的exFAT分区"@.len() == 14);
    assert("3. 设置卷标"@.len() == 7);
    assert("4. 分配盘符为 Q:"@.len() == 11);
    assert("5. 复制安装文件到U盘"@.len() == 12);
    assert("ZundaLink Installer"@.len() == 19);
    assert("ZundaLink 安装U盘制作成功！"@.len() == 19);
    assert("[!] 最后一次警告！"@.len() == 11);
    assert("[!] 磁盘空间不足"@.len() == 10);
    assert("[!] 警告：此操作将格式化选中的U盘并清除所有数据！"@.len() == 27);
    assert("[!] 重要警告"@.len() == 8);
    assert("[OK] 安装完成！"@.len() == 10);
    assert("[OK] 所有文件下载完成！"@.len() == 14);
    assert("[X] 部分文件下载失败"@.len() == 12);
    assert("[X] 错误"@.len() == 6);
    assert("[i] 提示:"@.len() == 7);
    assert("[重试] 重新下载"@.len() == 9);
    assert("• 下载链接已过期"@.len() == 9);
    assert("• 服务器限制了访问"@.len() == 10);
    assert("• 需要更新安装器版本"@.len() == 11);
    assert("← 返回"@.len() == 4);
    assert("← 返回主页面"@.len() == 7);
    assert("下一步 →"@.len() == 5);
    assert("下一步：格式化U盘 →"@.len() == 11);
    assert("下载中"@.len() == 3);
    assert("下载安装文件"@.len() == 6);
    assert("下载的文件将保存在此目录"@.len() == 12);
    assert("临时文件目录:"@.len() == 7);
    assert("临时目录所在磁盘空间不足！"@.len() == 13);
    assert("例如: Q 或 Q:"@.len() == 10);
    assert("准备下载..."@.len() == 7);
    assert("即将执行以下操作:"@.len() == 9);
    assert("取消"@.len() == 2);
    assert("可用版本:"@.len() == 5);
    assert("可用空间:"@.len() == 5);
    assert("失败"@.len() == 2);
    assert("失败详情:"@.len() == 5);
    assert("完成"@.len() == 2);
    assert("已跳过校验"@.len() == 5);
    assert("建议: 请检查是否有新版本安装器，或稍后重试。"@.len() == 23);
    assert("开始格式化并安装"@.len() == 8);
    assert("当前文件:"@.len() == 5);
    assert("您的U盘现在可以用于安装 ZundaLink 系统。"@.len() == 26);
    assert("我已了解风险并确认继续"@.len() == 11);
    assert("所需空间:"@.len() == 5);
    assert("手动输入盘符:"@.len() == 7);
    assert("最终确认"@.len() == 4);
    assert("未检测到U盘设备。请手动输入盘符:"@.len() == 17);
    assert("校验中"@.len() == 3);
    assert("检测到的U盘设备:"@.len() == 9);
    assert("正在加载配置..."@.len() == 9);
    assert("正在复制文件..."@.len() == 9);
    assert("正在将安装文件复制到U盘..."@.len() == 15);
    assert("正在格式化U盘..."@.len() == 10);
    assert("此操作将格式化U盘并删除所有数据！"@.len() == 17);
    assert("此过程可能需要几分钟，请勿拔出U盘。"@.len() == 18);
    assert("状态:"@.len() == 3);
    assert("界面语言:"@.len() == 5);
    assert("目标设备:"@.len() == 5);
    assert("确定要跳过文件校验吗？"@.len() == 11);
    assert("确认继续"@.len() == 4);
    assert("确认跳过校验"@.len() == 6);
    assert("等待中"@.len() == 3);
    assert("语言设置"@.len() == 4);
    assert("请确认您已备份重要数据。"@.len() == 12);
    assert("请稍候，正在清除分区并创建新分区..."@.len() == 19);
    assert("跳过当前文件校验"@.len() == 8);
    assert("跳过校验可能会导致安装损坏的文件。"@.len() == 17);
    assert("选择其他目录"@.len() == 6);
    assert("选择安装版本"@.len() == 6);
    assert("选择目录"@.len() == 4);
    assert("选择目标U盘"@.len() == 6);
    assert("遇到 403 错误通常表示:"@.len() == 14);
    assert("错误:"@.len() == 3);
    assert("🔄 刷新"@.len() == 4);
    assert("(最新)"@[0] == '\u{28}');
    assert("← 返回"@[0] == '\u{2190}');
    assert("最终确认"@[0] == '\u{6700}');
    assert("确认继续"@[0] == '\u{786e}');
    assert("语言设置"@[0] == '\u{8bed}');
    assert("选择目录"@[0] == '\u{9009}');
    assert("🔄 刷新"@[0] == '\u{1f504}');
    assert("1. 清除U盘所有分区和数据"@[0] == '\u{31}');
    assert("2. 创建新的exFAT分区"@[0] == '\u{32}');
    assert("[OK] 所有文件下载完成！"@[0] == '\u{5b}');
    assert("遇到 403 错误通常表示:"@[0] == '\u{9047}');
    assert("3. 设置卷标"@[0] == '\u{33}');
    assert("[i] 提示:"@[0] == '\u{5b}');
    assert("← 返回主页面"@[0] == '\u{2190}');
    assert("临时文件目录:"@[0] == '\u{4e34}');
    assert("准备下载..."@[0] == '\u{51c6}');
    assert("手动输入盘符:"@[0] == '\u{624b}');
    assert("4. 分配盘符为 Q:"@[0] == '\u{34}');
    assert("[!] 最后一次警告！"@[0] == '\u{5b}');
    assert("• 需要更新安装器版本"@[0] == '\u{2022}');
    assert("下一步：格式化U盘 →"@[0] == '\u{4e0b}');
    assert("我已了解风险并确认继续"@[0] == '\u{6211}');
    assert("确定要跳过文件校验吗？"@[0] == '\u{786e}');
    assert("5. 复制安装文件到U盘"@[0] == '\u{35}');
    assert("[X] 部分文件下载失败"@[0] == '\u{5b}');
    assert("下载的文件将保存在此目录"@[0] == '\u{4e0b}');
    assert("请确认您已备份重要数据。"@[0] == '\u{8bf7}');
    assert("ZundaLink Installer"@[0] == '\u{5a}');
    assert("ZundaLink Installer"@[10] == '\u{49}');
    assert("ZundaLink 安装U盘制作成功！"@[0] == '\u{5a}');
    assert("ZundaLink 安装U盘制作成功！"@[10] == '\u{5b89}');
    assert("请稍候，正在清除分区并创建新分区..."@[0] == '\u{8bf7}');
    assert("请稍候，正在清除分区并创建新分区..."@[10] == '\u{5e76}');
    assert("[!] 磁盘空间不足"@[0] == '\u{5b}');
    assert("[!] 磁盘空间不足"@[1] == '\u{21}');
    assert("[OK] 安装完成！"@[0] == '\u{5b}');
    assert("[OK] 安装完成！"@[1] == '\u{4f}');
    assert("• 服务器限制了访问"@[0] == '\u{2022}');
    assert("• 服务器限制了访问"@[1] == '\u{20}');
    assert("例如: Q 或 Q:"@[0] == '\u{4f8b}');
    assert("例如: Q 或 Q:"@[1] == '\u{5982}');
    assert("正在格式化U盘..."@[0] == '\u{6b63}');
    assert("正在格式化U盘..."@[1] == '\u{5728}');
    assert("[!] 重要警告"@[0] == '\u{5b}');
    assert("开始格式化并安装"@[0] == '\u{5f00}');
    assert("跳过当前文件校验"@[0] == '\u{8df3}');
    assert("[X] 错误"@[0] == '\u{5b}');
    assert("[X] 错误"@[2] == '\u{5d}');
    assert("下载安装文件"@[0] == '\u{4e0b}');
    assert("下载安装文件"@[2] == '\u{5b89}');
    assert("确认跳过校验"@[0] == '\u{786e}');
    assert("确认跳过校验"@[2] == '\u{8df3}');
    assert("选择其他目录"@[0] == '\u{9009}');
    assert("选择其他目录"@[2] == '\u{5176}');
    assert("选择安装版本"@[0] == '\u{9009}');
    assert("选择安装版本"@[2] == '\u{5b89}');
    assert("选择目标U盘"@[0] == '\u{9009}');
    assert("选择目标U盘"@[2] == '\u{76ee}');
    assert("[重试] 重新下载"@[0] == '\u{5b}');
    assert("[重试] 重新下载"@[2] == '\u{8bd5}');
    assert("• 下载链接已过期"@[0] == '\u{2022}');
    assert("• 下载链接已过期"@[2] == '\u{4e0b}');
    assert("即将执行以下操作:"@[0] == '\u{5373}');
    assert("即将执行以下操作:"@[2] == '\u{6267}');
    assert("检测到的U盘设备:"@[0] == '\u{68c0}');
    assert("检测到的U盘设备:"@[2] == '\u{5230}');
    assert("正在加载配置..."@[0] == '\u{6b63}');
    assert("正在加载配置..."@[2] == '\u{52a0}');
    assert("正在复制文件..."@[0] == '\u{6b63}');
    assert("正在复制文件..."@[2] == '\u{590d}');
    assert("下一步 →"@[0] == '\u{4e0b}');
    assert("下一步 →"@[2] == '\u{6b65}');
    assert("可用版本:"@[0] == '\u{53ef}');
    assert("可用版本:"@[2] == '\u{7248}');
    assert("可用空间:"@[0] == '\u{53ef}');
    assert("可用空间:"@[2] == '\u{7a7a}');
    assert("失败详情:"@[0] == '\u{5931}');
    assert("失败详情:"@[2] == '\u{8be6}');
    assert("已跳过校验"@[0] == '\u{5df2}');
    assert("已跳过校验"@[2] == '\u{8fc7}');
    assert("当前文件:"@[0] == '\u{5f53}');
    assert("当前文件:"@[2] == '\u{6587}');
    assert("所需空间:"@[0] == '\u{6240}');
    assert("所需空间:"@[2] == '\u{7a7a}');
    assert("界面语言:"@[0] == '\u{754c}');
    assert("界面语言:"@[2] == '\u{8bed}');
    assert("目标设备:"@[0] == '\u{76ee}');
    assert("目标设备:"@[2] == '\u{8bbe}');
    assert("下载中"@[0] == '\u{4e0b}');
    assert("校验中"@[0] == '\u{6821}');
    assert("状态:"@[0] == '\u{72b6}');
    assert("等待中"@[0] == '\u{7b49}');
    assert("错误:"@[0] == '\u{9519}');
    assert("取消"@[0] == '\u{53d6}');
    assert("失败"@[0] == '\u{5931}');
    assert("完成"@[0] == '\u{5b8c}');
    assert("未检测到U盘设备。请手动输入盘符:"@[0] == '\u{672a}');
    assert("此操作将格式化U盘并删除所有数据！"@[0] == '\u{6b64}');
    assert("跳过校验可能会导致安装损坏的文件。"@[0] == '\u{8df3}');
    if i == 0 {
        assert(all_keys()[0] == keys::APP_TITLE@);
    } else if i == 1 {
        assert(all_keys()[1] == keys::BUTTON_NEXT@);
    } else if i == 2 {
        assert(all_keys()[2] == keys::BUTTON_BACK@);
    } else if i == 3 {
        assert(all_keys()[3] == keys::BUTTON_REFRESH@);
    } else if i == 4 {
        assert(all_keys()[4] == keys::BUTTON_CANCEL@);
    } else if i == 5 {
        assert(all_keys()[5] == keys::BUTTON_CONFIRM@);
    } else if i == 6 {
        assert(all_keys()[6] == keys::BUTTON_RETRY@);
    } else if i == 7 {
        assert(all_keys()[7] == keys::BUTTON_SELECT_DIR@);
    } else if i == 8 {
        assert(all_keys()[8] == keys::LOADING_TITLE@);
    } else if i == 9 {
        assert(all_keys()[9] == keys::LOADING_MESSAGE@);
    } else if i == 10 {
        assert(all_keys()[10] == keys::VERSION_SELECTION_TITLE@);
    } else if i == 11 {
        assert(all_keys()[11] == keys::AVAILABLE_VERSIONS@);
    } else if i == 12 {
        assert(all_keys()[12] == keys::LATEST_TAG@);
    } else if i == 13 {
        assert(all_keys()[13] == keys::TEMP_DIR_LABEL@);
    } else if i == 14 {
        assert(all_keys()[14] == keys::TEMP_DIR_HINT@);
    } else if i == 15 {
        assert(all_keys()[15] == keys::USB_SELECTION_TITLE@);
    } else if i == 16 {
        assert(all_keys()[16] == keys::USB_WARNING@);
    } else if i == 17 {
        assert(all_keys()[17] == keys::NO_USB_DETECTED@);
    } else if i == 18 {
        assert(all_keys()[18] == keys::USB_DETECTED_DEVICES@);
    } else if i == 19 {
        assert(all_keys()[19] == keys::MANUAL_DRIVE_HINT@);
    } else if i == 20 {
        assert(all_keys()[20] == keys::MANUAL_DRIVE_EXAMPLE@);
    } else if i == 21 {
        assert(all_keys()[21] == keys::FORMAT_WARNING_TITLE@);
    } else if i == 22 {
        assert(all_keys()[22] == keys::FORMAT_WARNING_MESSAGE@);
    } else if i == 23 {
        assert(all_keys()[23] == keys::FORMAT_BACKUP_NOTICE@);
    } else if i == 24 {
        assert(all_keys()[24] == keys::FORMAT_CONFIRM_CHECK@);
    } else if i == 25 {
        assert(all_keys()[25] == keys::DOWNLOADING_TITLE@);
    } else if i == 26 {
        assert(all_keys()[26] == keys::PREPARING_DOWNLOAD@);
    } else if i == 27 {
        assert(all_keys()[27] == keys::VERIFYING@);
    } else if i == 28 {
        assert(all_keys()[28] == keys::SKIP_VERIFY_TITLE@);
    } else if i == 29 {
        assert(all_keys()[29] == keys::SKIP_VERIFY_MESSAGE@);
    } else if i == 30 {
        assert(all_keys()[30] == keys::SKIP_VERIFY_CONFIRM@);
    } else if i == 31 {
        assert(all_keys()[31] == keys::SKIP_CURRENT_VERIFY@);
    } else if i == 32 {
        assert(all_keys()[32] == keys::VERIFY_SKIPPED@);
    } else if i == 33 {
        assert(all_keys()[33] == keys::STATUS_PENDING@);
    } else if i == 34 {
        assert(all_keys()[34] == keys::STATUS_DOWNLOADING@);
    } else if i == 35 {
        assert(all_keys()[35] == keys::STATUS_COMPLETED@);
    } else if i == 36 {
        assert(all_keys()[36] == keys::STATUS_FAILED@);
    } else if i == 37 {
        assert(all_keys()[37] == keys::DOWNLOAD_COMPLETE@);
    } else if i == 38 {
        assert(all_keys()[38] == keys::NEXT_STEP_FORMAT@);
    } else if i == 39 {
        assert(all_keys()[39] == keys::DOWNLOAD_FAILED@);
    } else if i == 40 {
        assert(all_keys()[40] == keys::ERROR_DETAILS@);
    } else if i == 41 {
        assert(all_keys()[41] == keys::TIP_TITLE@);
    } else if i == 42 {
        assert(all_keys()[42] == keys::TIP_403_ERROR@);
    } else if i == 43 {
        assert(all_keys()[43] == keys::TIP_403_CAUSE_1@);
    } else if i == 44 {
        assert(all_keys()[44] == keys::TIP_403_CAUSE_2@);
    } else if i == 45 {
        assert(all_keys()[45] == keys::TIP_403_CAUSE_3@);
    } else if i == 46 {
        assert(all_keys()[46] == keys::TIP_403_SUGGESTION@);
    } else if i == 47 {
        assert(all_keys()[47] == keys::FORMAT_CONFIRMATION_TITLE@);
    } else if i == 48 {
        assert(all_keys()[48] == keys::FINAL_WARNING@);
    } else if i == 49 {
        assert(all_keys()[49] == keys::OPERATIONS_LIST@);
    } else if i == 50 {
        assert(all_keys()[50] == keys::OP_CLEAR_PARTITIONS@);
    } else if i == 51 {
        assert(all_keys()[51] == keys::OP_CREATE_EXFAT@);
    } else if i == 52 {
        assert(all_keys()[52] == keys::OP_SET_LABEL@);
    } else if i == 53 {
        assert(all_keys()[53] == keys::OP_ASSIGN_LETTER@);
    } else if i == 54 {
        assert(all_keys()[54] == keys::OP_COPY_FILES@);
    } else if i == 55 {
        assert(all_keys()[55] == keys::TARGET_DEVICE@);
    } else if i == 56 {
        assert(all_keys()[56] == keys::START_FORMAT@);
    } else if i == 57 {
        assert(all_keys()[57] == keys::FORMATTING_TITLE@);
    } else if i == 58 {
        assert(all_keys()[58] == keys::FORMATTING_MESSAGE@);
    } else if i == 59 {
        assert(all_keys()[59] == keys::FORMATTING_WARNING@);
    } else if i == 60 {
        assert(all_keys()[60] == keys::STATUS_LABEL@);
    } else if i == 61 {
        assert(all_keys()[61] == keys::COPYING_TITLE@);
    } else if i == 62 {
        assert(all_keys()[62] == keys::COPYING_MESSAGE@);
    } else if i == 63 {
        assert(all_keys()[63] == keys::CURRENT_FILE@);
    } else if i == 64 {
        assert(all_keys()[64] == keys::COMPLETED_TITLE@);
    } else if i == 65 {
        assert(all_keys()[65] == keys::COMPLETED_MESSAGE@);
    } else if i == 66 {
        assert(all_keys()[66] == keys::COMPLETED_SUBMESSAGE@);
    } else if i == 67 {
        assert(all_keys()[67] == keys::RETURN_HOME@);
    } else if i == 68 {
        assert(all_keys()[68] == keys::ERROR_TITLE@);
    } else if i == 69 {
        assert(all_keys()[69] == keys::ERROR_PREFIX@);
    } else if i == 70 {
        assert(all_keys()[70] == keys::DISK_SPACE_WARNING_TITLE@);
    } else if i == 71 {
        assert(all_keys()[71] == keys::DISK_SPACE_WARNING_MESSAGE@);
    } else if i == 72 {
        assert(all_keys()[72] == keys::REQUIRED_SPACE@);
    } else if i == 73 {
        assert(all_keys()[73] == keys::AVAILABLE_SPACE@);
    } else if i == 74 {
        assert(all_keys()[74] == keys::SELECT_OTHER_DIR@);
    } else if i == 75 {
        assert(all_keys()[75] == keys::LANGUAGE_SETTINGS@);
    } else if i == 76 {
        assert(all_keys()[76] == keys::LANGUAGE_LABEL@);
    }
}

/// Each key's text in `Language::EnUS` is found again at its own position,
/// but for the second title key, whose text is the first one's.
pub(crate) proof fn lemma_text_index_en(i: int)
    requires
        0 <= i < 77,
    ensures
        text_index(Language::EnUS, text_at(Language::EnUS, i)) == if i == 8 {
            0
        } else {
            i
        },
{
    reveal_strlit("app_title");
    reveal_strlit("available_space");
    reveal_strlit("available_versions");
    reveal_strlit("button_back");
    reveal_strlit("button_cancel");
    reveal_strlit("button_confirm");
    reveal_strlit("button_next");
    reveal_strlit("button_refresh");
    reveal_strlit("button_retry");
    reveal_strlit("button_select_dir");
    reveal_strlit("completed_message");
    reveal_strlit("completed_submessage");
    reveal_strlit("completed_title");
    reveal_strlit("copying_message");
    reveal_strlit("copying_title");
    reveal_strlit("current_file");
    reveal_strlit("disk_space_warning_message");
    reveal_strlit("disk_space_warning_title");
    reveal_strlit("download_complete");
    reveal_strlit("download_failed");
    reveal_strlit("downloading_title");
    reveal_strlit("error_details");
    reveal_strlit("error_prefix");
    reveal_strlit("error_title");
    reveal_strlit("final_warning");
    reveal_strlit("format_backup_notice");
    reveal_strlit("format_confirm_check");
    reveal_strlit("format_confirmation_title");
    reveal_strlit("format_warning_message");
    reveal_strlit("format_warning_title");
    reveal_strlit("formatting_message");
    reveal_strlit("formatting_title");
    reveal_strlit("formatting_warning");
    reveal_strlit("language_label");
    reveal_strlit("language_settings");
    reveal_strlit("latest_tag");
    reveal_strlit("loading_message");
    reveal_strlit("loading_title");
    reveal_strlit("manual_drive_example");
    reveal_strlit("manual_drive_hint");
    reveal_strlit("next_step_format");
    reveal_strlit("no_usb_detected");
    reveal_strlit("op_assign_letter");
    reveal_strlit("op_clear_partitions");
    reveal_strlit("op_copy_files");
    reveal_strlit("op_create_exfat");
    reveal_strlit("op_set_label");
    reveal_strlit("operations_list");
    reveal_strlit("preparing_download");
    reveal_strlit("required_space");
    reveal_strlit("return_home");
    reveal_strlit("select_other_dir");
    reveal_strlit("skip_current_verify");
    reveal_strlit("skip_verify_confirm");
    reveal_strlit("skip_verify_message");
    reveal_strlit("skip_verify_title");
    reveal_strlit("start_format");
    reveal_strlit("status_completed");
    reveal_strlit("status_downloading");
    reveal_strlit("status_failed");
    reveal_strlit("status_label");
    reveal_strlit("status_pending");
    reveal_strlit("target_device");
    reveal_strlit("temp_dir_hint");
    reveal_strlit("temp_dir_label");
    reveal_strlit("tip_403_cause_1");
    reveal_strlit("tip_403_cause_2");
    reveal_strlit("tip_403_cause_3");
    reveal_strlit("tip_403_error");
    reveal_strlit("tip_403_suggestion");
    reveal_strlit("tip_title");
    reveal_strlit("usb_detected_devices");
    reveal_strlit("usb_selection_title");
    reveal_strlit("usb_warning");
    reveal_strlit("verify_skipped");
    reveal_strlit("verifying");
    reveal_strlit("version_selection_title");
    reveal_strlit("(Latest)");
    reveal_strlit("1. Clear all partitions and data");
    reveal_strlit("2. Create new exFAT partition");
    reveal_strlit("3. Set volume label");
    reveal_strlit("4. Assign drive letter Q:");
    reveal_strlit("403 errors usually indicate:");
    reveal_strlit("5. Copy installation files to USB");
    reveal_strlit("Are you sure you want to skip file verification?");
    reveal_strlit("Available Versions:");
    reveal_strlit("Available:");
    reveal_strlit("Cancel");
    reveal_strlit("Completed");
    reveal_strlit("Confirm");
    reveal_strlit("Confirm Skip Verification");
    reveal_strlit("Copying Files...");
    reveal_strlit("Copying installation files to USB drive...");
    reveal_strlit("Current File:");
    reveal_strlit("Detected USB devices:");
    reveal_strlit("Downloaded files will be saved to this directory");
    reveal_strlit("Downloading");
    reveal_strlit("Downloading Installation Files");
    reveal_strlit("Enter drive letter:");
    reveal_strlit("Error Details:");
    reveal_strlit("Error:");
    reveal_strlit("Example: Q or Q:");
    reveal_strlit("Failed");
    reveal_strlit("Final Confirmation");
    reveal_strlit("Formatting USB Drive...");
    reveal_strlit("I understand the risks and confirm to continue");
    reveal_strlit("Interface Language:");
    reveal_strlit("Language Settings");
    reveal_strlit("Loading configuration...");
    reveal_strlit("Next →");
    reveal_strlit("Next: Format USB →");
    reveal_strlit("No USB device detected. Please enter drive letter manually:");
    reveal_strlit("Not enough disk space in temporary directory!");
    reveal_strlit("Pending");
    reveal_strlit("Please make sure you have backed up important data.");
    reveal_strlit("Please wait, clearing partitions and creating new partition...");
    reveal_strlit("Preparing download...");
    reveal_strlit("Required:");
    reveal_strlit("Select Directory");
    reveal_strlit("Select Installation Version");
    reveal_strlit("Select Other Directory");
    reveal_strlit("Select Target USB Drive");
    reveal_strlit("Skip Current File Verification");
    reveal_strlit("Skipping verification may result in installing corrupted files.");
    reveal_strlit("Start Format and Install");
    reveal_strlit("Status:");
    reveal_strlit("Suggestion: Check for new installer version or try again later.");
    reveal_strlit("Target Device:");
    reveal_strlit("Temporary Directory:");
    reveal_strlit("The following operations will be performed:");
    reveal_strlit("This may take a few minutes. Do not remove the USB drive.");
    reveal_strlit("This operation will format the USB drive and delete all data!");
    reveal_strlit("Verification Skipped");
    reveal_strlit("Verifying");
    reveal_strlit("Your USB drive is now ready to install ZundaLink.");
    reveal_strlit("ZundaLink Installer");
    reveal_strlit("ZundaLink installation USB created successfully!");
    reveal_strlit("[!] Final Warning!");
    reveal_strlit("[!] Important Warning");
    reveal_strlit("[!] Insufficient Disk Space");
    reveal_strlit("[!] Warning: This operation will format the selected USB drive and erase all data!");
    reveal_strlit("[OK] All files downloaded!");
    reveal_strlit("[OK] Installation Complete!");
    reveal_strlit("[Retry] Redownload");
    reveal_strlit("[X] Error");
    reveal_strlit("[X] Some files failed to download");
    reveal_strlit("[i] Tip:");
    reveal_strlit("• Download link has expired");
    reveal_strlit("• Installer update required");
    reveal_strlit("• Server access restrictions");
    reveal_strlit("← Back");
    reveal_strlit("← Return to Home");
    reveal_strlit("🔄 Refresh");
    assert("app_title"@.len() == 9);
    assert("available_space"@.len() == 15);
    assert("available_versions"@.len() == 18);
    assert("button_back"@.len() == 11);
    assert("button_cancel"@.len() == 13);
    assert("button_confirm"@.len() == 14);
    assert("button_next"@.len() == 11);
    assert("button_refresh"@.len() == 14);
    assert("button_retry"@.len() == 12);
    assert("button_select_dir"@.len() == 17);
    assert("completed_message"@.len() == 17);
    assert("completed_submessage"@.len() == 20);
    assert("completed_title"@.len() == 15);
    assert("copying_message"@.len() == 15);
    assert("copying_title"@.len() == 13);
    assert("current_file"@.len() == 12);
    assert("disk_space_warning_message"@.len() == 26);
    assert("disk_space_warning_title"@.len() == 24);
    assert("download_complete"@.len() == 17);
    assert("download_failed"@.len() == 15);
    assert("downloading_title"@.len() == 17);
    assert("error_details"@.len() == 13);
    assert("error_prefix"@.len() == 12);
    assert("error_title"@.len() == 11);
    assert("final_warning"@.len() == 13);
    assert("format_backup_notice"@.len() == 20);
    assert("format_confirm_check"@.len() == 20);
    assert("format_confirmation_title"@.len() == 25);
    assert("format_warning_message"@.len() == 22);
    assert("format_warning_title"@.len() == 20);
    assert("formatting_message"@.len() == 18);
    assert("formatting_title"@.len() == 16);
    assert("formatting_warning"@.len() == 18);
    assert("language_label"@.len() == 14);
    assert("language_settings"@.len() == 17);
    assert("latest_tag"@.len() == 10);
    assert("loading_message"@.len() == 15);
    assert("loading_title"@.len() == 13);
    assert("manual_drive_example"@.len() == 20);
    assert("manual_drive_hint"@.len() == 17);
    assert("next_step_format"@.len() == 16);
    assert("no_usb_detected"@.len() == 15);
    assert("op_assign_letter"@.len() == 16);
    assert("op_clear_partitions"@.len() == 19);
    assert("op_copy_files"@.len() == 13);
    assert("op_create_exfat"@.len() == 15);
    assert("op_set_label"@.len() == 12);
    assert("operations_list"@.len() == 15);
    assert("preparing_download"@.len() == 18);
    assert("required_space"@.len() == 14);
    assert("return_home"@.len() == 11);
    assert("select_other_dir"@.len() == 16);
    assert("skip_current_verify"@.len() == 19);
    assert("skip_verify_confirm"@.len() == 19);
    assert("skip_verify_message"@.len() == 19);
    assert("skip_verify_title"@.len() == 17);
    assert("start_format"@.len() == 12);
    assert("status_completed"@.len() == 16);
    assert("status_downloading"@.len() == 18);
    assert("status_failed"@.len() == 13);
    assert("status_label"@.len() == 12);
    assert("status_pending"@.len() == 14);
    assert("target_device"@.len() == 13);
    assert("temp_dir_hint"@.len() == 13);
    assert("temp_dir_label"@.len() == 14);
    assert("tip_403_cause_1"@.len() == 15);
    assert("tip_403_cause_2"@.len() == 15);
    assert("tip_403_cause_3"@.len() == 15);
    assert("tip_403_error"@.len() == 13);
    assert("tip_403_suggestion"@.len() == 18);
    assert("tip_title"@.len() == 9);
    assert("usb_detected_devices"@.len() == 20);
    assert("usb_selection_title"@.len() == 19);
    assert("usb_warning"@.len() == 11);
    assert("verify_skipped"@.len() == 14);
    assert("verifying"@.len() == 9);
    assert("version_selection_title"@.len() == 23);
    assert("app_title"@[0] == '\u{61}');
    assert("tip_title"@[0] == '\u{74}');
    assert("verifying"@[0] == '\u{76}');
    assert("available_space"@[0] == '\u{61}');
    assert("available_space"@[2] == '\u{61}');
    assert("available_space"@[14] == '\u{65}');
    assert("completed_title"@[0] == '\u{63}');
    assert("completed_title"@[2] == '\u{6d}');
    assert("completed_title"@[14] == '\u{65}');
    assert("copying_message"@[0] == '\u{63}');
    assert("copying_message"@[2] == '\u{70}');
    assert("copying_message"@[14] == '\u{65}');
    assert("download_failed"@[0] == '\u{64}');
    assert("download_failed"@[2] == '\u{77}');
    assert("download_failed"@[14] == '\u{64}');
    assert("loading_message"@[0] == '\u{6c}');
    assert("loading_message"@[2] == '\u{61}');
    assert("loading_message"@[14] == '\u{65}');
    assert("no_usb_detected"@[0] == '\u{6e}');
    assert("no_usb_detected"@[2] == '\u{5f}');
    assert("no_usb_detected"@[14] == '\u{64}');
    assert("op_create_exfat"@[0] == '\u{6f}');
    assert("op_create_exfat"@[2] == '\u{5f}');
    assert("op_create_exfat"@[14] == '\u{74}');
    assert("operations_list"@[0] == '\u{6f}');
    assert("operations_list"@[2] == '\u{65}');
    assert("operations_list"@[14] == '\u{74}');
    assert("tip_403_cause_1"@[0] == '\u{74}');
    assert("tip_403_cause_1"@[2] == '\u{70}');
    assert("tip_403_cause_1"@[14] == '\u{31}');
    assert("tip_403_cause_2"@[0] == '\u{74}');
    assert("tip_403_cause_2"@[2] == '\u{70}');
    assert("tip_403_cause_2"@[14] == '\u{32}');
    assert("tip_403_cause_3"@[0] == '\u{74}');
    assert("tip_403_cause_3"@[2] == '\u{70}');
    assert("tip_403_cause_3"@[14] == '\u{33}');
    assert("available_versions"@[0] == '\u{61}');
    assert("available_versions"@[11] == '\u{65}');
    assert("formatting_message"@[0] == '\u{66}');
    assert("formatting_message"@[11] == '\u{6d}');
    assert("formatting_warning"@[0] == '\u{66}');
    assert("formatting_warning"@[11] == '\u{77}');
    assert("preparing_download"@[0] == '\u{70}');
    assert("preparing_download"@[11] == '\u{6f}');
    assert("status_downloading"@[0] == '\u{73}');
    assert("status_downloading"@[11] == '\u{6c}');
    assert("tip_403_suggestion"@[0] == '\u{74}');
    assert("tip_403_suggestion"@[11] == '\u{67}');
    assert("button_back"@[0] == '\u{62}');
    assert("button_back"@[7] == '\u{62}');
    assert("button_next"@[0] == '\u{62}');
    assert("button_next"@[7] == '\u{6e}');
    assert("error_title"@[0] == '\u{65}');
    assert("error_title"@[7] == '\u{69}');
    assert("return_home"@[0] == '\u{72}');
    assert("return_home"@[7] == '\u{68}');
    assert("usb_warning"@[0] == '\u{75}');
    assert("usb_warning"@[7] == '\u{6e}');
    assert("button_cancel"@[0] == '\u{62}');
    assert("button_cancel"@[1] == '\u{75}');
    assert("copying_title"@[0] == '\u{63}');
    assert("copying_title"@[1] == '\u{6f}');
    assert("error_details"@[0] == '\u{65}');
    assert("error_details"@[1] == '\u{72}');
    assert("final_warning"@[0] == '\u{66}');
    assert("final_warning"@[1] == '\u{69}');
    assert("loading_title"@[0] == '\u{6c}');
    assert("loading_title"@[1] == '\u{6f}');
    assert("op_copy_files"@[0] == '\u{6f}');
    assert("op_copy_files"@[1] == '\u{70}');
    assert("status_failed"@[0] == '\u{73}');
    assert("status_failed"@[1] == '\u{74}');
    assert("target_device"@[0] == '\u{74}');
    assert("target_device"@[1] == '\u{61}');
    assert("temp_dir_hint"@[0] == '\u{74}');
    assert("temp_dir_hint"@[1] == '\u{65}');
    assert("tip_403_error"@[0] == '\u{74}');
    assert("tip_403_error"@[1] == '\u{69}');
    assert("button_confirm"@[0] == '\u{62}');
    assert("button_confirm"@[7] == '\u{63}');
    assert("button_refresh"@[0] == '\u{62}');
    assert("button_refresh"@[7] == '\u{72}');
    assert("language_label"@[0] == '\u{6c}');
    assert("language_label"@[7] == '\u{65}');
    assert("required_space"@[0] == '\u{72}');
    assert("required_space"@[7] == '\u{64}');
    assert("status_pending"@[0] == '\u{73}');
    assert("status_pending"@[7] == '\u{70}');
    assert("temp_dir_label"@[0] == '\u{74}');
    assert("temp_dir_label"@[7] == '\u{72}');
    assert("verify_skipped"@[0] == '\u{76}');
    assert("verify_skipped"@[7] == '\u{73}');
    assert("button_retry"@[0] == '\u{62}');
    assert("button_retry"@[3] == '\u{74}');
    assert("current_file"@[0] == '\u{63}');
    assert("current_file"@[3] == '\u{72}');
    assert("error_prefix"@[0] == '\u{65}');
    assert("error_prefix"@[3] == '\u{6f}');
    assert("op_set_label"@[0] == '\u{6f}');
    assert("op_set_label"@[3] == '\u{73}');
    assert("start_format"@[0] == '\u{73}');
    assert("start_format"@[3] == '\u{72}');
    assert("status_label"@[0] == '\u{73}');
    assert("status_label"@[3] == '\u{74}');
    assert("button_select_dir"@[0] == '\u{62}');
    assert("button_select_dir"@[8] == '\u{65}');
    assert("completed_message"@[0] == '\u{63}');
    assert("completed_message"@[8] == '\u{64}');
    assert("download_complete"@[0] == '\u{64}');
    assert("download_complete"@[8] == '\u{5f}');
    assert("downloading_title"@[0] == '\u{64}');
    assert("downloading_title"@[8] == '\u{69}');
    assert("language_settings"@[0] == '\u{6c}');
    assert("language_settings"@[8] == '\u{5f}');
    assert("manual_drive_hint"@[0] == '\u{6d}');
    assert("manual_drive_hint"@[8] == '\u{72}');
    assert("skip_verify_title"@[0] == '\u{73}');
    assert("skip_verify_title"@[8] == '\u{69}');
    assert("completed_submessage"@[0] == '\u{63}');
    assert("completed_submessage"@[7] == '\u{65}');
    assert("format_backup_notice"@[0] == '\u{66}');
    assert("format_backup_notice"@[7] == '\u{62}');
    assert("format_confirm_check"@[0] == '\u{66}');
    assert("format_confirm_check"@[7] == '\u{63}');
    assert("format_warning_title"@[0] == '\u{66}');
    assert("format_warning_title"@[7] == '\u{77}');
    assert("manual_drive_example"@[0] == '\u{6d}');
    assert("manual_drive_example"@[7] == '\u{64}');
    assert("usb_detected_devices"@[0] == '\u{75}');
    assert("usb_detected_devices"@[7] == '\u{65}');
    assert("formatting_title"@[0] == '\u{66}');
    assert("formatting_title"@[1] == '\u{6f}');
    assert("next_step_format"@[0] == '\u{6e}');
    assert("next_step_format"@[1] == '\u{65}');
    assert("op_assign_letter"@[0] == '\u{6f}');
    assert("op_assign_letter"@[1] == '\u{70}');
    assert("select_other_dir"@[0] == '\u{73}');
    assert("select_other_dir"@[1] == '\u{65}');
    assert("status_completed"@[0] == '\u{73}');
    assert("status_completed"@[1] == '\u{74}');
    assert("op_clear_partitions"@[0] == '\u{6f}');
    assert("op_clear_partitions"@[5] == '\u{65}');
    assert("op_clear_partitions"@[12] == '\u{74}');
    assert("skip_current_verify"@[0] == '\u{73}');
    assert("skip_current_verify"@[5] == '\u{63}');
    assert("skip_current_verify"@[12] == '\u{5f}');
    assert("skip_verify_confirm"@[0] == '\u{73}');
    assert("skip_verify_confirm"@[5] == '\u{76}');
    assert("skip_verify_confirm"@[12] == '\u{63}');
    assert("skip_verify_message"@[0] == '\u{73}');
    assert("skip_verify_message"@[5] == '\u{76}');
    assert("skip_verify_message"@[12] == '\u{6d}');
    assert("usb_selection_title"@[0] == '\u{75}');
    assert("usb_selection_title"@[5] == '\u{65}');
    assert("usb_selection_title"@[12] == '\u{6e}');
    assert("(Latest)"@.len() == 8);
    assert("1. Clear all partitions and data"@.len() == 32);
    assert("2. Create new exFAT partition"@.len() == 29);
    assert("3. Set volume label"@.len() == 19);
    assert("4. Assign drive letter Q:"@.len() == 25);
    assert("403 errors usually indicate:"@.len() == 28);
    assert("5. Copy installation files to USB"@.len() == 33);
    assert("Are you sure you want to skip file verification?"@.len() == 48);
    assert("Available Versions:"@.len() == 19);
    assert("Available:"@.len() == 10);
    assert("Cancel"@.len() == 6);
    assert("Completed"@.len() == 9);
    assert("Confirm"@.len() == 7);
    assert("Confirm Skip Verification"@.len() == 25);
    assert("Copying Files..."@.len() == 16);
    assert("Copying installation files to USB drive..."@.len() == 42);
    assert("Current File:"@.len() == 13);
    assert("Detected USB devices:"@.len() == 21);
    assert("Downloaded files will be saved to this directory"@.len() == 48);
    assert("Downloading"@.len() == 11);
    assert("Downloading Installation Files"@.len() == 30);
    assert("Enter drive letter:"@.len() == 19);
    assert("Error Details:"@.len() == 14);
    assert("Error:"@.len() == 6);
    assert("Example: Q or Q:"@.len() == 16);
    assert("Failed"@.len() == 6);
    assert("Final Confirmation"@.len() == 18);
    assert("Formatting USB Drive..."@.len() == 23);
    assert("I understand the risks and confirm to continue"@.len() == 46);
    assert("Interface Language:"@.len() == 19);
    assert("Language Settings"@.len() == 17);
    assert("Loading configuration..."@.len() == 24);
    assert("Next →"@.len() == 6);
    assert("Next: Format USB →"@.len() == 18);
    assert("No USB device detected. Please enter drive letter manually:"@.len() == 59);
    assert("Not enough disk space in temporary directory!"@.len() == 45);
    assert("Pending"@.len() == 7);
    assert("Please make sure you have backed up important data."@.len() == 51);
    assert("Please wait, clearing partitions and creating new partition..."@.len() == 62);
    assert("Preparing download..."@.len() == 21);
    assert("Required:"@.len() == 9);
    assert("Select Directory"@.len() == 16);
    assert("Select Installation Version"@.len() == 27);
    assert("Select Other Directory"@.len() == 22);
    assert("Select Target USB Drive"@.len() == 23);
    assert("Skip Current File Verification"@.len() == 30);
    assert("Skipping verification may result in installing corrupted files."@.len() == 63);
    assert("Start Format and Install"@.len() == 24);
    assert("Status:"@.len() == 7);
    assert("Suggestion: Check for new installer version or try again later."@.len() == 63);
    assert("Target Device:"@.len() == 14);
    assert("Temporary Directory:"@.len() == 20);
    assert("The following operations will be performed:"@.len() == 43);
    assert("This may take a few minutes. Do not remove the USB drive."@.len() == 57);
    assert("This operation will format the USB drive and delete all data!"@.len() == 61);
    assert("Verification Skipped"@.len() == 20);
    assert("Verifying"@.len() == 9);
    assert("Your USB drive is now ready to install ZundaLink."@.len() == 49);
    assert("ZundaLink Installer"@.len() == 19);
    assert("ZundaLink installation USB created successfully!"@.len() == 48);
    assert("[!] Final Warning!"@.len() == 18);
    assert("[!] Important Warning"@.len() == 21);
    assert("[!] Insufficient Disk Space"@.len() == 27);
    assert("[!] Warning: This operation will format the selected USB drive and erase all data!"@.len() == 82);
    assert("[OK] All files downloaded!"@.len() == 26);
    assert("[OK] Installation Complete!"@.len() == 27);
    assert("[Retry] Redownload"@.len() == 18);
    assert("[X] Error"@.len() == 9);
    assert("[X] Some files failed to download"@.len() == 33);
    assert("[i] Tip:"@.len() == 8);
    assert("• Download link has expired"@.len() == 27);
    assert("• Installer update required"@.len() == 27);
    assert("• Server access restrictions"@.len() == 28);
    assert("← Back"@.len() == 6);
    assert("← Return to Home"@.len() == 16);
    assert("🔄 Refresh"@.len() == 9);
    assert("(Latest)"@[0] == '\u{28}');
    assert("[i] Tip:"@[0] == '\u{5b}');
    assert("3. Set volume label"@[0] == '\u{33}');
    assert("Available Versions:"@[0] == '\u{41}');
    assert("Enter drive letter:"@[0] == '\u{45}');
    assert("Interface Language:"@[0] == '\u{49}');
    assert("ZundaLink Installer"@[0] == '\u{5a}');
    assert("4. Assign drive letter Q:"@[0] == '\u{34}');
    assert("Confirm Skip Verification"@[0] == '\u{43}');
    assert("403 errors usually indicate:"@[0] == '\u{34}');
    assert("• Server access restrictions"@[0] == '\u{2022}');
    assert("5. Copy installation files to USB"@[0] == '\u{35}');
    assert("[X] Some files failed to download"@[0] == '\u{5b}');
    assert("Are you sure you want to skip file verification?"@[0] == '\u{41}');
    assert("Downloaded files will be saved to this directory"@[0] == '\u{44}');
    assert("ZundaLink installation USB created successfully!"@[0] == '\u{5a}');
    assert("Cancel"@[0] == '\u{43}');
    assert("Error:"@[0] == '\u{45}');
    assert("Failed"@[0] == '\u{46}');
    assert("Next →"@[0] == '\u{4e}');
    assert("← Back"@[0] == '\u{2190}');
    assert("Completed"@[0] == '\u{43}');
    assert("Required:"@[0] == '\u{52}');
    assert("Verifying"@[0] == '\u{56}');
    assert("[X] Error"@[0] == '\u{5b}');
    assert("🔄 Refresh"@[0] == '\u{1f504}');
    assert("Confirm"@[0] == '\u{43}');
    assert("Pending"@[0] == '\u{50}');
    assert("Status:"@[0] == '\u{53}');
    assert("Copying Files..."@[0] == '\u{43}');
    assert("Example: Q or Q:"@[0] == '\u{45}');
    assert("Select Directory"@[0] == '\u{53}');
    assert("← Return to Home"@[0] == '\u{2190}');
    assert("Detected USB devices:"@[0] == '\u{44}');
    assert("Preparing download..."@[0] == '\u{50}');
    assert("[!] Important Warning"@[0] == '\u{5b}');
    assert("Downloading Installation Files"@[0] == '\u{44}');
    assert("Skip Current File Verification"@[0] == '\u{53}');
    assert("Error Details:"@[0] == '\u{45}');
    assert("Target Device:"@[0] == '\u{54}');
    assert("Final Confirmation"@[0] == '\u{46}');
    assert("Final Confirmation"@[1] == '\u{69}');
    assert("Next: Format USB →"@[0] == '\u{4e}');
    assert("Next: Format USB →"@[1] == '\u{65}');
    assert("[!] Final Warning!"@[0] == '\u{5b}');
    assert("[!] Final Warning!"@[1] == '\u{21}');
    assert("[Retry] Redownload"@[0] == '\u{5b}');
    assert("[Retry] Redownload"@[1] == '\u{52}');
    assert("Formatting USB Drive..."@[0] == '\u{46}');
    assert("Select Target USB Drive"@[0] == '\u{53}');
    assert("Loading configuration..."@[0] == '\u{4c}');
    assert("Start Format and Install"@[0] == '\u{53}');
    assert("Select Installation Version"@[0] == '\u{53}');
    assert("Select Installation Version"@[1] == '\u{65}');
    assert("Select Installation Version"@[2] == '\u{6c}');
    assert("[!] Insufficient Disk Space"@[0] == '\u{5b}');
    assert("[!] Insufficient Disk Space"@[1] == '\u{21}');
    assert("[!] Insufficient Disk Space"@[2] == '\u{5d}');
    assert("[OK] Installation Complete!"@[0] == '\u{5b}');
    assert("[OK] Installation Complete!"@[1] == '\u{4f}');
    assert("[OK] Installation Complete!"@[2] == '\u{4b}');
    assert("• Download link has expired"@[0] == '\u{2022}');
    assert("• Download link has expired"@[1] == '\u{20}');
    assert("• Download link has expired"@[2] == '\u{44}');
    assert("• Installer update required"@[0] == '\u{2022}');
    assert("• Installer update required"@[1] == '\u{20}');
    assert("• Installer update required"@[2] == '\u{49}');
    assert("Skipping verification may result in installing corrupted files."@[1] == '\u{6b}');
    assert("Suggestion: Check for new installer version or try again later."@[1] == '\u{75}');
    assert("Temporary Directory:"@[0] == '\u{54}');
    assert("Verification Skipped"@[0] == '\u{56}');
    if i == 0 {
        assert(all_keys()[0] == keys::APP_TITLE@);
    } else if i == 1 {
        assert(all_keys()[1] == keys::BUTTON_NEXT@);
    } else if i == 2 {
        assert(all_keys()[2] == keys::BUTTON_BACK@);
    } else if i == 3 {
        assert(all_keys()[3] == keys::BUTTON_REFRESH@);
    } else if i == 4 {
        assert(all_keys()[4] == keys::BUTTON_CANCEL@);
    } else if i == 5 {
        assert(all_keys()[5] == keys::BUTTON_CONFIRM@);
    } else if i == 6 {
        assert(all_keys()[6] == keys::BUTTON_RETRY@);
    } else if i == 7 {
        assert(all_keys()[7] == keys::BUTTON_SELECT_DIR@);
    } else if i == 8 {
        assert(all_keys()[8] == keys::LOADING_TITLE@);
    } else if i == 9 {
        assert(all_keys()[9] == keys::LOADING_MESSAGE@);
    } else if i == 10 {
        assert(all_keys()[10] == keys::VERSION_SELECTION_TITLE@);
    } else if i == 11 {
        assert(all_keys()[11] == keys::AVAILABLE_VERSIONS@);
    } else if i == 12 {
        assert(all_keys()[12] == keys::LATEST_TAG@);
    } else if i == 13 {
        assert(all_keys()[13] == keys::TEMP_DIR_LABEL@);
    } else if i == 14 {
        assert(all_keys()[14] == keys::TEMP_DIR_HINT@);
    } else if i == 15 {
        assert(all_keys()[15] == keys::USB_SELECTION_TITLE@);
    } else if i == 16 {
        assert(all_keys()[16] == keys::USB_WARNING@);
    } else if i == 17 {
        assert(all_keys()[17] == keys::NO_USB_DETECTED@);
    } else if i == 18 {
        assert(all_keys()[18] == keys::USB_DETECTED_DEVICES@);
    } else if i == 19 {
        assert(all_keys()[19] == keys::MANUAL_DRIVE_HINT@);
    } else if i == 20 {
        assert(all_keys()[20] == keys::MANUAL_DRIVE_EXAMPLE@);
    } else if i == 21 {
        assert(all_keys()[21] == keys::FORMAT_WARNING_TITLE@);
    } else if i == 22 {
        assert(all_keys()[22] == keys::FORMAT_WARNING_MESSAGE@);
    } else if i == 23 {
        assert(all_keys()[23] == keys::FORMAT_BACKUP_NOTICE@);
    } else if i == 24 {
        assert(all_keys()[24] == keys::FORMAT_CONFIRM_CHECK@);
    } else if i == 25 {
        assert(all_keys()[25] == keys::DOWNLOADING_TITLE@);
    } else if i == 26 {
        assert(all_keys()[26] == keys::PREPARING_DOWNLOAD@);
    } else if i == 27 {
        assert(all_keys()[27] == keys::VERIFYING@);
    } else if i == 28 {
        assert(all_keys()[28] == keys::SKIP_VERIFY_TITLE@);
    } else if i == 29 {
        assert(all_keys()[29] == keys::SKIP_VERIFY_MESSAGE@);
    } else if i == 30 {
        assert(all_keys()[30] == keys::SKIP_VERIFY_CONFIRM@);
    } else if i == 31 {
        assert(all_keys()[31] == keys::SKIP_CURRENT_VERIFY@);
    } else if i == 32 {
        assert(all_keys()[32] == keys::VERIFY_SKIPPED@);
    } else if i == 33 {
        assert(all_keys()[33] == keys::STATUS_PENDING@);
    } else if i == 34 {
        assert(all_keys()[34] == keys::STATUS_DOWNLOADING@);
    } else if i == 35 {
        assert(all_keys()[35] == keys::STATUS_COMPLETED@);
    } else if i == 36 {
        assert(all_keys()[36] == keys::STATUS_FAILED@);
    } else if i == 37 {
        assert(all_keys()[37] == keys::DOWNLOAD_COMPLETE@);
    } else if i == 38 {
        assert(all_keys()[38] == keys::NEXT_STEP_FORMAT@);
    } else if i == 39 {
        assert(all_keys()[39] == keys::DOWNLOAD_FAILED@);
    } else if i == 40 {
        assert(all_keys()[40] == keys::ERROR_DETAILS@);
    } else if i == 41 {
        assert(all_keys()[41] == keys::TIP_TITLE@);
    } else if i == 42 {
        assert(all_keys()[42] == keys::TIP_403_ERROR@);
    } else if i == 43 {
        assert(all_keys()[43] == keys::TIP_403_CAUSE_1@);
    } else if i == 44 {
        assert(all_keys()[44] == keys::TIP_403_CAUSE_2@);
    } else if i == 45 {
        assert(all_keys()[45] == keys::TIP_403_CAUSE_3@);
    } else if i == 46 {
        assert(all_keys()[46] == keys::TIP_403_SUGGESTION@);
    } else if i == 47 {
        assert(all_keys()[47] == keys::FORMAT_CONFIRMATION_TITLE@);
    } else if i == 48 {
        assert(all_keys()[48] == keys::FINAL_WARNING@);
    } else if i == 49 {
        assert(all_keys()[49] == keys::OPERATIONS_LIST@);
    } else if i == 50 {
        assert(all_keys()[50] == keys::OP_CLEAR_PARTITIONS@);
    } else if i == 51 {
        assert(all_keys()[51] == keys::OP_CREATE_EXFAT@);
    } else if i == 52 {
        assert(all_keys()[52] == keys::OP_SET_LABEL@);
    } else if i == 53 {
        assert(all_keys()[53] == keys::OP_ASSIGN_LETTER@);
    } else if i == 54 {
        assert(all_keys()[54] == keys::OP_COPY_FILES@);
    } else if i == 55 {
        assert(all_keys()[55] == keys::TARGET_DEVICE@);
    } else if i == 56 {
        assert(all_keys()[56] == keys::START_FORMAT@);
    } else if i == 57 {
        assert(all_keys()[57] == keys::FORMATTING_TITLE@);
    } else if i == 58 {
        assert(all_keys()[58] == keys::FORMATTING_MESSAGE@);
    } else if i == 59 {
        assert(all_keys()[59] == keys::FORMATTING_WARNING@);
    } else if i == 60 {
        assert(all_keys()[60] == keys::STATUS_LABEL@);
    } else if i == 61 {
        assert(all_keys()[61] == keys::COPYING_TITLE@);
    } else if i == 62 {
        assert(all_keys()[62] == keys::COPYING_MESSAGE@);
    } else if i == 63 {
        assert(all_keys()[63] == keys::CURRENT_FILE@);
    } else if i == 64 {
        assert(all_keys()[64] == keys::COMPLETED_TITLE@);
    } else if i == 65 {
        assert(all_keys()[65] == keys::COMPLETED_MESSAGE@);
    } else if i == 66 {
        assert(all_keys()[66] == keys::COMPLETED_SUBMESSAGE@);
    } else if i == 67 {
        assert(all_keys()[67] == keys::RETURN_HOME@);
    } else if i == 68 {
        assert(all_keys()[68] == keys::ERROR_TITLE@);
    } else if i == 69 {
        assert(all_keys()[69] == keys::ERROR_PREFIX@);
    } else if i == 70 {
        assert(all_keys()[70] == keys::DISK_SPACE_WARNING_TITLE@);
    } else if i == 71 {
        assert(all_keys()[71] == keys::DISK_SPACE_WARNING_MESSAGE@);
    } else if i == 72 {
        assert(all_keys()[72] == keys::REQUIRED_SPACE@);
    } else if i == 73 {
        assert(all_keys()[73] == keys::AVAILABLE_SPACE@);
    } else if i == 74 {
        assert(all_keys()[74] == keys::SELECT_OTHER_DIR@);
    } else if i == 75 {
        assert(all_keys()[75] == keys::LANGUAGE_SETTINGS@);
    } else if i == 76 {
        assert(all_keys()[76] == keys::LANGUAGE_LABEL@);
    }
}

/// Each key's text in `Language::JaJP` is found again at its own position,
/// but for the second title key, whose text is the first one's.
pub(crate) proof fn lemma_text_index_ja(i: int)
    requires
        0 <= i < 77,
    ensures
        text_index(Language::JaJP, text_at(Language::JaJP, i)) == if i == 8 {
            0
        } else {
            i
        },
{
    reveal_strlit("app_title");
    reveal_strlit("available_space");
    reveal_strlit("available_versions");
    reveal_strlit("button_back");
    reveal_strlit("button_cancel");
    reveal_strlit("button_confirm");
    reveal_strlit("button_next");
    reveal_strlit("button_refresh");
    reveal_strlit("button_retry");
    reveal_strlit("button_select_dir");
    reveal_strlit("completed_message");
    reveal_strlit("completed_submessage");
    reveal_strlit("completed_title");
    reveal_strlit("copying_message");
    reveal_strlit("copying_title");
    reveal_strlit("current_file");
    reveal_strlit("disk_space_warning_message");
    reveal_strlit("disk_space_warning_title");
    reveal_strlit("download_complete");
    reveal_strlit("download_failed");
    reveal_strlit("downloading_title");
    reveal_strlit("error_details");
    reveal_strlit("error_prefix");
    reveal_strlit("error_title");
    reveal_strlit("final_warning");
    reveal_strlit("format_backup_notice");
    reveal_strlit("format_confirm_check");
    reveal_strlit("format_confirmation_title");
    reveal_strlit("format_warning_message");
    reveal_strlit("format_warning_title");
    reveal_strlit("formatting_message");
    reveal_strlit("formatting_title");
    reveal_strlit("formatting_warning");
    reveal_strlit("language_label");
    reveal_strlit("language_settings");
    reveal_strlit("latest_tag");
    reveal_strlit("loading_message");
    reveal_strlit("loading_title");
    reveal_strlit("manual_drive_example");
    reveal_strlit("manual_drive_hint");
    reveal_strlit("next_step_format");
    reveal_strlit("no_usb_detected");
    reveal_strlit("op_assign_letter");
    reveal_strlit("op_clear_partitions");
    reveal_strlit("op_copy_files");
    reveal_strlit("op_create_exfat");
    reveal_strlit("op_set_label");
    reveal_strlit("operations_list");
    reveal_strlit("preparing_download");
    reveal_strlit("required_space");
    reveal_strlit("return_home");
    reveal_strlit("select_other_dir");
    reveal_strlit("skip_current_verify");
    reveal_strlit("skip_verify_confirm");
    reveal_strlit("skip_verify_message");
    reveal_strlit("skip_verify_title");
    reveal_strlit("start_format");
    reveal_strlit("status_completed");
    reveal_strlit("status_downloading");
    reveal_strlit("status_failed");
    reveal_strlit("status_label");
    reveal_strlit("status_pending");
    reveal_strlit("target_device");
    reveal_strlit("temp_dir_hint");
    reveal_strlit("temp_dir_label");
    reveal_strlit("tip_403_cause_1");
    reveal_strlit("tip_403_cause_2");
    reveal_strlit("tip_403_cause_3");
    reveal_strlit("tip_403_error");
    reveal_strlit("tip_403_suggestion");
    reveal_strlit("tip_title");
    reveal_strlit("usb_detected_devices");
    reveal_strlit("usb_selection_title");
    reveal_strlit("usb_warning");
    reveal_strlit("verify_skipped");
    reveal_strlit("verifying");
    reveal_strlit("version_selection_title");
    reveal_strlit("(最新)");
    reveal_strlit("1. すべてのパーティションとデータを削除");
    reveal_strlit("2. 新しいexFATパーティションを作成");
    reveal_strlit("3. ボリュームラベルを設定");
    reveal_strlit("4. ドライブ文字Q:を割り当て");
    reveal_strlit("403エラーは通常、以下を示します:");
    reveal_strlit("5. インストールファイルをUSBにコピー");
    reveal_strlit("USBデバイスが検出されませんでした。ドライブ文字を手動で入力してください:");
    reveal_strlit("USBドライブはZundaLinkのインストール準備ができました。");
    reveal_strlit("USBドライブをフォーマット中...");
    reveal_strlit("ZundaLink Installer");
    reveal_strlit("ZundaLinkインストールUSBが正常に作成されました！");
    reveal_strlit("[!] ディスク容量不足");
    reveal_strlit("[!] 最終警告！");
    reveal_strlit("[!] 警告: この操作は選択したUSBドライブをフォーマットし、すべてのデータを削除します！");
    reveal_strlit("[!] 重要な警告");
    reveal_strlit("[OK] すべてのファイルがダウンロードされました！");
    reveal_strlit("[OK] インストール完了！");
    reveal_strlit("[X] エラー");
    reveal_strlit("[X] 一部のファイルのダウンロードに失敗しました");
    reveal_strlit("[i] ヒント:");
    reveal_strlit("[再試行] 再ダウンロード");
    reveal_strlit("• インストーラーの更新が必要");
    reveal_strlit("• サーバーアクセス制限");
    reveal_strlit("• ダウンロードリンクが期限切れ");
    reveal_strlit("← ホームに戻る");
    reveal_strlit("← 戻る");
    reveal_strlit("お待ちください。パーティションを削除し、新しいパーティションを作成中...");
    reveal_strlit("この操作はUSBドライブをフォーマットし、すべてのデータを削除します！");
    reveal_strlit("これには数分かかる場合があります。USBドライブを取り外さないでください。");
    reveal_strlit("インストールバージョンを選択");
    reveal_strlit("インストールファイルをUSBドライブにコピー中...");
    reveal_strlit("インストールファイルをダウンロード中");
    reveal_strlit("インターフェース言語:");
    reveal_strlit("エラー:");
    reveal_strlit("エラーの詳細:");
    reveal_strlit("キャンセル");
    reveal_strlit("ダウンロードしたファイルはこのディレクトリに保存されます");
    reveal_strlit("ダウンロードを準備中...");
    reveal_strlit("ダウンロード中");
    reveal_strlit("ディレクトリを選択");
    reveal_strlit("ドライブ文字を入力:");
    reveal_strlit("ファイルをコピー中...");
    reveal_strlit("ファイル検証をスキップしてもよろしいですか？");
    reveal_strlit("フォーマットとインストールを開始");
    reveal_strlit("リスクを理解し、続行することを確認します");
    reveal_strlit("一時ディレクトリ:");
    reveal_strlit("一時ディレクトリのディスク容量が不足しています！");
    reveal_strlit("以下の操作が実行されます:");
    reveal_strlit("例: Q または Q:");
    reveal_strlit("別のディレクトリを選択");
    reveal_strlit("利用可能:");
    reveal_strlit("利用可能なバージョン:");
    reveal_strlit("失敗");
    reveal_strlit("完了");
    reveal_strlit("対象USBドライブを選択");
    reveal_strlit("対象デバイス:");
    reveal_strlit("待機中");
    reveal_strlit("必要:");
    reveal_strlit("提案: 新しいバージョンのインストーラーを確認するか、後でもう一度お試しください。");
    reveal_strlit("最終確認");
    reveal_strlit("検出されたUSBデバイス:");
    reveal_strlit("検証のスキップを確認");
    reveal_strlit("検証をスキップしました");
    reveal_strlit("検証をスキップすると、破損したファイルがインストールされる可能性があります。");
    reveal_strlit("検証中");
    reveal_strlit("次へ →");
    reveal_strlit("次へ: USBをフォーマット →");
    reveal_strlit("状態:");
    reveal_strlit("現在のファイル:");
    reveal_strlit("現在のファイル検証をスキップ");
    reveal_strlit("確認");
    reveal_strlit("言語設定");
    reveal_strlit("設定を読み込み中...");
    reveal_strlit("重要なデータをバックアップしたことを確認してください。");
    reveal_strlit("🔄 更新");
    assert("app_title"@.len() == 9);
    assert("available_space"@.len() == 15);
    assert("available_versions"@.len() == 18);
    assert("button_back"@.len() == 11);
    assert("button_cancel"@.len() == 13);
    assert("button_confirm"@.len() == 14);
    assert("button_next"@.len() == 11);
    assert("button_refresh"@.len() == 14);
    assert("button_retry"@.len() == 12);
    assert("button_select_dir"@.len() == 17);
    assert("completed_message"@.len() == 17);
    assert("completed_submessage"@.len() == 20);
    assert("completed_title"@.len() == 15);
    assert("copying_message"@.len() == 15);
    assert("copying_title"@.len() == 13);
    assert("current_file"@.len() == 12);
    assert("disk_space_warning_message"@.len() == 26);
    assert("disk_space_warning_title"@.len() == 24);
    assert("download_complete"@.len() == 17);
    assert("download_failed"@.len() == 15);
    assert("downloading_title"@.len() == 17);
    assert("error_details"@.len() == 13);
    assert("error_prefix"@.len() == 12);
    assert("error_title"@.len() == 11);
    assert("final_warning"@.len() == 13);
    assert("format_backup_notice"@.len() == 20);
    assert("format_confirm_check"@.len() == 20);
    assert("format_confirmation_title"@.len() == 25);
    assert("format_warning_message"@.len() == 22);
    assert("format_warning_title"@.len() == 20);
    assert("formatting_message"@.len() == 18);
    assert("formatting_title"@.len() == 16);
    assert("formatting_warning"@.len() == 18);
    assert("language_label"@.len() == 14);
    assert("language_settings"@.len() == 17);
    assert("latest_tag"@.len() == 10);
    assert("loading_message"@.len() == 15);
    assert("loading_title"@.len() == 13);
    assert("manual_drive_example"@.len() == 20);
    assert("manual_drive_hint"@.len() == 17);
    assert("next_step_format"@.len() == 16);
    assert("no_usb_detected"@.len() == 15);
    assert("op_assign_letter"@.len() == 16);
    assert("op_clear_partitions"@.len() == 19);
    assert("op_copy_files"@.len() == 13);
    assert("op_create_exfat"@.len() == 15);
    assert("op_set_label"@.len() == 12);
    assert("operations_list"@.len() == 15);
    assert("preparing_download"@.len() == 18);
    assert("required_space"@.len() == 14);
    assert("return_home"@.len() == 11);
    assert("select_other_dir"@.len() == 16);
    assert("skip_current_verify"@.len() == 19);
    assert("skip_verify_confirm"@.len() == 19);
    assert("skip_verify_message"@.len() == 19);
    assert("skip_verify_title"@.len() == 17);
    assert("start_format"@.len() == 12);
    assert("status_completed"@.len() == 16);
    assert("status_downloading"@.len() == 18);
    assert("status_failed"@.len() == 13);
    assert("status_label"@.len() == 12);
    assert("status_pending"@.len() == 14);
    assert("target_device"@.len() == 13);
    assert("temp_dir_hint"@.len() == 13);
    assert("temp_dir_label"@.len() == 14);
    assert("tip_403_cause_1"@.len() == 15);
    assert("tip_403_cause_2"@.len() == 15);
    assert("tip_403_cause_3"@.len() == 15);
    assert("tip_403_error"@.len() == 13);
    assert("tip_403_suggestion"@.len() == 18);
    assert("tip_title"@.len() == 9);
    assert("usb_detected_devices"@.len() == 20);
    assert("usb_selection_title"@.len() == 19);
    assert("usb_warning"@.len() == 11);
    assert("verify_skipped"@.len() == 14);
    assert("verifying"@.len() == 9);
    assert("version_selection_title"@.len() == 23);
    assert("app_title"@[0] == '\u{61}');
    assert("tip_title"@[0] == '\u{74}');
    assert("verifying"@[0] == '\u{76}');
    assert("available_space"@[0] == '\u{61}');
    assert("available_space"@[2] == '\u{61}');
    assert("available_space"@[14] == '\u{65}');
    assert("completed_title"@[0] == '\u{63}');
    assert("completed_title"@[2] == '\u{6d}');
    assert("completed_title"@[14] == '\u{65}');
    assert("copying_message"@[0] == '\u{63}');
    assert("copying_message"@[2] == '\u{70}');
    assert("copying_message"@[14] == '\u{65}');
    assert("download_failed"@[0] == '\u{64}');
    assert("download_failed"@[2] == '\u{77}');
    assert("download_failed"@[14] == '\u{64}');
    assert("loading_message"@[0] == '\u{6c}');
    assert("loading_message"@[2] == '\u{61}');
    assert("loading_message"@[14] == '\u{65}');
    assert("no_usb_detected"@[0] == '\u{6e}');
    assert("no_usb_detected"@[2] == '\u{5f}');
    assert("no_usb_detected"@[14] == '\u{64}');
    assert("op_create_exfat"@[0] == '\u{6f}');
    assert("op_create_exfat"@[2] == '\u{5f}');
    assert("op_create_exfat"@[14] == '\u{74}');
    assert("operations_list"@[0] == '\u{6f}');
    assert("operations_list"@[2] == '\u{65}');
    assert("operations_list"@[14] == '\u{74}');
    assert("tip_403_cause_1"@[0] == '\u{74}');
    assert("tip_403_cause_1"@[2] == '\u{70}');
    assert("tip_403_cause_1"@[14] == '\u{31}');
    assert("tip_403_cause_2"@[0] == '\u{74}');
    assert("tip_403_cause_2"@[2] == '\u{70}');
    assert("tip_403_cause_2"@[14] == '\u{32}');
    assert("tip_403_cause_3"@[0] == '\u{74}');
    assert("tip_403_cause_3"@[2] == '\u{70}');
    assert("tip_403_cause_3"@[14] == '\u{33}');
    assert("available_versions"@[0] == '\u{61}');
    assert("available_versions"@[11] == '\u{65}');
    assert("formatting_message"@[0] == '\u{66}');
    assert("formatting_message"@[11] == '\u{6d}');
    assert("formatting_warning"@[0] == '\u{66}');
    assert("formatting_warning"@[11] == '\u{77}');
    assert("preparing_download"@[0] == '\u{70}');
    assert("preparing_download"@[11] == '\u{6f}');
    assert("status_downloading"@[0] == '\u{73}');
    assert("status_downloading"@[11] == '\u{6c}');
    assert("tip_403_suggestion"@[0] == '\u{74}');
    assert("tip_403_suggestion"@[11] == '\u{67}');
    assert("button_back"@[0] == '\u{62}');
    assert("button_back"@[7] == '\u{62}');
    assert("button_next"@[0] == '\u{62}');
    assert("button_next"@[7] == '\u{6e}');
    assert("error_title"@[0] == '\u{65}');
    assert("error_title"@[7] == '\u{69}');
    assert("return_home"@[0] == '\u{72}');
    assert("return_home"@[7] == '\u{68}');
    assert("usb_warning"@[0] == '\u{75}');
    assert("usb_warning"@[7] == '\u{6e}');
    assert("button_cancel"@[0] == '\u{62}');
    assert("button_cancel"@[1] == '\u{75}');
    assert("copying_title"@[0] == '\u{63}');
    assert("copying_title"@[1] == '\u{6f}');
    assert("error_details"@[0] == '\u{65}');
    assert("error_details"@[1] == '\u{72}');
    assert("final_warning"@[0] == '\u{66}');
    assert("final_warning"@[1] == '\u{69}');
    assert("loading_title"@[0] == '\u{6c}');
    assert("loading_title"@[1] == '\u{6f}');
    assert("op_copy_files"@[0] == '\u{6f}');
    assert("op_copy_files"@[1] == '\u{70}');
    assert("status_failed"@[0] == '\u{73}');
    assert("status_failed"@[1] == '\u{74}');
    assert("target_device"@[0] == '\u{74}');
    assert("target_device"@[1] == '\u{61}');
    assert("temp_dir_hint"@[0] == '\u{74}');
    assert("temp_dir_hint"@[1] == '\u{65}');
    assert("tip_403_error"@[0] == '\u{74}');
    assert("tip_403_error"@[1] == '\u{69}');
    assert("button_confirm"@[0] == '\u{62}');
    assert("button_confirm"@[7] == '\u{63}');
    assert("button_refresh"@[0] == '\u{62}');
    assert("button_refresh"@[7] == '\u{72}');
    assert("language_label"@[0] == '\u{6c}');
    assert("language_label"@[7] == '\u{65}');
    assert("required_space"@[0] == '\u{72}');
    assert("required_space"@[7] == '\u{64}');
    assert("status_pending"@[0] == '\u{73}');
    assert("status_pending"@[7] == '\u{70}');
    assert("temp_dir_label"@[0] == '\u{74}');
    assert("temp_dir_label"@[7] == '\u{72}');
    assert("verify_skipped"@[0] == '\u{76}');
    assert("verify_skipped"@[7] == '\u{73}');
    assert("button_retry"@[0] == '\u{62}');
    assert("button_retry"@[3] == '\u{74}');
    assert("current_file"@[0] == '\u{63}');
    assert("current_file"@[3] == '\u{72}');
    assert("error_prefix"@[0] == '\u{65}');
    assert("error_prefix"@[3] == '\u{6f}');
    assert("op_set_label"@[0] == '\u{6f}');
    assert("op_set_label"@[3] == '\u{73}');
    assert("start_format"@[0] == '\u{73}');
    assert("start_format"@[3] == '\u{72}');
    assert("status_label"@[0] == '\u{73}');
    assert("status_label"@[3] == '\u{74}');
    assert("button_select_dir"@[0] == '\u{62}');
    assert("button_select_dir"@[8] == '\u{65}');
    assert("completed_message"@[0] == '\u{63}');
    assert("completed_message"@[8] == '\u{64}');
    assert("download_complete"@[0] == '\u{64}');
    assert("download_complete"@[8] == '\u{5f}');
    assert("downloading_title"@[0] == '\u{64}');
    assert("downloading_title"@[8] == '\u{69}');
    assert("language_settings"@[0] == '\u{6c}');
    assert("language_settings"@[8] == '\u{5f}');
    assert("manual_drive_hint"@[0] == '\u{6d}');
    assert("manual_drive_hint"@[8] == '\u{72}');
    assert("skip_verify_title"@[0] == '\u{73}');
    assert("skip_verify_title"@[8] == '\u{69}');
    assert("completed_submessage"@[0] == '\u{63}');
    assert("completed_submessage"@[7] == '\u{65}');
    assert("format_backup_notice"@[0] == '\u{66}');
    assert("format_backup_notice"@[7] == '\u{62}');
    assert("format_confirm_check"@[0] == '\u{66}');
    assert("format_confirm_check"@[7] == '\u{63}');
    assert("format_warning_title"@[0] == '\u{66}');
    assert("format_warning_title"@[7] == '\u{77}');
    assert("manual_drive_example"@[0] == '\u{6d}');
    assert("manual_drive_example"@[7] == '\u{64}');
    assert("usb_detected_devices"@[0] == '\u{75}');
    assert("usb_detected_devices"@[7] == '\u{65}');
    assert("formatting_title"@[0] == '\u{66}');
    assert("formatting_title"@[1] == '\u{6f}');
    assert("next_step_format"@[0] == '\u{6e}');
    assert("next_step_format"@[1] == '\u{65}');
    assert("op_assign_letter"@[0] == '\u{6f}');
    assert("op_assign_letter"@[1] == '\u{70}');
    assert("select_other_dir"@[0] == '\u{73}');
    assert("select_other_dir"@[1] == '\u{65}');
    assert("status_completed"@[0] == '\u{73}');
    assert("status_completed"@[1] == '\u{74}');
    assert("op_clear_partitions"@[0] == '\u{6f}');
    assert("op_clear_partitions"@[5] == '\u{65}');
    assert("op_clear_partitions"@[12] == '\u{74}');
    assert("skip_current_verify"@[0] == '\u{73}');
    assert("skip_current_verify"@[5] == '\u{63}');
    assert("skip_current_verify"@[12] == '\u{5f}');
    assert("skip_verify_confirm"@[0] == '\u{73}');
    assert("skip_verify_confirm"@[5] == '\u{76}');
    assert("skip_verify_confirm"@[12] == '\u{63}');
    assert("skip_verify_message"@[0] == '\u{73}');
    assert("skip_verify_message"@[5] == '\u{76}');
    assert("skip_verify_message"@[12] == '\u{6d}');
    assert("usb_selection_title"@[0] == '\u{75}');
    assert("usb_selection_title"@[5] == '\u{65}');
    assert("usb_selection_title"@[12] == '\u{6e}');
    assert("(最新)"@.len() == 4);
    assert("1. すべてのパーティションとデータを削除"@.len() == 21);
    assert("2. 新しいexFATパーティションを作成"@.len() == 21);
    assert("3. ボリュームラベルを設定"@.len() == 14);
    assert("4. ドライブ文字Q:を割り当て"@.len() == 16);
    assert("403エラーは通常、以下を示します:"@.len() == 18);
    assert("5. インストールファイルをUSBにコピー"@.len() == 21);
    assert("USBデバイスが検出されませんでした。ドライブ文字を手動で入力してください:"@.len() == 38);
    assert("USBドライブはZundaLinkのインストール準備ができました。"@.len() == 33);
    assert("USBドライブをフォーマット中..."@.len() == 18);
    assert("ZundaLink Installer"@.len() == 19);
    assert("ZundaLinkインストールUSBが正常に作成されました！"@.len() == 30);
    assert("[!] ディスク容量不足"@.len() == 12);
    assert("[!] 最終警告！"@.len() == 9);
    assert("[!] 警告: この操作は選択したUSBドライブをフォーマットし、すべてのデータを削除します！"@.len() == 47);
    assert("[!] 重要な警告"@.len() == 9);
    assert("[OK] すべてのファイルがダウンロードされました！"@.len() == 26);
    assert("[OK] インストール完了！"@.len() == 14);
    assert("[X] エラー"@.len() == 7);
    assert("[X] 一部のファイルのダウンロードに失敗しました"@.len() == 25);
    assert("[i] ヒント:"@.len() == 8);
    assert("[再試行] 再ダウンロード"@.len() == 13);
    assert("• インストーラーの更新が必要"@.len() == 15);
    assert("• サーバーアクセス制限"@.len() == 12);
    assert("• ダウンロードリンクが期限切れ"@.len() == 16);
    assert("← ホームに戻る"@.len() == 8);
    assert("← 戻る"@.len() == 4);
    assert("お待ちください。パーティションを削除し、新しいパーティションを作成中..."@.len() == 37);
    assert("この操作はUSBドライブをフォーマットし、すべてのデータを削除します！"@.len() == 35);
    assert("これには数分かかる場合があります。USBドライブを取り外さないでください。"@.len() == 37);
    assert("インストールバージョンを選択"@.len() == 14);
    assert("インストールファイルをUSBドライブにコピー中..."@.len() == 26);
    assert("インストールファイルをダウンロード中"@.len() == 18);
    assert("インターフェース言語:"@.len() == 11);
    assert("エラー:"@.len() == 4);
    assert("エラーの詳細:"@.len() == 7);
    assert("キャンセル"@.len() == 5);
    assert("ダウンロードしたファイルはこのディレクトリに保存されます"@.len() == 28);
    assert("ダウンロードを準備中..."@.len() == 13);
    assert("ダウンロード中"@.len() == 7);
    assert("ディレクトリを選択"@.len() == 9);
    assert("ドライブ文字を入力:"@.len() == 10);
    assert("ファイルをコピー中..."@.len() == 12);
    assert("ファイル検証をスキップしてもよろしいですか？"@.len() == 22);
    assert("フォーマットとインストールを開始"@.len() == 16);
    assert("リスクを理解し、続行することを確認します"@.len() == 20);
    assert("一時ディレクトリ:"@.len() == 9);
    assert("一時ディレクトリのディスク容量が不足しています！"@.len() == 24);
    assert("以下の操作が実行されます:"@.len() == 13);
    assert("例: Q または Q:"@.len() == 11);
    assert("別のディレクトリを選択"@.len() == 11);
    assert("利用可能:"@.len() == 5);
    assert("利用可能なバージョン:"@.len() == 11);
    assert("失敗"@.len() == 2);
    assert("完了"@.len() == 2);
    assert("対象USBドライブを選択"@.len() == 12);
    assert("対象デバイス:"@.len() == 7);
    assert("待機中"@.len() == 3);
    assert("必要:"@.len() == 3);
    assert("提案: 新しいバージョンのインストーラーを確認するか、後でもう一度お試しください。"@.len() == 41);
    assert("最終確認"@.len() == 4);
    assert("検出されたUSBデバイス:"@.len() == 13);
    assert("検証のスキップを確認"@.len() == 10);
    assert("検証をスキップしました"@.len() == 11);
    assert("検証をスキップすると、破損したファイルがインストールされる可能性があります。"@.len() == 38);
    assert("検証中"@.len() == 3);
    assert("次へ →"@.len() == 4);
    assert("次へ: USBをフォーマット →"@.len() == 16);
    assert("状態:"@.len() == 3);
    assert("現在のファイル:"@.len() == 8);
    assert("現在のファイル検証をスキップ"@.len() == 14);
    assert("確認"@.len() == 2);
    assert("言語設定"@.len() == 4);
    assert("設定を読み込み中..."@.len() == 11);
    assert("重要なデータをバックアップしたことを確認してください。"@.len() == 27);
    assert("🔄 更新"@.len() == 4);
    assert("(最新)"@[0] == '\u{28}');
    assert("← 戻る"@[0] == '\u{2190}');
    assert("エラー:"@[0] == '\u{30a8}');
    assert("最終確認"@[0] == '\u{6700}');
    assert("次へ →"@[0] == '\u{6b21}');
    assert("言語設定"@[0] == '\u{8a00}');
    assert("🔄 更新"@[0] == '\u{1f504}');
    assert("1. すべてのパーティションとデータを削除"@[0] == '\u{31}');
    assert("2. 新しいexFATパーティションを作成"@[0] == '\u{32}');
    assert("5. インストールファイルをUSBにコピー"@[0] == '\u{35}');
    assert("3. ボリュームラベルを設定"@[0] == '\u{33}');
    assert("[OK] インストール完了！"@[0] == '\u{5b}');
    assert("インストールバージョンを選択"@[0] == '\u{30a4}');
    assert("現在のファイル検証をスキップ"@[0] == '\u{73fe}');
    assert("4. ドライブ文字Q:を割り当て"@[0] == '\u{34}');
    assert("• ダウンロードリンクが期限切れ"@[0] == '\u{2022}');
    assert("フォーマットとインストールを開始"@[0] == '\u{30d5}');
    assert("次へ: USBをフォーマット →"@[0] == '\u{6b21}');
    assert("403エラーは通常、以下を示します:"@[0] == '\u{34}');
    assert("USBドライブをフォーマット中..."@[0] == '\u{55}');
    assert("インストールファイルをダウンロード中"@[0] == '\u{30a4}');
    assert("USBデバイスが検出されませんでした。ドライブ文字を手動で入力してください:"@[0] == '\u{55}');
    assert("検証をスキップすると、破損したファイルがインストールされる可能性があります。"@[0] == '\u{691c}');
    assert("[!] ディスク容量不足"@[0] == '\u{5b}');
    assert("• サーバーアクセス制限"@[0] == '\u{2022}');
    assert("ファイルをコピー中..."@[0] == '\u{30d5}');
    assert("対象USBドライブを選択"@[0] == '\u{5bfe}');
    assert("[!] 最終警告！"@[0] == '\u{5b}');
    assert("[!] 最終警告！"@[4] == '\u{6700}');
    assert("[!] 重要な警告"@[0] == '\u{5b}');
    assert("[!] 重要な警告"@[4] == '\u{91cd}');
    assert("ディレクトリを選択"@[0] == '\u{30c7}');
    assert("ディレクトリを選択"@[4] == '\u{30c8}');
    assert("一時ディレクトリ:"@[0] == '\u{4e00}');
    assert("一時ディレクトリ:"@[4] == '\u{30ec}');
    assert("[OK] すべてのファイルがダウンロードされました！"@[0] == '\u{5b}');
    assert("インストールファイルをUSBドライブにコピー中..."@[0] == '\u{30a4}');
    assert("[X] エラー"@[0] == '\u{5b}');
    assert("エラーの詳細:"@[0] == '\u{30a8}');
    assert("ダウンロード中"@[0] == '\u{30c0}');
    assert("対象デバイス:"@[0] == '\u{5bfe}');
    assert("[i] ヒント:"@[0] == '\u{5b}');
    assert("← ホームに戻る"@[0] == '\u{2190}');
    assert("現在のファイル:"@[0] == '\u{73fe}');
    assert("[再試行] 再ダウンロード"@[0] == '\u{5b}');
    assert("ダウンロードを準備中..."@[0] == '\u{30c0}');
    assert("以下の操作が実行されます:"@[0] == '\u{4ee5}');
    assert("検出されたUSBデバイス:"@[0] == '\u{691c}');
    assert("お待ちください。パーティションを削除し、新しいパーティションを作成中..."@[0] == '\u{304a}');
    assert("これには数分かかる場合があります。USBドライブを取り外さないでください。"@[0] == '\u{3053}');
    assert("インターフェース言語:"@[0] == '\u{30a4}');
    assert("例: Q または Q:"@[0] == '\u{4f8b}');
    assert("別のディレクトリを選択"@[0] == '\u{5225}');
    assert("利用可能なバージョン:"@[0] == '\u{5229}');
    assert("検証をスキップしました"@[0] == '\u{691c}');
    assert("設定を読み込み中..."@[0] == '\u{8a2d}');
    assert("キャンセル"@[0] == '\u{30ad}');
    assert("利用可能:"@[0] == '\u{5229}');
    assert("ドライブ文字を入力:"@[0] == '\u{30c9}');
    assert("検証のスキップを確認"@[0] == '\u{691c}');
    assert("失敗"@[0] == '\u{5931}');
    assert("完了"@[0] == '\u{5b8c}');
    assert("確認"@[0] == '\u{78ba}');
    assert("待機中"@[0] == '\u{5f85}');
    assert("必要:"@[0] == '\u{5fc5}');
    assert("検証中"@[0] == '\u{691c}');
    assert("状態:"@[0] == '\u{72b6}');
    if i == 0 {
        assert(all_keys()[0] == keys::APP_TITLE@);
    } else if i == 1 {
        assert(all_keys()[1] == keys::BUTTON_NEXT@);
    } else if i == 2 {
        assert(all_keys()[2] == keys::BUTTON_BACK@);
    } else if i == 3 {
        assert(all_keys()[3] == keys::BUTTON_REFRESH@);
    } else if i == 4 {
        assert(all_keys()[4] == keys::BUTTON_CANCEL@);
    } else if i == 5 {
        assert(all_keys()[5] == keys::BUTTON_CONFIRM@);
    } else if i == 6 {
        assert(all_keys()[6] == keys::BUTTON_RETRY@);
    } else if i == 7 {
        assert(all_keys()[7] == keys::BUTTON_SELECT_DIR@);
    } else if i == 8 {
        assert(all_keys()[8] == keys::LOADING_TITLE@);
    } else if i == 9 {
        assert(all_keys()[9] == keys::LOADING_MESSAGE@);
    } else if i == 10 {
        assert(all_keys()[10] == keys::VERSION_SELECTION_TITLE@);
    } else if i == 11 {
        assert(all_keys()[11] == keys::AVAILABLE_VERSIONS@);
    } else if i == 12 {
        assert(all_keys()[12] == keys::LATEST_TAG@);
    } else if i == 13 {
        assert(all_keys()[13] == keys::TEMP_DIR_LABEL@);
    } else if i == 14 {
        assert(all_keys()[14] == keys::TEMP_DIR_HINT@);
    } else if i == 15 {
        assert(all_keys()[15] == keys::USB_SELECTION_TITLE@);
    } else if i == 16 {
        assert(all_keys()[16] == keys::USB_WARNING@);
    } else if i == 17 {
        assert(all_keys()[17] == keys::NO_USB_DETECTED@);
    } else if i == 18 {
        assert(all_keys()[18] == keys::USB_DETECTED_DEVICES@);
    } else if i == 19 {
        assert(all_keys()[19] == keys::MANUAL_DRIVE_HINT@);
    } else if i == 20 {
        assert(all_keys()[20] == keys::MANUAL_DRIVE_EXAMPLE@);
    } else if i == 21 {
        assert(all_keys()[21] == keys::FORMAT_WARNING_TITLE@);
    } else if i == 22 {
        assert(all_keys()[22] == keys::FORMAT_WARNING_MESSAGE@);
    } else if i == 23 {
        assert(all_keys()[23] == keys::FORMAT_BACKUP_NOTICE@);
    } else if i == 24 {
        assert(all_keys()[24] == keys::FORMAT_CONFIRM_CHECK@);
    } else if i == 25 {
        assert(all_keys()[25] == keys::DOWNLOADING_TITLE@);
    } else if i == 26 {
        assert(all_keys()[26] == keys::PREPARING_DOWNLOAD@);
    } else if i == 27 {
        assert(all_keys()[27] == keys::VERIFYING@);
    } else if i == 28 {
        assert(all_keys()[28] == keys::SKIP_VERIFY_TITLE@);
    } else if i == 29 {
        assert(all_keys()[29] == keys::SKIP_VERIFY_MESSAGE@);
    } else if i == 30 {
        assert(all_keys()[30] == keys::SKIP_VERIFY_CONFIRM@);
    } else if i == 31 {
        assert(all_keys()[31] == keys::SKIP_CURRENT_VERIFY@);
    } else if i == 32 {
        assert(all_keys()[32] == keys::VERIFY_SKIPPED@);
    } else if i == 33 {
        assert(all_keys()[33] == keys::STATUS_PENDING@);
    } else if i == 34 {
        assert(all_keys()[34] == keys::STATUS_DOWNLOADING@);
    } else if i == 35 {
        assert(all_keys()[35] == keys::STATUS_COMPLETED@);
    } else if i == 36 {
        assert(all_keys()[36] == keys::STATUS_FAILED@);
    } else if i == 37 {
        assert(all_keys()[37] == keys::DOWNLOAD_COMPLETE@);
    } else if i == 38 {
        assert(all_keys()[38] == keys::NEXT_STEP_FORMAT@);
    } else if i == 39 {
        assert(all_keys()[39] == keys::DOWNLOAD_FAILED@);
    } else if i == 40 {
        assert(all_keys()[40] == keys::ERROR_DETAILS@);
    } else if i == 41 {
        assert(all_keys()[41] == keys::TIP_TITLE@);
    } else if i == 42 {
        assert(all_keys()[42] == keys::TIP_403_ERROR@);
    } else if i == 43 {
        assert(all_keys()[43] == keys::TIP_403_CAUSE_1@);
    } else if i == 44 {
        assert(all_keys()[44] == keys::TIP_403_CAUSE_2@);
    } else if i == 45 {
        assert(all_keys()[45] == keys::TIP_403_CAUSE_3@);
    } else if i == 46 {
        assert(all_keys()[46] == keys::TIP_403_SUGGESTION@);
    } else if i == 47 {
        assert(all_keys()[47] == keys::FORMAT_CONFIRMATION_TITLE@);
    } else if i == 48 {
        assert(all_keys()[48] == keys::FINAL_WARNING@);
    } else if i == 49 {
        assert(all_keys()[49] == keys::OPERATIONS_LIST@);
    } else if i == 50 {
        assert(all_keys()[50] == keys::OP_CLEAR_PARTITIONS@);
    } else if i == 51 {
        assert(all_keys()[51] == keys::OP_CREATE_EXFAT@);
    } else if i == 52 {
        assert(all_keys()[52] == keys::OP_SET_LABEL@);
    } else if i == 53 {
        assert(all_keys()[53] == keys::OP_ASSIGN_LETTER@);
    } else if i == 54 {
        assert(all_keys()[54] == keys::OP_COPY_FILES@);
    } else if i == 55 {
        assert(all_keys()[55] == keys::TARGET_DEVICE@);
    } else if i == 56 {
        assert(all_keys()[56] == keys::START_FORMAT@);
    } else if i == 57 {
        assert(all_keys()[57] == keys::FORMATTING_TITLE@);
    } else if i == 58 {
        assert(all_keys()[58] == keys::FORMATTING_MESSAGE@);
    } else if i == 59 {
        assert(all_keys()[59] == keys::FORMATTING_WARNING@);
    } else if i == 60 {
        assert(all_keys()[60] == keys::STATUS_LABEL@);
    } else if i == 61 {
        assert(all_keys()[61] == keys::COPYING_TITLE@);
    } else if i == 62 {
        assert(all_keys()[62] == keys::COPYING_MESSAGE@);
    } else if i == 63 {
        assert(all_keys()[63] == keys::CURRENT_FILE@);
    } else if i == 64 {
        assert(all_keys()[64] == keys::COMPLETED_TITLE@);
    } else if i == 65 {
        assert(all_keys()[65] == keys::COMPLETED_MESSAGE@);
    } else if i == 66 {
        assert(all_keys()[66] == keys::COMPLETED_SUBMESSAGE@);
    } else if i == 67 {
        assert(all_keys()[67] == keys::RETURN_HOME@);
    } else if i == 68 {
        assert(all_keys()[68] == keys::ERROR_TITLE@);
    } else if i == 69 {
        assert(all_keys()[69] == keys::ERROR_PREFIX@);
    } else if i == 70 {
        assert(all_keys()[70] == keys::DISK_SPACE_WARNING_TITLE@);
    } else if i == 71 {
        assert(all_keys()[71] == keys::DISK_SPACE_WARNING_MESSAGE@);
    } else if i == 72 {
        assert(all_keys()[72] == keys::REQUIRED_SPACE@);
    } else if i == 73 {
        assert(all_keys()[73] == keys::AVAILABLE_SPACE@);
    } else if i == 74 {
        assert(all_keys()[74] == keys::SELECT_OTHER_DIR@);
    } else if i == 75 {
        assert(all_keys()[75] == keys::LANGUAGE_SETTINGS@);
    } else if i == 76 {
        assert(all_keys()[76] == keys::LANGUAGE_LABEL@);
    }
}

} // verus!
