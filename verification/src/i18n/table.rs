//! The interface texts of every key, in simplified Chinese, English and
//! Japanese.
use vstd::prelude::*;

use super::keys;
use crate::text::str_eq;

verus! {

/// The texts of `key` in simplified Chinese, English and Japanese, or `None`
/// for a text that is not a key.
pub open spec fn entry(key: Seq<char>) -> Option<(Seq<char>, Seq<char>, Seq<char>)> {
    if key == keys::APP_TITLE@ {
        Some(("ZundaLink Installer"@, "ZundaLink Installer"@, "ZundaLink Installer"@))
    } else if key == keys::BUTTON_NEXT@ {
        Some(("下一步 →"@, "Next →"@, "次へ →"@))
    } else if key == keys::BUTTON_BACK@ {
        Some(("← 返回"@, "← Back"@, "← 戻る"@))
    } else if key == keys::BUTTON_REFRESH@ {
        Some(("🔄 刷新"@, "🔄 Refresh"@, "🔄 更新"@))
    } else if key == keys::BUTTON_CANCEL@ {
        Some(("取消"@, "Cancel"@, "キャンセル"@))
    } else if key == keys::BUTTON_CONFIRM@ {
        Some(("确认继续"@, "Confirm"@, "確認"@))
    } else if key == keys::BUTTON_RETRY@ {
        Some(("[重试] 重新下载"@, "[Retry] Redownload"@, "[再試行] 再ダウンロード"@))
    } else if key == keys::BUTTON_SELECT_DIR@ {
        Some(("选择目录"@, "Select Directory"@, "ディレクトリを選択"@))
    } else if key == keys::LOADING_TITLE@ {
        Some(("ZundaLink Installer"@, "ZundaLink Installer"@, "ZundaLink Installer"@))
    } else if key == keys::LOADING_MESSAGE@ {
        Some(("正在加载配置..."@, "Loading configuration..."@, "設定を読み込み中..."@))
    } else if key == keys::VERSION_SELECTION_TITLE@ {
        Some(("选择安装版本"@, "Select Installation Version"@, "インストールバージョンを選択"@))
    } else if key == keys::AVAILABLE_VERSIONS@ {
        Some(("可用版本:"@, "Available Versions:"@, "利用可能なバージョン:"@))
    } else if key == keys::LATEST_TAG@ {
        Some(("(最新)"@, "(Latest)"@, "(最新)"@))
    } else if key == keys::TEMP_DIR_LABEL@ {
        Some(("临时文件目录:"@, "Temporary Directory:"@, "一時ディレクトリ:"@))
    } else if key == keys::TEMP_DIR_HINT@ {
        Some(("下载的文件将保存在此目录"@, "Downloaded files will be saved to this directory"@, "ダウンロードしたファイルはこのディレクトリに保存されます"@))
    } else if key == keys::USB_SELECTION_TITLE@ {
        Some(("选择目标U盘"@, "Select Target USB Drive"@, "対象USBドライブを選択"@))
    } else if key == keys::USB_WARNING@ {
        Some(("[!] 警告：此操作将格式化选中的U盘并清除所有数据！"@, "[!] Warning: This operation will format the selected USB drive and erase all data!"@, "[!] 警告: この操作は選択したUSBドライブをフォーマットし、すべてのデータを削除します！"@))
    } else if key == keys::NO_USB_DETECTED@ {
        Some(("未检测到U盘设备。请手动输入盘符:"@, "No USB device detected. Please enter drive letter manually:"@, "USBデバイスが検出されませんでした。ドライブ文字を手動で入力してください:"@))
    } else if key == keys::USB_DETECTED_DEVICES@ {
        Some(("检测到的U盘设备:"@, "Detected USB devices:"@, "検出されたUSBデバイス:"@))
    } else if key == keys::MANUAL_DRIVE_HINT@ {
        Some(("手动输入盘符:"@, "Enter drive letter:"@, "ドライブ文字を入力:"@))
    } else if key == keys::MANUAL_DRIVE_EXAMPLE@ {
        Some(("例如: Q 或 Q:"@, "Example: Q or Q:"@, "例: Q または Q:"@))
    } else if key == keys::FORMAT_WARNING_TITLE@ {
        Some(("[!] 重要警告"@, "[!] Important Warning"@, "[!] 重要な警告"@))
    } else if key == keys::FORMAT_WARNING_MESSAGE@ {
        Some(("此操作将格式化U盘并删除所有数据！"@, "This operation will format the USB drive and delete all data!"@, "この操作はUSBドライブをフォーマットし、すべてのデータを削除します！"@))
    } else if key == keys::FORMAT_BACKUP_NOTICE@ {
        Some(("请确认您已备份重要数据。"@, "Please make sure you have backed up important data."@, "重要なデータをバックアップしたことを確認してください。"@))
    } else if key == keys::FORMAT_CONFIRM_CHECK@ {
        Some(("我已了解风险并确认继续"@, "I understand the risks and confirm to continue"@, "リスクを理解し、続行することを確認します"@))
    } else if key == keys::DOWNLOADING_TITLE@ {
        Some(("下载安装文件"@, "Downloading Installation Files"@, "インストールファイルをダウンロード中"@))
    } else if key == keys::PREPARING_DOWNLOAD@ {
        Some(("准备下载..."@, "Preparing download..."@, "ダウンロードを準備中..."@))
    } else if key == keys::VERIFYING@ {
        Some(("校验中"@, "Verifying"@, "検証中"@))
    } else if key == keys::SKIP_VERIFY_TITLE@ {
        Some(("确认跳过校验"@, "Confirm Skip Verification"@, "検証のスキップを確認"@))
    } else if key == keys::SKIP_VERIFY_MESSAGE@ {
        Some(("确定要跳过文件校验吗？"@, "Are you sure you want to skip file verification?"@, "ファイル検証をスキップしてもよろしいですか？"@))
    } else if key == keys::SKIP_VERIFY_CONFIRM@ {
        Some(("跳过校验可能会导致安装损坏的文件。"@, "Skipping verification may result in installing corrupted files."@, "検証をスキップすると、破損したファイルがインストールされる可能性があります。"@))
    } else if key == keys::SKIP_CURRENT_VERIFY@ {
        Some(("跳过当前文件校验"@, "Skip Current File Verification"@, "現在のファイル検証をスキップ"@))
    } else if key == keys::VERIFY_SKIPPED@ {
        Some(("已跳过校验"@, "Verification Skipped"@, "検証をスキップしました"@))
    } else if key == keys::STATUS_PENDING@ {
        Some(("等待中"@, "Pending"@, "待機中"@))
    } else if key == keys::STATUS_DOWNLOADING@ {
        Some(("下载中"@, "Downloading"@, "ダウンロード中"@))
    } else if key == keys::STATUS_COMPLETED@ {
        Some(("完成"@, "Completed"@, "完了"@))
    } else if key == keys::STATUS_FAILED@ {
        Some(("失败"@, "Failed"@, "失敗"@))
    } else if key == keys::DOWNLOAD_COMPLETE@ {
        Some(("[OK] 所有文件下载完成！"@, "[OK] All files downloaded!"@, "[OK] すべてのファイルがダウンロードされました！"@))
    } else if key == keys::NEXT_STEP_FORMAT@ {
        Some(("下一步：格式化U盘 →"@, "Next: Format USB →"@, "次へ: USBをフォーマット →"@))
    } else if key == keys::DOWNLOAD_FAILED@ {
        Some(("[X] 部分文件下载失败"@, "[X] Some files failed to download"@, "[X] 一部のファイルのダウンロードに失敗しました"@))
    } else if key == keys::ERROR_DETAILS@ {
        Some(("失败详情:"@, "Error Details:"@, "エラーの詳細:"@))
    } else if key == keys::TIP_TITLE@ {
        Some(("[i] 提示:"@, "[i] Tip:"@, "[i] ヒント:"@))
    } else if key == keys::TIP_403_ERROR@ {
        Some(("遇到 403 错误通常表示:"@, "403 errors usually indicate:"@, "403エラーは通常、以下を示します:"@))
    } else if key == keys::TIP_403_CAUSE_1@ {
        Some(("• 下载链接已过期"@, "• Download link has expired"@, "• ダウンロードリンクが期限切れ"@))
    } else if key == keys::TIP_403_CAUSE_2@ {
        Some(("• 需要更新安装器版本"@, "• Installer update required"@, "• インストーラーの更新が必要"@))
    } else if key == keys::TIP_403_CAUSE_3@ {
        Some(("• 服务器限制了访问"@, "• Server access restrictions"@, "• サーバーアクセス制限"@))
    } else if key == keys::TIP_403_SUGGESTION@ {
        Some(("建议: 请检查是否有新版本安装器，或稍后重试。"@, "Suggestion: Check for new installer version or try again later."@, "提案: 新しいバージョンのインストーラーを確認するか、後でもう一度お試しください。"@))
    } else if key == keys::FORMAT_CONFIRMATION_TITLE@ {
        Some(("最终确认"@, "Final Confirmation"@, "最終確認"@))
    } else if key == keys::FINAL_WARNING@ {
        Some(("[!] 最后一次警告！"@, "[!] Final Warning!"@, "[!] 最終警告！"@))
    } else if key == keys::OPERATIONS_LIST@ {
        Some(("即将执行以下操作:"@, "The following operations will be performed:"@, "以下の操作が実行されます:"@))
    } else if key == keys::OP_CLEAR_PARTITIONS@ {
        Some(("1. 清除U盘所有分区和数据"@, "1. Clear all partitions and data"@, "1. すべてのパーティションとデータを削除"@))
    } else if key == keys::OP_CREATE_EXFAT@ {
        Some(("2. 创建新的exFAT分区"@, "2. Create new exFAT partition"@, "2. 新しいexFATパーティションを作成"@))
    } else if key == keys::OP_SET_LABEL@ {
        Some(("3. 设置卷标"@, "3. Set volume label"@, "3. ボリュームラベルを設定"@))
    } else if key == keys::OP_ASSIGN_LETTER@ {
        Some(("4. 分配盘符为 Q:"@, "4. Assign drive letter Q:"@, "4. ドライブ文字Q:を割り当て"@))
    } else if key == keys::OP_COPY_FILES@ {
        Some(("5. 复制安装文件到U盘"@, "5. Copy installation files to USB"@, "5. インストールファイルをUSBにコピー"@))
    } else if key == keys::TARGET_DEVICE@ {
        Some(("目标设备:"@, "Target Device:"@, "対象デバイス:"@))
    } else if key == keys::START_FORMAT@ {
        Some(("开始格式化并安装"@, "Start Format and Install"@, "フォーマットとインストールを開始"@))
    } else if key == keys::FORMATTING_TITLE@ {
        Some(("正在格式化U盘..."@, "Formatting USB Drive..."@, "USBドライブをフォーマット中..."@))
    } else if key == keys::FORMATTING_MESSAGE@ {
        Some(("请稍候，正在清除分区并创建新分区..."@, "Please wait, clearing partitions and creating new partition..."@, "お待ちください。パーティションを削除し、新しいパーティションを作成中..."@))
    } else if key == keys::FORMATTING_WARNING@ {
        Some(("此过程可能需要几分钟，请勿拔出U盘。"@, "This may take a few minutes. Do not remove the USB drive."@, "これには数分かかる場合があります。USBドライブを取り外さないでください。"@))
    } else if key == keys::STATUS_LABEL@ {
        Some(("状态:"@, "Status:"@, "状態:"@))
    } else if key == keys::COPYING_TITLE@ {
        Some(("正在复制文件..."@, "Copying Files..."@, "ファイルをコピー中..."@))
    } else if key == keys::COPYING_MESSAGE@ {
        Some(("正在将安装文件复制到U盘..."@, "Copying installation files to USB drive..."@, "インストールファイルをUSBドライブにコピー中..."@))
    } else if key == keys::CURRENT_FILE@ {
        Some(("当前文件:"@, "Current File:"@, "現在のファイル:"@))
    } else if key == keys::COMPLETED_TITLE@ {
        Some(("[OK] 安装完成！"@, "[OK] Installation Complete!"@, "[OK] インストール完了！"@))
    } else if key == keys::COMPLETED_MESSAGE@ {
        Some(("ZundaLink 安装U盘制作成功！"@, "ZundaLink installation USB created successfully!"@, "ZundaLinkインストールUSBが正常に作成されました！"@))
    } else if key == keys::COMPLETED_SUBMESSAGE@ {
        Some(("您的U盘现在可以用于安装 ZundaLink 系统。"@, "Your USB drive is now ready to install ZundaLink."@, "USBドライブはZundaLinkのインストール準備ができました。"@))
    } else if key == keys::RETURN_HOME@ {
        Some(("← 返回主页面"@, "← Return to Home"@, "← ホームに戻る"@))
    } else if key == keys::ERROR_TITLE@ {
        Some(("[X] 错误"@, "[X] Error"@, "[X] エラー"@))
    } else if key == keys::ERROR_PREFIX@ {
        Some(("错误:"@, "Error:"@, "エラー:"@))
    } else if key == keys::DISK_SPACE_WARNING_TITLE@ {
        Some(("[!] 磁盘空间不足"@, "[!] Insufficient Disk Space"@, "[!] ディスク容量不足"@))
    } else if key == keys::DISK_SPACE_WARNING_MESSAGE@ {
        Some(("临时目录所在磁盘空间不足！"@, "Not enough disk space in temporary directory!"@, "一時ディレクトリのディスク容量が不足しています！"@))
    } else if key == keys::REQUIRED_SPACE@ {
        Some(("所需空间:"@, "Required:"@, "必要:"@))
    } else if key == keys::AVAILABLE_SPACE@ {
        Some(("可用空间:"@, "Available:"@, "利用可能:"@))
    } else if key == keys::SELECT_OTHER_DIR@ {
        Some(("选择其他目录"@, "Select Other Directory"@, "別のディレクトリを選択"@))
    } else if key == keys::LANGUAGE_SETTINGS@ {
        Some(("语言设置"@, "Language Settings"@, "言語設定"@))
    } else if key == keys::LANGUAGE_LABEL@ {
        Some(("界面语言:"@, "Interface Language:"@, "インターフェース言語:"@))
    } else {
        None
    }
}

/// The texts of `key`, read from the table.
pub fn lookup(key: &str) -> (r: Option<(&'static str, &'static str, &'static str)>)
    ensures
        match r {
            Some(row) => entry(key@) == Some((row.0@, row.1@, row.2@)),
            None => entry(key@) is None,
        },
{
    if str_eq(key, keys::APP_TITLE) {
        return Some(("ZundaLink Installer", "ZundaLink Installer", "ZundaLink Installer"));
    }
    if str_eq(key, keys::BUTTON_NEXT) {
        return Some(("下一步 →", "Next →", "次へ →"));
    }
    if str_eq(key, keys::BUTTON_BACK) {
        return Some(("← 返回", "← Back", "← 戻る"));
    }
    if str_eq(key, keys::BUTTON_REFRESH) {
        return Some(("🔄 刷新", "🔄 Refresh", "🔄 更新"));
    }
    if str_eq(key, keys::BUTTON_CANCEL) {
        return Some(("取消", "Cancel", "キャンセル"));
    }
    if str_eq(key, keys::BUTTON_CONFIRM) {
        return Some(("确认继续", "Confirm", "確認"));
    }
    if str_eq(key, keys::BUTTON_RETRY) {
        return Some(("[重试] 重新下载", "[Retry] Redownload", "[再試行] 再ダウンロード"));
    }
    if str_eq(key, keys::BUTTON_SELECT_DIR) {
        return Some(("选择目录", "Select Directory", "ディレクトリを選択"));
    }
    if str_eq(key, keys::LOADING_TITLE) {
        return Some(("ZundaLink Installer", "ZundaLink Installer", "ZundaLink Installer"));
    }
    if str_eq(key, keys::LOADING_MESSAGE) {
        return Some(("正在加载配置...", "Loading configuration...", "設定を読み込み中..."));
    }
    if str_eq(key, keys::VERSION_SELECTION_TITLE) {
        return Some(("选择安装版本", "Select Installation Version", "インストールバージョンを選択"));
    }
    if str_eq(key, keys::AVAILABLE_VERSIONS) {
        return Some(("可用版本:", "Available Versions:", "利用可能なバージョン:"));
    }
    if str_eq(key, keys::LATEST_TAG) {
        return Some(("(最新)", "(Latest)", "(最新)"));
    }
    if str_eq(key, keys::TEMP_DIR_LABEL) {
        return Some(("临时文件目录:", "Temporary Directory:", "一時ディレクトリ:"));
    }
    if str_eq(key, keys::TEMP_DIR_HINT) {
        return Some(("下载的文件将保存在此目录", "Downloaded files will be saved to this directory", "ダウンロードしたファイルはこのディレクトリに保存されます"));
    }
    if str_eq(key, keys::USB_SELECTION_TITLE) {
        return Some(("选择目标U盘", "Select Target USB Drive", "対象USBドライブを選択"));
    }
    if str_eq(key, keys::USB_WARNING) {
        return Some(("[!] 警告：此操作将格式化选中的U盘并清除所有数据！", "[!] Warning: This operation will format the selected USB drive and erase all data!", "[!] 警告: この操作は選択したUSBドライブをフォーマットし、すべてのデータを削除します！"));
    }
    if str_eq(key, keys::NO_USB_DETECTED) {
        return Some(("未检测到U盘设备。请手动输入盘符:", "No USB device detected. Please enter drive letter manually:", "USBデバイスが検出されませんでした。ドライブ文字を手動で入力してください:"));
    }
    if str_eq(key, keys::USB_DETECTED_DEVICES) {
        return Some(("检测到的U盘设备:", "Detected USB devices:", "検出されたUSBデバイス:"));
    }
    if str_eq(key, keys::MANUAL_DRIVE_HINT) {
        return Some(("手动输入盘符:", "Enter drive letter:", "ドライブ文字を入力:"));
    }
    if str_eq(key, keys::MANUAL_DRIVE_EXAMPLE) {
        return Some(("例如: Q 或 Q:", "Example: Q or Q:", "例: Q または Q:"));
    }
    if str_eq(key, keys::FORMAT_WARNING_TITLE) {
        return Some(("[!] 重要警告", "[!] Important Warning", "[!] 重要な警告"));
    }
    if str_eq(key, keys::FORMAT_WARNING_MESSAGE) {
        return Some(("此操作将格式化U盘并删除所有数据！", "This operation will format the USB drive and delete all data!", "この操作はUSBドライブをフォーマットし、すべてのデータを削除します！"));
    }
    if str_eq(key, keys::FORMAT_BACKUP_NOTICE) {
        return Some(("请确认您已备份重要数据。", "Please make sure you have backed up important data.", "重要なデータをバックアップしたことを確認してください。"));
    }
    if str_eq(key, keys::FORMAT_CONFIRM_CHECK) {
        return Some(("我已了解风险并确认继续", "I understand the risks and confirm to continue", "リスクを理解し、続行することを確認します"));
    }
    if str_eq(key, keys::DOWNLOADING_TITLE) {
        return Some(("下载安装文件", "Downloading Installation Files", "インストールファイルをダウンロード中"));
    }
    if str_eq(key, keys::PREPARING_DOWNLOAD) {
        return Some(("准备下载...", "Preparing download...", "ダウンロードを準備中..."));
    }
    if str_eq(key, keys::VERIFYING) {
        return Some(("校验中", "Verifying", "検証中"));
    }
    if str_eq(key, keys::SKIP_VERIFY_TITLE) {
        return Some(("确认跳过校验", "Confirm Skip Verification", "検証のスキップを確認"));
    }
    if str_eq(key, keys::SKIP_VERIFY_MESSAGE) {
        return Some(("确定要跳过文件校验吗？", "Are you sure you want to skip file verification?", "ファイル検証をスキップしてもよろしいですか？"));
    }
    if str_eq(key, keys::SKIP_VERIFY_CONFIRM) {
        return Some(("跳过校验可能会导致安装损坏的文件。", "Skipping verification may result in installing corrupted files.", "検証をスキップすると、破損したファイルがインストールされる可能性があります。"));
    }
    if str_eq(key, keys::SKIP_CURRENT_VERIFY) {
        return Some(("跳过当前文件校验", "Skip Current File Verification", "現在のファイル検証をスキップ"));
    }
    if str_eq(key, keys::VERIFY_SKIPPED) {
        return Some(("已跳过校验", "Verification Skipped", "検証をスキップしました"));
    }
    if str_eq(key, keys::STATUS_PENDING) {
        return Some(("等待中", "Pending", "待機中"));
    }
    if str_eq(key, keys::STATUS_DOWNLOADING) {
        return Some(("下载中", "Downloading", "ダウンロード中"));
    }
    if str_eq(key, keys::STATUS_COMPLETED) {
        return Some(("完成", "Completed", "完了"));
    }
    if str_eq(key, keys::STATUS_FAILED) {
        return Some(("失败", "Failed", "失敗"));
    }
    if str_eq(key, keys::DOWNLOAD_COMPLETE) {
        return Some(("[OK] 所有文件下载完成！", "[OK] All files downloaded!", "[OK] すべてのファイルがダウンロードされました！"));
    }
    if str_eq(key, keys::NEXT_STEP_FORMAT) {
        return Some(("下一步：格式化U盘 →", "Next: Format USB →", "次へ: USBをフォーマット →"));
    }
    if str_eq(key, keys::DOWNLOAD_FAILED) {
        return Some(("[X] 部分文件下载失败", "[X] Some files failed to download", "[X] 一部のファイルのダウンロードに失敗しました"));
    }
    if str_eq(key, keys::ERROR_DETAILS) {
        return Some(("失败详情:", "Error Details:", "エラーの詳細:"));
    }
    if str_eq(key, keys::TIP_TITLE) {
        return Some(("[i] 提示:", "[i] Tip:", "[i] ヒント:"));
    }
    if str_eq(key, keys::TIP_403_ERROR) {
        return Some(("遇到 403 错误通常表示:", "403 errors usually indicate:", "403エラーは通常、以下を示します:"));
    }
    if str_eq(key, keys::TIP_403_CAUSE_1) {
        return Some(("• 下载链接已过期", "• Download link has expired", "• ダウンロードリンクが期限切れ"));
    }
    if str_eq(key, keys::TIP_403_CAUSE_2) {
        return Some(("• 需要更新安装器版本", "• Installer update required", "• インストーラーの更新が必要"));
    }
    if str_eq(key, keys::TIP_403_CAUSE_3) {
        return Some(("• 服务器限制了访问", "• Server access restrictions", "• サーバーアクセス制限"));
    }
    if str_eq(key, keys::TIP_403_SUGGESTION) {
        return Some(("建议: 请检查是否有新版本安装器，或稍后重试。", "Suggestion: Check for new installer version or try again later.", "提案: 新しいバージョンのインストーラーを確認するか、後でもう一度お試しください。"));
    }
    if str_eq(key, keys::FORMAT_CONFIRMATION_TITLE) {
        return Some(("最终确认", "Final Confirmation", "最終確認"));
    }
    if str_eq(key, keys::FINAL_WARNING) {
        return Some(("[!] 最后一次警告！", "[!] Final Warning!", "[!] 最終警告！"));
    }
    if str_eq(key, keys::OPERATIONS_LIST) {
        return Some(("即将执行以下操作:", "The following operations will be performed:", "以下の操作が実行されます:"));
    }
    if str_eq(key, keys::OP_CLEAR_PARTITIONS) {
        return Some(("1. 清除U盘所有分区和数据", "1. Clear all partitions and data", "1. すべてのパーティションとデータを削除"));
    }
    if str_eq(key, keys::OP_CREATE_EXFAT) {
        return Some(("2. 创建新的exFAT分区", "2. Create new exFAT partition", "2. 新しいexFATパーティションを作成"));
    }
    if str_eq(key, keys::OP_SET_LABEL) {
        return Some(("3. 设置卷标", "3. Set volume label", "3. ボリュームラベルを設定"));
    }
    if str_eq(key, keys::OP_ASSIGN_LETTER) {
        return Some(("4. 分配盘符为 Q:", "4. Assign drive letter Q:", "4. ドライブ文字Q:を割り当て"));
    }
    if str_eq(key, keys::OP_COPY_FILES) {
        return Some(("5. 复制安装文件到U盘", "5. Copy installation files to USB", "5. インストールファイルをUSBにコピー"));
    }
    if str_eq(key, keys::TARGET_DEVICE) {
        return Some(("目标设备:", "Target Device:", "対象デバイス:"));
    }
    if str_eq(key, keys::START_FORMAT) {
        return Some(("开始格式化并安装", "Start Format and Install", "フォーマットとインストールを開始"));
    }
    if str_eq(key, keys::FORMATTING_TITLE) {
        return Some(("正在格式化U盘...", "Formatting USB Drive...", "USBドライブをフォーマット中..."));
    }
    if str_eq(key, keys::FORMATTING_MESSAGE) {
        return Some(("请稍候，正在清除分区并创建新分区...", "Please wait, clearing partitions and creating new partition...", "お待ちください。パーティションを削除し、新しいパーティションを作成中..."));
    }
    if str_eq(key, keys::FORMATTING_WARNING) {
        return Some(("此过程可能需要几分钟，请勿拔出U盘。", "This may take a few minutes. Do not remove the USB drive.", "これには数分かかる場合があります。USBドライブを取り外さないでください。"));
    }
    if str_eq(key, keys::STATUS_LABEL) {
        return Some(("状态:", "Status:", "状態:"));
    }
    if str_eq(key, keys::COPYING_TITLE) {
        return Some(("正在复制文件...", "Copying Files...", "ファイルをコピー中..."));
    }
    if str_eq(key, keys::COPYING_MESSAGE) {
        return Some(("正在将安装文件复制到U盘...", "Copying installation files to USB drive...", "インストールファイルをUSBドライブにコピー中..."));
    }
    if str_eq(key, keys::CURRENT_FILE) {
        return Some(("当前文件:", "Current File:", "現在のファイル:"));
    }
    if str_eq(key, keys::COMPLETED_TITLE) {
        return Some(("[OK] 安装完成！", "[OK] Installation Complete!", "[OK] インストール完了！"));
    }
    if str_eq(key, keys::COMPLETED_MESSAGE) {
        return Some(("ZundaLink 安装U盘制作成功！", "ZundaLink installation USB created successfully!", "ZundaLinkインストールUSBが正常に作成されました！"));
    }
    if str_eq(key, keys::COMPLETED_SUBMESSAGE) {
        return Some(("您的U盘现在可以用于安装 ZundaLink 系统。", "Your USB drive is now ready to install ZundaLink.", "USBドライブはZundaLinkのインストール準備ができました。"));
    }
    if str_eq(key, keys::RETURN_HOME) {
        return Some(("← 返回主页面", "← Return to Home", "← ホームに戻る"));
    }
    if str_eq(key, keys::ERROR_TITLE) {
        return Some(("[X] 错误", "[X] Error", "[X] エラー"));
    }
    if str_eq(key, keys::ERROR_PREFIX) {
        return Some(("错误:", "Error:", "エラー:"));
    }
    if str_eq(key, keys::DISK_SPACE_WARNING_TITLE) {
        return Some(("[!] 磁盘空间不足", "[!] Insufficient Disk Space", "[!] ディスク容量不足"));
    }
    if str_eq(key, keys::DISK_SPACE_WARNING_MESSAGE) {
        return Some(("临时目录所在磁盘空间不足！", "Not enough disk space in temporary directory!", "一時ディレクトリのディスク容量が不足しています！"));
    }
    if str_eq(key, keys::REQUIRED_SPACE) {
        return Some(("所需空间:", "Required:", "必要:"));
    }
    if str_eq(key, keys::AVAILABLE_SPACE) {
        return Some(("可用空间:", "Available:", "利用可能:"));
    }
    if str_eq(key, keys::SELECT_OTHER_DIR) {
        return Some(("选择其他目录", "Select Other Directory", "別のディレクトリを選択"));
    }
    if str_eq(key, keys::LANGUAGE_SETTINGS) {
        return Some(("语言设置", "Language Settings", "言語設定"));
    }
    if str_eq(key, keys::LANGUAGE_LABEL) {
        return Some(("界面语言:", "Interface Language:", "インターフェース言語:"));
    }
    None
}

} // verus!
