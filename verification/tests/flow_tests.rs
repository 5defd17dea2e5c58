use zundalink::config::{InstallFile, InstallerConfig, VersionInfo};
use zundalink::download::{progress_report, DownloadStatus};
use zundalink::flow::{
    all_downloads_done, any_download_failed, any_download_forbidden, completed_file_paths,
    AppState, FlowAction, InstallerFlow,
};
use zundalink::format::CopyProgress;
use zundalink::usb::UsbDevice;

fn config() -> InstallerConfig {
    InstallerConfig {
        latest_version: "TEST_1.00.00".to_string(),
        version_list: vec![VersionInfo {
            name: "TEST_1.00.00".to_string(),
            summary: "TEST-VERSION".to_string(),
            install_list: vec![
                InstallFile {
                    filename: "a.pack".to_string(),
                    size: 100,
                    sha256: "abc123".to_string(),
                    url_list: vec!["https://example.com/a.pack".to_string()],
                },
                InstallFile {
                    filename: "b.pack".to_string(),
                    size: 50,
                    sha256: "def456".to_string(),
                    url_list: vec![],
                },
            ],
        }],
    }
}

fn loaded_flow() -> InstallerFlow {
    let (mut flow, action) = InstallerFlow::new();
    assert!(matches!(action, FlowAction::LoadConfig));
    assert!(matches!(flow.state, AppState::Loading));
    assert_eq!(flow.temp_dir, "./temp");
    flow.config_loaded(Ok(config()));
    assert!(matches!(flow.state, AppState::VersionSelection));
    assert!(!flow.awaiting_config);
    flow
}

#[test]
fn config_failure_shows_error() {
    let (mut flow, _) = InstallerFlow::new();
    flow.config_loaded(Err("timeout".to_string()));
    assert!(matches!(&flow.state, AppState::Error(e) if e == "timeout"));
    assert_eq!(flow.error_message.as_deref(), Some("加载配置失败: timeout"));
}

#[test]
fn version_toggle_and_disk_space() {
    let mut flow = loaded_flow();
    flow.toggle_version(0);
    assert_eq!(flow.selected_version.as_ref().unwrap().name, "TEST_1.00.00");
    flow.toggle_version(0);
    assert!(flow.selected_version.is_none());
    assert!(flow.next_from_versions(Some(10)).is_none());
    flow.toggle_version(0);
    assert!(flow.required_space_fits());
    assert!(flow.next_from_versions(Some(149)).is_none());
    assert!(flow.show_disk_space_warning);
    assert_eq!(flow.required_space, 150);
    assert_eq!(flow.available_space, 149);
    assert!(flow.other_dir_picked("/big".to_string(), Some(100)).is_none());
    assert!(flow.show_disk_space_warning);
    let a = flow.other_dir_picked("/bigger".to_string(), Some(150));
    assert!(matches!(a, Some(FlowAction::DetectUsb)));
    assert!(!flow.show_disk_space_warning);
    assert_eq!(flow.temp_dir, "/bigger");
    assert!(matches!(flow.state, AppState::UsbSelection));
    assert!(flow.awaiting_usb);
}

#[test]
fn unknown_free_space_proceeds() {
    let mut flow = loaded_flow();
    flow.toggle_version(0);
    let a = flow.next_from_versions(None);
    assert!(matches!(a, Some(FlowAction::DetectUsb)));
    assert!(matches!(flow.state, AppState::UsbSelection));
}

#[test]
fn full_installation_walkthrough() {
    let mut flow = loaded_flow();
    flow.toggle_version(0);
    flow.next_from_versions(Some(1_000_000));
    flow.usb_detection_finished(Ok(vec![UsbDevice {
        device_path: "\\\\.\\E:".to_string(),
        drive_letter: Some("E:".to_string()),
        size: 16,
        model: "Stick (E:)".to_string(),
        is_removable: true,
    }]));
    assert!(!flow.can_proceed_from_usb());
    flow.toggle_usb(0);
    assert!(flow.can_proceed_from_usb());
    flow.next_from_usb();
    assert!(flow.show_format_warning);
    assert!(flow.confirm_format_warning().is_none());
    flow.set_format_confirmed(true);
    let a = flow.confirm_format_warning();
    match a {
        Some(FlowAction::StartDownload { files, temp_dir }) => {
            assert_eq!(files.len(), 2);
            assert_eq!(temp_dir, "./temp");
        }
        _ => panic!("download not started"),
    }
    assert!(matches!(flow.state, AppState::Downloading));
    assert_eq!(flow.download_progress.len(), 2);
    assert_eq!(flow.download_progress[1].status, DownloadStatus::Pending);
    assert!(flow.retry_download().is_some());
    flow.progress_received(progress_report("a.pack", 100, 100, DownloadStatus::Completed));
    flow.progress_received(progress_report("b.pack", 50, 50, DownloadStatus::Skipped));
    assert_eq!(flow.download_progress.len(), 2);
    assert!(all_downloads_done(&flow.download_progress));
    flow.next_to_format_confirmation();
    assert!(matches!(flow.state, AppState::FormatConfirmation));
    match flow.start_format() {
        FlowAction::StartFormat { device_path } => assert_eq!(device_path.unwrap(), "\\\\.\\E:"),
        _ => panic!("no format"),
    }
    match flow.format_copy_finished(Ok("格式化完成: Q:".to_string())) {
        Some(FlowAction::StartCopy { files }) => {
            assert_eq!(files.unwrap(), vec!["./temp/a.pack".to_string()]);
        }
        _ => panic!("no copy"),
    }
    assert!(matches!(flow.state, AppState::Copying));
    flow.copy_progress_received(CopyProgress { filename: "a.pack".to_string(), copied: 10, total: 100 });
    flow.copy_progress_received(CopyProgress { filename: "a.pack".to_string(), copied: 100, total: 100 });
    assert_eq!(flow.copy_progress.len(), 1);
    assert_eq!(flow.current_copy_file, "a.pack");
    assert!(flow.format_copy_finished(Ok("已复制 1 个文件".to_string())).is_none());
    assert!(matches!(flow.state, AppState::Completed));
    flow.return_to_versions();
    assert!(matches!(flow.state, AppState::VersionSelection));
    assert!(flow.selected_version.is_none());
    assert!(flow.selected_usb.is_none());
    assert!(flow.download_progress.is_empty());
    assert!(flow.config.is_some());
}

#[test]
fn manual_drive_and_missing_drive() {
    let mut flow = loaded_flow();
    flow.set_manual_drive("q::".to_string());
    match flow.start_format() {
        FlowAction::StartFormat { device_path } => assert_eq!(device_path.unwrap(), "\\\\.\\Q:"),
        _ => panic!(),
    }
    let mut flow = loaded_flow();
    match flow.start_format() {
        FlowAction::StartFormat { device_path } => assert_eq!(device_path.unwrap_err(), "未选择U盘设备"),
        _ => panic!(),
    }
    assert!(matches!(flow.state, AppState::Formatting));
    match flow.format_copy_finished(Ok("done".to_string())) {
        Some(FlowAction::StartCopy { files }) => assert_eq!(files.unwrap_err(), "没有可复制的文件"),
        _ => panic!(),
    }
    flow.format_copy_finished(Err("没有可复制的文件".to_string()));
    assert_eq!(flow.error_message.as_deref(), Some("操作失败: 没有可复制的文件"));
}

#[test]
fn failure_reports() {
    let list = vec![
        progress_report("a", 0, 1, DownloadStatus::Failed("HTTP error: 403 Forbidden for chunk 0".to_string())),
        progress_report("b", 1, 1, DownloadStatus::Completed),
    ];
    assert!(any_download_failed(&list));
    assert!(any_download_forbidden(&list));
    assert!(!all_downloads_done(&list));
    assert_eq!(completed_file_paths(&list, "t"), vec!["t/b".to_string()]);
    let ok = vec![progress_report("b", 1, 1, DownloadStatus::Verifying)];
    assert!(!any_download_failed(&ok));
    assert!(!any_download_forbidden(&ok));
}

#[test]
fn skip_dialog() {
    let mut flow = loaded_flow();
    flow.request_skip_verification("a.pack".to_string());
    assert!(flow.show_skip_verify_dialog);
    assert!(flow.confirm_skip_verification().is_none());
    assert!(!flow.show_skip_verify_dialog);
    assert!(flow.verifying_filename.is_none());
    flow.toggle_version(0);
    flow.set_format_confirmed(true);
    flow.confirm_format_warning();
    flow.request_skip_verification("a.pack".to_string());
    assert!(matches!(flow.confirm_skip_verification(), Some(FlowAction::SkipVerification)));
}

#[test]
fn usb_detection_error() {
    let mut flow = loaded_flow();
    flow.usb_detection_finished(Err("lsblk missing".to_string()));
    assert_eq!(flow.error_message.as_deref(), Some("检测U盘失败: lsblk missing"));
}

#[test]
fn no_format_step_without_files() {
    let mut flow = loaded_flow();
    assert!(flow.download_progress.is_empty());
    flow.next_to_format_confirmation();
    assert!(matches!(flow.state, AppState::VersionSelection));
}
