use zundalink::flow::{AppState, FlowAction, InstallerFlow};
use zundalink::config::{InstallFile, InstallerConfig, VersionInfo};
use zundalink::download::{progress_report, DownloadStatus};
use zundalink::format::{disk_number_step, DiskNumberQuery, DiskNumberStep, CopyProgress};
use zundalink::i18n::keys;
use zundalink::i18n::{t, Language};
use zundalink::usb::{is_removable_drive_type, label_step, LabelStep, ModelQuery};

#[test]
fn model_queries_in_order() {
    match label_step(ModelQuery::RemovableModels, Some("  SanDisk Ultra \r\n"), "E:") {
        LabelStep::Label(l) => assert_eq!(l, "SanDisk Ultra (E:)"),
        _ => panic!(),
    }
    assert!(matches!(
        label_step(ModelQuery::RemovableModels, None, "E:"),
        LabelStep::Ask(ModelQuery::ModelOfDrive)
    ));
    assert!(matches!(
        label_step(ModelQuery::ModelOfDrive, Some("   "), "E:"),
        LabelStep::Ask(ModelQuery::WmicModels)
    ));
    match label_step(ModelQuery::WmicModels, Some("\r\n\r\nModel=Kingston DT\r\n\r\n"), "F:") {
        LabelStep::Label(l) => assert_eq!(l, "Kingston DT (F:)"),
        _ => panic!(),
    }
    match label_step(ModelQuery::WmicModels, Some("Model=\r\n"), "F:") {
        LabelStep::Label(l) => assert_eq!(l, "可移动磁盘 F:"),
        _ => panic!(),
    }
}

#[test]
fn removable_drive_type() {
    assert!(is_removable_drive_type(2));
    assert!(!is_removable_drive_type(3));
}

#[test]
fn disk_number_queries_in_order() {
    assert!(matches!(
        disk_number_step(DiskNumberQuery::Primary, 'e', true, " 1\r\n"),
        DiskNumberStep::Found(1)
    ));
    assert!(matches!(
        disk_number_step(DiskNumberQuery::Primary, 'e', true, "-1\r\n"),
        DiskNumberStep::Ask(DiskNumberQuery::Fallback)
    ));
    assert!(matches!(
        disk_number_step(DiskNumberQuery::Primary, 'e', false, "1"),
        DiskNumberStep::Ask(DiskNumberQuery::Fallback)
    ));
    assert!(matches!(
        disk_number_step(DiskNumberQuery::Fallback, 'e', true, "2\n"),
        DiskNumberStep::Found(2)
    ));
    match disk_number_step(DiskNumberQuery::Fallback, 'e', true, "") {
        DiskNumberStep::Fail(e) => assert_eq!(e, "无法通过PowerShell获取磁盘号，驱动器字母: e"),
        _ => panic!(),
    }
}

#[test]
fn every_key_has_texts() {
    for k in [keys::APP_TITLE, keys::BUTTON_BACK, keys::LANGUAGE_LABEL, keys::TIP_403_ERROR] {
        for l in Language::all() {
            let s = t(*l, k);
            assert!(!s.is_empty());
            assert_ne!(s, k);
        }
    }
    assert_eq!(t(Language::JaJP, "not_a_key"), "not_a_key");
}

fn one_version_flow() -> InstallerFlow {
    let (mut flow, _) = InstallerFlow::new();
    flow.config_loaded(Ok(InstallerConfig {
        latest_version: "V".to_string(),
        version_list: vec![VersionInfo {
            name: "V".to_string(),
            summary: String::new(),
            install_list: vec![
                InstallFile { filename: "a".to_string(), size: 1, sha256: String::new(), url_list: vec![] },
                InstallFile { filename: "b".to_string(), size: 2, sha256: String::new(), url_list: vec![] },
            ],
        }],
    }));
    flow.toggle_version(0);
    flow
}

#[test]
fn second_start_does_nothing() {
    let mut flow = one_version_flow();
    flow.set_format_confirmed(true);
    assert!(matches!(flow.confirm_format_warning(), Some(FlowAction::StartDownload { .. })));
    flow.progress_received(progress_report("a", 1, 1, DownloadStatus::Completed));
    assert!(flow.confirm_format_warning().is_none());
    assert_eq!(flow.download_progress[0].status, DownloadStatus::Completed);
    assert!(matches!(flow.state, AppState::Downloading));
}

#[test]
fn reports_keep_latest_in_place() {
    let mut flow = one_version_flow();
    flow.set_format_confirmed(true);
    flow.confirm_format_warning();
    flow.progress_received(progress_report("c", 0, 3, DownloadStatus::Downloading));
    flow.progress_received(progress_report("b", 1, 2, DownloadStatus::Downloading));
    flow.progress_received(progress_report("d", 0, 4, DownloadStatus::Pending));
    flow.progress_received(progress_report("c", 3, 3, DownloadStatus::Completed));
    let names: Vec<&str> = flow.download_progress.iter().map(|p| p.filename.as_str()).collect();
    assert_eq!(names, vec!["a", "b", "c", "d"]);
    assert_eq!(flow.download_progress[0].status, DownloadStatus::Pending);
    assert_eq!(flow.download_progress[1].downloaded, 1);
    assert_eq!(flow.download_progress[2].status, DownloadStatus::Completed);
    flow.copy_progress_received(CopyProgress { filename: "x".to_string(), copied: 1, total: 9 });
    flow.copy_progress_received(CopyProgress { filename: "y".to_string(), copied: 1, total: 9 });
    flow.copy_progress_received(CopyProgress { filename: "x".to_string(), copied: 9, total: 9 });
    assert_eq!(flow.copy_progress.len(), 2);
    assert_eq!(flow.copy_progress[0].copied, 9);
    assert_eq!(flow.current_copy_file, "x");
}
