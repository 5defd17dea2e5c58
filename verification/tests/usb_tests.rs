use zundalink::usb::{
    available_bytes, drive_letters_in_mask, fallback_device_label, lsblk_usb_drive,
    macos_disk_paths, macos_size_line_readable, model_from_command_output,
    model_from_wmic_output, parse_macos_disk_size, select_usb_device, split_size_text,
    LsblkDevice, UsbDetector, UsbDevice, UsbSelectError, device_label, windows_usb_device,
};

fn dev(path: &str, removable: bool) -> UsbDevice {
    UsbDevice {
        device_path: path.to_string(),
        drive_letter: None,
        size: 8,
        model: format!("model of {}", path),
        is_removable: removable,
    }
}

#[test]
fn manual_letter_becomes_raw_device_path() {
    let d = select_usb_device(&[], Some("q")).unwrap();
    assert_eq!(d.device_path, "\\\\.\\Q:");
    assert_eq!(d.drive_letter.as_deref(), Some("q"));
    assert_eq!(d.size, 0);
    assert_eq!(d.model, "Manual Selection");
    assert!(d.is_removable);
    let d = select_usb_device(&[dev("/dev/sdb", true)], Some("E:")).unwrap();
    assert_eq!(d.device_path, "\\\\.\\E:");
}

#[test]
fn manual_path_is_kept_as_typed() {
    let d = select_usb_device(&[], Some("/dev/sdc")).unwrap();
    assert_eq!(d.device_path, "/dev/sdc");
    let d = select_usb_device(&[], Some("EE")).unwrap();
    assert_eq!(d.device_path, "EE");
    let d = select_usb_device(&[], Some("中")).unwrap();
    assert_eq!(d.device_path, "中");
    let d = select_usb_device(&[], Some("")).unwrap();
    assert_eq!(d.device_path, "");
}

#[test]
fn first_removable_device_is_chosen() {
    let devices = vec![dev("a", false), dev("b", true), dev("c", true)];
    assert_eq!(select_usb_device(&devices, None).unwrap().device_path, "b");
}

#[test]
fn selection_errors() {
    assert_eq!(select_usb_device(&[], None).unwrap_err(), UsbSelectError::NoDevicesDetected);
    assert_eq!(
        select_usb_device(&[dev("a", false)], None).unwrap_err(),
        UsbSelectError::NoRemovableDevice
    );
    assert_eq!(UsbSelectError::NoDevicesDetected.message(), "No USB devices detected");
    assert_eq!(UsbSelectError::NoRemovableDevice.message(), "No removable USB devices found");
    let _detector = UsbDetector::new();
}

#[test]
fn logical_drive_mask_letters() {
    assert_eq!(drive_letters_in_mask(0b1), vec!['A']);
    assert_eq!(drive_letters_in_mask(0b10100), vec!['C', 'E']);
    assert_eq!(drive_letters_in_mask(1 << 25), vec!['Z']);
    assert_eq!(drive_letters_in_mask(1 << 26), Vec::<char>::new());
    assert_eq!(drive_letters_in_mask(0).len(), 0);
}

#[test]
fn windows_device_naming() {
    assert_eq!(model_from_command_output("  SanDisk Cruzer  \r\n"), Some("SanDisk Cruzer".to_string()));
    assert_eq!(model_from_command_output(" \n\t "), None);
    let wmic = "\r\n\r\nModel=\r\nModel=Kingston DataTraveler  \r\n";
    assert_eq!(model_from_wmic_output(wmic), Some("Kingston DataTraveler".to_string()));
    assert_eq!(model_from_wmic_output("Caption=x\nmodel=y\n"), None);
    assert_eq!(device_label("SanDisk", "E:"), "SanDisk (E:)");
    assert_eq!(fallback_device_label("E:"), "可移动磁盘 E:");
    let d = windows_usb_device('E', 42, "SanDisk (E:)".to_string());
    assert_eq!(d.device_path, "\\\\.\\E:");
    assert_eq!(d.drive_letter.as_deref(), Some("E:"));
    assert_eq!(d.size, 42);
    assert!(d.is_removable);
}

#[test]
fn lsblk_entries() {
    let usb = LsblkDevice {
        name: Some("sdb".to_string()),
        size: Some("14.9G".to_string()),
        tran: Some("usb".to_string()),
        model: None,
    };
    let d = lsblk_usb_drive(&usb).unwrap();
    assert_eq!(d.device_path, "/dev/sdb");
    assert_eq!(d.size_text, "14.9G");
    assert_eq!(d.model, "Unknown");
    let sata = LsblkDevice { tran: Some("sata".to_string()), ..usb.clone() };
    assert!(lsblk_usb_drive(&sata).is_none());
    let unnamed = LsblkDevice { name: None, ..usb.clone() };
    assert!(lsblk_usb_drive(&unnamed).is_none());
    let no_size = LsblkDevice { size: None, model: Some("Flash".to_string()), ..usb };
    let d = lsblk_usb_drive(&no_size).unwrap();
    assert_eq!(d.size_text, "0");
    assert_eq!(d.model, "Flash");
}

#[test]
fn size_text_split() {
    let s = split_size_text(" 14.9G ");
    assert_eq!(s.number, "14.9");
    assert_eq!(s.factor, 1024 * 1024 * 1024);
    assert_eq!(split_size_text("512kb").factor, 1024);
    assert_eq!(split_size_text("3M").factor, 1024 * 1024);
    assert_eq!(split_size_text("2TB").factor, 1024u64.pow(4));
    assert_eq!(split_size_text("100B").factor, 1);
    assert_eq!(split_size_text("7X").factor, 1);
    assert_eq!(split_size_text("").number, "");
    let s = split_size_text("1.5 G");
    assert_eq!(s.number, "1.5");
    assert_eq!(s.factor, 1);
}

#[test]
fn macos_disk_listing() {
    let out = "/dev/disk4 (external, physical):\n   #: TYPE NAME SIZE\n/dev/disk5\t(external):\n";
    assert_eq!(macos_disk_paths(out), vec!["/dev/disk4".to_string(), "/dev/disk5".to_string()]);
    assert!(macos_disk_paths("nothing here\n").is_empty());
}

#[test]
fn macos_disk_size() {
    let info = "<key>Size</key>\n\t<key>TotalSize</key><integer>15938355200</integer>\n";
    assert!(macos_size_line_readable(info));
    assert_eq!(parse_macos_disk_size(info), 15938355200);
    assert_eq!(parse_macos_disk_size("<key>TotalSize</key>\n<integer>5</integer>\n"), 0);
    assert_eq!(parse_macos_disk_size("TotalSize <integer>x</integer>"), 0);
    assert!(!macos_size_line_readable("TotalSize </integer><integer>"));
}

#[test]
fn statvfs_available_bytes() {
    assert_eq!(available_bytes(1000, 4096), 4_096_000);
    assert_eq!(available_bytes(0, 4096), 0);
}
