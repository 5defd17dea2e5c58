use zundalink::format::{
    copy_progress_after, copy_target_path, device_drive_letter, disk_number_fallback_query_for,
    disk_number_query_for, diskpart_script_for, extract_mount_point, first_partition_path,
    macos_install_target, mount_point_line_readable, parse_disk_number,
    parse_disk_number_fallback, target_letter_of, target_root, volume_label,
    windows_target_drive, DiskFormatter, LINUX_MOUNT_POINT,
};

#[test]
fn volume_label_decodes() {
    assert_eq!(volume_label(), Some("SEGA_INS".to_string()));
    let _f = DiskFormatter::new();
}

#[test]
fn target_drive_and_letter() {
    assert_eq!(windows_target_drive(None), "Q:");
    assert_eq!(windows_target_drive(Some("R")), "R:");
    assert_eq!(windows_target_drive(Some("r:")), "r:");
    assert_eq!(target_letter_of("q::"), "Q");
    assert_eq!(target_letter_of("Q:"), "Q");
    assert_eq!(target_root("Q:"), "Q:\\");
}

#[test]
fn drive_letter_of_device_path() {
    assert_eq!(device_drive_letter("\\\\.\\E:"), 'E');
    assert_eq!(device_drive_letter("F:"), 'F');
    assert_eq!(device_drive_letter(""), 'C');
    assert_eq!(device_drive_letter("\\\\.\\"), 'C');
}

#[test]
fn disk_number_queries_and_answers() {
    assert_eq!(
        disk_number_query_for('e'),
        "$vol = Get-Volume -DriveLetter 'E'; $part = Get-Partition | Where-Object { $_.AccessPaths -like '*E:*' }; if ($part) { $part.DiskNumber } else { -1 }"
    );
    assert_eq!(
        disk_number_fallback_query_for('e'),
        "(Get-Partition | Where-Object { $_.DriveLetter -eq 'E' }).DiskNumber"
    );
    assert_eq!(parse_disk_number(" 2\r\n"), Some(2));
    assert_eq!(parse_disk_number("-1\r\n"), None);
    assert_eq!(parse_disk_number("+3"), Some(3));
    assert_eq!(parse_disk_number("2147483648"), None);
    assert_eq!(parse_disk_number("disk"), None);
    assert_eq!(parse_disk_number_fallback("4294967295"), Some(u32::MAX));
    assert_eq!(parse_disk_number_fallback("4294967296"), None);
    assert_eq!(parse_disk_number_fallback("-0"), None);
    assert_eq!(parse_disk_number_fallback(" 7 "), Some(7));
}

#[test]
fn diskpart_script() {
    assert_eq!(
        diskpart_script_for(3, "SEGA_INS", "Q"),
        "select disk 3\nclean\ncreate partition primary\nformat fs=exfat quick label=SEGA_INS\nassign letter=Q\nexit"
    );
    assert!(diskpart_script_for(12345, "L", "R").starts_with("select disk 12345\n"));
}

#[test]
fn linux_partition_and_mount() {
    assert_eq!(first_partition_path("/dev/sdb"), "/dev/sdb1");
    assert_eq!(LINUX_MOUNT_POINT, "/mnt/zundalink");
}

#[test]
fn macos_mount_point() {
    let info = "<dict>\n\t<key>MountPoint</key>\n\t<string>/Volumes/SEGA_INS</string>\n</dict>\n";
    assert_eq!(extract_mount_point(info), None);
    let info = "\t<key>MountPoint</key><string>/Volumes/SEGA_INS</string>\n";
    assert!(mount_point_line_readable(info));
    assert_eq!(extract_mount_point(info), Some("/Volumes/SEGA_INS".to_string()));
    assert_eq!(macos_install_target(info, "/dev/disk4"), "/Volumes/SEGA_INS");
    assert_eq!(macos_install_target("", "/dev/disk4"), "/dev/disk4");
    assert!(!mount_point_line_readable("MountPoint </string><string>"));
}

#[test]
fn copy_targets() {
    assert_eq!(copy_target_path("Q:", "a.pack"), "Q:\\a.pack");
    assert_eq!(copy_target_path("Q:\\\\", "a.pack"), "Q:\\a.pack");
    let p = copy_progress_after("a.pack", 10, 5, 100);
    assert_eq!(p.filename, "a.pack");
    assert_eq!(p.copied, 15);
    assert_eq!(p.total, 100);
}
