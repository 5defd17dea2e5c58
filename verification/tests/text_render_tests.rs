use zundalink::render::{
    detect_renderer, is_hardware_acceleration_available, is_software_renderer, is_vm_or_remote,
    renderer_label, window_title,
};
use zundalink::text::{chars_of, decimal_chars, lines, parse_signed_chars, parse_unsigned_chars, trim};

#[test]
fn text_helpers() {
    assert_eq!(trim("\u{3000} a b \t\n"), "a b");
    assert_eq!(trim("   "), "");
    let ls = lines(&chars_of("a\r\nb\n\nc\r"));
    let ls: Vec<String> = ls.iter().map(|l| l.iter().collect()).collect();
    assert_eq!(ls, vec!["a", "b", "", "c\r"]);
    assert_eq!(lines(&chars_of("x\n")).len(), 1);
    assert_eq!(parse_unsigned_chars(&chars_of("+18446744073709551615"), u64::MAX), Some(u64::MAX));
    assert_eq!(parse_unsigned_chars(&chars_of("18446744073709551616"), u64::MAX), None);
    assert_eq!(parse_unsigned_chars(&chars_of("+"), u64::MAX), None);
    assert_eq!(parse_signed_chars(&chars_of("-2147483648"), 0x8000_0000, 0x7fff_ffff), Some(-2147483648));
    assert_eq!(parse_signed_chars(&chars_of("-2147483649"), 0x8000_0000, 0x7fff_ffff), None);
    assert_eq!(parse_signed_chars(&chars_of("-"), 0x8000_0000, 0x7fff_ffff), None);
    assert_eq!(decimal_chars(1207).into_iter().collect::<String>(), "1207");
}

#[test]
fn renderer_choice() {
    assert_eq!(detect_renderer(Some("glow".to_string()), true), "glow");
    assert_eq!(detect_renderer(Some("software".to_string()), true), "software");
    assert_eq!(detect_renderer(None, true), "hardware");
    assert_eq!(detect_renderer(None, false), "software");
    // Off Windows acceleration counts as available, so hardware is chosen.
    let off_windows = is_hardware_acceleration_available(false, false, false);
    assert_eq!(detect_renderer(None, off_windows), "hardware");
    assert!(is_hardware_acceleration_available(false, false, true));
    assert!(is_hardware_acceleration_available(true, true, false));
    assert!(!is_hardware_acceleration_available(true, false, false));
    assert!(!is_hardware_acceleration_available(true, true, true));
    assert!(is_vm_or_remote(true, &[]));
    assert!(is_vm_or_remote(false, &[false, true]));
    assert!(!is_vm_or_remote(false, &[false, false, false, false]));
    assert!(is_software_renderer("software"));
    assert_eq!(renderer_label("software"), "[Software]");
    assert_eq!(renderer_label("hardware"), "[Hardware]");
    assert_eq!(window_title("v1.2.3", "hardware"), "ZundaLink Installer v1.2.3 [Hardware]");
}
