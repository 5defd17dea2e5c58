use zundalink::config::{InstallFile, InstallerConfig, VersionInfo};

fn file(name: &str, size: u64) -> InstallFile {
    InstallFile {
        filename: name.to_string(),
        size,
        sha256: "abc123".to_string(),
        url_list: vec![format!("https://example.com/{}", name)],
    }
}

fn version(name: &str, files: Vec<InstallFile>) -> VersionInfo {
    VersionInfo { name: name.to_string(), summary: format!("{} summary", name), install_list: files }
}

#[test]
fn latest_version_is_found_by_name() {
    let config = InstallerConfig {
        latest_version: "B".to_string(),
        version_list: vec![version("A", vec![]), version("B", vec![file("b.pack", 1)])],
    };
    let v = config.get_latest_version().unwrap();
    assert_eq!(v.name, "B");
    assert_eq!(v.install_list.len(), 1);
}

#[test]
fn latest_version_falls_back_to_first() {
    let config = InstallerConfig {
        latest_version: "Z".to_string(),
        version_list: vec![version("A", vec![]), version("B", vec![])],
    };
    assert_eq!(config.get_latest_version().unwrap().name, "A");
    let empty = InstallerConfig { latest_version: "Z".to_string(), version_list: vec![] };
    assert!(empty.get_latest_version().is_none());
}

#[test]
fn first_version_of_a_name_wins() {
    let config = InstallerConfig {
        latest_version: "A".to_string(),
        version_list: vec![
            version("A", vec![file("one", 1)]),
            version("A", vec![file("two", 2), file("three", 3)]),
        ],
    };
    assert_eq!(config.get_version_by_name("A").unwrap().install_list.len(), 1);
    assert_eq!(config.get_latest_version().unwrap().install_list[0].filename, "one");
    assert!(config.get_version_by_name("a").is_none());
    assert!(config.get_version_by_name("").is_none());
}

#[test]
fn total_install_size_sums_or_reports_overflow() {
    let v = version("A", vec![file("x", 100), file("y", 23)]);
    assert_eq!(v.total_install_size(), Some(123));
    assert_eq!(version("E", vec![]).total_install_size(), Some(0));
    let big = version("B", vec![file("x", u64::MAX), file("y", 1)]);
    assert_eq!(big.total_install_size(), None);
    let edge = version("C", vec![file("x", u64::MAX - 1), file("y", 1)]);
    assert_eq!(edge.total_install_size(), Some(u64::MAX));
}
