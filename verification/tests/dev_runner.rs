use x360ce::dev_runner::{is_temporary_file, should_ignore, FileFingerprint};

fn components(parts: &[&str]) -> Vec<Option<String>> {
    parts.iter().map(|p| Some(p.to_string())).collect()
}

#[test]
fn ignored_paths() {
    assert!(should_ignore(&components(&["repo", "target", "debug"])));
    assert!(should_ignore(&components(&["repo", ".git", "HEAD"])));
    assert!(should_ignore(&components(&["repo", "src", "main.rs~"])));
    assert!(should_ignore(&components(&["repo", ".x360ce-data", "config.json"])));
    assert!(!should_ignore(&components(&["repo", "src", "main.rs"])));
    assert!(!should_ignore(&vec![None, Some("src".to_string())]));
}

#[test]
fn temporary_files() {
    assert!(is_temporary_file("a.swp"));
    assert!(is_temporary_file("a.swx"));
    assert!(is_temporary_file("config.json.tmp"));
    assert!(is_temporary_file(".#lock"));
    assert!(!is_temporary_file("main.rs"));
}

#[test]
fn fingerprint_accumulates_and_saturates() {
    let mut f = FileFingerprint::default();
    f.record_file(10, 5);
    f.record_file(20, 3);
    assert_eq!(f, FileFingerprint { files: 2, modified_nanos: 5, bytes: 30 });
    f.record_file(u64::MAX, 9);
    assert_eq!(f.bytes, u64::MAX);
    assert_eq!(f.modified_nanos, 9);
}
