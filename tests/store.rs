use media_cache::store::{entry_file_name, probe, starts_with};

#[test]
fn entry_name_with_and_without_extension() {
    assert_eq!(entry_file_name("abc", &Some("png".to_string())), "abc.png");
    assert_eq!(entry_file_name("abc", &None), "abc");
}

#[test]
fn prefix_test() {
    assert!(starts_with("abc.png", "abc"));
    assert!(starts_with("abc", "abc"));
    assert!(starts_with("abc", ""));
    assert!(!starts_with("ab", "abc"));
    assert!(!starts_with("xbc.png", "abc"));
}

#[test]
fn probe_finds_first_prefixed_name() {
    let names = vec![
        "zzz".to_string(),
        "abc.png".to_string(),
        "abc.jpg".to_string(),
    ];
    assert_eq!(probe(&names, "abc"), Some(1));
    assert_eq!(probe(&names, "abd"), None);
    assert_eq!(probe(&vec![], "abc"), None);
}
