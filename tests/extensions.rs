use media_cache::extension::{path_extension_of, resolve_extension, resolve_with};
use media_cache::key::url_to_filename;
use media_cache::store::entry_file_name;

fn some(s: &str) -> Option<String> {
    Some(s.to_string())
}

#[test]
fn content_type_wins_over_locator() {
    assert_eq!(resolve_extension(&some("image/png"), "http://x/y.jpg"), some("png"));
}

#[test]
fn locator_extension_without_content_type() {
    assert_eq!(resolve_extension(&None, "http://x/y.jpg"), some("jpg"));
}

#[test]
fn neither_gives_bare_key() {
    let locator = "http://x/y";
    let ext = resolve_extension(&None, locator);
    assert_eq!(ext, None);
    let key = url_to_filename(locator);
    assert_eq!(entry_file_name(&key, &ext), key);
}

#[test]
fn unknown_content_type_falls_back_to_locator() {
    assert_eq!(
        resolve_extension(&some("application/x-no-such-type"), "http://x/y.jpg"),
        some("jpg")
    );
    assert_eq!(resolve_extension(&some("garbage"), "http://x/y.gif"), some("gif"));
}

#[test]
fn content_type_parameters_are_ignored() {
    assert_eq!(
        resolve_extension(&some("image/png; charset=binary"), "http://x/y"),
        some("png")
    );
}

#[test]
fn first_candidate_is_taken() {
    let candidates = Some(vec!["a".to_string(), "b".to_string()]);
    assert_eq!(resolve_with(candidates, "http://x/y.jpg"), some("a"));
    assert_eq!(resolve_with(Some(vec![]), "http://x/y.jpg"), some("jpg"));
    assert_eq!(resolve_with(None, "http://x/y"), None);
}

#[test]
fn locator_extension_rules() {
    assert_eq!(path_extension_of("http://x/y.tar.gz"), some("gz"));
    assert_eq!(path_extension_of("http://x/y.jpg/"), some("jpg"));
    assert_eq!(path_extension_of("http://x/.hidden"), None);
    assert_eq!(path_extension_of("http://x/y."), None);
    assert_eq!(path_extension_of("http://x.com/y"), None);
    assert_eq!(path_extension_of("y.png"), some("png"));
    assert_eq!(path_extension_of(""), None);
    assert_eq!(path_extension_of("///"), None);
}
