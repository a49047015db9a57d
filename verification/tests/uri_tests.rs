use std::path::Path;
use sway_lsp_server::uri::DocumentUri;

#[test]
fn the_path_of_a_url_is_encoded() {
    let uri = DocumentUri::parse("file:///my project/../main.sw?query#fragment").unwrap();
    assert_eq!(uri.text(), "file:///my project/../main.sw?query#fragment");
    assert_eq!(uri.path(), "/main.sw");
    assert_eq!(DocumentUri::parse("file:///a b").unwrap().path(), "/a%20b");
}

#[test]
fn the_file_of_a_url_is_decoded() {
    let uri = DocumentUri::parse("file:///a%20b/main.sw").unwrap();
    assert!(uri.is_file());
    assert_eq!(uri.clone().into_file().as_deref(), Some(Path::new("/a b/main.sw")));
    assert_eq!(uri.path(), "/a%20b/main.sw");
}

#[test]
fn not_every_url_is_a_file() {
    for text in ["https://example.com/main.sw", "mailto:someone@example.com"] {
        let uri = DocumentUri::parse(text).unwrap();
        assert!(!uri.is_file());
        assert!(uri.into_file().is_none());
    }
}

#[test]
fn uri_has_the_path_of_the_url() {
    let uri = DocumentUri::parse("file:///home/my%20project/src/main.sw?x=1#top").unwrap();
    assert_eq!(uri.path(), "/home/my%20project/src/main.sw");
    assert_eq!(uri.text(), "file:///home/my%20project/src/main.sw?x=1#top");
    let copy = uri.clone();
    assert_eq!(copy.text(), uri.text());
    assert_eq!(copy.path(), uri.path());
}

#[test]
fn uri_of_a_host_has_the_root_path() {
    assert_eq!(DocumentUri::parse("https://example.com").unwrap().path(), "/");
}

#[test]
fn text_without_scheme_is_no_uri() {
    assert!(DocumentUri::parse("/home/project").is_none());
    assert!(DocumentUri::parse("").is_none());
}
