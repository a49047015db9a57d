use sway_lsp_server::path::ProjectPath;

fn components(text: &str) -> Vec<String> {
    ProjectPath::parse(text).components
}

#[test]
fn parse_splits_an_absolute_path() {
    assert_eq!(components("/home/user/project"), vec!["/", "home", "user", "project"]);
}

#[test]
fn parse_splits_a_relative_path() {
    assert_eq!(components("src/main.sw"), vec!["src", "main.sw"]);
}

#[test]
fn parse_agrees_with_std() {
    let texts = [
        "", "/", "//", ".", "./", "..", "a", "a/", "/a", "/a/", "./a", "a/.", "a/./b", "/./a",
        "a//b", "///a///b///", ".//.//a", "../a/..", "a/..", "/..", "...", "/.a/b.", "/a b/c%20d",
        "\u{e4}/\u{f6}", "./.", "././", "/././",
    ];
    for text in texts {
        let expected: Vec<String> = std::path::Path::new(text)
            .components()
            .map(|component| component.as_os_str().to_string_lossy().into_owned())
            .collect();
        assert_eq!(components(text), expected, "{text:?}");
    }
}

#[test]
fn parse_ignores_idle_pieces() {
    assert_eq!(components("/path/1/"), components("/path/1"));
    assert_eq!(components("/path//1"), components("/path/1"));
    assert_eq!(components("/path/./1"), components("/path/1"));
    assert_eq!(components("//path"), components("/path"));
    assert_eq!(components("/./path"), components("/path"));
    assert_ne!(components("/"), components(""));
}

#[test]
fn same_compares_components() {
    let path = ProjectPath::parse("/path/1");
    assert!(path.same(&ProjectPath::parse("/path/1/")));
    assert!(path.same(&path.clone()));
    assert!(!path.same(&ProjectPath::parse("/path/2")));
    assert!(!path.same(&ProjectPath::parse("path/1")));
    assert!(!path.same(&ProjectPath::parse("/path")));
}

#[test]
fn parent_strips_the_manifest() {
    let parent = ProjectPath::parse("/home/project/Forc.toml").parent().unwrap();
    assert!(parent.same(&ProjectPath::parse("/home/project")));
}

#[test]
fn parent_agrees_with_std() {
    for text in ["", "/", ".", "..", "a", "/a", "a/b", "/a/b/c", "./a", "a/.."] {
        let parent = ProjectPath::parse(text).parent().map(|path| path.components);
        let expected = std::path::Path::new(text)
            .parent()
            .map(|path| components(path.to_str().unwrap()));
        assert_eq!(parent, expected, "{text:?}");
    }
}
