use std::path::Path;
use trunk_config::paths::path_is_absolute;
use trunk_config::paths::path_join;
use trunk_config::paths::path_parent;

#[test]
fn absolute_paths_start_at_the_root() {
    assert!(path_is_absolute("/"));
    assert!(path_is_absolute("/project/sub"));
    assert!(!path_is_absolute(""));
    assert!(!path_is_absolute("out"));
    assert!(!path_is_absolute("./out"));
    assert!(!path_is_absolute("a/b"));
}

#[test]
fn join_places_relative_paths_under_the_base() {
    assert_eq!(path_join("/project/sub", "out"), "/project/sub/out");
    assert_eq!(path_join("/project/sub/", "out"), "/project/sub/out");
    assert_eq!(path_join("/", "out"), "/out");
    assert_eq!(path_join("", "out"), "out");
    assert_eq!(path_join("/project", "a/b.html"), "/project/a/b.html");
    assert_eq!(path_join("/project", ""), "/project/");
    assert_eq!(path_join("rel", "x"), "rel/x");
}

#[test]
fn join_leaves_absolute_paths_alone() {
    assert_eq!(path_join("/project/sub", "/var/www"), "/var/www");
    assert_eq!(path_join("", "/var/www"), "/var/www");
    assert_eq!(path_join("/project/sub", "/"), "/");
}

#[test]
fn parent_is_what_stands_before_the_last_separator() {
    assert_eq!(path_parent("/project/sub/Trunk.toml"), Some("/project/sub".to_string()));
    assert_eq!(path_parent("/Trunk.toml"), Some("/".to_string()));
    assert_eq!(path_parent("Trunk.toml"), Some("".to_string()));
    assert_eq!(path_parent("sub/Trunk.toml"), Some("sub".to_string()));
    assert_eq!(path_parent("/"), None);
    assert_eq!(path_parent(""), None);
    assert_eq!(path_parent("/é/ü.toml"), Some("/é".to_string()));
}

#[test]
fn path_functions_agree_with_std_on_plain_paths() {
    if std::path::MAIN_SEPARATOR != '/' {
        return;
    }
    let bases = ["/project/sub", "/", "", "/a/", "rel"];
    let paths = ["out", "/abs/out", "a/b", "", "x.html"];
    for base in bases {
        for path in paths {
            let expected = Path::new(base).join(path);
            assert_eq!(path_join(base, path), expected.to_str().unwrap());
        }
    }
    for path in ["/project/sub/Trunk.toml", "/Trunk.toml", "Trunk.toml", "/", "", "a/b"] {
        let expected = Path::new(path).parent().map(|p| p.to_str().unwrap().to_string());
        assert_eq!(path_parent(path), expected);
        assert_eq!(path_is_absolute(path), Path::new(path).is_absolute());
    }
}
