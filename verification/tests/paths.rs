use gcs_rsync::{RSyncError, RSyncStatus, RelativePath};

fn name(text: &str) -> RelativePath {
    RelativePath::new(text).unwrap()
}

#[test]
fn test_relative_path() {
    fn is_empty_err(x: RSyncError) -> bool {
        matches!(x, RSyncError::EmptyRelativePathError)
    }
    assert!(
        is_empty_err(RelativePath::new("").unwrap_err()),
        "empty path is not allowed"
    );
    assert!(is_empty_err(RelativePath::new("/").unwrap_err()));
    assert_eq!(
        "hello/world",
        RelativePath::new("/hello/world").unwrap().path()
    );
    assert_eq!(
        "hello/world",
        RelativePath::new("hello/world").unwrap().path()
    );
}

#[test]
fn a_name_never_starts_with_a_slash() {
    assert_eq!("a", name("//a").path());
    assert_eq!("a//b/", name("///a//b/").path());
    assert!(matches!(
        RelativePath::new("///"),
        Err(RSyncError::EmptyRelativePathError)
    ));
}

#[test]
fn a_name_denotes_itself() {
    let once = name("/some/file");
    assert_eq!(once, name(once.path()));
    assert_eq!(once, once.clone());
}

#[test]
fn a_name_may_hold_any_characters() {
    assert_eq!("né/日本", name("/né/日本").path());
    assert_eq!("日本", name("日本").path());
}

#[test]
fn names_are_compared_by_their_text() {
    assert!(name("a") == name("/a"));
    assert!(name("a") != name("b"));
    assert!(name("a") < name("b"));
}

#[test]
fn a_name_prints_as_its_bare_text() {
    assert_eq!(format!("{:?}", name("/a \"b\"/c")), "a \"b\"/c");
    assert_eq!(
        format!("{:?}", RSyncStatus::Created(name("a/b"))),
        "Created(a/b)"
    );
    assert_eq!(
        format!("{:?}", RSyncStatus::updated("no dest crc32c", &name("a"))),
        "Updated { reason: \"no dest crc32c\", path: a }"
    );
}
