use mandalaya_startup::file_url::windows_path_of;

#[test]
fn three_slashes_are_taken_off_before_two() {
    assert_eq!(windows_path_of("file:///C:/Docs/map.mandalaya"), "C:\\Docs\\map.mandalaya");
    assert_eq!(windows_path_of("file://share/docs/map.mandalaya"), "share\\docs\\map.mandalaya");
}

#[test]
fn scheme_is_taken_off_once() {
    assert_eq!(windows_path_of("file:///file:///x"), "file:\\\\\\x");
    assert_eq!(windows_path_of("file:///file://x"), "file:\\\\x");
    assert_eq!(windows_path_of("file://file://x"), "file:\\\\x");
    assert_eq!(windows_path_of("file:////server/share"), "\\server\\share");
}

#[test]
fn text_without_scheme_only_changes_its_slashes() {
    assert_eq!(windows_path_of("a/b/c"), "a\\b\\c");
    assert_eq!(windows_path_of("C:\\a\\b"), "C:\\a\\b");
    assert_eq!(windows_path_of("FILE:///C:/a"), "FILE:\\\\\\C:\\a");
    assert_eq!(windows_path_of("file:/a"), "file:\\a");
    assert_eq!(windows_path_of(""), "");
}

#[test]
fn scheme_alone_leaves_nothing() {
    assert_eq!(windows_path_of("file:///"), "");
    assert_eq!(windows_path_of("file://"), "");
}

#[test]
fn no_forward_slash_is_left() {
    for url in ["file:///a/b//c/", "//", "file://///", "a/b", "né/à"] {
        assert!(!windows_path_of(url).contains('/'));
    }
    assert_eq!(windows_path_of("file:///a/b//c/"), "a\\b\\\\c\\");
    assert_eq!(windows_path_of("né/à"), "né\\à");
}
