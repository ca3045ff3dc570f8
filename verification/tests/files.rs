use rust_browser_control::files::{
    completed_download, directory_state, safe_png_filename, FileState, Listed, Stamp,
};
use rust_browser_control::path::{extension_is, join_path, last_member, path_text};

fn file(name: &str, size: u64, modified: i128) -> Listed {
    Listed {
        name: name.as_bytes().to_vec(),
        is_file: true,
        stamp: Stamp { size, modified: Some(modified) },
    }
}

fn state(files: Vec<Listed>) -> FileState {
    directory_state(files)
}

#[test]
fn sanitizes_screenshot_names() {
    assert_eq!(
        safe_png_filename(Some("../../browser capture"), 1),
        "browser_capture.png"
    );
    assert_eq!(safe_png_filename(Some("frame.png"), 1), "frame.png");
}

#[test]
fn a_screenshot_without_a_usable_name_is_dated() {
    assert_eq!(safe_png_filename(None, 1_700_000_000_123), "screenshot-1700000000123.png");
    for raw in ["", "/", ".", "..", "a/..", "./.", "//"] {
        assert_eq!(safe_png_filename(Some(raw), 7), "screenshot-7.png", "{:?}", raw);
    }
}

#[test]
fn a_screenshot_name_keeps_its_extension() {
    assert_eq!(safe_png_filename(Some("A.PNG"), 1), "A.PNG");
    assert_eq!(safe_png_filename(Some("a.jpg"), 1), "a.jpg.png");
    assert_eq!(safe_png_filename(Some(".png"), 1), ".png");
    assert_eq!(safe_png_filename(Some("dir/sub/"), 1), "sub.png");
    assert_eq!(safe_png_filename(Some("dir/./"), 1), "dir.png");
    assert_eq!(safe_png_filename(Some("\u{e9}t\u{e9} 1"), 1), "_t__1.png");
    assert_eq!(safe_png_filename(Some("a-b_c.D9"), 1), "a-b_c.D9.png");
}

#[test]
fn a_safe_name_is_kept_as_it_is() {
    for raw in ["../../browser capture", "frame.png", "x y/z?.PnG", "", "a/.."] {
        let name = safe_png_filename(Some(raw), 5);
        assert_eq!(safe_png_filename(Some(&name), 9), name);
        assert!(name.chars().all(|c| c.is_ascii_alphanumeric() || "-_.".contains(c)));
        assert!(name.to_ascii_lowercase().ends_with(".png"));
    }
}

#[test]
fn a_new_file_is_a_completed_download() {
    let before = state(vec![file("a.txt", 3, 1)]);
    let now = state(vec![file("b.zip", 9, 2), file("a.txt", 3, 1)]);
    assert_eq!(completed_download(&now, &before), Some((b"b.zip".to_vec(), 9)));
    assert_eq!(completed_download(&before, &before), None);
}

#[test]
fn a_changed_file_is_a_completed_download() {
    let before = state(vec![file("a.txt", 3, 1)]);
    assert_eq!(
        completed_download(&state(vec![file("a.txt", 4, 1)]), &before),
        Some((b"a.txt".to_vec(), 4))
    );
    assert_eq!(
        completed_download(&state(vec![file("a.txt", 3, 2)]), &before),
        Some((b"a.txt".to_vec(), 3))
    );
    let unknown = Listed {
        name: b"a.txt".to_vec(),
        is_file: true,
        stamp: Stamp { size: 3, modified: None },
    };
    assert_eq!(
        completed_download(&state(vec![unknown]), &before),
        Some((b"a.txt".to_vec(), 3))
    );
}

#[test]
fn nothing_is_complete_while_a_download_is_under_way() {
    let before = state(vec![]);
    let now = state(vec![file("b.zip", 9, 2), file("c.zip.crdownload", 1, 2)]);
    assert_eq!(completed_download(&now, &before), None);
    let old_partial = state(vec![file("c.crdownload", 1, 2)]);
    let now = state(vec![file("c.crdownload", 1, 2), file("b.zip", 9, 2)]);
    assert_eq!(completed_download(&now, &old_partial), None);
}

#[test]
fn empty_files_and_directories_do_not_count() {
    let before = state(vec![]);
    assert_eq!(completed_download(&state(vec![file("b.zip", 0, 2)]), &before), None);
    let dir = Listed {
        name: b"d".to_vec(),
        is_file: false,
        stamp: Stamp { size: 4096, modified: Some(5) },
    };
    assert_eq!(completed_download(&state(vec![dir]), &before), None);
    let partial_dir = Listed {
        name: b"d.crdownload".to_vec(),
        is_file: false,
        stamp: Stamp { size: 4096, modified: Some(5) },
    };
    assert_eq!(
        completed_download(&state(vec![partial_dir, file("x", 1, 1)]), &before),
        Some((b"x".to_vec(), 1))
    );
}

#[test]
fn of_several_fresh_files_the_last_by_name_counts() {
    let before = state(vec![file("z", 1, 1)]);
    let now = state(vec![
        file("m", 1, 1),
        file("z", 1, 1),
        file("ma", 2, 1),
        file("b", 3, 1),
        file("y", 0, 9),
    ]);
    assert_eq!(completed_download(&now, &before), Some((b"ma".to_vec(), 2)));
}

#[test]
fn extensions_are_those_of_paths() {
    let has = |name: &str| extension_is(&name.as_bytes().to_vec(), b"sock");
    for name in ["a.sock", ".a.sock", "a.b.sock"] {
        assert!(has(name), "{:?}", name);
    }
    for name in [".sock", "a.sock.x", "sock", "a.SOCK", "a.", "", "a.sockx"] {
        assert!(!has(name), "{:?}", name);
    }
}

#[test]
fn paths_are_joined_and_shown() {
    assert_eq!(join_path(&b"/a".to_vec(), b"b"), b"/a/b");
    assert_eq!(join_path(&b"/a/".to_vec(), b"b"), b"/a/b");
    assert_eq!(join_path(&b"".to_vec(), b"b"), b"b");
    assert_eq!(path_text(&b"/a\xfe/b".to_vec()), "/a\u{fffd}/b");
    assert_eq!(path_text(&"/\u{e9}".as_bytes().to_vec()), "/\u{e9}");
}

#[test]
fn the_last_member_is_that_of_paths() {
    for raw in ["a", "/a/b", "a/", "a//", "a/.", "..", "a/..", "", "/", ".", "./a", "../a b", "a/./b"] {
        let expected = std::path::Path::new(raw).file_name().map(|n| n.to_str().unwrap().to_owned());
        let got = last_member(raw).map(|n| n.into_iter().collect::<String>());
        assert_eq!(got, expected, "{:?}", raw);
    }
}
