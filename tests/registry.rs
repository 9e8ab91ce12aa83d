use gitsync::lines::parse_lines;
use gitsync::{Store, StoreError};

#[test]
fn insert_same_path_twice_is_duplicate() {
    let mut store = Store::new(b"");
    let first = store.insert(b"/home/u/project", true);
    assert_eq!(first, Ok(b"/home/u/project\n".to_vec()));
    assert_eq!(store.len(), 1);
    let second = store.insert(b"/home/u/project", true);
    assert_eq!(second, Err(StoreError::Duplicate));
    assert_eq!(store.len(), 1);
}

#[test]
fn insert_missing_path_is_refused() {
    let mut store = Store::new(b"/a\n/b\n");
    let before = store.paths();
    store.rewind();
    assert_eq!(store.insert(b"/nowhere", false), Err(StoreError::NotExists));
    assert_eq!(store.len(), 2);
    assert_eq!(store.paths(), before);
}

#[test]
fn inserts_are_scanned_in_order() {
    let mut store = Store::new(b"");
    let paths: Vec<&[u8]> = vec![b"/r/one", b"/r/two", b"/r/three", b"/r/four"];
    for p in &paths {
        assert!(store.insert(p, true).is_ok());
    }
    let scanned = store.paths();
    let expected: Vec<Vec<u8>> = paths.iter().map(|p| p.to_vec()).collect();
    assert_eq!(scanned, expected);
}

#[test]
fn contains_after_scan_is_false() {
    let mut store = Store::new(b"/a\n/b\n");
    let all = store.paths();
    assert_eq!(all.len(), 2);
    assert!(!store.contains(b"/a"));
    store.rewind();
    assert!(store.contains(b"/a"));
}

#[test]
fn contains_moves_cursor_past_match() {
    let mut store = Store::new(b"/a\n/b\n/c\n");
    assert!(store.contains(b"/b"));
    assert!(!store.contains(b"/a"));
    store.rewind();
    assert!(store.contains(b"/c"));
    assert!(!store.contains(b"/c"));
}

#[test]
fn duplicate_check_ignores_cursor() {
    let mut store = Store::new(b"/a\n");
    let _ = store.paths();
    assert_eq!(store.insert(b"/a", true), Err(StoreError::Duplicate));
}

#[test]
fn paths_compare_as_exact_strings() {
    let mut store = Store::new(b"/a/b\n");
    assert!(store.insert(b"/a/b/", true).is_ok());
    assert!(store.insert(b"/a//b", true).is_ok());
    assert_eq!(store.len(), 3);
}

#[test]
fn parse_lines_handles_crlf_and_last_line() {
    let lines = parse_lines(b"/a\r\n/b\n\n/c");
    assert_eq!(lines, vec![b"/a".to_vec(), b"/b".to_vec(), Vec::new(), b"/c".to_vec()]);
    assert!(parse_lines(b"").is_empty());
}

#[test]
fn store_opens_over_existing_contents() {
    let mut store = Store::new(b"/x\n/y\n");
    assert_eq!(store.len(), 2);
    assert_eq!(store.paths(), vec![b"/x".to_vec(), b"/y".to_vec()]);
}
