use rustynotes::recent::{prune_missing, push_recent, remember_recent_folder, retain_flagged};

#[test]
fn push_recent_adds_new_entry_at_front() {
    let mut list = vec!["/a".to_string(), "/b".to_string()];
    let changed = push_recent(&mut list, "/c".to_string(), 10);
    assert!(changed);
    assert_eq!(list, vec!["/c", "/a", "/b"]);
}

#[test]
fn push_recent_moves_existing_entry_to_front() {
    let mut list = vec!["/a".to_string(), "/b".to_string(), "/c".to_string()];
    let changed = push_recent(&mut list, "/b".to_string(), 10);
    assert!(changed);
    assert_eq!(list, vec!["/b", "/a", "/c"]);
}

#[test]
fn push_recent_no_op_if_already_first() {
    let mut list = vec!["/a".to_string(), "/b".to_string()];
    let changed = push_recent(&mut list, "/a".to_string(), 10);
    assert!(!changed);
    assert_eq!(list, vec!["/a", "/b"]);
}

#[test]
fn push_recent_caps_length() {
    let mut list: Vec<String> = (0..10).map(|i| format!("/{i}")).collect();
    push_recent(&mut list, "/new".to_string(), 10);
    assert_eq!(list.len(), 10);
    assert_eq!(list[0], "/new");
    assert_eq!(list[9], "/8");
}

#[test]
fn prune_missing_removes_nonexistent() {
    let mut list = vec!["/definitely/not/a/real/path.md".to_string()];
    let changed = prune_missing(&mut list);
    assert!(changed);
    assert!(list.is_empty());
}

#[test]
fn push_recent_twice_is_push_once() {
    let mut once = vec!["/a".to_string(), "/b".to_string()];
    push_recent(&mut once, "/b".to_string(), 10);
    let mut twice = once.clone();
    let changed = push_recent(&mut twice, "/b".to_string(), 10);
    assert!(!changed);
    assert_eq!(once, twice);
}

#[test]
fn push_recent_removes_every_duplicate_and_caps_small() {
    let mut list = vec!["/y".to_string(), "/x".to_string(), "/z".to_string(), "/x".to_string()];
    assert!(push_recent(&mut list, "/x".to_string(), 2));
    assert_eq!(list, vec!["/x", "/y"]);
    let mut empty: Vec<String> = Vec::new();
    assert!(!push_recent(&mut empty, "/p".to_string(), 0));
    assert!(empty.is_empty());
    let mut one = vec!["/q".to_string()];
    assert!(push_recent(&mut one, "/p".to_string(), 0));
    assert!(one.is_empty());
}

#[test]
fn remember_recent_folder_only_adds_new() {
    let mut list = vec!["/a".to_string(), "/b".to_string()];
    assert!(!remember_recent_folder(&mut list, "/b".to_string(), 10));
    assert_eq!(list, vec!["/a", "/b"]);
    assert!(remember_recent_folder(&mut list, "/c".to_string(), 2));
    assert_eq!(list, vec!["/c", "/a"]);
}

#[test]
fn retain_flagged_keeps_flagged_in_order() {
    let mut list = vec!["/a".to_string(), "/b".to_string(), "/c".to_string()];
    assert!(retain_flagged(&mut list, &vec![true, false, true]));
    assert_eq!(list, vec!["/a", "/c"]);
    assert!(!retain_flagged(&mut list, &vec![true, true]));
    assert_eq!(list, vec!["/a", "/c"]);
}
