use eidetic::db::Database;
use eidetic::fs::InodeStore;

fn fresh_db() -> Database {
    Database::new(":memory:").ok().expect("in-memory store")
}

#[test]
fn root_row_exists() {
    let db = fresh_db();
    let entry = db.get_inode_entry(1).unwrap_or(None);
    let (parent, name) = entry.expect("root row");
    assert_eq!(parent, 1);
    assert_eq!(name, "");
}

#[test]
fn create_then_lookup() {
    let mut db = fresh_db();
    let id = db.create_inode(1, "a.txt").ok().expect("create");
    assert!(id != 1);
    let found = db.get_inode(1, "a.txt").ok().expect("lookup");
    assert_eq!(found, Some(id));
    let entry = db.get_inode_entry(id).ok().expect("entry").expect("row");
    assert_eq!(entry.0, 1);
    assert_eq!(entry.1, "a.txt");
}

#[test]
fn duplicate_pair_fails() {
    let mut db = fresh_db();
    db.create_inode(1, "a").ok().expect("first");
    assert!(db.create_inode(1, "a").is_err());
}

#[test]
fn lookup_missing_is_none() {
    let db = fresh_db();
    assert_eq!(db.get_inode(1, "ghost").ok().expect("query"), None);
}

#[test]
fn add_tag_is_idempotent() {
    let mut db = fresh_db();
    let id = db.create_inode(1, "doc").ok().expect("create");
    db.add_tag(id, "finance").ok().expect("tag once");
    db.add_tag(id, "finance").ok().expect("tag twice");
    let tags = db.get_tags().ok().expect("tags");
    assert_eq!(tags, vec!["finance".to_string()]);
}

#[test]
fn files_with_tag_lists_the_file() {
    let mut db = fresh_db();
    let a = db.create_inode(1, "invoice.txt").ok().expect("a");
    let b = db.create_inode(1, "notes.txt").ok().expect("b");
    db.add_tag(a, "finance").ok().expect("tag a");
    db.add_tag(b, "letter").ok().expect("tag b");
    let files = db.get_files_with_tag("finance").ok().expect("files");
    assert_eq!(files, vec![(a, "invoice.txt".to_string())]);
}

#[test]
fn history_rows_keep_insertion_order() {
    let mut db = fresh_db();
    let id = db.create_inode(1, "a.txt").ok().expect("create");
    db.add_history(id, "h/one").ok().expect("one");
    db.add_history(id, "h/two").ok().expect("two");
    db.add_history(id, "h/three").ok().expect("three");
    let rows = db.get_history().ok().expect("rows");
    assert_eq!(rows.len(), 3);
    assert_eq!(rows[0].0, id);
    assert_eq!(rows[0].2, "h/one");
    assert_eq!(rows[1].2, "h/two");
    assert_eq!(rows[2].2, "h/three");
    assert!(rows[0].1 <= rows[1].1 && rows[1].1 <= rows[2].1);
}

#[test]
fn trash_rows_record_both_paths() {
    let mut db = fresh_db();
    db.add_trash("a.txt", "/src/.eidetic/trash/7_a.txt").ok().expect("trash");
    let rows = db.get_trash().ok().expect("rows");
    assert_eq!(rows.len(), 1);
    assert_eq!(rows[0].0, "a.txt");
    assert_eq!(rows[0].1, "/src/.eidetic/trash/7_a.txt");
}

#[test]
fn delete_removes_row() {
    let mut db = fresh_db();
    let id = db.create_inode(1, "a").ok().expect("create");
    db.delete_inode(id).ok().expect("delete");
    assert_eq!(db.get_inode(1, "a").ok().expect("query"), None);
    assert_eq!(db.get_inode_entry(id).ok().expect("query"), None);
}

#[test]
fn rename_moves_row() {
    let mut db = fresh_db();
    let d = db.create_inode(1, "dir").ok().expect("dir");
    let id = db.create_inode(1, "a").ok().expect("a");
    db.rename_inode(id, d, "b").ok().expect("rename");
    assert_eq!(db.get_inode(1, "a").ok().expect("q"), None);
    assert_eq!(db.get_inode(d, "b").ok().expect("q"), Some(id));
}

#[test]
fn store_open_failure_reported() {
    assert!(Database::new("/nonexistent_dir_for_sure/x/y/z.db").is_err());
}

#[test]
fn resolver_builds_nested_path() {
    let mut store = InodeStore::new(":memory:").ok().expect("store");
    let a = store.alloc_inode(1, "a");
    let b = store.alloc_inode(a, "b");
    let c = store.alloc_inode(b, "c.txt");
    assert!(a != 0 && b != 0 && c != 0);
    assert_eq!(store.get_path(1).expect("root"), "");
    assert_eq!(store.get_path(a).expect("a"), "a");
    assert_eq!(store.get_path(b).expect("b"), "a/b");
    assert_eq!(store.get_path(c).expect("c"), "a/b/c.txt");
}

#[test]
fn resolver_rejects_unknown_inode() {
    let store = InodeStore::new(":memory:").ok().expect("store");
    assert_eq!(store.get_path(4242), None);
}

#[test]
fn alloc_after_lookup_is_stable() {
    let mut store = InodeStore::new(":memory:").ok().expect("store");
    let first = store.alloc_inode(1, "a.txt");
    let second = store.alloc_inode(1, "a.txt");
    assert_eq!(first, second);
    assert_eq!(store.get_inode(1, "a.txt"), Some(first));
}
