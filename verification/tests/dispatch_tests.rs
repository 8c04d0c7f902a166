use eidetic::attr::{FileKind, FsStat};
use eidetic::cipher::encrypt;
use eidetic::fs::{
    slice_bytes, AttrStep, EideticFS, Errno, InodeStore, LookupStep, ReadOutcome, ReadStep,
    ReaddirStep,
};
use eidetic::inode::{
    classify, tag_dir_inode, InodeClass, API_BIT, CONTEXT_BIT, CONVERT_BIT, MAGIC_API,
    MAGIC_RECENT, MAGIC_ROOT, MAGIC_SEARCH, MAGIC_SEARCH_RESULTS, MAGIC_STATS, MAGIC_TAGS,
    MAGIC_WORMHOLE,
};
use eidetic::synth::stats_body;
use eidetic::worker::{job_channel, Job};

fn fresh_fs() -> EideticFS {
    let (tx, _rx) = job_channel();
    EideticFS {
        source_path: "/srv/data".to_string(),
        inodes: InodeStore::new(":memory:").ok().expect("store"),
        uid: 1000,
        gid: 1000,
        sender: tx,
    }
}

fn plain_stat(size: u64) -> FsStat {
    FsStat { size, is_dir: false, mode: 0o100644, atime: 10, mtime: 20, created: 30 }
}

#[test]
fn classify_singletons_and_bits() {
    assert_eq!(classify(1), InodeClass::Root);
    assert_eq!(classify(MAGIC_ROOT), InodeClass::MagicRoot);
    assert_eq!(classify(MAGIC_TAGS), InodeClass::Tags);
    assert_eq!(classify(MAGIC_RECENT), InodeClass::Recent);
    assert_eq!(classify(MAGIC_SEARCH), InodeClass::Search);
    assert_eq!(classify(MAGIC_SEARCH_RESULTS), InodeClass::SearchResults);
    assert_eq!(classify(MAGIC_API), InodeClass::Api);
    assert_eq!(classify(MAGIC_WORMHOLE), InodeClass::Wormhole);
    assert_eq!(classify(MAGIC_STATS), InodeClass::Stats);
    assert_eq!(classify(MAGIC_TAGS - 1000), InodeClass::TagDir);
    assert_eq!(classify(MAGIC_SEARCH_RESULTS - 2000), InodeClass::VirtualLeaf);
    assert_eq!(classify(5 | CONTEXT_BIT), InodeClass::Context { dir: 5 });
    assert_eq!(classify(7 | CONVERT_BIT), InodeClass::Convert { file: 7 });
    assert_eq!(classify(9 | API_BIT), InodeClass::ApiLeaf);
    assert_eq!(classify(42), InodeClass::Real);
}

#[test]
fn tag_dir_inode_lands_in_reserved_range() {
    let ino = tag_dir_inode("finance");
    assert!(MAGIC_TAGS - 2000 < ino && ino < MAGIC_TAGS);
    assert_eq!(classify(ino), InodeClass::TagDir);
    assert_eq!(tag_dir_inode("finance"), ino);
}

#[test]
fn lookup_magic_names() {
    let fs = fresh_fs();
    let a = fs.lookup_synthetic(1, ".magic").expect("magic");
    assert_eq!(a.ino, MAGIC_ROOT);
    assert_eq!(a.kind, FileKind::Directory);
    assert_eq!(a.perm, 0o555);
    let s = fs.lookup_synthetic(MAGIC_ROOT, "search").expect("search");
    assert_eq!(s.ino, MAGIC_SEARCH);
    assert_eq!(s.perm, 0o666);
    assert_eq!(s.kind, FileKind::RegularFile);
    let st = fs.lookup_synthetic(MAGIC_ROOT, "stats.md").expect("stats");
    assert_eq!(st.ino, MAGIC_STATS);
    let t = fs.lookup_synthetic(MAGIC_TAGS, "finance").expect("tag dir");
    assert_eq!(t.ino, tag_dir_inode("finance"));
    assert!(fs.lookup_synthetic(1, "plain.txt").is_none());
}

#[test]
fn lookup_context_entry() {
    let fs = fresh_fs();
    match fs.lookup_prepare(1, ".context") {
        Ok(LookupStep::Found(a)) => {
            assert_eq!(a.ino, 1 | CONTEXT_BIT);
            assert_eq!(a.perm, 0o444);
        },
        _ => panic!("expected a finished context entry"),
    }
}

#[test]
fn lookup_real_child_needs_stat() {
    let fs = fresh_fs();
    match fs.lookup_prepare(1, "notes.txt") {
        Ok(LookupStep::Stat { rel }) => assert_eq!(rel, "notes.txt"),
        _ => panic!("expected a stat request"),
    }
}

#[test]
fn lookup_unknown_parent_is_noent() {
    let fs = fresh_fs();
    assert!(matches!(fs.lookup_prepare(999, "x"), Err(Errno::NoEnt)));
}

#[test]
fn lookup_finish_registers_child() {
    let mut fs = fresh_fs();
    let meta = plain_stat(5);
    let attr = fs.lookup_finish(1, "a.txt", Some(&meta)).ok().expect("attr");
    assert!(attr.ino > 1);
    assert_eq!(attr.size, 5);
    assert_eq!(attr.uid, 1000);
    assert_eq!(fs.inodes.get_inode(1, "a.txt"), Some(attr.ino));
}

#[test]
fn jpg_falls_through_to_png_only_when_missing() {
    let mut fs = fresh_fs();
    let png = fs.inodes.alloc_inode(1, "x.png");
    assert!(png != 0);
    // The .jpg name does not exist on disk: the converted view answers.
    let attr = fs.lookup_finish(1, "x.jpg", None).ok().expect("convert");
    assert_eq!(attr.ino, png | CONVERT_BIT);
    assert_eq!(attr.size, 1048576);
    // The .jpg name does exist on disk: the real file answers, no view.
    let meta = plain_stat(9);
    let real = fs.lookup_finish(1, "x.jpg", Some(&meta)).ok().expect("real");
    assert_eq!(real.size, 9);
    assert!(real.ino & CONVERT_BIT == 0);
    // No .png sibling: a missing .jpg stays missing.
    assert!(matches!(fs.lookup_finish(1, "y.jpg", None), Err(Errno::NoEnt)));
    // Not a .jpg name: a missing child stays missing.
    assert!(matches!(fs.lookup_finish(1, "y.txt", None), Err(Errno::NoEnt)));
}

#[test]
fn getattr_routes_by_class() {
    let fs = fresh_fs();
    match fs.getattr_route(MAGIC_STATS) {
        Ok(AttrStep::Ready(a)) => {
            assert_eq!(a.size, 1024);
            assert_eq!(a.perm, 0o444);
        },
        _ => panic!("stats is canned"),
    }
    match fs.getattr_route(1) {
        Ok(AttrStep::Stat { rel }) => assert_eq!(rel, ""),
        _ => panic!("root needs a stat"),
    }
    assert!(matches!(fs.getattr_route(999), Err(Errno::NoEnt)));
}

#[test]
fn getattr_finish_uses_stat() {
    let fs = fresh_fs();
    let meta = FsStat { size: 7, is_dir: true, mode: 0o40755, atime: 1, mtime: 2, created: 3 };
    let a = fs.getattr_finish(77, Some(&meta)).ok().expect("attr");
    assert_eq!(a.kind, FileKind::Directory);
    assert_eq!(a.size, 7);
    assert!(matches!(fs.getattr_finish(77, None), Err(Errno::NoEnt)));
}

#[test]
fn read_routes_by_class() {
    let mut fs = fresh_fs();
    let a = fs.inodes.alloc_inode(1, "a.txt");
    match fs.read_route(a) {
        ReadStep::Backing { rel } => assert_eq!(rel, "a.txt"),
        _ => panic!("real file reads from backing"),
    }
    match fs.read_route(a | CONTEXT_BIT) {
        ReadStep::ContextDir { rel } => assert_eq!(rel, "a.txt"),
        _ => panic!("context view walks its directory"),
    }
    match fs.read_route(a | CONVERT_BIT) {
        ReadStep::ConvertPng { rel } => assert_eq!(rel, "a.txt"),
        _ => panic!("converted view reads the backing image"),
    }
    assert!(matches!(fs.read_route(MAGIC_STATS), ReadStep::Stats));
    assert!(matches!(fs.read_route(MAGIC_SEARCH), ReadStep::Empty));
    assert!(matches!(fs.read_route(MAGIC_TAGS), ReadStep::NotFound));
}

#[test]
fn vault_write_then_read_round_trips() {
    let fs = fresh_fs();
    let data = b"secret".to_vec();
    let stored = fs.write_payload("vault/s", &data);
    assert_ne!(stored, data);
    match fs.read_backing("vault/s", &stored) {
        ReadOutcome::Data(d) => assert_eq!(d, data),
        _ => panic!("vault read returns decrypted bytes"),
    }
}

#[test]
fn plain_write_passes_through() {
    let fs = fresh_fs();
    let data = b"hello".to_vec();
    assert_eq!(fs.write_payload("a.txt", &data), data);
    match fs.read_backing("a.txt", &data) {
        ReadOutcome::Data(d) => assert_eq!(d, data),
        _ => panic!("plain read passes bytes through"),
    }
}

#[test]
fn url_file_requests_fetch() {
    let fs = fresh_fs();
    match fs.read_backing("link.url", b"  http://example.com/x \n") {
        ReadOutcome::Fetch(u) => assert_eq!(u, "http://example.com/x"),
        _ => panic!("an address asks for a fetch"),
    }
    match fs.read_backing("link.url", b"not an address") {
        ReadOutcome::Data(d) => assert_eq!(d, b"not an address".to_vec()),
        _ => panic!("plain text stays"),
    }
}

#[test]
fn convert_read_rejects_garbage() {
    let fs = fresh_fs();
    assert!(matches!(fs.convert_read(b"not a png", 0, 16), Err(Errno::Io)));
}

#[test]
fn release_plans_job_for_resolvable_inode() {
    let mut fs = fresh_fs();
    let a = fs.inodes.alloc_inode(1, "a.txt");
    match fs.release_plan(a) {
        Some(Job::Analyze { inode, path }) => {
            assert_eq!(inode, a);
            assert_eq!(path, "/srv/data/a.txt");
        },
        None => panic!("a resolvable inode plans a job"),
    }
    assert!(fs.release_plan(4242).is_none());
    // The fire-and-forget send always returns.
    fs.release(a);
}

#[test]
fn readdir_with_positive_offset_is_empty() {
    let fs = fresh_fs();
    match fs.readdir_route(MAGIC_ROOT, 5, false) {
        ReaddirStep::Done(v) => assert!(v.is_empty()),
        _ => panic!("a re-read replies empty"),
    }
}

#[test]
fn readdir_magic_root_lists_fixed_children() {
    let fs = fresh_fs();
    match fs.readdir_route(MAGIC_ROOT, 0, false) {
        ReaddirStep::Done(v) => {
            let names: Vec<String> = v.iter().map(|e| e.name.clone()).collect();
            assert_eq!(
                names,
                vec![".", "..", "tags", "recent", "search", "api", "wormhole", "stats.md"]
            );
            assert_eq!(v[2].ino, MAGIC_TAGS);
            assert_eq!(v[4].kind, FileKind::RegularFile);
            assert_eq!(v[7].offset, 8);
        },
        _ => panic!("magic root is canned"),
    }
}

#[test]
fn readdir_tag_dir_lists_tagged_files() {
    let mut fs = fresh_fs();
    let id = fs.inodes.alloc_inode(1, "invoice.txt");
    fs.inodes.db.add_tag(id, "finance").ok().expect("tag");
    match fs.readdir_route(tag_dir_inode("finance"), 0, false) {
        ReaddirStep::Done(v) => {
            let names: Vec<String> = v.iter().map(|e| e.name.clone()).collect();
            assert_eq!(names, vec![".", "..", "invoice.txt"]);
            assert_eq!(v[2].ino, id);
            assert_eq!(v[2].kind, FileKind::RegularFile);
            assert_eq!(v[2].offset, 3);
        },
        _ => panic!("tag dir listing"),
    }
}

#[test]
fn readdir_tag_dir_without_files_is_dots_only() {
    let fs = fresh_fs();
    match fs.readdir_route(tag_dir_inode("ghost"), 0, false) {
        ReaddirStep::Done(v) => {
            let names: Vec<String> = v.iter().map(|e| e.name.clone()).collect();
            assert_eq!(names, vec![".", ".."]);
        },
        _ => panic!("tag dir listing"),
    }
}

#[test]
fn readdir_wormhole_gated_by_license() {
    let fs = fresh_fs();
    match fs.readdir_route(MAGIC_WORMHOLE, 0, false) {
        ReaddirStep::Done(v) => assert_eq!(v[2].name, "UPGRADE_TO_PRO.txt"),
        _ => panic!("canned"),
    }
    match fs.readdir_route(MAGIC_WORMHOLE, 0, true) {
        ReaddirStep::Done(v) => assert_eq!(v[2].name, "Peer_Node_1"),
        _ => panic!("canned"),
    }
}

#[test]
fn readdir_tags_lists_catalog_tags() {
    let mut fs = fresh_fs();
    let id = fs.inodes.alloc_inode(1, "doc");
    fs.inodes.db.add_tag(id, "finance").ok().expect("tag");
    match fs.readdir_route(MAGIC_TAGS, 0, false) {
        ReaddirStep::Done(v) => {
            assert_eq!(v.len(), 3);
            assert_eq!(v[2].name, "finance");
            assert_eq!(v[2].ino, tag_dir_inode("finance"));
            assert_eq!(v[2].kind, FileKind::Directory);
        },
        _ => panic!("tags listing"),
    }
}

#[test]
fn readdir_disk_lists_children_after_dots() {
    let mut fs = fresh_fs();
    let children = vec![("a.txt".to_string(), false), ("sub".to_string(), true)];
    let v = fs.readdir_disk(1, &children);
    let names: Vec<String> = v.iter().map(|e| e.name.clone()).collect();
    assert_eq!(names, vec![".", "..", ".magic", ".context", "a.txt", "sub"]);
    assert_eq!(v[2].ino, MAGIC_ROOT);
    assert_eq!(v[3].ino, 1 | CONTEXT_BIT);
    assert_eq!(v[4].kind, FileKind::RegularFile);
    assert_eq!(v[5].kind, FileKind::Directory);
    assert_eq!(fs.inodes.get_inode(1, "a.txt"), Some(v[4].ino));
}

#[test]
fn readdir_disk_synthesizes_jpg_views() {
    let mut fs = fresh_fs();
    let children = vec![("x.png".to_string(), false), ("a.txt".to_string(), false)];
    let v = fs.readdir_disk(1, &children);
    let names: Vec<String> = v.iter().map(|e| e.name.clone()).collect();
    assert_eq!(names, vec![".", "..", ".magic", ".context", "x.png", "a.txt", "x.jpg"]);
    assert_eq!(v[6].ino, v[4].ino | CONVERT_BIT);
    assert_eq!(v[6].kind, FileKind::RegularFile);
    assert_eq!(v[6].offset, 7);
}

#[test]
fn readdir_disk_skips_view_when_jpg_exists() {
    let mut fs = fresh_fs();
    let children = vec![("x.png".to_string(), false), ("x.jpg".to_string(), false)];
    let v = fs.readdir_disk(1, &children);
    let names: Vec<String> = v.iter().map(|e| e.name.clone()).collect();
    assert_eq!(names, vec![".", "..", ".magic", ".context", "x.png", "x.jpg"]);
}

#[test]
fn write_prepare_names_backup_after_inode_and_base() {
    let mut fs = fresh_fs();
    let a = fs.inodes.alloc_inode(1, "dir");
    let f = fs.inodes.alloc_inode(a, "a.txt");
    let plan = fs.write_prepare(f).ok().expect("plan");
    assert_eq!(plan.rel, "dir/a.txt");
    let expected = format!(".eidetic/history/{}_{}_a.txt", f, plan.ts);
    assert_eq!(plan.backup_rel, expected);
}

#[test]
fn write_record_appends_history_only_when_copied() {
    let mut fs = fresh_fs();
    let f = fs.inodes.alloc_inode(1, "a.txt");
    fs.write_record(f, "/srv/data/.eidetic/history/x", false);
    assert_eq!(fs.inodes.db.get_history().ok().expect("rows").len(), 0);
    fs.write_record(f, "/srv/data/.eidetic/history/x", true);
    let rows = fs.inodes.db.get_history().ok().expect("rows");
    assert_eq!(rows.len(), 1);
    assert_eq!(rows[0].0, f);
    assert_eq!(rows[0].2, "/srv/data/.eidetic/history/x");
}

#[test]
fn write_search_acknowledges_everything() {
    let fs = fresh_fs();
    assert_eq!(fs.write_search(b"what is this"), 12);
}

#[test]
fn unlink_trash_records_row_and_drops_inode() {
    let mut fs = fresh_fs();
    let f = fs.inodes.alloc_inode(1, "a.txt");
    let plan = fs.unlink_prepare(1, "a.txt").ok().expect("plan");
    assert_eq!(plan.child, f);
    assert_eq!(plan.rel, "a.txt");
    assert_eq!(plan.backup_rel, format!(".eidetic/trash/{}_a.txt", plan.ts));
    let backup_full = fs.full_path(&plan.backup_rel);
    fs.unlink_commit_trash(plan.child, &plan.rel, &backup_full).ok().expect("commit");
    let rows = fs.inodes.db.get_trash().ok().expect("rows");
    assert_eq!(rows.len(), 1);
    assert_eq!(rows[0].0, "a.txt");
    assert_eq!(rows[0].1, backup_full);
    assert_eq!(fs.inodes.get_inode(1, "a.txt"), None);
}

#[test]
fn unlink_fallback_leaves_no_trash_row() {
    let mut fs = fresh_fs();
    let f = fs.inodes.alloc_inode(1, "a.txt");
    fs.unlink_commit_delete(f).ok().expect("commit");
    assert_eq!(fs.inodes.db.get_trash().ok().expect("rows").len(), 0);
    assert_eq!(fs.inodes.get_inode(1, "a.txt"), None);
}

#[test]
fn rename_updates_catalog_row() {
    let mut fs = fresh_fs();
    let d = fs.inodes.alloc_inode(1, "dir");
    let f = fs.inodes.alloc_inode(1, "a.txt");
    let plan = fs.rename_prepare(1, "a.txt", d, "b.txt").ok().expect("plan");
    assert_eq!(plan.inode, f);
    assert_eq!(plan.old_rel, "a.txt");
    assert_eq!(plan.new_rel, "dir/b.txt");
    fs.rename_commit(f, d, "b.txt").ok().expect("commit");
    assert_eq!(fs.inodes.get_inode(d, "b.txt"), Some(f));
    assert_eq!(fs.inodes.get_inode(1, "a.txt"), None);
}

#[test]
fn rmdir_drops_row() {
    let mut fs = fresh_fs();
    let d = fs.inodes.alloc_inode(1, "dir");
    let (child, rel) = fs.rmdir_prepare(1, "dir").ok().expect("plan");
    assert_eq!(child, d);
    assert_eq!(rel, "dir");
    fs.rmdir_commit(child);
    assert_eq!(fs.inodes.get_inode(1, "dir"), None);
}

#[test]
fn stats_read_past_end_is_empty() {
    let (tags, counts) = fresh_fs().stats_tag_counts();
    let body = stats_body(&tags, &counts);
    let bytes = body.as_bytes();
    assert_eq!(slice_bytes(bytes, bytes.len(), 4096).len(), 0);
    assert_eq!(slice_bytes(bytes, bytes.len() + 50, 4096).len(), 0);
    assert_eq!(slice_bytes(bytes, 0, 4096), bytes.to_vec());
    assert_eq!(slice_bytes(bytes, 2, 3), bytes[2..5].to_vec());
}

#[test]
fn stats_body_counts_tagged_files() {
    let mut fs = fresh_fs();
    let a = fs.inodes.alloc_inode(1, "one");
    let b = fs.inodes.alloc_inode(1, "two");
    fs.inodes.db.add_tag(a, "finance").ok().expect("t");
    fs.inodes.db.add_tag(b, "finance").ok().expect("t");
    let (tags, counts) = fs.stats_tag_counts();
    assert_eq!(tags, vec!["finance".to_string()]);
    assert_eq!(counts, vec![2]);
    let body = stats_body(&tags, &counts);
    let expected = "# Eidetic Stats\n\n## System Status\n- **State**: Online\n- **Total Tags**: 1\n\n## Tags Distribution\n- **#finance**: 2 files\n\n> *Generated by Eidetic Intelligent Filesystem*\n";
    assert_eq!(body, expected);
}

#[test]
fn stats_body_without_tags() {
    let body = stats_body(&Vec::new(), &Vec::new());
    let expected = "# Eidetic Stats\n\n## System Status\n- **State**: Online\n- **Total Tags**: 0\n\n## Tags Distribution\n_No tags found yet._\n\n> *Generated by Eidetic Intelligent Filesystem*\n";
    assert_eq!(body, expected);
}
