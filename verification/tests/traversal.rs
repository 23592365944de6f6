use fscan::entry::{Config, EntryInfo, EntryKind, Meta};
use fscan::scan::{Listing, Scanner};

fn cfg() -> Config {
    Config { debug: false, maxsumsize: 3, hashlen: 8 }
}

fn entry(path: &str, name: &str, kind: EntryKind, len: u64, dev: u64) -> EntryInfo {
    EntryInfo {
        path: path.to_string(),
        name: Some(name.to_string()),
        kind,
        meta: Some(Meta { len, mode: 0o40755, dev, uid: 0, gid: 0, mtime: Some(0) }),
        link_target: if let EntryKind::Symlink = kind {
            Some("target".to_string())
        } else {
            None
        },
        content: vec![],
    }
}

// Only real directories on the root's device are handed to the next
// level: a directory on another device and a symlink are reported but
// never descended into.
#[test]
fn mount_and_symlink_isolation() {
    let mut s = Scanner::new(cfg());
    s.dev = 7;
    let level = vec![
        Listing::Entry(entry("/r/same", "same", EntryKind::Dir, 0, 7)),
        Listing::Entry(entry("/r/mnt", "mnt", EntryKind::Dir, 0, 8)),
        Listing::Entry(entry("/r/link", "link", EntryKind::Symlink, 6, 7)),
    ];
    let (lines, dirs) = s.visit(&level);
    assert_eq!(lines.len(), 3);
    assert!(lines[1].ends_with("mnt/ (mountpoint)"));
    assert_eq!(dirs, vec!["/r/same".to_string()]);
}

// The running total sums the reported lengths of regular files and
// symlinks alone: directories, other entries and failures add nothing.
#[test]
fn byte_total_counts_files_and_symlinks() {
    let mut s = Scanner::new(cfg());
    s.dev = 7;
    let level = vec![
        Listing::Entry(entry("/r/f", "f", EntryKind::File, 10, 7)),
        Listing::Entry(entry("/r/l", "l", EntryKind::Symlink, 5, 7)),
        Listing::Entry(entry("/r/d", "d", EntryKind::Dir, 4096, 7)),
        Listing::Entry(entry("/r/s", "s", EntryKind::Other, 7, 7)),
        Listing::Failure("gone".to_string()),
    ];
    let (lines, _dirs) = s.visit(&level);
    assert_eq!(lines.len(), 5);
    assert_eq!(s.count, 15);
}

// An enumeration failure becomes an inline error line and stops nothing.
#[test]
fn enumeration_failure_is_inline() {
    let mut s = Scanner::new(cfg());
    let level = vec![
        Listing::Failure("Os { code: 13 }".to_string()),
        Listing::Entry(entry("/r/f", "f", EntryKind::File, 0, 0)),
    ];
    let (lines, _dirs) = s.visit(&level);
    assert_eq!(lines[0], "err Os { code: 13 }");
    assert_eq!(lines.len(), 2);
}

// A cached id is reused, never resolved again: a canned name planted in
// the cache is returned as-is, and the cache keeps a single binding.
#[test]
fn owner_name_resolved_at_most_once() {
    let mut s = Scanner::new(cfg());
    s.users.insert(42_424_242, "someone".to_string());
    assert_eq!(s.user_name(42_424_242), "someone");
    assert_eq!(s.user_name(42_424_242), "someone");
    assert_eq!(s.users.len(), 1);

    s.groups.insert(42_424_242, "crew".to_string());
    assert_eq!(s.group_name(42_424_242), "crew");
    assert_eq!(s.groups.len(), 1);
}

// An unresolvable id degrades to the placeholder name, which is itself
// cached.
#[test]
fn unresolvable_id_is_cached_placeholder() {
    let mut s = Scanner::new(cfg());
    let first = s.user_name(4_242_424_242);
    assert_eq!(first, "?");
    assert_eq!(s.users.get(&4_242_424_242), Some(&"?".to_string()));
    assert_eq!(s.user_name(4_242_424_242), "?");
    assert_eq!(s.users.len(), 1);
}

// Deeper levels open with a blank line and a header relative to the
// root; a directory not under the root gets the blank line alone.
#[test]
fn subdirectory_headers() {
    let mut s = Scanner::new(cfg());
    let (_lines, _dirs) = s.scan(0, &"/r".to_string(), 7, &vec![]);
    let (sub, _d) = s.scan(1, &"/r/a/b".to_string(), 0, &vec![]);
    assert_eq!(sub, vec!["".to_string(), "a/b/:".to_string()]);
    let (stray, _d2) = s.scan(1, &"/elsewhere".to_string(), 0, &vec![]);
    assert_eq!(stray, vec!["".to_string()]);
}

// A fresh root resets the device id and the byte counter.
#[test]
fn new_root_resets_bookkeeping() {
    let mut s = Scanner::new(cfg());
    let first = vec![Listing::Entry(entry("/r/f", "f", EntryKind::File, 9, 7))];
    let (_l1, _d1) = s.scan(0, &"/r".to_string(), 7, &first);
    assert_eq!(s.count, 9);
    assert_eq!(s.total_line(), "total bytes: 9");

    let (_l2, _d2) = s.scan(0, &"/other".to_string(), 11, &vec![]);
    assert_eq!(s.dev, 11);
    assert_eq!(s.count, 0);
    assert_eq!(s.root, "/other");
    assert_eq!(s.total_line(), "total bytes: 0");
}
