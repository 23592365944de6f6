use fscan::entry::{Config, EntryInfo, EntryKind, Meta};
use fscan::scan::{Listing, Scanner};

fn cfg() -> Config {
    Config { debug: false, maxsumsize: 3, hashlen: 8 }
}

fn meta(len: u64, dev: u64) -> Meta {
    Meta { len, mode: 0o100644, dev, uid: 0, gid: 0, mtime: Some(0) }
}

fn file(path: &str, name: &str, len: u64, dev: u64, content: &[u8]) -> EntryInfo {
    EntryInfo {
        path: path.to_string(),
        name: Some(name.to_string()),
        kind: EntryKind::File,
        meta: Some(meta(len, dev)),
        link_target: None,
        content: vec![content.to_vec()],
    }
}

fn dir(path: &str, name: &str, dev: u64) -> EntryInfo {
    EntryInfo {
        path: path.to_string(),
        name: Some(name.to_string()),
        kind: EntryKind::Dir,
        meta: Some(Meta { len: 4096, mode: 0o40755, dev, uid: 0, gid: 0, mtime: Some(0) }),
        link_target: None,
        content: vec![],
    }
}

// Fixed column layout: perms 0..10, length 11..21, owner+group 22..39,
// timestamp 40..56, hash 57..65, name and suffix from 66 on.
fn length_col(line: &str) -> &str {
    &line[11..21]
}

fn ts_col(line: &str) -> &str {
    &line[40..56]
}

fn hash_col(line: &str) -> &str {
    &line[57..65]
}

fn tail_col(line: &str) -> &str {
    &line[66..]
}

// The worked example: a root with one empty subdirectory `a` and one
// 10-byte file `b.txt` gives the separator, the root header, one line per
// child, no lines for the empty subdirectory beyond its own header, and a
// total of 10 bytes.
#[test]
fn example_root_with_subdir_and_file() {
    let mut s = Scanner::new(cfg());
    let level0 = vec![
        Listing::Entry(dir("/r/a", "a", 7)),
        Listing::Entry(file("/r/b.txt", "b.txt", 10, 7, b"0123456789")),
    ];
    let (lines, dirs) = s.scan(0, &"/r".to_string(), 7, &level0);
    assert_eq!(lines.len(), 4);
    assert_eq!(lines[0], "-".repeat(40));
    assert_eq!(lines[1], "(root) /r:");

    let a_line = &lines[2];
    assert_eq!(length_col(a_line).trim(), "0");
    assert_eq!(ts_col(a_line).trim(), "");
    assert_eq!(hash_col(a_line).trim(), "");
    assert_eq!(tail_col(a_line), "a/");

    let b_line = &lines[3];
    assert_eq!(length_col(b_line).trim(), "10");
    assert_eq!(ts_col(b_line).trim(), "1970-01-01T00:00");
    let h = hash_col(b_line);
    assert_eq!(h.len(), 8);
    assert!(h.chars().all(|c| c.is_ascii_hexdigit()));
    assert_eq!(h, &hex::encode(md5::compute(b"0123456789").0)[..8]);
    assert_eq!(tail_col(b_line), "b.txt");

    assert_eq!(dirs, vec!["/r/a".to_string()]);
    let (sub_lines, sub_dirs) = s.scan(1, &"/r/a".to_string(), 0, &vec![]);
    assert_eq!(sub_lines, vec!["".to_string(), "a/:".to_string()]);
    assert!(sub_dirs.is_empty());

    assert_eq!(s.total_line(), "total bytes: 10");
}

// Two files of identical bytes under different names hash identically and
// keep their own names.
#[test]
fn same_content_same_hash_different_names() {
    let mut s = Scanner::new(cfg());
    let one = s.report(&file("/r/one", "one", 4, 7, b"abcd"));
    let two = s.report(&file("/r/deeper/two", "two", 4, 7, b"abcd"));
    assert_eq!(hash_col(&one), hash_col(&two));
    assert_eq!(tail_col(&one), "one");
    assert_eq!(tail_col(&two), "two");
}

// A zero-length file shows the dash sentinel, never a digest.
#[test]
fn empty_file_shows_sentinel() {
    let mut s = Scanner::new(cfg());
    let line = s.report(&file("/r/e", "e", 0, 7, b""));
    assert_eq!(hash_col(&line), "--------");
}

// Exactly at the threshold is too large; one byte below is hashed.
#[test]
fn threshold_is_exclusive() {
    let mut s = Scanner::new(cfg());
    let at = s.report(&file("/r/big", "big", 3 * 1024 * 1024, 7, b"xyz"));
    assert_eq!(hash_col(&at), "--------");
    let below = s.report(&file("/r/ok", "ok", 3 * 1024 * 1024 - 1, 7, b"xyz"));
    assert!(hash_col(&below).chars().all(|c| c.is_ascii_hexdigit()));
}

// The sentinel follows the configured hash width.
#[test]
fn sentinel_uses_hash_width() {
    let mut s = Scanner::new(Config { debug: false, maxsumsize: 3, hashlen: 4 });
    let line = s.report(&file("/r/e", "e", 0, 7, b""));
    assert_eq!(&line[57..61], "----");
}

// A directory shows zero length and empty timestamp and hash columns,
// whatever its metadata says.
#[test]
fn directory_fields_are_cleared() {
    let mut s = Scanner::new(cfg());
    s.dev = 7;
    let line = s.report(&dir("/r/d", "d", 7));
    assert_eq!(length_col(&line).trim(), "0");
    assert_eq!(ts_col(&line).trim(), "");
    assert_eq!(hash_col(&line).trim(), "");
    assert_eq!(tail_col(&line), "d/");
}

// A directory on another device is annotated as a mountpoint.
#[test]
fn foreign_device_directory_is_marked() {
    let mut s = Scanner::new(cfg());
    s.dev = 7;
    let line = s.report(&dir("/r/mnt", "mnt", 8));
    assert_eq!(tail_col(&line), "mnt/ (mountpoint)");
}

// A symlink shows the arrow and its target, and its own length counts.
#[test]
fn symlink_shows_target_and_counts() {
    let mut s = Scanner::new(cfg());
    let info = EntryInfo {
        path: "/r/l".to_string(),
        name: Some("l".to_string()),
        kind: EntryKind::Symlink,
        meta: Some(Meta { len: 5, mode: 0o120777, dev: 7, uid: 0, gid: 0, mtime: Some(0) }),
        link_target: Some("b.txt".to_string()),
        content: vec![],
    };
    let line = s.report(&info);
    assert_eq!(tail_col(&line), "l -> b.txt");
    assert_eq!(hash_col(&line).trim(), "");
    assert_eq!(s.count, 5);
}

// An entry whose metadata could not be read still gets a line, with the
// error marker and placeholder fields.
#[test]
fn missing_metadata_degrades_to_placeholders() {
    let mut s = Scanner::new(cfg());
    let info = EntryInfo {
        path: "/r/g".to_string(),
        name: Some("g".to_string()),
        kind: EntryKind::Other,
        meta: None,
        link_target: None,
        content: vec![],
    };
    let line = s.report(&info);
    assert_eq!(&line[0..10], "no meta   ");
    assert_eq!(length_col(&line).trim(), "0");
    assert_eq!(&line[22..39], " ".repeat(17));
    assert_eq!(ts_col(&line).trim(), "");
    assert_eq!(tail_col(&line), "g");
    assert_eq!(s.count, 0);
}

// An entry without a timestamp shows the placeholder.
#[test]
fn missing_mtime_shows_placeholder() {
    let mut s = Scanner::new(cfg());
    let mut info = file("/r/f", "f", 3, 7, b"abc");
    if let Some(m) = info.meta.as_mut() {
        m.mtime = None;
    }
    let line = s.report(&info);
    assert_eq!(ts_col(&line).trim(), "?");
}
