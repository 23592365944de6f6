//! The per-entry data model and the rendering of one report line.
//!
//! An entry is classified as symlink, directory, regular file or other;
//! its metadata, if it could be resolved at all, is a handful of plain
//! values. One line is rendered from fixed-width columns: permissions,
//! length, owner and group, timestamp, hash, then the name and a
//! type-specific suffix.

use vstd::prelude::*;
use crate::hashing::{spec_hash_field, chunk_bytes, hash_field};
use crate::sys::{mode_display, ts_display, ts_renderable, mode_string, ts_string};
use crate::text::{
    pad_right, pad_left, dec_str, trunc8, push_all, push_pad_right, push_pad_left, push_dec,
    str_chars, trunc8_chars,
};

verus! {

/// The effective configuration of one invocation: the debug flag, the
/// hashing size threshold in mebibytes, and the displayed hash width in
/// hex characters.
#[derive(Clone, Copy, PartialEq, Eq, Structural)]
pub struct Config {
    pub debug: bool,
    pub maxsumsize: u64,
    pub hashlen: u32,
}

/// The mutually exclusive classification of an entry, checked in this
/// priority order: a symlink is a symlink even when it points at a
/// directory or file.
#[derive(Clone, Copy, PartialEq, Eq, Structural)]
pub enum EntryKind {
    Symlink,
    Dir,
    File,
    Other,
}

/// Resolved metadata of one entry, as plain values. For a symlink these
/// describe the link itself, never its target.
#[derive(Clone, Copy)]
pub struct Meta {
    pub len: u64,
    pub mode: u32,
    pub dev: u64,
    pub uid: u32,
    pub gid: u32,
    /// Modification time in epoch seconds; absent when the filesystem
    /// could not supply one.
    pub mtime: Option<i64>,
}

/// Everything the reporter needs to know about one enumerated entry.
pub struct EntryInfo {
    /// The full path of the entry.
    pub path: String,
    /// The final path component; absent when it cannot be determined.
    pub name: Option<String>,
    pub kind: EntryKind,
    /// Absent when metadata resolution failed; the entry is still
    /// reported, with placeholder fields.
    pub meta: Option<Meta>,
    /// The target of a symlink.
    pub link_target: Option<String>,
    /// For a regular file inside the hash window: its content, in the
    /// chunks it was read in. Empty when the file could not be read (the
    /// hash of nothing is then shown) or was not read at all.
    pub content: Vec<Vec<u8>>,
}

/// The permissions column: the symbolic mode string, or a marker when
/// metadata could not be resolved.
pub open spec fn spec_perms(info: EntryInfo) -> Seq<char> {
    match info.meta {
        Some(m) => mode_display(m.mode),
        None => "no meta"@,
    }
}

/// The length column: a directory always reports zero, every other entry
/// its metadata length (zero when metadata failed).
pub open spec fn spec_len_field(info: EntryInfo) -> u64 {
    if info.kind is Dir {
        0
    } else {
        match info.meta {
            Some(m) => m.len,
            None => 0,
        }
    }
}

/// The timestamp column: empty for directories and for entries without
/// metadata, a placeholder when no timestamp is available or it cannot be
/// rendered, otherwise the `YYYY-MM-DDThh:mm` rendering.
pub open spec fn spec_ts_field(info: EntryInfo) -> Seq<char> {
    if info.kind is Dir {
        Seq::<char>::empty()
    } else {
        match info.meta {
            None => Seq::<char>::empty(),
            Some(m) => match m.mtime {
                None => "?"@,
                Some(s) => if ts_renderable(s) {
                    ts_display(s)
                } else {
                    "?"@
                },
            },
        }
    }
}

/// The owner column: both display names truncated and padded to 8
/// characters each, separated by one space; empty when metadata failed.
pub open spec fn spec_owner_field(info: EntryInfo, uname: Seq<char>, gname: Seq<char>) -> Seq<char> {
    match info.meta {
        None => Seq::<char>::empty(),
        Some(m) => pad_right(trunc8(uname), 8) + seq![' '] + pad_right(trunc8(gname), 8),
    }
}

/// The hash column: only a regular file shows one, per the hash-window
/// policy; every other kind leaves it empty.
pub open spec fn spec_hash_of(cfg: Config, info: EntryInfo) -> Seq<char> {
    if info.kind is File {
        spec_hash_field(cfg.maxsumsize, cfg.hashlen, spec_len_field(info), chunk_bytes(info.content@))
    } else {
        Seq::<char>::empty()
    }
}

/// Whether the entry sits on another device than the root of the current
/// scan.
pub open spec fn spec_otherdev(info: EntryInfo, dev: u64) -> bool {
    match info.meta {
        Some(m) => m.dev != dev,
        None => false,
    }
}

/// The displayed name: the final path component, or a placeholder.
pub open spec fn spec_name(info: EntryInfo) -> Seq<char> {
    match info.name {
        Some(n) => n@,
        None => "?"@,
    }
}

/// The type-specific suffix: the arrow and target for a symlink, the
/// slash (and a mountpoint marker on a foreign device) for a directory,
/// nothing otherwise.
pub open spec fn spec_extra(info: EntryInfo, dev: u64) -> Seq<char> {
    match info.kind {
        EntryKind::Symlink => match info.link_target {
            Some(t) => " -> "@ + t@,
            None => " -> "@,
        },
        EntryKind::Dir => if spec_otherdev(info, dev) {
            "/"@ + " (mountpoint)"@
        } else {
            "/"@
        },
        _ => Seq::<char>::empty(),
    }
}

/// How many bytes the entry adds to the running per-root total: the
/// reported length for symlinks and regular files, nothing for
/// directories and other entries.
pub open spec fn spec_contribution(info: EntryInfo) -> u64 {
    match info.kind {
        EntryKind::Symlink | EntryKind::File => match info.meta {
            Some(m) => m.len,
            None => 0,
        },
        _ => 0,
    }
}

/// One whole report line, given the owner and group display names the
/// session resolved for the entry's ids.
pub open spec fn spec_report_line(
    cfg: Config,
    info: EntryInfo,
    dev: u64,
    uname: Seq<char>,
    gname: Seq<char>,
) -> Seq<char> {
    pad_right(spec_perms(info), 10) + seq![' ']
        + pad_left(dec_str(spec_len_field(info) as nat), 10) + seq![' ']
        + pad_right(spec_owner_field(info, uname, gname), 17) + seq![' ']
        + pad_right(spec_ts_field(info), 16) + seq![' ']
        + pad_right(spec_hash_of(cfg, info), 8) + seq![' ']
        + spec_name(info) + spec_extra(info, dev)
}

/// The byte contribution of one entry, as executed.
pub fn contribution(info: &EntryInfo) -> (r: u64)
    ensures
        r == spec_contribution(*info),
{
    match info.kind {
        EntryKind::Symlink | EntryKind::File => match &info.meta {
            Some(m) => m.len,
            None => 0,
        },
        _ => 0,
    }
}

/// Renders one report line for `info`, with `uname` and `gname` the
/// owner and group display names (ignored when metadata failed).
#[verifier::rlimit(80)]
pub fn render_line(
    cfg: &Config,
    info: &EntryInfo,
    dev: u64,
    uname: &Vec<char>,
    gname: &Vec<char>,
) -> (r: Vec<char>)
    requires
        info.kind is Symlink ==> info.link_target is Some,
    ensures
        r@ == spec_report_line(*cfg, *info, dev, uname@, gname@),
{
    let mut out: Vec<char> = Vec::new();

    // permissions column
    let permv: Vec<char> = match &info.meta {
        Some(m) => {
            let s = mode_string(m.mode);
            str_chars(s.as_str())
        },
        None => str_chars("no meta"),
    };
    assert(permv@ == spec_perms(*info));
    push_pad_right(&mut out, &permv, 10);
    out.push(' ');

    // length column
    let flen: u64 = match &info.meta {
        Some(m) => m.len,
        None => 0,
    };
    let len_field: u64 = match info.kind {
        EntryKind::Dir => 0,
        _ => flen,
    };
    let mut lenv: Vec<char> = Vec::new();
    push_dec(&mut lenv, len_field);
    proof {
        assert(len_field == spec_len_field(*info));
        assert(lenv@ =~= dec_str(spec_len_field(*info) as nat));
    }
    push_pad_left(&mut out, &lenv, 10);
    out.push(' ');

    // owner column
    let mut ownv: Vec<char> = Vec::new();
    if let Some(_m) = &info.meta {
        let ut = trunc8_chars(uname);
        push_pad_right(&mut ownv, &ut, 8);
        ownv.push(' ');
        let gt = trunc8_chars(gname);
        push_pad_right(&mut ownv, &gt, 8);
        proof {
            assert(ownv@ =~= spec_owner_field(*info, uname@, gname@));
        }
    }
    assert(ownv@ == spec_owner_field(*info, uname@, gname@));
    push_pad_right(&mut out, &ownv, 17);
    out.push(' ');

    // timestamp column
    let mut tsv: Vec<char> = Vec::new();
    match info.kind {
        EntryKind::Dir => {},
        _ => match &info.meta {
            None => {},
            Some(m) => match m.mtime {
                None => {
                    tsv = str_chars("?");
                },
                Some(s) => match ts_string(s) {
                    Some(t) => {
                        tsv = str_chars(t.as_str());
                    },
                    None => {
                        tsv = str_chars("?");
                    },
                },
            },
        },
    }
    assert(tsv@ == spec_ts_field(*info));
    push_pad_right(&mut out, &tsv, 16);
    out.push(' ');

    // hash column
    let mut hv: Vec<char> = Vec::new();
    match info.kind {
        EntryKind::File => {
            hv = hash_field(cfg.maxsumsize, cfg.hashlen, flen, &info.content);
        },
        _ => {},
    }
    assert(hv@ == spec_hash_of(*cfg, *info));
    push_pad_right(&mut out, &hv, 8);
    out.push(' ');

    // name and suffix
    let namev: Vec<char> = match &info.name {
        Some(n) => str_chars(n.as_str()),
        None => str_chars("?"),
    };
    assert(namev@ == spec_name(*info));
    push_all(&mut out, &namev);
    match info.kind {
        EntryKind::Symlink => {
            let arrow = str_chars(" -> ");
            push_all(&mut out, &arrow);
            match &info.link_target {
                Some(t) => {
                    let tv = str_chars(t.as_str());
                    push_all(&mut out, &tv);
                },
                None => {},
            }
        },
        EntryKind::Dir => {
            let slash = str_chars("/");
            push_all(&mut out, &slash);
            let otherdev: bool = match &info.meta {
                Some(m) => m.dev != dev,
                None => false,
            };
            if otherdev {
                let mp = str_chars(" (mountpoint)");
                push_all(&mut out, &mp);
            }
        },
        _ => {},
    }

    proof {
        assert(out@ =~= spec_report_line(*cfg, *info, dev, uname@, gname@));
    }
    out
}

} // verus!
