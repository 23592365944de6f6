//! The library-wide guarantees, stated and proved once over the spec
//! functions the executable contracts use.

use vstd::prelude::*;
use crate::entry::{Config, EntryInfo, spec_len_field, spec_ts_field, spec_hash_of};
use crate::hashing::{chunk_bytes, dash_run, hex_of, hex_digit, md5_of, in_hash_window};
use crate::scan::{Listing, spec_total, spec_listing_contribution, spec_next_dirs, spec_descend};
use crate::text::trunc8;

verus! {

/// Two regular files of identical byte content and identical reported
/// length show the same hash column, whatever their names, paths or
/// directory depths.
pub proof fn law_hash_content_determinism(cfg: Config, a: EntryInfo, b: EntryInfo)
    requires
        a.kind is File,
        b.kind is File,
        spec_len_field(a) == spec_len_field(b),
        chunk_bytes(a.content@) == chunk_bytes(b.content@),
    ensures
        spec_hash_of(cfg, a) == spec_hash_of(cfg, b),
{
}

/// A zero-length regular file never gets a computed hash: its hash
/// column is the dash sentinel of the configured width.
pub proof fn law_empty_file_unhashed(cfg: Config, info: EntryInfo)
    requires
        info.kind is File,
        spec_len_field(info) == 0,
    ensures
        spec_hash_of(cfg, info) == dash_run(cfg.hashlen as nat),
{
}

/// A regular file at or above the threshold of `maxsumsize` mebibytes
/// never gets a computed hash: exactly at the threshold is already too
/// large.
pub proof fn law_large_file_unhashed(cfg: Config, info: EntryInfo)
    requires
        info.kind is File,
        spec_len_field(info) >= cfg.maxsumsize * 0x100000,
    ensures
        spec_hash_of(cfg, info) == dash_run(cfg.hashlen as nat),
{
}

/// A regular file strictly inside the window gets a prefix of the hex
/// digest, never the sentinel.
pub proof fn law_small_file_hashed(cfg: Config, info: EntryInfo)
    requires
        info.kind is File,
        0 < spec_len_field(info),
        spec_len_field(info) < cfg.maxsumsize * 0x100000,
    ensures
        in_hash_window(spec_len_field(info), cfg.maxsumsize),
        ({
            let h = hex_of(md5_of(chunk_bytes(info.content@)));
            spec_hash_of(cfg, info) == if cfg.hashlen <= h.len() {
                h.take(cfg.hashlen as int)
            } else {
                h
            }
        }),
{
}

/// Hex encoding yields hex digits alone: no position of a computed hash
/// ever shows the dash of the sentinel.
pub proof fn law_hex_never_dash(bs: Seq<u8>, i: int)
    requires
        0 <= i < hex_of(bs).len(),
    ensures
        hex_of(bs)[i] != '-',
{
    let d = if i % 2 == 0 { (bs[i / 2] / 16) as nat } else { (bs[i / 2] % 16) as nat };
    assert(hex_of(bs)[i] == hex_digit(d));
    assert(hex_digit(d) != '-');
}

/// A directory always reports length zero, and its timestamp and hash
/// columns are always empty, whatever its metadata holds.
pub proof fn law_dir_fields(cfg: Config, info: EntryInfo)
    requires
        info.kind is Dir,
    ensures
        spec_len_field(info) == 0,
        spec_ts_field(info) == Seq::<char>::empty(),
        spec_hash_of(cfg, info) == Seq::<char>::empty(),
{
}

/// Mount isolation: every path a level hands to the next one comes from
/// a listing that is a real directory (not a symlink) whose device id
/// equals the root's. A directory on another device is reported but
/// never descended into.
pub proof fn law_mount_isolation(rs: Seq<Listing>, dev: u64, k: int) -> (i: int)
    requires
        0 <= k < spec_next_dirs(rs, dev).len(),
    ensures
        0 <= i < rs.len(),
        spec_descend(rs[i], dev),
        rs[i]->Entry_0.path@ == spec_next_dirs(rs, dev)[k],
    decreases rs.len(),
{
    let pre = rs.drop_last();
    let front = spec_next_dirs(pre, dev);
    if k < front.len() {
        let i = law_mount_isolation(pre, dev, k);
        assert(pre[i] == rs[i]);
        assert(spec_next_dirs(rs, dev)[k] == front[k]);
        i
    } else {
        rs.len() - 1
    }
}

/// The reported length a listing adds to the running total: symlinks and
/// regular files add the length their metadata shows, everything else
/// adds nothing.
pub open spec fn spec_reported_len(l: Listing) -> u64 {
    match l {
        Listing::Entry(e) => if e.kind is File || e.kind is Symlink {
            spec_len_field(e)
        } else {
            0
        },
        Listing::Failure(_) => 0,
    }
}

/// The byte total of a level is exactly the sum of the reported lengths
/// of its symlinks and regular files: directories, other entries and
/// enumeration failures contribute nothing.
pub proof fn law_total_counts_files_and_symlinks(rs: Seq<Listing>)
    ensures
        forall |i: int| 0 <= i < rs.len()
            ==> spec_listing_contribution(#[trigger] rs[i]) == spec_reported_len(rs[i]),
        rs.len() > 0 ==> spec_total(rs)
            == spec_total(rs.drop_last()) + spec_reported_len(rs.last()),
        rs.len() == 0 ==> spec_total(rs) == 0,
    decreases rs.len(),
{
    if rs.len() > 0 {
        law_total_counts_files_and_symlinks(rs.drop_last());
    }
}

/// Name truncation: a name longer than 8 characters becomes `~` followed
/// by exactly its last 7 characters (8 in all); a name of 8 or fewer
/// characters is rendered unchanged.
pub proof fn law_name_truncation(s: Seq<char>)
    ensures
        s.len() > 8 ==> trunc8(s) == seq!['~'] + s.skip(s.len() - 7) && trunc8(s).len() == 8,
        s.len() <= 8 ==> trunc8(s) == s,
{
}

} // verus!
