//! The scan session and the level traversal policy.
//!
//! A `Scanner` owns the per-invocation state: the configuration, the lazy
//! owner/group name caches, and the per-root device id and running byte
//! total. `scan` handles one directory at one depth (root bookkeeping and
//! headers included), `visit` reports one level's enumerated children and
//! picks the subdirectories the next level descends into, `report`
//! renders one entry and updates the session.

use vstd::prelude::*;
use std::collections::HashMap;
use crate::entry::{
    Config, EntryKind, EntryInfo, spec_report_line, spec_contribution, contribution, render_line,
};
use crate::hashing::push_dashes;
use crate::sys::{lookup_user, lookup_group};
use crate::text::{dec_str, push_dec, str_chars, chars_to_string};

verus! {

broadcast use vstd::std_specs::hash::group_hash_axioms;

/// One enumeration result handed to a level: a fully resolved entry, or
/// the text of the error the enumeration gave for it.
pub enum Listing {
    Entry(EntryInfo),
    Failure(String),
}

/// A listing the traversal can take: a symlink entry must carry its
/// target.
pub open spec fn spec_listing_ok(l: Listing) -> bool {
    match l {
        Listing::Entry(e) => e.kind is Symlink ==> e.link_target is Some,
        Listing::Failure(_) => true,
    }
}

/// Whether a listed child is descended into: only a real directory
/// (never a symlink to one) whose device id equals the root's.
pub open spec fn spec_descend(l: Listing, dev: u64) -> bool {
    match l {
        Listing::Entry(e) => e.kind is Dir && match e.meta {
            Some(m) => m.dev == dev,
            None => false,
        },
        Listing::Failure(_) => false,
    }
}

/// The paths, in order, that a level hands to the next one.
pub open spec fn spec_next_dirs(rs: Seq<Listing>, dev: u64) -> Seq<Seq<char>>
    decreases rs.len(),
{
    if rs.len() == 0 {
        Seq::<Seq<char>>::empty()
    } else {
        spec_next_dirs(rs.drop_last(), dev) + if spec_descend(rs.last(), dev) {
            seq![rs.last()->Entry_0.path@]
        } else {
            Seq::<Seq<char>>::empty()
        }
    }
}

/// The byte contribution of one listing (an enumeration failure adds
/// nothing).
pub open spec fn spec_listing_contribution(l: Listing) -> u64 {
    match l {
        Listing::Entry(e) => spec_contribution(e),
        Listing::Failure(_) => 0,
    }
}

/// The total byte contribution of a level's listings.
pub open spec fn spec_total(rs: Seq<Listing>) -> int
    decreases rs.len(),
{
    if rs.len() == 0 {
        0
    } else {
        spec_total(rs.drop_last()) + spec_listing_contribution(rs.last())
    }
}

/// A prefix never contributes more than the whole level.
pub proof fn lemma_total_prefix(rs: Seq<Listing>, i: int)
    requires
        0 <= i <= rs.len(),
    ensures
        spec_total(rs.take(i)) <= spec_total(rs),
    decreases rs.len() - i,
{
    if i == rs.len() {
        assert(rs.take(i) =~= rs);
    } else {
        assert(rs.take(i + 1).drop_last() =~= rs.take(i));
        assert(rs.take(i + 1).last() == rs[i]);
        lemma_total_prefix(rs, i + 1);
    }
}

/// The new cache keeps every binding of the old one.
pub open spec fn cache_keeps(now: Map<u32, String>, before: Map<u32, String>) -> bool {
    forall |k: u32| #[trigger] before.contains_key(k)
        ==> now.contains_key(k) && now[k] == before[k]
}

/// Whether `dir` lies under `root` in the string-prefix sense, so that a
/// relative header can be shown for it.
pub open spec fn under_root(dir: Seq<char>, root: Seq<char>) -> bool {
    &&& root.len() <= dir.len()
    &&& dir.take(root.len() as int) == root
    &&& (root.len() == dir.len() || (root.len() > 0 && root.last() == '/') || dir[root.len() as int] == '/')
}

/// The path of `dir` relative to `root`, without a leading separator.
pub open spec fn rel_path(dir: Seq<char>, root: Seq<char>) -> Seq<char> {
    if root.len() == dir.len() {
        Seq::<char>::empty()
    } else if root.len() > 0 && root.last() == '/' {
        dir.skip(root.len() as int)
    } else {
        dir.skip(root.len() as int + 1)
    }
}

/// The header lines a directory gets before its children: a separator
/// and root header at depth zero, otherwise a blank line and, when the
/// directory lies under the root, a relative header.
pub open spec fn spec_headers(depth: u32, dir: Seq<char>, root: Seq<char>) -> Seq<Seq<char>> {
    if depth == 0 {
        seq![crate::hashing::dash_run(40), "(root) "@ + dir + ":"@]
    } else {
        seq![Seq::<char>::empty()] + if under_root(dir, root) {
            seq![rel_path(dir, root) + "/:"@]
        } else {
            Seq::<Seq<char>>::empty()
        }
    }
}

/// The tail of `v` from index `k` on.
fn vec_skip(v: &Vec<char>, k: usize) -> (r: Vec<char>)
    requires
        k <= v@.len(),
    ensures
        r@ == v@.skip(k as int),
{
    let mut r: Vec<char> = Vec::new();
    let mut i = k;
    while i < v.len()
        invariant
            k <= i <= v@.len(),
            r@ == v@.subrange(k as int, i as int),
        decreases v@.len() - i,
    {
        r.push(v[i]);
        proof {
            assert(v@.subrange(k as int, i + 1)
                =~= v@.subrange(k as int, i as int).push(v@[i as int]));
        }
        i = i + 1;
    }
    proof {
        assert(v@.subrange(k as int, v@.len() as int) =~= v@.skip(k as int));
    }
    r
}

/// Strips the root prefix from a directory path, if it lies under the
/// root.
pub fn strip_under(dir: &String, root: &String) -> (r: Option<Vec<char>>)
    ensures
        r is Some <==> under_root(dir@, root@),
        r matches Some(v) ==> v@ == rel_path(dir@, root@),
{
    let dv = str_chars(dir.as_str());
    let rv = str_chars(root.as_str());
    if rv.len() > dv.len() {
        return None;
    }
    let mut i: usize = 0;
    while i < rv.len()
        invariant
            i <= rv.len() <= dv.len(),
            dv@ == dir@,
            rv@ == root@,
            forall |j: int| 0 <= j < i ==> dv@[j] == rv@[j],
        decreases rv.len() - i,
    {
        if dv[i] != rv[i] {
            proof {
                assert(dir@.take(root@.len() as int)[i as int] != root@[i as int]);
            }
            return None;
        }
        i = i + 1;
    }
    proof {
        assert(dir@.take(root@.len() as int) =~= root@);
    }
    if rv.len() == dv.len() {
        Some(Vec::new())
    } else if rv.len() > 0 && rv[rv.len() - 1] == '/' {
        Some(vec_skip(&dv, rv.len()))
    } else if dv[rv.len()] == '/' {
        Some(vec_skip(&dv, rv.len() + 1))
    } else {
        None
    }
}

/// The per-invocation scan session.
pub struct Scanner {
    pub config: Config,
    /// Numeric user id to display name, filled lazily, never invalidated
    /// within a run.
    pub users: HashMap<u32, String>,
    /// Numeric group id to display name, same policy.
    pub groups: HashMap<u32, String>,
    /// The root the current traversal started at.
    pub root: String,
    /// The directory most recently entered below the root.
    pub parent: String,
    /// The device id of the current root: the filesystem-boundary test.
    pub dev: u64,
    /// The running byte total of the current root.
    pub count: u64,
}

/// The owner display name the session holds for an entry's user id; only
/// meaningful once the id is cached.
pub open spec fn spec_user_disp(s: Scanner, info: EntryInfo) -> Seq<char> {
    match info.meta {
        Some(m) => if s.users@.contains_key(m.uid) {
            s.users@[m.uid]@
        } else {
            Seq::<char>::empty()
        },
        None => Seq::<char>::empty(),
    }
}

/// The group display name the session holds for an entry's group id.
pub open spec fn spec_group_disp(s: Scanner, info: EntryInfo) -> Seq<char> {
    match info.meta {
        Some(m) => if s.groups@.contains_key(m.gid) {
            s.groups@[m.gid]@
        } else {
            Seq::<char>::empty()
        },
        None => Seq::<char>::empty(),
    }
}

/// Whether the session has cached the owner and group ids of a listing's
/// entry.
pub open spec fn spec_ids_cached(l: Listing, s: Scanner) -> bool {
    match l {
        Listing::Entry(e) => e.meta matches Some(m)
            ==> s.users@.contains_key(m.uid) && s.groups@.contains_key(m.gid),
        Listing::Failure(_) => true,
    }
}

/// How one output line of a level relates to its listing: an entry line
/// is the rendered report under the names the session ended up caching,
/// a failure line is the error marker and text.
pub open spec fn spec_line_matches(
    l: Listing,
    line: String,
    cfg: Config,
    dev: u64,
    after: Scanner,
) -> bool {
    match l {
        Listing::Entry(e) => line@ == spec_report_line(
            cfg,
            e,
            dev,
            spec_user_disp(after, e),
            spec_group_disp(after, e),
        ),
        Listing::Failure(m) => line@ == "err "@ + m@,
    }
}

impl Scanner {
    /// A fresh session: the given configuration, empty caches, zeroed
    /// root bookkeeping.
    pub fn new(config: Config) -> (s: Scanner)
        ensures
            s.config == config,
            s.users@ == Map::<u32, String>::empty(),
            s.groups@ == Map::<u32, String>::empty(),
            s.root@ == Seq::<char>::empty(),
            s.parent@ == Seq::<char>::empty(),
            s.dev == 0,
            s.count == 0,
    {
        Scanner {
            config,
            users: HashMap::new(),
            groups: HashMap::new(),
            root: String::new(),
            parent: String::new(),
            dev: 0,
            count: 0,
        }
    }

    /// The display name for a user id: the cached name if the id was
    /// seen before, otherwise the system's answer (or a placeholder),
    /// cached from now on. An id is resolved at most once per session.
    pub fn user_name(&mut self, uid: u32) -> (r: String)
        ensures
            final(self).users@.contains_key(uid),
            r@ == final(self).users@[uid]@,
            cache_keeps(final(self).users@, old(self).users@),
            old(self).users@.contains_key(uid) ==> final(self).users@ == old(self).users@,
            final(self).users@.dom().subset_of(old(self).users@.dom().insert(uid)),
            final(self).groups == old(self).groups,
            final(self).config == old(self).config,
            final(self).root == old(self).root,
            final(self).parent == old(self).parent,
            final(self).dev == old(self).dev,
            final(self).count == old(self).count,
    {
        if self.users.contains_key(&uid) {
            match self.users.get(&uid) {
                Some(n) => n.clone(),
                None => vstd::pervasive::unreached(),
            }
        } else {
            let name: String = match lookup_user(uid) {
                Some(n) => n,
                None => String::from_str("?"),
            };
            self.users.insert(uid, name.clone());
            name
        }
    }

    /// The display name for a group id, under the same caching policy.
    pub fn group_name(&mut self, gid: u32) -> (r: String)
        ensures
            final(self).groups@.contains_key(gid),
            r@ == final(self).groups@[gid]@,
            cache_keeps(final(self).groups@, old(self).groups@),
            old(self).groups@.contains_key(gid) ==> final(self).groups@ == old(self).groups@,
            final(self).groups@.dom().subset_of(old(self).groups@.dom().insert(gid)),
            final(self).users == old(self).users,
            final(self).config == old(self).config,
            final(self).root == old(self).root,
            final(self).parent == old(self).parent,
            final(self).dev == old(self).dev,
            final(self).count == old(self).count,
    {
        if self.groups.contains_key(&gid) {
            match self.groups.get(&gid) {
                Some(n) => n.clone(),
                None => vstd::pervasive::unreached(),
            }
        } else {
            let name: String = match lookup_group(gid) {
                Some(n) => n,
                None => String::from_str("?"),
            };
            self.groups.insert(gid, name.clone());
            name
        }
    }

    /// Reports one entry: renders its line and adds its byte
    /// contribution to the running total. Owner and group names come
    /// from the caches, resolved on a miss and never more than once.
    pub fn report(&mut self, info: &EntryInfo) -> (r: String)
        requires
            info.kind is Symlink ==> info.link_target is Some,
            old(self).count + spec_contribution(*info) <= u64::MAX,
        ensures
            final(self).count == old(self).count + spec_contribution(*info),
            r@ == spec_report_line(
                old(self).config,
                *info,
                old(self).dev,
                spec_user_disp(*final(self), *info),
                spec_group_disp(*final(self), *info),
            ),
            info.meta matches Some(m) ==> final(self).users@.contains_key(m.uid)
                && final(self).groups@.contains_key(m.gid),
            cache_keeps(final(self).users@, old(self).users@),
            cache_keeps(final(self).groups@, old(self).groups@),
            info.meta matches Some(m) ==> final(self).users@.dom().subset_of(
                old(self).users@.dom().insert(m.uid),
            ) && final(self).groups@.dom().subset_of(old(self).groups@.dom().insert(m.gid)),
            info.meta is None ==> final(self).users == old(self).users
                && final(self).groups == old(self).groups,
            final(self).config == old(self).config,
            final(self).root == old(self).root,
            final(self).parent == old(self).parent,
            final(self).dev == old(self).dev,
    {
        let mut uname: Vec<char> = Vec::new();
        let mut gname: Vec<char> = Vec::new();
        match &info.meta {
            Some(m) => {
                let un = self.user_name(m.uid);
                uname = str_chars(un.as_str());
                let gn = self.group_name(m.gid);
                gname = str_chars(gn.as_str());
            },
            None => {},
        }
        let linev = render_line(&self.config, info, self.dev, &uname, &gname);
        let add = contribution(info);
        self.count = self.count + add;
        chars_to_string(&linev)
    }

    /// Reports one level's listings in order and picks the directories
    /// the next level descends into: real directories on the root's
    /// device, never symlinks, never mountpoints.
    pub fn visit(&mut self, results: &Vec<Listing>) -> (out: (Vec<String>, Vec<String>))
        requires
            forall |i: int| 0 <= i < results@.len() ==> spec_listing_ok(#[trigger] results@[i]),
            old(self).count + spec_total(results@) <= u64::MAX,
        ensures
            final(self).count == old(self).count + spec_total(results@),
            out.1@.map_values(|p: String| p@) == spec_next_dirs(results@, old(self).dev),
            out.0@.len() == results@.len(),
            forall |i: int| 0 <= i < results@.len() ==> spec_line_matches(
                #[trigger] results@[i],
                out.0@[i],
                old(self).config,
                old(self).dev,
                *final(self),
            ),
            cache_keeps(final(self).users@, old(self).users@),
            cache_keeps(final(self).groups@, old(self).groups@),
            final(self).config == old(self).config,
            final(self).root == old(self).root,
            final(self).parent == old(self).parent,
            final(self).dev == old(self).dev,
    {
        let mut lines: Vec<String> = Vec::new();
        let mut dirs: Vec<String> = Vec::new();
        let ghost all = results@;
        let mut i: usize = 0;
        while i < results.len()
            invariant
                i <= all.len(),
                results@ == all,
                forall |k: int| 0 <= k < all.len() ==> spec_listing_ok(#[trigger] all[k]),
                old(self).count + spec_total(all) <= u64::MAX,
                lines@.len() == i,
                dirs@.map_values(|p: String| p@) == spec_next_dirs(all.take(i as int), old(self).dev),
                self.count == old(self).count + spec_total(all.take(i as int)),
                cache_keeps(self.users@, old(self).users@),
                cache_keeps(self.groups@, old(self).groups@),
                self.config == old(self).config,
                self.root == old(self).root,
                self.parent == old(self).parent,
                self.dev == old(self).dev,
                forall |j: int| 0 <= j < i ==> spec_ids_cached(#[trigger] all[j], *self),
                forall |j: int| 0 <= j < i ==> spec_line_matches(
                    #[trigger] all[j],
                    lines@[j],
                    old(self).config,
                    old(self).dev,
                    *self,
                ),
            decreases results.len() - i,
        {
            let ghost prev = *self;
            proof {
                assert(all.take(i + 1).drop_last() =~= all.take(i as int));
                assert(all.take(i + 1).last() == all[i as int]);
                lemma_total_prefix(all, i + 1);
            }
            match &results[i] {
                Listing::Entry(e) => {
                    let line = self.report(e);
                    lines.push(line);
                    let descend: bool = match e.kind {
                        EntryKind::Dir => match &e.meta {
                            Some(m) => m.dev == self.dev,
                            None => false,
                        },
                        _ => false,
                    };
                    if descend {
                        dirs.push(e.path.clone());
                    }
                    proof {
                        assert(dirs@.map_values(|p: String| p@)
                            =~= spec_next_dirs(all.take(i + 1), old(self).dev));
                    }
                },
                Listing::Failure(msg) => {
                    let mut line = String::from_str("err ");
                    line.append(msg.as_str());
                    lines.push(line);
                    proof {
                        assert(dirs@.map_values(|p: String| p@)
                            =~= spec_next_dirs(all.take(i + 1), old(self).dev));
                    }
                },
            }
            i = i + 1;
        }
        proof {
            assert(all.take(all.len() as int) =~= all);
        }
        (lines, dirs)
    }

    /// Handles one directory at one depth. At depth zero the directory
    /// is a new root: its device id is recorded, the byte total reset,
    /// and a separator and root header emitted. Deeper, a blank line and
    /// a relative header open the block. The level's listings are then
    /// reported and the next level's directories returned.
    pub fn scan(&mut self, depth: u32, dir: &String, root_dev: u64, results: &Vec<Listing>) -> (out: (
        Vec<String>,
        Vec<String>,
    ))
        requires
            forall |i: int| 0 <= i < results@.len() ==> spec_listing_ok(#[trigger] results@[i]),
            depth == 0 ==> spec_total(results@) <= u64::MAX,
            depth != 0 ==> old(self).count + spec_total(results@) <= u64::MAX,
        ensures
            final(self).config == old(self).config,
            depth == 0 ==> final(self).root == *dir && final(self).dev == root_dev
                && final(self).count == spec_total(results@)
                && final(self).parent == old(self).parent,
            depth != 0 ==> final(self).root == old(self).root && final(self).dev == old(self).dev
                && final(self).count == old(self).count + spec_total(results@)
                && final(self).parent == *dir,
            cache_keeps(final(self).users@, old(self).users@),
            cache_keeps(final(self).groups@, old(self).groups@),
            out.1@.map_values(|p: String| p@) == spec_next_dirs(
                results@,
                if depth == 0 { root_dev } else { old(self).dev },
            ),
            ({
                let hdr = spec_headers(
                    depth,
                    dir@,
                    if depth == 0 { dir@ } else { old(self).root@ },
                );
                &&& out.0@.len() == hdr.len() + results@.len()
                &&& forall |i: int| 0 <= i < hdr.len() ==> #[trigger] out.0@[i]@ == hdr[i]
                &&& forall |j: int| 0 <= j < results@.len() ==> spec_line_matches(
                    #[trigger] results@[j],
                    out.0@[hdr.len() + j],
                    old(self).config,
                    if depth == 0 { root_dev } else { old(self).dev },
                    *final(self),
                )
            }),
    {
        let mut lines: Vec<String> = Vec::new();
        if depth == 0 {
            self.root = dir.clone();
            self.dev = root_dev;
            self.count = 0;
            let mut sepv: Vec<char> = Vec::new();
            push_dashes(&mut sepv, 40);
            proof {
                assert(Seq::<char>::empty() + crate::hashing::dash_run(40)
                    =~= crate::hashing::dash_run(40));
            }
            lines.push(chars_to_string(&sepv));
            let mut hdr = String::from_str("(root) ");
            hdr.append(dir.as_str());
            hdr.append(":");
            lines.push(hdr);
        } else {
            self.parent = dir.clone();
            lines.push(String::new());
            match strip_under(dir, &self.root) {
                Some(rel) => {
                    let mut h = chars_to_string(&rel);
                    h.append("/:");
                    lines.push(h);
                },
                None => {},
            }
        }
        let ghost hdr_lines = lines@;
        let (mut body, dirs) = self.visit(results);
        lines.append(&mut body);
        proof {
            let hdr = spec_headers(depth, dir@, if depth == 0 { dir@ } else { old(self).root@ });
            assert(hdr_lines.len() == hdr.len());
            assert forall |i: int| 0 <= i < hdr.len() implies #[trigger] lines@[i]@ == hdr[i] by {
                assert(lines@[i] == hdr_lines[i]);
            }
        }
        (lines, dirs)
    }

    /// The trailer line of a root: its accumulated byte total.
    pub fn total_line(&self) -> (r: String)
        ensures
            r@ == "total bytes: "@ + dec_str(self.count as nat),
    {
        let mut v = str_chars("total bytes: ");
        push_dec(&mut v, self.count);
        chars_to_string(&v)
    }
}

} // verus!
