//! Trusted views of the host-facing helper crates: symbolic permission
//! strings, timestamp rendering, and owner/group name lookup. Each item
//! states no more than the crate's source shows.

use vstd::prelude::*;

verus! {

/// What `unix_mode::to_string` renders for a mode word.
pub uninterp spec fn mode_display(mode: u32) -> Seq<char>;

/// Relies on unix_mode::to_string: the rendering depends on the mode bits
/// alone and is always exactly 10 characters (one type character, then
/// three three-character permission groups).
#[verifier::external_body]
pub fn mode_string(mode: u32) -> (r: String)
    ensures
        r@ == mode_display(mode),
        r@.len() == 10,
{
    unix_mode::to_string(mode)
}

/// What chrono renders, under `%Y-%m-%dT%H:%M`, for a count of epoch
/// seconds.
pub uninterp spec fn ts_display(secs: i64) -> Seq<char>;

/// Whether chrono can represent a count of epoch seconds as a UTC
/// date-time at all.
pub uninterp spec fn ts_renderable(secs: i64) -> bool;

/// Relies on chrono's `DateTime::<Utc>::from_timestamp` and its
/// `%Y-%m-%dT%H:%M` formatting: conversion succeeds exactly on the
/// representable seconds (in particular on every timestamp between the
/// years 1 and 9999), and the rendering depends on the seconds alone.
#[verifier::external_body]
pub fn ts_string(secs: i64) -> (r: Option<String>)
    ensures
        r is Some <==> ts_renderable(secs),
        r matches Some(s) ==> s@ == ts_display(secs),
        -62135596800 <= secs <= 253402300799 ==> r is Some,
{
    chrono::DateTime::<chrono::Utc>::from_timestamp(secs, 0)
        .map(|t| format!("{}", t.format("%Y-%m-%dT%H:%M")))
}

/// Relies on users::get_user_by_uid (getpwuid_r): which name, if any, the
/// host's account database gives an id is environment-dependent, so
/// nothing is promised of the outcome.
#[verifier::external_body]
pub fn lookup_user(uid: u32) -> (r: Option<String>)
{
    users::get_user_by_uid(uid).map(|u| u.name().to_string_lossy().into_owned())
}

/// Relies on users::get_group_by_gid (getgrgid_r): which name, if any, the
/// host's group database gives an id is environment-dependent, so nothing
/// is promised of the outcome.
#[verifier::external_body]
pub fn lookup_group(gid: u32) -> (r: Option<String>)
{
    users::get_group_by_gid(gid).map(|g| g.name().to_string_lossy().into_owned())
}

} // verus!
