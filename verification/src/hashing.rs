//! The conditional content-hash policy: a regular file that is neither
//! empty nor at or above the size threshold gets the first `hashlen` hex
//! characters of its md5 digest; every other file shows a run of dashes.
//! The digest itself comes from the md5 crate, consumed chunk by chunk.

use vstd::prelude::*;
use crate::text::str_chars;

verus! {

#[verifier::external_type_specification]
#[verifier::external_body]
pub struct ExMd5Context(md5::Context);

/// The bytes an md5 accumulator has consumed so far, in order.
pub uninterp spec fn md5_fed(c: md5::Context) -> Seq<u8>;

/// The md5 digest (16 bytes) of a byte sequence.
pub uninterp spec fn md5_of(fed: Seq<u8>) -> Seq<u8>;

/// Relies on md5::Context::new: a fresh accumulator has consumed nothing.
#[verifier::external_body]
pub fn md5_new() -> (c: md5::Context)
    ensures
        md5_fed(c) == Seq::<u8>::empty(),
{
    md5::Context::new()
}

/// Relies on md5::Context::consume: feeding data appends it to what the
/// accumulator has consumed.
#[verifier::external_body]
pub fn md5_consume(c: &mut md5::Context, data: &Vec<u8>)
    ensures
        md5_fed(*final(c)) == md5_fed(*old(c)) + data@,
{
    c.consume(data.as_slice());
}

/// Relies on md5::Context::finalize: the digest is 16 bytes and depends on
/// the consumed bytes alone.
#[verifier::external_body]
pub fn md5_finalize(c: md5::Context) -> (d: Vec<u8>)
    ensures
        d@ == md5_of(md5_fed(c)),
        d@.len() == 16,
{
    c.finalize().0.to_vec()
}

/// The lowercase hex character of one value below 16.
pub open spec fn hex_digit(d: nat) -> char {
    if d == 0 { '0' }
    else if d == 1 { '1' }
    else if d == 2 { '2' }
    else if d == 3 { '3' }
    else if d == 4 { '4' }
    else if d == 5 { '5' }
    else if d == 6 { '6' }
    else if d == 7 { '7' }
    else if d == 8 { '8' }
    else if d == 9 { '9' }
    else if d == 10 { 'a' }
    else if d == 11 { 'b' }
    else if d == 12 { 'c' }
    else if d == 13 { 'd' }
    else if d == 14 { 'e' }
    else { 'f' }
}

/// Lowercase hex encoding: two characters per byte, high nibble first.
pub open spec fn hex_of(bs: Seq<u8>) -> Seq<char> {
    Seq::new(
        bs.len() * 2,
        |i: int| if i % 2 == 0 {
            hex_digit((bs[i / 2] / 16) as nat)
        } else {
            hex_digit((bs[i / 2] % 16) as nat)
        },
    )
}

/// Relies on hex::encode: lowercase hex, two characters per byte, high
/// nibble first.
#[verifier::external_body]
pub fn hex_encode(b: &Vec<u8>) -> (r: String)
    ensures
        r@ == hex_of(b@),
{
    hex::encode(b)
}

/// The flattened byte content of a sequence of chunks.
pub open spec fn chunk_bytes(cs: Seq<Vec<u8>>) -> Seq<u8>
    decreases cs.len(),
{
    if cs.len() == 0 {
        Seq::<u8>::empty()
    } else {
        chunk_bytes(cs.drop_last()) + cs.last()@
    }
}

/// The md5 digest of a file given as chunks, fed in chunk by chunk.
pub fn hash_chunks(chunks: &Vec<Vec<u8>>) -> (d: Vec<u8>)
    ensures
        d@ == md5_of(chunk_bytes(chunks@)),
        d@.len() == 16,
{
    let mut ctx = md5_new();
    let mut i: usize = 0;
    while i < chunks.len()
        invariant
            i <= chunks.len(),
            md5_fed(ctx) == chunk_bytes(chunks@.take(i as int)),
        decreases chunks.len() - i,
    {
        md5_consume(&mut ctx, &chunks[i]);
        proof {
            assert(chunks@.take(i + 1).drop_last() =~= chunks@.take(i as int));
            assert(chunks@.take(i + 1).last() == chunks@[i as int]);
        }
        i = i + 1;
    }
    proof {
        assert(chunks@.take(chunks@.len() as int) =~= chunks@);
    }
    md5_finalize(ctx)
}

/// A run of `n` dash characters: the sentinel shown when no hash is
/// computed.
pub open spec fn dash_run(n: nat) -> Seq<char> {
    Seq::new(n, |i: int| '-')
}

/// Whether a regular file of length `flen` is hashed at all: only a file
/// that holds something and stays strictly below the threshold of
/// `maxsumsize` mebibytes is.
pub open spec fn in_hash_window(flen: u64, maxsumsize: u64) -> bool {
    0 < flen && (flen as int) < (maxsumsize as int) * 0x100000
}

/// The hash column for a regular file: a prefix of the hex digest inside
/// the window, the dash sentinel outside it.
pub open spec fn spec_hash_field(
    maxsumsize: u64,
    hashlen: u32,
    flen: u64,
    content: Seq<u8>,
) -> Seq<char> {
    if in_hash_window(flen, maxsumsize) {
        let h = hex_of(md5_of(content));
        if hashlen <= h.len() {
            h.take(hashlen as int)
        } else {
            h
        }
    } else {
        dash_run(hashlen as nat)
    }
}

/// Appends `n` dashes to `out`.
pub fn push_dashes(out: &mut Vec<char>, n: usize)
    ensures
        final(out)@ == old(out)@ + dash_run(n as nat),
{
    let mut i: usize = 0;
    while i < n
        invariant
            i <= n,
            out@ == old(out)@ + dash_run(i as nat),
        decreases n - i,
    {
        out.push('-');
        proof {
            assert(old(out)@ + dash_run((i + 1) as nat)
                =~= (old(out)@ + dash_run(i as nat)).push('-'));
        }
        i = i + 1;
    }
}

/// Whether `flen` falls in the hash window, computed without overflow.
pub fn hash_window(flen: u64, maxsumsize: u64) -> (r: bool)
    ensures
        r == in_hash_window(flen, maxsumsize),
{
    flen > 0 && (flen as u128) < (maxsumsize as u128) * 0x100000u128
}

/// The hash column of a regular file of length `flen` whose readable
/// content was `content` (given in chunks): the first `hashlen` hex
/// characters of the md5 digest inside the hash window, `hashlen` dashes
/// outside it.
pub fn hash_field(maxsumsize: u64, hashlen: u32, flen: u64, content: &Vec<Vec<u8>>) -> (r: Vec<char>)
    ensures
        r@ == spec_hash_field(maxsumsize, hashlen, flen, chunk_bytes(content@)),
{
    let mut out: Vec<char> = Vec::new();
    if hash_window(flen, maxsumsize) {
        let d = hash_chunks(content);
        let hexs = hex_encode(&d);
        let hexs_ref: &str = hexs.as_str();
        assert(hexs_ref@.len() == 32);
        let n: usize = if hashlen <= 32 { hashlen as usize } else { 32 };
        let pre = hexs_ref.substring_char(0, n);
        let mut pv = str_chars(pre);
        proof {
            let h = hex_of(md5_of(chunk_bytes(content@)));
            if hashlen <= 32 {
                assert(pv@ =~= h.take(hashlen as int));
            } else {
                assert(pv@ =~= h);
            }
        }
        pv
    } else {
        push_dashes(&mut out, hashlen as usize);
        proof {
            assert(Seq::<char>::empty() + dash_run(hashlen as nat) =~= dash_run(hashlen as nat));
        }
        out
    }
}

} // verus!
