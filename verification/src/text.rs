//! Character-level building blocks for the fixed-width report lines:
//! space padding, decimal rendering of byte counts, and the `~`-truncation
//! of over-long owner and group names.

use vstd::prelude::*;

verus! {

/// A run of `n` space characters.
pub open spec fn spaces(n: nat) -> Seq<char> {
    Seq::new(n, |i: int| ' ')
}

/// A field left-justified in a column of width `w`: the text itself,
/// followed by spaces up to the width. Text wider than the column is
/// kept whole.
pub open spec fn pad_right(s: Seq<char>, w: nat) -> Seq<char> {
    if s.len() >= w {
        s
    } else {
        s + spaces((w - s.len()) as nat)
    }
}

/// A field right-justified in a column of width `w`.
pub open spec fn pad_left(s: Seq<char>, w: nat) -> Seq<char> {
    if s.len() >= w {
        s
    } else {
        spaces((w - s.len()) as nat) + s
    }
}

/// The character for one decimal digit.
pub open spec fn dec_digit(d: nat) -> char {
    if d == 0 { '0' }
    else if d == 1 { '1' }
    else if d == 2 { '2' }
    else if d == 3 { '3' }
    else if d == 4 { '4' }
    else if d == 5 { '5' }
    else if d == 6 { '6' }
    else if d == 7 { '7' }
    else if d == 8 { '8' }
    else { '9' }
}

/// The decimal rendering of `n`, most significant digit first, with no
/// leading zeroes (a single `0` for zero itself).
pub open spec fn dec_str(n: nat) -> Seq<char>
    decreases n,
{
    if n < 10 {
        seq![dec_digit(n)]
    } else {
        dec_str(n / 10).push(dec_digit(n % 10))
    }
}

/// A display name at most 8 characters wide: a longer name becomes `~`
/// followed by its last 7 characters, a name of 8 or fewer characters is
/// kept unchanged.
pub open spec fn trunc8(s: Seq<char>) -> Seq<char> {
    if s.len() > 8 {
        seq!['~'] + s.skip(s.len() - 7)
    } else {
        s
    }
}

/// Appends every character of `v` to `out`.
pub fn push_all(out: &mut Vec<char>, v: &Vec<char>)
    ensures
        final(out)@ == old(out)@ + v@,
{
    let mut i: usize = 0;
    while i < v.len()
        invariant
            i <= v.len(),
            out@ == old(out)@ + v@.take(i as int),
        decreases v.len() - i,
    {
        out.push(v[i]);
        proof {
            assert(v@.take(i + 1) =~= v@.take(i as int).push(v@[i as int]));
            assert(old(out)@ + v@.take(i + 1) =~= (old(out)@ + v@.take(i as int)).push(v@[i as int]));
        }
        i = i + 1;
    }
    proof {
        assert(v@.take(v@.len() as int) =~= v@);
    }
}

/// Appends `n` spaces to `out`.
pub fn push_spaces(out: &mut Vec<char>, n: usize)
    ensures
        final(out)@ == old(out)@ + spaces(n as nat),
{
    let mut i: usize = 0;
    while i < n
        invariant
            i <= n,
            out@ == old(out)@ + spaces(i as nat),
        decreases n - i,
    {
        out.push(' ');
        proof {
            assert(old(out)@ + spaces((i + 1) as nat)
                =~= (old(out)@ + spaces(i as nat)).push(' '));
        }
        i = i + 1;
    }
}

/// Appends `v` left-justified in a column of width `w`.
pub fn push_pad_right(out: &mut Vec<char>, v: &Vec<char>, w: usize)
    ensures
        final(out)@ == old(out)@ + pad_right(v@, w as nat),
{
    push_all(out, v);
    if v.len() < w {
        push_spaces(out, w - v.len());
        proof {
            assert(old(out)@ + v@ + spaces((w - v@.len()) as nat)
                =~= old(out)@ + (v@ + spaces((w - v@.len()) as nat)));
        }
    }
}

/// Appends `v` right-justified in a column of width `w`.
pub fn push_pad_left(out: &mut Vec<char>, v: &Vec<char>, w: usize)
    ensures
        final(out)@ == old(out)@ + pad_left(v@, w as nat),
{
    if v.len() < w {
        push_spaces(out, w - v.len());
        push_all(out, v);
        proof {
            assert(old(out)@ + spaces((w - v@.len()) as nat) + v@
                =~= old(out)@ + (spaces((w - v@.len()) as nat) + v@));
        }
    } else {
        push_all(out, v);
    }
}

/// The character of the decimal digit `d`.
pub fn digit_char(d: u64) -> (c: char)
    requires
        d < 10,
    ensures
        c == dec_digit(d as nat),
{
    if d == 0 { '0' }
    else if d == 1 { '1' }
    else if d == 2 { '2' }
    else if d == 3 { '3' }
    else if d == 4 { '4' }
    else if d == 5 { '5' }
    else if d == 6 { '6' }
    else if d == 7 { '7' }
    else if d == 8 { '8' }
    else { '9' }
}

/// Appends the decimal rendering of `n` to `out`.
pub fn push_dec(out: &mut Vec<char>, n: u64)
    ensures
        final(out)@ == old(out)@ + dec_str(n as nat),
    decreases n,
{
    if n >= 10 {
        push_dec(out, n / 10);
    }
    out.push(digit_char(n % 10));
    proof {
        if n >= 10 {
            assert(old(out)@ + dec_str(n as nat)
                =~= (old(out)@ + dec_str((n / 10) as nat)).push(dec_digit((n % 10) as nat)));
        } else {
            assert(old(out)@ + dec_str(n as nat)
                =~= old(out)@.push(dec_digit(n as nat)));
        }
    }
}

/// The characters of `s`, in order.
pub fn str_chars(s: &str) -> (r: Vec<char>)
    ensures
        r@ == s@,
{
    let n = s.unicode_len();
    let mut r: Vec<char> = Vec::new();
    let mut i: usize = 0;
    while i < n
        invariant
            i <= n,
            n == s@.len(),
            r@ == s@.take(i as int),
        decreases n - i,
    {
        r.push(s.get_char(i));
        proof {
            assert(s@.take(i + 1) =~= s@.take(i as int).push(s@[i as int]));
        }
        i = i + 1;
    }
    proof {
        assert(s@.take(n as int) =~= s@);
    }
    r
}

/// The `~`-truncated display form of a name, at most 8 characters.
pub fn trunc8_chars(name: &Vec<char>) -> (r: Vec<char>)
    ensures
        r@ == trunc8(name@),
{
    if name.len() > 8 {
        let mut r: Vec<char> = Vec::new();
        r.push('~');
        let start = name.len() - 7;
        let mut i = start;
        while i < name.len()
            invariant
                start == name@.len() - 7,
                start <= i <= name@.len(),
                name@.len() > 8,
                r@ == seq!['~'] + name@.subrange(start as int, i as int),
            decreases name.len() - i,
        {
            r.push(name[i]);
            proof {
                assert(name@.subrange(start as int, i + 1)
                    =~= name@.subrange(start as int, i as int).push(name@[i as int]));
                assert(seq!['~'] + name@.subrange(start as int, i + 1)
                    =~= (seq!['~'] + name@.subrange(start as int, i as int)).push(name@[i as int]));
            }
            i = i + 1;
        }
        proof {
            assert(name@.subrange(start as int, name@.len() as int) =~= name@.skip(name@.len() - 7));
        }
        r
    } else {
        let mut r: Vec<char> = Vec::new();
        push_all(&mut r, name);
        proof {
            assert(Seq::<char>::empty() + name@ =~= name@);
        }
        r
    }
}

/// Relies on String's FromIterator<char> (collect): the string holds
/// exactly the characters of the vector, in order.
#[verifier::external_body]
pub fn chars_to_string(v: &Vec<char>) -> (r: String)
    ensures
        r@ == v@,
{
    v.iter().collect()
}

} // verus!
