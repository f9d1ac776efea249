//! Verified character-level string helpers used throughout the library.

use vstd::prelude::*;
use vstd::string::{StrSliceExecFns, StringExecFns};

verus! {

/// Relies on `String::push`: appends exactly one character to the string.
#[verifier::external_body]
pub fn push_char(s: &mut String, c: char)
    ensures
        final(s)@ == old(s)@.push(c),
{
    s.push(c);
}

/// Character-for-character string equality.
pub fn str_eq(a: &str, b: &str) -> (r: bool)
    ensures
        r == (a@ == b@),
{
    let a_len = a.unicode_len();
    let b_len = b.unicode_len();
    if a_len != b_len {
        return false;
    }
    let mut i: usize = 0;
    while i < a_len
        invariant
            i <= a_len,
            a_len == a@.len(),
            b_len == b@.len(),
            a_len == b_len,
            forall|j: int| 0 <= j < i ==> a@[j] == b@[j],
        decreases a_len - i,
    {
        if a.get_char(i) != b.get_char(i) {
            return false;
        }
        i += 1;
    }
    proof {
        assert(a@ =~= b@);
    }
    true
}

/// `s` ends with the suffix `t`.
pub open spec fn spec_ends_with(s: Seq<char>, t: Seq<char>) -> bool {
    s.len() >= t.len() && s.subrange(s.len() - t.len(), s.len() as int) == t
}

/// Whether the string ends with the given suffix.
pub fn str_ends_with(s: &str, t: &str) -> (r: bool)
    ensures
        r == spec_ends_with(s@, t@),
{
    let s_len = s.unicode_len();
    let t_len = t.unicode_len();
    if s_len < t_len {
        return false;
    }
    let base = s_len - t_len;
    let mut i: usize = 0;
    while i < t_len
        invariant
            i <= t_len,
            s_len == s@.len(),
            t_len == t@.len(),
            t_len <= s_len,
            base == s_len - t_len,
            forall|j: int| 0 <= j < i ==> s@[base + j] == t@[j],
        decreases t_len - i,
    {
        if s.get_char(base + i) != t.get_char(i) {
            proof {
                assert(s@.subrange(s@.len() - t@.len(), s@.len() as int)[i as int]
                    == s@[base + i]);
            }
            return false;
        }
        i += 1;
    }
    proof {
        assert(s@.subrange(s@.len() - t@.len(), s@.len() as int) =~= t@);
    }
    true
}

/// The character of a single decimal digit.
pub open spec fn spec_digit_char(d: int) -> char {
    if d == 0 {
        '0'
    } else if d == 1 {
        '1'
    } else if d == 2 {
        '2'
    } else if d == 3 {
        '3'
    } else if d == 4 {
        '4'
    } else if d == 5 {
        '5'
    } else if d == 6 {
        '6'
    } else if d == 7 {
        '7'
    } else if d == 8 {
        '8'
    } else {
        '9'
    }
}

/// Decimal representation of a natural number, most significant digit
/// first, with no leading zeros (`0` is written as one digit).
pub open spec fn spec_dec_string(n: nat) -> Seq<char>
    decreases n,
{
    if n < 10 {
        seq![spec_digit_char(n as int)]
    } else {
        spec_dec_string(n / 10).push(spec_digit_char((n % 10) as int))
    }
}

/// Decimal representation of a signed number: a leading minus sign for
/// negative values, then the digits of the magnitude.
pub open spec fn spec_int_string(n: int) -> Seq<char> {
    if n >= 0 {
        spec_dec_string(n as nat)
    } else {
        seq!['-'] + spec_dec_string((-n) as nat)
    }
}

fn digit_char(d: u64) -> (c: char)
    requires
        d < 10,
    ensures
        c == spec_digit_char(d as int),
{
    match d {
        0 => '0',
        1 => '1',
        2 => '2',
        3 => '3',
        4 => '4',
        5 => '5',
        6 => '6',
        7 => '7',
        8 => '8',
        _ => '9',
    }
}

/// The decimal string of an unsigned number.
pub fn u64_to_string(n: u64) -> (r: String)
    ensures
        r@ == spec_dec_string(n as nat),
    decreases n,
{
    if n < 10 {
        let mut s = String::new();
        push_char(&mut s, digit_char(n));
        proof {
            assert(s@ =~= seq![spec_digit_char(n as int)]);
        }
        s
    } else {
        let mut s = u64_to_string(n / 10);
        push_char(&mut s, digit_char(n % 10));
        s
    }
}

/// The decimal string of a signed number.
pub fn i64_to_string(n: i64) -> (r: String)
    ensures
        r@ == spec_int_string(n as int),
{
    if n >= 0 {
        u64_to_string(n as u64)
    } else {
        let magnitude: u64 = ((-(n as i128)) as u64);
        let mut s = String::new();
        push_char(&mut s, '-');
        let digits = u64_to_string(magnitude);
        let r = s.concat(digits.as_str());
        proof {
            assert(r@ =~= seq!['-'] + spec_dec_string((-(n as int)) as nat));
        }
        r
    }
}

/// `s` with every occurrence of the character `from` replaced by `to`.
pub open spec fn spec_replace_char(s: Seq<char>, from: char, to: char) -> Seq<char> {
    s.map_values(|c: char| if c == from { to } else { c })
}

/// Replaces every occurrence of one character by another.
pub fn replace_char(s: &str, from: char, to: char) -> (r: String)
    ensures
        r@ == spec_replace_char(s@, from, to),
{
    let len = s.unicode_len();
    let mut r = String::new();
    let mut i: usize = 0;
    while i < len
        invariant
            i <= len,
            len == s@.len(),
            r@.len() == i,
            forall|j: int| 0 <= j < i ==> r@[j] == (if s@[j] == from { to } else { s@[j] }),
        decreases len - i,
    {
        let c = s.get_char(i);
        if c == from {
            push_char(&mut r, to);
        } else {
            push_char(&mut r, c);
        }
        i += 1;
    }
    proof {
        assert(r@ =~= spec_replace_char(s@, from, to));
    }
    r
}

/// `s` with every occurrence of the character `t` removed.
pub open spec fn spec_strip_char(s: Seq<char>, t: char) -> Seq<char>
    decreases s.len(),
{
    if s.len() == 0 {
        Seq::empty()
    } else if s.first() == t {
        spec_strip_char(s.drop_first(), t)
    } else {
        seq![s.first()] + spec_strip_char(s.drop_first(), t)
    }
}

/// Removes every occurrence of one character.
pub fn strip_char(s: &str, t: char) -> (r: String)
    ensures
        r@ == spec_strip_char(s@, t),
{
    let len = s.unicode_len();
    let mut r = String::new();
    let mut i: usize = 0;
    proof {
        assert(s@.skip(0) == s@);
    }
    while i < len
        invariant
            i <= len,
            len == s@.len(),
            spec_strip_char(s@, t) == r@ + spec_strip_char(s@.skip(i as int), t),
        decreases len - i,
    {
        let c = s.get_char(i);
        let ghost r0 = r@;
        proof {
            assert(s@.skip(i as int).first() == s@[i as int]);
            assert(s@.skip(i as int).drop_first() =~= s@.skip(i + 1));
        }
        if c != t {
            push_char(&mut r, c);
            proof {
                assert(r@ + spec_strip_char(s@.skip(i + 1), t)
                    =~= r0 + (seq![c] + spec_strip_char(s@.skip(i + 1), t)));
            }
        }
        i += 1;
    }
    proof {
        assert(s@.skip(len as int) =~= Seq::<char>::empty());
    }
    r
}

/// `s` with every non-overlapping occurrence of the two-character pattern
/// `p0 p1` replaced by `repl`, scanning left to right.
pub open spec fn spec_replace_pair(s: Seq<char>, p0: char, p1: char, repl: Seq<char>) -> Seq<char>
    decreases s.len(),
{
    if s.len() >= 2 && s[0] == p0 && s[1] == p1 {
        repl + spec_replace_pair(s.skip(2), p0, p1, repl)
    } else if s.len() == 0 {
        Seq::empty()
    } else {
        seq![s[0]] + spec_replace_pair(s.skip(1), p0, p1, repl)
    }
}

/// Replaces every non-overlapping occurrence of a two-character pattern,
/// scanning left to right.
pub fn replace_pair(s: &str, p0: char, p1: char, repl: &str) -> (r: String)
    ensures
        r@ == spec_replace_pair(s@, p0, p1, repl@),
{
    let len = s.unicode_len();
    let mut r = String::new();
    let mut i: usize = 0;
    proof {
        assert(s@.skip(0) == s@);
    }
    while i < len
        invariant
            i <= len,
            len == s@.len(),
            spec_replace_pair(s@, p0, p1, repl@) == r@ + spec_replace_pair(
                s@.skip(i as int),
                p0,
                p1,
                repl@,
            ),
        decreases len - i,
    {
        let ghost rest = s@.skip(i as int);
        let ghost r0 = r@;
        let c = s.get_char(i);
        proof {
            assert(rest[0] == s@[i as int]);
        }
        if i + 1 < len && c == p0 && s.get_char(i + 1) == p1 {
            proof {
                assert(rest[1] == s@[i + 1]);
                assert(rest.skip(2) =~= s@.skip(i + 2));
            }
            r.append(repl);
            proof {
                assert(r@ + spec_replace_pair(s@.skip(i + 2), p0, p1, repl@) =~= r0 + (repl@
                    + spec_replace_pair(s@.skip(i + 2), p0, p1, repl@)));
            }
            i += 2;
        } else {
            proof {
                assert(rest.skip(1) =~= s@.skip(i + 1));
            }
            push_char(&mut r, c);
            proof {
                assert(r@ + spec_replace_pair(s@.skip(i + 1), p0, p1, repl@) =~= r0 + (seq![c]
                    + spec_replace_pair(s@.skip(i + 1), p0, p1, repl@)));
            }
            i += 1;
        }
    }
    proof {
        assert(s@.skip(len as int) =~= Seq::<char>::empty());
    }
    r
}

/// The character of a single hexadecimal digit, lower case.
pub open spec fn spec_hex_char(d: int) -> char {
    if d < 10 {
        spec_digit_char(d)
    } else if d == 10 {
        'a'
    } else if d == 11 {
        'b'
    } else if d == 12 {
        'c'
    } else if d == 13 {
        'd'
    } else if d == 14 {
        'e'
    } else {
        'f'
    }
}

/// The lower-case hexadecimal encoding of a byte sequence: two digits per
/// byte, most significant first.
pub open spec fn spec_hex_lower(data: Seq<u8>) -> Seq<char>
    decreases data.len(),
{
    if data.len() == 0 {
        Seq::empty()
    } else {
        seq![
            spec_hex_char(data.first() as int / 16),
            spec_hex_char(data.first() as int % 16),
        ] + spec_hex_lower(data.drop_first())
    }
}

fn hex_char(d: u8) -> (c: char)
    requires
        d < 16,
    ensures
        c == spec_hex_char(d as int),
{
    match d {
        0 => '0',
        1 => '1',
        2 => '2',
        3 => '3',
        4 => '4',
        5 => '5',
        6 => '6',
        7 => '7',
        8 => '8',
        9 => '9',
        10 => 'a',
        11 => 'b',
        12 => 'c',
        13 => 'd',
        14 => 'e',
        _ => 'f',
    }
}

/// The lower-case hexadecimal encoding of a byte sequence.
pub fn to_hex_lower(data: &Vec<u8>) -> (r: String)
    ensures
        r@ == spec_hex_lower(data@),
{
    let n = data.len();
    let mut r = String::new();
    let mut i: usize = 0;
    proof {
        assert(data@.skip(0) == data@);
    }
    while i < n
        invariant
            i <= n,
            n == data@.len(),
            spec_hex_lower(data@) == r@ + spec_hex_lower(data@.skip(i as int)),
        decreases n - i,
    {
        let b = data[i];
        let ghost r0 = r@;
        proof {
            assert(data@.skip(i as int).first() == data@[i as int]);
            assert(data@.skip(i as int).drop_first() =~= data@.skip(i + 1));
        }
        push_char(&mut r, hex_char(b / 16));
        push_char(&mut r, hex_char(b % 16));
        proof {
            assert(r@ + spec_hex_lower(data@.skip(i + 1)) =~= r0 + (seq![
                spec_hex_char(b as int / 16),
                spec_hex_char(b as int % 16),
            ] + spec_hex_lower(data@.skip(i + 1))));
        }
        i += 1;
    }
    proof {
        assert(data@.skip(n as int) =~= Seq::<u8>::empty());
    }
    r
}

} // verus!
