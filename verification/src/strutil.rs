//! Verified string primitives: character tests, equality and prefix checks,
//! and decimal/octal rendering and parsing used throughout the crate.
use vstd::prelude::*;
use vstd::string::StrSliceExecFns;
use vstd::string::StringExecFns;

verus! {

/// A decimal digit character.
pub open spec fn is_digit_char(c: char) -> bool {
    '0' as u32 <= c as u32 && c as u32 <= '9' as u32
}

/// The numeric value of a decimal digit character.
pub open spec fn digit_val(c: char) -> nat {
    (c as u32 - '0' as u32) as nat
}

/// The character for a single decimal or octal digit.
pub open spec fn digit_char(d: nat) -> char {
    if d == 0 {
        '0'
    } else if d == 1 {
        '1'
    } else if d == 2 {
        '2'
    } else if d == 3 {
        '3'
    } else if d == 4 {
        '4'
    } else if d == 5 {
        '5'
    } else if d == 6 {
        '6'
    } else if d == 7 {
        '7'
    } else if d == 8 {
        '8'
    } else {
        '9'
    }
}

/// The decimal rendering of a natural number, most significant digit first.
pub open spec fn dec_digits(n: nat) -> Seq<char>
    decreases n,
{
    if n < 10 {
        seq![digit_char(n)]
    } else {
        dec_digits(n / 10).push(digit_char(n % 10))
    }
}

/// The octal rendering of a natural number, most significant digit first.
pub open spec fn oct_digits(n: nat) -> Seq<char>
    decreases n,
{
    if n < 8 {
        seq![digit_char(n)]
    } else {
        oct_digits(n / 8).push(digit_char(n % 8))
    }
}

/// Octal rendering zero-padded to a width of at least three digits.
pub open spec fn oct3_digits(n: nat) -> Seq<char> {
    if n < 8 {
        seq!['0', '0'] + oct_digits(n)
    } else if n < 64 {
        seq!['0'] + oct_digits(n)
    } else {
        oct_digits(n)
    }
}

/// The value of a sequence of decimal digit characters.
pub open spec fn dec_val(s: Seq<char>) -> nat
    decreases s.len(),
{
    if s.len() == 0 {
        0
    } else {
        dec_val(s.drop_last()) * 10 + digit_val(s.last())
    }
}

/// Whether every character of `s` is a decimal digit.
pub open spec fn all_digits(s: Seq<char>) -> bool {
    forall|i: int| 0 <= i < s.len() ==> is_digit_char(#[trigger] s[i])
}

/// Whether `s` begins with the prefix `p`.
pub open spec fn starts_with(s: Seq<char>, p: Seq<char>) -> bool {
    p.len() <= s.len() && s.subrange(0, p.len() as int) == p
}

/// Whether `s` ends with the character `c`.
pub open spec fn ends_with_char(s: Seq<char>, c: char) -> bool {
    s.len() > 0 && s.last() == c
}

fn digit_str(d: u64) -> (r: &'static str)
    requires
        d < 10,
    ensures
        r@ == seq![digit_char(d as nat)],
{
    proof {
        reveal_strlit("0");
        reveal_strlit("1");
        reveal_strlit("2");
        reveal_strlit("3");
        reveal_strlit("4");
        reveal_strlit("5");
        reveal_strlit("6");
        reveal_strlit("7");
        reveal_strlit("8");
        reveal_strlit("9");
    }
    let r: &'static str = if d == 0 {
        "0"
    } else if d == 1 {
        "1"
    } else if d == 2 {
        "2"
    } else if d == 3 {
        "3"
    } else if d == 4 {
        "4"
    } else if d == 5 {
        "5"
    } else if d == 6 {
        "6"
    } else if d == 7 {
        "7"
    } else if d == 8 {
        "8"
    } else {
        "9"
    };
    proof {
        assert(r@ =~= seq![digit_char(d as nat)]);
    }
    r
}

/// Renders `n` in decimal.
pub fn u64_to_string(n: u64) -> (r: String)
    ensures
        r@ == dec_digits(n as nat),
    decreases n,
{
    let d = digit_str(n % 10);
    if n < 10 {
        d.to_owned()
    } else {
        let mut s = u64_to_string(n / 10);
        s.append(d);
        proof {
            assert(s@ =~= dec_digits(n as nat));
        }
        s
    }
}

/// Renders `n` in decimal.
pub fn u16_to_string(n: u16) -> (r: String)
    ensures
        r@ == dec_digits(n as nat),
{
    u64_to_string(n as u64)
}

fn oct_to_string(n: u32) -> (r: String)
    ensures
        r@ == oct_digits(n as nat),
    decreases n,
{
    let d = digit_str((n % 8) as u64);
    if n < 8 {
        d.to_owned()
    } else {
        let mut s = oct_to_string(n / 8);
        s.append(d);
        proof {
            assert(s@ =~= oct_digits(n as nat));
        }
        s
    }
}

/// Renders `n` in octal, zero-padded to at least three digits.
pub fn oct3_to_string(n: u32) -> (r: String)
    ensures
        r@ == oct3_digits(n as nat),
{
    proof {
        reveal_strlit("00");
        reveal_strlit("0");
        reveal_strlit("");
    }
    let pad: &str = if n < 8 {
        "00"
    } else if n < 64 {
        "0"
    } else {
        ""
    };
    let mut s = pad.to_owned();
    let digits = oct_to_string(n);
    s.append(digits.as_str());
    proof {
        assert(s@ =~= oct3_digits(n as nat));
    }
    s
}

/// Whether two string slices hold the same characters.
pub fn str_eq(a: &str, b: &str) -> (r: bool)
    ensures
        r == (a@ == b@),
{
    let la = a.unicode_len();
    let lb = b.unicode_len();
    if la != lb {
        return false;
    }
    let mut i: usize = 0;
    while i < la
        invariant
            i <= la,
            forall|j: int| 0 <= j < i ==> a@[j] == b@[j],
        decreases la - i,
    {
        if a.get_char(i) != b.get_char(i) {
            return false;
        }
        i += 1;
    }
    proof {
        assert(a@ =~= b@);
    }
    true
}

/// Whether `a` begins with the prefix `p`.
pub fn str_starts_with(a: &str, p: &str) -> (r: bool)
    ensures
        r == starts_with(a@, p@),
{
    let la = a.unicode_len();
    let lp = p.unicode_len();
    if lp > la {
        return false;
    }
    let mut i: usize = 0;
    while i < lp
        invariant
            i <= lp <= la,
            forall|j: int| 0 <= j < i ==> a@[j] == p@[j],
        decreases lp - i,
    {
        if a.get_char(i) != p.get_char(i) {
            proof {
                assert(a@.subrange(0, p@.len() as int)[i as int] != p@[i as int]);
            }
            return false;
        }
        i += 1;
    }
    proof {
        assert(a@.subrange(0, p@.len() as int) =~= p@);
    }
    true
}

/// Whether `a` begins with the character `c`.
pub fn str_starts_with_char(a: &str, c: char) -> (r: bool)
    ensures
        r == (a@.len() > 0 && a@[0] == c),
{
    if a.unicode_len() == 0 {
        false
    } else {
        a.get_char(0) == c
    }
}

/// Whether `a` ends with the character `c`.
pub fn str_ends_with_char(a: &str, c: char) -> (r: bool)
    ensures
        r == ends_with_char(a@, c),
{
    let la = a.unicode_len();
    if la == 0 {
        false
    } else {
        a.get_char(la - 1) == c
    }
}

/// Whether the character `c` occurs in `a`.
pub fn str_contains_char(a: &str, c: char) -> (r: bool)
    ensures
        r == exists|i: int| 0 <= i < a@.len() && a@[i] == c,
{
    let la = a.unicode_len();
    let mut i: usize = 0;
    while i < la
        invariant
            i <= la,
            forall|j: int| 0 <= j < i ==> a@[j] != c,
        decreases la - i,
    {
        if a.get_char(i) == c {
            return true;
        }
        i += 1;
    }
    false
}

proof fn lemma_dec_val_bound_step(s: Seq<char>, t: Seq<char>)
    requires
        starts_with(t, s),
    ensures
        dec_val(s) <= dec_val(t),
    decreases t.len(),
{
    if t.len() > s.len() {
        let t0 = t.drop_last();
        assert(starts_with(t0, s)) by {
            assert(t0.subrange(0, s.len() as int) =~= t.subrange(0, s.len() as int));
        }
        lemma_dec_val_bound_step(s, t0);
    } else {
        assert(s =~= t);
    }
}

/// Parses a string of decimal digits into a `u32`.
///
/// Returns the value exactly when the string is nonempty, holds digits only,
/// and its value fits in a `u32`.
pub fn parse_u32_digits(s: &str) -> (r: Option<u32>)
    ensures
        match r {
            Some(v) => s@.len() > 0 && all_digits(s@) && v == dec_val(s@),
            None => s@.len() == 0 || !all_digits(s@) || dec_val(s@) > u32::MAX,
        },
{
    let len = s.unicode_len();
    if len == 0 {
        return None;
    }
    let mut acc: u64 = 0;
    let mut i: usize = 0;
    while i < len
        invariant
            i <= len,
            len == s@.len(),
            forall|j: int| 0 <= j < i ==> is_digit_char(#[trigger] s@[j]),
            acc == dec_val(s@.subrange(0, i as int)),
            acc <= u32::MAX,
        decreases len - i,
    {
        let c = s.get_char(i);
        let cv = c as u32;
        if cv < '0' as u32 || cv > '9' as u32 {
            return None;
        }
        let d = (cv - '0' as u32) as u64;
        let next = acc * 10 + d;
        proof {
            assert(s@.subrange(0, i + 1).drop_last() =~= s@.subrange(0, i as int));
            assert(s@.subrange(0, i + 1).last() == s@[i as int]);
        }
        if next > u32::MAX as u64 {
            proof {
                assert(starts_with(s@, s@.subrange(0, i + 1))) by {
                    assert(s@.subrange(0, s@.subrange(0, i + 1).len() as int) =~= s@.subrange(
                        0,
                        i + 1,
                    ));
                }
                lemma_dec_val_bound_step(s@.subrange(0, i + 1), s@);
            }
            return None;
        }
        acc = next;
        i += 1;
    }
    proof {
        assert(s@.subrange(0, len as int) =~= s@);
    }
    Some(acc as u32)
}

/// Drops one trailing `.` from `s`, if present.
pub fn trim_trailing_dot(s: &str) -> (r: &str)
    ensures
        ends_with_char(s@, '.') ==> r@ == s@.drop_last(),
        !ends_with_char(s@, '.') ==> r@ == s@,
{
    let len = s.unicode_len();
    if str_ends_with_char(s, '.') {
        let r = s.substring_char(0, len - 1);
        proof {
            assert(s@.subrange(0, s@.len() - 1) =~= s@.drop_last());
        }
        r
    } else {
        s
    }
}

/// Copies the single character at index `i` of `s` onto the end of `out`.
pub fn push_char_of(out: &mut String, s: &str, i: usize)
    requires
        i < s@.len(),
    ensures
        final(out)@ == old(out)@.push(s@[i as int]),
{
    // The length read brings the fact that the index arithmetic fits.
    let _len = s.unicode_len();
    let piece = s.substring_char(i, i + 1);
    out.append(piece);
    proof {
        assert(old(out)@ + s@.subrange(i as int, i + 1) =~= old(out)@.push(s@[i as int]));
    }
}

} // verus!
