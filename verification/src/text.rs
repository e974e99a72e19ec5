//! Text helpers shared by the capture modules: decimal rendering of integers
//! and substring search, both stated over the characters or bytes of a string.

use vstd::prelude::*;
use vstd::string::StringExecFns;
use vstd::string::StringSliceAdditionalSpecFns;

verus! {

/// The character that writes the digit `d` (0 to 9).
pub open spec fn digit_char(d: int) -> char {
    if d == 0 {
        '0'
    } else if d == 1 {
        '1'
    } else if d == 2 {
        '2'
    } else if d == 3 {
        '3'
    } else if d == 4 {
        '4'
    } else if d == 5 {
        '5'
    } else if d == 6 {
        '6'
    } else if d == 7 {
        '7'
    } else if d == 8 {
        '8'
    } else {
        '9'
    }
}

/// Decimal digits of a natural number, most significant first, without
/// leading zeros (zero is written `0`).
pub open spec fn decimal_digits(n: nat) -> Seq<char>
    decreases n,
{
    if n < 10 {
        seq![digit_char(n as int)]
    } else {
        decimal_digits(n / 10).push(digit_char((n % 10) as int))
    }
}

/// Decimal rendering of an integer: a minus sign for negative numbers, then
/// the digits of its magnitude.
pub open spec fn decimal(i: int) -> Seq<char> {
    if i < 0 {
        seq!['-'] + decimal_digits((-i) as nat)
    } else {
        decimal_digits(i as nat)
    }
}

/// The one-character string for a single digit.
fn digit_str(d: u64) -> (s: &'static str)
    requires
        d < 10,
    ensures
        s@ == seq![digit_char(d as int)],
{
    proof {
        reveal_strlit("0");
        reveal_strlit("1");
        reveal_strlit("2");
        reveal_strlit("3");
        reveal_strlit("4");
        reveal_strlit("5");
        reveal_strlit("6");
        reveal_strlit("7");
        reveal_strlit("8");
        reveal_strlit("9");
    }
    let s = if d == 0 {
        "0"
    } else if d == 1 {
        "1"
    } else if d == 2 {
        "2"
    } else if d == 3 {
        "3"
    } else if d == 4 {
        "4"
    } else if d == 5 {
        "5"
    } else if d == 6 {
        "6"
    } else if d == 7 {
        "7"
    } else if d == 8 {
        "8"
    } else {
        "9"
    };
    assert(s@ =~= seq![digit_char(d as int)]);
    s
}

/// Appends the decimal digits of `n` to `out`.
pub fn push_decimal(out: &mut String, n: u64)
    ensures
        final(out)@ == old(out)@ + decimal_digits(n as nat),
    decreases n,
{
    if n >= 10 {
        push_decimal(out, n / 10);
    }
    out.append(digit_str(n % 10));
    assert(final(out)@ =~= old(out)@ + decimal_digits(n as nat));
}

/// Appends the decimal rendering of a signed number to `out`.
pub fn push_signed_decimal(out: &mut String, i: i32)
    ensures
        final(out)@ == old(out)@ + decimal(i as int),
{
    if i < 0 {
        proof {
            reveal_strlit("-");
        }
        out.append("-");
        let magnitude: u64 = (-(i as i64)) as u64;
        push_decimal(out, magnitude);
        assert(final(out)@ =~= old(out)@ + decimal(i as int));
    } else {
        push_decimal(out, i as u64);
    }
}

/// `needle` occurs in `haystack` as a contiguous run starting at `at`.
pub open spec fn occurs_at(haystack: Seq<u8>, needle: Seq<u8>, at: int) -> bool {
    &&& 0 <= at
    &&& at + needle.len() <= haystack.len()
    &&& haystack.subrange(at, at + needle.len()) == needle
}

/// `needle` occurs somewhere in `haystack`.
pub open spec fn contains_bytes(haystack: Seq<u8>, needle: Seq<u8>) -> bool {
    exists|at: int| occurs_at(haystack, needle, at)
}

/// Tests whether `needle` matches `haystack` at position `at`.
fn matches_at(haystack: &[u8], needle: &[u8], at: usize) -> (b: bool)
    requires
        at + needle@.len() <= haystack@.len(),
    ensures
        b == occurs_at(haystack@, needle@, at as int),
{
    let mut k: usize = 0;
    while k < needle.len()
        invariant
            k <= needle.len(),
            at + needle.len() <= haystack.len(),
            forall|j: int| 0 <= j < k ==> haystack@[at + j] == needle@[j],
        decreases needle.len() - k,
    {
        if haystack[at + k] != needle[k] {
            proof {
                let window = haystack@.subrange(at as int, at + needle@.len());
                assert(window[k as int] == haystack@[at + k]);
            }
            return false;
        }
        k += 1;
    }
    assert(haystack@.subrange(at as int, at + needle@.len()) =~= needle@);
    true
}

/// Whether the UTF-8 text of `needle` occurs in the UTF-8 text of `haystack`.
pub fn str_contains(haystack: &str, needle: &str) -> (b: bool)
    ensures
        b == contains_bytes(haystack.spec_bytes(), needle.spec_bytes()),
{
    let hay = haystack.as_bytes();
    let pat = needle.as_bytes();
    if pat.len() > hay.len() {
        return false;
    }
    let last: usize = hay.len() - pat.len();
    let mut at: usize = 0;
    loop
        invariant
            at <= last,
            last + pat.len() == hay.len(),
            hay@ == haystack.spec_bytes(),
            pat@ == needle.spec_bytes(),
            forall|p: int| 0 <= p < at ==> !occurs_at(hay@, pat@, p),
        decreases last - at,
    {
        if matches_at(hay, pat, at) {
            return true;
        }
        if at == last {
            return false;
        }
        at += 1;
    }
}

} // verus!
