//! Small verified string helpers: character-level equality, slash
//! sanitisation, decimal rendering of integers, and character repetition.

use vstd::prelude::*;
use vstd::string::StrSliceExecFns;

verus! {

/// Relies on std's `String::push`: appends one character at the end of the
/// string.
#[verifier::external_body]
pub fn push_char(s: &mut String, c: char)
    ensures
        final(s)@ == old(s)@.push(c),
{
    s.push(c);
}

/// Character-for-character equality of two string slices.
pub fn str_eq(a: &str, b: &str) -> (r: bool)
    ensures
        r == (a@ == b@),
{
    let alen = a.unicode_len();
    let blen = b.unicode_len();
    if alen != blen {
        return false;
    }
    let mut i: usize = 0;
    while i < alen
        invariant
            alen == a@.len(),
            blen == b@.len(),
            alen == blen,
            i <= alen,
            forall|k: int| 0 <= k < i ==> a@[k] == b@[k],
        decreases alen - i,
    {
        if a.get_char(i) != b.get_char(i) {
            return false;
        }
        i += 1;
    }
    proof {
        assert(a@ =~= b@);
    }
    true
}

/// The text with every `/` replaced by `_`, so that a metadata value such as
/// a rational number cannot introduce a path separator into a filename.
pub open spec fn spec_sanitize(s: Seq<char>) -> Seq<char> {
    s.map_values(|c: char| if c == '/' { '_' } else { c })
}

pub fn replace_slashes(s: &str) -> (r: String)
    ensures
        r@ == spec_sanitize(s@),
{
    let n = s.unicode_len();
    let mut r = String::new();
    let mut i: usize = 0;
    while i < n
        invariant
            n == s@.len(),
            i <= n,
            r@ =~= spec_sanitize(s@.subrange(0, i as int)),
        decreases n - i,
    {
        let c = s.get_char(i);
        if c == '/' {
            push_char(&mut r, '_');
        } else {
            push_char(&mut r, c);
        }
        i += 1;
        proof {
            assert(r@ =~= spec_sanitize(s@.subrange(0, i as int)));
        }
    }
    proof {
        assert(s@.subrange(0, s@.len() as int) =~= s@);
    }
    r
}

/// The ASCII digit for a value below ten.
pub open spec fn spec_digit_char(d: nat) -> char {
    ((d + 48) as u8) as char
}

/// The decimal rendering of a natural number, most significant digit first.
pub open spec fn spec_dec_digits(n: nat) -> Seq<char>
    decreases n,
{
    if n < 10 {
        seq![spec_digit_char(n)]
    } else {
        spec_dec_digits(n / 10).push(spec_digit_char(n % 10))
    }
}

/// The characters of a digit buffer read back to front.
spec fn rev_chars(s: Seq<u8>) -> Seq<char> {
    Seq::new(s.len(), |i: int| s[s.len() - 1 - i] as char)
}

pub fn u32_to_string(n: u32) -> (r: String)
    ensures
        r@ == spec_dec_digits(n as nat),
{
    let mut digits: Vec<u8> = Vec::new();
    let d0: u32 = n % 10;
    digits.push((d0 as u8) + 48);
    let mut m: u32 = n / 10;
    proof {
        assert(rev_chars(digits@) =~= seq![spec_digit_char((n as nat) % 10)]);
    }
    while m > 0
        invariant
            digits@.len() >= 1,
            m == 0 ==> spec_dec_digits(n as nat) == rev_chars(digits@),
            m > 0 ==> spec_dec_digits(n as nat) == spec_dec_digits(m as nat) + rev_chars(digits@),
        decreases m,
    {
        let ghost old_digits = digits@;
        let d: u32 = m % 10;
        digits.push((d as u8) + 48);
        m = m / 10;
        proof {
            assert(rev_chars(old_digits.push(((d + 48) as u8))) =~= seq![
                spec_digit_char(d as nat),
            ] + rev_chars(old_digits));
        }
    }
    proof {
        if n < 10 {
            assert(spec_dec_digits(n as nat) == rev_chars(digits@));
        }
    }
    let mut r = String::new();
    let mut i: usize = digits.len();
    proof {
        assert(rev_chars(digits@.subrange(i as int, digits@.len() as int)) =~= Seq::<
            char,
        >::empty());
    }
    while i > 0
        invariant
            i <= digits@.len(),
            spec_dec_digits(n as nat) == rev_chars(digits@),
            r@ == rev_chars(digits@.subrange(i as int, digits@.len() as int)),
        decreases i,
    {
        i = i - 1;
        push_char(&mut r, digits[i] as char);
        proof {
            assert(r@ =~= rev_chars(digits@.subrange(i as int, digits@.len() as int)));
        }
    }
    proof {
        assert(digits@.subrange(0, digits@.len() as int) =~= digits@);
    }
    r
}

/// A run of one character, used for diagnostic padding and underlines.
pub open spec fn spec_repeat(c: char, n: nat) -> Seq<char> {
    Seq::new(n, |i: int| c)
}

pub fn repeat_char(c: char, n: usize) -> (r: String)
    ensures
        r@ == spec_repeat(c, n as nat),
{
    let mut r = String::new();
    let mut i: usize = 0;
    while i < n
        invariant
            i <= n,
            r@ =~= spec_repeat(c, i as nat),
        decreases n - i,
    {
        push_char(&mut r, c);
        i += 1;
        proof {
            assert(r@ =~= spec_repeat(c, i as nat));
        }
    }
    r
}

} // verus!
