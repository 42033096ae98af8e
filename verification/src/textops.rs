//! Character-level helpers shared by the renderers and the reveal effects.
//!
//! Everything here works on character indices, never raw byte offsets, so
//! multi-byte text can never be sliced apart.

use vstd::prelude::*;
use vstd::string::StrSliceExecFns;

verus! {

/// Character-for-character string comparison.
pub fn str_eq(a: &str, b: &str) -> (r: bool)
    ensures
        r == (a@ == b@),
{
    let an = a.unicode_len();
    let bn = b.unicode_len();
    if an != bn {
        proof {
            assert(a@ != b@) by {
                assert(a@.len() != b@.len());
            }
        }
        return false;
    }
    let mut i: usize = 0;
    while i < an
        invariant
            an == a@.len(),
            an == b@.len(),
            0 <= i <= an,
            forall|j: int| 0 <= j < i ==> a@[j] == b@[j],
        decreases an - i,
    {
        if a.get_char(i) != b.get_char(i) {
            return false;
        }
        i += 1;
    }
    proof {
        assert(a@ =~= b@);
    }
    true
}

/// Relies on String::push: appends exactly the given character.
#[verifier::external_body]
pub(crate) fn push_char(s: &mut String, c: char)
    ensures
        final(s)@ == old(s)@.push(c),
{
    s.push(c);
}

/// The decimal digit `d` as a character; meaningful for `d < 10`.
pub open spec fn digit_char(d: nat) -> char {
    ((d + 48) as u8) as char
}

/// The decimal digits of `n`, most significant first.
pub open spec fn spec_digits(n: nat) -> Seq<char>
    decreases n,
{
    if n < 10 {
        seq![digit_char(n)]
    } else {
        spec_digits(n / 10).push(digit_char(n % 10))
    }
}

fn push_u64_digits(n: u64, s: &mut String)
    ensures
        final(s)@ == old(s)@ + spec_digits(n as nat),
    decreases n,
{
    if n >= 10 {
        push_u64_digits(n / 10, s);
    }
    let d: u8 = (n % 10) as u8 + 48;
    push_char(s, d as char);
    proof {
        if n < 10 {
            assert(final(s)@ =~= old(s)@ + spec_digits(n as nat));
        } else {
            assert(final(s)@ =~= old(s)@ + spec_digits(n as nat));
        }
    }
}

/// `n` written in decimal.
pub fn u64_string(n: u64) -> (r: String)
    ensures
        r@ == spec_digits(n as nat),
{
    let mut s = String::new();
    push_u64_digits(n, &mut s);
    proof {
        assert(s@ =~= spec_digits(n as nat));
    }
    s
}

/// A fixed-point number of thousandths written with one decimal digit,
/// rounded half away from zero; negative values carry a leading minus.
pub open spec fn spec_milli_1dp(m: int) -> Seq<char> {
    let mag = if m >= 0 { m } else { -m };
    let t = (mag + 50) / 100;
    let body = spec_digits((t / 10) as nat) + seq!['.'] + seq![digit_char((t % 10) as nat)];
    if m < 0 {
        seq!['-'] + body
    } else {
        body
    }
}

/// Formats thousandths with one decimal digit (`2540` becomes `"2.5"`).
pub fn milli_1dp_string(m: i64) -> (r: String)
    ensures
        r@ == spec_milli_1dp(m as int),
{
    let mut s = String::new();
    if m < 0 {
        push_char(&mut s, '-');
    }
    let mag: u64 = if m >= 0 {
        m as u64
    } else {
        ((-1 - m) as u64) + 1
    };
    let t: u64 = (mag + 50) / 100;
    push_u64_digits(t / 10, &mut s);
    push_char(&mut s, '.');
    push_char(&mut s, ((t % 10) as u8 + 48) as char);
    proof {
        assert(s@ =~= spec_milli_1dp(m as int));
    }
    s
}

/// ASCII lower-casing of one character; other characters pass through.
pub open spec fn spec_lower_char(c: char) -> char {
    if 65 <= c as u32 <= 90 {
        (((c as u32) + 32) as u8) as char
    } else {
        c
    }
}

/// ASCII upper-casing of one character; other characters pass through.
pub open spec fn spec_upper_char(c: char) -> char {
    if 97 <= c as u32 <= 122 {
        (((c as u32) - 32) as u8) as char
    } else {
        c
    }
}

fn lower_char(c: char) -> (r: char)
    ensures
        r == spec_lower_char(c),
{
    let u = c as u32;
    if 65 <= u && u <= 90 {
        ((u + 32) as u8) as char
    } else {
        c
    }
}

fn upper_char(c: char) -> (r: char)
    ensures
        r == spec_upper_char(c),
{
    let u = c as u32;
    if 97 <= u && u <= 122 {
        ((u - 32) as u8) as char
    } else {
        c
    }
}

/// ASCII-wise lower-casing of a string; characters outside `A`..`Z` are
/// kept as they are.
pub fn lower_ascii(s: &str) -> (r: String)
    ensures
        r@ == s@.map_values(|c: char| spec_lower_char(c)),
{
    let n = s.unicode_len();
    let mut out = String::new();
    let mut i: usize = 0;
    while i < n
        invariant
            n == s@.len(),
            0 <= i <= n,
            out@.len() == i,
            forall|j: int| 0 <= j < i ==> out@[j] == spec_lower_char(s@[j]),
        decreases n - i,
    {
        push_char(&mut out, lower_char(s.get_char(i)));
        i += 1;
    }
    proof {
        assert(out@ =~= s@.map_values(|c: char| spec_lower_char(c)));
    }
    out
}

/// ASCII-wise upper-casing of a string; characters outside `a`..`z` are
/// kept as they are.
pub fn upper_ascii(s: &str) -> (r: String)
    ensures
        r@ == s@.map_values(|c: char| spec_upper_char(c)),
{
    let n = s.unicode_len();
    let mut out = String::new();
    let mut i: usize = 0;
    while i < n
        invariant
            n == s@.len(),
            0 <= i <= n,
            out@.len() == i,
            forall|j: int| 0 <= j < i ==> out@[j] == spec_upper_char(s@[j]),
        decreases n - i,
    {
        push_char(&mut out, upper_char(s.get_char(i)));
        i += 1;
    }
    proof {
        assert(out@ =~= s@.map_values(|c: char| spec_upper_char(c)));
    }
    out
}

} // verus!
