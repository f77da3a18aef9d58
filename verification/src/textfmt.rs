//! Decimal text for the integer fields of a CSV row.

use vstd::prelude::*;
use vstd::string::StrSliceExecFns;
use vstd::string::StringExecFns;

verus! {

/// The decimal digit character for `d` (meaningful for `0 <= d < 10`).
pub open spec fn digit_char(d: int) -> char {
    if d == 0 {
        '0'
    } else if d == 1 {
        '1'
    } else if d == 2 {
        '2'
    } else if d == 3 {
        '3'
    } else if d == 4 {
        '4'
    } else if d == 5 {
        '5'
    } else if d == 6 {
        '6'
    } else if d == 7 {
        '7'
    } else if d == 8 {
        '8'
    } else {
        '9'
    }
}

/// The canonical decimal text of a non-negative integer: no sign, no leading
/// zeros (except for the single digit of zero itself).
pub open spec fn dec_nat(n: nat) -> Seq<char>
    decreases n,
{
    if n < 10 {
        seq![digit_char(n as int)]
    } else {
        dec_nat(n / 10).push(digit_char((n % 10) as int))
    }
}

/// The canonical decimal text of a signed integer: a leading '-' for negative
/// values, the digits of the magnitude otherwise unchanged.
pub open spec fn dec_int(n: int) -> Seq<char> {
    if n < 0 {
        seq!['-'] + dec_nat((-n) as nat)
    } else {
        dec_nat(n as nat)
    }
}

/// Relies on `String::push`: appends exactly the one character.
#[verifier::external_body]
fn push_char(s: &mut String, c: char)
    ensures
        final(s)@ == old(s)@.push(c),
{
    s.push(c);
}

/// The digit character of `d`, as executable code.
fn digit_of(d: u64) -> (c: char)
    requires
        d < 10,
    ensures
        c == digit_char(d as int),
{
    if d == 0 {
        '0'
    } else if d == 1 {
        '1'
    } else if d == 2 {
        '2'
    } else if d == 3 {
        '3'
    } else if d == 4 {
        '4'
    } else if d == 5 {
        '5'
    } else if d == 6 {
        '6'
    } else if d == 7 {
        '7'
    } else if d == 8 {
        '8'
    } else {
        '9'
    }
}

/// Decimal text of an unsigned integer.
pub fn nat_text(n: u64) -> (r: String)
    ensures
        r@ == dec_nat(n as nat),
    decreases n,
{
    if n < 10 {
        let mut s = String::new();
        push_char(&mut s, digit_of(n));
        proof {
            assert(s@ =~= dec_nat(n as nat));
        }
        s
    } else {
        let mut s = nat_text(n / 10);
        push_char(&mut s, digit_of(n % 10));
        proof {
            assert(s@ =~= dec_nat(n as nat));
        }
        s
    }
}

/// Decimal text of a signed 32-bit integer.
pub fn i32_text(n: i32) -> (r: String)
    ensures
        r@ == dec_int(n as int),
{
    if n < 0 {
        let mag: u64 = (-(n as i64)) as u64;
        assert(mag == -(n as int));
        let mut s = String::new();
        push_char(&mut s, '-');
        let digits = nat_text(mag);
        let r = s.concat(digits.as_str());
        proof {
            assert(r@ =~= dec_int(n as int));
        }
        r
    } else {
        let r = nat_text(n as u64);
        r
    }
}

/// Whether every character of `s` is plain row text: no field separator, no
/// quote, no line break, so that the text passes through a CSV writer
/// unchanged and adds no line of its own.
pub open spec fn csv_plain(s: Seq<char>) -> bool {
    forall|i: int| 0 <= i < s.len() ==> s[i] != ',' && s[i] != '"' && s[i] != '\n' && s[i] != '\r'
}

/// Whether every character of `s` is plain row text, as executable code.
pub fn is_csv_plain(s: &str) -> (r: bool)
    ensures
        r == csv_plain(s@),
{
    let n = s.unicode_len();
    let mut i: usize = 0;
    while i < n
        invariant
            n == s@.len(),
            i <= n,
            forall|j: int|
                0 <= j < i ==> s@[j] != ',' && s@[j] != '"' && s@[j] != '\n' && s@[j] != '\r',
        decreases n - i,
    {
        let c = s.get_char(i);
        if c == ',' || c == '"' || c == '\n' || c == '\r' {
            return false;
        }
        i = i + 1;
    }
    true
}

/// Every character of the decimal text of a non-negative integer is a digit,
/// so the text is plain row text.
pub proof fn lemma_dec_nat_plain(n: nat)
    ensures
        csv_plain(dec_nat(n)),
        dec_nat(n).len() > 0,
    decreases n,
{
    if n >= 10 {
        lemma_dec_nat_plain(n / 10);
    }
}

/// The decimal text of any integer is plain row text.
pub proof fn lemma_dec_int_plain(n: int)
    ensures
        csv_plain(dec_int(n)),
        dec_int(n).len() > 0,
{
    if n < 0 {
        lemma_dec_nat_plain((-n) as nat);
    } else {
        lemma_dec_nat_plain(n as nat);
    }
}

} // verus!
