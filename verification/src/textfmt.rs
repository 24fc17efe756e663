//! Verified text rendering for the progress display: unsigned decimal
//! numbers, zero-padded fields, tenths-precision values, and the
//! `HH:MM:SS.mmm` clock format. Each executable function is proved to produce
//! exactly the character sequence its spec function describes.

use vstd::prelude::*;
use vstd::string::StrSliceExecFns;
use vstd::string::StringExecFns;

verus! {

/// The ASCII digit for one decimal place.
pub open spec fn spec_digit_char(d: int) -> char {
    if d == 0 {
        '0'
    } else if d == 1 {
        '1'
    } else if d == 2 {
        '2'
    } else if d == 3 {
        '3'
    } else if d == 4 {
        '4'
    } else if d == 5 {
        '5'
    } else if d == 6 {
        '6'
    } else if d == 7 {
        '7'
    } else if d == 8 {
        '8'
    } else {
        '9'
    }
}

/// The decimal digits of `n`, most significant first, no leading zeros
/// (a single `'0'` for zero).
pub open spec fn spec_dec(n: int) -> Seq<char>
    decreases n,
{
    if n < 10 {
        seq![spec_digit_char(n)]
    } else {
        spec_dec(n / 10) + seq![spec_digit_char(n % 10)]
    }
}

/// `n` zero-padded to at least two digits.
pub open spec fn spec_pad2(n: int) -> Seq<char> {
    if n < 10 {
        seq!['0'] + spec_dec(n)
    } else {
        spec_dec(n)
    }
}

/// `n` zero-padded to at least three digits.
pub open spec fn spec_pad3(n: int) -> Seq<char> {
    if n < 10 {
        seq!['0', '0'] + spec_dec(n)
    } else if n < 100 {
        seq!['0'] + spec_dec(n)
    } else {
        spec_dec(n)
    }
}

/// A value counted in tenths, rendered with one decimal place.
pub open spec fn spec_deci(tenths: int) -> Seq<char> {
    spec_dec(tenths / 10) + seq!['.'] + seq![spec_digit_char(tenths % 10)]
}

/// A span counted in milliseconds, rendered as `HH:MM:SS.mmm` with every
/// field zero-padded (hours grow past two digits unpadded).
pub open spec fn spec_hms_millis(ms: int) -> Seq<char> {
    spec_pad2(ms / 3600000) + seq![':'] + spec_pad2((ms / 60000) % 60) + seq![':'] + spec_pad2(
        (ms / 1000) % 60,
    ) + seq!['.'] + spec_pad3(ms % 1000)
}

/// One decimal digit as a borrowed string.
fn digit_str(d: u64) -> (r: &'static str)
    requires
        d < 10,
    ensures
        r@ == seq![spec_digit_char(d as int)],
{
    proof {
        reveal_strlit("0");
        reveal_strlit("1");
        reveal_strlit("2");
        reveal_strlit("3");
        reveal_strlit("4");
        reveal_strlit("5");
        reveal_strlit("6");
        reveal_strlit("7");
        reveal_strlit("8");
        reveal_strlit("9");
    }
    let r: &'static str = match d {
        0 => "0",
        1 => "1",
        2 => "2",
        3 => "3",
        4 => "4",
        5 => "5",
        6 => "6",
        7 => "7",
        8 => "8",
        _ => "9",
    };
    assert(r@ =~= seq![spec_digit_char(d as int)]);
    r
}

/// Renders `n` in decimal.
pub fn fmt_dec(n: u64) -> (s: String)
    ensures
        s@ == spec_dec(n as int),
    decreases n,
{
    if n < 10 {
        String::from_str(digit_str(n))
    } else {
        let mut s = fmt_dec(n / 10);
        s.append(digit_str(n % 10));
        assert(s@ =~= spec_dec(n as int));
        s
    }
}

/// Renders `n` zero-padded to at least two digits.
pub fn fmt_pad2(n: u64) -> (s: String)
    ensures
        s@ == spec_pad2(n as int),
{
    if n < 10 {
        proof {
            reveal_strlit("0");
        }
        let mut s = String::from_str("0");
        s.append(digit_str(n));
        assert(s@ =~= spec_pad2(n as int));
        s
    } else {
        fmt_dec(n)
    }
}

/// Renders `n` zero-padded to at least three digits.
pub fn fmt_pad3(n: u64) -> (s: String)
    ensures
        s@ == spec_pad3(n as int),
{
    if n < 10 {
        proof {
            reveal_strlit("00");
        }
        let mut s = String::from_str("00");
        s.append(digit_str(n));
        assert(s@ =~= spec_pad3(n as int));
        s
    } else if n < 100 {
        proof {
            reveal_strlit("0");
        }
        let mut s = String::from_str("0");
        let rest = fmt_dec(n);
        s.append(rest.as_str());
        assert(s@ =~= spec_pad3(n as int));
        s
    } else {
        fmt_dec(n)
    }
}

/// Renders a tenths count with one decimal place.
pub fn fmt_deci(tenths: u64) -> (s: String)
    ensures
        s@ == spec_deci(tenths as int),
{
    proof {
        reveal_strlit(".");
    }
    let mut s = fmt_dec(tenths / 10);
    s.append(".");
    s.append(digit_str(tenths % 10));
    assert(s@ =~= spec_deci(tenths as int));
    s
}

/// Renders a millisecond span as `HH:MM:SS.mmm`.
pub fn fmt_hms_millis(ms: u64) -> (s: String)
    ensures
        s@ == spec_hms_millis(ms as int),
{
    proof {
        reveal_strlit(":");
        reveal_strlit(".");
    }
    let mut s = fmt_pad2(ms / 3600000);
    s.append(":");
    let minutes = fmt_pad2((ms / 60000) % 60);
    s.append(minutes.as_str());
    s.append(":");
    let seconds = fmt_pad2((ms / 1000) % 60);
    s.append(seconds.as_str());
    s.append(".");
    let millis = fmt_pad3(ms % 1000);
    s.append(millis.as_str());
    assert(s@ =~= spec_hms_millis(ms as int));
    s
}

} // verus!
