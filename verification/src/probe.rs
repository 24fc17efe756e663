//! Parsing of the metadata probe's output. An external probe process reports,
//! one value per line, integer pixel dimensions, a rational-or-decimal frame
//! rate, a container duration in seconds, and a stream frame count; this
//! module turns that text into plain values. Any missing or unparseable field
//! degrades to `None` (or the 30 fps default), never to an abort. Rates and
//! durations are held in fixed point: thousandths of frames per second and
//! milliseconds.

use vstd::prelude::*;
use vstd::string::StrSliceExecFns;
use vstd::string::StringExecFns;

use crate::errors::PipelineError;
use crate::progress::spec_sat64;

verus! {

/// Frame geometry and playback rate of a video stream, as probed at startup.
#[derive(Debug)]
pub struct VideoInfo {
    pub width: u32,
    pub height: u32,
    /// Frames per second in thousandths; defaults to 30000 when the probe
    /// reports nothing usable.
    pub fps_millis: u32,
}

/// The probe's fallback playback rate: 30 fps.
pub const DEFAULT_FPS_MILLIS: u32 = 30000;

/// ASCII whitespace: space, tab, line feed, form feed, carriage return.
pub open spec fn spec_is_space(c: char) -> bool {
    c as u32 == 32 || c as u32 == 9 || c as u32 == 10 || c as u32 == 12 || c as u32 == 13
}

/// An ASCII decimal digit.
pub open spec fn spec_is_digit(c: char) -> bool {
    48 <= c as u32 <= 57
}

/// The numeric value of an ASCII digit.
pub open spec fn spec_digit_val(c: char) -> int {
    c as u32 - 48
}

/// How many leading whitespace characters `s` has.
pub open spec fn spec_trim_start(s: Seq<char>) -> nat
    decreases s.len(),
{
    if s.len() > 0 && spec_is_space(s[0]) {
        1 + spec_trim_start(s.skip(1))
    } else {
        0
    }
}

/// The length of `s` with trailing whitespace dropped.
pub open spec fn spec_trim_end(s: Seq<char>) -> nat
    decreases s.len(),
{
    if s.len() > 0 && spec_is_space(s.last()) {
        spec_trim_end(s.drop_last())
    } else {
        s.len()
    }
}

/// `s` without leading and trailing whitespace.
pub open spec fn spec_trim(s: Seq<char>) -> Seq<char> {
    let a = spec_trim_start(s);
    let b = spec_trim_end(s);
    if a < b {
        s.subrange(a as int, b as int)
    } else {
        Seq::empty()
    }
}

/// The index of the first occurrence of `c` in `s`, or the length of `s`.
pub open spec fn spec_find(s: Seq<char>, c: char) -> nat
    decreases s.len(),
{
    if s.len() == 0 {
        0
    } else if s[0] == c {
        0
    } else {
        1 + spec_find(s.skip(1), c)
    }
}

/// The index of the first line feed in `s`, or its length.
pub open spec fn spec_newline_idx(s: Seq<char>) -> nat {
    spec_find(s, '\n')
}

/// The first line of `s` that is non-empty after trimming, together with the
/// text after that line; `None` when every line trims to nothing.
pub open spec fn spec_next_value(s: Seq<char>) -> Option<(Seq<char>, Seq<char>)>
    decreases s.len(),
{
    let k = spec_newline_idx(s);
    let t = spec_trim(s.subrange(0, k as int));
    if t.len() > 0 {
        if k >= s.len() {
            Some((t, Seq::empty()))
        } else {
            Some((t, s.skip(k + 1 as int)))
        }
    } else if k >= s.len() {
        None
    } else {
        spec_next_value(s.skip(k + 1 as int))
    }
}

/// The value of a digit string, most significant first.
pub open spec fn spec_dec_val(s: Seq<char>) -> int
    decreases s.len(),
{
    if s.len() == 0 {
        0
    } else {
        spec_dec_val(s.drop_last()) * 10 + spec_digit_val(s.last())
    }
}

/// `s` with one optional leading `'+'` sign dropped.
pub open spec fn spec_unsigned(s: Seq<char>) -> Seq<char> {
    if s.len() > 0 && s[0] == '+' {
        s.skip(1)
    } else {
        s
    }
}

/// Whether every character of `s` is a decimal digit.
pub open spec fn spec_digits_only(s: Seq<char>) -> bool {
    forall|i: int| 0 <= i < s.len() ==> spec_is_digit(#[trigger] s[i])
}

/// Whether `s` is one or more decimal digits.
pub open spec fn spec_all_digits(s: Seq<char>) -> bool {
    s.len() > 0 && spec_digits_only(s)
}

/// The value of `s` as an unsigned decimal integer (one optional leading
/// `'+'`), or `None` if it is not one or does not fit 64 bits.
pub open spec fn spec_parse_u64(s: Seq<char>) -> Option<u64> {
    let b = spec_unsigned(s);
    if spec_all_digits(b) && spec_dec_val(b) <= u64::MAX {
        Some(spec_dec_val(b) as u64)
    } else {
        None
    }
}

proof fn lemma_dec_val_nonneg(s: Seq<char>)
    requires
        forall|i: int| 0 <= i < s.len() ==> spec_is_digit(#[trigger] s[i]),
    ensures
        spec_dec_val(s) >= 0,
    decreases s.len(),
{
    if s.len() > 0 {
        lemma_dec_val_nonneg(s.drop_last());
    }
}

/// A longer digit prefix never has a smaller value.
proof fn lemma_dec_val_grows(s: Seq<char>, i: int)
    requires
        0 <= i <= s.len(),
        forall|j: int| 0 <= j < s.len() ==> spec_is_digit(#[trigger] s[j]),
    ensures
        spec_dec_val(s) >= spec_dec_val(s.subrange(0, i)),
    decreases s.len() - i,
{
    if i == s.len() {
        assert(s.subrange(0, i) =~= s);
    } else {
        let p = s.subrange(0, i);
        let q = s.subrange(0, i + 1);
        assert(q.drop_last() =~= p);
        lemma_dec_val_nonneg(p);
        lemma_dec_val_grows(s, i + 1);
    }
}

/// The index of the first occurrence of `c` in `s`, or the length of `s`.
pub(crate) fn find_char(s: &str, c: char) -> (k: usize)
    ensures
        k == spec_find(s@, c),
        k <= s@.len(),
    decreases s@.len(),
{
    let n = s.unicode_len();
    if n == 0 {
        0
    } else if s.get_char(0) == c {
        0
    } else {
        let rest = s.substring_char(1, n);
        assert(rest@ =~= s@.skip(1));
        1 + find_char(rest, c)
    }
}

/// Whether `c` is ASCII whitespace.
fn is_space(c: char) -> (r: bool)
    ensures
        r == spec_is_space(c),
{
    let v = c as u32;
    v == 32 || v == 9 || v == 10 || v == 12 || v == 13
}

fn trim_start_idx(s: &str) -> (a: usize)
    ensures
        a == spec_trim_start(s@),
        a <= s@.len(),
    decreases s@.len(),
{
    let n = s.unicode_len();
    if n > 0 && is_space(s.get_char(0)) {
        let rest = s.substring_char(1, n);
        assert(rest@ =~= s@.skip(1));
        1 + trim_start_idx(rest)
    } else {
        0
    }
}

fn trim_end_idx(s: &str) -> (b: usize)
    ensures
        b == spec_trim_end(s@),
        b <= s@.len(),
    decreases s@.len(),
{
    let n = s.unicode_len();
    if n > 0 && is_space(s.get_char(n - 1)) {
        let rest = s.substring_char(0, n - 1);
        assert(rest@ =~= s@.drop_last());
        trim_end_idx(rest)
    } else {
        n
    }
}

/// `s` without leading and trailing whitespace.
pub fn trim_str<'a>(s: &'a str) -> (r: &'a str)
    ensures
        r@ == spec_trim(s@),
{
    let a = trim_start_idx(s);
    let b = trim_end_idx(s);
    if a < b {
        s.substring_char(a, b)
    } else {
        let empty = "";
        proof {
            reveal_strlit("");
        }
        assert(empty@ =~= spec_trim(s@));
        empty
    }
}

/// The first line of `s` that is non-empty after trimming, and the text after
/// that line.
pub fn next_value(s: &str) -> (r: Option<(String, String)>)
    ensures
        r is Some <==> spec_next_value(s@) is Some,
        r matches Some(p) ==> spec_next_value(s@) == Some((p.0@, p.1@)),
    decreases s@.len(),
{
    let n = s.unicode_len();
    let k = find_char(s, '\n');
    let head = s.substring_char(0, k);
    assert(head@ =~= s@.subrange(0, k as int));
    let t = trim_str(head);
    if t.unicode_len() > 0 {
        if k == n {
            let empty = "";
            proof {
                reveal_strlit("");
            }
            assert(empty@ =~= Seq::<char>::empty());
            Some((String::from_str(t), String::from_str(empty)))
        } else {
            let rest = s.substring_char(k + 1, n);
            assert(rest@ =~= s@.skip(k + 1));
            Some((String::from_str(t), String::from_str(rest)))
        }
    } else if k == n {
        None
    } else {
        let rest = s.substring_char(k + 1, n);
        assert(rest@ =~= s@.skip(k + 1));
        next_value(rest)
    }
}

/// The first non-empty trimmed line of a probe's output, if any: the value a
/// single-field probe query yielded.
pub fn probe_first_value(s: &str) -> (r: Option<String>)
    ensures
        r is Some <==> spec_next_value(s@) is Some,
        r matches Some(v) ==> spec_next_value(s@) matches Some(p) && p.0 == v@,
{
    match next_value(s) {
        Some(p) => Some(p.0),
        None => None,
    }
}

/// Parses a run of decimal digits (the empty run has value zero), exactly
/// when the value fits 64 bits.
fn parse_digits(s: &str) -> (r: Option<u64>)
    ensures
        r is Some <==> spec_digits_only(s@) && spec_dec_val(s@) <= u64::MAX,
        r matches Some(v) ==> v == spec_dec_val(s@),
{
    let n = s.unicode_len();
    let mut acc: u64 = 0;
    let mut i: usize = 0;
    while i < n
        invariant
            0 <= i <= n,
            n == s@.len(),
            forall|j: int| 0 <= j < i ==> spec_is_digit(#[trigger] s@[j]),
            acc == spec_dec_val(s@.subrange(0, i as int)),
        decreases n - i,
    {
        let c = s.get_char(i);
        let v = c as u32;
        if v < 48 || v > 57 {
            assert(!spec_is_digit(s@[i as int]));
            return None;
        }
        let d: u64 = (v - 48) as u64;
        let wide: u128 = acc as u128 * 10 + d as u128;
        let ghost prefix = s@.subrange(0, i + 1);
        assert(prefix.drop_last() =~= s@.subrange(0, i as int));
        assert(prefix.last() == s@[i as int]);
        assert(spec_dec_val(prefix) == wide);
        if wide > u64::MAX as u128 {
            proof {
                if spec_digits_only(s@) {
                    lemma_dec_val_grows(s@, i + 1);
                }
            }
            return None;
        }
        acc = (wide as u64);
        i = i + 1;
    }
    assert(s@.subrange(0, n as int) =~= s@);
    Some(acc)
}

/// Parses an unsigned decimal integer (one optional leading `'+'`), exactly
/// when it has a 64-bit value.
pub fn parse_u64_str(s: &str) -> (r: Option<u64>)
    ensures
        r == spec_parse_u64(s@),
{
    let n = s.unicode_len();
    let start: usize = if n > 0 && s.get_char(0) == '+' {
        1
    } else {
        0
    };
    let body = s.substring_char(start, n);
    assert(body@ =~= spec_unsigned(s@));
    if body.unicode_len() == 0 {
        return None;
    }
    parse_digits(body)
}

/// Parses an unsigned decimal integer with a 32-bit value.
pub fn parse_u32_str(s: &str) -> (r: Option<u32>)
    ensures
        r is Some <==> (spec_parse_u64(s@) matches Some(v) && v <= u32::MAX),
        r matches Some(v) ==> spec_parse_u64(s@) == Some(v as u64),
{
    match parse_u64_str(s) {
        Some(v) => {
            if v <= u32::MAX as u64 {
                Some(v as u32)
            } else {
                None
            }
        },
        None => None,
    }
}

/// The scale that pads a fraction of `l` digits to milliseconds.
pub open spec fn spec_frac_scale(l: int) -> int {
    if l == 0 {
        1000
    } else if l == 1 {
        100
    } else if l == 2 {
        10
    } else {
        1
    }
}

/// The milliseconds encoded by the fractional digits of a decimal seconds
/// value; digits past the third are dropped.
pub open spec fn spec_frac_millis(fp: Seq<char>) -> int {
    if fp.len() >= 3 {
        spec_dec_val(fp.subrange(0, 3))
    } else {
        spec_dec_val(fp) * spec_frac_scale(fp.len() as int)
    }
}

/// The value of `s` as an unsigned plain decimal (one optional leading `'+'`,
/// at most one `'.'`, at least one digit), in milliseconds, when it fits 64
/// bits. Exponents are not part of what the probe prints.
pub open spec fn spec_parse_millis(s: Seq<char>) -> Option<u64> {
    let b = spec_unsigned(s);
    let k = spec_find(b, '.');
    let ip = b.subrange(0, k as int);
    let fp = if k >= b.len() {
        Seq::<char>::empty()
    } else {
        b.subrange(k + 1 as int, b.len() as int)
    };
    if ip.len() + fp.len() > 0 && spec_digits_only(ip) && spec_digits_only(fp) && spec_dec_val(ip)
        * 1000 + spec_frac_millis(fp) <= u64::MAX {
        Some((spec_dec_val(ip) * 1000 + spec_frac_millis(fp)) as u64)
    } else {
        None
    }
}

/// Whether `s` is decimal digits only (the empty string counts).
fn all_digits_str(s: &str) -> (r: bool)
    ensures
        r == spec_digits_only(s@),
{
    let n = s.unicode_len();
    let mut i: usize = 0;
    while i < n
        invariant
            0 <= i <= n,
            n == s@.len(),
            forall|j: int| 0 <= j < i ==> spec_is_digit(#[trigger] s@[j]),
        decreases n - i,
    {
        let v = s.get_char(i) as u32;
        if v < 48 || v > 57 {
            assert(!spec_is_digit(s@[i as int]));
            return false;
        }
        i = i + 1;
    }
    true
}

/// Ten to the `n`.
pub open spec fn spec_pow10(n: nat) -> int
    decreases n,
{
    if n == 0 {
        1
    } else {
        10 * spec_pow10((n - 1) as nat)
    }
}

proof fn lemma_dec_val_pow_bound(s: Seq<char>)
    requires
        forall|i: int| 0 <= i < s.len() ==> spec_is_digit(#[trigger] s[i]),
    ensures
        spec_dec_val(s) < spec_pow10(s.len()),
    decreases s.len(),
{
    if s.len() > 0 {
        lemma_dec_val_pow_bound(s.drop_last());
    }
}

proof fn lemma_dec_val_bound(s: Seq<char>)
    requires
        forall|i: int| 0 <= i < s.len() ==> spec_is_digit(#[trigger] s[i]),
        s.len() <= 3,
    ensures
        spec_dec_val(s) <= 999,
{
    lemma_dec_val_pow_bound(s);
    assert(spec_pow10(0) == 1);
    assert(spec_pow10(1) == 10);
    assert(spec_pow10(2) == 100);
    assert(spec_pow10(3) == 1000);
}

/// Parses an unsigned plain decimal into milliseconds.
pub fn parse_millis_str(s: &str) -> (r: Option<u64>)
    ensures
        r == spec_parse_millis(s@),
{
    let n = s.unicode_len();
    let start: usize = if n > 0 && s.get_char(0) == '+' {
        1
    } else {
        0
    };
    let body = s.substring_char(start, n);
    assert(body@ =~= spec_unsigned(s@));
    let bl = body.unicode_len();
    let k = find_char(body, '.');
    let ip = body.substring_char(0, k);
    assert(ip@ =~= body@.subrange(0, k as int));
    let fp = if k >= bl {
        let empty = "";
        proof {
            reveal_strlit("");
        }
        empty
    } else {
        body.substring_char(k + 1, bl)
    };
    assert(fp@ =~= if k >= body@.len() {
        Seq::<char>::empty()
    } else {
        body@.subrange(k + 1 as int, body@.len() as int)
    });
    let il = ip.unicode_len();
    let fl = fp.unicode_len();
    if il == 0 && fl == 0 {
        return None;
    }
    if !all_digits_str(fp) {
        return None;
    }
    let ghost fpv = spec_frac_millis(fp@);
    proof {
        if fp@.len() >= 3 {
            assert forall|i: int| 0 <= i < fp@.subrange(0, 3).len() implies spec_is_digit(
                #[trigger] fp@.subrange(0, 3)[i],
            ) by {
                assert(fp@.subrange(0, 3)[i] == fp@[i]);
            }
            lemma_dec_val_bound(fp@.subrange(0, 3));
            lemma_dec_val_nonneg(fp@.subrange(0, 3));
        } else {
            lemma_dec_val_nonneg(fp@);
            assert(spec_dec_val(fp@) * spec_frac_scale(fp@.len() as int) >= 0) by (nonlinear_arith)
                requires
                    spec_dec_val(fp@) >= 0,
                    spec_frac_scale(fp@.len() as int) >= 1,
            ;
        }
        assert(fpv >= 0);
    }
    match parse_digits(ip) {
        None => {
            proof {
                if spec_digits_only(ip@) {
                    assert(spec_dec_val(ip@) > u64::MAX);
                    assert(spec_dec_val(ip@) * 1000 >= spec_dec_val(ip@));
                }
            }
            None
        },
        Some(ipv) => {
            let frac: u64 = if fl >= 3 {
                let f3 = fp.substring_char(0, 3);
                assert(f3@ =~= fp@.subrange(0, 3));
                proof {
                    assert forall|i: int| 0 <= i < f3@.len() implies spec_is_digit(
                        #[trigger] f3@[i],
                    ) by {
                        assert(f3@[i] == fp@[i]);
                    }
                    lemma_dec_val_bound(f3@);
                    lemma_dec_val_nonneg(f3@);
                }
                match parse_digits(f3) {
                    Some(v) => v,
                    None => 0,
                }
            } else {
                let raw = match parse_digits(fp) {
                    Some(v) => v,
                    None => 0,
                };
                proof {
                    lemma_dec_val_bound(fp@);
                    lemma_dec_val_nonneg(fp@);
                }
                if fl == 0 {
                    raw * 1000
                } else if fl == 1 {
                    raw * 100
                } else {
                    raw * 10
                }
            };
            assert(frac == fpv);
            let wide: u128 = ipv as u128 * 1000 + frac as u128;
            if wide > u64::MAX as u128 {
                None
            } else {
                Some(wide as u64)
            }
        },
    }
}

/// The frame count a probe query reported: a positive integer, with an empty
/// or `N/A` value degrading to `None`.
pub open spec fn spec_probe_count(s: Seq<char>) -> Option<u64> {
    let t = spec_trim(s);
    if t.len() == 0 || t == "N/A"@ {
        None
    } else {
        match spec_parse_u64(t) {
            Some(v) => if v > 0 {
                Some(v)
            } else {
                None
            },
            None => None,
        }
    }
}

/// Whether `s` is the probe's not-available marker.
fn is_na(s: &str) -> (r: bool)
    ensures
        r == (s@ == "N/A"@),
{
    proof {
        reveal_strlit("N/A");
    }
    let n = s.unicode_len();
    if n != 3 {
        return false;
    }
    let r = s.get_char(0) == 'N' && s.get_char(1) == '/' && s.get_char(2) == 'A';
    if r {
        assert(s@ =~= "N/A"@);
    }
    r
}

/// Parses the stream frame count field of the probe's output.
pub fn ffprobe_nb_frames(value: &str) -> (r: Option<u64>)
    ensures
        r == spec_probe_count(value@),
{
    let t = trim_str(value);
    if t.unicode_len() == 0 || is_na(t) {
        return None;
    }
    match parse_u64_str(t) {
        Some(v) => if v > 0 {
            Some(v)
        } else {
            None
        },
        None => None,
    }
}

/// The container duration a probe query reported, in milliseconds: a positive
/// plain decimal, with an empty or `N/A` value degrading to `None`.
pub open spec fn spec_probe_duration(s: Seq<char>) -> Option<u64> {
    let t = spec_trim(s);
    if t.len() == 0 || t == "N/A"@ {
        None
    } else {
        match spec_parse_millis(t) {
            Some(v) => if v > 0 {
                Some(v)
            } else {
                None
            },
            None => None,
        }
    }
}

/// Parses the container duration field of the probe's output.
pub fn ffprobe_duration_millis(value: &str) -> (r: Option<u64>)
    ensures
        r == spec_probe_duration(value@),
{
    let t = trim_str(value);
    if t.unicode_len() == 0 || is_na(t) {
        return None;
    }
    match parse_millis_str(t) {
        Some(v) => if v > 0 {
            Some(v)
        } else {
            None
        },
        None => None,
    }
}

/// A frame rate string, `num/den` or a plain decimal, in thousandths of
/// frames per second (saturated to 64 bits; the quotient truncates).
pub open spec fn spec_rate_millis(s: Seq<char>) -> Option<u64> {
    let t = spec_trim(s);
    if t.len() == 0 {
        None
    } else {
        let k = spec_find(t, '/');
        if k < t.len() {
            let num = spec_trim(t.subrange(0, k as int));
            let den = spec_trim(t.subrange(k + 1 as int, t.len() as int));
            match (spec_parse_millis(num), spec_parse_millis(den)) {
                (Some(nv), Some(dv)) => if dv > 0 {
                    Some(spec_sat64(nv * 1000 / dv as int) as u64)
                } else {
                    None
                },
                _ => None,
            }
        } else {
            spec_parse_millis(t)
        }
    }
}

/// Parses a frame rate field, `num/den` or a plain decimal.
pub fn parse_rate_millis(s: &str) -> (r: Option<u64>)
    ensures
        r == spec_rate_millis(s@),
{
    let t = trim_str(s);
    let n = t.unicode_len();
    if n == 0 {
        return None;
    }
    let k = find_char(t, '/');
    if k < n {
        let num_part = t.substring_char(0, k);
        assert(num_part@ =~= t@.subrange(0, k as int));
        let den_part = t.substring_char(k + 1, n);
        assert(den_part@ =~= t@.subrange(k + 1 as int, t@.len() as int));
        let num = trim_str(num_part);
        let den = trim_str(den_part);
        let nv = match parse_millis_str(num) {
            Some(v) => v,
            None => {
                return None;
            },
        };
        let dv = match parse_millis_str(den) {
            Some(v) => v,
            None => {
                return None;
            },
        };
        if dv > 0 {
            let wide: u128 = nv as u128 * 1000 / dv as u128;
            if wide > u64::MAX as u128 {
                Some(u64::MAX)
            } else {
                Some(wide as u64)
            }
        } else {
            None
        }
    } else {
        parse_millis_str(t)
    }
}

/// The playback rate derived from the probe's third value line: a positive
/// parsed rate, saturated to 32 bits, or the 30 fps default.
pub open spec fn spec_video_fps(rest: Seq<char>) -> u32 {
    match spec_next_value(rest) {
        Some(p) => match spec_rate_millis(p.0) {
            Some(r) => if r > 0 {
                if r > u32::MAX {
                    u32::MAX
                } else {
                    r as u32
                }
            } else {
                DEFAULT_FPS_MILLIS
            },
            None => DEFAULT_FPS_MILLIS,
        },
        None => DEFAULT_FPS_MILLIS,
    }
}

/// What the probe's width/height/rate output describes: the stream geometry,
/// or the message naming the first field that is missing or unreadable.
pub open spec fn spec_video_info(s: Seq<char>) -> Result<VideoInfo, Seq<char>> {
    match spec_next_value(s) {
        None => Err("ffprobe output missing width"@),
        Some(wp) => match spec_parse_u64(wp.0) {
            None => Err("failed to parse width from ffprobe"@),
            Some(w) => if w > u32::MAX {
                Err("failed to parse width from ffprobe"@)
            } else {
                match spec_next_value(wp.1) {
                    None => Err("ffprobe output missing height"@),
                    Some(hp) => match spec_parse_u64(hp.0) {
                        None => Err("failed to parse height from ffprobe"@),
                        Some(h) => if h > u32::MAX {
                            Err("failed to parse height from ffprobe"@)
                        } else {
                            Ok(VideoInfo {
                                width: w as u32,
                                height: h as u32,
                                fps_millis: spec_video_fps(hp.1),
                            })
                        },
                    },
                }
            },
        },
    }
}

/// Parses the probe's geometry output: the first value line is the width, the
/// second the height, the third (optional) the frame rate. A missing or
/// unreadable dimension is an `Io` error; an unusable rate degrades to the 30
/// fps default.
pub fn parse_video_info(text: &str) -> (r: Result<VideoInfo, PipelineError>)
    ensures
        r is Ok <==> spec_video_info(text@) is Ok,
        r matches Ok(v) ==> spec_video_info(text@) == Ok::<VideoInfo, Seq<char>>(v),
        r matches Err(e) ==> (e matches PipelineError::Io(m) && spec_video_info(text@) matches Err(
            ms,
        ) && m@ == ms),
{
    proof {
        reveal_strlit("ffprobe output missing width");
        reveal_strlit("failed to parse width from ffprobe");
        reveal_strlit("ffprobe output missing height");
        reveal_strlit("failed to parse height from ffprobe");
    }
    let wp = match next_value(text) {
        None => {
            return Err(PipelineError::Io(String::from_str("ffprobe output missing width")));
        },
        Some(p) => p,
    };
    let width = match parse_u32_str(wp.0.as_str()) {
        None => {
            return Err(PipelineError::Io(String::from_str("failed to parse width from ffprobe")));
        },
        Some(w) => w,
    };
    let hp = match next_value(wp.1.as_str()) {
        None => {
            return Err(PipelineError::Io(String::from_str("ffprobe output missing height")));
        },
        Some(p) => p,
    };
    let height = match parse_u32_str(hp.0.as_str()) {
        None => {
            return Err(PipelineError::Io(String::from_str("failed to parse height from ffprobe")));
        },
        Some(h) => h,
    };
    let fps_millis = match next_value(hp.1.as_str()) {
        Some(rp) => {
            match parse_rate_millis(rp.0.as_str()) {
                Some(r) => {
                    if r > 0 {
                        if r > u32::MAX as u64 {
                            u32::MAX
                        } else {
                            r as u32
                        }
                    } else {
                        DEFAULT_FPS_MILLIS
                    }
                },
                None => DEFAULT_FPS_MILLIS,
            }
        },
        None => DEFAULT_FPS_MILLIS,
    };
    Ok(VideoInfo { width, height, fps_millis })
}

/// The frame total implied by a duration and a rate: the rounded product, or
/// `None` when it rounds to nothing.
pub open spec fn spec_estimate_total(duration_ms: u64, fps_millis: u32) -> Option<u64> {
    let t = spec_sat64((duration_ms * fps_millis + 500000) / 1000000);
    if t > 0 {
        Some(t as u64)
    } else {
        None
    }
}

/// Estimates a stream's frame count from its duration and rate, rounding to
/// the nearest frame.
pub fn estimate_total_frames(duration_ms: u64, fps_millis: u32) -> (r: Option<u64>)
    ensures
        r == spec_estimate_total(duration_ms, fps_millis),
{
    proof {
        assert(duration_ms as int * fps_millis as int <= u64::MAX as int * u32::MAX as int)
            by (nonlinear_arith)
            requires
                duration_ms <= u64::MAX,
                fps_millis <= u32::MAX,
        ;
    }
    let wide: u128 = (duration_ms as u128 * fps_millis as u128 + 500000) / 1000000;
    let t: u64 = if wide > u64::MAX as u128 {
        u64::MAX
    } else {
        wide as u64
    };
    if t > 0 {
        Some(t)
    } else {
        None
    }
}

/// The frame total the driver reports on: the probed stream count when the
/// container has one, else the duration-based estimate, else unknown.
pub fn total_frames_or_estimate(
    nb_frames: Option<u64>,
    duration_ms: Option<u64>,
    fps_millis: u32,
) -> (r: Option<u64>)
    ensures
        r == match nb_frames {
            Some(n) => Some(n),
            None => match duration_ms {
                Some(d) => spec_estimate_total(d, fps_millis),
                None => None::<u64>,
            },
        },
{
    match nb_frames {
        Some(n) => Some(n),
        None => match duration_ms {
            Some(d) => estimate_total_frames(d, fps_millis),
            None => None,
        },
    }
}

} // verus!
