//! User-facing configuration values and their validation.
//!
//! A hold range arrives as text shaped `min..max` or `min..=max`, where both
//! sides are decimal milliseconds and the minimum may not exceed the maximum.
//! [`HoldRange::parse`] validates that syntax for the command line.

use vstd::prelude::*;
use vstd::string::StringSliceAdditionalSpecFns;

verus! {

/// An inclusive hold range in milliseconds, as configured by the user.
#[derive(Clone, Copy, Debug, PartialEq, Eq, Structural)]
pub struct HoldRange {
    pub min_ms: u64,
    pub max_ms: u64,
}

/// Why a hold-range text was rejected.
#[derive(Clone, Copy, Debug, PartialEq, Eq, Structural)]
pub enum HoldRangeError {
    /// No `..` separator was found.
    MissingSeparator,
    /// The text before the separator is not a decimal that fits in 64 bits.
    InvalidMin,
    /// The text after the separator is not a decimal that fits in 64 bits.
    InvalidMax,
    /// Both bounds parsed, but the minimum exceeds the maximum.
    Inverted,
}

/// An ASCII whitespace byte: space or one of the five control characters
/// tab, line feed, vertical tab, form feed, carriage return.
pub open spec fn is_ws(b: u8) -> bool {
    b == 32 || 9 <= b <= 13
}

/// The byte text with its leading and trailing whitespace removed.
pub open spec fn ws_trimmed(s: Seq<u8>) -> Seq<u8>
    decreases s.len(),
{
    if s.len() > 0 && is_ws(s[0]) {
        ws_trimmed(s.skip(1))
    } else if s.len() > 0 && is_ws(s.last()) {
        ws_trimmed(s.drop_last())
    } else {
        s
    }
}

/// The two-byte separator `..` (byte 46 is the full stop).
pub open spec fn dots_sep() -> Seq<u8> {
    seq![46u8, 46u8]
}

/// The three-byte separator `..=` (byte 61 is the equals sign).
pub open spec fn dots_eq_sep() -> Seq<u8> {
    seq![46u8, 46u8, 61u8]
}

/// `pat` occurs in `s` at position `i`.
pub open spec fn match_at(s: Seq<u8>, pat: Seq<u8>, i: int) -> bool {
    &&& 0 <= i
    &&& i + pat.len() <= s.len()
    &&& s.subrange(i, i + pat.len()) == pat
}

/// `pat` occurs somewhere in `s`.
pub open spec fn contains_pat(s: Seq<u8>, pat: Seq<u8>) -> bool {
    exists|i: int| match_at(s, pat, i)
}

/// `i` is the leftmost position at which `pat` occurs in `s`.
pub open spec fn first_match_at(s: Seq<u8>, pat: Seq<u8>, i: int) -> bool {
    &&& match_at(s, pat, i)
    &&& forall|j: int| 0 <= j < i ==> !match_at(s, pat, j)
}

/// An ASCII decimal digit.
pub open spec fn is_digit(b: u8) -> bool {
    48 <= b <= 57
}

/// Every byte of `s` is a decimal digit.
pub open spec fn all_digits(s: Seq<u8>) -> bool {
    forall|i: int| 0 <= i < s.len() ==> is_digit(#[trigger] s[i])
}

/// The value of a digit string read in base ten.
pub open spec fn dec_val(s: Seq<u8>) -> int
    decreases s.len(),
{
    if s.len() == 0 {
        0
    } else {
        dec_val(s.drop_last()) * 10 + (s.last() - 48)
    }
}

/// The digits of an unsigned decimal text: everything after one optional
/// leading plus sign (byte 43).
pub open spec fn digits_part(s: Seq<u8>) -> Seq<u8> {
    if s.len() > 0 && s[0] == 43 {
        s.skip(1)
    } else {
        s
    }
}

/// The text denotes a 64-bit unsigned number: an optional plus sign, then at
/// least one digit and nothing else, with a value that fits.
pub open spec fn valid_u64_text(s: Seq<u8>) -> bool {
    &&& digits_part(s).len() > 0
    &&& all_digits(digits_part(s))
    &&& dec_val(digits_part(s)) <= u64::MAX
}

/// The number a valid text denotes.
pub open spec fn u64_text_val(s: Seq<u8>) -> int {
    dec_val(digits_part(s))
}

/// The bound text left of the separator: everything before the first `..=`
/// when one occurs, else everything before the first `..`.
pub open spec fn split_min(t: Seq<u8>) -> Seq<u8> {
    if contains_pat(t, dots_eq_sep()) {
        t.take(choose|i: int| first_match_at(t, dots_eq_sep(), i))
    } else {
        t.take(choose|i: int| first_match_at(t, dots_sep(), i))
    }
}

/// The bound text right of the separator chosen by [`split_min`].
pub open spec fn split_max(t: Seq<u8>) -> Seq<u8> {
    if contains_pat(t, dots_eq_sep()) {
        t.skip((choose|i: int| first_match_at(t, dots_eq_sep(), i)) + 3)
    } else {
        t.skip((choose|i: int| first_match_at(t, dots_sep(), i)) + 2)
    }
}

/// What parsing a hold-range text yields: after trimming whitespace, the
/// text splits at its first `..=`, or failing that its first `..`; both
/// sides must denote 64-bit values and the minimum may not exceed the
/// maximum. Each rejection names the first offending part.
pub open spec fn spec_parse_hold_range(s: Seq<u8>) -> Result<HoldRange, HoldRangeError> {
    let t = ws_trimmed(s);
    if !contains_pat(t, dots_sep()) {
        Err(HoldRangeError::MissingSeparator)
    } else {
        let a = split_min(t);
        let b = split_max(t);
        if !valid_u64_text(a) {
            Err(HoldRangeError::InvalidMin)
        } else if !valid_u64_text(b) {
            Err(HoldRangeError::InvalidMax)
        } else if u64_text_val(a) > u64_text_val(b) {
            Err(HoldRangeError::Inverted)
        } else {
            Ok(HoldRange { min_ms: u64_text_val(a) as u64, max_ms: u64_text_val(b) as u64 })
        }
    }
}

/// Two leftmost occurrences are the same occurrence.
proof fn lemma_first_match_unique(s: Seq<u8>, pat: Seq<u8>, i: int, j: int)
    requires
        first_match_at(s, pat, i),
        first_match_at(s, pat, j),
    ensures
        i == j,
{
    if i < j {
        assert(match_at(s, pat, i));
        assert(false);
    } else if j < i {
        assert(match_at(s, pat, j));
        assert(false);
    }
}

/// A digit string's value is never negative.
proof fn lemma_dec_val_nonneg(s: Seq<u8>)
    requires
        all_digits(s),
    ensures
        dec_val(s) >= 0,
    decreases s.len(),
{
    if s.len() > 0 {
        assert(all_digits(s.drop_last()));
        lemma_dec_val_nonneg(s.drop_last());
    }
}

/// Reading more digits never shrinks the value: any prefix of a digit
/// string denotes at most the whole string's value.
proof fn lemma_dec_val_take_le(s: Seq<u8>, i: int)
    requires
        0 <= i <= s.len(),
        all_digits(s),
    ensures
        dec_val(s.take(i)) <= dec_val(s),
    decreases s.len() - i,
{
    if i == s.len() {
        assert(s.take(i) =~= s);
    } else {
        assert(s.take(i + 1).drop_last() =~= s.take(i));
        assert(all_digits(s.take(i)));
        lemma_dec_val_nonneg(s.take(i));
        assert(dec_val(s.take(i + 1)) == dec_val(s.take(i)) * 10 + (s[i] - 48));
        lemma_dec_val_take_le(s, i + 1);
    }
}

/// Whether `pat` occurs in `t` starting exactly at `j`.
fn match_here(t: &[u8], pat: &[u8], j: usize) -> (b: bool)
    requires
        j + pat@.len() <= t@.len(),
    ensures
        b <==> match_at(t@, pat@, j as int),
{
    let n = t.len();
    let m = pat.len();
    let mut q: usize = 0;
    while q < m
        invariant
            q <= m,
            m == pat@.len(),
            n == t@.len(),
            j + m <= n,
            forall|u: int| 0 <= u < q ==> t@[j + u] == pat@[u],
        decreases m - q,
    {
        if t[j + q] != pat[q] {
            proof {
                if match_at(t@, pat@, j as int) {
                    assert(t@.subrange(j as int, j + m as int)[q as int] == pat@[q as int]);
                    assert(false);
                }
            }
            return false;
        }
        q = q + 1;
    }
    proof {
        assert(t@.subrange(j as int, j + m as int) =~= pat@);
    }
    true
}

/// The position of the leftmost occurrence of `pat` in `t`, if any.
fn find_first(t: &[u8], pat: &[u8]) -> (r: Option<usize>)
    requires
        pat@.len() >= 1,
    ensures
        r matches Some(i) ==> first_match_at(t@, pat@, i as int),
        r is None ==> !contains_pat(t@, pat@),
{
    let n = t.len();
    let m = pat.len();
    if m > n {
        return None;
    }
    let mut j: usize = 0;
    while j <= n - m
        invariant
            m >= 1,
            m <= n,
            j <= n - m + 1,
            n == t@.len(),
            m == pat@.len(),
            forall|k: int| 0 <= k < j ==> !match_at(t@, pat@, k),
        decreases n - j,
    {
        if match_here(t, pat, j) {
            return Some(j);
        }
        j = j + 1;
    }
    None
}

/// Parse the digits of an unsigned 64-bit decimal: `part` between `from` and
/// its end must be one or more digits whose value fits.
fn parse_digits(part: &[u8], from: usize) -> (r: Option<u64>)
    requires
        from <= part@.len(),
    ensures
        r is Some <==> part@.skip(from as int).len() > 0 && all_digits(part@.skip(from as int))
            && dec_val(part@.skip(from as int)) <= u64::MAX,
        r matches Some(v) ==> v == dec_val(part@.skip(from as int)),
{
    let ghost d = part@.skip(from as int);
    let n = part.len();
    if from == n {
        return None;
    }
    let mut acc: u64 = 0;
    let mut i: usize = from;
    while i < n
        invariant
            from <= i <= n,
            n == part@.len(),
            d == part@.skip(from as int),
            all_digits(d.take(i - from)),
            acc == dec_val(d.take(i - from)),
        decreases n - i,
    {
        let b = part[i];
        if b < 48 || b > 57 {
            proof {
                assert(d[i - from] == part@[i as int]);
                assert(!all_digits(d));
            }
            return None;
        }
        proof {
            assert(d.take(i - from + 1).drop_last() =~= d.take(i - from));
            assert(d.take(i - from + 1).last() == part@[i as int]);
        }
        let digit = (b - 48) as u64;
        let shifted = match acc.checked_mul(10) {
            Some(x) => x,
            None => {
                proof {
                    overflow_means_invalid(d, (i - from) as int);
                }
                return None;
            },
        };
        acc = match shifted.checked_add(digit) {
            Some(x) => x,
            None => {
                proof {
                    overflow_means_invalid(d, (i - from) as int);
                }
                return None;
            },
        };
        i = i + 1;
    }
    proof {
        assert(d.take(n - from) =~= d);
    }
    Some(acc)
}

/// When the accumulated value overflows at digit `i`, the whole digit string
/// cannot denote a 64-bit value.
proof fn overflow_means_invalid(d: Seq<u8>, i: int)
    requires
        0 <= i < d.len(),
        all_digits(d.take(i)),
        is_digit(d[i]),
        dec_val(d.take(i)) * 10 + (d[i] - 48) > u64::MAX,
    ensures
        !(all_digits(d) && dec_val(d) <= u64::MAX),
{
    if all_digits(d) {
        assert(d.take(i + 1).drop_last() =~= d.take(i));
        assert(dec_val(d.take(i + 1)) == dec_val(d.take(i)) * 10 + (d[i] - 48));
        lemma_dec_val_take_le(d, i + 1);
    }
}

/// Parse one bound of the range: an optional plus sign, then digits.
fn parse_u64_text(part: &[u8]) -> (r: Option<u64>)
    ensures
        r is Some <==> valid_u64_text(part@),
        r matches Some(v) ==> v == u64_text_val(part@),
{
    if part.len() > 0 && part[0] == 43 {
        proof {
            assert(digits_part(part@) =~= part@.skip(1));
        }
        parse_digits(part, 1)
    } else {
        proof {
            assert(digits_part(part@) =~= part@.skip(0));
        }
        parse_digits(part, 0)
    }
}

/// The bounds of `bytes` once leading and trailing whitespace is dropped:
/// the kept text is exactly the trimmed text.
fn trim_bounds(bytes: &[u8]) -> (r: (usize, usize))
    ensures
        r.0 <= r.1 <= bytes@.len(),
        bytes@.subrange(r.0 as int, r.1 as int) == ws_trimmed(bytes@),
{
    let n = bytes.len();
    let mut lo: usize = 0;
    let mut hi: usize = n;
    proof {
        assert(bytes@.subrange(0, n as int) =~= bytes@);
    }
    while lo < hi && is_ws_byte(bytes[lo])
        invariant
            lo <= hi <= n,
            n == bytes@.len(),
            ws_trimmed(bytes@.subrange(lo as int, hi as int)) == ws_trimmed(bytes@),
        decreases hi - lo,
    {
        proof {
            assert(bytes@.subrange(lo as int, hi as int).skip(1) =~= bytes@.subrange(
                lo + 1,
                hi as int,
            ));
        }
        lo = lo + 1;
    }
    while hi > lo && is_ws_byte(bytes[hi - 1])
        invariant
            lo <= hi <= n,
            n == bytes@.len(),
            ws_trimmed(bytes@.subrange(lo as int, hi as int)) == ws_trimmed(bytes@),
            lo < hi ==> !is_ws(bytes@[lo as int]),
        decreases hi,
    {
        proof {
            assert(bytes@.subrange(lo as int, hi as int).drop_last() =~= bytes@.subrange(
                lo as int,
                hi - 1,
            ));
        }
        hi = hi - 1;
    }
    (lo, hi)
}

/// Whether one byte is ASCII whitespace.
fn is_ws_byte(b: u8) -> (r: bool)
    ensures
        r == is_ws(b),
{
    b == 32 || (9 <= b && b <= 13)
}

impl HoldRange {
    /// Parse a hold range written `min..max` or `min..=max`, both bounds in
    /// milliseconds, ignoring surrounding whitespace. Exactly the texts that
    /// [`spec_parse_hold_range`] accepts are accepted, with its values; every
    /// other text draws the error it names.
    pub fn parse(s: &str) -> (r: Result<HoldRange, HoldRangeError>)
        ensures
            r == spec_parse_hold_range(s.spec_bytes()),
            r matches Ok(range) ==> range.min_ms <= range.max_ms,
    {
        let bytes = s.as_bytes();
        let (lo, hi) = trim_bounds(bytes);
        let t = vstd::slice::slice_subrange(bytes, lo, hi);
        let mut pat_eq: Vec<u8> = Vec::new();
        pat_eq.push(46);
        pat_eq.push(46);
        pat_eq.push(61);
        let mut pat_dots: Vec<u8> = Vec::new();
        pat_dots.push(46);
        pat_dots.push(46);
        proof {
            assert(pat_eq@ =~= dots_eq_sep());
            assert(pat_dots@ =~= dots_sep());
        }
        let (min_part, max_part): (&[u8], &[u8]) = match find_first(t, pat_eq.as_slice()) {
            Some(i) => {
                proof {
                    let c = choose|c: int| first_match_at(t@, dots_eq_sep(), c);
                    assert(contains_pat(t@, dots_eq_sep()));
                    lemma_first_match_unique(t@, dots_eq_sep(), i as int, c);
                    assert(t@.subrange(i as int, i + 3int) == dots_eq_sep());
                    assert(match_at(t@, dots_sep(), i as int)) by {
                        assert(t@.subrange(i as int, i + 2int) =~= dots_sep());
                    }
                    assert(contains_pat(t@, dots_sep()));
                    assert(t@.take(i as int) =~= t@.subrange(0, i as int));
                    assert(t@.skip(i + 3int) =~= t@.subrange(i + 3int, t@.len() as int));
                }
                (
                    vstd::slice::slice_subrange(t, 0, i),
                    vstd::slice::slice_subrange(t, i + 3, t.len()),
                )
            },
            None => {
                match find_first(t, pat_dots.as_slice()) {
                    Some(i) => {
                        proof {
                            let c = choose|c: int| first_match_at(t@, dots_sep(), c);
                            assert(contains_pat(t@, dots_sep()));
                            lemma_first_match_unique(t@, dots_sep(), i as int, c);
                            assert(t@.take(i as int) =~= t@.subrange(0, i as int));
                            assert(t@.skip(i + 2int) =~= t@.subrange(i + 2int, t@.len() as int));
                        }
                        (
                            vstd::slice::slice_subrange(t, 0, i),
                            vstd::slice::slice_subrange(t, i + 2, t.len()),
                        )
                    },
                    None => {
                        return Err(HoldRangeError::MissingSeparator);
                    },
                }
            },
        };
        let min_ms = match parse_u64_text(min_part) {
            Some(v) => v,
            None => {
                return Err(HoldRangeError::InvalidMin);
            },
        };
        let max_ms = match parse_u64_text(max_part) {
            Some(v) => v,
            None => {
                return Err(HoldRangeError::InvalidMax);
            },
        };
        if min_ms > max_ms {
            return Err(HoldRangeError::Inverted);
        }
        Ok(HoldRange { min_ms, max_ms })
    }
}

} // verus!
