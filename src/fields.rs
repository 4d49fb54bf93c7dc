//! Parsing of the decimal text fields that a form hands over.
use vstd::prelude::*;
use vstd::string::StrSliceExecFns;

verus! {

pub open spec fn is_digit(c: char) -> bool {
    48 <= (c as u32) <= 57
}

pub open spec fn all_digits(s: Seq<char>) -> bool {
    forall|i: int| 0 <= i < s.len() ==> is_digit(#[trigger] s[i])
}

pub open spec fn digit_value(c: char) -> int {
    (c as u32) - 48
}

/// The number that a run of decimal digits denotes.
pub open spec fn digits_value(s: Seq<char>) -> int
    decreases s.len(),
{
    if s.len() == 0 {
        0
    } else {
        digits_value(s.drop_last()) * 10 + digit_value(s.last())
    }
}

/// A whole number written as one or more digits, if it is at most `cap`.
pub open spec fn spec_digits_whole(s: Seq<char>, cap: u32) -> Option<u32> {
    if s.len() > 0 && all_digits(s) && digits_value(s) <= cap {
        Some(digits_value(s) as u32)
    } else {
        None
    }
}

/// `s` without one leading '+', if it has one.
pub open spec fn without_plus(s: Seq<char>) -> Seq<char> {
    if s.len() > 0 && s[0] == '+' {
        s.subrange(1, s.len() as int)
    } else {
        s
    }
}

/// A whole number: an optional '+' and one or more digits, at most `cap`.
pub open spec fn spec_parse_whole(s: Seq<char>, cap: u32) -> Option<u32> {
    spec_digits_whole(without_plus(s), cap)
}

proof fn lemma_digits_nonneg(t: Seq<char>)
    requires
        all_digits(t),
    ensures
        digits_value(t) >= 0,
    decreases t.len(),
{
    if t.len() > 0 {
        assert(all_digits(t.drop_last())) by {
            assert forall|i: int| 0 <= i < t.drop_last().len() implies is_digit(
                #[trigger] t.drop_last()[i],
            ) by {
                assert(t.drop_last()[i] == t[i]);
            }
        }
        lemma_digits_nonneg(t.drop_last());
        assert(is_digit(t[t.len() - 1]));
    }
}

proof fn lemma_digits_prefix_le(t: Seq<char>, j: int)
    requires
        all_digits(t),
        0 <= j <= t.len(),
    ensures
        digits_value(t.subrange(0, j)) <= digits_value(t),
    decreases t.len() - j,
{
    if j == t.len() {
        assert(t.subrange(0, j) =~= t);
    } else {
        lemma_digits_prefix_le(t, j + 1);
        let a = t.subrange(0, j + 1);
        assert(a.drop_last() =~= t.subrange(0, j));
        assert(is_digit(t[j]));
        assert(all_digits(t.subrange(0, j))) by {
            assert forall|i: int| 0 <= i < j implies is_digit(#[trigger] t.subrange(0, j)[i]) by {
                assert(t.subrange(0, j)[i] == t[i]);
            }
        }
        lemma_digits_nonneg(t.subrange(0, j));
    }
}

/// Whether every character of `s` from `lo` up to `hi` is a digit.
fn digits_between(s: &str, lo: usize, hi: usize) -> (r: bool)
    requires
        lo <= hi <= s@.len(),
    ensures
        r == all_digits(s@.subrange(lo as int, hi as int)),
{
    let mut i: usize = lo;
    while i < hi
        invariant
            lo <= i <= hi <= s@.len(),
            forall|j: int| lo <= j < i ==> is_digit(#[trigger] s@[j]),
        decreases hi - i,
    {
        let c = s.get_char(i);
        if !((c as u32) >= 48 && (c as u32) <= 57) {
            assert(s@.subrange(lo as int, hi as int)[i - lo] == c);
            return false;
        }
        i += 1;
    }
    assert forall|j: int| 0 <= j < hi - lo implies is_digit(
        #[trigger] s@.subrange(lo as int, hi as int)[j],
    ) by {
        assert(s@.subrange(lo as int, hi as int)[j] == s@[lo + j]);
    }
    true
}

/// The value of the digits of `s` from `lo` up to `hi`, if at most `cap`.
fn digits_capped(s: &str, lo: usize, hi: usize, cap: u32) -> (r: Option<u32>)
    requires
        lo <= hi <= s@.len(),
        all_digits(s@.subrange(lo as int, hi as int)),
    ensures
        match r {
            Some(v) => v == digits_value(s@.subrange(lo as int, hi as int)) && v <= cap,
            None => digits_value(s@.subrange(lo as int, hi as int)) > cap,
        },
{
    let ghost t = s@.subrange(lo as int, hi as int);
    let mut v: u64 = 0;
    let mut i: usize = lo;
    while i < hi
        invariant
            lo <= i <= hi <= s@.len(),
            t == s@.subrange(lo as int, hi as int),
            all_digits(t),
            v == digits_value(t.subrange(0, i - lo)),
            v <= cap,
        decreases hi - i,
    {
        let c = s.get_char(i);
        proof {
            assert(t[i - lo] == c);
            assert(is_digit(t[i - lo]));
            assert(t.subrange(0, i - lo + 1).drop_last() =~= t.subrange(0, i - lo));
        }
        v = v * 10 + (c as u32 - 48) as u64;
        if v > cap as u64 {
            proof {
                lemma_digits_prefix_le(t, i - lo + 1);
            }
            return None;
        }
        i += 1;
    }
    proof {
        assert(t.subrange(0, hi - lo) =~= t);
    }
    Some(v as u32)
}

/// Parses a whole number written in digits alone, if it is at most `cap`.
fn digits_whole(s: &str, cap: u32) -> (r: Option<u32>)
    ensures
        r == spec_digits_whole(s@, cap),
{
    let n: usize = s.unicode_len();
    proof {
        assert(s@.subrange(0, n as int) =~= s@);
    }
    if n == 0 || !digits_between(s, 0, n) {
        return None;
    }
    digits_capped(s, 0, n, cap)
}

/// The digit at position `i` of `s`, as a number.
fn digit_at(s: &str, i: usize) -> (d: u32)
    requires
        i < s@.len(),
        is_digit(s@[i as int]),
    ensures
        d == digit_value(s@[i as int]),
{
    let c = s.get_char(i);
    c as u32 - 48
}


/// `s` without one leading '+', if it has one.
fn unsigned_part<'a>(s: &'a str) -> (r: &'a str)
    ensures
        r@ == without_plus(s@),
{
    let n: usize = s.unicode_len();
    if n > 0 && s.get_char(0) == '+' {
        s.substring_char(1, n)
    } else {
        s
    }
}

/// Parses a whole number, an optional '+' and one or more digits (as `u8`
/// and `u32` read one), if it is at most `cap`. A '-' is refused: the result
/// is unsigned.
pub fn parse_whole(s: &str, cap: u32) -> (r: Option<u32>)
    ensures
        r == spec_parse_whole(s@, cap),
{
    digits_whole(unsigned_part(s), cap)
}


/// Largest magnitude of exponent that a decimal may carry.
pub const MAX_EXPONENT: u32 = 1_000_000;

pub open spec fn is_exp_mark(c: char) -> bool {
    c == 'e' || c == 'E'
}

/// Index of the first exponent mark of `s` from `i` up to `hi`, else `hi`.
pub open spec fn first_exp_in(s: Seq<char>, i: int, hi: int) -> int
    decreases hi - i,
{
    if i >= hi {
        hi
    } else if is_exp_mark(s[i]) {
        i
    } else {
        first_exp_in(s, i + 1, hi)
    }
}

/// Index of the first '.' of `s` from `i` up to `hi`, else `hi`.
pub open spec fn first_point_in(s: Seq<char>, i: int, hi: int) -> int
    decreases hi - i,
{
    if i >= hi {
        hi
    } else if s[i] == '.' {
        i
    } else {
        first_point_in(s, i + 1, hi)
    }
}

/// 1 if `s` has a '+' or '-' at `i`, else 0.
pub open spec fn sign_width(s: Seq<char>, i: int) -> int {
    if 0 <= i < s.len() && (s[i] == '+' || s[i] == '-') {
        1
    } else {
        0
    }
}

/// The digits left of the decimal point once the point, first standing
/// before `d`, has moved `n` places to the right: the first `n` digits of
/// `d`, padded with zeros (none when `n <= 0`).
pub open spec fn shifted_digits(d: Seq<char>, n: int) -> Seq<char> {
    Seq::new(if n > 0 { n as nat } else { 0 }, |i: int| if i < d.len() { d[i] } else { '0' })
}

/// A decimal number in thousandths, truncated toward zero: an optional sign,
/// digits with an optional point (at least one digit in all), and an optional
/// exponent ('e' or 'E', an optional sign, digits, at most `MAX_EXPONENT`).
/// `None` for other text and for a value beyond `i64`.
pub open spec fn spec_parse_thousandths(s: Seq<char>) -> Option<i64> {
    let b = sign_width(s, 0);
    let e = first_exp_in(s, b, s.len() as int);
    let q = first_point_in(s, b, e);
    let whole = s.subrange(b, q);
    let frac = if q < e { s.subrange(q + 1, e) } else { Seq::<char>::empty() };
    let xb = e + 1 + sign_width(s, e + 1);
    let exp_digits = s.subrange(xb, s.len() as int);
    let mantissa_ok = all_digits(whole) && all_digits(frac) && whole.len() + frac.len() >= 1;
    let exp_ok = e == s.len() || (xb < s.len() && all_digits(exp_digits) && digits_value(exp_digits)
        <= MAX_EXPONENT);
    let exp = if e == s.len() {
        0
    } else if sign_width(s, e + 1) == 1 && s[e + 1] == '-' {
        -digits_value(exp_digits)
    } else {
        digits_value(exp_digits)
    };
    let magnitude = digits_value(shifted_digits(whole + frac, whole.len() + 3 + exp));
    if mantissa_ok && exp_ok && magnitude <= i64::MAX {
        Some(
            (if sign_width(s, 0) == 1 && s[0] == '-' {
                -magnitude
            } else {
                magnitude
            }) as i64,
        )
    } else {
        None
    }
}

fn sign_width_at(s: &str, i: usize, n: usize) -> (w: usize)
    requires
        n == s@.len(),
    ensures
        w == sign_width(s@, i as int),
{
    if i < n {
        let c = s.get_char(i);
        if c == '+' || c == '-' {
            1
        } else {
            0
        }
    } else {
        0
    }
}

fn find_exp(s: &str, lo: usize, hi: usize) -> (k: usize)
    requires
        lo <= hi <= s@.len(),
    ensures
        k == first_exp_in(s@, lo as int, hi as int),
        lo <= k <= hi,
{
    let mut k: usize = lo;
    while k < hi
        invariant
            lo <= k <= hi <= s@.len(),
            first_exp_in(s@, lo as int, hi as int) == first_exp_in(s@, k as int, hi as int),
        decreases hi - k,
    {
        let c = s.get_char(k);
        if c == 'e' || c == 'E' {
            return k;
        }
        k += 1;
    }
    k
}

fn find_point(s: &str, lo: usize, hi: usize) -> (k: usize)
    requires
        lo <= hi <= s@.len(),
    ensures
        k == first_point_in(s@, lo as int, hi as int),
        lo <= k <= hi,
{
    let mut k: usize = lo;
    while k < hi
        invariant
            lo <= k <= hi <= s@.len(),
            first_point_in(s@, lo as int, hi as int) == first_point_in(s@, k as int, hi as int),
        decreases hi - k,
    {
        if s.get_char(k) == '.' {
            return k;
        }
        k += 1;
    }
    k
}

/// Parses a decimal number into thousandths of its unit, truncated toward
/// zero: an optional '+' or '-', digits with an optional point (at least one
/// digit in all, as in "7", "7.", ".5", "-150.25"), and an optional exponent
/// ("1e2", "2.5E-1", with at most `MAX_EXPONENT` in magnitude). `None` for
/// any other text (among it "inf" and "NaN", which are no finite value) and
/// for a value beyond `i64`.
pub fn parse_thousandths(s: &str) -> (r: Option<i64>)
    ensures
        r == spec_parse_thousandths(s@),
{
    let n: usize = s.unicode_len();
    let b: usize = sign_width_at(s, 0, n);
    let e: usize = find_exp(s, b, n);
    let q: usize = find_point(s, b, e);
    let fl: usize = if q < e { q + 1 } else { e };
    let ghost sv = s@;
    let ghost whole = sv.subrange(b as int, q as int);
    let ghost frac = if q < e { sv.subrange(q + 1, e as int) } else { Seq::<char>::empty() };
    proof {
        assert(frac =~= sv.subrange(fl as int, e as int));
    }
    if !digits_between(s, b, q) || !digits_between(s, fl, e) || (q - b) + (e - fl) == 0 {
        return None;
    }
    let mut exp: i64 = 0;
    if e < n {
        let xb: usize = e + 1 + sign_width_at(s, e + 1, n);
        if xb >= n || !digits_between(s, xb, n) {
            return None;
        }
        let x: u32 = match digits_capped(s, xb, n, MAX_EXPONENT) {
            Some(x) => x,
            None => return None,
        };
        exp = if s.get_char(e + 1) == '-' {
            -(x as i64)
        } else {
            x as i64
        };
    }
    let ghost xb_s = e + 1 + sign_width(sv, e + 1);
    let ghost spec_exp = if e == n {
        0
    } else if sign_width(sv, e + 1) == 1 && sv[e + 1] == '-' {
        -digits_value(sv.subrange(xb_s, n as int))
    } else {
        digits_value(sv.subrange(xb_s, n as int))
    };
    assert(exp == spec_exp);
    let il: usize = q - b;
    let dl: usize = il + (e - fl);
    let shift: i128 = il as i128 + 3 + exp as i128;
    let ghost d = whole + frac;
    let ghost t = shifted_digits(d, shift as int);
    proof {
        assert forall|j: int| 0 <= j < t.len() implies is_digit(#[trigger] t[j]) by {
            if j < d.len() {
                if j < whole.len() {
                    assert(d[j] == whole[j]);
                } else {
                    assert(d[j] == frac[j - whole.len()]);
                }
            }
        }
    }
    let mut v: u128 = 0;
    let mut i: i128 = 0;
    while i < shift
        invariant
            sv == s@,
            0 <= i,
            shift > 0 ==> i <= shift,
            shift <= 0 ==> i == 0,
            il == whole.len(),
            dl == d.len(),
            d == whole + frac,
            whole == sv.subrange(b as int, q as int),
            frac == sv.subrange(fl as int, e as int),
            b <= q <= e <= n == sv.len(),
            fl <= e,
            all_digits(whole),
            all_digits(frac),
            all_digits(t),
            t == shifted_digits(d, shift as int),
            shift == whole.len() + 3 + spec_exp,
            b == sign_width(sv, 0),
            e == first_exp_in(sv, b as int, n as int),
            q == first_point_in(sv, b as int, e as int),
            frac == (if q < e { sv.subrange(q + 1, e as int) } else { Seq::<char>::empty() }),
            xb_s == e + 1 + sign_width(sv, e + 1),
            spec_exp == (if e == n {
                0
            } else if sign_width(sv, e + 1) == 1 && sv[e + 1] == '-' {
                -digits_value(sv.subrange(xb_s, n as int))
            } else {
                digits_value(sv.subrange(xb_s, n as int))
            }),
            v == digits_value(t.subrange(0, i as int)),
            v <= i64::MAX,
        decreases shift - i,
    {
        let ghost ii = i as int;
        let dig: u32 = if i < il as i128 {
            assert(whole[ii] == sv[b + ii]);
            assert(is_digit(whole[ii]));
            digit_at(s, b + i as usize)
        } else if i < dl as i128 {
            assert(frac[ii - il] == sv[fl + ii - il]);
            assert(is_digit(frac[ii - il]));
            digit_at(s, fl + (i as usize - il))
        } else {
            0
        };
        proof {
            assert(t[ii] == (if ii < d.len() { d[ii] } else { '0' }));
            if ii < il {
                assert(d[ii] == whole[ii]);
            } else if ii < dl {
                assert(d[ii] == frac[ii - il]);
            }
            assert(dig == digit_value(t[ii]));
            assert(t.subrange(0, ii + 1).drop_last() =~= t.subrange(0, ii));
        }
        v = v * 10 + dig as u128;
        if v > i64::MAX as u128 {
            proof {
                lemma_digits_prefix_le(t, ii + 1);
                assert(t.subrange(0, t.len() as int) =~= t);
                assert(digits_value(t) > i64::MAX);
                assert(t == shifted_digits(whole + frac, whole.len() + 3 + spec_exp));
            }
            return None;
        }
        i += 1;
    }
    proof {
        assert(t.subrange(0, i as int) =~= t);
    }
    let magnitude: i64 = v as i64;
    if b == 1 && s.get_char(0) == '-' {
        Some(-magnitude)
    } else {
        Some(magnitude)
    }
}

} // verus!
