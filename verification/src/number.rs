//! Numbers in field values: decimal integers and the shape of
//! floating-point literals.

use vstd::prelude::*;
use vstd::string::StringSliceAdditionalSpecFns;

verus! {

/// Why a decimal integer could not be read, in the terms the standard
/// library uses for `isize::from_str`.
#[derive(Clone, Copy, Debug, PartialEq, Eq, Structural)]
pub enum IntError {
    /// The text is empty.
    Empty,
    /// The text holds a byte that is not a digit where a digit is needed.
    InvalidDigit,
    /// The value is above `isize::MAX`.
    PosOverflow,
    /// The value is below `isize::MIN`.
    NegOverflow,
}

/// Whether `b` is an ASCII decimal digit.
pub open spec fn is_digit(b: u8) -> bool {
    48 <= b <= 57
}

/// Whether `b` is `+` or `-`.
pub open spec fn is_sign(b: u8) -> bool {
    b == 43 || b == 45
}

/// The largest magnitude that an `isize` of the given sign can hold.
pub open spec fn magnitude_limit(negative: bool) -> int {
    if negative {
        isize::MAX + 1
    } else {
        isize::MAX as int
    }
}

/// The magnitude that the digits `d` denote, read from left to right as the
/// standard library reads them: the first byte that is not a digit, or the
/// first digit at which the magnitude passes the limit for the sign, decides
/// the error.
pub open spec fn read_magnitude(d: Seq<u8>, negative: bool) -> Result<int, IntError>
    decreases d.len(),
{
    if d.len() == 0 {
        Ok(0)
    } else {
        match read_magnitude(d.drop_last(), negative) {
            Err(e) => Err(e),
            Ok(v) => if !is_digit(d.last()) {
                Err(IntError::InvalidDigit)
            } else if v * 10 + (d.last() - 48) > magnitude_limit(negative) {
                if negative {
                    Err(IntError::NegOverflow)
                } else {
                    Err(IntError::PosOverflow)
                }
            } else {
                Ok(v * 10 + (d.last() - 48))
            },
        }
    }
}

/// The outcome of reading the text `s` as an `isize`: an optional sign,
/// then at least one decimal digit, and the value in range.
pub open spec fn parse_isize(s: Seq<u8>) -> Result<isize, IntError> {
    if s.len() == 0 {
        Err(IntError::Empty)
    } else {
        let negative = s[0] == 45;
        let digits = if is_sign(s[0]) { s.drop_first() } else { s };
        if is_sign(s[0]) && digits.len() == 0 {
            Err(IntError::InvalidDigit)
        } else {
            match read_magnitude(digits, negative) {
                Err(e) => Err(e),
                Ok(m) => Ok((if negative { -m } else { m }) as isize),
            }
        }
    }
}

proof fn lemma_read_magnitude_bounds(d: Seq<u8>, negative: bool)
    ensures
        read_magnitude(d, negative) matches Ok(m) ==> 0 <= m <= magnitude_limit(negative),
    decreases d.len(),
{
    if d.len() > 0 {
        lemma_read_magnitude_bounds(d.drop_last(), negative);
    }
}

/// Reads `value` as a decimal `isize`, as `str::parse::<isize>` does.
pub fn as_int(value: &str) -> (r: Result<isize, IntError>)
    ensures
        r == parse_isize(value.spec_bytes()),
{
    let s = value.as_bytes();
    let ghost bytes = s@;
    if s.len() == 0 {
        return Err(IntError::Empty);
    }
    let negative = s[0] == 45;
    let signed = s[0] == 43 || s[0] == 45;
    let start: usize = if signed { 1 } else { 0 };
    let ghost digits = if signed { bytes.drop_first() } else { bytes };
    if signed && s.len() == 1 {
        return Err(IntError::InvalidDigit);
    }
    let limit: i128 = if negative { isize::MAX as i128 + 1 } else { isize::MAX as i128 };
    let mut magnitude: i128 = 0;
    assert(digits.take(0) =~= Seq::<u8>::empty());
    let mut i: usize = start;
    while i < s.len()
        invariant
            s@ == bytes,
            bytes == value.spec_bytes(),
            bytes.len() > 0,
            negative == (bytes[0] == 45),
            signed == is_sign(bytes[0]),
            signed ==> digits.len() > 0,
            0 <= magnitude <= limit,
            start <= i <= s.len(),
            start == (if signed { 1int } else { 0int }),
            digits == bytes.skip(start as int),
            limit == magnitude_limit(negative),
            read_magnitude(digits.take(i - start), negative) == Ok::<int, IntError>(magnitude as int),
        decreases s.len() - i,
    {
        proof {
            lemma_read_magnitude_bounds(digits.take(i - start), negative);
            assert(digits.take(i + 1 - start).drop_last() =~= digits.take(i - start));
        }
        let b = s[i];
        assert(digits.take(i + 1 - start).last() == b);
        if b < 48 || b > 57 {
            proof {
                assert(read_magnitude(digits.take(i + 1 - start), negative) == Err::<int, IntError>(IntError::InvalidDigit));
                lemma_read_magnitude_prefix_error(digits, (i + 1 - start) as nat, negative);
                assert(read_magnitude(digits, negative) == Err::<int, IntError>(IntError::InvalidDigit));
                assert(digits == (if is_sign(bytes[0]) { bytes.drop_first() } else { bytes }));
            }
            return Err(IntError::InvalidDigit);
        }
        let next = magnitude * 10 + (b - 48) as i128;
        if next > limit {
            proof {
                assert(read_magnitude(digits.take(i + 1 - start), negative) is Err);
                lemma_read_magnitude_prefix_error(digits, (i + 1 - start) as nat, negative);
                assert(digits == (if is_sign(bytes[0]) { bytes.drop_first() } else { bytes }));
            }
            return if negative {
                Err(IntError::NegOverflow)
            } else {
                Err(IntError::PosOverflow)
            };
        }
        magnitude = next;
        i += 1;
    }
    assert(digits.take(i - start) =~= digits);
    if negative {
        Ok((-magnitude) as isize)
    } else {
        Ok(magnitude as isize)
    }
}

/// Once reading a prefix of the digits fails, reading all of them fails the
/// same way.
proof fn lemma_read_magnitude_prefix_error(d: Seq<u8>, k: nat, negative: bool)
    requires
        k <= d.len(),
        read_magnitude(d.take(k as int), negative) is Err,
    ensures
        read_magnitude(d, negative) == read_magnitude(d.take(k as int), negative),
    decreases d.len() - k,
{
    if k < d.len() {
        assert(d.take(k + 1 as int).drop_last() =~= d.take(k as int));
        lemma_read_magnitude_prefix_error(d, k + 1, negative);
    } else {
        assert(d.take(k as int) =~= d);
    }
}

/// `b` with ASCII capitals made small.
pub open spec fn ascii_lower(b: u8) -> u8 {
    if 65 <= b <= 90 {
        (b + 32) as u8
    } else {
        b
    }
}

/// `s` with ASCII capitals made small.
pub open spec fn lowered(s: Seq<u8>) -> Seq<u8> {
    s.map_values(|b: u8| ascii_lower(b))
}

/// Digits with at most one decimal point and at least one digit: the part of
/// a number before its exponent.
pub open spec fn is_mantissa(m: Seq<u8>) -> bool {
    &&& forall|i: int| 0 <= i < m.len() ==> is_digit(#[trigger] m[i]) || m[i] == 46
    &&& forall|i: int, j: int|
        0 <= i < m.len() && 0 <= j < m.len() && #[trigger] m[i] == 46 && #[trigger] m[j] == 46
            ==> i == j
    &&& exists|i: int| 0 <= i < m.len() && is_digit(#[trigger] m[i])
}

/// `s` without its leading sign, if it has one.
pub open spec fn unsigned_part(s: Seq<u8>) -> Seq<u8> {
    if s.len() > 0 && is_sign(s[0]) {
        s.drop_first()
    } else {
        s
    }
}

/// At least one byte, and digits only.
pub open spec fn is_digits(d: Seq<u8>) -> bool {
    &&& d.len() > 0
    &&& forall|i: int| 0 <= i < d.len() ==> is_digit(#[trigger] d[i])
}

/// An optional sign followed by at least one digit: what follows the `e` of
/// an exponent.
pub open spec fn is_exponent(e: Seq<u8>) -> bool {
    is_digits(unsigned_part(e))
}

/// A mantissa, optionally followed by `e` or `E` and an exponent.
pub open spec fn is_number(n: Seq<u8>) -> bool {
    ||| is_mantissa(n)
    ||| exists|k: int|
        0 <= k < n.len() && ascii_lower(#[trigger] n[k]) == 101 && is_mantissa(n.take(k))
            && is_exponent(n.skip(k + 1))
}

/// `inf`, `infinity` or `nan`, in any mix of cases.
pub open spec fn is_special_value(n: Seq<u8>) -> bool {
    ||| lowered(n) == seq![105u8, 110u8, 102u8]
    ||| lowered(n) == seq![105u8, 110u8, 102u8, 105u8, 110u8, 105u8, 116u8, 121u8]
    ||| lowered(n) == seq![110u8, 97u8, 110u8]
}

/// Whether `s` is a floating-point literal in the grammar that the standard
/// library documents for `f32::from_str`: an optional sign, then `inf`,
/// `infinity`, `nan` or a number.
pub open spec fn is_float_literal(s: Seq<u8>) -> bool {
    is_special_value(unsigned_part(s)) || is_number(unsigned_part(s))
}

fn lower(b: u8) -> (r: u8)
    ensures
        r == ascii_lower(b),
{
    if 65 <= b && b <= 90 {
        b + 32
    } else {
        b
    }
}

proof fn lemma_three_letters(body: Seq<u8>, a: u8, b: u8, c: u8)
    requires
        lowered(body).len() == 3,
        lowered(body)[0] == a,
        lowered(body)[1] == b,
        lowered(body)[2] == c,
        !(a == 105 && b == 110 && c == 102),
        !(a == 110 && b == 97 && c == 110),
    ensures
        !is_special_value(body),
{
    let w = lowered(body);
    if w == seq![105u8, 110u8, 102u8] {
        assert(w[0] == 105 && w[1] == 110 && w[2] == 102);
    }
    if w == seq![110u8, 97u8, 110u8] {
        assert(w[0] == 110 && w[1] == 97 && w[2] == 110);
    }
    assert(w.len() != seq![105u8, 110u8, 102u8, 105u8, 110u8, 105u8, 116u8, 121u8].len());
}

/// Whether `s[start..]` is one of the special values.
fn special_value_from(s: &[u8], start: usize) -> (r: bool)
    requires
        start <= s.len(),
    ensures
        r == is_special_value(s@.skip(start as int)),
{
    let ghost body = s@.skip(start as int);
    let n = s.len() - start;
    if n == 3 {
        let (a, b, c) = (lower(s[start]), lower(s[start + 1]), lower(s[start + 2]));
        assert(lowered(body).len() == 3);
        assert(lowered(body)[0] == a && lowered(body)[1] == b && lowered(body)[2] == c);
        if a == 105 && b == 110 && c == 102 {
            assert(lowered(body) =~= seq![105u8, 110u8, 102u8]);
            true
        } else if a == 110 && b == 97 && c == 110 {
            assert(lowered(body) =~= seq![110u8, 97u8, 110u8]);
            true
        } else {
            proof {
                lemma_three_letters(body, a, b, c);
            }
            false
        }
    } else if n == 8 {
        let word: [u8; 8] = [105, 110, 102, 105, 110, 105, 116, 121];
        let ghost target = seq![105u8, 110u8, 102u8, 105u8, 110u8, 105u8, 116u8, 121u8];
        assert(word@ =~= target);
        let mut i: usize = 0;
        while i < 8
            invariant
                i <= 8,
                n == 8,
                start + 8 == s.len(),
                body == s@.skip(start as int),
                word@ == target,
                target == seq![105u8, 110u8, 102u8, 105u8, 110u8, 105u8, 116u8, 121u8],
                forall|j: int| 0 <= j < i ==> lowered(body)[j] == target[j],
            decreases 8 - i,
        {
            if lower(s[start + i]) != word[i] {
                assert(body.len() == 8);
                assert(lowered(body).len() == 8);
                assert(lowered(body)[i as int] == ascii_lower(s@[start + i]));
                assert(lowered(body)[i as int] != target[i as int]);
                assert(lowered(body) != target);
                assert(lowered(body).len() == 8);
                assert(seq![105u8, 110u8, 102u8].len() == 3);
                assert(seq![110u8, 97u8, 110u8].len() == 3);
                assert(!is_special_value(body));
                return false;
            }
            i += 1;
        }
        assert(lowered(body) =~= target);
        true
    } else {
        assert(lowered(body).len() == n);
        false
    }
}

/// Whether `s[start..]` is an exponent: an optional sign, then digits only,
/// at least one.
fn exponent_from(s: &[u8], start: usize) -> (r: bool)
    requires
        start <= s.len(),
    ensures
        r == is_exponent(s@.skip(start as int)),
{
    let ghost e = s@.skip(start as int);
    let mut i = start;
    if i < s.len() && (s[i] == 43 || s[i] == 45) {
        i += 1;
    }
    let ghost d = unsigned_part(e);
    assert(d =~= s@.skip(i as int));
    if i == s.len() {
        return false;
    }
    let first = i;
    while i < s.len()
        invariant
            first <= i <= s.len(),
            first < s.len(),
            d == s@.skip(first as int),
            d == unsigned_part(e),
            e == s@.skip(start as int),
            forall|j: int| first <= j < i ==> is_digit(#[trigger] s@[j]),
        decreases s.len() - i,
    {
        if s[i] < 48 || s[i] > 57 {
            assert(d.len() == s.len() - first);
            assert(unsigned_part(e) == d);
            assert(d[i - first] == s@[i as int]);
            assert(!is_digit(d[i - first]));
            assert(!is_exponent(e));
            return false;
        }
        i += 1;
    }
    assert forall|j: int| 0 <= j < d.len() implies is_digit(#[trigger] d[j]) by {
        assert(d[j] == s@[first + j]);
    }
    true
}

/// Whether `s` is a floating-point literal, by the grammar of
/// `f32::from_str`; the library keeps such text and leaves the number to the
/// caller.
pub fn float_literal(s: &[u8]) -> (r: bool)
    ensures
        r == is_float_literal(s@),
{
    let start: usize = if s.len() > 0 && (s[0] == 43 || s[0] == 45) { 1 } else { 0 };
    let ghost body = s@.skip(start as int);
    assert(body =~= unsigned_part(s@));
    if special_value_from(s, start) {
        return true;
    }
    number_from(s, start)
}

/// Whether `s[start..]` is a number.
fn number_from(s: &[u8], start: usize) -> (r: bool)
    requires
        start <= s.len(),
    ensures
        r == is_number(s@.skip(start as int)),
{
    let ghost n = s@.skip(start as int);
    let mut i = start;
    let mut dot: Option<usize> = None;
    let mut has_digit = false;
    while i < s.len() && ((48 <= s[i] && s[i] <= 57) || s[i] == 46)
        invariant
            start <= i <= s.len(),
            n == s@.skip(start as int),
            forall|k: int| start <= k < i ==> is_digit(#[trigger] s@[k]) || (s@[k] == 46 && dot == Some(k as usize)),
            dot matches Some(p) ==> start <= p < i && s@[p as int] == 46,
            has_digit <==> exists|k: int| start <= k < i && is_digit(#[trigger] s@[k]),
        decreases s.len() - i,
    {
        if s[i] == 46 {
            if let Some(p) = dot {
                proof {
                    lemma_two_dots_not_number(n, (p - start) as int, (i - start) as int);
                }
                return false;
            }
            dot = Some(i);
        } else {
            has_digit = true;
        }
        i += 1;
    }
    let ghost m = n.take(i - start);
    proof {
        assert forall|k: int| 0 <= k < m.len() implies is_digit(#[trigger] m[k]) || m[k] == 46 by {
            assert(m[k] == s@[start + k]);
        }
        assert forall|a: int, b: int|
            0 <= a < m.len() && 0 <= b < m.len() && #[trigger] m[a] == 46 && #[trigger] m[b] == 46
            implies a == b by {
            assert(m[a] == s@[start + a]);
            assert(m[b] == s@[start + b]);
        }
        if has_digit {
            let k = choose|k: int| start <= k < i && is_digit(#[trigger] s@[k]);
            assert(m[k - start] == s@[k]);
        } else {
            assert forall|k: int| 0 <= k < m.len() implies !is_digit(#[trigger] m[k]) by {
                assert(m[k] == s@[start + k]);
            }
        }
        assert(is_mantissa(m) == has_digit);
    }
    if i == s.len() {
        proof {
            assert(m =~= n);
            assert forall|k: int| 0 <= k < n.len() implies ascii_lower(#[trigger] n[k]) != 101 by {
                assert(n[k] == s@[start + k]);
            }
        }
        return has_digit;
    }
    let e = lower(s[i]);
    if e == 101 {
        let exponent = exponent_from(s, i + 1);
        proof {
            let k0 = i - start;
            assert(n[k0] == s@[i as int]);
            assert(n.skip(k0 + 1) =~= s@.skip(i + 1));
            assert(!is_mantissa(n)) by {
                if is_mantissa(n) {
                    assert(is_digit(n[k0]) || n[k0] == 46);
                }
            }
            assert forall|k: int|
                0 <= k < n.len() && ascii_lower(#[trigger] n[k]) == 101 && is_mantissa(n.take(k))
                implies k == k0 by {
                if k < k0 {
                    assert(n[k] == s@[start + k]);
                } else if k > k0 {
                    assert(n.take(k)[k0] == n[k0]);
                }
            }
        }
        has_digit && exponent
    } else {
        proof {
            let k0 = i - start;
            assert(n[k0] == s@[i as int]);
            assert(!is_mantissa(n)) by {
                if is_mantissa(n) {
                    assert(is_digit(n[k0]) || n[k0] == 46);
                }
            }
            assert forall|k: int|
                0 <= k < n.len() && ascii_lower(#[trigger] n[k]) == 101
                implies !is_mantissa(n.take(k)) by {
                if k < k0 {
                    assert(n[k] == s@[start + k]);
                } else if k > k0 {
                    assert(n.take(k)[k0] == n[k0]);
                }
            }
        }
        false
    }
}

/// A number cannot hold two decimal points before its exponent.
proof fn lemma_two_dots_not_number(n: Seq<u8>, p: int, q: int)
    requires
        0 <= p < q < n.len(),
        n[p] == 46,
        n[q] == 46,
        forall|k: int| 0 <= k < q ==> is_digit(#[trigger] n[k]) || n[k] == 46,
    ensures
        !is_number(n),
{
    assert(!is_mantissa(n));
    assert forall|k: int|
        0 <= k < n.len() && ascii_lower(#[trigger] n[k]) == 101
        implies !is_mantissa(n.take(k)) by {
        if k <= q {
            if k == q || k == p {
            } else if k < q {
                assert(is_digit(n[k]) || n[k] == 46);
            }
        } else {
            assert(n.take(k)[p] == 46 && n.take(k)[q] == 46);
        }
    }
}

} // verus!
