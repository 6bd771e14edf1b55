//! Non-negative fixed-point decimals and the textual form they are read from.

use vstd::prelude::*;
use vstd::string::StringSliceAdditionalSpecFns;

use crate::text::{find, find_byte};

verus! {

/// Number of digits kept after the decimal point.
pub const FRACTION_DIGITS: usize = 8;

/// Number of units that make up one whole: ten to the power of [`FRACTION_DIGITS`].
pub const SCALE: u64 = 100_000_000;

/// The byte `.` that separates the whole part of a numeral from its fraction.
pub const POINT: u8 = 46;

/// A non-negative decimal number with eight fractional digits, held as a count
/// of units of `1 / SCALE`.
#[derive(Clone, Copy, Debug, PartialEq, Eq, Structural, Hash)]
pub struct Decimal {
    pub units: u64,
}

/// Whether `b` is one of the ASCII digits `0` to `9`.
pub open spec fn is_digit(b: u8) -> bool {
    48 <= b <= 57
}

/// Whether every byte of `s` is an ASCII digit.
pub open spec fn all_digits(s: Seq<u8>) -> bool {
    forall|i: int| 0 <= i < s.len() ==> is_digit(#[trigger] s[i])
}

/// The number that a sequence of ASCII digits denotes in base ten.
pub open spec fn digits_value(s: Seq<u8>) -> nat
    decreases s.len(),
{
    if s.len() == 0 {
        0
    } else {
        digits_value(s.drop_last()) * 10 + (s.last() - 48) as nat
    }
}

/// Ten to the power of `n`.
pub open spec fn pow10(n: nat) -> nat
    decreases n,
{
    if n == 0 {
        1
    } else {
        10 * pow10((n - 1) as nat)
    }
}

/// The digits before the decimal point of `text`.
pub open spec fn whole_part(text: Seq<u8>) -> Seq<u8> {
    text.subrange(0, find_byte(text, POINT))
}

/// The digits after the decimal point of `text`; empty when it has no point.
pub open spec fn fraction_part(text: Seq<u8>) -> Seq<u8> {
    let p = find_byte(text, POINT);
    if p < text.len() {
        text.subrange(p + 1, text.len() as int)
    } else {
        Seq::empty()
    }
}

/// Whether `text` is a decimal numeral: one or more digits, optionally
/// followed by a point and one to eight further digits.
pub open spec fn is_numeral(text: Seq<u8>) -> bool {
    let p = find_byte(text, POINT);
    &&& whole_part(text).len() > 0
    &&& all_digits(whole_part(text))
    &&& all_digits(fraction_part(text))
    &&& fraction_part(text).len() <= FRACTION_DIGITS
    &&& p < text.len() ==> fraction_part(text).len() > 0
}

/// The number of units that the numeral `text` denotes.
pub open spec fn numeral_units(text: Seq<u8>) -> nat {
    let fraction = fraction_part(text);
    digits_value(whole_part(text)) * (SCALE as nat) + digits_value(fraction) * pow10(
        (FRACTION_DIGITS - fraction.len()) as nat,
    )
}

/// The decimal that `text` denotes: defined when `text` is a numeral whose
/// value can be held.
pub open spec fn parse_spec(text: Seq<u8>) -> Option<Decimal> {
    if is_numeral(text) && numeral_units(text) <= u64::MAX {
        Some(Decimal { units: numeral_units(text) as u64 })
    } else {
        None
    }
}

/// The lenient reading of `text`: its value where it has one, zero otherwise.
pub open spec fn parse_or_zero_spec(text: Seq<u8>) -> Decimal {
    match parse_spec(text) {
        Some(d) => d,
        None => Decimal { units: 0 },
    }
}

/// Appending a digit multiplies the value by ten and adds the digit.
proof fn lemma_digits_value_step(s: Seq<u8>, k: int)
    requires
        0 <= k < s.len(),
    ensures
        digits_value(s.subrange(0, k + 1)) == digits_value(s.subrange(0, k)) * 10 + (s[k]
            - 48) as nat,
{
    assert(s.subrange(0, k + 1).drop_last() =~= s.subrange(0, k));
}

proof fn lemma_pow10_values()
    ensures
        pow10(0) == 1,
        pow10(1) == 10,
        pow10(2) == 100,
        pow10(3) == 1_000,
        pow10(4) == 10_000,
        pow10(5) == 100_000,
        pow10(6) == 1_000_000,
        pow10(7) == 10_000_000,
        pow10(8) == 100_000_000,
{
    reveal_with_fuel(pow10, 9);
}

impl Decimal {
    /// The decimal zero.
    pub fn zero() -> (result: Decimal)
        ensures
            result.units == 0,
    {
        Decimal { units: 0 }
    }

    /// Whether this decimal is zero.
    pub fn is_zero(&self) -> (result: bool)
        ensures
            result == (self.units == 0),
    {
        self.units == 0
    }

    /// Reads a numeral from its bytes.
    ///
    /// Returns the decimal it denotes, or `None` when `text` is not a numeral
    /// or denotes more than can be held.
    pub fn parse_bytes(text: &[u8]) -> (result: Option<Decimal>)
        ensures
            result == parse_spec(text@),
    {
        let n = text.len();
        let p = find(text, POINT);
        let ghost whole_digits = whole_part(text@);
        let ghost fraction_digits = fraction_part(text@);
        proof {
            lemma_pow10_values();
        }
        if p == 0 {
            return None;
        }
        let whole_max: u64 = u64::MAX / SCALE;
        let mut whole: u64 = 0;
        let mut too_large = false;
        let mut i: usize = 0;
        while i < p
            invariant
                i <= p <= n,
                n == text@.len(),
                whole_max == u64::MAX / SCALE,
                whole_digits == whole_part(text@),
                whole_digits == text@.subrange(0, p as int),
                all_digits(text@.subrange(0, i as int)),
                !too_large ==> whole == digits_value(text@.subrange(0, i as int)) && whole
                    <= whole_max,
                too_large ==> digits_value(text@.subrange(0, i as int)) > whole_max,
            decreases p - i,
        {
            let b = text[i];
            if b < 48 || b > 57 {
                proof {
                    assert(whole_digits[i as int] == text@[i as int]);
                }
                return None;
            }
            let d: u64 = (b - 48) as u64;
            proof {
                lemma_digits_value_step(text@, i as int);
                let next = text@.subrange(0, i as int + 1);
                assert forall|j: int| 0 <= j < next.len() implies is_digit(#[trigger] next[j]) by {
                    if j < i {
                        assert(next[j] == text@.subrange(0, i as int)[j]);
                    }
                }
            }
            if !too_large {
                if whole > (whole_max - d) / 10 {
                    too_large = true;
                } else {
                    whole = whole * 10 + d;
                }
            }
            i += 1;
        }
        assert(text@.subrange(0, i as int) == whole_digits);
        let mut fraction: u64 = 0;
        if p < n {
            let len = n - p - 1;
            if len == 0 || len > FRACTION_DIGITS {
                return None;
            }
            let mut k: usize = 0;
            while k < len
                invariant
                    k <= len <= FRACTION_DIGITS,
                    p + 1 + len == n,
                    n == text@.len(),
                    fraction_digits == fraction_part(text@),
                    fraction_digits == text@.subrange(p + 1, n as int),
                    all_digits(fraction_digits.subrange(0, k as int)),
                    fraction == digits_value(fraction_digits.subrange(0, k as int)),
                    fraction < pow10(k as nat),
                decreases len - k,
            {
                let b = text[p + 1 + k];
                if b < 48 || b > 57 {
                    proof {
                        assert(fraction_digits[k as int] == text@[p + 1 + k]);
                    }
                    return None;
                }
                proof {
                    lemma_pow10_values();
                    lemma_digits_value_step(fraction_digits, k as int);
                    let next = fraction_digits.subrange(0, k as int + 1);
                    assert forall|j: int| 0 <= j < next.len() implies is_digit(
                        #[trigger] next[j],
                    ) by {
                        if j < k {
                            assert(next[j] == fraction_digits.subrange(0, k as int)[j]);
                        }
                    }
                    assert(pow10((k + 1) as nat) == 10 * pow10(k as nat));
                    assert(pow10(k as nat) <= 10_000_000) by {
                        lemma_pow10_monotone(k as nat, 7);
                    }
                }
                fraction = fraction * 10 + (b - 48) as u64;
                k += 1;
            }
            assert(fraction_digits.subrange(0, len as int) =~= fraction_digits);
            assert(fraction_digits.len() == len);
            assert(fraction == digits_value(fraction_digits) * pow10((len - len) as nat))
                by (nonlinear_arith)
                requires
                    fraction == digits_value(fraction_digits),
                    pow10((len - len) as nat) == 1,
            ;
            let mut m: usize = len;
            while m < FRACTION_DIGITS
                invariant
                    len <= m <= FRACTION_DIGITS,
                    fraction == digits_value(fraction_digits) * pow10((m - len) as nat),
                    fraction < pow10(m as nat),
                decreases FRACTION_DIGITS - m,
            {
                proof {
                    lemma_pow10_values();
                    lemma_pow10_monotone(m as nat, 7);
                    assert(pow10((m + 1) as nat) == 10 * pow10(m as nat));
                    assert(pow10((m + 1 - len) as nat) == 10 * pow10((m - len) as nat));
                    assert(digits_value(fraction_digits) * (10 * pow10((m - len) as nat)) == 10
                        * (digits_value(fraction_digits) * pow10((m - len) as nat)))
                        by (nonlinear_arith);
                }
                fraction = fraction * 10;
                m += 1;
            }
            assert(fraction == digits_value(fraction_digits) * pow10(
                (FRACTION_DIGITS - fraction_digits.len()) as nat,
            ));
        } else {
            assert(fraction_digits.len() == 0);
            assert(fraction == digits_value(fraction_digits) * pow10(
                (FRACTION_DIGITS - fraction_digits.len()) as nat,
            )) by (nonlinear_arith)
                requires
                    fraction == 0,
                    digits_value(fraction_digits) == 0,
            ;
        }
        if too_large {
            proof {
                assert(digits_value(whole_digits) * (SCALE as nat) > u64::MAX) by (nonlinear_arith)
                    requires
                        digits_value(whole_digits) >= whole_max + 1,
                        whole_max == u64::MAX / SCALE,
                        SCALE == 100_000_000,
                ;
            }
            return None;
        }
        let units: u128 = (whole as u128) * (SCALE as u128) + (fraction as u128);
        if units > u64::MAX as u128 {
            return None;
        }
        Some(Decimal { units: units as u64 })
    }

    /// Reads a numeral from a string; see [`Decimal::parse_bytes`].
    pub fn parse(text: &str) -> (result: Option<Decimal>)
        ensures
            result == parse_spec(text.spec_bytes()),
    {
        Decimal::parse_bytes(text.as_bytes())
    }

    /// Reads a numeral leniently: text that is no numeral, or whose value
    /// cannot be held, reads as zero.
    pub fn parse_or_zero(text: &str) -> (result: Decimal)
        ensures
            result == parse_or_zero_spec(text.spec_bytes()),
    {
        match Decimal::parse(text) {
            Some(d) => d,
            None => Decimal::zero(),
        }
    }
}

proof fn lemma_pow10_monotone(a: nat, b: nat)
    requires
        a <= b,
    ensures
        pow10(a) <= pow10(b),
        pow10(a) >= 1,
    decreases b,
{
    if a < b {
        lemma_pow10_monotone(a, (b - 1) as nat);
    } else if a > 0 {
        lemma_pow10_monotone((a - 1) as nat, (a - 1) as nat);
    }
}

/// The byte `-` that opens a negative numeral.
pub const MINUS: u8 = 45;

/// A decimal number of either sign with eight fractional digits. Zero is
/// never negative.
#[derive(Clone, Copy, Debug, PartialEq, Eq, Structural, Hash)]
pub struct SignedDecimal {
    pub negative: bool,
    pub magnitude: Decimal,
}

/// The signed decimal that `text` denotes: a numeral, or `-` and a numeral.
pub open spec fn parse_signed_spec(text: Seq<u8>) -> Option<SignedDecimal> {
    if text.len() > 0 && text[0] == MINUS {
        match parse_spec(text.drop_first()) {
            Some(magnitude) => Some(SignedDecimal { negative: magnitude.units != 0, magnitude }),
            None => None,
        }
    } else {
        match parse_spec(text) {
            Some(magnitude) => Some(SignedDecimal { negative: false, magnitude }),
            None => None,
        }
    }
}

impl SignedDecimal {
    /// Whether the invariant holds: zero is not negative.
    pub open spec fn wf(self) -> bool {
        self.negative ==> self.magnitude.units != 0
    }

    /// Whether this decimal is zero.
    pub fn is_zero(&self) -> (result: bool)
        ensures
            result == (self.magnitude.units == 0),
    {
        self.magnitude.units == 0
    }

    /// Reads a numeral of either sign from its bytes.
    ///
    /// Returns the decimal it denotes, or `None` when `text` is not such a
    /// numeral or denotes more than can be held.
    pub fn parse_bytes(text: &[u8]) -> (result: Option<SignedDecimal>)
        ensures
            result == parse_signed_spec(text@),
            result matches Some(d) ==> d.wf(),
    {
        if text.len() > 0 && text[0] == MINUS {
            let rest = vstd::slice::slice_subrange(text, 1, text.len());
            assert(rest@ =~= text@.drop_first());
            match Decimal::parse_bytes(rest) {
                Some(magnitude) => Some(
                    SignedDecimal { negative: magnitude.units != 0, magnitude },
                ),
                None => None,
            }
        } else {
            match Decimal::parse_bytes(text) {
                Some(magnitude) => Some(SignedDecimal { negative: false, magnitude }),
                None => None,
            }
        }
    }

    /// Reads a numeral of either sign from a string; see
    /// [`SignedDecimal::parse_bytes`].
    pub fn parse(text: &str) -> (result: Option<SignedDecimal>)
        ensures
            result == parse_signed_spec(text.spec_bytes()),
            result matches Some(d) ==> d.wf(),
    {
        SignedDecimal::parse_bytes(text.as_bytes())
    }
}

} // verus!
