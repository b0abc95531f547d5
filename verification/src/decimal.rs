//! Decimal numbers of arbitrary precision, as plain data, with the
//! operations that `bigdecimal` performs on them.

use vstd::prelude::*;
use vstd::string::*;
use crate::error::QuoteRequestError;

verus! {

/// Whether `c` is a decimal digit.
pub open spec fn is_digit(c: char) -> bool {
    '0' <= c && c <= '9'
}

/// Whether `s` writes an integer: one or more decimal digits, with or without
/// a minus sign before them.
pub open spec fn is_integer_text(s: Seq<char>) -> bool {
    if s.len() > 0 && s[0] == '-' {
        s.len() > 1 && forall|i: int| 1 <= i < s.len() ==> is_digit(#[trigger] s[i])
    } else {
        s.len() > 0 && forall|i: int| 0 <= i < s.len() ==> is_digit(#[trigger] s[i])
    }
}

/// What a decimal is: the integer `unscaled`, written in decimal digits,
/// divided by ten to the power `scale`.
pub struct DecimalView {
    pub unscaled: Seq<char>,
    pub scale: int,
}

/// A decimal number of arbitrary precision. No digit of it is held in a
/// binary fraction.
#[derive(Debug, Clone, PartialEq, Eq)]
pub struct Decimal {
    unscaled: String,
    scale: i64,
}

impl View for Decimal {
    type V = DecimalView;

    closed spec fn view(&self) -> DecimalView {
        DecimalView { unscaled: self.unscaled@, scale: self.scale as int }
    }
}

/// `bigdecimal::ParseBigDecimalError`, carried from the parser to its text.
#[verifier::external_type_specification]
#[verifier::external_body]
pub struct ExParseBigDecimalError(bigdecimal::ParseBigDecimalError);

/// The unscaled integer, in decimal digits, and the scale of the number that
/// `BigDecimal::from_str` reads from a text, or `None` where it rejects the
/// text.
pub uninterp spec fn parsed_decimal(text: Seq<char>) -> Option<(Seq<char>, int)>;

/// The unscaled integer, in decimal digits, of what
/// `BigDecimal::with_scale_round` gives in the mode `HalfEven` for the number
/// `unscaled / 10^scale` and the new scale `decimals`.
pub uninterp spec fn rounded_half_even(unscaled: Seq<char>, scale: int, decimals: int) -> Seq<
    char,
>;

/// The text that the `Display` of `BigDecimal` writes for the number
/// `unscaled / 10^scale`: plain notation, or notation with an exponent where
/// the number has more zeros before or after its digits than the two
/// thresholds that `bigdecimal` is built with.
pub uninterp spec fn decimal_text(unscaled: Seq<char>, scale: int) -> Seq<char>;

/// Calls `BigDecimal::from_str` and takes the number apart with
/// `into_bigint_and_exponent`; the integer is written out with its `Display`.
/// The contract claims that the outcome depends on the text alone, as named by
/// `parsed_decimal`, and that the integer is written as digits with at most a
/// minus sign before them.
#[verifier::external_body]
fn decimal_from_text(text: &str) -> (r: Result<Decimal, bigdecimal::ParseBigDecimalError>)
    ensures
        r is Ok <==> parsed_decimal(text@) is Some,
        r matches Ok(d) ==> d.wf() && parsed_decimal(text@) == Some((d@.unscaled, d@.scale)),
{
    let parsed = text.parse::<bigdecimal::BigDecimal>()?;
    let (digits, scale) = parsed.into_bigint_and_exponent();
    Ok(Decimal { unscaled: digits.to_string(), scale })
}

/// Writes a `bigdecimal::ParseBigDecimalError` out with its `Display`.
/// Nothing is claimed of the text.
#[verifier::external_body]
fn decimal_error_text(error: &bigdecimal::ParseBigDecimalError) -> String {
    error.to_string()
}

/// Calls `BigDecimal::with_scale_round` in the mode `HalfEven`, on a number
/// with more fractional digits than are asked for. The contract claims that
/// the result has the scale asked for, and that its integer is the one named
/// by `rounded_half_even`, written as digits with at most a minus sign.
#[verifier::external_body]
fn decimal_rounded(value: &Decimal, decimals: u8) -> (r: Decimal)
    requires
        value.wf(),
        value@.scale > decimals,
    ensures
        r.wf(),
        r@.scale == decimals,
        r@.unscaled == rounded_half_even(value@.unscaled, value@.scale, decimals as int),
{
    let digits = value.unscaled.parse::<bigdecimal::num_bigint::BigInt>().unwrap();
    let number = bigdecimal::BigDecimal::new(digits, value.scale);
    let rounded = number.with_scale_round(decimals.into(), bigdecimal::RoundingMode::HalfEven);
    let (digits, scale) = rounded.into_bigint_and_exponent();
    Decimal { unscaled: digits.to_string(), scale }
}

/// Calls the `Display` of `BigDecimal`. The contract claims that the text is
/// the one named by `decimal_text`.
#[verifier::external_body]
fn decimal_to_text(value: &Decimal) -> (r: String)
    requires
        value.wf(),
    ensures
        r@ == decimal_text(value@.unscaled, value@.scale),
{
    let digits = value.unscaled.parse::<bigdecimal::num_bigint::BigInt>().unwrap();
    bigdecimal::BigDecimal::new(digits, value.scale).to_string()
}

/// The text of a price with at most `decimals` fractional digits: a number
/// with more of them is rounded half to even first.
pub open spec fn spec_format_price(price: DecimalView, decimals: u8) -> Seq<char> {
    if price.scale > decimals {
        decimal_text(
            rounded_half_even(price.unscaled, price.scale, decimals as int),
            decimals as int,
        )
    } else {
        decimal_text(price.unscaled, price.scale)
    }
}

impl Decimal {
    /// The invariant of the type: the unscaled integer is written as digits,
    /// with at most a minus sign before them.
    pub closed spec fn wf(&self) -> bool {
        is_integer_text(self.unscaled@)
    }

    /// Whether the invariant of the type holds of this value.
    pub fn is_well_formed(&self) -> (ok: bool)
        ensures
            ok == self.wf(),
    {
        let text = self.unscaled.as_str();
        let n: usize = text.unicode_len();
        let start: usize = if n > 0 && text.get_char(0) == '-' {
            1
        } else {
            0
        };
        if n <= start {
            return false;
        }
        let mut i: usize = start;
        while i < n
            invariant
                start <= i <= n,
                start < n,
                n == text@.len(),
                text@ == self.unscaled@,
                start == 1 <==> text@[0] == '-',
                start == 0 || start == 1,
                forall|j: int| start <= j < i ==> is_digit(#[trigger] text@[j]),
            decreases n - i,
        {
            let c = text.get_char(i);
            if !('0' <= c && c <= '9') {
                return false;
            }
            i = i + 1;
        }
        true
    }

    /// Reads a decimal number from its text. It succeeds exactly on the texts
    /// that `parsed_decimal` has a number for, and gives that number.
    pub fn parse(text: &str) -> (r: Result<Decimal, QuoteRequestError>)
        ensures
            r is Ok <==> parsed_decimal(text@) is Some,
            r matches Ok(d) ==> d.wf() && parsed_decimal(text@) == Some((d@.unscaled, d@.scale)),
            r matches Err(e) ==> e.spec_kind() == crate::error::QuoteErrorKind::UnparseablePrice,
    {
        match decimal_from_text(text) {
            Ok(d) => Ok(d),
            Err(e) => Err(QuoteRequestError::ParseBigDecimal(decimal_error_text(&e))),
        }
    }

    /// The number of digits after the decimal point; negative where the
    /// number ends in zeros that are not written.
    pub fn fractional_digit_count(&self) -> (count: i64)
        ensures
            count == self@.scale,
    {
        self.scale
    }

    /// The unscaled integer, in decimal digits.
    pub fn unscaled_digits(&self) -> (digits: &String)
        ensures
            digits@ == self@.unscaled,
    {
        &self.unscaled
    }

    /// The same number with exactly `decimals` fractional digits, rounded half
    /// to even.
    pub fn round_half_even(&self, decimals: u8) -> (r: Decimal)
        requires
            self.wf(),
            self@.scale > decimals,
        ensures
            r.wf(),
            r@.scale == decimals,
            r@.unscaled == rounded_half_even(self@.unscaled, self@.scale, decimals as int),
    {
        decimal_rounded(self, decimals)
    }

    /// The number as text.
    pub fn to_text(&self) -> (text: String)
        requires
            self.wf(),
        ensures
            text@ == decimal_text(self@.unscaled, self@.scale),
    {
        decimal_to_text(self)
    }

    /// The number -99999.00.
    pub fn placeholder() -> (d: Decimal)
        ensures
            d.wf(),
            d@.unscaled == "-9999900"@,
            d@.scale == 2,
    {
        proof {
            reveal_strlit("-9999900");
        }
        Decimal { unscaled: String::from_str("-9999900"), scale: 2 }
    }
}

/// Writes a price with at most `decimals` fractional digits.
pub fn format_price(price: &Decimal, decimals: u8) -> (text: String)
    requires
        price.wf(),
    ensures
        text@ == spec_format_price(price@, decimals),
{
    if price.fractional_digit_count() > decimals as i64 {
        price.round_half_even(decimals).to_text()
    } else {
        price.to_text()
    }
}

} // verus!
