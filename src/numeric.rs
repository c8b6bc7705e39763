use vstd::prelude::*;

verus! {

/// An exact decimal number: `mantissa * 10^(-scale)`.
#[derive(Debug, Clone, Copy, PartialEq, Eq, Structural)]
pub struct DecimalValue {
    pub mantissa: i128,
    pub scale: u32,
}

impl DecimalValue {
    pub fn new(mantissa: i128, scale: u32) -> (r: Self)
        ensures
            r.mantissa == mantissa,
            r.scale == scale,
    {
        DecimalValue { mantissa, scale }
    }
}

/// Mantissa and scale of the decimal that `rust_decimal` reads from a text,
/// if it reads one.
pub uninterp spec fn decimal_text(s: Seq<char>) -> Option<(i128, u32)>;

/// The decimal read from a text, as a value of this library.
pub open spec fn decimal_of(s: Seq<char>) -> Option<DecimalValue> {
    match decimal_text(s) {
        Some((m, e)) => Some(DecimalValue { mantissa: m, scale: e }),
        None => None,
    }
}

/// Relies on `<rust_decimal::Decimal as FromStr>::from_str`, with
/// `Decimal::mantissa` and `Decimal::scale` to read the result: the outcome
/// depends on the text alone.
#[verifier::external_body]
pub(crate) fn parse_decimal(s: &str) -> (r: Option<DecimalValue>)
    ensures
        r is Some <==> decimal_text(s@) is Some,
        r matches Some(d) ==> decimal_text(s@) == Some((d.mantissa, d.scale)),
{
    match s.parse::<rust_decimal::Decimal>() {
        Ok(d) => Some(DecimalValue { mantissa: d.mantissa(), scale: d.scale() }),
        Err(_) => None,
    }
}

/// Whether `chrono` represents a UTC instant this many milliseconds after
/// the epoch.
pub uninterp spec fn utc_millis_in_range(ms: i64) -> bool;

/// Relies on `chrono::DateTime::<Utc>::from_timestamp_millis`, which returns
/// `None` exactly on out-of-range inputs; the outcome depends on `ms` alone.
#[verifier::external_body]
pub(crate) fn millis_in_range(ms: i64) -> (r: bool)
    ensures
        r == utc_millis_in_range(ms),
{
    chrono::DateTime::<chrono::Utc>::from_timestamp_millis(ms).is_some()
}

} // verus!
