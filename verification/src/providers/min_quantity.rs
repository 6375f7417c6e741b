//! The smallest order quantity of an equity.
//!
//! The venue states a minimum size and a size increment, either of which may be a fraction of a
//! share, while an equity is held in whole shares. The minimum that is published is the smallest
//! whole number of shares at or above the venue's minimum, proved with exact integer arithmetic;
//! where the venue's fields are absent, inconsistent or out of range nothing is published.

use vstd::arithmetic::power::{lemma_pow_increases, lemma_pow_positive, pow};
use vstd::prelude::*;

use crate::decimal::{
    exact_decimal_from_text, parsed_exact_decimal, plain, plain_decimal,
    plain_texts_denote_their_digits, plain_value, ExactDecimal,
};
use crate::wire::WireNumber;

verus! {

/// The number of shares that the equity model steps by.
pub const EQUITY_SYSTEM_SIZE_INCREMENT_SHARES: i128 = 1;

/// The largest integer below which binary64 holds every integer.
pub const MAX_EXACT_INTEGER: i128 = 0x20_0000_0000_0000;

/// How a minimum quantity was established, or why none was.
#[derive(Debug, Clone, Copy, PartialEq, Eq, Structural)]
pub enum MinQuantitySource {
    /// The venue's minimum is a whole number of shares and is published as it stands.
    Native,
    /// The smallest whole number of shares above the venue's minimum is published.
    Normalized,
    /// The venue's minimum is absent.
    Missing,
    /// The venue's minimum is an infinity or a NaN.
    NonFinite,
    /// The venue's minimum is below zero.
    NonPositive,
    /// The venue's numbers leave the range of the exact arithmetic or of the model.
    Unrepresentable,
    /// The venue's increment is absent.
    IncrementMissing,
    /// The venue's increment is an infinity or a NaN.
    IncrementNonFinite,
    /// The venue's increment is below zero.
    IncrementNonPositive,
    /// One share is not a whole number of venue increments.
    IncrementIncompatible,
    /// The venue's minimum is not a whole number of venue increments.
    MinOffLattice,
}

impl MinQuantitySource {
    /// The label of a source.
    pub open spec fn label(&self) -> Seq<char> {
        match self {
            MinQuantitySource::Native => "contract_details.min_size"@,
            MinQuantitySource::Normalized =>
                "contract_details.min_size.ceiling_to_system_size_increment"@,
            MinQuantitySource::Missing => "contract_details.min_size.missing"@,
            MinQuantitySource::NonFinite => "contract_details.min_size.non_finite"@,
            MinQuantitySource::NonPositive => "contract_details.min_size.non_positive"@,
            MinQuantitySource::Unrepresentable =>
                "contract_details.min_size.not_representable_at_equity_precision"@,
            MinQuantitySource::IncrementMissing => "contract_details.size_increment.missing"@,
            MinQuantitySource::IncrementNonFinite => "contract_details.size_increment.non_finite"@,
            MinQuantitySource::IncrementNonPositive =>
                "contract_details.size_increment.non_positive"@,
            MinQuantitySource::IncrementIncompatible =>
                "contract_details.size_increment.system_increment_not_on_lattice"@,
            MinQuantitySource::MinOffLattice =>
                "contract_details.min_size.not_on_size_increment_lattice"@,
        }
    }

    /// The label that the instrument records.
    pub fn as_str(&self) -> (r: &'static str)
        ensures
            r@ == self.label(),
    {
        match self {
            MinQuantitySource::Native => "contract_details.min_size",
            MinQuantitySource::Normalized =>
                "contract_details.min_size.ceiling_to_system_size_increment",
            MinQuantitySource::Missing => "contract_details.min_size.missing",
            MinQuantitySource::NonFinite => "contract_details.min_size.non_finite",
            MinQuantitySource::NonPositive => "contract_details.min_size.non_positive",
            MinQuantitySource::Unrepresentable =>
                "contract_details.min_size.not_representable_at_equity_precision",
            MinQuantitySource::IncrementMissing => "contract_details.size_increment.missing",
            MinQuantitySource::IncrementNonFinite => "contract_details.size_increment.non_finite",
            MinQuantitySource::IncrementNonPositive =>
                "contract_details.size_increment.non_positive",
            MinQuantitySource::IncrementIncompatible =>
                "contract_details.size_increment.system_increment_not_on_lattice",
            MinQuantitySource::MinOffLattice =>
                "contract_details.min_size.not_on_size_increment_lattice",
        }
    }
}

/// The minimum quantity of an equity with everything that is needed to audit it.
#[derive(Debug, Clone, Copy, PartialEq, Eq, Structural)]
pub struct EquityMinQuantity {
    /// The published minimum in whole shares.
    pub quantity: Option<u64>,
    /// How the minimum was established, or why none was.
    pub source: MinQuantitySource,
    /// The venue's minimum.
    pub raw_min_size: Option<ExactDecimal>,
    /// The venue's increment.
    pub raw_size_increment: Option<ExactDecimal>,
    /// The published minimum as a decimal.
    pub effective: Option<ExactDecimal>,
    /// The step of the equity model.
    pub system_increment: ExactDecimal,
}

/// A decision that publishes nothing.
pub open spec fn refused_spec(source: MinQuantitySource) -> EquityMinQuantity {
    EquityMinQuantity {
        quantity: None,
        source,
        raw_min_size: None,
        raw_size_increment: None,
        effective: None,
        system_increment: ExactDecimal {
            mantissa: EQUITY_SYSTEM_SIZE_INCREMENT_SHARES,
            scale: 0,
        },
    }
}

impl EquityMinQuantity {
    /// A decision that publishes nothing and records why.
    pub fn refused(source: MinQuantitySource) -> (r: Self)
        ensures
            r == refused_spec(source),
    {
        EquityMinQuantity {
            quantity: None,
            source,
            raw_min_size: None,
            raw_size_increment: None,
            effective: None,
            system_increment: ExactDecimal {
                mantissa: EQUITY_SYSTEM_SIZE_INCREMENT_SHARES,
                scale: 0,
            },
        }
    }
}

/// The larger of two scales.
pub open spec fn common_scale(a: ExactDecimal, b: ExactDecimal) -> nat {
    if a.scale >= b.scale {
        a.scale as nat
    } else {
        b.scale as nat
    }
}

/// A decimal in units of `10^-scale`.
pub open spec fn units_at(d: ExactDecimal, scale: nat) -> int {
    d.mantissa * pow(10, (scale - d.scale) as nat)
}

/// The smallest integer at or above `numerator / denominator`.
pub open spec fn ceiling(numerator: int, denominator: int) -> int {
    (numerator + denominator - 1) / denominator
}

/// The decision on two positive finite venue numbers, given as decimals.
pub open spec fn lattice_decision(
    min: ExactDecimal,
    increment: ExactDecimal,
    max_quantity: u64,
) -> EquityMinQuantity {
    let scale = common_scale(min, increment);
    let min_units = units_at(min, scale);
    let increment_units = units_at(increment, scale);
    let share_units = pow(10, scale);
    let shares = ceiling(min_units, share_units);
    if !(0 < min_units <= i128::MAX && 0 < increment_units <= i128::MAX) {
        refused_spec(MinQuantitySource::Unrepresentable)
    } else if share_units % increment_units != 0 {
        refused_spec(MinQuantitySource::IncrementIncompatible)
    } else if min_units % increment_units != 0 {
        refused_spec(MinQuantitySource::MinOffLattice)
    } else if min_units + share_units > i128::MAX || shares > MAX_EXACT_INTEGER || shares
        > max_quantity {
        refused_spec(MinQuantitySource::Unrepresentable)
    } else {
        EquityMinQuantity {
            quantity: Some(shares as u64),
            source: if shares * share_units == min_units {
                MinQuantitySource::Native
            } else {
                MinQuantitySource::Normalized
            },
            raw_min_size: Some(min),
            raw_size_increment: Some(increment),
            effective: Some(ExactDecimal { mantissa: shares as i128, scale: 0 }),
            system_increment: ExactDecimal {
                mantissa: EQUITY_SYSTEM_SIZE_INCREMENT_SHARES,
                scale: 0,
            },
        }
    }
}

/// The decision on the venue's minimum and increment, given both as numbers and as decimals.
pub open spec fn min_quantity_decision(
    min_size: WireNumber,
    size_increment: WireNumber,
    min: Option<ExactDecimal>,
    increment: Option<ExactDecimal>,
    max_quantity: u64,
) -> EquityMinQuantity {
    if min_size.zero() {
        refused_spec(MinQuantitySource::Missing)
    } else if !min_size.finite() {
        refused_spec(MinQuantitySource::NonFinite)
    } else if min_size.negative() {
        refused_spec(MinQuantitySource::NonPositive)
    } else if size_increment.zero() {
        refused_spec(MinQuantitySource::IncrementMissing)
    } else if !size_increment.finite() {
        refused_spec(MinQuantitySource::IncrementNonFinite)
    } else if size_increment.negative() {
        refused_spec(MinQuantitySource::IncrementNonPositive)
    } else {
        match (min, increment) {
            (Some(min), Some(increment)) => lattice_decision(min, increment, max_quantity),
            _ => refused_spec(MinQuantitySource::Unrepresentable),
        }
    }
}

/// The exact decimal of a number: that of its shortest rendering where it is finite.
pub open spec fn exact_decimal_spec(value: WireNumber) -> Option<ExactDecimal> {
    if value.finite() {
        parsed_exact_decimal(value.text@)
    } else {
        None
    }
}

/// `10^exponent`, unless it leaves the range of `i128`.
pub fn pow10_i128(exponent: u32) -> (r: Option<i128>)
    ensures
        r == (if pow(10, exponent as nat) <= i128::MAX {
            Some(pow(10, exponent as nat) as i128)
        } else {
            None
        }),
{
    let mut acc: i128 = 1;
    let mut i: u32 = 0;
    proof {
        reveal(pow);
    }
    while i < exponent
        invariant
            i <= exponent,
            acc == pow(10, i as nat),
            1 <= acc,
        decreases exponent - i,
    {
        assert(pow(10, (i + 1) as nat) == 10 * pow(10, i as nat)) by {
            reveal(pow);
        }
        if acc > i128::MAX / 10 {
            proof {
                lemma_pow_increases(10, (i + 1) as nat, exponent as nat);
            }
            return None;
        }
        acc = acc * 10;
        i += 1;
    }
    Some(acc)
}

/// The smallest integer at or above `numerator / denominator`, for positive operands whose sum
/// stays in range.
pub fn ceiling_div(numerator: i128, denominator: i128) -> (r: Option<i128>)
    ensures
        r == (if numerator > 0 && denominator > 0 && numerator + denominator <= i128::MAX {
            Some(ceiling(numerator as int, denominator as int) as i128)
        } else {
            None
        }),
        r matches Some(q) ==> (q - 1) * denominator < numerator <= q * denominator && 0 < q
            <= numerator,
{
    if numerator <= 0 || denominator <= 0 {
        return None;
    }
    if numerator > i128::MAX - denominator {
        return None;
    }
    let q: i128 = (numerator + denominator - 1) / denominator;
    proof {
        ceiling_bounds(numerator as int, denominator as int);
    }
    Some(q)
}

/// Dividing upwards reaches the numerator and no further than needed.
pub proof fn ceiling_bounds(numerator: int, denominator: int)
    by (nonlinear_arith)
    requires
        numerator > 0,
        denominator > 0,
    ensures
        numerator <= ceiling(numerator, denominator) * denominator,
        (ceiling(numerator, denominator) - 1) * denominator < numerator,
        0 < ceiling(numerator, denominator) <= numerator,
{
}

/// The exact decimal of a number, read from its shortest rendering.
pub fn exact_decimal(value: &WireNumber) -> (r: Option<ExactDecimal>)
    ensures
        r == exact_decimal_spec(*value),
        r matches Some(d) ==> d.fits(),
        value.finite() && plain(value.text@) ==> r == plain_value(value.text@),
{
    if !value.is_finite() {
        return None;
    }
    let read = exact_decimal_from_text(value.text.as_str());
    proof {
        let text = value.text@;
        if plain(text) {
            let (negative, whole, fraction) = choose|
                negative: bool,
                whole: Seq<char>,
                fraction: Seq<char>,
            | #[trigger]
                plain_decimal(text, negative, whole, fraction);
            plain_texts_denote_their_digits(text, negative, whole, fraction);
        }
    }
    read
}

/// A decimal in units of `10^-scale`; refused where it has more digits than that or leaves the
/// range of `i128`.
pub fn mantissa_at_scale(value: ExactDecimal, scale: u32) -> (r: Option<i128>)
    ensures
        r == (if value.scale <= scale && pow(10, (scale - value.scale) as nat) <= i128::MAX
            && i128::MIN <= units_at(value, scale as nat) <= i128::MAX {
            Some(units_at(value, scale as nat) as i128)
        } else {
            None
        }),
{
    let own_scale: u32 = value.scale;
    if own_scale > scale {
        return None;
    }
    match pow10_i128(scale - own_scale) {
        Some(unit) => {
            proof {
                lemma_pow_positive(10, (scale - own_scale) as nat);
            }
            assert(value.mantissa * unit == units_at(value, scale as nat));
            value.mantissa.checked_mul(unit)
        },
        None => None,
    }
}

/// A whole number of shares that binary64 holds exactly.
pub fn exact_share_count(shares: i128) -> (r: Option<u64>)
    ensures
        r == (if 0 < shares <= MAX_EXACT_INTEGER {
            Some(shares as u64)
        } else {
            None
        }),
{
    if shares <= 0 || shares > MAX_EXACT_INTEGER {
        return None;
    }
    Some(shares as u64)
}

/// Every power of ten that a decimal's scale can ask for stays in range.
pub(crate) proof fn scale_unit_in_range(scale: nat)
    requires
        scale <= 28,
    ensures
        1 <= pow(10, scale) <= 10_000_000_000_000_000_000_000_000_000,
{
    lemma_pow_positive(10, scale);
    lemma_pow_increases(10, scale, 28);
    assert(pow(10, 28) == 10_000_000_000_000_000_000_000_000_000) by {
        reveal(pow);
        reveal_with_fuel(pow, 29);
    }
}

/// Decides on the venue's minimum and increment, given both as numbers and as decimals.
///
/// `max_quantity` is the largest quantity of the equity model.
pub fn equity_min_quantity_of(
    min_size: &WireNumber,
    size_increment: &WireNumber,
    min: Option<ExactDecimal>,
    increment: Option<ExactDecimal>,
    max_quantity: u64,
) -> (r: EquityMinQuantity)
    requires
        min matches Some(d) ==> d.fits(),
        increment matches Some(d) ==> d.fits(),
    ensures
        r == min_quantity_decision(*min_size, *size_increment, min, increment, max_quantity),
{
    if min_size.is_zero() {
        return EquityMinQuantity::refused(MinQuantitySource::Missing);
    }
    if !min_size.is_finite() {
        return EquityMinQuantity::refused(MinQuantitySource::NonFinite);
    }
    if min_size.is_negative() {
        return EquityMinQuantity::refused(MinQuantitySource::NonPositive);
    }
    if size_increment.is_zero() {
        return EquityMinQuantity::refused(MinQuantitySource::IncrementMissing);
    }
    if !size_increment.is_finite() {
        return EquityMinQuantity::refused(MinQuantitySource::IncrementNonFinite);
    }
    if size_increment.is_negative() {
        return EquityMinQuantity::refused(MinQuantitySource::IncrementNonPositive);
    }
    match (min, increment) {
        (Some(min), Some(increment)) => on_lattice(min, increment, max_quantity),
        _ => EquityMinQuantity::refused(MinQuantitySource::Unrepresentable),
    }
}

fn on_lattice(min: ExactDecimal, increment: ExactDecimal, max_quantity: u64) -> (r:
    EquityMinQuantity)
    requires
        min.fits(),
        increment.fits(),
    ensures
        r == lattice_decision(min, increment, max_quantity),
{
    let scale: u32 = if min.scale >= increment.scale {
        min.scale
    } else {
        increment.scale
    };
    proof {
        scale_unit_in_range(scale as nat);
        scale_unit_in_range((scale - min.scale) as nat);
        scale_unit_in_range((scale - increment.scale) as nat);
    }
    let (min_units, increment_units): (i128, i128) = match (
        mantissa_at_scale(min, scale),
        mantissa_at_scale(increment, scale),
    ) {
        (Some(a), Some(b)) => (a, b),
        _ => {
            return EquityMinQuantity::refused(MinQuantitySource::Unrepresentable);
        },
    };
    let share_units: i128 = match pow10_i128(scale) {
        Some(u) => u,
        None => {
            return EquityMinQuantity::refused(MinQuantitySource::Unrepresentable);
        },
    };
    if min_units <= 0 || increment_units <= 0 {
        return EquityMinQuantity::refused(MinQuantitySource::Unrepresentable);
    }
    if share_units % increment_units != 0 {
        return EquityMinQuantity::refused(MinQuantitySource::IncrementIncompatible);
    }
    if min_units % increment_units != 0 {
        return EquityMinQuantity::refused(MinQuantitySource::MinOffLattice);
    }
    let shares: i128 = match ceiling_div(min_units, share_units) {
        Some(q) => q,
        None => {
            return EquityMinQuantity::refused(MinQuantitySource::Unrepresentable);
        },
    };
    let quantity: u64 = match exact_share_count(shares) {
        Some(q) => q,
        None => {
            return EquityMinQuantity::refused(MinQuantitySource::Unrepresentable);
        },
    };
    if quantity > max_quantity {
        return EquityMinQuantity::refused(MinQuantitySource::Unrepresentable);
    }
    assert(shares * share_units <= min_units + share_units) by (nonlinear_arith)
        requires
            (shares - 1) * share_units < min_units,
    ;
    assert(shares * share_units >= 0) by (nonlinear_arith)
        requires
            shares > 0,
            share_units > 0,
    ;
    let source = if shares * share_units == min_units {
        MinQuantitySource::Native
    } else {
        MinQuantitySource::Normalized
    };
    EquityMinQuantity {
        quantity: Some(quantity),
        source,
        raw_min_size: Some(min),
        raw_size_increment: Some(increment),
        effective: Some(ExactDecimal { mantissa: shares, scale: 0 }),
        system_increment: ExactDecimal {
            mantissa: EQUITY_SYSTEM_SIZE_INCREMENT_SHARES,
            scale: 0,
        },
    }
}

/// A published minimum is at or above the venue's own and is the smallest such whole number of
/// shares; one share and the venue's minimum are both whole numbers of venue increments.
pub proof fn published_minimum_is_the_smallest_legal_one(
    min: ExactDecimal,
    increment: ExactDecimal,
    max_quantity: u64,
)
    requires
        min.fits(),
        increment.fits(),
        lattice_decision(min, increment, max_quantity).quantity is Some,
    ensures
        ({
            let quantity = lattice_decision(min, increment, max_quantity).quantity->0;
            let scale = common_scale(min, increment);
            &&& 0 < quantity <= max_quantity
            &&& units_at(min, scale) <= quantity * pow(10, scale)
            &&& forall|n: int| #[trigger]
                (n * pow(10, scale)) >= units_at(min, scale) ==> n >= quantity
            &&& pow(10, scale) % units_at(increment, scale) == 0
            &&& units_at(min, scale) % units_at(increment, scale) == 0
        }),
{
    let scale = common_scale(min, increment);
    let unit = pow(10, scale);
    let units = units_at(min, scale);
    lemma_pow_positive(10, scale);
    ceiling_bounds(units, unit);
    let q = ceiling(units, unit);
    assert forall|n: int| #[trigger] (n * unit) >= units implies n >= q by {
        if n < q {
            assert(n * unit <= (q - 1) * unit) by (nonlinear_arith)
                requires
                    n <= q - 1,
                    unit > 0,
            ;
        }
    }
}

/// A venue minimum that already is a whole number of shares is published unchanged, as native.
pub proof fn whole_share_minimum_is_published_verbatim(
    min: ExactDecimal,
    increment: ExactDecimal,
    max_quantity: u64,
    shares: int,
)
    requires
        min.fits(),
        increment.fits(),
        lattice_decision(min, increment, max_quantity).quantity is Some,
        units_at(min, common_scale(min, increment)) == shares * pow(
            10,
            common_scale(min, increment),
        ),
    ensures
        lattice_decision(min, increment, max_quantity).quantity->0 == shares,
        lattice_decision(min, increment, max_quantity).source == MinQuantitySource::Native,
{
    published_minimum_is_the_smallest_legal_one(min, increment, max_quantity);
    let scale = common_scale(min, increment);
    let unit = pow(10, scale);
    lemma_pow_positive(10, scale);
    let q = lattice_decision(min, increment, max_quantity).quantity->0;
    assert(shares * unit >= units_at(min, scale));
    assert(shares >= q);
    assert(q >= shares) by (nonlinear_arith)
        requires
            q * unit >= shares * unit,
            unit > 0,
    ;
}

/// A decision publishes a quantity, its decimal and the venue's two numbers together, or nothing
/// of the four, and then its source names the reason.
pub proof fn decisions_are_complete(
    min_size: WireNumber,
    size_increment: WireNumber,
    min: Option<ExactDecimal>,
    increment: Option<ExactDecimal>,
    max_quantity: u64,
)
    requires
        min matches Some(d) ==> d.fits(),
        increment matches Some(d) ==> d.fits(),
    ensures
        ({
            let d = min_quantity_decision(min_size, size_increment, min, increment, max_quantity);
            let accepted = d.source == MinQuantitySource::Native || d.source
                == MinQuantitySource::Normalized;
            if accepted {
                &&& d.raw_min_size == min && min is Some
                &&& d.raw_size_increment == increment && increment is Some
                &&& d.quantity matches Some(q)
                &&& d.effective matches Some(e)
                &&& e.mantissa == q && e.scale == 0
                &&& min_size.positive() && size_increment.positive()
            } else {
                d == refused_spec(d.source)
            }
        }),
{
    match (min, increment) {
        (Some(m), Some(i)) => {
            lemma_pow_positive(10, common_scale(m, i));
            let units = units_at(m, common_scale(m, i));
            let unit = pow(10, common_scale(m, i));
            if units > 0 {
                ceiling_bounds(units, unit);
            }
        },
        _ => {},
    }
}

} // verus!
