//! What the smallest order quantity of an equity is.

use vstd::arithmetic::power::{lemma_pow_positive, pow};
use vstd::prelude::*;

use crate::contracts::ContractDetails;
use crate::decimal::{plain, plain_decimal, plain_value, ExactDecimal};
use crate::decimal_laws::{
    normalized_texts_tell, spelled_by, spelled_decimals_are_denoted, spells, tells,
};
use crate::params::{number_value, InfoValue};
use crate::providers::info::{decimal_view, entries_view, writable};
use crate::providers::instrument_laws::{number_held, value_names_differ};
use crate::providers::min_quantity::{
    ceiling, ceiling_bounds, ceiling_div, equity_min_quantity_of, exact_decimal, exact_share_count,
    mantissa_at_scale, pow10_i128, EquityMinQuantity, MinQuantitySource,
};
use crate::providers::parse::equity_min_quantity;
use crate::wire::WireNumber;
use crate::wire_laws::{above_zero, below_zero, infinite_bits, nan_bits, zero_bits};

verus! {

/// A number above zero that is finite.
pub open spec fn usable(bits: u64) -> bool {
    above_zero(bits) && !infinite_bits(bits)
}

/// The source that a size gives a decision by itself: that it is absent, that it is no number, or
/// that it is below zero.
pub open spec fn faulty_size(bits: u64, absent: bool, no_number: bool, below: bool) -> bool {
    &&& absent <==> zero_bits(bits)
    &&& no_number <==> nan_bits(bits) || infinite_bits(bits)
    &&& below <==> below_zero(bits) && !infinite_bits(bits)
}

/// How many digits behind the point the two numbers have at most.
pub open spec fn finer(a: ExactDecimal, b: ExactDecimal) -> nat {
    if a.scale < b.scale {
        b.scale as nat
    } else {
        a.scale as nat
    }
}

/// A number in units of the last digit behind the point.
pub open spec fn in_units(d: ExactDecimal, digits: nat) -> int {
    d.mantissa * pow(10, (digits - d.scale) as nat)
}

/// The decision on two sizes that are numbers above zero. With everything counted in units of the
/// last digit: one share and the minimum each have to be a whole number of increments, and what is
/// published is the smallest whole number of shares that reaches the minimum, where the model and
/// exact integers of binary64 go that far.
pub open spec fn smallest_legal_quantity(
    r: EquityMinQuantity,
    min: ExactDecimal,
    increment: ExactDecimal,
    max_quantity: u64,
) -> bool {
    let digits = finer(min, increment);
    let share = pow(10, digits);
    let least = in_units(min, digits);
    let step = in_units(increment, digits);
    let counted = 0 < least <= i128::MAX && 0 < step <= i128::MAX;
    let legal = counted && share % step == 0 && least % step == 0;
    &&& r.source == MinQuantitySource::IncrementIncompatible <==> counted && share % step != 0
    &&& r.source == MinQuantitySource::MinOffLattice <==> counted && share % step == 0 && least
        % step != 0
    &&& match r.quantity {
        Some(q) => {
            &&& legal
            &&& 0 < q <= max_quantity && q <= 9_007_199_254_740_992
            &&& (q - 1) * share < least <= q * share
            &&& r.source == (if q * share == least {
                MinQuantitySource::Native
            } else {
                MinQuantitySource::Normalized
            })
            &&& r.raw_min_size == Some(min)
            &&& r.raw_size_increment == Some(increment)
            &&& r.effective matches Some(e) && e.mantissa == q && e.scale == 0
        },
        None => {
            &&& r.raw_min_size is None && r.raw_size_increment is None && r.effective is None
            &&& !counted || legal ==> r.source == MinQuantitySource::Unrepresentable
            &&& legal ==> least + share > i128::MAX || forall|q: int|
                (q - 1) * share < least && least <= #[trigger] (q * share) ==> q > max_quantity || q
                    > 9_007_199_254_740_992
        },
    }
}

/// The decision on the sizes of the venue: the first of them that is absent, no number or below
/// zero is the reason that nothing is published.
pub open spec fn decided(
    r: EquityMinQuantity,
    min_size: WireNumber,
    size_increment: WireNumber,
    min: Option<ExactDecimal>,
    increment: Option<ExactDecimal>,
    max_quantity: u64,
) -> bool {
    &&& faulty_size(
        min_size.bits,
        r.source == MinQuantitySource::Missing,
        r.source == MinQuantitySource::NonFinite,
        r.source == MinQuantitySource::NonPositive,
    )
    &&& usable(min_size.bits) ==> faulty_size(
        size_increment.bits,
        r.source == MinQuantitySource::IncrementMissing,
        r.source == MinQuantitySource::IncrementNonFinite,
        r.source == MinQuantitySource::IncrementNonPositive,
    )
    &&& r.system_increment.mantissa == 1 && r.system_increment.scale == 0
    &&& if usable(min_size.bits) && usable(size_increment.bits) && min is Some && increment is Some {
        smallest_legal_quantity(r, min->0, increment->0, max_quantity)
    } else {
        &&& r.quantity is None && r.effective is None
        &&& r.raw_min_size is None && r.raw_size_increment is None
        &&& usable(min_size.bits) && usable(size_increment.bits) ==> r.source
            == MinQuantitySource::Unrepresentable
    }
}

proof fn quantities_are_the_smallest(numerator: int, share: int)
    requires
        numerator > 0,
        share > 0,
    ensures
        forall|q: int|
            (q - 1) * share < numerator && numerator <= #[trigger] (q * share) ==> q == ceiling(
                numerator,
                share,
            ),
{
    ceiling_bounds(numerator, share);
    let c = ceiling(numerator, share);
    assert forall|q: int|
        (q - 1) * share < numerator && numerator <= #[trigger] (q * share) implies q == c by {
        assert(q == c) by (nonlinear_arith)
            requires
                (q - 1) * share < numerator,
                numerator <= q * share,
                (c - 1) * share < numerator,
                numerator <= c * share,
                share > 0,
        ;
    }
}

/// The decision on the sizes of the venue, where their decimals are given.
pub proof fn minimums_are_decided_by_their_decimals(
    min_size: &WireNumber,
    size_increment: &WireNumber,
    min: Option<ExactDecimal>,
    increment: Option<ExactDecimal>,
    max_quantity: u64,
    r: EquityMinQuantity,
)
    requires
        call_ensures(
            equity_min_quantity_of,
            (min_size, size_increment, min, increment, max_quantity),
            r,
        ),
        min matches Some(d) ==> d.fits(),
        increment matches Some(d) ==> d.fits(),
    ensures
        decided(r, *min_size, *size_increment, min, increment, max_quantity),
{
    if min is Some && increment is Some {
        let digits = finer(min->0, increment->0);
        lemma_pow_positive(10, digits);
        let least = in_units(min->0, digits);
        if least > 0 {
            ceiling_bounds(least, pow(10, digits));
            quantities_are_the_smallest(least, pow(10, digits));
        }
    }
}

/// The decision on the sizes of a contract, where they are spelled out.
pub proof fn minimums_are_decided_by_what_is_spelled(
    details: &ContractDetails,
    max_quantity: u64,
    r: EquityMinQuantity,
    min: ExactDecimal,
    increment: ExactDecimal,
)
    requires
        call_ensures(equity_min_quantity, (details, max_quantity), r),
        spells(details.min_size.text@, min),
        spells(details.size_increment.text@, increment),
    ensures
        decided(
            r,
            details.min_size,
            details.size_increment,
            Some(min),
            Some(increment),
            max_quantity,
        ),
{
    spelled_texts_are_plain(details.min_size.text@, min);
    spelled_texts_are_plain(details.size_increment.text@, increment);
    let digits = finer(min, increment);
    lemma_pow_positive(10, digits);
    let least = in_units(min, digits);
    if least > 0 {
        ceiling_bounds(least, pow(10, digits));
        quantities_are_the_smallest(least, pow(10, digits));
    }
}

/// Whatever the sizes of a contract are, the decision on them is the one on their decimals.
pub proof fn minimums_are_those_of_their_decimals(
    details: &ContractDetails,
    max_quantity: u64,
    min: Option<ExactDecimal>,
    increment: Option<ExactDecimal>,
    given: EquityMinQuantity,
    r: EquityMinQuantity,
)
    requires
        call_ensures(exact_decimal, (&details.min_size,), min),
        call_ensures(exact_decimal, (&details.size_increment,), increment),
        call_ensures(
            equity_min_quantity_of,
            (&details.min_size, &details.size_increment, min, increment, max_quantity),
            given,
        ),
        call_ensures(equity_min_quantity, (details, max_quantity), r),
    ensures
        r == given,
{
}

proof fn spelled_texts_are_plain(text: Seq<char>, d: ExactDecimal)
    requires
        spells(text, d),
    ensures
        plain(text),
        plain_value(text) == Some(d),
{
    spelled_decimals_are_denoted(text, d);
    let (negative, whole, fraction) = choose|
        negative: bool,
        whole: Seq<char>,
        fraction: Seq<char>,
    | #[trigger]
        spelled_by(text, d, negative, whole, fraction);
    assert(text =~= (if negative {
        seq!['-']
    } else {
        Seq::empty()
    }) + whole + (if fraction.len() > 0 {
        seq!['.'] + fraction
    } else {
        Seq::empty()
    }));
    assert(plain_decimal(text, negative, whole, fraction));
}

/// A finite number has the decimal that its rendering spells, and one that is not finite has none.
pub proof fn numbers_have_the_decimal_they_spell(
    value: &WireNumber,
    r: Option<ExactDecimal>,
    d: ExactDecimal,
)
    requires
        call_ensures(exact_decimal, (value,), r),
        spells(value.text@, d),
    ensures
        nan_bits(value.bits) || infinite_bits(value.bits) ==> r is None,
        !nan_bits(value.bits) && !infinite_bits(value.bits) ==> r == Some(d),
{
    spelled_texts_are_plain(value.text@, d);
}

/// A refusal has nothing but its reason and the step of the model.
pub proof fn refusals_have_their_reason(source: MinQuantitySource, r: EquityMinQuantity)
    requires
        call_ensures(EquityMinQuantity::refused, (source,), r),
    ensures
        r.source == source,
        r.quantity is None && r.effective is None,
        r.raw_min_size is None && r.raw_size_increment is None,
        r.system_increment.mantissa == 1 && r.system_increment.scale == 0,
{
}

/// Powers of ten are counted as long as they fit, and a decimal is counted in units of a digit that
/// is not before its own last one.
pub proof fn decimals_are_counted_in_units(
    exponent: u32,
    power: Option<i128>,
    value: ExactDecimal,
    scale: u32,
    units: Option<i128>,
)
    requires
        call_ensures(pow10_i128, (exponent,), power),
        call_ensures(mantissa_at_scale, (value, scale), units),
    ensures
        power matches Some(n) ==> n == pow(10, exponent as nat),
        power is None ==> pow(10, exponent as nat) > i128::MAX,
        units matches Some(n) ==> value.scale <= scale && n == value.mantissa * pow(
            10,
            (scale - value.scale) as nat,
        ),
        units is None && value.scale <= scale && value.mantissa != 0 ==> !(i128::MIN
            <= value.mantissa * pow(10, (scale - value.scale) as nat) <= i128::MAX),
{
    lemma_pow_positive(10, exponent as nat);
    if value.scale <= scale && value.mantissa != 0 {
        let unit = pow(10, (scale - value.scale) as nat);
        lemma_pow_positive(10, (scale - value.scale) as nat);
        let m = value.mantissa as int;
        if unit > i128::MAX {
            assert(m * unit >= unit || m * unit <= -unit) by (nonlinear_arith)
                requires
                    m >= 1 || m <= -1,
                    unit > 0,
            ;
            if !(m * unit >= unit) {
                assert(m * unit <= -unit);
                assert(-unit <= -i128::MAX - 1);
                assert(m * unit == -unit ==> m == -1) by (nonlinear_arith)
                    requires
                        unit > 0,
                ;
                power_of_ten_is_no_power_of_two(unit, (scale - value.scale) as nat);
            }
        }
    }
}

proof fn power_of_ten_is_no_power_of_two(unit: int, exponent: nat)
    requires
        unit == pow(10, exponent),
    ensures
        unit != 0x8000_0000_0000_0000_0000_0000_0000_0000,
{
    if exponent > 0 {
        assert(unit == 10 * pow(10, (exponent - 1) as nat)) by {
            reveal(pow);
        }
        let rest = pow(10, (exponent - 1) as nat);
        assert(unit % 10 == 0) by (nonlinear_arith)
            requires
                unit == 10 * rest,
        ;
    } else {
        assert(unit == 1) by {
            reveal(pow);
        }
    }
}

/// A quotient is rounded up to the smallest integer that reaches it, where both numbers are above
/// zero and their sum fits.
pub proof fn quotients_are_rounded_up(numerator: i128, denominator: i128, r: Option<i128>)
    requires
        call_ensures(ceiling_div, (numerator, denominator), r),
    ensures
        r is Some <==> numerator > 0 && denominator > 0 && numerator + denominator <= i128::MAX,
        r matches Some(q) ==> (q - 1) * denominator < numerator <= q * denominator,
{
}

/// A number of shares is exact from one to the largest integer up to which binary64 holds every
/// one.
pub proof fn share_counts_are_exact(shares: i128, r: Option<u64>)
    requires
        call_ensures(exact_share_count, (shares,), r),
    ensures
        r is Some <==> 1 <= shares <= 9_007_199_254_740_992,
        r matches Some(count) ==> count == shares,
{
}

/// Every source has its label.
pub open spec fn labelled(source: MinQuantitySource, label: Seq<char>) -> bool {
    match source {
        MinQuantitySource::Native => label == "contract_details.min_size"@,
        MinQuantitySource::Normalized => label
            == "contract_details.min_size.ceiling_to_system_size_increment"@,
        MinQuantitySource::Missing => label == "contract_details.min_size.missing"@,
        MinQuantitySource::NonFinite => label == "contract_details.min_size.non_finite"@,
        MinQuantitySource::NonPositive => label == "contract_details.min_size.non_positive"@,
        MinQuantitySource::Unrepresentable => label
            == "contract_details.min_size.not_representable_at_equity_precision"@,
        MinQuantitySource::IncrementMissing => label == "contract_details.size_increment.missing"@,
        MinQuantitySource::IncrementNonFinite => label
            == "contract_details.size_increment.non_finite"@,
        MinQuantitySource::IncrementNonPositive => label
            == "contract_details.size_increment.non_positive"@,
        MinQuantitySource::IncrementIncompatible => label
            == "contract_details.size_increment.system_increment_not_on_lattice"@,
        MinQuantitySource::MinOffLattice => label
            == "contract_details.min_size.not_on_size_increment_lattice"@,
    }
}

/// A source is recorded under its label.
pub proof fn sources_have_their_label(source: &MinQuantitySource, label: &'static str)
    requires
        call_ensures(MinQuantitySource::as_str, (source,), label),
    ensures
        labelled(*source, label@),
{
}

/// A decimal among the named values: its shortest text, and nothing where there is none.
pub open spec fn decimal_held(value: Option<&InfoValue>, d: Option<ExactDecimal>) -> bool {
    match d {
        Some(d) => value matches Some(InfoValue::Text(text)) && tells(text@, d),
        None => value matches Some(InfoValue::Null),
    }
}

/// The named values of a decision are those that it says.
pub open spec fn provenance_held(
    name: Seq<char>,
    value: Option<&InfoValue>,
    decision: EquityMinQuantity,
) -> bool {
    &&& name == "minQuantityRawMinSize"@ ==> decimal_held(value, decision.raw_min_size)
    &&& name == "minQuantityRawSizeIncrement"@ ==> decimal_held(value, decision.raw_size_increment)
    &&& name == "minQuantityEffective"@ ==> decimal_held(value, decision.effective)
    &&& name == "minQuantitySystemIncrement"@ ==> decimal_held(
        value,
        Some(decision.system_increment),
    )
    &&& name == "minQuantityNormalizationRule"@ ==> (value matches Some(InfoValue::Text(text))
        && labelled(decision.source, text@))
}

pub(crate) proof fn decimals_are_held(d: Option<ExactDecimal>, value: InfoValue)
    requires
        d matches Some(d) ==> d.fits(),
        value@ == decimal_view(d),
    ensures
        decimal_held(Some(&value), d),
{
    if let Some(d) = d {
        normalized_texts_tell(d);
    }
}

/// A decision gives five named values: the two sizes, the quantity, the step of the model, and its
/// source.
pub proof fn decisions_give_their_named_values(
    decision: &EquityMinQuantity,
    entries: Vec<(&'static str, InfoValue)>,
)
    requires
        call_ensures(EquityMinQuantity::provenance, (decision,), entries),
        writable(*decision),
    ensures
        entries@.len() == 5,
        entries@[0].0@ == "minQuantityRawMinSize"@,
        entries@[1].0@ == "minQuantityRawSizeIncrement"@,
        entries@[2].0@ == "minQuantityEffective"@,
        entries@[3].0@ == "minQuantitySystemIncrement"@,
        entries@[4].0@ == "minQuantityNormalizationRule"@,
        forall|i: int|
            0 <= i < 5 ==> provenance_held(
                (#[trigger] entries@[i]).0@,
                Some(&entries@[i].1),
                *decision,
            ),
{
    value_names_differ();
    let views = entries_view(entries@);
    assert(views.len() == entries@.len());
    assert(views[0] == (entries@[0].0@, entries@[0].1@));
    assert(views[1] == (entries@[1].0@, entries@[1].1@));
    assert(views[2] == (entries@[2].0@, entries@[2].1@));
    assert(views[3] == (entries@[3].0@, entries@[3].1@));
    assert(views[4] == (entries@[4].0@, entries@[4].1@));
    decimals_are_held(decision.raw_min_size, entries@[0].1);
    decimals_are_held(decision.raw_size_increment, entries@[1].1);
    decimals_are_held(decision.effective, entries@[2].1);
    decimals_are_held(Some(decision.system_increment), entries@[3].1);
}

/// A number is held as it is where it is finite.
pub proof fn finite_numbers_are_held(value: &WireNumber, r: InfoValue)
    requires
        call_ensures(number_value, (value,), r),
    ensures
        number_held(Some(&r), *value),
{
}

} // verus!
