//! What a spread says of its legs.

use vstd::arithmetic::power::pow;
use vstd::prelude::*;

use crate::contracts::{ContractDetails, SecurityType};
use crate::decimal::ExactDecimal;
use crate::decimal_laws::{spelled_decimals_are_denoted, spells};
use crate::model::{AssetClass, InstrumentId, Quantity};
use crate::params::{InfoValue, Params};
use crate::providers::instruments::{InstrumentAny, SpreadContract};
use crate::providers::parse::parse_quantity;
use crate::providers::precision::tick_size_to_precision;
use crate::providers::spread::{
    finest_of_prefix, future_leg, has_future_leg, parse_futures_spread_instrument_id,
    parse_option_spread_instrument_id, parse_spread_instrument_any, parse_spread_instrument_id,
    spread_tick, spread_tick_is_the_finest, SpreadError, SpreadInputs,
};
use crate::wire_laws::{less, nan_bits};

verus! {

/// One of the legs is a future.
pub open spec fn any_future(legs: Seq<(&ContractDetails, i32)>) -> bool {
    exists|i: int|
        0 <= i < legs.len() && ((#[trigger] legs[i]).0.contract.security_type
            == SecurityType::Future || legs[i].0.contract.security_type
            == SecurityType::ContinuousFuture)
}

/// The number zero, without digits behind the point.
pub open spec fn is_zero(d: ExactDecimal) -> bool {
    d.mantissa == 0 && d.scale == 0
}

/// What every spread says of its legs: it goes by its own symbol, trades the underlying of the
/// first leg, or that leg's own symbol where it has none, in the currency of that leg, and steps by
/// the finest tick of all legs; it neither starts nor expires and costs nothing.
pub open spec fn tells_of_the_legs(
    spread: SpreadContract,
    legs: Seq<(&ContractDetails, i32)>,
    id: InstrumentId,
    digits: u8,
) -> bool {
    let first = legs[0].0;
    let tick = spread.price_increment.native;
    &&& spread.instrument_id == id
    &&& spread.raw_symbol@ == id.symbol@
    &&& first.under_symbol@.len() > 0 ==> spread.underlying@ == first.under_symbol@
    &&& first.under_symbol@.len() == 0 ==> spread.underlying@ == first.contract.symbol@
    &&& spread.strategy_type@ == "SPREAD"@
    &&& spread.currency@ == first.contract.currency@
    &&& exists|i: int| 0 <= i < legs.len() && (#[trigger] legs[i]).0.min_tick == tick
    &&& forall|i: int|
        0 <= i < legs.len() ==> !less((#[trigger] legs[i]).0.min_tick.bits, tick.bits)
    &&& nan_bits(tick.bits) ==> forall|i: int|
        0 <= i < legs.len() ==> nan_bits((#[trigger] legs[i]).0.min_tick.bits)
    &&& spread.price_increment.magnifier == 1
    &&& spread.price_increment.precision == digits && spread.price_precision == digits
    &&& spread.activation_ns == 0 && spread.expiration_ns == 0
    &&& is_zero(spread.margin_init) && is_zero(spread.margin_maint)
    &&& is_zero(spread.maker_fee) && is_zero(spread.taker_fee)
}

/// The multiplier of a spread is what the text of its first leg spells where that is a quantity, and
/// otherwise the default.
pub open spec fn multiplied_by(
    multiplier: Quantity,
    text: Seq<char>,
    d: ExactDecimal,
    default: u64,
    max_quantity: u64,
) -> bool {
    &&& spells(text, d) && 0 <= d.mantissa <= max_quantity * pow(10, d.scale as nat) ==> multiplier
        == Quantity::Parsed(d)
    &&& spells(text, d) && !(0 <= d.mantissa <= max_quantity * pow(10, d.scale as nat))
        ==> multiplier == Quantity::Whole(default)
    &&& multiplier is Parsed || multiplier == Quantity::Whole(default)
}

/// A spread is stamped with the time that is given, and otherwise with the present.
pub open spec fn stamped_in_time(spread: SpreadContract, given: Option<u64>, now: u64) -> bool {
    &&& given matches Some(time) ==> spread.ts_event == time && spread.ts_init == time
    &&& given is None ==> spread.ts_event == now && spread.ts_init == now
}

/// What a spread of options has: the class of an index where its first leg is an option on a future
/// and otherwise that of an equity, a multiplier that is a hundred unless that leg gives one, and
/// lots of it.
pub open spec fn is_of_options(
    spread: SpreadContract,
    legs: Seq<(&ContractDetails, i32)>,
    d: ExactDecimal,
    max_quantity: u64,
) -> bool {
    &&& legs[0].0.contract.security_type == SecurityType::FuturesOption ==> spread.asset_class
        == AssetClass::Index
    &&& legs[0].0.contract.security_type != SecurityType::FuturesOption ==> spread.asset_class
        == AssetClass::Equity
    &&& multiplied_by(spread.multiplier, legs[0].0.contract.multiplier@, d, 100, max_quantity)
    &&& spread.lot_size == spread.multiplier
}

/// What a spread of futures has: the class of an index, a multiplier that is one unless the first
/// leg gives one, and lots of one.
pub open spec fn is_of_futures(
    spread: SpreadContract,
    legs: Seq<(&ContractDetails, i32)>,
    d: ExactDecimal,
    max_quantity: u64,
) -> bool {
    &&& spread.asset_class == AssetClass::Index
    &&& multiplied_by(spread.multiplier, legs[0].0.contract.multiplier@, d, 1, max_quantity)
    &&& spread.lot_size == Quantity::Whole(1)
}

/// The named values of a spread: the fields of the contract that holds its legs together, and there
/// are none where there is no such contract.
pub open spec fn holds_the_bag(
    spread: SpreadContract,
    bag_params: Option<Params>,
    info: Params,
    name: Seq<char>,
    value: Option<&InfoValue>,
) -> bool {
    &&& spread.info is Some <==> bag_params is Some
    &&& spread.info == Some(info) && bag_params is Some ==> {
        &&& name == "contract"@ ==> (value matches Some(InfoValue::Object(params)) && *params
            == bag_params->0)
        &&& name != "contract"@ ==> value is None
    }
}

proof fn legs_have_their_finest_tick(legs: Seq<(&ContractDetails, i32)>)
    requires
        legs.len() > 0,
    ensures
        ({
            let tick = spread_tick(legs);
            &&& exists|i: int| 0 <= i < legs.len() && (#[trigger] legs[i]).0.min_tick == tick
            &&& forall|i: int|
                0 <= i < legs.len() ==> !less((#[trigger] legs[i]).0.min_tick.bits, tick.bits)
            &&& nan_bits(tick.bits) ==> forall|i: int|
                0 <= i < legs.len() ==> nan_bits((#[trigger] legs[i]).0.min_tick.bits)
        }),
{
    spread_tick_is_the_finest(legs);
    finest_of_prefix(legs, legs.len() as int);
    let tick = spread_tick(legs);
    assert forall|i: int| 0 <= i < legs.len() implies !less(
        (#[trigger] legs[i]).0.min_tick.bits,
        tick.bits,
    ) by {
        assert(!legs[i].0.min_tick.below(&tick));
    }
    if nan_bits(tick.bits) {
        assert(tick.nan());
        assert forall|i: int| 0 <= i < legs.len() implies nan_bits(
            (#[trigger] legs[i]).0.min_tick.bits,
        ) by {
            assert(legs[i].0.min_tick.nan());
        }
    }
}

/// Legs become one spread: of futures where any of them is a future, and otherwise of options. No
/// legs become none.
pub proof fn spreads_say_what_their_legs_say(
    id: &InstrumentId,
    legs: &[(&ContractDetails, i32)],
    inputs: SpreadInputs,
    outcome: Result<InstrumentAny, SpreadError>,
    spread: SpreadContract,
    digits: u8,
    d: ExactDecimal,
    info: Params,
    name: &str,
    value: Option<&InfoValue>,
)
    requires
        call_ensures(parse_spread_instrument_any, (id, legs, inputs), outcome),
        call_ensures(tick_size_to_precision, (&spread.price_increment.native,), digits),
        call_ensures(Params::get, (&info, name), value),
    ensures
        legs@.len() == 0 <==> outcome == Err::<InstrumentAny, SpreadError>(SpreadError::NoLegs),
        legs@.len() > 0 && any_future(legs@) ==> outcome matches Ok(InstrumentAny::FuturesSpread(_)),
        legs@.len() > 0 && !any_future(legs@) ==> outcome matches Ok(InstrumentAny::OptionSpread(_)),
        outcome == Ok::<InstrumentAny, SpreadError>(InstrumentAny::FuturesSpread(spread)) ==> {
            &&& tells_of_the_legs(spread, legs@, *id, digits)
            &&& is_of_futures(spread, legs@, d, inputs.max_quantity)
            &&& stamped_in_time(spread, inputs.timestamp_ns, inputs.now)
            &&& holds_the_bag(spread, inputs.bag_params, info, name@, value)
        },
        outcome == Ok::<InstrumentAny, SpreadError>(InstrumentAny::OptionSpread(spread)) ==> {
            &&& tells_of_the_legs(spread, legs@, *id, digits)
            &&& is_of_options(spread, legs@, d, inputs.max_quantity)
            &&& stamped_in_time(spread, inputs.timestamp_ns, inputs.now)
            &&& holds_the_bag(spread, inputs.bag_params, info, name@, value)
        },
{
    if legs@.len() > 0 {
        legs_have_their_finest_tick(legs@);
        if spells(legs@[0].0.contract.multiplier@, d) {
            spelled_decimals_are_denoted(legs@[0].0.contract.multiplier@, d);
        }
        if any_future(legs@) {
            let i = choose|i: int|
                0 <= i < legs@.len() && ((#[trigger] legs@[i]).0.contract.security_type
                    == SecurityType::Future || legs@[i].0.contract.security_type
                    == SecurityType::ContinuousFuture);
            assert(future_leg(*legs@[i].0));
        }
        if has_future_leg(legs@) {
            let i = choose|i: int|
                0 <= i < legs@.len() && future_leg(
                    *(#[trigger] legs@[i]).0,
                );
            assert(legs@[i].0.contract.security_type == SecurityType::Future
                || legs@[i].0.contract.security_type == SecurityType::ContinuousFuture);
        }
    }
}

/// Legs that are asked for as a spread of options become one, without named values where none are
/// asked for.
pub proof fn option_spreads_say_what_their_legs_say(
    id: &InstrumentId,
    legs: &[(&ContractDetails, i32)],
    inputs: SpreadInputs,
    bare: Result<SpreadContract, SpreadError>,
    outcome: Result<SpreadContract, SpreadError>,
    spread: SpreadContract,
    digits: u8,
    d: ExactDecimal,
    info: Params,
    name: &str,
    value: Option<&InfoValue>,
)
    requires
        call_ensures(parse_spread_instrument_id, (id, legs, &inputs), bare),
        call_ensures(parse_option_spread_instrument_id, (id, legs, inputs), outcome),
        call_ensures(tick_size_to_precision, (&spread.price_increment.native,), digits),
        call_ensures(Params::get, (&info, name), value),
    ensures
        legs@.len() == 0 <==> bare == Err::<SpreadContract, SpreadError>(SpreadError::NoLegs),
        legs@.len() == 0 <==> outcome == Err::<SpreadContract, SpreadError>(SpreadError::NoLegs),
        bare == Ok::<SpreadContract, SpreadError>(spread) ==> {
            &&& tells_of_the_legs(spread, legs@, *id, digits)
            &&& is_of_options(spread, legs@, d, inputs.max_quantity)
            &&& stamped_in_time(spread, inputs.timestamp_ns, inputs.now)
            &&& spread.info is None
        },
        outcome == Ok::<SpreadContract, SpreadError>(spread) ==> {
            &&& tells_of_the_legs(spread, legs@, *id, digits)
            &&& is_of_options(spread, legs@, d, inputs.max_quantity)
            &&& stamped_in_time(spread, inputs.timestamp_ns, inputs.now)
            &&& holds_the_bag(spread, inputs.bag_params, info, name@, value)
        },
{
    if legs@.len() > 0 {
        legs_have_their_finest_tick(legs@);
        if spells(legs@[0].0.contract.multiplier@, d) {
            spelled_decimals_are_denoted(legs@[0].0.contract.multiplier@, d);
        }
    }
}

/// Whatever its text is, the multiplier of a spread is the quantity that its first leg gives, and
/// otherwise the default.
pub proof fn spreads_multiply_by_a_quantity(
    id: &InstrumentId,
    legs: &[(&ContractDetails, i32)],
    inputs: SpreadInputs,
    options: SpreadContract,
    futures: SpreadContract,
    text: &str,
    read: Option<ExactDecimal>,
)
    requires
        legs@.len() > 0,
        call_ensures(
            parse_option_spread_instrument_id,
            (id, legs, inputs),
            Ok::<SpreadContract, SpreadError>(options),
        ),
        call_ensures(
            parse_futures_spread_instrument_id,
            (id, legs, inputs),
            Ok::<SpreadContract, SpreadError>(futures),
        ),
        text@ == legs@[0].0.contract.multiplier@,
        call_ensures(parse_quantity, (text, inputs.max_quantity), read),
    ensures
        read matches Some(d) ==> options.multiplier == Quantity::Parsed(d) && futures.multiplier
            == Quantity::Parsed(d),
        read is None ==> options.multiplier == Quantity::Whole(100) && futures.multiplier
            == Quantity::Whole(1),
{
}

/// Legs that are asked for as a spread of futures become one.
pub proof fn futures_spreads_say_what_their_legs_say(
    id: &InstrumentId,
    legs: &[(&ContractDetails, i32)],
    inputs: SpreadInputs,
    outcome: Result<SpreadContract, SpreadError>,
    spread: SpreadContract,
    digits: u8,
    d: ExactDecimal,
    info: Params,
    name: &str,
    value: Option<&InfoValue>,
)
    requires
        call_ensures(parse_futures_spread_instrument_id, (id, legs, inputs), outcome),
        call_ensures(tick_size_to_precision, (&spread.price_increment.native,), digits),
        call_ensures(Params::get, (&info, name), value),
    ensures
        legs@.len() == 0 <==> outcome == Err::<SpreadContract, SpreadError>(SpreadError::NoLegs),
        outcome == Ok::<SpreadContract, SpreadError>(spread) ==> {
            &&& tells_of_the_legs(spread, legs@, *id, digits)
            &&& is_of_futures(spread, legs@, d, inputs.max_quantity)
            &&& stamped_in_time(spread, inputs.timestamp_ns, inputs.now)
            &&& holds_the_bag(spread, inputs.bag_params, info, name@, value)
        },
{
    if legs@.len() > 0 {
        legs_have_their_finest_tick(legs@);
        if spells(legs@[0].0.contract.multiplier@, d) {
            spelled_decimals_are_denoted(legs@[0].0.contract.multiplier@, d);
        }
    }
}

} // verus!
