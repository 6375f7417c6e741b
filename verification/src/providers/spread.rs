//! Spreads of several legs.

use vstd::prelude::*;

use crate::contracts::{ContractDetails, SecurityType};
use crate::decimal::{plain_value, told_by_digits, ExactDecimal};
use crate::intern::interned;
use crate::model::{AssetClass, InstrumentId, Quantity};
use crate::params::Params;
use crate::providers::info::{bag_info, ib_contract_info_for_contract};
use crate::providers::instruments::{InstrumentAny, SpreadContract};
use crate::providers::parse::{
    parse_quantity, plain_price, price_of, quantity_of_text, quantity_within,
};
use crate::providers::precision::{tick_precision, tick_size_to_precision};
use crate::wire::WireNumber;

verus! {

/// A spread without legs.
#[derive(Debug, Clone, Copy, PartialEq, Eq, Structural)]
pub enum SpreadError {
    NoLegs,
}

/// What a spread is parsed with beside its legs.
#[derive(Debug)]
pub struct SpreadInputs {
    /// The fields of the contract that holds the legs together, where there is one.
    pub bag_params: Option<Params>,
    /// The time that the spread is stamped with; the present time where there is none.
    pub timestamp_ns: Option<u64>,
    /// The largest quantity of the model.
    pub max_quantity: u64,
    /// The time in nanoseconds since 1970.
    pub now: u64,
}

/// The smallest tick of the first `n` legs and `start`.
pub open spec fn finest_tick(
    legs: Seq<(&ContractDetails, i32)>,
    start: WireNumber,
    n: int,
) -> WireNumber
    decreases n,
{
    if n <= 0 {
        start
    } else {
        finest_tick(legs, start, n - 1).lesser(legs[n - 1].0.min_tick)
    }
}

/// The smallest tick of all legs.
pub open spec fn spread_tick(legs: Seq<(&ContractDetails, i32)>) -> WireNumber {
    finest_tick(legs, legs[0].0.min_tick, legs.len() as int)
}

/// The underlying of a spread: that of its first leg, or the symbol of that leg where it has none.
pub open spec fn spread_underlying(first: ContractDetails) -> Seq<char> {
    if first.under_symbol@.len() > 0 {
        first.under_symbol@
    } else {
        first.contract.symbol@
    }
}

/// A leg is a future.
pub open spec fn future_leg(details: ContractDetails) -> bool {
    details.contract.security_type == SecurityType::Future || details.contract.security_type
        == SecurityType::ContinuousFuture
}

/// One of the legs is a future.
pub open spec fn has_future_leg(legs: Seq<(&ContractDetails, i32)>) -> bool {
    exists|i: int| 0 <= i < legs.len() && future_leg(*(#[trigger] legs[i]).0)
}

/// The decimal zero.
pub open spec fn zero_decimal() -> ExactDecimal {
    ExactDecimal { mantissa: 0, scale: 0 }
}

/// The quantity that the multiplier of the first leg is.
pub open spec fn leg_multiplier(
    legs: Seq<(&ContractDetails, i32)>,
    max_quantity: u64,
) -> Option<ExactDecimal> {
    quantity_of_text(legs[0].0.contract.multiplier@, max_quantity)
}

/// The multiplier of a spread is the one that the text of its first leg denotes digit for digit,
/// where its digits tell it.
pub open spec fn is_exact_spread(
    spread: SpreadContract,
    legs: Seq<(&ContractDetails, i32)>,
    default: u64,
    max_quantity: u64,
) -> bool {
    let text = legs[0].0.contract.multiplier@;
    told_by_digits(text) ==> spread.multiplier == spread_multiplier(
        quantity_within(plain_value(text), max_quantity),
        default,
    )
}

/// The multiplier of a spread: that of its first leg where it is a quantity, and otherwise the
/// default.
pub open spec fn spread_multiplier(parsed: Option<ExactDecimal>, default: u64) -> Quantity {
    match parsed {
        Some(d) => Quantity::Parsed(d),
        None => Quantity::Whole(default),
    }
}

/// The time that a spread is stamped with.
pub open spec fn spread_time(inputs: SpreadInputs) -> u64 {
    match inputs.timestamp_ns {
        Some(time) => time,
        None => inputs.now,
    }
}

/// The named values of a spread.
pub open spec fn is_spread_info(info: Option<Params>, bag_params: Option<Params>) -> bool {
    match (info, bag_params) {
        (Some(info), Some(params)) => info.wf() && info@ == bag_info(params),
        (None, None) => true,
        _ => false,
    }
}

/// The parts of a spread that options and futures share.
pub open spec fn is_spread(
    spread: SpreadContract,
    legs: Seq<(&ContractDetails, i32)>,
    id: InstrumentId,
    inputs: SpreadInputs,
) -> bool {
    let first = *legs[0].0;
    &&& spread.instrument_id == id
    &&& spread.raw_symbol@ == id.symbol@
    &&& spread.underlying@ == spread_underlying(first)
    &&& spread.strategy_type@ == "SPREAD"@
    &&& spread.activation_ns == 0
    &&& spread.expiration_ns == 0
    &&& spread.currency@ == first.contract.currency@
    &&& spread.price_precision == tick_precision(spread_tick(legs))
    &&& spread.price_increment == plain_price(spread_tick(legs), spread.price_precision)
    &&& spread.margin_init == zero_decimal()
    &&& spread.margin_maint == zero_decimal()
    &&& spread.maker_fee == zero_decimal()
    &&& spread.taker_fee == zero_decimal()
    &&& spread.ts_event == spread_time(inputs)
    &&& spread.ts_init == spread_time(inputs)
}

/// A spread of options: an index spread where its first leg is an option on a future, held in lots
/// of its multiplier.
pub open spec fn is_option_spread(
    spread: SpreadContract,
    legs: Seq<(&ContractDetails, i32)>,
    id: InstrumentId,
    inputs: SpreadInputs,
) -> bool {
    &&& is_spread(spread, legs, id, inputs)
    &&& spread.asset_class == (if legs[0].0.contract.security_type
        == SecurityType::FuturesOption {
        AssetClass::Index
    } else {
        AssetClass::Equity
    })
    &&& spread.multiplier == spread_multiplier(leg_multiplier(legs, inputs.max_quantity), 100)
    &&& spread.lot_size == spread.multiplier
}

/// A spread of futures, held in lots of one.
pub open spec fn is_futures_spread(
    spread: SpreadContract,
    legs: Seq<(&ContractDetails, i32)>,
    id: InstrumentId,
    inputs: SpreadInputs,
) -> bool {
    &&& is_spread(spread, legs, id, inputs)
    &&& spread.asset_class == AssetClass::Index
    &&& spread.multiplier == spread_multiplier(leg_multiplier(legs, inputs.max_quantity), 1)
    &&& spread.lot_size == Quantity::Whole(1)
    &&& is_spread_info(spread.info, inputs.bag_params)
}

fn smallest_tick(legs: &[(&ContractDetails, i32)]) -> (r: WireNumber)
    requires
        legs@.len() > 0,
    ensures
        r == spread_tick(legs@),
{
    let mut tick = legs[0].0.min_tick.clone();
    let mut i: usize = 0;
    while i < legs.len()
        invariant
            legs@.len() > 0,
            i <= legs@.len(),
            tick == finest_tick(legs@, legs@[0].0.min_tick, i as int),
        decreases legs.len() - i,
    {
        tick = tick.min(&legs[i].0.min_tick);
        i += 1;
    }
    tick
}

fn spread_of(
    legs: &[(&ContractDetails, i32)],
    id: &InstrumentId,
    asset_class: AssetClass,
    multiplier: Quantity,
    lot_size: Quantity,
    info: Option<Params>,
    timestamp: u64,
) -> (spread: SpreadContract)
    requires
        legs@.len() > 0,
    ensures
        forall|inputs: SpreadInputs|
            spread_time(inputs) == timestamp ==> #[trigger] is_spread(spread, legs@, *id, inputs),
        spread.asset_class == asset_class,
        spread.multiplier == multiplier,
        spread.lot_size == lot_size,
        spread.info == info,
{
    let first = legs[0].0;
    let underlying = if !first.under_symbol.as_str().is_empty() {
        interned(first.under_symbol.as_str())
    } else {
        interned(first.contract.symbol.as_str())
    };
    let tick = smallest_tick(legs);
    let price_precision: u8 = tick_size_to_precision(&tick);
    SpreadContract {
        instrument_id: id.clone(),
        raw_symbol: id.symbol.clone(),
        asset_class,
        underlying,
        strategy_type: interned("SPREAD"),
        activation_ns: 0,
        expiration_ns: 0,
        currency: first.contract.currency.clone(),
        price_precision,
        price_increment: price_of(&tick, price_precision),
        multiplier,
        lot_size,
        margin_init: ExactDecimal { mantissa: 0, scale: 0 },
        margin_maint: ExactDecimal { mantissa: 0, scale: 0 },
        maker_fee: ExactDecimal { mantissa: 0, scale: 0 },
        taker_fee: ExactDecimal { mantissa: 0, scale: 0 },
        info,
        ts_event: timestamp,
        ts_init: timestamp,
    }
}

fn multiplier_or(parsed: Option<ExactDecimal>, default: u64) -> (r: Quantity)
    ensures
        r == spread_multiplier(parsed, default),
{
    match parsed {
        Some(d) => Quantity::Parsed(d),
        None => Quantity::Whole(default),
    }
}

fn stamped(inputs: &SpreadInputs) -> (r: u64)
    ensures
        r == spread_time(*inputs),
{
    match inputs.timestamp_ns {
        Some(time) => time,
        None => inputs.now,
    }
}

/// Parses a spread of options, without named values.
pub fn parse_spread_instrument_id(
    instrument_id: &InstrumentId,
    leg_contract_details: &[(&ContractDetails, i32)],
    inputs: &SpreadInputs,
) -> (r: Result<SpreadContract, SpreadError>)
    ensures
        if leg_contract_details@.len() == 0 {
            r == Err::<SpreadContract, SpreadError>(SpreadError::NoLegs)
        } else {
            r matches Ok(spread) && is_option_spread(
                spread,
                leg_contract_details@,
                *instrument_id,
                *inputs,
            ) && is_exact_spread(spread, leg_contract_details@, 100, inputs.max_quantity)
                && spread.info is None
        },
{
    if leg_contract_details.len() == 0 {
        return Err(SpreadError::NoLegs);
    }
    let asset_class = if leg_contract_details[0].0.contract.security_type
        == SecurityType::FuturesOption {
        AssetClass::Index
    } else {
        AssetClass::Equity
    };
    let multiplier = multiplier_or(
        parse_quantity(
            leg_contract_details[0].0.contract.multiplier.as_str(),
            inputs.max_quantity,
        ),
        100,
    );
    let lot_size = multiplier.clone();
    Ok(
        spread_of(
            leg_contract_details,
            instrument_id,
            asset_class,
            multiplier,
            lot_size,
            None,
            stamped(inputs),
        ),
    )
}

fn bag_values(bag_params: Option<Params>) -> (r: Option<Params>)
    ensures
        is_spread_info(r, bag_params),
{
    match bag_params {
        Some(params) => Some(ib_contract_info_for_contract(params)),
        None => None,
    }
}

/// Parses a spread of options.
pub fn parse_option_spread_instrument_id(
    instrument_id: &InstrumentId,
    leg_contract_details: &[(&ContractDetails, i32)],
    inputs: SpreadInputs,
) -> (r: Result<SpreadContract, SpreadError>)
    ensures
        if leg_contract_details@.len() == 0 {
            r == Err::<SpreadContract, SpreadError>(SpreadError::NoLegs)
        } else {
            r matches Ok(spread) && is_option_spread(
                spread,
                leg_contract_details@,
                *instrument_id,
                inputs,
            ) && is_exact_spread(spread, leg_contract_details@, 100, inputs.max_quantity)
                && is_spread_info(spread.info, inputs.bag_params)
        },
{
    match parse_spread_instrument_id(instrument_id, leg_contract_details, &inputs) {
        Ok(spread) => {
            let mut spread = spread;
            spread.info = bag_values(inputs.bag_params);
            Ok(spread)
        },
        Err(e) => Err(e),
    }
}

/// Parses a spread of futures.
pub fn parse_futures_spread_instrument_id(
    instrument_id: &InstrumentId,
    leg_contract_details: &[(&ContractDetails, i32)],
    inputs: SpreadInputs,
) -> (r: Result<SpreadContract, SpreadError>)
    ensures
        if leg_contract_details@.len() == 0 {
            r == Err::<SpreadContract, SpreadError>(SpreadError::NoLegs)
        } else {
            r matches Ok(spread) && is_futures_spread(
                spread,
                leg_contract_details@,
                *instrument_id,
                inputs,
            ) && is_exact_spread(spread, leg_contract_details@, 1, inputs.max_quantity)
        },
{
    if leg_contract_details.len() == 0 {
        return Err(SpreadError::NoLegs);
    }
    let multiplier = multiplier_or(
        parse_quantity(
            leg_contract_details[0].0.contract.multiplier.as_str(),
            inputs.max_quantity,
        ),
        1,
    );
    let timestamp: u64 = stamped(&inputs);
    let info = bag_values(inputs.bag_params);
    Ok(
        spread_of(
            leg_contract_details,
            instrument_id,
            AssetClass::Index,
            multiplier,
            Quantity::Whole(1),
            info,
            timestamp,
        ),
    )
}

/// Parses a spread: one of futures where any leg is a future, and otherwise one of options.
pub fn parse_spread_instrument_any(
    instrument_id: &InstrumentId,
    leg_contract_details: &[(&ContractDetails, i32)],
    inputs: SpreadInputs,
) -> (r: Result<InstrumentAny, SpreadError>)
    ensures
        if leg_contract_details@.len() == 0 {
            r == Err::<InstrumentAny, SpreadError>(SpreadError::NoLegs)
        } else if has_future_leg(leg_contract_details@) {
            r matches Ok(InstrumentAny::FuturesSpread(spread)) && is_futures_spread(
                spread,
                leg_contract_details@,
                *instrument_id,
                inputs,
            ) && is_exact_spread(spread, leg_contract_details@, 1, inputs.max_quantity)
        } else {
            r matches Ok(InstrumentAny::OptionSpread(spread)) && is_option_spread(
                spread,
                leg_contract_details@,
                *instrument_id,
                inputs,
            ) && is_exact_spread(spread, leg_contract_details@, 100, inputs.max_quantity)
                && is_spread_info(spread.info, inputs.bag_params)
        },
{
    let mut has_future = false;
    let mut i: usize = 0;
    while i < leg_contract_details.len()
        invariant
            i <= leg_contract_details@.len(),
            has_future <==> exists|j: int|
                0 <= j < i && future_leg(*(#[trigger] leg_contract_details@[j]).0),
        decreases leg_contract_details.len() - i,
    {
        let security_type = leg_contract_details[i].0.contract.security_type;
        if security_type == SecurityType::Future || security_type
            == SecurityType::ContinuousFuture {
            assert(future_leg(*leg_contract_details@[i as int].0));
            has_future = true;
        }
        i += 1;
    }
    if has_future {
        match parse_futures_spread_instrument_id(instrument_id, leg_contract_details, inputs) {
            Ok(spread) => Ok(InstrumentAny::FuturesSpread(spread)),
            Err(e) => Err(e),
        }
    } else {
        match parse_option_spread_instrument_id(instrument_id, leg_contract_details, inputs) {
            Ok(spread) => Ok(InstrumentAny::OptionSpread(spread)),
            Err(e) => Err(e),
        }
    }
}

/// The tick of a spread is that of one of its legs, and no leg has a smaller one.
pub proof fn spread_tick_is_the_finest(legs: Seq<(&ContractDetails, i32)>)
    requires
        legs.len() > 0,
    ensures
        exists|i: int| 0 <= i < legs.len() && (#[trigger] legs[i]).0.min_tick == spread_tick(legs),
        forall|i: int|
            0 <= i < legs.len() ==> !(#[trigger] legs[i]).0.min_tick.below(&spread_tick(legs)),
{
    finest_of_prefix(legs, legs.len() as int);
}

pub(crate) proof fn finest_of_prefix(legs: Seq<(&ContractDetails, i32)>, n: int)
    requires
        0 <= n <= legs.len(),
        legs.len() > 0,
    ensures
        exists|i: int|
            0 <= i < legs.len() && (#[trigger] legs[i]).0.min_tick == finest_tick(
                legs,
                legs[0].0.min_tick,
                n,
            ),
        forall|i: int|
            0 <= i < n ==> !(#[trigger] legs[i]).0.min_tick.below(
                &finest_tick(legs, legs[0].0.min_tick, n),
            ),
        finest_tick(legs, legs[0].0.min_tick, n).nan() ==> forall|i: int|
            0 <= i < n ==> (#[trigger] legs[i]).0.min_tick.nan(),
    decreases n,
{
    if n > 0 {
        finest_of_prefix(legs, n - 1);
        let before = finest_tick(legs, legs[0].0.min_tick, n - 1);
        let tick = legs[n - 1].0.min_tick;
        let after = finest_tick(legs, legs[0].0.min_tick, n);
        assert(after == before || after == tick);
    } else {
        assert(legs[0].0.min_tick == finest_tick(legs, legs[0].0.min_tick, 0));
    }
}

} // verus!
