//! Contract details to instruments.

use vstd::arithmetic::power::pow;
use vstd::prelude::*;
use vstd::utf8::encode_utf8;

use crate::contracts::{ContractDetails, OptionRight, SecurityType};
use crate::decimal::{
    exactly_read, parsed_decimal, plain, plain_value, told_by_digits, ExactDecimal,
};
use crate::intern::interned;
use crate::model::{AssetClass, InstrumentId, OptionKind, Price, Quantity};
use crate::params::{number_value, number_view, InfoValue, InfoView, Params};
use crate::providers::expiry::{expiry_nanos, expiry_timestring_to_unix_nanos};
use crate::providers::info::{
    contract_info, ib_contract_info, insert_entries, provenance_view, with_entries, writable,
};
use crate::providers::instruments::{
    Cfd, Commodity, CryptoPerpetual, CurrencyPair, Equity, FuturesContract, IndexInstrument,
    InstrumentAny, OptionContract, EQUITY_SIZE_PRECISION,
};
use crate::providers::min_quantity::{
    decisions_are_complete, equity_min_quantity_of, exact_decimal, exact_decimal_spec,
    min_quantity_decision, pow10_i128, scale_unit_in_range, EquityMinQuantity,
};
use crate::providers::precision::{tick_precision, tick_size_to_precision};
use crate::text::{chars_of, find_char, find_from_bounds, text_eq};
use crate::wire::WireNumber;

verus! {

/// Ninety days in nanoseconds.
pub const NINETY_DAYS: u64 = 7_776_000_000_000_000;

/// What a contract is parsed with beside its details.
#[derive(Debug)]
pub struct ParseInputs {
    /// The fields of the contract.
    pub contract_params: Params,
    /// The largest quantity of the model.
    pub max_quantity: u64,
    /// The time in nanoseconds since 1970.
    pub now: u64,
}

/// Why a contract is no instrument.
#[derive(Debug, Clone, Copy, PartialEq, Eq, Structural)]
pub enum ContractError {
    /// Contracts of this type are not supported.
    UnsupportedSecurityType(SecurityType),
    /// The option says neither call nor put.
    MissingRight,
}

/// The asset class of a security type, given as text; equity outside the vocabulary.
pub open spec fn asset_class_of(sec_type: Seq<char>) -> AssetClass {
    if sec_type == "IND"@ {
        AssetClass::Index
    } else if sec_type == "CASH"@ {
        AssetClass::FX
    } else if sec_type == "BOND"@ {
        AssetClass::Debt
    } else if sec_type == "CMDTY"@ {
        AssetClass::Commodity
    } else if sec_type == "FUT"@ {
        AssetClass::Index
    } else {
        AssetClass::Equity
    }
}

/// The asset class of a security type.
pub fn sec_type_to_asset_class(sec_type: &str) -> (r: AssetClass)
    ensures
        r == asset_class_of(sec_type@),
{
    if text_eq(sec_type, "IND") {
        AssetClass::Index
    } else if text_eq(sec_type, "CASH") {
        AssetClass::FX
    } else if text_eq(sec_type, "BOND") {
        AssetClass::Debt
    } else if text_eq(sec_type, "CMDTY") {
        AssetClass::Commodity
    } else if text_eq(sec_type, "FUT") {
        AssetClass::Index
    } else {
        AssetClass::Equity
    }
}

/// A multiplier: the text as a quantity where it is one, and otherwise the default.
pub open spec fn multiplier_of(
    multiplier: Seq<char>,
    parsed: Option<ExactDecimal>,
    default: u64,
) -> Quantity {
    match parsed {
        Some(d) => if multiplier.len() == 0 {
            Quantity::Whole(default)
        } else {
            Quantity::Parsed(d)
        },
        None => Quantity::Whole(default),
    }
}

/// The quantity of a text: the decimal that is read from it, where that is a quantity.
pub open spec fn quantity_of_text(text: Seq<char>, max_quantity: u64) -> Option<ExactDecimal> {
    quantity_within(parsed_decimal(text), max_quantity)
}

/// A decimal where it is a quantity: not below zero and not above the largest quantity.
pub open spec fn quantity_within(
    d: Option<ExactDecimal>,
    max_quantity: u64,
) -> Option<ExactDecimal> {
    match d {
        Some(d) => if 0 <= d.mantissa <= max_quantity * pow(10, d.scale as nat) {
            Some(d)
        } else {
            None
        },
        None => None,
    }
}

/// The quantity of a text.
///
/// `max_quantity` is the largest quantity of the model.
pub fn parse_quantity(text: &str, max_quantity: u64) -> (r: Option<ExactDecimal>)
    ensures
        r == quantity_of_text(text@, max_quantity),
        told_by_digits(text@) ==> r == quantity_within(plain_value(text@), max_quantity),
{
    match exactly_read(text) {
        Some(d) => if is_quantity(d, max_quantity) {
            Some(d)
        } else {
            None
        },
        None => None,
    }
}

fn is_quantity(d: ExactDecimal, max_quantity: u64) -> (r: bool)
    requires
        d.fits(),
    ensures
        r == (0 <= d.mantissa <= max_quantity * pow(10, d.scale as nat)),
{
    proof {
        scale_unit_in_range(d.scale as nat);
    }
    let unit: i128 = match pow10_i128(d.scale) {
        Some(unit) => unit,
        None => {
            return false;
        },
    };
    if d.mantissa < 0 {
        return false;
    }
    let whole: i128 = d.mantissa / unit;
    let rest: i128 = d.mantissa % unit;
    let largest: i128 = max_quantity as i128;
    assert(d.mantissa == whole * unit + rest && 0 <= rest < unit) by (nonlinear_arith)
        requires
            whole == d.mantissa / unit,
            rest == d.mantissa % unit,
            unit > 0,
    ;
    assert((d.mantissa <= largest * unit) == (whole < largest || (whole == largest && rest == 0)))
        by (nonlinear_arith)
        requires
            d.mantissa == whole * unit + rest,
            0 <= rest < unit,
    ;
    whole < largest || (whole == largest && rest == 0)
}

/// The multiplier of a contract.
///
/// `max_quantity` is the largest quantity of the model.
pub fn parse_contract_multiplier(multiplier: &str, default: u64, max_quantity: u64) -> (r: Quantity)
    ensures
        r == multiplier_of(multiplier@, quantity_of_text(multiplier@, max_quantity), default),
        told_by_digits(multiplier@) ==> r == exact_multiplier(
            multiplier@,
            default,
            max_quantity,
        ),
{
    contract_multiplier_of(multiplier, parse_quantity(multiplier, max_quantity), default)
}

/// The multiplier that a text denotes digit for digit.
pub open spec fn exact_multiplier(
    multiplier: Seq<char>,
    default: u64,
    max_quantity: u64,
) -> Quantity {
    multiplier_of(multiplier, quantity_within(plain_value(multiplier), max_quantity), default)
}

/// The multiplier of a contract, given the quantity of its text.
pub fn contract_multiplier_of(
    multiplier: &str,
    parsed: Option<ExactDecimal>,
    default: u64,
) -> (r: Quantity)
    ensures
        r == multiplier_of(multiplier@, parsed, default),
{
    if multiplier.is_empty() {
        return Quantity::Whole(default);
    }
    match parsed {
        Some(d) => Quantity::Parsed(d),
        None => Quantity::Whole(default),
    }
}

/// A price of the broker without a magnifier.
pub open spec fn plain_price(native: WireNumber, precision: u8) -> Price {
    Price { native, magnifier: 1, precision }
}

pub(crate) fn price_of(native: &WireNumber, precision: u8) -> (r: Price)
    ensures
        r == plain_price(*native, precision),
{
    Price { native: native.clone(), magnifier: 1, precision }
}

fn quantity_of(value: &WireNumber, precision: u8) -> (r: Quantity)
    ensures
        r == (Quantity::Wire { value: *value, precision }),
{
    Quantity::Wire { value: value.clone(), precision }
}

/// When a contract expires: at the instant that its last trade date says, and in ninety days where
/// that says none.
pub open spec fn expiration_of(details: ContractDetails, now: u64) -> u64 {
    match expiry_nanos(
        encode_utf8(details.contract.last_trade_date_or_contract_month@),
        Some(&details),
    ) {
        Ok(nanos) => nanos,
        Err(_) => (now + NINETY_DAYS) as u64,
    }
}

/// When a contract starts: ninety days before it expires, and not before 1970.
pub open spec fn activation_of(expiration: u64) -> u64 {
    if expiration >= NINETY_DAYS {
        (expiration - NINETY_DAYS) as u64
    } else {
        0
    }
}

fn contract_expiration(details: &ContractDetails, now: u64) -> (r: u64)
    requires
        now <= u64::MAX - NINETY_DAYS,
    ensures
        r == expiration_of(*details, now),
{
    match expiry_timestring_to_unix_nanos(
        details.contract.last_trade_date_or_contract_month.as_str(),
        Some(details),
    ) {
        Ok(nanos) => nanos,
        Err(_) => now + NINETY_DAYS,
    }
}

fn contract_activation(expiration: u64) -> (r: u64)
    ensures
        r == activation_of(expiration),
{
    if expiration >= NINETY_DAYS {
        expiration - NINETY_DAYS
    } else {
        0
    }
}

/// A contract is never active after it expires, nor for more than ninety days before.
pub proof fn contracts_start_before_they_expire(expiration: u64)
    ensures
        activation_of(expiration) <= expiration,
        expiration - activation_of(expiration) <= NINETY_DAYS,
{
}

/// The decision on the minimum quantity of an equity contract.
pub open spec fn equity_minimum(details: ContractDetails, max_quantity: u64) -> EquityMinQuantity {
    min_quantity_decision(
        details.min_size,
        details.size_increment,
        exact_decimal_spec(details.min_size),
        exact_decimal_spec(details.size_increment),
        max_quantity,
    )
}

/// The minimum size and the size increment of a contract are plain decimal texts.
pub open spec fn has_plain_sizes(details: ContractDetails) -> bool {
    plain(details.min_size.text@) && plain(details.size_increment.text@)
}

/// The decision on the minimum quantity of an equity contract, by the decimals that its minimum
/// size and its size increment denote digit for digit.
pub open spec fn exact_equity_minimum(
    details: ContractDetails,
    max_quantity: u64,
) -> EquityMinQuantity {
    min_quantity_decision(
        details.min_size,
        details.size_increment,
        plain_value(details.min_size.text@),
        plain_value(details.size_increment.text@),
        max_quantity,
    )
}

/// Decides on the minimum quantity of an equity contract from its minimum size and size increment.
///
/// `max_quantity` is the largest quantity of the model.
pub fn equity_min_quantity(details: &ContractDetails, max_quantity: u64) -> (r: EquityMinQuantity)
    ensures
        r == equity_minimum(*details, max_quantity),
        writable(r),
        has_plain_sizes(*details) ==> r == exact_equity_minimum(*details, max_quantity),
{
    let min = exact_decimal(&details.min_size);
    let increment = exact_decimal(&details.size_increment);
    proof {
        decisions_are_complete(
            details.min_size,
            details.size_increment,
            min,
            increment,
            max_quantity,
        );
    }
    equity_min_quantity_of(&details.min_size, &details.size_increment, min, increment, max_quantity)
}

/// The named values of an equity.
pub open spec fn equity_info(
    details: ContractDetails,
    contract_params: Params,
    minimum: EquityMinQuantity,
) -> Map<Seq<char>, InfoView> {
    with_entries(
        contract_info(details, contract_params).insert(
            "minSize"@,
            number_view(details.min_size),
        ).insert("sizeIncrement"@, number_view(details.size_increment)).insert(
            "suggestedSizeIncrement"@,
            number_view(details.suggested_size_increment),
        ).insert("minQuantitySource"@, InfoView::Text(minimum.source.label())),
        provenance_view(minimum),
    )
}

/// A number of shares as a quantity.
pub open spec fn whole_shares(shares: Option<u64>) -> Option<Quantity> {
    match shares {
        Some(n) => Some(Quantity::Whole(n)),
        None => None,
    }
}

/// The equity of a contract with the given minimum.
pub open spec fn is_equity(
    equity: Equity,
    details: ContractDetails,
    id: InstrumentId,
    minimum: EquityMinQuantity,
    contract_params: Params,
    now: u64,
) -> bool {
    &&& equity.instrument_id == id
    &&& equity.raw_symbol@ == details.contract.local_symbol@
    &&& equity.currency@ == details.contract.currency@
    &&& equity.price_precision == tick_precision(details.min_tick)
    &&& equity.price_increment == plain_price(details.min_tick, equity.price_precision)
    &&& equity.min_quantity == whole_shares(minimum.quantity)
    &&& equity.lot_size == Quantity::Whole(100)
    &&& equity.info.wf()
    &&& equity.info@ == equity_info(details, contract_params, minimum)
    &&& equity.ts_event == now
    &&& equity.ts_init == now
}

/// The equity of a contract with the given minimum.
pub fn equity_with_minimum(
    details: &ContractDetails,
    instrument_id: &InstrumentId,
    minimum: EquityMinQuantity,
    contract_params: Params,
    now: u64,
) -> (equity: Equity)
    requires
        writable(minimum),
    ensures
        is_equity(equity, *details, *instrument_id, minimum, contract_params, now),
{
    let price_precision: u8 = tick_size_to_precision(&details.min_tick);
    let mut info = ib_contract_info(details, contract_params);
    info.insert("minSize", number_value(&details.min_size));
    info.insert("sizeIncrement", number_value(&details.size_increment));
    info.insert("suggestedSizeIncrement", number_value(&details.suggested_size_increment));
    info.insert("minQuantitySource", InfoValue::Text(minimum.source.as_str().to_owned()));
    insert_entries(&mut info, minimum.provenance());
    let min_quantity = match minimum.quantity {
        Some(shares) => Some(Quantity::Whole(shares)),
        None => None,
    };
    Equity {
        instrument_id: instrument_id.clone(),
        raw_symbol: details.contract.local_symbol.clone(),
        currency: details.contract.currency.clone(),
        price_precision,
        price_increment: price_of(&details.min_tick, price_precision),
        min_quantity,
        lot_size: Quantity::Whole(100),
        info,
        ts_event: now,
        ts_init: now,
    }
}

/// Parses an equity.
pub fn parse_equity_contract(
    details: &ContractDetails,
    instrument_id: &InstrumentId,
    contract_params: Params,
    max_quantity: u64,
    now: u64,
) -> (equity: Equity)
    ensures
        is_equity(
            equity,
            *details,
            *instrument_id,
            equity_minimum(*details, max_quantity),
            contract_params,
            now,
        ),
        has_plain_sizes(*details) ==> is_equity(
            equity,
            *details,
            *instrument_id,
            exact_equity_minimum(*details, max_quantity),
            contract_params,
            now,
        ),
{
    let minimum = equity_min_quantity(details, max_quantity);
    equity_with_minimum(details, instrument_id, minimum, contract_params, now)
}

/// The minimum quantity of an equity is one that the equity can hold.
pub proof fn minimum_has_the_precision_of_the_equity(
    equity: Equity,
    details: ContractDetails,
    id: InstrumentId,
    minimum: EquityMinQuantity,
    contract_params: Params,
    now: u64,
)
    requires
        is_equity(equity, details, id, minimum, contract_params, now),
    ensures
        equity.min_quantity matches Some(quantity) ==> quantity.digits() == EQUITY_SIZE_PRECISION,
{
}

/// The lot size and the suggested increment of a contract have no part in its minimum quantity.
pub proof fn minimum_rests_on_size_and_increment_alone(
    a: ContractDetails,
    b: ContractDetails,
    max_quantity: u64,
)
    requires
        a.min_size == b.min_size,
        a.size_increment == b.size_increment,
    ensures
        equity_minimum(a, max_quantity) == equity_minimum(b, max_quantity),
{
}

/// The pair of currencies of a contract.
pub open spec fn is_currency_pair(
    pair: CurrencyPair,
    details: ContractDetails,
    id: InstrumentId,
    contract_params: Params,
    now: u64,
) -> bool {
    &&& pair.instrument_id == id
    &&& pair.raw_symbol@ == details.contract.local_symbol@
    &&& pair.base_currency@ == details.contract.symbol@
    &&& pair.quote_currency@ == details.contract.currency@
    &&& pair.price_precision == tick_precision(details.min_tick)
    &&& pair.size_precision == tick_precision(details.min_size)
    &&& pair.price_increment == plain_price(details.min_tick, pair.price_precision)
    &&& pair.size_increment == (Quantity::Wire {
        value: details.size_increment,
        precision: pair.size_precision,
    })
    &&& pair.info.wf()
    &&& pair.info@ == contract_info(details, contract_params)
    &&& pair.ts_event == now
    &&& pair.ts_init == now
}

/// Parses a pair of currencies.
pub fn parse_forex_contract(
    details: &ContractDetails,
    instrument_id: &InstrumentId,
    contract_params: Params,
    now: u64,
) -> (pair: CurrencyPair)
    ensures
        is_currency_pair(pair, *details, *instrument_id, contract_params, now),
{
    let price_precision: u8 = tick_size_to_precision(&details.min_tick);
    let size_precision: u8 = tick_size_to_precision(&details.min_size);
    CurrencyPair {
        instrument_id: instrument_id.clone(),
        raw_symbol: details.contract.local_symbol.clone(),
        base_currency: details.contract.symbol.clone(),
        quote_currency: details.contract.currency.clone(),
        price_precision,
        size_precision,
        price_increment: price_of(&details.min_tick, price_precision),
        size_increment: quantity_of(&details.size_increment, size_precision),
        info: ib_contract_info(details, contract_params),
        ts_event: now,
        ts_init: now,
    }
}

/// The perpetual contract of a crypto contract.
pub open spec fn is_crypto_perpetual(
    perpetual: CryptoPerpetual,
    details: ContractDetails,
    id: InstrumentId,
    contract_params: Params,
    now: u64,
) -> bool {
    &&& perpetual.instrument_id == id
    &&& perpetual.raw_symbol@ == details.contract.local_symbol@
    &&& perpetual.base_currency@ == details.contract.symbol@
    &&& perpetual.quote_currency@ == details.contract.currency@
    &&& perpetual.settlement_currency@ == details.contract.currency@
    &&& perpetual.is_inverse
    &&& perpetual.price_precision == tick_precision(details.min_tick)
    &&& perpetual.size_precision == tick_precision(details.min_size)
    &&& perpetual.price_increment == plain_price(details.min_tick, perpetual.price_precision)
    &&& perpetual.size_increment == (Quantity::Wire {
        value: details.size_increment,
        precision: perpetual.size_precision,
    })
    &&& perpetual.min_quantity == (Quantity::Wire {
        value: details.min_size,
        precision: perpetual.size_precision,
    })
    &&& perpetual.info.wf()
    &&& perpetual.info@ == contract_info(details, contract_params)
    &&& perpetual.ts_event == now
    &&& perpetual.ts_init == now
}

/// Parses a crypto contract.
pub fn parse_crypto_contract(
    details: &ContractDetails,
    instrument_id: &InstrumentId,
    contract_params: Params,
    now: u64,
) -> (perpetual: CryptoPerpetual)
    ensures
        is_crypto_perpetual(perpetual, *details, *instrument_id, contract_params, now),
{
    let price_precision: u8 = tick_size_to_precision(&details.min_tick);
    let size_precision: u8 = tick_size_to_precision(&details.min_size);
    CryptoPerpetual {
        instrument_id: instrument_id.clone(),
        raw_symbol: details.contract.local_symbol.clone(),
        base_currency: details.contract.symbol.clone(),
        quote_currency: details.contract.currency.clone(),
        settlement_currency: details.contract.currency.clone(),
        is_inverse: true,
        price_precision,
        size_precision,
        price_increment: price_of(&details.min_tick, price_precision),
        size_increment: quantity_of(&details.size_increment, size_precision),
        min_quantity: quantity_of(&details.min_size, size_precision),
        info: ib_contract_info(details, contract_params),
        ts_event: now,
        ts_init: now,
    }
}

/// The symbol of a future: that of the contract for a continuous future that has one, and
/// otherwise the local symbol.
pub open spec fn futures_symbol(details: ContractDetails) -> Seq<char> {
    if details.contract.security_type == SecurityType::ContinuousFuture
        && details.contract.symbol@.len() > 0 {
        details.contract.symbol@
    } else {
        details.contract.local_symbol@
    }
}

/// The future of a contract.
pub open spec fn is_futures_contract(
    future: FuturesContract,
    details: ContractDetails,
    id: InstrumentId,
    inputs: ParseInputs,
) -> bool {
    &&& future.instrument_id == id
    &&& future.raw_symbol@ == futures_symbol(details)
    &&& future.asset_class == asset_class_of(details.under_security_type@)
    &&& future.underlying@ == details.under_symbol@
    &&& future.expiration_ns == expiration_of(details, inputs.now)
    &&& future.activation_ns == activation_of(future.expiration_ns)
    &&& future.currency@ == details.contract.currency@
    &&& future.price_precision == tick_precision(details.min_tick)
    &&& future.price_increment == plain_price(details.min_tick, future.price_precision)
    &&& future.multiplier == multiplier_of(
        details.contract.multiplier@,
        quantity_of_text(details.contract.multiplier@, inputs.max_quantity),
        1,
    )
    &&& future.lot_size == Quantity::Whole(1)
    &&& future.info.wf()
    &&& future.info@ == contract_info(details, inputs.contract_params)
    &&& future.ts_event == inputs.now
    &&& future.ts_init == inputs.now
}

/// Parses a future.
pub fn parse_futures_contract(
    details: &ContractDetails,
    instrument_id: &InstrumentId,
    inputs: ParseInputs,
) -> (future: FuturesContract)
    requires
        inputs.now <= u64::MAX - NINETY_DAYS,
    ensures
        is_futures_contract(future, *details, *instrument_id, inputs),
        told_by_digits(details.contract.multiplier@) ==> future.multiplier == exact_multiplier(
            details.contract.multiplier@,
            1,
            inputs.max_quantity,
        ),
{
    let price_precision: u8 = tick_size_to_precision(&details.min_tick);
    let expiration_ns: u64 = contract_expiration(details, inputs.now);
    let raw_symbol = if details.contract.security_type == SecurityType::ContinuousFuture
        && !details.contract.symbol.as_str().is_empty() {
        details.contract.symbol.clone()
    } else {
        details.contract.local_symbol.clone()
    };
    FuturesContract {
        instrument_id: instrument_id.clone(),
        raw_symbol,
        asset_class: sec_type_to_asset_class(details.under_security_type.as_str()),
        underlying: interned(details.under_symbol.as_str()),
        activation_ns: contract_activation(expiration_ns),
        expiration_ns,
        currency: details.contract.currency.clone(),
        price_precision,
        price_increment: price_of(&details.min_tick, price_precision),
        multiplier: parse_contract_multiplier(
            details.contract.multiplier.as_str(),
            1,
            inputs.max_quantity,
        ),
        lot_size: Quantity::Whole(1),
        info: ib_contract_info(details, inputs.contract_params),
        ts_event: inputs.now,
        ts_init: inputs.now,
    }
}

/// The underlying of an option: an index is marked with a caret.
pub open spec fn option_underlying(details: ContractDetails) -> Seq<char> {
    if details.under_security_type@ == "IND"@ && !(details.under_symbol@.len() > 0
        && details.under_symbol@[0] == '^') {
        "^"@ + details.under_symbol@
    } else {
        details.under_symbol@
    }
}

/// What an option right stands for.
pub open spec fn kind_of(right: OptionRight) -> OptionKind {
    match right {
        OptionRight::Call => OptionKind::Call,
        OptionRight::Put => OptionKind::Put,
    }
}

/// The option of a contract with the given right.
pub open spec fn is_option_contract(
    option: OptionContract,
    details: ContractDetails,
    right: OptionRight,
    id: InstrumentId,
    inputs: ParseInputs,
) -> bool {
    &&& option.instrument_id == id
    &&& option.raw_symbol@ == details.contract.local_symbol@
    &&& option.asset_class == asset_class_of(details.under_security_type@)
    &&& option.underlying@ == option_underlying(details)
    &&& option.option_kind == kind_of(right)
    &&& option.strike_price == plain_price(details.contract.strike, option.price_precision)
    &&& option.currency@ == details.contract.currency@
    &&& option.expiration_ns == expiration_of(details, inputs.now)
    &&& option.activation_ns == activation_of(option.expiration_ns)
    &&& option.price_precision == tick_precision(details.min_tick)
    &&& option.price_increment == plain_price(details.min_tick, option.price_precision)
    &&& option.multiplier == multiplier_of(
        details.contract.multiplier@,
        quantity_of_text(details.contract.multiplier@, inputs.max_quantity),
        100,
    )
    &&& option.lot_size == option.multiplier
    &&& option.info.wf()
    &&& option.info@ == contract_info(details, inputs.contract_params)
    &&& option.ts_event == inputs.now
    &&& option.ts_init == inputs.now
}

fn caret_underlying(details: &ContractDetails) -> (r: String)
    ensures
        r@ == option_underlying(*details),
{
    let chars = chars_of(details.under_symbol.as_str());
    let marked = chars.len() > 0 && chars[0] == '^';
    if !marked && text_eq(details.under_security_type.as_str(), "IND") {
        let mut text = "^".to_owned();
        text.append(details.under_symbol.as_str());
        text
    } else {
        details.under_symbol.clone()
    }
}

/// Parses an option, which has to say whether it is a call or a put.
pub fn parse_option_contract(
    details: &ContractDetails,
    instrument_id: &InstrumentId,
    inputs: ParseInputs,
) -> (r: Result<OptionContract, ContractError>)
    requires
        inputs.now <= u64::MAX - NINETY_DAYS,
    ensures
        match details.contract.right {
            None => r == Err::<OptionContract, ContractError>(ContractError::MissingRight),
            Some(right) => r matches Ok(option) && is_option_contract(
                option,
                *details,
                right,
                *instrument_id,
                inputs,
            ) && (told_by_digits(details.contract.multiplier@) ==> option.multiplier
                == exact_multiplier(details.contract.multiplier@, 100, inputs.max_quantity)),
        },
{
    let option_kind = match details.contract.right {
        Some(OptionRight::Call) => OptionKind::Call,
        Some(OptionRight::Put) => OptionKind::Put,
        None => {
            return Err(ContractError::MissingRight);
        },
    };
    let price_precision: u8 = tick_size_to_precision(&details.min_tick);
    let expiration_ns: u64 = contract_expiration(details, inputs.now);
    let multiplier = parse_contract_multiplier(
        details.contract.multiplier.as_str(),
        100,
        inputs.max_quantity,
    );
    Ok(
        OptionContract {
            instrument_id: instrument_id.clone(),
            raw_symbol: details.contract.local_symbol.clone(),
            asset_class: sec_type_to_asset_class(details.under_security_type.as_str()),
            underlying: interned(caret_underlying(details).as_str()),
            option_kind,
            strike_price: price_of(&details.contract.strike, price_precision),
            currency: details.contract.currency.clone(),
            activation_ns: contract_activation(expiration_ns),
            expiration_ns,
            price_precision,
            price_increment: price_of(&details.min_tick, price_precision),
            lot_size: multiplier.clone(),
            multiplier,
            info: ib_contract_info(details, inputs.contract_params),
            ts_event: inputs.now,
            ts_init: inputs.now,
        },
    )
}

/// The index of a contract.
pub open spec fn is_index(
    index: IndexInstrument,
    details: ContractDetails,
    id: InstrumentId,
    contract_params: Params,
    now: u64,
) -> bool {
    &&& index.instrument_id == id
    &&& index.raw_symbol@ == details.contract.local_symbol@
    &&& index.currency@ == details.contract.currency@
    &&& index.price_precision == tick_precision(details.min_tick)
    &&& index.size_precision == tick_precision(details.min_size)
    &&& index.price_increment == plain_price(details.min_tick, index.price_precision)
    &&& index.size_increment == (Quantity::Wire {
        value: details.size_increment,
        precision: index.size_precision,
    })
    &&& index.info.wf()
    &&& index.info@ == contract_info(details, contract_params)
    &&& index.ts_event == now
    &&& index.ts_init == now
}

/// Parses an index.
pub fn parse_index_contract(
    details: &ContractDetails,
    instrument_id: &InstrumentId,
    contract_params: Params,
    now: u64,
) -> (index: IndexInstrument)
    ensures
        is_index(index, *details, *instrument_id, contract_params, now),
{
    let price_precision: u8 = tick_size_to_precision(&details.min_tick);
    let size_precision: u8 = tick_size_to_precision(&details.min_size);
    IndexInstrument {
        instrument_id: instrument_id.clone(),
        raw_symbol: details.contract.local_symbol.clone(),
        currency: details.contract.currency.clone(),
        price_precision,
        size_precision,
        price_increment: price_of(&details.min_tick, price_precision),
        size_increment: quantity_of(&details.size_increment, size_precision),
        info: ib_contract_info(details, contract_params),
        ts_event: now,
        ts_init: now,
    }
}

/// The contract for difference of a contract; it has a base currency where its local symbol holds
/// a point.
pub open spec fn is_cfd(
    cfd: Cfd,
    details: ContractDetails,
    id: InstrumentId,
    contract_params: Params,
    now: u64,
) -> bool {
    &&& cfd.instrument_id == id
    &&& cfd.raw_symbol@ == details.contract.local_symbol@
    &&& cfd.asset_class == asset_class_of(details.under_security_type@)
    &&& match cfd.base_currency {
        Some(currency) => details.contract.local_symbol@.contains('.') && currency@
            == details.contract.symbol@,
        None => !details.contract.local_symbol@.contains('.'),
    }
    &&& cfd.quote_currency@ == details.contract.currency@
    &&& cfd.price_precision == tick_precision(details.min_tick)
    &&& cfd.size_precision == tick_precision(details.min_size)
    &&& cfd.price_increment == plain_price(details.min_tick, cfd.price_precision)
    &&& cfd.size_increment == (Quantity::Wire {
        value: details.size_increment,
        precision: cfd.size_precision,
    })
    &&& cfd.info.wf()
    &&& cfd.info@ == contract_info(details, contract_params)
    &&& cfd.ts_event == now
    &&& cfd.ts_init == now
}

/// Parses a contract for difference.
pub fn parse_cfd_contract(
    details: &ContractDetails,
    instrument_id: &InstrumentId,
    contract_params: Params,
    now: u64,
) -> (cfd: Cfd)
    ensures
        is_cfd(cfd, *details, *instrument_id, contract_params, now),
{
    let price_precision: u8 = tick_size_to_precision(&details.min_tick);
    let size_precision: u8 = tick_size_to_precision(&details.min_size);
    let chars = chars_of(details.contract.local_symbol.as_str());
    let point: usize = find_char(&chars, '.', 0);
    proof {
        find_from_bounds(chars@, '.', 0);
    }
    let base_currency = if point < chars.len() {
        assert(chars@[point as int] == '.');
        Some(details.contract.symbol.clone())
    } else {
        None
    };
    Cfd {
        instrument_id: instrument_id.clone(),
        raw_symbol: details.contract.local_symbol.clone(),
        asset_class: sec_type_to_asset_class(details.under_security_type.as_str()),
        base_currency,
        quote_currency: details.contract.currency.clone(),
        price_precision,
        size_precision,
        price_increment: price_of(&details.min_tick, price_precision),
        size_increment: quantity_of(&details.size_increment, size_precision),
        info: ib_contract_info(details, contract_params),
        ts_event: now,
        ts_init: now,
    }
}

/// The commodity of a contract.
pub open spec fn is_commodity(
    commodity: Commodity,
    details: ContractDetails,
    id: InstrumentId,
    contract_params: Params,
    now: u64,
) -> bool {
    &&& commodity.instrument_id == id
    &&& commodity.raw_symbol@ == details.contract.local_symbol@
    &&& commodity.asset_class == AssetClass::Commodity
    &&& commodity.quote_currency@ == details.contract.currency@
    &&& commodity.price_precision == tick_precision(details.min_tick)
    &&& commodity.size_precision == tick_precision(details.min_size)
    &&& commodity.price_increment == plain_price(details.min_tick, commodity.price_precision)
    &&& commodity.size_increment == (Quantity::Wire {
        value: details.size_increment,
        precision: commodity.size_precision,
    })
    &&& commodity.info.wf()
    &&& commodity.info@ == contract_info(details, contract_params)
    &&& commodity.ts_event == now
    &&& commodity.ts_init == now
}

/// Parses a commodity.
pub fn parse_commodity_contract(
    details: &ContractDetails,
    instrument_id: &InstrumentId,
    contract_params: Params,
    now: u64,
) -> (commodity: Commodity)
    ensures
        is_commodity(commodity, *details, *instrument_id, contract_params, now),
{
    let price_precision: u8 = tick_size_to_precision(&details.min_tick);
    let size_precision: u8 = tick_size_to_precision(&details.min_size);
    Commodity {
        instrument_id: instrument_id.clone(),
        raw_symbol: details.contract.local_symbol.clone(),
        asset_class: AssetClass::Commodity,
        quote_currency: details.contract.currency.clone(),
        price_precision,
        size_precision,
        price_increment: price_of(&details.min_tick, price_precision),
        size_increment: quantity_of(&details.size_increment, size_precision),
        info: ib_contract_info(details, contract_params),
        ts_event: now,
        ts_init: now,
    }
}

/// The equity that stands for a bond.
pub open spec fn is_bond(
    equity: Equity,
    details: ContractDetails,
    id: InstrumentId,
    contract_params: Params,
    now: u64,
) -> bool {
    &&& equity.instrument_id == id
    &&& equity.raw_symbol@ == details.contract.local_symbol@
    &&& equity.currency@ == details.contract.currency@
    &&& equity.price_precision == tick_precision(details.min_tick)
    &&& equity.price_increment == plain_price(details.min_tick, equity.price_precision)
    &&& equity.min_quantity is None
    &&& equity.lot_size == Quantity::Whole(1)
    &&& equity.info.wf()
    &&& equity.info@ == contract_info(details, contract_params)
    &&& equity.ts_event == now
    &&& equity.ts_init == now
}

/// Parses a bond, which is held as an equity.
pub fn parse_bond_contract(
    details: &ContractDetails,
    instrument_id: &InstrumentId,
    contract_params: Params,
    now: u64,
) -> (equity: Equity)
    ensures
        is_bond(equity, *details, *instrument_id, contract_params, now),
{
    let price_precision: u8 = tick_size_to_precision(&details.min_tick);
    Equity {
        instrument_id: instrument_id.clone(),
        raw_symbol: details.contract.local_symbol.clone(),
        currency: details.contract.currency.clone(),
        price_precision,
        price_increment: price_of(&details.min_tick, price_precision),
        min_quantity: None,
        lot_size: Quantity::Whole(1),
        info: ib_contract_info(details, contract_params),
        ts_event: now,
        ts_init: now,
    }
}

/// The outcome of parsing a contract.
pub open spec fn is_instrument_outcome(
    outcome: Result<InstrumentAny, ContractError>,
    details: ContractDetails,
    id: InstrumentId,
    inputs: ParseInputs,
) -> bool {
    let params = inputs.contract_params;
    let now = inputs.now;
    match details.contract.security_type {
        SecurityType::Stock => outcome matches Ok(InstrumentAny::Equity(equity)) && is_equity(
            equity,
            details,
            id,
            equity_minimum(details, inputs.max_quantity),
            params,
            now,
        ),
        SecurityType::ForexPair => outcome matches Ok(InstrumentAny::CurrencyPair(pair))
            && is_currency_pair(pair, details, id, params, now),
        SecurityType::Crypto => outcome matches Ok(InstrumentAny::CryptoPerpetual(perpetual))
            && is_crypto_perpetual(perpetual, details, id, params, now),
        SecurityType::Future | SecurityType::ContinuousFuture => outcome matches Ok(
            InstrumentAny::FuturesContract(future),
        ) && is_futures_contract(future, details, id, inputs),
        SecurityType::Option | SecurityType::FuturesOption => match details.contract.right {
            None => outcome == Err::<InstrumentAny, ContractError>(ContractError::MissingRight),
            Some(right) => outcome matches Ok(InstrumentAny::OptionContract(option))
                && is_option_contract(option, details, right, id, inputs),
        },
        SecurityType::Index => outcome matches Ok(InstrumentAny::IndexInstrument(index))
            && is_index(index, details, id, params, now),
        SecurityType::CFD => outcome matches Ok(InstrumentAny::Cfd(cfd)) && is_cfd(
            cfd,
            details,
            id,
            params,
            now,
        ),
        SecurityType::Commodity => outcome matches Ok(InstrumentAny::Commodity(commodity))
            && is_commodity(commodity, details, id, params, now),
        SecurityType::Bond => outcome matches Ok(InstrumentAny::Equity(equity)) && is_bond(
            equity,
            details,
            id,
            params,
            now,
        ),
        other => outcome == Err::<InstrumentAny, ContractError>(
            ContractError::UnsupportedSecurityType(other),
        ),
    }
}

/// An instrument rests on the digits of its contract: the minimum quantity of an equity on its
/// sizes, and the multiplier of a future or an option on its text, where these tell it.
pub open spec fn is_exact_where_plain(
    outcome: Result<InstrumentAny, ContractError>,
    details: ContractDetails,
    id: InstrumentId,
    inputs: ParseInputs,
) -> bool {
    match outcome {
        Ok(InstrumentAny::Equity(equity)) => details.contract.security_type == SecurityType::Stock
            && has_plain_sizes(details) ==> is_equity(
            equity,
            details,
            id,
            exact_equity_minimum(details, inputs.max_quantity),
            inputs.contract_params,
            inputs.now,
        ),
        Ok(InstrumentAny::FuturesContract(future)) => told_by_digits(
            details.contract.multiplier@,
        ) ==> future.multiplier == exact_multiplier(
            details.contract.multiplier@,
            1,
            inputs.max_quantity,
        ),
        Ok(InstrumentAny::OptionContract(option)) => told_by_digits(
            details.contract.multiplier@,
        ) ==> option.multiplier == exact_multiplier(
            details.contract.multiplier@,
            100,
            inputs.max_quantity,
        ),
        _ => true,
    }
}

/// Parses a contract.
pub fn parse_ib_contract_to_instrument(
    details: &ContractDetails,
    instrument_id: &InstrumentId,
    inputs: ParseInputs,
) -> (outcome: Result<InstrumentAny, ContractError>)
    requires
        inputs.now <= u64::MAX - NINETY_DAYS,
    ensures
        is_instrument_outcome(outcome, *details, *instrument_id, inputs),
        is_exact_where_plain(outcome, *details, *instrument_id, inputs),
{
    let now: u64 = inputs.now;
    match details.contract.security_type {
        SecurityType::Stock => Ok(
            InstrumentAny::Equity(
                parse_equity_contract(
                    details,
                    instrument_id,
                    inputs.contract_params,
                    inputs.max_quantity,
                    now,
                ),
            ),
        ),
        SecurityType::ForexPair => Ok(
            InstrumentAny::CurrencyPair(
                parse_forex_contract(details, instrument_id, inputs.contract_params, now),
            ),
        ),
        SecurityType::Crypto => Ok(
            InstrumentAny::CryptoPerpetual(
                parse_crypto_contract(details, instrument_id, inputs.contract_params, now),
            ),
        ),
        SecurityType::Future | SecurityType::ContinuousFuture => Ok(
            InstrumentAny::FuturesContract(parse_futures_contract(details, instrument_id, inputs)),
        ),
        SecurityType::Option | SecurityType::FuturesOption => match parse_option_contract(
            details,
            instrument_id,
            inputs,
        ) {
            Ok(option) => Ok(InstrumentAny::OptionContract(option)),
            Err(e) => Err(e),
        },
        SecurityType::Index => Ok(
            InstrumentAny::IndexInstrument(
                parse_index_contract(details, instrument_id, inputs.contract_params, now),
            ),
        ),
        SecurityType::CFD => Ok(
            InstrumentAny::Cfd(
                parse_cfd_contract(details, instrument_id, inputs.contract_params, now),
            ),
        ),
        SecurityType::Commodity => Ok(
            InstrumentAny::Commodity(
                parse_commodity_contract(details, instrument_id, inputs.contract_params, now),
            ),
        ),
        SecurityType::Bond => Ok(
            InstrumentAny::Equity(
                parse_bond_contract(details, instrument_id, inputs.contract_params, now),
            ),
        ),
        other => Err(ContractError::UnsupportedSecurityType(other)),
    }
}

} // verus!
