//! What an instrument says of the contract that it was made from.

use vstd::arithmetic::power::pow;
use vstd::prelude::*;
use vstd::utf8::is_ascii_chars;

use crate::bytes::one_field;
use crate::bytes_laws::{ascii, ascii_is_encoded, ascii_keeps_places};
use crate::civil_laws::on_clock;
use crate::contracts::{ContractDetails, OptionRight, SecurityType};
use crate::decimal::ExactDecimal;
use crate::decimal_laws::{spelled_by, spelled_decimals_are_denoted, spells};
use crate::model::{AssetClass, InstrumentId, OptionKind, Price, Quantity};
use crate::params::{InfoValue, Params};
use crate::providers::expiry::{
    expiry_timestring_to_unix_nanos, last_trade_time, midnight, ExpiryError,
};
use crate::providers::expiry_laws::{
    date_digits, dates_are_read, dates_expire_at, days_without_a_session_end_at_midnight, full_text,
    full_texts_expire_at, instant_of, no_session, session_closes, sessions_end_the_day,
};
use crate::providers::info::{provenance_view, with_entries};
use crate::providers::instruments::{
    Cfd, Commodity, CryptoPerpetual, CurrencyPair, Equity, FuturesContract, IndexInstrument,
    InstrumentAny, OptionContract,
};
use crate::providers::min_quantity::EquityMinQuantity;
use crate::providers::minimum_laws::{decimals_are_held, labelled, provenance_held};
use crate::providers::parse::{
    asset_class_of, contract_multiplier_of, equity_min_quantity, parse_contract_multiplier,
    parse_ib_contract_to_instrument, parse_quantity, sec_type_to_asset_class, ContractError,
    ParseInputs,
};
use crate::providers::precision::{
    decimals_count_to_the_last_nonzero_one, tick_size_to_precision, without_trailing_zeros,
};
use crate::text_laws::{number_in, numeral};
use crate::wire::WireNumber;
use crate::wire_laws::{above_zero, below_zero, infinite_bits, nan_bits, zero_bits};

verus! {

/// A tick that is zero or below has eight decimals, however it is written.
pub proof fn ticks_that_are_not_above_zero_have_eight_decimals(tick: &WireNumber, precision: u8)
    requires
        call_ensures(tick_size_to_precision, (tick,), precision),
        zero_bits(tick.bits) || below_zero(tick.bits),
    ensures
        precision == 8,
{
}

/// A tick has as many decimals as it is written with, up to the last one that is not zero and eight
/// at most; one that is written without a point has none.
pub proof fn ticks_have_the_decimals_they_are_written_with(
    tick: &WireNumber,
    precision: u8,
    whole: Seq<char>,
    decimals: Seq<char>,
    zeros: Seq<char>,
)
    requires
        call_ensures(tick_size_to_precision, (tick,), precision),
        above_zero(tick.bits) || nan_bits(tick.bits),
        is_ascii_chars(tick.fixed@),
    ensures
        !tick.fixed@.contains('.') ==> precision == 0,
        ({
            &&& tick.fixed@ == whole + seq!['.'] + decimals + zeros
            &&& !whole.contains('.') && !decimals.contains('.')
            &&& decimals.len() > 0 ==> decimals.last() != '0'
            &&& forall|i: int| 0 <= i < zeros.len() ==> zeros[i] == '0'
        }) ==> precision == (if decimals.len() <= 8 {
            decimals.len()
        } else {
            8
        }),
{
    let text = tick.fixed@;
    ascii_is_encoded(text);
    if !text.contains('.') {
        ascii_keeps_places(text, '.');
        stripping_adds_nothing(ascii(text), 46);
        one_field(without_trailing_zeros(ascii(text)), 46);
    }
    if text == whole + seq!['.'] + decimals + zeros && !whole.contains('.') && !decimals.contains(
        '.',
    ) && (decimals.len() > 0 ==> decimals.last() != '0') && (forall|i: int|
        0 <= i < zeros.len() ==> zeros[i] == '0') {
        assert(is_ascii_chars(whole)) by {
            assert forall|i: int| 0 <= i < whole.len() implies '\0' <= #[trigger] whole[i]
                <= '\u{7f}' by {
                assert(text[i] == whole[i]);
            }
        }
        assert(is_ascii_chars(decimals)) by {
            assert forall|i: int| 0 <= i < decimals.len() implies '\0' <= #[trigger] decimals[i]
                <= '\u{7f}' by {
                assert(text[whole.len() + 1 + i] == decimals[i]);
            }
        }
        ascii_keeps_places(whole, '.');
        ascii_keeps_places(decimals, '.');
        assert(ascii(text) =~= ascii(whole) + seq![46u8] + ascii(decimals) + ascii(zeros));
        if decimals.len() > 0 {
            let last = decimals.len() - 1;
            assert('\0' <= decimals[last] <= '\u{7f}');
            assert(ascii(decimals).last() == decimals[last] as u8);
        }
        decimals_count_to_the_last_nonzero_one(ascii(whole), ascii(decimals), ascii(zeros));
    }
}

proof fn stripping_adds_nothing(b: Seq<u8>, byte: u8)
    requires
        !b.contains(byte),
    ensures
        !without_trailing_zeros(b).contains(byte),
    decreases b.len(),
{
    if b.len() > 0 && b.last() == 48 {
        let shorter = b.drop_last();
        assert forall|i: int| 0 <= i < shorter.len() implies shorter[i] != byte by {
            assert(b.contains(b[i]));
        }
        stripping_adds_nothing(shorter, byte);
    }
}

/// A security type stands for the class of its asset, and one that is not listed for an equity.
pub proof fn security_types_have_their_asset_class(text: &str, class: AssetClass)
    requires
        call_ensures(sec_type_to_asset_class, (text,), class),
    ensures
        class_of(text@, class),
{
    reveal_strlit("IND");
    reveal_strlit("CASH");
    reveal_strlit("BOND");
    reveal_strlit("CMDTY");
    reveal_strlit("FUT");
    assert("IND"@.len() == 3 && "CASH"@.len() == 4 && "BOND"@.len() == 4 && "CMDTY"@.len() == 5);
    assert("FUT"@.len() == 3 && "FUT"@[0] == 'F' && "IND"@[0] == 'I');
    assert("CASH"@[0] == 'C' && "BOND"@[0] == 'B');
}

/// The class of the asset that a security type stands for.
pub open spec fn class_of(text: Seq<char>, class: AssetClass) -> bool {
    &&& class == AssetClass::Index <==> text == "IND"@ || text == "FUT"@
    &&& class == AssetClass::FX <==> text == "CASH"@
    &&& class == AssetClass::Debt <==> text == "BOND"@
    &&& class == AssetClass::Commodity <==> text == "CMDTY"@
}

/// A text is a quantity where it spells a number from zero to the largest quantity.
pub proof fn quantities_are_read_within_their_range(
    text: &str,
    max_quantity: u64,
    r: Option<ExactDecimal>,
    d: ExactDecimal,
)
    requires
        call_ensures(parse_quantity, (text, max_quantity), r),
        spells(text@, d),
    ensures
        0 <= d.mantissa <= max_quantity * pow(10, d.scale as nat) ==> r == Some(d),
        !(0 <= d.mantissa <= max_quantity * pow(10, d.scale as nat)) ==> r is None,
{
    spelled_decimals_are_denoted(text@, d);
}

/// Whatever its text is, a quantity is from zero to the largest one.
pub proof fn quantities_stay_within_their_range(
    text: &str,
    max_quantity: u64,
    r: Option<ExactDecimal>,
)
    requires
        call_ensures(parse_quantity, (text, max_quantity), r),
    ensures
        r matches Some(d) ==> 0 <= d.mantissa <= max_quantity * pow(10, d.scale as nat),
{
}

/// What a multiplier comes to: the number that it spells where that is a quantity, and otherwise the
/// default.
pub open spec fn multiplies(
    multiplier: Quantity,
    text: Seq<char>,
    d: ExactDecimal,
    default: u64,
    max_quantity: u64,
) -> bool {
    &&& text.len() == 0 ==> multiplier == Quantity::Whole(default)
    &&& spells(text, d) && 0 <= d.mantissa <= max_quantity * pow(10, d.scale as nat) ==> multiplier
        == Quantity::Parsed(d)
    &&& spells(text, d) && !(0 <= d.mantissa <= max_quantity * pow(10, d.scale as nat))
        ==> multiplier == Quantity::Whole(default)
    &&& multiplier is Parsed || multiplier == Quantity::Whole(default)
}

proof fn spelled_texts_are_not_empty(text: Seq<char>, d: ExactDecimal)
    requires
        spells(text, d),
    ensures
        text.len() > 0,
{
    spelled_decimals_are_denoted(text, d);
    let (negative, whole, fraction) = choose|
        negative: bool,
        whole: Seq<char>,
        fraction: Seq<char>,
    | #[trigger]
        spelled_by(text, d, negative, whole, fraction);
    assert(whole.len() > 0);
}

/// A multiplier is the number that its text spells where that is a quantity, and otherwise the
/// default.
pub proof fn multipliers_are_what_they_spell(
    text: &str,
    default: u64,
    max_quantity: u64,
    r: Quantity,
    d: ExactDecimal,
)
    requires
        call_ensures(parse_contract_multiplier, (text, default, max_quantity), r),
    ensures
        multiplies(r, text@, d, default, max_quantity),
{
    if spells(text@, d) {
        spelled_decimals_are_denoted(text@, d);
        spelled_texts_are_not_empty(text@, d);
    }
}

/// Whatever its text is, a multiplier is the quantity of it where that is one and the text is not
/// empty, and otherwise the default.
pub proof fn multipliers_are_quantities(
    text: &str,
    default: u64,
    max_quantity: u64,
    read: Option<ExactDecimal>,
    r: Quantity,
)
    requires
        call_ensures(parse_quantity, (text, max_quantity), read),
        call_ensures(parse_contract_multiplier, (text, default, max_quantity), r),
    ensures
        r == (if text@.len() > 0 && read is Some {
            Quantity::Parsed(read->0)
        } else {
            Quantity::Whole(default)
        }),
{
}

/// A multiplier is the quantity that was read where its text is not empty, and otherwise the
/// default.
pub proof fn multipliers_are_the_quantities_read(
    text: &str,
    read: Option<ExactDecimal>,
    default: u64,
    r: Quantity,
)
    requires
        call_ensures(contract_multiplier_of, (text, read, default), r),
    ensures
        r == (if text@.len() > 0 && read is Some {
            Quantity::Parsed(read->0)
        } else {
            Quantity::Whole(default)
        }),
{
}

/// A price step: the tick of the contract as it is, with the decimals of the instrument.
pub open spec fn ticks_by(increment: Price, tick: WireNumber, precision: u8) -> bool {
    increment.native == tick && increment.magnifier == 1 && increment.precision == precision
}

/// A size: the number of the contract as it is, with the decimals of the instrument.
pub open spec fn steps_by(quantity: Quantity, value: WireNumber, precision: u8) -> bool {
    quantity matches Quantity::Wire { value: v, precision: p } && v == value && p == precision
}

/// The named values of an instrument that every contract gives: its fields and its price magnifier.
pub open spec fn contract_values(
    name: Seq<char>,
    value: Option<&InfoValue>,
    details: ContractDetails,
    contract_params: Params,
) -> bool {
    &&& name == "contract"@ ==> (value matches Some(InfoValue::Object(params)) && *params
        == contract_params)
    &&& name == "priceMagnifier"@ ==> (value matches Some(InfoValue::Integer(n)) && *n
        == details.price_magnifier)
}

/// Nothing is held under a name other than these two.
pub open spec fn no_other_values(name: Seq<char>, value: Option<&InfoValue>) -> bool {
    name != "contract"@ && name != "priceMagnifier"@ ==> value is None
}

/// The names of the named values of contracts and minimum quantities are all different.
pub(crate) proof fn value_names_differ()
    ensures
        "contract"@ != "priceMagnifier"@,
        "contract"@.len() == 8,
        "priceMagnifier"@.len() == 14,
        "minSize"@.len() == 7,
        "sizeIncrement"@.len() == 13,
        "suggestedSizeIncrement"@.len() == 22,
        "minQuantitySource"@.len() == 17,
        "minQuantityRawMinSize"@.len() == 21,
        "minQuantityRawSizeIncrement"@.len() == 27,
        "minQuantityEffective"@.len() == 20,
        "minQuantitySystemIncrement"@.len() == 26,
        "minQuantityNormalizationRule"@.len() == 28,
{
    reveal_strlit("contract");
    reveal_strlit("priceMagnifier");
    reveal_strlit("minSize");
    reveal_strlit("sizeIncrement");
    reveal_strlit("suggestedSizeIncrement");
    reveal_strlit("minQuantitySource");
    reveal_strlit("minQuantityRawMinSize");
    reveal_strlit("minQuantityRawSizeIncrement");
    reveal_strlit("minQuantityEffective");
    reveal_strlit("minQuantitySystemIncrement");
    reveal_strlit("minQuantityNormalizationRule");
    assert("contract"@.len() == 8 && "priceMagnifier"@.len() == 14);
}

/// A contract becomes the kind of instrument that its security type says; an option needs a right,
/// and other types become none.
pub proof fn contracts_become_their_kind_of_instrument(
    details: &ContractDetails,
    id: &InstrumentId,
    inputs: ParseInputs,
    outcome: Result<InstrumentAny, ContractError>,
)
    requires
        call_ensures(parse_ib_contract_to_instrument, (details, id, inputs), outcome),
    ensures
        match details.contract.security_type {
            SecurityType::Stock => outcome matches Ok(InstrumentAny::Equity(_)),
            SecurityType::Bond => outcome matches Ok(InstrumentAny::Equity(_)),
            SecurityType::ForexPair => outcome matches Ok(InstrumentAny::CurrencyPair(_)),
            SecurityType::Crypto => outcome matches Ok(InstrumentAny::CryptoPerpetual(_)),
            SecurityType::Future => outcome matches Ok(InstrumentAny::FuturesContract(_)),
            SecurityType::ContinuousFuture => outcome matches Ok(
                InstrumentAny::FuturesContract(_),
            ),
            SecurityType::Option => if details.contract.right is Some {
                outcome matches Ok(InstrumentAny::OptionContract(_))
            } else {
                outcome == Err::<InstrumentAny, ContractError>(ContractError::MissingRight)
            },
            SecurityType::FuturesOption => if details.contract.right is Some {
                outcome matches Ok(InstrumentAny::OptionContract(_))
            } else {
                outcome == Err::<InstrumentAny, ContractError>(ContractError::MissingRight)
            },
            SecurityType::Index => outcome matches Ok(InstrumentAny::IndexInstrument(_)),
            SecurityType::CFD => outcome matches Ok(InstrumentAny::Cfd(_)),
            SecurityType::Commodity => outcome matches Ok(InstrumentAny::Commodity(_)),
            other => outcome == Err::<InstrumentAny, ContractError>(
                ContractError::UnsupportedSecurityType(other),
            ),
        },
{
}

/// The identity, the stamps and the named values of an instrument.
pub open spec fn stamped_by(
    instrument_id: InstrumentId,
    ts_event: u64,
    ts_init: u64,
    id: InstrumentId,
    inputs: ParseInputs,
) -> bool {
    instrument_id == id && ts_event == inputs.now && ts_init == inputs.now
}

/// A share is traded in round lots of a hundred at the ticks of the contract, and has the smallest
/// quantity that is found for it.
pub proof fn shares_say_what_the_contract_says(
    details: &ContractDetails,
    id: &InstrumentId,
    inputs: ParseInputs,
    equity: Equity,
    digits: u8,
    minimum: EquityMinQuantity,
    name: &str,
    value: Option<&InfoValue>,
)
    requires
        call_ensures(
            parse_ib_contract_to_instrument,
            (details, id, inputs),
            Ok::<InstrumentAny, ContractError>(InstrumentAny::Equity(equity)),
        ),
        details.contract.security_type == SecurityType::Stock,
        call_ensures(tick_size_to_precision, (&details.min_tick,), digits),
        call_ensures(equity_min_quantity, (details, inputs.max_quantity), minimum),
        call_ensures(Params::get, (&equity.info, name), value),
    ensures
        stamped_by(equity.instrument_id, equity.ts_event, equity.ts_init, *id, inputs),
        equity.raw_symbol@ == details.contract.local_symbol@,
        equity.currency@ == details.contract.currency@,
        equity.price_precision == digits,
        ticks_by(equity.price_increment, details.min_tick, digits),
        equity.lot_size == Quantity::Whole(100),
        match minimum.quantity {
            Some(shares) => equity.min_quantity == Some(Quantity::Whole(shares)),
            None => equity.min_quantity is None,
        },
        contract_values(name@, value, *details, inputs.contract_params),
        minimum_values(name@, value, *details, minimum),
        name@ != "minSize"@ && name@ != "sizeIncrement"@ && name@ != "suggestedSizeIncrement"@
            && name@ != "minQuantitySource"@ && name@ != "minQuantityRawMinSize"@ && name@
            != "minQuantityRawSizeIncrement"@ && name@ != "minQuantityEffective"@ && name@
            != "minQuantitySystemIncrement"@ && name@ != "minQuantityNormalizationRule"@
            ==> no_other_values(name@, value),
{
    value_names_differ();
    reveal_with_fuel(with_entries, 7);
    let entries = provenance_view(minimum);
    let e4 = entries.drop_last();
    let e3 = e4.drop_last();
    let e2 = e3.drop_last();
    let e1 = e2.drop_last();
    assert(e4.last() == entries[3] && e3.last() == entries[2] && e2.last() == entries[1]
        && e1.last() == entries[0]);
    assert(e1.drop_last() =~= Seq::empty());
    if value is Some {
        let held = *value->0;
        if name@ == "minQuantityRawMinSize"@ {
            decimals_are_held(minimum.raw_min_size, held);
        } else if name@ == "minQuantityRawSizeIncrement"@ {
            decimals_are_held(minimum.raw_size_increment, held);
        } else if name@ == "minQuantityEffective"@ {
            decimals_are_held(minimum.effective, held);
        } else if name@ == "minQuantitySystemIncrement"@ {
            decimals_are_held(Some(minimum.system_increment), held);
        }
    }
}

/// A number among the named values: the number itself, and nothing where it is not finite.
pub open spec fn number_held(value: Option<&InfoValue>, number: WireNumber) -> bool {
    if nan_bits(number.bits) || infinite_bits(number.bits) {
        value matches Some(InfoValue::Null)
    } else {
        value matches Some(InfoValue::Number(n)) && *n == number
    }
}

/// The named values that a share has beside those of its contract: its sizes as the venue gives
/// them, and how its smallest quantity was found.
pub open spec fn minimum_values(
    name: Seq<char>,
    value: Option<&InfoValue>,
    details: ContractDetails,
    minimum: EquityMinQuantity,
) -> bool {
    &&& name == "minSize"@ ==> number_held(value, details.min_size)
    &&& name == "sizeIncrement"@ ==> number_held(value, details.size_increment)
    &&& name == "suggestedSizeIncrement"@ ==> number_held(value, details.suggested_size_increment)
    &&& name == "minQuantitySource"@ ==> (value matches Some(InfoValue::Text(text)) && labelled(
        minimum.source,
        text@,
    ))
    &&& provenance_held(name, value, minimum)
}

/// A bond is held as a share without a smallest quantity, in lots of one.
pub proof fn bonds_say_what_the_contract_says(
    details: &ContractDetails,
    id: &InstrumentId,
    inputs: ParseInputs,
    equity: Equity,
    digits: u8,
    name: &str,
    value: Option<&InfoValue>,
)
    requires
        call_ensures(
            parse_ib_contract_to_instrument,
            (details, id, inputs),
            Ok::<InstrumentAny, ContractError>(InstrumentAny::Equity(equity)),
        ),
        details.contract.security_type == SecurityType::Bond,
        call_ensures(tick_size_to_precision, (&details.min_tick,), digits),
        call_ensures(Params::get, (&equity.info, name), value),
    ensures
        stamped_by(equity.instrument_id, equity.ts_event, equity.ts_init, *id, inputs),
        equity.raw_symbol@ == details.contract.local_symbol@,
        equity.currency@ == details.contract.currency@,
        equity.price_precision == digits,
        ticks_by(equity.price_increment, details.min_tick, digits),
        equity.lot_size == Quantity::Whole(1),
        equity.min_quantity is None,
        contract_values(name@, value, *details, inputs.contract_params),
        no_other_values(name@, value),
{
    value_names_differ();
}

/// A currency pair buys the symbol of its contract with the currency of it.
pub proof fn pairs_say_what_the_contract_says(
    details: &ContractDetails,
    id: &InstrumentId,
    inputs: ParseInputs,
    pair: CurrencyPair,
    digits: u8,
    size_digits: u8,
    name: &str,
    value: Option<&InfoValue>,
)
    requires
        call_ensures(
            parse_ib_contract_to_instrument,
            (details, id, inputs),
            Ok::<InstrumentAny, ContractError>(InstrumentAny::CurrencyPair(pair)),
        ),
        call_ensures(tick_size_to_precision, (&details.min_tick,), digits),
        call_ensures(tick_size_to_precision, (&details.min_size,), size_digits),
        call_ensures(Params::get, (&pair.info, name), value),
    ensures
        details.contract.security_type == SecurityType::ForexPair,
        stamped_by(pair.instrument_id, pair.ts_event, pair.ts_init, *id, inputs),
        pair.raw_symbol@ == details.contract.local_symbol@,
        pair.base_currency@ == details.contract.symbol@,
        pair.quote_currency@ == details.contract.currency@,
        pair.price_precision == digits && pair.size_precision == size_digits,
        ticks_by(pair.price_increment, details.min_tick, digits),
        steps_by(pair.size_increment, details.size_increment, size_digits),
        contract_values(name@, value, *details, inputs.contract_params),
        no_other_values(name@, value),
{
    value_names_differ();
}

/// A crypto contract is an inverse perpetual that is quoted and settled in its currency.
pub proof fn perpetuals_say_what_the_contract_says(
    details: &ContractDetails,
    id: &InstrumentId,
    inputs: ParseInputs,
    perpetual: CryptoPerpetual,
    digits: u8,
    size_digits: u8,
    name: &str,
    value: Option<&InfoValue>,
)
    requires
        call_ensures(
            parse_ib_contract_to_instrument,
            (details, id, inputs),
            Ok::<InstrumentAny, ContractError>(InstrumentAny::CryptoPerpetual(perpetual)),
        ),
        call_ensures(tick_size_to_precision, (&details.min_tick,), digits),
        call_ensures(tick_size_to_precision, (&details.min_size,), size_digits),
        call_ensures(Params::get, (&perpetual.info, name), value),
    ensures
        details.contract.security_type == SecurityType::Crypto,
        stamped_by(perpetual.instrument_id, perpetual.ts_event, perpetual.ts_init, *id, inputs),
        perpetual.raw_symbol@ == details.contract.local_symbol@,
        perpetual.base_currency@ == details.contract.symbol@,
        perpetual.quote_currency@ == details.contract.currency@,
        perpetual.settlement_currency@ == details.contract.currency@,
        perpetual.is_inverse,
        perpetual.price_precision == digits && perpetual.size_precision == size_digits,
        ticks_by(perpetual.price_increment, details.min_tick, digits),
        steps_by(perpetual.size_increment, details.size_increment, size_digits),
        steps_by(perpetual.min_quantity, details.min_size, size_digits),
        contract_values(name@, value, *details, inputs.contract_params),
        no_other_values(name@, value),
{
    value_names_differ();
}

/// A future says what its contract says: a continuous one goes by its symbol where it has one, and
/// every one is traded in lots of one.
pub proof fn futures_say_what_the_contract_says(
    details: &ContractDetails,
    id: &InstrumentId,
    inputs: ParseInputs,
    future: FuturesContract,
    digits: u8,
    name: &str,
    value: Option<&InfoValue>,
    d: ExactDecimal,
    text: &str,
    multiplier: Quantity,
)
    requires
        call_ensures(
            parse_ib_contract_to_instrument,
            (details, id, inputs),
            Ok::<InstrumentAny, ContractError>(InstrumentAny::FuturesContract(future)),
        ),
        call_ensures(tick_size_to_precision, (&details.min_tick,), digits),
        call_ensures(Params::get, (&future.info, name), value),
        text@ == details.contract.multiplier@,
        call_ensures(
            parse_contract_multiplier,
            (text, 1, inputs.max_quantity),
            multiplier,
        ),
    ensures
        details.contract.security_type == SecurityType::Future || details.contract.security_type
            == SecurityType::ContinuousFuture,
        stamped_by(future.instrument_id, future.ts_event, future.ts_init, *id, inputs),
        details.contract.security_type == SecurityType::Future ==> future.raw_symbol@
            == details.contract.local_symbol@,
        details.contract.security_type == SecurityType::ContinuousFuture ==> future.raw_symbol@
            == (if details.contract.symbol@.len() > 0 {
            details.contract.symbol@
        } else {
            details.contract.local_symbol@
        }),
        class_of(details.under_security_type@, future.asset_class),
        future.underlying@ == details.under_symbol@,
        future.currency@ == details.contract.currency@,
        future.price_precision == digits,
        ticks_by(future.price_increment, details.min_tick, digits),
        future.lot_size == Quantity::Whole(1),
        future.multiplier == multiplier,
        multiplies(future.multiplier, details.contract.multiplier@, d, 1, inputs.max_quantity),
        contract_values(name@, value, *details, inputs.contract_params),
        no_other_values(name@, value),
{
    value_names_differ();
    classes_are_told(details.under_security_type@);
    if spells(details.contract.multiplier@, d) {
        spelled_decimals_are_denoted(details.contract.multiplier@, d);
        spelled_texts_are_not_empty(details.contract.multiplier@, d);
    }
}

proof fn classes_are_told(text: Seq<char>)
    ensures
        class_of(text, asset_class_of(text)),
{
    reveal_strlit("IND");
    reveal_strlit("CASH");
    reveal_strlit("BOND");
    reveal_strlit("CMDTY");
    reveal_strlit("FUT");
    assert("IND"@.len() == 3 && "CASH"@.len() == 4 && "BOND"@.len() == 4 && "CMDTY"@.len() == 5);
    assert("FUT"@.len() == 3 && "FUT"@[0] == 'F' && "IND"@[0] == 'I');
    assert("CASH"@[0] == 'C' && "BOND"@[0] == 'B');
}

/// An option says what its contract says: its right, its strike with the decimals of its price, and
/// its multiplier, which is also its lot; an index that it is on is marked with a caret, once.
pub proof fn options_say_what_the_contract_says(
    details: &ContractDetails,
    id: &InstrumentId,
    inputs: ParseInputs,
    option: OptionContract,
    digits: u8,
    name: &str,
    value: Option<&InfoValue>,
    d: ExactDecimal,
    text: &str,
    multiplier: Quantity,
)
    requires
        call_ensures(
            parse_ib_contract_to_instrument,
            (details, id, inputs),
            Ok::<InstrumentAny, ContractError>(InstrumentAny::OptionContract(option)),
        ),
        call_ensures(tick_size_to_precision, (&details.min_tick,), digits),
        call_ensures(Params::get, (&option.info, name), value),
        text@ == details.contract.multiplier@,
        call_ensures(
            parse_contract_multiplier,
            (text, 100, inputs.max_quantity),
            multiplier,
        ),
    ensures
        details.contract.security_type == SecurityType::Option || details.contract.security_type
            == SecurityType::FuturesOption,
        stamped_by(option.instrument_id, option.ts_event, option.ts_init, *id, inputs),
        option.raw_symbol@ == details.contract.local_symbol@,
        class_of(details.under_security_type@, option.asset_class),
        details.under_security_type@ != "IND"@ ==> option.underlying@ == details.under_symbol@,
        details.under_security_type@ == "IND"@ ==> option.underlying@.len() > 0
            && option.underlying@[0] == '^' && (option.underlying@ == details.under_symbol@
            || option.underlying@ == seq!['^'] + details.under_symbol@),
        details.under_security_type@ == "IND"@ && details.under_symbol@.len() > 0
            && details.under_symbol@[0] == '^' ==> option.underlying@ == details.under_symbol@,
        details.contract.right is Some,
        option.option_kind == OptionKind::Call <==> details.contract.right == Some(
            OptionRight::Call,
        ),
        ticks_by(option.strike_price, details.contract.strike, digits),
        option.currency@ == details.contract.currency@,
        option.price_precision == digits,
        ticks_by(option.price_increment, details.min_tick, digits),
        option.multiplier == multiplier,
        multiplies(option.multiplier, details.contract.multiplier@, d, 100, inputs.max_quantity),
        option.lot_size == option.multiplier,
        contract_values(name@, value, *details, inputs.contract_params),
        no_other_values(name@, value),
{
    value_names_differ();
    classes_are_told(details.under_security_type@);
    reveal_strlit("^");
    assert("^"@ =~= seq!['^']);
    if spells(details.contract.multiplier@, d) {
        spelled_decimals_are_denoted(details.contract.multiplier@, d);
        spelled_texts_are_not_empty(details.contract.multiplier@, d);
    }
}

/// An index says what its contract says.
pub proof fn indices_say_what_the_contract_says(
    details: &ContractDetails,
    id: &InstrumentId,
    inputs: ParseInputs,
    index: IndexInstrument,
    digits: u8,
    size_digits: u8,
    name: &str,
    value: Option<&InfoValue>,
)
    requires
        call_ensures(
            parse_ib_contract_to_instrument,
            (details, id, inputs),
            Ok::<InstrumentAny, ContractError>(InstrumentAny::IndexInstrument(index)),
        ),
        call_ensures(tick_size_to_precision, (&details.min_tick,), digits),
        call_ensures(tick_size_to_precision, (&details.min_size,), size_digits),
        call_ensures(Params::get, (&index.info, name), value),
    ensures
        details.contract.security_type == SecurityType::Index,
        stamped_by(index.instrument_id, index.ts_event, index.ts_init, *id, inputs),
        index.raw_symbol@ == details.contract.local_symbol@,
        index.currency@ == details.contract.currency@,
        index.price_precision == digits && index.size_precision == size_digits,
        ticks_by(index.price_increment, details.min_tick, digits),
        steps_by(index.size_increment, details.size_increment, size_digits),
        contract_values(name@, value, *details, inputs.contract_params),
        no_other_values(name@, value),
{
    value_names_differ();
}

/// A contract for difference says what its contract says, and has a base currency, the symbol,
/// exactly where its local symbol is a pair with a point.
pub proof fn cfds_say_what_the_contract_says(
    details: &ContractDetails,
    id: &InstrumentId,
    inputs: ParseInputs,
    cfd: Cfd,
    digits: u8,
    size_digits: u8,
    name: &str,
    value: Option<&InfoValue>,
)
    requires
        call_ensures(
            parse_ib_contract_to_instrument,
            (details, id, inputs),
            Ok::<InstrumentAny, ContractError>(InstrumentAny::Cfd(cfd)),
        ),
        call_ensures(tick_size_to_precision, (&details.min_tick,), digits),
        call_ensures(tick_size_to_precision, (&details.min_size,), size_digits),
        call_ensures(Params::get, (&cfd.info, name), value),
    ensures
        details.contract.security_type == SecurityType::CFD,
        stamped_by(cfd.instrument_id, cfd.ts_event, cfd.ts_init, *id, inputs),
        cfd.raw_symbol@ == details.contract.local_symbol@,
        class_of(details.under_security_type@, cfd.asset_class),
        cfd.base_currency is Some <==> details.contract.local_symbol@.contains('.'),
        cfd.base_currency matches Some(currency) ==> currency@ == details.contract.symbol@,
        cfd.quote_currency@ == details.contract.currency@,
        cfd.price_precision == digits && cfd.size_precision == size_digits,
        ticks_by(cfd.price_increment, details.min_tick, digits),
        steps_by(cfd.size_increment, details.size_increment, size_digits),
        contract_values(name@, value, *details, inputs.contract_params),
        no_other_values(name@, value),
{
    value_names_differ();
    classes_are_told(details.under_security_type@);
}

/// A commodity says what its contract says.
pub proof fn commodities_say_what_the_contract_says(
    details: &ContractDetails,
    id: &InstrumentId,
    inputs: ParseInputs,
    commodity: Commodity,
    digits: u8,
    size_digits: u8,
    name: &str,
    value: Option<&InfoValue>,
)
    requires
        call_ensures(
            parse_ib_contract_to_instrument,
            (details, id, inputs),
            Ok::<InstrumentAny, ContractError>(InstrumentAny::Commodity(commodity)),
        ),
        call_ensures(tick_size_to_precision, (&details.min_tick,), digits),
        call_ensures(tick_size_to_precision, (&details.min_size,), size_digits),
        call_ensures(Params::get, (&commodity.info, name), value),
    ensures
        details.contract.security_type == SecurityType::Commodity,
        stamped_by(commodity.instrument_id, commodity.ts_event, commodity.ts_init, *id, inputs),
        commodity.raw_symbol@ == details.contract.local_symbol@,
        commodity.asset_class == AssetClass::Commodity,
        commodity.quote_currency@ == details.contract.currency@,
        commodity.price_precision == digits && commodity.size_precision == size_digits,
        ticks_by(commodity.price_increment, details.min_tick, digits),
        steps_by(commodity.size_increment, details.size_increment, size_digits),
        contract_values(name@, value, *details, inputs.contract_params),
        no_other_values(name@, value),
{
    value_names_differ();
}

/// When an instrument expires and starts.
pub open spec fn lifetime(outcome: Result<InstrumentAny, ContractError>) -> Option<(u64, u64)> {
    match outcome {
        Ok(InstrumentAny::FuturesContract(future)) => Some(
            (future.expiration_ns, future.activation_ns),
        ),
        Ok(InstrumentAny::OptionContract(option)) => Some(
            (option.expiration_ns, option.activation_ns),
        ),
        _ => None,
    }
}

/// A contract that is bought for a time starts ninety days before it expires, and not before 1970.
pub open spec fn starts_in_time(expiration: u64, activation: u64) -> bool {
    activation == (if expiration < 7_776_000_000_000_000 {
        0
    } else {
        expiration - 7_776_000_000_000_000
    })
}

/// A future or an option expires at the instant that its last trade date and its own trading hours
/// say, and in ninety days where that is no instant; it starts ninety days before.
pub proof fn contracts_expire_when_their_date_says(
    details: &ContractDetails,
    id: &InstrumentId,
    inputs: ParseInputs,
    outcome: Result<InstrumentAny, ContractError>,
    text: &str,
    expiry: Result<u64, ExpiryError>,
)
    requires
        call_ensures(parse_ib_contract_to_instrument, (details, id, inputs), outcome),
        text@ == details.contract.last_trade_date_or_contract_month@,
        call_ensures(expiry_timestring_to_unix_nanos, (text, Some(details)), expiry),
        inputs.now <= u64::MAX - 7_776_000_000_000_000,
    ensures
        lifetime(outcome) matches Some((expiration, activation)) ==> {
            &&& starts_in_time(expiration, activation)
            &&& match expiry {
                Ok(instant) => expiration == instant,
                Err(_) => expiration == inputs.now + 7_776_000_000_000_000,
            }
        },
{
}

/// A future or an option with a last trade date expires when the first session on that date closes:
/// at that hour and minute, at UTC.
pub proof fn contracts_expire_with_the_session_of_their_last_day(
    details: &ContractDetails,
    id: &InstrumentId,
    inputs: ParseInputs,
    outcome: Result<InstrumentAny, ContractError>,
    year: Seq<char>,
    month: Seq<char>,
    day: Seq<char>,
    k: int,
    opening: Seq<char>,
    closing: Seq<char>,
    hour: Seq<char>,
    minute: Seq<char>,
)
    requires
        call_ensures(parse_ib_contract_to_instrument, (details, id, inputs), outcome),
        details.contract.last_trade_date_or_contract_month@ == year + month + day,
        date_digits(year, month, day),
        1970 <= number_in(year) <= 2553,
        session_closes(
            details.trading_hours@,
            year + month + day,
            k,
            opening,
            closing,
            hour,
            minute,
        ),
        on_clock(number_in(hour), number_in(minute), 0),
    ensures
        lifetime(outcome) matches Some((expiration, activation)) ==> expiration == instant_of(
            year,
            month,
            day,
            number_in(hour),
            number_in(minute),
            0,
        ) && starts_in_time(expiration, activation),
{
    let date = year + month + day;
    dates_are_read(year, month, day);
    sessions_end_the_day(details, date, k, opening, closing, hour, minute);
    dates_expire_at(year, month, day, Some(details), last_trade_time(Some(details), ascii(date)));
}

/// A future or an option with a last trade date expires at the start of that day, at UTC, where its
/// trading hours do not say when trading ends.
pub proof fn contracts_without_a_session_expire_at_midnight(
    details: &ContractDetails,
    id: &InstrumentId,
    inputs: ParseInputs,
    outcome: Result<InstrumentAny, ContractError>,
    year: Seq<char>,
    month: Seq<char>,
    day: Seq<char>,
)
    requires
        call_ensures(parse_ib_contract_to_instrument, (details, id, inputs), outcome),
        details.contract.last_trade_date_or_contract_month@ == year + month + day,
        date_digits(year, month, day),
        1970 <= number_in(year) <= 2553,
        no_session(Some(details), year + month + day),
    ensures
        lifetime(outcome) matches Some((expiration, activation)) ==> expiration == instant_of(
            year,
            month,
            day,
            0,
            0,
            0,
        ) && starts_in_time(expiration, activation),
{
    let date = year + month + day;
    dates_are_read(year, month, day);
    days_without_a_session_end_at_midnight(Some(details), date);
    dates_expire_at(year, month, day, Some(details), midnight());
}

/// A future or an option with a last trade date and time expires then, at UTC.
pub proof fn contracts_with_a_time_expire_then(
    details: &ContractDetails,
    id: &InstrumentId,
    inputs: ParseInputs,
    outcome: Result<InstrumentAny, ContractError>,
    year: Seq<char>,
    month: Seq<char>,
    day: Seq<char>,
    hour: Seq<char>,
    minute: Seq<char>,
    second: Seq<char>,
    zone: Seq<char>,
)
    requires
        call_ensures(parse_ib_contract_to_instrument, (details, id, inputs), outcome),
        details.contract.last_trade_date_or_contract_month@ == full_text(
            year,
            month,
            day,
            hour,
            minute,
            second,
            zone,
        ),
        date_digits(year, month, day),
        1970 <= number_in(year) <= 2553,
        hour.len() == 2 && minute.len() == 2 && second.len() == 2,
        numeral(hour) && numeral(minute) && numeral(second),
        on_clock(number_in(hour), number_in(minute), number_in(second)),
        is_ascii_chars(zone),
    ensures
        lifetime(outcome) matches Some((expiration, activation)) ==> expiration == instant_of(
            year,
            month,
            day,
            number_in(hour),
            number_in(minute),
            number_in(second),
        ) && starts_in_time(expiration, activation),
{
    full_texts_expire_at(Some(details), year, month, day, hour, minute, second, zone);
}

/// A share is an equity held in whole numbers.
pub proof fn shares_are_equities_in_whole_numbers(
    equity: &Equity,
    class: AssetClass,
    precision: u32,
)
    requires
        call_ensures(Equity::asset_class, (equity,), class),
        call_ensures(Equity::size_precision, (equity,), precision),
    ensures
        class == AssetClass::Equity,
        precision == 0,
{
}

/// A quantity has the decimals that it was made with.
pub proof fn quantities_have_the_decimals_they_were_made_with(quantity: &Quantity, precision: u32)
    requires
        call_ensures(Quantity::precision, (quantity,), precision),
    ensures
        match quantity {
            Quantity::Wire { precision: p, .. } => precision == *p,
            Quantity::Zero { precision: p } => precision == *p,
            Quantity::Whole(_) => precision == 0,
            Quantity::Parsed(d) => precision == d.scale,
        },
{
}

} // verus!
