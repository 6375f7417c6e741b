//! Equities and their minimum quantities.

use ib_adapter::contracts::{Contract, ContractDetails, SecurityType};
use ib_adapter::decimal::ExactDecimal;
use ib_adapter::model::{AssetClass, InstrumentId, Price, Quantity};
use ib_adapter::params::{InfoValue, Params};
use ib_adapter::providers::instruments::{Equity, InstrumentAny};
use ib_adapter::providers::min_quantity::{
    ceiling_div, equity_min_quantity_of, exact_decimal, exact_share_count, mantissa_at_scale,
    pow10_i128, EquityMinQuantity, MinQuantitySource,
};
use ib_adapter::providers::parse::{
    equity_min_quantity, equity_with_minimum, parse_ib_contract_to_instrument, ParseInputs,
};
use ib_adapter::wire::WireNumber;
use rust_decimal::Decimal;
use std::str::FromStr;

const MIN_QUANTITY_SOURCE_NATIVE: &str = "contract_details.min_size";
const MIN_QUANTITY_SOURCE_MISSING: &str = "contract_details.min_size.missing";
const MIN_QUANTITY_SOURCE_NON_FINITE: &str = "contract_details.min_size.non_finite";
const MIN_QUANTITY_SOURCE_NON_POSITIVE: &str = "contract_details.min_size.non_positive";
const MIN_QUANTITY_SOURCE_UNREPRESENTABLE: &str =
    "contract_details.min_size.not_representable_at_equity_precision";
const MIN_QUANTITY_SOURCE_NORMALIZED: &str =
    "contract_details.min_size.ceiling_to_system_size_increment";
const MIN_QUANTITY_SOURCE_INCREMENT_MISSING: &str = "contract_details.size_increment.missing";
const MIN_QUANTITY_SOURCE_INCREMENT_NON_FINITE: &str = "contract_details.size_increment.non_finite";
const MIN_QUANTITY_SOURCE_INCREMENT_NON_POSITIVE: &str =
    "contract_details.size_increment.non_positive";
const MIN_QUANTITY_SOURCE_INCREMENT_INCOMPATIBLE: &str =
    "contract_details.size_increment.system_increment_not_on_lattice";
const MIN_QUANTITY_SOURCE_MIN_OFF_LATTICE: &str =
    "contract_details.min_size.not_on_size_increment_lattice";
const INFO_KEY_RAW_MIN_SIZE: &str = "minQuantityRawMinSize";
const INFO_KEY_RAW_SIZE_INCREMENT: &str = "minQuantityRawSizeIncrement";
const INFO_KEY_EFFECTIVE_MIN_QUANTITY: &str = "minQuantityEffective";
const INFO_KEY_SYSTEM_SIZE_INCREMENT: &str = "minQuantitySystemIncrement";
const INFO_KEY_NORMALIZATION_RULE: &str = "minQuantityNormalizationRule";

/// The largest quantity of the model.
const MAX_QUANTITY: u64 = 34_028_236_692_093;

fn wire(value: f64) -> WireNumber {
    WireNumber {
        bits: value.to_bits(),
        text: format!("{value}"),
        fixed: format!("{value:.10}"),
    }
}

fn text(value: &str) -> InfoValue {
    InfoValue::Text(value.to_string())
}

fn number(value: f64) -> InfoValue {
    InfoValue::Number(wire(value))
}

fn inputs() -> ParseInputs {
    ParseInputs {
        contract_params: Params::new(),
        max_quantity: MAX_QUANTITY,
        now: 1_756_000_000_000_000_000,
    }
}

fn identity(symbol: &str, venue: &str) -> InstrumentId {
    InstrumentId {
        symbol: symbol.to_string(),
        venue: venue.to_string(),
    }
}

fn shares(count: f64) -> Option<Quantity> {
    Some(Quantity::Whole(count as u64))
}

fn stock_details(symbol: &str, min_size: f64) -> ContractDetails {
    stock_details_with_increments(symbol, min_size, 1.0, 100.0)
}

fn stock_details_with_increments(
    symbol: &str,
    min_size: f64,
    size_increment: f64,
    suggested_size_increment: f64,
) -> ContractDetails {
    ContractDetails {
        contract: Contract {
            symbol: symbol.to_string(),
            security_type: SecurityType::Stock,
            last_trade_date_or_contract_month: String::new(),
            strike: wire(0.0),
            right: None,
            multiplier: String::new(),
            currency: "USD".to_string(),
            local_symbol: symbol.to_string(),
        },
        min_tick: wire(0.01),
        min_size: wire(min_size),
        size_increment: wire(size_increment),
        suggested_size_increment: wire(suggested_size_increment),
        price_magnifier: 0,
        under_symbol: String::new(),
        under_security_type: String::new(),
        trading_hours: Vec::new(),
    }
}

fn parsed_equity(details: &ContractDetails, id: &InstrumentId) -> Equity {
    let InstrumentAny::Equity(equity) =
        parse_ib_contract_to_instrument(details, id, inputs()).unwrap()
    else {
        panic!("expected equity");
    };
    equity
}

fn stock_equity(symbol: &str, primary_exchange: &str, min_size: f64) -> (Equity, InstrumentId) {
    let instrument_id = identity(symbol, primary_exchange);
    let equity = parsed_equity(&stock_details(symbol, min_size), &instrument_id);
    (equity, instrument_id)
}

fn spy_with_increments(min_size: f64, size_increment: f64, suggested: f64) -> Equity {
    parsed_equity(
        &stock_details_with_increments("SPY", min_size, size_increment, suggested),
        &identity("SPY", "ARCA"),
    )
}

fn published(equity: &Equity) -> u64 {
    match equity.min_quantity {
        Some(Quantity::Whole(count)) => count,
        _ => panic!("minimum published"),
    }
}

const STOCKS: [(&str, &str); 3] = [("SPY", "ARCA"), ("AAPL", "NASDAQ"), ("MSFT", "NASDAQ")];

#[test]
fn test_parse_contract_preserves_price_magnifier_in_info() {
    let mut details = stock_details("AAPL", 0.0);
    details.size_increment = wire(0.0);
    details.suggested_size_increment = wire(0.0);
    details.price_magnifier = 100;

    let equity = parsed_equity(&details, &identity("AAPL", "XNAS"));

    assert_eq!(
        equity.info.get("priceMagnifier"),
        Some(&InfoValue::Integer(100))
    );
}

#[test]
fn test_parse_equity_contract_publishes_native_min_quantity() {
    for (symbol, primary_exchange) in STOCKS {
        let (equity, instrument_id) = stock_equity(symbol, primary_exchange, 1.0);

        assert_eq!(equity.asset_class(), AssetClass::Equity);
        assert_eq!(equity.instrument_id, instrument_id);
        assert_eq!(
            equity.min_quantity,
            shares(1.0),
            "the resolved equity must publish the native contract-details \
             minimum order size"
        );
    }
}

#[test]
fn test_parse_equity_contract_min_quantity_precision_matches_instrument() {
    let (equity, _) = stock_equity("SPY", "ARCA", 1.0);
    let min_quantity = equity.min_quantity.clone().expect("min_quantity published");

    assert_eq!(min_quantity.precision(), equity.size_precision());
    assert_eq!(equity.size_precision(), 0);
}

#[test]
fn test_parse_equity_contract_preserves_price_increment_and_lot_size() {
    let (equity, _) = stock_equity("SPY", "ARCA", 1.0);

    assert_eq!(equity.price_precision, 2);
    assert_eq!(
        equity.price_increment,
        Price {
            native: wire(0.01),
            magnifier: 1,
            precision: 2
        }
    );
    assert_eq!(Some(equity.lot_size), shares(100.0));
}

#[test]
fn test_parse_equity_contract_does_not_substitute_lot_size_for_min_quantity() {
    let (equity, _) = stock_equity("SPY", "ARCA", 1.0);

    assert_ne!(equity.min_quantity, Some(equity.lot_size.clone()));
    assert_eq!(equity.min_quantity, shares(1.0));
    assert_eq!(Some(equity.lot_size), shares(100.0));
}

#[test]
fn test_parse_equity_contract_records_native_min_size_provenance() {
    let (equity, _) = stock_equity("SPY", "ARCA", 1.0);
    let info = &equity.info;

    assert_eq!(
        info.get("minQuantitySource"),
        Some(&text("contract_details.min_size")),
        "the minimum quantity must be traceable to the native field it came from"
    );
    assert_eq!(info.get("minSize"), Some(&number(1.0)));
    assert_eq!(info.get("sizeIncrement"), Some(&number(1.0)));
    assert_eq!(info.get("suggestedSizeIncrement"), Some(&number(100.0)));
}

#[test]
fn test_parse_equity_contract_native_min_size_one_is_published() {
    for (symbol, primary_exchange) in STOCKS {
        let (equity, _) = stock_equity(symbol, primary_exchange, 1.0);

        assert_eq!(equity.min_quantity, shares(1.0));
        assert_eq!(
            equity.info.get("minQuantitySource"),
            Some(&text(MIN_QUANTITY_SOURCE_NATIVE)),
        );
    }
}

#[test]
fn test_parse_equity_contract_native_min_size_whole_value_is_exact() {
    for (min_size, expected) in [(5.0, 5.0), (100.0, 100.0), (1.0, 1.0)] {
        let (equity, _) = stock_equity("SPY", "ARCA", min_size);

        assert_eq!(
            equity.min_quantity,
            shares(expected),
            "a native whole-share minimum must be published EXACTLY, never \
             rounded and never substituted"
        );
        assert_eq!(
            equity.info.get("minQuantitySource"),
            Some(&text(MIN_QUANTITY_SOURCE_NATIVE)),
        );
    }
}

#[test]
fn test_parse_equity_contract_invalid_native_min_size_leaves_minimum_unset() {
    for (min_size, expected_source) in [
        (0.0, MIN_QUANTITY_SOURCE_MISSING),
        (-1.0, MIN_QUANTITY_SOURCE_NON_POSITIVE),
        (-0.5, MIN_QUANTITY_SOURCE_NON_POSITIVE),
        (f64::NAN, MIN_QUANTITY_SOURCE_NON_FINITE),
        (f64::INFINITY, MIN_QUANTITY_SOURCE_NON_FINITE),
        (f64::NEG_INFINITY, MIN_QUANTITY_SOURCE_NON_FINITE),
    ] {
        let (equity, _) = stock_equity("SPY", "ARCA", min_size);

        assert_eq!(
            equity.min_quantity, None,
            "native min_size {min_size} must NOT produce a usable equity minimum"
        );
        assert_ne!(equity.min_quantity, shares(1.0));
        assert_eq!(
            equity.info.get("minQuantitySource"),
            Some(&text(expected_source)),
            "unusable native metadata must record WHY no minimum was published"
        );
        if min_size.is_finite() {
            assert_eq!(equity.info.get("minSize"), Some(&number(min_size)));
        } else {
            assert_eq!(equity.info.get("minSize"), Some(&InfoValue::Null));
        }
    }
}

#[test]
fn test_parse_equity_contract_fractional_native_min_size_is_never_rounded() {
    for (min_size, expected_source) in [
        (0.5, MIN_QUANTITY_SOURCE_MIN_OFF_LATTICE),
        (1.5, MIN_QUANTITY_SOURCE_MIN_OFF_LATTICE),
        (2.25, MIN_QUANTITY_SOURCE_MIN_OFF_LATTICE),
        (0.999, MIN_QUANTITY_SOURCE_MIN_OFF_LATTICE),
        (f64::MIN_POSITIVE, MIN_QUANTITY_SOURCE_UNREPRESENTABLE),
    ] {
        let (equity, _) = stock_equity("SPY", "ARCA", min_size);

        assert_eq!(
            equity.min_quantity, None,
            "native min_size {min_size} must not be published for a whole-share instrument"
        );
        assert_ne!(equity.min_quantity, shares(1.0));
        assert_ne!(equity.min_quantity, shares(2.0));
        assert_eq!(
            equity.info.get("minQuantitySource"),
            Some(&text(expected_source)),
        );
        assert_eq!(equity.size_precision(), 0);
        assert_eq!(
            equity.info.get(INFO_KEY_EFFECTIVE_MIN_QUANTITY),
            Some(&InfoValue::Null),
            "a refusal publishes no effective minimum"
        );
    }
}

#[test]
fn test_parse_equity_contract_normalizes_native_minimum_by_ceiling() {
    for (min_size, size_increment, expected) in [
        (0.0001, 0.0001, 1.0),
        (0.5, 0.0001, 1.0),
        (1.0, 0.0001, 1.0),
        (1.5, 0.0001, 2.0),
        (2.25, 0.0001, 3.0),
        (5.0, 0.0001, 5.0),
        (0.0001, 0.000001, 1.0),
        (0.5, 0.5, 1.0),
        (1.5, 0.5, 2.0),
        (2.25, 0.25, 3.0),
        (1.0, 1.0, 1.0),
    ] {
        let equity = spy_with_increments(min_size, size_increment, 100.0);
        let info = &equity.info;

        assert_eq!(
            equity.min_quantity,
            shares(expected),
            "min {min_size} / increment {size_increment} must normalize to \
             {expected} whole shares"
        );
        assert_eq!(equity.min_quantity.clone().unwrap().precision(), 0);
        assert_eq!(equity.size_precision(), 0);
        assert_eq!(
            info.get(INFO_KEY_EFFECTIVE_MIN_QUANTITY),
            Some(&text(&format!("{expected}"))),
        );
        assert_eq!(info.get(INFO_KEY_SYSTEM_SIZE_INCREMENT), Some(&text("1")));
        assert_eq!(info.get("minSize"), Some(&number(min_size)));
        assert_eq!(info.get("sizeIncrement"), Some(&number(size_increment)));
        assert_eq!(info.get("suggestedSizeIncrement"), Some(&number(100.0)));
    }
}

#[test]
fn test_parse_equity_contract_records_which_rule_published_the_minimum() {
    for (min_size, size_increment, expected_source) in [
        (1.0, 1.0, MIN_QUANTITY_SOURCE_NATIVE),
        (5.0, 1.0, MIN_QUANTITY_SOURCE_NATIVE),
        (1.0, 0.0001, MIN_QUANTITY_SOURCE_NATIVE),
        (0.0001, 0.0001, MIN_QUANTITY_SOURCE_NORMALIZED),
        (0.5, 0.0001, MIN_QUANTITY_SOURCE_NORMALIZED),
        (1.5, 0.0001, MIN_QUANTITY_SOURCE_NORMALIZED),
        (2.25, 0.0001, MIN_QUANTITY_SOURCE_NORMALIZED),
    ] {
        let equity = spy_with_increments(min_size, size_increment, 100.0);
        let info = &equity.info;

        assert_eq!(info.get("minQuantitySource"), Some(&text(expected_source)));
        assert_eq!(
            info.get(INFO_KEY_NORMALIZATION_RULE),
            Some(&text(expected_source)),
        );
        assert!(info.get(INFO_KEY_RAW_MIN_SIZE).is_some());
        assert!(info.get(INFO_KEY_RAW_SIZE_INCREMENT).is_some());
    }
}

#[test]
fn test_parse_equity_contract_normalized_minimum_is_a_safe_ceiling() {
    for (min_size, size_increment) in [
        (0.0001, 0.0001),
        (0.5, 0.0001),
        (1.0, 0.0001),
        (1.5, 0.0001),
        (2.25, 0.0001),
        (5.0, 0.0001),
        (2.25, 0.25),
    ] {
        let equity = spy_with_increments(min_size, size_increment, 100.0);

        let published_decimal = Decimal::from(published(&equity));
        let native_decimal = Decimal::from_str(&format!("{min_size}")).unwrap();

        assert!(
            published_decimal >= native_decimal,
            "the published minimum {published_decimal} must never be BELOW the \
             native minimum {native_decimal}"
        );
        assert!(
            published_decimal - Decimal::ONE < native_decimal,
            "the published minimum {published_decimal} must be the SMALLEST \
             whole share at or above the native minimum {native_decimal}"
        );
    }
}

#[test]
fn test_parse_equity_contract_incompatible_venue_increment_fails_closed() {
    for (min_size, size_increment) in [
        (1.0, 5.0),
        (5.0, 25.0),
        (1.0, 3.0),
        (2.0, 7.0),
        (1.0, 0.3),
        (40.0, 40.0),
    ] {
        let equity = spy_with_increments(min_size, size_increment, 100.0);

        assert_eq!(
            equity.min_quantity, None,
            "the system one-share increment does not lie on the {size_increment} \
             lattice, so alignment cannot be proven"
        );
        assert_eq!(
            equity.info.get("minQuantitySource"),
            Some(&text(MIN_QUANTITY_SOURCE_INCREMENT_INCOMPATIBLE)),
        );
    }
}

#[test]
fn test_parse_equity_contract_unusable_venue_increment_fails_closed() {
    for (size_increment, expected_source) in [
        (0.0, MIN_QUANTITY_SOURCE_INCREMENT_MISSING),
        (-1.0, MIN_QUANTITY_SOURCE_INCREMENT_NON_POSITIVE),
        (f64::NAN, MIN_QUANTITY_SOURCE_INCREMENT_NON_FINITE),
        (f64::INFINITY, MIN_QUANTITY_SOURCE_INCREMENT_NON_FINITE),
        (f64::NEG_INFINITY, MIN_QUANTITY_SOURCE_INCREMENT_NON_FINITE),
    ] {
        let equity = spy_with_increments(1.0, size_increment, 100.0);

        assert_eq!(equity.min_quantity, None);
        assert_eq!(
            equity.info.get("minQuantitySource"),
            Some(&text(expected_source)),
        );
    }
}

#[test]
fn test_parse_equity_contract_suggested_increment_never_becomes_the_minimum() {
    for (min_size, size_increment, suggested) in [
        (0.0001, 0.0001, 40.0),
        (0.0001, 0.0001, 1.0e9),
        (1.0, 0.0001, 40.0),
        (1.5, 0.0001, 500.0),
    ] {
        let equity = spy_with_increments(min_size, size_increment, suggested);

        assert_ne!(equity.min_quantity, shares(suggested));
        assert!(
            Decimal::from(published(&equity)) < Decimal::from_str(&format!("{suggested}")).unwrap(),
            "the published minimum must not be inflated to the suggested size increment"
        );
        assert_eq!(
            equity.info.get("suggestedSizeIncrement"),
            Some(&number(suggested)),
        );
    }
}

#[test]
fn test_parse_equity_contract_live_spy_fractional_fixture_normalizes_to_one_share() {
    let instrument_id = identity("SPY", "ARCA");
    let equity = spy_with_increments(0.0001, 0.0001, 40.0);
    let info = &equity.info;

    assert_eq!(
        equity.min_quantity,
        shares(1.0),
        "live SPY minSize 0.0001 / sizeIncrement 0.0001 must normalize to \
         exactly one whole share"
    );
    assert_eq!(equity.instrument_id, instrument_id);
    assert_eq!(equity.size_precision(), 0);
    assert_eq!(Some(equity.lot_size.clone()), shares(100.0));
    assert_eq!(equity.price_precision, 2);
    assert_eq!(
        equity.price_increment,
        Price {
            native: wire(0.01),
            magnifier: 1,
            precision: 2
        }
    );

    assert_eq!(info.get("minSize"), Some(&number(0.0001)));
    assert_eq!(info.get("sizeIncrement"), Some(&number(0.0001)));
    assert_eq!(info.get("suggestedSizeIncrement"), Some(&number(40.0)));
    assert_eq!(info.get(INFO_KEY_RAW_MIN_SIZE), Some(&text("0.0001")));
    assert_eq!(info.get(INFO_KEY_RAW_SIZE_INCREMENT), Some(&text("0.0001")));
    assert_eq!(info.get(INFO_KEY_EFFECTIVE_MIN_QUANTITY), Some(&text("1")));
    assert_eq!(info.get(INFO_KEY_SYSTEM_SIZE_INCREMENT), Some(&text("1")));
    assert_eq!(
        info.get("minQuantitySource"),
        Some(&text(MIN_QUANTITY_SOURCE_NORMALIZED)),
    );
}

#[test]
fn test_parse_equity_contract_out_of_range_native_min_size_fails_closed() {
    for min_size in [1.0e30, f64::MAX] {
        let (equity, _) = stock_equity("SPY", "ARCA", min_size);

        assert_eq!(equity.min_quantity, None);
        assert_eq!(
            equity.info.get("minQuantitySource"),
            Some(&text(MIN_QUANTITY_SOURCE_UNREPRESENTABLE)),
        );
    }
}

#[test]
fn test_parse_equity_contract_lot_size_remains_distinct_and_unchanged() {
    for min_size in [1.0, 5.0, 0.0, -1.0, f64::NAN, f64::INFINITY, 0.5] {
        let (equity, _) = stock_equity("SPY", "ARCA", min_size);

        assert_eq!(Some(equity.lot_size.clone()), shares(100.0));
        assert_ne!(
            equity.min_quantity,
            Some(equity.lot_size),
            "the round lot must never be substituted for the minimum"
        );
    }
}

#[test]
fn test_parse_equity_contract_size_increments_are_not_substituted() {
    for (min_size, size_increment, suggested_size_increment, expected) in [
        (1.0, 0.25, 250.0, 1.0),
        (5.0, 0.25, 500.0, 5.0),
        (1.5, 0.5, 500.0, 2.0),
    ] {
        let equity = spy_with_increments(min_size, size_increment, suggested_size_increment);

        assert_eq!(equity.min_quantity, shares(expected));
        assert_ne!(equity.min_quantity, shares(size_increment));
        assert_ne!(equity.min_quantity, shares(suggested_size_increment));
        assert_eq!(
            equity.info.get("sizeIncrement"),
            Some(&number(size_increment)),
        );
        assert_eq!(
            equity.info.get("suggestedSizeIncrement"),
            Some(&number(suggested_size_increment)),
        );
    }
}

#[test]
fn test_parse_equity_contract_increments_do_not_rescue_unusable_minimum() {
    for min_size in [0.0, -1.0, f64::NAN, f64::INFINITY] {
        let equity = spy_with_increments(min_size, 1.0, 100.0);

        assert_eq!(
            equity.min_quantity, None,
            "size_increment=1 / suggested_size_increment=100 must NOT be \
             promoted into a minimum quantity"
        );
    }
}

#[test]
fn test_c2_10_e2_r3_q2_live_spy_fixture_replays_through_the_real_parser() {
    let details = stock_details_with_increments("SPY", 0.0001, 0.0001, 40.0);
    let instrument_id = identity("SPY", "ARCA");
    let equity = parsed_equity(&details, &instrument_id);

    assert_eq!(equity.instrument_id, instrument_id);
    assert_eq!(equity.asset_class(), AssetClass::Equity);
    assert_eq!(equity.size_precision(), 0);
    assert_eq!(
        equity.min_quantity,
        shares(1.0),
        "live SPY minSize 0.0001 / sizeIncrement 0.0001 must normalize to 1 share"
    );

    let info = &equity.info;
    assert_eq!(info.get("minQuantityRawMinSize"), Some(&text("0.0001")));
    assert_eq!(
        info.get("minQuantityRawSizeIncrement"),
        Some(&text("0.0001"))
    );
    assert_eq!(info.get("minQuantityEffective"), Some(&text("1")));
    assert_eq!(info.get("minQuantitySystemIncrement"), Some(&text("1")));
    assert_eq!(
        info.get("minQuantitySource"),
        Some(&text(
            "contract_details.min_size.ceiling_to_system_size_increment"
        ))
    );
    assert_eq!(Some(equity.lot_size.clone()), shares(100.0));
    assert_eq!(equity.price_precision, 2);
    assert_eq!(
        equity.price_increment,
        Price {
            native: wire(0.01),
            magnifier: 1,
            precision: 2
        }
    );
}

#[test]
fn minimums_are_bounded_by_the_model_and_by_exact_integers() {
    let details = stock_details("SPY", 34_028_236_692_093.0);
    assert_eq!(
        equity_min_quantity(&details, MAX_QUANTITY).quantity,
        Some(MAX_QUANTITY)
    );
    assert_eq!(
        equity_min_quantity(&details, MAX_QUANTITY - 1),
        EquityMinQuantity::refused(MinQuantitySource::Unrepresentable)
    );

    let exact = 9_007_199_254_740_992.0;
    let details = stock_details("SPY", exact);
    assert_eq!(
        equity_min_quantity(&details, u64::MAX).quantity,
        Some(9_007_199_254_740_992)
    );
    let details = stock_details("SPY", exact + 2.0);
    assert_eq!(
        equity_min_quantity(&details, u64::MAX).source,
        MinQuantitySource::Unrepresentable
    );
}

#[test]
fn decisions_keep_what_they_rest_on() {
    let decision = equity_min_quantity(
        &stock_details_with_increments("SPY", 2.25, 0.0001, 0.0),
        MAX_QUANTITY,
    );
    let decimal = |mantissa, scale| ExactDecimal { mantissa, scale };
    assert_eq!(
        decision,
        EquityMinQuantity {
            quantity: Some(3),
            source: MinQuantitySource::Normalized,
            raw_min_size: Some(decimal(225, 2)),
            raw_size_increment: Some(decimal(1, 4)),
            effective: Some(decimal(3, 0)),
            system_increment: decimal(1, 0),
        }
    );
    assert_eq!(
        decision.provenance(),
        vec![
            (INFO_KEY_RAW_MIN_SIZE, text("2.25")),
            (INFO_KEY_RAW_SIZE_INCREMENT, text("0.0001")),
            (INFO_KEY_EFFECTIVE_MIN_QUANTITY, text("3")),
            (INFO_KEY_SYSTEM_SIZE_INCREMENT, text("1")),
            (
                INFO_KEY_NORMALIZATION_RULE,
                text(MIN_QUANTITY_SOURCE_NORMALIZED)
            ),
        ]
    );
    let refusal = EquityMinQuantity::refused(MinQuantitySource::MinOffLattice);
    assert_eq!(
        refusal.provenance(),
        vec![
            (INFO_KEY_RAW_MIN_SIZE, InfoValue::Null),
            (INFO_KEY_RAW_SIZE_INCREMENT, InfoValue::Null),
            (INFO_KEY_EFFECTIVE_MIN_QUANTITY, InfoValue::Null),
            (INFO_KEY_SYSTEM_SIZE_INCREMENT, text("1")),
            (
                INFO_KEY_NORMALIZATION_RULE,
                text(MIN_QUANTITY_SOURCE_MIN_OFF_LATTICE)
            ),
        ]
    );
}

#[test]
fn named_decimals_lose_their_trailing_zeros() {
    // Twenty-five with two digits after the point, and an increment of a tenth.
    let decimal = |mantissa, scale| ExactDecimal { mantissa, scale };
    let decision = equity_min_quantity_of(
        &wire(25.0),
        &wire(0.1),
        Some(decimal(2500, 2)),
        Some(decimal(100, 3)),
        MAX_QUANTITY,
    );
    assert_eq!(decision.quantity, Some(25));
    assert_eq!(decision.source, MinQuantitySource::Native);
    let equity = equity_with_minimum(
        &stock_details("SPY", 25.0),
        &identity("SPY", "ARCA"),
        decision,
        Params::new(),
        5,
    );
    assert_eq!(equity.info.get(INFO_KEY_RAW_MIN_SIZE), Some(&text("25")));
    assert_eq!(
        equity.info.get(INFO_KEY_RAW_SIZE_INCREMENT),
        Some(&text("0.1"))
    );
    assert_eq!(equity.ts_event, 5);
    assert_eq!(equity.ts_init, 5);
}

#[test]
fn exact_decimals_are_never_rounded() {
    let decimal = |mantissa, scale| Some(ExactDecimal { mantissa, scale });
    assert_eq!(exact_decimal(&wire(0.0001)), decimal(1, 4));
    assert_eq!(exact_decimal(&wire(-1.5)), decimal(-15, 1));
    assert_eq!(exact_decimal(&wire(100.0)), decimal(100, 0));
    assert_eq!(
        exact_decimal(&wire(1.0e28)),
        decimal(10_000_000_000_000_000_000_000_000_000, 0)
    );
    assert_eq!(exact_decimal(&wire(1.0e29)), None);
    assert_eq!(exact_decimal(&wire(1.0e-28)), decimal(1, 28));
    assert_eq!(exact_decimal(&wire(1.0e-29)), None);
    assert_eq!(exact_decimal(&wire(f64::NAN)), None);
    assert_eq!(exact_decimal(&wire(f64::NEG_INFINITY)), None);
}

#[test]
fn integer_steps_refuse_what_leaves_their_range() {
    assert_eq!(pow10_i128(0), Some(1));
    assert_eq!(pow10_i128(3), Some(1000));
    assert_eq!(
        pow10_i128(38),
        Some(100_000_000_000_000_000_000_000_000_000_000_000_000)
    );
    assert_eq!(pow10_i128(39), None);

    assert_eq!(ceiling_div(7, 2), Some(4));
    assert_eq!(ceiling_div(8, 2), Some(4));
    assert_eq!(ceiling_div(1, i128::MAX - 1), Some(1));
    assert_eq!(ceiling_div(1, i128::MAX), None);
    assert_eq!(ceiling_div(0, 2), None);
    assert_eq!(ceiling_div(2, 0), None);
    assert_eq!(ceiling_div(-1, 2), None);

    let decimal = |mantissa, scale| ExactDecimal { mantissa, scale };
    assert_eq!(mantissa_at_scale(decimal(15, 1), 4), Some(15_000));
    assert_eq!(mantissa_at_scale(decimal(-15, 1), 1), Some(-15));
    assert_eq!(mantissa_at_scale(decimal(15, 1), 0), None);
    assert_eq!(mantissa_at_scale(decimal(i128::MAX, 0), 1), None);
    assert_eq!(mantissa_at_scale(decimal(1, 0), 39), None);

    assert_eq!(exact_share_count(1), Some(1));
    assert_eq!(exact_share_count(1 << 53), Some(1 << 53));
    assert_eq!(exact_share_count((1 << 53) + 1), None);
    assert_eq!(exact_share_count(0), None);
    assert_eq!(exact_share_count(-1), None);
}
