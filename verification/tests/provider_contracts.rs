//! Contracts other than equities, spreads, tick sizes and expiries.

use ib_adapter::contracts::{Contract, ContractDetails, OptionRight, SecurityType};
use ib_adapter::decimal::ExactDecimal;
use ib_adapter::model::{AssetClass, InstrumentId, OptionKind, Price, Quantity};
use ib_adapter::params::{InfoValue, Params};
use ib_adapter::providers::expiry::{expiry_timestring_to_unix_nanos, ExpiryError};
use ib_adapter::providers::instruments::{FuturesContract, InstrumentAny, OptionContract};
use ib_adapter::providers::parse::{
    contract_multiplier_of, parse_contract_multiplier, parse_ib_contract_to_instrument,
    parse_quantity, sec_type_to_asset_class, ContractError, ParseInputs, NINETY_DAYS,
};
use ib_adapter::providers::precision::tick_size_to_precision;
use ib_adapter::providers::spread::{
    parse_futures_spread_instrument_id, parse_option_spread_instrument_id,
    parse_spread_instrument_any, parse_spread_instrument_id, SpreadError, SpreadInputs,
};
use ib_adapter::wire::WireNumber;

const NOW: u64 = 1_756_000_000_000_000_000;

fn wire(value: f64) -> WireNumber {
    WireNumber {
        bits: value.to_bits(),
        text: format!("{value}"),
        fixed: format!("{value:.10}"),
    }
}

fn price(value: f64, precision: u8) -> Price {
    Price {
        native: wire(value),
        magnifier: 1,
        precision,
    }
}

fn quantity(value: f64, precision: u8) -> Quantity {
    Quantity::Wire {
        value: wire(value),
        precision,
    }
}

/// The largest quantity of the model.
const MAX_QUANTITY: u64 = 34_028_236_692_093;

fn parsed(mantissa: i128) -> Quantity {
    Quantity::Parsed(ExactDecimal { mantissa, scale: 0 })
}

fn identity(symbol: &str, venue: &str) -> InstrumentId {
    InstrumentId {
        symbol: symbol.to_string(),
        venue: venue.to_string(),
    }
}

fn details(symbol: &str, security_type: SecurityType, min_tick: f64) -> ContractDetails {
    ContractDetails {
        contract: Contract {
            symbol: symbol.to_string(),
            security_type,
            last_trade_date_or_contract_month: String::new(),
            strike: wire(0.0),
            right: None,
            multiplier: String::new(),
            currency: "USD".to_string(),
            local_symbol: String::new(),
        },
        min_tick: wire(min_tick),
        min_size: wire(0.0),
        size_increment: wire(0.0),
        suggested_size_increment: wire(0.0),
        price_magnifier: 0,
        under_symbol: String::new(),
        under_security_type: String::new(),
        trading_hours: Vec::new(),
    }
}

fn inputs() -> ParseInputs {
    let mut contract_params = Params::new();
    contract_params.insert("secType", InfoValue::Text("X".to_string()));
    ParseInputs {
        contract_params,
        max_quantity: MAX_QUANTITY,
        now: NOW,
    }
}

fn parse(details: &ContractDetails) -> InstrumentAny {
    parse_ib_contract_to_instrument(details, &identity("ID", "SMART"), inputs()).unwrap()
}

fn parse_option(details: &ContractDetails) -> OptionContract {
    let InstrumentAny::OptionContract(option) = parse(details) else {
        panic!("expected option contract");
    };
    option
}

fn parse_future(details: &ContractDetails) -> FuturesContract {
    let InstrumentAny::FuturesContract(future) = parse(details) else {
        panic!("expected futures contract");
    };
    future
}

fn spxw() -> ContractDetails {
    let mut details = details("SPXW", SecurityType::Option, 0.05);
    details.contract.local_symbol = "SPXW  260313P06630000".to_string();
    details.contract.last_trade_date_or_contract_month = "20260313".to_string();
    details.contract.right = Some(OptionRight::Put);
    details.contract.strike = wire(6630.0);
    details.contract.multiplier = "100".to_string();
    details.under_symbol = "SPX".to_string();
    details.under_security_type = "IND".to_string();
    details
}

#[test]
fn test_parse_option_contract_prefixes_index_underlying() {
    let option = parse_option(&spxw());

    assert_eq!(option.asset_class, AssetClass::Index);
    assert_eq!(option.underlying, "^SPX");
}

#[test]
fn options_carry_their_terms() {
    let option = parse_option(&spxw());
    assert_eq!(option.option_kind, OptionKind::Put);
    assert_eq!(option.strike_price, price(6630.0, 2));
    assert_eq!(option.price_increment, price(0.05, 2));
    assert_eq!(option.multiplier, parsed(100));
    assert_eq!(option.lot_size, option.multiplier);
    // 2026-03-13T00:00:00Z, and ninety days before it.
    assert_eq!(option.expiration_ns, 1_773_360_000_000_000_000);
    assert_eq!(option.activation_ns, 1_765_584_000_000_000_000);
    assert_eq!(option.raw_symbol, "SPXW  260313P06630000");
    assert_eq!(option.ts_event, NOW);

    let mut call = spxw();
    call.contract.security_type = SecurityType::FuturesOption;
    call.contract.right = Some(OptionRight::Call);
    call.contract.multiplier = String::new();
    call.under_symbol = "^VIX".to_string();
    let option = parse_option(&call);
    assert_eq!(option.option_kind, OptionKind::Call);
    assert_eq!(option.underlying, "^VIX");
    assert_eq!(option.lot_size, Quantity::Whole(100));

    let mut stock = spxw();
    stock.under_security_type = "STK".to_string();
    let option = parse_option(&stock);
    assert_eq!(option.underlying, "SPX");
    assert_eq!(option.asset_class, AssetClass::Equity);
}

#[test]
fn options_have_to_say_what_they_are() {
    let mut details = spxw();
    details.contract.right = None;
    for security_type in [SecurityType::Option, SecurityType::FuturesOption] {
        details.contract.security_type = security_type;
        assert_eq!(
            parse_ib_contract_to_instrument(&details, &identity("A", "B"), inputs())
                .unwrap_err(),
            ContractError::MissingRight
        );
    }
}

#[test]
fn other_contracts_are_not_supported() {
    for security_type in [
        SecurityType::Spread,
        SecurityType::Warrant,
        SecurityType::News,
        SecurityType::MutualFund,
        SecurityType::Other,
    ] {
        assert_eq!(
            parse_ib_contract_to_instrument(
                &details("X", security_type, 0.01),
                &identity("A", "B"),
                inputs()
            )
            .unwrap_err(),
            ContractError::UnsupportedSecurityType(security_type)
        );
    }
}

#[test]
fn test_parse_contract_multiplier_uses_quantity_parser() {
    for (multiplier, expected) in [
        ("100", parsed(100)),
        ("", Quantity::Whole(1)),
        ("not-a-number", Quantity::Whole(1)),
    ] {
        assert_eq!(parse_contract_multiplier(multiplier, 1, MAX_QUANTITY), expected);
    }
}

#[test]
fn multipliers_stay_within_the_largest_quantity() {
    let decimal = |mantissa, scale| ExactDecimal { mantissa, scale };
    for (text, expected) in [
        ("34028236692093", Some(decimal(34_028_236_692_093, 0))),
        ("34028236692093.00", Some(decimal(3_402_823_669_209_300, 2))),
        ("34028236692093.01", None),
        ("34028236692092.99", Some(decimal(3_402_823_669_209_299, 2))),
        ("34028236692094", None),
        ("100000000000000000000", None),
        ("1000000000000000000000000000000000", None),
        ("-34028236692094", None),
    ] {
        assert_eq!(parse_quantity(text, MAX_QUANTITY), expected, "{text}");
    }
    assert_eq!(parse_quantity("8", 7), None);
    assert_eq!(parse_quantity("7", 7), Some(decimal(7, 0)));
    assert_eq!(parse_quantity("0.000", 0), Some(decimal(0, 3)));

    let huge = "100000000000000000000";
    assert_eq!(
        parse_contract_multiplier(huge, 100, MAX_QUANTITY),
        Quantity::Whole(100)
    );
    let mut future = details("ES", SecurityType::Future, 0.25);
    future.contract.multiplier = huge.to_string();
    assert_eq!(parse_future(&future).multiplier, Quantity::Whole(1));

    let mut option_leg = leg("A", SecurityType::Option, 0.01);
    option_leg.contract.multiplier = huge.to_string();
    let spread = parse_spread_instrument_id(
        &spread_identity(),
        &[(&option_leg, 1)],
        &spread_inputs(None, None),
    )
    .unwrap();
    assert_eq!(spread.multiplier, Quantity::Whole(100));
    assert_eq!(spread.lot_size, Quantity::Whole(100));
}

#[test]
fn full_expiries_do_not_depend_on_zone_or_trading_hours() {
    let mut details = details("ES", SecurityType::Future, 0.25);
    details.trading_hours = vec!["20230101:0930-20230101:1600".to_string()];
    let expected = Ok(1_672_576_496_000_000_000);
    for zone in ["UTC", "US/Central", "", "nowhere at all"] {
        let text = format!("20230101 12:34:56 {zone}");
        assert_eq!(expiry_timestring_to_unix_nanos(&text, None), expected, "{zone}");
        assert_eq!(
            expiry_timestring_to_unix_nanos(&text, Some(&details)),
            expected,
            "{zone}"
        );
    }
    assert_ne!(
        expiry_timestring_to_unix_nanos("20230101", Some(&details)),
        expiry_timestring_to_unix_nanos("20230101", None)
    );
}

#[test]
fn multipliers_are_decimals_that_are_not_below_zero() {
    let decimal = |mantissa, scale| ExactDecimal { mantissa, scale };
    for (text, expected) in [
        ("0.50", Some(decimal(50, 2))),
        ("0", Some(decimal(0, 0))),
        ("-1", None),
        ("", None),
        ("1e3", Some(decimal(1000, 0))),
        ("e", None),
    ] {
        assert_eq!(parse_quantity(text, MAX_QUANTITY), expected, "{text}");
    }
    assert_eq!(
        parse_contract_multiplier("-5", 100, MAX_QUANTITY),
        Quantity::Whole(100)
    );
    assert_eq!(
        contract_multiplier_of("", Some(decimal(7, 0)), 100),
        Quantity::Whole(100)
    );
    assert_eq!(
        contract_multiplier_of("seven", Some(decimal(7, 0)), 100),
        parsed(7)
    );
}

#[test]
fn test_parse_continuous_future_contract_uses_symbol_as_raw_symbol() {
    let mut details = details("ES", SecurityType::ContinuousFuture, 0.25);
    details.contract.multiplier = "50".to_string();
    details.under_symbol = "ES".to_string();
    details.under_security_type = "IND".to_string();

    let future = parse_future(&details);

    assert_eq!(future.raw_symbol, "ES");
}

#[test]
fn futures_carry_their_terms() {
    let mut details = details("ES", SecurityType::Future, 0.25);
    details.contract.local_symbol = "ESZ5".to_string();
    details.contract.multiplier = "50".to_string();
    details.under_symbol = "ES".to_string();
    details.under_security_type = "IND".to_string();
    details.price_magnifier = 1;

    let future = parse_future(&details);
    assert_eq!(future.raw_symbol, "ESZ5");
    assert_eq!(future.underlying, "ES");
    assert_eq!(future.asset_class, AssetClass::Index);
    assert_eq!(future.multiplier, parsed(50));
    assert_eq!(future.lot_size, Quantity::Whole(1));
    assert_eq!(future.price_precision, 2);
    // There is no date, so it expires in ninety days.
    assert_eq!(future.expiration_ns, NOW + NINETY_DAYS);
    assert_eq!(future.activation_ns, NOW);
    assert_eq!(
        future.info.get("priceMagnifier"),
        Some(&InfoValue::Integer(1))
    );
    assert_eq!(
        future.info.get("contract"),
        Some(&InfoValue::Object(inputs().contract_params))
    );
    assert_eq!(future.info.get("minSize"), None);

    details.contract.last_trade_date_or_contract_month = "nonsense".to_string();
    assert_eq!(
        parse_future(&details).expiration_ns,
        NOW + NINETY_DAYS
    );
    details.contract.last_trade_date_or_contract_month = "19700102".to_string();
    details.contract.multiplier = "many".to_string();
    let future = parse_future(&details);
    assert_eq!(future.expiration_ns, 86_400_000_000_000);
    assert_eq!(future.activation_ns, 0);
    assert_eq!(future.multiplier, Quantity::Whole(1));

    details.contract.security_type = SecurityType::ContinuousFuture;
    details.contract.symbol = String::new();
    assert_eq!(parse_future(&details).raw_symbol, "ESZ5");
}

#[test]
fn sized_instruments_carry_their_terms() {
    let sized = |security_type| {
        let mut details = details("EUR", security_type, 0.00005);
        details.contract.local_symbol = "EUR.USD".to_string();
        details.min_size = wire(0.01);
        details.size_increment = wire(0.01);
        details
    };
    let InstrumentAny::CurrencyPair(pair) = parse(&sized(SecurityType::ForexPair)) else {
        panic!("expected currency pair");
    };
    assert_eq!(pair.base_currency, "EUR");
    assert_eq!(pair.quote_currency, "USD");
    assert_eq!(pair.price_increment, price(0.00005, 5));
    assert_eq!(pair.size_increment, quantity(0.01, 2));

    let InstrumentAny::CryptoPerpetual(perpetual) = parse(&sized(SecurityType::Crypto))
    else {
        panic!("expected crypto perpetual");
    };
    assert!(perpetual.is_inverse);
    assert_eq!(perpetual.settlement_currency, "USD");
    assert_eq!(perpetual.min_quantity, quantity(0.01, 2));

    let InstrumentAny::IndexInstrument(index) = parse(&sized(SecurityType::Index)) else {
        panic!("expected index");
    };
    assert_eq!(index.currency, "USD");
    assert_eq!(index.size_precision, 2);

    let InstrumentAny::Commodity(commodity) = parse(&sized(SecurityType::Commodity)) else {
        panic!("expected commodity");
    };
    assert_eq!(commodity.asset_class, AssetClass::Commodity);
    assert_eq!(commodity.price_precision, 5);

    let InstrumentAny::Cfd(cfd) = parse(&sized(SecurityType::CFD)) else {
        panic!("expected contract for difference");
    };
    assert_eq!(cfd.base_currency.as_deref(), Some("EUR"));
    let mut without_point = sized(SecurityType::CFD);
    without_point.contract.local_symbol = "IBUS500".to_string();
    without_point.under_security_type = "CMDTY".to_string();
    let InstrumentAny::Cfd(cfd) = parse(&without_point) else {
        panic!("expected contract for difference");
    };
    assert_eq!(cfd.base_currency, None);
    assert_eq!(cfd.asset_class, AssetClass::Commodity);

    let InstrumentAny::Equity(bond) = parse(&sized(SecurityType::Bond)) else {
        panic!("expected equity");
    };
    assert_eq!(bond.min_quantity, None);
    assert_eq!(bond.lot_size, Quantity::Whole(1));
    assert_eq!(bond.info.get("minQuantitySource"), None);
}

#[test]
fn security_types_have_asset_classes() {
    for (sec_type, expected) in [
        ("STK", AssetClass::Equity),
        ("IND", AssetClass::Index),
        ("CASH", AssetClass::FX),
        ("BOND", AssetClass::Debt),
        ("CMDTY", AssetClass::Commodity),
        ("FUT", AssetClass::Index),
        ("OPT", AssetClass::Equity),
        ("ind", AssetClass::Equity),
        ("", AssetClass::Equity),
    ] {
        assert_eq!(sec_type_to_asset_class(sec_type), expected, "{sec_type}");
    }
}

#[test]
fn tick_sizes_have_precisions() {
    for (tick, expected) in [
        (0.01, 2),
        (0.05, 2),
        (0.25, 2),
        (0.5, 1),
        (1.0, 0),
        (100.0, 0),
        (0.00005, 5),
        (0.0001, 4),
        (0.03125, 5),
        (0.00000001, 8),
        (0.0000000001, 8),
        (0.00000000001, 0),
        (0.0, 8),
        (-0.0, 8),
        (-0.01, 8),
        (f64::NEG_INFINITY, 8),
        (f64::NAN, 0),
        (f64::INFINITY, 0),
    ] {
        assert_eq!(tick_size_to_precision(&wire(tick)), expected, "{tick}");
    }
}

fn leg(local_symbol: &str, security_type: SecurityType, min_tick: f64) -> ContractDetails {
    let mut leg = details("SPY", security_type, min_tick);
    leg.contract.local_symbol = local_symbol.to_string();
    leg.contract.multiplier = "100".to_string();
    leg.under_symbol = "SPY".to_string();
    leg
}

fn spread_inputs(bag_params: Option<Params>, timestamp_ns: Option<u64>) -> SpreadInputs {
    SpreadInputs {
        bag_params,
        timestamp_ns,
        max_quantity: MAX_QUANTITY,
        now: NOW,
    }
}

fn spread_identity() -> InstrumentId {
    identity(
        "(1)SPY   260120C00400000_((-1))SPY   260120C00410000",
        "SMART",
    )
}

#[test]
fn test_parse_option_spread_uses_minimum_leg_tick() {
    let leg1 = leg("SPY   260120C00400000", SecurityType::Option, 0.05);
    let leg2 = leg("SPY   260120C00410000", SecurityType::Option, 0.01);

    let spread = parse_option_spread_instrument_id(
        &spread_identity(),
        &[(&leg1, 1), (&leg2, -1)],
        spread_inputs(None, None),
    )
    .unwrap();

    assert_eq!(spread.price_precision, 2);
    assert_eq!(spread.price_increment, price(0.01, 2));
}

#[test]
fn spreads_carry_the_terms_of_their_first_leg() {
    let leg1 = leg("A", SecurityType::Option, 0.05);
    let leg2 = leg("B", SecurityType::Option, 0.1);
    let legs = [(&leg1, 1), (&leg2, -1)];
    let zero = ExactDecimal {
        mantissa: 0,
        scale: 0,
    };

    let spread = parse_spread_instrument_id(
        &spread_identity(),
        &legs,
        &spread_inputs(Some(Params::new()), Some(9)),
    )
    .unwrap();
    assert_eq!(spread.raw_symbol, spread_identity().symbol);
    assert_eq!(spread.underlying, "SPY");
    assert_eq!(spread.strategy_type, "SPREAD");
    assert_eq!(spread.asset_class, AssetClass::Equity);
    assert_eq!(spread.price_increment, price(0.05, 2));
    assert_eq!(spread.multiplier, parsed(100));
    assert_eq!(spread.lot_size, spread.multiplier);
    assert_eq!(spread.activation_ns, 0);
    assert_eq!(spread.expiration_ns, 0);
    assert_eq!(spread.margin_init, zero);
    assert_eq!(spread.taker_fee, zero);
    assert_eq!(spread.info, None);
    assert_eq!(spread.ts_event, 9);

    let mut params = Params::new();
    params.insert("secType", InfoValue::Text("BAG".to_string()));
    let mut leg0 = leg("A", SecurityType::Option, 0.05);
    leg0.contract.multiplier = String::new();
    let spread = parse_option_spread_instrument_id(
        &spread_identity(),
        &[(&leg0, 1), (&leg2, -1)],
        spread_inputs(Some(params), None),
    )
    .unwrap();
    assert_eq!(spread.ts_event, NOW);
    assert_eq!(spread.multiplier, Quantity::Whole(100));
    let Some(InfoValue::Object(contract)) = spread.info.as_ref().unwrap().get("contract") else {
        panic!("expected the fields of the contract");
    };
    assert_eq!(
        contract.get("secType"),
        Some(&InfoValue::Text("BAG".to_string()))
    );

    let mut leg3 = leg("C", SecurityType::FuturesOption, 0.25);
    leg3.under_symbol = String::new();
    let spread = parse_spread_instrument_id(
        &spread_identity(),
        &[(&leg3, 1)],
        &spread_inputs(None, None),
    )
    .unwrap();
    assert_eq!(spread.asset_class, AssetClass::Index);
    assert_eq!(spread.underlying, "SPY");
}

#[test]
fn one_future_makes_a_futures_spread() {
    let option = leg("A", SecurityType::Option, 0.05);
    let future = leg("B", SecurityType::Future, 0.25);
    let continuous = leg("C", SecurityType::ContinuousFuture, 0.25);
    let any = |legs: &[(&ContractDetails, i32)]| {
        parse_spread_instrument_any(&spread_identity(), legs, spread_inputs(None, None))
    };
    for legs in [
        [(&option, 1), (&future, -1)],
        [(&continuous, 1), (&option, -1)],
    ] {
        let Ok(InstrumentAny::FuturesSpread(spread)) = any(&legs) else {
            panic!("expected futures spread");
        };
        assert_eq!(spread.asset_class, AssetClass::Index);
        assert_eq!(spread.multiplier, parsed(100));
        assert_eq!(spread.lot_size, Quantity::Whole(1));
        assert_eq!(spread.price_increment, price(0.05, 2));
    }
    let mut unmultiplied = leg("D", SecurityType::Future, 0.25);
    unmultiplied.contract.multiplier = String::new();
    let Ok(InstrumentAny::FuturesSpread(spread)) = any(&[(&unmultiplied, 1)]) else {
        panic!("expected futures spread");
    };
    assert_eq!(spread.multiplier, Quantity::Whole(1));
    assert!(matches!(
        any(&[(&option, 1)]),
        Ok(InstrumentAny::OptionSpread(_))
    ));
}

#[test]
fn spreads_need_legs() {
    let id = spread_identity();
    assert_eq!(
        parse_spread_instrument_id(&id, &[], &spread_inputs(None, None)).unwrap_err(),
        SpreadError::NoLegs
    );
    assert_eq!(
        parse_option_spread_instrument_id(&id, &[], spread_inputs(None, None)).unwrap_err(),
        SpreadError::NoLegs
    );
    assert_eq!(
        parse_futures_spread_instrument_id(&id, &[], spread_inputs(None, None)).unwrap_err(),
        SpreadError::NoLegs
    );
    assert_eq!(
        parse_spread_instrument_any(&id, &[], spread_inputs(None, None)).unwrap_err(),
        SpreadError::NoLegs
    );
}

#[test]
fn spread_ticks_skip_what_is_no_number() {
    let nan = leg("A", SecurityType::Option, f64::NAN);
    let tenth = leg("B", SecurityType::Option, 0.1);
    for legs in [[(&nan, 1), (&tenth, 1)], [(&tenth, 1), (&nan, 1)]] {
        let spread = parse_spread_instrument_id(
            &spread_identity(),
            &legs,
            &spread_inputs(None, None),
        )
        .unwrap();
        assert_eq!(spread.price_increment, price(0.1, 1));
    }
}

#[test]
fn expiries_are_read_at_utc() {
    for (text, expected) in [
        ("20230101", 1_672_531_200_000_000_000),
        ("19700101", 0),
        ("20240229", 1_709_164_800_000_000_000),
        ("20230101 00:00:00 UTC", 1_672_531_200_000_000_000),
        ("20230101 12:34:56 UTC", 1_672_576_496_000_000_000),
        ("20230101 12:34:56 US/Eastern", 1_672_576_496_000_000_000),
        ("20230101 12 UTC", 1_672_574_400_000_000_000),
        ("20230101 12:34 UTC", 1_672_576_440_000_000_000),
        ("20230101 12:34:56 UTC more", 1_672_576_496_000_000_000),
        // Only the first eight digits of the date count.
        ("202301019 12:34:56 UTC", 1_672_576_496_000_000_000),
    ] {
        assert_eq!(
            expiry_timestring_to_unix_nanos(text, None),
            Ok(expected),
            "{text}"
        );
    }
}

#[test]
fn unreadable_expiries_are_refused() {
    for (text, expected) in [
        ("", ExpiryError::Empty),
        ("2023", ExpiryError::InvalidFormat),
        ("20230101 00:00:00", ExpiryError::InvalidFormat),
        ("202301 00:00:00 UTC", ExpiryError::InvalidFormat),
        ("2023 \u{e9}1", ExpiryError::InvalidNumber),
        ("2023\u{e9}\u{e9}", ExpiryError::InvalidNumber),
        ("abcdefgh", ExpiryError::InvalidNumber),
        ("20231301", ExpiryError::InvalidDate),
        ("20230001", ExpiryError::InvalidDate),
        ("20230230", ExpiryError::InvalidDate),
        ("20230100", ExpiryError::InvalidDate),
        ("20230101 24:00:00 UTC", ExpiryError::InvalidTime),
        ("20230101 00:60:00 UTC", ExpiryError::InvalidTime),
        ("20230101 xx:00:00 UTC", ExpiryError::InvalidNumber),
        ("20230101 256:00:00 UTC", ExpiryError::InvalidNumber),
    ] {
        assert_eq!(
            expiry_timestring_to_unix_nanos(text, None),
            Err(expected),
            "{text}"
        );
    }
}

#[test]
fn expiries_end_with_their_trading_session() {
    let with_hours = |sessions: &[&str]| {
        let mut details = details("ES", SecurityType::Future, 0.25);
        details.trading_hours = sessions.iter().map(|s| s.to_string()).collect();
        expiry_timestring_to_unix_nanos("20240411", Some(&details)).unwrap()
    };
    let midnight: u64 = 1_712_793_600_000_000_000;
    let minutes = |n: u64| midnight + n * 60_000_000_000;

    assert_eq!(with_hours(&[]), midnight);
    assert_eq!(
        with_hours(&["20240410:0000-20240410:1700", "20240411:0000-20240411:1800"]),
        minutes(18 * 60)
    );
    assert_eq!(with_hours(&["20240411:0930-20240411:1615"]), minutes(975));
    // The first session of the date counts.
    assert_eq!(
        with_hours(&["20240411:0000-20240411:1800", "20240411:1900-20240411:2000"]),
        minutes(18 * 60)
    );
    assert_eq!(
        with_hours(&["20240411:CLOSED", "20240411:0000-20240411:1800"]),
        minutes(18 * 60)
    );
    assert_eq!(
        with_hours(&["CLOSED", "20240411:0000-20240411:1800"]),
        midnight
    );
    assert_eq!(with_hours(&["20240411:0000-20240411:2500"]), midnight);
    assert_eq!(with_hours(&["20240411:0000-20240411:xx30"]), minutes(30));
    assert_eq!(with_hours(&["20240411:0000-20240411:18"]), midnight);
    assert_eq!(with_hours(&["20240411:0000-1800"]), midnight);
    assert_eq!(with_hours(&["20240412:0000-20240412:1800"]), midnight);
}
