//! Reports on working orders and on fills.

use ib_adapter::decimal::ExactDecimal;
use ib_adapter::execution::fill::{parse_execution_to_fill_report, Commission, FillError};
use ib_adapter::execution::identity::{
    broker_perm_id, ib_venue_order_id, normalized_order_ref, should_use_avg_fill_price,
};
use ib_adapter::execution::pricing::{
    parse_ib_order_pricing_fields, pricing_fields_of, OffsetDecimals,
};
use ib_adapter::execution::status::{parse_order_status_to_report, ReportContext};
use ib_adapter::execution::time::ExecutionTimeError;
use ib_adapter::execution::vocabulary::map_ib_order_type;
use ib_adapter::model::{
    InstrumentId, LiquiditySide, Money, NautilusOrderStatus, OrderSide, OrderType, Price, Quantity,
    TimeInForce, TrailingOffsetType,
};
use ib_adapter::orders::{
    Action, Execution, ExecutionSide, Order, OrderLifetime, OrderStatus, OrderStatusKind,
};
use ib_adapter::reports::{FillReport, InstrumentFacts, NumberField, OrderStatusReport, Precisions};
use ib_adapter::wire::WireNumber;

fn wire(value: f64) -> WireNumber {
    WireNumber {
        bits: value.to_bits(),
        text: format!("{value}"),
        fixed: format!("{value:.10}"),
    }
}

fn decimal(mantissa: i128, scale: u32) -> ExactDecimal {
    ExactDecimal { mantissa, scale }
}

fn price(value: f64, precision: u8) -> Price {
    Price {
        native: wire(value),
        magnifier: 1,
        precision,
    }
}

fn context_of(symbol: &str, is_spread: bool, precisions: Option<Precisions>) -> ReportContext {
    ReportContext {
        instrument_id: InstrumentId {
            symbol: symbol.to_string(),
            venue: "NASDAQ".to_string(),
        },
        account_id: "IB-001".to_string(),
        instrument: InstrumentFacts {
            price_magnifier: 1,
            precisions,
            is_spread,
        },
        ts_init: 0,
        report_id: 7,
    }
}

fn context() -> ReportContext {
    context_of("AAPL", false, None)
}

fn order_status(status: OrderStatusKind, filled: f64, remaining: f64, average: f64) -> OrderStatus {
    OrderStatus {
        order_id: 12345,
        status,
        filled: wire(filled),
        remaining: wire(remaining),
        average_fill_price: Some(wire(average)),
        perm_id: 0,
    }
}

fn order(order_type: &str, total_quantity: f64) -> Order {
    Order {
        order_id: 0,
        client_id: 0,
        perm_id: 0,
        parent_id: 0,
        action: Action::Buy,
        total_quantity: wire(total_quantity),
        filled_quantity: wire(0.0),
        order_type: order_type.to_string(),
        limit_price: None,
        aux_price: None,
        trail_stop_price: None,
        trailing_percent: None,
        limit_price_offset: None,
        tif: OrderLifetime::GoodTilCanceled,
        good_till_date: String::new(),
        account: String::new(),
        order_ref: String::new(),
    }
}

fn report_on(status: &OrderStatus, order: Option<&Order>) -> OrderStatusReport {
    let magnified = status.average_fill_price.clone();
    parse_order_status_to_report(status, order, &magnified, &context()).unwrap()
}

#[test]
fn test_ibalgo_with_zero_limit_price_maps_to_market() {
    assert_eq!(
        map_ib_order_type("IBALGO", &Some(wire(0.0))),
        OrderType::Market
    );
    assert_eq!(
        map_ib_order_type("IBALGO", &Some(wire(-0.0))),
        OrderType::Market
    );
}

#[test]
fn test_parse_order_status_to_report_submitted() {
    let status = order_status(OrderStatusKind::Submitted, 0.0, 100.0, 0.0);
    let report = report_on(&status, None);

    assert_eq!(report.order_status, NautilusOrderStatus::Accepted);
    assert_eq!(report.order_side, OrderSide::Buy);
    assert_eq!(report.order_type, OrderType::Market);
    assert_eq!(report.time_in_force, TimeInForce::Day);
    assert_eq!(report.quantity, Quantity::Zero { precision: 0 });
    assert_eq!(report.venue_order_id, "12345");
    assert_eq!(report.client_order_id, None);
    assert_eq!(report.avg_px, None);
    assert_eq!(report.report_id, 7);
}

#[test]
fn test_parse_order_status_to_report_filled() {
    let status = order_status(OrderStatusKind::Filled, 100.0, 0.0, 150.25);
    let report = report_on(&status, None);

    assert_eq!(report.order_status, NautilusOrderStatus::Filled);
    assert_eq!(report.avg_px, Some(decimal(15025, 2)));
    assert_eq!(
        report.filled_qty,
        Quantity::Wire {
            value: wire(100.0),
            precision: 0
        }
    );
}

#[test]
fn test_parse_order_status_to_report_spread_allows_negative_avg_fill_price() {
    let status = order_status(OrderStatusKind::Filled, 1.0, 0.0, -2.25);
    let context = context_of("(1)SPY C400_((1))SPY C410", true, None);
    let report =
        parse_order_status_to_report(&status, None, &Some(wire(-2.25)), &context).unwrap();

    assert_eq!(report.avg_px, Some(decimal(-225, 2)));
}

#[test]
fn negative_avg_fill_price_says_nothing_of_a_single_instrument() {
    let status = order_status(OrderStatusKind::Filled, 1.0, 0.0, -2.25);
    assert_eq!(report_on(&status, None).avg_px, None);
}

#[test]
fn avg_fill_price_has_to_say_something() {
    assert!(should_use_avg_fill_price(&wire(150.25), false));
    assert!(should_use_avg_fill_price(&wire(-2.25), true));
    assert!(!should_use_avg_fill_price(&wire(-2.25), false));
    for unusable in [0.0, -0.0, f64::MAX, f64::NAN, f64::INFINITY, f64::NEG_INFINITY] {
        assert!(!should_use_avg_fill_price(&wire(unusable), false));
        assert!(!should_use_avg_fill_price(&wire(unusable), true));
    }
}

#[test]
fn magnified_averages_are_what_is_reported() {
    let status = order_status(OrderStatusKind::Filled, 1.0, 0.0, 150.25);
    let mut context = context();
    context.instrument.price_magnifier = 100;
    let report =
        parse_order_status_to_report(&status, None, &Some(wire(150.25 * 100.0)), &context).unwrap();
    assert_eq!(report.avg_px, Some(decimal(15025, 0)));
}

#[test]
fn averages_without_a_decimal_are_refused() {
    let status = order_status(OrderStatusKind::Filled, 1.0, 0.0, 1.0e40);
    assert_eq!(
        parse_order_status_to_report(&status, None, &Some(wire(1.0e40)), &context()),
        Err(NumberField::AverageFillPrice)
    );
}

#[test]
fn test_parse_order_status_to_report_known_raw_status_preserved() {
    let status = order_status(OrderStatusKind::PendingSubmit, 0.0, 100.0, 0.0);
    let report = report_on(&status, None);

    assert_eq!(report.raw_order_status.as_deref(), Some("PendingSubmit"));
    assert_eq!(report.order_status, NautilusOrderStatus::Submitted);
}

#[test]
fn test_parse_order_status_to_report_unknown_raw_status_preserved() {
    let status = order_status(
        OrderStatusKind::Unknown("SomeFutureIbkrStatus".into()),
        0.0,
        100.0,
        0.0,
    );
    let report = report_on(&status, None);

    assert_eq!(
        report.raw_order_status.as_deref(),
        Some("SomeFutureIbkrStatus"),
    );
    assert_eq!(report.order_status, NautilusOrderStatus::Submitted);
}

#[test]
fn test_parse_order_status_to_report_inactive_maps_to_rejected() {
    let status = order_status(OrderStatusKind::Inactive, 0.0, 100.0, 0.0);
    assert_eq!(
        report_on(&status, None).order_status,
        NautilusOrderStatus::Rejected
    );
}

#[test]
fn test_parse_order_status_to_report_partial_fill_and_perm_fallback() {
    let status = OrderStatus {
        order_id: 0,
        status: OrderStatusKind::Submitted,
        filled: wire(3.0),
        remaining: wire(7.0),
        average_fill_price: Some(wire(150.25)),
        perm_id: 123_456,
    };
    let order = Order {
        limit_price: Some(wire(150.25)),
        order_ref: "O-20260527-001:123".to_string(),
        ..order("LMT", 10.0)
    };
    let report = report_on(&status, Some(&order));

    assert_eq!(report.order_status, NautilusOrderStatus::PartiallyFilled);
    assert_eq!(report.venue_order_id, "PERM-123456");
    assert_eq!(report.client_order_id.as_deref(), Some("O-20260527-001"));
}

#[test]
fn partial_fills_show_in_the_order_as_well() {
    let status = order_status(OrderStatusKind::Submitted, 3.0, 0.0, 0.0);
    assert_eq!(
        report_on(&status, Some(&order("LMT", 10.0))).order_status,
        NautilusOrderStatus::PartiallyFilled
    );
    assert_eq!(
        report_on(&status, Some(&order("LMT", 3.0))).order_status,
        NautilusOrderStatus::Accepted
    );
    assert_eq!(
        report_on(&status, None).order_status,
        NautilusOrderStatus::Accepted
    );
}

#[test]
fn test_ib_venue_order_id_prefers_perm_id_and_falls_back_to_order_id() {
    assert_eq!(ib_venue_order_id(123, 456), "PERM-456");
    assert_eq!(ib_venue_order_id(123, 0), "123");
}

#[test]
fn venue_order_ids_need_a_positive_permanent_identifier() {
    assert_eq!(ib_venue_order_id(123, -1), "123");
    assert_eq!(ib_venue_order_id(-1, i64::MIN), "-1");
    assert_eq!(ib_venue_order_id(i32::MIN, 0), "-2147483648");
    assert_eq!(ib_venue_order_id(0, 0), "0");
    assert_eq!(ib_venue_order_id(7, i64::MAX), "PERM-9223372036854775807");
}

#[test]
fn test_broker_perm_id_accepts_only_strictly_positive_values() {
    assert_eq!(broker_perm_id(1377295418), Some(1377295418));
    assert_eq!(broker_perm_id(1), Some(1));
    assert_eq!(broker_perm_id(i64::MAX), Some(i64::MAX));

    assert_eq!(broker_perm_id(0), None);
    assert_eq!(broker_perm_id(-1), None);
    assert_eq!(broker_perm_id(-2), None);
    assert_eq!(broker_perm_id(i64::MIN), None);
}

#[test]
fn test_normalized_order_ref_strips_ib_suffix() {
    assert_eq!(normalized_order_ref("O-001:123"), Some("O-001"));
    assert_eq!(normalized_order_ref("O-001"), Some("O-001"));
    assert_eq!(normalized_order_ref(""), None);
}

#[test]
fn references_lose_their_last_suffix_only() {
    assert_eq!(normalized_order_ref("a:b:c"), Some("a:b"));
    assert_eq!(normalized_order_ref(":"), Some(""));
    assert_eq!(normalized_order_ref("\u{e9}:\u{e9}"), Some("\u{e9}"));
}

#[test]
fn test_parse_order_status_to_report_maps_pricing_fields_by_order_type() {
    type Case = (
        &'static str,
        Option<f64>,
        Option<f64>,
        Option<f64>,
        Option<f64>,
        OrderType,
        Option<f64>,
        Option<f64>,
        Option<ExactDecimal>,
        Option<ExactDecimal>,
        Option<TrailingOffsetType>,
    );
    let cases: Vec<Case> = vec![
        ("MKT", None, None, None, None, OrderType::Market, None, None, None, None, None),
        (
            "LMT", Some(185.0), None, None, None, OrderType::Limit, Some(185.0), None, None, None,
            None,
        ),
        (
            "IBALGO", Some(185.0), None, None, None, OrderType::Limit, Some(185.0), None, None,
            None, None,
        ),
        ("IBALGO", None, None, None, None, OrderType::Market, None, None, None, None, None),
        (
            "MIT", None, Some(180.0), None, None, OrderType::MarketIfTouched, None, Some(180.0),
            None, None, None,
        ),
        (
            "LIT", Some(179.0), Some(180.0), None, None, OrderType::LimitIfTouched, Some(179.0),
            Some(180.0), None, None, None,
        ),
        (
            "STP", None, Some(180.0), None, None, OrderType::StopMarket, None, Some(180.0), None,
            None, None,
        ),
        (
            "STP LMT", Some(179.0), Some(180.0), None, None, OrderType::StopLimit, Some(179.0),
            Some(180.0), None, None, None,
        ),
        (
            "TRAIL LIMIT", None, Some(2.5), Some(185.0), Some(0.25), OrderType::TrailingStopLimit,
            None, Some(185.0), Some(decimal(25, 2)), Some(decimal(25, 1)),
            Some(TrailingOffsetType::Price),
        ),
    ];
    for (
        ib_order_type,
        limit_price,
        aux_price,
        trail_stop_price,
        limit_price_offset,
        expected_order_type,
        expected_price,
        expected_trigger_price,
        expected_limit_offset,
        expected_trailing_offset,
        expected_trailing_offset_type,
    ) in cases
    {
        let status = order_status(OrderStatusKind::Submitted, 0.0, 5.0, 0.0);
        let order = Order {
            limit_price: limit_price.map(wire),
            aux_price: aux_price.map(wire),
            trail_stop_price: trail_stop_price.map(wire),
            limit_price_offset: limit_price_offset.map(wire),
            ..order(ib_order_type, 5.0)
        };
        let report = report_on(&status, Some(&order));

        assert_eq!(report.order_type, expected_order_type, "{ib_order_type}");
        assert_eq!(report.price, expected_price.map(|p| price(p, 0)));
        assert_eq!(
            report.trigger_price,
            expected_trigger_price.map(|p| price(p, 0))
        );
        assert_eq!(report.limit_offset, expected_limit_offset);
        assert_eq!(report.trailing_offset, expected_trailing_offset);
        assert_eq!(report.trailing_offset_type, expected_trailing_offset_type);
        assert_eq!(report.time_in_force, TimeInForce::Gtc);
    }
}

#[test]
fn test_parse_order_status_to_report_maps_trailing_percent_to_basis_points() {
    let status = order_status(OrderStatusKind::Submitted, 0.0, 5.0, 0.0);
    let order = Order {
        trail_stop_price: Some(wire(185.0)),
        trailing_percent: Some(wire(2.5)),
        ..order("TRAIL", 5.0)
    };
    let report = report_on(&status, Some(&order));

    assert_eq!(report.order_type, OrderType::TrailingStopMarket);
    assert_eq!(report.trigger_price, Some(price(185.0, 0)));
    // 2.5 percent is 250 basis points: 2500 with one digit after the point.
    assert_eq!(report.trailing_offset, Some(decimal(2500, 1)));
    assert_eq!(
        report.trailing_offset_type,
        Some(TrailingOffsetType::BasisPoints),
    );
    assert_eq!(report.limit_offset, None);
}

#[test]
fn offsets_without_a_decimal_are_refused() {
    let broken = Order {
        aux_price: Some(wire(f64::NAN)),
        ..order("TRAIL", 5.0)
    };
    assert_eq!(
        parse_ib_order_pricing_fields(&broken, OrderType::TrailingStopMarket, 1, 2).unwrap_err(),
        NumberField::AuxPrice
    );
    let broken = Order {
        trailing_percent: Some(wire(1.0e28)),
        ..order("TRAIL", 5.0)
    };
    assert_eq!(
        parse_ib_order_pricing_fields(&broken, OrderType::TrailingStopMarket, 1, 2).unwrap_err(),
        NumberField::TrailingPercent
    );
    let broken = Order {
        limit_price_offset: Some(wire(f64::INFINITY)),
        ..order("TRAIL LIMIT", 5.0)
    };
    assert_eq!(
        parse_ib_order_pricing_fields(&broken, OrderType::TrailingStopLimit, 1, 2).unwrap_err(),
        NumberField::LimitPriceOffset
    );
}

#[test]
fn a_limit_offset_alone_is_a_price_offset() {
    let limited = Order {
        limit_price_offset: Some(wire(0.25)),
        ..order("TRAIL LIMIT", 5.0)
    };
    let decimals = OffsetDecimals {
        aux_price: None,
        basis_points: None,
        limit_price_offset: Some(decimal(25, 2)),
    };
    let fields =
        pricing_fields_of(&limited, OrderType::TrailingStopLimit, 1, 2, decimals).unwrap();
    assert_eq!(fields.trigger_price, None);
    assert_eq!(fields.trailing_offset, None);
    assert_eq!(fields.limit_offset, Some(decimal(25, 2)));
    assert_eq!(fields.trailing_offset_type, Some(TrailingOffsetType::Price));

    let market = pricing_fields_of(&limited, OrderType::TrailingStopMarket, 1, 2, decimals).unwrap();
    assert_eq!(market.limit_offset, None);
    assert_eq!(market.trailing_offset_type, None);
}

#[test]
fn a_date_makes_an_order_good_till_then() {
    let status = order_status(OrderStatusKind::Submitted, 0.0, 5.0, 0.0);
    for (tif, good_till_date, expected) in [
        (OrderLifetime::Day, "", TimeInForce::Day),
        (OrderLifetime::GoodTilCanceled, "", TimeInForce::Gtc),
        (OrderLifetime::ImmediateOrCancel, "", TimeInForce::Ioc),
        (OrderLifetime::GoodTilDate, "", TimeInForce::Gtd),
        (OrderLifetime::OnOpen, "", TimeInForce::AtTheOpen),
        (OrderLifetime::FillOrKill, "", TimeInForce::Fok),
        (OrderLifetime::Day, "20260101", TimeInForce::Gtd),
    ] {
        let order = Order {
            tif,
            good_till_date: good_till_date.to_string(),
            ..order("LMT", 5.0)
        };
        assert_eq!(report_on(&status, Some(&order)).time_in_force, expected);
    }
}

#[test]
fn sells_are_sells() {
    let status = order_status(OrderStatusKind::Submitted, 0.0, 5.0, 0.0);
    for (action, expected) in [
        (Action::Buy, OrderSide::Buy),
        (Action::Sell, OrderSide::Sell),
        (Action::SellShort, OrderSide::Sell),
        (Action::SellLong, OrderSide::Sell),
    ] {
        let order = Order {
            action,
            ..order("LMT", 5.0)
        };
        assert_eq!(report_on(&status, Some(&order)).order_side, expected);
    }
}

fn execution(side: ExecutionSide, reference: &str) -> Execution {
    Execution {
        order_id: 12345,
        execution_id: String::from("EXEC-001"),
        time: String::from("20230223 00:43:36 Universal"),
        side,
        shares: wire(100.0),
        price: wire(150.25),
        perm_id: 0,
        order_reference: reference.to_string(),
    }
}

fn fill(
    execution: &Execution,
    commission: f64,
    currency_known: bool,
    precisions: Option<Precisions>,
) -> Result<FillReport, FillError> {
    let amount = wire(commission);
    let commission = Commission {
        amount: &amount,
        currency: "USD",
        currency_known,
    };
    parse_execution_to_fill_report(
        execution,
        &commission,
        None,
        &context_of("AAPL", false, precisions),
    )
}

const KNOWN: Option<Precisions> = Some(Precisions { size: 0, price: 2 });

#[test]
fn test_parse_execution_to_fill_report_buy() {
    let execution = execution(ExecutionSide::Bought, "ORDER-REF-001");
    assert_eq!(
        fill(&execution, 1.0, true, None),
        Err(FillError::InstrumentNotFound)
    );

    let fill = fill(&execution, 1.0, true, KNOWN).unwrap();
    assert_eq!(fill.order_side, OrderSide::Buy);
    assert_eq!(fill.trade_id, "EXEC-001");
    assert_eq!(fill.venue_order_id, "12345");
    assert_eq!(fill.client_order_id.as_deref(), Some("ORDER-REF-001"));
    assert_eq!(fill.ts_event, 1_677_113_016_000_000_000);
    assert_eq!(fill.liquidity_side, LiquiditySide::NoLiquiditySide);
    assert_eq!(fill.last_px, price(150.25, 2));
    assert_eq!(
        fill.last_qty,
        Quantity::Wire {
            value: wire(100.0),
            precision: 0
        }
    );
    assert_eq!(fill.avg_px, None);
}

#[test]
fn test_parse_execution_to_fill_report_clamps_only_pending_commission_sentinel() {
    let execution = execution(ExecutionSide::Bought, "ORDER-REF-001");
    for (commission, expected) in [(-1.0, None), (-0.25, Some(wire(-0.25))), (0.5, Some(wire(0.5)))]
    {
        let report = fill(&execution, commission, true, KNOWN).unwrap();
        assert_eq!(
            report.commission,
            Money {
                amount: expected,
                currency: "USD".to_string()
            }
        );
    }
}

#[test]
fn test_parse_execution_to_fill_report_sell() {
    let execution = execution(ExecutionSide::Sold, "");
    let fill = fill(&execution, 0.5, true, KNOWN).unwrap();
    assert_eq!(fill.order_side, OrderSide::Sell);
    assert_eq!(fill.client_order_id, None);
}

#[test]
fn fills_at_utc_have_the_instant_of_their_clock() {
    let mut execution = execution(ExecutionSide::Bought, "");
    for time in [
        "20230223 00:43:36",
        "20230223-00:43:36",
        "20230223 00:43:36 UTC",
        "20230223 00:43:36 Z",
        "20230223 00:43:36 ",
    ] {
        execution.time = time.to_string();
        let fill = fill(&execution, 0.5, true, KNOWN).unwrap();
        assert_eq!(fill.ts_event, 1_677_113_016_000_000_000, "{time}");
    }
}

#[test]
fn fills_need_a_currency_and_a_time() {
    let mut execution = execution(ExecutionSide::Sold, "");
    assert_eq!(
        fill(&execution, 0.5, false, KNOWN),
        Err(FillError::UnknownCurrency)
    );
    execution.time = "yesterday".to_string();
    assert_eq!(
        fill(&execution, 0.5, true, KNOWN),
        Err(FillError::Time(ExecutionTimeError::Malformed))
    );
}
