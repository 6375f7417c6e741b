//! Completed orders, and snapshots of open and completed orders.

use ib_adapter::execution::completed::{
    parse_completed_order_to_report, CompletedOrderError, RefusalReason,
};
use ib_adapter::execution::identity::broker_perm_id;
use ib_adapter::execution::merge::{
    merge_order_status_reports, supersedes, OrderReportObservation,
};
use ib_adapter::execution::status::{parse_order_status_to_report, ReportContext};
use ib_adapter::model::{InstrumentId, NautilusOrderStatus, Quantity};
use ib_adapter::orders::{
    Action, Order, OrderData, OrderLifetime, OrderState, OrderStatus, OrderStatusKind,
};
use ib_adapter::reports::{InstrumentFacts, NumberField, OrderStatusReport};
use ib_adapter::wire::WireNumber;

const PERM_ID: i64 = 1377295418;
const OTHER_PERM_ID: i64 = 1377295419;
const CLIENT_ORDER_REF: &str = "O-C2-10P1-001";
const OTHER_CLIENT_ORDER_REF: &str = "O-C2-10P1-002";
const BROKER_ACCOUNT: &str = "DU1234567";
const FOREIGN_BROKER_ACCOUNT: &str = "DU7654321";
const TS_INIT: u64 = 1_756_000_000_000_000_000;

fn wire(value: f64) -> WireNumber {
    WireNumber {
        bits: value.to_bits(),
        text: format!("{value}"),
        fixed: format!("{value:.10}"),
    }
}

fn instrument_id() -> InstrumentId {
    InstrumentId {
        symbol: "AAPL".to_string(),
        venue: "NASDAQ".to_string(),
    }
}

fn context() -> ReportContext {
    ReportContext {
        instrument_id: instrument_id(),
        account_id: "IB-DU1234567".to_string(),
        instrument: InstrumentFacts {
            price_magnifier: 1,
            precisions: None,
            is_spread: false,
        },
        ts_init: TS_INIT,
        report_id: 1,
    }
}

fn quantity(value: f64) -> Quantity {
    Quantity::Wire {
        value: wire(value),
        precision: 0,
    }
}

fn order_with(perm_id: i64, filled_qty: f64, order_ref: &str, account: &str) -> Order {
    Order {
        order_id: 7,
        client_id: 1,
        perm_id,
        parent_id: 0,
        action: Action::Buy,
        total_quantity: wire(100.0),
        filled_quantity: wire(filled_qty),
        order_type: "LMT".to_string(),
        limit_price: Some(wire(25.0)),
        aux_price: None,
        trail_stop_price: None,
        trailing_percent: None,
        limit_price_offset: None,
        tif: OrderLifetime::Day,
        good_till_date: String::new(),
        account: account.to_string(),
        order_ref: order_ref.to_string(),
    }
}

fn completed_order_data(status: OrderStatusKind, filled_qty: f64, perm_id: i64) -> OrderData {
    completed_order_data_with(status, filled_qty, perm_id, CLIENT_ORDER_REF, BROKER_ACCOUNT)
}

fn completed_order_data_with(
    status: OrderStatusKind,
    filled_qty: f64,
    perm_id: i64,
    order_ref: &str,
    account: &str,
) -> OrderData {
    OrderData {
        order_id: -1,
        order: order_with(perm_id, filled_qty, order_ref, account),
        order_state: OrderState {
            status,
            completed_status: "Cancelled by Trader".to_string(),
            completed_time: "20260910 15:30:00 America/New_York".to_string(),
        },
    }
}

fn convert(data: &OrderData) -> Result<OrderStatusReport, CompletedOrderError> {
    parse_completed_order_to_report(data, BROKER_ACCOUNT, &context())
}

fn refusal(data: &OrderData) -> RefusalReason {
    convert(data).unwrap_err().reason
}

fn observation(report: OrderStatusReport, perm_id: i64) -> OrderReportObservation {
    OrderReportObservation {
        report,
        broker_perm_id: broker_perm_id(perm_id),
    }
}

fn open_order_report_with(
    status: OrderStatusKind,
    order_id: i32,
    perm_id: i64,
    filled: f64,
    remaining: f64,
    order_ref: &str,
) -> OrderStatusReport {
    parse_order_status_to_report(
        &OrderStatus {
            order_id,
            status,
            filled: wire(filled),
            remaining: wire(remaining),
            average_fill_price: None,
            perm_id,
        },
        Some(&order_with(perm_id, filled, order_ref, BROKER_ACCOUNT)),
        &None,
        &context(),
    )
    .unwrap()
}

fn open_order_report(
    status: OrderStatusKind,
    perm_id: i64,
    filled: f64,
    remaining: f64,
) -> OrderStatusReport {
    open_order_report_with(status, 7, perm_id, filled, remaining, CLIENT_ORDER_REF)
}

fn venue_order_id(perm_id: i64) -> String {
    format!("PERM-{perm_id}")
}

#[test]
fn test_completed_cancelled_record_becomes_order_status_report() {
    let report = convert(&completed_order_data(OrderStatusKind::Cancelled, 0.0, PERM_ID)).unwrap();

    assert_eq!(report.order_status, NautilusOrderStatus::Canceled);
    assert_eq!(report.quantity, quantity(100.0));
    assert_eq!(report.filled_qty, quantity(0.0));
}

#[test]
fn test_completed_api_cancelled_record_maps_to_canceled() {
    let report =
        convert(&completed_order_data(OrderStatusKind::ApiCancelled, 0.0, PERM_ID)).unwrap();

    assert_eq!(report.order_status, NautilusOrderStatus::Canceled);
}

#[test]
fn test_completed_filled_record_maps_to_filled() {
    let report = convert(&completed_order_data(OrderStatusKind::Filled, 100.0, PERM_ID)).unwrap();

    assert_eq!(report.order_status, NautilusOrderStatus::Filled);
    assert_eq!(report.filled_qty, quantity(100.0));
}

#[test]
fn test_completed_inactive_record_maps_to_rejected() {
    let report = convert(&completed_order_data(OrderStatusKind::Inactive, 0.0, PERM_ID)).unwrap();

    assert_eq!(report.order_status, NautilusOrderStatus::Rejected);
}

#[test]
fn test_completed_non_terminal_status_fails_closed() {
    for status in [
        OrderStatusKind::Submitted,
        OrderStatusKind::PreSubmitted,
        OrderStatusKind::PendingCancel,
        OrderStatusKind::PendingSubmit,
        OrderStatusKind::ApiPending,
    ] {
        let data = completed_order_data(status, 0.0, PERM_ID);
        assert!(convert(&data).is_err());
        assert_eq!(refusal(&data), RefusalReason::NonTerminalStatus);
    }
}

#[test]
fn test_completed_unknown_raw_status_fails_closed() {
    let data = completed_order_data(
        OrderStatusKind::Unknown("SomeFutureIbkrStatus".into()),
        0.0,
        PERM_ID,
    );

    let error = convert(&data).unwrap_err();

    assert!(error.message().contains("SomeFutureIbkrStatus"));
    assert_eq!(error.reason, RefusalReason::UnmappableStatus);
}

#[test]
fn test_cancelled_partial_fill_remains_terminal() {
    let report = convert(&completed_order_data(OrderStatusKind::Cancelled, 40.0, PERM_ID)).unwrap();

    assert_eq!(report.order_status, NautilusOrderStatus::Canceled);
    assert_eq!(report.filled_qty, quantity(40.0));
}

#[test]
fn test_completed_order_venue_order_id_originates_from_broker_perm_id() {
    let report =
        convert(&completed_order_data(OrderStatusKind::Cancelled, 0.0, OTHER_PERM_ID)).unwrap();

    assert_eq!(report.venue_order_id, venue_order_id(OTHER_PERM_ID));
}

#[test]
fn test_positive_perm_id_maps_to_perm_venue_order_id() {
    for perm_id in [1, PERM_ID, i64::MAX] {
        let report =
            convert(&completed_order_data(OrderStatusKind::Cancelled, 0.0, perm_id)).unwrap();

        assert_eq!(report.venue_order_id, format!("PERM-{perm_id}"));
    }
}

#[test]
fn test_completed_order_without_perm_id_fails_closed() {
    let data = completed_order_data(OrderStatusKind::Cancelled, 0.0, 0);

    assert!(convert(&data).is_err());
}

#[test]
fn test_completed_non_positive_perm_id_fails_closed() {
    for perm_id in [0, -1, -2, i64::MIN] {
        let data = completed_order_data(OrderStatusKind::Cancelled, 0.0, perm_id);

        let error = convert(&data).unwrap_err();

        assert!(
            error
                .message()
                .contains("is not a positive broker venue identity"),
            "the fail-closed error must name the invalid broker venue identity: {error:?}"
        );
        assert!(error.message().contains(&perm_id.to_string()));
    }
}

#[test]
fn test_completed_order_preserves_client_order_id() {
    let report = convert(&completed_order_data(OrderStatusKind::Cancelled, 0.0, PERM_ID)).unwrap();

    assert_eq!(report.client_order_id.as_deref(), Some(CLIENT_ORDER_REF));
}

#[test]
fn test_completed_order_client_order_id_ignores_strategy_suffix() {
    let data = completed_order_data_with(
        OrderStatusKind::Cancelled,
        0.0,
        PERM_ID,
        "O-C2-10P1-001:leg-1",
        BROKER_ACCOUNT,
    );

    let report = convert(&data).unwrap();

    assert_eq!(report.client_order_id.as_deref(), Some(CLIENT_ORDER_REF));
}

#[test]
fn test_completed_order_with_empty_order_ref_fails_closed() {
    let data =
        completed_order_data_with(OrderStatusKind::Cancelled, 0.0, PERM_ID, "", BROKER_ACCOUNT);

    assert!(convert(&data).is_err());
    assert_eq!(refusal(&data), RefusalReason::NoClientOrderRef);
}

#[test]
fn test_completed_order_with_unusable_order_ref_fails_closed() {
    let data =
        completed_order_data_with(OrderStatusKind::Cancelled, 0.0, PERM_ID, ":", BROKER_ACCOUNT);

    assert!(convert(&data).is_err());
    assert_eq!(refusal(&data), RefusalReason::NoClientOrderRef);
}

#[test]
fn test_completed_order_with_matching_broker_account_is_accepted() {
    let report = convert(&completed_order_data(OrderStatusKind::Cancelled, 0.0, PERM_ID)).unwrap();

    assert_eq!(report.account_id, "IB-DU1234567");
    assert_eq!(report.instrument_id, instrument_id());
}

#[test]
fn test_completed_order_with_empty_broker_account_fails_closed() {
    let data =
        completed_order_data_with(OrderStatusKind::Cancelled, 0.0, PERM_ID, CLIENT_ORDER_REF, "");

    assert!(convert(&data).is_err());
    assert_eq!(refusal(&data), RefusalReason::NoBrokerAccount);
}

#[test]
fn test_completed_order_with_foreign_broker_account_fails_closed() {
    let data = completed_order_data_with(
        OrderStatusKind::Cancelled,
        0.0,
        PERM_ID,
        CLIENT_ORDER_REF,
        FOREIGN_BROKER_ACCOUNT,
    );

    assert!(convert(&data).is_err());
    assert_eq!(refusal(&data), RefusalReason::ForeignBrokerAccount);
}

#[test]
fn test_completed_order_preserves_raw_order_status() {
    let report = convert(&completed_order_data(OrderStatusKind::Cancelled, 0.0, PERM_ID)).unwrap();

    assert_eq!(report.raw_order_status.as_deref(), Some("Cancelled"));
}

#[test]
fn completed_records_with_unreadable_numbers_are_refused() {
    let mut data = completed_order_data(OrderStatusKind::Cancelled, 0.0, PERM_ID);
    data.order.order_type = "TRAIL".to_string();
    data.order.aux_price = Some(wire(f64::NAN));
    assert_eq!(refusal(&data), RefusalReason::Number(NumberField::AuxPrice));
    assert_eq!(
        convert(&data).unwrap_err().message(),
        "Failed to convert IB floating-point value NaN to Decimal"
    );

    data.order.aux_price = None;
    data.order.trailing_percent = Some(wire(1.0e28));
    assert_eq!(
        refusal(&data),
        RefusalReason::Number(NumberField::TrailingPercent)
    );

    data.order.order_type = "TRAIL LIMIT".to_string();
    data.order.trailing_percent = None;
    data.order.limit_price_offset = Some(wire(f64::NEG_INFINITY));
    assert_eq!(
        convert(&data).unwrap_err().message(),
        "Failed to convert IB floating-point value -inf to Decimal"
    );
}

#[test]
fn refusals_read_as_sentences() {
    let message = |data: &OrderData| convert(data).unwrap_err().message();
    assert_eq!(
        message(&completed_order_data(OrderStatusKind::Cancelled, 0.0, -1)),
        "IBKR completed order perm_id -1 is not a positive broker venue identity; refusing to \
         fabricate a venue order id"
    );
    assert_eq!(
        message(&completed_order_data(OrderStatusKind::Submitted, 0.0, 5)),
        "IBKR completed order perm_id 5 reports the non-terminal status 'Submitted'; the \
         completed-order source accepts terminal evidence only"
    );
    assert_eq!(
        message(&completed_order_data(OrderStatusKind::Unknown("Odd".into()), 0.0, 5)),
        "IBKR completed order perm_id 5 has an unmappable raw status 'Odd'"
    );
}

#[test]
fn test_empty_completed_response_preserves_open_order_reports() {
    let open = open_order_report(OrderStatusKind::Submitted, PERM_ID, 0.0, 100.0);

    let merged = merge_order_status_reports(vec![observation(open.clone(), PERM_ID)], Vec::new());

    assert_eq!(merged, vec![open]);
}

#[test]
fn test_overlap_with_shared_perm_id_yields_one_completed_observation() {
    let open = open_order_report(OrderStatusKind::Submitted, PERM_ID, 0.0, 100.0);
    let completed =
        convert(&completed_order_data(OrderStatusKind::Cancelled, 0.0, PERM_ID)).unwrap();

    let merged = merge_order_status_reports(
        vec![observation(open, PERM_ID)],
        vec![observation(completed, PERM_ID)],
    );

    assert_eq!(merged.len(), 1);
    assert_eq!(merged[0].order_status, NautilusOrderStatus::Canceled);
    assert_eq!(merged[0].venue_order_id, venue_order_id(PERM_ID));
    assert_eq!(merged[0].client_order_id.as_deref(), Some(CLIENT_ORDER_REF));
}

#[test]
fn test_overlap_precedence_and_ordering_are_deterministic() {
    let open = open_order_report(OrderStatusKind::Submitted, PERM_ID, 0.0, 100.0);
    let completed =
        convert(&completed_order_data(OrderStatusKind::Cancelled, 0.0, PERM_ID)).unwrap();

    let first = merge_order_status_reports(
        vec![observation(open.clone(), PERM_ID)],
        vec![observation(completed.clone(), PERM_ID)],
    );
    let second = merge_order_status_reports(
        vec![observation(open, PERM_ID)],
        vec![observation(completed, PERM_ID)],
    );

    assert_eq!(first, second);
}

#[test]
fn test_venue_identity_transition_yields_one_completed_observation() {
    let open = open_order_report(OrderStatusKind::Submitted, 0, 0.0, 100.0);
    assert_eq!(open.venue_order_id, "7");

    let completed =
        convert(&completed_order_data(OrderStatusKind::Cancelled, 0.0, PERM_ID)).unwrap();

    let merged = merge_order_status_reports(
        vec![observation(open, 0)],
        vec![observation(completed, PERM_ID)],
    );

    assert_eq!(merged.len(), 1);
    assert_eq!(merged[0].order_status, NautilusOrderStatus::Canceled);
    assert_eq!(merged[0].venue_order_id, venue_order_id(PERM_ID));
    assert_eq!(merged[0].client_order_id.as_deref(), Some(CLIENT_ORDER_REF));
}

#[test]
fn test_non_positive_perm_id_is_not_authoritative_broker_venue_identity() {
    let open = open_order_report(OrderStatusKind::Submitted, -1, 0.0, 100.0);
    assert_eq!(observation(open.clone(), -1).broker_perm_id, None);
    assert_eq!(observation(open.clone(), 0).broker_perm_id, None);

    let completed =
        convert(&completed_order_data(OrderStatusKind::Cancelled, 0.0, PERM_ID)).unwrap();

    let merged = merge_order_status_reports(
        vec![observation(open, -1)],
        vec![observation(completed, PERM_ID)],
    );

    assert_eq!(merged.len(), 1);
    assert_eq!(merged[0].order_status, NautilusOrderStatus::Canceled);
    assert_eq!(merged[0].venue_order_id, venue_order_id(PERM_ID));
}

#[test]
fn test_terminal_open_fallback_observation_is_upgraded_to_broker_venue_identity() {
    let open = open_order_report(OrderStatusKind::Filled, 0, 100.0, 0.0);
    assert_eq!(open.order_status, NautilusOrderStatus::Filled);
    assert_eq!(open.venue_order_id, "7");

    let completed =
        convert(&completed_order_data(OrderStatusKind::Cancelled, 0.0, PERM_ID)).unwrap();

    let merged = merge_order_status_reports(
        vec![observation(open, 0)],
        vec![observation(completed, PERM_ID)],
    );

    assert_eq!(merged.len(), 1);
    assert_eq!(merged[0].order_status, NautilusOrderStatus::Canceled);
    assert_eq!(merged[0].venue_order_id, venue_order_id(PERM_ID));
}

#[test]
fn test_venue_identity_transition_does_not_collapse_unrelated_orders() {
    let open = open_order_report(OrderStatusKind::Submitted, 0, 0.0, 100.0);
    let completed = convert(&completed_order_data_with(
        OrderStatusKind::Cancelled,
        0.0,
        PERM_ID,
        OTHER_CLIENT_ORDER_REF,
        BROKER_ACCOUNT,
    ))
    .unwrap();

    let merged = merge_order_status_reports(
        vec![observation(open, 0)],
        vec![observation(completed, PERM_ID)],
    );

    assert_eq!(merged.len(), 2);
    assert_eq!(merged[0].client_order_id.as_deref(), Some(CLIENT_ORDER_REF));
    assert_eq!(
        merged[1].client_order_id.as_deref(),
        Some(OTHER_CLIENT_ORDER_REF)
    );
}

#[test]
fn test_broker_identified_orders_are_not_collapsed_on_shared_client_identity() {
    let first = convert(&completed_order_data(OrderStatusKind::Cancelled, 0.0, PERM_ID)).unwrap();
    let second =
        convert(&completed_order_data(OrderStatusKind::Filled, 100.0, OTHER_PERM_ID)).unwrap();

    let merged = merge_order_status_reports(
        Vec::new(),
        vec![
            observation(first, PERM_ID),
            observation(second, OTHER_PERM_ID),
        ],
    );

    assert_eq!(merged.len(), 2);
    assert_eq!(merged[0].venue_order_id, venue_order_id(PERM_ID));
    assert_eq!(merged[1].venue_order_id, venue_order_id(OTHER_PERM_ID));
}

#[test]
fn test_distinct_broker_orders_with_similar_attributes_remain_distinct() {
    let first = convert(&completed_order_data_with(
        OrderStatusKind::Cancelled,
        0.0,
        PERM_ID,
        CLIENT_ORDER_REF,
        BROKER_ACCOUNT,
    ))
    .unwrap();
    let second = convert(&completed_order_data_with(
        OrderStatusKind::Cancelled,
        0.0,
        OTHER_PERM_ID,
        OTHER_CLIENT_ORDER_REF,
        BROKER_ACCOUNT,
    ))
    .unwrap();

    assert_eq!(first.instrument_id, second.instrument_id);
    assert_eq!(first.quantity, second.quantity);

    let merged = merge_order_status_reports(
        Vec::new(),
        vec![
            observation(first, PERM_ID),
            observation(second, OTHER_PERM_ID),
        ],
    );

    assert_eq!(merged.len(), 2);
    assert_ne!(merged[0].venue_order_id, merged[1].venue_order_id);
}

#[test]
fn test_completed_only_observation_appends_after_open_observations() {
    let open = open_order_report(OrderStatusKind::Submitted, OTHER_PERM_ID, 0.0, 100.0);
    let completed =
        convert(&completed_order_data(OrderStatusKind::Cancelled, 0.0, PERM_ID)).unwrap();

    let merged = merge_order_status_reports(
        vec![observation(open.clone(), OTHER_PERM_ID)],
        vec![observation(completed.clone(), PERM_ID)],
    );

    assert_eq!(merged.len(), 2);
    assert_eq!(merged[0], open);
    assert_eq!(merged[1], completed);
}

#[test]
fn c2_10_p1_completed_order_report_contract() {
    let report = convert(&completed_order_data(OrderStatusKind::Cancelled, 0.0, PERM_ID)).unwrap();
    assert_eq!(report.order_status, NautilusOrderStatus::Canceled);
    assert_eq!(report.raw_order_status.as_deref(), Some("Cancelled"));
    assert_eq!(report.client_order_id.as_deref(), Some(CLIENT_ORDER_REF));
    assert_eq!(report.venue_order_id, venue_order_id(PERM_ID));
    assert_eq!(report.account_id, "IB-DU1234567");
    assert_eq!(report.instrument_id, instrument_id());
    assert_eq!(report.quantity, quantity(100.0));
    assert_eq!(report.filled_qty, quantity(0.0));

    for accepted in [
        OrderStatusKind::Cancelled,
        OrderStatusKind::ApiCancelled,
        OrderStatusKind::Filled,
        OrderStatusKind::Inactive,
    ] {
        assert!(convert(&completed_order_data(accepted, 0.0, PERM_ID)).is_ok());
    }

    let shared_open = open_order_report(OrderStatusKind::Submitted, PERM_ID, 0.0, 100.0);
    assert!(!shared_open.order_status.is_closed());
    let merged = merge_order_status_reports(
        vec![observation(shared_open.clone(), PERM_ID)],
        vec![observation(report.clone(), PERM_ID)],
    );
    assert_eq!(merged.len(), 1);
    assert_eq!(merged[0].order_status, NautilusOrderStatus::Canceled);

    let open_only =
        merge_order_status_reports(vec![observation(shared_open.clone(), PERM_ID)], Vec::new());
    assert_eq!(open_only, vec![shared_open]);
}

#[test]
fn orders_are_not_collapsed_on_the_identifier_of_a_live_order() {
    // Two sessions can each have a live order number 7.
    let first = open_order_report_with(
        OrderStatusKind::Submitted, 7, 0, 0.0, 100.0, CLIENT_ORDER_REF,
    );
    let second = open_order_report_with(
        OrderStatusKind::Filled, 7, 0, 100.0, 0.0, OTHER_CLIENT_ORDER_REF,
    );
    assert_eq!(first.venue_order_id, second.venue_order_id);

    let merged = merge_order_status_reports(
        vec![observation(first.clone(), 0), observation(second.clone(), 0)],
        Vec::new(),
    );

    assert_eq!(merged, vec![first, second]);
}

#[test]
fn a_terminal_fallback_never_displaces_broker_identity() {
    let identified = observation(
        open_order_report(OrderStatusKind::Submitted, PERM_ID, 0.0, 100.0),
        PERM_ID,
    );
    let fallback = observation(
        open_order_report(OrderStatusKind::Filled, 0, 100.0, 0.0),
        0,
    );
    assert!(!supersedes(&fallback, &identified));
    assert!(supersedes(&identified, &fallback));

    let merged = merge_order_status_reports(vec![identified.clone()], vec![fallback]);

    assert_eq!(merged, vec![identified.report]);
}

#[test]
fn precedence_between_observations() {
    let working = |perm_id| {
        observation(
            open_order_report(OrderStatusKind::Submitted, perm_id, 0.0, 100.0),
            perm_id,
        )
    };
    let terminal = |perm_id| {
        observation(
            open_order_report(OrderStatusKind::Cancelled, perm_id, 0.0, 100.0),
            perm_id,
        )
    };
    assert!(supersedes(&terminal(PERM_ID), &working(PERM_ID)));
    assert!(supersedes(&terminal(PERM_ID), &terminal(PERM_ID)));
    assert!(supersedes(&terminal(0), &working(0)));
    assert!(!supersedes(&terminal(0), &terminal(0)));
    assert!(!supersedes(&working(PERM_ID), &working(PERM_ID)));
    assert!(!supersedes(&working(PERM_ID), &terminal(PERM_ID)));
}

#[test]
fn snapshots_hold_one_report_for_each_order() {
    let weak = |order_id| {
        observation(
            open_order_report_with(
                OrderStatusKind::Submitted,
                order_id,
                0,
                0.0,
                100.0,
                CLIENT_ORDER_REF,
            ),
            0,
        )
    };
    let strong = |perm_id| {
        observation(
            convert(&completed_order_data(
                OrderStatusKind::Cancelled,
                0.0,
                perm_id,
            ))
            .unwrap(),
            perm_id,
        )
    };
    assert_eq!(
        merge_order_status_reports(vec![weak(1)], vec![strong(PERM_ID), strong(PERM_ID), weak(2)]),
        vec![strong(PERM_ID).report]
    );
    assert_eq!(
        merge_order_status_reports(
            vec![weak(1)],
            vec![strong(PERM_ID), strong(OTHER_PERM_ID), weak(2)]
        ),
        vec![strong(PERM_ID).report, strong(OTHER_PERM_ID).report]
    );
    // The completed order has the client identity of both live ones, which tell no more of it.
    assert_eq!(
        merge_order_status_reports(vec![weak(1), weak(2)], vec![strong(PERM_ID)]),
        vec![strong(PERM_ID).report]
    );
    assert_eq!(
        merge_order_status_reports(vec![weak(1), weak(1)], vec![strong(PERM_ID)]),
        vec![strong(PERM_ID).report]
    );
    assert_eq!(
        merge_order_status_reports(vec![weak(1), weak(2)], vec![]),
        vec![weak(1).report, weak(2).report]
    );
}

#[test]
fn orders_that_stay_keep_their_order_where_others_leave() {
    let live = |order_id, perm_id, client| {
        observation(
            open_order_report_with(
                OrderStatusKind::Submitted,
                order_id,
                perm_id,
                0.0,
                100.0,
                client,
            ),
            perm_id,
        )
    };
    let completed = |perm_id| {
        observation(
            convert(&completed_order_data(
                OrderStatusKind::Cancelled,
                0.0,
                perm_id,
            ))
            .unwrap(),
            perm_id,
        )
    };
    let first = live(1, 0, "FIRST");
    let between = live(3, 0, "BETWEEN");
    let last = live(5, 0, "LAST");
    assert_eq!(
        merge_order_status_reports(
            vec![
                first.clone(),
                live(2, 0, CLIENT_ORDER_REF),
                between.clone(),
                live(4, 0, CLIENT_ORDER_REF),
                last.clone(),
            ],
            vec![completed(PERM_ID), completed(OTHER_PERM_ID)],
        ),
        vec![
            first.report.clone(),
            completed(PERM_ID).report,
            between.report.clone(),
            last.report.clone(),
            completed(OTHER_PERM_ID).report,
        ]
    );

    // An order with broker identity is found by it and brings a client identity that two live
    // ones have. Later observations find the others where they now stand.
    assert_eq!(
        merge_order_status_reports(
            vec![
                live(2, 0, CLIENT_ORDER_REF),
                first.clone(),
                live(3, PERM_ID, "OTHER"),
                live(4, 0, CLIENT_ORDER_REF),
                last.clone(),
            ],
            vec![
                completed(PERM_ID),
                live(1, OTHER_PERM_ID, "FIRST"),
                live(6, 0, "LAST"),
                live(7, 0, CLIENT_ORDER_REF),
            ],
        ),
        vec![
            live(1, OTHER_PERM_ID, "FIRST").report,
            completed(PERM_ID).report,
            last.report,
            live(6, 0, "LAST").report,
        ]
    );
}

#[test]
fn replacements_keep_their_place() {
    let first = open_order_report_with(
        OrderStatusKind::Submitted, 1, PERM_ID, 0.0, 100.0, CLIENT_ORDER_REF,
    );
    let second = open_order_report_with(
        OrderStatusKind::Submitted, 2, OTHER_PERM_ID, 0.0, 100.0, OTHER_CLIENT_ORDER_REF,
    );
    let completed =
        convert(&completed_order_data(OrderStatusKind::Filled, 100.0, PERM_ID)).unwrap();

    let merged = merge_order_status_reports(
        vec![
            observation(first, PERM_ID),
            observation(second.clone(), OTHER_PERM_ID),
        ],
        vec![observation(completed.clone(), PERM_ID)],
    );

    assert_eq!(merged, vec![completed, second]);
}
