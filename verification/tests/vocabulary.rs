//! What the broker's words and numbers mean.

use ib_adapter::execution::identity::{ib_venue_order_id, normalized_order_ref};
use ib_adapter::execution::vocabulary::{
    map_ib_order_type, map_time_in_force, side_of_action, side_of_execution, IbOrderStatus,
};
use ib_adapter::model::{NautilusOrderStatus, OrderSide, OrderType, TimeInForce};
use ib_adapter::orders::{
    Action, ExecutionFilterSide, ExecutionSide, OrderLifetime, OrderStatusKind,
};
use ib_adapter::params::{number_value, InfoValue, Params};
use ib_adapter::text::{signed_text, trim, unsigned_text};
use ib_adapter::wire::WireNumber;
use ib_adapter::wsh::{AutoFill, WshEventData, WshMetadata};

fn wire(value: f64) -> WireNumber {
    WireNumber {
        bits: value.to_bits(),
        text: format!("{value}"),
        fixed: format!("{value:.10}"),
    }
}

#[test]
fn broker_statuses_are_classified() {
    for (text, status, finished) in [
        ("ApiPending", NautilusOrderStatus::Submitted, false),
        ("PendingSubmit", NautilusOrderStatus::Submitted, false),
        ("PreSubmitted", NautilusOrderStatus::Submitted, false),
        ("Submitted", NautilusOrderStatus::Accepted, false),
        ("PendingCancel", NautilusOrderStatus::PendingCancel, false),
        ("ApiCancelled", NautilusOrderStatus::Canceled, true),
        ("Cancelled", NautilusOrderStatus::Canceled, true),
        ("Filled", NautilusOrderStatus::Filled, true),
        ("Inactive", NautilusOrderStatus::Rejected, true),
    ] {
        let broker = IbOrderStatus::from_str(text).unwrap();
        assert_eq!(broker.nautilus_status(), status, "{text}");
        assert_eq!(broker.is_terminal(), finished, "{text}");
        assert_eq!(status.is_closed(), finished, "{text}");
    }
    for text in ["", "submitted", "SomeFutureIbkrStatus"] {
        assert_eq!(IbOrderStatus::from_str(text), None);
    }
}

#[test]
fn every_status_text_has_one_status() {
    for text in ["Filled", "Inactive", "filled", " Filled", "x"] {
        let kind = OrderStatusKind::from_str(text).unwrap();
        assert_eq!(kind.as_str(), text);
        assert_eq!(OrderStatusKind::from_str(kind.as_str()).unwrap(), kind);
    }
    assert!(matches!(
        OrderStatusKind::from_str("filled"),
        Ok(OrderStatusKind::Unknown(_))
    ));
}

#[test]
fn side_vocabularies_share_no_text() {
    for side in [ExecutionSide::Bought, ExecutionSide::Sold] {
        assert!(ExecutionFilterSide::from_str(side.as_str()).is_err());
    }
    for side in [ExecutionFilterSide::Buy, ExecutionFilterSide::Sell] {
        assert!(ExecutionSide::from_str(side.as_str()).is_err());
    }
}

#[test]
fn sides_are_mapped() {
    assert_eq!(side_of_action(Action::Buy), OrderSide::Buy);
    assert_eq!(side_of_action(Action::SellShort), OrderSide::Sell);
    assert_eq!(side_of_execution(ExecutionSide::Bought), OrderSide::Buy);
    assert_eq!(side_of_execution(ExecutionSide::Sold), OrderSide::Sell);
}

#[test]
fn order_types_are_mapped() {
    for (text, expected) in [
        ("MKT", OrderType::Market),
        ("LMT", OrderType::Limit),
        ("MIT", OrderType::MarketIfTouched),
        ("LIT", OrderType::LimitIfTouched),
        ("STP", OrderType::StopMarket),
        ("STP LMT", OrderType::StopLimit),
        ("TRAIL", OrderType::TrailingStopMarket),
        ("TRAIL LIMIT", OrderType::TrailingStopLimit),
        ("MTL", OrderType::MarketToLimit),
        ("MOC", OrderType::Market),
        ("LOC", OrderType::Limit),
        ("REL", OrderType::Market),
        ("", OrderType::Market),
    ] {
        assert_eq!(map_ib_order_type(text, &None), expected, "{text}");
    }
    assert_eq!(
        map_ib_order_type("IBALGO", &Some(wire(185.0))),
        OrderType::Limit
    );
    assert_eq!(
        map_ib_order_type("IBALGO", &Some(wire(f64::NAN))),
        OrderType::Limit
    );
    assert_eq!(map_ib_order_type("IBALGO", &None), OrderType::Market);
}

#[test]
fn lifetimes_are_mapped() {
    assert_eq!(
        map_time_in_force(OrderLifetime::FillOrKill, ""),
        TimeInForce::Fok
    );
    assert_eq!(
        map_time_in_force(OrderLifetime::FillOrKill, "20260101"),
        TimeInForce::Gtd
    );
}

#[test]
fn venue_identities_tell_orders_apart() {
    assert_ne!(ib_venue_order_id(1, 456), ib_venue_order_id(1, 457));
    assert_eq!(ib_venue_order_id(1, 456), ib_venue_order_id(2, 456));
    assert_ne!(ib_venue_order_id(456, 0), ib_venue_order_id(456, 456));
    assert_ne!(ib_venue_order_id(1, 0), ib_venue_order_id(-1, 0));
}

#[test]
fn suffixes_do_not_change_the_client_identity() {
    for suffix in ["", "1", "leg-1", "\u{e9}"] {
        assert_eq!(
            normalized_order_ref(&format!("O-1:2:{suffix}")),
            Some("O-1:2")
        );
    }
}

#[test]
fn wire_numbers_are_classified_as_floats_are() {
    let values = [
        0.0,
        -0.0,
        1.0,
        -1.0,
        0.25,
        f64::MIN_POSITIVE,
        5e-324,
        -5e-324,
        f64::MAX,
        f64::MIN,
        f64::INFINITY,
        f64::NEG_INFINITY,
        f64::NAN,
        -f64::NAN,
    ];
    for x in values {
        let number = wire(x);
        assert_eq!(number.is_finite(), x.is_finite(), "{x}");
        assert_eq!(number.is_nan(), x.is_nan(), "{x}");
        assert_eq!(number.is_zero(), x == 0.0, "{x}");
        assert_eq!(number.is_positive(), x > 0.0, "{x}");
        assert_eq!(number.is_negative(), x < 0.0, "{x}");
        for y in values {
            assert_eq!(number.is_below(&wire(y)), x < y, "{x} {y}");
            let least = f64::from_bits(number.min(&wire(y)).bits);
            let expected = f64::min(x, y);
            assert!(
                least == expected || (least.is_nan() && expected.is_nan()),
                "{x} {y}"
            );
        }
    }
}

#[test]
fn integers_are_written_in_decimal() {
    for n in [0, 9, 10, 123, u128::MAX] {
        assert_eq!(unsigned_text(n), n.to_string());
    }
    for i in [0, -1, 10, i64::MIN, i64::MAX] {
        assert_eq!(signed_text(i), i.to_string());
    }
}

#[test]
fn white_space_is_trimmed() {
    for text in ["", " ", "a", " \ta b\n", "\u{3000}\u{e9}\u{85}", "\u{200b}x"] {
        assert_eq!(trim(text), text.trim());
    }
}

#[test]
fn names_hold_their_last_value() {
    let mut params = Params::new();
    assert_eq!(params.get("a"), None);
    params.insert("a", InfoValue::Integer(1));
    params.insert("b", InfoValue::Null);
    params.insert("a", InfoValue::Text("x".to_string()));
    assert_eq!(params.get("a"), Some(&InfoValue::Text("x".to_string())));
    assert_eq!(params.get("b"), Some(&InfoValue::Null));
    assert_eq!(params.get("c"), None);
    let names: Vec<&str> = params.entries().iter().map(|e| e.0.as_str()).collect();
    assert_eq!(names, vec!["a", "b"]);
    assert_eq!(number_value(&wire(1.5)), InfoValue::Number(wire(1.5)));
    assert_eq!(number_value(&wire(f64::NAN)), InfoValue::Null);
}

#[test]
fn related_securities_are_asked_for_one_by_one() {
    let none = AutoFill::default();
    assert!(!none.is_specified());
    for fill in [
        AutoFill {
            competitors: true,
            ..none
        },
        AutoFill {
            portfolio: true,
            ..none
        },
        AutoFill {
            watchlist: true,
            ..none
        },
    ] {
        assert!(fill.is_specified());
        assert_ne!(fill, none);
    }
}

#[test]
fn calendar_data_is_kept_as_it_came() {
    let metadata = WshMetadata {
        data_json: "{}".to_string(),
    };
    let events = WshEventData {
        data_json: "[1]".to_string(),
    };
    assert_eq!(metadata.clone(), metadata);
    assert_eq!(events.clone().data_json, "[1]");
}
