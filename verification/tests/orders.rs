//! The broker's order vocabulary.

use ib_adapter::orders::{Error, ExecutionFilterSide, ExecutionSide, OrderStatusKind};

fn all_kinds() -> Vec<(OrderStatusKind, &'static str)> {
    vec![
        (OrderStatusKind::ApiPending, "ApiPending"),
        (OrderStatusKind::PendingSubmit, "PendingSubmit"),
        (OrderStatusKind::PendingCancel, "PendingCancel"),
        (OrderStatusKind::PreSubmitted, "PreSubmitted"),
        (OrderStatusKind::Submitted, "Submitted"),
        (OrderStatusKind::ApiCancelled, "ApiCancelled"),
        (OrderStatusKind::Cancelled, "Cancelled"),
        (OrderStatusKind::Filled, "Filled"),
        (OrderStatusKind::Inactive, "Inactive"),
    ]
}

#[test]
fn order_status_kind_round_trip() {
    for (kind, wire) in all_kinds() {
        assert_eq!(kind.to_string(), wire, "Display for {kind:?}");
        assert_eq!(
            OrderStatusKind::from_str(wire).unwrap(),
            kind,
            "FromStr({wire})"
        );
        assert_eq!(kind.to_field(), wire, "ToField for {kind:?}");
        assert_eq!(kind.as_str(), wire, "as_str for {kind:?}");
    }
}

#[test]
fn order_status_kind_from_str_preserves_unknown_identity() {
    let kind: OrderStatusKind = "SomeFutureIbkrStatus".parse().unwrap();
    assert_eq!(
        kind,
        OrderStatusKind::Unknown("SomeFutureIbkrStatus".into())
    );
    assert_eq!(kind.as_str(), "SomeFutureIbkrStatus");
    assert_eq!(kind.to_string(), "SomeFutureIbkrStatus");
    assert_eq!(kind.to_field(), "SomeFutureIbkrStatus");
}

#[test]
fn order_status_kind_from_str_still_rejects_empty() {
    assert!(matches!(
        OrderStatusKind::from_str(""),
        Err(Error::Parse(_, _, _))
    ));
}

#[test]
fn order_status_kind_unknown_is_neither_active_nor_terminal() {
    let kind = OrderStatusKind::Unknown("SomeFutureIbkrStatus".into());
    assert!(!kind.is_active());
    assert!(!kind.is_terminal());
}

#[test]
fn execution_filter_side_round_trip() {
    for (side, wire) in [
        (ExecutionFilterSide::Buy, "BUY"),
        (ExecutionFilterSide::Sell, "SELL"),
    ] {
        assert_eq!(side.to_string(), wire);
        assert_eq!(ExecutionFilterSide::from_str(wire).unwrap(), side);
        assert_eq!(side.to_field(), wire);
        assert_eq!(side.as_str(), wire);
    }
}

#[test]
fn execution_filter_side_from_str_rejects_unknown() {
    for text in ["", "INVALID", "buy", "sell", "SSHORT", "SLONG", "BOT", "SLD"] {
        assert_eq!(
            ExecutionFilterSide::from_str(text),
            Err(Error::Parse(
                0,
                text.to_string(),
                "ExecutionFilterSide".to_string()
            ))
        );
    }
}

#[test]
fn execution_side_round_trip() {
    for (side, wire) in [(ExecutionSide::Bought, "BOT"), (ExecutionSide::Sold, "SLD")] {
        assert_eq!(side.to_string(), wire);
        assert_eq!(ExecutionSide::from_str(wire).unwrap(), side);
        assert_eq!(side.to_field(), wire);
        assert_eq!(side.as_str(), wire);
    }
}

#[test]
fn execution_side_from_str_rejects_unknown() {
    for text in [
        "", "INVALID", "bot", "sld", "BUY", "SELL", "SSHORT", "SLONG",
    ] {
        assert_eq!(
            ExecutionSide::from_str(text),
            Err(Error::Parse(
                0,
                text.to_string(),
                "ExecutionSide".to_string()
            ))
        );
    }
}

#[test]
fn is_active_and_is_terminal_partition_of_known_variants() {
    for (kind, text) in all_kinds() {
        let active = kind.is_active();
        let terminal = kind.is_terminal();
        match kind {
            OrderStatusKind::PreSubmitted
            | OrderStatusKind::PendingSubmit
            | OrderStatusKind::PendingCancel
            | OrderStatusKind::Submitted => {
                assert!(active, "{text} should be active");
                assert!(!terminal, "{text} should not be terminal");
            }
            OrderStatusKind::Filled
            | OrderStatusKind::Cancelled
            | OrderStatusKind::ApiCancelled
            | OrderStatusKind::Inactive => {
                assert!(!active, "{text} should not be active");
                assert!(terminal, "{text} should be terminal");
            }
            OrderStatusKind::ApiPending => {
                assert!(!active, "ApiPending should not be active");
                assert!(!terminal, "ApiPending should not be terminal");
            }
            OrderStatusKind::Unknown(_) => unreachable!("all_kinds holds no Unknown"),
        }
    }
}
