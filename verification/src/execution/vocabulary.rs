//! What the broker's words for orders mean in the trading model.

use vstd::prelude::*;

use crate::model::{NautilusOrderStatus, OrderSide, OrderType, TimeInForce};
use crate::orders::{Action, ExecutionSide, OrderLifetime};
use crate::text::text_eq;
use crate::wire::WireNumber;

verus! {

/// A broker status that the adapter can classify.
#[derive(Debug, Clone, Copy, PartialEq, Eq, Structural)]
pub enum IbOrderStatus {
    ApiPending,
    PendingSubmit,
    PendingCancel,
    PreSubmitted,
    Submitted,
    ApiCancelled,
    Cancelled,
    Filled,
    Inactive,
}

/// The broker status of a text; `None` outside the vocabulary.
pub open spec fn ib_status_of(text: Seq<char>) -> Option<IbOrderStatus> {
    if text == "ApiPending"@ {
        Some(IbOrderStatus::ApiPending)
    } else if text == "PendingSubmit"@ {
        Some(IbOrderStatus::PendingSubmit)
    } else if text == "PendingCancel"@ {
        Some(IbOrderStatus::PendingCancel)
    } else if text == "PreSubmitted"@ {
        Some(IbOrderStatus::PreSubmitted)
    } else if text == "Submitted"@ {
        Some(IbOrderStatus::Submitted)
    } else if text == "ApiCancelled"@ {
        Some(IbOrderStatus::ApiCancelled)
    } else if text == "Cancelled"@ {
        Some(IbOrderStatus::Cancelled)
    } else if text == "Filled"@ {
        Some(IbOrderStatus::Filled)
    } else if text == "Inactive"@ {
        Some(IbOrderStatus::Inactive)
    } else {
        None
    }
}

impl IbOrderStatus {
    /// The normalized status that a broker status stands for.
    pub open spec fn normalized(&self) -> NautilusOrderStatus {
        match self {
            IbOrderStatus::ApiPending => NautilusOrderStatus::Submitted,
            IbOrderStatus::PendingSubmit => NautilusOrderStatus::Submitted,
            IbOrderStatus::PreSubmitted => NautilusOrderStatus::Submitted,
            IbOrderStatus::Submitted => NautilusOrderStatus::Accepted,
            IbOrderStatus::PendingCancel => NautilusOrderStatus::PendingCancel,
            IbOrderStatus::ApiCancelled => NautilusOrderStatus::Canceled,
            IbOrderStatus::Cancelled => NautilusOrderStatus::Canceled,
            IbOrderStatus::Filled => NautilusOrderStatus::Filled,
            IbOrderStatus::Inactive => NautilusOrderStatus::Rejected,
        }
    }

    /// The broker holds the order for finished.
    pub open spec fn terminal(&self) -> bool {
        match self {
            IbOrderStatus::ApiCancelled => true,
            IbOrderStatus::Cancelled => true,
            IbOrderStatus::Filled => true,
            IbOrderStatus::Inactive => true,
            _ => false,
        }
    }

    /// Reads a broker status.
    pub fn from_str(text: &str) -> (r: Option<Self>)
        ensures
            r == ib_status_of(text@),
    {
        if text_eq(text, "ApiPending") {
            Some(IbOrderStatus::ApiPending)
        } else if text_eq(text, "PendingSubmit") {
            Some(IbOrderStatus::PendingSubmit)
        } else if text_eq(text, "PendingCancel") {
            Some(IbOrderStatus::PendingCancel)
        } else if text_eq(text, "PreSubmitted") {
            Some(IbOrderStatus::PreSubmitted)
        } else if text_eq(text, "Submitted") {
            Some(IbOrderStatus::Submitted)
        } else if text_eq(text, "ApiCancelled") {
            Some(IbOrderStatus::ApiCancelled)
        } else if text_eq(text, "Cancelled") {
            Some(IbOrderStatus::Cancelled)
        } else if text_eq(text, "Filled") {
            Some(IbOrderStatus::Filled)
        } else if text_eq(text, "Inactive") {
            Some(IbOrderStatus::Inactive)
        } else {
            None
        }
    }

    /// The normalized status that the broker status stands for.
    pub fn nautilus_status(&self) -> (r: NautilusOrderStatus)
        ensures
            r == self.normalized(),
    {
        match self {
            IbOrderStatus::ApiPending => NautilusOrderStatus::Submitted,
            IbOrderStatus::PendingSubmit => NautilusOrderStatus::Submitted,
            IbOrderStatus::PreSubmitted => NautilusOrderStatus::Submitted,
            IbOrderStatus::Submitted => NautilusOrderStatus::Accepted,
            IbOrderStatus::PendingCancel => NautilusOrderStatus::PendingCancel,
            IbOrderStatus::ApiCancelled => NautilusOrderStatus::Canceled,
            IbOrderStatus::Cancelled => NautilusOrderStatus::Canceled,
            IbOrderStatus::Filled => NautilusOrderStatus::Filled,
            IbOrderStatus::Inactive => NautilusOrderStatus::Rejected,
        }
    }

    /// Whether the broker holds the order for finished.
    pub fn is_terminal(&self) -> (r: bool)
        ensures
            r == self.terminal(),
    {
        match self {
            IbOrderStatus::ApiCancelled => true,
            IbOrderStatus::Cancelled => true,
            IbOrderStatus::Filled => true,
            IbOrderStatus::Inactive => true,
            _ => false,
        }
    }
}

/// A finished broker status is a closed one, and a working one is open.
pub proof fn terminal_statuses_are_closed(status: IbOrderStatus)
    ensures
        status.terminal() == status.normalized().closed(),
        status.normalized() != NautilusOrderStatus::PartiallyFilled,
{
}

/// The side of an order that performs `action`.
pub open spec fn action_side(action: Action) -> OrderSide {
    match action {
        Action::Buy => OrderSide::Buy,
        _ => OrderSide::Sell,
    }
}

/// The side of an order that performs an action.
pub fn side_of_action(action: Action) -> (r: OrderSide)
    ensures
        r == action_side(action),
{
    match action {
        Action::Buy => OrderSide::Buy,
        _ => OrderSide::Sell,
    }
}

/// The side of the order that an execution belongs to.
pub open spec fn execution_order_side(side: ExecutionSide) -> OrderSide {
    match side {
        ExecutionSide::Bought => OrderSide::Buy,
        ExecutionSide::Sold => OrderSide::Sell,
    }
}

/// The side of the order that an execution belongs to.
pub fn side_of_execution(side: ExecutionSide) -> (r: OrderSide)
    ensures
        r == execution_order_side(side),
{
    match side {
        ExecutionSide::Bought => OrderSide::Buy,
        ExecutionSide::Sold => OrderSide::Sell,
    }
}

/// The order type of a broker text; `None` outside the vocabulary.
pub open spec fn ib_order_type_of(text: Seq<char>) -> Option<OrderType> {
    if text == "MKT"@ {
        Some(OrderType::Market)
    } else if text == "LMT"@ {
        Some(OrderType::Limit)
    } else if text == "MIT"@ {
        Some(OrderType::MarketIfTouched)
    } else if text == "LIT"@ {
        Some(OrderType::LimitIfTouched)
    } else if text == "STP"@ {
        Some(OrderType::StopMarket)
    } else if text == "STP LMT"@ {
        Some(OrderType::StopLimit)
    } else if text == "TRAIL"@ {
        Some(OrderType::TrailingStopMarket)
    } else if text == "TRAIL LIMIT"@ {
        Some(OrderType::TrailingStopLimit)
    } else if text == "MTL"@ {
        Some(OrderType::MarketToLimit)
    } else if text == "MOC"@ {
        Some(OrderType::Market)
    } else if text == "LOC"@ {
        Some(OrderType::Limit)
    } else {
        None
    }
}

/// The order type of a broker order: an algorithmic order with a limit price other than zero is a
/// limit order, and a text outside the vocabulary stands for a market order.
pub open spec fn mapped_order_type(
    order_type: Seq<char>,
    limit_price: Option<WireNumber>,
) -> OrderType {
    if order_type == "IBALGO"@ && (limit_price matches Some(p) && !p.zero()) {
        OrderType::Limit
    } else {
        match ib_order_type_of(order_type) {
            Some(mapped) => mapped,
            None => OrderType::Market,
        }
    }
}

/// The order type of a broker order.
pub fn map_ib_order_type(order_type: &str, limit_price: &Option<WireNumber>) -> (r: OrderType)
    ensures
        r == mapped_order_type(order_type@, *limit_price),
{
    let limited = match limit_price {
        Some(price) => !price.is_zero(),
        None => false,
    };
    if limited && text_eq(order_type, "IBALGO") {
        return OrderType::Limit;
    }
    if text_eq(order_type, "MKT") {
        OrderType::Market
    } else if text_eq(order_type, "LMT") {
        OrderType::Limit
    } else if text_eq(order_type, "MIT") {
        OrderType::MarketIfTouched
    } else if text_eq(order_type, "LIT") {
        OrderType::LimitIfTouched
    } else if text_eq(order_type, "STP") {
        OrderType::StopMarket
    } else if text_eq(order_type, "STP LMT") {
        OrderType::StopLimit
    } else if text_eq(order_type, "TRAIL") {
        OrderType::TrailingStopMarket
    } else if text_eq(order_type, "TRAIL LIMIT") {
        OrderType::TrailingStopLimit
    } else if text_eq(order_type, "MTL") {
        OrderType::MarketToLimit
    } else if text_eq(order_type, "MOC") {
        OrderType::Market
    } else if text_eq(order_type, "LOC") {
        OrderType::Limit
    } else {
        OrderType::Market
    }
}

/// How long an order with this lifetime and date stays at work; a date makes it good till then.
pub open spec fn mapped_time_in_force(
    tif: OrderLifetime,
    good_till_date: Seq<char>,
) -> TimeInForce {
    if good_till_date.len() > 0 {
        TimeInForce::Gtd
    } else {
        match tif {
            OrderLifetime::Day => TimeInForce::Day,
            OrderLifetime::GoodTilCanceled => TimeInForce::Gtc,
            OrderLifetime::ImmediateOrCancel => TimeInForce::Ioc,
            OrderLifetime::GoodTilDate => TimeInForce::Gtd,
            OrderLifetime::OnOpen => TimeInForce::AtTheOpen,
            OrderLifetime::FillOrKill => TimeInForce::Fok,
        }
    }
}

/// How long an order stays at work.
pub fn map_time_in_force(tif: OrderLifetime, good_till_date: &str) -> (r: TimeInForce)
    ensures
        r == mapped_time_in_force(tif, good_till_date@),
{
    if !good_till_date.is_empty() {
        return TimeInForce::Gtd;
    }
    match tif {
        OrderLifetime::Day => TimeInForce::Day,
        OrderLifetime::GoodTilCanceled => TimeInForce::Gtc,
        OrderLifetime::ImmediateOrCancel => TimeInForce::Ioc,
        OrderLifetime::GoodTilDate => TimeInForce::Gtd,
        OrderLifetime::OnOpen => TimeInForce::AtTheOpen,
        OrderLifetime::FillOrKill => TimeInForce::Fok,
    }
}

} // verus!
