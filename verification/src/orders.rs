//! The broker's order vocabulary and order records.

use std::str::FromStr;

use vstd::prelude::*;

use crate::text::text_eq;
use crate::wire::WireNumber;

verus! {

/// A text field that could not be read.
#[derive(Debug, PartialEq, Eq)]
pub enum Error {
    /// The position of the field, its text, and what was expected of it.
    Parse(usize, String, String),
}

impl Error {
    /// The error reports `field` at position zero and says that it expected `expected`.
    pub open spec fn reports(&self, field: Seq<char>, expected: Seq<char>) -> bool {
        match self {
            Error::Parse(position, text, reason) => *position == 0 && text@ == field && reason@
                == expected,
        }
    }

    fn unreadable(field: &str, expected: &str) -> (r: Self)
        ensures
            r.reports(field@, expected@),
    {
        Error::Parse(0, field.to_owned(), expected.to_owned())
    }
}

/// The status of an order as the broker words it.
#[derive(Debug, PartialEq, Eq)]
pub enum OrderStatusKind {
    ApiPending,
    PendingSubmit,
    PendingCancel,
    PreSubmitted,
    Submitted,
    ApiCancelled,
    Cancelled,
    Filled,
    Inactive,
    /// A status outside the known vocabulary, as it was received.
    Unknown(String),
}

impl Clone for OrderStatusKind {
    fn clone(&self) -> (r: Self)
        ensures
            r == *self,
    {
        match self {
            OrderStatusKind::ApiPending => OrderStatusKind::ApiPending,
            OrderStatusKind::PendingSubmit => OrderStatusKind::PendingSubmit,
            OrderStatusKind::PendingCancel => OrderStatusKind::PendingCancel,
            OrderStatusKind::PreSubmitted => OrderStatusKind::PreSubmitted,
            OrderStatusKind::Submitted => OrderStatusKind::Submitted,
            OrderStatusKind::ApiCancelled => OrderStatusKind::ApiCancelled,
            OrderStatusKind::Cancelled => OrderStatusKind::Cancelled,
            OrderStatusKind::Filled => OrderStatusKind::Filled,
            OrderStatusKind::Inactive => OrderStatusKind::Inactive,
            OrderStatusKind::Unknown(raw) => OrderStatusKind::Unknown(raw.clone()),
        }
    }
}

/// The texts of the known vocabulary.
pub open spec fn known_status_text(text: Seq<char>) -> bool {
    ||| text == "ApiPending"@
    ||| text == "PendingSubmit"@
    ||| text == "PendingCancel"@
    ||| text == "PreSubmitted"@
    ||| text == "Submitted"@
    ||| text == "ApiCancelled"@
    ||| text == "Cancelled"@
    ||| text == "Filled"@
    ||| text == "Inactive"@
}

impl OrderStatusKind {
    /// The text of a status on the wire.
    pub open spec fn wire_text(&self) -> Seq<char> {
        match self {
            OrderStatusKind::ApiPending => "ApiPending"@,
            OrderStatusKind::PendingSubmit => "PendingSubmit"@,
            OrderStatusKind::PendingCancel => "PendingCancel"@,
            OrderStatusKind::PreSubmitted => "PreSubmitted"@,
            OrderStatusKind::Submitted => "Submitted"@,
            OrderStatusKind::ApiCancelled => "ApiCancelled"@,
            OrderStatusKind::Cancelled => "Cancelled"@,
            OrderStatusKind::Filled => "Filled"@,
            OrderStatusKind::Inactive => "Inactive"@,
            OrderStatusKind::Unknown(raw) => raw@,
        }
    }

    /// The status is what reading its own text gives: only a text outside the vocabulary, and
    /// not the empty one, is held as unknown.
    pub open spec fn canonical(&self) -> bool {
        match self {
            OrderStatusKind::Unknown(raw) => raw@.len() > 0 && !known_status_text(raw@),
            _ => true,
        }
    }

    /// The order is at work with the broker.
    pub open spec fn active(&self) -> bool {
        match self {
            OrderStatusKind::PreSubmitted => true,
            OrderStatusKind::PendingSubmit => true,
            OrderStatusKind::PendingCancel => true,
            OrderStatusKind::Submitted => true,
            _ => false,
        }
    }

    /// The order has come to its end.
    pub open spec fn terminal(&self) -> bool {
        match self {
            OrderStatusKind::Filled => true,
            OrderStatusKind::Cancelled => true,
            OrderStatusKind::ApiCancelled => true,
            OrderStatusKind::Inactive => true,
            _ => false,
        }
    }

    /// Reads a status. Only the empty text is refused; one outside the vocabulary is kept as it
    /// stands.
    pub fn from_str(s: &str) -> (r: Result<Self, Error>)
        ensures
            match r {
                Ok(kind) => s@.len() > 0 && kind.wire_text() == s@ && kind.canonical(),
                Err(e) => s@.len() == 0 && e.reports(s@, "OrderStatusKind"@),
            },
    {
        if s.is_empty() {
            return Err(Error::unreadable(s, "OrderStatusKind"));
        }
        Ok(
            if text_eq(s, "ApiPending") {
                OrderStatusKind::ApiPending
            } else if text_eq(s, "PendingSubmit") {
                OrderStatusKind::PendingSubmit
            } else if text_eq(s, "PendingCancel") {
                OrderStatusKind::PendingCancel
            } else if text_eq(s, "PreSubmitted") {
                OrderStatusKind::PreSubmitted
            } else if text_eq(s, "Submitted") {
                OrderStatusKind::Submitted
            } else if text_eq(s, "ApiCancelled") {
                OrderStatusKind::ApiCancelled
            } else if text_eq(s, "Cancelled") {
                OrderStatusKind::Cancelled
            } else if text_eq(s, "Filled") {
                OrderStatusKind::Filled
            } else if text_eq(s, "Inactive") {
                OrderStatusKind::Inactive
            } else {
                OrderStatusKind::Unknown(s.to_owned())
            },
        )
    }

    /// The text of the status on the wire.
    pub fn as_str(&self) -> (r: &str)
        ensures
            r@ == self.wire_text(),
    {
        match self {
            OrderStatusKind::ApiPending => "ApiPending",
            OrderStatusKind::PendingSubmit => "PendingSubmit",
            OrderStatusKind::PendingCancel => "PendingCancel",
            OrderStatusKind::PreSubmitted => "PreSubmitted",
            OrderStatusKind::Submitted => "Submitted",
            OrderStatusKind::ApiCancelled => "ApiCancelled",
            OrderStatusKind::Cancelled => "Cancelled",
            OrderStatusKind::Filled => "Filled",
            OrderStatusKind::Inactive => "Inactive",
            OrderStatusKind::Unknown(raw) => raw.as_str(),
        }
    }

    /// The status as text for display.
    pub fn to_string(&self) -> (r: String)
        ensures
            r@ == self.wire_text(),
    {
        self.as_str().to_owned()
    }

    /// The status as a field of an outgoing message.
    pub fn to_field(&self) -> (r: String)
        ensures
            r@ == self.wire_text(),
    {
        self.as_str().to_owned()
    }

    /// Whether the order is at work with the broker.
    pub fn is_active(&self) -> (r: bool)
        ensures
            r == self.active(),
    {
        match self {
            OrderStatusKind::PreSubmitted => true,
            OrderStatusKind::PendingSubmit => true,
            OrderStatusKind::PendingCancel => true,
            OrderStatusKind::Submitted => true,
            _ => false,
        }
    }

    /// Whether the order has come to its end.
    pub fn is_terminal(&self) -> (r: bool)
        ensures
            r == self.terminal(),
    {
        match self {
            OrderStatusKind::Filled => true,
            OrderStatusKind::Cancelled => true,
            OrderStatusKind::ApiCancelled => true,
            OrderStatusKind::Inactive => true,
            _ => false,
        }
    }
}

impl FromStr for OrderStatusKind {
    type Err = Error;

    fn from_str(s: &str) -> (r: Result<Self, Error>)
        ensures
            match r {
                Ok(kind) => s@.len() > 0 && kind.wire_text() == s@ && kind.canonical(),
                Err(e) => s@.len() == 0 && e.reports(s@, "OrderStatusKind"@),
            },
    {
        OrderStatusKind::from_str(s)
    }
}

/// The known texts differ from one another.
proof fn known_status_texts_differ()
    ensures
        "ApiPending"@ != "PendingSubmit"@,
        "ApiPending"@ != "PendingCancel"@,
        "ApiPending"@ != "PreSubmitted"@,
        "ApiPending"@ != "Submitted"@,
        "ApiPending"@ != "ApiCancelled"@,
        "ApiPending"@ != "Cancelled"@,
        "ApiPending"@ != "Filled"@,
        "ApiPending"@ != "Inactive"@,
        "PendingSubmit"@ != "PendingCancel"@,
        "PendingSubmit"@ != "PreSubmitted"@,
        "PendingSubmit"@ != "Submitted"@,
        "PendingSubmit"@ != "ApiCancelled"@,
        "PendingSubmit"@ != "Cancelled"@,
        "PendingSubmit"@ != "Filled"@,
        "PendingSubmit"@ != "Inactive"@,
        "PendingCancel"@ != "PreSubmitted"@,
        "PendingCancel"@ != "Submitted"@,
        "PendingCancel"@ != "ApiCancelled"@,
        "PendingCancel"@ != "Cancelled"@,
        "PendingCancel"@ != "Filled"@,
        "PendingCancel"@ != "Inactive"@,
        "PreSubmitted"@ != "Submitted"@,
        "PreSubmitted"@ != "ApiCancelled"@,
        "PreSubmitted"@ != "Cancelled"@,
        "PreSubmitted"@ != "Filled"@,
        "PreSubmitted"@ != "Inactive"@,
        "Submitted"@ != "ApiCancelled"@,
        "Submitted"@ != "Cancelled"@,
        "Submitted"@ != "Filled"@,
        "Submitted"@ != "Inactive"@,
        "ApiCancelled"@ != "Cancelled"@,
        "ApiCancelled"@ != "Filled"@,
        "ApiCancelled"@ != "Inactive"@,
        "Cancelled"@ != "Filled"@,
        "Cancelled"@ != "Inactive"@,
        "Filled"@ != "Inactive"@,
{
    reveal_strlit("ApiPending");
    reveal_strlit("PendingSubmit");
    reveal_strlit("PendingCancel");
    reveal_strlit("PreSubmitted");
    reveal_strlit("Submitted");
    reveal_strlit("ApiCancelled");
    reveal_strlit("Cancelled");
    reveal_strlit("Filled");
    reveal_strlit("Inactive");
    assert("ApiPending"@.len() == 10 && "PendingSubmit"@.len() == 13 && "PendingCancel"@.len() == 13);
    assert("PreSubmitted"@.len() == 12 && "Submitted"@.len() == 9 && "ApiCancelled"@.len() == 12);
    assert("Cancelled"@.len() == 9 && "Filled"@.len() == 6 && "Inactive"@.len() == 8);
    assert("PendingSubmit"@[7] == 'S' && "PendingCancel"@[7] == 'C');
    assert("PreSubmitted"@[0] == 'P' && "ApiCancelled"@[0] == 'A');
    assert("Submitted"@[0] == 'S' && "Cancelled"@[0] == 'C');
}

/// Reading a status and writing it again gives the same text, and writing a status and reading it
/// again gives the same status: the text of a status determines it.
pub proof fn status_text_determines_the_status(a: OrderStatusKind, b: OrderStatusKind)
    requires
        a.canonical(),
        b.canonical(),
        a.wire_text() == b.wire_text(),
    ensures
        match (a, b) {
            (OrderStatusKind::Unknown(x), OrderStatusKind::Unknown(y)) => x@ == y@,
            _ => a == b,
        },
{
    known_status_texts_differ();
}

/// Every known status but the pending one is either at work or at its end, none is both, and a
/// status outside the vocabulary is neither.
pub proof fn active_and_terminal_part_the_vocabulary(kind: OrderStatusKind)
    ensures
        !(kind.active() && kind.terminal()),
        kind is ApiPending || kind is Unknown <==> !kind.active() && !kind.terminal(),
{
}

/// The side of an execution as the broker words it.
#[derive(Debug, Clone, Copy, PartialEq, Eq, Structural)]
pub enum ExecutionSide {
    Bought,
    Sold,
}

impl ExecutionSide {
    /// The text of a side on the wire.
    pub open spec fn wire_text(&self) -> Seq<char> {
        match self {
            ExecutionSide::Bought => "BOT"@,
            ExecutionSide::Sold => "SLD"@,
        }
    }

    /// Reads a side; any other text is refused.
    pub fn from_str(s: &str) -> (r: Result<Self, Error>)
        ensures
            match r {
                Ok(side) => side.wire_text() == s@,
                Err(e) => s@ != "BOT"@ && s@ != "SLD"@ && e.reports(s@, "ExecutionSide"@),
            },
    {
        if text_eq(s, "BOT") {
            Ok(ExecutionSide::Bought)
        } else if text_eq(s, "SLD") {
            Ok(ExecutionSide::Sold)
        } else {
            Err(Error::unreadable(s, "ExecutionSide"))
        }
    }

    /// The text of the side on the wire.
    pub fn as_str(&self) -> (r: &'static str)
        ensures
            r@ == self.wire_text(),
    {
        match self {
            ExecutionSide::Bought => "BOT",
            ExecutionSide::Sold => "SLD",
        }
    }

    /// The side as text for display.
    pub fn to_string(&self) -> (r: String)
        ensures
            r@ == self.wire_text(),
    {
        self.as_str().to_owned()
    }

    /// The side as a field of an outgoing message.
    pub fn to_field(&self) -> (r: String)
        ensures
            r@ == self.wire_text(),
    {
        self.as_str().to_owned()
    }
}

/// The side that a request for executions is narrowed to.
#[derive(Debug, Clone, Copy, PartialEq, Eq, Structural)]
pub enum ExecutionFilterSide {
    Buy,
    Sell,
}

impl ExecutionFilterSide {
    /// The text of a filter side on the wire.
    pub open spec fn wire_text(&self) -> Seq<char> {
        match self {
            ExecutionFilterSide::Buy => "BUY"@,
            ExecutionFilterSide::Sell => "SELL"@,
        }
    }

    /// Reads a filter side; any other text is refused.
    pub fn from_str(s: &str) -> (r: Result<Self, Error>)
        ensures
            match r {
                Ok(side) => side.wire_text() == s@,
                Err(e) => s@ != "BUY"@ && s@ != "SELL"@ && e.reports(s@, "ExecutionFilterSide"@),
            },
    {
        if text_eq(s, "BUY") {
            Ok(ExecutionFilterSide::Buy)
        } else if text_eq(s, "SELL") {
            Ok(ExecutionFilterSide::Sell)
        } else {
            Err(Error::unreadable(s, "ExecutionFilterSide"))
        }
    }

    /// The text of the filter side on the wire.
    pub fn as_str(&self) -> (r: &'static str)
        ensures
            r@ == self.wire_text(),
    {
        match self {
            ExecutionFilterSide::Buy => "BUY",
            ExecutionFilterSide::Sell => "SELL",
        }
    }

    /// The filter side as text for display.
    pub fn to_string(&self) -> (r: String)
        ensures
            r@ == self.wire_text(),
    {
        self.as_str().to_owned()
    }

    /// The filter side as a field of an outgoing message.
    pub fn to_field(&self) -> (r: String)
        ensures
            r@ == self.wire_text(),
    {
        self.as_str().to_owned()
    }
}

/// The two side vocabularies share no text, and each text stands for one side.
pub proof fn side_vocabularies_are_apart(a: ExecutionSide, b: ExecutionFilterSide)
    ensures
        a.wire_text() != b.wire_text(),
        ExecutionSide::Bought.wire_text() != ExecutionSide::Sold.wire_text(),
        ExecutionFilterSide::Buy.wire_text() != ExecutionFilterSide::Sell.wire_text(),
{
    reveal_strlit("BOT");
    reveal_strlit("SLD");
    reveal_strlit("BUY");
    reveal_strlit("SELL");
    assert("BOT"@[1] == 'O' && "BUY"@[1] == 'U' && "SLD"@[0] == 'S' && "SELL"@.len() == 4);
    assert("BOT"@[0] == 'B' && "BUY"@[0] == 'B');
}

/// What an order does.
#[derive(Debug, Clone, Copy, PartialEq, Eq, Structural)]
pub enum Action {
    Buy,
    Sell,
    SellShort,
    SellLong,
}

/// How long an order stays at work, as the broker words it.
#[derive(Debug, Clone, Copy, PartialEq, Eq, Structural)]
pub enum OrderLifetime {
    Day,
    GoodTilCanceled,
    ImmediateOrCancel,
    GoodTilDate,
    OnOpen,
    FillOrKill,
}

/// An order as the broker holds it.
#[derive(Debug)]
pub struct Order {
    pub order_id: i32,
    pub client_id: i32,
    /// The broker's permanent identifier; zero until the broker has acknowledged the order.
    pub perm_id: i64,
    pub parent_id: i32,
    pub action: Action,
    pub total_quantity: WireNumber,
    pub filled_quantity: WireNumber,
    pub order_type: String,
    pub limit_price: Option<WireNumber>,
    pub aux_price: Option<WireNumber>,
    pub trail_stop_price: Option<WireNumber>,
    pub trailing_percent: Option<WireNumber>,
    pub limit_price_offset: Option<WireNumber>,
    pub tif: OrderLifetime,
    pub good_till_date: String,
    pub account: String,
    pub order_ref: String,
}

/// An update on a working order.
#[derive(Debug)]
pub struct OrderStatus {
    pub order_id: i32,
    pub status: OrderStatusKind,
    pub filled: WireNumber,
    pub remaining: WireNumber,
    pub average_fill_price: Option<WireNumber>,
    pub perm_id: i64,
}

/// The state that accompanies an order record.
#[derive(Debug)]
pub struct OrderState {
    pub status: OrderStatusKind,
    pub completed_status: String,
    pub completed_time: String,
}

/// A record of an order with its state.
#[derive(Debug)]
pub struct OrderData {
    /// The live identifier of the order; a completed record carries none.
    pub order_id: i32,
    pub order: Order,
    pub order_state: OrderState,
}

/// A fill as the broker reports it.
#[derive(Debug)]
pub struct Execution {
    pub order_id: i32,
    pub execution_id: String,
    pub time: String,
    pub side: ExecutionSide,
    pub shares: WireNumber,
    pub price: WireNumber,
    pub perm_id: i64,
    pub order_reference: String,
}

} // verus!
