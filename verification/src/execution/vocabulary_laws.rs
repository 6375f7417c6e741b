//! What the broker's words come to in the trading model.

use vstd::prelude::*;

use crate::execution::vocabulary::{
    ib_order_type_of, map_ib_order_type, map_time_in_force, side_of_action, side_of_execution,
    IbOrderStatus,
};
use crate::model::{NautilusOrderStatus, OrderSide, OrderType, TimeInForce};
use crate::orders::{Action, ExecutionSide, OrderLifetime};
use crate::wire::WireNumber;
use crate::wire_laws::zero_bits;

verus! {

/// The words for a status that the adapter knows, with what each comes to.
pub open spec fn means(word: Seq<char>, status: NautilusOrderStatus) -> bool {
    match status {
        NautilusOrderStatus::Submitted => word == "ApiPending"@ || word == "PendingSubmit"@ || word
            == "PreSubmitted"@,
        NautilusOrderStatus::Accepted => word == "Submitted"@,
        NautilusOrderStatus::PendingCancel => word == "PendingCancel"@,
        NautilusOrderStatus::Canceled => word == "ApiCancelled"@ || word == "Cancelled"@,
        NautilusOrderStatus::Filled => word == "Filled"@,
        NautilusOrderStatus::Rejected => word == "Inactive"@,
        _ => false,
    }
}

/// A word for a status that the adapter knows.
pub open spec fn known_word(word: Seq<char>) -> bool {
    word == "ApiPending"@ || word == "PendingSubmit"@ || word == "PreSubmitted"@ || word
        == "Submitted"@ || word == "PendingCancel"@ || word == "ApiCancelled"@ || word
        == "Cancelled"@ || word == "Filled"@ || word == "Inactive"@
}

/// The words for a status are all different.
pub proof fn status_words_differ(word: Seq<char>, a: NautilusOrderStatus, b: NautilusOrderStatus)
    requires
        means(word, a),
        means(word, b),
    ensures
        a == b,
{
    reveal_strlit("ApiPending");
    reveal_strlit("PendingSubmit");
    reveal_strlit("PendingCancel");
    reveal_strlit("PreSubmitted");
    reveal_strlit("Submitted");
    reveal_strlit("ApiCancelled");
    reveal_strlit("Cancelled");
    reveal_strlit("Filled");
    reveal_strlit("Inactive");
    assert("ApiPending"@.len() == 10 && "PendingSubmit"@.len() == 13 && "PendingCancel"@.len() == 13);
    assert("PreSubmitted"@.len() == 12 && "Submitted"@.len() == 9 && "ApiCancelled"@.len() == 12);
    assert("Cancelled"@.len() == 9 && "Filled"@.len() == 6 && "Inactive"@.len() == 8);
    assert("PendingSubmit"@[7] == 'S' && "PendingCancel"@[7] == 'C');
    assert("PreSubmitted"@[0] == 'P' && "ApiCancelled"@[0] == 'A');
    assert("Submitted"@[0] == 'S' && "Cancelled"@[0] == 'C');
}

/// Every word that the adapter knows is read, and comes to the status that it means; it is a
/// finished one exactly where the order was cancelled, filled or rejected. No other word is read.
pub proof fn status_words_have_their_meaning(
    word: &str,
    read: Option<IbOrderStatus>,
    status: NautilusOrderStatus,
    terminal: bool,
)
    requires
        call_ensures(IbOrderStatus::from_str, (word,), read),
        read matches Some(known) ==> call_ensures(IbOrderStatus::nautilus_status, (&known,), status),
        read matches Some(known) ==> call_ensures(IbOrderStatus::is_terminal, (&known,), terminal),
    ensures
        read is Some <==> known_word(word@),
        read is Some ==> means(word@, status),
        read is Some ==> (terminal <==> status == NautilusOrderStatus::Canceled || status
            == NautilusOrderStatus::Filled || status == NautilusOrderStatus::Rejected),
{
    status_words_are_distinct();
}

pub(crate) proof fn status_words_are_distinct()
    ensures
        "Submitted"@ != "ApiPending"@ && "Submitted"@ != "PendingSubmit"@ && "Submitted"@
            != "PreSubmitted"@ && "Submitted"@ != "PendingCancel"@ && "Submitted"@
            != "ApiCancelled"@ && "Submitted"@ != "Cancelled"@ && "Submitted"@ != "Filled"@
            && "Submitted"@ != "Inactive"@,
        "PendingCancel"@ != "PendingSubmit"@ && "PendingCancel"@ != "ApiPending"@,
        "ApiCancelled"@ != "ApiPending"@ && "ApiCancelled"@ != "PendingSubmit"@ && "ApiCancelled"@ != "PreSubmitted"@ && "ApiCancelled"@ != "PendingCancel"@,
        "Cancelled"@ != "ApiPending"@ && "Cancelled"@ != "PendingSubmit"@ && "Cancelled"@ != "PreSubmitted"@ && "Cancelled"@ != "PendingCancel"@,
        "Filled"@ != "ApiPending"@ && "Filled"@ != "PendingSubmit"@ && "Filled"@ != "PreSubmitted"@ && "Filled"@ != "PendingCancel"@,
        "Inactive"@ != "ApiPending"@ && "Inactive"@ != "PendingSubmit"@ && "Inactive"@ != "PreSubmitted"@ && "Inactive"@ != "PendingCancel"@,
{
    reveal_strlit("ApiPending");
    reveal_strlit("PendingSubmit");
    reveal_strlit("PendingCancel");
    reveal_strlit("PreSubmitted");
    reveal_strlit("Submitted");
    reveal_strlit("ApiCancelled");
    reveal_strlit("Cancelled");
    reveal_strlit("Filled");
    reveal_strlit("Inactive");
    assert("ApiPending"@.len() == 10 && "PendingSubmit"@.len() == 13 && "PendingCancel"@.len() == 13);
    assert("PreSubmitted"@.len() == 12 && "Submitted"@.len() == 9 && "ApiCancelled"@.len() == 12);
    assert("Cancelled"@.len() == 9 && "Filled"@.len() == 6 && "Inactive"@.len() == 8);
    assert("PendingSubmit"@[7] == 'S' && "PendingCancel"@[7] == 'C');
    assert("PreSubmitted"@[0] == 'P' && "ApiCancelled"@[0] == 'A');
    assert("Submitted"@[0] == 'S' && "Cancelled"@[0] == 'C');
}

/// An order to buy is a buy, and every other order sells.
pub proof fn orders_have_the_side_of_their_action(action: Action, side: OrderSide)
    requires
        call_ensures(side_of_action, (action,), side),
    ensures
        side == OrderSide::Buy <==> action == Action::Buy,
{
}

/// What was bought belongs to a buy, and what was sold to a sell.
pub proof fn fills_have_the_side_of_their_order(side: ExecutionSide, order_side: OrderSide)
    requires
        call_ensures(side_of_execution, (side,), order_side),
    ensures
        order_side == OrderSide::Buy <==> side == ExecutionSide::Bought,
{
}

/// The words for an order type, with what each comes to.
pub open spec fn type_word(word: Seq<char>, order_type: OrderType) -> bool {
    match order_type {
        OrderType::Market => word == "MKT"@ || word == "MOC"@,
        OrderType::Limit => word == "LMT"@ || word == "LOC"@,
        OrderType::MarketIfTouched => word == "MIT"@,
        OrderType::LimitIfTouched => word == "LIT"@,
        OrderType::StopMarket => word == "STP"@,
        OrderType::StopLimit => word == "STP LMT"@,
        OrderType::TrailingStopMarket => word == "TRAIL"@,
        OrderType::TrailingStopLimit => word == "TRAIL LIMIT"@,
        OrderType::MarketToLimit => word == "MTL"@,
    }
}

/// A word that stands for an order type.
pub open spec fn known_type_word(word: Seq<char>) -> bool {
    word == "MKT"@ || word == "MOC"@ || word == "LMT"@ || word == "LOC"@ || word == "MIT"@ || word
        == "LIT"@ || word == "STP"@ || word == "STP LMT"@ || word == "TRAIL"@ || word
        == "TRAIL LIMIT"@ || word == "MTL"@
}

pub(crate) proof fn type_words_differ()
    ensures
        forall|word: Seq<char>, a: OrderType, b: OrderType|
            #[trigger] type_word(word, a) && #[trigger] type_word(word, b) ==> a == b,
        !known_type_word("IBALGO"@),
{
    reveal_strlit("MKT");
    reveal_strlit("MOC");
    reveal_strlit("LMT");
    reveal_strlit("LOC");
    reveal_strlit("MIT");
    reveal_strlit("LIT");
    reveal_strlit("STP");
    reveal_strlit("STP LMT");
    reveal_strlit("TRAIL");
    reveal_strlit("TRAIL LIMIT");
    reveal_strlit("MTL");
    reveal_strlit("IBALGO");
    assert("MKT"@.len() == 3 && "MOC"@.len() == 3 && "LMT"@.len() == 3 && "LOC"@.len() == 3);
    assert("MIT"@.len() == 3 && "LIT"@.len() == 3 && "STP"@.len() == 3 && "MTL"@.len() == 3);
    assert("STP LMT"@.len() == 7 && "TRAIL"@.len() == 5 && "TRAIL LIMIT"@.len() == 11);
    assert("IBALGO"@.len() == 6);
    assert("MKT"@[0] == 'M' && "MOC"@[0] == 'M' && "MIT"@[0] == 'M' && "MTL"@[0] == 'M');
    assert("LMT"@[0] == 'L' && "LOC"@[0] == 'L' && "LIT"@[0] == 'L' && "STP"@[0] == 'S');
    assert("MKT"@[1] == 'K' && "MOC"@[1] == 'O' && "MIT"@[1] == 'I' && "MTL"@[1] == 'T');
    assert("LMT"@[1] == 'M' && "LOC"@[1] == 'O' && "LIT"@[1] == 'I');
}

/// An order has the type that its word stands for. An algorithmic order is a limit order where it
/// has a limit price other than zero; that and every other word stands for a market order.
pub proof fn orders_have_the_type_of_their_word(
    word: &str,
    limit_price: &Option<WireNumber>,
    order_type: OrderType,
)
    requires
        call_ensures(map_ib_order_type, (word, limit_price), order_type),
    ensures
        known_type_word(word@) ==> type_word(word@, order_type),
        word@ == "IBALGO"@ ==> order_type == (if limit_price matches Some(price) && !zero_bits(
            price.bits,
        ) {
            OrderType::Limit
        } else {
            OrderType::Market
        }),
        !known_type_word(word@) && word@ != "IBALGO"@ ==> order_type == OrderType::Market,
{
    type_words_differ();
    let mapped = ib_order_type_of(word@);
    if known_type_word(word@) {
        assert(mapped is Some);
        assert(type_word(word@, mapped->0));
    }
}

/// An order stays at work until its date where it has one, and otherwise for its lifetime.
pub proof fn orders_stay_for_their_lifetime(
    lifetime: OrderLifetime,
    date: &str,
    time_in_force: TimeInForce,
)
    requires
        call_ensures(map_time_in_force, (lifetime, date), time_in_force),
    ensures
        date@.len() > 0 ==> time_in_force == TimeInForce::Gtd,
        date@.len() == 0 ==> {
            &&& time_in_force == TimeInForce::Day <==> lifetime == OrderLifetime::Day
            &&& time_in_force == TimeInForce::Gtc <==> lifetime == OrderLifetime::GoodTilCanceled
            &&& time_in_force == TimeInForce::Ioc <==> lifetime == OrderLifetime::ImmediateOrCancel
            &&& time_in_force == TimeInForce::Gtd <==> lifetime == OrderLifetime::GoodTilDate
            &&& time_in_force == TimeInForce::AtTheOpen <==> lifetime == OrderLifetime::OnOpen
            &&& time_in_force == TimeInForce::Fok <==> lifetime == OrderLifetime::FillOrKill
        },
{
}

/// A status is closed exactly where the order was denied, rejected, canceled, expired or filled.
pub proof fn closed_statuses(status: &NautilusOrderStatus, closed: bool)
    requires
        call_ensures(NautilusOrderStatus::is_closed, (status,), closed),
    ensures
        closed <==> *status == NautilusOrderStatus::Denied || *status
            == NautilusOrderStatus::Rejected || *status == NautilusOrderStatus::Canceled || *status
            == NautilusOrderStatus::Expired || *status == NautilusOrderStatus::Filled,
{
}

} // verus!
