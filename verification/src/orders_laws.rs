//! What the broker's words for orders and fills say.

use vstd::prelude::*;

use crate::orders::{
    status_text_determines_the_status, Error, ExecutionFilterSide, ExecutionSide, OrderStatusKind,
};

verus! {

/// The word for a status: each known status has its own, and an unknown one keeps the word that it
/// came with.
pub open spec fn worded(kind: OrderStatusKind, word: Seq<char>) -> bool {
    match kind {
        OrderStatusKind::ApiPending => word == "ApiPending"@,
        OrderStatusKind::PendingSubmit => word == "PendingSubmit"@,
        OrderStatusKind::PendingCancel => word == "PendingCancel"@,
        OrderStatusKind::PreSubmitted => word == "PreSubmitted"@,
        OrderStatusKind::Submitted => word == "Submitted"@,
        OrderStatusKind::ApiCancelled => word == "ApiCancelled"@,
        OrderStatusKind::Cancelled => word == "Cancelled"@,
        OrderStatusKind::Filled => word == "Filled"@,
        OrderStatusKind::Inactive => word == "Inactive"@,
        OrderStatusKind::Unknown(raw) => word == raw@,
    }
}

/// The words of the broker for a status, for display and on the wire are one and the same.
pub proof fn statuses_keep_their_words(
    kind: &OrderStatusKind,
    word: &str,
    shown: String,
    field: String,
)
    requires
        call_ensures(OrderStatusKind::as_str, (kind,), word),
        call_ensures(OrderStatusKind::to_string, (kind,), shown),
        call_ensures(OrderStatusKind::to_field, (kind,), field),
    ensures
        worded(*kind, word@),
        shown@ == word@,
        field@ == word@,
{
}

/// Reading a word gives the status with that word, and one outside the vocabulary is kept; only the
/// empty word is refused.
pub proof fn words_are_read_back(word: &str, r: Result<OrderStatusKind, Error>)
    requires
        call_ensures(OrderStatusKind::from_str, (word,), r),
    ensures
        r is Err <==> word@.len() == 0,
        r matches Ok(kind) ==> worded(kind, word@),
        r matches Ok(OrderStatusKind::Unknown(raw)) ==> !(word@ == "ApiPending"@ || word@
            == "PendingSubmit"@ || word@ == "PendingCancel"@ || word@ == "PreSubmitted"@ || word@
            == "Submitted"@ || word@ == "ApiCancelled"@ || word@ == "Cancelled"@ || word@
            == "Filled"@ || word@ == "Inactive"@),
        r matches Err(Error::Parse(position, text, expected)) ==> position == 0 && text@ == word@
            && expected@ == "OrderStatusKind"@,
{
}

/// Writing a status and reading the word again gives the status.
pub proof fn written_statuses_are_read_back(
    kind: &OrderStatusKind,
    word: &str,
    r: Result<OrderStatusKind, Error>,
)
    requires
        call_ensures(OrderStatusKind::as_str, (kind,), word),
        call_ensures(OrderStatusKind::from_str, (word,), r),
        kind is Unknown ==> kind.canonical(),
    ensures
        r matches Ok(again) && (if kind is Unknown {
            again matches OrderStatusKind::Unknown(raw) && raw@ == word@
        } else {
            again == *kind
        }),
{
    reveal_strlit("ApiPending");
    reveal_strlit("PendingSubmit");
    reveal_strlit("PendingCancel");
    reveal_strlit("PreSubmitted");
    reveal_strlit("Submitted");
    reveal_strlit("ApiCancelled");
    reveal_strlit("Cancelled");
    reveal_strlit("Filled");
    reveal_strlit("Inactive");
    assert("ApiPending"@.len() == 10 && "PendingSubmit"@.len() == 13 && "PendingCancel"@.len() == 13);
    assert("PreSubmitted"@.len() == 12 && "Submitted"@.len() == 9 && "ApiCancelled"@.len() == 12);
    assert("Cancelled"@.len() == 9 && "Filled"@.len() == 6 && "Inactive"@.len() == 8);
    if r is Ok {
        status_text_determines_the_status(*kind, r->Ok_0);
    }
}

/// An order is at work from its submission until it comes to its end; one that is not yet with the
/// broker, or whose status is not known, is neither.
pub proof fn orders_work_until_they_end(kind: &OrderStatusKind, active: bool, terminal: bool)
    requires
        call_ensures(OrderStatusKind::is_active, (kind,), active),
        call_ensures(OrderStatusKind::is_terminal, (kind,), terminal),
    ensures
        active <==> kind is PendingSubmit || kind is PendingCancel || kind is PreSubmitted || kind
            is Submitted,
        terminal <==> kind is ApiCancelled || kind is Cancelled || kind is Filled || kind
            is Inactive,
{
}

/// A bought fill is `BOT` and a sold one `SLD`, however it is asked for.
pub proof fn fills_are_worded_by_their_side(
    side: &ExecutionSide,
    word: &'static str,
    shown: String,
    field: String,
)
    requires
        call_ensures(ExecutionSide::as_str, (side,), word),
        call_ensures(ExecutionSide::to_string, (side,), shown),
        call_ensures(ExecutionSide::to_field, (side,), field),
    ensures
        side is Bought ==> word@ == "BOT"@,
        side is Sold ==> word@ == "SLD"@,
        shown@ == word@,
        field@ == word@,
{
}

/// `BOT` is read as bought and `SLD` as sold; nothing else is read.
pub proof fn fill_sides_are_read(word: &str, r: Result<ExecutionSide, Error>)
    requires
        call_ensures(ExecutionSide::from_str, (word,), r),
    ensures
        word@ == "BOT"@ <==> r == Ok::<ExecutionSide, Error>(ExecutionSide::Bought),
        word@ == "SLD"@ <==> r == Ok::<ExecutionSide, Error>(ExecutionSide::Sold),
        r matches Err(Error::Parse(position, text, expected)) ==> position == 0 && text@ == word@
            && expected@ == "ExecutionSide"@,
{
    reveal_strlit("BOT");
    reveal_strlit("SLD");
    assert("BOT"@[0] == 'B' && "SLD"@[0] == 'S');
}

/// A request for buys says `BUY` and one for sells `SELL`, however it is asked for.
pub proof fn filters_are_worded_by_their_side(
    side: &ExecutionFilterSide,
    word: &'static str,
    shown: String,
    field: String,
)
    requires
        call_ensures(ExecutionFilterSide::as_str, (side,), word),
        call_ensures(ExecutionFilterSide::to_string, (side,), shown),
        call_ensures(ExecutionFilterSide::to_field, (side,), field),
    ensures
        side is Buy ==> word@ == "BUY"@,
        side is Sell ==> word@ == "SELL"@,
        shown@ == word@,
        field@ == word@,
{
}

/// `BUY` is read as a buy and `SELL` as a sell; nothing else is read.
pub proof fn filter_sides_are_read(word: &str, r: Result<ExecutionFilterSide, Error>)
    requires
        call_ensures(ExecutionFilterSide::from_str, (word,), r),
    ensures
        word@ == "BUY"@ <==> r == Ok::<ExecutionFilterSide, Error>(ExecutionFilterSide::Buy),
        word@ == "SELL"@ <==> r == Ok::<ExecutionFilterSide, Error>(ExecutionFilterSide::Sell),
        r matches Err(Error::Parse(position, text, expected)) ==> position == 0 && text@ == word@
            && expected@ == "ExecutionFilterSide"@,
{
    reveal_strlit("BUY");
    reveal_strlit("SELL");
    assert("BUY"@[0] == 'B' && "SELL"@[0] == 'S');
}

} // verus!
