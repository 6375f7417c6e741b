//! What calendar requests draw in.

use vstd::prelude::*;

use crate::wsh::{AutoFill, WshEventData, WshMetadata};

verus! {

/// A request draws in related securities where it asks for any kind of them, and by default it asks
/// for none.
pub proof fn requests_draw_in_what_they_ask_for(
    fill: &AutoFill,
    specified: bool,
    default: AutoFill,
    by_default: bool,
)
    requires
        call_ensures(AutoFill::is_specified, (fill,), specified),
        call_ensures(AutoFill::default, (), default),
        call_ensures(AutoFill::is_specified, (&default,), by_default),
    ensures
        fill.competitors ==> specified,
        fill.portfolio ==> specified,
        fill.watchlist ==> specified,
        !fill.competitors && !fill.portfolio && !fill.watchlist ==> !specified,
        !by_default,
{
}

/// Calendar data is copied as it is.
pub proof fn calendar_data_is_copied(
    metadata: &WshMetadata,
    metadata_copy: WshMetadata,
    events: &WshEventData,
    events_copy: WshEventData,
)
    requires
        call_ensures(WshMetadata::clone, (metadata,), metadata_copy),
        call_ensures(WshEventData::clone, (events,), events_copy),
    ensures
        metadata_copy.data_json@ == metadata.data_json@,
        events_copy.data_json@ == events.data_json@,
{
}

} // verus!
