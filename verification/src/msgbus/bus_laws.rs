//! What a bus keeps and what each operation changes, as its callers see it.

use vstd::prelude::*;

use crate::msgbus::bus::{BusError, BusInputs, PublishStep, PyMessageBus, RequestStep};
use crate::msgbus::external::{ExternalAction, ExternalEvent, ExternalState};
use crate::msgbus::handler::PyMessage;

verus! {

/// Two buses have the same trader, instance and name, and both or neither has a backing.
pub open spec fn named_alike(a: PyMessageBus, b: PyMessageBus) -> bool {
    &&& forall|x: &str, y: &str|
        #![trigger
            call_ensures(PyMessageBus::py_trader_id, (&a,), x),
            call_ensures(PyMessageBus::py_trader_id, (&b,), y)]
        call_ensures(PyMessageBus::py_trader_id, (&a,), x) && call_ensures(
            PyMessageBus::py_trader_id,
            (&b,),
            y,
        ) ==> x@ == y@
    &&& forall|x: &str, y: &str|
        #![trigger
            call_ensures(PyMessageBus::py_instance_id, (&a,), x),
            call_ensures(PyMessageBus::py_instance_id, (&b,), y)]
        call_ensures(PyMessageBus::py_instance_id, (&a,), x) && call_ensures(
            PyMessageBus::py_instance_id,
            (&b,),
            y,
        ) ==> x@ == y@
    &&& forall|x: &str, y: &str|
        #![trigger
            call_ensures(PyMessageBus::py_name, (&a,), x),
            call_ensures(PyMessageBus::py_name, (&b,), y)]
        call_ensures(PyMessageBus::py_name, (&a,), x) && call_ensures(
            PyMessageBus::py_name,
            (&b,),
            y,
        ) ==> x@ == y@
    &&& forall|x: bool, y: bool|
        #![trigger
            call_ensures(PyMessageBus::py_has_backing, (&a,), x),
            call_ensures(PyMessageBus::py_has_backing, (&b,), y)]
        call_ensures(PyMessageBus::py_has_backing, (&a,), x) && call_ensures(
            PyMessageBus::py_has_backing,
            (&b,),
            y,
        ) ==> x == y
}

/// The second bus has counted so many more messages sent, requests, responses and messages
/// published than the first.
pub open spec fn counted_more(
    a: PyMessageBus,
    b: PyMessageBus,
    sent: int,
    requests: int,
    responses: int,
    published: int,
) -> bool {
    &&& forall|x: u64, y: u64|
        #![trigger
            call_ensures(PyMessageBus::py_sent_count, (&a,), x),
            call_ensures(PyMessageBus::py_sent_count, (&b,), y)]
        call_ensures(PyMessageBus::py_sent_count, (&a,), x) && call_ensures(
            PyMessageBus::py_sent_count,
            (&b,),
            y,
        ) ==> y == x + sent
    &&& forall|x: u64, y: u64|
        #![trigger
            call_ensures(PyMessageBus::py_req_count, (&a,), x),
            call_ensures(PyMessageBus::py_req_count, (&b,), y)]
        call_ensures(PyMessageBus::py_req_count, (&a,), x) && call_ensures(
            PyMessageBus::py_req_count,
            (&b,),
            y,
        ) ==> y == x + requests
    &&& forall|x: u64, y: u64|
        #![trigger
            call_ensures(PyMessageBus::py_res_count, (&a,), x),
            call_ensures(PyMessageBus::py_res_count, (&b,), y)]
        call_ensures(PyMessageBus::py_res_count, (&a,), x) && call_ensures(
            PyMessageBus::py_res_count,
            (&b,),
            y,
        ) ==> y == x + responses
    &&& forall|x: u64, y: u64|
        #![trigger
            call_ensures(PyMessageBus::py_pub_count, (&a,), x),
            call_ensures(PyMessageBus::py_pub_count, (&b,), y)]
        call_ensures(PyMessageBus::py_pub_count, (&a,), x) && call_ensures(
            PyMessageBus::py_pub_count,
            (&b,),
            y,
        ) ==> y == x + published
}

/// A request waits for its response on both buses or on neither.
pub open spec fn waits_alike(a: PyMessageBus, b: PyMessageBus, request_id: &str) -> bool {
    forall|x: bool, y: bool|
        #![trigger
            call_ensures(PyMessageBus::py_is_pending_request, (&a, request_id), x),
            call_ensures(PyMessageBus::py_is_pending_request, (&b, request_id), y)]
        call_ensures(PyMessageBus::py_is_pending_request, (&a, request_id), x) && call_ensures(
            PyMessageBus::py_is_pending_request,
            (&b, request_id),
            y,
        ) ==> x == y
}

/// A request waits for its response.
pub open spec fn waits(bus: PyMessageBus, request_id: &str) -> bool {
    forall|x: bool| #[trigger]
        call_ensures(PyMessageBus::py_is_pending_request, (&bus, request_id), x) ==> x
}

/// A request does not wait for a response.
pub open spec fn does_not_wait(bus: PyMessageBus, request_id: &str) -> bool {
    forall|x: bool| #[trigger]
        call_ensures(PyMessageBus::py_is_pending_request, (&bus, request_id), x) ==> !x
}

/// Two buses stream the same types.
pub open spec fn streams_alike(a: PyMessageBus, b: PyMessageBus) -> bool {
    forall|x: &Vec<u64>, y: &Vec<u64>|
        #![trigger
            call_ensures(PyMessageBus::py_streaming_types, (&a,), x),
            call_ensures(PyMessageBus::py_streaming_types, (&b,), y)]
        call_ensures(PyMessageBus::py_streaming_types, (&a,), x) && call_ensures(
            PyMessageBus::py_streaming_types,
            (&b,),
            y,
        ) ==> x@ == y@
}

/// Two buses publish every message to the world outside in the same way.
pub open spec fn publishes_alike(a: PyMessageBus, b: PyMessageBus) -> bool {
    &&& forall|x: (ExternalState, ExternalAction), y: (ExternalState, ExternalAction)|
        #![trigger
            call_ensures(PyMessageBus::publish_external, (&a,), x),
            call_ensures(PyMessageBus::publish_external, (&b,), y)]
        call_ensures(PyMessageBus::publish_external, (&a,), x) && call_ensures(
            PyMessageBus::publish_external,
            (&b,),
            y,
        ) ==> x == y
    &&& forall|
        message: u64,
        state: ExternalState,
        event: ExternalEvent,
        x: (ExternalState, ExternalAction),
        y: (ExternalState, ExternalAction),
    |
        #![trigger
            call_ensures(PyMessageBus::publish_external_next, (&a, message, state, event), x),
            call_ensures(PyMessageBus::publish_external_next, (&b, message, state, event), y)]
        call_ensures(PyMessageBus::publish_external_next, (&a, message, state, event), x)
            && call_ensures(
            PyMessageBus::publish_external_next,
            (&b, message, state, event),
            y,
        ) ==> x == y
}

/// A new bus has the trader that it was made with, the instance or a fresh one, and the name or
/// `MessageBus`; it has a backing where it was made with one, has counted nothing, waits for no
/// response and streams no type.
pub proof fn new_buses_are_as_they_were_asked_for(
    inputs: BusInputs,
    bus: PyMessageBus,
    trader_id: &str,
    instance_id: &str,
    name: &str,
    has_backing: bool,
    sent: u64,
    requests: u64,
    responses: u64,
    published: u64,
    request_id: &str,
    streaming: &Vec<u64>,
)
    requires
        call_ensures(PyMessageBus::py_new, (inputs,), bus),
        call_ensures(PyMessageBus::py_trader_id, (&bus,), trader_id),
        call_ensures(PyMessageBus::py_instance_id, (&bus,), instance_id),
        call_ensures(PyMessageBus::py_name, (&bus,), name),
        call_ensures(PyMessageBus::py_has_backing, (&bus,), has_backing),
        call_ensures(PyMessageBus::py_sent_count, (&bus,), sent),
        call_ensures(PyMessageBus::py_req_count, (&bus,), requests),
        call_ensures(PyMessageBus::py_res_count, (&bus,), responses),
        call_ensures(PyMessageBus::py_pub_count, (&bus,), published),
        call_ensures(PyMessageBus::py_streaming_types, (&bus,), streaming),
    ensures
        trader_id@ == inputs.trader_id@,
        inputs.instance_id matches Some(id) ==> instance_id@ == id@,
        inputs.instance_id is None ==> instance_id@ == inputs.fresh_instance_id@,
        inputs.name matches Some(given) ==> name@ == given@,
        inputs.name is None ==> name@ == "MessageBus"@,
        has_backing <==> inputs.backing is Some,
        sent == 0 && requests == 0 && responses == 0 && published == 0,
        does_not_wait(bus, request_id),
        streaming@.len() == 0,
{
}

/// Sending hands the message on and counts it, where the endpoint is one; nothing else changes.
pub proof fn sending_counts_the_message(
    bus: &mut PyMessageBus,
    before: PyMessageBus,
    after: PyMessageBus,
    endpoint_valid: bool,
    message: u64,
    r: Result<PyMessage, BusError>,
    request_id: &str,
)
    requires
        *bus == before,
        *final(bus) == after,
        before@.sent_count < u64::MAX,
        call_ensures(PyMessageBus::py_send, (bus, endpoint_valid, message), r),
    ensures
        endpoint_valid ==> r == Ok::<PyMessage, BusError>(PyMessage(message)),
        !endpoint_valid ==> r == Err::<PyMessage, BusError>(BusError::InvalidEndpoint),
        counted_more(
            before,
            after,
            if endpoint_valid {
                1
            } else {
                0
            },
            0,
            0,
            0,
        ),
        named_alike(before, after),
        waits_alike(before, after, request_id),
        streams_alike(before, after),
        publishes_alike(before, after),
{
}

/// A request is sent and counted where the endpoint is one and no request with its identity waits
/// for a response; from then on it waits for one if it has a callback. Otherwise nothing changes.
/// No other request is concerned.
pub proof fn requests_wait_for_their_responses(
    bus: &mut PyMessageBus,
    before: PyMessageBus,
    after: PyMessageBus,
    endpoint_valid: bool,
    request: u64,
    request_id: &str,
    callback: Option<u64>,
    r: Result<RequestStep, BusError>,
    waiting: bool,
    other: &str,
)
    requires
        *bus == before,
        *final(bus) == after,
        before@.req_count < u64::MAX,
        call_ensures(
            PyMessageBus::py_request,
            (bus, endpoint_valid, request, request_id, callback),
            r,
        ),
        call_ensures(PyMessageBus::py_is_pending_request, (&before, request_id), waiting),
        other@ != request_id@,
    ensures
        !endpoint_valid ==> r == Err::<RequestStep, BusError>(BusError::InvalidEndpoint),
        endpoint_valid && waiting ==> r == Ok::<RequestStep, BusError>(RequestStep::LogDuplicate),
        endpoint_valid && !waiting ==> r == Ok::<RequestStep, BusError>(
            RequestStep::Send(PyMessage(request)),
        ),
        counted_more(
            before,
            after,
            0,
            if endpoint_valid && !waiting {
                1
            } else {
                0
            },
            0,
            0,
        ),
        endpoint_valid && callback is Some ==> waits(after, request_id),
        !endpoint_valid || callback is None ==> waits_alike(before, after, request_id),
        waits_alike(before, after, other),
        named_alike(before, after),
        streams_alike(before, after),
        publishes_alike(before, after),
{
}

/// The response to a request gets the callback that the request was made with, and it gets it once.
pub proof fn responses_get_the_callback_of_their_request(
    requesting: &mut PyMessageBus,
    answering: &mut PyMessageBus,
    again: &mut PyMessageBus,
    request: u64,
    request_id: &str,
    callback: u64,
    first: Option<u64>,
    second: Option<u64>,
)
    requires
        call_ensures(
            PyMessageBus::py_request,
            (requesting, true, request, request_id, Some(callback)),
            Ok::<RequestStep, BusError>(RequestStep::Send(PyMessage(request))),
        ),
        *answering == *final(requesting),
        call_ensures(PyMessageBus::py_response, (answering, request_id), first),
        *again == *final(answering),
        call_ensures(PyMessageBus::py_response, (again, request_id), second),
    ensures
        first == Some(callback),
        second is None,
{
}

/// A response takes the callback of the request that it answers, where one waits, and that request
/// then waits no longer; nothing else changes.
pub proof fn responses_end_the_wait(
    bus: &mut PyMessageBus,
    before: PyMessageBus,
    after: PyMessageBus,
    request_id: &str,
    callback: Option<u64>,
    waiting: bool,
    other: &str,
)
    requires
        *bus == before,
        *final(bus) == after,
        call_ensures(PyMessageBus::py_response, (bus, request_id), callback),
        call_ensures(PyMessageBus::py_is_pending_request, (&before, request_id), waiting),
        other@ != request_id@,
    ensures
        callback is Some <==> waiting,
        does_not_wait(after, request_id),
        waits_alike(before, after, other),
        counted_more(before, after, 0, 0, 0, 0),
        named_alike(before, after),
        streams_alike(before, after),
        publishes_alike(before, after),
{
}

/// Sending leaves the callbacks of requests where they are.
pub proof fn sending_leaves_the_callbacks(
    bus: &mut PyMessageBus,
    before: &mut PyMessageBus,
    after: &mut PyMessageBus,
    endpoint_valid: bool,
    message: u64,
    r: Result<PyMessage, BusError>,
    request_id: &str,
    x: Option<u64>,
    y: Option<u64>,
)
    requires
        *before == *bus,
        *after == *final(bus),
        bus@.sent_count < u64::MAX,
        call_ensures(PyMessageBus::py_send, (bus, endpoint_valid, message), r),
        call_ensures(PyMessageBus::py_response, (before, request_id), x),
        call_ensures(PyMessageBus::py_response, (after, request_id), y),
    ensures
        x == y,
{
}

/// A request leaves the callbacks of other requests where they are, and its own where it waits
/// already.
pub proof fn requests_leave_the_callbacks_of_others(
    bus: &mut PyMessageBus,
    before: &mut PyMessageBus,
    after: &mut PyMessageBus,
    endpoint_valid: bool,
    request: u64,
    request_id: &str,
    callback: Option<u64>,
    r: Result<RequestStep, BusError>,
    other: &str,
    x: Option<u64>,
    y: Option<u64>,
)
    requires
        *before == *bus,
        *after == *final(bus),
        bus@.req_count < u64::MAX,
        call_ensures(
            PyMessageBus::py_request,
            (bus, endpoint_valid, request, request_id, callback),
            r,
        ),
        call_ensures(PyMessageBus::py_response, (before, other), x),
        call_ensures(PyMessageBus::py_response, (after, other), y),
    ensures
        other@ != request_id@ || x is Some ==> x == y,
{
}

/// A response leaves the callbacks of other requests where they are.
pub proof fn responses_leave_the_callbacks_of_others(
    bus: &mut PyMessageBus,
    before: &mut PyMessageBus,
    after: &mut PyMessageBus,
    request_id: &str,
    callback: Option<u64>,
    other: &str,
    x: Option<u64>,
    y: Option<u64>,
)
    requires
        *before == *bus,
        *after == *final(bus),
        call_ensures(PyMessageBus::py_response, (bus, request_id), callback),
        other@ != request_id@,
        call_ensures(PyMessageBus::py_response, (before, other), x),
        call_ensures(PyMessageBus::py_response, (after, other), y),
    ensures
        x == y,
{
}

/// Handling a response counts it and leaves everything else as it is.
pub proof fn handled_responses_are_counted(
    bus: &mut PyMessageBus,
    before: PyMessageBus,
    after: PyMessageBus,
    request_id: &str,
    asking: &mut PyMessageBus,
    asking_after: &mut PyMessageBus,
    x: Option<u64>,
    y: Option<u64>,
)
    requires
        *bus == before,
        *final(bus) == after,
        before@.res_count < u64::MAX,
        call_ensures(PyMessageBus::response_handled, (bus,), ()),
        *asking == before,
        *asking_after == after,
        call_ensures(PyMessageBus::py_response, (asking, request_id), x),
        call_ensures(PyMessageBus::py_response, (asking_after, request_id), y),
    ensures
        counted_more(before, after, 0, 0, 1, 0),
        named_alike(before, after),
        x == y,
        streams_alike(before, after),
        publishes_alike(before, after),
{
}

/// A message is published on the bus where the topic is one, and then to the world outside where
/// that was asked for.
pub proof fn publishing_hands_the_message_on(
    bus: &PyMessageBus,
    topic_valid: bool,
    message: u64,
    external_pub: bool,
    r: Result<PublishStep, BusError>,
)
    requires
        call_ensures(PyMessageBus::py_publish, (bus, topic_valid, message, external_pub), r),
    ensures
        topic_valid ==> (r matches Ok(step) && step.message == PyMessage(message) && step.external
            == external_pub),
        !topic_valid ==> r == Err::<PublishStep, BusError>(BusError::InvalidTopic),
{
}

/// Having published a message counts it and leaves everything else as it is.
pub proof fn published_messages_are_counted(
    bus: &mut PyMessageBus,
    before: PyMessageBus,
    after: PyMessageBus,
    request_id: &str,
    asking: &mut PyMessageBus,
    asking_after: &mut PyMessageBus,
    x: Option<u64>,
    y: Option<u64>,
)
    requires
        *bus == before,
        *final(bus) == after,
        before@.pub_count < u64::MAX,
        call_ensures(PyMessageBus::message_published, (bus,), ()),
        *asking == before,
        *asking_after == after,
        call_ensures(PyMessageBus::py_response, (asking, request_id), x),
        call_ensures(PyMessageBus::py_response, (asking_after, request_id), y),
    ensures
        counted_more(before, after, 0, 0, 0, 1),
        named_alike(before, after),
        x == y,
        streams_alike(before, after),
        publishes_alike(before, after),
{
}

/// A type that is registered for streaming is listed after those that were registered before, and
/// is streamed from then on as they are; nothing else changes.
pub proof fn registered_types_are_streamed(
    bus: &mut PyMessageBus,
    before: PyMessageBus,
    after: PyMessageBus,
    cls: u64,
    other: u64,
    streamed_before: bool,
    streamed_after: bool,
    types_before: &Vec<u64>,
    types_after: &Vec<u64>,
    request_id: &str,
    asking: &mut PyMessageBus,
    asking_after: &mut PyMessageBus,
    x: Option<u64>,
    y: Option<u64>,
)
    requires
        *bus == before,
        *final(bus) == after,
        call_ensures(PyMessageBus::py_add_streaming_type, (bus, cls), ()),
        call_ensures(PyMessageBus::py_is_streaming_type, (&before, other), streamed_before),
        call_ensures(PyMessageBus::py_is_streaming_type, (&after, other), streamed_after),
        call_ensures(PyMessageBus::py_streaming_types, (&before,), types_before),
        call_ensures(PyMessageBus::py_streaming_types, (&after,), types_after),
        *asking == before,
        *asking_after == after,
        call_ensures(PyMessageBus::py_response, (asking, request_id), x),
        call_ensures(PyMessageBus::py_response, (asking_after, request_id), y),
    ensures
        types_after@ == types_before@ + seq![cls],
        streamed_after <==> streamed_before || other == cls,
        counted_more(before, after, 0, 0, 0, 0),
        named_alike(before, after),
        x == y,
        publishes_alike(before, after),
{
    assert(types_after@ =~= types_before@ + seq![cls]);
    let types = types_before@;
    let more = types_after@;
    if types.contains(other) {
        let i = choose|i: int| 0 <= i < types.len() && types[i] == other;
        assert(more[i] == other);
    }
    if other == cls {
        assert(more[types.len() as int] == other);
    }
    if more.contains(other) {
        let i = choose|i: int| 0 <= i < more.len() && more[i] == other;
        if i < types.len() {
            assert(types[i] == other);
        }
    }
}

/// A type is streamed exactly where it is among the types that are registered for it.
pub proof fn streamed_types_are_the_registered_ones(
    bus: &PyMessageBus,
    cls: u64,
    streamed: bool,
    types: &Vec<u64>,
)
    requires
        call_ensures(PyMessageBus::py_is_streaming_type, (bus, cls), streamed),
        call_ensures(PyMessageBus::py_streaming_types, (bus,), types),
    ensures
        streamed <==> types@.contains(cls),
{
}

/// Adding a listener changes nothing but where messages are published to.
pub proof fn adding_a_listener_changes_nothing_else(
    bus: &mut PyMessageBus,
    before: PyMessageBus,
    after: PyMessageBus,
    listener: u64,
    request_id: &str,
    asking: &mut PyMessageBus,
    asking_after: &mut PyMessageBus,
    x: Option<u64>,
    y: Option<u64>,
)
    requires
        *bus == before,
        *final(bus) == after,
        call_ensures(PyMessageBus::py_add_listener, (bus, listener), ()),
        *asking == before,
        *asking_after == after,
        call_ensures(PyMessageBus::py_response, (asking, request_id), x),
        call_ensures(PyMessageBus::py_response, (asking_after, request_id), y),
    ensures
        counted_more(before, after, 0, 0, 0, 0),
        named_alike(before, after),
        x == y,
        streams_alike(before, after),
{
}

/// A bus that is disposed of waits for no response and streams no type; its counts and its name
/// stay.
pub proof fn disposed_buses_forget(
    bus: &mut PyMessageBus,
    before: PyMessageBus,
    after: PyMessageBus,
    backing: Option<u64>,
    request_id: &str,
    types: &Vec<u64>,
)
    requires
        *bus == before,
        *final(bus) == after,
        call_ensures(PyMessageBus::py_dispose, (bus,), backing),
        call_ensures(PyMessageBus::py_streaming_types, (&after,), types),
    ensures
        does_not_wait(after, request_id),
        types@.len() == 0,
        counted_more(before, after, 0, 0, 0, 0),
        named_alike(before, after),
{
}

} // verus!
