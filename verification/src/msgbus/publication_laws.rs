//! What a bus publishes to the world outside, from the parts that it was made with.

use vstd::prelude::*;

use crate::msgbus::bus::{BusInputs, PyMessageBus};
use crate::msgbus::bus_laws::publishes_alike;
use crate::msgbus::external::{
    external_next, external_start, ExternalAction, ExternalEvent, ExternalState, RouteView,
};

verus! {

/// What the world outside makes of one message.
pub struct Outside {
    /// The filters that filter the message out.
    pub filtering: Set<u64>,
    /// The message is bytes.
    pub is_bytes: bool,
    /// The bytes that each serializer makes of the message.
    pub bytes_of: spec_fn(u64) -> u64,
    /// The backings and listeners that are closed.
    pub closed: Set<u64>,
}

/// How the world outside replies to what it is asked.
pub open spec fn replies(outside: Outside, action: ExternalAction) -> ExternalEvent {
    match action {
        ExternalAction::AskFiltered { filter } => ExternalEvent::Answer(
            outside.filtering.contains(filter),
        ),
        ExternalAction::AskBytes => ExternalEvent::Answer(outside.is_bytes),
        ExternalAction::Serialize { serializer } => ExternalEvent::Serialized(
            (outside.bytes_of)(serializer),
        ),
        ExternalAction::AskClosed { sink } => ExternalEvent::Answer(outside.closed.contains(sink)),
        ExternalAction::Publish { sink, payload } => ExternalEvent::Published,
        ExternalAction::Finish => ExternalEvent::Published,
    }
}

/// Step `i + 1` is what the bus asks for after the reply to step `i`.
pub open spec fn follows(
    bus: PyMessageBus,
    message: u64,
    outside: Outside,
    run: Seq<(ExternalState, ExternalAction)>,
    i: int,
) -> bool {
    run[i].1 != ExternalAction::Finish && call_ensures(
        PyMessageBus::publish_external_next,
        (&bus, message, run[i].0, replies(outside, run[i].1)),
        run[i + 1],
    )
}

/// What the bus asks for when a message is published, step by step.
pub open spec fn publishes(
    bus: PyMessageBus,
    message: u64,
    outside: Outside,
    run: Seq<(ExternalState, ExternalAction)>,
) -> bool {
    &&& run.len() > 0
    &&& call_ensures(PyMessageBus::publish_external, (&bus,), run[0])
    &&& forall|i: int|
        0 <= i < run.len() - 1 ==> #[trigger] follows(bus, message, outside, run, i)
}

/// What is published in a run, and through what, in order.
pub open spec fn published_in(run: Seq<(ExternalState, ExternalAction)>) -> Seq<(u64, u64)>
    decreases run.len(),
{
    if run.len() == 0 {
        Seq::empty()
    } else {
        let before = published_in(run.drop_last());
        match run.last().1 {
            ExternalAction::Publish { sink, payload } => before.push((sink, payload)),
            _ => before,
        }
    }
}

/// The serializers that are run, in order.
pub open spec fn serialized_in(run: Seq<(ExternalState, ExternalAction)>) -> Seq<u64>
    decreases run.len(),
{
    if run.len() == 0 {
        Seq::empty()
    } else {
        let before = serialized_in(run.drop_last());
        match run.last().1 {
            ExternalAction::Serialize { serializer } => before.push(serializer),
            _ => before,
        }
    }
}

/// The same bytes for each of the sinks that is open.
pub open spec fn to_open_ones(sinks: Seq<u64>, outside: Outside, payload: u64) -> Seq<(u64, u64)>
    decreases sinks.len(),
{
    if sinks.len() == 0 {
        Seq::empty()
    } else if outside.closed.contains(sinks.last()) {
        to_open_ones(sinks.drop_last(), outside, payload)
    } else {
        to_open_ones(sinks.drop_last(), outside, payload).push((sinks.last(), payload))
    }
}

/// The message is filtered out by the filter that the bus was made with.
pub open spec fn is_filtered(inputs: BusInputs, outside: Outside) -> bool {
    inputs.types_filter is Some && outside.filtering.contains(inputs.types_filter->0)
}

/// What has been published in a run so far, told from where it stands.
spec fn so_far(
    sinks: Seq<u64>,
    outside: Outside,
    payload: u64,
    backings: int,
    step: (ExternalState, ExternalAction),
    published: Seq<(u64, u64)>,
) -> bool {
    match step.0 {
        ExternalState::AskingBacking { payload: p } => {
            &&& p == payload && backings == 1
            &&& step.1 == (ExternalAction::AskClosed { sink: sinks[0] })
            &&& published == Seq::<(u64, u64)>::empty()
        },
        ExternalState::SendingBacking { payload: p } => {
            &&& p == payload && backings == 1
            &&& step.1 == (ExternalAction::Publish { sink: sinks[0], payload })
            &&& published == to_open_ones(sinks.take(1), outside, payload)
        },
        ExternalState::AskingListener { index, payload: p } => {
            &&& p == payload && backings + index < sinks.len()
            &&& step.1 == (ExternalAction::AskClosed { sink: sinks[backings + index] })
            &&& published == to_open_ones(sinks.take(backings + index), outside, payload)
        },
        ExternalState::SendingListener { index, payload: p } => {
            &&& p == payload && backings + index < sinks.len()
            &&& step.1 == (ExternalAction::Publish { sink: sinks[backings + index], payload })
            &&& published == to_open_ones(sinks.take(backings + index + 1), outside, payload)
        },
        ExternalState::Finished => {
            &&& step.1 == ExternalAction::Finish
            &&& published == to_open_ones(sinks, outside, payload)
        },
        _ => false,
    }
}

/// The bytes that a message goes out as; `None` where it goes nowhere.
pub open spec fn bytes_out(inputs: BusInputs, outside: Outside, message: u64) -> Option<u64> {
    if is_filtered(inputs, outside) {
        None
    } else if outside.is_bytes {
        Some(message)
    } else {
        match inputs.serializer {
            Some(serializer) => Some((outside.bytes_of)(serializer)),
            None => None,
        }
    }
}

/// The backing that a bus was made with and then its listeners.
pub open spec fn sinks_of(inputs: BusInputs, listeners: Seq<u64>) -> Seq<u64> {
    match inputs.backing {
        Some(backing) => seq![backing] + listeners,
        None => listeners,
    }
}

/// The serializers that a message needs: that of the bus, once, unless the message is bytes already
/// or is filtered out.
pub open spec fn serializers_needed(inputs: BusInputs, outside: Outside) -> Seq<u64> {
    if is_filtered(inputs, outside) || outside.is_bytes || inputs.serializer is None {
        Seq::empty()
    } else {
        seq![inputs.serializer->0]
    }
}

/// A route is made of these parts.
spec fn routed(route: RouteView, inputs: BusInputs, listeners: Seq<u64>) -> bool {
    &&& route.types_filter == inputs.types_filter
    &&& route.serializer == inputs.serializer
    &&& route.backing == inputs.backing
    &&& route.listeners == listeners
}

/// Where a run stands, and what it has done.
spec fn stands(
    inputs: BusInputs,
    listeners: Seq<u64>,
    outside: Outside,
    message: u64,
    step: (ExternalState, ExternalAction),
    published: Seq<(u64, u64)>,
    serialized: Seq<u64>,
) -> bool {
    match step.0 {
        ExternalState::Filtering => {
            &&& inputs.types_filter is Some
            &&& step.1 == (ExternalAction::AskFiltered { filter: inputs.types_filter->0 })
            &&& published == Seq::<(u64, u64)>::empty() && serialized == Seq::<u64>::empty()
        },
        ExternalState::Inspecting => {
            &&& !is_filtered(inputs, outside)
            &&& step.1 == ExternalAction::AskBytes
            &&& published == Seq::<(u64, u64)>::empty() && serialized == Seq::<u64>::empty()
        },
        ExternalState::Serializing => {
            &&& !is_filtered(inputs, outside) && !outside.is_bytes && inputs.serializer is Some
            &&& step.1 == (ExternalAction::Serialize { serializer: inputs.serializer->0 })
            &&& published == Seq::<(u64, u64)>::empty() && serialized == serializers_needed(
                inputs,
                outside,
            )
        },
        _ => {
            &&& serialized == serializers_needed(inputs, outside)
            &&& match bytes_out(inputs, outside, message) {
                Some(payload) => so_far(
                    sinks_of(inputs, listeners),
                    outside,
                    payload,
                    if inputs.backing is Some {
                        1
                    } else {
                        0
                    },
                    step,
                    published,
                ),
                None => step == (ExternalState::Finished, ExternalAction::Finish) && published
                    == Seq::<(u64, u64)>::empty(),
            }
        },
    }
}

proof fn one_more_open_one(sinks: Seq<u64>, outside: Outside, payload: u64, n: int)
    requires
        0 <= n < sinks.len(),
    ensures
        to_open_ones(sinks.take(n + 1), outside, payload) == (if outside.closed.contains(
            sinks[n],
        ) {
            to_open_ones(sinks.take(n), outside, payload)
        } else {
            to_open_ones(sinks.take(n), outside, payload).push((sinks[n], payload))
        }),
{
    assert(sinks.take(n + 1).drop_last() =~= sinks.take(n));
    assert(sinks.take(n + 1).last() == sinks[n]);
}

/// What a step adds to what has been published.
spec fn with_publication(published: Seq<(u64, u64)>, action: ExternalAction) -> Seq<(u64, u64)> {
    match action {
        ExternalAction::Publish { sink, payload } => published.push((sink, payload)),
        _ => published,
    }
}

/// What a step adds to what has been serialized.
spec fn with_serializer(serialized: Seq<u64>, action: ExternalAction) -> Seq<u64> {
    match action {
        ExternalAction::Serialize { serializer } => serialized.push(serializer),
        _ => serialized,
    }
}

#[verifier::rlimit(60)]
#[verifier::spinoff_prover]
proof fn steps_go_on(
    route: RouteView,
    inputs: BusInputs,
    listeners: Seq<u64>,
    message: u64,
    outside: Outside,
    step: (ExternalState, ExternalAction),
    published: Seq<(u64, u64)>,
    serialized: Seq<u64>,
)
    requires
        routed(route, inputs, listeners),
        listeners.len() <= usize::MAX,
        step.1 != ExternalAction::Finish,
        stands(inputs, listeners, outside, message, step, published, serialized),
    ensures
        ({
            let next = external_next(route, message, step.0, replies(outside, step.1));
            &&& stands(
                inputs,
                listeners,
                outside,
                message,
                next,
                with_publication(published, next.1),
                with_serializer(serialized, next.1),
            )
            &&& 0 <= left_to_do(listeners, next.0) < left_to_do(listeners, step.0)
        }),
{
    let next = external_next(route, message, step.0, replies(outside, step.1));
    let sinks = sinks_of(inputs, listeners);
    let backings: int = if inputs.backing is Some {
        1
    } else {
        0
    };
    assert(sinks.len() == backings + listeners.len());
    assert(sinks.take(sinks.len() as int) =~= sinks);
    assert(sinks.take(0) =~= Seq::empty());
    assert(to_open_ones(sinks.take(0), outside, message) =~= Seq::empty());
    match step.0 {
        ExternalState::Filtering => {},
        ExternalState::Inspecting => {
            if outside.is_bytes {
                assert(bytes_out(inputs, outside, message) == Some(message));
                if inputs.backing is None && listeners.len() > 0 {
                    assert(sinks[0] == listeners[0]);
                }
            } else if inputs.serializer is Some {
                assert(serialized.push(inputs.serializer->0) =~= seq![inputs.serializer->0]);
            }
        },
        ExternalState::Serializing => {
            let payload = (outside.bytes_of)(inputs.serializer->0);
            assert(bytes_out(inputs, outside, message) == Some(payload));
            assert(to_open_ones(sinks.take(0), outside, payload) =~= Seq::empty());
            if inputs.backing is None && listeners.len() > 0 {
                assert(sinks[0] == listeners[0]);
            }
        },
        ExternalState::AskingBacking { payload } => {
            one_more_open_one(sinks, outside, payload, 0);
            assert(to_open_ones(sinks.take(0), outside, payload) =~= Seq::empty());
            if listeners.len() > 0 {
                assert(sinks[1] == listeners[0]);
            }
        },
        ExternalState::SendingBacking { payload } => {
            if listeners.len() > 0 {
                assert(sinks[1] == listeners[0]);
            }
        },
        ExternalState::AskingListener { index, payload } => {
            one_more_open_one(sinks, outside, payload, backings + index);
            assert(sinks[backings + index] == listeners[index as int]);
            if index + 1 < listeners.len() {
                assert(sinks[backings + index + 1] == listeners[index + 1]);
            }
        },
        ExternalState::SendingListener { index, payload } => {
            if index + 1 < listeners.len() {
                assert(sinks[backings + index + 1] == listeners[index + 1]);
            }
        },
        ExternalState::Finished => {},
    }
}

/// How much is left to do at most.
spec fn left_to_do(listeners: Seq<u64>, state: ExternalState) -> int {
    let n = listeners.len() as int;
    match state {
        ExternalState::Filtering => 2 * n + 5,
        ExternalState::Inspecting => 2 * n + 4,
        ExternalState::Serializing => 2 * n + 3,
        ExternalState::AskingBacking { .. } => 2 * n + 2,
        ExternalState::SendingBacking { .. } => 2 * n + 1,
        ExternalState::AskingListener { index, .. } => 2 * (n - index),
        ExternalState::SendingListener { index, .. } => 2 * (n - index) - 1,
        ExternalState::Finished => 0,
    }
}

proof fn runs_stand_where_they_should(
    bus: PyMessageBus,
    inputs: BusInputs,
    listeners: Seq<u64>,
    message: u64,
    outside: Outside,
    run: Seq<(ExternalState, ExternalAction)>,
)
    requires
        routed(bus@.route, inputs, listeners),
        listeners.len() <= usize::MAX,
        publishes(bus, message, outside, run),
    ensures
        stands(
            inputs,
            listeners,
            outside,
            message,
            run.last(),
            published_in(run),
            serialized_in(run),
        ),
        run.len() + left_to_do(listeners, run.last().0) <= 2 * listeners.len() + 6,
        left_to_do(listeners, run.last().0) >= 0,
    decreases run.len(),
{
    let before = run.drop_last();
    if run.len() == 1 {
        assert(before =~= Seq::empty());
        assert(published_in(before) =~= Seq::empty());
        assert(serialized_in(before) =~= Seq::empty());
        assert(run.last() == run[0]);
        assert(run.last() == external_start(bus@.route));
    } else {
        assert forall|i: int| 0 <= i < before.len() - 1 implies #[trigger] follows(
            bus,
            message,
            outside,
            before,
            i,
        ) by {
            assert(follows(bus, message, outside, run, i));
        }
        runs_stand_where_they_should(bus, inputs, listeners, message, outside, before);
        assert(follows(bus, message, outside, run, run.len() - 2));
        let step = before.last();
        assert(run.last() == external_next(
            bus@.route,
            message,
            step.0,
            replies(outside, step.1),
        ));
        steps_go_on(
            bus@.route,
            inputs,
            listeners,
            message,
            outside,
            step,
            published_in(before),
            serialized_in(before),
        );
    }
}

/// Adding listeners one after the other to a new bus routes it to them, in the order in which they
/// were added.
proof fn made_buses_are_routed(
    inputs: BusInputs,
    listeners: Seq<u64>,
    adding: Seq<&mut PyMessageBus>,
    buses: Seq<PyMessageBus>,
)
    requires
        buses.len() == listeners.len() + 1,
        adding.len() == listeners.len(),
        call_ensures(PyMessageBus::py_new, (inputs,), buses[0]),
        forall|i: int|
            0 <= i < listeners.len() ==> call_ensures(
                PyMessageBus::py_add_listener,
                (#[trigger] adding[i], listeners[i]),
                (),
            ) && *adding[i] == buses[i] && *final(adding[i]) == buses[i + 1],
    ensures
        routed(buses.last()@.route, inputs, listeners),
    decreases listeners.len(),
{
    if listeners.len() > 0 {
        let last = listeners.len() - 1;
        made_buses_are_routed(inputs, listeners.drop_last(), adding.drop_last(), buses.drop_last());
        assert(call_ensures(PyMessageBus::py_add_listener, (adding[last], listeners[last]), ()));
        assert(listeners =~= listeners.drop_last().push(listeners[last]));
    } else {
        assert(listeners =~= Seq::empty());
    }
}

/// A message goes, as bytes, to the backing that the bus was made with and then to the listeners
/// that were added to it, in the order in which they were added, each once and the closed ones left
/// out; it goes to nothing else. The bytes are the message itself where it is bytes, and otherwise
/// what the serializer that the bus was made with makes of it, which is run once; a message that
/// the filter of the bus filters out, or that cannot become bytes, goes nowhere and is not
/// serialized. Publishing comes to an end.
pub proof fn messages_go_where_the_bus_was_made_to_send_them(
    inputs: BusInputs,
    listeners: Seq<u64>,
    adding: Seq<&mut PyMessageBus>,
    buses: Seq<PyMessageBus>,
    message: u64,
    outside: Outside,
    run: Seq<(ExternalState, ExternalAction)>,
)
    requires
        listeners.len() <= usize::MAX,
        buses.len() == listeners.len() + 1,
        adding.len() == listeners.len(),
        call_ensures(PyMessageBus::py_new, (inputs,), buses[0]),
        forall|i: int|
            0 <= i < listeners.len() ==> call_ensures(
                PyMessageBus::py_add_listener,
                (#[trigger] adding[i], listeners[i]),
                (),
            ) && *adding[i] == buses[i] && *final(adding[i]) == buses[i + 1],
        publishes(buses.last(), message, outside, run),
    ensures
        run.len() <= 2 * listeners.len() + 6,
        run.last().1 == ExternalAction::Finish ==> published_in(run) == (match bytes_out(
            inputs,
            outside,
            message,
        ) {
            Some(payload) => to_open_ones(sinks_of(inputs, listeners), outside, payload),
            None => Seq::empty(),
        }),
        run.last().1 == ExternalAction::Finish ==> serialized_in(run) == serializers_needed(
            inputs,
            outside,
        ),
{
    made_buses_are_routed(inputs, listeners, adding, buses);
    runs_stand_where_they_should(buses.last(), inputs, listeners, message, outside, run);
    if bytes_out(inputs, outside, message) is None {
        assert(published_in(run) =~= Seq::empty());
    }
}

/// A bus that is made with a serializer, an open backing and no filter sends a message that is not
/// bytes through the serializer once and its bytes to the backing.
pub proof fn new_buses_serialize_for_their_backing(
    inputs: BusInputs,
    bus: PyMessageBus,
    serializer: u64,
    backing: u64,
    message: u64,
    outside: Outside,
    run: Seq<(ExternalState, ExternalAction)>,
)
    requires
        call_ensures(PyMessageBus::py_new, (inputs,), bus),
        inputs.serializer == Some(serializer),
        inputs.backing == Some(backing),
        inputs.types_filter is None,
        !outside.is_bytes,
        !outside.closed.contains(backing),
        publishes(bus, message, outside, run),
        run.last().1 == ExternalAction::Finish,
    ensures
        serialized_in(run) == seq![serializer],
        published_in(run) == seq![(backing, (outside.bytes_of)(serializer))],
{
    made_buses_are_routed(inputs, Seq::empty(), Seq::empty(), seq![bus]);
    runs_stand_where_they_should(bus, inputs, Seq::empty(), message, outside, run);
    let sinks = sinks_of(inputs, Seq::empty());
    assert(sinks =~= seq![backing]);
    one_more_open_one(sinks, outside, (outside.bytes_of)(serializer), 0);
    assert(sinks.take(1) =~= sinks);
    assert(sinks.take(0) =~= Seq::empty());
}

/// A bus that is disposed of gives back the backing that it was made with, and then publishes as it
/// did when it was new: whatever listeners were added to it, they get nothing more.
pub proof fn disposed_buses_publish_as_new_ones(
    inputs: BusInputs,
    listeners: Seq<u64>,
    adding: Seq<&mut PyMessageBus>,
    buses: Seq<PyMessageBus>,
    disposing: &mut PyMessageBus,
    disposed: PyMessageBus,
    backing: Option<u64>,
)
    requires
        buses.len() == listeners.len() + 1,
        adding.len() == listeners.len(),
        call_ensures(PyMessageBus::py_new, (inputs,), buses[0]),
        forall|i: int|
            0 <= i < listeners.len() ==> call_ensures(
                PyMessageBus::py_add_listener,
                (#[trigger] adding[i], listeners[i]),
                (),
            ) && *adding[i] == buses[i] && *final(adding[i]) == buses[i + 1],
        *disposing == buses.last(),
        call_ensures(PyMessageBus::py_dispose, (disposing,), backing),
        *final(disposing) == disposed,
    ensures
        backing == inputs.backing,
        publishes_alike(buses[0], disposed),
{
    made_buses_are_routed(inputs, listeners, adding, buses);
}

/// A reply to another question than the last one ends publishing.
pub proof fn replies_out_of_turn_end_publishing(
    bus: &PyMessageBus,
    message: u64,
    state: ExternalState,
    event: ExternalEvent,
    r: (ExternalState, ExternalAction),
)
    requires
        call_ensures(PyMessageBus::publish_external_next, (bus, message, state, event), r),
        match state {
            ExternalState::Serializing => !(event is Serialized),
            ExternalState::SendingBacking { .. } => !(event is Published),
            ExternalState::SendingListener { .. } => !(event is Published),
            ExternalState::Finished => true,
            _ => !(event is Answer),
        },
    ensures
        r == (ExternalState::Finished, ExternalAction::Finish),
{
}

} // verus!
