//! Publishing to the world outside.
//!
//! A message that is published also goes to the backing of the bus and to its listeners, unless
//! its type is filtered out or it cannot become bytes. Each step asks the caller for something and
//! goes on with the answer.

use vstd::prelude::*;

verus! {

/// What publishing needs to know of a bus.
#[derive(Debug)]
pub struct ExternalRoute {
    /// The types that are not published.
    pub types_filter: Option<u64>,
    /// What turns messages into bytes.
    pub serializer: Option<u64>,
    /// The backing of the bus.
    pub backing: Option<u64>,
    /// The listeners, in the order in which they were added.
    pub listeners: Vec<u64>,
}

/// The contents of an [`ExternalRoute`].
pub struct RouteView {
    pub types_filter: Option<u64>,
    pub serializer: Option<u64>,
    pub backing: Option<u64>,
    pub listeners: Seq<u64>,
}

impl View for ExternalRoute {
    type V = RouteView;

    open spec fn view(&self) -> RouteView {
        RouteView {
            types_filter: self.types_filter,
            serializer: self.serializer,
            backing: self.backing,
            listeners: self.listeners@,
        }
    }
}

/// Where publishing stands.
#[derive(Debug, Clone, Copy, PartialEq, Eq, Structural)]
pub enum ExternalState {
    /// Waiting to hear whether the type of the message is filtered out.
    Filtering,
    /// Waiting to hear whether the message is bytes already.
    Inspecting,
    /// Waiting for the bytes of the message.
    Serializing,
    /// Waiting to hear whether the backing is closed.
    AskingBacking { payload: u64 },
    /// Waiting for the backing to publish.
    SendingBacking { payload: u64 },
    /// Waiting to hear whether a listener is closed.
    AskingListener { index: usize, payload: u64 },
    /// Waiting for a listener to publish.
    SendingListener { index: usize, payload: u64 },
    /// Done.
    Finished,
}

/// What the caller is asked to do.
#[derive(Debug, Clone, Copy, PartialEq, Eq, Structural)]
pub enum ExternalAction {
    /// Say whether the message is one of the filtered types.
    AskFiltered { filter: u64 },
    /// Say whether the message is bytes.
    AskBytes,
    /// Turn the message into bytes.
    Serialize { serializer: u64 },
    /// Say whether a backing or a listener is closed.
    AskClosed { sink: u64 },
    /// Publish the bytes through a backing or a listener.
    Publish { sink: u64, payload: u64 },
    /// Nothing more.
    Finish,
}

/// What the caller answers.
#[derive(Debug, Clone, Copy, PartialEq, Eq, Structural)]
pub enum ExternalEvent {
    /// Yes or no.
    Answer(bool),
    /// The bytes of the message.
    Serialized(u64),
    /// Published.
    Published,
}

/// Publishing is over.
pub open spec fn over() -> (ExternalState, ExternalAction) {
    (ExternalState::Finished, ExternalAction::Finish)
}

/// Turning to the listener at `index`.
pub open spec fn to_listener(
    route: RouteView,
    index: int,
    payload: u64,
) -> (ExternalState, ExternalAction) {
    if index < route.listeners.len() {
        (
            ExternalState::AskingListener { index: index as usize, payload },
            ExternalAction::AskClosed { sink: route.listeners[index] },
        )
    } else {
        over()
    }
}

/// Turning to the backing, where there is one, and otherwise to the listeners.
pub open spec fn to_backing(route: RouteView, payload: u64) -> (ExternalState, ExternalAction) {
    match route.backing {
        Some(sink) => (
            ExternalState::AskingBacking { payload },
            ExternalAction::AskClosed { sink },
        ),
        None => to_listener(route, 0, payload),
    }
}

/// The first step.
pub open spec fn external_start(route: RouteView) -> (ExternalState, ExternalAction) {
    match route.types_filter {
        Some(filter) => (ExternalState::Filtering, ExternalAction::AskFiltered { filter }),
        None => (ExternalState::Inspecting, ExternalAction::AskBytes),
    }
}

/// The step that follows an answer. `message` is the message as it was published. An answer to
/// another question than the last one ends publishing.
pub open spec fn external_next(
    route: RouteView,
    message: u64,
    state: ExternalState,
    event: ExternalEvent,
) -> (ExternalState, ExternalAction) {
    match (state, event) {
        (ExternalState::Filtering, ExternalEvent::Answer(filtered)) => if filtered {
            over()
        } else {
            (ExternalState::Inspecting, ExternalAction::AskBytes)
        },
        (ExternalState::Inspecting, ExternalEvent::Answer(is_bytes)) => if is_bytes {
            to_backing(route, message)
        } else {
            match route.serializer {
                Some(serializer) => (
                    ExternalState::Serializing,
                    ExternalAction::Serialize { serializer },
                ),
                None => over(),
            }
        },
        (ExternalState::Serializing, ExternalEvent::Serialized(payload)) => to_backing(
            route,
            payload,
        ),
        (
            ExternalState::AskingBacking { payload },
            ExternalEvent::Answer(is_closed),
        ) => match route.backing {
            Some(sink) => if is_closed {
                to_listener(route, 0, payload)
            } else {
                (
                    ExternalState::SendingBacking { payload },
                    ExternalAction::Publish { sink, payload },
                )
            },
            None => over(),
        },
        (ExternalState::SendingBacking { payload }, ExternalEvent::Published) => to_listener(
            route,
            0,
            payload,
        ),
        (
            ExternalState::AskingListener { index, payload },
            ExternalEvent::Answer(is_closed),
        ) => if index >= route.listeners.len() {
            over()
        } else if is_closed {
            to_listener(route, index + 1, payload)
        } else {
            (
                ExternalState::SendingListener { index, payload },
                ExternalAction::Publish { sink: route.listeners[index as int], payload },
            )
        },
        (ExternalState::SendingListener { index, payload }, ExternalEvent::Published) => if index
            >= route.listeners.len() {
            over()
        } else {
            to_listener(route, index + 1, payload)
        },
        _ => over(),
    }
}

impl ExternalRoute {
    fn listener_step(&self, index: usize, payload: u64) -> (r: (ExternalState, ExternalAction))
        ensures
            r == to_listener(self@, index as int, payload),
    {
        if index < self.listeners.len() {
            (
                ExternalState::AskingListener { index, payload },
                ExternalAction::AskClosed { sink: self.listeners[index] },
            )
        } else {
            (ExternalState::Finished, ExternalAction::Finish)
        }
    }

    fn backing_step(&self, payload: u64) -> (r: (ExternalState, ExternalAction))
        ensures
            r == to_backing(self@, payload),
    {
        match self.backing {
            Some(sink) => (
                ExternalState::AskingBacking { payload },
                ExternalAction::AskClosed { sink },
            ),
            None => self.listener_step(0, payload),
        }
    }

    /// The first step of publishing.
    pub fn start(&self) -> (r: (ExternalState, ExternalAction))
        ensures
            r == external_start(self@),
    {
        match self.types_filter {
            Some(filter) => (ExternalState::Filtering, ExternalAction::AskFiltered { filter }),
            None => (ExternalState::Inspecting, ExternalAction::AskBytes),
        }
    }

    /// The step of publishing that follows an answer.
    pub fn next(&self, message: u64, state: ExternalState, event: ExternalEvent) -> (r: (
        ExternalState,
        ExternalAction,
    ))
        ensures
            r == external_next(self@, message, state, event),
    {
        match (state, event) {
            (ExternalState::Filtering, ExternalEvent::Answer(filtered)) => if filtered {
                (ExternalState::Finished, ExternalAction::Finish)
            } else {
                (ExternalState::Inspecting, ExternalAction::AskBytes)
            },
            (ExternalState::Inspecting, ExternalEvent::Answer(is_bytes)) => if is_bytes {
                self.backing_step(message)
            } else {
                match self.serializer {
                    Some(serializer) => (
                        ExternalState::Serializing,
                        ExternalAction::Serialize { serializer },
                    ),
                    None => (ExternalState::Finished, ExternalAction::Finish),
                }
            },
            (ExternalState::Serializing, ExternalEvent::Serialized(payload)) => self.backing_step(
                payload,
            ),
            (
                ExternalState::AskingBacking { payload },
                ExternalEvent::Answer(is_closed),
            ) => match self.backing {
                Some(sink) => if is_closed {
                    self.listener_step(0, payload)
                } else {
                    (
                        ExternalState::SendingBacking { payload },
                        ExternalAction::Publish { sink, payload },
                    )
                },
                None => (ExternalState::Finished, ExternalAction::Finish),
            },
            (
                ExternalState::SendingBacking { payload },
                ExternalEvent::Published,
            ) => self.listener_step(0, payload),
            (
                ExternalState::AskingListener { index, payload },
                ExternalEvent::Answer(is_closed),
            ) => if index >= self.listeners.len() {
                (ExternalState::Finished, ExternalAction::Finish)
            } else if is_closed {
                self.listener_step(index + 1, payload)
            } else {
                (
                    ExternalState::SendingListener { index, payload },
                    ExternalAction::Publish { sink: self.listeners[index], payload },
                )
            },
            (ExternalState::SendingListener { index, payload }, ExternalEvent::Published) => if index
                >= self.listeners.len() {
                (ExternalState::Finished, ExternalAction::Finish)
            } else {
                self.listener_step(index + 1, payload)
            },
            _ => (ExternalState::Finished, ExternalAction::Finish),
        }
    }
}

/// What the caller would answer to each question.
pub struct World {
    /// The message is one of the filtered types.
    pub filtered: bool,
    /// The message is bytes.
    pub is_bytes: bool,
    /// The bytes that the serializer makes of the message.
    pub serialized: u64,
    /// The backings and listeners that are closed.
    pub closed: Set<u64>,
}

/// The answer to an action.
pub open spec fn answer(world: World, action: ExternalAction) -> ExternalEvent {
    match action {
        ExternalAction::AskFiltered { filter } => ExternalEvent::Answer(world.filtered),
        ExternalAction::AskBytes => ExternalEvent::Answer(world.is_bytes),
        ExternalAction::Serialize { serializer } => ExternalEvent::Serialized(world.serialized),
        ExternalAction::AskClosed { sink } => ExternalEvent::Answer(world.closed.contains(sink)),
        _ => ExternalEvent::Published,
    }
}

/// The actions of `steps` steps from a step on.
pub open spec fn actions_from(
    route: RouteView,
    message: u64,
    world: World,
    step: (ExternalState, ExternalAction),
    steps: nat,
) -> Seq<ExternalAction>
    decreases steps,
{
    if steps == 0 || step.1 == ExternalAction::Finish {
        Seq::empty()
    } else {
        seq![step.1] + actions_from(
            route,
            message,
            world,
            external_next(route, message, step.0, answer(world, step.1)),
            (steps - 1) as nat,
        )
    }
}

/// The backings and listeners that are published to, with the bytes, in order.
pub open spec fn publications(actions: Seq<ExternalAction>) -> Seq<(u64, u64)>
    decreases actions.len(),
{
    if actions.len() == 0 {
        Seq::empty()
    } else {
        let rest = publications(actions.drop_first());
        match actions[0] {
            ExternalAction::Publish { sink, payload } => seq![(sink, payload)] + rest,
            _ => rest,
        }
    }
}

proof fn publications_of_one_more(action: ExternalAction, rest: Seq<ExternalAction>)
    ensures
        publications(seq![action] + rest) == (match action {
            ExternalAction::Publish { sink, payload } => seq![(sink, payload)] + publications(rest),
            _ => publications(rest),
        }),
{
    let all = seq![action] + rest;
    assert(all.drop_first() =~= rest);
    assert(all[0] == action);
}

/// The bytes that are published; `None` where the message is filtered out or cannot become bytes.
pub open spec fn published_payload(route: RouteView, message: u64, world: World) -> Option<u64> {
    if route.types_filter is Some && world.filtered {
        None
    } else if world.is_bytes {
        Some(message)
    } else if route.serializer is Some {
        Some(world.serialized)
    } else {
        None
    }
}

/// The open listeners from `index` on, with the bytes.
pub open spec fn open_listeners(
    route: RouteView,
    world: World,
    index: int,
    payload: u64,
) -> Seq<(u64, u64)>
    decreases route.listeners.len() - index,
{
    if index >= route.listeners.len() {
        Seq::empty()
    } else if world.closed.contains(route.listeners[index]) {
        open_listeners(route, world, index + 1, payload)
    } else {
        seq![(route.listeners[index], payload)] + open_listeners(
            route,
            world,
            index + 1,
            payload,
        )
    }
}

/// Everything that is open and wants the bytes: the backing, then the listeners.
pub open spec fn open_sinks(route: RouteView, world: World, payload: u64) -> Seq<(u64, u64)> {
    let listeners = open_listeners(route, world, 0, payload);
    match route.backing {
        Some(sink) => if world.closed.contains(sink) {
            listeners
        } else {
            seq![(sink, payload)] + listeners
        },
        None => listeners,
    }
}

proof fn listeners_are_served(
    route: RouteView,
    message: u64,
    world: World,
    index: int,
    payload: u64,
    steps: nat,
)
    requires
        0 <= index <= route.listeners.len() <= usize::MAX,
        steps >= 2 * (route.listeners.len() - index),
    ensures
        publications(
            actions_from(route, message, world, to_listener(route, index, payload), steps),
        ) == open_listeners(route, world, index, payload),
    decreases route.listeners.len() - index,
{
    let step = to_listener(route, index, payload);
    let actions = actions_from(route, message, world, step, steps);
    if index < route.listeners.len() {
        let second = external_next(route, message, step.0, answer(world, step.1));
        let rest = actions_from(route, message, world, second, (steps - 1) as nat);
        assert(actions =~= seq![step.1] + rest);
        publications_of_one_more(step.1, rest);
        if world.closed.contains(route.listeners[index]) {
            listeners_are_served(route, message, world, index + 1, payload, (steps - 1) as nat);
        } else {
            let third = external_next(route, message, second.0, answer(world, second.1));
            let tail = actions_from(route, message, world, third, (steps - 2) as nat);
            assert(rest =~= seq![second.1] + tail);
            publications_of_one_more(second.1, tail);
            listeners_are_served(route, message, world, index + 1, payload, (steps - 2) as nat);
        }
    }
}

proof fn sinks_are_served(
    route: RouteView,
    message: u64,
    world: World,
    payload: u64,
    steps: nat,
)
    requires
        route.listeners.len() <= usize::MAX,
        steps >= 2 * route.listeners.len() + 2,
    ensures
        publications(actions_from(route, message, world, to_backing(route, payload), steps))
            == open_sinks(route, world, payload),
{
    let step = to_backing(route, payload);
    let actions = actions_from(route, message, world, step, steps);
    match route.backing {
        Some(sink) => {
            let second = external_next(route, message, step.0, answer(world, step.1));
            let rest = actions_from(route, message, world, second, (steps - 1) as nat);
            assert(actions =~= seq![step.1] + rest);
            publications_of_one_more(step.1, rest);
            if world.closed.contains(sink) {
                listeners_are_served(route, message, world, 0, payload, (steps - 1) as nat);
            } else {
                let third = external_next(route, message, second.0, answer(world, second.1));
                let tail = actions_from(route, message, world, third, (steps - 2) as nat);
                assert(rest =~= seq![second.1] + tail);
                publications_of_one_more(second.1, tail);
                listeners_are_served(route, message, world, 0, payload, (steps - 2) as nat);
            }
        },
        None => {
            listeners_are_served(route, message, world, 0, payload, steps);
        },
    }
}

/// A message goes, as bytes, to the backing if it is open and then to each open listener in order,
/// once each and to nothing else; a message that is filtered out or cannot become bytes goes
/// nowhere.
pub proof fn messages_reach_exactly_the_open_sinks(
    route: RouteView,
    message: u64,
    world: World,
    steps: nat,
)
    requires
        route.listeners.len() <= usize::MAX,
        steps >= 2 * route.listeners.len() + 5,
    ensures
        publications(actions_from(route, message, world, external_start(route), steps)) == (
        match published_payload(route, message, world) {
            Some(payload) => open_sinks(route, world, payload),
            None => Seq::empty(),
        }),
{
    let first = external_start(route);
    let actions = actions_from(route, message, world, first, steps);
    match route.types_filter {
        Some(_) => {
            let second = external_next(route, message, first.0, answer(world, first.1));
            let rest = actions_from(route, message, world, second, (steps - 1) as nat);
            assert(actions =~= seq![first.1] + rest);
            publications_of_one_more(first.1, rest);
            if !world.filtered {
                inspected_messages(route, message, world, (steps - 1) as nat);
            } else {
                assert(rest =~= Seq::empty());
            }
        },
        None => {
            inspected_messages(route, message, world, steps);
        },
    }
}

/// No two of the actions are to serialize.
pub open spec fn at_most_one_serialize(actions: Seq<ExternalAction>) -> bool {
    forall|i: int, j: int|
        #![trigger actions[i], actions[j]]
        0 <= i < j < actions.len() ==> !(actions[i] is Serialize && actions[j] is Serialize)
}

/// Whatever is serialized goes to the serializer of the bus, and is neither bytes already nor
/// filtered out.
pub open spec fn serializes_only_what_needs_it(
    route: RouteView,
    world: World,
    actions: Seq<ExternalAction>,
) -> bool {
    forall|i: int|
        0 <= i < actions.len() && #[trigger] actions[i] is Serialize ==> {
            &&& route.serializer is Some
            &&& actions[i] == (ExternalAction::Serialize { serializer: route.serializer->0 })
            &&& !world.is_bytes
            &&& !(route.types_filter is Some && world.filtered)
        }
}

/// Publishing is past the serializer.
spec fn past_serializing(step: (ExternalState, ExternalAction)) -> bool {
    !(step.1 is Serialize) && !(step.0 is Filtering) && !(step.0 is Inspecting) && !(
    step.0 is Serializing)
}

proof fn nothing_is_serialized_past_serializing(
    route: RouteView,
    message: u64,
    world: World,
    step: (ExternalState, ExternalAction),
    steps: nat,
)
    requires
        past_serializing(step),
    ensures
        forall|i: int|
            #![trigger actions_from(route, message, world, step, steps)[i]]
            0 <= i < actions_from(route, message, world, step, steps).len() ==> !(actions_from(
                route,
                message,
                world,
                step,
                steps,
            )[i] is Serialize),
    decreases steps,
{
    if steps > 0 && step.1 != ExternalAction::Finish {
        nothing_is_serialized_past_serializing(
            route,
            message,
            world,
            external_next(route, message, step.0, answer(world, step.1)),
            (steps - 1) as nat,
        );
    }
}

/// The serializer of the bus runs at most once for a message, and never for one that is filtered
/// out or that is bytes already.
pub proof fn messages_are_serialized_at_most_once(
    route: RouteView,
    message: u64,
    world: World,
    steps: nat,
)
    ensures
        at_most_one_serialize(
            actions_from(route, message, world, external_start(route), steps),
        ),
        serializes_only_what_needs_it(
            route,
            world,
            actions_from(route, message, world, external_start(route), steps),
        ),
{
    serialized_at_most_once_from(route, message, world, external_start(route), steps);
}

proof fn serialized_at_most_once_from(
    route: RouteView,
    message: u64,
    world: World,
    step: (ExternalState, ExternalAction),
    steps: nat,
)
    requires
        past_serializing(step) || step == external_start(route) || (step == (
            ExternalState::Inspecting,
            ExternalAction::AskBytes,
        ) && !(route.types_filter is Some && world.filtered)) || (route.serializer is Some && step
            == (
            ExternalState::Serializing,
            ExternalAction::Serialize { serializer: route.serializer->0 },
        ) && !world.is_bytes && !(route.types_filter is Some && world.filtered)),
    ensures
        at_most_one_serialize(actions_from(route, message, world, step, steps)),
        serializes_only_what_needs_it(
            route,
            world,
            actions_from(route, message, world, step, steps),
        ),
    decreases steps,
{
    if steps > 0 && step.1 != ExternalAction::Finish {
        let next = external_next(route, message, step.0, answer(world, step.1));
        let fewer = (steps - 1) as nat;
        let rest = actions_from(route, message, world, next, fewer);
        let actions = actions_from(route, message, world, step, steps);
        assert(actions =~= seq![step.1] + rest);
        serialized_at_most_once_from(route, message, world, next, fewer);
        if step.1 is Serialize {
            nothing_is_serialized_past_serializing(route, message, world, next, fewer);
        }
        assert forall|i: int, j: int|
            #![trigger actions[i], actions[j]]
            0 <= i < j < actions.len() implies !(actions[i] is Serialize && actions[j]
            is Serialize) by {
            assert(actions[j] == rest[j - 1]);
            if i > 0 {
                assert(actions[i] == rest[i - 1]);
            }
        }
        assert forall|i: int|
            0 <= i < actions.len() && #[trigger] actions[i] is Serialize implies {
            &&& route.serializer is Some
            &&& actions[i] == (ExternalAction::Serialize { serializer: route.serializer->0 })
            &&& !world.is_bytes
            &&& !(route.types_filter is Some && world.filtered)
        } by {
            if i > 0 {
                assert(actions[i] == rest[i - 1]);
            }
        }
    }
}

proof fn inspected_messages(route: RouteView, message: u64, world: World, steps: nat)
    requires
        route.listeners.len() <= usize::MAX,
        steps >= 2 * route.listeners.len() + 4,
    ensures
        publications(
            actions_from(
                route,
                message,
                world,
                (ExternalState::Inspecting, ExternalAction::AskBytes),
                steps,
            ),
        ) == (if world.is_bytes {
            open_sinks(route, world, message)
        } else if route.serializer is Some {
            open_sinks(route, world, world.serialized)
        } else {
            Seq::empty()
        }),
{
    let first = (ExternalState::Inspecting, ExternalAction::AskBytes);
    let actions = actions_from(route, message, world, first, steps);
    let second = external_next(route, message, first.0, answer(world, first.1));
    let rest = actions_from(route, message, world, second, (steps - 1) as nat);
    assert(actions =~= seq![first.1] + rest);
    publications_of_one_more(first.1, rest);
    if world.is_bytes {
        sinks_are_served(route, message, world, message, (steps - 1) as nat);
    } else if route.serializer is Some {
        let third = external_next(route, message, second.0, answer(world, second.1));
        let tail = actions_from(route, message, world, third, (steps - 2) as nat);
        assert(rest =~= seq![second.1] + tail);
        publications_of_one_more(second.1, tail);
        sinks_are_served(route, message, world, world.serialized, (steps - 2) as nat);
    } else {
        assert(rest =~= Seq::empty());
    }
}

} // verus!
