//! The state of the bus.

use vstd::prelude::*;

use crate::index::{
    empty_index, index_contents, index_get, index_insert, index_new, index_remove,
};
use crate::msgbus::external::{
    external_next, external_start, ExternalAction, ExternalEvent, ExternalRoute, ExternalState,
    RouteView,
};
use crate::msgbus::handler::PyMessage;
use crate::msgbus::topics::{
    any_selected, ascending, contents, flags_of, is_subscribed, listed, selected, selected_texts,
    sorted_topics, subscribed, subscription_texts, Subscription,
};

verus! {

/// Why the bus refuses.
#[derive(Debug, Clone, Copy, PartialEq, Eq, Structural)]
pub enum BusError {
    /// The text is no endpoint.
    InvalidEndpoint,
    /// The text is no pattern.
    InvalidPattern,
    /// The text is no topic.
    InvalidTopic,
}

/// What a bus is made with.
#[derive(Debug)]
pub struct BusInputs {
    pub trader_id: String,
    /// The identity of the instance; a fresh one where there is none.
    pub instance_id: Option<String>,
    /// A fresh identity.
    pub fresh_instance_id: String,
    pub name: Option<String>,
    pub serializer: Option<u64>,
    pub backing: Option<u64>,
    /// The types that are not published, where the configuration names any.
    pub types_filter: Option<u64>,
}

/// The Python message bus.
#[derive(Debug)]
pub struct PyMessageBus {
    trader_id: String,
    instance_id: String,
    name: String,
    has_backing: bool,
    route: ExternalRoute,
    streaming_types: Vec<u64>,
    correlation_index: ahash::AHashMap<String, u64, ahash::RandomState>,
    sent_count: u64,
    req_count: u64,
    res_count: u64,
    pub_count: u64,
}

/// The contents of a [`PyMessageBus`].
pub struct BusView {
    pub trader_id: Seq<char>,
    pub instance_id: Seq<char>,
    pub name: Seq<char>,
    pub has_backing: bool,
    pub route: RouteView,
    pub streaming_types: Seq<u64>,
    /// The callbacks of the requests that wait for a response.
    pub pending: Map<Seq<char>, u64>,
    pub sent_count: u64,
    pub req_count: u64,
    pub res_count: u64,
    pub pub_count: u64,
}

/// What is to be done for a request.
#[derive(Debug, Clone, Copy, PartialEq, Eq, Structural)]
pub enum RequestStep {
    /// Send the request to its endpoint.
    Send(PyMessage),
    /// Log that a request with this identity already waits for a response.
    LogDuplicate,
}

/// What is to be done for a message that is published.
#[derive(Debug, Clone, Copy, PartialEq, Eq, Structural)]
pub struct PublishStep {
    /// Publish the message on the bus.
    pub message: PyMessage,
    /// Then publish it to the world outside as well.
    pub external: bool,
}

/// A new bus.
pub open spec fn new_bus(inputs: BusInputs) -> BusView {
    BusView {
        trader_id: inputs.trader_id@,
        instance_id: match inputs.instance_id {
            Some(id) => id@,
            None => inputs.fresh_instance_id@,
        },
        name: match inputs.name {
            Some(name) => name@,
            None => "MessageBus"@,
        },
        has_backing: inputs.backing is Some,
        route: RouteView {
            types_filter: inputs.types_filter,
            serializer: inputs.serializer,
            backing: inputs.backing,
            listeners: Seq::empty(),
        },
        streaming_types: Seq::empty(),
        pending: empty_index(),
        sent_count: 0,
        req_count: 0,
        res_count: 0,
        pub_count: 0,
    }
}

/// A bus that a request was made on: its callback, where it has one, waits for the response.
pub open spec fn after_request(bus: BusView, request_id: Seq<char>, callback: Option<u64>) -> BusView {
    BusView {
        pending: match callback {
            Some(callback) => bus.pending.insert(request_id, callback),
            None => bus.pending,
        },
        req_count: (bus.req_count + 1) as u64,
        ..bus
    }
}

impl View for PyMessageBus {
    type V = BusView;

    closed spec fn view(&self) -> BusView {
        BusView {
            trader_id: self.trader_id@,
            instance_id: self.instance_id@,
            name: self.name@,
            has_backing: self.has_backing,
            route: self.route@,
            streaming_types: self.streaming_types@,
            pending: index_contents(self.correlation_index),
            sent_count: self.sent_count,
            req_count: self.req_count,
            res_count: self.res_count,
            pub_count: self.pub_count,
        }
    }
}

impl PyMessageBus {
    /// A new bus.
    pub fn py_new(inputs: BusInputs) -> (r: Self)
        ensures
            r@ == new_bus(inputs),
    {
        let has_backing = inputs.backing.is_some();
        let instance_id = match inputs.instance_id {
            Some(id) => id,
            None => inputs.fresh_instance_id,
        };
        let name = match inputs.name {
            Some(name) => name,
            None => "MessageBus".to_owned(),
        };
        PyMessageBus {
            trader_id: inputs.trader_id,
            instance_id,
            name,
            has_backing,
            route: ExternalRoute {
                types_filter: inputs.types_filter,
                serializer: inputs.serializer,
                backing: inputs.backing,
                listeners: Vec::new(),
            },
            streaming_types: Vec::new(),
            correlation_index: index_new(),
            sent_count: 0,
            req_count: 0,
            res_count: 0,
            pub_count: 0,
        }
    }

    /// The trader that the bus belongs to.
    pub fn py_trader_id(&self) -> (r: &str)
        ensures
            r@ == self@.trader_id,
    {
        self.trader_id.as_str()
    }

    /// The instance that the bus belongs to.
    pub fn py_instance_id(&self) -> (r: &str)
        ensures
            r@ == self@.instance_id,
    {
        self.instance_id.as_str()
    }

    /// The name of the bus.
    pub fn py_name(&self) -> (r: &str)
        ensures
            r@ == self@.name,
    {
        self.name.as_str()
    }

    /// Whether the bus has a backing.
    pub fn py_has_backing(&self) -> (r: bool)
        ensures
            r == self@.has_backing,
    {
        self.has_backing
    }

    /// How many messages were sent to endpoints.
    pub fn py_sent_count(&self) -> (r: u64)
        ensures
            r == self@.sent_count,
    {
        self.sent_count
    }

    /// How many requests were made.
    pub fn py_req_count(&self) -> (r: u64)
        ensures
            r == self@.req_count,
    {
        self.req_count
    }

    /// How many responses were handled.
    pub fn py_res_count(&self) -> (r: u64)
        ensures
            r == self@.res_count,
    {
        self.res_count
    }

    /// How many messages were published.
    pub fn py_pub_count(&self) -> (r: u64)
        ensures
            r == self@.pub_count,
    {
        self.pub_count
    }

    /// The topics with subscribers, in order and each once, given the patterns of the
    /// subscriptions.
    pub fn py_topics(&self, patterns: Vec<String>) -> (r: Vec<String>)
        ensures
            ascending(r@),
            forall|t: Seq<char>| #[trigger] listed(r@, t) <==> listed(patterns@, t),
    {
        sorted_topics(patterns)
    }

    /// The texts of the subscriptions, or of those that match the pattern that was asked for.
    ///
    /// `matches` holds, for each subscription, whether it matches; there is none where no pattern
    /// was asked for, and `pattern_valid` says whether the one that was is a pattern.
    pub fn py_subscriptions(
        &self,
        subscriptions: &Vec<Subscription>,
        pattern_valid: bool,
        matches: Option<&Vec<bool>>,
    ) -> (r: Result<Vec<String>, BusError>)
        requires
            matches matches Some(flags) ==> flags@.len() == subscriptions@.len(),
        ensures
            if matches is Some && !pattern_valid {
                r == Err::<Vec<String>, BusError>(BusError::InvalidPattern)
            } else {
                r matches Ok(texts) && contents(texts@) == selected_texts(
                    subscriptions@,
                    flags_of(matches),
                    subscriptions@.len() as int,
                )
            },
    {
        if matches.is_some() && !pattern_valid {
            return Err(BusError::InvalidPattern);
        }
        Ok(subscription_texts(subscriptions, matches))
    }

    /// Whether there are subscriptions, or any that match the pattern that was asked for.
    pub fn py_has_subscribers(
        &self,
        subscriptions: &Vec<Subscription>,
        pattern_valid: bool,
        matches: Option<&Vec<bool>>,
    ) -> (r: Result<bool, BusError>)
        requires
            matches matches Some(flags) ==> flags@.len() == subscriptions@.len(),
        ensures
            if matches is Some && !pattern_valid {
                r == Err::<bool, BusError>(BusError::InvalidPattern)
            } else {
                r matches Ok(any) && (any <==> exists|i: int|
                    0 <= i < subscriptions@.len() && #[trigger] selected(flags_of(matches), i))
            },
    {
        if matches.is_some() && !pattern_valid {
            return Err(BusError::InvalidPattern);
        }
        Ok(any_selected(subscriptions, matches))
    }

    /// Whether a handler is subscribed to a topic.
    pub fn py_is_subscribed(
        &self,
        subscriptions: &Vec<Subscription>,
        topic_valid: bool,
        topic: &str,
        handler_id: &str,
    ) -> (r: Result<bool, BusError>)
        ensures
            r == (if topic_valid {
                Ok::<bool, BusError>(subscribed(subscriptions@, topic@, handler_id@))
            } else {
                Err(BusError::InvalidPattern)
            }),
    {
        if !topic_valid {
            return Err(BusError::InvalidPattern);
        }
        Ok(is_subscribed(subscriptions, topic, handler_id))
    }

    /// Whether a request waits for its response.
    pub fn py_is_pending_request(&self, request_id: &str) -> (r: bool)
        ensures
            r == self@.pending.dom().contains(request_id@),
    {
        index_get(&self.correlation_index, request_id).is_some()
    }

    /// Whether a type is registered for streaming.
    pub fn py_is_streaming_type(&self, cls: u64) -> (r: bool)
        ensures
            r == self@.streaming_types.contains(cls),
    {
        let mut i: usize = 0;
        while i < self.streaming_types.len()
            invariant
                i <= self.streaming_types@.len(),
                forall|j: int| 0 <= j < i ==> self.streaming_types@[j] != cls,
            decreases self.streaming_types.len() - i,
        {
            if self.streaming_types[i] == cls {
                assert(self.streaming_types@[i as int] == cls);
                return true;
            }
            i += 1;
        }
        false
    }

    /// The types that are registered for streaming, in the order in which they were.
    pub fn py_streaming_types(&self) -> (r: &Vec<u64>)
        ensures
            r@ == self@.streaming_types,
    {
        &self.streaming_types
    }

    /// Sends a message to an endpoint.
    pub fn py_send(&mut self, endpoint_valid: bool, message: u64) -> (r: Result<
        PyMessage,
        BusError,
    >)
        requires
            old(self)@.sent_count < u64::MAX,
        ensures
            if endpoint_valid {
                r == Ok::<PyMessage, BusError>(PyMessage(message)) && final(self)@ == (BusView {
                    sent_count: (old(self)@.sent_count + 1) as u64,
                    ..old(self)@
                })
            } else {
                r == Err::<PyMessage, BusError>(BusError::InvalidEndpoint) && final(self)@
                    == old(self)@
            },
    {
        if !endpoint_valid {
            return Err(BusError::InvalidEndpoint);
        }
        self.sent_count = self.sent_count + 1;
        Ok(PyMessage(message))
    }

    /// Makes a request. A second request with an identity that waits for a response changes
    /// nothing and is not sent.
    pub fn py_request(
        &mut self,
        endpoint_valid: bool,
        request: u64,
        request_id: &str,
        callback: Option<u64>,
    ) -> (r: Result<RequestStep, BusError>)
        requires
            old(self)@.req_count < u64::MAX,
        ensures
            if !endpoint_valid {
                r == Err::<RequestStep, BusError>(BusError::InvalidEndpoint) && final(self)@
                    == old(self)@
            } else if old(self)@.pending.dom().contains(request_id@) {
                r == Ok::<RequestStep, BusError>(RequestStep::LogDuplicate) && final(self)@
                    == old(self)@
            } else {
                &&& r == Ok::<RequestStep, BusError>(RequestStep::Send(PyMessage(request)))
                &&& final(self)@ == after_request(old(self)@, request_id@, callback)
            },
    {
        if !endpoint_valid {
            return Err(BusError::InvalidEndpoint);
        }
        if self.py_is_pending_request(request_id) {
            return Ok(RequestStep::LogDuplicate);
        }
        match callback {
            Some(callback) => {
                index_insert(&mut self.correlation_index, request_id, callback);
            },
            None => {},
        }
        self.req_count = self.req_count + 1;
        Ok(RequestStep::Send(PyMessage(request)))
    }

    /// Takes the callback of the request that a response answers; `None` where no request waits
    /// for it.
    pub fn py_response(&mut self, correlation_id: &str) -> (callback: Option<u64>)
        ensures
            callback == (if old(self)@.pending.dom().contains(correlation_id@) {
                Some(old(self)@.pending[correlation_id@])
            } else {
                None
            }),
            final(self)@ == (BusView {
                pending: old(self)@.pending.remove(correlation_id@),
                ..old(self)@
            }),
    {
        index_remove(&mut self.correlation_index, correlation_id)
    }

    /// Counts a response whose callback, where there was one, has been called without failing.
    pub fn response_handled(&mut self)
        requires
            old(self)@.res_count < u64::MAX,
        ensures
            final(self)@ == (BusView {
                res_count: (old(self)@.res_count + 1) as u64,
                ..old(self)@
            }),
    {
        self.res_count = self.res_count + 1;
    }

    /// Publishes a message on the bus and, unless told otherwise, to the world outside.
    pub fn py_publish(&self, topic_valid: bool, message: u64, external_pub: bool) -> (r: Result<
        PublishStep,
        BusError,
    >)
        ensures
            r == (if topic_valid {
                Ok::<PublishStep, BusError>(
                    PublishStep { message: PyMessage(message), external: external_pub },
                )
            } else {
                Err(BusError::InvalidTopic)
            }),
    {
        if !topic_valid {
            return Err(BusError::InvalidTopic);
        }
        Ok(PublishStep { message: PyMessage(message), external: external_pub })
    }

    /// Counts a message that has been published everywhere without failing.
    pub fn message_published(&mut self)
        requires
            old(self)@.pub_count < u64::MAX,
        ensures
            final(self)@ == (BusView {
                pub_count: (old(self)@.pub_count + 1) as u64,
                ..old(self)@
            }),
    {
        self.pub_count = self.pub_count + 1;
    }

    /// The first step of publishing to the world outside.
    pub fn publish_external(&self) -> (r: (ExternalState, ExternalAction))
        ensures
            r == external_start(self@.route),
    {
        self.route.start()
    }

    /// The step of publishing to the world outside that follows an answer.
    pub fn publish_external_next(
        &self,
        message: u64,
        state: ExternalState,
        event: ExternalEvent,
    ) -> (r: (ExternalState, ExternalAction))
        ensures
            r == external_next(self@.route, message, state, event),
    {
        self.route.next(message, state, event)
    }

    /// Forgets the requests, the listeners and the streaming types; what is left to do is to close
    /// the backing that is returned, where it is not closed already.
    pub fn py_dispose(&mut self) -> (backing: Option<u64>)
        ensures
            backing == old(self)@.route.backing,
            final(self)@ == (BusView {
                route: RouteView { listeners: Seq::empty(), ..old(self)@.route },
                streaming_types: Seq::empty(),
                pending: empty_index(),
                ..old(self)@
            }),
    {
        self.correlation_index = index_new();
        self.route.listeners.clear();
        self.streaming_types.clear();
        self.route.backing
    }

    /// Registers a type for streaming.
    pub fn py_add_streaming_type(&mut self, cls: u64)
        ensures
            final(self)@ == (BusView {
                streaming_types: old(self)@.streaming_types.push(cls),
                ..old(self)@
            }),
    {
        self.streaming_types.push(cls);
    }

    /// Adds a listener.
    pub fn py_add_listener(&mut self, listener: u64)
        ensures
            final(self)@ == (BusView {
                route: RouteView {
                    listeners: old(self)@.route.listeners.push(listener),
                    ..old(self)@.route
                },
                ..old(self)@
            }),
    {
        self.route.listeners.push(listener);
    }
}

/// A response takes back what the request left: the callback that a request gave is the one that
/// its response gets, it is given once, and requests with other identities keep theirs.
pub proof fn responses_find_their_requests(
    bus: BusView,
    request_id: Seq<char>,
    callback: u64,
    other: Seq<char>,
)
    requires
        !bus.pending.dom().contains(request_id),
        other != request_id,
    ensures
        ({
            let requested = after_request(bus, request_id, Some(callback)).pending;
            let answered = requested.remove(request_id);
            &&& requested.dom().contains(request_id) && requested[request_id] == callback
            &&& !answered.dom().contains(request_id)
            &&& answered == bus.pending
            &&& requested.dom().contains(other) == bus.pending.dom().contains(other)
        }),
{
    assert(bus.pending.insert(request_id, callback).remove(request_id) =~= bus.pending);
}

} // verus!
