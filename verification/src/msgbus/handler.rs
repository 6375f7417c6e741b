//! Python callables as message handlers.

use vstd::prelude::*;

use crate::intern::interned;

verus! {

/// A Python object on its way through the bus.
#[derive(Debug, Clone, Copy, PartialEq, Eq, Structural)]
pub struct PyMessage(pub u64);

/// What a handler is given.
#[derive(Debug, Clone, Copy, PartialEq, Eq, Structural)]
pub enum Delivery {
    /// A Python object.
    Message(PyMessage),
    /// An order status report, which first has to become a Python object.
    OrderStatusReport,
    /// Anything else.
    Other,
}

/// What is to be done for a delivery.
#[derive(Debug, Clone, Copy, PartialEq, Eq, Structural)]
pub enum HandlerStep {
    /// Turn the order status report into a Python object.
    Convert,
    /// Call the callable with the argument.
    Call { callable: u64, argument: u64 },
    /// Log that the delivery is not supported.
    LogUnsupported,
    /// Log that the order status report could not be turned into a Python object.
    LogConversionFailed,
    /// Log that the call failed.
    LogCallFailed,
    /// Nothing more.
    Done,
}

/// What is done first for a delivery: Python objects go to the callable as they are, order status
/// reports once they have become one, and anything else is logged.
pub open spec fn first_step(callable: u64, delivery: Delivery) -> HandlerStep {
    match delivery {
        Delivery::Message(message) => HandlerStep::Call { callable, argument: message.0 },
        Delivery::OrderStatusReport => HandlerStep::Convert,
        Delivery::Other => HandlerStep::LogUnsupported,
    }
}

/// What is done once an order status report was to become a Python object.
pub open spec fn after_conversion(callable: u64, object: Option<u64>) -> HandlerStep {
    match object {
        Some(argument) => HandlerStep::Call { callable, argument },
        None => HandlerStep::LogConversionFailed,
    }
}

/// What is done once the callable was called.
pub open spec fn after_call(succeeded: bool) -> HandlerStep {
    if succeeded {
        HandlerStep::Done
    } else {
        HandlerStep::LogCallFailed
    }
}

/// The steps of one delivery from a step on. `object` is what an order status report becomes, and
/// `succeeded` how the call goes.
pub open spec fn steps_of(
    callable: u64,
    step: HandlerStep,
    object: Option<u64>,
    succeeded: bool,
) -> Seq<HandlerStep> {
    let call = after_conversion(callable, object);
    match step {
        HandlerStep::Convert => if object is Some {
            seq![step, call, after_call(succeeded)]
        } else {
            seq![step, call]
        },
        HandlerStep::Call { .. } => seq![step, after_call(succeeded)],
        _ => seq![step],
    }
}

/// The arguments that the callable is called with.
pub open spec fn calls_in(steps: Seq<HandlerStep>) -> Seq<u64>
    decreases steps.len(),
{
    if steps.len() == 0 {
        Seq::empty()
    } else {
        match steps.last() {
            HandlerStep::Call { argument, .. } => calls_in(steps.drop_last()).push(argument),
            _ => calls_in(steps.drop_last()),
        }
    }
}

/// A delivery calls the callable once with its object, whether or not the call then fails; one
/// that has no object, because its type is not supported or could not be converted, calls nothing.
pub proof fn deliveries_are_called_once(
    callable: u64,
    delivery: Delivery,
    object: Option<u64>,
    succeeded: bool,
)
    ensures
        calls_in(steps_of(callable, first_step(callable, delivery), object, succeeded)) == (
        match delivery {
            Delivery::Message(message) => seq![message.0],
            Delivery::OrderStatusReport => match object {
                Some(argument) => seq![argument],
                None => Seq::empty(),
            },
            Delivery::Other => Seq::empty(),
        }),
{
    reveal_with_fuel(calls_in, 4);
    let steps = steps_of(callable, first_step(callable, delivery), object, succeeded);
    let expected = match delivery {
        Delivery::Message(message) => seq![message.0],
        Delivery::OrderStatusReport => match object {
            Some(argument) => seq![argument],
            None => Seq::empty(),
        },
        Delivery::Other => Seq::empty(),
    };
    assert(calls_in(steps) =~= expected);
}

/// A Python callable that handles messages.
#[derive(Debug, Clone, Copy)]
pub struct PyCallableHandler {
    id: &'static str,
    callable: u64,
}

impl PyCallableHandler {
    /// The identity of the handler.
    pub closed spec fn identity(&self) -> Seq<char> {
        self.id@
    }

    /// The callable of the handler.
    pub closed spec fn target(&self) -> u64 {
        self.callable
    }

    /// The handler of a callable; its identity is the representation of the callable, so that it
    /// is the same each time the callable is given.
    pub fn new(repr: &str, callable: u64) -> (r: Self)
        ensures
            r.identity() == repr@,
            r.target() == callable,
    {
        PyCallableHandler { id: interned(repr), callable }
    }

    /// The identity of the handler.
    pub fn id(&self) -> (r: &'static str)
        ensures
            r@ == self.identity(),
    {
        self.id
    }

    /// What to do with a delivery.
    pub fn handle(&self, delivery: Delivery) -> (r: HandlerStep)
        ensures
            r == first_step(self.target(), delivery),
    {
        match delivery {
            Delivery::Message(message) => HandlerStep::Call {
                callable: self.callable,
                argument: message.0,
            },
            Delivery::OrderStatusReport => HandlerStep::Convert,
            Delivery::Other => HandlerStep::LogUnsupported,
        }
    }

    /// What to do once an order status report was to become a Python object.
    pub fn converted(&self, object: Option<u64>) -> (r: HandlerStep)
        ensures
            r == after_conversion(self.target(), object),
    {
        match object {
            Some(argument) => HandlerStep::Call { callable: self.callable, argument },
            None => HandlerStep::LogConversionFailed,
        }
    }

    /// What to do once the callable was called: a failure is logged and goes no further.
    pub fn called(&self, succeeded: bool) -> (r: HandlerStep)
        ensures
            r == after_call(succeeded),
    {
        if succeeded {
            HandlerStep::Done
        } else {
            HandlerStep::LogCallFailed
        }
    }
}

} // verus!
