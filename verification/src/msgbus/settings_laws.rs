//! What configurations, messages, handlers and registries give back.

use vstd::prelude::*;

use crate::msgbus::config::{BusMessage, ConfigSettings, MessageBusConfig, SerializationEncoding};
use crate::msgbus::handler::{Delivery, HandlerStep, PyCallableHandler, PyMessage};
use crate::msgbus::registry::{MessageBusFactoryRegistry, RegistryError};

verus! {

/// The setting that was made, and otherwise the default.
pub open spec fn made_or<T>(result: T, setting: Option<T>, default: T) -> bool {
    &&& setting matches Some(value) ==> result == value
    &&& setting is None ==> result == default
}

/// The encodings of a configuration are those that were set; only the general one has a default.
pub proof fn configurations_have_the_encodings_that_were_set(
    settings: ConfigSettings,
    default: MessageBusConfig,
    config: MessageBusConfig,
    encoding: SerializationEncoding,
    market_data: Option<SerializationEncoding>,
    builtin: Option<SerializationEncoding>,
    iso8601: bool,
)
    requires
        call_ensures(MessageBusConfig::py_new, (settings, default), config),
        call_ensures(MessageBusConfig::encoding, (&config,), encoding),
        call_ensures(MessageBusConfig::encoding_market_data, (&config,), market_data),
        call_ensures(MessageBusConfig::encoding_builtin, (&config,), builtin),
        call_ensures(MessageBusConfig::timestamps_as_iso8601, (&config,), iso8601),
    ensures
        made_or(encoding, settings.encoding, default.encoding),
        market_data == settings.encoding_market_data,
        builtin == settings.encoding_builtin,
        made_or(iso8601, settings.timestamps_as_iso8601, default.timestamps_as_iso8601),
{
}

/// The intervals and limits of a configuration are those that were set, without defaults.
pub proof fn configurations_have_the_limits_that_were_set(
    settings: ConfigSettings,
    default: MessageBusConfig,
    config: MessageBusConfig,
    buffer: Option<u32>,
    mins: Option<u32>,
    maxlen: Option<u32>,
    heartbeat: Option<u16>,
)
    requires
        call_ensures(MessageBusConfig::py_new, (settings, default), config),
        call_ensures(MessageBusConfig::buffer_interval_ms, (&config,), buffer),
        call_ensures(MessageBusConfig::autotrim_mins, (&config,), mins),
        call_ensures(MessageBusConfig::autotrim_maxlen, (&config,), maxlen),
        call_ensures(MessageBusConfig::heartbeat_interval_secs, (&config,), heartbeat),
    ensures
        buffer == settings.buffer_interval_ms,
        mins == settings.autotrim_mins,
        maxlen == settings.autotrim_maxlen,
        heartbeat == settings.heartbeat_interval_secs,
{
}

/// The streams of a configuration are named as was set, and otherwise as by default; the streams
/// that are listened to and the types that are filtered are those that were set.
pub proof fn configurations_have_the_streams_that_were_set(
    settings: ConfigSettings,
    default: MessageBusConfig,
    config: MessageBusConfig,
    trader_prefix: bool,
    trader_id: bool,
    instance_id: bool,
    prefix: &str,
    per_topic: bool,
    external: &Option<Vec<String>>,
    filter: &Option<Vec<String>>,
)
    requires
        call_ensures(MessageBusConfig::py_new, (settings, default), config),
        call_ensures(MessageBusConfig::use_trader_prefix, (&config,), trader_prefix),
        call_ensures(MessageBusConfig::use_trader_id, (&config,), trader_id),
        call_ensures(MessageBusConfig::use_instance_id, (&config,), instance_id),
        call_ensures(MessageBusConfig::streams_prefix, (&config,), prefix),
        call_ensures(MessageBusConfig::stream_per_topic, (&config,), per_topic),
        call_ensures(MessageBusConfig::external_streams, (&config,), external),
        call_ensures(MessageBusConfig::types_filter, (&config,), filter),
    ensures
        made_or(trader_prefix, settings.use_trader_prefix, default.use_trader_prefix),
        made_or(trader_id, settings.use_trader_id, default.use_trader_id),
        made_or(instance_id, settings.use_instance_id, default.use_instance_id),
        settings.streams_prefix matches Some(text) ==> prefix@ == text@,
        settings.streams_prefix is None ==> prefix@ == default.streams_prefix@,
        made_or(per_topic, settings.stream_per_topic, default.stream_per_topic),
        *external == settings.external_streams,
        *filter == settings.types_filter,
{
}

/// A configuration is given back as it is where it was found valid, and otherwise what was found
/// wrong with it is.
pub proof fn configurations_are_given_back_where_valid(
    config: MessageBusConfig,
    verdict: Result<(), String>,
    r: Result<MessageBusConfig, String>,
)
    requires
        call_ensures(MessageBusConfig::validated, (config, verdict), r),
    ensures
        verdict is Ok ==> (r matches Ok(valid) && valid == config),
        verdict matches Err(fault) ==> (r matches Err(told) && told == fault),
{
}

/// A message gives back what it holds, and is represented by its text in quotes.
pub proof fn messages_give_back_what_they_hold(
    message: &BusMessage,
    topic: String,
    payload_type: String,
    payload: &Vec<u8>,
    encoding: SerializationEncoding,
    text: &str,
    repr: String,
)
    requires
        call_ensures(BusMessage::py_topic, (message,), topic),
        call_ensures(BusMessage::py_payload_type, (message,), payload_type),
        call_ensures(BusMessage::py_payload, (message,), payload),
        call_ensures(BusMessage::py_encoding, (message,), encoding),
        call_ensures(BusMessage::repr, (message, text), repr),
    ensures
        topic@ == message.topic@,
        payload_type@ == message.payload_type@,
        payload@ == message.payload@,
        encoding == message.encoding,
        repr@ == "BusMessage('"@ + text@ + "')"@,
{
}

/// A handler has the representation of its callable as its identity, and calls that callable: with
/// a message as it is, and with what an order status report becomes once it is converted. What is
/// not supported, cannot be converted or fails is logged as such.
pub proof fn handlers_call_their_callable(
    repr: &str,
    callable: u64,
    handler: PyCallableHandler,
    id: &'static str,
    delivery: Delivery,
    step: HandlerStep,
    object: Option<u64>,
    converted: HandlerStep,
    succeeded: bool,
    called: HandlerStep,
)
    requires
        call_ensures(PyCallableHandler::new, (repr, callable), handler),
        call_ensures(PyCallableHandler::id, (&handler,), id),
        call_ensures(PyCallableHandler::handle, (&handler, delivery), step),
        call_ensures(PyCallableHandler::converted, (&handler, object), converted),
        call_ensures(PyCallableHandler::called, (&handler, succeeded), called),
    ensures
        id@ == repr@,
        match delivery {
            Delivery::Message(PyMessage(argument)) => step == (HandlerStep::Call {
                callable,
                argument,
            }),
            Delivery::OrderStatusReport => step == HandlerStep::Convert,
            Delivery::Other => step == HandlerStep::LogUnsupported,
        },
        object matches Some(argument) ==> converted == (HandlerStep::Call { callable, argument }),
        object is None ==> converted == HandlerStep::LogConversionFailed,
        succeeded ==> called == HandlerStep::Done,
        !succeeded ==> called == HandlerStep::LogCallFailed,
{
}

/// A registry starts without extractors.
pub proof fn new_registries_hold_nothing(
    registry: MessageBusFactoryRegistry,
    default: MessageBusFactoryRegistry,
    factory_type: &str,
    r: Result<u64, RegistryError>,
    default_r: Result<u64, RegistryError>,
)
    requires
        call_ensures(MessageBusFactoryRegistry::new, (), registry),
        call_ensures(MessageBusFactoryRegistry::default, (), default),
        call_ensures(MessageBusFactoryRegistry::extract, (&registry, factory_type), r),
        call_ensures(MessageBusFactoryRegistry::extract, (&default, factory_type), default_r),
    ensures
        r == Err::<u64, RegistryError>(RegistryError::NotRegistered),
        default_r == Err::<u64, RegistryError>(RegistryError::NotRegistered),
        registry.label_text() == "message bus factory"@,
        default.label_text() == "message bus factory"@,
{
}

/// The extractor that was registered first for a type is the one that is found for it: it may be
/// registered again, and another one is refused; extractors for other types are not concerned.
pub proof fn registered_extractors_are_found(
    registering: &mut MessageBusFactoryRegistry,
    before: MessageBusFactoryRegistry,
    after: MessageBusFactoryRegistry,
    factory_type: &str,
    extractor: u64,
    r: Result<(), RegistryError>,
    found_before: Result<u64, RegistryError>,
    found_after: Result<u64, RegistryError>,
    other: &str,
    other_before: Result<u64, RegistryError>,
    other_after: Result<u64, RegistryError>,
)
    requires
        *registering == before,
        *final(registering) == after,
        call_ensures(
            MessageBusFactoryRegistry::register,
            (registering, factory_type, extractor),
            r,
        ),
        call_ensures(MessageBusFactoryRegistry::extract, (&before, factory_type), found_before),
        call_ensures(MessageBusFactoryRegistry::extract, (&after, factory_type), found_after),
        other@ != factory_type@,
        call_ensures(MessageBusFactoryRegistry::extract, (&before, other), other_before),
        call_ensures(MessageBusFactoryRegistry::extract, (&after, other), other_after),
    ensures
        found_before is Err ==> r is Ok && found_after == Ok::<u64, RegistryError>(extractor),
        found_before matches Ok(held) ==> found_after == Ok::<u64, RegistryError>(held),
        found_before matches Ok(held) ==> (r is Ok <==> held == extractor),
        r is Err ==> r == Err::<(), RegistryError>(RegistryError::AlreadyRegistered),
        other_before == other_after,
        after.label_text() == before.label_text(),
{
}

} // verus!
