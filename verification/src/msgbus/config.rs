//! Configuration and messages of the bus.

use vstd::prelude::*;

verus! {

/// How payloads are encoded.
#[derive(Debug, Clone, Copy, PartialEq, Eq, Structural)]
pub enum SerializationEncoding {
    MsgPack,
    Json,
    Capnp,
    Sbe,
}

/// The configuration of a bus.
#[derive(Debug, PartialEq, Eq)]
pub struct MessageBusConfig {
    pub encoding: SerializationEncoding,
    pub encoding_market_data: Option<SerializationEncoding>,
    pub encoding_builtin: Option<SerializationEncoding>,
    pub timestamps_as_iso8601: bool,
    pub buffer_interval_ms: Option<u32>,
    pub autotrim_mins: Option<u32>,
    pub autotrim_maxlen: Option<u32>,
    pub use_trader_prefix: bool,
    pub use_trader_id: bool,
    pub use_instance_id: bool,
    pub streams_prefix: String,
    pub stream_per_topic: bool,
    pub external_streams: Option<Vec<String>>,
    pub types_filter: Option<Vec<String>>,
    pub heartbeat_interval_secs: Option<u16>,
}

/// The settings that a caller gives; those that it leaves out take their defaults.
#[derive(Debug)]
pub struct ConfigSettings {
    pub encoding: Option<SerializationEncoding>,
    pub encoding_market_data: Option<SerializationEncoding>,
    pub encoding_builtin: Option<SerializationEncoding>,
    pub timestamps_as_iso8601: Option<bool>,
    pub buffer_interval_ms: Option<u32>,
    pub autotrim_mins: Option<u32>,
    pub autotrim_maxlen: Option<u32>,
    pub use_trader_prefix: Option<bool>,
    pub use_trader_id: Option<bool>,
    pub use_instance_id: Option<bool>,
    pub streams_prefix: Option<String>,
    pub stream_per_topic: Option<bool>,
    pub external_streams: Option<Vec<String>>,
    pub types_filter: Option<Vec<String>>,
    pub heartbeat_interval_secs: Option<u16>,
}

/// A setting, or its default.
pub open spec fn chosen<T>(setting: Option<T>, default: T) -> T {
    match setting {
        Some(value) => value,
        None => default,
    }
}

/// The configuration with the given settings and defaults.
pub open spec fn configured(settings: ConfigSettings, default: MessageBusConfig) -> MessageBusConfig {
    MessageBusConfig {
        encoding: chosen(settings.encoding, default.encoding),
        encoding_market_data: settings.encoding_market_data,
        encoding_builtin: settings.encoding_builtin,
        timestamps_as_iso8601: chosen(
            settings.timestamps_as_iso8601,
            default.timestamps_as_iso8601,
        ),
        buffer_interval_ms: settings.buffer_interval_ms,
        autotrim_mins: settings.autotrim_mins,
        autotrim_maxlen: settings.autotrim_maxlen,
        use_trader_prefix: chosen(settings.use_trader_prefix, default.use_trader_prefix),
        use_trader_id: chosen(settings.use_trader_id, default.use_trader_id),
        use_instance_id: chosen(settings.use_instance_id, default.use_instance_id),
        streams_prefix: chosen(settings.streams_prefix, default.streams_prefix),
        stream_per_topic: chosen(settings.stream_per_topic, default.stream_per_topic),
        external_streams: settings.external_streams,
        types_filter: settings.types_filter,
        heartbeat_interval_secs: settings.heartbeat_interval_secs,
    }
}

impl MessageBusConfig {
    /// The configuration with the given settings and defaults, not yet validated.
    pub fn py_new(settings: ConfigSettings, default: MessageBusConfig) -> (r: Self)
        ensures
            r == configured(settings, default),
    {
        MessageBusConfig {
            encoding: settings.encoding.unwrap_or(default.encoding),
            encoding_market_data: settings.encoding_market_data,
            encoding_builtin: settings.encoding_builtin,
            timestamps_as_iso8601: settings.timestamps_as_iso8601.unwrap_or(
                default.timestamps_as_iso8601,
            ),
            buffer_interval_ms: settings.buffer_interval_ms,
            autotrim_mins: settings.autotrim_mins,
            autotrim_maxlen: settings.autotrim_maxlen,
            use_trader_prefix: settings.use_trader_prefix.unwrap_or(default.use_trader_prefix),
            use_trader_id: settings.use_trader_id.unwrap_or(default.use_trader_id),
            use_instance_id: settings.use_instance_id.unwrap_or(default.use_instance_id),
            streams_prefix: settings.streams_prefix.unwrap_or(default.streams_prefix),
            stream_per_topic: settings.stream_per_topic.unwrap_or(default.stream_per_topic),
            external_streams: settings.external_streams,
            types_filter: settings.types_filter,
            heartbeat_interval_secs: settings.heartbeat_interval_secs,
        }
    }

    /// The configuration where it was found valid, and otherwise what was found wrong with it.
    pub fn validated(self, verdict: Result<(), String>) -> (r: Result<Self, String>)
        ensures
            match verdict {
                Ok(_) => r == Ok::<MessageBusConfig, String>(self),
                Err(e) => r == Err::<MessageBusConfig, String>(e),
            },
    {
        match verdict {
            Ok(_) => Ok(self),
            Err(e) => Err(e),
        }
    }

    /// How payloads are encoded.
    pub fn encoding(&self) -> (r: SerializationEncoding)
        ensures
            r == self.encoding,
    {
        self.encoding
    }

    /// How market data is encoded, where it is encoded otherwise.
    pub fn encoding_market_data(&self) -> (r: Option<SerializationEncoding>)
        ensures
            r == self.encoding_market_data,
    {
        self.encoding_market_data
    }

    /// How built-in types are encoded, where they are encoded otherwise.
    pub fn encoding_builtin(&self) -> (r: Option<SerializationEncoding>)
        ensures
            r == self.encoding_builtin,
    {
        self.encoding_builtin
    }

    /// Whether timestamps are written as text.
    pub fn timestamps_as_iso8601(&self) -> (r: bool)
        ensures
            r == self.timestamps_as_iso8601,
    {
        self.timestamps_as_iso8601
    }

    /// How long messages are buffered, in milliseconds.
    pub fn buffer_interval_ms(&self) -> (r: Option<u32>)
        ensures
            r == self.buffer_interval_ms,
    {
        self.buffer_interval_ms
    }

    /// How long messages are kept, in minutes.
    pub fn autotrim_mins(&self) -> (r: Option<u32>)
        ensures
            r == self.autotrim_mins,
    {
        self.autotrim_mins
    }

    /// How many messages are kept.
    pub fn autotrim_maxlen(&self) -> (r: Option<u32>)
        ensures
            r == self.autotrim_maxlen,
    {
        self.autotrim_maxlen
    }

    /// Whether stream names start with `trader`.
    pub fn use_trader_prefix(&self) -> (r: bool)
        ensures
            r == self.use_trader_prefix,
    {
        self.use_trader_prefix
    }

    /// Whether stream names hold the trader.
    pub fn use_trader_id(&self) -> (r: bool)
        ensures
            r == self.use_trader_id,
    {
        self.use_trader_id
    }

    /// Whether stream names hold the instance.
    pub fn use_instance_id(&self) -> (r: bool)
        ensures
            r == self.use_instance_id,
    {
        self.use_instance_id
    }

    /// What stream names start with.
    pub fn streams_prefix(&self) -> (r: &str)
        ensures
            r@ == self.streams_prefix@,
    {
        self.streams_prefix.as_str()
    }

    /// Whether each topic has its stream.
    pub fn stream_per_topic(&self) -> (r: bool)
        ensures
            r == self.stream_per_topic,
    {
        self.stream_per_topic
    }

    /// The streams that are listened to.
    pub fn external_streams(&self) -> (r: &Option<Vec<String>>)
        ensures
            *r == self.external_streams,
    {
        &self.external_streams
    }

    /// The types that are not published.
    pub fn types_filter(&self) -> (r: &Option<Vec<String>>)
        ensures
            *r == self.types_filter,
    {
        &self.types_filter
    }

    /// The interval between heartbeats in seconds.
    pub fn heartbeat_interval_secs(&self) -> (r: Option<u16>)
        ensures
            r == self.heartbeat_interval_secs,
    {
        self.heartbeat_interval_secs
    }
}

/// A message on the bus.
#[derive(Debug)]
pub struct BusMessage {
    pub topic: String,
    pub payload_type: String,
    pub payload: Vec<u8>,
    pub encoding: SerializationEncoding,
}

impl BusMessage {
    /// The topic.
    pub fn py_topic(&self) -> (r: String)
        ensures
            r@ == self.topic@,
    {
        self.topic.clone()
    }

    /// The type of the payload.
    pub fn py_payload_type(&self) -> (r: String)
        ensures
            r@ == self.payload_type@,
    {
        self.payload_type.clone()
    }

    /// The payload.
    pub fn py_payload(&self) -> (r: &Vec<u8>)
        ensures
            r@ == self.payload@,
    {
        &self.payload
    }

    /// How the payload is encoded.
    pub fn py_encoding(&self) -> (r: SerializationEncoding)
        ensures
            r == self.encoding,
    {
        self.encoding
    }

    /// The representation of a message, given its text.
    pub fn repr(&self, text: &str) -> (r: String)
        ensures
            r@ == "BusMessage('"@ + text@ + "')"@,
    {
        "BusMessage('".to_owned().concat(text).concat("')")
    }
}

} // verus!
