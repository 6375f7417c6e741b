//! The message bus.

use ib_adapter::msgbus::bus::{BusError, BusInputs, PublishStep, PyMessageBus, RequestStep};
use ib_adapter::msgbus::config::{
    BusMessage, ConfigSettings, MessageBusConfig, SerializationEncoding,
};
use ib_adapter::msgbus::external::{ExternalAction, ExternalEvent, ExternalRoute, ExternalState};
use ib_adapter::msgbus::handler::{Delivery, HandlerStep, PyCallableHandler, PyMessage};
use ib_adapter::msgbus::registry::{MessageBusFactoryRegistry, RegistryError};
use ib_adapter::msgbus::topics::{
    any_selected, is_subscribed, sorted_topics, subscription_texts, Subscription,
};

#[test]
fn test_message_bus_factory_registry_compatibility_constructors() {
    let registry = MessageBusFactoryRegistry::new();
    let default_registry = MessageBusFactoryRegistry::default();

    assert_eq!(format!("{registry:?}"), format!("{default_registry:?}"));
    assert!(format!("{registry:?}").contains("message bus factory"));
}

#[test]
fn registries_keep_the_first_extractor_of_a_type() {
    let mut registry = MessageBusFactoryRegistry::new();
    assert_eq!(
        registry.extract("RedisFactory"),
        Err(RegistryError::NotRegistered)
    );
    assert_eq!(registry.register("RedisFactory", 1), Ok(()));
    assert_eq!(registry.register("RedisFactory", 1), Ok(()));
    assert_eq!(
        registry.register("RedisFactory", 2),
        Err(RegistryError::AlreadyRegistered)
    );
    assert_eq!(registry.register("OtherFactory", 2), Ok(()));
    assert_eq!(registry.extract("RedisFactory"), Ok(1));
    assert_eq!(registry.extract("OtherFactory"), Ok(2));
    assert_eq!(
        registry.extract("redisfactory"),
        Err(RegistryError::NotRegistered)
    );
}

fn default_config() -> MessageBusConfig {
    MessageBusConfig {
        encoding: SerializationEncoding::MsgPack,
        encoding_market_data: Some(SerializationEncoding::Sbe),
        encoding_builtin: None,
        timestamps_as_iso8601: false,
        buffer_interval_ms: Some(5),
        autotrim_mins: None,
        autotrim_maxlen: None,
        use_trader_prefix: true,
        use_trader_id: true,
        use_instance_id: false,
        streams_prefix: "stream".to_string(),
        stream_per_topic: true,
        external_streams: Some(vec!["x".to_string()]),
        types_filter: None,
        heartbeat_interval_secs: None,
    }
}

fn no_settings() -> ConfigSettings {
    ConfigSettings {
        encoding: None,
        encoding_market_data: None,
        encoding_builtin: None,
        timestamps_as_iso8601: None,
        buffer_interval_ms: None,
        autotrim_mins: None,
        autotrim_maxlen: None,
        use_trader_prefix: None,
        use_trader_id: None,
        use_instance_id: None,
        streams_prefix: None,
        stream_per_topic: None,
        external_streams: None,
        types_filter: None,
        heartbeat_interval_secs: None,
    }
}

#[test]
fn a_verdict_against_a_configuration_is_its_error() {
    let config = MessageBusConfig::py_new(
        ConfigSettings {
            encoding: Some(SerializationEncoding::Json),
            encoding_builtin: Some(SerializationEncoding::Capnp),
            ..no_settings()
        },
        default_config(),
    );
    assert_eq!(config.encoding(), SerializationEncoding::Json);
    assert_eq!(
        config.encoding_builtin(),
        Some(SerializationEncoding::Capnp)
    );

    let found = "MessageBusConfig.encoding_builtin has unsupported value: capnp is not supported by AccountState, OrderEventAny, PositionEvent, PortfolioSnapshot";
    assert_eq!(
        config.validated(Err(found.to_string())).unwrap_err(),
        found
    );
}

#[test]
fn settings_that_are_left_out_take_their_defaults() {
    let config = MessageBusConfig::py_new(no_settings(), default_config());
    assert_eq!(config.encoding(), SerializationEncoding::MsgPack);
    assert_eq!(config.encoding_market_data(), None);
    assert_eq!(config.encoding_builtin(), None);
    assert!(!config.timestamps_as_iso8601());
    assert_eq!(config.buffer_interval_ms(), None);
    assert_eq!(config.autotrim_mins(), None);
    assert_eq!(config.autotrim_maxlen(), None);
    assert!(config.use_trader_prefix());
    assert!(config.use_trader_id());
    assert!(!config.use_instance_id());
    assert_eq!(config.streams_prefix(), "stream");
    assert!(config.stream_per_topic());
    assert_eq!(config.external_streams(), &None);
    assert_eq!(config.types_filter(), &None);
    assert_eq!(config.heartbeat_interval_secs(), None);
    assert!(config.validated(Ok(())).is_ok());

    let config = MessageBusConfig::py_new(
        ConfigSettings {
            timestamps_as_iso8601: Some(true),
            use_trader_prefix: Some(false),
            use_trader_id: Some(false),
            use_instance_id: Some(true),
            streams_prefix: Some("s".to_string()),
            stream_per_topic: Some(false),
            external_streams: Some(vec!["a".to_string()]),
            types_filter: Some(vec!["T".to_string()]),
            heartbeat_interval_secs: Some(30),
            ..no_settings()
        },
        default_config(),
    );
    assert!(config.timestamps_as_iso8601());
    assert!(!config.use_trader_prefix());
    assert!(!config.use_trader_id());
    assert!(config.use_instance_id());
    assert_eq!(config.streams_prefix(), "s");
    assert!(!config.stream_per_topic());
    assert_eq!(config.external_streams(), &Some(vec!["a".to_string()]));
    assert_eq!(config.types_filter(), &Some(vec!["T".to_string()]));
    assert_eq!(config.heartbeat_interval_secs(), Some(30));
}

#[test]
fn bus_messages_show_what_they_hold() {
    let message = BusMessage {
        topic: "events.order".to_string(),
        payload_type: "OrderFilled".to_string(),
        payload: vec![1, 2, 3],
        encoding: SerializationEncoding::Json,
    };
    assert_eq!(message.py_topic(), "events.order");
    assert_eq!(message.py_payload_type(), "OrderFilled");
    assert_eq!(message.py_payload(), &vec![1, 2, 3]);
    assert_eq!(message.py_encoding(), SerializationEncoding::Json);
    assert_eq!(message.repr("[events.order] x"), "BusMessage('[events.order] x')");
}

#[test]
fn test_py_message_downcast() {
    let msg = PyMessage(42);
    let any_ref: &dyn std::any::Any = &msg;
    let downcasted = any_ref.downcast_ref::<PyMessage>();
    assert!(downcasted.is_some());
    assert_eq!(downcasted.unwrap().0, 42);
}

#[test]
fn test_py_callable_handler_id_stability() {
    let repr = "<function <lambda> at 0x7f>";
    let handler1 = PyCallableHandler::new(repr, 1);
    let handler2 = PyCallableHandler::new(repr, 1);

    assert_eq!(handler1.id(), handler2.id());
    assert_eq!(handler1.id(), repr);
    assert_ne!(PyCallableHandler::new("another", 1).id(), handler1.id());
}

#[test]
fn test_py_callable_handler_dispatch() {
    let handler = PyCallableHandler::new("handler", 1);
    assert_eq!(
        handler.handle(Delivery::Message(PyMessage(9))),
        HandlerStep::Call {
            callable: 1,
            argument: 9
        }
    );
    assert_eq!(handler.called(true), HandlerStep::Done);
}

#[test]
fn test_py_callable_handler_converts_rust_order_status_report() {
    let handler = PyCallableHandler::new("handler", 1);
    assert_eq!(
        handler.handle(Delivery::OrderStatusReport),
        HandlerStep::Convert
    );
    assert_eq!(
        handler.converted(Some(5)),
        HandlerStep::Call {
            callable: 1,
            argument: 5
        }
    );
    assert_eq!(handler.converted(None), HandlerStep::LogConversionFailed);
}

#[test]
fn test_publish_any_delivers_order_status_report_to_python_subscriber() {
    let handler = PyCallableHandler::new("handler", 1);
    let mut results = Vec::new();
    for object in [10, 11, 11] {
        assert_eq!(
            handler.handle(Delivery::OrderStatusReport),
            HandlerStep::Convert
        );
        if let HandlerStep::Call { argument, .. } = handler.converted(Some(object)) {
            results.push(argument);
        }
    }
    assert_eq!(
        results,
        vec![10, 11, 11],
        "one Rust publish must yield one Python invocation; duplicates are not deduped"
    );
}

#[test]
fn test_python_callback_exception_is_contained_for_order_status_report() {
    let handler = PyCallableHandler::new("handler", 1);
    let mut results = Vec::new();
    for object in [10, 11] {
        if let HandlerStep::Call { argument, .. } = handler.converted(Some(object)) {
            results.push(argument);
        }
        assert_eq!(handler.called(false), HandlerStep::LogCallFailed);
    }
    assert_eq!(
        results,
        vec![10, 11],
        "callback exceptions must remain contained so later deliveries still occur"
    );
}

#[test]
fn test_py_callable_handler_still_rejects_unbridged_rust_types() {
    let handler = PyCallableHandler::new("handler", 1);
    assert_eq!(
        handler.handle(Delivery::Other),
        HandlerStep::LogUnsupported
    );
}

fn inputs() -> BusInputs {
    BusInputs {
        trader_id: "TRADER-001".to_string(),
        instance_id: None,
        fresh_instance_id: "fresh".to_string(),
        name: None,
        serializer: None,
        backing: None,
        types_filter: None,
    }
}

#[test]
fn new_buses_fill_in_what_is_left_out() {
    let bus = PyMessageBus::py_new(inputs());
    assert_eq!(bus.py_trader_id(), "TRADER-001");
    assert_eq!(bus.py_instance_id(), "fresh");
    assert_eq!(bus.py_name(), "MessageBus");
    assert!(!bus.py_has_backing());
    assert_eq!(bus.py_sent_count(), 0);
    assert_eq!(bus.py_req_count(), 0);
    assert_eq!(bus.py_res_count(), 0);
    assert_eq!(bus.py_pub_count(), 0);

    let bus = PyMessageBus::py_new(BusInputs {
        instance_id: Some("mine".to_string()),
        name: Some("named".to_string()),
        backing: Some(3),
        ..inputs()
    });
    assert_eq!(bus.py_instance_id(), "mine");
    assert_eq!(bus.py_name(), "named");
    assert!(bus.py_has_backing());
}

#[test]
fn requests_wait_for_their_responses() {
    let mut bus = PyMessageBus::py_new(inputs());
    assert_eq!(
        bus.py_request(true, 100, "id-1", Some(7)),
        Ok(RequestStep::Send(PyMessage(100)))
    );
    assert_eq!(
        bus.py_request(true, 101, "id-2", None),
        Ok(RequestStep::Send(PyMessage(101)))
    );
    assert_eq!(bus.py_req_count(), 2);
    assert!(bus.py_is_pending_request("id-1"));
    assert!(!bus.py_is_pending_request("id-2"));

    assert_eq!(
        bus.py_request(true, 102, "id-1", Some(8)),
        Ok(RequestStep::LogDuplicate)
    );
    assert_eq!(
        bus.py_request(false, 103, "id-3", Some(9)),
        Err(BusError::InvalidEndpoint)
    );
    assert_eq!(bus.py_req_count(), 2);

    assert_eq!(bus.py_response("id-1"), Some(7));
    bus.response_handled();
    assert_eq!(bus.py_response("id-1"), None);
    bus.response_handled();
    assert_eq!(bus.py_response("id-2"), None);
    assert_eq!(bus.py_res_count(), 2);
    assert!(!bus.py_is_pending_request("id-1"));
}

#[test]
fn messages_are_counted() {
    let mut bus = PyMessageBus::py_new(inputs());
    assert_eq!(bus.py_send(true, 1), Ok(PyMessage(1)));
    assert_eq!(bus.py_send(false, 1), Err(BusError::InvalidEndpoint));
    assert_eq!(bus.py_sent_count(), 1);

    assert_eq!(
        bus.py_publish(true, 5, true),
        Ok(PublishStep {
            message: PyMessage(5),
            external: true
        })
    );
    assert_eq!(
        bus.py_publish(true, 6, false),
        Ok(PublishStep {
            message: PyMessage(6),
            external: false
        })
    );
    assert_eq!(bus.py_publish(false, 7, true), Err(BusError::InvalidTopic));
    assert_eq!(bus.py_pub_count(), 0);
    bus.message_published();
    assert_eq!(bus.py_pub_count(), 1);
}

#[test]
fn disposing_forgets_what_was_registered() {
    let mut bus = PyMessageBus::py_new(BusInputs {
        backing: Some(3),
        ..inputs()
    });
    bus.py_add_streaming_type(20);
    bus.py_add_streaming_type(20);
    bus.py_add_listener(30);
    assert!(bus.py_is_streaming_type(20));
    assert!(!bus.py_is_streaming_type(21));
    assert_eq!(bus.py_streaming_types(), &vec![20, 20]);
    bus.py_request(true, 1, "id", Some(2)).unwrap();

    assert_eq!(bus.py_dispose(), Some(3));
    assert!(!bus.py_is_streaming_type(20));
    assert!(!bus.py_is_pending_request("id"));
    assert_eq!(bus.py_req_count(), 1);
    assert!(bus.py_has_backing());
    assert_eq!(
        bus.publish_external(),
        (ExternalState::Inspecting, ExternalAction::AskBytes)
    );
    // The listener is gone: after the backing there is nothing more.
    assert_eq!(
        bus.publish_external_next(
            9,
            ExternalState::SendingBacking { payload: 9 },
            ExternalEvent::Published
        ),
        (ExternalState::Finished, ExternalAction::Finish)
    );
}

/// Runs a publication and returns what was published where.
fn publications(
    route: &ExternalRoute,
    filtered: bool,
    is_bytes: bool,
    closed: &[u64],
) -> Vec<(u64, u64)> {
    let mut published = Vec::new();
    let (mut state, mut action) = route.start();
    loop {
        let event = match action {
            ExternalAction::AskFiltered { .. } => ExternalEvent::Answer(filtered),
            ExternalAction::AskBytes => ExternalEvent::Answer(is_bytes),
            ExternalAction::Serialize { .. } => ExternalEvent::Serialized(77),
            ExternalAction::AskClosed { sink } => ExternalEvent::Answer(closed.contains(&sink)),
            ExternalAction::Publish { sink, payload } => {
                published.push((sink, payload));
                ExternalEvent::Published
            }
            ExternalAction::Finish => return published,
        };
        (state, action) = route.next(9, state, event);
    }
}

fn route() -> ExternalRoute {
    ExternalRoute {
        types_filter: Some(1),
        serializer: Some(2),
        backing: Some(3),
        listeners: vec![4, 5, 6],
    }
}

#[test]
fn publications_reach_the_open_sinks() {
    assert_eq!(
        publications(&route(), false, true, &[]),
        vec![(3, 9), (4, 9), (5, 9), (6, 9)]
    );
    assert_eq!(
        publications(&route(), false, false, &[5]),
        vec![(3, 77), (4, 77), (6, 77)]
    );
    assert_eq!(
        publications(&route(), false, false, &[3, 6]),
        vec![(4, 77), (5, 77)]
    );
    assert_eq!(publications(&route(), true, true, &[]), vec![]);

    let bare = ExternalRoute {
        types_filter: None,
        serializer: None,
        backing: None,
        listeners: vec![4],
    };
    assert_eq!(publications(&bare, true, false, &[]), vec![]);
    assert_eq!(publications(&bare, true, true, &[]), vec![(4, 9)]);
    assert_eq!(publications(&bare, true, true, &[4]), vec![]);
}

#[test]
fn messages_are_serialized_at_most_once() {
    for (filtered, is_bytes, expected) in [
        (false, false, 1),
        (false, true, 0),
        (true, false, 0),
        (true, true, 0),
    ] {
        let route = route();
        let mut serialized = 0;
        let (mut state, mut action) = route.start();
        while action != ExternalAction::Finish {
            let event = match action {
                ExternalAction::AskFiltered { .. } => ExternalEvent::Answer(filtered),
                ExternalAction::AskBytes => ExternalEvent::Answer(is_bytes),
                ExternalAction::Serialize { serializer } => {
                    assert_eq!(serializer, 2);
                    serialized += 1;
                    ExternalEvent::Serialized(77)
                }
                ExternalAction::AskClosed { .. } => ExternalEvent::Answer(false),
                _ => ExternalEvent::Published,
            };
            (state, action) = route.next(9, state, event);
        }
        assert_eq!(serialized, expected);
    }
}

#[test]
fn publication_ends_on_an_answer_to_another_question() {
    assert_eq!(
        route().next(9, ExternalState::Filtering, ExternalEvent::Published),
        (ExternalState::Finished, ExternalAction::Finish)
    );
    assert_eq!(
        route().next(
            9,
            ExternalState::AskingListener {
                index: 3,
                payload: 9
            },
            ExternalEvent::Answer(false)
        ),
        (ExternalState::Finished, ExternalAction::Finish)
    );
}

fn texts(values: &[&str]) -> Vec<String> {
    values.iter().map(|v| v.to_string()).collect()
}

#[test]
fn topics_are_sorted_and_occur_once() {
    let patterns = texts(&["events.*", "data.trades", "events.*", "data", "\u{e9}", "Z", "data."]);
    let expected = {
        let mut topics = patterns.clone();
        topics.sort();
        topics.dedup();
        topics
    };
    assert_eq!(sorted_topics(patterns.clone()), expected);
    assert_eq!(
        expected,
        texts(&["Z", "data", "data.", "data.trades", "events.*", "\u{e9}"])
    );
    assert_eq!(
        PyMessageBus::py_new(inputs()).py_topics(patterns),
        expected
    );
    assert_eq!(sorted_topics(Vec::new()), Vec::<String>::new());
}

fn subscriptions() -> Vec<Subscription> {
    [("data.*", "h1"), ("events.*", "h2"), ("data.*", "h2")]
        .iter()
        .map(|(pattern, handler_id)| Subscription {
            pattern: pattern.to_string(),
            handler_id: handler_id.to_string(),
        })
        .collect()
}

#[test]
fn subscriptions_are_shown_and_selected() {
    let all = subscriptions();
    let flags = vec![true, false, true];
    let shown = texts(&[
        "Subscription(topic=data.*, handler=h1)",
        "Subscription(topic=data.*, handler=h2)",
    ]);
    assert_eq!(subscription_texts(&all, Some(&flags)), shown);
    assert_eq!(subscription_texts(&all, None).len(), 3);

    let bus = PyMessageBus::py_new(inputs());
    assert_eq!(bus.py_subscriptions(&all, true, Some(&flags)), Ok(shown));
    assert_eq!(
        bus.py_subscriptions(&all, false, Some(&flags)),
        Err(BusError::InvalidPattern)
    );
    assert_eq!(bus.py_subscriptions(&all, false, None).unwrap().len(), 3);

    let none = vec![false, false, false];
    assert!(any_selected(&all, Some(&flags)));
    assert!(!any_selected(&all, Some(&none)));
    assert_eq!(bus.py_has_subscribers(&all, true, None), Ok(true));
    assert_eq!(bus.py_has_subscribers(&all, true, Some(&none)), Ok(false));
    assert_eq!(
        bus.py_has_subscribers(&all, false, Some(&none)),
        Err(BusError::InvalidPattern)
    );
    assert_eq!(
        bus.py_has_subscribers(&Vec::new(), true, None),
        Ok(false)
    );
}

#[test]
fn subscriptions_are_told_apart_by_topic_and_handler() {
    let all = subscriptions();
    assert!(is_subscribed(&all, "events.*", "h2"));
    assert!(!is_subscribed(&all, "events.*", "h1"));

    let bus = PyMessageBus::py_new(inputs());
    assert_eq!(bus.py_is_subscribed(&all, true, "data.*", "h2"), Ok(true));
    assert_eq!(bus.py_is_subscribed(&all, true, "data", "h2"), Ok(false));
    assert_eq!(
        bus.py_is_subscribed(&all, false, "data.*", "h2"),
        Err(BusError::InvalidPattern)
    );
}
