use component_daemon::client::{ConnState, UpstreamClient};
use component_daemon::component::ComponentType;
use component_daemon::daemon::{Action, ComponentDaemon};
use component_daemon::message::{classify_message, decode_entity, kind_of_tag, InboundMessage};

const VALID_DATA: &str = "{\"type\":\"data\",\"payload\":{\"data\":{\"componentUpdate\":{\"id\":\"e1\",\"type\":\"CARD\",\"data\":{\"title\":\"hi\"},\"createdAt\":\"2024-05-01T10:00:00Z\"}}}}";

fn subscribed_session() -> (ComponentDaemon, UpstreamClient) {
    let mut d = ComponentDaemon::new();
    let mut cl = UpstreamClient::new();
    cl.begin_connect();
    let _ = cl.on_connected();
    let a = d.handle_registry_message(&mut cl, "{\"type\":\"connection_ack\"}");
    assert!(matches!(a, Action::Reply(_)));
    assert_eq!(cl.current_state(), ConnState::Subscribed);
    (d, cl)
}

#[test]
fn session_drives_states_and_delivers_exactly_once() {
    let mut d = ComponentDaemon::new();
    let mut cl = UpstreamClient::new();
    cl.begin_connect();
    let _ = cl.on_connected();
    assert_eq!(cl.current_state(), ConnState::AwaitingAck);
    let h = d.subscribe_to_updates();

    let a = d.handle_registry_message(&mut cl, "{\"type\":\"connection_ack\"}");
    match a {
        Action::Reply(s) => assert!(s.contains("componentUpdate")),
        Action::Ignore => panic!("acknowledgment must emit the subscribe request"),
    }
    assert_eq!(cl.current_state(), ConnState::Subscribed);

    let a2 = d.handle_registry_message(&mut cl, VALID_DATA);
    assert!(matches!(a2, Action::Ignore));
    assert_eq!(cl.current_state(), ConnState::Subscribed);

    let a3 = d.handle_registry_message(&mut cl, "{\"type\":\"complete\"}");
    assert!(matches!(a3, Action::Ignore));
    assert_eq!(cl.current_state(), ConnState::Subscribed);

    cl.on_transport_closed();
    assert_eq!(cl.current_state(), ConnState::Closed);
    cl.reset_for_retry();
    assert_eq!(cl.current_state(), ConnState::Disconnected);

    // the one valid entity is in the store exactly once
    assert_eq!(d.get_all_components_count(), 1);
    let snap = d.get_components();
    assert_eq!(snap.len(), 1);
    assert_eq!(snap[0].id, "e1");
    assert_eq!(snap[0].kind, ComponentType::Card);
    assert_eq!(snap[0].data, "{\"title\":\"hi\"}");
    assert_eq!(snap[0].created_at, "2024-05-01T10:00:00Z");

    // and at the attached subscriber exactly once
    let got = d.try_next_update(h).unwrap();
    assert_eq!(got.id, "e1");
    assert!(d.try_next_update(h).is_none());
}

#[test]
fn malformed_data_changes_nothing() {
    let (mut d, mut cl) = subscribed_session();
    let h = d.subscribe_to_updates();
    // entity missing the required createdAt field
    let missing_field = "{\"type\":\"data\",\"payload\":{\"data\":{\"componentUpdate\":{\"id\":\"e1\",\"type\":\"CARD\",\"data\":{}}}}}";
    let a = d.handle_registry_message(&mut cl, missing_field);
    assert!(matches!(a, Action::Ignore));
    assert_eq!(cl.current_state(), ConnState::Subscribed);
    assert_eq!(d.get_all_components_count(), 0);
    assert!(d.get_components().is_empty());
    assert!(d.try_next_update(h).is_none());
}

#[test]
fn invalid_timestamp_is_a_decode_failure() {
    let (mut d, mut cl) = subscribed_session();
    let bad_ts = "{\"type\":\"data\",\"payload\":{\"data\":{\"componentUpdate\":{\"id\":\"e1\",\"type\":\"CARD\",\"data\":{},\"createdAt\":\"not-a-date\"}}}}";
    let a = d.handle_registry_message(&mut cl, bad_ts);
    assert!(matches!(a, Action::Ignore));
    assert_eq!(d.get_all_components_count(), 0);
    // while a parseable timestamp is accepted
    let a2 = d.handle_registry_message(&mut cl, VALID_DATA);
    assert!(matches!(a2, Action::Ignore));
    assert_eq!(d.get_all_components_count(), 1);
}

#[test]
fn unknown_tag_is_a_decode_failure() {
    let (mut d, mut cl) = subscribed_session();
    let bad_tag = "{\"type\":\"data\",\"payload\":{\"data\":{\"componentUpdate\":{\"id\":\"e1\",\"type\":\"BANNER\",\"data\":{},\"createdAt\":\"2024-05-01T10:00:00Z\"}}}}";
    let _ = d.handle_registry_message(&mut cl, bad_tag);
    assert_eq!(d.get_all_components_count(), 0);
}

#[test]
fn upstream_errors_keepalive_and_unknown_types_are_tolerated() {
    let (mut d, mut cl) = subscribed_session();
    for text in [
        "{\"type\":\"data\",\"payload\":{\"errors\":[{\"message\":\"boom\"}]}}",
        "{\"type\":\"error\",\"payload\":{\"message\":\"boom\"}}",
        "{\"type\":\"ka\"}",
        "{\"type\":\"totally_new_frame\"}",
        "{\"no_type_at_all\":true}",
        "not json at all",
    ] {
        let a = d.handle_registry_message(&mut cl, text);
        assert!(matches!(a, Action::Ignore));
        assert_eq!(cl.current_state(), ConnState::Subscribed);
        assert_eq!(d.get_all_components_count(), 0);
    }
}

#[test]
fn acknowledgment_outside_awaiting_ack_is_ignored() {
    let (mut d, mut cl) = subscribed_session();
    let a = d.handle_registry_message(&mut cl, "{\"type\":\"connection_ack\"}");
    assert!(matches!(a, Action::Ignore));
    assert_eq!(cl.current_state(), ConnState::Subscribed);
    // and an entity before subscription is ignored too
    let mut d2 = ComponentDaemon::new();
    let mut cl2 = UpstreamClient::new();
    cl2.begin_connect();
    let _ = cl2.on_connected();
    let a2 = d2.handle_registry_message(&mut cl2, VALID_DATA);
    assert!(matches!(a2, Action::Ignore));
    assert_eq!(cl2.current_state(), ConnState::AwaitingAck);
    assert_eq!(d2.get_all_components_count(), 0);
}

#[test]
fn classify_recognizes_each_frame_type() {
    assert!(matches!(
        classify_message("{\"type\":\"connection_ack\"}"),
        InboundMessage::ConnectionAck
    ));
    match classify_message(VALID_DATA) {
        InboundMessage::EntityUpdate(c) => {
            assert_eq!(c.id, "e1");
            assert_eq!(c.kind, ComponentType::Card);
        },
        _ => panic!("a valid entity payload must classify as an entity update"),
    }
    assert!(matches!(
        classify_message("{\"type\":\"data\",\"payload\":{\"errors\":[]}}"),
        InboundMessage::DataErrors
    ));
    assert!(matches!(
        classify_message("{\"type\":\"data\"}"),
        InboundMessage::DataMalformed
    ));
    assert!(matches!(
        classify_message("{\"type\":\"data\",\"payload\":{\"data\":{}}}"),
        InboundMessage::DataMalformed
    ));
    assert!(matches!(
        classify_message("{\"type\":\"error\",\"payload\":{}}"),
        InboundMessage::UpstreamError
    ));
    assert!(matches!(classify_message("{\"type\":\"complete\"}"), InboundMessage::Complete));
    assert!(matches!(classify_message("{\"type\":\"ka\"}"), InboundMessage::KeepAlive));
    assert!(matches!(classify_message("{\"type\":\"mystery\"}"), InboundMessage::Unknown));
    assert!(matches!(classify_message("{\"type\":42}"), InboundMessage::Unknown));
    assert!(matches!(classify_message("[1,2,3]"), InboundMessage::Unknown));
    assert!(matches!(classify_message("{{{"), InboundMessage::Unparseable));
}

#[test]
fn entity_decoding_pins_every_field() {
    let cu = "{\"id\":\"e9\",\"type\":\"FORM\",\"data\":{\"fields\":[1,2]},\"createdAt\":\"2024-05-01T10:00:00+02:00\"}";
    let c = decode_entity(cu).unwrap();
    assert_eq!(c.id, "e9");
    assert_eq!(c.kind, ComponentType::Form);
    assert_eq!(c.data, "{\"fields\":[1,2]}");
    assert_eq!(c.created_at, "2024-05-01T10:00:00+02:00");
    // each missing or unacceptable field is a decode failure
    assert!(decode_entity("{\"type\":\"FORM\",\"data\":{},\"createdAt\":\"2024-05-01T10:00:00Z\"}").is_none());
    assert!(decode_entity("{\"id\":\"e9\",\"data\":{},\"createdAt\":\"2024-05-01T10:00:00Z\"}").is_none());
    assert!(decode_entity("{\"id\":\"e9\",\"type\":\"FORM\",\"createdAt\":\"2024-05-01T10:00:00Z\"}").is_none());
    assert!(decode_entity("{\"id\":\"e9\",\"type\":\"FORM\",\"data\":{}}").is_none());
    // a timestamp without an offset is not RFC 3339 and fails
    assert!(decode_entity("{\"id\":\"e9\",\"type\":\"FORM\",\"data\":{},\"createdAt\":\"2024-05-01T10:00:00\"}").is_none());
}

#[test]
fn tags_map_to_the_closed_variant_set() {
    assert_eq!(kind_of_tag(&"CARD".to_string()), Some(ComponentType::Card));
    assert_eq!(kind_of_tag(&"NOTIFICATION".to_string()), Some(ComponentType::Notification));
    assert_eq!(kind_of_tag(&"FORM".to_string()), Some(ComponentType::Form));
    assert_eq!(kind_of_tag(&"card".to_string()), None);
    assert_eq!(kind_of_tag(&"".to_string()), None);
}

#[test]
fn saturated_daemon_subscriber_keeps_newest_hundred() {
    let (mut d, mut cl) = subscribed_session();
    let h = d.subscribe_to_updates();
    for i in 0..105 {
        let text = format!(
            "{{\"type\":\"data\",\"payload\":{{\"data\":{{\"componentUpdate\":{{\"id\":\"e{}\",\"type\":\"CARD\",\"data\":{{}},\"createdAt\":\"2024-05-01T10:00:00Z\"}}}}}}}}",
            i
        );
        let _ = d.handle_registry_message(&mut cl, text.as_str());
    }
    assert_eq!(d.get_all_components_count(), 105);
    // the delivery buffer kept only the newest hundred, still in order
    let first = d.try_next_update(h).unwrap();
    assert_eq!(first.id, "e5");
    let mut count = 1;
    let mut last = first.id;
    while let Some(c) = d.try_next_update(h) {
        last = c.id;
        count += 1;
    }
    assert_eq!(count, 100);
    assert_eq!(last, "e104");
}

#[test]
fn subscriber_limit_is_queryable() {
    let mut d = ComponentDaemon::new();
    assert!(d.can_accept_subscriber());
    let h = d.subscribe_to_updates();
    d.unsubscribe(h);
    d.unsubscribe(h);
    assert!(d.can_accept_subscriber());
}
