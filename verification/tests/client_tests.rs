use component_daemon::client::{
    connection_init_message, handshake_attempts, subprotocol_name, subscribe_message, ConnState,
    HandshakeMode, TransportFrame, UpstreamClient, RECONNECT_DELAY_SECS,
};

#[test]
fn handshake_variants_in_order() {
    let modes = handshake_attempts();
    assert_eq!(modes, vec![HandshakeMode::WithSubprotocol, HandshakeMode::Plain]);
    assert_eq!(subprotocol_name(), "graphql-ws");
}

#[test]
fn outbound_message_texts() {
    assert_eq!(connection_init_message(), "{\"type\":\"connection_init\"}");
    assert_eq!(
        subscribe_message(),
        "{\"id\":\"registry-sub\",\"type\":\"start\",\"payload\":{\"query\":\"subscription { componentUpdate { id type data createdAt } }\"}}"
    );
}

#[test]
fn transport_error_backs_off_and_retries_indefinitely() {
    let mut cl = UpstreamClient::new();
    assert_eq!(cl.current_state(), ConnState::Disconnected);
    cl.begin_connect();
    let init = cl.on_connected();
    assert_eq!(init, "{\"type\":\"connection_init\"}");
    assert_eq!(cl.current_state(), ConnState::AwaitingAck);
    // simulated transport error: terminal, then back to Disconnected after
    // the fixed back-off, then a fresh attempt
    cl.on_transport_closed();
    assert_eq!(cl.current_state(), ConnState::Closed);
    cl.reset_for_retry();
    assert_eq!(cl.current_state(), ConnState::Disconnected);
    assert_eq!(RECONNECT_DELAY_SECS, 2);
    // every attempt failing: the same cycle repeats from the same state
    for _ in 0..3 {
        cl.begin_connect();
        assert_eq!(cl.current_state(), ConnState::Connecting);
        cl.on_connect_failed();
        assert_eq!(cl.current_state(), ConnState::Disconnected);
    }
}

#[test]
fn ping_is_echoed_and_close_is_terminal_in_any_state() {
    let mut cl = UpstreamClient::new();
    cl.begin_connect();
    let _ = cl.on_connected();
    let _ = cl.on_ack();
    assert_eq!(cl.current_state(), ConnState::Subscribed);
    // ping: an immediate pong carrying the same payload, no state change
    let pong = cl.on_transport_frame(TransportFrame::Ping(vec![1, 2, 3]));
    assert_eq!(pong, Some(vec![1, 2, 3]));
    assert_eq!(cl.current_state(), ConnState::Subscribed);
    // pong: a no-op
    assert_eq!(cl.on_transport_frame(TransportFrame::Pong), None);
    assert_eq!(cl.current_state(), ConnState::Subscribed);
    // close: terminal regardless of the subscription state
    assert_eq!(cl.on_transport_frame(TransportFrame::Close), None);
    assert_eq!(cl.current_state(), ConnState::Closed);
}

#[test]
fn acknowledgment_subscribes() {
    let mut cl = UpstreamClient::new();
    cl.begin_connect();
    let _ = cl.on_connected();
    let sub = cl.on_ack();
    assert_eq!(cl.current_state(), ConnState::Subscribed);
    assert_eq!(sub, subscribe_message());
}
