//! The reconnecting upstream client's state machine. The surrounding
//! transport performs the socket work (connect, read, write, sleep) and
//! reports each outcome here; these transitions decide what happens next
//! and what text, if anything, goes back out on the wire.

use vstd::prelude::*;
use vstd::string::StringExecFns;

verus! {

/// Connection lifecycle of the single upstream connection attempt that
/// exists at any time.
#[derive(Clone, Copy, Debug, PartialEq, Eq, Structural)]
pub enum ConnState {
    Disconnected,
    Connecting,
    AwaitingAck,
    Subscribed,
    Closed,
}

/// The two handshake variants tried, in order, on every reconnect cycle:
/// first declaring the sub-protocol, then a plain attempt without it.
#[derive(Clone, Copy, Debug, PartialEq, Eq, Structural)]
pub enum HandshakeMode {
    WithSubprotocol,
    Plain,
}

/// Fixed back-off, in seconds, between the end of one connection attempt
/// and the start of the next.
pub const RECONNECT_DELAY_SECS: u64 = 2;

/// The sub-protocol declared by the primary handshake variant.
pub fn subprotocol_name() -> (r: &'static str)
    ensures
        r@ == "graphql-ws"@,
{
    "graphql-ws"
}

/// The handshake variants of one reconnect cycle, in the order they are
/// tried; exhausting them is a connection failure, never fatal.
pub fn handshake_attempts() -> (r: Vec<HandshakeMode>)
    ensures
        r@ == seq![HandshakeMode::WithSubprotocol, HandshakeMode::Plain],
{
    let mut v: Vec<HandshakeMode> = Vec::new();
    v.push(HandshakeMode::WithSubprotocol);
    v.push(HandshakeMode::Plain);
    proof {
        assert(v@ =~= seq![HandshakeMode::WithSubprotocol, HandshakeMode::Plain]);
    }
    v
}

/// The initialization message sent immediately after the socket opens.
pub fn connection_init_message() -> (r: String)
    ensures
        r@ == "{\"type\":\"connection_init\"}"@,
{
    String::from_str("{\"type\":\"connection_init\"}")
}

/// The subscribe request sent on receiving the acknowledgment: it names the
/// event stream and a client-chosen subscription identifier.
pub fn subscribe_message() -> (r: String)
    ensures
        r@
            == "{\"id\":\"registry-sub\",\"type\":\"start\",\"payload\":{\"query\":\"subscription { componentUpdate { id type data createdAt } }\"}}"@,
{
    String::from_str(
        "{\"id\":\"registry-sub\",\"type\":\"start\",\"payload\":{\"query\":\"subscription { componentUpdate { id type data createdAt } }\"}}",
    )
}

/// A transport-level control frame, handled independently of the logical
/// subscription messages.
pub enum TransportFrame {
    /// A ping carrying its payload.
    Ping(Vec<u8>),
    /// A pong; nothing to do.
    Pong,
    /// The socket terminated: a close frame, a protocol error or a
    /// transport error.
    Close,
}

/// The upstream client: exactly one logical connection, kept alive for the
/// process lifetime by an unconditional reconnect loop.
pub struct UpstreamClient {
    state: ConnState,
}

impl UpstreamClient {
    pub closed spec fn state(self) -> ConnState {
        self.state
    }

    /// The state this client is in right now.
    pub fn current_state(&self) -> (s: ConnState)
        ensures
            s == self.state(),
    {
        self.state
    }

    /// A client starts with no socket.
    pub fn new() -> (r: UpstreamClient)
        ensures
            r.state() == ConnState::Disconnected,
    {
        UpstreamClient { state: ConnState::Disconnected }
    }

    /// A reconnect cycle begins: the transport is about to try the
    /// handshake variants.
    pub fn begin_connect(&mut self)
        requires
            old(self).state() == ConnState::Disconnected,
        ensures
            final(self).state() == ConnState::Connecting,
    {
        self.state = ConnState::Connecting;
    }

    /// A handshake variant succeeded: the socket is open, the
    /// initialization message goes out, and the acknowledgment is awaited.
    pub fn on_connected(&mut self) -> (init: String)
        requires
            old(self).state() == ConnState::Connecting,
        ensures
            final(self).state() == ConnState::AwaitingAck,
            init@ == "{\"type\":\"connection_init\"}"@,
    {
        self.state = ConnState::AwaitingAck;
        connection_init_message()
    }

    /// The acknowledgment arrived: the client is subscribed, and the
    /// subscribe request naming the event stream goes out.
    pub fn on_ack(&mut self) -> (sub: String)
        requires
            old(self).state() == ConnState::AwaitingAck,
        ensures
            final(self).state() == ConnState::Subscribed,
            sub@
                == "{\"id\":\"registry-sub\",\"type\":\"start\",\"payload\":{\"query\":\"subscription { componentUpdate { id type data createdAt } }\"}}"@,
    {
        self.state = ConnState::Subscribed;
        subscribe_message()
    }

    /// Both handshake variants failed: reported as a connection failure,
    /// not fatal; the client returns to Disconnected and will retry after
    /// the fixed back-off.
    pub fn on_connect_failed(&mut self)
        requires
            old(self).state() == ConnState::Connecting,
        ensures
            final(self).state() == ConnState::Disconnected,
    {
        self.state = ConnState::Disconnected;
    }

    /// One transport control frame, independent of the logical subscription
    /// state: a ping is answered at once by a pong carrying the same
    /// payload, a pong is a no-op, and a close is terminal whatever state
    /// the subscription was in. The result is the pong payload to send, if
    /// any.
    pub fn on_transport_frame(&mut self, frame: TransportFrame) -> (pong: Option<Vec<u8>>)
        ensures
            frame matches TransportFrame::Ping(data) ==> final(self).state() == old(self).state()
                && (pong matches Some(p) && p@ == data@),
            frame is Pong ==> final(self).state() == old(self).state() && pong is None,
            frame is Close ==> final(self).state() == ConnState::Closed && pong is None,
    {
        match frame {
            TransportFrame::Ping(data) => Some(data),
            TransportFrame::Pong => None,
            TransportFrame::Close => {
                self.state = ConnState::Closed;
                None
            },
        }
    }

    /// The socket terminated — graceful close frame, protocol error or
    /// transport error — regardless of the logical subscription state.
    pub fn on_transport_closed(&mut self)
        ensures
            final(self).state() == ConnState::Closed,
    {
        self.state = ConnState::Closed;
    }

    /// Leaving the terminal state: always back to Disconnected, after the
    /// back-off delay; the loop never terminates for the life of the
    /// process.
    pub fn reset_for_retry(&mut self)
        requires
            old(self).state() == ConnState::Closed,
        ensures
            final(self).state() == ConnState::Disconnected,
    {
        self.state = ConnState::Disconnected;
    }
}

} // verus!
