//! One connection to the bus, as a state machine: the handshake and the
//! read loop decide here; the owner of the socket performs what they ask.
use vstd::prelude::*;
use crate::json::json_parse;
use crate::message::{decodable, encodes, parse_message, GatewayMessage};

verus! {

/// Why a connection attempt or a connection failed.
#[derive(Debug, Clone, Copy, PartialEq, Eq, Structural)]
pub enum ClientError {
    /// The bus address is not a URL.
    InvalidUrl,
    /// No answer came in time during the handshake.
    HandshakeTimeout,
    /// The bus answered the handshake with an error.
    AuthRejected,
    /// The bus answered the handshake out of turn.
    ProtocolViolation,
    /// The transport failed.
    TransportError,
    /// The operation needs a connection in another state.
    NotConnected,
}

/// Where a connection stands.
#[derive(Debug, Clone, Copy, PartialEq, Eq, Structural)]
pub enum SessionState {
    Disconnected,
    Handshaking,
    Authenticating,
    Subscribed,
    Streaming,
    Closed,
}

/// What happened while the handshake waited.
pub enum HandshakeEvent {
    /// A message arrived.
    Received(GatewayMessage),
    /// A frame arrived that holds no message.
    Unreadable,
    /// The wait ran out.
    TimedOut,
    /// The transport failed or closed.
    TransportFailed,
}

/// What the handshake asks for next.
#[derive(Debug)]
pub enum HandshakeStep {
    /// Send this message and wait again.
    Send(GatewayMessage),
    /// The session is open: send this subscription and start reading.
    Established { subscribe: GatewayMessage, session_id: String },
    /// The attempt failed.
    Failed(ClientError),
}

/// A frame read from the transport.
pub enum Frame {
    Text(String),
    Binary(Vec<u8>),
    Ping(Vec<u8>),
    Pong(Vec<u8>),
    Close,
    /// The read itself failed.
    ReadError,
}

/// What the read loop asks for after a frame.
#[derive(Debug)]
pub enum ReadAction {
    /// Hand this message on (waiting while the channel is full).
    Forward(GatewayMessage),
    /// The frame held no message: drop it with a warning.
    Malformed,
    /// Nothing to do.
    Ignore,
    /// Answer a keep-alive with this pong payload.
    Reply(Vec<u8>),
    /// The peer closed: the connection ended normally.
    Disconnected,
    /// Wait a moment before reading again.
    Pause,
    /// The connection failed.
    Fail(ClientError),
}

/// Transport errors in a row that a connection survives.
pub const MAX_CONSECUTIVE_ERRORS: u32 = 5;

/// The pause after a transport error, in milliseconds.
pub const ERROR_PAUSE_MS: u64 = 1000;

/// The role this client announces.
pub open spec fn observer_role() -> Seq<char> {
    "observer"@
}

/// The version this client announces.
pub open spec fn client_version() -> Seq<char> {
    "0.1.0"@
}

/// The channels this client asks for.
pub open spec fn wanted_channels() -> Seq<Seq<char>> {
    seq!["agent_events"@, "tool_calls"@, "outputs"@]
}

/// `m` is the subscription to the wanted channels.
pub open spec fn is_subscription(m: GatewayMessage) -> bool {
    match m {
        GatewayMessage::Subscribe { channels } => {
            &&& channels@.len() == 3
            &&& forall|i: int| 0 <= i < 3 ==> (#[trigger] channels@[i])@ == wanted_channels()[i]
        },
        _ => false,
    }
}

/// What a client holds, as the contracts see it.
pub struct ClientState {
    pub url: Seq<char>,
    pub token: Seq<char>,
    pub session_id: Option<Seq<char>>,
    pub state: SessionState,
    pub errors: nat,
}

/// The normalised form of a URL, if the text is one.
pub uninterp spec fn url_normal(s: Seq<char>) -> Option<Seq<char>>;

/// Relies on `url::Url::parse` and the URL's serialisation: the normalised
/// URL is a function of the text alone, and there is none where it does not
/// parse.
#[verifier::external_body]
fn normalise_url(s: &str) -> (r: Option<String>)
    ensures
        match r {
            Some(t) => url_normal(s@) == Some(t@),
            None => url_normal(s@) is None,
        },
{
    url::Url::parse(s).ok().map(String::from)
}

/// A client for one connection at a time.
pub struct GatewayClient {
    url: String,
    token: String,
    session_id: Option<String>,
    state: SessionState,
    errors: u32,
}

impl View for GatewayClient {
    type V = ClientState;

    closed spec fn view(&self) -> ClientState {
        ClientState {
            url: self.url@,
            token: self.token@,
            session_id: match self.session_id {
                Some(s) => Some(s@),
                None => None,
            },
            state: self.state,
            errors: self.errors as nat,
        }
    }
}

/// The outcome of the handshake for a state and an event: the step taken
/// and the state after it.
pub open spec fn handshake_spec(
    s: ClientState,
    ev: HandshakeEvent,
    step: HandshakeStep,
    s2: ClientState,
) -> bool {
    let waiting = s.state == SessionState::Handshaking || s.state == SessionState::Authenticating;
    let closed = ClientState { state: SessionState::Closed, ..s };
    if !waiting {
        step == HandshakeStep::Failed(ClientError::NotConnected) && s2 == s
    } else {
        match ev {
            HandshakeEvent::Received(GatewayMessage::ConnectChallenge { payload, .. }) => if s.state
                == SessionState::Handshaking {
                &&& step matches HandshakeStep::Send(GatewayMessage::Auth { token, nonce })
                    && token@ == s.token && nonce == payload.nonce
                &&& s2 == ClientState { state: SessionState::Authenticating, ..s }
            } else {
                step == HandshakeStep::Failed(ClientError::ProtocolViolation) && s2 == closed
            },
            HandshakeEvent::Received(GatewayMessage::Connected { session_id }) => {
                &&& step matches HandshakeStep::Established { subscribe, session_id: sid }
                    && sid == session_id && is_subscription(subscribe)
                &&& s2 == ClientState {
                    state: SessionState::Subscribed,
                    session_id: Some(session_id@),
                    ..s
                }
            },
            HandshakeEvent::Received(GatewayMessage::Error { .. }) => step == HandshakeStep::Failed(
                ClientError::AuthRejected,
            ) && s2 == closed,
            HandshakeEvent::Received(_) => step == HandshakeStep::Failed(
                ClientError::ProtocolViolation,
            ) && s2 == closed,
            HandshakeEvent::Unreadable => step == HandshakeStep::Failed(
                ClientError::ProtocolViolation,
            ) && s2 == closed,
            HandshakeEvent::TimedOut => step == HandshakeStep::Failed(ClientError::HandshakeTimeout)
                && s2 == closed,
            HandshakeEvent::TransportFailed => step == HandshakeStep::Failed(
                ClientError::TransportError,
            ) && s2 == closed,
        }
    }
}

fn subscription() -> (r: GatewayMessage)
    ensures
        is_subscription(r),
{
    let mut channels: Vec<String> = Vec::new();
    channels.push("agent_events".to_owned());
    channels.push("tool_calls".to_owned());
    channels.push("outputs".to_owned());
    GatewayMessage::Subscribe { channels }
}

impl GatewayClient {
    /// Well-formed: a streaming connection has survived its transport
    /// errors so far.
    pub closed spec fn wf(&self) -> bool {
        self.errors <= MAX_CONSECUTIVE_ERRORS
    }

    /// A client for the bus at `url`, not yet connected. Fails exactly when
    /// `url` is not a URL.
    pub fn new(url: &str, auth_token: &str) -> (r: Result<GatewayClient, ClientError>)
        ensures
            r is Ok <==> url_normal(url@) is Some,
            r is Err ==> r == Err::<GatewayClient, ClientError>(ClientError::InvalidUrl),
            match r {
                Ok(c) => c.wf() && c@ == (ClientState {
                    url: url_normal(url@).unwrap(),
                    token: auth_token@,
                    session_id: None,
                    state: SessionState::Disconnected,
                    errors: 0,
                }),
                Err(_) => true,
            },
    {
        match normalise_url(url) {
            Some(u) => Ok(
                GatewayClient {
                    url: u,
                    token: auth_token.to_owned(),
                    session_id: None,
                    state: SessionState::Disconnected,
                    errors: 0,
                },
            ),
            None => Err(ClientError::InvalidUrl),
        }
    }

    /// The normalised bus address.
    pub fn url(&self) -> (r: &str)
        ensures
            r@ == self@.url,
    {
        self.url.as_str()
    }

    /// The session id of the current connection, once the handshake is done.
    pub fn session_id(&self) -> (r: Option<&str>)
        ensures
            match r {
                Some(s) => self@.session_id == Some(s@),
                None => self@.session_id is None,
            },
    {
        match &self.session_id {
            Some(s) => Some(s.as_str()),
            None => None,
        }
    }

    /// Where the connection stands.
    pub fn state(&self) -> (r: SessionState)
        ensures
            r == self@.state,
    {
        self.state
    }

    /// Starts a connection attempt on a fresh transport: forgets any earlier
    /// session and returns the opening message to send.
    pub fn connect(&mut self) -> (r: GatewayMessage)
        requires
            old(self).wf(),
        ensures
            final(self).wf(),
            final(self)@ == (ClientState {
                session_id: None,
                state: SessionState::Handshaking,
                errors: 0,
                ..old(self)@
            }),
            r matches GatewayMessage::Connect { role, version } && role@ == observer_role()
                && version@ == client_version(),
    {
        self.session_id = None;
        self.state = SessionState::Handshaking;
        self.errors = 0;
        GatewayMessage::Connect { role: "observer".to_owned(), version: "0.1.0".to_owned() }
    }

    /// Takes one handshake event: answers a challenge with the token and
    /// its nonce, completes on `Connected`, and fails on anything else.
    pub fn on_handshake(&mut self, ev: HandshakeEvent) -> (r: HandshakeStep)
        requires
            old(self).wf(),
        ensures
            final(self).wf(),
            handshake_spec(old(self)@, ev, r, final(self)@),
    {
        if self.state != SessionState::Handshaking && self.state != SessionState::Authenticating {
            return HandshakeStep::Failed(ClientError::NotConnected);
        }
        match ev {
            HandshakeEvent::Received(GatewayMessage::ConnectChallenge { event: _, payload }) => {
                if self.state == SessionState::Handshaking {
                    self.state = SessionState::Authenticating;
                    HandshakeStep::Send(
                        GatewayMessage::Auth { token: self.token.clone(), nonce: payload.nonce },
                    )
                } else {
                    self.state = SessionState::Closed;
                    HandshakeStep::Failed(ClientError::ProtocolViolation)
                }
            },
            HandshakeEvent::Received(GatewayMessage::Connected { session_id }) => {
                self.state = SessionState::Subscribed;
                self.session_id = Some(session_id.clone());
                HandshakeStep::Established { subscribe: subscription(), session_id }
            },
            HandshakeEvent::Received(GatewayMessage::Error { .. }) => {
                self.state = SessionState::Closed;
                HandshakeStep::Failed(ClientError::AuthRejected)
            },
            HandshakeEvent::Received(_) => {
                self.state = SessionState::Closed;
                HandshakeStep::Failed(ClientError::ProtocolViolation)
            },
            HandshakeEvent::Unreadable => {
                self.state = SessionState::Closed;
                HandshakeStep::Failed(ClientError::ProtocolViolation)
            },
            HandshakeEvent::TimedOut => {
                self.state = SessionState::Closed;
                HandshakeStep::Failed(ClientError::HandshakeTimeout)
            },
            HandshakeEvent::TransportFailed => {
                self.state = SessionState::Closed;
                HandshakeStep::Failed(ClientError::TransportError)
            },
        }
    }

    /// Starts the read loop of a subscribed connection. Fails, changing
    /// nothing, on a connection that has not completed its handshake.
    pub fn run(&mut self) -> (r: Result<(), ClientError>)
        requires
            old(self).wf(),
        ensures
            final(self).wf(),
            old(self)@.state == SessionState::Subscribed ==> r is Ok && final(self)@ == (
            ClientState { state: SessionState::Streaming, errors: 0, ..old(self)@ }),
            old(self)@.state != SessionState::Subscribed ==> r == Err::<(), ClientError>(
                ClientError::NotConnected,
            ) && final(self)@ == old(self)@,
    {
        if self.state != SessionState::Subscribed {
            return Err(ClientError::NotConnected);
        }
        self.state = SessionState::Streaming;
        self.errors = 0;
        Ok(())
    }

    /// Takes one frame of a streaming connection. A text frame resets the
    /// count of transport errors and is handed on if it holds a message,
    /// dropped otherwise; a ping is answered with its payload; a close ends
    /// the connection normally; a read error is survived, after a pause,
    /// up to `MAX_CONSECUTIVE_ERRORS` in a row, and the next one is fatal.
    pub fn on_frame(&mut self, frame: Frame) -> (r: ReadAction)
        requires
            old(self).wf(),
        ensures
            final(self).wf(),
            frame_spec(old(self)@, frame, r, final(self)@),
    {
        if self.state != SessionState::Streaming {
            return ReadAction::Fail(ClientError::NotConnected);
        }
        match frame {
            Frame::Text(text) => {
                self.errors = 0;
                match parse_message(text.as_str()) {
                    Some(m) => ReadAction::Forward(m),
                    None => ReadAction::Malformed,
                }
            },
            Frame::Ping(data) => ReadAction::Reply(data),
            Frame::Close => {
                self.state = SessionState::Closed;
                ReadAction::Disconnected
            },
            Frame::ReadError => {
                if self.errors >= MAX_CONSECUTIVE_ERRORS {
                    self.state = SessionState::Closed;
                    ReadAction::Fail(ClientError::TransportError)
                } else {
                    self.errors = self.errors + 1;
                    ReadAction::Pause
                }
            },
            _ => ReadAction::Ignore,
        }
    }
}

/// The outcome of the read loop for a state and a frame: the action taken
/// and the state after it.
pub open spec fn frame_spec(s: ClientState, frame: Frame, r: ReadAction, s2: ClientState) -> bool {
    if s.state != SessionState::Streaming {
        r == ReadAction::Fail(ClientError::NotConnected) && s2 == s
    } else {
        match frame {
            Frame::Text(text) => {
                &&& s2 == ClientState { errors: 0, ..s }
                &&& match json_parse(text@) {
                    Some(v) => if decodable(v) {
                        r matches ReadAction::Forward(m) && encodes(v, m)
                    } else {
                        r == ReadAction::Malformed
                    },
                    None => r == ReadAction::Malformed,
                }
            },
            Frame::Ping(data) => r == ReadAction::Reply(data) && s2 == s,
            Frame::Close => r == ReadAction::Disconnected && s2 == ClientState {
                state: SessionState::Closed,
                ..s
            },
            Frame::ReadError => if s.errors >= MAX_CONSECUTIVE_ERRORS {
                r == ReadAction::Fail(ClientError::TransportError) && s2 == ClientState {
                    state: SessionState::Closed,
                    ..s
                }
            } else {
                r == ReadAction::Pause && s2 == ClientState { errors: s.errors + 1, ..s }
            },
            _ => r == ReadAction::Ignore && s2 == s,
        }
    }
}

} // verus!
