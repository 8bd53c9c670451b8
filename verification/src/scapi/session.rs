//! The life of one connection as a state machine. The machine decides; the
//! code that owns the socket performs each action and reports what happened
//! as the next event.

use vstd::prelude::*;
use crate::stbchat::error::CommunicationError;
use crate::stbchat::packet::{ClientPacket, ServerPacket};
use crate::text::{occurs_at, split_whitespace_from, starts_with, to_chars, views, words_from};

verus! {

/// Seconds of silence before the transport probes the peer, and between
/// two probes.
pub const KEEPALIVE_SECS: u64 = 20;

/// Where a session stands.
#[derive(Debug, Clone, Copy, PartialEq, Eq, Structural)]
pub enum SessionState {
    Disconnected,
    Connecting,
    Connected,
    LoggedIn,
    Running,
    Closed,
}

/// What happened outside since the last action.
#[derive(Debug, Clone, PartialEq, Eq)]
pub enum SessionEvent {
    /// The bot was asked to run.
    Start,
    /// The transport stands and keepalive probing is switched on.
    TransportReady,
    /// Connecting or writing failed.
    TransportFailed,
    /// The login packet was written.
    LoginWritten,
    /// A packet was decoded.
    PacketReceived(ClientPacket),
    /// The codec failed with this error.
    DecodeFailed(CommunicationError),
    /// The keepalive interval has passed.
    KeepaliveDue,
}

/// What the owner of the socket is to do next.
#[derive(Debug, Clone, PartialEq, Eq)]
pub enum SessionAction {
    /// Nothing: the event means nothing in this state.
    Idle,
    /// Connect to `address:port` and probe the peer every `keepalive_secs`.
    Connect { address: String, port: u16, keepalive_secs: u64 },
    /// Frame and write this packet.
    Send(ServerPacket),
    /// Decode the next packet.
    Read,
    /// Run the command `name` for `executor`, then decode the next packet.
    Dispatch { name: String, args: Vec<String>, executor: String },
    /// Show this packet, then decode the next one.
    Print(ClientPacket),
    /// Note that a packet of an unknown type came, then decode the next one.
    ReportUnknown,
    /// Write the keepalive sentinel to the raw stream.
    WriteKeepalive,
    /// Give the connection up.
    Close,
}

/// A command call found in a chat message.
#[derive(Debug, Clone, PartialEq, Eq)]
pub struct Invocation {
    /// The first word behind the prefix.
    pub name: String,
    /// The words after the name, in order.
    pub args: Vec<String>,
}

/// The command call that `message` holds: the message begins with
/// `prefix`, and what follows has at least one word. The first word is the
/// name, the others are the arguments.
pub open spec fn command_of(message: Seq<char>, prefix: Seq<char>) -> Option<
    (Seq<char>, Seq<Seq<char>>),
> {
    let found = words_from(message, prefix.len() as int);
    if starts_with(message, prefix) && found.len() > 0 {
        Some((found[0], found.drop_first()))
    } else {
        None
    }
}

/// Finds the command call in a chat message.
pub fn parse_command(message: &str, prefix: &str) -> (r: Option<Invocation>)
    ensures
        match command_of(message@, prefix@) {
            Some((name, args)) => r matches Some(call) && call.name@ == name && views(call.args@)
                == args,
            None => r is None,
        },
{
    let text = to_chars(message);
    let lead = to_chars(prefix);
    if !occurs_at(&text, &lead, 0) {
        return None;
    }
    let mut found = split_whitespace_from(&text, lead.len());
    if found.len() == 0 {
        return None;
    }
    let ghost all = found@;
    let name = found.remove(0);
    assert(views(all)[0] == name@);
    assert(views(found@) =~= views(all).drop_first());
    Some(Invocation { name, args: found })
}

/// Whether the read loop runs or is about to.
pub open spec fn reading(state: SessionState) -> bool {
    state is LoggedIn || state is Running
}

/// Whether the transport stands.
pub open spec fn connected(state: SessionState) -> bool {
    state is Connected || state is LoggedIn || state is Running
}

/// Whether the session goes on after this error: a timeout is retried, a
/// packet of an unknown type is noted and passed over, and a packet too
/// large to send is lost alone.
pub open spec fn tolerated(e: CommunicationError) -> bool {
    e is DecodeTimeout || e is UnknownTag || e is PacketTooLarge
}

/// The state that follows `state` on `event`.
pub open spec fn next_state(state: SessionState, event: SessionEvent) -> SessionState {
    match state {
        SessionState::Disconnected => match event {
            SessionEvent::Start => SessionState::Connecting,
            _ => state,
        },
        SessionState::Connecting => match event {
            SessionEvent::TransportReady => SessionState::Connected,
            SessionEvent::TransportFailed => SessionState::Closed,
            _ => state,
        },
        SessionState::Connected => match event {
            SessionEvent::LoginWritten => SessionState::LoggedIn,
            SessionEvent::TransportFailed => SessionState::Closed,
            _ => state,
        },
        SessionState::LoggedIn | SessionState::Running => match event {
            SessionEvent::PacketReceived(_) => SessionState::Running,
            SessionEvent::DecodeFailed(e) => if tolerated(e) {
                SessionState::Running
            } else {
                SessionState::Closed
            },
            SessionEvent::TransportFailed => SessionState::Closed,
            _ => state,
        },
        SessionState::Closed => state,
    }
}

/// The state after each of `n` keepalive intervals has passed with no
/// other event.
pub open spec fn after_keepalives(state: SessionState, n: nat) -> SessionState
    decreases n,
{
    if n == 0 {
        state
    } else {
        after_keepalives(next_state(state, SessionEvent::KeepaliveDue), (n - 1) as nat)
    }
}

/// Keepalive does not depend on traffic: however many intervals pass
/// without any packet, a running session stays running.
pub proof fn lemma_keepalive_keeps_running(n: nat)
    ensures
        after_keepalives(SessionState::Running, n) == SessionState::Running,
    decreases n,
{
    if n > 0 {
        lemma_keepalive_keeps_running((n - 1) as nat);
    }
}

/// The read loop runs only after the login: a session gets to `Running`
/// from `LoggedIn` or stays in it, and gets to `LoggedIn` from `Connected`
/// alone.
pub proof fn lemma_running_follows_login(state: SessionState, event: SessionEvent)
    ensures
        next_state(state, event) is Running ==> state is LoggedIn || state is Running,
        next_state(state, event) is LoggedIn ==> state is Connected || state is LoggedIn,
        next_state(state, event) is Connected ==> state is Connecting || state is Connected,
{
}

/// Once closed, a session stays closed.
pub proof fn lemma_closed_is_final(event: SessionEvent)
    ensures
        next_state(SessionState::Closed, event) == SessionState::Closed,
{
}

/// The settings of a bot and the state of its session.
#[derive(Debug, Clone, PartialEq, Eq)]
pub struct Bot {
    pub username: String,
    pub token: String,
    pub address: String,
    pub port: u16,
    pub prefix: String,
    pub state: SessionState,
}

/// `num_traits::ToPrimitive::to_u16` on a `usize`: the value itself where a
/// `u16` can hold it, and `None` where it cannot.
#[verifier::external_body]
fn usize_to_u16(value: usize) -> (r: Option<u16>)
    ensures
        value <= 65535 ==> r == Some(value as u16),
        value > 65535 ==> r is None,
{
    num_traits::ToPrimitive::to_u16(&value)
}

impl Bot {
    /// Whether `action` is what the bot does on `event`.
    pub open spec fn acts(&self, event: SessionEvent, action: SessionAction) -> bool {
        match event {
            SessionEvent::Start => if self.state is Disconnected {
                action matches SessionAction::Connect { address, port, keepalive_secs }
                    && address@ == self.address@ && port == self.port && keepalive_secs
                    == KEEPALIVE_SECS
            } else {
                action is Idle
            },
            SessionEvent::TransportReady => if self.state is Connecting {
                action matches SessionAction::Send(ServerPacket::Login { username, password })
                    && username@ == self.username@ && password@ == self.token@
            } else {
                action is Idle
            },
            SessionEvent::LoginWritten => if self.state is Connected {
                action is Read
            } else {
                action is Idle
            },
            SessionEvent::TransportFailed => if self.state is Connecting || connected(self.state) {
                action is Close
            } else {
                action is Idle
            },
            SessionEvent::KeepaliveDue => if connected(self.state) {
                action is WriteKeepalive
            } else {
                action is Idle
            },
            SessionEvent::DecodeFailed(e) => if reading(self.state) {
                if e is UnknownTag {
                    action is ReportUnknown
                } else if tolerated(e) {
                    action is Read
                } else {
                    action is Close
                }
            } else {
                action is Idle
            },
            SessionEvent::PacketReceived(packet) => if reading(self.state) {
                match packet {
                    ClientPacket::UserMessage { author, message } => match command_of(
                        message@,
                        self.prefix@,
                    ) {
                        Some((name, args)) => action matches SessionAction::Dispatch {
                            name: n,
                            args: a,
                            executor,
                        } && n@ == name && views(a@) == args && executor@ == author.username@,
                        None => action matches SessionAction::Print(shown) && shown@ == packet@,
                    },
                    _ => action matches SessionAction::Print(shown) && shown@ == packet@,
                }
            } else {
                action is Idle
            },
        }
    }

    /// A bot that is not connected yet.
    pub fn new(username: &str, token: &str, address: &str, port: usize, prefix: &str) -> (r: Self)
        requires
            port <= 65535,
        ensures
            r.username@ == username@,
            r.token@ == token@,
            r.address@ == address@,
            r.port == port,
            r.prefix@ == prefix@,
            r.state == SessionState::Disconnected,
    {
        let port: u16 = match usize_to_u16(port) {
            Some(p) => p,
            None => vstd::pervasive::unreached(),
        };
        Bot {
            username: String::from_str(username),
            token: String::from_str(token),
            address: String::from_str(address),
            port,
            prefix: String::from_str(prefix),
            state: SessionState::Disconnected,
        }
    }

    /// Takes one event: moves the session to its next state and says what
    /// to do.
    ///
    /// The settings never change. A chat message that begins with the
    /// prefix and names a command is dispatched for its author; every
    /// other packet is shown. A decode timeout is retried, an unknown
    /// packet type is noted, a packet too large to send is lost alone,
    /// and every other failure closes the session.
    /// Keepalive is due whatever else happens and never changes the state.
    pub fn step(&mut self, event: SessionEvent) -> (action: SessionAction)
        ensures
            final(self).state == next_state(old(self).state, event),
            old(self).acts(event, action),
            final(self).username == old(self).username,
            final(self).token == old(self).token,
            final(self).address == old(self).address,
            final(self).port == old(self).port,
            final(self).prefix == old(self).prefix,
    {
        let state = self.state;
        match event {
            SessionEvent::Start => match state {
                SessionState::Disconnected => {
                    self.state = SessionState::Connecting;
                    SessionAction::Connect {
                        address: self.address.clone(),
                        port: self.port,
                        keepalive_secs: KEEPALIVE_SECS,
                    }
                },
                _ => SessionAction::Idle,
            },
            SessionEvent::TransportReady => match state {
                SessionState::Connecting => {
                    self.state = SessionState::Connected;
                    SessionAction::Send(
                        ServerPacket::Login {
                            username: self.username.clone(),
                            password: self.token.clone(),
                        },
                    )
                },
                _ => SessionAction::Idle,
            },
            SessionEvent::LoginWritten => match state {
                SessionState::Connected => {
                    self.state = SessionState::LoggedIn;
                    SessionAction::Read
                },
                _ => SessionAction::Idle,
            },
            SessionEvent::TransportFailed => match state {
                SessionState::Connecting | SessionState::Connected | SessionState::LoggedIn
                | SessionState::Running => {
                    self.state = SessionState::Closed;
                    SessionAction::Close
                },
                _ => SessionAction::Idle,
            },
            SessionEvent::KeepaliveDue => match state {
                SessionState::Connected | SessionState::LoggedIn | SessionState::Running =>
                    SessionAction::WriteKeepalive,
                _ => SessionAction::Idle,
            },
            SessionEvent::DecodeFailed(e) => match state {
                SessionState::LoggedIn | SessionState::Running => match e {
                    CommunicationError::DecodeTimeout | CommunicationError::PacketTooLarge(_) => {
                        self.state = SessionState::Running;
                        SessionAction::Read
                    },
                    CommunicationError::UnknownTag => {
                        self.state = SessionState::Running;
                        SessionAction::ReportUnknown
                    },
                    _ => {
                        self.state = SessionState::Closed;
                        SessionAction::Close
                    },
                },
                _ => SessionAction::Idle,
            },
            SessionEvent::PacketReceived(packet) => match state {
                SessionState::LoggedIn | SessionState::Running => {
                    self.state = SessionState::Running;
                    match packet {
                        ClientPacket::UserMessage { author, message } => {
                            match parse_command(message.as_str(), self.prefix.as_str()) {
                                Some(call) => SessionAction::Dispatch {
                                    name: call.name,
                                    args: call.args,
                                    executor: author.username,
                                },
                                None => SessionAction::Print(
                                    ClientPacket::UserMessage { author, message },
                                ),
                            }
                        },
                        other => SessionAction::Print(other),
                    }
                },
                _ => SessionAction::Idle,
            },
        }
    }
}

} // verus!
