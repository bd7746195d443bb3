//! The connection lifecycle state machine and the decision core of the
//! connection task.
//!
//! One task owns the transport stream exclusively and drives it sequentially:
//! it waits for work, performs at most one wire round trip at a time, and
//! routes each outcome back to the caller that asked for it. Everything that
//! task decides is here, as plain functions from state and event to the next
//! state and the action to take; the I/O shell around the library performs
//! the actions and feeds the outcomes back in.

use vstd::prelude::*;
use vstd::string::*;

use crate::error::{Error, ErrorKind};
use crate::xml::{hello_xml, spec_hello_xml};

verus! {

/// The lifecycle of one connection. `Opening` lasts until the first greeting
/// frame is read; `Open` is the only state that accepts new work; `Closing`
/// marks a graceful shutdown in progress; `Closed` ends the task's loop.
#[derive(Clone, Copy, Debug, PartialEq, Eq, Structural)]
pub enum ConnectionState {
    Opening,
    Open,
    Closing,
    Closed,
}

/// One unit of work a client handle can send to the connection task.
#[derive(Debug)]
pub enum RequestMessage {
    /// Hand back the cached greeting; no wire traffic.
    Greeting,
    /// Tear the transport down and establish a fresh one.
    Reconnect,
    /// Write this document and read the matching response frame.
    Request(String),
}

/// A work item as the connection task sees it: the payload, and whether the
/// caller that sent it still holds the receiving half of its result channel.
/// A caller that abandoned its future drops that half; the task then finishes
/// the wire exchange all the same and the result goes nowhere.
#[derive(Debug)]
pub struct WorkItem {
    pub request: RequestMessage,
    pub receiver_attached: bool,
}

/// What the connection task observes each time it waits for work.
#[derive(Debug)]
pub enum InboxEvent {
    /// A work item arrived.
    Item(WorkItem),
    /// The configured idle timeout expired with no work in sight.
    IdleExpired,
    /// Every client handle is gone; the inbox can never yield work again.
    Disconnected,
}

/// Ghost mirror of a work payload.
pub enum PayloadSpec {
    Greeting,
    Reconnect,
    Request(Seq<char>),
}

/// Ghost mirror of an inbox event.
pub enum EventSpec {
    Work { payload: PayloadSpec, attached: bool },
    Idle,
    Disconnected,
}

impl View for RequestMessage {
    type V = PayloadSpec;

    open spec fn view(&self) -> PayloadSpec {
        match self {
            RequestMessage::Greeting => PayloadSpec::Greeting,
            RequestMessage::Reconnect => PayloadSpec::Reconnect,
            RequestMessage::Request(s) => PayloadSpec::Request(s@),
        }
    }
}

impl View for InboxEvent {
    type V = EventSpec;

    open spec fn view(&self) -> EventSpec {
        match self {
            InboxEvent::Item(w) => EventSpec::Work {
                payload: w.request@,
                attached: w.receiver_attached,
            },
            InboxEvent::IdleExpired => EventSpec::Idle,
            InboxEvent::Disconnected => EventSpec::Disconnected,
        }
    }
}

/// How one wire round trip (write a frame, read a frame) can end.
#[derive(Debug)]
pub enum ExchangeOutcome {
    /// The response document.
    Response(String),
    /// The write returned zero bytes: the socket no longer accepts data.
    WriteFailed,
    /// End of stream while reading the response.
    ReadEof,
    /// The configured request timeout expired.
    TimedOut,
    /// The exchange's framing failed: the outgoing document did not fit the
    /// length field, or the response carried a length prefix below the
    /// header size or bytes that are not UTF-8.
    Malformed,
}

/// How establishing a fresh transport (connect plus first greeting frame)
/// can end.
#[derive(Debug)]
pub enum ConnectOutcome {
    /// The new stream's greeting document.
    Connected(String),
    /// No stream could be established.
    Failed,
}

/// Ghost mirror of an exchange outcome.
pub enum ExchangeSpec {
    Response(Seq<char>),
    WriteFailed,
    ReadEof,
    TimedOut,
    Malformed,
}

/// Ghost mirror of a connect outcome.
pub enum ConnectSpec {
    Connected(Seq<char>),
    Failed,
}

impl View for ExchangeOutcome {
    type V = ExchangeSpec;

    open spec fn view(&self) -> ExchangeSpec {
        match self {
            ExchangeOutcome::Response(s) => ExchangeSpec::Response(s@),
            ExchangeOutcome::WriteFailed => ExchangeSpec::WriteFailed,
            ExchangeOutcome::ReadEof => ExchangeSpec::ReadEof,
            ExchangeOutcome::TimedOut => ExchangeSpec::TimedOut,
            ExchangeOutcome::Malformed => ExchangeSpec::Malformed,
        }
    }
}

impl View for ConnectOutcome {
    type V = ConnectSpec;

    open spec fn view(&self) -> ConnectSpec {
        match self {
            ConnectOutcome::Connected(s) => ConnectSpec::Connected(s@),
            ConnectOutcome::Failed => ConnectSpec::Failed,
        }
    }
}

/// What the connection task must do next, decided from its state and the
/// event it observed. Replying with the cached greeting is the only answer
/// produced without touching the wire.
#[derive(Debug)]
pub enum Directive {
    /// The run loop ends; nothing more happens on this connection.
    Stop,
    /// Deliver the cached greeting to the caller; no wire I/O.
    Reply(String),
    /// Write this document as a frame and read one response frame.
    SendRecv(String),
    /// Keepalive round trip: write this document and read one frame; the
    /// response refreshes the cached greeting.
    Keepalive(String),
    /// Gracefully close the transport, then stop.
    Shutdown,
    /// Ask the connector for a fresh stream and read its greeting.
    Connect,
}

/// What the task does with the outcome of an explicit reconnect.
#[derive(Debug)]
pub enum ReconnectResult {
    /// The fresh greeting; it is also what the requester receives.
    Reconnected(String),
    /// The requester receives this error, and the loop ends: the connection
    /// is in an indeterminate state and must not be reused.
    Failed(Error),
}

/// One EPP connection: the single owner of a transport stream, holding the
/// lifecycle state and the greeting cached from the last successful
/// handshake or keepalive.
#[derive(Debug)]
pub struct EppConnection {
    /// Opaque label of the registry, for diagnostics only.
    pub registry: String,
    /// Where the connection stands in its lifecycle.
    pub state: ConnectionState,
    /// The raw greeting document last read at connect, reconnect or
    /// keepalive time.
    pub greeting: String,
    /// Whether an idle timeout is configured; without one the task waits for
    /// work forever and never sends keepalive traffic.
    pub keepalive: bool,
}

impl EppConnection {
    /// A connection that has just completed its first handshake: the
    /// transport is established and `greeting` is the first frame read from
    /// it. The connection opens in `Open`, caching that greeting.
    pub fn new(registry: String, keepalive: bool, greeting: String) -> (c: Self)
        ensures
            c.state == ConnectionState::Open,
            c.greeting@ == greeting@,
            c.registry@ == registry@,
            c.keepalive == keepalive,
    {
        EppConnection { registry, state: ConnectionState::Open, greeting, keepalive }
    }

    /// Decides what to do about one observed event. Only `Open` accepts
    /// work: a closed connection stops the loop whatever arrived. A greeting
    /// query is answered from the cache alone; a request or a keepalive
    /// becomes exactly one wire round trip; a reconnect turns the state to
    /// `Opening` until the connector answers; a closed inbox starts the
    /// graceful shutdown.
    pub fn dispatch(&mut self, event: &InboxEvent) -> (d: Directive)
        requires
            old(self).state == ConnectionState::Open || old(self).state == ConnectionState::Closed,
        ensures
            final(self).registry == old(self).registry,
            final(self).keepalive == old(self).keepalive,
            final(self).greeting == old(self).greeting,
            old(self).state == ConnectionState::Closed ==> d is Stop && final(self).state == old(self).state,
            old(self).state == ConnectionState::Open ==> match event@ {
                EventSpec::Disconnected => d is Shutdown && final(self).state
                    == ConnectionState::Closing,
                EventSpec::Idle => (d matches Directive::Keepalive(h) && h@ == spec_hello_xml())
                    && final(self).state == old(self).state,
                EventSpec::Work { payload: PayloadSpec::Greeting, .. } => (d
                    matches Directive::Reply(g) && g@ == old(self).greeting@) && final(self).state == old(self).state,
                EventSpec::Work { payload: PayloadSpec::Request(x), .. } => (d
                    matches Directive::SendRecv(p) && p@ == x) && final(self).state == old(self).state,
                EventSpec::Work { payload: PayloadSpec::Reconnect, .. } => d is Connect && final(self).state == ConnectionState::Opening,
            },
    {
        if self.state == ConnectionState::Closed {
            return Directive::Stop;
        }
        match event {
            InboxEvent::Disconnected => {
                self.state = ConnectionState::Closing;
                Directive::Shutdown
            },
            InboxEvent::IdleExpired => Directive::Keepalive(hello_xml()),
            InboxEvent::Item(w) => match &w.request {
                RequestMessage::Greeting => Directive::Reply(self.greeting.clone()),
                RequestMessage::Request(x) => Directive::SendRecv(x.clone()),
                RequestMessage::Reconnect => {
                    self.state = ConnectionState::Opening;
                    Directive::Connect
                },
            },
        }
    }

    /// Takes in how a request round trip ended. The outcome — success or
    /// error — is always delivered on the work item's result channel, once,
    /// to whichever caller was waiting. A timeout or a malformed frame is
    /// terminal for the exchange alone and the loop goes on; end of stream
    /// while reading and a dead socket at write time also close the
    /// connection, which ends the loop at its next turn.
    pub fn complete_request(&mut self, outcome: ExchangeOutcome) -> (r: Result<String, Error>)
        requires
            old(self).state == ConnectionState::Open,
        ensures
            final(self).registry == old(self).registry,
            final(self).keepalive == old(self).keepalive,
            final(self).greeting == old(self).greeting,
            match outcome@ {
                ExchangeSpec::Response(s) => (r matches Ok(x) && x@ == s) && final(self).state
                    == ConnectionState::Open,
                ExchangeSpec::TimedOut => (r matches Err(e) && e.kind() == ErrorKind::Timeout)
                    && final(self).state == ConnectionState::Open,
                ExchangeSpec::Malformed => (r matches Err(e) && e.kind() == ErrorKind::Frame)
                    && final(self).state == ConnectionState::Open,
                ExchangeSpec::ReadEof => (r matches Err(e) && e.kind() == ErrorKind::Io)
                    && final(self).state == ConnectionState::Closed,
                ExchangeSpec::WriteFailed => (r matches Err(e) && e.kind() == ErrorKind::Io)
                    && final(self).state == ConnectionState::Closed,
            },
    {
        match outcome {
            ExchangeOutcome::Response(s) => Ok(s),
            ExchangeOutcome::TimedOut => Err(Error::Timeout),
            ExchangeOutcome::Malformed => Err(
                Error::Frame(String::from_str("malformed frame in the exchange")),
            ),
            ExchangeOutcome::ReadEof => {
                self.state = ConnectionState::Closed;
                Err(Error::Io(String::from_str("unexpected eof while reading")))
            },
            ExchangeOutcome::WriteFailed => {
                self.state = ConnectionState::Closed;
                Err(Error::Io(String::from_str("unexpected eof while writing")))
            },
        }
    }

    /// Takes in how a keepalive round trip ended. On success the response is
    /// the registry's fresh greeting and replaces the cached one. Any
    /// failure comes back classified exactly as it would for a real request,
    /// and is fatal: the loop must end with that error.
    pub fn complete_keepalive(&mut self, outcome: ExchangeOutcome) -> (r: Result<(), Error>)
        requires
            old(self).state == ConnectionState::Open,
        ensures
            final(self).registry == old(self).registry,
            final(self).keepalive == old(self).keepalive,
            match outcome@ {
                ExchangeSpec::Response(s) => r is Ok && final(self).greeting@ == s
                    && final(self).state == ConnectionState::Open,
                ExchangeSpec::TimedOut => (r matches Err(e) && e.kind() == ErrorKind::Timeout)
                    && final(self).greeting == old(self).greeting && final(self).state
                    == ConnectionState::Open,
                ExchangeSpec::Malformed => (r matches Err(e) && e.kind() == ErrorKind::Frame)
                    && final(self).greeting == old(self).greeting && final(self).state
                    == ConnectionState::Open,
                ExchangeSpec::ReadEof => (r matches Err(e) && e.kind() == ErrorKind::Io)
                    && final(self).greeting == old(self).greeting && final(self).state
                    == ConnectionState::Closed,
                ExchangeSpec::WriteFailed => (r matches Err(e) && e.kind() == ErrorKind::Io)
                    && final(self).greeting == old(self).greeting && final(self).state
                    == ConnectionState::Closed,
            },
    {
        match outcome {
            ExchangeOutcome::Response(s) => {
                self.greeting = s;
                Ok(())
            },
            ExchangeOutcome::TimedOut => Err(Error::Timeout),
            ExchangeOutcome::Malformed => Err(
                Error::Frame(String::from_str("malformed frame in the exchange")),
            ),
            ExchangeOutcome::ReadEof => {
                self.state = ConnectionState::Closed;
                Err(Error::Io(String::from_str("unexpected eof while reading")))
            },
            ExchangeOutcome::WriteFailed => {
                self.state = ConnectionState::Closed;
                Err(Error::Io(String::from_str("unexpected eof while writing")))
            },
        }
    }

    /// Takes in how an explicit reconnect ended. On success the fresh
    /// greeting is cached, the state returns to `Open`, and the requester
    /// receives that greeting. On failure the requester is told with the
    /// dedicated reconnect error and the loop ends: the connection is in an
    /// indeterminate state and must not be reused.
    pub fn complete_reconnect(&mut self, outcome: ConnectOutcome) -> (r: ReconnectResult)
        requires
            old(self).state == ConnectionState::Opening,
        ensures
            final(self).registry == old(self).registry,
            final(self).keepalive == old(self).keepalive,
            match outcome@ {
                ConnectSpec::Connected(g) => (r matches ReconnectResult::Reconnected(x) && x@ == g)
                    && final(self).state == ConnectionState::Open && final(self).greeting@ == g,
                ConnectSpec::Failed => (r matches ReconnectResult::Failed(e) && e.kind()
                    == ErrorKind::Reconnect) && final(self).state == ConnectionState::Opening
                    && final(self).greeting == old(self).greeting,
            },
    {
        match outcome {
            ConnectOutcome::Connected(g) => {
                self.greeting = g.clone();
                self.state = ConnectionState::Open;
                ReconnectResult::Reconnected(g)
            },
            ConnectOutcome::Failed => ReconnectResult::Failed(Error::Reconnect),
        }
    }

    /// The transport's graceful close has completed; whether it succeeded or
    /// not, the connection is now closed.
    pub fn complete_shutdown(&mut self)
        requires
            old(self).state == ConnectionState::Closing,
        ensures
            final(self).registry == old(self).registry,
            final(self).keepalive == old(self).keepalive,
            final(self).greeting == old(self).greeting,
            final(self).state == ConnectionState::Closed,
    {
        self.state = ConnectionState::Closed;
    }
}

} // verus!
