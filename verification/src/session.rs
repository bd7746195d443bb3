//! The session model: what one run of the connection task does, as a
//! mathematical function of the events it observes and the wire's behaviour.
//!
//! [`session_run`] folds the decision steps of
//! [`EppConnection`](crate::connection::EppConnection) over a sequence of
//! inbox events against a scripted wire, producing the full trace: every
//! document written, every reply delivered, and how often the transport was
//! shut down. [`run_session`] executes exactly that against a
//! [`ScriptedTransport`], and the lemmas at the end state the ordering,
//! cancellation, keepalive and shutdown guarantees of the design.

use vstd::prelude::*;

use crate::connection::{
    ConnectOutcome, ConnectSpec, ConnectionState, Directive, EppConnection, EventSpec,
    ExchangeOutcome, ExchangeSpec, InboxEvent, PayloadSpec, ReconnectResult,
};
use crate::error::{Error, ErrorKind};
use crate::xml::spec_hello_xml;

verus! {

/// What a caller could observe for one event.
pub enum ReplySpec {
    /// Nothing was delivered: the event carried no result channel, the
    /// caller had dropped its receiving half, or the task had already
    /// stopped.
    NotDelivered,
    /// The response document delivered on the event's result channel.
    Response(Seq<char>),
    /// The error delivered on the event's result channel.
    Failed(ErrorKind),
}

/// The connection as the session model sees it: lifecycle state, cached
/// greeting, and whether the run loop has ended for a reason other than the
/// state (a fatal error with nobody left to tell).
#[verifier::ext_equal]
pub struct SessionState {
    pub state: ConnectionState,
    pub greeting: Seq<char>,
    pub halted: bool,
}

/// What the wire will do: the outcome of each successive round trip, and of
/// each successive reconnect.
#[verifier::ext_equal]
pub struct WireScript {
    pub exchanges: Seq<ExchangeSpec>,
    pub connects: Seq<ConnectSpec>,
}

/// Everything one run produces.
#[verifier::ext_equal]
pub struct SessionTrace {
    /// One entry per event, in order.
    pub replies: Seq<ReplySpec>,
    /// Every document written to the wire, in order.
    pub writes: Seq<Seq<char>>,
    /// How often the transport's graceful close was invoked.
    pub shutdowns: nat,
    /// The connection when the run ends.
    pub end: SessionState,
    /// What is left of the wire script.
    pub wire: WireScript,
}

/// What one processed event contributes to the trace.
#[verifier::ext_equal]
pub struct StepSpec {
    pub reply: ReplySpec,
    pub writes: Seq<Seq<char>>,
    pub shutdowns: nat,
    pub next: SessionState,
    pub wire: WireScript,
}

/// The next round-trip outcome; an exhausted script behaves as end of
/// stream.
pub open spec fn next_exchange(w: WireScript) -> (ExchangeSpec, WireScript) {
    if w.exchanges.len() == 0 {
        (ExchangeSpec::ReadEof, w)
    } else {
        (w.exchanges[0], WireScript { exchanges: w.exchanges.drop_first(), ..w })
    }
}

/// The next connect outcome; an exhausted script fails to connect.
pub open spec fn next_connect(w: WireScript) -> (ConnectSpec, WireScript) {
    if w.connects.len() == 0 {
        (ConnectSpec::Failed, w)
    } else {
        (w.connects[0], WireScript { connects: w.connects.drop_first(), ..w })
    }
}

/// What the task does about one event while it is running: the decision
/// rules of `EppConnection`, written as one function.
pub open spec fn step_head(s: SessionState, e: EventSpec, wire: WireScript) -> StepSpec
    recommends
        s.state == ConnectionState::Open,
        !s.halted,
{
    match e {
        EventSpec::Disconnected => StepSpec {
            reply: ReplySpec::NotDelivered,
            writes: Seq::empty(),
            shutdowns: 1,
            next: SessionState { state: ConnectionState::Closed, ..s },
            wire,
        },
        EventSpec::Idle => {
            let (out, w2) = next_exchange(wire);
            match out {
                ExchangeSpec::Response(r) => StepSpec {
                    reply: ReplySpec::NotDelivered,
                    writes: seq![spec_hello_xml()],
                    shutdowns: 0,
                    next: SessionState { greeting: r, ..s },
                    wire: w2,
                },
                ExchangeSpec::TimedOut | ExchangeSpec::Malformed => StepSpec {
                    reply: ReplySpec::NotDelivered,
                    writes: seq![spec_hello_xml()],
                    shutdowns: 0,
                    next: SessionState { halted: true, ..s },
                    wire: w2,
                },
                _ => StepSpec {
                    reply: ReplySpec::NotDelivered,
                    writes: seq![spec_hello_xml()],
                    shutdowns: 0,
                    next: SessionState { state: ConnectionState::Closed, halted: true, ..s },
                    wire: w2,
                },
            }
        },
        EventSpec::Work { payload: PayloadSpec::Greeting, attached } => StepSpec {
            reply: if attached {
                ReplySpec::Response(s.greeting)
            } else {
                ReplySpec::NotDelivered
            },
            writes: Seq::empty(),
            shutdowns: 0,
            next: s,
            wire,
        },
        EventSpec::Work { payload: PayloadSpec::Request(x), attached } => {
            let (out, w2) = next_exchange(wire);
            match out {
                ExchangeSpec::Response(r) => StepSpec {
                    reply: if attached {
                        ReplySpec::Response(r)
                    } else {
                        ReplySpec::NotDelivered
                    },
                    writes: seq![x],
                    shutdowns: 0,
                    next: s,
                    wire: w2,
                },
                ExchangeSpec::TimedOut => StepSpec {
                    reply: if attached {
                        ReplySpec::Failed(ErrorKind::Timeout)
                    } else {
                        ReplySpec::NotDelivered
                    },
                    writes: seq![x],
                    shutdowns: 0,
                    next: s,
                    wire: w2,
                },
                ExchangeSpec::Malformed => StepSpec {
                    reply: if attached {
                        ReplySpec::Failed(ErrorKind::Frame)
                    } else {
                        ReplySpec::NotDelivered
                    },
                    writes: seq![x],
                    shutdowns: 0,
                    next: s,
                    wire: w2,
                },
                ExchangeSpec::ReadEof | ExchangeSpec::WriteFailed => StepSpec {
                    reply: if attached {
                        ReplySpec::Failed(ErrorKind::Io)
                    } else {
                        ReplySpec::NotDelivered
                    },
                    writes: seq![x],
                    shutdowns: 0,
                    next: SessionState { state: ConnectionState::Closed, ..s },
                    wire: w2,
                },
            }
        },
        EventSpec::Work { payload: PayloadSpec::Reconnect, attached } => {
            let (out, w2) = next_connect(wire);
            match out {
                ConnectSpec::Connected(g) => StepSpec {
                    reply: if attached {
                        ReplySpec::Response(g)
                    } else {
                        ReplySpec::NotDelivered
                    },
                    writes: Seq::empty(),
                    shutdowns: 0,
                    next: SessionState { state: ConnectionState::Open, greeting: g, halted: false },
                    wire: w2,
                },
                ConnectSpec::Failed => StepSpec {
                    reply: if attached {
                        ReplySpec::Failed(ErrorKind::Reconnect)
                    } else {
                        ReplySpec::NotDelivered
                    },
                    writes: Seq::empty(),
                    shutdowns: 0,
                    next: SessionState { state: ConnectionState::Opening, halted: true, ..s },
                    wire: w2,
                },
            }
        },
    }
}

/// One reply of `NotDelivered` per event: what the remaining events observe
/// once the run loop has ended.
pub open spec fn undelivered(n: nat) -> Seq<ReplySpec> {
    Seq::new(n, |i: int| ReplySpec::NotDelivered)
}

/// The full trace of one run over `events` against the scripted wire,
/// starting from connection `s`.
pub open spec fn session_run(s: SessionState, events: Seq<EventSpec>, wire: WireScript) -> SessionTrace
    decreases events.len(),
{
    if events.len() == 0 {
        SessionTrace {
            replies: Seq::empty(),
            writes: Seq::empty(),
            shutdowns: 0,
            end: s,
            wire,
        }
    } else if s.halted || s.state != ConnectionState::Open {
        SessionTrace {
            replies: undelivered(events.len()),
            writes: Seq::empty(),
            shutdowns: 0,
            end: s,
            wire,
        }
    } else {
        let h = step_head(s, events[0], wire);
        let t = session_run(h.next, events.drop_first(), h.wire);
        SessionTrace {
            replies: seq![h.reply] + t.replies,
            writes: h.writes + t.writes,
            shutdowns: h.shutdowns + t.shutdowns,
            end: t.end,
            wire: t.wire,
        }
    }
}

/// A transport double driven from scripts: it answers each round trip and
/// each reconnect from a queue, records every document written, and counts
/// shutdowns. The session properties are proved and tested against it.
#[derive(Debug)]
pub struct ScriptedTransport {
    /// Outcomes of successive round trips, consumed front to back.
    pub exchanges: Vec<ExchangeOutcome>,
    /// Outcomes of successive reconnects, consumed front to back.
    pub connects: Vec<ConnectOutcome>,
    /// Every document written so far, in order.
    pub written: Vec<String>,
    /// How often the graceful close was invoked.
    pub shutdowns: u64,
}

impl ScriptedTransport {
    /// The wire script still ahead.
    pub open spec fn wire(&self) -> WireScript {
        WireScript {
            exchanges: Seq::new(self.exchanges@.len(), |i: int| self.exchanges@[i]@),
            connects: Seq::new(self.connects@.len(), |i: int| self.connects@[i]@),
        }
    }

    /// The documents written so far.
    pub open spec fn writes(&self) -> Seq<Seq<char>> {
        Seq::new(self.written@.len(), |i: int| self.written@[i]@)
    }

    /// A transport that answers round trips and reconnects from the given
    /// scripts.
    pub fn new(exchanges: Vec<ExchangeOutcome>, connects: Vec<ConnectOutcome>) -> (t: Self)
        ensures
            t.wire() == (WireScript {
                exchanges: Seq::new(exchanges@.len(), |i: int| exchanges@[i]@),
                connects: Seq::new(connects@.len(), |i: int| connects@[i]@),
            }),
            t.writes() =~= Seq::<Seq<char>>::empty(),
            t.shutdowns == 0,
    {
        let t = ScriptedTransport { exchanges, connects, written: Vec::new(), shutdowns: 0 };
        assert(t.writes() =~= Seq::<Seq<char>>::empty());
        t
    }

    /// One round trip: the document is recorded as written, and the next
    /// scripted outcome is returned; an exhausted script ends the stream.
    pub fn round_trip(&mut self, payload: String) -> (out: ExchangeOutcome)
        ensures
            final(self).writes() == old(self).writes().push(payload@),
            final(self).shutdowns == old(self).shutdowns,
            out@ == next_exchange(old(self).wire()).0,
            final(self).wire() == next_exchange(old(self).wire()).1,
    {
        self.written.push(payload);
        proof {
            assert(self.writes() =~= old(self).writes().push(payload@));
        }
        if self.exchanges.len() == 0 {
            proof {
                assert(self.wire() =~= old(self).wire());
            }
            ExchangeOutcome::ReadEof
        } else {
            let out = self.exchanges.remove(0);
            proof {
                assert(self.wire().exchanges =~= old(self).wire().exchanges.drop_first());
                assert(self.wire().connects =~= old(self).wire().connects);
                assert(self.wire() =~= next_exchange(old(self).wire()).1);
            }
            out
        }
    }

    /// One reconnect: the next scripted outcome; an exhausted script fails.
    pub fn connect(&mut self) -> (out: ConnectOutcome)
        ensures
            final(self).writes() == old(self).writes(),
            final(self).shutdowns == old(self).shutdowns,
            out@ == next_connect(old(self).wire()).0,
            final(self).wire() == next_connect(old(self).wire()).1,
    {
        if self.connects.len() == 0 {
            proof {
                assert(self.wire() =~= old(self).wire());
            }
            ConnectOutcome::Failed
        } else {
            let out = self.connects.remove(0);
            proof {
                assert(self.wire().connects =~= old(self).wire().connects.drop_first());
                assert(self.wire().exchanges =~= old(self).wire().exchanges);
                assert(self.wire() =~= next_connect(old(self).wire()).1);
            }
            out
        }
    }

    /// The graceful close.
    pub fn shutdown(&mut self)
        requires
            old(self).shutdowns < u64::MAX,
        ensures
            final(self).writes() == old(self).writes(),
            final(self).shutdowns == old(self).shutdowns + 1,
            final(self).wire() == old(self).wire(),
    {
        self.shutdowns = self.shutdowns + 1;
    }
}

/// The ghost view of a sequence of inbox events.
pub open spec fn events_view(v: Seq<InboxEvent>) -> Seq<EventSpec> {
    Seq::new(v.len(), |i: int| v[i]@)
}

/// The ghost view of one recorded reply.
pub open spec fn reply_view(r: Option<Result<String, Error>>) -> ReplySpec {
    match r {
        None => ReplySpec::NotDelivered,
        Some(Ok(s)) => ReplySpec::Response(s@),
        Some(Err(e)) => ReplySpec::Failed(e.kind()),
    }
}

/// The ghost view of the recorded replies.
pub open spec fn replies_view(v: Seq<Option<Result<String, Error>>>) -> Seq<ReplySpec> {
    Seq::new(v.len(), |i: int| reply_view(v[i]))
}

/// Runs the connection task's loop over the given events against a scripted
/// transport, returning one recorded reply per event. The whole run is the
/// one [`session_run`] describes: same replies, same writes in the same
/// order, same shutdown count, same final connection.
#[verifier::rlimit(50)]
pub fn run_session(
    conn: &mut EppConnection,
    events: &Vec<InboxEvent>,
    transport: &mut ScriptedTransport,
) -> (replies: Vec<Option<Result<String, Error>>>)
    requires
        old(conn).state == ConnectionState::Open,
        old(transport).shutdowns + events@.len() <= u64::MAX,
    ensures
        ({
            let t = session_run(
                SessionState {
                    state: old(conn).state,
                    greeting: old(conn).greeting@,
                    halted: false,
                },
                events_view(events@),
                old(transport).wire(),
            );
            &&& replies_view(replies@) == t.replies
            &&& replies@.len() == events@.len()
            &&& final(transport).writes() == old(transport).writes() + t.writes
            &&& final(transport).shutdowns == old(transport).shutdowns + t.shutdowns
            &&& final(transport).wire() == t.wire
            &&& final(conn).state == t.end.state
            &&& final(conn).greeting@ == t.end.greeting
            &&& final(conn).registry == old(conn).registry
            &&& final(conn).keepalive == old(conn).keepalive
        }),
{
    let ghost s0 = SessionState { state: conn.state, greeting: conn.greeting@, halted: false };
    let ghost evs = events_view(events@);
    let ghost w0 = transport.wire();
    let ghost base_writes = transport.writes();
    let ghost sh0 = transport.shutdowns;
    let ghost total = session_run(s0, evs, w0);
    let mut replies: Vec<Option<Result<String, Error>>> = Vec::new();
    let mut halted = false;
    let mut i: usize = 0;
    let n = events.len();
    proof {
        assert(evs.skip(0) =~= evs);
        assert(replies_view(replies@) =~= Seq::<ReplySpec>::empty());
        assert(Seq::<ReplySpec>::empty() + total.replies =~= total.replies);
        assert(base_writes.skip(base_writes.len() as int) =~= Seq::<Seq<char>>::empty());
        assert(Seq::<Seq<char>>::empty() + total.writes =~= total.writes);
        assert(base_writes.take(base_writes.len() as int) =~= base_writes);
    }
    while i < n
        invariant
            i <= n,
            n == events@.len(),
            evs == events_view(events@),
            replies@.len() == i,
            conn.registry == old(conn).registry,
            conn.keepalive == old(conn).keepalive,
            transport.shutdowns <= sh0 + i,
            sh0 == old(transport).shutdowns,
            sh0 + events@.len() <= u64::MAX,
            total == session_run(s0, evs, w0),
            transport.writes().take(base_writes.len() as int) == base_writes,
            base_writes.len() <= transport.writes().len(),
            ({
                let rest = session_run(
                    SessionState { state: conn.state, greeting: conn.greeting@, halted },
                    evs.skip(i as int),
                    transport.wire(),
                );
                &&& total.replies == replies_view(replies@) + rest.replies
                &&& total.writes == transport.writes().skip(base_writes.len() as int) + rest.writes
                &&& total.shutdowns + sh0 == rest.shutdowns + transport.shutdowns
                &&& total.end == rest.end
                &&& total.wire == rest.wire
            }),
        decreases n - i,
    {
        let ghost cur = SessionState { state: conn.state, greeting: conn.greeting@, halted };
        let ghost wcur = transport.wire();
        let ghost wrcur = transport.writes();
        let ghost shcur = transport.shutdowns;
        let ghost rest = session_run(cur, evs.skip(i as int), wcur);
        proof {
            assert(evs.skip(i as int).len() == n - i);
            assert(evs.skip(i as int)[0] == evs[i as int]);
            assert(evs.skip(i as int).drop_first() =~= evs.skip(i as int + 1));
            assert(evs[i as int] == events@[i as int]@);
        }
        let ghost stopped = StepSpec {
            reply: ReplySpec::NotDelivered,
            writes: Seq::empty(),
            shutdowns: 0,
            next: cur,
            wire: wcur,
        };
        let ghost mut hd = stopped;
        let reply: Option<Result<String, Error>>;
        if halted || conn.state != ConnectionState::Open {
            reply = None;
            proof {
                // the run has ended: this event and all later ones observe
                // nothing
                let rest2 = session_run(cur, evs.skip(i as int + 1), wcur);
                assert(rest.replies =~= seq![hd.reply] + rest2.replies);
                assert(rest.writes =~= hd.writes + rest2.writes);
                assert(rest.shutdowns == hd.shutdowns + rest2.shutdowns);
                assert(rest.end == rest2.end);
                assert(rest.wire == rest2.wire);
            }
        } else {
            let event = &events[i];
            let attached = match event {
                InboxEvent::Item(w) => w.receiver_attached,
                _ => false,
            };
            let directive = conn.dispatch(event);
            proof {
                hd = step_head(cur, evs[i as int], wcur);
            }
            match directive {
                Directive::Stop => {
                    proof {
                        assert(false);
                    }
                    reply = None;
                },
                Directive::Reply(g) => {
                    reply = if attached {
                        Some(Ok(g))
                    } else {
                        None
                    };
                },
                Directive::SendRecv(p) => {
                    let out = transport.round_trip(p);
                    let res = conn.complete_request(out);
                    reply = if attached {
                        Some(res)
                    } else {
                        None
                    };
                },
                Directive::Keepalive(hxml) => {
                    let out = transport.round_trip(hxml);
                    match conn.complete_keepalive(out) {
                        Ok(_) => {},
                        Err(_e) => {
                            halted = true;
                        },
                    }
                    reply = None;
                },
                Directive::Shutdown => {
                    transport.shutdown();
                    conn.complete_shutdown();
                    reply = None;
                },
                Directive::Connect => {
                    let out = transport.connect();
                    match conn.complete_reconnect(out) {
                        ReconnectResult::Reconnected(g) => {
                            reply = if attached {
                                Some(Ok(g))
                            } else {
                                None
                            };
                        },
                        ReconnectResult::Failed(e) => {
                            halted = true;
                            reply = if attached {
                                Some(Err(e))
                            } else {
                                None
                            };
                        },
                    }
                },
            }
            proof {
                // what just ran is exactly one step of the model
                assert(reply_view(reply) == hd.reply);
                assert(SessionState { state: conn.state, greeting: conn.greeting@, halted }
                    =~= hd.next);
                assert(transport.wire() =~= hd.wire);
                assert(transport.writes() =~= wrcur + hd.writes);
                assert(transport.shutdowns == shcur + hd.shutdowns);
                let rest2 = session_run(hd.next, evs.skip(i as int + 1), hd.wire);
                assert(rest.replies =~= seq![hd.reply] + rest2.replies);
                assert(rest.writes =~= hd.writes + rest2.writes);
                assert(rest.shutdowns == hd.shutdowns + rest2.shutdowns);
                assert(rest.end == rest2.end);
                assert(rest.wire == rest2.wire);
            }
        }
        let ghost replies_before = replies@;
        replies.push(reply);
        i += 1;
        proof {
            let snew = SessionState { state: conn.state, greeting: conn.greeting@, halted };
            let rest2 = session_run(snew, evs.skip(i as int), transport.wire());
            assert(replies_view(replies@) =~= replies_view(replies_before) + seq![
                reply_view(reply),
            ]);
            assert(total.replies =~= replies_view(replies@) + rest2.replies);
            assert(transport.writes().skip(base_writes.len() as int) =~= wrcur.skip(
                base_writes.len() as int,
            ) + hd.writes);
            assert(total.writes =~= transport.writes().skip(base_writes.len() as int)
                + rest2.writes);
            assert(transport.writes().take(base_writes.len() as int) =~= base_writes);
        }
    }
    proof {
        assert(evs.skip(n as int) =~= Seq::<EventSpec>::empty());
        let rest = session_run(
            SessionState { state: conn.state, greeting: conn.greeting@, halted },
            evs.skip(n as int),
            transport.wire(),
        );
        assert(rest.replies =~= Seq::<ReplySpec>::empty());
        assert(total.replies =~= replies_view(replies@));
        assert(rest.writes =~= Seq::<Seq<char>>::empty());
        assert(total.writes =~= transport.writes().skip(base_writes.len() as int));
        assert(transport.writes() =~= base_writes + total.writes);
    }
    replies
}

/// A run answers every event: one reply slot per event.
pub proof fn lemma_replies_len(s: SessionState, events: Seq<EventSpec>, wire: WireScript)
    ensures
        session_run(s, events, wire).replies.len() == events.len(),
    decreases events.len(),
{
    if events.len() == 0 {
    } else if s.halted || s.state != ConnectionState::Open {
    } else {
        let h = step_head(s, events[0], wire);
        lemma_replies_len(h.next, events.drop_first(), h.wire);
    }
}

/// The attached flag of an event: whether its caller still awaits a result.
pub open spec fn attached_of(e: EventSpec) -> bool {
    match e {
        EventSpec::Work { attached, .. } => attached,
        _ => false,
    }
}

/// Two events that carry the same work, whether or not their callers still
/// listen.
pub open spec fn same_payload(x: EventSpec, y: EventSpec) -> bool {
    match (x, y) {
        (
            EventSpec::Work { payload: p1, .. },
            EventSpec::Work { payload: p2, .. },
        ) => p1 == p2,
        (EventSpec::Idle, EventSpec::Idle) => true,
        (EventSpec::Disconnected, EventSpec::Disconnected) => true,
        _ => false,
    }
}

/// Two event sequences that differ at most in which callers still listen.
pub open spec fn same_payloads(a: Seq<EventSpec>, b: Seq<EventSpec>) -> bool {
    a.len() == b.len() && forall|i: int|
        0 <= i < a.len() ==> same_payload(#[trigger] a[i], #[trigger] b[i])
}

/// Cancellation safety: dropping the receiving half of any result channels
/// changes nothing observable on the wire. Two runs over the same work, the
/// same wire script and any pattern of abandoned callers write the same
/// documents in the same order, shut down equally often, consume the wire
/// script equally, and end in the same connection; every caller that still
/// listens in both runs receives the same result.
pub proof fn lemma_cancellation_safe(
    s: SessionState,
    a: Seq<EventSpec>,
    b: Seq<EventSpec>,
    wire: WireScript,
)
    requires
        same_payloads(a, b),
    ensures
        ({
            let ta = session_run(s, a, wire);
            let tb = session_run(s, b, wire);
            &&& ta.writes == tb.writes
            &&& ta.shutdowns == tb.shutdowns
            &&& ta.end == tb.end
            &&& ta.wire == tb.wire
            &&& forall|i: int|
                0 <= i < a.len() && attached_of(a[i]) == attached_of(b[i])
                    ==> #[trigger] ta.replies[i] == #[trigger] tb.replies[i]
        }),
    decreases a.len(),
{
    lemma_replies_len(s, a, wire);
    lemma_replies_len(s, b, wire);
    if a.len() == 0 {
    } else if s.halted || s.state != ConnectionState::Open {
    } else {
        assert(same_payload(a[0], b[0]));
        let ha = step_head(s, a[0], wire);
        let hb = step_head(s, b[0], wire);
        assert(ha.writes =~= hb.writes && ha.shutdowns == hb.shutdowns && ha.next =~= hb.next
            && ha.wire =~= hb.wire);
        assert(attached_of(a[0]) == attached_of(b[0]) ==> ha.reply == hb.reply);
        let a2 = a.drop_first();
        let b2 = b.drop_first();
        assert forall|i: int| 0 <= i < a2.len() implies same_payload(
            #[trigger] a2[i],
            #[trigger] b2[i],
        ) by {
            assert(a2[i] == a[i + 1] && b2[i] == b[i + 1]);
        }
        lemma_cancellation_safe(ha.next, a2, b2, ha.wire);
        let ta = session_run(s, a, wire);
        let tb = session_run(s, b, wire);
        let ta2 = session_run(ha.next, a2, ha.wire);
        let tb2 = session_run(hb.next, b2, hb.wire);
        assert(ta.writes =~= tb.writes);
        assert forall|i: int|
            0 <= i < a.len() && attached_of(a[i]) == attached_of(b[i]) implies #[trigger] ta
            .replies[i] == #[trigger] tb.replies[i] by {
            if i == 0 {
            } else {
                assert(a2[i - 1] == a[i] && b2[i - 1] == b[i]);
                assert(ta.replies[i] == ta2.replies[i - 1]);
                assert(tb.replies[i] == tb2.replies[i - 1]);
            }
        }
    }
}

/// The transport's graceful close is invoked at most once in any run: it
/// only ever follows the inbox closing, and it closes the connection, which
/// ends the loop.
pub proof fn lemma_shutdown_at_most_once(s: SessionState, events: Seq<EventSpec>, wire: WireScript)
    ensures
        session_run(s, events, wire).shutdowns <= 1,
    decreases events.len(),
{
    if events.len() == 0 {
    } else if s.halted || s.state != ConnectionState::Open {
    } else {
        let h = step_head(s, events[0], wire);
        lemma_shutdown_at_most_once(h.next, events.drop_first(), h.wire);
        if events[0] is Disconnected {
            let t2 = session_run(h.next, events.drop_first(), h.wire);
            assert(t2.shutdowns == 0);
        }
    }
}

/// Observing the closed inbox while open performs the graceful shutdown
/// exactly once, closes the connection, and touches neither the wire script
/// nor anybody's result channel.
pub proof fn lemma_shutdown_on_disconnect(
    s: SessionState,
    events: Seq<EventSpec>,
    wire: WireScript,
)
    requires
        s.state == ConnectionState::Open,
        !s.halted,
        events.len() > 0,
        events[0] is Disconnected,
    ensures
        ({
            let t = session_run(s, events, wire);
            &&& t.shutdowns == 1
            &&& t.end.state == ConnectionState::Closed
            &&& t.end.greeting == s.greeting
            &&& t.writes =~= Seq::<Seq<char>>::empty()
            &&& t.wire == wire
            &&& forall|i: int| 0 <= i < events.len() ==> #[trigger] t.replies[i]
                == ReplySpec::NotDelivered
        }),
{
    let h = step_head(s, events[0], wire);
    let t2 = session_run(h.next, events.drop_first(), h.wire);
    lemma_replies_len(h.next, events.drop_first(), h.wire);
    assert(session_run(s, events, wire).writes =~= Seq::<Seq<char>>::empty());
}

/// A greeting query is answered from the cache alone: it writes nothing,
/// consumes nothing of the wire script, and the listening caller receives
/// exactly the cached greeting.
pub proof fn lemma_greeting_query_is_local(s: SessionState, e: EventSpec, wire: WireScript)
    requires
        s.state == ConnectionState::Open,
        !s.halted,
        e matches EventSpec::Work { payload: PayloadSpec::Greeting, .. },
    ensures
        ({
            let h = step_head(s, e, wire);
            &&& h.writes =~= Seq::<Seq<char>>::empty()
            &&& h.wire == wire
            &&& h.shutdowns == 0
            &&& h.next == s
            &&& attached_of(e) ==> h.reply == ReplySpec::Response(s.greeting)
            &&& !attached_of(e) ==> h.reply == ReplySpec::NotDelivered
        }),
{
}

/// Each expiry of the idle timeout while open writes exactly one hello
/// document, and a successful round trip replaces the cached greeting with
/// the registry's fresh one.
pub proof fn lemma_keepalive_step(s: SessionState, wire: WireScript)
    requires
        s.state == ConnectionState::Open,
        !s.halted,
    ensures
        ({
            let h = step_head(s, EventSpec::Idle, wire);
            &&& h.writes =~= seq![spec_hello_xml()]
            &&& h.reply == ReplySpec::NotDelivered
            &&& h.shutdowns == 0
            &&& (next_exchange(wire).0 matches ExchangeSpec::Response(r) ==> h.next
                == SessionState { state: ConnectionState::Open, greeting: r, halted: false })
            &&& (!(next_exchange(wire).0 is Response) ==> h.next.halted)
        }),
{
}

/// A successful reconnect returns the connection to `Open` with the freshly
/// read greeting cached, and that greeting is what the requester receives; a
/// failed one tells the requester with the dedicated reconnect error and
/// ends the run, so every later event observes nothing.
pub proof fn lemma_reconnect(s: SessionState, events: Seq<EventSpec>, wire: WireScript)
    requires
        s.state == ConnectionState::Open,
        !s.halted,
        events.len() > 0,
        events[0] matches EventSpec::Work { payload: PayloadSpec::Reconnect, .. },
    ensures
        ({
            let t = session_run(s, events, wire);
            let h = step_head(s, events[0], wire);
            &&& (next_connect(wire).0 matches ConnectSpec::Connected(g) ==> {
                &&& h.next == SessionState {
                    state: ConnectionState::Open,
                    greeting: g,
                    halted: false,
                }
                &&& attached_of(events[0]) ==> t.replies[0] == ReplySpec::Response(g)
            })
            &&& (next_connect(wire).0 is Failed ==> {
                &&& (attached_of(events[0]) ==> t.replies[0] == ReplySpec::Failed(
                    ErrorKind::Reconnect,
                ))
                &&& t.end.state == ConnectionState::Opening
                &&& t.writes =~= Seq::<Seq<char>>::empty()
                &&& forall|i: int| 1 <= i < events.len() ==> #[trigger] t.replies[i]
                    == ReplySpec::NotDelivered
            })
        }),
{
    let h = step_head(s, events[0], wire);
    let t2 = session_run(h.next, events.drop_first(), h.wire);
    lemma_replies_len(h.next, events.drop_first(), h.wire);
    if next_connect(wire).0 is Failed {
        assert(session_run(s, events, wire).writes =~= Seq::<Seq<char>>::empty());
    }
}

/// An event that makes exactly one wire round trip: a real request, or the
/// keepalive hello.
pub open spec fn is_round_trip_event(e: EventSpec) -> bool {
    match e {
        EventSpec::Work { payload: PayloadSpec::Request(_), .. } => true,
        EventSpec::Idle => true,
        _ => false,
    }
}

/// What such an event puts on the wire.
pub open spec fn wire_payload_of(e: EventSpec) -> Seq<char>
    recommends
        is_round_trip_event(e),
{
    match e {
        EventSpec::Work { payload: PayloadSpec::Request(x), .. } => x,
        _ => spec_hello_xml(),
    }
}

/// First-in, first-out ordering with exact pairing. When every queued event
/// is a request or an idle expiry and the wire answers each round trip, the
/// run writes exactly one document per event, in the order the events were
/// enqueued — however many cloned handles enqueued them — and each caller
/// that still listens receives precisely the response the wire produced for
/// its own request, never a neighbour's. Nothing is ever shut down, the
/// connection stays open, and exactly one scripted response is consumed per
/// event.
pub proof fn lemma_fifo_pairing(s: SessionState, events: Seq<EventSpec>, wire: WireScript)
    requires
        s.state == ConnectionState::Open,
        !s.halted,
        forall|i: int| 0 <= i < events.len() ==> is_round_trip_event(#[trigger] events[i]),
        wire.exchanges.len() >= events.len(),
        forall|i: int| 0 <= i < events.len() ==> #[trigger] wire.exchanges[i] is Response,
    ensures
        ({
            let t = session_run(s, events, wire);
            &&& t.writes.len() == events.len()
            &&& forall|i: int| 0 <= i < events.len() ==> #[trigger] t.writes[i] == wire_payload_of(
                events[i],
            )
            &&& forall|i: int|
                0 <= i < events.len() && (events[i] matches EventSpec::Work {
                    payload: PayloadSpec::Request(_),
                    attached: true,
                }) ==> #[trigger] t.replies[i] == ReplySpec::Response(
                    wire.exchanges[i]->Response_0,
                )
            &&& forall|i: int| 0 <= i < events.len() && !attached_of(events[i])
                ==> #[trigger] t.replies[i] == ReplySpec::NotDelivered
            &&& t.shutdowns == 0
            &&& t.end.state == ConnectionState::Open
            &&& !t.end.halted
            &&& t.wire.exchanges == wire.exchanges.skip(events.len() as int)
            &&& t.wire.connects == wire.connects
        }),
    decreases events.len(),
{
    let t = session_run(s, events, wire);
    lemma_replies_len(s, events, wire);
    if events.len() == 0 {
        assert(t.wire.exchanges =~= wire.exchanges.skip(0));
    } else {
        let h = step_head(s, events[0], wire);
        let events2 = events.drop_first();
        let wire2 = h.wire;
        assert(wire.exchanges[0] is Response);
        assert(wire2.exchanges =~= wire.exchanges.drop_first());
        assert(wire2.connects == wire.connects);
        assert(h.next.state == ConnectionState::Open && !h.next.halted);
        assert forall|i: int| 0 <= i < events2.len() implies is_round_trip_event(
            #[trigger] events2[i],
        ) by {
            assert(events2[i] == events[i + 1]);
        }
        assert forall|i: int| 0 <= i < events2.len() implies #[trigger] wire2.exchanges[i]
            is Response by {
            assert(wire2.exchanges[i] == wire.exchanges[i + 1]);
        }
        lemma_fifo_pairing(h.next, events2, wire2);
        let t2 = session_run(h.next, events2, wire2);
        assert(t.writes.len() == events.len());
        assert forall|i: int| 0 <= i < events.len() implies #[trigger] t.writes[i]
            == wire_payload_of(events[i]) by {
            if i == 0 {
                assert(t.writes[0] == h.writes[0]);
            } else {
                assert(t.writes[i] == t2.writes[i - 1]);
                assert(events2[i - 1] == events[i]);
            }
        }
        assert forall|i: int|
            0 <= i < events.len() && (events[i] matches EventSpec::Work {
                payload: PayloadSpec::Request(_),
                attached: true,
            }) implies #[trigger] t.replies[i] == ReplySpec::Response(
            wire.exchanges[i]->Response_0,
        ) by {
            if i == 0 {
            } else {
                assert(t.replies[i] == t2.replies[i - 1]);
                assert(events2[i - 1] == events[i]);
                assert(wire2.exchanges[i - 1] == wire.exchanges[i]);
            }
        }
        assert forall|i: int| 0 <= i < events.len() && !attached_of(events[i])
            implies #[trigger] t.replies[i] == ReplySpec::NotDelivered by {
            if i == 0 {
            } else {
                assert(t.replies[i] == t2.replies[i - 1]);
                assert(events2[i - 1] == events[i]);
            }
        }
        assert(t.wire.exchanges =~= wire.exchanges.skip(events.len() as int));
    }
}

} // verus!
