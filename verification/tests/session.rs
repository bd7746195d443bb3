//! The connection task's session behaviour, driven against the scripted
//! transport.

use epp_client::client::{interpret_response, EppClient};
use epp_client::connection::{
    ConnectOutcome, ConnectionState, EppConnection, ExchangeOutcome, InboxEvent, RequestMessage,
    WorkItem,
};
use epp_client::domain::check::{parse_check_data, DomainCheck};
use epp_client::error::{Error, ErrorKind};
use epp_client::hello::parse_greeting;
use epp_client::response::parse_response_parts;
use epp_client::session::{run_session, ScriptedTransport};
use epp_client::xml::{command_document, hello_xml, NoExtension};

const CLTRID: &str = "cltrid:1626454866";

fn open_connection(greeting: &str, keepalive: bool) -> EppConnection {
    EppConnection::new("test".to_string(), keepalive, greeting.to_string())
}

fn request(xml: &str, attached: bool) -> InboxEvent {
    InboxEvent::Item(WorkItem {
        request: RequestMessage::Request(xml.to_string()),
        receiver_attached: attached,
    })
}

fn responses(frames: &[&str]) -> Vec<ExchangeOutcome> {
    frames
        .iter()
        .map(|f| ExchangeOutcome::Response(f.to_string()))
        .collect()
}

#[test]
fn greeting_is_answered_from_the_cache() {
    let mut conn = open_connection("<epp><greeting/></epp>", false);
    // a transport that fails any wire I/O: nothing is scripted
    let mut transport = ScriptedTransport::new(Vec::new(), Vec::new());
    let events = vec![InboxEvent::Item(WorkItem {
        request: RequestMessage::Greeting,
        receiver_attached: true,
    })];
    let replies = run_session(&mut conn, &events, &mut transport);
    assert_eq!(replies.len(), 1);
    match &replies[0] {
        Some(Ok(g)) => assert_eq!(g, "<epp><greeting/></epp>"),
        _ => panic!("the cached greeting must be delivered"),
    }
    // no wire activity at all
    assert!(transport.written.is_empty());
    assert_eq!(transport.shutdowns, 0);
    assert_eq!(conn.state, ConnectionState::Open);

    let client = EppClient::new(conn);
    assert_eq!(client.xml_greeting(), "<epp><greeting/></epp>");
}

#[test]
fn requests_are_answered_in_order() {
    let mut conn = open_connection("<g/>", false);
    let mut transport = ScriptedTransport::new(responses(&["<r1/>", "<r2/>"]), Vec::new());
    let events = vec![request("<q1/>", true), request("<q2/>", true)];
    let replies = run_session(&mut conn, &events, &mut transport);

    assert_eq!(transport.written, vec!["<q1/>".to_string(), "<q2/>".to_string()]);
    match (&replies[0], &replies[1]) {
        (Some(Ok(a)), Some(Ok(b))) => {
            assert_eq!(a, "<r1/>");
            assert_eq!(b, "<r2/>");
        }
        _ => panic!("each caller receives the response paired with its own request"),
    }
}

#[test]
fn cancelled_caller_does_not_desynchronize_the_stream() {
    let mut conn = open_connection("<g/>", false);
    let mut transport = ScriptedTransport::new(responses(&["<stale/>", "<fresh/>"]), Vec::new());
    // the first caller dropped its receiving half after the request was sent
    let events = vec![request("<q1/>", false), request("<q2/>", true)];
    let replies = run_session(&mut conn, &events, &mut transport);

    // both exchanges happened on the wire, in order
    assert_eq!(transport.written, vec!["<q1/>".to_string(), "<q2/>".to_string()]);
    // the stale response went nowhere, and the second caller got its own
    assert!(replies[0].is_none());
    match &replies[1] {
        Some(Ok(b)) => assert_eq!(b, "<fresh/>"),
        _ => panic!("the follow-up caller must get its own response"),
    }
    assert_eq!(conn.state, ConnectionState::Open);
}

#[test]
fn keepalive_cadence() {
    let mut conn = open_connection("<g1/>", true);
    let mut transport =
        ScriptedTransport::new(responses(&["<g2/>", "<g3/>", "<r/>"]), Vec::new());
    // an idle window of 100ms with no traffic for 250ms: the timeout fires
    // exactly twice before a real request arrives
    let events = vec![
        InboxEvent::IdleExpired,
        InboxEvent::IdleExpired,
        request("<q/>", true),
    ];
    let replies = run_session(&mut conn, &events, &mut transport);

    assert_eq!(
        transport.written,
        vec![hello_xml(), hello_xml(), "<q/>".to_string()]
    );
    assert!(replies[0].is_none() && replies[1].is_none());
    // each keepalive refreshed the cached greeting
    assert_eq!(conn.greeting, "<g3/>");
    assert_eq!(conn.state, ConnectionState::Open);
}

#[test]
fn keepalive_failure_is_fatal() {
    let mut conn = open_connection("<g1/>", true);
    let mut transport = ScriptedTransport::new(vec![ExchangeOutcome::ReadEof], Vec::new());
    let events = vec![InboxEvent::IdleExpired, request("<q/>", true)];
    let replies = run_session(&mut conn, &events, &mut transport);

    assert_eq!(transport.written, vec![hello_xml()]);
    assert_eq!(conn.state, ConnectionState::Closed);
    // the request after the failure is never served
    assert!(replies[1].is_none());
}

#[test]
fn reconnect_refreshes_the_greeting() {
    let mut conn = open_connection("<old/>", false);
    let mut transport = ScriptedTransport::new(
        Vec::new(),
        vec![ConnectOutcome::Connected("<new/>".to_string())],
    );
    let events = vec![InboxEvent::Item(WorkItem {
        request: RequestMessage::Reconnect,
        receiver_attached: true,
    })];
    let replies = run_session(&mut conn, &events, &mut transport);

    match &replies[0] {
        Some(Ok(g)) => assert_eq!(g, "<new/>"),
        _ => panic!("the requester receives the fresh greeting"),
    }
    assert_eq!(conn.state, ConnectionState::Open);
    let client = EppClient::new(conn);
    assert_eq!(client.xml_greeting(), "<new/>");
}

#[test]
fn failed_reconnect_leaves_the_connection_unusable() {
    let mut conn = open_connection("<old/>", false);
    // the connector will fail: nothing is scripted
    let mut transport = ScriptedTransport::new(Vec::new(), Vec::new());
    let events = vec![
        InboxEvent::Item(WorkItem {
            request: RequestMessage::Reconnect,
            receiver_attached: true,
        }),
        request("<q/>", true),
    ];
    let replies = run_session(&mut conn, &events, &mut transport);

    match &replies[0] {
        Some(Err(e)) => assert_eq!(e.classify(), ErrorKind::Reconnect),
        _ => panic!("the requester learns of the failed reconnect"),
    }
    // subsequent requests fail fast: nothing is written, nobody answers
    assert!(replies[1].is_none());
    assert!(transport.written.is_empty());
}

#[test]
fn dropping_all_handles_shuts_down_once() {
    let mut conn = open_connection("<g/>", false);
    let mut transport = ScriptedTransport::new(responses(&["<r/>"]), Vec::new());
    let events = vec![
        request("<q/>", true),
        InboxEvent::Disconnected,
        request("<late/>", true),
    ];
    let replies = run_session(&mut conn, &events, &mut transport);

    // the shutdown happened exactly once and the loop ended
    assert_eq!(transport.shutdowns, 1);
    assert_eq!(conn.state, ConnectionState::Closed);
    // work enqueued after the close is never served
    assert!(replies[2].is_none());
    assert_eq!(transport.written, vec!["<q/>".to_string()]);
}

#[test]
fn timeout_is_surfaced_to_the_caller() {
    let mut conn = open_connection("<g/>", false);
    let mut transport = ScriptedTransport::new(vec![ExchangeOutcome::TimedOut], Vec::new());
    let events = vec![request("<q/>", true)];
    let replies = run_session(&mut conn, &events, &mut transport);
    match &replies[0] {
        Some(Err(Error::Timeout)) => {}
        _ => panic!("a timed-out exchange surfaces a timeout error"),
    }
    // a timeout alone does not close the connection
    assert_eq!(conn.state, ConnectionState::Open);
}

#[test]
fn malformed_frame_fails_the_exchange_but_not_the_connection() {
    let mut conn = open_connection("<g/>", false);
    let mut transport = ScriptedTransport::new(
        vec![
            ExchangeOutcome::Malformed,
            ExchangeOutcome::Response("<r2/>".to_string()),
        ],
        Vec::new(),
    );
    let events = vec![request("<q1/>", true), request("<q2/>", true)];
    let replies = run_session(&mut conn, &events, &mut transport);
    match &replies[0] {
        Some(Err(e)) => assert_eq!(e.classify(), ErrorKind::Frame),
        _ => panic!("the caller learns of the malformed frame"),
    }
    // the connection stays open and the next exchange succeeds
    assert_eq!(conn.state, ConnectionState::Open);
    match &replies[1] {
        Some(Ok(b)) => assert_eq!(b, "<r2/>"),
        _ => panic!("later exchanges go on"),
    }
}

#[test]
fn eof_while_reading_closes_the_connection() {
    let mut conn = open_connection("<g/>", false);
    let mut transport = ScriptedTransport::new(vec![ExchangeOutcome::ReadEof], Vec::new());
    let events = vec![request("<q/>", true), request("<q2/>", true)];
    let replies = run_session(&mut conn, &events, &mut transport);
    match &replies[0] {
        Some(Err(e)) => assert_eq!(e.classify(), ErrorKind::Io),
        _ => panic!("the caller learns of the broken stream"),
    }
    assert_eq!(conn.state, ConnectionState::Closed);
    assert!(replies[1].is_none());
}

#[test]
fn write_failure_is_reported_and_closes() {
    let mut conn = open_connection("<g/>", false);
    let mut transport = ScriptedTransport::new(vec![ExchangeOutcome::WriteFailed], Vec::new());
    let events = vec![request("<q/>", true), request("<q2/>", true)];
    let replies = run_session(&mut conn, &events, &mut transport);
    // the waiting caller is told, once, and the connection closes
    match &replies[0] {
        Some(Err(e)) => assert_eq!(e.classify(), ErrorKind::Io),
        _ => panic!("the caller learns of the dead socket"),
    }
    assert_eq!(conn.state, ConnectionState::Closed);
    // the loop ended: later work is never served
    assert!(replies[1].is_none());
}

#[test]
fn keepalive_failures_are_classified() {
    let mut conn = open_connection("<g/>", true);
    let r = conn.complete_keepalive(ExchangeOutcome::TimedOut);
    assert!(matches!(r, Err(Error::Timeout)));
    assert_eq!(conn.state, ConnectionState::Open);

    let r = conn.complete_keepalive(ExchangeOutcome::Malformed);
    assert!(matches!(r, Err(Error::Frame(_))));
    assert_eq!(conn.state, ConnectionState::Open);

    let r = conn.complete_keepalive(ExchangeOutcome::ReadEof);
    assert!(matches!(r, Err(Error::Io(_))));
    assert_eq!(conn.state, ConnectionState::Closed);

    let mut conn = open_connection("<g/>", true);
    let r = conn.complete_keepalive(ExchangeOutcome::WriteFailed);
    assert!(matches!(r, Err(Error::Io(_))));
    assert_eq!(conn.state, ConnectionState::Closed);

    let mut conn = open_connection("<g/>", true);
    let r = conn.complete_keepalive(ExchangeOutcome::Response("<g2/>".to_string()));
    assert!(r.is_ok());
    assert_eq!(conn.greeting, "<g2/>");
}

#[test]
fn connect_hello_and_check() {
    // connect: the transport's first frame is the greeting, cached verbatim
    let greeting = "<epp xmlns=\"urn:ietf:params:xml:ns:epp-1.0\"><greeting><svID>Test EPP Server</svID><svDate>2024-01-01T00:00:00Z</svDate></greeting></epp>";
    let mut conn = open_connection(greeting, false);

    let check_response = format!(
        "<?xml version=\"1.0\" encoding=\"UTF-8\" standalone=\"no\"?>\r\n<epp xmlns=\"urn:ietf:params:xml:ns:epp-1.0\"><response><result code=\"1000\"><msg>Command completed successfully</msg></result><resData><chkData xmlns=\"urn:ietf:params:xml:ns:domain-1.0\"><cd><name avail=\"1\">example.com</name></cd></chkData></resData><trID><clTRID>{}</clTRID><svTRID>RO-1</svTRID></trID></response></epp>",
        CLTRID
    );
    let mut transport = ScriptedTransport::new(
        responses(&[greeting, check_response.as_str()]),
        Vec::new(),
    );

    // hello: a real wire round trip, never the cache
    let hello = hello_xml();
    let check = DomainCheck {
        domains: &["example.com"],
    };
    let check_xml = command_document(&check, None::<&NoExtension>, CLTRID);
    let events = vec![
        request(hello.as_str(), true),
        request(check_xml.as_str(), true),
    ];
    let replies = run_session(&mut conn, &events, &mut transport);
    assert_eq!(transport.written, vec![hello.clone(), check_xml.clone()]);

    let hello_reply = match &replies[0] {
        Some(Ok(g)) => g.clone(),
        _ => panic!("hello must be answered"),
    };
    let parsed = parse_greeting(hello_reply.as_str()).unwrap();
    assert_eq!(parsed.server_id, "Test EPP Server");

    let check_reply = match &replies[1] {
        Some(Ok(r)) => r.clone(),
        _ => panic!("the check must be answered"),
    };
    let parts = parse_response_parts(check_reply.as_str()).unwrap();
    let ok = interpret_response(parts).unwrap();
    let data = parse_check_data(ok.res_data.as_deref().unwrap()).unwrap();
    assert_eq!(data.list.len(), 1);
    assert_eq!(data.list[0].name(), "example.com");
    assert_eq!(data.list[0].available(), (true, None));
}
