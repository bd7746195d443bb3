//! Reading of EPP response documents.

use epp_client::client::interpret_response;
use epp_client::domain::check::parse_check_data;
use epp_client::error::Error;
use epp_client::extensions::change_poll::{
    parse_change_poll, CaseIdentifierKind, OperationKind, State,
};
use epp_client::hello::parse_greeting;
use epp_client::host::check::parse_check_data as parse_host_check_data;
use epp_client::response::{parse_response_parts, parse_response_status, ResultCode};

const CLTRID: &str = "cltrid:1626454866";
const SVTRID: &str = "RO-6879-1627224678242975";
const SUCCESS_MSG: &str = "Command completed successfully";

fn response_document(body: &str) -> String {
    format!(
        "<?xml version=\"1.0\" encoding=\"UTF-8\" standalone=\"no\"?>\r\n<epp xmlns=\"urn:ietf:params:xml:ns:epp-1.0\"><response>{}<trID><clTRID>{}</clTRID><svTRID>{}</svTRID></trID></response></epp>",
        body, CLTRID, SVTRID
    )
}

fn change_poll_response(state: &str, operation: &str, extra: &str) -> String {
    response_document(&format!(
        "<result code=\"1301\"><msg>Command completed successfully; ack to dequeue</msg></result><msgQ count=\"1\" id=\"201\"><qDate>2013-10-22T14:25:57.0Z</qDate><msg>Registry initiated update of domain.</msg></msgQ><extension><changeData xmlns=\"urn:ietf:params:xml:ns:changePoll-1.0\" state=\"{}\"><operation>{}</operation><date>2013-10-22T14:25:57.0Z</date><svTRID>12345-XYZ</svTRID><who>URS Admin</who>{}</changeData></extension>",
        state, operation, extra
    ))
}

#[test]
fn error() {
    let xml = response_document(
        "<result code=\"2303\"><msg>Object does not exist</msg><extValue><value><undef/></value><reason>545 Object not found</reason></extValue></result>",
    );
    let object = parse_response_status(xml.as_str()).unwrap();

    assert_eq!(object.result.code, ResultCode::ObjectDoesNotExist);
    assert_eq!(object.result.message, "Object does not exist");
    assert_eq!(
        object.result.ext_value.unwrap().reason,
        "545 Object not found"
    );
    assert_eq!(object.tr_ids.client_tr_id.unwrap(), CLTRID);
    assert_eq!(object.tr_ids.server_tr_id, SVTRID);
}

#[test]
fn empty_queue_response() {
    let xml = response_document(
        "<result code=\"1300\"><msg>Command completed successfully; no messages</msg></result>",
    );
    let object = parse_response_parts(xml.as_str()).unwrap();

    assert_eq!(
        object.result.code,
        ResultCode::CommandCompletedSuccessfullyNoMessages
    );
    assert_eq!(
        object.result.message,
        "Command completed successfully; no messages"
    );
    assert!(object.message_queue.is_none());
    assert_eq!(object.tr_ids.client_tr_id.unwrap(), CLTRID);
    assert_eq!(object.tr_ids.server_tr_id, SVTRID);
}

#[test]
fn delete_before() {
    let xml = change_poll_response("before", "delete", "");
    let object = parse_response_parts(xml.as_str()).unwrap();

    assert_eq!(
        object.result.code,
        ResultCode::CommandCompletedSuccessfullyAckToDequeue
    );
    assert_eq!(
        object.result.message,
        "Command completed successfully; ack to dequeue"
    );
    let change = parse_change_poll(object.extension.as_deref().unwrap()).unwrap();
    assert_eq!(change.state, Some(State::Before));
    assert_eq!(change.operation.kind().unwrap(), OperationKind::Delete);
    assert_eq!(object.tr_ids.client_tr_id.unwrap(), CLTRID);
    assert_eq!(object.tr_ids.server_tr_id, SVTRID);
}

#[test]
fn autopurge_before() {
    let xml = change_poll_response("before", "autoPurge", "");
    let object = parse_response_parts(xml.as_str()).unwrap();

    assert_eq!(
        object.result.code,
        ResultCode::CommandCompletedSuccessfullyAckToDequeue
    );
    assert_eq!(
        object.result.message,
        "Command completed successfully; ack to dequeue"
    );
    let change = parse_change_poll(object.extension.as_deref().unwrap()).unwrap();
    assert_eq!(change.state, Some(State::Before));
    assert_eq!(change.operation.kind().unwrap(), OperationKind::AutoPurge);
    assert_eq!(object.tr_ids.client_tr_id.unwrap(), CLTRID);
    assert_eq!(object.tr_ids.server_tr_id, SVTRID);
}

#[test]
fn update_after() {
    let xml = change_poll_response("after", "update", "<reason>URS Lock</reason>");
    let object = parse_response_parts(xml.as_str()).unwrap();

    assert_eq!(
        object.result.code,
        ResultCode::CommandCompletedSuccessfullyAckToDequeue
    );
    assert_eq!(
        object.result.message,
        "Command completed successfully; ack to dequeue"
    );
    let change = parse_change_poll(object.extension.as_deref().unwrap()).unwrap();
    assert_eq!(change.state, Some(State::After));
    assert_eq!(change.operation.kind().unwrap(), OperationKind::Update);
    assert_eq!(change.reason.unwrap().inner, "URS Lock");
    assert_eq!(object.tr_ids.client_tr_id.unwrap(), CLTRID);
    assert_eq!(object.tr_ids.server_tr_id, SVTRID);
}

#[test]
fn custom_operation_and_case_id() {
    let xml = change_poll_response(
        "after",
        "custom",
        "<caseId type=\"urs\" name=\"\">urs123</caseId>",
    );
    // the custom operation lacks its op attribute, so reading the kind fails
    let object = parse_response_parts(xml.as_str()).unwrap();
    let change = parse_change_poll(object.extension.as_deref().unwrap()).unwrap();
    assert!(change.operation.kind().is_err());

    // with the attribute in place the custom name comes through
    let xml = response_document(
        "<result code=\"1301\"><msg>Command completed successfully; ack to dequeue</msg></result><extension><changeData xmlns=\"urn:ietf:params:xml:ns:changePoll-1.0\"><operation op=\"sync\">custom</operation><date>2013-10-22T14:25:57.0Z</date><svTRID>12345-XYZ</svTRID><who>CSR</who></changeData></extension>",
    );
    let object = parse_response_parts(xml.as_str()).unwrap();
    let change = parse_change_poll(object.extension.as_deref().unwrap()).unwrap();
    assert_eq!(
        change.operation.kind().unwrap(),
        OperationKind::Custom("sync".to_string())
    );
    assert_eq!(change.state, None);
    assert_eq!(change.state(), State::After);
    assert_eq!(change.who, "CSR");
}

#[test]
fn check_response() {
    let xml = response_document(&format!(
        "<result code=\"1000\"><msg>{}</msg></result><resData><chkData xmlns=\"urn:ietf:params:xml:ns:domain-1.0\"><cd><name avail=\"1\">eppdev.com</name></cd><cd><name avail=\"0\">eppdev.net</name></cd><cd><name avail=\"0\">eppdev.org</name><reason>In Use</reason></cd></chkData></resData>",
        SUCCESS_MSG
    ));
    let object = parse_response_parts(xml.as_str()).unwrap();
    assert_eq!(object.result.code, ResultCode::CommandCompletedSuccessfully);
    assert_eq!(object.result.message, SUCCESS_MSG);
    let result = parse_check_data(object.res_data.as_deref().unwrap()).unwrap();
    assert_eq!(result.list[0].name.value, "eppdev.com");
    assert!(result.list[0].name.available);
    assert_eq!(result.list[1].name.value, "eppdev.net");
    assert!(!result.list[1].name.available);
    assert!(!result.list[2].name.available);
    assert_eq!(result.list[2].reason.as_ref().unwrap().value, "In Use");
    assert_eq!(object.tr_ids.client_tr_id.unwrap(), CLTRID);
    assert_eq!(object.tr_ids.server_tr_id, SVTRID);
}

#[test]
fn host_check_response() {
    let xml = response_document(&format!(
        "<result code=\"1000\"><msg>{}</msg></result><resData><chkData xmlns=\"urn:ietf:params:xml:ns:host-1.0\"><cd><name avail=\"1\">host1.eppdev-1.com</name></cd><cd><name avail=\"0\">ns1.testing.com</name></cd></chkData></resData>",
        SUCCESS_MSG
    ));
    let object = parse_response_parts(xml.as_str()).unwrap();
    assert_eq!(object.result.code, ResultCode::CommandCompletedSuccessfully);
    assert_eq!(object.result.message, SUCCESS_MSG);
    let result = parse_host_check_data(object.res_data.as_deref().unwrap()).unwrap();
    assert_eq!(result.list[0].name.id, "host1.eppdev-1.com");
    assert!(result.list[0].name.available);
    assert_eq!(result.list[1].name.id, "ns1.testing.com");
    assert!(!result.list[1].name.available);
    assert_eq!(object.tr_ids.client_tr_id.unwrap(), CLTRID);
    assert_eq!(object.tr_ids.server_tr_id, SVTRID);
}

fn queue_response() -> String {
    response_document(&format!(
        "<result code=\"1000\"><msg>{}</msg></result><msgQ count=\"4\" id=\"12345\"></msgQ>",
        SUCCESS_MSG
    ))
}

#[test]
fn ack_response() {
    let xml = queue_response();
    let object = parse_response_parts(xml.as_str()).unwrap();
    let msg = object.message_queue.as_ref().unwrap();

    assert_eq!(object.result.code, ResultCode::CommandCompletedSuccessfully);
    assert_eq!(object.result.message, SUCCESS_MSG);
    assert_eq!(msg.count, 4);
    assert_eq!(msg.id, "12345".to_string());
    assert_eq!(object.tr_ids.server_tr_id, SVTRID);
}

#[test]
fn poll_response() {
    let xml = queue_response();
    let object = parse_response_parts(xml.as_str()).unwrap();
    let msg = object.message_queue.as_ref().unwrap();

    assert_eq!(object.result.code, ResultCode::CommandCompletedSuccessfully);
    assert_eq!(object.result.message, SUCCESS_MSG);
    assert_eq!(msg.count, 4);
    assert_eq!(msg.id, "12345".to_string());
    assert_eq!(object.tr_ids.server_tr_id, SVTRID);
}

#[test]
fn message_only_response() {
    let xml = response_document(
        "<result code=\"1301\"><msg>Command completed successfully; ack to dequeue</msg></result><msgQ count=\"4\" id=\"12346\"><qDate>2000-06-08T22:10:00Z</qDate><msg>Credit balance low.</msg></msgQ>",
    );
    let object = parse_response_parts(xml.as_str()).unwrap();
    let msg = object.message_queue.as_ref().unwrap();

    assert_eq!(
        object.result.code,
        ResultCode::CommandCompletedSuccessfullyAckToDequeue
    );
    assert_eq!(
        object.result.message,
        "Command completed successfully; ack to dequeue"
    );
    assert_eq!(msg.count, 4);
    assert_eq!(msg.id, "12346".to_string());
    assert_eq!(msg.date.as_deref(), Some("2000-06-08T22:10:00Z"));
    assert_eq!(msg.message.as_ref().unwrap().text, "Credit balance low.");
    assert_eq!(object.tr_ids.client_tr_id.unwrap(), CLTRID);
    assert_eq!(object.tr_ids.server_tr_id, SVTRID);
}

#[test]
fn urs_lock_before() {
    let xml = change_poll_response(
        "before",
        "update",
        "<caseId type=\"urs\">urs123</caseId><reason>URS Lock</reason>",
    );
    let object = parse_response_parts(xml.as_str()).unwrap();

    assert_eq!(
        object.result.code,
        ResultCode::CommandCompletedSuccessfullyAckToDequeue
    );
    assert_eq!(
        object.result.message,
        "Command completed successfully; ack to dequeue"
    );
    let change = parse_change_poll(object.extension.as_deref().unwrap()).unwrap();
    assert_eq!(change.state, Some(State::Before));
    assert_eq!(change.operation.kind().unwrap(), OperationKind::Update);
    assert_eq!(change.date, "2013-10-22T14:25:57.0Z");
    assert_eq!(change.server_tr_id, "12345-XYZ");
    assert_eq!(change.who, "URS Admin");
    assert_eq!(
        change.case_id.as_ref().unwrap().kind().unwrap(),
        CaseIdentifierKind::Urs
    );
    assert_eq!(change.case_id.as_ref().unwrap().id, "urs123");
    assert_eq!(change.reason.as_ref().unwrap().inner, "URS Lock");
    assert_eq!(object.tr_ids.client_tr_id.unwrap(), CLTRID);
    assert_eq!(object.tr_ids.server_tr_id, SVTRID);
}

#[test]
fn urs_lock_after() {
    let xml = change_poll_response("after", "update", "");
    let object = parse_response_parts(xml.as_str()).unwrap();

    assert_eq!(
        object.result.code,
        ResultCode::CommandCompletedSuccessfullyAckToDequeue
    );
    assert_eq!(
        object.result.message,
        "Command completed successfully; ack to dequeue"
    );
    let change = parse_change_poll(object.extension.as_deref().unwrap()).unwrap();
    assert_eq!(change.state, Some(State::After));
    assert_eq!(object.tr_ids.client_tr_id.unwrap(), CLTRID);
    assert_eq!(object.tr_ids.server_tr_id, SVTRID);
}

#[test]
fn custom_sync_after() {
    let xml = response_document(
        "<result code=\"1301\"><msg>Command completed successfully; ack to dequeue</msg></result><extension><changeData xmlns=\"urn:ietf:params:xml:ns:changePoll-1.0\" state=\"after\"><operation op=\"sync\">custom</operation><date>2013-10-22T14:25:57.0Z</date><svTRID>12345-XYZ</svTRID><who>CSR</who><reason>Customer sync request</reason></changeData></extension>",
    );
    let object = parse_response_parts(xml.as_str()).unwrap();

    assert_eq!(
        object.result.code,
        ResultCode::CommandCompletedSuccessfullyAckToDequeue
    );
    assert_eq!(
        object.result.message,
        "Command completed successfully; ack to dequeue"
    );
    let change = parse_change_poll(object.extension.as_deref().unwrap()).unwrap();
    assert_eq!(
        change.operation.kind().unwrap(),
        OperationKind::Custom("sync".to_string())
    );
    assert_eq!(change.who, "CSR");
    assert_eq!(
        change.reason.as_ref().unwrap().inner,
        "Customer sync request"
    );
    assert_eq!(object.tr_ids.client_tr_id.unwrap(), CLTRID);
    assert_eq!(object.tr_ids.server_tr_id, SVTRID);
}

#[test]
fn contact_update() {
    let xml = response_document(&format!(
        "<result code=\"1000\"><msg>{}</msg></result>",
        SUCCESS_MSG
    ));
    let object = parse_response_status(xml.as_str()).unwrap();
    assert_eq!(object.result.code, ResultCode::CommandCompletedSuccessfully);
    assert_eq!(object.result.message, SUCCESS_MSG);
    assert_eq!(object.tr_ids.client_tr_id.unwrap(), CLTRID);
    assert_eq!(object.tr_ids.server_tr_id, SVTRID);
}

#[test]
fn message_queue_fields() {
    let xml = response_document(
        "<result code=\"1301\"><msg>Command completed successfully; ack to dequeue</msg></result><msgQ count=\"4\" id=\"12345\"><qDate>2021-07-23T19:12:43Z</qDate><msg>Transfer requested.</msg></msgQ>",
    );
    let object = parse_response_parts(xml.as_str()).unwrap();
    let queue = object.message_queue.unwrap();
    assert_eq!(queue.count, 4);
    assert_eq!(queue.id, "12345");
    assert_eq!(queue.date.unwrap(), "2021-07-23T19:12:43Z");
    let message = queue.message.unwrap();
    assert_eq!(message.text, "Transfer requested.");
    assert_eq!(message.lang, None);
}

#[test]
fn language_attributes_are_read() {
    // a queued message with a language
    let xml = response_document(
        "<result code=\"1301\"><msg>Command completed successfully; ack to dequeue</msg></result><msgQ count=\"4\" id=\"12345\"><msg lang=\"en\">Transfer requested.</msg></msgQ>",
    );
    let object = parse_response_parts(xml.as_str()).unwrap();
    let message = object.message_queue.unwrap().message.unwrap();
    assert_eq!(message.text, "Transfer requested.");
    assert_eq!(message.lang.as_deref(), Some("en"));

    // an unavailability reason with a language
    let fragment = "<chkData xmlns=\"urn:ietf:params:xml:ns:domain-1.0\"><cd><name avail=\"0\">eppdev.net</name><reason lang=\"en\">In Use</reason></cd></chkData>";
    let data = parse_check_data(fragment).unwrap();
    let reason = data.list[0].reason.as_ref().unwrap();
    assert_eq!(reason.value, "In Use");
    assert_eq!(reason.lang.as_deref(), Some("en"));

    // a change poll reason with a language
    let xml = change_poll_response(
        "before",
        "update",
        "<reason lang=\"en\">URS Lock</reason>",
    );
    let object = parse_response_parts(xml.as_str()).unwrap();
    let change = parse_change_poll(object.extension.as_deref().unwrap()).unwrap();
    let reason = change.reason.unwrap();
    assert_eq!(reason.inner, "URS Lock");
    assert_eq!(reason.lang.as_deref(), Some("en"));
}

#[test]
fn check_data_parsing() {
    let fragment = "<chkData xmlns=\"urn:ietf:params:xml:ns:domain-1.0\"><cd><name avail=\"1\">eppdev.com</name></cd><cd><name avail=\"0\">eppdev.net</name><reason>In Use</reason></cd></chkData>";
    let data = parse_check_data(fragment).unwrap();
    assert_eq!(data.list.len(), 2);
    assert!(data.list[0].name.available);
    assert_eq!(data.list[0].name(), "eppdev.com");
    assert_eq!(data.list[0].available(), (true, None));
    assert!(!data.list[1].name.available);
    assert_eq!(data.list[1].name(), "eppdev.net");
    assert_eq!(data.list[1].available(), (false, Some("In Use")));
}

#[test]
fn malformed_responses_are_refused() {
    // no result code at all
    assert!(matches!(
        parse_response_status("<response></response>"),
        Err(Error::Xml(_))
    ));
    // a code outside the protocol's table
    let xml = response_document("<result code=\"9999\"><msg>strange</msg></result>");
    assert!(matches!(
        parse_response_status(xml.as_str()),
        Err(Error::Xml(_))
    ));
    // a malformed cd entry
    assert!(parse_check_data("<cd><name>eppdev.com</name></cd>").is_err());
}

#[test]
fn command_failure_is_structured() {
    let xml = response_document(
        "<result code=\"2303\"><msg>Object does not exist</msg></result>",
    );
    let parts = parse_response_parts(xml.as_str()).unwrap();
    match interpret_response(parts) {
        Err(Error::Command(status)) => {
            assert_eq!(status.result.code, ResultCode::ObjectDoesNotExist);
            assert!(!status.result.code.is_success());
            assert!(!status.result.code.is_persistent());
        }
        _ => panic!("a non-success code must become a command error"),
    }

    let xml = response_document(&format!(
        "<result code=\"1000\"><msg>{}</msg></result>",
        SUCCESS_MSG
    ));
    let parts = parse_response_parts(xml.as_str()).unwrap();
    let ok = interpret_response(parts).unwrap();
    assert_eq!(ok.result.code, ResultCode::CommandCompletedSuccessfully);
    assert_eq!(ok.result.message, SUCCESS_MSG);
}

#[test]
fn result_code_table() {
    assert_eq!(ResultCode::from_u16(1000), Some(ResultCode::CommandCompletedSuccessfully));
    assert_eq!(ResultCode::from_u16(2502), Some(ResultCode::SessionLimitExceededServerClosingConnection));
    assert_eq!(ResultCode::from_u16(1999), None);
    assert!(ResultCode::CommandCompletedSuccessfullyAckToDequeue.is_success());
    assert!(!ResultCode::ObjectDoesNotExist.is_success());
    assert!(ResultCode::CommandSyntaxError.is_persistent());
    assert!(!ResultCode::CommandUseError.is_persistent());
    assert!(ResultCode::SessionLimitExceededServerClosingConnection.is_persistent());
}

#[test]
fn greeting_parsing() {
    let xml = "<?xml version=\"1.0\" encoding=\"UTF-8\"?><epp xmlns=\"urn:ietf:params:xml:ns:epp-1.0\"><greeting><svID>Test EPP Server</svID><svDate>2024-01-01T00:00:00Z</svDate></greeting></epp>";
    let greeting = parse_greeting(xml).unwrap();
    assert_eq!(greeting.server_id, "Test EPP Server");
    assert_eq!(greeting.server_date.unwrap(), "2024-01-01T00:00:00Z");
    assert!(parse_greeting("<epp><greeting></greeting></epp>").is_err());
}
