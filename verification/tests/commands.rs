//! Serialization of commands into EPP documents.

use epp_client::contact::create::ContactCreate;
use epp_client::contact::info::ContactInfo;
use epp_client::contact::update::ContactUpdate;
use epp_client::contact::{Address, Country, Fax, PostalInfo, Status, Voice};
use epp_client::domain::check::DomainCheck;
use epp_client::domain::delete::DomainDelete;
use epp_client::extensions::fee;
use epp_client::host::check::HostCheck;
use epp_client::message::ack::MessageAck;
use epp_client::poll::{Ack, Poll};
use epp_client::xml::{command_document, hello_xml, NoExtension};

const CLTRID: &str = "cltrid:1626454866";

const PREFIX: &str = "<?xml version=\"1.0\" encoding=\"UTF-8\" standalone=\"no\"?>\r\n<epp xmlns=\"urn:ietf:params:xml:ns:epp-1.0\"><command>";
const SUFFIX: &str = "<clTRID>cltrid:1626454866</clTRID></command></epp>";

fn document(body: &str) -> String {
    format!("{}{}{}", PREFIX, body, SUFFIX)
}

#[test]
fn info_command() {
    let object = ContactInfo::new("eppdev-contact-3", "eppdev-387323");
    let xml = command_document(&object, None::<&NoExtension>, CLTRID);
    assert_eq!(
        xml,
        document(
            "<info><info xmlns=\"urn:ietf:params:xml:ns:contact-1.0\"><id>eppdev-contact-3</id><authInfo><pw>eppdev-387323</pw></authInfo></info></info>"
        )
    );
}

#[test]
fn check_command() {
    let object = DomainCheck {
        domains: &["eppdev.com", "eppdev.net"],
    };
    let xml = command_document(&object, None::<&NoExtension>, CLTRID);
    assert_eq!(
        xml,
        document(
            "<check><check xmlns=\"urn:ietf:params:xml:ns:domain-1.0\"><name>eppdev.com</name><name>eppdev.net</name></check></check>"
        )
    );
}

#[test]
fn host_check_command() {
    let object = HostCheck {
        hosts: &["ns1.eppdev-1.com", "host1.eppdev-1.com"],
    };
    let xml = command_document(&object, None::<&NoExtension>, CLTRID);
    assert_eq!(
        xml,
        document(
            "<check><check xmlns=\"urn:ietf:params:xml:ns:host-1.0\"><name>ns1.eppdev-1.com</name><name>host1.eppdev-1.com</name></check></check>"
        )
    );
}

#[test]
fn message_ack_command() {
    let object = MessageAck::new("12345");
    let xml = command_document(&object, None::<&NoExtension>, CLTRID);
    assert_eq!(xml, document("<poll op=\"ack\" msgID=\"12345\"/>"));
}

#[test]
fn ack_command() {
    let object = Ack {
        message_id: "12345",
    };
    let xml = command_document(&object, None::<&NoExtension>, CLTRID);
    assert_eq!(xml, document("<poll op=\"ack\" msgID=\"12345\"/>"));
}

#[test]
fn poll_command() {
    let object = Poll;
    let xml = command_document(&object, None::<&NoExtension>, CLTRID);
    assert_eq!(xml, document("<poll op=\"req\"/>"));
}

#[test]
fn request_delete() {
    let xml = command_document(&DomainDelete::new("example.com"), Some(&fee::Delete), CLTRID);
    assert_eq!(
        xml,
        document(
            "<delete><delete xmlns=\"urn:ietf:params:xml:ns:domain-1.0\"><name>example.com</name></delete></delete><extension></extension>"
        )
    );
}

#[test]
fn create_command() {
    let street = &["58", "Orchid Road"];
    let address = Address::new(
        street,
        "Paris",
        Some("Paris"),
        Some("392374"),
        Country::new("FR").unwrap(),
    );
    let postal_info = PostalInfo::new("int", "John Doe", Some("Acme Widgets"), address);
    let mut voice = Voice::new("+33.47237942");
    voice.set_extension("123");
    let mut fax = Fax::new("+33.86698799");
    fax.set_extension("677");

    let mut object = ContactCreate::new(
        "eppdev-contact-3",
        "contact@eppdev.net",
        postal_info,
        Some(voice),
        "eppdev-387323",
    );
    object.set_fax(fax);

    let xml = command_document(&object, None::<&NoExtension>, CLTRID);
    assert_eq!(
        xml,
        document(
            "<create><create xmlns=\"urn:ietf:params:xml:ns:contact-1.0\"><id>eppdev-contact-3</id><postalInfo type=\"int\"><name>John Doe</name><org>Acme Widgets</org><addr><street>58</street><street>Orchid Road</street><city>Paris</city><sp>Paris</sp><pc>392374</pc><cc>FR</cc></addr></postalInfo><voice x=\"123\">+33.47237942</voice><fax x=\"677\">+33.86698799</fax><email>contact@eppdev.net</email><authInfo><pw>eppdev-387323</pw></authInfo></create></create>"
        )
    );
}

#[test]
fn command_minimal() {
    let address = Address::new(&[], "Paris", None, None, Country::new("FR").unwrap());
    let postal_info = PostalInfo::new("int", "John Doe", None, address);
    let object = ContactCreate::new(
        "eppdev-contact-3",
        "contact@eppdev.net",
        postal_info,
        None,
        "eppdev-387323",
    );

    let xml = command_document(&object, None::<&NoExtension>, CLTRID);
    assert_eq!(
        xml,
        document(
            "<create><create xmlns=\"urn:ietf:params:xml:ns:contact-1.0\"><id>eppdev-contact-3</id><postalInfo type=\"int\"><name>John Doe</name><addr><city>Paris</city><cc>FR</cc></addr></postalInfo><email>contact@eppdev.net</email><authInfo><pw>eppdev-387323</pw></authInfo></create></create>"
        )
    );
}

#[test]
fn update_command() {
    let mut object = ContactUpdate::new("eppdev-contact-3");

    let street = &["58", "Orchid Road"];
    let address = Address::new(
        street,
        "Paris",
        Some("Paris"),
        Some("392374"),
        Country::new("FR").unwrap(),
    );
    let postal_info = PostalInfo::new("loc", "John Doe", Some("Acme Widgets"), address);
    let voice = Voice::new("+33.47237942");

    object.set_info("newemail@eppdev.net", postal_info, voice, "eppdev-387323");
    object.add(vec![Status::ClientTransferProhibited]);
    object.remove(vec![Status::ClientDeleteProhibited]);

    let xml = command_document(&object, None::<&NoExtension>, CLTRID);
    assert_eq!(
        xml,
        document(
            "<update><update xmlns=\"urn:ietf:params:xml:ns:contact-1.0\"><id>eppdev-contact-3</id><add><status s=\"clientTransferProhibited\"/></add><rem><status s=\"clientDeleteProhibited\"/></rem><chg><postalInfo type=\"loc\"><name>John Doe</name><org>Acme Widgets</org><addr><street>58</street><street>Orchid Road</street><city>Paris</city><sp>Paris</sp><pc>392374</pc><cc>FR</cc></addr></postalInfo><voice>+33.47237942</voice><email>newemail@eppdev.net</email><authInfo><pw>eppdev-387323</pw></authInfo></chg></update></update>"
        )
    );
}

#[test]
fn hello_document() {
    assert_eq!(
        hello_xml(),
        "<?xml version=\"1.0\" encoding=\"UTF-8\" standalone=\"no\"?>\r\n<epp xmlns=\"urn:ietf:params:xml:ns:epp-1.0\"><hello/></epp>"
    );
}

#[test]
fn text_is_escaped() {
    let object = DomainCheck {
        domains: &["a&b<c>.example"],
    };
    let xml = command_document(&object, None::<&NoExtension>, "x\"y'z&");
    assert!(xml.contains("<name>a&amp;b&lt;c&gt;.example</name>"));
    assert!(xml.contains("<clTRID>x&quot;y&apos;z&amp;</clTRID>"));
}
