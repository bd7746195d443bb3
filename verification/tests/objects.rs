//! The typed objects of the catalog: constructors, labels and conversions.

use epp_client::contact;
use epp_client::contact::{Address, ContactAuthInfo, Country, Fax, PostalInfo, Voice};
use epp_client::contact::create::ContactCreate;
use epp_client::contact::update::ContactUpdate;
use epp_client::domain;
use epp_client::domain::{DomainAuthInfo, PeriodLength};
use epp_client::error::{Error, ErrorKind};
use epp_client::extensions::fee;
use epp_client::extensions::frnic;
use epp_client::extensions::rgp::RgpStatus;
use epp_client::extensions::secdns::{
    Algorithm, DigestAlgorithm, DsDataType, Flags, KeyDataType, Protocol,
};
use epp_client::host;

#[test]
fn country_lookup_resolves_names_and_codes() {
    assert_eq!(Country::new("FR").unwrap().alpha2, "FR");
    assert_eq!(Country::new("France").unwrap().alpha2, "FR");
    assert_eq!(Country::new("deu").unwrap().alpha2, "DE");
    assert!(Country::new("not a country").is_err());
}

#[test]
fn period_length_bounds() {
    assert!(PeriodLength::new(0).is_err());
    assert!(PeriodLength::new(1).is_ok());
    assert!(PeriodLength::new(99).is_ok());
    assert!(PeriodLength::new(100).is_err());
}

#[test]
fn status_labels_round_trip() {
    assert_eq!(domain::Status::Okay.as_str(), "ok");
    assert_eq!(domain::Status::ClientHold.as_str(), "clientHold");
    assert_eq!(
        domain::Status::from_label("pendingRenew"),
        Some(domain::Status::PendingRenew)
    );
    assert_eq!(domain::Status::from_label("nonsense"), None);

    assert_eq!(host::Status::Linked.as_str(), "linked");
    assert_eq!(host::Status::from_label("ok"), Some(host::Status::Okay));

    assert_eq!(
        contact::Status::ClientTransferProhibited.as_str(),
        "clientTransferProhibited"
    );
    assert_eq!(
        contact::Status::from_label("pendingUpdate"),
        Some(contact::Status::PendingUpdate)
    );

    assert_eq!(RgpStatus::RedemptionPeriod.as_str(), "redemptionPeriod");
    assert_eq!(
        RgpStatus::from_label("autoRenewPeriod"),
        Some(RgpStatus::AutoRenewPeriod)
    );
    assert_eq!(RgpStatus::from_label("ok"), None);
}

#[test]
fn contact_builders() {
    let auth = ContactAuthInfo::new("eppdev-387323");
    assert_eq!(auth.password, "eppdev-387323");

    let mut voice = Voice::new("+33.47237942");
    assert_eq!(voice.number, "+33.47237942");
    assert_eq!(voice.extension, None);
    voice.set_extension("123");
    assert_eq!(voice.extension.as_deref(), Some("123"));

    let mut fax = Fax::new("+33.86698799");
    fax.set_extension("677");
    assert_eq!(fax.number, "+33.86698799");
    assert_eq!(fax.extension.as_deref(), Some("677"));

    let address = Address::new(
        &["58", "Orchid Road"],
        "Paris",
        Some("Paris"),
        Some("392374"),
        Country::new("FR").unwrap(),
    );
    assert_eq!(address.street, vec!["58".to_string(), "Orchid Road".to_string()]);
    assert_eq!(address.city, "Paris");
    assert_eq!(address.country.alpha2, "FR");

    let postal = PostalInfo::new("loc", "John Doe", Some("Acme Widgets"), address);
    assert_eq!(postal.info_type, "loc");
    assert_eq!(postal.name, "John Doe");
    assert_eq!(postal.organization.as_deref(), Some("Acme Widgets"));

    let mut create = ContactCreate::new(
        "eppdev-contact-3",
        "contact@eppdev.net",
        postal,
        Some(voice),
        "eppdev-387323",
    );
    assert_eq!(create.contact.id, "eppdev-contact-3");
    assert_eq!(create.contact.email, "contact@eppdev.net");
    assert!(create.contact.fax.is_none());
    create.set_fax(fax);
    assert!(create.contact.fax.is_some());

    let mut update = ContactUpdate::new("eppdev-contact-3");
    assert!(update.contact.change_info.is_none());
    let address = Address::new(
        &["58", "Orchid Road"],
        "Paris",
        None,
        None,
        Country::new("FR").unwrap(),
    );
    let postal = PostalInfo::new("loc", "John Doe", None, address);
    update.set_info(
        "newemail@eppdev.net",
        postal,
        Voice::new("+33.47237942"),
        "eppdev-387323",
    );
    update.add(vec![contact::Status::ClientTransferProhibited]);
    update.remove(vec![contact::Status::ClientUpdateProhibited]);
    let info = update.contact.change_info.as_ref().unwrap();
    assert_eq!(info.email.as_deref(), Some("newemail@eppdev.net"));
    assert!(update.contact.add_statuses.is_some());
    assert!(update.contact.remove_statuses.is_some());
}

#[test]
fn domain_auth_info() {
    let auth = DomainAuthInfo::new("epP4uthd#v");
    assert_eq!(auth.password, "epP4uthd#v");
}

#[test]
fn domain_objects() {
    let one_year = domain::Period::Years(PeriodLength::new(1).unwrap());
    assert!(matches!(one_year, domain::Period::Years(_)));
    let six_months = domain::Period::Months(PeriodLength::new(6).unwrap());
    assert!(matches!(six_months, domain::Period::Months(_)));

    let host = domain::HostObj {
        name: "ns1.eppdev-1.com".to_string(),
    };
    assert_eq!(host.name, "ns1.eppdev-1.com");

    let contact = domain::DomainContact {
        contact_type: "admin".to_string(),
        id: "eppdev-contact-3".to_string(),
    };
    assert_eq!(contact.contact_type, "admin");
    assert_eq!(contact.id, "eppdev-contact-3");
}

#[test]
fn fee_command_builders() {
    let cmd = fee::Command::create()
        .with_phase("sunrise")
        .with_subphase("idn")
        .with_period(fee::PeriodType::years(2));
    assert_eq!(cmd.command(), fee::CommandEnum::Create);
    assert_eq!(cmd.phase(), Some("sunrise"));
    assert_eq!(cmd.subphase(), Some("idn"));

    assert_eq!(fee::Command::renew().command(), fee::CommandEnum::Renew);
    assert_eq!(fee::Command::transfer().command(), fee::CommandEnum::Transfer);
    assert_eq!(
        fee::Command::restore().with_custom_name("restoration").command(),
        fee::CommandEnum::Restore
    );

    let period = fee::PeriodType::years(2);
    assert_eq!(period.unit(), "y");
    assert_eq!(period.value(), 2);
}

#[test]
fn secdns_numbers() {
    assert_eq!(DigestAlgorithm::Sha1.as_u8(), 1);
    assert_eq!(DigestAlgorithm::Sha256.as_u8(), 2);
    assert_eq!(DigestAlgorithm::Other(240).as_u8(), 240);
    assert_eq!(Algorithm::RsaSha256.as_u8(), 8);
    assert_eq!(Algorithm::Ed25519.as_u8(), 15);
    assert_eq!(Protocol::Dnssec.as_u8(), 3);
    assert_eq!(Protocol::All.as_u8(), 255);
    assert_eq!(Flags::zone_signing_key().as_u16(), 256);
    assert_eq!(Flags::key_signing_key().as_u16(), 257);

    let key = KeyDataType::new(
        Flags::key_signing_key(),
        Protocol::Dnssec,
        Algorithm::RsaSha256,
        "AQPJ////4Q==",
    );
    assert_eq!(key.public_key, "AQPJ////4Q==");

    let ds = DsDataType::new(
        12345,
        Algorithm::RsaSha256,
        DigestAlgorithm::Sha1,
        "49FD46E6C4B45C55D4AC",
        Some(key),
    );
    assert_eq!(ds.key_tag, 12345);
    assert_eq!(ds.digest, "49FD46E6C4B45C55D4AC");
}

#[test]
fn frnic_contact_kinds() {
    match frnic::ContactCreate::new_natural_person("Michel") {
        frnic::ContactCreate::NaturalPerson { first_name } => assert_eq!(first_name, "Michel"),
        _ => panic!("a natural person"),
    }
    match frnic::ContactCreate::new_company(Some("123456789"), None, None, None, None) {
        frnic::ContactCreate::LegalEntity(e) => {
            assert!(matches!(e.legal_status, frnic::LegalStatus::Company));
            assert_eq!(e.siren.as_deref(), Some("123456789"));
            assert!(e.asso.is_none());
        }
        _ => panic!("a company"),
    }
    match frnic::ContactCreate::new_non_profit(
        Some("123456"),
        Some("2011-05-02"),
        Some(frnic::Publication {
            page: 123456,
            announce: 15,
            date: "2011-05-07".to_string(),
        }),
    ) {
        frnic::ContactCreate::LegalEntity(e) => {
            assert!(matches!(e.legal_status, frnic::LegalStatus::Association));
            let asso = e.asso.unwrap();
            assert_eq!(asso.waldec.as_deref(), Some("123456"));
            assert_eq!(asso.publication.unwrap().announce, 15);
        }
        _ => panic!("an association"),
    }
}

#[test]
fn error_classification() {
    assert_eq!(Error::Timeout.classify(), ErrorKind::Timeout);
    assert_eq!(Error::Closed.classify(), ErrorKind::Closed);
    assert_eq!(Error::Reconnect.classify(), ErrorKind::Reconnect);
    assert_eq!(Error::Io("gone".to_string()).classify(), ErrorKind::Io);
    assert_eq!(Error::Frame("short".to_string()).classify(), ErrorKind::Frame);
    assert_eq!(Error::Xml("bad".to_string()).classify(), ErrorKind::Xml);
    assert_eq!(Error::Other("misc".to_string()).classify(), ErrorKind::Other);
}
