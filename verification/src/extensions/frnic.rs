//! Extensions for the AFNIC (.fr) registry: creating contacts as natural
//! persons or legal entities.

use vstd::prelude::*;
use vstd::string::*;

verus! {

/// The AFNIC extension envelope.
#[derive(Debug)]
pub struct Ext<T> {
    pub data: T,
}

/// The AFNIC `<create>` wrapper.
#[derive(Debug)]
pub struct Create<T> {
    pub data: T,
}

/// The legal form of a legal-entity contact.
#[derive(Debug)]
pub enum LegalStatus {
    Company,
    Association,
    Other(String),
}

/// Publication of an association in the official gazette.
#[derive(Debug)]
pub struct Publication {
    /// Page number of the announcement.
    pub page: u32,
    /// Number of the announcement.
    pub announce: u32,
    /// Date of publication.
    pub date: String,
}

/// Identification of an association.
#[derive(Debug)]
pub struct Association {
    /// The Waldec registration number.
    pub waldec: Option<String>,
    /// Date of declaration to the prefecture.
    pub declaration: Option<String>,
    /// Publication in the official gazette.
    pub publication: Option<Publication>,
}

/// What identifies a legal entity.
#[derive(Debug)]
pub struct LegalEntityInfos {
    pub legal_status: LegalStatus,
    pub siren: Option<String>,
    pub vat: Option<String>,
    pub trademark: Option<String>,
    pub asso: Option<Association>,
    pub duns: Option<String>,
    pub local: Option<String>,
}

/// For French domains, a contact is either an individual or a legal entity;
/// this extension tells the two apart at creation time.
#[derive(Debug)]
pub enum ContactCreate {
    /// The contact is an individual; the plain contact name carries the
    /// family name, and this carries the first name.
    NaturalPerson { first_name: String },
    /// The contact is a legal entity.
    LegalEntity(Box<LegalEntityInfos>),
}

impl ContactCreate {
    /// A contact that is an individual with the given first name.
    pub fn new_natural_person(first_name: &str) -> (r: Self)
        ensures
            r matches ContactCreate::NaturalPerson { first_name: f } && f@ == first_name@,
    {
        Self::NaturalPerson { first_name: String::from_str(first_name) }
    }

    /// A contact that is a company, identified by whichever registration
    /// numbers it has.
    pub fn new_company(
        siren: Option<&str>,
        vat: Option<&str>,
        trademark: Option<&str>,
        duns: Option<&str>,
        local: Option<&str>,
    ) -> (r: Self)
        ensures
            r matches ContactCreate::LegalEntity(e) && {
                &&& e.legal_status is Company
                &&& (match siren {
                    Some(x) => e.siren matches Some(v) && v@ == x@,
                    None => e.siren is None,
                })
                &&& (match vat {
                    Some(x) => e.vat matches Some(v) && v@ == x@,
                    None => e.vat is None,
                })
                &&& (match trademark {
                    Some(x) => e.trademark matches Some(v) && v@ == x@,
                    None => e.trademark is None,
                })
                &&& (match duns {
                    Some(x) => e.duns matches Some(v) && v@ == x@,
                    None => e.duns is None,
                })
                &&& (match local {
                    Some(x) => e.local matches Some(v) && v@ == x@,
                    None => e.local is None,
                })
                &&& e.asso is None
            },
    {
        Self::LegalEntity(
            Box::new(
                LegalEntityInfos {
                    legal_status: LegalStatus::Company,
                    siren: copy_opt(siren),
                    vat: copy_opt(vat),
                    trademark: copy_opt(trademark),
                    asso: None,
                    duns: copy_opt(duns),
                    local: copy_opt(local),
                },
            ),
        )
    }

    /// A contact that is a non-profit association.
    pub fn new_non_profit(
        waldec: Option<&str>,
        declaration: Option<&str>,
        publication: Option<Publication>,
    ) -> (r: Self)
        ensures
            r matches ContactCreate::LegalEntity(e) && {
                &&& e.legal_status is Association
                &&& e.siren is None && e.vat is None && e.trademark is None && e.duns is None
                    && e.local is None
                &&& e.asso matches Some(a) && {
                    &&& (match waldec {
                        Some(x) => a.waldec matches Some(v) && v@ == x@,
                        None => a.waldec is None,
                    })
                    &&& (match declaration {
                        Some(x) => a.declaration matches Some(v) && v@ == x@,
                        None => a.declaration is None,
                    })
                    &&& a.publication == publication
                }
            },
    {
        Self::LegalEntity(
            Box::new(
                LegalEntityInfos {
                    legal_status: LegalStatus::Association,
                    siren: None,
                    vat: None,
                    trademark: None,
                    asso: Some(
                        Association {
                            waldec: copy_opt(waldec),
                            declaration: copy_opt(declaration),
                            publication,
                        },
                    ),
                    duns: None,
                    local: None,
                },
            ),
        )
    }
}

/// Copies an optional borrowed string into an owned one.
fn copy_opt(s: Option<&str>) -> (r: Option<String>)
    ensures
        match s {
            Some(x) => r matches Some(v) && v@ == x@,
            None => r is None,
        },
{
    match s {
        Some(x) => Some(String::from_str(x)),
        None => None,
    }
}

} // verus!
