//! The DNS security extension (RFC 5910): delegation signer and key data on
//! domain creation.

use vstd::prelude::*;
use vstd::string::*;

verus! {

/// The algorithm a delegation signer digest was built with.
#[derive(Clone, Copy, Debug)]
pub enum DigestAlgorithm {
    Sha1,
    Sha256,
    Gost,
    Sha384,
    Other(u8),
}

impl DigestAlgorithm {
    /// The IANA number of the algorithm.
    pub fn as_u8(&self) -> (r: u8)
        ensures
            r == spec_digest_algorithm_number(*self),
    {
        match self {
            DigestAlgorithm::Sha1 => 1,
            DigestAlgorithm::Sha256 => 2,
            DigestAlgorithm::Gost => 3,
            DigestAlgorithm::Sha384 => 4,
            DigestAlgorithm::Other(n) => *n,
        }
    }
}

/// The IANA number of each digest algorithm.
pub open spec fn spec_digest_algorithm_number(a: DigestAlgorithm) -> u8 {
    match a {
        DigestAlgorithm::Sha1 => 1,
        DigestAlgorithm::Sha256 => 2,
        DigestAlgorithm::Gost => 3,
        DigestAlgorithm::Sha384 => 4,
        DigestAlgorithm::Other(n) => n,
    }
}

/// A public key's cryptographic algorithm.
#[derive(Clone, Copy, Debug)]
pub enum Algorithm {
    /// Delete DS.
    Delete,
    /// RSA/MD5.
    RsaMd5,
    /// Diffie-Hellman.
    Dh,
    /// DSA/SHA-1.
    Dsa,
    /// Elliptic curve.
    Ecc,
    /// RSA/SHA-1.
    RsaSha1,
    /// DSA-NSEC3-SHA1.
    DsaNsec3Sha1,
    /// RSASHA1-NSEC3-SHA1.
    RsaSha1Nsec3Sha1,
    /// RSA/SHA-256.
    RsaSha256,
    /// RSA/SHA-512.
    RsaSha512,
    /// GOST R 34.10-2001.
    EccGost,
    /// ECDSA curve P-256 with SHA-256.
    EcdsaP256Sha256,
    /// ECDSA curve P-384 with SHA-384.
    EcdsaP384Sha384,
    /// Ed25519.
    Ed25519,
    /// Ed448.
    Ed448,
    /// Indirect.
    Indirect,
    /// Private, named by domain.
    PrivateDns,
    /// Private, named by OID.
    PrivateOid,
    Other(u8),
}

/// The IANA number of each algorithm.
pub open spec fn spec_algorithm_number(a: Algorithm) -> u8 {
    match a {
        Algorithm::Delete => 0,
        Algorithm::RsaMd5 => 1,
        Algorithm::Dh => 2,
        Algorithm::Dsa => 3,
        Algorithm::Ecc => 4,
        Algorithm::RsaSha1 => 5,
        Algorithm::DsaNsec3Sha1 => 6,
        Algorithm::RsaSha1Nsec3Sha1 => 7,
        Algorithm::RsaSha256 => 8,
        Algorithm::RsaSha512 => 10,
        Algorithm::EccGost => 12,
        Algorithm::EcdsaP256Sha256 => 13,
        Algorithm::EcdsaP384Sha384 => 14,
        Algorithm::Ed25519 => 15,
        Algorithm::Ed448 => 16,
        Algorithm::Indirect => 252,
        Algorithm::PrivateDns => 253,
        Algorithm::PrivateOid => 254,
        Algorithm::Other(n) => n,
    }
}

impl Algorithm {
    /// The IANA number of the algorithm.
    pub fn as_u8(&self) -> (r: u8)
        ensures
            r == spec_algorithm_number(*self),
    {
        match self {
            Algorithm::Delete => 0,
            Algorithm::RsaMd5 => 1,
            Algorithm::Dh => 2,
            Algorithm::Dsa => 3,
            Algorithm::Ecc => 4,
            Algorithm::RsaSha1 => 5,
            Algorithm::DsaNsec3Sha1 => 6,
            Algorithm::RsaSha1Nsec3Sha1 => 7,
            Algorithm::RsaSha256 => 8,
            Algorithm::RsaSha512 => 10,
            Algorithm::EccGost => 12,
            Algorithm::EcdsaP256Sha256 => 13,
            Algorithm::EcdsaP384Sha384 => 14,
            Algorithm::Ed25519 => 15,
            Algorithm::Ed448 => 16,
            Algorithm::Indirect => 252,
            Algorithm::PrivateDns => 253,
            Algorithm::PrivateOid => 254,
            Algorithm::Other(n) => *n,
        }
    }
}

/// The flags field of a DNSKEY record.
#[derive(Clone, Copy, Debug)]
pub struct Flags {
    /// Whether the record holds a DNS zone key.
    pub zone_key: bool,
    /// Whether the key is intended as a secure entry point.
    pub secure_entry_point: bool,
}

/// The numeric value of a flags field: bit 7 for the zone key, bit 15 for
/// the secure entry point, counting from the most significant bit.
pub open spec fn spec_flags_value(f: Flags) -> int {
    (if f.zone_key {
        256int
    } else {
        0int
    }) + (if f.secure_entry_point {
        1int
    } else {
        0int
    })
}

impl Flags {
    /// Flags for a zone signing key.
    pub fn zone_signing_key() -> (r: Self)
        ensures
            r.zone_key && !r.secure_entry_point,
    {
        Flags { zone_key: true, secure_entry_point: false }
    }

    /// Flags for a key signing key.
    pub fn key_signing_key() -> (r: Self)
        ensures
            r.zone_key && r.secure_entry_point,
    {
        Flags { zone_key: true, secure_entry_point: true }
    }

    /// The flags as the number written on the wire.
    pub fn as_u16(&self) -> (r: u16)
        ensures
            r == spec_flags_value(*self),
    {
        let mut res: u16 = 0;
        if self.zone_key {
            res = res + 0x100;
        }
        if self.secure_entry_point {
            res = res + 0x1;
        }
        res
    }
}

/// A DNSKEY's protocol field.
#[derive(Clone, Copy, Debug)]
pub enum Protocol {
    /// Reserved (RFC 2535): TLS.
    Tls,
    /// Reserved (RFC 2535): email.
    Email,
    /// DNSSEC.
    Dnssec,
    /// Reserved (RFC 2535): IPSEC.
    Ipsec,
    /// All uses (RFC 2535).
    All,
    Other(u8),
}

/// The number of each protocol.
pub open spec fn spec_protocol_number(p: Protocol) -> u8 {
    match p {
        Protocol::Tls => 1,
        Protocol::Email => 2,
        Protocol::Dnssec => 3,
        Protocol::Ipsec => 4,
        Protocol::All => 255,
        Protocol::Other(n) => n,
    }
}

impl Protocol {
    /// The protocol as the number written on the wire.
    pub fn as_u8(&self) -> (r: u8)
        ensures
            r == spec_protocol_number(*self),
    {
        match self {
            Protocol::Tls => 1,
            Protocol::Email => 2,
            Protocol::Dnssec => 3,
            Protocol::Ipsec => 4,
            Protocol::All => 255,
            Protocol::Other(n) => *n,
        }
    }
}

/// The `<keyData>` element: one DNSKEY record.
#[derive(Clone, Debug)]
pub struct KeyDataType {
    pub flags: Flags,
    pub protocol: Protocol,
    pub algorithm: Algorithm,
    /// The public key, in base64.
    pub public_key: String,
}

impl KeyDataType {
    /// A key record from its parts.
    pub fn new(flags: Flags, protocol: Protocol, algorithm: Algorithm, public_key: &str) -> (r:
        Self)
        ensures
            r.flags == flags,
            r.protocol == protocol,
            r.algorithm == algorithm,
            r.public_key@ == public_key@,
    {
        Self { flags, protocol, algorithm, public_key: String::from_str(public_key) }
    }
}

/// The `<dsData>` element: one delegation signer record.
#[derive(Clone, Debug)]
pub struct DsDataType {
    pub key_tag: u16,
    pub algorithm: Algorithm,
    pub digest_type: DigestAlgorithm,
    /// The digest, in hexadecimal.
    pub digest: String,
    pub key_data: Option<KeyDataType>,
}

impl DsDataType {
    /// A delegation signer record from its parts.
    pub fn new(
        key_tag: u16,
        algorithm: Algorithm,
        digest_type: DigestAlgorithm,
        digest: &str,
        key_data: Option<KeyDataType>,
    ) -> (r: Self)
        ensures
            r.key_tag == key_tag,
            r.algorithm == algorithm,
            r.digest_type == digest_type,
            r.digest@ == digest@,
            r.key_data == key_data,
    {
        Self { key_tag, algorithm, digest_type, digest: String::from_str(digest), key_data }
    }
}

/// Either interface of the extension: delegation signer records, or key
/// records, with an optional signature lifetime in seconds.
#[derive(Debug)]
pub struct DsOrKeyType {
    /// The `<maxSigLife>` value, in seconds.
    pub maximum_signature_lifetime: Option<u64>,
    /// The records themselves.
    pub data: DsOrKeyData,
}

/// The records the extension carries.
#[derive(Debug)]
pub enum DsOrKeyData {
    DsData(Vec<DsDataType>),
    KeyData(Vec<KeyDataType>),
}

/// The `<secDNS:create>` extension data for domain creation.
#[derive(Debug)]
pub struct CreateData {
    pub data: DsOrKeyType,
}

impl CreateData {
    /// Extension data carrying delegation signer records.
    pub fn from_ds_data(data: Vec<DsDataType>, maximum_signature_lifetime: Option<u64>) -> (r:
        Self)
        ensures
            r.data.maximum_signature_lifetime == maximum_signature_lifetime,
            r.data.data matches DsOrKeyData::DsData(d) && d == data,
    {
        CreateData { data: DsOrKeyType { maximum_signature_lifetime, data: DsOrKeyData::DsData(data) } }
    }

    /// Extension data carrying key records.
    pub fn from_key_data(data: Vec<KeyDataType>, maximum_signature_lifetime: Option<u64>) -> (r:
        Self)
        ensures
            r.data.maximum_signature_lifetime == maximum_signature_lifetime,
            r.data.data matches DsOrKeyData::KeyData(d) && d == data,
    {
        CreateData {
            data: DsOrKeyType { maximum_signature_lifetime, data: DsOrKeyData::KeyData(data) },
        }
    }
}

} // verus!
