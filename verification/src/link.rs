//! Trusted boundary to the X.509 decoder and signature verifier.
//!
//! A certificate is carried through the chain as its raw DER bytes; what the
//! decoder and the verifier compute from those bytes is deterministic, so it
//! is given names that the contracts of the verified chain walk speak of.

use vstd::prelude::*;

use x509_verify::x509_cert::der::{Decode, Encode};
use x509_verify::x509_cert::Certificate;
use x509_verify::{Signature, VerifyInfo, VerifyingKey};

verus! {

/// Whether a byte buffer is a structurally valid DER-encoded certificate.
pub uninterp spec fn der_parses(der: Seq<u8>) -> bool;

/// The raw subject-public-key bytes of the certificate encoded by `der`, or
/// `None` when the key bit string does not form a whole number of bytes.
pub uninterp spec fn cert_public_key(der: Seq<u8>) -> Option<Seq<u8>>;

/// Whether the subject-public-key info of the certificate encoded by `der`
/// converts into a usable verifying key.
pub uninterp spec fn issuer_key_ok(der: Seq<u8>) -> bool;

/// Whether the certificate encoded by `der` yields its signable material:
/// its to-be-signed body re-encodes and its signature bit string forms a
/// whole number of bytes.
pub uninterp spec fn signable_ok(der: Seq<u8>) -> bool;

/// Whether the signature of the certificate encoded by `subject`, taken over
/// its to-be-signed body, verifies under the public key carried by the
/// certificate encoded by `issuer`.
pub uninterp spec fn link_signature_ok(subject: Seq<u8>, issuer: Seq<u8>) -> bool;

/// The outcome of checking one link of the chain.
pub enum LinkCheck {
    /// The issuer's key is usable and the subject's signature verifies.
    Good,
    /// The issuer's subject-public-key info does not convert into a key.
    BadKey,
    /// The subject's signable material cannot be recovered.
    NoSignable,
    /// The signature check itself failed.
    BadSignature,
}

/// Relies on `x509_cert::Certificate::from_der`: whether the buffer decodes
/// as a certificate.
#[verifier::external_body]
pub(crate) fn parse_certificate(der: &Vec<u8>) -> (r: bool)
    ensures
        r == der_parses(der@),
{
    Certificate::from_der(der.as_slice()).is_ok()
}

/// Relies on `x509_cert::Certificate::from_der` and
/// `der::asn1::BitString::as_bytes`: the raw subject-public-key bytes of a
/// certificate known to decode, `None` when the bit string has unused bits.
#[verifier::external_body]
pub(crate) fn subject_public_key(der: &Vec<u8>) -> (r: Option<Vec<u8>>)
    requires
        der_parses(der@),
    ensures
        r is Some <==> cert_public_key(der@) is Some,
        r matches Some(k) ==> cert_public_key(der@) == Some(k@),
{
    let cert = Certificate::from_der(der.as_slice()).unwrap();
    let key = &cert.tbs_certificate.subject_public_key_info.subject_public_key;
    key.as_bytes().map(|b| b.to_vec())
}

/// Relies on `x509_verify`: `VerifyingKey::try_from` on the issuer's
/// subject-public-key info, `der::Encode::to_der` and
/// `der::asn1::BitString::as_bytes` on the subject's signable material, and
/// `VerifyingKey::verify` on the resulting message and signature. Both
/// buffers must be known to decode as certificates.
#[verifier::external_body]
pub(crate) fn check_link(subject_der: &Vec<u8>, issuer_der: &Vec<u8>) -> (r: LinkCheck)
    requires
        der_parses(subject_der@),
        der_parses(issuer_der@),
    ensures
        r is BadKey <==> !issuer_key_ok(issuer_der@),
        issuer_key_ok(issuer_der@) ==> (r is NoSignable <==> !signable_ok(subject_der@)),
        issuer_key_ok(issuer_der@) && signable_ok(subject_der@) ==> (r is Good
            <==> link_signature_ok(subject_der@, issuer_der@)),
        issuer_key_ok(issuer_der@) && signable_ok(subject_der@)
            && !link_signature_ok(subject_der@, issuer_der@) ==> r is BadSignature,
{
    let subject = Certificate::from_der(subject_der.as_slice()).unwrap();
    let issuer = Certificate::from_der(issuer_der.as_slice()).unwrap();
    let spki = issuer.tbs_certificate.subject_public_key_info;
    let key = match VerifyingKey::try_from(spki) { Ok(k) => k, Err(_) => return LinkCheck::BadKey };
    let tbs = match subject.tbs_certificate.to_der() { Ok(t) => t, Err(_) => return LinkCheck::NoSignable };
    let sig = match subject.signature.as_bytes() { Some(s) => s, None => return LinkCheck::NoSignable };
    let info = VerifyInfo::new(tbs.into(), Signature::new(&subject.signature_algorithm, sig));
    match key.verify(&info) { Ok(()) => LinkCheck::Good, Err(_) => LinkCheck::BadSignature }
}

} // verus!
