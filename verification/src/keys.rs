//! Normalization of a raw uncompressed public key into a canonical P-256
//! verifying key.

use vstd::prelude::*;

use crate::error::PckParseVerifyError;

verus! {

/// A canonical P-256 verifying key: the normalized form of a leaf
/// certificate's public key, usable for subsequent signature checks.
///
/// The parsed key of the `p256` crate is held opaquely; the contracts speak
/// of its SEC1 uncompressed encoding, `key_encoding`.
#[verifier::external_body]
pub struct PckVerifyingKey {
    key: p256::ecdsa::VerifyingKey,
}

/// The SEC1 uncompressed encoding (65 bytes: the `04` tag and two 32-byte
/// coordinates) of the P-256 verifying key held by `key`.
pub uninterp spec fn key_encoding(key: PckVerifyingKey) -> Seq<u8>;

/// Whether the bytes are a valid SEC1 encoding of a point on the P-256 curve
/// that is usable as an ECDSA verifying key.
pub uninterp spec fn p256_key_ok(bytes: Seq<u8>) -> bool;

/// Relies on `p256::EncodedPoint::from_bytes` and
/// `p256::ecdsa::VerifyingKey::from_encoded_point`: the bytes decode into a
/// verifying key exactly when they are a valid SEC1 point encoding of a
/// point on the curve; a 65-byte input that decodes is itself the key's
/// uncompressed encoding.
#[verifier::external_body]
fn p256_key_from_bytes(bytes: &Vec<u8>) -> (r: Option<PckVerifyingKey>)
    ensures
        r is Some <==> p256_key_ok(bytes@),
        bytes@.len() == 65 ==> (r matches Some(k) ==> key_encoding(k) == bytes@),
{
    let point = match p256::EncodedPoint::from_bytes(bytes.as_slice()) {
        Ok(p) => p,
        Err(_) => return None,
    };
    match p256::ecdsa::VerifyingKey::from_encoded_point(&point) {
        Ok(key) => Some(PckVerifyingKey { key }),
        Err(_) => None,
    }
}

impl PckVerifyingKey {
    /// Relies on `p256::ecdsa::VerifyingKey::to_encoded_point`: the SEC1
    /// uncompressed encoding of the key, 65 bytes long.
    #[verifier::external_body]
    pub fn to_uncompressed_bytes(&self) -> (r: Vec<u8>)
        ensures
            r@ == key_encoding(*self),
            r@.len() == 65,
    {
        self.key.to_encoded_point(false).as_bytes().to_vec()
    }
}

/// Normalize the raw public key extracted from the leaf certificate into a
/// canonical P-256 verifying key. The input must be exactly the 65-byte
/// uncompressed point encoding; any other length, and any buffer that does
/// not decode to a valid curve point, is rejected as `BadPublicKey`.
pub fn extract_verifying_key(pck_uncompressed: &Vec<u8>) -> (r: Result<
    PckVerifyingKey,
    PckParseVerifyError,
>)
    ensures
        pck_uncompressed@.len() != 65 ==> r is Err,
        pck_uncompressed@.len() == 65 ==> (r is Ok <==> p256_key_ok(pck_uncompressed@)),
        r matches Ok(k) ==> key_encoding(k) == pck_uncompressed@,
        r is Err ==> r->Err_0 == PckParseVerifyError::BadPublicKey,
{
    if pck_uncompressed.len() != 65 {
        return Err(PckParseVerifyError::BadPublicKey);
    }
    match p256_key_from_bytes(pck_uncompressed) {
        Some(key) => Ok(key),
        None => Err(PckParseVerifyError::BadPublicKey),
    }
}

} // verus!
