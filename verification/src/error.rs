//! The closed set of failure kinds shared by every public operation.

use vstd::prelude::*;

verus! {

/// An error when parsing or verifying a PCK or provider certificate.
///
/// Exactly one kind is returned per failing operation:
/// - `Parse`: a certificate (or its to-be-signed body) failed structural
///   DER decoding;
/// - `Verify`: a signature check over the chain failed;
/// - `BadPublicKey`: public key material had the wrong length or did not
///   decode to a valid curve point;
/// - `NoCertificate`: the input chain was empty;
/// - `Pem`: the PEM text envelope could not be decoded.
#[derive(Debug, Clone, Copy, PartialEq, Eq, Structural)]
pub enum PckParseVerifyError {
    Parse,
    Verify,
    BadPublicKey,
    NoCertificate,
    Pem,
}

impl PckParseVerifyError {
    /// A stable, distinct human-readable message for each failure kind.
    pub fn message(&self) -> (r: &'static str)
        ensures
            *self is Parse ==> r@ == "Cannot parse PCK certificate"@,
            *self is Verify ==> r@ == "Cannot verify PCK certificate"@,
            *self is BadPublicKey ==> r@ == "Bad public key"@,
            *self is NoCertificate ==> r@ == "No certificate chain given"@,
            *self is Pem ==> r@ == "Unable to decode PEM"@,
    {
        match self {
            PckParseVerifyError::Parse => "Cannot parse PCK certificate",
            PckParseVerifyError::Verify => "Cannot verify PCK certificate",
            PckParseVerifyError::BadPublicKey => "Bad public key",
            PckParseVerifyError::NoCertificate => "No certificate chain given",
            PckParseVerifyError::Pem => "Unable to decode PEM",
        }
    }
}

} // verus!
