//! Verification of PCK (Provisioning Certification Key) certificate chains.
//!
//! A chain of DER-encoded certificates, leaf first, is checked link by link:
//! each certificate's signature is verified with the public key of the next
//! certificate, the trust-anchor certificate is appended as the final link and
//! verifies itself, and on success the leaf's public key is returned in its
//! uncompressed 65-byte form, normalized to a P-256 verifying key.

pub mod chain;
pub mod error;
pub mod keys;
pub mod link;
pub mod pem_input;
