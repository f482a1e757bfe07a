use p256::ecdsa::{DerSignature, SigningKey};
use pck_chain::chain::{
    verify_pck_cert_chain, verify_pck_certificate_chain_der, verify_pck_certificate_chain_pem,
};
use pck_chain::error::PckParseVerifyError;
use std::str::FromStr;
use std::time::Duration;
use x509_cert::builder::{Builder, CertificateBuilder, Profile};
use x509_cert::der::Encode;
use x509_cert::name::Name;
use x509_cert::serial_number::SerialNumber;
use x509_cert::spki::SubjectPublicKeyInfoOwned;
use x509_cert::time::Validity;

fn signing_key(seed: u8) -> SigningKey {
    let mut bytes = [0u8; 32];
    bytes[31] = seed;
    SigningKey::from_slice(&bytes).unwrap()
}

fn uncompressed_bytes(key: &SigningKey) -> Vec<u8> {
    key.verifying_key().to_encoded_point(false).as_bytes().to_vec()
}

fn make_cert(
    profile: Profile,
    subject_cn: &str,
    subject_key: &SigningKey,
    issuer_key: &SigningKey,
) -> Vec<u8> {
    let serial = SerialNumber::from(7u32);
    let validity = Validity::from_now(Duration::from_secs(3600)).unwrap();
    let subject = Name::from_str(subject_cn).unwrap();
    let spki = SubjectPublicKeyInfoOwned::from_key(subject_key.verifying_key().clone()).unwrap();
    let builder =
        CertificateBuilder::new(profile, serial, validity, subject, spki, issuer_key).unwrap();
    builder.build::<DerSignature>().unwrap().to_der().unwrap()
}

/// A root CA, an intermediate platform CA signed by the root, and a leaf PCK
/// certificate signed by the intermediate; returns their DER encodings and
/// the leaf's signing key.
fn test_chain() -> (Vec<u8>, Vec<u8>, Vec<u8>, SigningKey) {
    let root_key = signing_key(1);
    let intermediate_key = signing_key(2);
    let leaf_key = signing_key(3);
    let root_name = "CN=Test Root CA";
    let intermediate_name = "CN=Test Platform CA";
    let root = make_cert(Profile::Root, root_name, &root_key, &root_key);
    let intermediate = make_cert(
        Profile::SubCA {
            issuer: Name::from_str(root_name).unwrap(),
            path_len_constraint: None,
        },
        intermediate_name,
        &intermediate_key,
        &root_key,
    );
    let leaf = make_cert(
        Profile::Leaf {
            issuer: Name::from_str(intermediate_name).unwrap(),
            enable_key_agreement: false,
            enable_key_encipherment: false,
        },
        "CN=Test PCK",
        &leaf_key,
        &intermediate_key,
    );
    (leaf, intermediate, root, leaf_key)
}

#[test]
fn test_verify_pck_cert_chain() {
    let (leaf, intermediate, root, _) = test_chain();
    assert!(verify_pck_certificate_chain_der(vec![leaf, intermediate], &root).is_ok());
}

#[test]
fn leaf_and_intermediate_chain_returns_leaf_key() {
    let (leaf, intermediate, root, leaf_key) = test_chain();
    let expected = uncompressed_bytes(&leaf_key);
    let raw = verify_pck_cert_chain(&vec![leaf.clone(), intermediate.clone()], &root).unwrap();
    assert_eq!(raw, expected);
    assert_eq!(raw.len(), 65);
    let key = verify_pck_certificate_chain_der(vec![leaf, intermediate], &root).unwrap();
    assert_eq!(key.to_uncompressed_bytes(), expected);
}

#[test]
fn repeated_calls_return_the_same_key() {
    let (leaf, intermediate, root, _) = test_chain();
    let ders = vec![leaf, intermediate];
    let first = verify_pck_cert_chain(&ders, &root).unwrap();
    let second = verify_pck_cert_chain(&ders, &root).unwrap();
    assert_eq!(first, second);
}

#[test]
fn empty_chain_is_no_certificate() {
    let (_, _, root, _) = test_chain();
    assert_eq!(
        verify_pck_cert_chain(&vec![], &root).unwrap_err(),
        PckParseVerifyError::NoCertificate
    );
    match verify_pck_certificate_chain_der(vec![], &root) {
        Err(e) => assert_eq!(e, PckParseVerifyError::NoCertificate),
        Ok(_) => panic!("empty chain accepted"),
    }
}

#[test]
fn tampered_leaf_signature_is_verify_error() {
    let (leaf, intermediate, root, _) = test_chain();
    let mut bad_leaf = leaf.clone();
    let n: usize = bad_leaf.len();
    bad_leaf[n - 1] ^= 0x01;
    assert_eq!(
        verify_pck_cert_chain(&vec![bad_leaf, intermediate], &root).unwrap_err(),
        PckParseVerifyError::Verify
    );
}

#[test]
fn tampered_intermediate_signature_is_verify_error() {
    let (leaf, intermediate, root, _) = test_chain();
    let mut bad_intermediate = intermediate.clone();
    let n: usize = bad_intermediate.len();
    bad_intermediate[n - 1] ^= 0x01;
    assert_eq!(
        verify_pck_cert_chain(&vec![leaf, bad_intermediate], &root).unwrap_err(),
        PckParseVerifyError::Verify
    );
}

#[test]
fn explicit_trailing_root_changes_nothing() {
    let (leaf, intermediate, root, leaf_key) = test_chain();
    let with_root =
        verify_pck_cert_chain(&vec![leaf.clone(), intermediate.clone(), root.clone()], &root)
            .unwrap();
    let without_root = verify_pck_cert_chain(&vec![leaf, intermediate], &root).unwrap();
    assert_eq!(with_root, without_root);
    assert_eq!(without_root, uncompressed_bytes(&leaf_key));
}

#[test]
fn root_alone_verifies_itself() {
    let (_, _, root, _) = test_chain();
    let raw = verify_pck_cert_chain(&vec![root.clone()], &root).unwrap();
    assert_eq!(raw, uncompressed_bytes(&signing_key(1)));
}

#[test]
fn missing_intermediate_is_verify_error() {
    let (leaf, _, root, _) = test_chain();
    assert_eq!(
        verify_pck_cert_chain(&vec![leaf], &root).unwrap_err(),
        PckParseVerifyError::Verify
    );
}

#[test]
fn garbage_certificate_is_parse_error() {
    let (_, _, root, _) = test_chain();
    let garbage = vec![0x30u8, 0x03, 0x02, 0x01, 0x01];
    assert_eq!(
        verify_pck_cert_chain(&vec![garbage], &root).unwrap_err(),
        PckParseVerifyError::Parse
    );
}

#[test]
fn garbage_root_is_parse_error() {
    let (leaf, intermediate, _, _) = test_chain();
    let bogus_root = vec![1u8, 2, 3];
    assert_eq!(
        verify_pck_cert_chain(&vec![leaf, intermediate], &bogus_root).unwrap_err(),
        PckParseVerifyError::Parse
    );
}

#[test]
fn pem_and_der_entry_points_agree() {
    let (leaf, intermediate, root, leaf_key) = test_chain();
    let pem_text = format!(
        "{}{}",
        pem::encode(&pem::Pem::new("CERTIFICATE", leaf.clone())),
        pem::encode(&pem::Pem::new("CERTIFICATE", intermediate.clone()))
    );
    let via_pem = verify_pck_certificate_chain_pem(pem_text.into_bytes(), &root).unwrap();
    let via_der = verify_pck_certificate_chain_der(vec![leaf, intermediate], &root).unwrap();
    assert_eq!(via_pem.to_uncompressed_bytes(), via_der.to_uncompressed_bytes());
    assert_eq!(via_der.to_uncompressed_bytes(), uncompressed_bytes(&leaf_key));
}

#[test]
fn pem_without_blocks_is_no_certificate() {
    let (_, _, root, _) = test_chain();
    match verify_pck_certificate_chain_pem(b"no certificate blocks here".to_vec(), &root) {
        Err(e) => assert_eq!(e, PckParseVerifyError::NoCertificate),
        Ok(_) => panic!("blockless input accepted"),
    }
}

#[test]
fn corrupt_pem_is_pem_error() {
    let (_, _, root, _) = test_chain();
    let text = b"-----BEGIN CERTIFICATE-----\nAAA=AAAA\n-----END CERTIFICATE-----\n".to_vec();
    match verify_pck_certificate_chain_pem(text, &root) {
        Err(e) => assert_eq!(e, PckParseVerifyError::Pem),
        Ok(_) => panic!("corrupt PEM accepted"),
    }
}
