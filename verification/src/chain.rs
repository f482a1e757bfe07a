//! The chain verifier: walks a leaf-first certificate chain, appends the
//! trust anchor as the final self-verifying link, checks every signature, and
//! extracts the leaf's public key.

use vstd::prelude::*;

use crate::error::PckParseVerifyError;
use crate::keys::{extract_verifying_key, key_encoding, p256_key_ok, PckVerifyingKey};
use crate::link::{
    cert_public_key, check_link, der_parses, issuer_key_ok, link_signature_ok, parse_certificate,
    signable_ok, subject_public_key, LinkCheck,
};
use crate::pem_input::{decode_pem_blocks, pem_blocks, pem_parses, views_of};

verus! {

/// The chain that is actually checked: the input certificates, leaf first,
/// with the trust anchor appended as the final element.
pub open spec fn full_chain(ders: Seq<Seq<u8>>, root: Seq<u8>) -> Seq<Seq<u8>> {
    ders.push(root)
}

/// The index of the certificate whose key verifies link `i`: the next
/// certificate up the chain, or `i` itself for the final, self-signed link.
pub open spec fn issuer_index(chain: Seq<Seq<u8>>, i: int) -> int {
    if i + 1 == chain.len() {
        i
    } else {
        i + 1
    }
}

/// The certificate whose key verifies link `i` of the chain.
pub open spec fn issuer_of(chain: Seq<Seq<u8>>, i: int) -> Seq<u8> {
    chain[issuer_index(chain, i)]
}

/// What checking one link yields: the issuer's key must be usable, the
/// subject's signable material must be recoverable, and the signature must
/// verify; the first failing step decides the error kind.
pub open spec fn link_result(subject: Seq<u8>, issuer: Seq<u8>) -> Result<(), PckParseVerifyError> {
    if !issuer_key_ok(issuer) {
        Err(PckParseVerifyError::BadPublicKey)
    } else if !signable_ok(subject) {
        Err(PckParseVerifyError::Parse)
    } else if !link_signature_ok(subject, issuer) {
        Err(PckParseVerifyError::Verify)
    } else {
        Ok(())
    }
}

/// The first failure among links `i ..` of the chain, if any.
pub open spec fn links_from(chain: Seq<Seq<u8>>, i: int) -> Result<(), PckParseVerifyError>
    decreases chain.len() - i,
{
    if i < 0 || i >= chain.len() {
        Ok(())
    } else {
        match link_result(chain[i], issuer_of(chain, i)) {
            Ok(()) => links_from(chain, i + 1),
            Err(e) => Err(e),
        }
    }
}

/// Whether every buffer of `ders` decodes as a certificate.
pub open spec fn all_parse(ders: Seq<Seq<u8>>) -> bool {
    forall|i: int| 0 <= i < ders.len() ==> der_parses(#[trigger] ders[i])
}

/// The outcome of verifying a leaf-first chain of DER-encoded certificates
/// against the trust anchor `root`: the leaf's raw 65-byte public key when
/// the chain is empty of faults, or the error of the first failing step.
pub open spec fn chain_verification(ders: Seq<Seq<u8>>, root: Seq<u8>) -> Result<
    Seq<u8>,
    PckParseVerifyError,
> {
    if ders.len() == 0 {
        Err(PckParseVerifyError::NoCertificate)
    } else if !all_parse(ders) || !der_parses(root) {
        Err(PckParseVerifyError::Parse)
    } else {
        match links_from(full_chain(ders, root), 0) {
            Err(e) => Err(e),
            Ok(()) => match cert_public_key(ders[0]) {
                None => Err(PckParseVerifyError::BadPublicKey),
                Some(pk) => if pk.len() == 65 {
                    Ok(pk)
                } else {
                    Err(PckParseVerifyError::BadPublicKey)
                },
            },
        }
    }
}

/// Validate the PCK and provider certificates of a leaf-first chain against
/// the trust anchor and, if the whole chain verifies, return the leaf's raw
/// 65-byte public key.
pub fn verify_pck_cert_chain(certificates_der: &Vec<Vec<u8>>, root_ca_der: &Vec<u8>) -> (r: Result<
    Vec<u8>,
    PckParseVerifyError,
>)
    ensures
        r matches Ok(pk) ==> chain_verification(views_of(certificates_der@), root_ca_der@)
            == Ok::<Seq<u8>, PckParseVerifyError>(pk@),
        r matches Err(e) ==> chain_verification(views_of(certificates_der@), root_ca_der@)
            == Err::<Seq<u8>, PckParseVerifyError>(e),
        certificates_der@.len() == 0 ==> r == Err::<Vec<u8>, PckParseVerifyError>(
            PckParseVerifyError::NoCertificate,
        ),
{
    let ghost ders = views_of(certificates_der@);
    let ghost chain = full_chain(ders, root_ca_der@);
    let n = certificates_der.len();
    if n == 0 {
        return Err(PckParseVerifyError::NoCertificate);
    }
    // Every certificate, and the trust anchor, must decode.
    let mut i: usize = 0;
    while i < n
        invariant
            n == certificates_der@.len(),
            ders == views_of(certificates_der@),
            0 <= i <= n,
            forall|j: int| 0 <= j < i ==> der_parses(#[trigger] ders[j]),
        decreases n - i,
    {
        if !parse_certificate(&certificates_der[i]) {
            assert(!der_parses(ders[i as int]));
            return Err(PckParseVerifyError::Parse);
        }
        i = i + 1;
    }
    assert(all_parse(ders));
    if !parse_certificate(root_ca_der) {
        return Err(PckParseVerifyError::Parse);
    }
    // Verify every link: certificate `i` against the key of certificate
    // `i + 1`, the last input certificate against the trust anchor.
    let mut i: usize = 0;
    while i < n
        invariant
            n == certificates_der@.len(),
            1 <= n,
            ders == views_of(certificates_der@),
            chain == full_chain(ders, root_ca_der@),
            all_parse(ders),
            der_parses(root_ca_der@),
            0 <= i <= n,
            links_from(chain, 0) == links_from(chain, i as int),
        decreases n - i,
    {
        let subject = &certificates_der[i];
        let issuer = if i + 1 < n {
            &certificates_der[i + 1]
        } else {
            root_ca_der
        };
        proof {
            assert(chain[i as int] == subject@);
            assert(issuer_of(chain, i as int) == issuer@);
        }
        match check_link(subject, issuer) {
            LinkCheck::Good => {
                assert(links_from(chain, i as int) == links_from(chain, i as int + 1));
            },
            LinkCheck::BadKey => {
                assert(links_from(chain, 0) == Err::<(), PckParseVerifyError>(
                    PckParseVerifyError::BadPublicKey,
                ));
                return Err(PckParseVerifyError::BadPublicKey);
            },
            LinkCheck::NoSignable => {
                assert(links_from(chain, 0) == Err::<(), PckParseVerifyError>(
                    PckParseVerifyError::Parse,
                ));
                return Err(PckParseVerifyError::Parse);
            },
            LinkCheck::BadSignature => {
                assert(links_from(chain, 0) == Err::<(), PckParseVerifyError>(
                    PckParseVerifyError::Verify,
                ));
                return Err(PckParseVerifyError::Verify);
            },
        }
        i = i + 1;
    }
    // The final link: the trust anchor verifies itself.
    proof {
        assert(chain[n as int] == root_ca_der@);
        assert(issuer_of(chain, n as int) == root_ca_der@);
    }
    match check_link(root_ca_der, root_ca_der) {
        LinkCheck::Good => {
            assert(links_from(chain, n as int) == links_from(chain, n as int + 1));
        },
        LinkCheck::BadKey => {
            assert(links_from(chain, 0) == Err::<(), PckParseVerifyError>(
                PckParseVerifyError::BadPublicKey,
            ));
            return Err(PckParseVerifyError::BadPublicKey);
        },
        LinkCheck::NoSignable => {
            assert(links_from(chain, 0) == Err::<(), PckParseVerifyError>(
                PckParseVerifyError::Parse,
            ));
            return Err(PckParseVerifyError::Parse);
        },
        LinkCheck::BadSignature => {
            assert(links_from(chain, 0) == Err::<(), PckParseVerifyError>(
                PckParseVerifyError::Verify,
            ));
            return Err(PckParseVerifyError::Verify);
        },
    }
    assert(links_from(chain, 0) == Ok::<(), PckParseVerifyError>(()));
    // The chain is trusted: extract the leaf's public key.
    match subject_public_key(&certificates_der[0]) {
        None => Err(PckParseVerifyError::BadPublicKey),
        Some(pck_key) => {
            if pck_key.len() == 65 {
                Ok(pck_key)
            } else {
                Err(PckParseVerifyError::BadPublicKey)
            }
        },
    }
}

/// The outcome of the whole pipeline, key normalization included: the chain
/// must verify and the leaf's 65-byte key must decode to a valid curve point.
pub open spec fn pck_key_outcome(ders: Seq<Seq<u8>>, root: Seq<u8>) -> Result<
    (),
    PckParseVerifyError,
> {
    match chain_verification(ders, root) {
        Err(e) => Err(e),
        Ok(pk) => if p256_key_ok(pk) {
            Ok(())
        } else {
            Err(PckParseVerifyError::BadPublicKey)
        },
    }
}

/// Law: a non-empty chain whose certificates all decode, whose every link
/// (the self-signed trust anchor included) verifies, and whose leaf carries a
/// 65-byte public key is accepted, and the bytes returned are exactly the
/// leaf's subject public key. The outcome is a function of the inputs alone,
/// so repeated calls on the same chain return the same bytes.
pub proof fn lemma_valid_chain_accepted(ders: Seq<Seq<u8>>, root: Seq<u8>, pk: Seq<u8>)
    requires
        ders.len() > 0,
        all_parse(ders),
        der_parses(root),
        links_from(full_chain(ders, root), 0) == Ok::<(), PckParseVerifyError>(()),
        cert_public_key(ders[0]) == Some(pk),
        pk.len() == 65,
    ensures
        chain_verification(ders, root) == Ok::<Seq<u8>, PckParseVerifyError>(pk),
{
}

/// The first failure among links `i ..` is `Verify` whenever every issuer key
/// from `i` on is usable, every subject from `i` on has signable material,
/// and some signature from `i` on does not verify.
proof fn lemma_links_verify_err(chain: Seq<Seq<u8>>, i: int)
    requires
        0 <= i <= chain.len(),
        forall|j: int| i <= j < chain.len() ==> issuer_key_ok(#[trigger] issuer_of(chain, j)),
        forall|j: int| i <= j < chain.len() ==> signable_ok(#[trigger] chain[j]),
        exists|j: int| i <= j < chain.len() && !link_signature_ok(
            #[trigger] chain[j],
            issuer_of(chain, j),
        ),
    ensures
        links_from(chain, i) == Err::<(), PckParseVerifyError>(PckParseVerifyError::Verify),
    decreases chain.len() - i,
{
    let j = choose|j: int| i <= j < chain.len() && !link_signature_ok(
        #[trigger] chain[j],
        issuer_of(chain, j),
    );
    if !link_signature_ok(chain[i], issuer_of(chain, i)) {
        assert(link_result(chain[i], issuer_of(chain, i)) == Err::<(), PckParseVerifyError>(
            PckParseVerifyError::Verify,
        ));
    } else {
        assert(i < j);
        assert(i + 1 <= j < chain.len() && !link_signature_ok(chain[j], issuer_of(chain, j)));
        lemma_links_verify_err(chain, i + 1);
        assert(link_result(chain[i], issuer_of(chain, i)) == Ok::<(), PckParseVerifyError>(()));
    }
}

/// Law: if every certificate of the chain decodes, every issuer key is usable
/// and every subject's signable material is recoverable, but at least one
/// signature over the chain does not verify (a tampered signature, wherever
/// it sits), the chain is rejected with `Verify`; it is never accepted.
pub proof fn lemma_broken_signature_rejected(ders: Seq<Seq<u8>>, root: Seq<u8>)
    requires
        ders.len() > 0,
        all_parse(ders),
        der_parses(root),
        forall|i: int| 0 <= i < full_chain(ders, root).len() ==> issuer_key_ok(
            #[trigger] issuer_of(full_chain(ders, root), i),
        ),
        forall|i: int| 0 <= i < full_chain(ders, root).len() ==> signable_ok(
            #[trigger] full_chain(ders, root)[i],
        ),
        exists|i: int| 0 <= i < full_chain(ders, root).len() && !link_signature_ok(
            #[trigger] full_chain(ders, root)[i],
            issuer_of(full_chain(ders, root), i),
        ),
    ensures
        chain_verification(ders, root) == Err::<Seq<u8>, PckParseVerifyError>(
            PckParseVerifyError::Verify,
        ),
{
    lemma_links_verify_err(full_chain(ders, root), 0);
}

/// Checking the links of a chain extended by a copy of its last element
/// yields what checking the links of the chain itself yields: the final,
/// self-verifying link is merely checked once more.
proof fn lemma_links_duplicate_last(chain: Seq<Seq<u8>>, i: int)
    requires
        chain.len() > 0,
        0 <= i < chain.len(),
    ensures
        links_from(chain.push(chain.last()), i) == links_from(chain, i),
    decreases chain.len() - i,
{
    let c2 = chain.push(chain.last());
    if i == chain.len() - 1 {
        assert(c2[i] == chain[i]);
        assert(issuer_of(chain, i) == chain[i]);
        assert(issuer_of(c2, i) == c2[i + 1]);
        assert(c2[i + 1] == chain.last());
        assert(issuer_of(c2, i + 1) == c2[i + 1]);
        assert(links_from(chain, i + 1) == Ok::<(), PckParseVerifyError>(()));
        assert(links_from(c2, i + 2) == Ok::<(), PckParseVerifyError>(()));
    } else {
        assert(c2[i] == chain[i]);
        assert(issuer_of(c2, i) == chain[i + 1]);
        assert(issuer_of(chain, i) == chain[i + 1]);
        lemma_links_duplicate_last(chain, i + 1);
    }
}

/// Law: appending the trust anchor to a chain that already ends in it does
/// not change the verification outcome. Since the verifier itself appends the
/// anchor, verifying `ders + [root]` and `ders` yields identical results for
/// any non-empty `ders`; the anchor's self-signature makes the extra final
/// check idempotent.
pub proof fn lemma_root_append_idempotent(ders: Seq<Seq<u8>>, root: Seq<u8>)
    requires
        ders.len() > 0,
    ensures
        chain_verification(ders.push(root), root) == chain_verification(ders, root),
{
    let d2 = ders.push(root);
    assert(d2[0] == ders[0]);
    if all_parse(ders) && der_parses(root) {
        assert forall|i: int| 0 <= i < d2.len() implies der_parses(#[trigger] d2[i]) by {
            if i < ders.len() {
                assert(d2[i] == ders[i]);
            } else {
                assert(d2[i] == root);
            }
        }
        assert(all_parse(d2));
        assert(full_chain(ders, root).last() == root);
        assert(full_chain(d2, root) == full_chain(ders, root).push(root));
        lemma_links_duplicate_last(full_chain(ders, root), 0);
    } else {
        if all_parse(d2) {
            assert forall|i: int| 0 <= i < ders.len() implies der_parses(#[trigger] ders[i]) by {
                assert(d2[i] == ders[i]);
                assert(der_parses(d2[i]));
            }
            assert(d2[ders.len() as int] == root);
            assert(der_parses(root));
            assert(false);
        }
        assert(chain_verification(d2, root) == Err::<Seq<u8>, PckParseVerifyError>(
            PckParseVerifyError::Parse,
        ));
        assert(chain_verification(ders, root) == Err::<Seq<u8>, PckParseVerifyError>(
            PckParseVerifyError::Parse,
        ));
    }
}

/// Law: verifying the explicit two-element chain `[leaf, root]` and the
/// one-element chain `[leaf]` yields identical results for the same leaf,
/// since the verifier appends the trust anchor either way.
pub proof fn lemma_explicit_root_same_outcome(leaf: Seq<u8>, root: Seq<u8>)
    ensures
        chain_verification(seq![leaf, root], root) == chain_verification(seq![leaf], root),
{
    lemma_root_append_idempotent(seq![leaf], root);
    assert(seq![leaf].push(root) =~= seq![leaf, root]);
}

/// Verify a PCK certificate chain, given as a vector of DER-encoded
/// certificates in leaf-first order, against the trust-anchor certificate
/// `root_ca_der`, and return the leaf's public key as a canonical P-256
/// verifying key.
pub fn verify_pck_certificate_chain_der(
    pck_certificate_chain_der: Vec<Vec<u8>>,
    root_ca_der: &Vec<u8>,
) -> (r: Result<PckVerifyingKey, PckParseVerifyError>)
    ensures
        r is Ok <==> pck_key_outcome(views_of(pck_certificate_chain_der@), root_ca_der@) is Ok,
        r matches Ok(k) ==> chain_verification(views_of(pck_certificate_chain_der@), root_ca_der@)
            == Ok::<Seq<u8>, PckParseVerifyError>(key_encoding(k)),
        r matches Err(e) ==> pck_key_outcome(views_of(pck_certificate_chain_der@), root_ca_der@)
            == Err::<(), PckParseVerifyError>(e),
        pck_certificate_chain_der@.len() == 0 ==> r == Err::<
            PckVerifyingKey,
            PckParseVerifyError,
        >(PckParseVerifyError::NoCertificate),
{
    let pck_uncompressed = match verify_pck_cert_chain(&pck_certificate_chain_der, root_ca_der) {
        Ok(pk) => pk,
        Err(e) => {
            return Err(e);
        },
    };
    extract_verifying_key(&pck_uncompressed)
}

/// Verify a PCK certificate chain, given as PEM certificate blocks
/// concatenated together in leaf-first order, against the trust-anchor
/// certificate `root_ca_der`, and return the leaf's public key as a
/// canonical P-256 verifying key.
pub fn verify_pck_certificate_chain_pem(
    pck_certificate_chain_pem: Vec<u8>,
    root_ca_der: &Vec<u8>,
) -> (r: Result<PckVerifyingKey, PckParseVerifyError>)
    ensures
        !pem_parses(pck_certificate_chain_pem@) ==> r == Err::<
            PckVerifyingKey,
            PckParseVerifyError,
        >(PckParseVerifyError::Pem),
        pem_parses(pck_certificate_chain_pem@) ==> (r is Ok <==> pck_key_outcome(
            pem_blocks(pck_certificate_chain_pem@),
            root_ca_der@,
        ) is Ok),
        pem_parses(pck_certificate_chain_pem@) ==> (r matches Ok(k) ==> chain_verification(
            pem_blocks(pck_certificate_chain_pem@),
            root_ca_der@,
        ) == Ok::<Seq<u8>, PckParseVerifyError>(key_encoding(k))),
        pem_parses(pck_certificate_chain_pem@) ==> (r matches Err(e) ==> pck_key_outcome(
            pem_blocks(pck_certificate_chain_pem@),
            root_ca_der@,
        ) == Err::<(), PckParseVerifyError>(e)),
{
    let ders = match decode_pem_blocks(&pck_certificate_chain_pem) {
        Some(blocks) => blocks,
        None => {
            return Err(PckParseVerifyError::Pem);
        },
    };
    verify_pck_certificate_chain_der(ders, root_ca_der)
}

} // verus!
