//! Trusted boundary to the PEM text-envelope decoder.

use vstd::prelude::*;

verus! {

/// Whether a byte buffer is a sequence of well-formed PEM blocks.
pub uninterp spec fn pem_parses(text: Seq<u8>) -> bool;

/// The decoded contents of each PEM block of `text`, in order.
pub uninterp spec fn pem_blocks(text: Seq<u8>) -> Seq<Seq<u8>>;

/// The byte views of a sequence of byte buffers, in order.
pub open spec fn views_of(buffers: Seq<Vec<u8>>) -> Seq<Seq<u8>> {
    buffers.map_values(|b: Vec<u8>| b@)
}

/// Relies on `pem::parse_many` and `pem::Pem::contents`: the decoded contents
/// of every PEM block in the text, in order, or `None` when some block cannot
/// be decoded.
#[verifier::external_body]
pub(crate) fn decode_pem_blocks(text: &Vec<u8>) -> (r: Option<Vec<Vec<u8>>>)
    ensures
        r is Some <==> pem_parses(text@),
        r matches Some(blocks) ==> views_of(blocks@) == pem_blocks(text@),
{
    let pems = match pem::parse_many(text.as_slice()) {
        Ok(p) => p,
        Err(_) => return None,
    };
    Some(pems.iter().map(|p| p.contents().to_vec()).collect())
}

} // verus!
