//! Handing a built PDF to the viewer, as base64 text.
use base64::Engine;
use vstd::prelude::*;

verus! {

/// The padded standard base64 text of `bytes`.
pub uninterp spec fn base64_of(bytes: Seq<u8>) -> Seq<char>;

/// The length of the padded base64 text of `n` bytes: four characters for
/// every three bytes begun.
pub open spec fn base64_len(n: nat) -> nat {
    4 * ((n + 2) / 3)
}

/// Relies on `base64::engine::general_purpose::STANDARD.encode`: the padded
/// standard base64 text of the bytes, four characters for every three bytes
/// begun. It panics where that length does not fit in a `usize`.
#[verifier::external_body]
fn encode_standard(bytes: &[u8]) -> (r: String)
    requires
        base64_len(bytes@.len()) <= usize::MAX,
    ensures
        r@ == base64_of(bytes@),
        r@.len() == base64_len(bytes@.len()),
{
    base64::engine::general_purpose::STANDARD.encode(bytes)
}

/// The PDF file's contents `bytes` as padded standard base64 text, ready to
/// embed in a data URL.
pub fn pdf_base64(bytes: &[u8]) -> (r: String)
    requires
        base64_len(bytes@.len()) <= usize::MAX,
    ensures
        r@ == base64_of(bytes@),
        r@.len() == base64_len(bytes@.len()),
{
    encode_standard(bytes)
}

} // verus!
