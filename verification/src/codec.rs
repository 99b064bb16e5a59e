//! Base64 (RFC 4648 standard alphabet, with padding) through the `base64` crate.

use base64::Engine;
use vstd::prelude::*;
use crate::models::bytes_view;

verus! {

/// What `base64::engine::general_purpose::STANDARD.decode` gives for `text`:
/// the decoded bytes, or `None` where it reports an error.
pub uninterp spec fn base64_standard_decode(text: Seq<char>) -> Option<Seq<u8>>;

/// What `base64::engine::general_purpose::STANDARD.encode` gives for `data`.
pub uninterp spec fn base64_standard_encode(data: Seq<u8>) -> Seq<char>;

/// Calls `Engine::decode` of the `STANDARD` engine of the `base64` crate on
/// the UTF-8 bytes of `text`, keeping the bytes on success. The contract only
/// ties the result to the name [`base64_standard_decode`].
#[verifier::external_body]
pub(crate) fn decode_base64(text: &str) -> (r: Option<Vec<u8>>)
    ensures
        bytes_view(r) == base64_standard_decode(text@),
{
    base64::engine::general_purpose::STANDARD.decode(text).ok()
}

/// Calls `Engine::encode` of the `STANDARD` engine of the `base64` crate.
/// The contract only ties the result to the name [`base64_standard_encode`].
/// `encode` panics only where the encoded length overflows `usize`, which a
/// slice cannot reach: its length is at most `isize::MAX` bytes.
#[verifier::external_body]
pub(crate) fn encode_base64(data: &[u8]) -> (r: String)
    ensures
        r@ == base64_standard_encode(data@),
{
    base64::engine::general_purpose::STANDARD.encode(data)
}

} // verus!
