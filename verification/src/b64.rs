//! Base64 text of byte strings, as the `base64` crate produces and reads it.
//!
//! Nothing in this file is proved: the two functions below hand their
//! argument to the `base64` crate, and their contracts are taken on trust.

use vstd::prelude::*;

verus! {

/// The error of `base64::decode`, carried through without being looked into.
#[verifier::external_type_specification]
#[verifier::external_body]
pub struct ExDecodeError(base64::DecodeError);

/// The text that `base64::encode` returns for `bytes`: standard alphabet,
/// padded.
pub uninterp spec fn base64_text(bytes: Seq<u8>) -> Seq<char>;

/// The bytes that `base64::decode` returns for `text`, or `None` where it
/// reports an error.
pub uninterp spec fn base64_bytes(text: Seq<char>) -> Option<Seq<u8>>;

/// Calls `base64::encode`.
///
/// Trusted: the result is the crate's standard padded encoding of `bytes`,
/// four characters for every three bytes begun, and `base64::decode` reads
/// that encoding back as `bytes`. The call panics only where the length of
/// the text would not fit an allocation, which the precondition leaves out.
#[verifier::external_body]
#[allow(deprecated)]
pub(crate) fn encode(bytes: &[u8]) -> (text: String)
    requires
        (bytes@.len() + 2) / 3 * 4 <= isize::MAX,
    ensures
        text@ == base64_text(bytes@),
        text@.len() == (bytes@.len() + 2) / 3 * 4,
        base64_bytes(text@) == Some(bytes@),
{
    base64::encode(bytes)
}

/// Calls `base64::decode`.
///
/// Trusted: the outcome depends on `text` alone; nothing is claimed about
/// which texts are accepted.
#[verifier::external_body]
#[allow(deprecated)]
pub(crate) fn decode(text: &str) -> (outcome: Result<Vec<u8>, base64::DecodeError>)
    ensures
        match outcome {
            Ok(bytes) => base64_bytes(text@) == Some(bytes@),
            Err(_) => base64_bytes(text@) is None,
        },
{
    base64::decode(text)
}

} // verus!
