//! Encodings that the standard library and the `base64` crate provide.
//!
//! The functions marked `external_body` are not verified: their contracts
//! state what the called function is documented to do.
use crate::text::texts;
use vstd::prelude::*;
use vstd::string::StringSliceAdditionalSpecFns;

verus! {

/// The standard base64 encoding, with padding, of a sequence of bytes.
pub uninterp spec fn base64_standard(bytes: Seq<u8>) -> Seq<char>;

/// The words of a text: its maximal runs of characters that are not Unicode
/// white space, in order.
pub uninterp spec fn whitespace_words(text: Seq<char>) -> Seq<Seq<char>>;

/// The number of characters that base64 with padding needs for `length`
/// bytes: four for every three bytes or part of three.
pub open spec fn base64_length(length: nat) -> nat {
    4 * ((length + 2) / 3)
}

/// Whether a payload of `length` bytes can be encoded: whether the encoded
/// length fits in `usize`.
pub open spec fn encodable(length: nat) -> bool {
    base64_length(length) <= usize::MAX
}

/// Calls `base64::encode`, which encodes the bytes of its argument with the
/// crate's `STANDARD` engine: the standard alphabet, with padding.
///
/// The call panics where the encoded length does not fit in `usize`; the
/// precondition keeps such inputs out.
#[allow(deprecated)]
#[verifier::external_body]
fn base64_encode(payload: &str) -> (encoded: String)
    requires
        encodable(payload.spec_bytes().len()),
    ensures
        encoded@ == base64_standard(payload.spec_bytes()),
{
    base64::encode(payload)
}

/// Calls `str::split_whitespace` and collects the words it yields as owned
/// strings.
#[verifier::external_body]
pub(crate) fn split_whitespace(text: &str) -> (words: Vec<String>)
    ensures
        texts(words@) == whitespace_words(text@),
{
    text.split_whitespace().map(String::from).collect()
}

/// Encodes a payload as standard base64, so that it passes through a
/// command line unharmed.  `None` where the payload is too long to encode.
pub fn encode_payload(payload: &str) -> (encoded: Option<String>)
    ensures
        match encoded {
            Some(text) => encodable(payload.spec_bytes().len()) && text@ == base64_standard(
                payload.spec_bytes(),
            ),
            None => !encodable(payload.spec_bytes().len()),
        },
{
    let length = payload.as_bytes().len();
    let groups = if length % 3 == 0 {
        length / 3
    } else {
        length / 3 + 1
    };
    if groups <= usize::MAX / 4 {
        Some(base64_encode(payload))
    } else {
        None
    }
}

} // verus!
