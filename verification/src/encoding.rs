//! Base64, as the image services send images.
use vstd::prelude::*;

verus! {

/// The bytes that the standard base64 alphabet, with padding, encodes in
/// `text`, as `base64::decode` reads them; `None` when `text` is not valid
/// base64.
pub uninterp spec fn base64_standard(text: Seq<char>) -> Option<Seq<u8>>;

/// Calls `base64::decode`; the outcome is named `base64_standard` of the
/// input. On failure the decoder's message is returned; its wording is not
/// stated.
#[verifier::external_body]
pub(crate) fn decode_base64(text: &str) -> (r: Result<Vec<u8>, String>)
    ensures
        match r {
            Ok(bytes) => base64_standard(text@) == Some(bytes@),
            Err(_) => base64_standard(text@) is None,
        },
{
    #[allow(deprecated)]
    let decoded = base64::decode(text);
    match decoded {
        Ok(bytes) => Ok(bytes),
        Err(err) => Err(err.to_string()),
    }
}

} // verus!
