//! The transformation applied to a message body: its text in upper case.

use vstd::prelude::*;
use vstd::string::StrSliceExecFns;
use vstd::string::StringSliceAdditionalSpecFns;
use vstd::utf8::decode_utf8;
use vstd::utf8::encode_utf8;
use vstd::utf8::encode_utf8_decode_utf8;
use vstd::utf8::encode_utf8_valid_utf8;
use vstd::utf8::valid_utf8;

verus! {

/// `core::str::Utf8Error`, where bytes stop being UTF-8.
#[verifier::external_type_specification]
#[verifier::external_body]
pub struct ExUtf8Error(core::str::Utf8Error);

/// The upper-case equivalent of `text`, as Unicode defines it. One character
/// may become several.
pub uninterp spec fn uppercased(text: Seq<char>) -> Seq<char>;

/// The upper-case form of a body: of its text where the body is UTF-8, and
/// none where it is not.
pub open spec fn upper_of(body: Seq<u8>) -> Option<Seq<u8>> {
    if valid_utf8(body) {
        Some(encode_utf8(uppercased(decode_utf8(body))))
    } else {
        None
    }
}

/// A raised body is text again, so it can be raised once more; what comes of
/// that is the text of the body, upper-cased twice.
pub proof fn lemma_upper_of_upper(body: Seq<u8>)
    requires
        valid_utf8(body),
    ensures
        upper_of(body) matches Some(raised) && valid_utf8(raised) && decode_utf8(raised)
            == uppercased(decode_utf8(body)) && upper_of(raised) == Some(
            encode_utf8(uppercased(uppercased(decode_utf8(body)))),
        ),
{
    let text = uppercased(decode_utf8(body));
    encode_utf8_valid_utf8(text);
    encode_utf8_decode_utf8(text);
}

/// The upper-case equivalent of a string, by `str::to_uppercase`, which
/// depends on the characters alone and is given the name `uppercased`.
#[verifier::external_body]
pub(crate) fn to_uppercase(text: &str) -> (raised: String)
    ensures
        raised@ == uppercased(text@),
{
    text.to_uppercase()
}

/// Bytes seen as text, by `core::str::from_utf8`: the same bytes as a string
/// slice where they are UTF-8, and an error where they are not.
#[verifier::external_body]
pub(crate) fn as_text(bytes: &[u8]) -> (outcome: Result<&str, core::str::Utf8Error>)
    ensures
        match outcome {
            Ok(text) => text.spec_bytes() == bytes@,
            Err(_) => !valid_utf8(bytes@),
        },
{
    core::str::from_utf8(bytes)
}

/// Raises a body to upper case. `None` where the body is not UTF-8 text.
pub fn upper(body: &[u8]) -> (raised: Option<Vec<u8>>)
    ensures
        match raised {
            Some(bytes) => upper_of(body@) == Some(bytes@),
            None => upper_of(body@).is_none(),
        },
{
    match as_text(body) {
        Ok(text) => {
            proof {
                encode_utf8_valid_utf8(text@);
                encode_utf8_decode_utf8(text@);
            }
            let raised = to_uppercase(text);
            Some(raised.as_str().as_bytes_vec())
        },
        Err(_) => None,
    }
}

} // verus!
