//! Bytes as base64url text without padding, done by `multibase`, and bytes as
//! UTF-8 text.

use vstd::prelude::*;
use vstd::utf8::{decode_utf8, valid_utf8};

verus! {

#[verifier::external_type_specification]
#[verifier::external_body]
pub struct ExMultibaseError(multibase::Error);

/// The text that `multibase` writes for the bytes in its base `Base64Url`.
pub uninterp spec fn base64url_text(bytes: Seq<u8>) -> Seq<char>;

/// The bytes that `multibase` reads from the text in its base `Base64Url`,
/// where the text is in that base.
pub uninterp spec fn base64url_bytes(text: Seq<char>) -> Option<Seq<u8>>;

/// `multibase::Base::encode` with the base `Base64Url`: the text of the
/// bytes, which depends on the bytes alone.
#[verifier::external_body]
pub(crate) fn encode(bytes: &[u8]) -> (text: String)
    ensures
        text@ == base64url_text(bytes@),
{
    multibase::Base::Base64Url.encode(bytes)
}

/// `multibase::Base::decode` with the base `Base64Url`: the bytes that the text
/// denotes, or an error where it is not in that base.
#[verifier::external_body]
pub(crate) fn decode(text: &str) -> (bytes: Result<Vec<u8>, multibase::Error>)
    ensures
        match bytes {
            Ok(b) => base64url_bytes(text@) == Some(b@),
            Err(_) => base64url_bytes(text@).is_none(),
        },
{
    multibase::Base::Base64Url.decode(text)
}

/// `String::from_utf8`: the text that the bytes encode, where they are valid
/// UTF-8, and nothing where they are not.
#[verifier::external_body]
pub(crate) fn text_from_utf8(bytes: Vec<u8>) -> (text: Option<String>)
    ensures
        match text {
            Some(t) => valid_utf8(bytes@) && t@ == decode_utf8(bytes@),
            None => !valid_utf8(bytes@),
        },
{
    String::from_utf8(bytes).ok()
}

} // verus!
