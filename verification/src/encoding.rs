//! Bytes as text: base64, and text that need not be valid.
use crate::error::{WebDriverError, WebDriverErrorInner, WebDriverResult};
use base64::Engine;
use vstd::prelude::*;

verus! {

/// What `BASE64_STANDARD.encode` writes for bytes.
pub uninterp spec fn base64_text(bytes: Seq<u8>) -> Seq<char>;

/// What `BASE64_STANDARD.decode` reads from a text: bytes, or a message that says why not.
pub uninterp spec fn base64_bytes(text: Seq<char>) -> Result<Seq<u8>, Seq<char>>;

/// What `String::from_utf8_lossy` reads from bytes.
pub uninterp spec fn lossy_text(bytes: Seq<u8>) -> Seq<char>;

/// Convenience wrapper for base64 encoding: `Engine::encode` of the `base64` crate's standard
/// engine.
#[verifier::external_body]
pub fn base64_encode(data: &[u8]) -> (r: String)
    ensures
        r@ == base64_text(data@),
{
    base64::prelude::BASE64_STANDARD.encode(data)
}

/// `Engine::decode` of the `base64` crate's standard engine: the bytes, or the error's message.
/// What that engine encoded it decodes to the bytes that there were.
#[verifier::external_body]
fn standard_decode(text: &str) -> (r: Result<Vec<u8>, String>)
    ensures
        match r {
            Ok(v) => base64_bytes(text@) == Ok::<Seq<u8>, Seq<char>>(v@),
            Err(e) => base64_bytes(text@) == Err::<Seq<u8>, Seq<char>>(e@),
        },
        match r {
            Ok(v) => forall|bytes: Seq<u8>| text@ == #[trigger] base64_text(bytes) ==> v@ == bytes,
            Err(_) => forall|bytes: Seq<u8>| text@ != #[trigger] base64_text(bytes),
        },
{
    base64::prelude::BASE64_STANDARD.decode(text).map_err(|e| e.to_string())
}

/// `String::from_utf8_lossy`, which keeps a valid text as it is.
#[verifier::external_body]
pub(crate) fn from_utf8_lossy(bytes: &[u8]) -> (r: String)
    ensures
        r@ == lossy_text(bytes@),
        vstd::utf8::valid_utf8(bytes@) ==> r@ == vstd::utf8::decode_utf8(bytes@),
{
    String::from_utf8_lossy(bytes).into_owned()
}

/// The bytes that a base64 text stands for, or the error that says why it stands for none.
pub open spec fn decoded_base64(text: Seq<char>, r: WebDriverResult<Vec<u8>>) -> bool {
    match base64_bytes(text) {
        Ok(bytes) => r matches Ok(v) && v@ == bytes,
        Err(message) => r matches Err(e) && e@ matches WebDriverErrorInner::DecodeError(m) && m@
            == message,
    }
}

/// Convenience wrapper for base64 decoding.
pub fn base64_decode(data: &str) -> (r: WebDriverResult<Vec<u8>>)
    ensures
        decoded_base64(data@, r),
        forall|bytes: Seq<u8>|
            data@ == #[trigger] base64_text(bytes) ==> (r matches Ok(v) && v@ == bytes),
{
    match standard_decode(data) {
        Ok(v) => Ok(v),
        Err(e) => Err(WebDriverError::from_inner(WebDriverErrorInner::DecodeError(e))),
    }
}

} // verus!
