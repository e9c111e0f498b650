//! The credentials that the feed asks for.

use base64::engine::general_purpose::STANDARD;
use base64::Engine;
use vstd::prelude::*;
use vstd::utf8::encode_utf8;

verus! {

/// The text that base64 with the standard alphabet and padding gives for
/// `bytes`.
pub uninterp spec fn base64_standard(bytes: Seq<u8>) -> Seq<char>;

/// The encoded text of this many bytes has a length that fits the machine.
pub open spec fn encodable(len: nat) -> bool {
    len / 3 * 4 + 4 <= usize::MAX
}

/// The client identifier and the secret as one text, a colon between them.
pub open spec fn credential_pair(client_id: Seq<char>, secret: Seq<char>) -> Seq<char> {
    client_id + ":"@ + secret
}

/// `Engine::encode` of base64 on its `STANDARD` engine.  Believed of it: the
/// text it returns depends on the bytes alone.  It gives up where the length
/// of that text would not fit a `usize`, so such inputs are kept from it.
#[verifier::external_body]
fn encode_standard(bytes: &[u8]) -> (text: String)
    requires
        encodable(bytes@.len()),
    ensures
        text@ == base64_standard(bytes@),
{
    STANDARD.encode(bytes)
}

/// The client identifier and the secret, joined by a colon and encoded in
/// base64.  There is no result only where the encoded text would be too long
/// for the machine.
pub fn encoded_credentials(client_id: &str, secret: &str) -> (encoded: Option<String>)
    ensures
        encoded is Some <==> encodable(encode_utf8(credential_pair(client_id@, secret@)).len()),
        encoded is Some ==> encoded->Some_0@ == base64_standard(
            encode_utf8(credential_pair(client_id@, secret@)),
        ),
{
    let mut pair = String::from_str(client_id);
    pair.append(":");
    pair.append(secret);
    let bytes = pair.as_str().as_bytes();
    if bytes.len() / 3 > (usize::MAX - 4) / 4 {
        None
    } else {
        Some(encode_standard(bytes))
    }
}

/// The value of the authorization header for credentials that are encoded
/// already.
pub fn authorization_value(credentials: &str) -> (value: String)
    ensures
        value@ == "BASIC "@ + credentials@,
{
    let mut value = String::from_str("BASIC ");
    value.append(credentials);
    value
}

} // verus!
