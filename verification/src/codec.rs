use vstd::prelude::*;

use base64::Engine;

use crate::error::SshError;

verus! {

// Secrets are persisted in a reversibly encoded, transport-safe text form.
// The encoding is plain base64 (standard alphabet, padded): obfuscation only,
// never a security boundary. Decoding tolerates blobs whose bytes are not
// valid text by a best-effort lossy repair, so a slightly corrupted store
// still yields something readable.

/// The UTF-8 byte sequence of a text.
pub uninterp spec fn utf8_of(s: Seq<char>) -> Seq<u8>;

/// The standard, padded base64 rendering of a byte sequence.
pub uninterp spec fn b64_of(b: Seq<u8>) -> Seq<char>;

/// What base64 decoding yields on a text: the bytes, or `None` when the
/// text is not well-formed base64.
pub uninterp spec fn b64_bytes_of(enc: Seq<char>) -> Option<Seq<u8>>;

/// The best-effort lossy text reading of a byte sequence.
pub uninterp spec fn lossy_of(b: Seq<u8>) -> Seq<char>;

#[verifier::external_type_specification]
#[verifier::external_body]
pub struct ExDecodeError(base64::DecodeError);

/// Relies on base64's `Engine::encode` with the `STANDARD` engine: the
/// result is the padded standard-alphabet base64 text of the input bytes
/// and depends on them alone.
#[verifier::external_body]
fn b64_encode(text: &str) -> (r: String)
    ensures
        r@ == b64_of(utf8_of(text@)),
{
    base64::engine::general_purpose::STANDARD.encode(text)
}

/// Relies on base64's `Engine::decode` with the `STANDARD` engine: it
/// returns the bytes a well-formed input encodes, errs on any other input,
/// and inverts `Engine::encode` exactly.
#[verifier::external_body]
fn b64_decode_raw(enc: &str) -> (r: Result<Vec<u8>, base64::DecodeError>)
    ensures
        (match b64_bytes_of(enc@) {
            Some(b) => (match r {
                Ok(v) => v@ == b,
                Err(_) => false,
            }),
            None => r is Err,
        }),
        forall|b: Seq<u8>|
            enc@ == #[trigger] b64_of(b) ==> (match r {
                Ok(v) => v@ == b,
                Err(_) => false,
            }),
{
    base64::engine::general_purpose::STANDARD.decode(enc)
}

/// Relies on std's `String::from_utf8_lossy`: the result depends on the
/// bytes alone, and bytes that are valid UTF-8 come back as exactly the
/// text they spell.
#[verifier::external_body]
fn utf8_lossy_text(bytes: &Vec<u8>) -> (r: String)
    ensures
        r@ == lossy_of(bytes@),
        forall|s: Seq<char>| bytes@ == #[trigger] utf8_of(s) ==> r@ == s,
{
    String::from_utf8_lossy(bytes).into_owned()
}

/// Encode a secret into its stored, transport-safe text form.
pub fn encode_clear(text: &str) -> (r: String)
    ensures
        r@ == b64_of(utf8_of(text@)),
{
    b64_encode(text)
}

/// Decode a stored blob back to the secret text.
///
/// Fails with `CodecError` exactly on blobs that are not well-formed
/// base64; bytes that are not valid UTF-8 are repaired lossily rather
/// than rejected. A blob produced by `encode_clear` always decodes back
/// to the text it was made from.
pub fn decode_clear(enc: &str) -> (r: Result<String, SshError>)
    ensures
        (match r {
            Ok(t) => decode_ok(enc@) && t@ == decoded(enc@),
            Err(e) => !decode_ok(enc@) && e == SshError::CodecError,
        }),
        forall|s: Seq<char>|
            enc@ == b64_of(#[trigger] utf8_of(s)) ==> (match r {
                Ok(t) => t@ == s,
                Err(_) => false,
            }),
{
    match b64_decode_raw(enc) {
        Ok(bytes) => Ok(utf8_lossy_text(&bytes)),
        Err(_) => Err(SshError::CodecError),
    }
}

/// Whether a stored blob is well-formed, i.e. `decode_clear` accepts it.
pub open spec fn decode_ok(enc: Seq<char>) -> bool {
    b64_bytes_of(enc) is Some
}

/// The text a well-formed stored blob decodes to.
pub open spec fn decoded(enc: Seq<char>) -> Seq<char> {
    lossy_of(b64_bytes_of(enc)->Some_0)
}

/// Law: decoding an encoded secret returns the secret unchanged, for every
/// secret text.
pub fn codec_round_trip(secret: &str) -> (r: String)
    ensures
        r@ == secret@,
{
    let enc = encode_clear(secret);
    match decode_clear(enc.as_str()) {
        Ok(t) => t,
        Err(_) => unreached(),
    }
}

} // verus!
