//! The cryptographic check of a token: RSA PKCS#1 v1.5 signatures over SHA-256.
//!
//! Two outside functions do the work, and nothing here proves anything about them: the
//! base64url decoder of the `base64` crate and the signature verifier of the `rsa` crate.
//! Each is given a name for what it returns; the functions of this module say exactly how
//! those results are combined.

use rsa::signature::Verifier;
use base64::Engine;
use vstd::prelude::*;
use vstd::string::*;
use vstd::utf8::*;
use crate::cache::{CachedJwk, JwkView};

verus! {

/// The bytes that `text` stands for as unpadded base64url, or nothing where `text` is not
/// such an encoding. This is what `URL_SAFE_NO_PAD.decode` of the `base64` crate returns.
pub uninterp spec fn base64url_decoded(text: Seq<char>) -> Option<Seq<u8>>;

/// Whether `signature` is an RSASSA-PKCS1-v1_5 signature with SHA-256 of `message` under
/// the public key with the big-endian `modulus` and `exponent`, as the `rsa` crate decides
/// it. A key that the crate refuses to build accepts nothing.
pub uninterp spec fn rs256_accepts(
    modulus: Seq<u8>,
    exponent: Seq<u8>,
    message: Seq<u8>,
    signature: Seq<u8>,
) -> bool;

/// Calls `Engine::decode` on `base64::engine::general_purpose::URL_SAFE_NO_PAD`, the
/// decoder for the URL-safe alphabet that admits no padding.
/// Trusted: the result is the decoder's, which depends on the text alone; a decoding
/// error becomes `None`.
#[verifier::external_body]
pub(crate) fn base64url_decode(text: &str) -> (bytes: Option<Vec<u8>>)
    ensures
        match bytes {
            Some(decoded) => base64url_decoded(text@) == Some(decoded@),
            None => base64url_decoded(text@) is None,
        },
{
    base64::engine::general_purpose::URL_SAFE_NO_PAD.decode(text).ok()
}

/// Calls, in the `rsa` crate, `BigUint::from_bytes_be` on the modulus and on the exponent,
/// `RsaPublicKey::new` on the two numbers, `pkcs1v15::Signature::try_from` on the signature
/// bytes, and `Verifier::verify` of `pkcs1v15::VerifyingKey<Sha256>` on the message.
/// Trusted: the answer is `true` exactly when the key was built and `verify` returned
/// `Ok`, and it depends on the four byte strings alone. `RsaPublicKey::new` refuses a
/// modulus of more than 4096 bits or an even one, and an exponent that is even, below 2,
/// above 2^33 - 1 or not below the modulus; the verifier runs on no other key.
#[verifier::external_body]
fn rs256_verify(modulus: &[u8], exponent: &[u8], message: &[u8], signature: &[u8]) -> (accepted:
    bool)
    ensures
        accepted == rs256_accepts(modulus@, exponent@, message@, signature@),
{
    let key = rsa::RsaPublicKey::new(
        rsa::BigUint::from_bytes_be(modulus),
        rsa::BigUint::from_bytes_be(exponent),
    );
    match (key, rsa::pkcs1v15::Signature::try_from(signature)) {
        (Ok(key), Ok(signature)) => rsa::pkcs1v15::VerifyingKey::<rsa::sha2::Sha256>::new(key)
            .verify(message, &signature).is_ok(),
        _ => false,
    }
}

/// Whether a signature is accepted once the key and the signature segment have been
/// decoded: all three must have decoded, and the key must accept the signature for
/// `message`.
pub open spec fn decoded_accepted(
    modulus: Option<Seq<u8>>,
    exponent: Option<Seq<u8>>,
    signature: Option<Seq<u8>>,
    message: Seq<u8>,
) -> bool {
    match (modulus, exponent, signature) {
        (Some(modulus), Some(exponent), Some(signature)) => rs256_accepts(
            modulus,
            exponent,
            message,
            signature,
        ),
        _ => false,
    }
}

/// Whether the signature segment `signature` matches `signing_input` under `key`: the
/// key's modulus and exponent and the segment must each decode from base64url, and the
/// decoded signature must be accepted for the UTF-8 bytes of the signing input.
pub open spec fn signature_accepted(
    key: JwkView,
    signing_input: Seq<char>,
    signature: Seq<char>,
) -> bool {
    decoded_accepted(
        base64url_decoded(key.n),
        base64url_decoded(key.e),
        base64url_decoded(signature),
        encode_utf8(signing_input),
    )
}

/// The view of bytes that may be absent.
pub open spec fn bytes_view(bytes: Option<Vec<u8>>) -> Option<Seq<u8>> {
    match bytes {
        Some(bytes) => Some(bytes@),
        None => None,
    }
}

/// Checks a signature whose parts have been decoded from base64url, `None` standing for
/// a part that did not decode. Where any part is missing the answer is `false` and the
/// key is not even tried.
pub fn check_decoded(
    modulus: Option<Vec<u8>>,
    exponent: Option<Vec<u8>>,
    signature: Option<Vec<u8>>,
    message: &[u8],
) -> (accepted: bool)
    ensures
        accepted == decoded_accepted(
            bytes_view(modulus),
            bytes_view(exponent),
            bytes_view(signature),
            message@,
        ),
        modulus is None || exponent is None || signature is None ==> !accepted,
{
    match (modulus, exponent, signature) {
        (Some(modulus), Some(exponent), Some(signature)) => rs256_verify(
            modulus.as_slice(),
            exponent.as_slice(),
            message,
            signature.as_slice(),
        ),
        _ => false,
    }
}

/// Checks the signature segment of a token against its signing input under `key`.
/// Nothing but a signature that the key accepts gives `true`: a key or a segment that
/// does not decode gives `false`.
pub fn verify_signature(key: &CachedJwk, signing_input: &str, signature: &str) -> (accepted: bool)
    ensures
        accepted == signature_accepted(key@, signing_input@, signature@),
{
    let modulus = base64url_decode(key.n.as_str());
    let exponent = base64url_decode(key.e.as_str());
    let decoded = base64url_decode(signature);
    check_decoded(modulus, exponent, decoded, signing_input.as_bytes())
}

} // verus!
