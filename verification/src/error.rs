//! The ways in which a verification ends without an identity.

use vstd::prelude::*;

verus! {

/// The check that a token's claims did not pass.
#[derive(Debug, Clone, Copy, PartialEq, Eq, Structural)]
pub enum ClaimCheck {
    /// The issuer is missing or is not the configured one.
    Issuer,
    /// The audience does not contain the configured one.
    Audience,
    /// The expiry is missing or not in the future.
    Expiry,
    /// The token is not valid yet.
    NotBefore,
    /// The token names no subject.
    Subject,
}

/// Why a token was refused. Every one of these ends the verification: nothing is retried,
/// and no identity is ever produced alongside an error.
#[derive(Debug, Clone, Copy, PartialEq, Eq, Structural)]
pub enum AuthError {
    /// The token is not three dot-separated segments that can be decoded.
    MalformedToken,
    /// The token declares a signing algorithm other than RS256.
    UnsupportedAlgorithm,
    /// The trust anchor's keys could not be fetched.
    KeyRetrievalFailure,
    /// No published key has the key identifier that the token names.
    UnknownKey,
    /// The signature does not match the token under the named key.
    SignatureInvalid,
    /// The signature is good but a claim is not; the check that failed is named.
    ClaimInvalid(ClaimCheck),
}

} // verus!
