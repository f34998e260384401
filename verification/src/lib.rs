//! Verification of bearer identity tokens issued by an Access-style identity edge.
//!
//! The library holds every decision of the verification and does no outside work itself:
//!
//! - [`config`]: the deployment's identity, the issuer and the audience that tokens must name;
//! - [`cache`]: snapshots of the trust anchor's signing keys, and when a cached one may be used;
//! - [`jwt`]: the token's segments, header and claims, key selection and claim validation;
//! - [`signature`]: the RS256 signature check, which calls the `base64` and `rsa` crates;
//! - [`verification`]: one verification as a machine of states, events and actions;
//! - [`guarantees`]: what holds of every verification, proved;
//! - [`extractor`]: from verified claims to a user with roles;
//! - [`error`]: why a token was refused;
//! - [`text`]: texts cut at dots.

pub mod cache;
pub mod config;
pub mod error;
pub mod extractor;
pub mod guarantees;
pub mod jwt;
pub mod signature;
pub mod text;
pub mod verification;

pub use config::AuthConfig;
pub use error::AuthError;
pub use extractor::{RoleMapper, User};
pub use jwt::Claims;
pub use verification::Verification;
