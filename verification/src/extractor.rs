//! From verified claims to the identity that the application works with.

use std::collections::HashSet;
use vstd::prelude::*;
use crate::jwt::Claims;

verus! {

/// The role policy of a deployment. The embedding application supplies it; this library
/// defines none.
///
/// An implementation is expected to be a function of the claims: the same claims always
/// give the same roles. It does no outside work and cannot fail; where no role applies it
/// gives the empty set.
pub trait RoleMapper {
    /// The roles of the holder of `claims`.
    fn map(&self, claims: &Claims) -> (roles: HashSet<String>);
}

/// An authenticated identity. It is made once for a request, from claims that passed
/// every check, and never changes.
#[derive(Debug, PartialEq, Eq)]
pub struct User {
    /// Who the token speaks for.
    pub subject: String,
    /// The roles that the deployment's policy gives to the claims.
    pub roles: HashSet<String>,
    /// The claims as they were verified.
    pub raw_claims: Claims,
}

/// The identity behind `claims`: the subject that the claims name, the roles that
/// `role_mapper` returns for exactly these claims, and the claims themselves.
pub fn extract<M: RoleMapper>(claims: Claims, role_mapper: &M) -> (user: User)
    ensures
        user.subject@ == claims.subject@,
        call_ensures(M::map, (role_mapper, &claims), user.roles),
        user.raw_claims == claims,
{
    let roles = role_mapper.map(&claims);
    User { subject: claims.subject.clone(), roles, raw_claims: claims }
}

} // verus!
