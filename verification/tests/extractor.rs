use hb_auth::extractor::{extract, RoleMapper, User};
use hb_auth::jwt::Claims;
use std::collections::HashSet;

fn claims(subject: &str, groups: &str) -> Claims {
    Claims {
        subject: subject.to_string(),
        issuer: "https://acme.cloudflareaccess.com".to_string(),
        audience: vec!["aud-123".to_string()],
        expiry: 1_700_000_060,
        not_before: None,
        issued_at: Some(1_700_000_000),
        extra: vec![("groups".to_string(), groups.to_string())],
    }
}

/// Gives the role `admin` to members of the group `admins`, and `member` to everyone.
struct GroupRoles;

impl RoleMapper for GroupRoles {
    fn map(&self, claims: &Claims) -> HashSet<String> {
        let mut roles = HashSet::new();
        roles.insert("member".to_string());
        let in_admins = claims
            .extra
            .iter()
            .any(|(name, value)| name == "groups" && value.contains("\"admins\""));
        if in_admins {
            roles.insert("admin".to_string());
        }
        roles
    }
}

/// Gives nobody any role.
struct NoRoles;

impl RoleMapper for NoRoles {
    fn map(&self, _claims: &Claims) -> HashSet<String> {
        HashSet::new()
    }
}

#[test]
fn identity_carries_subject_roles_and_claims() {
    let user = extract(claims("user-1", "[\"admins\"]"), &GroupRoles);
    assert_eq!(user.subject, "user-1");
    assert_eq!(user.roles, HashSet::from(["member".to_string(), "admin".to_string()]));
    assert_eq!(user.raw_claims, claims("user-1", "[\"admins\"]"));
}

#[test]
fn roles_follow_the_claims() {
    let user = extract(claims("user-2", "[\"staff\"]"), &GroupRoles);
    assert_eq!(user.roles, HashSet::from(["member".to_string()]));
    assert_eq!(user.subject, "user-2");
}

#[test]
fn no_roles_is_an_empty_set() {
    let user = extract(claims("user-3", "[]"), &NoRoles);
    assert!(user.roles.is_empty());
    assert_eq!(
        user,
        User { subject: "user-3".to_string(), roles: HashSet::new(), raw_claims: claims("user-3", "[]") }
    );
}

#[test]
fn same_claims_give_the_same_identity() {
    let first = extract(claims("user-1", "[\"admins\"]"), &GroupRoles);
    let second = extract(claims("user-1", "[\"admins\"]"), &GroupRoles);
    assert_eq!(first, second);
}
