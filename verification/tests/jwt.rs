use hb_auth::cache::CachedJwk;
use hb_auth::config::AuthConfig;
use hb_auth::error::{AuthError, ClaimCheck};
use hb_auth::jwt::{
    check_algorithm, select_key, split_token, validate_claims, Claims, TokenHeader, TokenParts,
    TokenPayload,
};
use hb_auth::verification::conclude;

fn parts(header: &str, payload: &str, signature: &str) -> TokenParts {
    TokenParts {
        header: header.to_string(),
        payload: payload.to_string(),
        signature: signature.to_string(),
    }
}

#[test]
fn three_segments_are_split_at_the_dots() {
    assert_eq!(split_token("aaa.bb.c"), Ok(parts("aaa", "bb", "c")));
    assert_eq!(split_token("a.b.c+/=_-"), Ok(parts("a", "b", "c+/=_-")));
    assert_eq!(split_token("é.日本.ü"), Ok(parts("é", "日本", "ü")));
}

#[test]
fn empty_segments_are_segments() {
    assert_eq!(split_token(".."), Ok(parts("", "", "")));
    assert_eq!(split_token("a.."), Ok(parts("a", "", "")));
    assert_eq!(split_token(".b."), Ok(parts("", "b", "")));
    assert_eq!(split_token("..c"), Ok(parts("", "", "c")));
}

#[test]
fn other_numbers_of_segments_are_malformed() {
    for raw in ["", "a", ".", "a.b", "a.b.c.d", "...", "a.b.c.", ".a.b.c", "a..b.c"] {
        assert_eq!(split_token(raw), Err(AuthError::MalformedToken));
    }
}

#[test]
fn signing_input_is_header_dot_payload() {
    assert_eq!(parts("aaa", "bb", "c").signing_input(), "aaa.bb");
    assert_eq!(parts("", "", "c").signing_input(), ".");
    let raw = "eyJhbGciOiJSUzI1NiJ9.eyJzdWIiOiJ4In0.c2ln";
    let split = split_token(raw).unwrap();
    assert_eq!(format!("{}.{}", split.signing_input(), split.signature), raw);
}

fn header(alg: &str) -> TokenHeader {
    TokenHeader { alg: alg.to_string(), kid: "k1".to_string() }
}

#[test]
fn only_rs256_is_accepted() {
    assert_eq!(check_algorithm(&header("RS256")), Ok(()));
    for alg in ["", "none", "HS256", "RS384", "RS512", "rs256", "RS256 ", " RS256", "RS25", "ES256", "PS256"] {
        assert_eq!(check_algorithm(&header(alg)), Err(AuthError::UnsupportedAlgorithm));
    }
}

fn key(kid: &str, n: &str) -> CachedJwk {
    CachedJwk { kty: "RSA".to_string(), kid: kid.to_string(), n: n.to_string(), e: "AQAB".to_string() }
}

#[test]
fn key_is_selected_by_identifier() {
    let keys = vec![key("k1", "one"), key("k2", "two"), key("k3", "three")];
    assert_eq!(select_key(&keys, &"k1".to_string()), Some(&keys[0]));
    assert_eq!(select_key(&keys, &"k2".to_string()), Some(&keys[1]));
    assert_eq!(select_key(&keys, &"k3".to_string()), Some(&keys[2]));
}

#[test]
fn unknown_identifier_selects_nothing() {
    let keys = vec![key("k1", "one"), key("k2", "two")];
    assert_eq!(select_key(&keys, &"k4".to_string()), None);
    assert_eq!(select_key(&keys, &"K1".to_string()), None);
    assert_eq!(select_key(&keys, &"".to_string()), None);
    assert_eq!(select_key(&Vec::new(), &"k1".to_string()), None);
}

#[test]
fn first_of_two_keys_with_one_identifier_is_selected() {
    let keys = vec![key("k1", "one"), key("k1", "two")];
    assert_eq!(select_key(&keys, &"k1".to_string()).unwrap().n, "one");
}

const ISSUER: &str = "https://acme.cloudflareaccess.com";
const AUDIENCE: &str = "aud-123";
const NOW: u64 = 1_700_000_000;

fn config() -> AuthConfig {
    AuthConfig::new(ISSUER, AUDIENCE)
}

fn payload() -> TokenPayload {
    TokenPayload {
        sub: Some("user-1".to_string()),
        iss: Some(ISSUER.to_string()),
        aud: vec!["other".to_string(), AUDIENCE.to_string()],
        exp: Some(NOW + 60),
        nbf: Some(NOW),
        iat: Some(NOW - 5),
        extra: vec![("groups".to_string(), "[\"admins\"]".to_string())],
    }
}

fn refused(check: ClaimCheck) -> Result<Claims, AuthError> {
    Err(AuthError::ClaimInvalid(check))
}

#[test]
fn valid_payload_becomes_the_claims() {
    let claims = validate_claims(payload(), &config(), NOW).unwrap();
    assert_eq!(
        claims,
        Claims {
            subject: "user-1".to_string(),
            issuer: ISSUER.to_string(),
            audience: vec!["other".to_string(), AUDIENCE.to_string()],
            expiry: NOW + 60,
            not_before: Some(NOW),
            issued_at: Some(NOW - 5),
            extra: vec![("groups".to_string(), "[\"admins\"]".to_string())],
        }
    );
}

#[test]
fn optional_claims_may_be_absent() {
    let mut token = payload();
    token.nbf = None;
    token.iat = None;
    token.extra = Vec::new();
    let claims = validate_claims(token, &config(), NOW).unwrap();
    assert_eq!(claims.not_before, None);
    assert_eq!(claims.issued_at, None);
    assert!(claims.extra.is_empty());
}

#[test]
fn issuer_must_match_exactly() {
    for iss in [None, Some(""), Some("https://acme.cloudflareaccess.com/"), Some("acme.cloudflareaccess.com"),
        Some("https://ACME.cloudflareaccess.com"), Some("https://acme.cloudflareaccess.co")]
    {
        let mut token = payload();
        token.iss = iss.map(|s| s.to_string());
        assert_eq!(validate_claims(token, &config(), NOW), refused(ClaimCheck::Issuer));
    }
}

#[test]
fn audience_must_contain_the_configured_one() {
    for aud in [vec![], vec!["other"], vec!["aud-12", "aud-1234"], vec!["AUD-123"]] {
        let mut token = payload();
        token.aud = aud.into_iter().map(|s| s.to_string()).collect();
        assert_eq!(validate_claims(token, &config(), NOW), refused(ClaimCheck::Audience));
    }
    let mut token = payload();
    token.aud = vec![AUDIENCE.to_string()];
    assert!(validate_claims(token, &config(), NOW).is_ok());
}

#[test]
fn expiry_must_be_strictly_later_than_now() {
    for exp in [None, Some(0), Some(NOW - 1), Some(NOW)] {
        let mut token = payload();
        token.exp = exp;
        assert_eq!(validate_claims(token, &config(), NOW), refused(ClaimCheck::Expiry));
    }
    let mut token = payload();
    token.exp = Some(NOW + 1);
    assert!(validate_claims(token, &config(), NOW).is_ok());
    let mut token = payload();
    token.exp = Some(u64::MAX);
    token.nbf = None;
    assert_eq!(validate_claims(token, &config(), u64::MAX), refused(ClaimCheck::Expiry));
}

#[test]
fn not_before_may_equal_now_but_not_exceed_it() {
    let mut token = payload();
    token.nbf = Some(NOW + 1);
    assert_eq!(validate_claims(token, &config(), NOW), refused(ClaimCheck::NotBefore));
    let mut token = payload();
    token.nbf = Some(NOW);
    assert!(validate_claims(token, &config(), NOW).is_ok());
    let mut token = payload();
    token.nbf = Some(0);
    assert!(validate_claims(token, &config(), NOW).is_ok());
}

#[test]
fn subject_must_be_present() {
    let mut token = payload();
    token.sub = None;
    assert_eq!(validate_claims(token, &config(), NOW), refused(ClaimCheck::Subject));
    let mut token = payload();
    token.sub = Some(String::new());
    assert_eq!(validate_claims(token, &config(), NOW).unwrap().subject, "");
}

#[test]
fn first_failed_check_is_the_one_named() {
    let mut token = payload();
    token.iss = None;
    token.aud = Vec::new();
    token.exp = None;
    token.nbf = Some(NOW + 1);
    token.sub = None;
    assert_eq!(validate_claims(token, &config(), NOW), refused(ClaimCheck::Issuer));
    let mut token = payload();
    token.aud = Vec::new();
    token.exp = None;
    token.nbf = Some(NOW + 1);
    token.sub = None;
    assert_eq!(validate_claims(token, &config(), NOW), refused(ClaimCheck::Audience));
    let mut token = payload();
    token.exp = Some(NOW);
    token.nbf = Some(NOW + 1);
    token.sub = None;
    assert_eq!(validate_claims(token, &config(), NOW), refused(ClaimCheck::Expiry));
    let mut token = payload();
    token.nbf = Some(NOW + 1);
    token.sub = None;
    assert_eq!(validate_claims(token, &config(), NOW), refused(ClaimCheck::NotBefore));
}

#[test]
fn bad_signature_outweighs_good_claims() {
    assert_eq!(conclude(false, payload(), &config(), NOW), Err(AuthError::SignatureInvalid));
    let mut token = payload();
    token.exp = Some(NOW);
    assert_eq!(conclude(false, token, &config(), NOW), Err(AuthError::SignatureInvalid));
}

#[test]
fn good_signature_leaves_the_decision_to_the_claims() {
    assert!(conclude(true, payload(), &config(), NOW).is_ok());
    let mut token = payload();
    token.exp = Some(NOW);
    assert_eq!(conclude(true, token, &config(), NOW), refused(ClaimCheck::Expiry));
    let mut token = payload();
    token.aud = vec!["other".to_string()];
    assert_eq!(conclude(true, token, &config(), NOW), refused(ClaimCheck::Audience));
}
