use hb_auth::config::AuthConfig;

#[test]
fn test_auth_config_new() {
    let config = AuthConfig::new("https://myteam.cloudflareaccess.com", "aud123");
    assert_eq!(&*config.team_domain, "https://myteam.cloudflareaccess.com");
    assert_eq!(&*config.audience, "aud123");
}

#[test]
fn test_auth_config_issuer() {
    let config = AuthConfig::new("https://myteam.cloudflareaccess.com", "aud123");
    assert_eq!(config.issuer(), "https://myteam.cloudflareaccess.com");
}

#[test]
fn test_team_name_with_https() {
    let config = AuthConfig::new("https://myteam.cloudflareaccess.com", "aud");
    assert_eq!(config.team_name(), "myteam");
}

#[test]
fn test_team_name_with_http() {
    let config = AuthConfig::new("http://myteam.cloudflareaccess.com", "aud");
    assert_eq!(config.team_name(), "myteam");
}

#[test]
fn test_team_name_without_protocol() {
    let config = AuthConfig::new("myteam.cloudflareaccess.com", "aud");
    assert_eq!(config.team_name(), "myteam");
}

#[test]
fn team_name_of_the_documented_examples() {
    assert_eq!(AuthConfig::new("https://acme.example.com", "a").team_name(), "acme");
    assert_eq!(AuthConfig::new("acme.example.com", "a").team_name(), "acme");
    assert_eq!(AuthConfig::new("noproto", "a").team_name(), "noproto");
}

#[test]
fn team_name_strips_one_scheme_only() {
    assert_eq!(AuthConfig::new("https://http://acme.example.com", "a").team_name(), "http://acme");
    assert_eq!(AuthConfig::new("http://https://acme", "a").team_name(), "https://acme");
}

#[test]
fn team_name_of_edge_cases() {
    assert_eq!(AuthConfig::new("", "a").team_name(), "");
    assert_eq!(AuthConfig::new("https://", "a").team_name(), "");
    assert_eq!(AuthConfig::new("http://", "a").team_name(), "");
    assert_eq!(AuthConfig::new(".acme.example.com", "a").team_name(), "");
    assert_eq!(AuthConfig::new("https://.acme", "a").team_name(), "");
    assert_eq!(AuthConfig::new("acme.", "a").team_name(), "acme");
    assert_eq!(AuthConfig::new("https:/acme.example.com", "a").team_name(), "https:/acme");
    assert_eq!(AuthConfig::new("HTTPS://acme.example.com", "a").team_name(), "HTTPS://acme");
    assert_eq!(AuthConfig::new("ftp://acme.example.com", "a").team_name(), "ftp://acme");
    assert_eq!(AuthConfig::new("http", "a").team_name(), "http");
}

#[test]
fn team_name_counts_characters_not_bytes() {
    assert_eq!(AuthConfig::new("https://équipe.example.com", "a").team_name(), "équipe");
    assert_eq!(AuthConfig::new("日本.example", "a").team_name(), "日本");
}

#[test]
fn issuer_is_the_domain_verbatim() {
    let config = AuthConfig::new("https://Acme.Example.com/", "aud");
    assert_eq!(config.issuer(), "https://Acme.Example.com/");
    assert_eq!(AuthConfig::new("", "").issuer(), "");
}

#[test]
fn clone_shares_the_same_values() {
    let config = AuthConfig::new("https://acme.example.com", "aud-123");
    let copy = config.clone();
    assert_eq!(copy, config);
    assert!(std::sync::Arc::ptr_eq(&copy.team_domain, &config.team_domain));
    assert!(std::sync::Arc::ptr_eq(&copy.audience, &config.audience));
}
