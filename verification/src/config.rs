//! The deployment's identity: which trust anchor issues the tokens, and for which audience.

use std::sync::Arc;
use vstd::prelude::*;
use vstd::string::*;
use crate::text::{first_label, label_end, lemma_label_len, starts_with};

verus! {

/// The text `https://`.
pub open spec fn https_scheme() -> Seq<char> {
    seq!['h', 't', 't', 'p', 's', ':', '/', '/']
}

/// The text `http://`.
pub open spec fn http_scheme() -> Seq<char> {
    seq!['h', 't', 't', 'p', ':', '/', '/']
}

/// `domain` without its scheme: one leading `https://` or `http://` is dropped, nothing else.
pub open spec fn strip_scheme(domain: Seq<char>) -> Seq<char> {
    if https_scheme().is_prefix_of(domain) {
        domain.skip(8)
    } else if http_scheme().is_prefix_of(domain) {
        domain.skip(7)
    } else {
        domain
    }
}

/// The team name of a trust anchor's domain: the first label of the domain without scheme.
pub open spec fn team_name_of(domain: Seq<char>) -> Seq<char> {
    first_label(strip_scheme(domain))
}

/// A scheme in front of a domain is dropped whole, and only once: what follows it is kept
/// as it is, even where that starts with a scheme again.
pub proof fn lemma_scheme_stripped_once(rest: Seq<char>)
    ensures
        strip_scheme(https_scheme() + rest) == rest,
        strip_scheme(http_scheme() + rest) == rest,
{
    let secure = https_scheme() + rest;
    let plain = http_scheme() + rest;
    assert(https_scheme() =~= secure.subrange(0, 8));
    assert(secure.skip(8) =~= rest);
    assert(http_scheme() =~= plain.subrange(0, 7));
    assert(plain.skip(7) =~= rest);
    assert(!https_scheme().is_prefix_of(plain)) by {
        if https_scheme().is_prefix_of(plain) {
            assert(plain.subrange(0, 8)[4] == 's');
            assert(plain[4] == ':');
        }
    }
}

/// The team name is the first label of the domain without its scheme. The domain is the
/// host, or the host behind `https://` or `http://`. The name is a start of the host that
/// holds no dot, and it is the whole host or ends right before a dot.
pub proof fn lemma_team_name(domain: Seq<char>)
    ensures
        ({
            let host = strip_scheme(domain);
            let name = team_name_of(domain);
            &&& domain == host || domain == https_scheme() + host || domain == http_scheme()
                + host
            &&& domain == host <==> !https_scheme().is_prefix_of(domain)
                && !http_scheme().is_prefix_of(domain)
            &&& name.is_prefix_of(host)
            &&& !name.contains('.')
            &&& name.len() == host.len() || host[name.len() as int] == '.'
        }),
{
    let host = strip_scheme(domain);
    let name = team_name_of(domain);
    lemma_label_len(host);
    assert(name =~= host.subrange(0, name.len() as int));
    if https_scheme().is_prefix_of(domain) {
        assert(domain =~= https_scheme() + host);
    } else if http_scheme().is_prefix_of(domain) {
        assert(domain =~= http_scheme() + host);
    }
    if name.contains('.') {
        let at = choose|i: int| 0 <= i < name.len() && name[i] == '.';
        assert(host[at] == '.');
    }
}

/// The identity of a deployment. Built once and shared; nothing in it changes afterwards.
#[derive(Debug, PartialEq, Eq)]
pub struct AuthConfig {
    /// The trust anchor's domain, which is also the issuer that tokens must name.
    pub team_domain: Arc<String>,
    /// The audience that tokens must be issued for.
    pub audience: Arc<String>,
}

/// What an [`AuthConfig`] holds, as plain sequences of characters.
pub struct ConfigView {
    pub team_domain: Seq<char>,
    pub audience: Seq<char>,
}

impl View for AuthConfig {
    type V = ConfigView;

    open spec fn view(&self) -> ConfigView {
        ConfigView { team_domain: (*self.team_domain)@, audience: (*self.audience)@ }
    }
}

impl Clone for AuthConfig {
    /// A second handle on the same two texts.
    fn clone(&self) -> (copy: Self)
        ensures
            copy == *self,
    {
        AuthConfig { team_domain: self.team_domain.clone(), audience: self.audience.clone() }
    }
}

impl AuthConfig {
    /// A configuration for the trust anchor at `team_domain` and the audience `audience`,
    /// both kept as given.
    pub fn new(team_domain: &str, audience: &str) -> (config: Self)
        ensures
            config@.team_domain == team_domain@,
            config@.audience == audience@,
    {
        AuthConfig {
            team_domain: Arc::new(String::from_str(team_domain)),
            audience: Arc::new(String::from_str(audience)),
        }
    }

    /// The issuer that a token must name: the domain, character for character.
    pub fn issuer(&self) -> (issuer: String)
        ensures
            issuer@ == self@.team_domain,
    {
        (*self.team_domain).clone()
    }

    /// The deployment's short name: the domain without `https://` or `http://`, cut before
    /// its first `.`. A domain without a dot gives the whole of it.
    pub fn team_name(&self) -> (name: String)
        ensures
            name@ == team_name_of(self@.team_domain),
    {
        let domain: &str = (*self.team_domain).as_str();
        let total = domain.unicode_len();
        proof {
            reveal_strlit("https://");
            reveal_strlit("http://");
            assert("https://"@ =~= https_scheme());
            assert("http://"@ =~= http_scheme());
        }
        let start: usize = if starts_with(domain, total, "https://") {
            8
        } else if starts_with(domain, total, "http://") {
            7
        } else {
            0
        };
        let host = domain.substring_char(start, total);
        assert(host@ =~= strip_scheme(domain@));
        let end = label_end(host);
        proof {
            lemma_label_len(host@);
        }
        let label = host.substring_char(0, end);
        assert(label@ =~= first_label(host@));
        String::from_str(label)
    }
}

} // verus!
