//! The token itself: its three segments, its header, its claims, and the rules that the
//! claims must meet.

use vstd::prelude::*;
use vstd::string::*;
use crate::cache::{CachedJwk, JwkView};
use crate::config::{AuthConfig, ConfigView};
use crate::error::{AuthError, ClaimCheck};
use crate::text::{
    after_dot,
    has_dot,
    label_end,
    label_len,
    lemma_dot_free_label,
    lemma_label_before_dot,
    lemma_label_len,
    same_text,
};

verus! {

/// The three segments of a compact token, each still base64url text.
#[derive(Debug, PartialEq, Eq)]
pub struct TokenParts {
    /// The header segment.
    pub header: String,
    /// The payload segment.
    pub payload: String,
    /// The signature segment.
    pub signature: String,
}

/// What a [`TokenParts`] holds, as plain sequences of characters.
pub struct PartsView {
    pub header: Seq<char>,
    pub payload: Seq<char>,
    pub signature: Seq<char>,
}

impl View for TokenParts {
    type V = PartsView;

    open spec fn view(&self) -> PartsView {
        PartsView { header: self.header@, payload: self.payload@, signature: self.signature@ }
    }
}

impl Clone for TokenParts {
    /// A copy with the same three segments.
    fn clone(&self) -> (copy: Self)
        ensures
            copy == *self,
    {
        TokenParts {
            header: self.header.clone(),
            payload: self.payload.clone(),
            signature: self.signature.clone(),
        }
    }
}

impl PartsView {
    /// The text that the signature covers: header, a dot, payload.
    pub open spec fn signing_input(self) -> Seq<char> {
        self.header + seq!['.'] + self.payload
    }

    /// The token that these segments make up.
    pub open spec fn compact(self) -> Seq<char> {
        self.header + seq!['.'] + self.payload + seq!['.'] + self.signature
    }

    /// No segment holds a dot.
    pub open spec fn dot_free(self) -> bool {
        &&& !self.header.contains('.')
        &&& !self.payload.contains('.')
        &&& !self.signature.contains('.')
    }
}

/// `parts` is the way to read `raw` as a compact token: three dot-free segments joined by
/// two dots.
pub open spec fn is_split_of(raw: Seq<char>, parts: PartsView) -> bool {
    raw == parts.compact() && parts.dot_free()
}

/// The segments of `raw`, found by cutting at its first dot twice; nothing unless `raw`
/// holds exactly two dots.
pub open spec fn split_of(raw: Seq<char>) -> Option<PartsView> {
    let rest = after_dot(raw);
    let tail = after_dot(rest);
    if has_dot(raw) && has_dot(rest) && !has_dot(tail) {
        Some(
            PartsView {
                header: raw.take(label_len(raw) as int),
                payload: rest.take(label_len(rest) as int),
                signature: tail,
            },
        )
    } else {
        None
    }
}

/// `split_of` finds the one reading of a text as a compact token, if it has one: the
/// segments it gives are dot-free and make up the text, and no other segments do.
pub proof fn lemma_split_of(raw: Seq<char>, parts: PartsView)
    ensures
        is_split_of(raw, parts) <==> split_of(raw) == Some(parts),
{
    let rest = after_dot(raw);
    let tail = after_dot(rest);
    if is_split_of(raw, parts) {
        let joined = parts.payload + seq!['.'] + parts.signature;
        assert(raw =~= parts.header + seq!['.'] + joined);
        lemma_label_before_dot(parts.header, joined);
        lemma_label_before_dot(parts.payload, parts.signature);
        lemma_dot_free_label(parts.signature);
    }
    if split_of(raw) == Some(parts) {
        lemma_label_len(raw);
        lemma_label_len(rest);
        lemma_label_len(tail);
        assert(raw =~= parts.compact());
        assert forall|i: int| 0 <= i < parts.header.len() implies parts.header[i] != '.' by {
            assert(parts.header[i] == raw[i]);
        }
        assert forall|i: int| 0 <= i < parts.payload.len() implies parts.payload[i] != '.' by {
            assert(parts.payload[i] == rest[i]);
        }
    }
}

impl TokenParts {
    /// The text that the signature covers: the header segment, a dot, the payload segment.
    pub fn signing_input(&self) -> (input: String)
        ensures
            input@ == self@.signing_input(),
    {
        proof {
            reveal_strlit(".");
        }
        let input = self.header.clone().concat(".").concat(self.payload.as_str());
        assert(input@ =~= self@.signing_input());
        input
    }
}

/// Splits a compact token into its header, payload and signature segments. A text that is
/// not three segments joined by exactly two dots is malformed. Segments may be empty; what
/// they hold is not looked at here.
pub fn split_token(raw: &str) -> (split: Result<TokenParts, AuthError>)
    ensures
        match split {
            Ok(parts) => split_of(raw@) == Some(parts@) && is_split_of(raw@, parts@),
            Err(error) => {
                &&& error == AuthError::MalformedToken
                &&& split_of(raw@) is None
                &&& forall|parts: PartsView| !is_split_of(raw@, parts)
            },
        },
{
    proof {
        assert forall|parts: PartsView| is_split_of(raw@, parts) <==> split_of(raw@) == Some(
            parts,
        ) by {
            lemma_split_of(raw@, parts);
        }
    }
    let total = raw.unicode_len();
    let first = label_end(raw);
    if first >= total {
        return Err(AuthError::MalformedToken);
    }
    let header = raw.substring_char(0, first);
    let rest = raw.substring_char(first + 1, total);
    assert(rest@ =~= after_dot(raw@));
    let rest_total = total - first - 1;
    let second = label_end(rest);
    if second >= rest_total {
        return Err(AuthError::MalformedToken);
    }
    let payload = rest.substring_char(0, second);
    let signature = rest.substring_char(second + 1, rest_total);
    assert(signature@ =~= after_dot(rest@));
    let third = label_end(signature);
    proof {
        lemma_label_len(signature@);
    }
    if third != rest_total - second - 1 {
        return Err(AuthError::MalformedToken);
    }
    Ok(
        TokenParts {
            header: String::from_str(header),
            payload: String::from_str(payload),
            signature: String::from_str(signature),
        },
    )
}

/// The decoded header of a token. Nothing in it has been checked.
#[derive(Debug, PartialEq, Eq)]
pub struct TokenHeader {
    /// The signing algorithm that the token declares.
    pub alg: String,
    /// The identifier of the key that the token says it was signed with.
    pub kid: String,
}

/// What a [`TokenHeader`] holds, as plain sequences of characters.
pub struct HeaderView {
    pub alg: Seq<char>,
    pub kid: Seq<char>,
}

impl View for TokenHeader {
    type V = HeaderView;

    open spec fn view(&self) -> HeaderView {
        HeaderView { alg: self.alg@, kid: self.kid@ }
    }
}

impl DeepView for TokenHeader {
    type V = HeaderView;

    open spec fn deep_view(&self) -> HeaderView {
        self@
    }
}

impl Clone for TokenHeader {
    /// A copy with the same algorithm and key identifier.
    fn clone(&self) -> (copy: Self)
        ensures
            copy == *self,
    {
        TokenHeader { alg: self.alg.clone(), kid: self.kid.clone() }
    }
}

/// The name of the one signing algorithm that is accepted: `RS256`.
pub open spec fn rs256() -> Seq<char> {
    seq!['R', 'S', '2', '5', '6']
}

/// Accepts a header that declares RS256 and refuses every other algorithm, whatever else
/// the header says: the token never chooses how it is verified.
pub fn check_algorithm(header: &TokenHeader) -> (checked: Result<(), AuthError>)
    ensures
        checked is Ok <==> header@.alg == rs256(),
        checked is Err ==> checked == Err::<(), AuthError>(AuthError::UnsupportedAlgorithm),
{
    proof {
        reveal_strlit("RS256");
        assert("RS256"@ =~= rs256());
    }
    if same_text(header.alg.as_str(), "RS256") {
        Ok(())
    } else {
        Err(AuthError::UnsupportedAlgorithm)
    }
}

/// The place of the first key in `keys` whose identifier is `kid`, if there is one.
pub open spec fn key_position(keys: Seq<JwkView>, kid: Seq<char>) -> Option<int> {
    keys.map_values(|key: JwkView| key.kid).index_of_first(kid)
}

/// `key_position` names a key with the wanted identifier that no such key precedes, and
/// names none only if no key has the identifier.
pub proof fn lemma_key_position(keys: Seq<JwkView>, kid: Seq<char>)
    ensures
        match key_position(keys, kid) {
            Some(at) => {
                &&& 0 <= at < keys.len()
                &&& keys[at].kid == kid
                &&& forall|i: int| 0 <= i < at ==> keys[i].kid != kid
            },
            None => forall|i: int| 0 <= i < keys.len() ==> keys[i].kid != kid,
        },
{
    let kids = keys.map_values(|key: JwkView| key.kid);
    kids.index_of_first_ensures(kid);
    match key_position(keys, kid) {
        Some(at) => {
            assert forall|i: int| 0 <= i < at implies keys[i].kid != kid by {
                assert(kids[i] == keys[i].kid);
            }
        },
        None => {
            assert forall|i: int| 0 <= i < keys.len() implies keys[i].kid != kid by {
                assert(kids[i] == keys[i].kid);
                assert(kids.contains(kids[i]));
            }
        },
    }
}

/// The key that a token naming `kid` must be checked against: the first key of `keys`
/// with that identifier. No other key is ever offered in its place.
pub fn select_key<'a>(keys: &'a Vec<CachedJwk>, kid: &String) -> (found: Option<&'a CachedJwk>)
    ensures
        match found {
            Some(key) => {
                &&& key_position(keys.deep_view(), kid@) matches Some(at)
                &&& 0 <= at < keys.len()
                &&& *key == keys[at]
            },
            None => key_position(keys.deep_view(), kid@) is None,
        },
{
    proof {
        lemma_key_position(keys.deep_view(), kid@);
    }
    let mut i: usize = 0;
    while i < keys.len()
        invariant
            i <= keys.len(),
            forall|j: int| 0 <= j < i ==> keys.deep_view()[j].kid != kid@,
        decreases keys.len() - i,
    {
        if keys[i].kid == *kid {
            proof {
                let views = keys.deep_view();
                lemma_key_position(views, kid@);
                assert(views[i as int].kid == kid@);
            }
            return Some(&keys[i]);
        }
        i += 1;
    }
    None
}

/// The decoded payload of a token, before any check. A claim that the token does not
/// carry is `None` here, or an empty list.
#[derive(Debug, PartialEq, Eq)]
pub struct TokenPayload {
    /// Subject.
    pub sub: Option<String>,
    /// Issuer.
    pub iss: Option<String>,
    /// Audiences.
    pub aud: Vec<String>,
    /// Expiry, in seconds since the epoch.
    pub exp: Option<u64>,
    /// Not-before, in seconds since the epoch.
    pub nbf: Option<u64>,
    /// Issued-at, in seconds since the epoch.
    pub iat: Option<u64>,
    /// Every other claim, by name, with its value as JSON text.
    pub extra: Vec<(String, String)>,
}

/// What a [`TokenPayload`] holds, as plain values.
pub struct PayloadView {
    pub sub: Option<Seq<char>>,
    pub iss: Option<Seq<char>>,
    pub aud: Seq<Seq<char>>,
    pub exp: Option<u64>,
    pub nbf: Option<u64>,
    pub iat: Option<u64>,
    pub extra: Seq<(Seq<char>, Seq<char>)>,
}

impl View for TokenPayload {
    type V = PayloadView;

    open spec fn view(&self) -> PayloadView {
        PayloadView {
            sub: self.sub.deep_view(),
            iss: self.iss.deep_view(),
            aud: self.aud.deep_view(),
            exp: self.exp,
            nbf: self.nbf,
            iat: self.iat,
            extra: self.extra.deep_view(),
        }
    }
}

impl DeepView for TokenPayload {
    type V = PayloadView;

    open spec fn deep_view(&self) -> PayloadView {
        self@
    }
}

impl Clone for TokenPayload {
    /// A copy with the same claims in the same order.
    fn clone(&self) -> (copy: Self)
        ensures
            copy@ == self@,
    {
        TokenPayload {
            sub: copy_of_optional(&self.sub),
            iss: copy_of_optional(&self.iss),
            aud: copy_of_texts(&self.aud),
            exp: self.exp,
            nbf: self.nbf,
            iat: self.iat,
            extra: copy_of_pairs(&self.extra),
        }
    }
}

/// The claims of a token that has passed every check.
#[derive(Debug, PartialEq, Eq)]
pub struct Claims {
    /// Who the token speaks for.
    pub subject: String,
    /// The trust anchor that issued it.
    pub issuer: String,
    /// The audiences it was issued for.
    pub audience: Vec<String>,
    /// When it expires, in seconds since the epoch.
    pub expiry: u64,
    /// From when it is valid, in seconds since the epoch, if it says so.
    pub not_before: Option<u64>,
    /// When it was issued, in seconds since the epoch, if it says so.
    pub issued_at: Option<u64>,
    /// Every other claim, by name, with its value as JSON text.
    pub extra: Vec<(String, String)>,
}

/// What a [`Claims`] holds, as plain values.
pub struct ClaimsView {
    pub subject: Seq<char>,
    pub issuer: Seq<char>,
    pub audience: Seq<Seq<char>>,
    pub expiry: u64,
    pub not_before: Option<u64>,
    pub issued_at: Option<u64>,
    pub extra: Seq<(Seq<char>, Seq<char>)>,
}

impl View for Claims {
    type V = ClaimsView;

    open spec fn view(&self) -> ClaimsView {
        ClaimsView {
            subject: self.subject@,
            issuer: self.issuer@,
            audience: self.audience.deep_view(),
            expiry: self.expiry,
            not_before: self.not_before,
            issued_at: self.issued_at,
            extra: self.extra.deep_view(),
        }
    }
}

impl Clone for Claims {
    /// A copy with the same claims in the same order.
    fn clone(&self) -> (copy: Self)
        ensures
            copy@ == self@,
    {
        Claims {
            subject: self.subject.clone(),
            issuer: self.issuer.clone(),
            audience: copy_of_texts(&self.audience),
            expiry: self.expiry,
            not_before: self.not_before,
            issued_at: self.issued_at,
            extra: copy_of_pairs(&self.extra),
        }
    }
}

impl DeepView for Claims {
    type V = ClaimsView;

    open spec fn deep_view(&self) -> ClaimsView {
        self@
    }
}

/// The first check that `payload` fails for the deployment `config` at `now_secs`, in the
/// order issuer, audience, expiry, not-before, subject; nothing if it passes them all.
///
/// The issuer must be the configured one exactly. The audiences must contain the
/// configured one. The expiry must lie strictly after `now_secs`. A not-before, where the
/// token has one, must not lie after `now_secs`. A subject must be present.
pub open spec fn claim_failure(payload: PayloadView, config: ConfigView, now_secs: int) -> Option<
    ClaimCheck,
> {
    if payload.iss != Some(config.team_domain) {
        Some(ClaimCheck::Issuer)
    } else if !payload.aud.contains(config.audience) {
        Some(ClaimCheck::Audience)
    } else if !(payload.exp matches Some(exp) && exp > now_secs) {
        Some(ClaimCheck::Expiry)
    } else if payload.nbf matches Some(nbf) && nbf > now_secs {
        Some(ClaimCheck::NotBefore)
    } else if payload.sub is None {
        Some(ClaimCheck::Subject)
    } else {
        None
    }
}

/// The claims that a payload which passes every check turns into.
pub open spec fn claims_of(payload: PayloadView) -> ClaimsView
    recommends
        payload.sub is Some,
        payload.iss is Some,
        payload.exp is Some,
{
    ClaimsView {
        subject: payload.sub->0,
        issuer: payload.iss->0,
        audience: payload.aud,
        expiry: payload.exp->0,
        not_before: payload.nbf,
        issued_at: payload.iat,
        extra: payload.extra,
    }
}

/// A token that expires at `now_secs` or earlier is refused: the expiry must be strictly
/// later than the present.
pub proof fn lemma_expiry_is_strict(payload: PayloadView, config: ConfigView, now_secs: int)
    requires
        payload.exp matches Some(exp) && exp <= now_secs,
    ensures
        claim_failure(payload, config, now_secs) is Some,
{
}

/// A token whose audiences do not contain the configured one is refused.
pub proof fn lemma_audience_is_required(payload: PayloadView, config: ConfigView, now_secs: int)
    requires
        !payload.aud.contains(config.audience),
    ensures
        claim_failure(payload, config, now_secs) is Some,
{
}

/// A copy of a text that may be absent.
fn copy_of_optional(text: &Option<String>) -> (copy: Option<String>)
    ensures
        copy == *text,
{
    match text {
        Some(text) => Some(text.clone()),
        None => None,
    }
}

/// A copy of a list of texts, in the same order.
fn copy_of_texts(texts: &Vec<String>) -> (copy: Vec<String>)
    ensures
        copy@ == texts@,
{
    let mut copy: Vec<String> = Vec::new();
    let mut i: usize = 0;
    while i < texts.len()
        invariant
            i <= texts.len(),
            copy@ == texts@.take(i as int),
        decreases texts.len() - i,
    {
        copy.push(texts[i].clone());
        assert(copy@ =~= texts@.take(i + 1));
        i += 1;
    }
    assert(copy@ =~= texts@);
    copy
}

/// A copy of a list of pairs of texts, in the same order.
fn copy_of_pairs(pairs: &Vec<(String, String)>) -> (copy: Vec<(String, String)>)
    ensures
        copy@ == pairs@,
{
    let mut copy: Vec<(String, String)> = Vec::new();
    let mut i: usize = 0;
    while i < pairs.len()
        invariant
            i <= pairs.len(),
            copy@ == pairs@.take(i as int),
        decreases pairs.len() - i,
    {
        copy.push((pairs[i].0.clone(), pairs[i].1.clone()));
        assert(copy@ =~= pairs@.take(i + 1));
        i += 1;
    }
    assert(copy@ =~= pairs@);
    copy
}

/// Whether `wanted` is one of `texts`.
fn contains_text(texts: &Vec<String>, wanted: &String) -> (found: bool)
    ensures
        found == texts.deep_view().contains(wanted@),
{
    let mut i: usize = 0;
    while i < texts.len()
        invariant
            i <= texts.len(),
            forall|j: int| 0 <= j < i ==> texts.deep_view()[j] != wanted@,
        decreases texts.len() - i,
    {
        if texts[i] == *wanted {
            assert(texts.deep_view()[i as int] == wanted@);
            return true;
        }
        i += 1;
    }
    false
}

/// Checks the claims of a token whose signature is good, for the deployment `config` at
/// `now_secs` seconds since the epoch. The payload becomes the claims only if it passes
/// every check; otherwise the first failed check is named and nothing else is returned.
pub fn validate_claims(payload: TokenPayload, config: &AuthConfig, now_secs: u64) -> (checked:
    Result<Claims, AuthError>)
    ensures
        match checked {
            Ok(claims) => {
                &&& claim_failure(payload@, config@, now_secs as int) is None
                &&& claims@ == claims_of(payload@)
            },
            Err(error) => {
                &&& claim_failure(payload@, config@, now_secs as int) matches Some(check)
                &&& error == AuthError::ClaimInvalid(check)
            },
        },
{
    let TokenPayload { sub, iss, aud, exp, nbf, iat, extra } = payload;
    let issuer = match iss {
        Some(issuer) => issuer,
        None => { return Err(AuthError::ClaimInvalid(ClaimCheck::Issuer)); },
    };
    if !(issuer == *config.team_domain) {
        return Err(AuthError::ClaimInvalid(ClaimCheck::Issuer));
    }
    if !contains_text(&aud, &*config.audience) {
        return Err(AuthError::ClaimInvalid(ClaimCheck::Audience));
    }
    let expiry = match exp {
        Some(expiry) => expiry,
        None => { return Err(AuthError::ClaimInvalid(ClaimCheck::Expiry)); },
    };
    if expiry <= now_secs {
        return Err(AuthError::ClaimInvalid(ClaimCheck::Expiry));
    }
    match nbf {
        Some(not_before) => {
            if not_before > now_secs {
                return Err(AuthError::ClaimInvalid(ClaimCheck::NotBefore));
            }
        },
        None => {},
    }
    let subject = match sub {
        Some(subject) => subject,
        None => { return Err(AuthError::ClaimInvalid(ClaimCheck::Subject)); },
    };
    Ok(
        Claims {
            subject,
            issuer,
            audience: aud,
            expiry,
            not_before: nbf,
            issued_at: iat,
            extra,
        },
    )
}

} // verus!
