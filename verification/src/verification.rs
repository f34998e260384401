//! The verification of one token, as a machine that never does outside work itself.
//!
//! A verification is started on a raw token and then stepped: each step hands out one
//! [`Action`] for the caller to perform (decode the token's JSON, read the key cache, fetch
//! the trust anchor's keys, write the cache) and takes back the [`Event`] that reports how
//! it went. Every decision on the way is taken here: which algorithm is accepted, when the
//! cache is good enough, which key is used, whether the signature and the claims pass.

use vstd::prelude::*;
use vstd::string::*;
use crate::cache::{
    cache_key,
    cache_key_of,
    get_cached_jwks,
    set_cached_jwks,
    usable_entry,
    write_of,
    CacheWrite,
    CachedJwk,
    JwkView,
    LookupView,
    StoreLookup,
    WriteView,
};
use crate::config::{AuthConfig, ConfigView};
use crate::error::AuthError;
use crate::jwt::{
    check_algorithm,
    claim_failure,
    claims_of,
    key_position,
    rs256,
    select_key,
    split_of,
    split_token,
    validate_claims,
    Claims,
    ClaimsView,
    HeaderView,
    PayloadView,
    TokenHeader,
    TokenParts,
    TokenPayload,
};
use crate::signature::{
    base64url_decode,
    base64url_decoded,
    bytes_view,
    signature_accepted,
    verify_signature,
};

verus! {

/// What is kept of a token between its decoding and the check against a key.
#[derive(Debug, PartialEq, Eq)]
pub struct PendingToken {
    /// The identifier of the key that the token names.
    pub kid: String,
    /// The decoded payload, not yet trusted.
    pub payload: TokenPayload,
    /// The text that the signature covers.
    pub signing_input: String,
    /// The signature segment, base64url text.
    pub signature: String,
}

/// What a [`PendingToken`] holds, as plain values.
pub struct PendingView {
    pub kid: Seq<char>,
    pub payload: PayloadView,
    pub signing_input: Seq<char>,
    pub signature: Seq<char>,
}

impl View for PendingToken {
    type V = PendingView;

    open spec fn view(&self) -> PendingView {
        PendingView {
            kid: self.kid@,
            payload: self.payload@,
            signing_input: self.signing_input@,
            signature: self.signature@,
        }
    }
}

/// How a verification ends: with the claims of a token that passed every check, or with
/// the reason for which it was refused.
pub type Outcome = Result<Claims, AuthError>;

/// An [`Outcome`] as plain values.
pub type OutcomeView = Result<ClaimsView, AuthError>;

/// The plain values of an outcome.
pub open spec fn outcome_view(outcome: Outcome) -> OutcomeView {
    match outcome {
        Ok(claims) => Ok(claims@),
        Err(error) => Err(error),
    }
}

/// A verification in progress: what it waits for, and what it keeps until then.
#[derive(Debug, PartialEq, Eq)]
pub enum Verification {
    /// Waits for the decoded header and payload.
    AwaitingToken { config: AuthConfig, cached: bool, signing_input: String, signature: String },
    /// Waits for the key cache's answer.
    AwaitingCache { config: AuthConfig, token: PendingToken },
    /// Waits for the keys fetched from the trust anchor.
    AwaitingKeys { config: AuthConfig, cached: bool, token: PendingToken },
    /// Has decided, and waits for the cache write to be attempted.
    AwaitingStore { outcome: Outcome },
    /// Has handed out its outcome.
    Finished,
}

/// A [`Verification`] as plain values.
pub enum VerificationView {
    AwaitingToken { config: ConfigView, cached: bool, signing_input: Seq<char>, signature: Seq<char> },
    AwaitingCache { config: ConfigView, token: PendingView },
    AwaitingKeys { config: ConfigView, cached: bool, token: PendingView },
    AwaitingStore { outcome: OutcomeView },
    Finished,
}

impl View for Verification {
    type V = VerificationView;

    open spec fn view(&self) -> VerificationView {
        match *self {
            Verification::AwaitingToken {
                config,
                cached,
                signing_input,
                signature,
            } => VerificationView::AwaitingToken {
                config: config@,
                cached,
                signing_input: signing_input@,
                signature: signature@,
            },
            Verification::AwaitingCache { config, token } => VerificationView::AwaitingCache {
                config: config@,
                token: token@,
            },
            Verification::AwaitingKeys { config, cached, token } => VerificationView::AwaitingKeys {
                config: config@,
                cached,
                token: token@,
            },
            Verification::AwaitingStore { outcome } => VerificationView::AwaitingStore {
                outcome: outcome_view(outcome),
            },
            Verification::Finished => VerificationView::Finished,
        }
    }
}

/// What the caller reports back after performing an [`Action`].
#[derive(Debug, PartialEq, Eq)]
pub enum Event {
    /// The header and payload bytes were read as JSON; `None` for one that could not be.
    TokenDecoded { header: Option<TokenHeader>, payload: Option<TokenPayload> },
    /// The store answered the lookup, at `now_ms` milliseconds since the epoch.
    CacheAnswered { lookup: StoreLookup, now_ms: u64 },
    /// The fetch from the trust anchor ended, at `now_ms`; `None` if it failed in any way.
    KeysFetched { keys: Option<Vec<CachedJwk>>, now_ms: u64 },
    /// The cache write was attempted; whether it succeeded changes nothing.
    StoreAttempted { stored: bool },
}

/// An [`Event`] as plain values.
pub enum EventView {
    TokenDecoded { header: Option<HeaderView>, payload: Option<PayloadView> },
    CacheAnswered { lookup: LookupView, now_ms: u64 },
    KeysFetched { keys: Option<Seq<JwkView>>, now_ms: u64 },
    StoreAttempted { stored: bool },
}

impl View for Event {
    type V = EventView;

    open spec fn view(&self) -> EventView {
        match *self {
            Event::TokenDecoded { header, payload } => EventView::TokenDecoded {
                header: header.deep_view(),
                payload: payload.deep_view(),
            },
            Event::CacheAnswered { lookup, now_ms } => EventView::CacheAnswered {
                lookup: lookup@,
                now_ms,
            },
            Event::KeysFetched { keys, now_ms } => EventView::KeysFetched {
                keys: keys.deep_view(),
                now_ms,
            },
            Event::StoreAttempted { stored } => EventView::StoreAttempted { stored },
        }
    }
}

/// What the caller is asked to do next.
#[derive(Debug, PartialEq, Eq)]
pub enum Action {
    /// Read these bytes, the decoded header and payload segments, as JSON.
    DecodeToken { header: Vec<u8>, payload: Vec<u8> },
    /// Ask the store for the entry under `key`.
    LookupCache { key: String },
    /// Fetch the current keys of the trust anchor `issuer`.
    FetchKeys { issuer: String },
    /// Write this entry to the store; a failure is reported but does not matter.
    StoreKeys { write: CacheWrite },
    /// The verification is over.
    Finish { outcome: Outcome },
}

/// An [`Action`] as plain values.
pub enum ActionView {
    DecodeToken { header: Seq<u8>, payload: Seq<u8> },
    LookupCache { key: Seq<char> },
    FetchKeys { issuer: Seq<char> },
    StoreKeys { write: WriteView },
    Finish { outcome: OutcomeView },
}

impl View for Action {
    type V = ActionView;

    open spec fn view(&self) -> ActionView {
        match *self {
            Action::DecodeToken { header, payload } => ActionView::DecodeToken {
                header: header@,
                payload: payload@,
            },
            Action::LookupCache { key } => ActionView::LookupCache { key: key@ },
            Action::FetchKeys { issuer } => ActionView::FetchKeys { issuer: issuer@ },
            Action::StoreKeys { write } => ActionView::StoreKeys { write: write@ },
            Action::Finish { outcome } => ActionView::Finish { outcome: outcome_view(outcome) },
        }
    }
}

/// The seconds since the epoch that `now_ms` milliseconds fall into.
pub open spec fn seconds_of(now_ms: u64) -> int {
    now_ms as int / 1000
}

/// The end of a verification that is refused with `error`.
pub open spec fn refused(error: AuthError) -> (VerificationView, ActionView) {
    (VerificationView::Finished, ActionView::Finish { outcome: Err(error) })
}

/// The end of a verification whose signature check gave `signature_ok`: a bad signature
/// refuses the token whatever it claims; a good one leaves the decision to the claims.
pub open spec fn verdict(
    signature_ok: bool,
    payload: PayloadView,
    config: ConfigView,
    now_secs: int,
) -> OutcomeView {
    if !signature_ok {
        Err(AuthError::SignatureInvalid)
    } else {
        match claim_failure(payload, config, now_secs) {
            Some(check) => Err(AuthError::ClaimInvalid(check)),
            None => Ok(claims_of(payload)),
        }
    }
}

/// The outcome of checking `token` against `keys` for the deployment `config` at
/// `now_secs`: the key is the first one with the identifier that the token names, and no
/// other; without such a key the token is refused as signed by an unknown key.
pub open spec fn outcome_with_keys(
    keys: Seq<JwkView>,
    token: PendingView,
    config: ConfigView,
    now_secs: int,
) -> OutcomeView {
    match key_position(keys, token.kid) {
        None => Err(AuthError::UnknownKey),
        Some(at) => verdict(
            signature_accepted(keys[at], token.signing_input, token.signature),
            token.payload,
            config,
            now_secs,
        ),
    }
}

/// Where a verification begins once the token has been split and its header and
/// payload segments decoded from base64url, `None` standing for a segment that did not
/// decode: with both at hand their bytes go out to be read as JSON; otherwise the token is
/// malformed.
pub open spec fn start_with(
    config: ConfigView,
    cached: bool,
    signing_input: Seq<char>,
    signature: Seq<char>,
    header: Option<Seq<u8>>,
    payload: Option<Seq<u8>>,
) -> (VerificationView, ActionView) {
    match (header, payload) {
        (Some(header), Some(payload)) => (
            VerificationView::AwaitingToken { config, cached, signing_input, signature },
            ActionView::DecodeToken { header, payload },
        ),
        _ => refused(AuthError::MalformedToken),
    }
}

/// Where a verification of `raw` begins. A token that is not three segments of base64url
/// is refused at once; otherwise the header and payload bytes go out to be decoded.
pub open spec fn start_of(config: ConfigView, raw: Seq<char>, cached: bool) -> (
    VerificationView,
    ActionView,
) {
    match split_of(raw) {
        None => refused(AuthError::MalformedToken),
        Some(parts) => start_with(
            config,
            cached,
            parts.signing_input(),
            parts.signature,
            base64url_decoded(parts.header),
            base64url_decoded(parts.payload),
        ),
    }
}

/// The request for the trust anchor's keys, and the state that waits for them.
pub open spec fn fetching(config: ConfigView, cached: bool, token: PendingView) -> (
    VerificationView,
    ActionView,
) {
    (
        VerificationView::AwaitingKeys { config, cached, token },
        ActionView::FetchKeys { issuer: config.team_domain },
    )
}

/// What follows the decoding of the token. A header that cannot be read is malformed, an
/// algorithm other than RS256 is refused before anything else is looked at, and a payload
/// that cannot be read is malformed. Then the keys are looked up in the cache or, where
/// no cache is used, fetched.
pub open spec fn after_token(
    config: ConfigView,
    cached: bool,
    signing_input: Seq<char>,
    signature: Seq<char>,
    header: Option<HeaderView>,
    payload: Option<PayloadView>,
) -> (VerificationView, ActionView) {
    match header {
        None => refused(AuthError::MalformedToken),
        Some(header) => if header.alg != rs256() {
            refused(AuthError::UnsupportedAlgorithm)
        } else {
            match payload {
                None => refused(AuthError::MalformedToken),
                Some(payload) => {
                    let token = PendingView { kid: header.kid, payload, signing_input, signature };
                    if cached {
                        (
                            VerificationView::AwaitingCache { config, token },
                            ActionView::LookupCache { key: cache_key_of(config.team_domain) },
                        )
                    } else {
                        fetching(config, false, token)
                    }
                },
            }
        },
    }
}

/// What follows the cache's answer. A usable entry that holds the key which the token
/// names decides the verification. Without a usable entry, or with one that lacks the
/// key, the keys are fetched.
pub open spec fn after_cache(
    config: ConfigView,
    token: PendingView,
    lookup: LookupView,
    now_ms: u64,
) -> (VerificationView, ActionView) {
    match usable_entry(lookup, now_ms as int) {
        Some(entry) => if key_position(entry.keys, token.kid) is Some {
            (
                VerificationView::Finished,
                ActionView::Finish {
                    outcome: outcome_with_keys(entry.keys, token, config, seconds_of(now_ms)),
                },
            )
        } else {
            fetching(config, true, token)
        },
        None => fetching(config, true, token),
    }
}

/// What follows the fetch. A failed fetch refuses the token. Fetched keys decide the
/// verification; where a cache is used they are first written to it, as fetched at
/// `now_ms`, whatever the decision is.
pub open spec fn after_keys(
    config: ConfigView,
    cached: bool,
    token: PendingView,
    keys: Option<Seq<JwkView>>,
    now_ms: u64,
) -> (VerificationView, ActionView) {
    match keys {
        None => refused(AuthError::KeyRetrievalFailure),
        Some(keys) => {
            let outcome = outcome_with_keys(keys, token, config, seconds_of(now_ms));
            if cached {
                (
                    VerificationView::AwaitingStore { outcome },
                    ActionView::StoreKeys {
                        write: write_of(config.team_domain, keys, now_ms as int),
                    },
                )
            } else {
                (VerificationView::Finished, ActionView::Finish { outcome })
            }
        },
    }
}

/// The step that `event` causes in `state`: the next state and the next action, or nothing
/// where the event does not answer what the state waits for.
pub open spec fn step_of(state: VerificationView, event: EventView) -> Option<
    (VerificationView, ActionView),
> {
    match (state, event) {
        (
            VerificationView::AwaitingToken { config, cached, signing_input, signature },
            EventView::TokenDecoded { header, payload },
        ) => Some(after_token(config, cached, signing_input, signature, header, payload)),
        (
            VerificationView::AwaitingCache { config, token },
            EventView::CacheAnswered { lookup, now_ms },
        ) => Some(after_cache(config, token, lookup, now_ms)),
        (
            VerificationView::AwaitingKeys { config, cached, token },
            EventView::KeysFetched { keys, now_ms },
        ) => Some(after_keys(config, cached, token, keys, now_ms)),
        (VerificationView::AwaitingStore { outcome }, EventView::StoreAttempted { stored }) => Some(
            (VerificationView::Finished, ActionView::Finish { outcome }),
        ),
        _ => None,
    }
}

/// Ends a verification once the signature has been checked: a bad signature refuses the
/// token and nothing of its payload is returned; a good one lets the claims decide.
pub fn conclude(
    signature_ok: bool,
    payload: TokenPayload,
    config: &AuthConfig,
    now_secs: u64,
) -> (outcome: Outcome)
    ensures
        outcome_view(outcome) == verdict(signature_ok, payload@, config@, now_secs as int),
{
    if !signature_ok {
        return Err(AuthError::SignatureInvalid);
    }
    validate_claims(payload, config, now_secs)
}

/// Checks `token` against `keys`: picks the key that the token names, checks the signature
/// under it, then checks the claims for `config` at `now_secs`.
pub fn verify_with_keys(
    keys: &Vec<CachedJwk>,
    token: PendingToken,
    config: &AuthConfig,
    now_secs: u64,
) -> (outcome: Outcome)
    ensures
        outcome_view(outcome) == outcome_with_keys(
            keys.deep_view(),
            token@,
            config@,
            now_secs as int,
        ),
{
    let PendingToken { kid, payload, signing_input, signature } = token;
    match select_key(keys, &kid) {
        None => Err(AuthError::UnknownKey),
        Some(key) => {
            let signature_ok = verify_signature(key, signing_input.as_str(), signature.as_str());
            conclude(signature_ok, payload, config, now_secs)
        },
    }
}

/// The refusal of a token with `error`.
fn refuse(error: AuthError) -> (end: (Verification, Action))
    ensures
        (end.0@, end.1@) == refused(error),
{
    (Verification::Finished, Action::Finish { outcome: Err(error) })
}

/// Asks for the trust anchor's keys.
fn fetch(config: AuthConfig, cached: bool, token: PendingToken) -> (next: (Verification, Action))
    ensures
        (next.0@, next.1@) == fetching(config@, cached, token@),
{
    let issuer = config.issuer();
    (Verification::AwaitingKeys { config, cached, token }, Action::FetchKeys { issuer })
}

/// Takes the decoded header and payload.
fn on_token(
    config: AuthConfig,
    cached: bool,
    signing_input: String,
    signature: String,
    header: Option<TokenHeader>,
    payload: Option<TokenPayload>,
) -> (next: (Verification, Action))
    ensures
        (next.0@, next.1@) == after_token(
            config@,
            cached,
            signing_input@,
            signature@,
            header.deep_view(),
            payload.deep_view(),
        ),
{
    let header = match header {
        Some(header) => header,
        None => { return refuse(AuthError::MalformedToken); },
    };
    if check_algorithm(&header).is_err() {
        return refuse(AuthError::UnsupportedAlgorithm);
    }
    let payload = match payload {
        Some(payload) => payload,
        None => { return refuse(AuthError::MalformedToken); },
    };
    let TokenHeader { alg: _, kid } = header;
    let token = PendingToken { kid, payload, signing_input, signature };
    if cached {
        let key = cache_key((*config.team_domain).as_str());
        (Verification::AwaitingCache { config, token }, Action::LookupCache { key })
    } else {
        fetch(config, false, token)
    }
}

/// Takes the cache's answer.
fn on_cache(config: AuthConfig, token: PendingToken, lookup: StoreLookup, now_ms: u64) -> (next: (
    Verification,
    Action,
))
    ensures
        (next.0@, next.1@) == after_cache(config@, token@, lookup@, now_ms),
{
    match get_cached_jwks(lookup, now_ms) {
        Some(entry) => {
            if select_key(&entry.keys, &token.kid).is_some() {
                let outcome = verify_with_keys(&entry.keys, token, &config, now_ms / 1000);
                (Verification::Finished, Action::Finish { outcome })
            } else {
                fetch(config, true, token)
            }
        },
        None => fetch(config, true, token),
    }
}

/// Takes the fetched keys.
fn on_keys(
    config: AuthConfig,
    cached: bool,
    token: PendingToken,
    keys: Option<Vec<CachedJwk>>,
    now_ms: u64,
) -> (next: (Verification, Action))
    ensures
        (next.0@, next.1@) == after_keys(config@, cached, token@, keys.deep_view(), now_ms),
{
    let keys = match keys {
        Some(keys) => keys,
        None => { return refuse(AuthError::KeyRetrievalFailure); },
    };
    let outcome = verify_with_keys(&keys, token, &config, now_ms / 1000);
    if cached {
        let write = set_cached_jwks((*config.team_domain).as_str(), keys, now_ms);
        (Verification::AwaitingStore { outcome }, Action::StoreKeys { write })
    } else {
        (Verification::Finished, Action::Finish { outcome })
    }
}

/// Begins a verification of `raw_token`.
fn begin(config: AuthConfig, raw_token: &str, cached: bool) -> (begun: (Verification, Action))
    ensures
        (begun.0@, begun.1@) == start_of(config@, raw_token@, cached),
{
    let parts = match split_token(raw_token) {
        Ok(parts) => parts,
        Err(_) => { return refuse(AuthError::MalformedToken); },
    };
    let header = base64url_decode(parts.header.as_str());
    let payload = base64url_decode(parts.payload.as_str());
    Verification::start_with_segments(config, cached, parts, header, payload)
}

impl Verification {
    /// Begins a verification of a token that has been split into `parts`, given the bytes
    /// that its header and payload segments decode to, `None` for a segment that is not
    /// base64url. A token with such a segment is malformed; otherwise the bytes go out to
    /// be read as JSON.
    pub fn start_with_segments(
        config: AuthConfig,
        cached: bool,
        parts: TokenParts,
        header: Option<Vec<u8>>,
        payload: Option<Vec<u8>>,
    ) -> (begun: (Verification, Action))
        ensures
            (begun.0@, begun.1@) == start_with(
                config@,
                cached,
                parts@.signing_input(),
                parts@.signature,
                bytes_view(header),
                bytes_view(payload),
            ),
    {
        match (header, payload) {
            (Some(header), Some(payload)) => {
                let signing_input = parts.signing_input();
                (
                    Verification::AwaitingToken {
                        config,
                        cached,
                        signing_input,
                        signature: parts.signature,
                    },
                    Action::DecodeToken { header, payload },
                )
            },
            _ => refuse(AuthError::MalformedToken),
        }
    }

    /// Begins a verification of `raw_token` that always fetches the trust anchor's keys.
    pub fn start(config: AuthConfig, raw_token: &str) -> (begun: (Verification, Action))
        ensures
            (begun.0@, begun.1@) == start_of(config@, raw_token@, false),
    {
        begin(config, raw_token, false)
    }

    /// Begins a verification of `raw_token` that uses the key cache, and fetches only
    /// where the cache cannot serve.
    pub fn start_cached(config: AuthConfig, raw_token: &str) -> (begun: (Verification, Action))
        ensures
            (begun.0@, begun.1@) == start_of(config@, raw_token@, true),
    {
        begin(config, raw_token, true)
    }

    /// Takes the event that reports on the last action, and gives the next state and
    /// action. An event that does not answer what the verification waits for is not
    /// taken: the result is `None`, and the verification is over without an outcome.
    pub fn step(self, event: Event) -> (next: Option<(Verification, Action)>)
        ensures
            match next {
                Some((state, action)) => step_of(self@, event@) == Some((state@, action@)),
                None => step_of(self@, event@) is None,
            },
    {
        match self {
            Verification::AwaitingToken { config, cached, signing_input, signature } => match event {
                Event::TokenDecoded { header, payload } => Some(
                    on_token(config, cached, signing_input, signature, header, payload),
                ),
                _ => None,
            },
            Verification::AwaitingCache { config, token } => match event {
                Event::CacheAnswered { lookup, now_ms } => Some(
                    on_cache(config, token, lookup, now_ms),
                ),
                _ => None,
            },
            Verification::AwaitingKeys { config, cached, token } => match event {
                Event::KeysFetched { keys, now_ms } => Some(
                    on_keys(config, cached, token, keys, now_ms),
                ),
                _ => None,
            },
            Verification::AwaitingStore { outcome } => match event {
                Event::StoreAttempted { stored: _ } => Some(
                    (Verification::Finished, Action::Finish { outcome }),
                ),
                _ => None,
            },
            Verification::Finished => None,
        }
    }
}

} // verus!
