//! What holds of every verification, whatever token it is given and whatever the outside
//! world answers: how often the trust anchor is asked, when the cache is touched, that
//! every verification ends, and that nothing is accepted unchecked.

use vstd::prelude::*;
use crate::cache::{usable_entry, write_of, JwkView, LookupView};
use crate::config::ConfigView;
use crate::error::AuthError;
use crate::jwt::{claim_failure, claims_of, key_position, lemma_key_position, ClaimsView, PayloadView};
use crate::signature::signature_accepted;
use crate::verification::{
    fetching,
    outcome_with_keys,
    refused,
    seconds_of,
    start_of,
    step_of,
    verdict,
    ActionView,
    EventView,
    OutcomeView,
    PendingView,
    VerificationView,
};

verus! {

/// The actions that a verification in `state` hands out while it is fed `events` in order.
/// It stops at the first event that it does not take.
pub open spec fn actions_of(state: VerificationView, events: Seq<EventView>) -> Seq<ActionView>
    decreases events.len(),
{
    if events.len() == 0 {
        Seq::empty()
    } else {
        match step_of(state, events[0]) {
            None => Seq::empty(),
            Some((next, action)) => seq![action] + actions_of(next, events.drop_first()),
        }
    }
}

/// How many of `actions` ask for a fetch from the trust anchor.
pub open spec fn fetch_count(actions: Seq<ActionView>) -> nat
    decreases actions.len(),
{
    if actions.len() == 0 {
        0
    } else {
        let first: nat = if actions[0] is FetchKeys {
            1
        } else {
            0
        };
        first + fetch_count(actions.drop_first())
    }
}

/// How many fetches a verification in `state` may still ask for.
pub open spec fn fetches_left(state: VerificationView) -> nat {
    match state {
        VerificationView::AwaitingToken { .. } => 1,
        VerificationView::AwaitingCache { .. } => 1,
        _ => 0,
    }
}

/// Counting the fetches of a sequence that starts with `first`.
proof fn lemma_fetch_count_push(first: ActionView, rest: Seq<ActionView>)
    ensures
        fetch_count(seq![first] + rest) == fetch_count(seq![first]) + fetch_count(rest),
        fetch_count(seq![first]) == if first is FetchKeys {
            1nat
        } else {
            0nat
        },
{
    assert((seq![first] + rest).drop_first() =~= rest);
    assert(seq![first].drop_first() =~= Seq::<ActionView>::empty());
    assert(fetch_count(Seq::<ActionView>::empty()) == 0);
}

/// Whatever events follow, a verification asks for no more fetches than its state leaves
/// it: one while the keys are still to be found, none once a fetch has been asked for.
pub proof fn lemma_fetches_bounded(state: VerificationView, events: Seq<EventView>)
    ensures
        fetch_count(actions_of(state, events)) <= fetches_left(state),
    decreases events.len(),
{
    if events.len() > 0 {
        match step_of(state, events[0]) {
            None => {},
            Some((next, action)) => {
                let rest = actions_of(next, events.drop_first());
                lemma_fetches_bounded(next, events.drop_first());
                lemma_fetch_count_push(action, rest);
                assert(action is FetchKeys ==> next is AwaitingKeys);
                assert(fetches_left(next) <= fetches_left(state));
            },
        }
    }
}

/// A whole verification, from its start through any events, asks for at most one fetch.
pub proof fn lemma_fetch_at_most_once(
    config: ConfigView,
    raw: Seq<char>,
    cached: bool,
    events: Seq<EventView>,
)
    ensures
        fetch_count(
            seq![start_of(config, raw, cached).1] + actions_of(
                start_of(config, raw, cached).0,
                events,
            ),
        ) <= 1,
{
    let begun = start_of(config, raw, cached);
    lemma_fetches_bounded(begun.0, events);
    lemma_fetch_count_push(begun.1, actions_of(begun.0, events));
}

/// How many events a verification in `state` can still take.
pub open spec fn steps_left(state: VerificationView) -> nat {
    match state {
        VerificationView::AwaitingToken { .. } => 4,
        VerificationView::AwaitingCache { .. } => 3,
        VerificationView::AwaitingKeys { .. } => 2,
        VerificationView::AwaitingStore { .. } => 1,
        VerificationView::Finished => 0,
    }
}

/// Every step brings a verification closer to its end, and the end is announced: the
/// action is `Finish` exactly when the next state is `Finished`.
pub proof fn lemma_step_progress(state: VerificationView, event: EventView)
    requires
        step_of(state, event) is Some,
    ensures
        ({
            let (next, action) = step_of(state, event)->0;
            &&& steps_left(next) < steps_left(state)
            &&& action is Finish <==> next is Finished
        }),
{
}

/// A verification hands out at most as many actions as its state leaves it steps, so at
/// most four after its start, and none after the one that finishes it.
pub proof fn lemma_steps_bounded(state: VerificationView, events: Seq<EventView>)
    ensures
        ({
            let actions = actions_of(state, events);
            &&& actions.len() <= steps_left(state)
            &&& actions.len() <= events.len()
            &&& forall|i: int| 0 <= i < actions.len() && actions[i] is Finish ==> i == actions.len() - 1
        }),
    decreases events.len(),
{
    if events.len() > 0 {
        match step_of(state, events[0]) {
            None => {},
            Some((next, action)) => {
                let rest = actions_of(next, events.drop_first());
                lemma_steps_bounded(next, events.drop_first());
                lemma_step_progress(state, events[0]);
                let actions = actions_of(state, events);
                assert(actions =~= seq![action] + rest);
                assert forall|i: int| 0 <= i < actions.len() && actions[i] is Finish implies i
                    == actions.len() - 1 by {
                    if i > 0 {
                        assert(actions[i] == rest[i - 1]);
                    } else {
                        assert(steps_left(next) == 0);
                    }
                }
            },
        }
    }
}

/// Whether a verification in `state` may still read or write the key cache.
pub open spec fn may_use_cache(state: VerificationView) -> bool {
    match state {
        VerificationView::AwaitingToken { cached, .. } => cached,
        VerificationView::AwaitingCache { .. } => true,
        VerificationView::AwaitingKeys { cached, .. } => cached,
        VerificationView::AwaitingStore { .. } => true,
        VerificationView::Finished => false,
    }
}

/// Whether `action` reads or writes the key cache.
pub open spec fn touches_cache(action: ActionView) -> bool {
    action is LookupCache || action is StoreKeys
}

/// A verification that was started without the cache never reads or writes it, whatever
/// events it is fed.
pub proof fn lemma_uncached_leaves_cache_alone(state: VerificationView, events: Seq<EventView>)
    requires
        !may_use_cache(state),
    ensures
        forall|i: int|
            0 <= i < actions_of(state, events).len() ==> !touches_cache(
                #[trigger] actions_of(state, events)[i],
            ),
    decreases events.len(),
{
    if events.len() > 0 {
        match step_of(state, events[0]) {
            None => {},
            Some((next, action)) => {
                let rest = actions_of(next, events.drop_first());
                lemma_uncached_leaves_cache_alone(next, events.drop_first());
                let actions = actions_of(state, events);
                assert(actions =~= seq![action] + rest);
                assert forall|i: int| 0 <= i < actions.len() implies !touches_cache(
                    #[trigger] actions[i],
                ) by {
                    if i > 0 {
                        assert(actions[i] == rest[i - 1]);
                    }
                }
            },
        }
    }
}

/// A verification started without the cache begins in a state that may not use it, with
/// an action that does not touch it.
pub proof fn lemma_start_uncached(config: ConfigView, raw: Seq<char>)
    ensures
        !may_use_cache(start_of(config, raw, false).0),
        !touches_cache(start_of(config, raw, false).1),
{
}

/// Verification fails closed when the keys cannot be fetched: the token is refused for
/// that reason, whatever the cache held before, and no key set is ever used in place of
/// the one that could not be had.
pub proof fn lemma_failed_fetch_refuses(config: ConfigView, cached: bool, token: PendingView, now_ms: u64)
    ensures
        step_of(
            VerificationView::AwaitingKeys { config, cached, token },
            EventView::KeysFetched { keys: None, now_ms },
        ) == Some(refused(AuthError::KeyRetrievalFailure)),
{
}

/// Whether the cache write succeeds has no bearing on the outcome.
pub proof fn lemma_store_failure_ignored(outcome: OutcomeView, stored: bool)
    ensures
        step_of(
            VerificationView::AwaitingStore { outcome },
            EventView::StoreAttempted { stored },
        ) == Some((VerificationView::Finished, ActionView::Finish { outcome })),
{
}

/// A cache miss is answered by exactly one fetch: when the cache has no usable entry, be
/// it missing, unreadable or stale, the next action asks the trust anchor for its keys,
/// and nothing that happens afterwards makes the verification ask again.
pub proof fn lemma_miss_fetches_once(
    config: ConfigView,
    token: PendingView,
    lookup: LookupView,
    now_ms: u64,
    later: Seq<EventView>,
)
    requires
        usable_entry(lookup, now_ms as int) is None,
    ensures
        ({
            let state = VerificationView::AwaitingCache { config, token };
            let events = seq![EventView::CacheAnswered { lookup, now_ms }] + later;
            let actions = actions_of(state, events);
            &&& actions.len() >= 1
            &&& actions[0] == ActionView::FetchKeys { issuer: config.team_domain }
            &&& fetch_count(actions) == 1
        }),
{
    let state = VerificationView::AwaitingCache { config, token };
    let events = seq![EventView::CacheAnswered { lookup, now_ms }] + later;
    let next = fetching(config, true, token);
    assert(events[0] == EventView::CacheAnswered { lookup, now_ms });
    assert(step_of(state, events[0]) == Some(next));
    let rest = actions_of(next.0, events.drop_first());
    lemma_fetches_bounded(next.0, events.drop_first());
    lemma_fetch_count_push(next.1, rest);
}

/// Key rotation. When a usable cache entry lacks the key that the token names, the keys
/// are fetched again, written to the cache and used: the token is then judged against the
/// fetched keys alone. It is refused as signed by an unknown key exactly when the fetched
/// keys lack the key too, and accepted when they hold it, the signature is good under it
/// and the claims pass.
pub proof fn lemma_rotation(
    config: ConfigView,
    token: PendingView,
    lookup: LookupView,
    looked_at_ms: u64,
    fetched: Seq<JwkView>,
    fetched_at_ms: u64,
    stored: bool,
)
    requires
        usable_entry(lookup, looked_at_ms as int) matches Some(entry) && key_position(
            entry.keys,
            token.kid,
        ) is None,
    ensures
        ({
            let outcome = outcome_with_keys(fetched, token, config, seconds_of(fetched_at_ms));
            &&& actions_of(
                VerificationView::AwaitingCache { config, token },
                seq![
                    EventView::CacheAnswered { lookup, now_ms: looked_at_ms },
                    EventView::KeysFetched { keys: Some(fetched), now_ms: fetched_at_ms },
                    EventView::StoreAttempted { stored },
                ],
            ) == seq![
                ActionView::FetchKeys { issuer: config.team_domain },
                ActionView::StoreKeys {
                    write: write_of(config.team_domain, fetched, fetched_at_ms as int),
                },
                ActionView::Finish { outcome },
            ]
            &&& outcome == Err::<ClaimsView, AuthError>(AuthError::UnknownKey) <==> key_position(
                fetched,
                token.kid,
            ) is None
            &&& (key_position(fetched, token.kid) matches Some(at) && signature_accepted(
                fetched[at],
                token.signing_input,
                token.signature,
            ) && claim_failure(token.payload, config, seconds_of(fetched_at_ms)) is None)
                ==> outcome == Ok::<ClaimsView, AuthError>(claims_of(token.payload))
        }),
{
    let outcome = outcome_with_keys(fetched, token, config, seconds_of(fetched_at_ms));
    let first = EventView::CacheAnswered { lookup, now_ms: looked_at_ms };
    let second = EventView::KeysFetched { keys: Some(fetched), now_ms: fetched_at_ms };
    let third = EventView::StoreAttempted { stored };
    let events = seq![first, second, third];
    let state0 = VerificationView::AwaitingCache { config, token };
    let state1 = VerificationView::AwaitingKeys { config, cached: true, token };
    let state2 = VerificationView::AwaitingStore { outcome };
    let fetch = ActionView::FetchKeys { issuer: config.team_domain };
    let store = ActionView::StoreKeys {
        write: write_of(config.team_domain, fetched, fetched_at_ms as int),
    };
    let finish = ActionView::Finish { outcome };
    assert(events.drop_first() =~= seq![second, third]);
    assert(seq![second, third].drop_first() =~= seq![third]);
    assert(seq![third].drop_first() =~= Seq::<EventView>::empty());
    assert(step_of(state0, first) == Some((state1, fetch)));
    assert(step_of(state1, second) == Some((state2, store)));
    assert(step_of(state2, third) == Some((VerificationView::Finished, finish)));
    assert(actions_of(VerificationView::Finished, Seq::<EventView>::empty()) =~= Seq::empty());
    assert(actions_of(state2, seq![third]) =~= seq![finish]);
    assert(actions_of(state1, seq![second, third]) =~= seq![store, finish]);
    assert(actions_of(state0, events) =~= seq![fetch, store, finish]);
}

/// Nothing is trusted by default. A token is accepted only if the key set holds a key with
/// the identifier that the token names, the signature is good under the first such key,
/// and every claim passes: the claims that come back are then the token's own, issued by
/// the configured issuer for the configured audience, and not yet expired.
pub proof fn lemma_accepted_means_checked(
    keys: Seq<JwkView>,
    token: PendingView,
    config: ConfigView,
    now_secs: int,
)
    requires
        outcome_with_keys(keys, token, config, now_secs) is Ok,
    ensures
        key_position(keys, token.kid) matches Some(at) && 0 <= at < keys.len() && keys[at].kid
            == token.kid && signature_accepted(keys[at], token.signing_input, token.signature),
        claim_failure(token.payload, config, now_secs) is None,
        ({
            let claims = outcome_with_keys(keys, token, config, now_secs)->Ok_0;
            &&& claims == claims_of(token.payload)
            &&& claims.issuer == config.team_domain
            &&& claims.audience.contains(config.audience)
            &&& claims.expiry > now_secs
            &&& claims.not_before matches Some(from) ==> from <= now_secs
            &&& token.payload.sub == Some(claims.subject)
        }),
{
    lemma_key_position(keys, token.kid);
}

/// A good signature does not make up for a bad claim. A token that expires at `now_secs`
/// or earlier, or whose audiences do not contain the configured one, is refused for a
/// claim even under a good signature, and none of its claims are returned.
pub proof fn lemma_bad_claims_refused(payload: PayloadView, config: ConfigView, now_secs: int)
    requires
        (payload.exp matches Some(exp) && exp <= now_secs) || !payload.aud.contains(
            config.audience,
        ),
    ensures
        verdict(true, payload, config, now_secs) matches Err(error) && error
            == AuthError::ClaimInvalid(claim_failure(payload, config, now_secs)->0),
        claim_failure(payload, config, now_secs) is Some,
{
}

/// A bad signature refuses the token whatever its claims say.
pub proof fn lemma_bad_signature_refused(payload: PayloadView, config: ConfigView, now_secs: int)
    ensures
        verdict(false, payload, config, now_secs) == Err::<ClaimsView, AuthError>(
            AuthError::SignatureInvalid,
        ),
{
}

} // verus!
