//! The confirmation workflow: look up the presented token, resolve the
//! owning subscriber, and perform the one-way transition to `confirmed`.
//!
//! The token is treated as an authorization credential: an unknown token is
//! the unauthorized outcome (`401`), not a missing resource.

use vstd::prelude::*;

use crate::store::{confirm_in, id_taken, token_taken, Store, StoreView};

verus! {

/// The query parameters of a confirmation request.
pub struct Parameters {
    pub subscription_token: String,
}

/// The subscriber a token belongs to.  Meaningful when the token is present;
/// under [`StoreView::wf`] tokens are unique, so the row is unambiguous.
pub open spec fn token_subscriber(s: StoreView, token: Seq<char>) -> u128 {
    let i = choose|i: int| 0 <= i < s.tokens.len() && s.tokens[i].token == token;
    s.tokens[i].subscriber_id
}

/// The confirmation workflow as one transition on the store: an unknown
/// token leaves the store untouched and answers `401`; a known token
/// confirms its subscriber and answers `200`; a token whose subscriber is
/// missing (impossible in a well-formed store) answers `500`.
pub open spec fn confirm_transition(s: StoreView, token: Seq<char>) -> (StoreView, u16) {
    if !token_taken(s, token) {
        (s, 401)
    } else {
        let id = token_subscriber(s, token);
        if id_taken(s, id) {
            (confirm_in(s, id), 200)
        } else {
            (s, 500)
        }
    }
}

/// In a well-formed store every token's subscriber exists, so the defensive
/// `500` outcome of [`confirm_transition`] is unreachable.
pub proof fn lemma_confirm_never_internal_error(s: StoreView, token: Seq<char>)
    requires
        s.wf(),
    ensures
        confirm_transition(s, token).1 != 500,
        confirm_transition(s, token).1 == 200 <==> token_taken(s, token),
        confirm_transition(s, token).1 == 401 <==> !token_taken(s, token),
{
    if token_taken(s, token) {
        let i = choose|i: int| 0 <= i < s.tokens.len() && s.tokens[i].token == token;
        assert(id_taken(s, s.tokens[i].subscriber_id));
    }
}

/// Handles one confirmation request against the store, answering the status
/// the caller sees.  The store moves exactly as [`confirm_transition`] says.
pub fn confirm(store: &mut Store, params: &Parameters) -> (status: u16)
    requires
        old(store)@.wf(),
    ensures
        final(store)@.wf(),
        final(store)@ == confirm_transition(old(store)@, params.subscription_token@).0,
        status == confirm_transition(old(store)@, params.subscription_token@).1,
        status == 200 <==> token_taken(old(store)@, params.subscription_token@),
        status == 401 <==> !token_taken(old(store)@, params.subscription_token@),
        status == 401 ==> final(store)@ == old(store)@,
{
    proof {
        lemma_confirm_never_internal_error(old(store)@, params.subscription_token@);
    }
    match store.get_subscriber_id_from_token(params.subscription_token.as_str()) {
        None => 401,
        Some(subscriber_id) => {
            proof {
                let t = params.subscription_token@;
                let i = choose|i: int|
                    0 <= i < old(store)@.tokens.len() && old(store)@.tokens[i].token == t && #[trigger] old(
                        store,
                    )@.tokens[i].subscriber_id == subscriber_id;
                let j = choose|j: int| 0 <= j < old(store)@.tokens.len() && old(store)@.tokens[j].token == t;
                assert(old(store)@.tokens[i].token == old(store)@.tokens[j].token);
                assert(i == j);
                assert(token_subscriber(old(store)@, t) == subscriber_id);
                assert(id_taken(old(store)@, old(store)@.tokens[i].subscriber_id));
            }
            match store.confirm_subscriber(subscriber_id) {
                Ok(_) => 200,
                Err(_) => 500,
            }
        },
    }
}

} // verus!
