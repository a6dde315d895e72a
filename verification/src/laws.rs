//! The laws of the two workflows, proved over the spec-level transitions
//! that the executable functions are verified to follow: what a fresh
//! subscription creates, what a duplicate changes (nothing), that a failing
//! step rolls the whole transaction back, and how confirmation behaves on
//! known, repeated and unknown tokens.

use vstd::prelude::*;

use crate::domain::{valid_subscriber_email, valid_subscriber_name};
use crate::store::{
    confirm_in, email_taken, id_taken, token_taken, StoreView, SubscriberRecordView,
    SubscriberStatus, TokenRecordView,
};
use crate::subscription_confirm::{confirm_transition, token_subscriber};
use crate::subscriptions::{subscribe_transition, SubscribeDecision};

verus! {

/// How many subscriber rows carry this email.
pub open spec fn email_count(subs: Seq<SubscriberRecordView>, email: Seq<char>) -> nat
    decreases subs.len(),
{
    if subs.len() == 0 {
        0
    } else {
        email_count(subs.drop_last(), email) + (if subs.last().email == email {
            1nat
        } else {
            0nat
        })
    }
}

/// How many token rows reference this subscriber id.
pub open spec fn tokens_for_count(toks: Seq<TokenRecordView>, id: u128) -> nat
    decreases toks.len(),
{
    if toks.len() == 0 {
        0
    } else {
        tokens_for_count(toks.drop_last(), id) + (if toks.last().subscriber_id == id {
            1nat
        } else {
            0nat
        })
    }
}

/// A sequence none of whose rows carries the email holds it zero times.
pub proof fn lemma_email_count_zero(subs: Seq<SubscriberRecordView>, email: Seq<char>)
    requires
        forall|i: int| 0 <= i < subs.len() ==> (#[trigger] subs[i]).email != email,
    ensures
        email_count(subs, email) == 0,
    decreases subs.len(),
{
    if subs.len() > 0 {
        assert(forall|i: int|
            0 <= i < subs.drop_last().len() ==> (#[trigger] subs.drop_last()[i]).email != email);
        lemma_email_count_zero(subs.drop_last(), email);
        assert(subs.last().email != email);
    }
}

/// A sequence none of whose rows references the id references it zero times.
pub proof fn lemma_tokens_for_count_zero(toks: Seq<TokenRecordView>, id: u128)
    requires
        forall|i: int| 0 <= i < toks.len() ==> (#[trigger] toks[i]).subscriber_id != id,
    ensures
        tokens_for_count(toks, id) == 0,
    decreases toks.len(),
{
    if toks.len() > 0 {
        assert(forall|i: int|
            0 <= i < toks.drop_last().len() ==> (#[trigger] toks.drop_last()[i]).subscriber_id
                != id);
        lemma_tokens_for_count_zero(toks.drop_last(), id);
        assert(toks.last().subscriber_id != id);
    }
}

/// For every valid name/email pair whose email was never registered, and a
/// fresh id and token, the subscription transition accepts; afterwards
/// exactly one subscriber row carries the email, it is pending
/// confirmation, and exactly one token row references it.
pub proof fn lemma_subscribe_fresh_email_succeeds(
    s: StoreView,
    email: Seq<char>,
    name: Seq<char>,
    id: u128,
    subscribed_at: i64,
    token: Seq<char>,
)
    requires
        s.wf(),
        valid_subscriber_email(email),
        valid_subscriber_name(name),
        !email_taken(s, email),
        !id_taken(s, id),
        !token_taken(s, token),
    ensures
        ({
            let s2 = subscribe_transition(s, email, name, id, subscribed_at, token).0;
            let d = subscribe_transition(s, email, name, id, subscribed_at, token).1;
            &&& d is Accepted
            &&& s2.wf()
            &&& email_count(s2.subscribers, email) == 1
            &&& tokens_for_count(s2.tokens, id) == 1
            &&& forall|i: int|
                0 <= i < s2.subscribers.len() && (#[trigger] s2.subscribers[i]).email == email
                    ==> s2.subscribers[i].status is PendingConfirmation
                    && s2.subscribers[i].id == id
            &&& forall|i: int|
                0 <= i < s2.tokens.len() && (#[trigger] s2.tokens[i]).subscriber_id == id
                    ==> s2.tokens[i].token == token
        }),
{
    let s2 = subscribe_transition(s, email, name, id, subscribed_at, token).0;
    crate::store::lemma_wf_push_subscriber(
        s,
        crate::store::pending_record(id, email, name, subscribed_at),
    );
    let mid = StoreView {
        subscribers: s.subscribers.push(
            crate::store::pending_record(id, email, name, subscribed_at),
        ),
        tokens: s.tokens,
    };
    assert(id_taken(mid, id)) by {
        assert(mid.subscribers[s.subscribers.len() as int].id == id);
    }
    assert(!token_taken(mid, token));
    crate::store::lemma_wf_push_token(mid, TokenRecordView { token, subscriber_id: id });
    assert(s2.wf()) by {
        assert(s2.subscribers =~= mid.subscribers);
        assert(s2.tokens =~= mid.tokens.push(TokenRecordView { token, subscriber_id: id }));
        assert(s2 =~= (StoreView {
            subscribers: mid.subscribers,
            tokens: mid.tokens.push(TokenRecordView { token, subscriber_id: id }),
        }));
    }
    assert(email_count(s2.subscribers, email) == 1) by {
        assert(forall|i: int|
            0 <= i < s.subscribers.len() ==> (#[trigger] s.subscribers[i]).email != email);
        lemma_email_count_zero(s.subscribers, email);
        assert(s2.subscribers.drop_last() =~= s.subscribers);
        assert(s2.subscribers.last().email == email);
    }
    assert(tokens_for_count(s2.tokens, id) == 1) by {
        assert(forall|i: int|
            0 <= i < s.tokens.len() ==> (#[trigger] s.tokens[i]).subscriber_id != id) by {
            assert forall|i: int|
                0 <= i < s.tokens.len() implies (#[trigger] s.tokens[i]).subscriber_id != id by {
                assert(id_taken(s, s.tokens[i].subscriber_id));
            }
        }
        lemma_tokens_for_count_zero(s.tokens, id);
        assert(s2.tokens.drop_last() =~= s.tokens);
        assert(s2.tokens.last().subscriber_id == id);
    }
}

/// For every name/email pair reusing an already-registered email, the
/// subscription transition rejects with the constraint outcome and the
/// store is unchanged: no new subscriber or token rows.
pub proof fn lemma_subscribe_duplicate_email_rejected(
    s: StoreView,
    email: Seq<char>,
    name: Seq<char>,
    id: u128,
    subscribed_at: i64,
    token: Seq<char>,
)
    requires
        valid_subscriber_email(email),
        valid_subscriber_name(name),
        email_taken(s, email),
    ensures
        subscribe_transition(s, email, name, id, subscribed_at, token).1 is RejectedConstraint,
        subscribe_transition(s, email, name, id, subscribed_at, token).0 == s,
{
}

/// Atomicity of the persist step: whenever the transition does not accept
/// (in particular when storing the token is the step that fails, after the
/// subscriber row was already staged), the store is left exactly as it was:
/// no subscriber row survives without its token.
pub proof fn lemma_subscribe_failure_leaves_store_unchanged(
    s: StoreView,
    email: Seq<char>,
    name: Seq<char>,
    id: u128,
    subscribed_at: i64,
    token: Seq<char>,
)
    ensures
        !(subscribe_transition(s, email, name, id, subscribed_at, token).1 is Accepted)
            ==> subscribe_transition(s, email, name, id, subscribed_at, token).0 == s,
{
}

/// The token-fault case of atomicity: a valid, fresh subscription whose
/// minted token collides with an existing one fails as a whole, and in
/// particular the email stays unregistered.
pub proof fn lemma_subscribe_atomic_on_token_fault(
    s: StoreView,
    email: Seq<char>,
    name: Seq<char>,
    id: u128,
    subscribed_at: i64,
    token: Seq<char>,
)
    requires
        valid_subscriber_email(email),
        valid_subscriber_name(name),
        !email_taken(s, email),
        token_taken(s, token),
    ensures
        subscribe_transition(s, email, name, id, subscribed_at, token).1 is RejectedConstraint,
        subscribe_transition(s, email, name, id, subscribed_at, token).0 == s,
        !email_taken(subscribe_transition(s, email, name, id, subscribed_at, token).0, email),
{
}

/// Confirming with a token that was never issued answers the unauthorized
/// outcome and mutates no rows.
pub proof fn lemma_confirm_unknown_token(s: StoreView, token: Seq<char>)
    requires
        !token_taken(s, token),
    ensures
        confirm_transition(s, token).0 == s,
        confirm_transition(s, token).1 == 401,
{
}

/// Two row sequences that agree on every email hold any email equally often.
pub proof fn lemma_email_count_same_emails(
    a: Seq<SubscriberRecordView>,
    b: Seq<SubscriberRecordView>,
    email: Seq<char>,
)
    requires
        a.len() == b.len(),
        forall|i: int| 0 <= i < a.len() ==> (#[trigger] a[i]).email == b[i].email,
    ensures
        email_count(a, email) == email_count(b, email),
    decreases a.len(),
{
    if a.len() > 0 {
        assert(forall|i: int|
            0 <= i < a.drop_last().len() ==> (#[trigger] a.drop_last()[i]).email
                == b.drop_last()[i].email);
        lemma_email_count_same_emails(a.drop_last(), b.drop_last(), email);
        assert(a.last().email == b.last().email);
    }
}

/// The whole happy path: after a fresh, valid subscription, confirming with
/// the minted token answers `200`, and afterwards the one subscriber row
/// carrying the email is confirmed.  Confirmation touches no token row.
pub proof fn lemma_subscribe_then_confirm(
    s: StoreView,
    email: Seq<char>,
    name: Seq<char>,
    id: u128,
    subscribed_at: i64,
    token: Seq<char>,
)
    requires
        s.wf(),
        valid_subscriber_email(email),
        valid_subscriber_name(name),
        !email_taken(s, email),
        !id_taken(s, id),
        !token_taken(s, token),
    ensures
        ({
            let s1 = subscribe_transition(s, email, name, id, subscribed_at, token).0;
            let s2 = confirm_transition(s1, token).0;
            let status = confirm_transition(s1, token).1;
            &&& status == 200
            &&& s2.wf()
            &&& email_count(s2.subscribers, email) == 1
            &&& forall|i: int|
                0 <= i < s2.subscribers.len() && (#[trigger] s2.subscribers[i]).email == email
                    ==> s2.subscribers[i].status is Confirmed
            &&& s2.tokens == s1.tokens
        }),
{
    lemma_subscribe_fresh_email_succeeds(s, email, name, id, subscribed_at, token);
    let s1 = subscribe_transition(s, email, name, id, subscribed_at, token).0;
    let last = s1.tokens.len() - 1;
    assert(s1.tokens[last].token == token);
    assert(token_taken(s1, token));
    assert(token_subscriber(s1, token) == id) by {
        let k = choose|k: int| 0 <= k < s1.tokens.len() && s1.tokens[k].token == token;
        if k != last {
            assert(s1.tokens[k].token != s1.tokens[last].token);
        }
    }
    assert(id_taken(s1, id)) by {
        assert(s1.subscribers[s1.subscribers.len() - 1].id == id);
    }
    crate::store::lemma_wf_confirm(s1, id);
    let s2 = confirm_transition(s1, token).0;
    assert(s2 == confirm_in(s1, id));
    assert(forall|i: int|
        0 <= i < s2.subscribers.len() ==> (#[trigger] s2.subscribers[i]).email
            == s1.subscribers[i].email);
    lemma_email_count_same_emails(s2.subscribers, s1.subscribers, email);
    assert forall|i: int|
        0 <= i < s2.subscribers.len() && (#[trigger] s2.subscribers[i]).email == email
        implies s2.subscribers[i].status is Confirmed by {
        assert(s1.subscribers[i].email == email);
        assert(s1.subscribers[i].id == id);
    }
}

/// Status transitions are monotonic: confirmation never takes any
/// subscriber back from `Confirmed`, whichever token is presented.
pub proof fn lemma_confirm_status_monotonic(s: StoreView, token: Seq<char>, i: int)
    requires
        0 <= i < s.subscribers.len(),
        s.subscribers[i].status is Confirmed,
    ensures
        confirm_transition(s, token).0.subscribers.len() == s.subscribers.len(),
        confirm_transition(s, token).0.subscribers[i].status is Confirmed,
{
    let s1 = confirm_transition(s, token).0;
    if token_taken(s, token) && id_taken(s, token_subscriber(s, token)) {
        assert(s1.subscribers[i] == confirm_in(s, token_subscriber(s, token)).subscribers[i]);
    }
}

/// The subscription transition touches no existing row: whatever it
/// decides, every subscriber row that was there before is still there,
/// unchanged, at the same position.
pub proof fn lemma_subscribe_preserves_existing_rows(
    s: StoreView,
    email: Seq<char>,
    name: Seq<char>,
    id: u128,
    subscribed_at: i64,
    token: Seq<char>,
    i: int,
)
    requires
        0 <= i < s.subscribers.len(),
    ensures
        subscribe_transition(s, email, name, id, subscribed_at, token).0.subscribers[i]
            == s.subscribers[i],
{
}

/// Idempotence of confirmation: confirming twice with the same known token
/// succeeds both times, the second pass changes nothing, and after either
/// pass the token's subscriber is confirmed.
pub proof fn lemma_confirm_idempotent(s: StoreView, token: Seq<char>)
    requires
        s.wf(),
        token_taken(s, token),
    ensures
        ({
            let s1 = confirm_transition(s, token).0;
            let r1 = confirm_transition(s, token).1;
            let s2 = confirm_transition(s1, token).0;
            let r2 = confirm_transition(s1, token).1;
            &&& r1 == 200 && r2 == 200
            &&& s2 == s1
            &&& forall|i: int|
                0 <= i < s1.subscribers.len() && (#[trigger] s1.subscribers[i]).id
                    == token_subscriber(s, token) ==> s1.subscribers[i].status is Confirmed
        }),
{
    let id = token_subscriber(s, token);
    let j = choose|j: int| 0 <= j < s.tokens.len() && s.tokens[j].token == token;
    assert(id_taken(s, s.tokens[j].subscriber_id));
    let s1 = confirm_transition(s, token).0;
    crate::store::lemma_wf_confirm(s, id);
    assert(s1 == confirm_in(s, id));
    assert(token_taken(s1, token)) by {
        assert(s1.tokens[j].token == token);
    }
    assert(token_subscriber(s1, token) == id) by {
        let k = choose|k: int| 0 <= k < s1.tokens.len() && s1.tokens[k].token == token;
        assert(s.tokens[k].token == s.tokens[j].token);
        assert(k == j);
    }
    assert(id_taken(s1, id)) by {
        let w = choose|w: int| 0 <= w < s.subscribers.len() && s.subscribers[w].id == id;
        assert(s1.subscribers[w].id == id);
    }
    let s2 = confirm_transition(s1, token).0;
    assert(s2 == s1) by {
        assert forall|i: int|
            0 <= i < s1.subscribers.len() implies #[trigger] confirm_in(s1, id).subscribers[i]
            == s1.subscribers[i] by {
            if s1.subscribers[i].id == id {
                assert(s1.subscribers[i].status is Confirmed);
            }
        }
        assert(confirm_in(s1, id).subscribers =~= s1.subscribers);
        assert(confirm_in(s1, id) =~= s1);
    }
}

} // verus!
