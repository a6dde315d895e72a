//! The subscriber store: the durable, transactional home of subscriber and
//! confirmation-token records.
//!
//! Writes are staged on a [`Transaction`] and become visible only through
//! [`Store::commit`]; a transaction that is dropped instead leaves the store
//! untouched.  The store maintains four invariants, stated by
//! [`StoreView::wf`]: emails are unique, subscriber ids are unique, tokens
//! are unique, and every token references an existing subscriber.

use vstd::prelude::*;

use crate::domain::NewSubscriber;

verus! {

/// Lifecycle state of a subscriber.  The only transition ever performed is
/// `PendingConfirmation -> Confirmed`.
#[derive(Clone, Copy, PartialEq, Eq, Debug, Structural)]
pub enum SubscriberStatus {
    PendingConfirmation,
    Confirmed,
}

impl SubscriberStatus {
    /// The textual form under which the status is persisted.
    pub fn as_str(&self) -> (r: &'static str)
        ensures
            *self is PendingConfirmation ==> r@ == "pending_confirmation"@,
            *self is Confirmed ==> r@ == "confirmed"@,
    {
        match self {
            SubscriberStatus::PendingConfirmation => "pending_confirmation",
            SubscriberStatus::Confirmed => "confirmed",
        }
    }
}

/// One row of the subscriber relation.
pub struct SubscriberRecord {
    pub id: u128,
    pub email: String,
    pub name: String,
    pub subscribed_at: i64,
    pub status: SubscriberStatus,
}

/// Mathematical image of a [`SubscriberRecord`].
#[verifier::ext_equal]
pub struct SubscriberRecordView {
    pub id: u128,
    pub email: Seq<char>,
    pub name: Seq<char>,
    pub subscribed_at: i64,
    pub status: SubscriberStatus,
}

impl View for SubscriberRecord {
    type V = SubscriberRecordView;

    open spec fn view(&self) -> SubscriberRecordView {
        SubscriberRecordView {
            id: self.id,
            email: self.email@,
            name: self.name@,
            subscribed_at: self.subscribed_at,
            status: self.status,
        }
    }
}

/// One row of the confirmation-token relation.
pub struct TokenRecord {
    pub token: String,
    pub subscriber_id: u128,
}

/// Mathematical image of a [`TokenRecord`].
#[verifier::ext_equal]
pub struct TokenRecordView {
    pub token: Seq<char>,
    pub subscriber_id: u128,
}

impl View for TokenRecord {
    type V = TokenRecordView;

    open spec fn view(&self) -> TokenRecordView {
        TokenRecordView { token: self.token@, subscriber_id: self.subscriber_id }
    }
}

/// Mathematical image of the whole store: the two relations.
#[verifier::ext_equal]
pub struct StoreView {
    pub subscribers: Seq<SubscriberRecordView>,
    pub tokens: Seq<TokenRecordView>,
}

/// How a store operation can fail.  The in-memory store reports constraint
/// violations and missing rows itself; `StoreUnavailable` is the outcome a
/// caller sees when a backing connection cannot be obtained, part of the
/// taxonomy for backends that can lose one -- no operation of this in-memory
/// store ever produces it.
#[derive(Clone, Copy, PartialEq, Eq, Debug, Structural)]
pub enum StoreError {
    ConstraintViolation,
    StoreUnavailable,
    NotFound,
}

/// Some row of the sequence carries this email.
pub open spec fn seq_has_email(s: Seq<SubscriberRecordView>, email: Seq<char>) -> bool {
    exists|i: int| 0 <= i < s.len() && s[i].email == email
}

/// Some row of the sequence carries this id.
pub open spec fn seq_has_id(s: Seq<SubscriberRecordView>, id: u128) -> bool {
    exists|i: int| 0 <= i < s.len() && s[i].id == id
}

/// Some row of the sequence carries this token string.
pub open spec fn seq_has_token(s: Seq<TokenRecordView>, token: Seq<char>) -> bool {
    exists|i: int| 0 <= i < s.len() && s[i].token == token
}

/// Some subscriber row already carries this email.
pub open spec fn email_taken(s: StoreView, email: Seq<char>) -> bool {
    seq_has_email(s.subscribers, email)
}

/// Some subscriber row already carries this id.
pub open spec fn id_taken(s: StoreView, id: u128) -> bool {
    seq_has_id(s.subscribers, id)
}

/// Some token row already carries this token string.
pub open spec fn token_taken(s: StoreView, token: Seq<char>) -> bool {
    seq_has_token(s.tokens, token)
}

/// Splitting a search for an email over a concatenation.
pub proof fn lemma_has_email_concat(
    a: Seq<SubscriberRecordView>,
    b: Seq<SubscriberRecordView>,
    email: Seq<char>,
)
    ensures
        seq_has_email(a + b, email) <==> (seq_has_email(a, email) || seq_has_email(b, email)),
{
    if seq_has_email(a, email) {
        let i = choose|i: int| 0 <= i < a.len() && a[i].email == email;
        assert((a + b)[i].email == email);
    }
    if seq_has_email(b, email) {
        let i = choose|i: int| 0 <= i < b.len() && b[i].email == email;
        assert((a + b)[a.len() + i].email == email);
    }
    if seq_has_email(a + b, email) {
        let i = choose|i: int| 0 <= i < (a + b).len() && (a + b)[i].email == email;
        if i < a.len() {
            assert(a[i].email == email);
        } else {
            assert(b[i - a.len()].email == email);
        }
    }
}

/// Splitting a search for an id over a concatenation.
pub proof fn lemma_has_id_concat(
    a: Seq<SubscriberRecordView>,
    b: Seq<SubscriberRecordView>,
    id: u128,
)
    ensures
        seq_has_id(a + b, id) <==> (seq_has_id(a, id) || seq_has_id(b, id)),
{
    if seq_has_id(a, id) {
        let i = choose|i: int| 0 <= i < a.len() && a[i].id == id;
        assert((a + b)[i].id == id);
    }
    if seq_has_id(b, id) {
        let i = choose|i: int| 0 <= i < b.len() && b[i].id == id;
        assert((a + b)[a.len() + i].id == id);
    }
    if seq_has_id(a + b, id) {
        let i = choose|i: int| 0 <= i < (a + b).len() && (a + b)[i].id == id;
        if i < a.len() {
            assert(a[i].id == id);
        } else {
            assert(b[i - a.len()].id == id);
        }
    }
}

/// Splitting a search for a token over a concatenation.
pub proof fn lemma_has_token_concat(
    a: Seq<TokenRecordView>,
    b: Seq<TokenRecordView>,
    token: Seq<char>,
)
    ensures
        seq_has_token(a + b, token) <==> (seq_has_token(a, token) || seq_has_token(b, token)),
{
    if seq_has_token(a, token) {
        let i = choose|i: int| 0 <= i < a.len() && a[i].token == token;
        assert((a + b)[i].token == token);
    }
    if seq_has_token(b, token) {
        let i = choose|i: int| 0 <= i < b.len() && b[i].token == token;
        assert((a + b)[a.len() + i].token == token);
    }
    if seq_has_token(a + b, token) {
        let i = choose|i: int| 0 <= i < (a + b).len() && (a + b)[i].token == token;
        if i < a.len() {
            assert(a[i].token == token);
        } else {
            assert(b[i - a.len()].token == token);
        }
    }
}

/// Mathematical image of a vector of subscriber rows.
pub open spec fn subscribers_view(v: Seq<SubscriberRecord>) -> Seq<SubscriberRecordView> {
    v.map_values(|r: SubscriberRecord| r@)
}

/// Mathematical image of a vector of token rows.
pub open spec fn tokens_view(v: Seq<TokenRecord>) -> Seq<TokenRecordView> {
    v.map_values(|t: TokenRecord| t@)
}

/// Linear scan for an email among subscriber rows.
fn rows_contain_email(v: &Vec<SubscriberRecord>, email: &String) -> (r: bool)
    ensures
        r <==> seq_has_email(subscribers_view(v@), email@),
{
    let n = v.len();
    let mut i: usize = 0;
    while i < n
        invariant
            i <= n,
            n == v@.len(),
            forall|j: int| 0 <= j < i ==> subscribers_view(v@)[j].email != email@,
        decreases n - i,
    {
        if v[i].email == *email {
            assert(subscribers_view(v@)[i as int].email == email@);
            return true;
        }
        assert(subscribers_view(v@)[i as int].email != email@);
        i += 1;
    }
    false
}

/// Linear scan for a subscriber id among subscriber rows.
fn rows_contain_id(v: &Vec<SubscriberRecord>, id: u128) -> (r: bool)
    ensures
        r <==> seq_has_id(subscribers_view(v@), id),
{
    let n = v.len();
    let mut i: usize = 0;
    while i < n
        invariant
            i <= n,
            n == v@.len(),
            forall|j: int| 0 <= j < i ==> subscribers_view(v@)[j].id != id,
        decreases n - i,
    {
        if v[i].id == id {
            assert(subscribers_view(v@)[i as int].id == id);
            return true;
        }
        assert(subscribers_view(v@)[i as int].id != id);
        i += 1;
    }
    false
}

/// Linear scan for a subscriber id among subscriber rows; yields its position.
fn rows_find_id(v: &Vec<SubscriberRecord>, id: u128) -> (r: Option<usize>)
    ensures
        r matches Some(i) ==> i < v@.len() && subscribers_view(v@)[i as int].id == id,
        r is None <==> !seq_has_id(subscribers_view(v@), id),
{
    let n = v.len();
    let mut i: usize = 0;
    while i < n
        invariant
            i <= n,
            n == v@.len(),
            forall|j: int| 0 <= j < i ==> subscribers_view(v@)[j].id != id,
        decreases n - i,
    {
        if v[i].id == id {
            assert(subscribers_view(v@)[i as int].id == id);
            return Some(i);
        }
        assert(subscribers_view(v@)[i as int].id != id);
        i += 1;
    }
    None
}

/// Linear scan for a token string among token rows; yields its position.
fn rows_find_token(v: &Vec<TokenRecord>, token: &str) -> (r: Option<usize>)
    ensures
        r matches Some(i) ==> i < v@.len() && tokens_view(v@)[i as int].token == token@,
        r is None <==> !seq_has_token(tokens_view(v@), token@),
{
    let owned: String = token.to_owned();
    let n = v.len();
    let mut i: usize = 0;
    while i < n
        invariant
            i <= n,
            n == v@.len(),
            owned@ == token@,
            forall|j: int| 0 <= j < i ==> tokens_view(v@)[j].token != token@,
        decreases n - i,
    {
        if v[i].token == owned {
            assert(tokens_view(v@)[i as int].token == token@);
            return Some(i);
        }
        assert(tokens_view(v@)[i as int].token != token@);
        i += 1;
    }
    None
}

/// A freshly inserted subscriber row: status starts at `PendingConfirmation`.
pub open spec fn pending_record(
    id: u128,
    email: Seq<char>,
    name: Seq<char>,
    subscribed_at: i64,
) -> SubscriberRecordView {
    SubscriberRecordView {
        id,
        email,
        name,
        subscribed_at,
        status: SubscriberStatus::PendingConfirmation,
    }
}

/// The store with every subscriber of the given id set to `Confirmed`.
/// Under [`StoreView::wf`] ids are unique, so at most one row changes.
pub open spec fn confirm_in(s: StoreView, id: u128) -> StoreView {
    StoreView {
        subscribers: s.subscribers.map_values(
            |r: SubscriberRecordView|
                if r.id == id {
                    SubscriberRecordView { status: SubscriberStatus::Confirmed, ..r }
                } else {
                    r
                },
        ),
        tokens: s.tokens,
    }
}

impl StoreView {
    /// The store's invariants: unique emails, unique subscriber ids, unique
    /// tokens, and every token referencing an existing subscriber.
    pub open spec fn wf(self) -> bool {
        &&& forall|i: int, j: int|
            0 <= i < j < self.subscribers.len() ==> self.subscribers[i].email
                != self.subscribers[j].email
        &&& forall|i: int, j: int|
            0 <= i < j < self.subscribers.len() ==> self.subscribers[i].id
                != self.subscribers[j].id
        &&& forall|i: int, j: int|
            0 <= i < j < self.tokens.len() ==> self.tokens[i].token != self.tokens[j].token
        &&& forall|i: int|
            0 <= i < self.tokens.len() ==> id_taken(self, #[trigger] self.tokens[i].subscriber_id)
    }
}

/// Staged writes of one open transaction.  Dropping the transaction without
/// committing it leaves the store as it was.
pub struct Transaction {
    staged_subscribers: Vec<SubscriberRecord>,
    staged_tokens: Vec<TokenRecord>,
}

/// Mathematical image of a [`Transaction`]: the staged rows, in insertion
/// order.
#[verifier::ext_equal]
pub struct TransactionView {
    pub staged_subscribers: Seq<SubscriberRecordView>,
    pub staged_tokens: Seq<TokenRecordView>,
}

impl View for Transaction {
    type V = TransactionView;

    closed spec fn view(&self) -> TransactionView {
        TransactionView {
            staged_subscribers: self.staged_subscribers@.map_values(
                |r: SubscriberRecord| r@,
            ),
            staged_tokens: self.staged_tokens@.map_values(|t: TokenRecord| t@),
        }
    }
}

/// The store as it would look if the transaction were committed now.  Inserts
/// check their constraints against this combined state, exactly as the
/// committed rows will have to satisfy them.
pub open spec fn committed(s: StoreView, t: TransactionView) -> StoreView {
    StoreView {
        subscribers: s.subscribers + t.staged_subscribers,
        tokens: s.tokens + t.staged_tokens,
    }
}

/// Appending a subscriber whose email and id are both fresh keeps the store
/// well-formed.
pub proof fn lemma_wf_push_subscriber(s: StoreView, rec: SubscriberRecordView)
    requires
        s.wf(),
        !email_taken(s, rec.email),
        !id_taken(s, rec.id),
    ensures
        (StoreView { subscribers: s.subscribers.push(rec), tokens: s.tokens }).wf(),
{
    let s2 = StoreView { subscribers: s.subscribers.push(rec), tokens: s.tokens };
    assert forall|i: int|
        0 <= i < s2.tokens.len() implies id_taken(s2, #[trigger] s2.tokens[i].subscriber_id) by {
        let j = choose|j: int|
            0 <= j < s.subscribers.len() && s.subscribers[j].id == s.tokens[i].subscriber_id;
        assert(s2.subscribers[j].id == s2.tokens[i].subscriber_id);
    }
}

/// Appending a token whose string is fresh and whose subscriber exists keeps
/// the store well-formed.
pub proof fn lemma_wf_push_token(s: StoreView, tok: TokenRecordView)
    requires
        s.wf(),
        !token_taken(s, tok.token),
        id_taken(s, tok.subscriber_id),
    ensures
        (StoreView { subscribers: s.subscribers, tokens: s.tokens.push(tok) }).wf(),
{
    let s2 = StoreView { subscribers: s.subscribers, tokens: s.tokens.push(tok) };
    assert forall|i: int|
        0 <= i < s2.tokens.len() implies id_taken(s2, #[trigger] s2.tokens[i].subscriber_id) by {
        if i < s.tokens.len() {
            assert(id_taken(s, s.tokens[i].subscriber_id));
        } else {
            assert(s2.tokens[i] == tok);
        }
    }
}

/// Confirming a subscriber changes no email, id or token, so it keeps the
/// store well-formed.
pub proof fn lemma_wf_confirm(s: StoreView, id: u128)
    requires
        s.wf(),
    ensures
        confirm_in(s, id).wf(),
        confirm_in(s, id).subscribers.len() == s.subscribers.len(),
        forall|i: int|
            0 <= i < s.subscribers.len() ==> (#[trigger] confirm_in(s, id).subscribers[i]).id
                == s.subscribers[i].id && confirm_in(s, id).subscribers[i].email
                == s.subscribers[i].email,
{
    let s2 = confirm_in(s, id);
    assert forall|i: int|
        0 <= i < s2.tokens.len() implies id_taken(s2, #[trigger] s2.tokens[i].subscriber_id) by {
        let j = choose|j: int|
            0 <= j < s.subscribers.len() && s.subscribers[j].id == s.tokens[i].subscriber_id;
        assert(s2.subscribers[j].id == s2.tokens[i].subscriber_id);
    }
}

/// Relies on uuid's `Uuid::new_v4`: a freshly drawn random 128-bit identifier,
/// handed on as its integral value.  The value is random, so nothing is
/// promised of it; callers state what holds whatever came back.
#[verifier::external_body]
pub(crate) fn generate_subscriber_id() -> (r: u128) {
    uuid::Uuid::new_v4().as_u128()
}

/// Relies on chrono's `Utc::now` and `timestamp_millis`: the current time as
/// milliseconds since the Unix epoch.  The value depends on the clock, so
/// nothing is promised of it.
#[verifier::external_body]
pub(crate) fn current_timestamp_millis() -> (r: i64) {
    chrono::Utc::now().timestamp_millis()
}

/// The in-memory subscriber store.
pub struct Store {
    subscribers: Vec<SubscriberRecord>,
    tokens: Vec<TokenRecord>,
}

impl View for Store {
    type V = StoreView;

    closed spec fn view(&self) -> StoreView {
        StoreView {
            subscribers: self.subscribers@.map_values(|r: SubscriberRecord| r@),
            tokens: self.tokens@.map_values(|t: TokenRecord| t@),
        }
    }
}

impl Store {
    /// An empty store; trivially well-formed.
    pub fn new() -> (r: Store)
        ensures
            r@.subscribers == Seq::<SubscriberRecordView>::empty(),
            r@.tokens == Seq::<TokenRecordView>::empty(),
            r@.wf(),
    {
        let r = Store { subscribers: Vec::new(), tokens: Vec::new() };
        proof {
            assert(r@.subscribers =~= Seq::<SubscriberRecordView>::empty());
            assert(r@.tokens =~= Seq::<TokenRecordView>::empty());
        }
        r
    }

    /// Opens a transaction with no staged writes yet.
    pub fn begin_transaction(&self) -> (t: Transaction)
        ensures
            t@.staged_subscribers == Seq::<SubscriberRecordView>::empty(),
            t@.staged_tokens == Seq::<TokenRecordView>::empty(),
            committed(self@, t@) == self@,
    {
        let t = Transaction { staged_subscribers: Vec::new(), staged_tokens: Vec::new() };
        proof {
            assert(t@.staged_subscribers =~= Seq::<SubscriberRecordView>::empty());
            assert(t@.staged_tokens =~= Seq::<TokenRecordView>::empty());
            assert(committed(self@, t@) =~= self@);
        }
        t
    }

    /// Stages a new subscriber row carrying the given id and timestamp, with
    /// status `pending_confirmation`.  Fails with `ConstraintViolation` when
    /// the email or the id is already present, committed or staged.
    pub fn insert_subscriber_with(
        &self,
        txn: &mut Transaction,
        new_subscriber: &NewSubscriber,
        id: u128,
        subscribed_at: i64,
    ) -> (r: Result<u128, StoreError>)
        requires
            committed(self@, old(txn)@).wf(),
        ensures
            committed(self@, final(txn)@).wf(),
            ({
                let before = committed(self@, old(txn)@);
                if email_taken(before, new_subscriber.email@) || id_taken(before, id) {
                    &&& r == Err::<u128, StoreError>(StoreError::ConstraintViolation)
                    &&& final(txn)@ == old(txn)@
                } else {
                    &&& r == Ok::<u128, StoreError>(id)
                    &&& final(txn)@ == (TransactionView {
                        staged_subscribers: old(txn)@.staged_subscribers.push(
                            pending_record(
                                id,
                                new_subscriber.email@,
                                new_subscriber.name@,
                                subscribed_at,
                            ),
                        ),
                        ..old(txn)@
                    })
                }
            }),
    {
        proof {
            lemma_has_email_concat(
                self@.subscribers,
                old(txn)@.staged_subscribers,
                new_subscriber.email@,
            );
            lemma_has_id_concat(self@.subscribers, old(txn)@.staged_subscribers, id);
        }
        let email: String = new_subscriber.email.as_ref().to_owned();
        if rows_contain_email(&self.subscribers, &email)
            || rows_contain_email(&txn.staged_subscribers, &email)
            || rows_find_id(&self.subscribers, id).is_some()
            || rows_find_id(&txn.staged_subscribers, id).is_some() {
            return Err(StoreError::ConstraintViolation);
        }
        let record = SubscriberRecord {
            id,
            email,
            name: new_subscriber.name.as_ref().to_owned(),
            subscribed_at,
            status: SubscriberStatus::PendingConfirmation,
        };
        let ghost rec_view = record@;
        txn.staged_subscribers.push(record);
        proof {
            assert(txn@.staged_subscribers =~= old(txn)@.staged_subscribers.push(rec_view));
            let before = committed(self@, old(txn)@);
            assert(committed(self@, txn@).subscribers =~= before.subscribers.push(rec_view));
            assert(committed(self@, txn@).tokens =~= before.tokens);
            lemma_wf_push_subscriber(before, rec_view);
            assert(committed(self@, txn@) =~= (StoreView {
                subscribers: before.subscribers.push(rec_view),
                tokens: before.tokens,
            }));
        }
        Ok(id)
    }

    /// Stages a new subscriber row, drawing a fresh random id and the current
    /// time.  Fails with `ConstraintViolation` when the email is already
    /// present, committed or staged, or the drawn id collides.  A collision
    /// needs an existing row: where none exists, success is owed.
    pub fn insert_subscriber(
        &self,
        txn: &mut Transaction,
        new_subscriber: &NewSubscriber,
    ) -> (r: Result<u128, StoreError>)
        requires
            committed(self@, old(txn)@).wf(),
        ensures
            committed(self@, final(txn)@).wf(),
            email_taken(committed(self@, old(txn)@), new_subscriber.email@) ==> r is Err,
            committed(self@, old(txn)@).subscribers.len() == 0 ==> r is Ok,
            r is Err ==> committed(self@, old(txn)@).subscribers.len() > 0,
            r is Err ==> r == Err::<u128, StoreError>(StoreError::ConstraintViolation) && final(txn)@
                == old(txn)@,
            r matches Ok(id) ==> ({
                let pushed = final(txn)@.staged_subscribers.last();
                &&& !email_taken(committed(self@, old(txn)@), new_subscriber.email@)
                &&& !id_taken(committed(self@, old(txn)@), id)
                &&& pushed == pending_record(
                    id,
                    new_subscriber.email@,
                    new_subscriber.name@,
                    pushed.subscribed_at,
                )
                &&& final(txn)@ == (TransactionView {
                    staged_subscribers: old(txn)@.staged_subscribers.push(pushed),
                    ..old(txn)@
                })
            }),
    {
        let id = generate_subscriber_id();
        let subscribed_at = current_timestamp_millis();
        self.insert_subscriber_with(txn, new_subscriber, id, subscribed_at)
    }

    /// Stages a confirmation-token row for the given subscriber.  Fails with
    /// `ConstraintViolation` when the token string is already present,
    /// committed or staged, or the subscriber id is not.
    pub fn store_token(&self, txn: &mut Transaction, subscriber_id: u128, token: &str) -> (r:
        Result<(), StoreError>)
        requires
            committed(self@, old(txn)@).wf(),
        ensures
            committed(self@, final(txn)@).wf(),
            ({
                let before = committed(self@, old(txn)@);
                if token_taken(before, token@) || !id_taken(before, subscriber_id) {
                    &&& r == Err::<(), StoreError>(StoreError::ConstraintViolation)
                    &&& final(txn)@ == old(txn)@
                } else {
                    &&& r == Ok::<(), StoreError>(())
                    &&& final(txn)@ == (TransactionView {
                        staged_tokens: old(txn)@.staged_tokens.push(
                            TokenRecordView { token: token@, subscriber_id },
                        ),
                        ..old(txn)@
                    })
                }
            }),
    {
        proof {
            lemma_has_token_concat(self@.tokens, old(txn)@.staged_tokens, token@);
            lemma_has_id_concat(self@.subscribers, old(txn)@.staged_subscribers, subscriber_id);
        }
        if rows_find_token(&self.tokens, token).is_some()
            || rows_find_token(&txn.staged_tokens, token).is_some() {
            return Err(StoreError::ConstraintViolation);
        }
        if rows_find_id(&self.subscribers, subscriber_id).is_none()
            && rows_find_id(&txn.staged_subscribers, subscriber_id).is_none() {
            return Err(StoreError::ConstraintViolation);
        }
        let record = TokenRecord { token: token.to_owned(), subscriber_id };
        let ghost tok_view = record@;
        txn.staged_tokens.push(record);
        proof {
            assert(txn@.staged_tokens =~= old(txn)@.staged_tokens.push(tok_view));
            let before = committed(self@, old(txn)@);
            assert(committed(self@, txn@).tokens =~= before.tokens.push(tok_view));
            assert(committed(self@, txn@).subscribers =~= before.subscribers);
            lemma_wf_push_token(before, tok_view);
            assert(committed(self@, txn@) =~= (StoreView {
                subscribers: before.subscribers,
                tokens: before.tokens.push(tok_view),
            }));
        }
        Ok(())
    }

    /// Makes the transaction's staged rows durable.  The staged rows satisfy
    /// the store's constraints against the committed state (that is what the
    /// inserts checked), so the combined state is well-formed.
    pub fn commit(&mut self, txn: Transaction)
        requires
            committed(old(self)@, txn@).wf(),
        ensures
            final(self)@ == committed(old(self)@, txn@),
            final(self)@.wf(),
    {
        let Transaction { mut staged_subscribers, mut staged_tokens } = txn;
        let ghost staged_subs_view = subscribers_view(staged_subscribers@);
        let ghost staged_toks_view = tokens_view(staged_tokens@);
        self.subscribers.append(&mut staged_subscribers);
        self.tokens.append(&mut staged_tokens);
        proof {
            assert(self@.subscribers =~= old(self)@.subscribers + staged_subs_view);
            assert(self@.tokens =~= old(self)@.tokens + staged_toks_view);
            assert(self@ =~= committed(old(self)@, txn@));
        }
    }

    /// Point lookup of a token.  Absence is not an error: it is the legitimate
    /// unknown-token outcome.
    pub fn get_subscriber_id_from_token(&self, token: &str) -> (r: Option<u128>)
        ensures
            r is Some <==> token_taken(self@, token@),
            r matches Some(id) ==> exists|i: int|
                0 <= i < self@.tokens.len() && self@.tokens[i].token == token@
                    && #[trigger] self@.tokens[i].subscriber_id == id,
    {
        match rows_find_token(&self.tokens, token) {
            Some(i) => {
                let id = self.tokens[i].subscriber_id;
                proof {
                    assert(self@.tokens[i as int].token == token@ && self@.tokens[
                        i as int
                    ].subscriber_id == id);
                }
                Some(id)
            },
            None => None,
        }
    }

    /// The one-way state transition: sets the subscriber's status to
    /// `confirmed`.  Re-applying it to an already-confirmed subscriber is
    /// harmless: the update is a pure assignment.  Fails with `NotFound` when
    /// no subscriber carries the id.
    pub fn confirm_subscriber(&mut self, subscriber_id: u128) -> (r: Result<(), StoreError>)
        requires
            old(self)@.wf(),
        ensures
            final(self)@.wf(),
            id_taken(old(self)@, subscriber_id) ==> r == Ok::<(), StoreError>(()) && final(self)@
                == confirm_in(old(self)@, subscriber_id),
            !id_taken(old(self)@, subscriber_id) ==> r == Err::<(), StoreError>(StoreError::NotFound)
                && final(self)@ == old(self)@,
    {
        match rows_find_id(&self.subscribers, subscriber_id) {
            None => Err(StoreError::NotFound),
            Some(k) => {
                let mut record = self.subscribers.remove(k);
                record.status = SubscriberStatus::Confirmed;
                self.subscribers.insert(k, record);
                proof {
                    let target = confirm_in(old(self)@, subscriber_id);
                    assert forall|i: int|
                        0 <= i < self@.subscribers.len() implies self@.subscribers[i]
                        == target.subscribers[i] by {
                        if i != k {
                            assert(old(self)@.subscribers[i].id != subscriber_id);
                        }
                    }
                    assert(self@.subscribers =~= target.subscribers);
                    assert(self@ =~= target);
                    lemma_wf_confirm(old(self)@, subscriber_id);
                }
                Ok(())
            },
        }
    }

    /// Number of subscriber rows.
    pub fn subscriber_count(&self) -> (r: usize)
        ensures
            r == self@.subscribers.len(),
    {
        self.subscribers.len()
    }

    /// Number of token rows.
    pub fn token_count(&self) -> (r: usize)
        ensures
            r == self@.tokens.len(),
    {
        self.tokens.len()
    }

    /// Read access to one subscriber row.
    pub fn subscriber_at(&self, i: usize) -> (r: &SubscriberRecord)
        requires
            i < self@.subscribers.len(),
        ensures
            r@ == self@.subscribers[i as int],
    {
        &self.subscribers[i]
    }

    /// Read access to one token row.
    pub fn token_at(&self, i: usize) -> (r: &TokenRecord)
        requires
            i < self@.tokens.len(),
        ensures
            r@ == self@.tokens[i as int],
    {
        &self.tokens[i]
    }

    /// Point lookup of a subscriber by email.
    pub fn find_subscriber_by_email(&self, email: &str) -> (r: Option<&SubscriberRecord>)
        ensures
            r is Some <==> email_taken(self@, email@),
            r matches Some(rec) ==> rec@.email == email@ && exists|i: int|
                0 <= i < self@.subscribers.len() && #[trigger] self@.subscribers[i] == rec@,
    {
        let owned: String = email.to_owned();
        let n = self.subscribers.len();
        let mut i: usize = 0;
        while i < n
            invariant
                i <= n,
                n == self@.subscribers.len(),
                owned@ == email@,
                forall|j: int| 0 <= j < i ==> self@.subscribers[j].email != email@,
            decreases n - i,
        {
            if self.subscribers[i].email == owned {
                proof {
                    assert(self@.subscribers[i as int].email == email@);
                }
                return Some(&self.subscribers[i]);
            }
            proof {
                assert(self@.subscribers[i as int].email != email@);
            }
            i += 1;
        }
        None
    }
}

} // verus!
