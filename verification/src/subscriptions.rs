//! The subscription workflow: validate the form, persist subscriber and
//! confirmation token inside one transaction, commit, then hand back the
//! confirmation email for dispatch.  Every failure is mapped to a
//! caller-facing outcome; internal detail stays in the error values for the
//! operator-facing log.

use vstd::prelude::*;
use vstd::string::StringExecFns;

use crate::domain::{
    valid_subscriber_email, valid_subscriber_name, NewSubscriber, SubscriberEmail,
};
use crate::store::{
    committed, email_taken, id_taken, pending_record, token_taken, Store, StoreError, StoreView,
    TokenRecordView,
};
use crate::token::{generate_subscription_token, valid_token};

verus! {

/// The raw subscription form: both fields still unvalidated.
pub struct FormData {
    pub email: String,
    pub name: String,
}

impl NewSubscriber {
    /// Validation step of the workflow: accepts the form exactly when the
    /// name is non-empty and the email carries an `@` strictly inside.
    /// Failure never touches the store.
    pub fn try_from(form: FormData) -> (r: Result<NewSubscriber, String>)
        ensures
            r is Ok <==> (valid_subscriber_name(form.name@) && valid_subscriber_email(
                form.email@,
            )),
            r matches Ok(ns) ==> ns.email@ == form.email@ && ns.name@ == form.name@,
            r matches Err(m) ==> (if !valid_subscriber_name(form.name@) {
                m@ == "not a valid subscriber name"@
            } else {
                m@ == "not a valid subscriber email"@
            }),
    {
        let FormData { email, name } = form;
        let name = match crate::domain::SubscriberName::parse(name) {
            Ok(n) => n,
            Err(m) => {
                return Err(m);
            },
        };
        let email = match SubscriberEmail::parse(email) {
            Ok(e) => e,
            Err(m) => {
                return Err(m);
            },
        };
        Ok(NewSubscriber { email, name })
    }
}

/// A database failure while writing a new subscriber or its token, with the
/// causing store error kept for the log.
#[derive(Clone, Copy, PartialEq, Eq, Debug, Structural)]
pub struct StoreTokenError(pub StoreError);

/// A mail-gateway failure, with the underlying cause preserved as text for
/// the operator-facing log.
#[derive(Debug)]
pub struct MailError {
    pub message: String,
}

/// Everything the subscription workflow can report.  The cause sits in the
/// variant's field, inspectable rather than re-derived per error kind.
#[derive(Debug)]
pub enum SubscribeError {
    ValidationError(String),
    DatabaseError(StoreError),
    StoreTokenError(StoreTokenError),
    SendEmailError(MailError),
}

impl StoreError {
    /// The operator-facing description of the failure.
    pub open spec fn spec_message(&self) -> Seq<char> {
        match self {
            StoreError::ConstraintViolation => "a database constraint was violated"@,
            StoreError::StoreUnavailable => "the subscriber store could not be reached"@,
            StoreError::NotFound => "no subscriber with the given id exists"@,
        }
    }

    /// The operator-facing description of the failure.
    pub fn message(&self) -> (r: &'static str)
        ensures
            r@ == self.spec_message(),
    {
        match self {
            StoreError::ConstraintViolation => "a database constraint was violated",
            StoreError::StoreUnavailable => "the subscriber store could not be reached",
            StoreError::NotFound => "no subscriber with the given id exists",
        }
    }
}

impl StoreTokenError {
    /// The operator-facing description of the failure.
    pub open spec fn spec_message(&self) -> Seq<char> {
        "a database error was encountered while trying to store a subscription token"@
    }

    /// The operator-facing description of the failure.
    pub fn message(&self) -> (r: &'static str)
        ensures
            r@ == self.spec_message(),
    {
        "a database error was encountered while trying to store a subscription token"
    }
}

impl SubscribeError {
    /// The operator-facing description of the failure.
    pub open spec fn spec_message(&self) -> Seq<char> {
        match self {
            SubscribeError::ValidationError(m) => "invalid subscriber input: "@ + m@,
            SubscribeError::DatabaseError(_) => "a database error was encountered"@,
            SubscribeError::StoreTokenError(_) => "failed to store the confirmation token for a new subscriber"@,
            SubscribeError::SendEmailError(_) => "failed to send a confirmation email"@,
        }
    }

    /// The operator-facing description of the failure.
    pub fn message(&self) -> (r: String)
        ensures
            r@ == self.spec_message(),
    {
        match self {
            SubscribeError::ValidationError(m) => {
                let mut out = String::from_str("invalid subscriber input: ");
                out.append(m.as_str());
                out
            },
            SubscribeError::DatabaseError(_) => String::from_str("a database error was encountered"),
            SubscribeError::StoreTokenError(_) => String::from_str(
                "failed to store the confirmation token for a new subscriber",
            ),
            SubscribeError::SendEmailError(_) => String::from_str(
                "failed to send a confirmation email",
            ),
        }
    }

    /// The chain of causes below the top-level description, outermost first.
    pub open spec fn spec_cause_chain(&self) -> Seq<Seq<char>> {
        match self {
            SubscribeError::ValidationError(_) => Seq::empty(),
            SubscribeError::DatabaseError(e) => seq![e.spec_message()],
            SubscribeError::StoreTokenError(st) => seq![st.spec_message(), st.0.spec_message()],
            SubscribeError::SendEmailError(me) => seq![me.message@],
        }
    }

    /// The caller-facing status: validation failures are the caller's fault,
    /// everything else is an internal failure.  Internal error text is never
    /// echoed to the caller.
    pub open spec fn spec_status_code(&self) -> u16 {
        match self {
            SubscribeError::ValidationError(_) => 400,
            SubscribeError::DatabaseError(_) => 500,
            SubscribeError::StoreTokenError(_) => 500,
            SubscribeError::SendEmailError(_) => 500,
        }
    }

    /// The caller-facing status: validation failures are the caller's fault,
    /// everything else is an internal failure.
    pub fn status_code(&self) -> (r: u16)
        ensures
            r == self.spec_status_code(),
    {
        match self {
            SubscribeError::ValidationError(_) => 400,
            SubscribeError::DatabaseError(_) => 500,
            SubscribeError::StoreTokenError(_) => 500,
            SubscribeError::SendEmailError(_) => 500,
        }
    }
}

/// The text of the cause chain below the top-level message, one
/// `Caused by:` line per cause.
pub open spec fn causes_text(causes: Seq<Seq<char>>) -> Seq<char>
    decreases causes.len(),
{
    if causes.len() == 0 {
        Seq::empty()
    } else {
        "Caused by: \n\t"@ + causes.first() + "\n"@ + causes_text(causes.drop_first())
    }
}

/// The full operator-facing rendering of an error: its message, a blank
/// line, then each cause on a `Caused by:` line of its own.
pub open spec fn error_chain_text(e: &SubscribeError) -> Seq<char> {
    e.spec_message() + "\n\n"@ + causes_text(e.spec_cause_chain())
}

/// Appends one `Caused by:` line.
fn append_cause(out: &mut String, cause: &str)
    ensures
        final(out)@ == old(out)@ + "Caused by: \n\t"@ + cause@ + "\n"@,
{
    out.append("Caused by: \n\t");
    out.append(cause);
    out.append("\n");
}

/// Renders an error with its full cause chain, for the operator-facing log.
pub fn error_chain_fmt(e: &SubscribeError) -> (r: String)
    ensures
        r@ == error_chain_text(e),
{
    let mut out = e.message();
    out.append("\n\n");
    match e {
        SubscribeError::ValidationError(_) => {
            proof {
                assert(e.spec_cause_chain() =~= Seq::<Seq<char>>::empty());
                assert(causes_text(e.spec_cause_chain()) =~= Seq::<char>::empty());
                assert(out@ =~= error_chain_text(e));
            }
        },
        SubscribeError::DatabaseError(se) => {
            append_cause(&mut out, se.message());
            proof {
                let chain = e.spec_cause_chain();
                assert(chain.first() == se.spec_message());
                assert(chain.drop_first() =~= Seq::<Seq<char>>::empty());
                assert(causes_text(Seq::<Seq<char>>::empty()) =~= Seq::<char>::empty());
                assert(causes_text(chain) =~= "Caused by: \n\t"@ + se.spec_message() + "\n"@);
                assert(out@ =~= error_chain_text(e));
            }
        },
        SubscribeError::StoreTokenError(st) => {
            append_cause(&mut out, st.message());
            append_cause(&mut out, st.0.message());
            proof {
                let chain = e.spec_cause_chain();
                let rest = chain.drop_first();
                assert(chain.first() == st.spec_message());
                assert(rest =~= seq![st.0.spec_message()]);
                assert(rest.first() == st.0.spec_message());
                assert(rest.drop_first() =~= Seq::<Seq<char>>::empty());
                assert(causes_text(Seq::<Seq<char>>::empty()) =~= Seq::<char>::empty());
                assert(causes_text(rest) =~= "Caused by: \n\t"@ + st.0.spec_message() + "\n"@);
                assert(causes_text(chain) =~= "Caused by: \n\t"@ + st.spec_message() + "\n"@
                    + causes_text(rest));
                assert(out@ =~= error_chain_text(e));
            }
        },
        SubscribeError::SendEmailError(me) => {
            append_cause(&mut out, me.message.as_str());
            proof {
                let chain = e.spec_cause_chain();
                assert(chain.first() == me.message@);
                assert(chain.drop_first() =~= Seq::<Seq<char>>::empty());
                assert(causes_text(Seq::<Seq<char>>::empty()) =~= Seq::<char>::empty());
                assert(causes_text(chain) =~= "Caused by: \n\t"@ + me.message@ + "\n"@);
                assert(out@ =~= error_chain_text(e));
            }
        },
    }
    out
}

/// The two-part confirmation email handed to the mail gateway.
pub struct ConfirmationEmail {
    pub recipient: String,
    pub subject: String,
    pub html_body: String,
    pub text_body: String,
}

/// Mathematical image of a [`ConfirmationEmail`].
#[verifier::ext_equal]
pub struct ConfirmationEmailView {
    pub recipient: Seq<char>,
    pub subject: Seq<char>,
    pub html_body: Seq<char>,
    pub text_body: Seq<char>,
}

impl View for ConfirmationEmail {
    type V = ConfirmationEmailView;

    open spec fn view(&self) -> ConfirmationEmailView {
        ConfirmationEmailView {
            recipient: self.recipient@,
            subject: self.subject@,
            html_body: self.html_body@,
            text_body: self.text_body@,
        }
    }
}

/// The confirmation link embedded in the email body.
pub open spec fn confirmation_link_spec(base_url: Seq<char>, token: Seq<char>) -> Seq<char> {
    base_url + "/subscriptions/confirm?subscription_token="@ + token
}

/// Exactly what the confirmation email says, as a function of recipient,
/// base URL and token.  The text body ends with the confirmation link.
pub open spec fn confirmation_email_view(
    recipient: Seq<char>,
    base_url: Seq<char>,
    token: Seq<char>,
) -> ConfirmationEmailView {
    ConfirmationEmailView {
        recipient,
        subject: "Welcome!"@,
        html_body: "<h1>Welcome to our newsletter!</h1><p>Click <a href=\""@
            + confirmation_link_spec(base_url, token)
            + "\">here</a> to confirm your subscription.</p>"@,
        text_body: "Welcome to our newsletter! Visit the link below to confirm your subscription:\n"@
            + confirmation_link_spec(base_url, token),
    }
}

/// Builds the confirmation link for a token.
pub fn confirmation_link(base_url: &str, token: &str) -> (r: String)
    ensures
        r@ == confirmation_link_spec(base_url@, token@),
{
    let mut out = String::from_str(base_url);
    out.append("/subscriptions/confirm?subscription_token=");
    out.append(token);
    out
}

/// Builds the two-part confirmation email for a freshly minted token.
pub fn confirmation_email(recipient: &SubscriberEmail, base_url: &str, token: &str) -> (r:
    ConfirmationEmail)
    ensures
        r@ == confirmation_email_view(recipient@, base_url@, token@),
{
    let link = confirmation_link(base_url, token);
    let mut html = String::from_str("<h1>Welcome to our newsletter!</h1><p>Click <a href=\"");
    html.append(link.as_str());
    html.append("\">here</a> to confirm your subscription.</p>");
    let mut text = String::from_str(
        "Welcome to our newsletter! Visit the link below to confirm your subscription:\n",
    );
    text.append(link.as_str());
    ConfirmationEmail {
        recipient: recipient.as_ref().to_owned(),
        subject: String::from_str("Welcome!"),
        html_body: html,
        text_body: text,
    }
}

/// How one subscription request ends, seen from the store.
#[derive(Clone, Copy, PartialEq, Eq, Debug, Structural)]
pub enum SubscribeDecision {
    Accepted,
    RejectedInvalidInput,
    RejectedConstraint,
}

/// The subscription workflow as one transition on the store: given the drawn
/// id, timestamp and token, it either appends exactly one pending subscriber
/// row and one token row referencing it, or leaves the store untouched.
pub open spec fn subscribe_transition(
    s: StoreView,
    email: Seq<char>,
    name: Seq<char>,
    id: u128,
    subscribed_at: i64,
    token: Seq<char>,
) -> (StoreView, SubscribeDecision) {
    if !(valid_subscriber_name(name) && valid_subscriber_email(email)) {
        (s, SubscribeDecision::RejectedInvalidInput)
    } else if email_taken(s, email) || id_taken(s, id) || token_taken(s, token) {
        (s, SubscribeDecision::RejectedConstraint)
    } else {
        (
            StoreView {
                subscribers: s.subscribers.push(pending_record(id, email, name, subscribed_at)),
                tokens: s.tokens.push(TokenRecordView { token, subscriber_id: id }),
            },
            SubscribeDecision::Accepted,
        )
    }
}

/// The subscription workflow with the drawn id, timestamp and token handed
/// in: validate, then stage subscriber and token inside one transaction and
/// commit.  The store moves exactly as [`subscribe_transition`] says; in
/// particular any failure leaves it untouched.
pub fn subscribe_with(
    store: &mut Store,
    form: FormData,
    id: u128,
    subscribed_at: i64,
    token: &str,
    base_url: &str,
) -> (r: Result<ConfirmationEmail, SubscribeError>)
    requires
        old(store)@.wf(),
    ensures
        final(store)@.wf(),
        final(store)@ == subscribe_transition(
            old(store)@,
            form.email@,
            form.name@,
            id,
            subscribed_at,
            token@,
        ).0,
        ({
            let d = subscribe_transition(
                old(store)@,
                form.email@,
                form.name@,
                id,
                subscribed_at,
                token@,
            ).1;
            &&& (r is Ok <==> d is Accepted)
            &&& (d is Accepted ==> (r matches Ok(em) && em@ == confirmation_email_view(
                form.email@,
                base_url@,
                token@,
            )))
            &&& (d is RejectedInvalidInput ==> (r matches Err(e)
                && e matches SubscribeError::ValidationError(m) && (if !valid_subscriber_name(
                form.name@,
            ) {
                m@ == "not a valid subscriber name"@
            } else {
                m@ == "not a valid subscriber email"@
            })))
            &&& (d is RejectedConstraint ==> (r matches Err(e)
                && e matches SubscribeError::StoreTokenError(st) && st.0
                is ConstraintViolation))
        }),
        r is Err ==> final(store)@ == old(store)@,
{
    let new_subscriber = match NewSubscriber::try_from(form) {
        Ok(ns) => ns,
        Err(m) => {
            return Err(SubscribeError::ValidationError(m));
        },
    };
    let mut txn = store.begin_transaction();
    let subscriber_id = match store.insert_subscriber_with(
        &mut txn,
        &new_subscriber,
        id,
        subscribed_at,
    ) {
        Ok(sid) => sid,
        Err(se) => {
            return Err(SubscribeError::StoreTokenError(StoreTokenError(se)));
        },
    };
    proof {
        let before = committed(store@, txn@);
        assert(before.tokens =~= old(store)@.tokens);
        assert(before.subscribers[old(store)@.subscribers.len() as int].id == id);
        assert(id_taken(before, id));
    }
    match store.store_token(&mut txn, subscriber_id, token) {
        Ok(_) => {},
        Err(se) => {
            return Err(SubscribeError::StoreTokenError(StoreTokenError(se)));
        },
    }
    store.commit(txn);
    proof {
        let target = subscribe_transition(
            old(store)@,
            new_subscriber.email@,
            new_subscriber.name@,
            id,
            subscribed_at,
            token@,
        ).0;
        assert(store@.subscribers =~= target.subscribers);
        assert(store@.tokens =~= target.tokens);
        assert(store@ =~= target);
    }
    Ok(confirmation_email(&new_subscriber.email, base_url, token))
}

/// The subscription workflow as the request handler runs it: draws a fresh
/// id, the current time and a random token, then persists through
/// [`subscribe_with`].  Success appends exactly one pending subscriber row
/// and one token row referencing it, and yields the confirmation email built
/// around the minted token.  A constraint failure needs an existing row for
/// a draw to collide with, so on an empty store a valid form is owed
/// success.
pub fn subscribe(store: &mut Store, form: FormData, base_url: &str) -> (r: Result<
    ConfirmationEmail,
    SubscribeError,
>)
    requires
        old(store)@.wf(),
    ensures
        final(store)@.wf(),
        r is Err ==> final(store)@ == old(store)@,
        (r matches Err(e) && e is ValidationError) <==> !(valid_subscriber_name(form.name@)
            && valid_subscriber_email(form.email@)),
        (valid_subscriber_name(form.name@) && valid_subscriber_email(form.email@) && email_taken(
            old(store)@,
            form.email@,
        )) ==> (r matches Err(e) && e matches SubscribeError::StoreTokenError(st) && st.0
            is ConstraintViolation),
        r matches Err(e) ==> (e is ValidationError || (e matches SubscribeError::StoreTokenError(
            st,
        ) && st.0 is ConstraintViolation)),
        (valid_subscriber_name(form.name@) && valid_subscriber_email(form.email@) && old(
            store,
        )@.subscribers.len() == 0 && old(store)@.tokens.len() == 0) ==> r is Ok,
        (r matches Err(e) && e is StoreTokenError) ==> (email_taken(old(store)@, form.email@)
            || old(store)@.subscribers.len() > 0 || old(store)@.tokens.len() > 0),
        r matches Ok(em) ==> ({
            let sub = final(store)@.subscribers.last();
            let tok = final(store)@.tokens.last();
            &&& valid_subscriber_name(form.name@) && valid_subscriber_email(form.email@)
            &&& !email_taken(old(store)@, form.email@)
            &&& final(store)@.subscribers == old(store)@.subscribers.push(sub)
            &&& final(store)@.tokens == old(store)@.tokens.push(tok)
            &&& sub.email == form.email@ && sub.name == form.name@
            &&& sub.status is PendingConfirmation
            &&& tok.subscriber_id == sub.id
            &&& valid_token(tok.token)
            &&& em@ == confirmation_email_view(form.email@, base_url@, tok.token)
        }),
{
    let id = crate::store::generate_subscriber_id();
    let subscribed_at = crate::store::current_timestamp_millis();
    let token = generate_subscription_token();
    subscribe_with(store, form, id, subscribed_at, token.as_str(), base_url)
}

/// Final step of the workflow: folds the mail gateway's outcome into the
/// caller-facing result.  The subscriber is durably persisted by now; a mail
/// failure is surfaced but never rolls the committed transaction back.
pub fn complete_subscription(send_result: Result<(), MailError>) -> (r: Result<
    (),
    SubscribeError,
>)
    ensures
        r is Ok <==> send_result is Ok,
        send_result matches Err(m) ==> r matches Err(e) && e matches SubscribeError::SendEmailError(
            me,
        ) && me.message@ == m.message@,
{
    match send_result {
        Ok(_) => Ok(()),
        Err(m) => Err(SubscribeError::SendEmailError(m)),
    }
}

/// The status the caller sees for a finished subscription request: `200` on
/// success, else the error's own status.
pub fn subscribe_response_status(r: &Result<(), SubscribeError>) -> (s: u16)
    ensures
        *r is Ok ==> s == 200,
        *r matches Err(e) ==> s == e.spec_status_code(),
{
    match r {
        Ok(_) => 200,
        Err(e) => e.status_code(),
    }
}

} // verus!
