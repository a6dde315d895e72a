//! Domain types for subscriber input: a validated email address, a validated
//! display name, and the pair of both that the workflows consume.

use vstd::prelude::*;

verus! {

/// A display name is acceptable when it is not empty.
pub open spec fn valid_subscriber_name(s: Seq<char>) -> bool {
    s.len() > 0
}

/// An email address is acceptable when some `@` stands strictly inside it,
/// leaving a non-empty local part before it and a non-empty domain after it.
pub open spec fn valid_subscriber_email(s: Seq<char>) -> bool {
    exists|i: int| 0 < i < s.len() - 1 && s[i] == '@'
}

/// An email address that passed validation.
#[derive(Debug)]
pub struct SubscriberEmail {
    inner: String,
}

impl View for SubscriberEmail {
    type V = Seq<char>;

    closed spec fn view(&self) -> Seq<char> {
        self.inner@
    }
}

impl SubscriberEmail {
    /// Accepts exactly the strings in which some `@` stands strictly inside.
    pub fn parse(s: String) -> (r: Result<SubscriberEmail, String>)
        ensures
            r is Ok <==> valid_subscriber_email(s@),
            r is Ok ==> r->Ok_0@ == s@,
            r is Err ==> r->Err_0@ == "not a valid subscriber email"@,
    {
        let n = s.as_str().unicode_len();
        let mut i: usize = 0;
        let mut found: bool = false;
        while i < n
            invariant
                i <= n,
                n == s@.len(),
                found <==> exists|j: int| 0 < j < i && j < n - 1 && s@[j] == '@',
            decreases n - i,
        {
            let c = s.as_str().get_char(i);
            if i > 0 && i + 1 < n && c == '@' {
                found = true;
            }
            i += 1;
        }
        if found {
            Ok(SubscriberEmail { inner: s })
        } else {
            Err("not a valid subscriber email".to_owned())
        }
    }

    /// The underlying string, unchanged from what `parse` accepted.
    pub fn as_ref(&self) -> (r: &str)
        ensures
            r@ == self@,
    {
        self.inner.as_str()
    }
}

/// A display name that passed validation.
#[derive(Debug)]
pub struct SubscriberName {
    inner: String,
}

impl View for SubscriberName {
    type V = Seq<char>;

    closed spec fn view(&self) -> Seq<char> {
        self.inner@
    }
}

impl SubscriberName {
    /// Accepts exactly the non-empty strings.
    pub fn parse(s: String) -> (r: Result<SubscriberName, String>)
        ensures
            r is Ok <==> valid_subscriber_name(s@),
            r is Ok ==> r->Ok_0@ == s@,
            r is Err ==> r->Err_0@ == "not a valid subscriber name"@,
    {
        if s.as_str().is_empty() {
            Err("not a valid subscriber name".to_owned())
        } else {
            Ok(SubscriberName { inner: s })
        }
    }

    /// The underlying string, unchanged from what `parse` accepted.
    pub fn as_ref(&self) -> (r: &str)
        ensures
            r@ == self@,
    {
        self.inner.as_str()
    }
}

/// A validated name/email pair, ready for the subscription workflow.
#[derive(Debug)]
pub struct NewSubscriber {
    pub email: SubscriberEmail,
    pub name: SubscriberName,
}

} // verus!
