//! Verified core of a newsletter-subscription intake and confirmation service.
//!
//! A client submits a name/email pair; the service records a pending
//! subscriber together with a single-use confirmation token inside one
//! transaction, and hands back the confirmation email to dispatch.  Visiting
//! the confirmation link transitions the subscriber to the confirmed state.
//!
//! The store's transactional invariants (unique emails, tokens referencing
//! existing subscribers, atomic creation of subscriber and token), the two
//! workflows and the error taxonomy are stated as contracts and proved.

pub mod configuration;
pub mod domain;
pub mod laws;
pub mod store;
pub mod subscription_confirm;
pub mod subscriptions;
pub mod token;
