//! A subscriber that has passed validation and is yet to be stored.

use super::subscriber_email::SubscriberEmail;
use super::subscriber_name::SubscriberName;
use vstd::prelude::*;

verus! {

/// An email address and a name, both valid.
///
/// Nothing is checked here. Both fields can only be built by their own
/// `parse`, so a `NewSubscriber` cannot hold an invalid value.
#[derive(Debug)]
pub struct NewSubscriber {
    pub email: SubscriberEmail,
    pub name: SubscriberName,
}

} // verus!
