//! What the endpoints decide.

pub mod form;
pub mod subscriptions;

pub use form::{Field, FormData, FormError};
pub use subscriptions::{
    parse_subscriber, respond, subscribe, subscribe_with, Outcome, SubscribeError, SubscriptionRecord,
    Timestamp,
};
