//! Validated subscriber values and the decisions of the subscription endpoint.
//!
//! The crate turns untrusted text into values that carry their own proof of
//! validity, and decides what one subscription request leads to. Network and
//! database work is left to the caller.

pub mod domain;
pub mod routes;
