//! The subscription endpoint: from a submitted form to the record to store,
//! and from the fate of that record to the response.
//!
//! Nothing here touches the network or the database. The caller hands in the
//! form that it read, stores the record that comes back, and reports how
//! storing went; the functions of this module decide the rest.

use super::form::{FormData, FormError};
use crate::domain::error::ValidationError;
use crate::domain::new_subscriber::NewSubscriber;
use crate::domain::subscriber_email::{is_valid_email, SubscriberEmail};
use crate::domain::subscriber_name::{is_valid_name, name_defect, SubscriberName};
use vstd::prelude::*;

verus! {

/// A point in time: whole seconds since the start of 1970 in UTC, and the
/// nanoseconds since the last whole second.
#[derive(Clone, Copy, Debug, PartialEq, Eq, Structural)]
pub struct Timestamp {
    pub secs: i64,
    pub nanos: u32,
}

/// The three responses of the endpoint. None carries a body.
#[derive(Clone, Copy, Debug, PartialEq, Eq, Structural)]
pub enum Outcome {
    /// The subscriber was stored.
    Success,
    /// The request was refused; nothing was stored.
    ClientError,
    /// Storing failed.
    ServerError,
}

/// Why a request did not end in a stored subscriber.
#[derive(Clone, Copy, Debug, PartialEq, Eq, Structural)]
pub enum SubscribeError {
    /// The body does not hold the two fields, each once.
    Form(FormError),
    /// A field is not a valid domain value.
    Validation(ValidationError),
    /// The store refused or failed. What it reported stays with the caller.
    Storage,
}

/// The variant and version bits of an identifier.
pub const UUID_MARK_MASK: u128 = 0x0000_0000_0000_F000_C000_0000_0000_0000;

/// The variant and version bits of a random (version 4) identifier.
pub const UUID_RANDOM_MARK: u128 = 0x0000_0000_0000_4000_8000_0000_0000_0000;

/// `id` is marked as a random (version 4, RFC 9562) identifier.
pub open spec fn is_random_uuid(id: u128) -> bool {
    id & UUID_MARK_MASK == UUID_RANDOM_MARK
}

/// The nanoseconds of `t` stay below a second. The seconds may be negative:
/// they count back from the start of 1970 then.
pub open spec fn is_plain_time(t: Timestamp) -> bool {
    t.nanos < 1_000_000_000
}

/// The first rule that a form's fields break, or `None` when both are
/// valid. The email address is judged before the name.
pub open spec fn form_defect(email: Seq<char>, name: Seq<char>) -> Option<ValidationError> {
    if !is_valid_email(email) {
        Some(ValidationError::MalformedEmail)
    } else {
        name_defect(name)
    }
}

/// What a record holds.
pub struct RecordView {
    pub id: u128,
    pub email: Seq<char>,
    pub name: Seq<char>,
    pub subscribed_at: Timestamp,
}

/// What the fields of a form lead to under the identifier `id` at the time
/// `now`: the record to store when both fields are valid, else the first rule
/// that they break.
pub open spec fn record_for(email: Seq<char>, name: Seq<char>, id: u128, now: Timestamp) -> Result<
    RecordView,
    ValidationError,
> {
    match form_defect(email, name) {
        Some(e) => Err(e),
        None => Ok(RecordView { id, email, name, subscribed_at: now }),
    }
}

/// Nothing is deduplicated. A valid form leads to a record every time it is
/// submitted: under two identifiers it leads to two records, which differ
/// from each other and hold the same email address and the same name.
pub proof fn lemma_same_form_twice(
    email: Seq<char>,
    name: Seq<char>,
    first_id: u128,
    first_time: Timestamp,
    second_id: u128,
    second_time: Timestamp,
)
    requires
        is_valid_email(email),
        is_valid_name(name),
        first_id != second_id,
    ensures
        record_for(email, name, first_id, first_time) matches Ok(first) && record_for(
            email,
            name,
            second_id,
            second_time,
        ) matches Ok(second) && first != second && first.email == email && second.email == email
            && first.name == name && second.name == name,
{
}

/// A form with an invalid field leads to no record, whatever the identifier
/// and the time.
pub proof fn lemma_invalid_form_yields_no_record(
    email: Seq<char>,
    name: Seq<char>,
    id: u128,
    now: Timestamp,
)
    requires
        !is_valid_email(email) || !is_valid_name(name),
    ensures
        record_for(email, name, id, now) is Err,
{
}

/// A subscriber as it is handed to the store.
///
/// A record can only be made from a [`NewSubscriber`], so its email address
/// and its name are valid.
#[derive(Debug)]
pub struct SubscriptionRecord {
    id: u128,
    email: String,
    name: String,
    subscribed_at: Timestamp,
}

impl View for SubscriptionRecord {
    type V = RecordView;

    closed spec fn view(&self) -> RecordView {
        RecordView {
            id: self.id,
            email: self.email@,
            name: self.name@,
            subscribed_at: self.subscribed_at,
        }
    }
}

/// Draws a random identifier by `uuid::Uuid::new_v4` and hands it out as the
/// 128-bit number of `Uuid::as_u128`.
///
/// Not verified: it is taken on trust that, whatever is drawn, the version
/// and variant bits are those of a random identifier. Nothing is claimed of
/// the other bits: two calls may or may not differ.
#[verifier::external_body]
fn fresh_record_id() -> (id: u128)
    ensures
        is_random_uuid(id),
{
    uuid::Uuid::new_v4().as_u128()
}

/// Reads the system clock by `std::time::SystemTime::now`, has chrono turn
/// the reading into a `DateTime<Utc>` (its `From<SystemTime>`), and hands the
/// moment out as the seconds of `DateTime::timestamp` and the nanoseconds of
/// `DateTime::timestamp_subsec_nanos`.
///
/// Not verified: it is taken on trust that the nanoseconds stay below a
/// second, which holds of a reading before 1970 as of one after it. Nothing
/// is claimed of the seconds. The conversion gives up only on a reading that
/// chrono cannot hold, more than about 262,000 years away from year 0; no
/// system clock counts that far.
#[verifier::external_body]
fn current_time() -> (now: Timestamp)
    ensures
        is_plain_time(now),
{
    let now = chrono::DateTime::<chrono::Utc>::from(std::time::SystemTime::now());
    Timestamp { secs: now.timestamp(), nanos: now.timestamp_subsec_nanos() }
}

impl SubscriptionRecord {
    #[verifier::type_invariant]
    spec fn well_formed(self) -> bool {
        is_valid_email(self.email@) && is_valid_name(self.name@)
    }

    /// The record of `subscriber` under `id`, subscribed at `subscribed_at`.
    pub fn new(subscriber: NewSubscriber, id: u128, subscribed_at: Timestamp) -> (record:
        SubscriptionRecord)
        ensures
            record@ == (RecordView {
                id,
                email: subscriber.email@,
                name: subscriber.name@,
                subscribed_at,
            }),
            is_valid_email(record@.email),
            is_valid_name(record@.name),
    {
        let email = String::from_str(subscriber.email.as_ref());
        let name = String::from_str(subscriber.name.as_ref());
        SubscriptionRecord { id, email, name, subscribed_at }
    }

    /// The record's identifier.
    pub fn id(&self) -> (id: u128)
        ensures
            id == self@.id,
    {
        self.id
    }

    /// The email address, which is valid.
    pub fn email(&self) -> (email: &str)
        ensures
            email@ == self@.email,
            is_valid_email(self@.email),
    {
        proof {
            use_type_invariant(self);
        }
        self.email.as_str()
    }

    /// The name, which is valid.
    pub fn name(&self) -> (name: &str)
        ensures
            name@ == self@.name,
            is_valid_name(self@.name),
    {
        proof {
            use_type_invariant(self);
        }
        self.name.as_str()
    }

    /// When the subscriber subscribed.
    pub fn subscribed_at(&self) -> (at: Timestamp)
        ensures
            at == self@.subscribed_at,
    {
        self.subscribed_at
    }
}

/// Validates both fields of a form. Either both are valid or the form is
/// refused as a whole, with the defect of the email address reported first.
pub fn parse_subscriber(form: FormData) -> (r: Result<NewSubscriber, ValidationError>)
    ensures
        match r {
            Ok(subscriber) => form_defect(form.email@, form.name@) is None && subscriber.email@
                == form.email@ && subscriber.name@ == form.name@,
            Err(e) => form_defect(form.email@, form.name@) == Some(e),
        },
{
    let FormData { email, name } = form;
    let email = match SubscriberEmail::parse(email) {
        Ok(email) => email,
        Err(e) => {
            return Err(e);
        },
    };
    let name = match SubscriberName::parse(name) {
        Ok(name) => name,
        Err(e) => {
            return Err(e);
        },
    };
    Ok(NewSubscriber { email, name })
}

/// What a form leads to when `id` is the identifier at hand and `now` the
/// time: the record to store, or the rule that the form breaks. A refused
/// form yields no record, so nothing of it can reach the store.
pub fn subscribe_with(form: FormData, id: u128, now: Timestamp) -> (r: Result<
    SubscriptionRecord,
    ValidationError,
>)
    ensures
        match r {
            Ok(record) => record_for(form.email@, form.name@, id, now) == Ok::<
                RecordView,
                ValidationError,
            >(record@),
            Err(e) => record_for(form.email@, form.name@, id, now) == Err::<
                RecordView,
                ValidationError,
            >(e),
        },
{
    match parse_subscriber(form) {
        Ok(subscriber) => Ok(SubscriptionRecord::new(subscriber, id, now)),
        Err(e) => Err(e),
    }
}

/// What a form leads to: the record to store, under a fresh random
/// identifier and the current time, or the rule that the form breaks.
///
/// The form is validated first. Only for a valid form is an identifier drawn
/// and the clock read; a refused form touches neither.
///
/// Earlier requests play no part: a form that was accepted before is
/// accepted again, under another identifier.
pub fn subscribe(form: FormData) -> (r: Result<SubscriptionRecord, ValidationError>)
    ensures
        match r {
            Ok(record) => {
                &&& form_defect(form.email@, form.name@) is None
                &&& record@.email == form.email@
                &&& record@.name == form.name@
                &&& is_random_uuid(record@.id)
                &&& is_plain_time(record@.subscribed_at)
            },
            Err(e) => form_defect(form.email@, form.name@) == Some(e),
        },
{
    match parse_subscriber(form) {
        Ok(subscriber) => {
            let id = fresh_record_id();
            let now = current_time();
            Ok(SubscriptionRecord::new(subscriber, id, now))
        },
        Err(e) => Err(e),
    }
}

/// The response that each end of a request gets.
pub open spec fn outcome_of(result: Result<(), SubscribeError>) -> Outcome {
    match result {
        Ok(()) => Outcome::Success,
        Err(SubscribeError::Form(_)) => Outcome::ClientError,
        Err(SubscribeError::Validation(_)) => Outcome::ClientError,
        Err(SubscribeError::Storage) => Outcome::ServerError,
    }
}

/// The response to a request that ended as `result` says: success when the
/// subscriber was stored, a client error when the request was refused, a
/// server error when storing failed.
pub fn respond(result: Result<(), SubscribeError>) -> (outcome: Outcome)
    ensures
        outcome == outcome_of(result),
{
    match result {
        Ok(()) => Outcome::Success,
        Err(SubscribeError::Form(_)) => Outcome::ClientError,
        Err(SubscribeError::Validation(_)) => Outcome::ClientError,
        Err(SubscribeError::Storage) => Outcome::ServerError,
    }
}

impl Outcome {
    /// The HTTP status code of the response.
    pub open spec fn spec_status_code(self) -> u16 {
        match self {
            Outcome::Success => 200,
            Outcome::ClientError => 400,
            Outcome::ServerError => 500,
        }
    }

    /// The HTTP status code of the response.
    #[verifier::when_used_as_spec(spec_status_code)]
    pub fn status_code(self) -> (code: u16)
        ensures
            code == self.spec_status_code(),
    {
        match self {
            Outcome::Success => 200,
            Outcome::ClientError => 400,
            Outcome::ServerError => 500,
        }
    }
}

} // verus!
