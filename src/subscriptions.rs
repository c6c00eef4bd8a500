//! The subscription endpoint's decisions: what a submitted form leads to, the
//! row that is stored for it, and the replies sent back.

use crate::domain::{message_of, NewSubscriber, ValidationError};
use crate::validation::{form_check, is_blank, is_valid_email, is_valid_name_spec, validate_form_data};
use vstd::prelude::*;

verus! {

/// The fields of a subscription request, as submitted.
#[derive(Debug)]
pub struct FormData {
    pub name: String,
    pub email: String,
}

/// A moment in UTC: whole seconds since the Unix epoch and the nanoseconds
/// past that second.
#[derive(Clone, Copy, Debug, PartialEq, Eq, Structural)]
pub struct Timestamp {
    pub secs: i64,
    pub nanos: u32,
}

/// A row of the subscriptions table, as it is stored.
#[derive(Debug)]
pub struct SubscriptionRow {
    pub id: u128,
    pub email: String,
    pub name: String,
    pub subscribed_at: Timestamp,
}

/// The values of a stored row.
pub struct StoredRow {
    pub id: u128,
    pub email: Seq<char>,
    pub name: Seq<char>,
    pub subscribed_at: Timestamp,
}

impl View for SubscriptionRow {
    type V = StoredRow;

    open spec fn view(&self) -> StoredRow {
        StoredRow {
            id: self.id,
            email: self.email@,
            name: self.name@,
            subscribed_at: self.subscribed_at,
        }
    }
}

/// The row stored for a subscriber `name` and `email`, with identifier `id`
/// and time `at`.
pub open spec fn row_of(name: Seq<char>, email: Seq<char>, id: u128, at: Timestamp) -> StoredRow {
    StoredRow { id, email, name, subscribed_at: at }
}

/// `id`, read as a big-endian 128-bit number, is a version 4 (random) UUID:
/// version field 4 and the RFC 4122 variant.
pub open spec fn is_uuid_v4(id: u128) -> bool {
    &&& (id >> 76u128) & 0xfu128 == 4
    &&& (id >> 62u128) & 0x3u128 == 2
}

/// Relies on `uuid::Uuid::new_v4` and `Uuid::as_u128`: a random identifier
/// whose version bits read 4 and whose variant bits read `10`.
#[verifier::external_body]
fn new_uuid_v4() -> (r: u128)
    ensures
        is_uuid_v4(r),
{
    uuid::Uuid::new_v4().as_u128()
}

/// Relies on `DateTime::<Utc>::from(SystemTime)`, read back through
/// `timestamp` and `timestamp_subsec_nanos`: the system clock's time since
/// the Unix epoch, negative seconds for a clock set before it, with the
/// nanoseconds always below one second.
#[verifier::external_body]
fn utc_now() -> (r: Timestamp)
    ensures
        r.nanos < 1_000_000_000,
{
    let now = chrono::DateTime::<chrono::Utc>::from(std::time::SystemTime::now());
    Timestamp { secs: now.timestamp(), nanos: now.timestamp_subsec_nanos() }
}

/// The row that stores `subscriber` under identifier `id` at time `at`.
pub fn subscription_row(subscriber: &NewSubscriber, id: u128, at: Timestamp) -> (row:
    SubscriptionRow)
    ensures
        row@ == row_of(subscriber.name@, subscriber.email@, id, at),
{
    SubscriptionRow {
        id,
        email: String::from_str(subscriber.email.as_ref()),
        name: String::from_str(subscriber.name.as_ref()),
        subscribed_at: at,
    }
}

/// The row that stores `subscriber`, under a fresh random identifier and the
/// current time.
pub fn new_subscription_row(subscriber: &NewSubscriber) -> (row: SubscriptionRow)
    ensures
        row@ == row_of(subscriber.name@, subscriber.email@, row.id, row.subscribed_at),
        is_uuid_v4(row.id),
        row.subscribed_at.nanos < 1_000_000_000,
{
    let id = new_uuid_v4();
    let at = utc_now();
    subscription_row(subscriber, id, at)
}

/// A reply to an HTTP request: its status code and its body.
#[derive(Debug)]
pub struct HttpReply {
    pub status: u16,
    pub body: String,
}

/// The body of the reply to a subscription that was stored.
pub open spec fn stored_message(row: StoredRow) -> Seq<char> {
    "Received subscription: name="@ + row.name + ", email="@ + row.email
}

/// The body of the reply to a subscription that could not be stored.
pub open spec fn internal_error_message() -> Seq<char> {
    "Internal Server Error"@
}

/// What the endpoint does with a submitted form: refuse it with a reply, or
/// store a row.
#[derive(Debug)]
pub enum SubscribeStep {
    Reject(HttpReply),
    Store(SubscriptionRow),
}

/// The reply `400 Bad Request` for a refused form, naming the broken rule.
pub fn rejection(error: ValidationError) -> (r: HttpReply)
    ensures
        r.status == 400,
        r.body@ == message_of(error),
{
    HttpReply { status: 400, body: error.message() }
}

/// Decides what a submitted form leads to: a `400` reply naming the first
/// broken rule, with nothing stored; or the row to store, which holds the
/// submitted name and email unchanged under a fresh identifier.
pub fn subscribe(data: FormData) -> (step: SubscribeStep)
    ensures
        match form_check(data.name@, data.email@) {
            Some(e) => step matches SubscribeStep::Reject(reply) && reply.status == 400
                && reply.body@ == message_of(e),
            None => step matches SubscribeStep::Store(row) && row@ == row_of(
                data.name@,
                data.email@,
                row.id,
                row.subscribed_at,
            ) && is_uuid_v4(row.id),
        },
{
    match validate_form_data(data) {
        Ok(subscriber) => SubscribeStep::Store(new_subscription_row(&subscriber)),
        Err(e) => SubscribeStep::Reject(rejection(e)),
    }
}

/// The reply once the store has answered for `row`: `200` echoing the stored
/// values when `stored`, else `500` with a generic message.
pub fn insert_outcome(row: &SubscriptionRow, stored: bool) -> (r: HttpReply)
    ensures
        stored ==> r.status == 200 && r.body@ == stored_message(row@),
        !stored ==> r.status == 500 && r.body@ == internal_error_message(),
{
    if stored {
        let mut body = String::from_str("Received subscription: name=");
        body.append(row.name.as_str());
        body.append(", email=");
        body.append(row.email.as_str());
        HttpReply { status: 200, body }
    } else {
        HttpReply { status: 500, body: String::from_str("Internal Server Error") }
    }
}

/// The reply to a health check: `200` with an empty body, whatever the state.
pub fn health_check() -> (r: HttpReply)
    ensures
        r.status == 200,
        r.body@.len() == 0,
{
    HttpReply { status: 200, body: String::new() }
}

/// A submission that passes validation is stored with the submitted name and
/// email unchanged, whatever identifier and time the row gets; so a stored
/// name and email always meet their rules.
pub proof fn lemma_stored_row_keeps_input(
    name: Seq<char>,
    email: Seq<char>,
    id: u128,
    at: Timestamp,
)
    requires
        form_check(name, email) is None,
    ensures
        row_of(name, email, id, at).name == name,
        row_of(name, email, id, at).email == email,
        is_valid_name_spec(row_of(name, email, id, at).name),
        is_valid_email(row_of(name, email, id, at).email),
{
}

/// A submission with a valid name and a non-empty address that does not read
/// `local@domain.tld` is refused with `400` as an invalid email, and nothing
/// is stored.
pub proof fn lemma_invalid_email_rejected(name: Seq<char>, email: Seq<char>)
    requires
        is_valid_name_spec(name),
        email.len() > 0,
        !is_valid_email(email),
    ensures
        form_check(name, email) == Some(ValidationError::InvalidEmail),
        message_of(ValidationError::InvalidEmail) == "has an invalid email"@,
{
    assert(name.len() > 0) by {
        assert(!is_blank(name));
    }
}

} // verus!
