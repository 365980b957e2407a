//! The two handlers: the liveness probe and the subscription endpoint.
//!
//! Storing a subscriber is work for the caller: the library builds the row
//! to store, and turns the outcome of the write into a response.
use vstd::prelude::*;
use crate::form::FormData;
use crate::http::{Response, STATUS_INTERNAL_SERVER_ERROR, STATUS_OK};

verus! {

/// True of a 128-bit identifier laid out as a random (version 4, RFC 4122
/// variant) UUID: version nibble 4, variant bits `10`.
pub open spec fn is_random_uuid(id: u128) -> bool {
    (id >> 76u128) & 0xfu128 == 4u128 && (id >> 62u128) & 3u128 == 2u128
}

/// Relies on `uuid::Uuid::new_v4`, which masks random bits into a version 4
/// UUID, and on `Uuid::as_u128`, which reads its sixteen bytes big-endian.
#[verifier::external_body]
fn new_subscriber_id() -> (r: u128)
    ensures
        is_random_uuid(r),
{
    uuid::Uuid::new_v4().as_u128()
}

/// A subscription as it is stored: a fresh identifier, the email address and
/// the name.
#[derive(Debug)]
pub struct NewSubscriber {
    pub id: u128,
    pub email: String,
    pub name: String,
}

/// Why a subscriber could not be stored.
#[derive(Debug)]
pub struct StoreError {
    pub message: String,
}

/// The answer of the liveness probe: success, with an empty body.
pub open spec fn is_empty_response(r: Response, status: u16) -> bool {
    r.status == status && r.body@.len() == 0
}

/// The liveness probe: always succeeds, with an empty body.
pub fn health_check() -> (r: Response)
    ensures
        is_empty_response(r, STATUS_OK),
{
    Response::empty(STATUS_OK)
}

/// The row that stores the subscriber of a form, under a fresh random
/// identifier.
pub fn new_subscriber(form: &FormData) -> (r: NewSubscriber)
    ensures
        r.email@ == form@.email,
        r.name@ == form@.name,
        is_random_uuid(r.id),
{
    NewSubscriber { id: new_subscriber_id(), email: form.email.clone(), name: form.name.clone() }
}

/// The response to a subscription, from the outcome of storing it: success
/// when it was stored, a server error when it was not.
pub fn subscribe(stored: &Result<(), StoreError>) -> (r: Response)
    ensures
        stored is Ok ==> is_empty_response(r, STATUS_OK),
        stored is Err ==> is_empty_response(r, STATUS_INTERNAL_SERVER_ERROR),
{
    match stored {
        Ok(()) => Response::empty(STATUS_OK),
        Err(_) => Response::empty(STATUS_INTERNAL_SERVER_ERROR),
    }
}

} // verus!
