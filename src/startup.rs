//! The route table and the handling of one request.
//!
//! `handle` takes a request to the point where it is answered or where a
//! subscriber has to be stored; after the write, `subscribe` gives the
//! answer.
use vstd::prelude::*;
use crate::form::{
    email_key, form_of_body, form_pairs_of, has_key, incomplete_form_is_rejected, name_key, only_at,
    parse_form, single_fields_make_a_form,
};
use crate::http::{
    Method, Response, STATUS_BAD_REQUEST, STATUS_METHOD_NOT_ALLOWED, STATUS_NOT_FOUND, STATUS_OK,
};
use crate::subscriptions::{
    health_check, is_empty_response, is_random_uuid, new_subscriber, NewSubscriber,
};

verus! {

/// The handlers that requests are routed to.
#[derive(Clone, Copy, Debug, PartialEq, Eq, Structural)]
pub enum Endpoint {
    HealthCheck,
    Subscriptions,
}

/// Where a request goes: to a handler, or nowhere because its path is known
/// under another method, or nowhere at all.
#[derive(Clone, Copy, Debug, PartialEq, Eq, Structural)]
pub enum Routing {
    Found(Endpoint),
    MethodNotAllowed,
    NotFound,
}

pub open spec fn health_check_path() -> Seq<char> {
    "/health_check"@
}

pub open spec fn subscriptions_path() -> Seq<char> {
    "/subscriptions"@
}

/// The route table: `GET /health_check` and `POST /subscriptions`.
pub open spec fn route_of(method: Method, path: Seq<char>) -> Routing {
    if path == health_check_path() {
        if method == Method::Get {
            Routing::Found(Endpoint::HealthCheck)
        } else {
            Routing::MethodNotAllowed
        }
    } else if path == subscriptions_path() {
        if method == Method::Post {
            Routing::Found(Endpoint::Subscriptions)
        } else {
            Routing::MethodNotAllowed
        }
    } else {
        Routing::NotFound
    }
}

/// Looks a request up in the route table.
pub fn route(method: Method, path: &str) -> (r: Routing)
    ensures
        r == route_of(method, path@),
{
    let path = path.to_owned();
    if path == "/health_check".to_owned() {
        if method == Method::Get {
            Routing::Found(Endpoint::HealthCheck)
        } else {
            Routing::MethodNotAllowed
        }
    } else if path == "/subscriptions".to_owned() {
        if method == Method::Post {
            Routing::Found(Endpoint::Subscriptions)
        } else {
            Routing::MethodNotAllowed
        }
    } else {
        Routing::NotFound
    }
}

/// What follows from a request: an answer, or a subscriber to store.
#[derive(Debug)]
pub enum Step {
    Respond(Response),
    Store(NewSubscriber),
}

/// True when the step answers at once with the given status and an empty body.
pub open spec fn responds(step: Step, status: u16) -> bool {
    step matches Step::Respond(r) && is_empty_response(r, status)
}

/// The steps that may follow from a request. A subscription is stored under
/// an identifier drawn at random, so any random identifier may come.
pub open spec fn handled(method: Method, path: Seq<char>, body: Seq<u8>, step: Step) -> bool {
    match route_of(method, path) {
        Routing::NotFound => responds(step, STATUS_NOT_FOUND),
        Routing::MethodNotAllowed => responds(step, STATUS_METHOD_NOT_ALLOWED),
        Routing::Found(Endpoint::HealthCheck) => responds(step, STATUS_OK),
        Routing::Found(Endpoint::Subscriptions) => match form_of_body(body) {
            Err(_) => responds(step, STATUS_BAD_REQUEST),
            Ok(f) => body.len() > 0 && (step matches Step::Store(s) && s.email@ == f.email
                && s.name@ == f.name && is_random_uuid(s.id)),
        },
    }
}

/// Handles a request up to its answer, or up to the subscriber that it asks
/// to store.
pub fn handle(method: Method, path: &str, body: &[u8]) -> (r: Step)
    ensures
        handled(method, path@, body@, r),
{
    match route(method, path) {
        Routing::NotFound => Step::Respond(Response::empty(STATUS_NOT_FOUND)),
        Routing::MethodNotAllowed => Step::Respond(Response::empty(STATUS_METHOD_NOT_ALLOWED)),
        Routing::Found(Endpoint::HealthCheck) => Step::Respond(health_check()),
        Routing::Found(Endpoint::Subscriptions) => match parse_form(body) {
            Err(_) => Step::Respond(Response::empty(STATUS_BAD_REQUEST)),
            Ok(form) => Step::Store(new_subscriber(&form)),
        },
    }
}

/// The two routes have different paths.
proof fn lemma_paths_differ()
    ensures
        subscriptions_path() != health_check_path(),
{
    reveal_strlit("/health_check");
    reveal_strlit("/subscriptions");
    assert(subscriptions_path().len() != health_check_path().len());
}

/// A liveness probe is answered with success and an empty body, whatever the
/// request carries.
pub proof fn health_check_always_succeeds(body: Seq<u8>, step: Step)
    requires
        handled(Method::Get, health_check_path(), body, step),
    ensures
        responds(step, STATUS_OK),
{
}

/// A subscription whose body is empty, or lacks the email or the name, is
/// answered with a bad request and stores nothing.
pub proof fn incomplete_subscription_is_rejected(body: Seq<u8>, step: Step)
    requires
        handled(Method::Post, subscriptions_path(), body, step),
        body.len() == 0 || (form_pairs_of(body) matches Some(pairs) && (!has_key(
            pairs,
            email_key(),
        ) || !has_key(pairs, name_key()))),
    ensures
        responds(step, STATUS_BAD_REQUEST),
{
    lemma_paths_differ();
    if let Some(pairs) = form_pairs_of(body) {
        if body.len() > 0 {
            incomplete_form_is_rejected(pairs);
        }
    }
}

/// A subscription whose body carries the email and the name once each is
/// stored with exactly those values, under a random identifier.
pub proof fn complete_subscription_is_stored(
    body: Seq<u8>,
    step: Step,
    pairs: Seq<(Seq<char>, Seq<char>)>,
    i: int,
    j: int,
)
    requires
        handled(Method::Post, subscriptions_path(), body, step),
        form_pairs_of(body) == Some(pairs),
        only_at(pairs, email_key(), i),
        only_at(pairs, name_key(), j),
    ensures
        step matches Step::Store(s) && s.email@ == pairs[i].1 && s.name@ == pairs[j].1
            && is_random_uuid(s.id),
{
    lemma_paths_differ();
    single_fields_make_a_form(pairs, i, j);
}

} // verus!
