use zero2prod::form::{form_from_pairs, parse_form, FormError, FormField};
use zero2prod::http::{Method, Response};
use zero2prod::startup::{handle, route, Endpoint, Routing, Step};
use zero2prod::subscriptions::{health_check as probe, new_subscriber, subscribe, StoreError};

fn post_subscription(body: &str) -> Step {
    handle(Method::Post, "/subscriptions", body.as_bytes())
}

fn expect_response(step: Step) -> Response {
    match step {
        Step::Respond(r) => r,
        Step::Store(s) => panic!("expected an answer, got a subscriber to store: {:?}", s),
    }
}

#[test]
fn health_check() {
    let response = expect_response(handle(Method::Get, "/health_check", b""));

    assert!(response.is_success());
    assert_eq!(Some(0), Some(response.content_length()));
}

#[test]
fn subscribe_returns_a_200_for_valid_form_data() {
    let body = "name=le%20guin&email=ursula_le_guin%40gmail.com";
    let saved = match post_subscription(body) {
        Step::Store(s) => s,
        Step::Respond(r) => panic!("expected a subscriber to store, got status {}", r.status),
    };
    let response = subscribe(&Ok(()));

    assert_eq!(200, response.status);
    assert_eq!(saved.email, "ursula_le_guin@gmail.com");
    assert_eq!(saved.name, "le guin");
}

#[test]
fn subscribe_returns_a_400_when_missing_name() {
    let test_cases = vec![
        ("name=le%20guin", "missing the email"),
        ("email=ursula_le_guin%40gmail.com", "missing the name"),
        ("", "missing both name and email"),
    ];

    for (invalid_body, error_message) in test_cases {
        let response = expect_response(post_subscription(invalid_body));
        assert_eq!(
            400,
            response.status,
            "The API did not fail with 400 Bad Request when the payload was {}.",
            error_message
        );
    }
}

#[test]
fn health_check_ignores_the_body() {
    let response = expect_response(handle(Method::Get, "/health_check", b"name=x&email=y"));
    assert_eq!(200, response.status);
    assert!(response.body.is_empty());
}

#[test]
fn health_check_handler_answers_empty_success() {
    let response = probe();
    assert_eq!(200, response.status);
    assert_eq!(0, response.content_length());
}

#[test]
fn plus_in_a_value_decodes_to_a_space() {
    match post_subscription("name=le+guin&email=ursula_le_guin%40gmail.com") {
        Step::Store(s) => {
            assert_eq!(s.name, "le guin");
            assert_eq!(s.email, "ursula_le_guin@gmail.com");
        }
        Step::Respond(r) => panic!("expected a subscriber to store, got status {}", r.status),
    }
}

#[test]
fn stored_subscriber_gets_a_random_uuid() {
    let form = parse_form(b"email=a%40b.c&name=ann").unwrap();
    let first = new_subscriber(&form);
    let second = new_subscriber(&form);
    assert_eq!((first.id >> 76) & 0xf, 4);
    assert_eq!((first.id >> 62) & 0x3, 2);
    assert_ne!(first.id, second.id);
    assert_eq!(first.email, "a@b.c");
    assert_eq!(first.name, "ann");
}

#[test]
fn failed_store_answers_server_error() {
    let response = subscribe(&Err(StoreError { message: "connection refused".to_string() }));
    assert_eq!(500, response.status);
    assert_eq!(0, response.content_length());
}

#[test]
fn empty_body_reports_the_missing_email_first() {
    assert_eq!(parse_form(b"").unwrap_err(), FormError::MissingField(FormField::Email));
    assert_eq!(
        parse_form(b"email=x").unwrap_err(),
        FormError::MissingField(FormField::Name)
    );
}

#[test]
fn repeated_field_is_rejected() {
    assert_eq!(
        parse_form(b"name=a&email=x&name=b").unwrap_err(),
        FormError::DuplicateField(FormField::Name)
    );
    assert_eq!(
        parse_form(b"email=x&email=y").unwrap_err(),
        FormError::DuplicateField(FormField::Email)
    );
    let response = expect_response(post_subscription("email=x&email=y&name=n"));
    assert_eq!(400, response.status);
}

#[test]
fn unknown_fields_are_ignored() {
    let form = parse_form(b"city=paris&email=x%40y&name=z&extra").unwrap();
    assert_eq!(form.email, "x@y");
    assert_eq!(form.name, "z");
}

#[test]
fn fields_are_picked_out_of_pairs() {
    let pairs = vec![
        ("name".to_string(), "le guin".to_string()),
        ("other".to_string(), "1".to_string()),
        ("email".to_string(), "ursula@example.com".to_string()),
    ];
    let form = form_from_pairs(&pairs).unwrap();
    assert_eq!(form.name, "le guin");
    assert_eq!(form.email, "ursula@example.com");
    let no_name = vec![("email".to_string(), "e".to_string())];
    assert_eq!(
        form_from_pairs(&no_name).unwrap_err(),
        FormError::MissingField(FormField::Name)
    );
}

#[test]
fn routes_are_matched_by_path_and_method() {
    assert_eq!(route(Method::Get, "/health_check"), Routing::Found(Endpoint::HealthCheck));
    assert_eq!(route(Method::Post, "/subscriptions"), Routing::Found(Endpoint::Subscriptions));
    assert_eq!(route(Method::Post, "/health_check"), Routing::MethodNotAllowed);
    assert_eq!(route(Method::Get, "/subscriptions"), Routing::MethodNotAllowed);
    assert_eq!(route(Method::Get, "/"), Routing::NotFound);
    assert_eq!(expect_response(handle(Method::Other, "/health_check", b"")).status, 405);
    assert_eq!(expect_response(handle(Method::Get, "/subscribe", b"")).status, 404);
}
