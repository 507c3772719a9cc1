use zero2prod::response::Response;
use zero2prod::routes::{insert_response, InsertOutcome, Step};
use zero2prod::startup::{run, Method, Server};
use zero2prod::subscription::Subscription;

fn spawn_app() -> Server {
    run(Ok(())).expect("Failed to bind address")
}

fn respond(step: Step, store: &mut Vec<Subscription>) -> Response {
    match step {
        Step::Respond(response) => response,
        Step::Insert(row) => {
            store.push(row);
            insert_response(InsertOutcome::Stored)
        }
    }
}

#[test]
fn health_check_works() {
    let app = spawn_app();
    let mut store: Vec<Subscription> = Vec::new();

    let response = respond(app.handle(Method::Get, "/health_check", b""), &mut store);

    assert!(response.is_success());
    assert_eq!(0, response.content_length());
    assert!(store.is_empty());
}

#[test]
fn subscribe_returns_a_200_for_valid_form_data() {
    let app = spawn_app();
    let mut store: Vec<Subscription> = Vec::new();

    let body = "name=le%20guin&email=ursula_le_guin%40gmail.com";

    let response = respond(
        app.handle(Method::Post, "/subscriptions", body.as_bytes()),
        &mut store,
    );

    assert_eq!(200, response.status);
    assert_eq!(0, response.content_length());

    assert_eq!(store.len(), 1);
    let saved = &store[0];
    assert_eq!(saved.email(), "ursula_le_guin@gmail.com");
    assert_eq!(saved.name(), "le guin");
}

#[test]
fn subscribe_returns_a_400_when_data_is_missing() {
    let app = spawn_app();
    let mut store: Vec<Subscription> = Vec::new();

    let test_cases = vec![
        ("name=le%20", "missing the email"),
        ("email=ursula_le_guin%40gmail.com", "missing the name"),
        ("", "missing both name and email"),
    ];

    for (invalid_body, error_message) in test_cases {
        let response = respond(
            app.handle(Method::Post, "/subscriptions", invalid_body.as_bytes()),
            &mut store,
        );

        assert_eq!(
            400, response.status,
            "The API did not fail with 400 Bad Request when the payload was {}",
            error_message
        );
        assert!(store.is_empty());
    }
}

#[test]
fn the_same_body_twice_stores_two_rows() {
    let app = spawn_app();
    let mut store: Vec<Subscription> = Vec::new();
    let body = b"name=le%20guin&email=ursula_le_guin%40gmail.com";

    let first = respond(app.handle(Method::Post, "/subscriptions", body), &mut store);
    let second = respond(app.handle(Method::Post, "/subscriptions", body), &mut store);

    assert_eq!(first.status, 200);
    assert_eq!(second.status, 200);
    assert_eq!(store.len(), 2);
    assert_eq!(store[0], store[1]);
    assert_eq!(store[1].name(), "le guin");
    assert_eq!(store[1].email(), "ursula_le_guin@gmail.com");
}

#[test]
fn get_on_subscriptions_is_not_found() {
    let app = spawn_app();
    let mut store: Vec<Subscription> = Vec::new();

    let response = respond(app.handle(Method::Get, "/subscriptions", b""), &mut store);

    assert_eq!(response.status, 404);
    assert_eq!(response.content_length(), 0);
    assert!(store.is_empty());
}

#[test]
fn unmatched_requests_are_not_found() {
    let app = spawn_app();
    let body = b"name=a&email=b";
    let cases = vec![
        (Method::Post, "/health_check"),
        (Method::Head, "/health_check"),
        (Method::Get, "/"),
        (Method::Get, "/health_check/"),
        (Method::Get, "/Health_Check"),
        (Method::Post, "/subscriptions/"),
        (Method::Put, "/subscriptions"),
        (Method::Delete, "/subscriptions"),
        (Method::Other, "/subscriptions"),
        (Method::Post, ""),
    ];
    for (method, path) in cases {
        let step = app.handle(method, path, body);
        assert_eq!(step, Step::Respond(Response::empty(404)), "{:?} {}", method, path);
    }
}

#[test]
fn health_check_ignores_the_body() {
    let app = spawn_app();
    let step = app.handle(Method::Get, "/health_check", b"name=a&email=b");
    assert_eq!(step, Step::Respond(Response::empty(200)));
}

#[test]
fn a_failed_insert_is_a_500_without_a_row() {
    let app = spawn_app();
    let step = app.handle(Method::Post, "/subscriptions", b"name=a&email=b");
    assert!(matches!(step, Step::Insert(_)));

    let response = insert_response(InsertOutcome::Failed);
    assert_eq!(response.status, 500);
    assert_eq!(response.content_length(), 0);
    assert!(!response.is_success());
}

#[test]
fn a_stored_insert_is_a_200() {
    let response = insert_response(InsertOutcome::Stored);
    assert_eq!(response, Response { status: 200, body: Vec::new() });
    assert!(response.is_success());
}
