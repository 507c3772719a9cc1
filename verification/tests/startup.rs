use zero2prod::response::Response;
use zero2prod::routes::Step;
use zero2prod::startup::{run, BindError, Handler, Method, RouteTable, Server, ServerState};

#[test]
fn run_listens_once_the_socket_is_claimed() {
    let server = run(Ok(())).unwrap();
    assert_eq!(server.state(), ServerState::Listening);
    assert_eq!(server.routes(), &RouteTable::service());
}

#[test]
fn run_fails_with_the_error_of_the_claim() {
    assert_eq!(
        run(Err(BindError::AddressInUse)),
        Err(BindError::AddressInUse)
    );
    assert_eq!(
        run(Err(BindError::PermissionDenied)),
        Err(BindError::PermissionDenied)
    );
    assert_eq!(run(Err(BindError::Other)), Err(BindError::Other));
}

#[test]
fn a_new_server_is_unbound() {
    let server = Server::new(RouteTable::service());
    assert_eq!(server.state(), ServerState::Unbound);
    assert_eq!(server.routes().len(), 2);

    let server = server.listen(Ok(())).unwrap();
    assert_eq!(server.state(), ServerState::Listening);
    assert_eq!(server.routes().len(), 2);
}

#[test]
fn a_failed_claim_leaves_no_server() {
    let server = Server::new(RouteTable::new());
    assert_eq!(
        server.listen(Err(BindError::PermissionDenied)),
        Err(BindError::PermissionDenied)
    );
}

#[test]
fn the_service_has_two_routes() {
    let table = RouteTable::service();
    assert_eq!(table.len(), 2);
    assert_eq!(
        table.resolve(Method::Get, "/health_check"),
        Some(Handler::HealthCheck)
    );
    assert_eq!(
        table.resolve(Method::Post, "/subscriptions"),
        Some(Handler::Subscribe)
    );
    assert_eq!(table.resolve(Method::Get, "/subscriptions"), None);
    assert_eq!(table.resolve(Method::Post, "/health_check"), None);
    assert_eq!(table.resolve(Method::Get, "/health_check?x=1"), None);
}

#[test]
fn an_empty_table_matches_nothing() {
    let table = RouteTable::new();
    assert_eq!(table.len(), 0);
    assert_eq!(table.resolve(Method::Get, "/health_check"), None);
    assert_eq!(
        table.dispatch(Method::Get, "/health_check", b""),
        Step::Respond(Response::empty(404))
    );
}

#[test]
fn the_first_registered_route_wins() {
    let table = RouteTable::new()
        .route(Method::Get, "/x", Handler::Subscribe)
        .route(Method::Get, "/x", Handler::HealthCheck)
        .route(Method::Post, "/x", Handler::HealthCheck);
    assert_eq!(table.len(), 3);
    assert_eq!(table.resolve(Method::Get, "/x"), Some(Handler::Subscribe));
    assert_eq!(table.resolve(Method::Post, "/x"), Some(Handler::HealthCheck));
    assert_eq!(table.resolve(Method::Put, "/x"), None);

    assert_eq!(
        table.dispatch(Method::Get, "/x", b"name=a"),
        Step::Respond(Response::empty(400))
    );
    assert_eq!(
        table.dispatch(Method::Post, "/x", b"name=a"),
        Step::Respond(Response::empty(200))
    );
}

#[test]
fn a_server_handles_by_its_own_table() {
    let table = RouteTable::new().route(Method::Put, "/ping", Handler::HealthCheck);
    let server = Server::new(table).listen(Ok(())).unwrap();
    assert_eq!(
        server.handle(Method::Put, "/ping", b""),
        Step::Respond(Response::empty(200))
    );
    assert_eq!(
        server.handle(Method::Get, "/health_check", b""),
        Step::Respond(Response::empty(404))
    );
}
