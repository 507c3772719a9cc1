//! The route table and the server's two states.

use crate::response::{Response, NOT_FOUND, OK};
use crate::routes::{health_check, subscribe, subscribe_step, Step, StepView};
use crate::text::text_eq;
use vstd::prelude::*;

verus! {

/// The method of a request.
#[derive(Clone, Copy, Debug, PartialEq, Eq, Structural)]
pub enum Method {
    Get,
    Head,
    Post,
    Put,
    Delete,
    Connect,
    Options,
    Trace,
    Patch,
    /// Any method without a name above.
    Other,
}

/// The handlers that a route can lead to.
#[derive(Clone, Copy, Debug, PartialEq, Eq, Structural)]
pub enum Handler {
    HealthCheck,
    Subscribe,
}

/// A route by its view.
pub struct RouteView {
    pub method: Method,
    pub path: Seq<char>,
    pub handler: Handler,
}

impl RouteView {
    /// A route matches a request with the same method and the very same path.
    pub open spec fn matches(self, method: Method, path: Seq<char>) -> bool {
        self.method == method && self.path == path
    }
}

/// One entry of the route table.
#[derive(Debug, PartialEq, Eq)]
pub struct Route {
    pub method: Method,
    pub path: String,
    pub handler: Handler,
}

impl View for Route {
    type V = RouteView;

    open spec fn view(&self) -> RouteView {
        RouteView { method: self.method, path: self.path@, handler: self.handler }
    }
}

/// The handler of the first route in `routes` that matches, if any does.
pub open spec fn first_match(routes: Seq<RouteView>, method: Method, path: Seq<char>) -> Option<
    Handler,
>
    decreases routes.len(),
{
    if routes.len() == 0 {
        None
    } else if routes.first().matches(method, path) {
        Some(routes.first().handler)
    } else {
        first_match(routes.drop_first(), method, path)
    }
}

/// `first_match` finds the matching route with the least index: no route
/// before it matches, and where it finds none, none matches.
pub proof fn lemma_first_match_is_earliest(routes: Seq<RouteView>, method: Method, path: Seq<char>)
    ensures
        match first_match(routes, method, path) {
            Some(handler) => exists|i: int|
                0 <= i < routes.len() && #[trigger] routes[i].matches(method, path)
                    && routes[i].handler == handler && forall|j: int|
                    0 <= j < i ==> !#[trigger] routes[j].matches(method, path),
            None => forall|i: int|
                0 <= i < routes.len() ==> !#[trigger] routes[i].matches(method, path),
        },
    decreases routes.len(),
{
    if routes.len() == 0 {
    } else if routes.first().matches(method, path) {
        assert(routes[0].matches(method, path));
    } else {
        let rest = routes.drop_first();
        lemma_first_match_is_earliest(rest, method, path);
        assert(forall|i: int| 0 <= i < rest.len() ==> rest[i] == routes[i + 1]);
        match first_match(rest, method, path) {
            Some(handler) => {
                let i = choose|i: int|
                    0 <= i < rest.len() && #[trigger] rest[i].matches(method, path)
                        && rest[i].handler == handler && forall|j: int|
                        0 <= j < i ==> !#[trigger] rest[j].matches(method, path);
                assert(routes[i + 1].matches(method, path));
                assert forall|j: int| 0 <= j < i + 1 implies !#[trigger] routes[j].matches(
                    method,
                    path,
                ) by {
                    if j > 0 {
                        assert(!rest[j - 1].matches(method, path));
                    }
                }
            },
            None => {
                assert forall|i: int| 0 <= i < routes.len() implies !#[trigger] routes[i].matches(
                    method,
                    path,
                ) by {
                    if i > 0 {
                        assert(!rest[i - 1].matches(method, path));
                    }
                }
            },
        }
    }
}

/// The two routes of the service, in the order of their registration.
pub open spec fn service_routes() -> Seq<RouteView> {
    seq![
        RouteView { method: Method::Get, path: "/health_check"@, handler: Handler::HealthCheck },
        RouteView { method: Method::Post, path: "/subscriptions"@, handler: Handler::Subscribe },
    ]
}

/// The step for a request against a route table: that of the first matching
/// route's handler, and a bare 404 where no route matches.
pub open spec fn step_for(
    routes: Seq<RouteView>,
    method: Method,
    path: Seq<char>,
    body: Seq<u8>,
) -> StepView {
    match first_match(routes, method, path) {
        Some(Handler::HealthCheck) => StepView::Respond(Response::bare(OK)),
        Some(Handler::Subscribe) => subscribe_step(body),
        None => StepView::Respond(Response::bare(NOT_FOUND)),
    }
}

/// Routes in the order of their registration.
#[derive(Debug, PartialEq, Eq)]
pub struct RouteTable {
    routes: Vec<Route>,
}

impl View for RouteTable {
    type V = Seq<RouteView>;

    closed spec fn view(&self) -> Seq<RouteView> {
        self.routes@.map_values(|route: Route| route@)
    }
}

impl RouteTable {
    /// A table without routes.
    pub fn new() -> (table: RouteTable)
        ensures
            table@ == Seq::<RouteView>::empty(),
    {
        let table = RouteTable { routes: Vec::new() };
        assert(table@ =~= Seq::<RouteView>::empty());
        table
    }

    /// Registers a route behind those that are there.
    pub fn route(self, method: Method, path: &str, handler: Handler) -> (table: RouteTable)
        ensures
            table@ == self@.push(RouteView { method, path: path@, handler }),
    {
        let mut routes = self.routes;
        routes.push(Route { method, path: path.to_owned(), handler });
        let table = RouteTable { routes };
        assert(table@ =~= self@.push(RouteView { method, path: path@, handler }));
        table
    }

    /// The table of the service.
    pub fn service() -> (table: RouteTable)
        ensures
            table@ == service_routes(),
    {
        let table = RouteTable::new().route(Method::Get, "/health_check", Handler::HealthCheck).route(
            Method::Post,
            "/subscriptions",
            Handler::Subscribe,
        );
        assert(table@ =~= service_routes());
        table
    }

    /// The number of routes.
    pub fn len(&self) -> (n: usize)
        ensures
            n == self@.len(),
    {
        self.routes.len()
    }

    /// Looks the request up: routes are tried in the order of their
    /// registration, and the first match decides.
    pub fn resolve(&self, method: Method, path: &str) -> (found: Option<Handler>)
        ensures
            found == first_match(self@, method, path@),
    {
        let mut i: usize = 0;
        assert(self@.skip(0) =~= self@);
        while i < self.routes.len()
            invariant
                i <= self.routes.len(),
                self@.len() == self.routes.len(),
                first_match(self@, method, path@) == first_match(
                    self@.skip(i as int),
                    method,
                    path@,
                ),
            decreases self.routes.len() - i,
        {
            let route = &self.routes[i];
            proof {
                assert(self@.skip(i as int).first() == route@);
                assert(self@.skip(i as int).drop_first() =~= self@.skip(i + 1));
            }
            if route.method == method && text_eq(route.path.as_str(), path) {
                return Some(route.handler);
            }
            i += 1;
        }
        None
    }

    /// Decides what is to be done for a request.
    pub fn dispatch(&self, method: Method, path: &str, body: &[u8]) -> (step: Step)
        ensures
            step@ == step_for(self@, method, path@, body@),
    {
        match self.resolve(method, path) {
            Some(Handler::HealthCheck) => Step::Respond(health_check()),
            Some(Handler::Subscribe) => subscribe(body),
            None => Step::Respond(Response::empty(NOT_FOUND)),
        }
    }
}

/// The two states of the server.
#[derive(Clone, Copy, Debug, PartialEq, Eq, Structural)]
pub enum ServerState {
    /// No socket has been claimed; no request is taken.
    Unbound,
    /// The socket is claimed; requests are taken until the process ends.
    Listening,
}

/// Why the socket could not be claimed.
#[derive(Clone, Copy, Debug, PartialEq, Eq, Structural)]
pub enum BindError {
    AddressInUse,
    PermissionDenied,
    Other,
}

/// A server by its view.
pub struct ServerView {
    pub state: ServerState,
    pub routes: Seq<RouteView>,
}

/// The server: its state and its route table.
#[derive(Debug, PartialEq, Eq)]
pub struct Server {
    state: ServerState,
    routes: RouteTable,
}

impl View for Server {
    type V = ServerView;

    closed spec fn view(&self) -> ServerView {
        ServerView { state: self.state, routes: self.routes@ }
    }
}

impl Server {
    /// A server that has not claimed a socket yet.
    pub fn new(routes: RouteTable) -> (server: Server)
        ensures
            server@ == (ServerView { state: ServerState::Unbound, routes: routes@ }),
    {
        Server { state: ServerState::Unbound, routes }
    }

    /// The one transition: from `Unbound` to `Listening`, taken when the
    /// socket was claimed. A failed claim is final: the error comes back and
    /// no server is left to listen.
    pub fn listen(self, claim: Result<(), BindError>) -> (r: Result<Server, BindError>)
        requires
            self@.state == ServerState::Unbound,
        ensures
            match claim {
                Ok(_) => r is Ok && r->Ok_0@ == (ServerView {
                    state: ServerState::Listening,
                    routes: self@.routes,
                }),
                Err(e) => r is Err && r->Err_0 == e,
            },
    {
        match claim {
            Ok(_) => Ok(Server { state: ServerState::Listening, routes: self.routes }),
            Err(e) => Err(e),
        }
    }

    /// The state that the server is in.
    pub fn state(&self) -> (state: ServerState)
        ensures
            state == self@.state,
    {
        self.state
    }

    /// The route table.
    pub fn routes(&self) -> (routes: &RouteTable)
        ensures
            routes@ == self@.routes,
    {
        &self.routes
    }

    /// Decides what is to be done for a request that a listening server took.
    pub fn handle(&self, method: Method, path: &str, body: &[u8]) -> (step: Step)
        requires
            self@.state == ServerState::Listening,
        ensures
            step@ == step_for(self@.routes, method, path@, body@),
    {
        self.routes.dispatch(method, path, body)
    }
}

/// Starts the service on a socket whose claim went as `claim` says: the
/// server with the service's two routes, listening, or the error of the
/// claim.
pub fn run(claim: Result<(), BindError>) -> (r: Result<Server, BindError>)
    ensures
        match claim {
            Ok(_) => r is Ok && r->Ok_0@ == (ServerView {
                state: ServerState::Listening,
                routes: service_routes(),
            }),
            Err(e) => r is Err && r->Err_0 == e,
        },
{
    Server::new(RouteTable::service()).listen(claim)
}

} // verus!
