//! The route table: which method and path reach which handler.

use vstd::prelude::*;

verus! {

/// The HTTP methods that the table uses.
#[derive(Clone, Copy, Debug, PartialEq, Eq, Structural)]
pub enum Method {
    Get,
    Post,
    Put,
    Delete,
}

/// The handlers that a route can reach.
#[derive(Clone, Copy, Debug, PartialEq, Eq, Structural)]
pub enum Handler {
    Index,
    CreateUser,
    GetUser,
    UpdateUser,
    DeleteUser,
}

/// One route: a method and a path pattern, and the handler they reach. A
/// pattern may hold a named segment in braces, such as `{id}`.
#[derive(Clone, Copy, Debug, PartialEq, Eq)]
pub struct Route {
    pub method: Method,
    pub pattern: &'static str,
    pub handler: Handler,
}

/// The mathematical value of a [`Route`].
pub struct RouteView {
    pub method: Method,
    pub pattern: Seq<char>,
    pub handler: Handler,
}

impl View for Route {
    type V = RouteView;

    open spec fn view(&self) -> RouteView {
        RouteView { method: self.method, pattern: self.pattern@, handler: self.handler }
    }
}

impl DeepView for Route {
    type V = RouteView;

    open spec fn deep_view(&self) -> RouteView {
        self@
    }
}

/// The whole table: the routes under a common prefix, whose patterns continue
/// that prefix, and the routes at the root.
#[derive(Clone, Debug, PartialEq, Eq)]
pub struct RouteTable {
    pub scope: &'static str,
    pub scoped: Vec<Route>,
    pub root: Vec<Route>,
}

/// The routes on users, under the prefix `/users`.
pub open spec fn user_routes() -> Seq<RouteView> {
    seq![
        RouteView { method: Method::Post, pattern: ""@, handler: Handler::CreateUser },
        RouteView { method: Method::Get, pattern: "/{id}"@, handler: Handler::GetUser },
        RouteView { method: Method::Put, pattern: "/{id}"@, handler: Handler::UpdateUser },
        RouteView { method: Method::Delete, pattern: "/{id}"@, handler: Handler::DeleteUser },
    ]
}

/// The routes at the root.
pub open spec fn root_routes() -> Seq<RouteView> {
    seq![RouteView { method: Method::Get, pattern: "/"@, handler: Handler::Index }]
}

/// The route table of the service: the four operations on users under
/// `/users`, and the greeting at `/`.
pub fn config_routes() -> (table: RouteTable)
    ensures
        table.scope@ == "/users"@,
        table.scoped.deep_view() == user_routes(),
        table.root.deep_view() == root_routes(),
{
    let mut scoped: Vec<Route> = Vec::new();
    scoped.push(Route { method: Method::Post, pattern: "", handler: Handler::CreateUser });
    scoped.push(Route { method: Method::Get, pattern: "/{id}", handler: Handler::GetUser });
    scoped.push(Route { method: Method::Put, pattern: "/{id}", handler: Handler::UpdateUser });
    scoped.push(Route { method: Method::Delete, pattern: "/{id}", handler: Handler::DeleteUser });
    let mut root: Vec<Route> = Vec::new();
    root.push(Route { method: Method::Get, pattern: "/", handler: Handler::Index });
    assert(scoped.deep_view() =~= user_routes());
    assert(root.deep_view() =~= root_routes());
    RouteTable { scope: "/users", scoped, root }
}

} // verus!
