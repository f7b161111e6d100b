//! The route table: which method and path reach which endpoint.

use vstd::prelude::*;

verus! {

/// The request methods in use.
#[derive(Clone, Copy, Debug, PartialEq, Eq, Structural)]
pub enum Method {
    Get,
    Post,
    Delete,
}

/// The endpoints, in the order of the route table.
#[derive(Clone, Copy, Debug, PartialEq, Eq, Structural)]
pub enum Endpoint {
    Ping,
    AddUser,
    UpdateUser,
    GetUser,
    DelUser,
    GetUsers,
    SearchUser,
    AddMenu,
    GetMenu,
}

/// How many endpoints there are.
pub const ENDPOINTS: usize = 9;

impl Endpoint {
    /// The row of the route table that holds this endpoint, counted from 0.
    pub open spec fn row(self) -> int {
        match self {
            Endpoint::Ping => 0,
            Endpoint::AddUser => 1,
            Endpoint::UpdateUser => 2,
            Endpoint::GetUser => 3,
            Endpoint::DelUser => 4,
            Endpoint::GetUsers => 5,
            Endpoint::SearchUser => 6,
            Endpoint::AddMenu => 7,
            Endpoint::GetMenu => 8,
        }
    }

    /// The method that reaches this endpoint.
    pub open spec fn method_of(self) -> Method {
        match self {
            Endpoint::Ping | Endpoint::GetUser | Endpoint::GetUsers | Endpoint::SearchUser
            | Endpoint::GetMenu => Method::Get,
            Endpoint::AddUser | Endpoint::UpdateUser | Endpoint::AddMenu => Method::Post,
            Endpoint::DelUser => Method::Delete,
        }
    }

    /// The path that reaches this endpoint. A segment that begins with a
    /// colon stands for a parameter.
    pub open spec fn path_of(self) -> Seq<char> {
        match self {
            Endpoint::Ping => "/ping"@,
            Endpoint::AddUser => "/add_user"@,
            Endpoint::UpdateUser => "/update-user"@,
            Endpoint::GetUser => "/get_user/:specify_user"@,
            Endpoint::DelUser => "/del_user/:users"@,
            Endpoint::GetUsers => "/users/:page_num/:page_size/:sort"@,
            Endpoint::SearchUser => "/search_user/:con/:page_num/:page_size"@,
            Endpoint::AddMenu => "/add-menu"@,
            Endpoint::GetMenu => "/get-menu"@,
        }
    }

    /// The method that reaches this endpoint.
    pub fn method(&self) -> (m: Method)
        ensures
            m == self.method_of(),
    {
        match self {
            Endpoint::Ping => Method::Get,
            Endpoint::AddUser => Method::Post,
            Endpoint::UpdateUser => Method::Post,
            Endpoint::GetUser => Method::Get,
            Endpoint::DelUser => Method::Delete,
            Endpoint::GetUsers => Method::Get,
            Endpoint::SearchUser => Method::Get,
            Endpoint::AddMenu => Method::Post,
            Endpoint::GetMenu => Method::Get,
        }
    }

    /// The path that reaches this endpoint.
    pub fn path(&self) -> (p: &'static str)
        ensures
            p@ == self.path_of(),
    {
        match self {
            Endpoint::Ping => "/ping",
            Endpoint::AddUser => "/add_user",
            Endpoint::UpdateUser => "/update-user",
            Endpoint::GetUser => "/get_user/:specify_user",
            Endpoint::DelUser => "/del_user/:users",
            Endpoint::GetUsers => "/users/:page_num/:page_size/:sort",
            Endpoint::SearchUser => "/search_user/:con/:page_num/:page_size",
            Endpoint::AddMenu => "/add-menu",
            Endpoint::GetMenu => "/get-menu",
        }
    }
}

/// One row of the route table.
#[derive(Clone, Copy, Debug)]
pub struct Route {
    pub method: Method,
    pub path: &'static str,
    pub endpoint: Endpoint,
    /// Whether a request must pass authentication before it reaches the handler.
    pub auth: bool,
}

/// What a row says.
pub struct RouteView {
    pub method: Method,
    pub path: Seq<char>,
    pub endpoint: Endpoint,
    pub auth: bool,
}

impl View for Route {
    type V = RouteView;

    open spec fn view(&self) -> RouteView {
        RouteView { method: self.method, path: self.path@, endpoint: self.endpoint, auth: self.auth }
    }
}

impl RouteView {
    /// The row of an endpoint: its method and path, behind authentication.
    pub open spec fn to(endpoint: Endpoint) -> RouteView {
        RouteView {
            method: endpoint.method_of(),
            path: endpoint.path_of(),
            endpoint,
            auth: true,
        }
    }
}

/// The route table: one row for each endpoint.
pub open spec fn route_table() -> Seq<RouteView> {
    seq![
        RouteView::to(Endpoint::Ping),
        RouteView::to(Endpoint::AddUser),
        RouteView::to(Endpoint::UpdateUser),
        RouteView::to(Endpoint::GetUser),
        RouteView::to(Endpoint::DelUser),
        RouteView::to(Endpoint::GetUsers),
        RouteView::to(Endpoint::SearchUser),
        RouteView::to(Endpoint::AddMenu),
        RouteView::to(Endpoint::GetMenu),
    ]
}

impl Route {
    /// The row of an endpoint.
    pub fn to(endpoint: Endpoint) -> (route: Route)
        ensures
            route@ == RouteView::to(endpoint),
    {
        Route { method: endpoint.method(), path: endpoint.path(), endpoint, auth: true }
    }
}

/// The route table.
pub fn api() -> (table: Vec<Route>)
    ensures
        table@.len() == route_table().len(),
        forall|row: int| 0 <= row < table@.len() ==> (#[trigger] table@[row])@ == route_table()[row],
{
    let mut table: Vec<Route> = Vec::new();
    table.push(Route::to(Endpoint::Ping));
    table.push(Route::to(Endpoint::AddUser));
    table.push(Route::to(Endpoint::UpdateUser));
    table.push(Route::to(Endpoint::GetUser));
    table.push(Route::to(Endpoint::DelUser));
    table.push(Route::to(Endpoint::GetUsers));
    table.push(Route::to(Endpoint::SearchUser));
    table.push(Route::to(Endpoint::AddMenu));
    table.push(Route::to(Endpoint::GetMenu));
    table
}

/// The table has as many rows as there are endpoints. Each endpoint has its
/// row, and only one: the table holds it at `endpoint.row()` and nowhere else.
pub proof fn lemma_one_row_each(endpoint: Endpoint, row: int)
    requires
        0 <= row < route_table().len(),
    ensures
        route_table().len() == ENDPOINTS,
        0 <= endpoint.row() < route_table().len(),
        route_table()[endpoint.row()] == RouteView::to(endpoint),
        route_table()[row].endpoint == endpoint <==> row == endpoint.row(),
{
}

/// Every row is behind authentication.
pub proof fn lemma_all_guarded(row: int)
    requires
        0 <= row < route_table().len(),
    ensures
        route_table()[row].auth,
{
}

/// No two rows share a path, so a request matches one row at most.
pub proof fn lemma_paths_differ(first: int, second: int)
    requires
        0 <= first < route_table().len(),
        0 <= second < route_table().len(),
        first != second,
    ensures
        route_table()[first].path != route_table()[second].path,
{
    reveal_strlit("/ping");
    reveal_strlit("/add_user");
    reveal_strlit("/update-user");
    reveal_strlit("/get_user/:specify_user");
    reveal_strlit("/del_user/:users");
    reveal_strlit("/users/:page_num/:page_size/:sort");
    reveal_strlit("/search_user/:con/:page_num/:page_size");
    reveal_strlit("/add-menu");
    reveal_strlit("/get-menu");
    let a = route_table()[first].path;
    let b = route_table()[second].path;
    if a.len() == b.len() {
        assert(a[1] != b[1] || a[4] != b[4]);
    }
}

/// Every path begins with a slash.
pub proof fn lemma_paths_rooted(row: int)
    requires
        0 <= row < route_table().len(),
    ensures
        route_table()[row].path.len() > 0,
        route_table()[row].path[0] == '/',
{
    reveal_strlit("/ping");
    reveal_strlit("/add_user");
    reveal_strlit("/update-user");
    reveal_strlit("/get_user/:specify_user");
    reveal_strlit("/del_user/:users");
    reveal_strlit("/users/:page_num/:page_size/:sort");
    reveal_strlit("/search_user/:con/:page_num/:page_size");
    reveal_strlit("/add-menu");
    reveal_strlit("/get-menu");
}

} // verus!
