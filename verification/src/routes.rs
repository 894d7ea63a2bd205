//! The route table: which method and path reach which operation.
//!
//! A path is cut into segments at its slashes. One leading slash and one
//! trailing slash do not count. A route accepts a request when the methods are
//! equal, the path has as many segments as the route's pattern, and each
//! segment fits its place in the pattern: a literal fits only its own text, an
//! integer place fits any signed decimal number of 64 bits.

use vstd::prelude::*;
use crate::error::{ApiError, STATUS_BAD_REQUEST};
use crate::reply::{error_reply, Payload, PayloadData, Reply, ReplyData};
use crate::text::{chars_of, integer_of, parse_i64, same_text, split_path, split_slash, views_of};

verus! {

/// The request methods that the table tells apart.
#[derive(Debug, Clone, Copy, PartialEq, Eq, Structural)]
pub enum Method {
    Get,
    Post,
    Delete,
    /// Any other method; no route accepts it.
    Other,
}

/// The method that a request line names. Method names are case-sensitive.
pub open spec fn method_of(name: Seq<char>) -> Method {
    if name == "GET"@ {
        Method::Get
    } else if name == "POST"@ {
        Method::Post
    } else if name == "DELETE"@ {
        Method::Delete
    } else {
        Method::Other
    }
}

impl Method {
    /// Reads a method from its name as it stands in the request line.
    pub fn from_name(name: &str) -> (method: Method)
        ensures
            method == method_of(name@),
    {
        let text = chars_of(name);
        if same_text(&text, &chars_of("GET")) {
            Method::Get
        } else if same_text(&text, &chars_of("POST")) {
            Method::Post
        } else if same_text(&text, &chars_of("DELETE")) {
            Method::Delete
        } else {
            Method::Other
        }
    }
}

/// Why a request did not reach a handler.
#[derive(Debug, Clone, Copy, PartialEq, Eq, Structural)]
pub enum Rejection {
    /// No route accepts the method and path.
    NotFound,
    /// The body is not the JSON that the route takes.
    BodyDeserialize,
    /// Anything else went wrong before a handler ran.
    Other,
}

/// The message that reports a body that could not be read.
pub const BODY_DESERIALIZE_MESSAGE: &'static str = "Failed to deserialize request body";

/// The answer to a rejected request: not found is 404, a bad body is 400, and
/// anything else is 500 with a message that gives nothing away.
pub open spec fn rejection_reply(rejection: Rejection) -> ReplyData {
    match rejection {
        Rejection::NotFound => error_reply(ApiError::NotFound),
        Rejection::BodyDeserialize => ReplyData {
            status: STATUS_BAD_REQUEST,
            payload: PayloadData::Error(BODY_DESERIALIZE_MESSAGE@),
        },
        Rejection::Other => error_reply(ApiError::Store),
    }
}

/// Turns a rejection into the answer that reports it.
pub fn handle_rejection(rejection: Rejection) -> (reply: Reply)
    ensures
        reply@ == rejection_reply(rejection),
{
    match rejection {
        Rejection::NotFound => Reply::from_error(ApiError::NotFound),
        Rejection::BodyDeserialize => Reply {
            status: STATUS_BAD_REQUEST,
            payload: Payload::Error(BODY_DESERIALIZE_MESSAGE),
        },
        Rejection::Other => Reply::from_error(ApiError::Store),
    }
}

/// One place in a route's pattern.
#[derive(Debug, Clone, Copy)]
pub enum Segment {
    /// Exactly this text.
    Literal(&'static str),
    /// Any 64-bit signed integer in decimal; its value is captured.
    Integer,
}

/// What a [`Segment`] holds.
pub enum SegmentData {
    Literal(Seq<char>),
    Integer,
}

impl View for Segment {
    type V = SegmentData;

    open spec fn view(&self) -> SegmentData {
        match *self {
            Segment::Literal(text) => SegmentData::Literal(text@),
            Segment::Integer => SegmentData::Integer,
        }
    }
}

/// What a request can ask the service to do.
#[derive(Debug, Clone, Copy, PartialEq, Eq, Structural)]
pub enum Operation {
    ListTables,
    CreateTable,
    ListMenus,
    CreateMenu,
    ListOrders,
    CreateOrder,
    ListOrderItemsForTable,
    GetOrderItemForTable,
    DeleteOrderItem,
}

/// One line of the route table.
#[derive(Debug, Clone)]
pub struct Route {
    pub method: Method,
    pub pattern: Vec<Segment>,
    pub operation: Operation,
}

/// What a [`Route`] holds.
pub struct RouteData {
    pub method: Method,
    pub pattern: Seq<SegmentData>,
    pub operation: Operation,
}

/// The contents of a pattern.
pub open spec fn pattern_view(pattern: Seq<Segment>) -> Seq<SegmentData> {
    Seq::new(pattern.len(), |i: int| pattern[i]@)
}

impl View for Route {
    type V = RouteData;

    open spec fn view(&self) -> RouteData {
        RouteData {
            method: self.method,
            pattern: pattern_view(self.pattern@),
            operation: self.operation,
        }
    }
}

/// The contents of a route table.
pub open spec fn routes_view(routes: Seq<Route>) -> Seq<RouteData> {
    Seq::new(routes.len(), |i: int| routes[i]@)
}

/// An operation together with the integers that its path carries.
#[derive(Debug, Clone, Copy, PartialEq, Eq, Structural)]
pub enum Target {
    ListTables,
    CreateTable,
    ListMenus,
    CreateMenu,
    ListOrders,
    CreateOrder,
    ListOrderItemsForTable { table_id: i64 },
    GetOrderItemForTable { table_id: i64, menu_id: i64 },
    DeleteOrderItem { table_id: i64, menu_id: i64 },
}

/// The segments of a request path: the pieces between its slashes, after one
/// leading slash and one trailing slash are set aside. The paths `""` and
/// `"/"` have no segments.
pub open spec fn path_segments(path: Seq<char>) -> Seq<Seq<char>> {
    let rest = if path.len() > 0 && path[0] == '/' {
        path.skip(1)
    } else {
        path
    };
    if rest.len() == 0 {
        Seq::empty()
    } else if rest.last() == '/' {
        split_slash(rest.drop_last())
    } else {
        split_slash(rest)
    }
}

/// Whether the text of one path segment fits one place of a pattern.
pub open spec fn segment_accepts(segment: SegmentData, text: Seq<char>) -> bool {
    match segment {
        SegmentData::Literal(literal) => text == literal,
        SegmentData::Integer => integer_of(text) is Some,
    }
}

/// Whether a pattern fits a list of path segments, place by place.
pub open spec fn pattern_accepts(pattern: Seq<SegmentData>, segments: Seq<Seq<char>>) -> bool {
    &&& pattern.len() == segments.len()
    &&& forall|i: int|
        0 <= i < pattern.len() ==> segment_accepts(#[trigger] pattern[i], segments[i])
}

/// The integers that the integer places of a pattern read from the segments
/// at those places, in path order.
pub open spec fn captures(pattern: Seq<SegmentData>, segments: Seq<Seq<char>>) -> Seq<i64>
    decreases pattern.len(),
{
    if pattern.len() == 0 || segments.len() == 0 {
        Seq::empty()
    } else {
        let before = captures(pattern.drop_last(), segments.drop_last());
        match (pattern.last(), integer_of(segments.last())) {
            (SegmentData::Integer, Some(value)) => before.push(value),
            _ => before,
        }
    }
}

/// Whether a route accepts a request with this method and path.
pub open spec fn route_accepts(route: RouteData, method: Method, path: Seq<char>) -> bool {
    route.method == method && pattern_accepts(route.pattern, path_segments(path))
}

/// The index of the first route at or after `start` that accepts the request.
pub open spec fn first_match_from(
    table: Seq<RouteData>,
    method: Method,
    path: Seq<char>,
    start: int,
) -> Option<int>
    decreases table.len() - start,
{
    if start < 0 || start >= table.len() {
        None
    } else if route_accepts(table[start], method, path) {
        Some(start)
    } else {
        first_match_from(table, method, path, start + 1)
    }
}

/// The index of the first route of the table that accepts the request.
pub open spec fn first_match(table: Seq<RouteData>, method: Method, path: Seq<char>) -> Option<
    int,
> {
    first_match_from(table, method, path, 0)
}

/// The target that an operation and the captured integers make: each
/// operation takes as many integers as its path carries, in path order.
pub open spec fn bind(operation: Operation, params: Seq<i64>) -> Option<Target> {
    match operation {
        Operation::ListTables => if params.len() == 0 {
            Some(Target::ListTables)
        } else {
            None
        },
        Operation::CreateTable => if params.len() == 0 {
            Some(Target::CreateTable)
        } else {
            None
        },
        Operation::ListMenus => if params.len() == 0 {
            Some(Target::ListMenus)
        } else {
            None
        },
        Operation::CreateMenu => if params.len() == 0 {
            Some(Target::CreateMenu)
        } else {
            None
        },
        Operation::ListOrders => if params.len() == 0 {
            Some(Target::ListOrders)
        } else {
            None
        },
        Operation::CreateOrder => if params.len() == 0 {
            Some(Target::CreateOrder)
        } else {
            None
        },
        Operation::ListOrderItemsForTable => if params.len() == 1 {
            Some(Target::ListOrderItemsForTable { table_id: params[0] })
        } else {
            None
        },
        Operation::GetOrderItemForTable => if params.len() == 2 {
            Some(Target::GetOrderItemForTable { table_id: params[0], menu_id: params[1] })
        } else {
            None
        },
        Operation::DeleteOrderItem => if params.len() == 2 {
            Some(Target::DeleteOrderItem { table_id: params[0], menu_id: params[1] })
        } else {
            None
        },
    }
}

/// `GET /orders`.
pub open spec fn list_all_orders_route_data() -> RouteData {
    RouteData {
        method: Method::Get,
        pattern: seq![SegmentData::Literal("orders"@)],
        operation: Operation::ListOrders,
    }
}

/// `POST /orders/create`.
pub open spec fn create_order_route_data() -> RouteData {
    RouteData {
        method: Method::Post,
        pattern: seq![SegmentData::Literal("orders"@), SegmentData::Literal("create"@)],
        operation: Operation::CreateOrder,
    }
}

/// `GET /tables`.
pub open spec fn list_table_route_data() -> RouteData {
    RouteData {
        method: Method::Get,
        pattern: seq![SegmentData::Literal("tables"@)],
        operation: Operation::ListTables,
    }
}

/// `GET /menu`.
pub open spec fn list_menu_route_data() -> RouteData {
    RouteData {
        method: Method::Get,
        pattern: seq![SegmentData::Literal("menu"@)],
        operation: Operation::ListMenus,
    }
}

/// `DELETE /orders/{table_id}/items/{menu_id}`.
pub open spec fn delete_items_from_order_route_data() -> RouteData {
    RouteData {
        method: Method::Delete,
        pattern: seq![
            SegmentData::Literal("orders"@),
            SegmentData::Integer,
            SegmentData::Literal("items"@),
            SegmentData::Integer,
        ],
        operation: Operation::DeleteOrderItem,
    }
}

/// `POST /tables/create`.
pub open spec fn create_table_route_data() -> RouteData {
    RouteData {
        method: Method::Post,
        pattern: seq![SegmentData::Literal("tables"@), SegmentData::Literal("create"@)],
        operation: Operation::CreateTable,
    }
}

/// `POST /menus/create`.
pub open spec fn create_menu_route_data() -> RouteData {
    RouteData {
        method: Method::Post,
        pattern: seq![SegmentData::Literal("menus"@), SegmentData::Literal("create"@)],
        operation: Operation::CreateMenu,
    }
}

/// `GET /tables/{table_id}/items`.
pub open spec fn list_order_items_for_table_route_data() -> RouteData {
    RouteData {
        method: Method::Get,
        pattern: seq![
            SegmentData::Literal("tables"@),
            SegmentData::Integer,
            SegmentData::Literal("items"@),
        ],
        operation: Operation::ListOrderItemsForTable,
    }
}

/// `GET /tables/{table_id}/items/{menu_id}`.
pub open spec fn get_item_from_order_route_data() -> RouteData {
    RouteData {
        method: Method::Get,
        pattern: seq![
            SegmentData::Literal("tables"@),
            SegmentData::Integer,
            SegmentData::Literal("items"@),
            SegmentData::Integer,
        ],
        operation: Operation::GetOrderItemForTable,
    }
}

/// The route table of the service, in the order in which it is tried.
pub open spec fn restaurant_table() -> Seq<RouteData> {
    seq![
        create_order_route_data(),
        create_table_route_data(),
        create_menu_route_data(),
        list_table_route_data(),
        list_menu_route_data(),
        list_all_orders_route_data(),
        delete_items_from_order_route_data(),
        list_order_items_for_table_route_data(),
        get_item_from_order_route_data(),
    ]
}

/// The target that the service's route table gives a request, if any route
/// accepts it: that of the first such route.
pub open spec fn dispatch_spec(method: Method, path: Seq<char>) -> Option<Target> {
    let table = restaurant_table();
    match first_match(table, method, path) {
        Some(i) => bind(table[i].operation, captures(table[i].pattern, path_segments(path))),
        None => None,
    }
}

/// A route with one literal segment.
fn route_of_one(method: Method, first: &'static str, operation: Operation) -> (route: Route)
    ensures
        route@ == (RouteData { method, pattern: seq![SegmentData::Literal(first@)], operation }),
{
    let mut pattern: Vec<Segment> = Vec::new();
    pattern.push(Segment::Literal(first));
    assert(pattern_view(pattern@) =~= seq![SegmentData::Literal(first@)]);
    Route { method, pattern, operation }
}

/// A route with two literal segments.
fn route_of_two(method: Method, first: &'static str, second: &'static str, operation: Operation)
    -> (route: Route)
    ensures
        route@ == (RouteData {
            method,
            pattern: seq![SegmentData::Literal(first@), SegmentData::Literal(second@)],
            operation,
        }),
{
    let mut pattern: Vec<Segment> = Vec::new();
    pattern.push(Segment::Literal(first));
    pattern.push(Segment::Literal(second));
    assert(pattern_view(pattern@) =~= seq![
        SegmentData::Literal(first@),
        SegmentData::Literal(second@),
    ]);
    Route { method, pattern, operation }
}

/// The route `GET /orders`, which lists all orders.
pub fn list_all_order_route() -> (route: Route)
    ensures
        route@ == list_all_orders_route_data(),
{
    route_of_one(Method::Get, "orders", Operation::ListOrders)
}

/// The route `POST /orders/create`, which creates an order from a JSON body.
pub fn create_order_route() -> (route: Route)
    ensures
        route@ == create_order_route_data(),
{
    route_of_two(Method::Post, "orders", "create", Operation::CreateOrder)
}

/// The route `GET /tables`, which lists all tables.
pub fn list_table_route() -> (route: Route)
    ensures
        route@ == list_table_route_data(),
{
    route_of_one(Method::Get, "tables", Operation::ListTables)
}

/// The route `GET /menu`, which lists all menus.
pub fn list_menu_route() -> (route: Route)
    ensures
        route@ == list_menu_route_data(),
{
    route_of_one(Method::Get, "menu", Operation::ListMenus)
}

/// The route `GET /orders`, which lists all orders.
pub fn list_all_orders_route() -> (route: Route)
    ensures
        route@ == list_all_orders_route_data(),
{
    route_of_one(Method::Get, "orders", Operation::ListOrders)
}

/// The route `DELETE /orders/{table_id}/items/{menu_id}`, which deletes the
/// items for one menu from the order of one table.
pub fn delete_items_from_order_route() -> (route: Route)
    ensures
        route@ == delete_items_from_order_route_data(),
{
    let mut pattern: Vec<Segment> = Vec::new();
    pattern.push(Segment::Literal("orders"));
    pattern.push(Segment::Integer);
    pattern.push(Segment::Literal("items"));
    pattern.push(Segment::Integer);
    assert(pattern_view(pattern@) =~= delete_items_from_order_route_data().pattern);
    Route { method: Method::Delete, pattern, operation: Operation::DeleteOrderItem }
}

/// The route `POST /tables/create`, which creates a table from a JSON body.
pub fn create_table_route() -> (route: Route)
    ensures
        route@ == create_table_route_data(),
{
    route_of_two(Method::Post, "tables", "create", Operation::CreateTable)
}

/// The route `POST /menus/create`, which creates a menu from a JSON body.
pub fn create_menu_route() -> (route: Route)
    ensures
        route@ == create_menu_route_data(),
{
    route_of_two(Method::Post, "menus", "create", Operation::CreateMenu)
}

/// The route `GET /tables/{table_id}/items`, which lists the items of the
/// order of one table.
pub fn list_order_items_for_table_route() -> (route: Route)
    ensures
        route@ == list_order_items_for_table_route_data(),
{
    let mut pattern: Vec<Segment> = Vec::new();
    pattern.push(Segment::Literal("tables"));
    pattern.push(Segment::Integer);
    pattern.push(Segment::Literal("items"));
    assert(pattern_view(pattern@) =~= list_order_items_for_table_route_data().pattern);
    Route { method: Method::Get, pattern, operation: Operation::ListOrderItemsForTable }
}

/// The route `GET /tables/{table_id}/items/{menu_id}`, which gets the item
/// for one menu from the order of one table.
pub fn get_item_from_order_route() -> (route: Route)
    ensures
        route@ == get_item_from_order_route_data(),
{
    let mut pattern: Vec<Segment> = Vec::new();
    pattern.push(Segment::Literal("tables"));
    pattern.push(Segment::Integer);
    pattern.push(Segment::Literal("items"));
    pattern.push(Segment::Integer);
    assert(pattern_view(pattern@) =~= get_item_from_order_route_data().pattern);
    Route { method: Method::Get, pattern, operation: Operation::GetOrderItemForTable }
}

/// The route table of the service. Routes are tried in this order and the
/// first that accepts a request wins.
pub fn restaurant_routes() -> (routes: Vec<Route>)
    ensures
        routes_view(routes@) == restaurant_table(),
{
    let mut routes: Vec<Route> = Vec::new();
    routes.push(create_order_route());
    routes.push(create_table_route());
    routes.push(create_menu_route());
    routes.push(list_table_route());
    routes.push(list_menu_route());
    routes.push(list_all_orders_route());
    routes.push(delete_items_from_order_route());
    routes.push(list_order_items_for_table_route());
    routes.push(get_item_from_order_route());
    routes
}

/// The first match is a route that accepts the request, and no route before
/// it does; there is none exactly when no route accepts the request.
pub proof fn lemma_first_match(table: Seq<RouteData>, method: Method, path: Seq<char>, start: int)
    requires
        0 <= start,
    ensures
        match first_match_from(table, method, path, start) {
            Some(i) => {
                &&& start <= i < table.len()
                &&& route_accepts(table[i], method, path)
                &&& forall|j: int|
                    start <= j < i ==> !route_accepts(#[trigger] table[j], method, path)
            },
            None => forall|j: int|
                start <= j < table.len() ==> !route_accepts(#[trigger] table[j], method, path),
        },
    decreases table.len() - start,
{
    if start < table.len() && !route_accepts(table[start], method, path) {
        lemma_first_match(table, method, path, start + 1);
    }
}

/// Cuts a request path into its segments.
pub fn segments_of(path: &str) -> (segments: Vec<Vec<char>>)
    ensures
        views_of(segments@) == path_segments(path@),
{
    let mut rest = chars_of(path);
    if rest.len() > 0 && rest[0] == '/' {
        rest.remove(0);
    }
    if rest.len() == 0 {
        return Vec::new();
    }
    if rest[rest.len() - 1] == '/' {
        rest.pop();
    }
    split_path(&rest)
}

/// Matches a pattern against path segments: the captured integers if every
/// place fits, nothing otherwise.
pub fn match_pattern(pattern: &Vec<Segment>, segments: &Vec<Vec<char>>) -> (r: Option<Vec<i64>>)
    ensures
        r is Some <==> pattern_accepts(pattern_view(pattern@), views_of(segments@)),
        r is Some ==> r->0@ == captures(pattern_view(pattern@), views_of(segments@)),
{
    if pattern.len() != segments.len() {
        return None;
    }
    let ghost p = pattern_view(pattern@);
    let ghost s = views_of(segments@);
    let mut found: Vec<i64> = Vec::new();
    let mut i: usize = 0;
    while i < pattern.len()
        invariant
            pattern.len() == segments.len(),
            p == pattern_view(pattern@),
            s == views_of(segments@),
            i <= pattern.len(),
            forall|k: int| 0 <= k < i ==> segment_accepts(#[trigger] p[k], s[k]),
            found@ == captures(p.take(i as int), s.take(i as int)),
        decreases pattern.len() - i,
    {
        proof {
            assert(p.take(i + 1).drop_last() =~= p.take(i as int));
            assert(s.take(i + 1).drop_last() =~= s.take(i as int));
            assert(p.take(i + 1).last() == p[i as int]);
        }
        match &pattern[i] {
            Segment::Literal(literal) => {
                let expected = chars_of(literal);
                if !same_text(&segments[i], &expected) {
                    return None;
                }
            },
            Segment::Integer => {
                match parse_i64(&segments[i]) {
                    Some(value) => {
                        found.push(value);
                    },
                    None => {
                        return None;
                    },
                }
            },
        }
        i = i + 1;
    }
    assert(p.take(i as int) =~= p);
    assert(s.take(i as int) =~= s);
    Some(found)
}

/// Finds the first route of `table` that accepts the request: its index and
/// the integers that its pattern captures.
pub fn find_route(table: &Vec<Route>, method: Method, path: &str) -> (r: Option<(usize, Vec<i64>)>)
    ensures
        match r {
            Some((index, params)) => {
                &&& index < table.len()
                &&& first_match(routes_view(table@), method, path@) == Some(index as int)
                &&& params@ == captures(
                    routes_view(table@)[index as int].pattern,
                    path_segments(path@),
                )
            },
            None => first_match(routes_view(table@), method, path@) is None,
        },
{
    let segments = segments_of(path);
    let ghost t = routes_view(table@);
    let mut i: usize = 0;
    while i < table.len()
        invariant
            i <= table.len(),
            t == routes_view(table@),
            views_of(segments@) == path_segments(path@),
            first_match(t, method, path@) == first_match_from(t, method, path@, i as int),
        decreases table.len() - i,
    {
        if table[i].method == method {
            match match_pattern(&table[i].pattern, &segments) {
                Some(params) => {
                    return Some((i, params));
                },
                None => {},
            }
        }
        i = i + 1;
    }
    None
}

/// Makes a target of an operation and the integers captured for it.
pub fn bind_target(operation: Operation, params: &Vec<i64>) -> (r: Option<Target>)
    ensures
        r == bind(operation, params@),
{
    match operation {
        Operation::ListTables => if params.len() == 0 {
            Some(Target::ListTables)
        } else {
            None
        },
        Operation::CreateTable => if params.len() == 0 {
            Some(Target::CreateTable)
        } else {
            None
        },
        Operation::ListMenus => if params.len() == 0 {
            Some(Target::ListMenus)
        } else {
            None
        },
        Operation::CreateMenu => if params.len() == 0 {
            Some(Target::CreateMenu)
        } else {
            None
        },
        Operation::ListOrders => if params.len() == 0 {
            Some(Target::ListOrders)
        } else {
            None
        },
        Operation::CreateOrder => if params.len() == 0 {
            Some(Target::CreateOrder)
        } else {
            None
        },
        Operation::ListOrderItemsForTable => if params.len() == 1 {
            Some(Target::ListOrderItemsForTable { table_id: params[0] })
        } else {
            None
        },
        Operation::GetOrderItemForTable => if params.len() == 2 {
            Some(Target::GetOrderItemForTable { table_id: params[0], menu_id: params[1] })
        } else {
            None
        },
        Operation::DeleteOrderItem => if params.len() == 2 {
            Some(Target::DeleteOrderItem { table_id: params[0], menu_id: params[1] })
        } else {
            None
        },
    }
}

/// Routes a request through the service's table: the target of the first
/// route that accepts it, or nothing if none does.
pub fn dispatch(method: Method, path: &str) -> (r: Option<Target>)
    ensures
        r == dispatch_spec(method, path@),
{
    let table = restaurant_routes();
    match find_route(&table, method, path) {
        Some((index, params)) => {
            bind_target(table[index].operation, &params)
        },
        None => None,
    }
}

} // verus!
