use app_server::overlap::{
    literal_is_ok, route_is_well_formed, routes_clash, segments_clash, validate_routes, TableFault,
};
use app_server::routes::{
    bind_target, create_menu_route, create_order_route, create_table_route,
    delete_items_from_order_route, dispatch, find_route, get_item_from_order_route,
    handle_rejection, list_all_order_route, list_all_orders_route, list_menu_route,
    list_order_items_for_table_route, list_table_route, match_pattern, restaurant_routes,
    segments_of, Method, Operation, Rejection, Route, Segment, Target,
};
use app_server::reply::Payload;

fn texts(segments: Vec<Vec<char>>) -> Vec<String> {
    segments.into_iter().map(|s| s.into_iter().collect()).collect()
}

fn literals(route: &Route) -> Vec<String> {
    route
        .pattern
        .iter()
        .map(|s| match s {
            Segment::Literal(text) => text.to_string(),
            Segment::Integer => "{}".to_string(),
        })
        .collect()
}

#[test]
fn method_names_are_case_sensitive() {
    assert_eq!(Method::from_name("GET"), Method::Get);
    assert_eq!(Method::from_name("POST"), Method::Post);
    assert_eq!(Method::from_name("DELETE"), Method::Delete);
    assert_eq!(Method::from_name("get"), Method::Other);
    assert_eq!(Method::from_name("PUT"), Method::Other);
    assert_eq!(Method::from_name(""), Method::Other);
    assert_eq!(Method::from_name("GETS"), Method::Other);
}

#[test]
fn each_route_is_what_the_interface_says() {
    let r = list_table_route();
    assert_eq!((r.method, literals(&r), r.operation), (Method::Get, vec!["tables".to_string()], Operation::ListTables));
    let r = create_table_route();
    assert_eq!((r.method, literals(&r).join("/"), r.operation), (Method::Post, "tables/create".to_string(), Operation::CreateTable));
    let r = list_menu_route();
    assert_eq!((r.method, literals(&r).join("/"), r.operation), (Method::Get, "menu".to_string(), Operation::ListMenus));
    let r = create_menu_route();
    assert_eq!((r.method, literals(&r).join("/"), r.operation), (Method::Post, "menus/create".to_string(), Operation::CreateMenu));
    let r = list_all_orders_route();
    assert_eq!((r.method, literals(&r).join("/"), r.operation), (Method::Get, "orders".to_string(), Operation::ListOrders));
    let r = list_all_order_route();
    assert_eq!((r.method, literals(&r).join("/"), r.operation), (Method::Get, "orders".to_string(), Operation::ListOrders));
    let r = create_order_route();
    assert_eq!((r.method, literals(&r).join("/"), r.operation), (Method::Post, "orders/create".to_string(), Operation::CreateOrder));
    let r = list_order_items_for_table_route();
    assert_eq!((r.method, literals(&r).join("/"), r.operation), (Method::Get, "tables/{}/items".to_string(), Operation::ListOrderItemsForTable));
    let r = get_item_from_order_route();
    assert_eq!((r.method, literals(&r).join("/"), r.operation), (Method::Get, "tables/{}/items/{}".to_string(), Operation::GetOrderItemForTable));
    let r = delete_items_from_order_route();
    assert_eq!((r.method, literals(&r).join("/"), r.operation), (Method::Delete, "orders/{}/items/{}".to_string(), Operation::DeleteOrderItem));
}

#[test]
fn the_table_lists_its_routes_in_order() {
    let table = restaurant_routes();
    let operations: Vec<Operation> = table.iter().map(|r| r.operation).collect();
    assert_eq!(
        operations,
        vec![
            Operation::CreateOrder,
            Operation::CreateTable,
            Operation::CreateMenu,
            Operation::ListTables,
            Operation::ListMenus,
            Operation::ListOrders,
            Operation::DeleteOrderItem,
            Operation::ListOrderItemsForTable,
            Operation::GetOrderItemForTable,
        ]
    );
}

#[test]
fn path_segments_set_one_slash_aside_at_each_end() {
    assert_eq!(texts(segments_of("/tables")), vec!["tables"]);
    assert_eq!(texts(segments_of("tables")), vec!["tables"]);
    assert_eq!(texts(segments_of("/tables/")), vec!["tables"]);
    assert_eq!(texts(segments_of("/tables/1/items")), vec!["tables", "1", "items"]);
    assert_eq!(texts(segments_of("/tables//")), vec!["tables", ""]);
    assert_eq!(texts(segments_of("//tables")), vec!["", "tables"]);
    assert_eq!(texts(segments_of("/")), Vec::<String>::new());
    assert_eq!(texts(segments_of("")), Vec::<String>::new());
    assert_eq!(texts(segments_of("//")), vec![""]);
}

#[test]
fn dispatch_reaches_every_operation() {
    assert_eq!(dispatch(Method::Get, "/tables"), Some(Target::ListTables));
    assert_eq!(dispatch(Method::Post, "/tables/create"), Some(Target::CreateTable));
    assert_eq!(dispatch(Method::Get, "/menu"), Some(Target::ListMenus));
    assert_eq!(dispatch(Method::Post, "/menus/create"), Some(Target::CreateMenu));
    assert_eq!(dispatch(Method::Get, "/orders"), Some(Target::ListOrders));
    assert_eq!(dispatch(Method::Post, "/orders/create"), Some(Target::CreateOrder));
    assert_eq!(
        dispatch(Method::Get, "/tables/12/items"),
        Some(Target::ListOrderItemsForTable { table_id: 12 })
    );
    assert_eq!(
        dispatch(Method::Get, "/tables/12/items/34"),
        Some(Target::GetOrderItemForTable { table_id: 12, menu_id: 34 })
    );
    assert_eq!(
        dispatch(Method::Delete, "/orders/12/items/34"),
        Some(Target::DeleteOrderItem { table_id: 12, menu_id: 34 })
    );
}

#[test]
fn dispatch_keeps_the_order_of_the_integers() {
    assert_eq!(
        dispatch(Method::Get, "/tables/-5/items/+6"),
        Some(Target::GetOrderItemForTable { table_id: -5, menu_id: 6 })
    );
    assert_eq!(
        dispatch(Method::Get, "/tables/999/items"),
        Some(Target::ListOrderItemsForTable { table_id: 999 })
    );
}

#[test]
fn dispatch_accepts_one_trailing_slash() {
    assert_eq!(dispatch(Method::Get, "/tables/"), Some(Target::ListTables));
    assert_eq!(dispatch(Method::Get, "/tables//"), None);
    assert_eq!(dispatch(Method::Get, "tables"), Some(Target::ListTables));
}

#[test]
fn dispatch_finds_nothing_for_other_requests() {
    assert_eq!(dispatch(Method::Get, "/"), None);
    assert_eq!(dispatch(Method::Get, ""), None);
    assert_eq!(dispatch(Method::Get, "/menus"), None);
    assert_eq!(dispatch(Method::Get, "/table"), None);
    assert_eq!(dispatch(Method::Get, "/Tables"), None);
    assert_eq!(dispatch(Method::Post, "/tables"), None);
    assert_eq!(dispatch(Method::Get, "/tables/create"), None);
    assert_eq!(dispatch(Method::Delete, "/tables/1/items/2"), None);
    assert_eq!(dispatch(Method::Get, "/orders/1/items/2"), None);
    assert_eq!(dispatch(Method::Other, "/tables"), None);
    assert_eq!(dispatch(Method::Get, "/tables/x/items"), None);
    assert_eq!(dispatch(Method::Get, "/tables//items"), None);
    assert_eq!(dispatch(Method::Get, "/tables/1/items/2/3"), None);
    assert_eq!(dispatch(Method::Get, "/tables/9223372036854775808/items"), None);
    assert_eq!(dispatch(Method::Get, "/tables/1.0/items"), None);
}

#[test]
fn find_route_gives_index_and_captures() {
    let table = restaurant_routes();
    assert_eq!(find_route(&table, Method::Post, "/orders/create"), Some((0, vec![])));
    assert_eq!(find_route(&table, Method::Delete, "/orders/3/items/4"), Some((6, vec![3, 4])));
    assert_eq!(find_route(&table, Method::Get, "/tables/8/items"), Some((7, vec![8])));
    assert_eq!(find_route(&table, Method::Get, "/nowhere"), None);
}

#[test]
fn first_match_wins_in_an_ambiguous_table() {
    let table = vec![
        Route { method: Method::Get, pattern: vec![Segment::Literal("7")], operation: Operation::ListMenus },
        Route { method: Method::Get, pattern: vec![Segment::Integer], operation: Operation::ListOrderItemsForTable },
    ];
    assert_eq!(find_route(&table, Method::Get, "/7"), Some((0, vec![])));
    assert_eq!(find_route(&table, Method::Get, "/8"), Some((1, vec![8])));
    assert_eq!(validate_routes(&table), Err(TableFault::Ambiguous { first: 0, second: 1 }));
}

#[test]
fn match_pattern_captures_only_integers() {
    let pattern = vec![Segment::Literal("a"), Segment::Integer, Segment::Integer];
    let segs = |v: &[&str]| -> Vec<Vec<char>> { v.iter().map(|s| s.chars().collect()).collect() };
    assert_eq!(match_pattern(&pattern, &segs(&["a", "1", "2"])), Some(vec![1, 2]));
    assert_eq!(match_pattern(&pattern, &segs(&["a", "1"])), None);
    assert_eq!(match_pattern(&pattern, &segs(&["b", "1", "2"])), None);
    assert_eq!(match_pattern(&pattern, &segs(&["a", "1", "x"])), None);
    assert_eq!(match_pattern(&vec![], &segs(&[])), Some(vec![]));
}

#[test]
fn bind_wants_the_right_number_of_integers() {
    assert_eq!(bind_target(Operation::ListTables, &vec![]), Some(Target::ListTables));
    assert_eq!(bind_target(Operation::ListTables, &vec![1]), None);
    assert_eq!(
        bind_target(Operation::ListOrderItemsForTable, &vec![4]),
        Some(Target::ListOrderItemsForTable { table_id: 4 })
    );
    assert_eq!(bind_target(Operation::ListOrderItemsForTable, &vec![]), None);
    assert_eq!(
        bind_target(Operation::DeleteOrderItem, &vec![4, 5]),
        Some(Target::DeleteOrderItem { table_id: 4, menu_id: 5 })
    );
    assert_eq!(
        bind_target(Operation::GetOrderItemForTable, &vec![4, 5]),
        Some(Target::GetOrderItemForTable { table_id: 4, menu_id: 5 })
    );
    assert_eq!(bind_target(Operation::GetOrderItemForTable, &vec![4]), None);
    assert_eq!(bind_target(Operation::CreateOrder, &vec![]), Some(Target::CreateOrder));
}

#[test]
fn the_service_table_is_valid() {
    assert_eq!(validate_routes(&restaurant_routes()), Ok(()));
    for route in restaurant_routes() {
        assert!(route_is_well_formed(&route));
    }
}

#[test]
fn the_two_order_listings_would_clash() {
    assert!(routes_clash(&list_all_order_route(), &list_all_orders_route()));
    let mut table = restaurant_routes();
    table.push(list_all_order_route());
    assert_eq!(validate_routes(&table), Err(TableFault::Ambiguous { first: 5, second: 9 }));
}

#[test]
fn validate_reports_the_first_bad_literal() {
    let bad = |text: &'static str| Route {
        method: Method::Get,
        pattern: vec![Segment::Literal("ok"), Segment::Literal(text)],
        operation: Operation::ListTables,
    };
    assert_eq!(validate_routes(&vec![list_table_route(), bad(""), bad("a/b")]), Err(TableFault::BadLiteral { route: 1 }));
    assert_eq!(validate_routes(&vec![bad("a/b")]), Err(TableFault::BadLiteral { route: 0 }));
    assert_eq!(validate_routes(&vec![]), Ok(()));
    assert!(!route_is_well_formed(&bad("/")));
    assert!(literal_is_ok("items"));
    assert!(!literal_is_ok(""));
    assert!(!literal_is_ok("a/"));
}

#[test]
fn validate_reports_the_first_clashing_pair() {
    let get = |pattern: Vec<Segment>| Route { method: Method::Get, pattern, operation: Operation::ListTables };
    let table = vec![
        get(vec![Segment::Literal("a")]),
        get(vec![Segment::Literal("b"), Segment::Integer]),
        get(vec![Segment::Literal("b"), Segment::Literal("12")]),
        get(vec![Segment::Literal("a")]),
    ];
    assert_eq!(validate_routes(&table), Err(TableFault::Ambiguous { first: 0, second: 3 }));
    let table = vec![
        get(vec![Segment::Literal("b"), Segment::Integer]),
        get(vec![Segment::Literal("b"), Segment::Literal("x")]),
        get(vec![Segment::Literal("b"), Segment::Literal("-12")]),
    ];
    assert_eq!(validate_routes(&table), Err(TableFault::Ambiguous { first: 0, second: 2 }));
}

#[test]
fn segments_clash_when_some_text_fits_both() {
    assert!(segments_clash(&Segment::Integer, &Segment::Integer));
    assert!(segments_clash(&Segment::Literal("x"), &Segment::Literal("x")));
    assert!(!segments_clash(&Segment::Literal("x"), &Segment::Literal("y")));
    assert!(segments_clash(&Segment::Literal("10"), &Segment::Integer));
    assert!(segments_clash(&Segment::Integer, &Segment::Literal("+10")));
    assert!(!segments_clash(&Segment::Integer, &Segment::Literal("items")));
    assert!(!segments_clash(&Segment::Literal("create"), &Segment::Integer));
}

#[test]
fn routes_with_other_methods_or_lengths_do_not_clash() {
    assert!(!routes_clash(&list_table_route(), &create_table_route()));
    assert!(!routes_clash(&list_order_items_for_table_route(), &get_item_from_order_route()));
    assert!(!routes_clash(&delete_items_from_order_route(), &get_item_from_order_route()));
    assert!(!routes_clash(&create_menu_route(), &create_order_route()));
}

#[test]
fn rejections_become_error_replies() {
    let r = handle_rejection(Rejection::NotFound);
    assert_eq!(r.status, 404);
    assert!(matches!(r.payload, Payload::Error("not found")));
    let r = handle_rejection(Rejection::BodyDeserialize);
    assert_eq!(r.status, 400);
    assert!(matches!(r.payload, Payload::Error("Failed to deserialize request body")));
    let r = handle_rejection(Rejection::Other);
    assert_eq!(r.status, 500);
    assert!(matches!(r.payload, Payload::Error("internal server error")));
}
