use app_server::db::{
    bind_all, course, failure_from_code, failure_of, open_store, read_row, run, set_up, Course,
    Store,
};
use app_server::error::{classify, ApiError, Failure};
use app_server::handlers::{
    create_menu_handler, create_order_handler, create_order_item_handler, create_table_handler,
    delete_order_item_handler, get_order_item_for_table_handler, list_menu_handler,
    list_order_handler, list_order_items_for_table_handler, list_table_handler, MenuInput,
    OrderInput, OrderItemInput, TableInput,
};
use app_server::model::{Order, OrderItem};
use app_server::reply::{Payload, Reply};
use app_server::routes::{Method, Target};
use app_server::schema::{enable_foreign_keys, setup_step, Setup};
use app_server::service::{handle_request, serve, Body};
use app_server::store::{Command, Outcome, SqlValue};
use rusqlite::Connection;

fn store() -> Store {
    let mut store = open_store(":memory:").unwrap();
    set_up(&mut store).unwrap();
    store
}

fn bare() -> Store {
    Store::from_connection(Connection::open_in_memory().unwrap())
}

fn request(store: &mut Store, method: &str, path: &str, body: Body) -> Reply {
    handle_request(store, Method::from_name(method), path, &body)
}

fn table_body(code: &str) -> Body {
    Body::Table(TableInput { code: Some(code.to_string()) })
}

fn order_body(table_id: i64) -> Body {
    Body::Order(OrderInput { table_id: Some(table_id) })
}

fn menu_body(name: &str) -> Body {
    Body::Menu(MenuInput { name: Some(name.to_string()) })
}

fn count(store: &Store, table: &str) -> i64 {
    store.connection().query_row(&format!("SELECT COUNT(*) FROM {}", table), [], |row| row.get(0)).unwrap()
}

fn error_of(reply: Reply) -> (u16, &'static str) {
    match reply.payload {
        Payload::Error(message) => (reply.status, message),
        other => panic!("expected an error, got {:?}", other),
    }
}

fn command(sql: &'static str, params: Vec<SqlValue>) -> Command {
    Command { sql, params }
}

#[test]
fn run_reports_changes_and_the_last_id() {
    let mut conn = store();
    let insert = |code: &str| command("INSERT INTO tables (code) VALUES (?1)", vec![SqlValue::Text(code.to_string())]);
    assert!(matches!(run(&mut conn, &insert("a")), Outcome::Changed { rows: 1, last_id: 1 }));
    assert!(matches!(run(&mut conn, &insert("b")), Outcome::Changed { rows: 1, last_id: 2 }));
    assert!(matches!(
        run(&mut conn, &command("DELETE FROM tables", vec![])),
        Outcome::Changed { rows: 2, last_id: 2 }
    ));
    assert!(matches!(
        run(&mut conn, &command("DELETE FROM tables", vec![])),
        Outcome::Changed { rows: 0, .. }
    ));
}

#[test]
fn run_reads_rows_in_order_and_by_kind() {
    let mut conn = store();
    let sql = "SELECT ?1, ?2, ?3, 1.5, x'00' UNION ALL SELECT 2, 'b', NULL, 4, 5 ORDER BY 1";
    let params = vec![SqlValue::Integer(-7), SqlValue::Text("é".to_string()), SqlValue::Null];
    match run(&mut conn, &command(sql, params)) {
        Outcome::Rows(rows) => {
            assert_eq!(rows.len(), 2);
            assert_eq!(
                format!("{:?}", rows[0]),
                format!(
                    "{:?}",
                    vec![
                        SqlValue::Integer(-7),
                        SqlValue::Text("é".to_string()),
                        SqlValue::Null,
                        SqlValue::Other,
                        SqlValue::Other
                    ]
                )
            );
            assert_eq!(
                format!("{:?}", rows[1]),
                format!(
                    "{:?}",
                    vec![
                        SqlValue::Integer(2),
                        SqlValue::Text("b".to_string()),
                        SqlValue::Null,
                        SqlValue::Integer(4),
                        SqlValue::Integer(5)
                    ]
                )
            );
        }
        other => panic!("{:?}", other),
    }
    match run(&mut conn, &command("SELECT id FROM tables", vec![])) {
        Outcome::Rows(rows) => assert!(rows.is_empty()),
        other => panic!("{:?}", other),
    }
}

#[test]
fn run_binds_each_parameter_to_its_placeholder() {
    let mut conn = store();
    let sql = "SELECT ?2, ?1, ?3";
    let params = vec![SqlValue::Integer(1), SqlValue::Integer(2), SqlValue::Other];
    match run(&mut conn, &command(sql, params)) {
        Outcome::Rows(rows) => assert_eq!(
            format!("{:?}", rows),
            format!("{:?}", vec![vec![SqlValue::Integer(2), SqlValue::Integer(1), SqlValue::Null]])
        ),
        other => panic!("{:?}", other),
    }
}

#[test]
fn run_refuses_a_wrong_number_of_parameters() {
    let mut conn = store();
    let sql = "INSERT INTO tables (code) VALUES (?1)";
    assert!(matches!(run(&mut conn, &command(sql, vec![])), Outcome::Failed(Failure::Other)));
    let two = vec![SqlValue::Text("a".to_string()), SqlValue::Text("b".to_string())];
    assert!(matches!(run(&mut conn, &command(sql, two)), Outcome::Failed(Failure::Other)));
    assert_eq!(count(&conn, "tables"), 0);
}

#[test]
fn run_reports_failures_with_their_codes() {
    let mut conn = store();
    assert!(matches!(
        run(&mut conn, &command("SELEKT 1", vec![])),
        Outcome::Failed(Failure::Sqlite { extended_code: 1 })
    ));
    assert!(matches!(
        run(&mut conn, &command("INSERT INTO tables (code) VALUES (NULL)", vec![])),
        Outcome::Failed(Failure::Sqlite { extended_code: 1299 })
    ));
    assert!(matches!(
        run(&mut conn, &command("INSERT INTO orders (table_id) VALUES (?1)", vec![SqlValue::Integer(4)])),
        Outcome::Failed(Failure::Sqlite { extended_code: 787 })
    ));
}

#[test]
fn open_store_reports_a_path_that_cannot_be_opened() {
    let report = match open_store("/nonexistent-directory/none/store.db") {
        Ok(_) => panic!("opened a file in a directory that does not exist"),
        Err(report) => report,
    };
    assert_eq!(report.failure, Failure::Sqlite { extended_code: 14 });
    assert_eq!(report.words, "unable to open database file: /nonexistent-directory/none/store.db");
}

#[test]
fn open_store_switches_foreign_keys_on() {
    let conn = open_store(":memory:").unwrap();
    let on: i64 =
        conn.connection().query_row("PRAGMA foreign_keys", [], |row| row.get(0)).unwrap();
    assert_eq!(on, 1);
    let mut plain = bare();
    assert!(matches!(run(&mut plain, &enable_foreign_keys()), Outcome::Changed { .. }));
    let on: i64 =
        plain.connection().query_row("PRAGMA foreign_keys", [], |row| row.get(0)).unwrap();
    assert_eq!(on, 1);
}

#[test]
fn setup_twice_does_no_harm() {
    let mut conn = store();
    assert_eq!(request(&mut conn, "POST", "/tables/create", table_body("T1")).status, 201);
    assert!(set_up(&mut conn).is_ok());
    assert_eq!(count(&conn, "tables"), 1);
    for table in ["tables", "menus", "orders", "order_items"] {
        assert!(count(&conn, table) >= 0);
    }
}

#[test]
fn setup_stops_at_the_first_failure() {
    let mut conn = bare();
    conn.connection().execute_batch("PRAGMA query_only = ON;").unwrap();
    let report = set_up(&mut conn).unwrap_err();
    assert_eq!(report.failure, Failure::Sqlite { extended_code: 8 });
    assert_eq!(report.words, "attempt to write a readonly database");
    assert_eq!(conn.last_words(), "attempt to write a readonly database");
    conn.connection().execute_batch("PRAGMA query_only = OFF;").unwrap();
    let tables: i64 = conn
        .connection()
        .query_row("SELECT COUNT(*) FROM sqlite_master WHERE type = 'table'", [], |row| row.get(0))
        .unwrap();
    assert_eq!(tables, 0);
}

#[test]
fn setup_stops_in_the_middle_and_keeps_what_was_made() {
    let mut conn = bare();
    conn.connection().execute_batch("CREATE TABLE orders (id INTEGER PRIMARY KEY); CREATE INDEX order_items ON orders (id);").unwrap();
    let report = set_up(&mut conn).unwrap_err();
    assert_eq!(report.failure, Failure::Sqlite { extended_code: 1 });
    assert!(report.words.contains("order_items"), "{}", report.words);
    let made: i64 = conn
        .connection()
        .query_row(
            "SELECT COUNT(*) FROM sqlite_master WHERE type = 'table' AND name IN ('tables', 'menus')",
            [],
            |row| row.get(0),
        )
        .unwrap();
    assert_eq!(made, 2);
}

#[test]
fn setup_failure_becomes_an_abort() {
    let mut conn = bare();
    conn.connection().execute_batch("PRAGMA query_only = ON;").unwrap();
    let failure = match setup_step(1, None) {
        Setup::Execute(command) => match run(&mut conn, &command) {
            Outcome::Failed(failure) => failure,
            other => panic!("{:?}", other),
        },
        other => panic!("{:?}", other),
    };
    assert_eq!(failure, Failure::Sqlite { extended_code: 8 });
    assert!(matches!(setup_step(1, Some(failure)), Setup::Abort(f) if f == failure));
}

#[test]
fn words_are_those_of_the_last_statement() {
    let mut conn = store();
    assert_eq!(conn.last_words(), "");
    run(&mut conn, &command("SELEKT 1", vec![]));
    assert!(conn.last_words().contains("SELEKT"), "{}", conn.last_words());
    run(&mut conn, &command("SELECT 1", vec![SqlValue::Null]));
    assert_eq!(conn.last_words(), "the parameters are not as many as the placeholders");
    run(&mut conn, &command("SELECT 1", vec![]));
    assert_eq!(conn.last_words(), "");
}

#[test]
fn bind_all_binds_in_order_and_read_row_reads_in_order() {
    let conn = Connection::open_in_memory().unwrap();
    let mut prepared = conn.prepare("SELECT ?1, ?2, ?3").unwrap();
    let params = vec![SqlValue::Text("a".to_string()), SqlValue::Integer(2), SqlValue::Other];
    assert_eq!(bind_all(&mut prepared, &params), Ok(()));
    let mut rows = prepared.raw_query();
    let row = rows.next().unwrap().unwrap();
    let expected = vec![SqlValue::Text("a".to_string()), SqlValue::Integer(2), SqlValue::Null];
    assert_eq!(format!("{:?}", read_row(row, 3).unwrap()), format!("{:?}", expected));
    assert_eq!(format!("{:?}", read_row(row, 2).unwrap()), format!("{:?}", &expected[..2]));
    assert_eq!(read_row(row, 0).unwrap().len(), 0);
    assert!(read_row(row, 4).is_err());
}

#[test]
fn bind_all_of_nothing_succeeds_and_a_missing_placeholder_fails() {
    let conn = Connection::open_in_memory().unwrap();
    let mut prepared = conn.prepare("SELECT ?1").unwrap();
    assert_eq!(bind_all(&mut prepared, &vec![]), Ok(()));
    let two = vec![SqlValue::Integer(1), SqlValue::Integer(2)];
    assert_eq!(bind_all(&mut prepared, &two), Err(Failure::Sqlite { extended_code: 25 }));
}

#[test]
fn course_follows_the_counts() {
    assert_eq!(course(0, 0, 0), Course::Execute);
    assert_eq!(course(2, 2, 0), Course::Execute);
    assert_eq!(course(0, 0, 1), Course::Query);
    assert_eq!(course(3, 3, 5), Course::Query);
    assert_eq!(course(1, 0, 0), Course::Refuse);
    assert_eq!(course(0, 1, 4), Course::Refuse);
    assert_eq!(course(2, 3, 0), Course::Refuse);
}

#[test]
fn scenario_table_then_order_then_conflict() {
    let mut conn = store();
    let r = request(&mut conn, "POST", "/tables/create", table_body("T1"));
    assert_eq!(r.status, 201);
    match r.payload {
        Payload::Table(t) => assert_eq!((t.id, t.code.as_str()), (1, "T1")),
        other => panic!("{:?}", other),
    }
    let r = request(&mut conn, "POST", "/orders/create", order_body(1));
    assert_eq!(r.status, 201);
    assert!(matches!(r.payload, Payload::Order(Order { id: 1, table_id: 1 })));
    let r = request(&mut conn, "POST", "/orders/create", order_body(1));
    assert_eq!(error_of(r), (409, "conflict"));
    assert_eq!(count(&conn, "orders"), 1);
}

#[test]
fn scenario_items_of_a_missing_table_is_an_empty_list() {
    let mut conn = store();
    let r = request(&mut conn, "GET", "/tables/999/items", Body::Nothing);
    assert_eq!(r.status, 200);
    match r.payload {
        Payload::Items(items) => assert!(items.is_empty()),
        other => panic!("{:?}", other),
    }
}

#[test]
fn same_code_twice_is_a_conflict_and_one_row_stays() {
    for code in ["T1", "", "a b", "x'); DROP TABLE tables; --", "桌子"] {
        let mut conn = store();
        let input = TableInput { code: Some(code.to_string()) };
        assert_eq!(create_table_handler(&mut conn, &input).status, 201);
        assert_eq!(error_of(create_table_handler(&mut conn, &input)), (409, "conflict"));
        assert_eq!(count(&conn, "tables"), 1);
        let kept: String = conn.connection().query_row("SELECT code FROM tables", [], |row| row.get(0)).unwrap();
        assert_eq!(kept, code);
    }
}

#[test]
fn order_for_a_missing_table_is_not_found_and_no_row_is_made() {
    let mut conn = store();
    assert_eq!(request(&mut conn, "POST", "/tables/create", table_body("T1")).status, 201);
    for table_id in [2, 999, 0, -1, i64::MAX, i64::MIN] {
        let r = create_order_handler(&mut conn, &OrderInput { table_id: Some(table_id) });
        assert_eq!(error_of(r), (404, "not found"), "table {}", table_id);
        assert_eq!(count(&conn, "orders"), 0);
    }
}

#[test]
fn lists_are_as_long_as_the_creates_that_succeeded() {
    let mut conn = store();
    let tables = |conn: &mut Store| match list_table_handler(conn).payload {
        Payload::Tables(t) => t.into_iter().map(|t| (t.id, t.code)).collect::<Vec<_>>(),
        other => panic!("{:?}", other),
    };
    assert_eq!(tables(&mut conn), vec![]);
    let mut created = 0;
    for code in ["B", "A", "B", "C", "A"] {
        if request(&mut conn, "POST", "/tables/create", table_body(code)).status == 201 {
            created += 1;
        }
    }
    let listed = tables(&mut conn);
    assert_eq!(created, 3);
    assert_eq!(listed.len(), created);
    assert_eq!(listed, tables(&mut conn));
    let ids: Vec<i64> = listed.iter().map(|t| t.0).collect();
    let mut sorted = ids.clone();
    sorted.sort();
    assert_eq!(ids, sorted);
    let codes: Vec<&str> = listed.iter().map(|t| t.1.as_str()).collect();
    assert_eq!(codes, vec!["B", "A", "C"]);
}

#[test]
fn menus_and_orders_are_listed() {
    let mut conn = store();
    for name in ["Soup", "Tea", "Soup"] {
        let input = MenuInput { name: Some(name.to_string()) };
        assert_eq!(create_menu_handler(&mut conn, &input).status, 201);
    }
    match request(&mut conn, "GET", "/menu", Body::Nothing).payload {
        Payload::Menus(menus) => {
            let got: Vec<(i64, String)> = menus.into_iter().map(|m| (m.id, m.name)).collect();
            assert_eq!(
                got,
                vec![(1, "Soup".to_string()), (2, "Tea".to_string()), (3, "Soup".to_string())]
            );
        }
        other => panic!("{:?}", other),
    }
    match list_menu_handler(&mut conn).payload {
        Payload::Menus(menus) => assert_eq!(menus.len(), 3),
        other => panic!("{:?}", other),
    }
    request(&mut conn, "POST", "/tables/create", table_body("T1"));
    request(&mut conn, "POST", "/tables/create", table_body("T2"));
    assert_eq!(request(&mut conn, "POST", "/orders/create", order_body(2)).status, 201);
    assert_eq!(request(&mut conn, "POST", "/orders/create", order_body(1)).status, 201);
    assert_eq!(request(&mut conn, "POST", "/orders/create", order_body(3)).status, 404);
    match request(&mut conn, "GET", "/orders", Body::Nothing).payload {
        Payload::Orders(mut orders) => {
            orders.sort_by_key(|o| o.id);
            assert_eq!(orders, vec![Order { id: 1, table_id: 2 }, Order { id: 2, table_id: 1 }]);
        }
        other => panic!("{:?}", other),
    }
    match list_order_handler(&mut conn).payload {
        Payload::Orders(orders) => assert_eq!(orders.len(), 2),
        other => panic!("{:?}", other),
    }
}

#[test]
fn menu_created_through_its_route() {
    let mut conn = store();
    let r = request(&mut conn, "POST", "/menus/create", menu_body("Tea"));
    assert_eq!(r.status, 201);
    match r.payload {
        Payload::Menu(m) => assert_eq!((m.id, m.name.as_str()), (1, "Tea")),
        other => panic!("{:?}", other),
    }
    let r = request(&mut conn, "POST", "/menus/create", Body::Malformed);
    assert_eq!(error_of(r), (400, "Failed to deserialize request body"));
    let r = request(&mut conn, "POST", "/menus/create", Body::Menu(MenuInput { name: None }));
    assert_eq!(error_of(r), (400, "invalid request"));
    assert_eq!(count(&conn, "menus"), 1);
}

#[test]
fn requests_without_a_route_are_not_found() {
    let mut conn = store();
    assert_eq!(error_of(request(&mut conn, "GET", "/nowhere", Body::Nothing)), (404, "not found"));
    assert_eq!(error_of(request(&mut conn, "PUT", "/tables", Body::Nothing)), (404, "not found"));
    assert_eq!(error_of(request(&mut conn, "POST", "/tables", table_body("T1"))), (404, "not found"));
    assert_eq!(error_of(request(&mut conn, "GET", "/tables/x/items", Body::Nothing)), (404, "not found"));
    assert_eq!(count(&conn, "tables"), 0);
}

#[test]
fn serve_runs_the_handler_of_the_target() {
    let mut conn = store();
    assert_eq!(serve(&mut conn, Target::CreateTable, &table_body("T1")).status, 201);
    assert_eq!(serve(&mut conn, Target::CreateOrder, &order_body(1)).status, 201);
    assert_eq!(serve(&mut conn, Target::CreateMenu, &menu_body("Tea")).status, 201);
    assert_eq!(serve(&mut conn, Target::ListTables, &Body::Nothing).status, 200);
    assert_eq!(serve(&mut conn, Target::ListMenus, &Body::Nothing).status, 200);
    assert_eq!(serve(&mut conn, Target::ListOrders, &Body::Nothing).status, 200);
    assert_eq!(serve(&mut conn, Target::ListOrderItemsForTable { table_id: 1 }, &Body::Nothing).status, 200);
    assert_eq!(
        serve(&mut conn, Target::GetOrderItemForTable { table_id: 1, menu_id: 1 }, &Body::Nothing).status,
        404
    );
    assert_eq!(
        serve(&mut conn, Target::DeleteOrderItem { table_id: 1, menu_id: 1 }, &Body::Nothing).status,
        404
    );
    assert_eq!(error_of(serve(&mut conn, Target::CreateTable, &Body::Nothing)).0, 400);
    assert_eq!(count(&conn, "tables"), 1);
}

#[test]
fn deleting_a_missing_item_is_not_found() {
    let mut conn = store();
    assert_eq!(error_of(delete_order_item_handler(&mut conn, 1, 1)), (404, "not found"));
    request(&mut conn, "POST", "/tables/create", table_body("T1"));
    request(&mut conn, "POST", "/orders/create", order_body(1));
    let r = request(&mut conn, "DELETE", "/orders/1/items/1", Body::Nothing);
    assert_eq!(error_of(r), (404, "not found"));
}

#[test]
fn item_round_trip_with_defaults() {
    let mut conn = store();
    request(&mut conn, "POST", "/tables/create", table_body("T1"));
    request(&mut conn, "POST", "/orders/create", order_body(1));
    request(&mut conn, "POST", "/menus/create", menu_body("Tea"));
    let input = OrderItemInput { order_id: Some(1), menu_id: Some(1), cooking_time: Some(7), quantity: None };
    let r = create_order_item_handler(&mut conn, &input);
    assert_eq!(r.status, 201);
    assert!(matches!(
        r.payload,
        Payload::Item(OrderItem { id: 1, order_id: 1, menu_id: Some(1), cooking_time: 7, quantity: 1 })
    ));
    let stored: i64 =
        conn.connection().query_row("SELECT quantity FROM order_items WHERE id = 1", [], |row| row.get(0)).unwrap();
    assert_eq!(stored, 1);
    let r = get_order_item_for_table_handler(&mut conn, 1, 1);
    assert_eq!(r.status, 200);
    assert!(matches!(
        r.payload,
        Payload::Item(OrderItem { id: 1, order_id: 1, menu_id: Some(1), cooking_time: 7, quantity: 1 })
    ));
}

#[test]
fn item_without_menu_is_listed_but_not_found_by_menu() {
    let mut conn = store();
    request(&mut conn, "POST", "/tables/create", table_body("T1"));
    request(&mut conn, "POST", "/orders/create", order_body(1));
    let input = OrderItemInput { order_id: Some(1), menu_id: None, cooking_time: Some(3), quantity: Some(2) };
    assert_eq!(create_order_item_handler(&mut conn, &input).status, 201);
    let null: bool = conn
        .connection()
        .query_row("SELECT menu_id IS NULL FROM order_items WHERE id = 1", [], |row| row.get(0))
        .unwrap();
    assert!(null);
    match list_order_items_for_table_handler(&mut conn, 1).payload {
        Payload::Items(items) => assert_eq!(
            items,
            vec![OrderItem { id: 1, order_id: 1, menu_id: None, cooking_time: 3, quantity: 2 }]
        ),
        other => panic!("{:?}", other),
    }
    assert_eq!(request(&mut conn, "GET", "/tables/1/items/0", Body::Nothing).status, 404);
    assert_eq!(request(&mut conn, "GET", "/tables/1/items/1", Body::Nothing).status, 404);
    assert_eq!(request(&mut conn, "DELETE", "/orders/1/items/0", Body::Nothing).status, 404);
    assert_eq!(count(&conn, "order_items"), 1);
}

#[test]
fn item_with_bad_input_runs_nothing() {
    let mut conn = store();
    let input = OrderItemInput { order_id: Some(1), menu_id: None, cooking_time: Some(-3), quantity: None };
    assert_eq!(error_of(create_order_item_handler(&mut conn, &input)), (400, "invalid request"));
    let input = OrderItemInput { order_id: None, menu_id: None, cooking_time: Some(3), quantity: None };
    assert_eq!(error_of(create_order_item_handler(&mut conn, &input)), (400, "invalid request"));
    assert_eq!(error_of(create_table_handler(&mut conn, &TableInput { code: None })), (400, "invalid request"));
    assert_eq!(error_of(create_order_handler(&mut conn, &OrderInput { table_id: None })), (400, "invalid request"));
    assert_eq!(count(&conn, "order_items") + count(&conn, "tables") + count(&conn, "orders"), 0);
}

#[test]
fn item_for_a_missing_order_or_menu_is_not_found() {
    let mut conn = store();
    request(&mut conn, "POST", "/tables/create", table_body("T1"));
    request(&mut conn, "POST", "/orders/create", order_body(1));
    let input = OrderItemInput { order_id: Some(9), menu_id: None, cooking_time: Some(3), quantity: None };
    assert_eq!(error_of(create_order_item_handler(&mut conn, &input)), (404, "not found"));
    let input = OrderItemInput { order_id: Some(1), menu_id: Some(9), cooking_time: Some(3), quantity: None };
    assert_eq!(error_of(create_order_item_handler(&mut conn, &input)), (404, "not found"));
    assert_eq!(count(&conn, "order_items"), 0);
}

#[test]
fn items_are_found_by_table_and_deleted_by_table_and_menu() {
    let mut conn = store();
    for code in ["T1", "T2"] {
        request(&mut conn, "POST", "/tables/create", table_body(code));
    }
    request(&mut conn, "POST", "/orders/create", order_body(2));
    request(&mut conn, "POST", "/orders/create", order_body(1));
    for name in ["Soup", "Tea"] {
        request(&mut conn, "POST", "/menus/create", menu_body(name));
    }
    let item = |order_id, menu_id| OrderItemInput {
        order_id: Some(order_id),
        menu_id: Some(menu_id),
        cooking_time: Some(5),
        quantity: None,
    };
    assert_eq!(create_order_item_handler(&mut conn, &item(1, 1)).status, 201);
    assert_eq!(create_order_item_handler(&mut conn, &item(1, 2)).status, 201);
    assert_eq!(create_order_item_handler(&mut conn, &item(2, 2)).status, 201);
    assert_eq!(create_order_item_handler(&mut conn, &item(1, 2)).status, 201);
    let listed = |conn: &mut Store, table: i64| match request(conn, "GET", &format!("/tables/{}/items", table), Body::Nothing)
        .payload
    {
        Payload::Items(mut items) => {
            items.sort_by_key(|i| i.id);
            items.into_iter().map(|i| (i.id, i.order_id, i.menu_id)).collect::<Vec<_>>()
        }
        other => panic!("{:?}", other),
    };
    assert_eq!(listed(&mut conn, 2), vec![(1, 1, Some(1)), (2, 1, Some(2)), (4, 1, Some(2))]);
    assert_eq!(listed(&mut conn, 1), vec![(3, 2, Some(2))]);
    match request(&mut conn, "GET", "/tables/2/items/2", Body::Nothing).payload {
        Payload::Item(found) => assert_eq!(found.id, 2),
        other => panic!("{:?}", other),
    }
    assert_eq!(request(&mut conn, "GET", "/tables/1/items/1", Body::Nothing).status, 404);
    let r = request(&mut conn, "DELETE", "/orders/2/items/2", Body::Nothing);
    assert_eq!(r.status, 204);
    assert!(matches!(r.payload, Payload::Empty));
    assert_eq!(listed(&mut conn, 2), vec![(1, 1, Some(1))]);
    assert_eq!(listed(&mut conn, 1), vec![(3, 2, Some(2))]);
    assert_eq!(request(&mut conn, "DELETE", "/orders/2/items/2", Body::Nothing).status, 404);
}

#[test]
fn driver_errors_are_told_apart() {
    let mut conn = store();
    conn.connection().execute("INSERT INTO tables (code) VALUES ('T1')", []).unwrap();
    let unique = conn.connection().execute("INSERT INTO tables (code) VALUES ('T1')", []).unwrap_err();
    assert_eq!(failure_of(&unique), Failure::Sqlite { extended_code: 2067 });
    assert_eq!(classify(failure_of(&unique)), ApiError::Conflict);
    let key = conn.connection().execute("INSERT INTO tables (id, code) VALUES (1, 'T2')", []).unwrap_err();
    assert_eq!(failure_of(&key), Failure::Sqlite { extended_code: 1555 });
    assert_eq!(classify(failure_of(&key)), ApiError::Conflict);
    let foreign = conn.connection().execute("INSERT INTO orders (table_id) VALUES (5)", []).unwrap_err();
    assert_eq!(failure_of(&foreign), Failure::Sqlite { extended_code: 787 });
    assert_eq!(classify(failure_of(&foreign)), ApiError::NotFound);
    let null = conn.connection().execute("INSERT INTO tables (code) VALUES (NULL)", []).unwrap_err();
    assert_eq!(failure_of(&null), Failure::Sqlite { extended_code: 1299 });
    assert_eq!(classify(failure_of(&null)), ApiError::Store);
    let syntax = conn.connection().execute("SELEKT 1", []).unwrap_err();
    assert_eq!(failure_of(&syntax), Failure::Sqlite { extended_code: 1 });
    assert_eq!(classify(failure_of(&syntax)), ApiError::Store);
    assert_eq!(failure_of(&rusqlite::Error::QueryReturnedNoRows), Failure::Other);
    assert_eq!(failure_of(&rusqlite::Error::InvalidQuery), Failure::Other);
    assert_eq!(classify(failure_of(&rusqlite::Error::ExecuteReturnedResults)), ApiError::Store);
}

#[test]
fn result_codes_become_failures() {
    assert_eq!(failure_from_code(Some(2067)), Failure::Sqlite { extended_code: 2067 });
    assert_eq!(failure_from_code(Some(0)), Failure::Sqlite { extended_code: 0 });
    assert_eq!(failure_from_code(Some(-1)), Failure::Sqlite { extended_code: -1 });
    assert_eq!(failure_from_code(None), Failure::Other);
}

#[test]
fn a_store_without_tables_is_a_store_error() {
    let mut conn = open_store(":memory:").unwrap();
    assert_eq!(error_of(list_table_handler(&mut conn)), (500, "internal server error"));
    assert_eq!(error_of(request(&mut conn, "POST", "/tables/create", table_body("T1"))).0, 500);
}
