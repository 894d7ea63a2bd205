use app_server::error::Failure;
use app_server::schema::{
    create_menu_table_if_not_exists, create_order_item_table_if_not_exists,
    create_order_table_if_not_exists, create_table_table_if_not_exists, enable_foreign_keys,
    setup_step, Setup, SETUP_LENGTH,
};

fn sql_at(completed: usize) -> &'static str {
    match setup_step(completed, None) {
        Setup::Execute(s) => {
            assert!(s.params.is_empty());
            s.sql
        }
        other => panic!("{:?}", other),
    }
}

#[test]
fn setup_runs_foreign_keys_first() {
    assert_eq!(sql_at(0), "PRAGMA foreign_keys = ON;");
    assert_eq!(enable_foreign_keys().sql, "PRAGMA foreign_keys = ON;");
}

#[test]
fn setup_creates_each_table_after_those_it_refers_to() {
    assert_eq!(sql_at(1), create_table_table_if_not_exists().sql);
    assert_eq!(sql_at(2), create_menu_table_if_not_exists().sql);
    assert_eq!(sql_at(3), create_order_table_if_not_exists().sql);
    assert_eq!(sql_at(4), create_order_item_table_if_not_exists().sql);
    assert!(sql_at(1).starts_with("CREATE TABLE IF NOT EXISTS tables "));
    assert!(sql_at(2).starts_with("CREATE TABLE IF NOT EXISTS menus "));
    assert!(sql_at(3).starts_with("CREATE TABLE IF NOT EXISTS orders "));
    assert!(sql_at(4).starts_with("CREATE TABLE IF NOT EXISTS order_items "));
}

#[test]
fn setup_is_ready_after_the_last_statement() {
    assert_eq!(SETUP_LENGTH, 5);
    assert!(matches!(setup_step(5, None), Setup::Ready));
    assert!(matches!(setup_step(6, None), Setup::Ready));
    assert!(matches!(setup_step(usize::MAX, None), Setup::Ready));
}

#[test]
fn setup_aborts_on_any_failure() {
    let failure = Failure::Sqlite { extended_code: 1 };
    for completed in 0..7 {
        assert!(matches!(setup_step(completed, Some(failure)), Setup::Abort(f) if f == failure));
    }
    assert!(matches!(setup_step(0, Some(Failure::Other)), Setup::Abort(Failure::Other)));
}

#[test]
fn schema_declares_the_constraints() {
    assert!(create_table_table_if_not_exists().sql.contains("code TEXT NOT NULL UNIQUE"));
    assert!(create_menu_table_if_not_exists().sql.contains("name TEXT NOT NULL"));
    let orders = create_order_table_if_not_exists().sql;
    assert!(orders.contains("FOREIGN KEY (table_id) REFERENCES tables(id)"));
    assert!(orders.contains("UNIQUE(table_id)"));
    let items = create_order_item_table_if_not_exists().sql;
    assert!(items.contains("FOREIGN KEY (order_id) REFERENCES orders(id)"));
    assert!(items.contains("FOREIGN KEY (menu_id) REFERENCES menus(id)"));
    assert!(items.contains("quantity INTEGER NOT NULL default 1"));
    assert!(items.contains("menu_id INTEGER NULL"));
    assert!(items.contains("cooking_time NOT NULL"));
}
