use enter_text_lars::ident::{record_id, PROTO_ID};
use enter_text_lars::service::{
    delete_result, delete_statement, read_result, read_statement, write_result, write_statement,
    Fetched, ServiceError, EMPTY_DATABASE,
};
use enter_text_lars::statement::{
    Statement, CREATE_TABLE_CQL, DELETE_CQL, SELECT_CQL, UPSERT_CQL,
};
use enter_text_lars::store::{
    delete_content, get_content, initialize_schema, save_content, Database, Table,
};
use enter_text_lars::text::{blank, white_space};

fn database_error(message: &str) -> ServiceError {
    ServiceError::Database { message: message.to_string() }
}

#[test]
fn write_read_overwrite_delete_scenario() {
    let mut table = Table::new();
    assert_eq!(save_content(&mut table, "hello".to_string()), Ok("hello".to_string()));
    assert_eq!(get_content(&table), Ok("hello".to_string()));
    assert_eq!(save_content(&mut table, "world".to_string()), Ok("world".to_string()));
    assert_eq!(get_content(&table), Ok("world".to_string()));
    assert_eq!(delete_content(&mut table), Ok(()));
    assert_eq!(get_content(&table), Ok("Database is empty".to_string()));
    assert_eq!(save_content(&mut table, "   ".to_string()), Err(ServiceError::Empty));
    assert_eq!(get_content(&table), Ok("Database is empty".to_string()));
}

#[test]
fn read_gives_back_what_was_written() {
    for content in ["a", " padded ", "two\nlines", "naïve café", "\u{3000}x", "Database is empty"] {
        let mut table = Table { row: Some("before".to_string()) };
        assert_eq!(save_content(&mut table, content.to_string()), Ok(content.to_string()));
        assert_eq!(table.row.as_deref(), Some(content));
        assert_eq!(get_content(&table), Ok(content.to_string()));
    }
}

#[test]
fn blank_write_is_refused_and_changes_nothing() {
    for content in ["", " ", "   ", "\t\r\n", "\u{a0}\u{2003}\u{3000}", "\u{85}\u{1680}\u{2028}"] {
        let mut empty = Table::new();
        assert_eq!(save_content(&mut empty, content.to_string()), Err(ServiceError::Empty));
        assert_eq!(empty, Table { row: None });
        let mut full = Table { row: Some("kept".to_string()) };
        assert_eq!(save_content(&mut full, content.to_string()), Err(ServiceError::Empty));
        assert_eq!(get_content(&full), Ok("kept".to_string()));
    }
}

#[test]
fn read_after_delete_gives_the_sentinel() {
    let mut table = Table { row: Some("something".to_string()) };
    assert_eq!(delete_content(&mut table), Ok(()));
    assert_eq!(table.row, None);
    assert_eq!(get_content(&table), Ok(EMPTY_DATABASE.to_string()));
}

#[test]
fn delete_of_nothing_succeeds() {
    let mut table = Table::new();
    assert_eq!(delete_content(&mut table), Ok(()));
    assert_eq!(table, Table::new());
    assert_eq!(delete_content(&mut table), Ok(()));
}

#[test]
fn read_of_nothing_gives_the_sentinel() {
    let table = Table::new();
    assert_eq!(get_content(&table), Ok("Database is empty".to_string()));
    assert_eq!(table.row, None);
    assert_eq!(EMPTY_DATABASE, "Database is empty");
}

#[test]
fn read_leaves_the_table_as_it_was() {
    let table = Table { row: Some("still here".to_string()) };
    assert_eq!(get_content(&table), Ok("still here".to_string()));
    assert_eq!(get_content(&table), Ok("still here".to_string()));
    assert_eq!(table.row.as_deref(), Some("still here"));
}

#[test]
fn schema_initialized_twice() {
    let mut database = Database::new();
    assert_eq!(database.table, None);
    initialize_schema(&mut database);
    assert_eq!(database.table, Some(Table { row: None }));
    initialize_schema(&mut database);
    assert_eq!(database.table, Some(Table { row: None }));
}

#[test]
fn schema_initialization_keeps_the_rows() {
    let mut database = Database { table: Some(Table { row: Some("kept".to_string()) }) };
    initialize_schema(&mut database);
    assert_eq!(database.table, Some(Table { row: Some("kept".to_string()) }));
    let table = database.table.as_ref().unwrap();
    assert_eq!(get_content(table), Ok("kept".to_string()));
}

#[test]
fn table_executes_each_statement() {
    let mut table = Table::new();
    assert_eq!(table.execute(&Statement::Select), None);
    assert_eq!(table.execute(&Statement::Upsert { content: "x".to_string() }), None);
    assert_eq!(table.execute(&Statement::Select), Some("x".to_string()));
    assert_eq!(table.execute(&Statement::CreateTable), None);
    assert_eq!(table.execute(&Statement::Select), Some("x".to_string()));
    assert_eq!(table.execute(&Statement::Upsert { content: "y".to_string() }), None);
    assert_eq!(table.execute(&Statement::Select), Some("y".to_string()));
    assert_eq!(table.fetch(&Statement::Select), Some("y".to_string()));
    assert_eq!(table.fetch(&Statement::Delete), None);
    assert_eq!(table.row.as_deref(), Some("y"));
    assert_eq!(table.execute(&Statement::Delete), None);
    assert_eq!(table.execute(&Statement::Select), None);
}

#[test]
fn read_reply_for_each_outcome() {
    assert_eq!(read_statement(), Statement::Select);
    assert_eq!(read_result(Fetched::Row { content: "text".to_string() }), Ok("text".to_string()));
    assert_eq!(read_result(Fetched::NoRow), Ok("Database is empty".to_string()));
    assert_eq!(
        read_result(Fetched::QueryFailed { reason: "timeout".to_string() }),
        Err(database_error("ScyllaDB error: timeout"))
    );
    assert_eq!(
        read_result(Fetched::DecodeFailed { reason: "not a text".to_string() }),
        Err(database_error("Type error: not a text"))
    );
}

#[test]
fn write_statement_and_reply() {
    assert_eq!(
        write_statement("  keep the spaces  "),
        Ok(Statement::Upsert { content: "  keep the spaces  ".to_string() })
    );
    assert_eq!(write_statement(" \t "), Err(ServiceError::Empty));
    assert_eq!(write_statement(""), Err(ServiceError::Empty));
    assert_eq!(write_result("text".to_string(), Ok(())), Ok("text".to_string()));
    assert_eq!(
        write_result("text".to_string(), Err("unavailable".to_string())),
        Err(database_error("Write error: unavailable"))
    );
}

#[test]
fn delete_statement_and_reply() {
    assert_eq!(delete_statement(), Statement::Delete);
    assert_eq!(delete_result(Ok(())), Ok(()));
    assert_eq!(
        delete_result(Err("unavailable".to_string())),
        Err(database_error("Delete error: unavailable"))
    );
}

#[test]
fn error_messages() {
    assert_eq!(ServiceError::Empty.message(), "Empty");
    assert_eq!(database_error("Write error: x").message(), "Write error: x");
}

#[test]
fn statement_texts_and_bindings() {
    assert_eq!(
        Statement::CreateTable.cql(),
        "CREATE TABLE IF NOT EXISTS prototype.data (id uuid PRIMARY KEY, content text, created_at timestamp)"
    );
    assert_eq!(Statement::CreateTable.cql(), CREATE_TABLE_CQL);
    assert_eq!(Statement::Select.cql(), "SELECT content FROM prototype.data WHERE id = ? LIMIT 1");
    assert_eq!(Statement::Select.cql(), SELECT_CQL);
    let upsert = Statement::Upsert { content: "c".to_string() };
    assert_eq!(
        upsert.cql(),
        "INSERT INTO prototype.data (id, content, created_at) VALUES (?, ?, toTimestamp(now()))"
    );
    assert_eq!(upsert.cql(), UPSERT_CQL);
    assert_eq!(Statement::Delete.cql(), "DELETE FROM prototype.data WHERE id = ?");
    assert_eq!(Statement::Delete.cql(), DELETE_CQL);

    assert!(!Statement::CreateTable.binds_key());
    assert!(Statement::Select.binds_key());
    assert!(upsert.binds_key());
    assert!(Statement::Delete.binds_key());

    assert_eq!(Statement::CreateTable.bound_content(), None);
    assert_eq!(Statement::Select.bound_content(), None);
    assert_eq!(upsert.bound_content(), Some("c"));
    assert_eq!(Statement::Delete.bound_content(), None);
}

#[test]
fn record_key_is_parsed() {
    assert_eq!(PROTO_ID, "11111111-1111-1111-1111-111111111111");
    assert_eq!(record_id(), Some(0x1111_1111_1111_1111_1111_1111_1111_1111_u128));
    assert_eq!(
        record_id().map(uuid::Uuid::from_u128),
        uuid::Uuid::parse_str("11111111-1111-1111-1111-111111111111").ok()
    );
}

#[test]
fn white_space_agrees_with_std() {
    let mut code: u32 = 0;
    while code <= 0x10FFFF {
        if let Some(c) = char::from_u32(code) {
            assert_eq!(white_space(c), c.is_whitespace(), "U+{:04X}", code);
        }
        code += 1;
    }
}

#[test]
fn blank_is_an_empty_trim() {
    for s in ["", " ", "a", " a", "a ", " a ", "\n\t", "\u{2000}\u{200a}", "\u{200b}", " \u{feff}", "   x   "] {
        assert_eq!(blank(s), s.trim().is_empty(), "{:?}", s);
    }
    assert!(blank("   "));
    assert!(!blank(" . "));
}
