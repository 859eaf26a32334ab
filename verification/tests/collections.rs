use adrodb::{Bound, DatabaseTable, Scalar, ScalarKind, Statement, StoreError, Table};
use rusqlite::{Connection, Error};

fn text(s: &str) -> Scalar {
    Scalar::Text(s.to_string())
}

#[test]
fn test_table_new() {
    let table = Table::new("test");
    assert_eq!(table.name(), "test");
}

#[test]
fn test_table_create() -> Result<(), Error> {
    let connection = Connection::open_in_memory()?;
    let table = Table::new("test");

    let result = table.create(&connection);

    assert_eq!(true, result.is_ok());

    // Dropping the table fails unless it was created.
    let result = connection.execute("DROP TABLE test", ());

    assert_eq!(true, result.is_ok());

    Ok(())
}

#[test]
fn test_table_insert() -> Result<(), Error> {
    let conn = Connection::open_in_memory()?;
    let table = Table::new("test");
    let table = table.create(&conn).unwrap();

    let result = table.set("jimmy", &text("abc@abc.com"));
    assert_eq!(true, result.is_ok());

    let mut stmt = conn.prepare(&format!("SELECT * from {}", table.name()))?;
    let mut rows = stmt.query([])?;
    let first = rows.next()?;

    assert_eq!(true, first.is_some());
    let key: String = first.unwrap().get(0)?;
    assert_eq!("jimmy".to_owned(), key);

    Ok(())
}

#[test]
fn test_existing_table() {
    let conn = Connection::open_in_memory().unwrap();
    let table = Table::existing("nope", &conn);
    let result = table.set("key", &text("value"));

    assert_eq!(true, result.is_err());

    let table = Table::new("users");
    table.create(&conn).unwrap();
    let table = Table::existing("users", &conn).set("key1", &text("value"));

    assert_eq!(true, table.is_ok());
}

#[test]
fn test_getting_missing_key() {
    let conn = Connection::open_in_memory().unwrap();
    let table = Table::new("users");
    let table = table.create(&conn).unwrap();

    let result = table.get("jimmy", ScalarKind::Text);

    assert_eq!(true, result.is_err());
}

#[test]
fn test_getting_valid_key() {
    let conn = Connection::open_in_memory().unwrap();
    let table = Table::new("users");
    let table = table.create(&conn).unwrap();

    table.set("jimmy", &text("abc")).unwrap();

    let result = table.get("jimmy", ScalarKind::Text);

    assert_eq!(true, result.is_ok());
    assert_eq!(text("abc"), result.unwrap());
}

#[test]
fn test_casting_results() {
    let conn = Connection::open_in_memory().unwrap();
    let table = Table::new("users");
    let table = table.create(&conn).unwrap();

    table.set("jim", &text("123")).unwrap();
    table.set("jimmy", &Scalar::Integer(123)).unwrap();
    table.set("bob", &Scalar::Boolean(true)).unwrap();

    let result = table.get("jimmy", ScalarKind::Integer);
    assert_eq!(Scalar::Integer(123), result.unwrap());

    let result = table.get("jim", ScalarKind::Text);
    assert_eq!(text("123"), result.unwrap());

    let result = table.get("bob", ScalarKind::Boolean);
    assert_eq!(Scalar::Boolean(true), result.unwrap());
}

#[test]
fn test_removing_by_key() {
    let conn = Connection::open_in_memory().unwrap();
    let table = Table::new("users");
    let db = table.create(&conn).unwrap();
    db.set("jimmy", &text("bean")).unwrap();

    let jimmy = db.get("jimmy", ScalarKind::Text).unwrap();
    assert_eq!(jimmy, text("bean"));

    db.remove("jimmy").unwrap();

    let jimmy = db.get("jimmy", ScalarKind::Text);
    assert_eq!(true, jimmy.is_err());
}

#[test]
fn test_removing_by_missing_key() {
    let conn = Connection::open_in_memory().unwrap();
    let table = Table::new("users");
    let db = table.create(&conn).unwrap();

    let result = db.remove("unknown");

    assert_eq!(true, result.is_ok());
    assert_eq!(0, result.unwrap());
}

fn users(conn: &Connection) -> DatabaseTable<'_> {
    Table::existing("users", conn)
}

fn fresh() -> Connection {
    let conn = Connection::open_in_memory().unwrap();
    Table::new("users").create(&conn).unwrap();
    conn
}

#[test]
fn user_emails_scenario() {
    let conn = Connection::open_in_memory().unwrap();
    let table = Table::new("user_emails");
    let emails = table.create(&conn).unwrap();

    assert_eq!(emails.set("jimmy", &text("abc@abc.com")), Ok(1));
    assert_eq!(emails.get("jimmy", ScalarKind::Text), Ok(text("abc@abc.com")));
    assert_eq!(emails.remove("jimmy"), Ok(1));
    assert_eq!(emails.get("jimmy", ScalarKind::Text), Err(StoreError::NotFound));
}

#[test]
fn each_kind_is_read_back_exactly() {
    let conn = fresh();
    let db = users(&conn);
    let values = vec![
        ("empty", text("")),
        ("word", text("caf\u{e9} \u{1f600}")),
        ("digits", text("0042")),
        ("zero", Scalar::Integer(0)),
        ("least", Scalar::Integer(i64::MIN)),
        ("greatest", Scalar::Integer(i64::MAX)),
        ("yes", Scalar::Boolean(true)),
        ("no", Scalar::Boolean(false)),
    ];
    for (key, value) in &values {
        assert_eq!(db.set(key, value), Ok(1));
    }
    for (key, value) in &values {
        assert_eq!(db.get(key, value.kind()), Ok(value.clone()));
    }
}

#[test]
fn removing_an_absent_key_counts_nothing() {
    let conn = fresh();
    let db = users(&conn);
    assert_eq!(db.remove(""), Ok(0));
    assert_eq!(db.remove("unknown"), Ok(0));
    db.set("known", &Scalar::Integer(1)).unwrap();
    assert_eq!(db.remove("unknown"), Ok(0));
    assert_eq!(db.get("known", ScalarKind::Integer), Ok(Scalar::Integer(1)));
}

#[test]
fn removing_a_present_key_counts_one_and_the_key_is_gone() {
    let conn = fresh();
    let db = users(&conn);
    db.set("a", &Scalar::Integer(1)).unwrap();
    db.set("b", &Scalar::Integer(2)).unwrap();
    assert_eq!(db.remove("a"), Ok(1));
    assert_eq!(db.get("a", ScalarKind::Integer), Err(StoreError::NotFound));
    assert_eq!(db.get("b", ScalarKind::Integer), Ok(Scalar::Integer(2)));
    assert_eq!(db.remove("a"), Ok(0));
}

#[test]
fn creating_twice_keeps_the_rows() {
    let conn = Connection::open_in_memory().unwrap();
    let table = Table::new("users");
    let first = table.create(&conn).unwrap();
    first.set("jimmy", &text("bean")).unwrap();
    let second = table.create(&conn);
    assert!(second.is_ok());
    let second = second.unwrap();
    assert_eq!(second.name(), "users");
    assert_eq!(second.get("jimmy", ScalarKind::Text), Ok(text("bean")));
}

#[test]
fn setting_a_key_twice_is_refused_and_keeps_the_first_value() {
    let conn = fresh();
    let db = users(&conn);
    assert_eq!(db.set("k", &text("v1")), Ok(1));
    assert_eq!(db.set("k", &text("v2")), Err(StoreError::ConstraintViolation));
    assert_eq!(db.get("k", ScalarKind::Text), Ok(text("v1")));
}

#[test]
fn a_binding_without_a_table_fails_each_call() {
    let conn = Connection::open_in_memory().unwrap();
    let db = Table::existing("nope", &conn);
    assert_eq!(db.name(), "nope");
    assert_eq!(db.set("key", &text("value")), Err(StoreError::NotInitialized));
    assert_eq!(db.get("key", ScalarKind::Text), Err(StoreError::NotInitialized));
    assert_eq!(db.remove("key"), Err(StoreError::NotInitialized));
}

#[test]
fn stored_text_is_read_as_other_kinds() {
    let conn = fresh();
    let db = users(&conn);
    db.set("n", &text("123")).unwrap();
    db.set("t", &text("true")).unwrap();
    db.set("abc", &text("abc")).unwrap();
    assert_eq!(db.get("n", ScalarKind::Integer), Ok(Scalar::Integer(123)));
    assert_eq!(db.get("t", ScalarKind::Boolean), Ok(Scalar::Boolean(true)));
    assert_eq!(db.get("abc", ScalarKind::Boolean), Err(StoreError::TypeMismatch));
    assert_eq!(db.get("abc", ScalarKind::Integer), Err(StoreError::TypeMismatch));
}

#[test]
fn a_stored_boolean_is_an_integer() {
    let conn = fresh();
    let db = users(&conn);
    db.set("yes", &Scalar::Boolean(true)).unwrap();
    db.set("no", &Scalar::Boolean(false)).unwrap();
    assert_eq!(db.get("yes", ScalarKind::Integer), Ok(Scalar::Integer(1)));
    assert_eq!(db.get("no", ScalarKind::Integer), Ok(Scalar::Integer(0)));
    assert_eq!(db.get("yes", ScalarKind::Text), Err(StoreError::TypeMismatch));
    let class: String = conn
        .query_row("SELECT typeof(v) FROM users WHERE k = 'yes'", (), |row| row.get(0))
        .unwrap();
    assert_eq!(class, "integer");
}

#[test]
fn values_that_the_library_does_not_write_do_not_match() {
    let conn = fresh();
    conn.execute("INSERT INTO users (k, v) VALUES ('null', NULL)", ()).unwrap();
    conn.execute("INSERT INTO users (k, v) VALUES ('real', 1.5)", ()).unwrap();
    conn.execute("INSERT INTO users (k, v) VALUES ('blob', x'0102')", ()).unwrap();
    conn.execute("INSERT INTO users (k, v) VALUES ('bad', CAST(x'ff' AS TEXT))", ()).unwrap();
    let db = users(&conn);
    for key in ["null", "real", "blob", "bad"] {
        for kind in [ScalarKind::Text, ScalarKind::Integer, ScalarKind::Boolean] {
            assert_eq!(db.get(key, kind), Err(StoreError::TypeMismatch));
        }
    }
}

#[test]
fn the_key_is_a_parameter_and_not_part_of_the_statement() {
    let conn = fresh();
    let db = users(&conn);
    let key = "x' OR '1'='1";
    db.set("other", &Scalar::Integer(7)).unwrap();
    assert_eq!(db.get(key, ScalarKind::Integer), Err(StoreError::NotFound));
    assert_eq!(db.set(key, &Scalar::Integer(8)), Ok(1));
    assert_eq!(db.get(key, ScalarKind::Integer), Ok(Scalar::Integer(8)));
    assert_eq!(db.remove(key), Ok(1));
    assert_eq!(db.get("other", ScalarKind::Integer), Ok(Scalar::Integer(7)));
}

#[test]
fn a_name_that_the_engine_refuses_is_a_schema_error() {
    let conn = Connection::open_in_memory().unwrap();
    let table = Table::new("not a name");
    assert!(!table.has_plain_name());
    match table.create(&conn) {
        Err(StoreError::SchemaError { detail }) => assert!(!detail.is_empty()),
        other => panic!("expected a schema error, got {:?}", other.map(|b| b.name().to_string())),
    }
}

#[test]
fn another_failure_of_the_engine_is_an_engine_failure() {
    let conn = Connection::open_in_memory().unwrap();
    conn.execute("CREATE TABLE odd (a, b)", ()).unwrap();
    let db = Table::existing("odd", &conn);
    match db.set("k", &Scalar::Integer(1)) {
        Err(StoreError::EngineFailure { detail }) => assert!(detail.contains("no column named k")),
        other => panic!("expected an engine failure, got {:?}", other),
    }
    match db.get("k", ScalarKind::Integer) {
        Err(StoreError::EngineFailure { detail }) => assert!(detail.contains("no such column")),
        other => panic!("expected an engine failure, got {:?}", other),
    }
    assert!(matches!(db.remove("k"), Err(StoreError::EngineFailure { .. })));
}

#[test]
fn each_call_sends_its_statement() {
    let conn = Connection::open_in_memory().unwrap();
    let table = Table::new("users");
    assert_eq!(
        table.create_statement(),
        Statement {
            text: "CREATE TABLE IF NOT EXISTS users (k varchar(255) PRIMARY KEY UNIQUE NOT NULL, v)"
                .to_string(),
            params: vec![],
        }
    );
    let db = Table::existing("users", &conn);
    assert_eq!(
        db.set_statement("bob", &Scalar::Boolean(true)),
        Statement {
            text: "INSERT INTO users (k, v) VALUES(?1, ?2);".to_string(),
            params: vec![Bound::Text("bob".to_string()), Bound::Integer(1)],
        }
    );
    assert_eq!(
        db.set_statement("jim", &text("123")),
        Statement {
            text: "INSERT INTO users (k, v) VALUES(?1, ?2);".to_string(),
            params: vec![Bound::Text("jim".to_string()), Bound::Text("123".to_string())],
        }
    );
    assert_eq!(
        db.get_statement("bob"),
        Statement {
            text: "SELECT v FROM users WHERE k = ?1 LIMIT 1".to_string(),
            params: vec![Bound::Text("bob".to_string())],
        }
    );
    assert_eq!(
        db.remove_statement("bob"),
        Statement {
            text: "DELETE FROM users WHERE k = ?1".to_string(),
            params: vec![Bound::Text("bob".to_string())],
        }
    );
}

#[test]
fn only_the_first_row_with_the_key_is_read() {
    let conn = Connection::open_in_memory().unwrap();
    conn.execute("CREATE TABLE loose (k, v)", ()).unwrap();
    conn.execute("INSERT INTO loose (k, v) VALUES ('a', 'first')", ()).unwrap();
    conn.execute("INSERT INTO loose (k, v) VALUES ('a', 'second')", ()).unwrap();
    let db = Table::existing("loose", &conn);
    assert_eq!(db.get("a", ScalarKind::Text), Ok(text("first")));
    assert_eq!(db.remove("a"), Ok(2));
    assert_eq!(db.get("a", ScalarKind::Text), Err(StoreError::NotFound));
}
