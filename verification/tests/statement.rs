use rusqlite::engine::Connection;
use rusqlite::error::Error;
use rusqlite::handle::RawHandle;
use rusqlite::scripted::{ScriptedConnection, ScriptedStatement};
use rusqlite::statement::Statement;
use rusqlite::value::Value;

fn conn(changes: i32) -> ScriptedConnection {
    ScriptedConnection { changes, last_rowid: 1 }
}

fn stmt<'c>(
    c: &'c ScriptedConnection,
    sql: &str,
    cols: &[&str],
    params: &[&str],
    script: Vec<Vec<Value>>,
) -> Statement<'c, ScriptedConnection, ScriptedStatement> {
    let cols: Vec<String> = cols.iter().map(|s| s.to_string()).collect();
    let params: Vec<String> = params.iter().map(|s| s.to_string()).collect();
    Statement::new(
        c,
        RawHandle::new(ScriptedStatement::new(sql.to_string(), cols, params, script)),
    )
}

fn get_i64(v: &Value) -> i64 {
    match v {
        Value::Integer(i) => *i,
        _ => panic!("expected an integer cell"),
    }
}

#[test]
fn test_execute_named() {
    let db = conn(1);
    // table: CREATE TABLE foo(x INTEGER)
    let mut insert = stmt(&db, "INSERT INTO foo(x) VALUES (:x)", &[], &[":x"], vec![]);
    assert_eq!(insert.execute_named(&[(":x", 1i32)]).unwrap(), 1);
    let mut insert2 = stmt(&db, "INSERT INTO foo(x) VALUES (:x)", &[], &[":x"], vec![]);
    assert_eq!(insert2.execute_named(&[(":x", 2i32)]).unwrap(), 1);

    let select = stmt(
        &db,
        "SELECT SUM(x) FROM foo WHERE x > :x",
        &["SUM(x)"],
        &[":x"],
        vec![vec![Value::Integer(3)]],
    );
    let mut rows = select.query_named(&[(":x", 0i32)]).unwrap();
    let row = rows.next().unwrap().unwrap();
    assert_eq!(3i64, get_i64(&row.get(0).unwrap()));
}

#[test]
fn test_stmt_execute_named() {
    let db = conn(1);
    let mut insert = stmt(&db, "INSERT INTO test (name) VALUES (:name)", &[], &[":name"], vec![]);
    insert.execute_named(&[(":name", "one")]).unwrap();

    let select = stmt(
        &db,
        "SELECT COUNT(*) FROM test WHERE name = :name",
        &["COUNT(*)"],
        &[":name"],
        vec![vec![Value::Integer(1)]],
    );
    let mut rows = select.query_named(&[(":name", "one")]).unwrap();
    let row = rows.next().unwrap().unwrap();
    assert_eq!(1i64, get_i64(&row.get(0).unwrap()));
}

#[test]
fn test_query_named() {
    let db = conn(0);
    let select = stmt(
        &db,
        "SELECT id FROM test where name = :name",
        &["id"],
        &[":name"],
        vec![vec![Value::Integer(1)]],
    );
    let mut rows = select.query_named(&[(":name", "one")]).unwrap();

    let id = get_i64(&rows.next().unwrap().unwrap().get(0).unwrap());
    assert_eq!(1, id);
}

#[test]
fn test_query_map_named() {
    let db = conn(0);
    let select = stmt(
        &db,
        "SELECT id FROM test where name = :name",
        &["id"],
        &[":name"],
        vec![vec![Value::Integer(1)]],
    );
    let mut rows = select
        .query_map_named(&[(":name", "one")], |row| {
            let id = get_i64(&row.get(0).unwrap());
            2 * id
        })
        .unwrap();

    let doubled_id: i64 = rows.next().unwrap().unwrap();
    assert_eq!(2, doubled_id);
}

#[test]
fn test_query_and_then_named() {
    let db = conn(0);
    let select = stmt(
        &db,
        "SELECT id FROM test where name = :name ORDER BY id ASC",
        &["id"],
        &[":name"],
        vec![vec![Value::Integer(1)], vec![Value::Integer(2)]],
    );
    let mut rows = select
        .query_and_then_named(&[(":name", "one")], |row| {
            let id = get_i64(&row.get(0).unwrap());
            if id == 1 {
                Ok(id)
            } else {
                Err(Error::SqliteSingleThreadedMode)
            }
        })
        .unwrap();

    // first row should be Ok
    let doubled_id: i64 = rows.next().unwrap().unwrap();
    assert_eq!(1, doubled_id);

    // second row should be Err
    match rows.next().unwrap() {
        Ok(_) => panic!("invalid Ok"),
        Err(Error::SqliteSingleThreadedMode) => (),
        Err(_) => panic!("invalid Err"),
    }
}

#[test]
fn test_unbound_parameters_are_null() {
    let db = conn(1);
    // table: CREATE TABLE test (x TEXT, y TEXT)
    let mut insert = stmt(&db, "INSERT INTO test (x, y) VALUES (:x, :y)", &[], &[":x", ":y"], vec![]);
    insert.execute_named(&[(":x", "one")]).unwrap();

    // the slot of :y has never been bound and stays absent (SQL NULL)
    let handle = insert.stmt.inner.as_ref().unwrap();
    assert!(matches!(handle.bindings[0], Some(Value::Text(ref t)) if t.as_str() == "one"));
    assert!(handle.bindings[1].is_none());

    let select = stmt(&db, "SELECT y FROM test WHERE x = 'one'", &["y"], &[], vec![vec![Value::Null]]);
    let none: [Value; 0] = [];
    let mut rows = select.query(&none).unwrap();
    let result = rows.next().unwrap().unwrap().get(0).unwrap();
    assert!(matches!(result, Value::Null));
}

#[test]
fn test_unbound_parameters_are_reused() {
    let db = conn(1);
    // table: CREATE TABLE test (x TEXT, y TEXT)
    let mut insert = stmt(&db, "INSERT INTO test (x, y) VALUES (:x, :y)", &[], &[":x", ":y"], vec![]);
    insert.execute_named(&[(":x", "one")]).unwrap();
    insert.execute_named(&[(":y", "two")]).unwrap();

    // the second call rebinds only :y; :x keeps its earlier value
    let handle = insert.stmt.inner.as_ref().unwrap();
    assert!(matches!(handle.bindings[0], Some(Value::Text(ref t)) if t.as_str() == "one"));
    assert!(matches!(handle.bindings[1], Some(Value::Text(ref t)) if t.as_str() == "two"));

    let select = stmt(
        &db,
        "SELECT x FROM test WHERE y = 'two'",
        &["x"],
        &[],
        vec![vec![Value::Text("one".to_string())]],
    );
    let none: [Value; 0] = [];
    let mut rows = select.query(&none).unwrap();
    let result = rows.next().unwrap().unwrap().get(0).unwrap();
    assert!(matches!(result, Value::Text(ref t) if t.as_str() == "one"));
}

#[test]
fn test_execute_returns_change_count() {
    let db = conn(7);
    let mut update = stmt(&db, "DELETE FROM foo", &[], &[], vec![]);
    let none: [Value; 0] = [];
    assert_eq!(update.execute(&none).unwrap(), 7);
}

#[test]
fn test_execute_returned_results() {
    let db = conn(0);
    // a statement that declares result columns always fails under execute,
    // whether or not rows would actually be produced
    let mut with_rows = stmt(&db, "SELECT id FROM test", &["id"], &[], vec![vec![Value::Integer(1)]]);
    let none: [Value; 0] = [];
    assert!(matches!(with_rows.execute(&none), Err(Error::ExecuteReturnedResults)));

    let mut without_rows = stmt(&db, "SELECT id FROM test", &["id"], &[], vec![]);
    assert!(matches!(without_rows.execute(&none), Err(Error::ExecuteReturnedResults)));
}

#[test]
fn test_column_names_and_index() {
    let db = conn(0);
    let select = stmt(&db, "SELECT id, name, flag FROM test", &["id", "name", "flag"], &[], vec![]);
    assert_eq!(select.column_count(), 3);
    let names = select.column_names();
    assert_eq!(names, vec!["id".to_string(), "name".to_string(), "flag".to_string()]);
    assert_eq!(select.column_index("name").unwrap(), 1);
    match select.column_index("missing") {
        Err(Error::InvalidColumnName(n)) => assert_eq!(n, "missing"),
        _ => panic!("expected InvalidColumnName"),
    }
}

#[test]
fn test_parameter_index() {
    let db = conn(0);
    let select = stmt(
        &db,
        "SELECT id FROM test WHERE name = :name AND flag = :flag",
        &[],
        &[":name", ":flag"],
        vec![],
    );
    assert_eq!(select.parameter_index(":flag").unwrap(), Some(2));
    assert_eq!(select.parameter_index(":missing").unwrap(), None);
    match select.parameter_index(":ba\0d") {
        Err(Error::NulError(p)) => assert_eq!(p, 3),
        _ => panic!("expected NulError"),
    }
}

#[test]
fn test_invalid_parameter_name() {
    let db = conn(0);
    let mut insert = stmt(&db, "INSERT INTO test (x) VALUES (:x)", &[], &[":x"], vec![]);
    match insert.execute_named(&[(":nosuch", 1i64)]) {
        Err(Error::InvalidParameterName(n)) => assert_eq!(n, ":nosuch"),
        _ => panic!("expected InvalidParameterName"),
    }
}

#[test]
fn test_decode_result_failure() {
    let db = conn(0);
    assert!(db.decode_result(rusqlite::codes::SQLITE_OK).is_ok());
    match db.decode_result(5) {
        Err(Error::SqliteFailure(code, _)) => assert_eq!(code, 5),
        _ => panic!("expected SqliteFailure"),
    }
}

#[test]
fn test_finalize() {
    let db = conn(0);
    let insert = stmt(&db, "DELETE FROM test", &[], &[], vec![]);
    assert!(insert.finalize().is_ok());
}

#[test]
fn test_raw_handle_finalize_is_idempotent() {
    let cols: Vec<String> = vec![];
    let params: Vec<String> = vec![];
    let mut handle = RawHandle::new(ScriptedStatement::new(
        "DELETE FROM test".to_string(),
        cols,
        params,
        vec![],
    ));
    assert_eq!(handle.finalize(), rusqlite::codes::SQLITE_OK);
    assert_eq!(handle.finalize(), rusqlite::codes::SQLITE_OK);
    assert!(handle.inner.is_none());
}

#[test]
fn test_sql_text() {
    let handle = RawHandle::new(ScriptedStatement::new(
        "SELECT id FROM test".to_string(),
        vec!["id".to_string()],
        vec![],
        vec![],
    ));
    assert_eq!(handle.sql_text(), "SELECT id FROM test");
}
