use rusqlite::error::Error;
use rusqlite::handle::RawHandle;
use rusqlite::scripted::{ScriptedConnection, ScriptedStatement};
use rusqlite::statement::Statement;
use rusqlite::value::{BindOutput, ToSql, Value};

fn fresh_conn() -> ScriptedConnection {
    ScriptedConnection { changes: 0, last_rowid: 42 }
}

fn fresh_stmt<'c>(
    c: &'c ScriptedConnection,
    sql: &str,
    cols: &[&str],
    params: &[&str],
    script: Vec<Vec<Value>>,
) -> Statement<'c, ScriptedConnection, ScriptedStatement> {
    let cols: Vec<String> = cols.iter().map(|s| s.to_string()).collect();
    let params: Vec<String> = params.iter().map(|s| s.to_string()).collect();
    Statement::new(
        c,
        RawHandle::new(ScriptedStatement::new(sql.to_string(), cols, params, script)),
    )
}

#[test]
fn test_cursor_exhausted_after_done() {
    let db = fresh_conn();
    let select = fresh_stmt(&db, "SELECT x FROM t", &["x"], &[], vec![vec![Value::Integer(9)]]);
    let none: [Value; 0] = [];
    let mut rows = select.query(&none).unwrap();
    assert!(rows.next().is_some());
    // the completion signal exhausts the cursor; advancing again is safe
    // and yields nothing, repeatedly
    assert!(rows.next().is_none());
    assert!(rows.next().is_none());
    assert!(rows.next().is_none());
    // the statement survives exhaustion: it can be taken back, run
    // again (the script is consumed, so no further rows come), and
    // finalized explicitly
    let reclaimed = rows.into_statement();
    let mut rows2 = reclaimed.query(&none).unwrap();
    assert!(rows2.next().is_none());
    assert!(rows2.into_statement().finalize().is_ok());
}

#[test]
fn test_cursor_yields_rows_in_order() {
    let db = fresh_conn();
    let select = fresh_stmt(
        &db,
        "SELECT x FROM t ORDER BY x",
        &["x"],
        &[],
        vec![
            vec![Value::Integer(10)],
            vec![Value::Integer(20)],
            vec![Value::Integer(30)],
        ],
    );
    let none: [Value; 0] = [];
    let mut rows = select.query(&none).unwrap();
    let mut seen: Vec<i64> = Vec::new();
    while let Some(row) = rows.next() {
        match row.unwrap().get(0).unwrap() {
            Value::Integer(i) => seen.push(i),
            _ => panic!("expected integers"),
        }
    }
    assert_eq!(seen, vec![10, 20, 30]);
}

#[test]
fn test_row_column_access() {
    let db = fresh_conn();
    let select = fresh_stmt(
        &db,
        "SELECT a, b FROM t",
        &["a", "b"],
        &[],
        vec![vec![Value::Integer(5), Value::Text("five".to_string())]],
    );
    let none: [Value; 0] = [];
    let mut rows = select.query(&none).unwrap();
    let row = rows.next().unwrap().unwrap();
    assert_eq!(row.column_count(), 2);
    assert!(matches!(row.get(0).unwrap(), Value::Integer(5)));
    assert!(matches!(row.get(1).unwrap(), Value::Text(ref t) if t.as_str() == "five"));
    match row.get(2) {
        Err(Error::InvalidColumnIndex(i)) => assert_eq!(i, 2),
        _ => panic!("expected InvalidColumnIndex"),
    }
    match row.get(-1) {
        Err(Error::InvalidColumnIndex(i)) => assert_eq!(i, -1),
        _ => panic!("expected InvalidColumnIndex"),
    }
}

#[test]
fn test_value_round_trip() {
    // bind one value of each domain, then read the stored cells back
    // through a result column: each must come back equal, by content
    let db = fresh_conn();
    let bound = vec![
        Value::Integer(-77),
        Value::Real(2.5f64.to_bits()),
        Value::Text("round trip".to_string()),
        Value::Blob(vec![1, 2, 3]),
        Value::Null,
    ];
    let mut insert = fresh_stmt(
        &db,
        "INSERT INTO t VALUES (?, ?, ?, ?, ?)",
        &[],
        &["", "", "", "", ""],
        vec![],
    );
    insert.execute(&bound).unwrap();
    let stored: Vec<Value> = insert
        .stmt
        .inner
        .as_ref()
        .unwrap()
        .bindings
        .iter()
        .map(|slot| slot.clone().unwrap())
        .collect();

    let select = fresh_stmt(&db, "SELECT a, b, c, d, e FROM t", &["a", "b", "c", "d", "e"], &[], vec![stored]);
    let none: [Value; 0] = [];
    let mut rows = select.query(&none).unwrap();
    let row = rows.next().unwrap().unwrap();
    assert!(matches!(row.get(0).unwrap(), Value::Integer(-77)));
    match row.get(1).unwrap() {
        Value::Real(bits) => assert_eq!(f64::from_bits(bits), 2.5),
        _ => panic!("expected a real"),
    }
    assert!(matches!(row.get(2).unwrap(), Value::Text(ref t) if t.as_str() == "round trip"));
    assert!(matches!(row.get(3).unwrap(), Value::Blob(ref b) if b == &vec![1u8, 2, 3]));
    assert!(matches!(row.get(4).unwrap(), Value::Null));
}

#[test]
fn test_zero_length_blob_is_not_null() {
    let db = fresh_conn();
    let mut insert = fresh_stmt(&db, "INSERT INTO t (b) VALUES (:b)", &[], &[":b"], vec![]);
    insert.execute_named(&[(":b", Value::Blob(vec![]))]).unwrap();
    // a zero-length blob binds as an empty blob, not as NULL
    let handle = insert.stmt.inner.as_ref().unwrap();
    assert!(matches!(handle.bindings[0], Some(Value::Blob(ref b)) if b.is_empty()));

    let select = fresh_stmt(&db, "SELECT b FROM t", &["b"], &[], vec![vec![Value::Blob(vec![])]]);
    let none: [Value; 0] = [];
    let mut rows = select.query(&none).unwrap();
    let cell = rows.next().unwrap().unwrap().get(0).unwrap();
    assert!(matches!(cell, Value::Blob(ref b) if b.is_empty()));
}

#[test]
fn test_zeroblob_binding() {
    let db = fresh_conn();
    let mut insert = fresh_stmt(&db, "INSERT INTO t (b) VALUES (:b)", &[], &[":b"], vec![]);
    insert.execute_named(&[(":b", BindOutput::ZeroBlob(4))]).unwrap();
    let handle = insert.stmt.inner.as_ref().unwrap();
    assert!(matches!(handle.bindings[0], Some(Value::Blob(ref b)) if b == &vec![0u8, 0, 0, 0]));
}

#[test]
fn test_positional_binding_covers_all_slots() {
    let db = fresh_conn();
    let mut insert = fresh_stmt(&db, "INSERT INTO t VALUES (?, ?, ?)", &[], &["", "", ""], vec![]);
    insert.execute(&[Value::Integer(1), Value::Integer(2), Value::Integer(3)]).unwrap();
    let handle = insert.stmt.inner.as_ref().unwrap();
    for (i, slot) in handle.bindings.iter().enumerate() {
        match slot {
            Some(Value::Integer(v)) => assert_eq!(*v, (i + 1) as i64),
            _ => panic!("expected every slot bound"),
        }
    }
}

#[test]
fn test_to_sql_conversions() {
    assert!(matches!(
        7i64.to_sql().unwrap(),
        BindOutput::Value(Value::Integer(7))
    ));
    assert!(matches!(
        7i32.to_sql().unwrap(),
        BindOutput::Value(Value::Integer(7))
    ));
    assert!(matches!(
        "seven".to_sql().unwrap(),
        BindOutput::Value(Value::Text(ref t)) if t.as_str() == "seven"
    ));
    assert!(matches!(
        String::from("seven").to_sql().unwrap(),
        BindOutput::Value(Value::Text(ref t)) if t.as_str() == "seven"
    ));
    assert!(matches!(
        vec![9u8, 8].to_sql().unwrap(),
        BindOutput::Value(Value::Blob(ref b)) if b == &vec![9u8, 8]
    ));
    assert!(matches!(
        BindOutput::ZeroBlob(3).to_sql().unwrap(),
        BindOutput::ZeroBlob(3)
    ));
}

#[test]
fn test_last_insert_rowid() {
    let db = fresh_conn();
    let insert = fresh_stmt(&db, "INSERT INTO t DEFAULT VALUES", &[], &[], vec![]);
    assert_eq!(insert.last_insert_rowid(), 42);
}

#[test]
fn test_bindings_survive_reset() {
    let db = fresh_conn();
    let mut insert = fresh_stmt(&db, "INSERT INTO t (x) VALUES (:x)", &[], &[":x"], vec![]);
    insert.execute_named(&[(":x", 11i64)]).unwrap();
    // execute already resets; reset again explicitly and look at the slots
    insert.reset();
    let handle = insert.stmt.inner.as_ref().unwrap();
    assert!(matches!(handle.bindings[0], Some(Value::Integer(11))));
}
