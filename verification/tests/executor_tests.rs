use sqlexec::catalog::CatalogState;
use sqlexec::catalog::TableEntry;
use sqlexec::data::TableRef;
use sqlexec::error::ExecError;
use sqlexec::executor::ExecutionResult;
use sqlexec::executor::Executor;
use sqlexec::session::Session;
use sqlexec::storage::Storage;
use sqlexec::data::Row;
use sqlexec::data::Value;

fn table(schema: &str, name: &str) -> TableEntry {
    TableEntry {
        reference: TableRef { schema: schema.to_string(), name: name.to_string() },
        columns: vec!["a".to_string()],
    }
}

fn run_one(
    sql: &str,
    session: &mut Session,
    catalog: &mut CatalogState,
    storage: &mut Storage,
) -> Result<ExecutionResult, ExecError> {
    let mut ex = Executor::new(sql).expect("the SQL should parse");
    assert_eq!(ex.statements_remaining(), 1);
    let out = ex.execute_next(session, catalog, storage).expect("one statement is queued");
    assert_eq!(ex.statements_remaining(), 0);
    out
}

#[test]
fn malformed_sql_fails_eagerly() {
    let err = Executor::new("THIS IS NOT SQL !!!").unwrap_err();
    assert_eq!(err.kind(), "parse");
}

#[test]
fn empty_queue_yields_none() {
    let mut ex = Executor::new("SELECT * FROM t").expect("parses");
    let mut session = Session::new(0);
    let mut catalog = CatalogState::initial();
    catalog.tables.push(table("public", "t"));
    let mut storage = Storage::new();
    assert!(ex.execute_next(&mut session, &mut catalog, &mut storage).is_some());
    assert!(ex.execute_next(&mut session, &mut catalog, &mut storage).is_none());
}

#[test]
fn multi_statement_script_is_counted() {
    let ex = Executor::new("SELECT * FROM a; SELECT * FROM b").expect("parses");
    assert_eq!(ex.statements_remaining(), 2);
}

#[test]
fn alter_table_rename_bumps_session_version() {
    let mut session = Session::new(5);
    let mut catalog = CatalogState::initial();
    catalog.version = 5;
    catalog.tables.push(table("public", "t"));
    let mut storage = Storage::new();
    let res = run_one("ALTER TABLE t RENAME TO t2", &mut session, &mut catalog, &mut storage)
        .expect("the rename should succeed");
    assert!(matches!(res, ExecutionResult::AlterTable));
    assert_eq!(res.describe(), "alter table");
    assert_eq!(session.version, 6);
    assert_eq!(catalog.version, 6);
    assert_eq!(catalog.tables[0].reference.name, "t2");
}

#[test]
fn concurrent_drop_conflicts_for_second_session() {
    let mut catalog = CatalogState::initial();
    catalog.version = 5;
    catalog.tables.push(table("public", "t"));
    let mut storage = Storage::new();

    // Both sessions observed version 5 and plan the same drop.
    let mut first = Session::new(5);
    let mut second = Session::new(5);

    let res = run_one("DROP TABLE t", &mut first, &mut catalog, &mut storage)
        .expect("the first drop commits");
    assert!(matches!(res, ExecutionResult::DropTables));
    assert_eq!(catalog.version, 6);

    let err = run_one("DROP TABLE t", &mut second, &mut catalog, &mut storage).unwrap_err();
    match err {
        ExecError::Conflict { expected, current } => {
            assert_eq!(expected, 5);
            assert_eq!(current, 6);
        }
        other => panic!("expected a conflict, got {other:?}"),
    }
    assert_eq!(catalog.version, 6);
    assert_eq!(second.version, 5);
}

#[test]
fn insert_from_empty_source_reports_zero() {
    let mut session = Session::new(0);
    let mut catalog = CatalogState::initial();
    catalog.tables.push(table("public", "t"));
    catalog.tables.push(table("public", "source"));
    let mut storage = Storage::new();
    let res = run_one(
        "INSERT INTO t SELECT * FROM source",
        &mut session,
        &mut catalog,
        &mut storage,
    )
    .expect("the insert should succeed");
    match res {
        ExecutionResult::WriteSuccess { count } => assert_eq!(count, 0),
        other => panic!("expected a write success, got {other:?}"),
    }
}

#[test]
fn create_then_query_round_trip() {
    let mut session = Session::new(0);
    let mut catalog = CatalogState::initial();
    let mut storage = Storage::new();

    let res = run_one("CREATE TABLE t (a INT)", &mut session, &mut catalog, &mut storage)
        .expect("create should succeed");
    assert!(matches!(res, ExecutionResult::CreateTable));
    assert_eq!(session.version, 1);
    assert_eq!(catalog.tables[0].columns, vec!["a".to_string()]);

    let res = run_one("SELECT * FROM t", &mut session, &mut catalog, &mut storage)
        .expect("the scan should succeed");
    match res {
        ExecutionResult::Query { schema, batches } => {
            assert_eq!(schema.columns, vec!["a".to_string()]);
            assert_eq!(batches.len(), 1);
            assert_eq!(batches[0].rows.len(), 0);
        }
        other => panic!("expected a query result, got {other:?}"),
    }
    assert_eq!(session.version, 1);
}

#[test]
fn create_schema_and_drop_schema() {
    let mut session = Session::new(0);
    let mut catalog = CatalogState::initial();
    let mut storage = Storage::new();
    let res = run_one("CREATE SCHEMA s", &mut session, &mut catalog, &mut storage)
        .expect("create schema should succeed");
    assert!(matches!(res, ExecutionResult::CreateSchema));
    let res = run_one("DROP SCHEMA s", &mut session, &mut catalog, &mut storage)
        .expect("drop schema should succeed");
    assert!(matches!(res, ExecutionResult::DropSchemas));
    assert_eq!(catalog.schemas, vec!["public".to_string()]);
    assert_eq!(session.version, 2);
}

#[test]
fn query_of_missing_table_is_a_plan_error() {
    let mut session = Session::new(0);
    let mut catalog = CatalogState::initial();
    let mut storage = Storage::new();
    let err = run_one("SELECT * FROM missing", &mut session, &mut catalog, &mut storage)
        .unwrap_err();
    assert_eq!(err.kind(), "plan");
}

#[test]
fn unsupported_statement_is_unimplemented() {
    let mut session = Session::new(0);
    let mut catalog = CatalogState::initial();
    let mut storage = Storage::new();
    let err = run_one("COMMIT", &mut session, &mut catalog, &mut storage).unwrap_err();
    assert_eq!(err.kind(), "unimplemented plan");
}

#[test]
fn set_variable_is_session_local() {
    let mut session = Session::new(3);
    let mut catalog = CatalogState::initial();
    catalog.version = 3;
    let mut storage = Storage::new();
    let res = run_one("SET application_name = 'demo'", &mut session, &mut catalog, &mut storage)
        .expect("set should succeed");
    assert!(matches!(res, ExecutionResult::SetLocal));
    assert_eq!(session.version, 3);
    assert_eq!(catalog.version, 3);
    assert_eq!(session.vars.len(), 1);
    assert_eq!(session.vars[0].name, "application_name");
    assert_eq!(session.vars[0].value, "'demo'");
}

#[test]
fn qualified_names_resolve_schema() {
    let mut session = Session::new(0);
    let mut catalog = CatalogState::initial();
    let mut storage = Storage::new();
    run_one("CREATE SCHEMA other", &mut session, &mut catalog, &mut storage)
        .expect("create schema should succeed");
    let res = run_one("CREATE TABLE other.t (x INT)", &mut session, &mut catalog, &mut storage)
        .expect("qualified create should succeed");
    assert!(matches!(res, ExecutionResult::CreateTable));
    assert_eq!(catalog.tables[0].reference.schema, "other");
    assert_eq!(catalog.tables[0].reference.name, "t");
}

#[test]
fn insert_moves_stored_rows() {
    let mut session = Session::new(0);
    let mut catalog = CatalogState::initial();
    catalog.tables.push(table("public", "t"));
    catalog.tables.push(table("public", "source"));
    let mut storage = Storage::new();
    storage.append(
        &TableRef { schema: "public".to_string(), name: "source".to_string() },
        vec![
            Row { values: vec![Value::Integer(1)] },
            Row { values: vec![Value::Integer(2)] },
        ],
    );
    let res = run_one(
        "INSERT INTO t SELECT * FROM source",
        &mut session,
        &mut catalog,
        &mut storage,
    )
    .expect("the insert should succeed");
    match res {
        ExecutionResult::WriteSuccess { count } => assert_eq!(count, 2),
        other => panic!("expected a write success, got {other:?}"),
    }
    let stored = storage.scan(&TableRef { schema: "public".to_string(), name: "t".to_string() });
    assert_eq!(stored.rows.len(), 2);
}

#[test]
fn result_descriptions_are_stable() {
    assert_eq!(ExecutionResult::Begin.describe(), "begin");
    assert_eq!(ExecutionResult::Commit.describe(), "commit");
    assert_eq!(ExecutionResult::Rollback.describe(), "rollback");
    assert_eq!(ExecutionResult::CreateTable.describe(), "create table");
    assert_eq!(ExecutionResult::DropSchemas.describe(), "drop schemas");
    assert_eq!(ExecutionResult::WriteSuccess { count: 0 }.describe(), "write success");
}

#[test]
fn queue_is_first_in_first_out() {
    let mut session = Session::new(0);
    let mut catalog = CatalogState::initial();
    let mut storage = Storage::new();
    let mut ex = Executor::new("CREATE SCHEMA s1; CREATE SCHEMA s2").expect("parses");
    assert_eq!(ex.statements_remaining(), 2);

    let first = ex
        .execute_next(&mut session, &mut catalog, &mut storage)
        .expect("two statements are queued")
        .expect("the first create succeeds");
    assert!(matches!(first, ExecutionResult::CreateSchema));
    assert_eq!(ex.statements_remaining(), 1);
    assert_eq!(catalog.schemas, vec!["public".to_string(), "s1".to_string()]);

    let second = ex
        .execute_next(&mut session, &mut catalog, &mut storage)
        .expect("one statement is left")
        .expect("the second create succeeds");
    assert!(matches!(second, ExecutionResult::CreateSchema));
    assert_eq!(ex.statements_remaining(), 0);
    assert_eq!(
        catalog.schemas,
        vec!["public".to_string(), "s1".to_string(), "s2".to_string()]
    );
}

#[test]
fn failed_statement_leaves_queue_positioned_after_it() {
    let mut session = Session::new(0);
    let mut catalog = CatalogState::initial();
    let mut storage = Storage::new();
    let mut ex = Executor::new("SELECT * FROM missing; CREATE SCHEMA s").expect("parses");

    let first = ex
        .execute_next(&mut session, &mut catalog, &mut storage)
        .expect("two statements are queued");
    assert_eq!(first.unwrap_err().kind(), "plan");
    assert_eq!(ex.statements_remaining(), 1);
    assert_eq!(catalog.version, 0);

    let second = ex
        .execute_next(&mut session, &mut catalog, &mut storage)
        .expect("one statement is left")
        .expect("the later statement still runs when pulled");
    assert!(matches!(second, ExecutionResult::CreateSchema));
}

#[test]
fn create_table_as_carries_source_columns() {
    let mut session = Session::new(0);
    let mut catalog = CatalogState::initial();
    catalog.tables.push(table("public", "t"));
    let mut storage = Storage::new();
    let res = run_one(
        "CREATE TABLE t2 AS SELECT * FROM t",
        &mut session,
        &mut catalog,
        &mut storage,
    )
    .expect("create-table-as should succeed");
    assert!(matches!(res, ExecutionResult::CreateTable));
    assert_eq!(catalog.tables.len(), 2);
    assert_eq!(catalog.tables[1].reference.name, "t2");
    assert_eq!(catalog.tables[1].columns, vec!["a".to_string()]);
}

#[test]
fn create_table_as_from_missing_source_is_a_plan_error() {
    let mut session = Session::new(0);
    let mut catalog = CatalogState::initial();
    let mut storage = Storage::new();
    let err = run_one(
        "CREATE TABLE t2 AS SELECT * FROM missing",
        &mut session,
        &mut catalog,
        &mut storage,
    )
    .unwrap_err();
    assert_eq!(err.kind(), "plan");
    assert_eq!(catalog.version, 0);
    assert_eq!(catalog.tables.len(), 0);
}
