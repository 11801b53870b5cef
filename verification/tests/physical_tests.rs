use sqlexec::catalog::CatalogState;
use sqlexec::catalog::TableEntry;
use sqlexec::data::Batch;
use sqlexec::data::Row;
use sqlexec::data::TableRef;
use sqlexec::data::Value;
use sqlexec::error::ExecError;
use sqlexec::logical::AlterTableOperation;
use sqlexec::physical::AlterTableExec;
use sqlexec::physical::InputExec;
use sqlexec::physical::InsertExec;
use sqlexec::storage::Storage;

fn int_row(n: i64) -> Row {
    Row { values: vec![Value::Integer(n)] }
}

fn alter_exec(version: u64) -> AlterTableExec {
    AlterTableExec {
        catalog_version: version,
        schema: "public".to_string(),
        name: "t".to_string(),
        operation: AlterTableOperation::RenameTable { new_name: "t2".to_string() },
    }
}

#[test]
fn alter_rejects_nonzero_partition() {
    let mut c = CatalogState::initial();
    let exec = alter_exec(0);
    let err = exec.execute(1, &mut c).unwrap_err();
    match err {
        ExecError::Partition { partition } => assert_eq!(partition, 1),
        other => panic!("expected a partition error, got {other:?}"),
    }
    assert_eq!(c.version, 0);
}

#[test]
fn insert_rejects_nonzero_partition() {
    let mut s = Storage::new();
    let exec = InsertExec {
        input: InputExec { batches: vec![Batch { rows: vec![int_row(1)] }] },
        table: TableRef { schema: "public".to_string(), name: "t".to_string() },
    };
    let err = exec.execute(3, &mut s).unwrap_err();
    match err {
        ExecError::Partition { partition } => assert_eq!(partition, 3),
        other => panic!("expected a partition error, got {other:?}"),
    }
    assert_eq!(s.tables.len(), 0);
}

#[test]
fn alter_emits_one_status_row() {
    let mut c = CatalogState::initial();
    c.tables.push(TableEntry {
        reference: TableRef { schema: "public".to_string(), name: "t".to_string() },
        columns: vec![],
    });
    let exec = alter_exec(0);
    let batch = exec.execute(0, &mut c).expect("rename should succeed");
    assert_eq!(batch.rows.len(), 1);
    assert_eq!(batch.rows[0].values.len(), 1);
    match &batch.rows[0].values[0] {
        Value::Text(s) => assert_eq!(s, "alter_table"),
        other => panic!("expected a status text, got {other:?}"),
    }
    assert_eq!(c.version, 1);
    assert_eq!(c.tables[0].reference.name, "t2");
}

#[test]
fn alter_conflicts_on_stale_version() {
    let mut c = CatalogState::initial();
    c.version = 7;
    let exec = alter_exec(5);
    let err = exec.execute(0, &mut c).unwrap_err();
    assert_eq!(err.kind(), "conflict");
    assert_eq!(c.version, 7);
}

#[test]
fn insert_count_matches_materialized_rows() {
    let mut s = Storage::new();
    let exec = InsertExec {
        input: InputExec {
            batches: vec![
                Batch { rows: vec![int_row(1), int_row(2)] },
                Batch { rows: vec![int_row(3)] },
            ],
        },
        table: TableRef { schema: "public".to_string(), name: "t".to_string() },
    };
    let batch = exec.execute(0, &mut s).expect("insert should succeed");
    match &batch.rows[0].values[0] {
        Value::Unsigned(c) => assert_eq!(*c, 3),
        other => panic!("expected a count, got {other:?}"),
    }
    let stored = s.scan(&TableRef { schema: "public".to_string(), name: "t".to_string() });
    assert_eq!(stored.rows.len(), 3);
}

#[test]
fn insert_of_zero_rows_reports_zero() {
    let mut s = Storage::new();
    let exec = InsertExec {
        input: InputExec { batches: vec![Batch { rows: vec![] }] },
        table: TableRef { schema: "public".to_string(), name: "t".to_string() },
    };
    let batch = exec.execute(0, &mut s).expect("an empty insert succeeds");
    match &batch.rows[0].values[0] {
        Value::Unsigned(c) => assert_eq!(*c, 0),
        other => panic!("expected a count, got {other:?}"),
    }
}

#[test]
fn operator_capability_set() {
    let exec = alter_exec(0);
    assert_eq!(exec.output_partitioning(), 1);
    assert!(exec.output_ordering().is_none());
    assert_eq!(exec.children().len(), 0);
    assert!(exec.statistics().num_rows.is_none());
    assert_eq!(exec.fmt_as(), "AlterTableExec");
    assert_eq!(exec.output_schema().columns, vec!["operation".to_string()]);
    let kept = exec.with_new_children(Vec::new()).expect("no children is fine");
    assert_eq!(kept.name, "t");
    let refused = alter_exec(0).with_new_children(vec![InputExec { batches: vec![] }]);
    assert!(refused.is_err());

    let ins = InsertExec {
        input: InputExec { batches: vec![] },
        table: TableRef { schema: "public".to_string(), name: "t".to_string() },
    };
    assert_eq!(ins.output_partitioning(), 1);
    assert_eq!(ins.children().len(), 1);
    assert_eq!(ins.maintains_input_order(), vec![false]);
    assert_eq!(ins.required_input_distribution().len(), 1);
    assert_eq!(ins.fmt_as(), "InsertExec");
    assert_eq!(ins.output_schema().columns, vec!["count".to_string()]);
    let replaced = ins
        .with_new_children(vec![InputExec { batches: vec![Batch { rows: vec![int_row(9)] }] }])
        .expect("one child is fine");
    assert_eq!(replaced.input.batches.len(), 1);
}
