use sqlexec::catalog::CatalogMutator;
use sqlexec::catalog::CatalogState;
use sqlexec::catalog::Mutation;
use sqlexec::catalog::TableEntry;
use sqlexec::data::TableRef;
use sqlexec::error::ExecError;
use sqlexec::logical::AlterTableOperation;

fn catalog_with_table(version: u64, schema: &str, name: &str) -> CatalogState {
    let mut c = CatalogState::initial();
    c.version = version;
    c.tables.push(TableEntry {
        reference: TableRef { schema: schema.to_string(), name: name.to_string() },
        columns: vec!["a".to_string()],
    });
    c
}

#[test]
fn stale_version_conflicts_and_changes_nothing() {
    let mut c = catalog_with_table(5, "public", "t");
    let muts = vec![Mutation::DropTable {
        schema: "public".to_string(),
        name: "t".to_string(),
        if_exists: false,
    }];
    let err = CatalogMutator::mutate_and_commit(&mut c, 4, &muts).unwrap_err();
    match err {
        ExecError::Conflict { expected, current } => {
            assert_eq!(expected, 4);
            assert_eq!(current, 5);
        }
        other => panic!("expected a conflict, got {other:?}"),
    }
    assert_eq!(c.version, 5);
    assert_eq!(c.tables.len(), 1);
}

#[test]
fn current_version_commits_batch_atomically() {
    let mut c = CatalogState::initial();
    c.version = 5;
    let muts = vec![
        Mutation::CreateSchema { name: "s".to_string() },
        Mutation::CreateTable {
            schema: "s".to_string(),
            name: "t".to_string(),
            columns: vec!["a".to_string()],
        },
    ];
    let v = CatalogMutator::mutate_and_commit(&mut c, 5, &muts).expect("commit should succeed");
    assert_eq!(v, 6);
    assert_eq!(c.version, 6);
    assert_eq!(c.schemas, vec!["public".to_string(), "s".to_string()]);
    assert_eq!(c.tables.len(), 1);
    assert_eq!(c.tables[0].reference.schema, "s");
    assert_eq!(c.tables[0].reference.name, "t");
}

#[test]
fn failing_batch_applies_nothing() {
    let mut c = CatalogState::initial();
    c.version = 2;
    // The second mutation cannot apply: the schema does not exist.
    let muts = vec![
        Mutation::CreateSchema { name: "s".to_string() },
        Mutation::CreateTable {
            schema: "missing".to_string(),
            name: "t".to_string(),
            columns: vec![],
        },
    ];
    let err = CatalogMutator::mutate_and_commit(&mut c, 2, &muts).unwrap_err();
    assert_eq!(err.kind(), "backend");
    assert_eq!(c.version, 2);
    assert_eq!(c.schemas, vec!["public".to_string()]);
    assert_eq!(c.tables.len(), 0);
}

#[test]
fn rename_applies_exactly() {
    let mut c = catalog_with_table(1, "public", "t");
    let muts = vec![Mutation::AlterTable {
        schema: "public".to_string(),
        name: "t".to_string(),
        operation: AlterTableOperation::RenameTable { new_name: "t2".to_string() },
    }];
    let v = CatalogMutator::mutate_and_commit(&mut c, 1, &muts).expect("rename should commit");
    assert_eq!(v, 2);
    assert_eq!(c.tables.len(), 1);
    assert_eq!(c.tables[0].reference.name, "t2");
    assert_eq!(c.tables[0].columns, vec!["a".to_string()]);
}

#[test]
fn drop_missing_table_without_if_exists_fails() {
    let mut c = CatalogState::initial();
    let muts = vec![Mutation::DropTable {
        schema: "public".to_string(),
        name: "missing".to_string(),
        if_exists: false,
    }];
    let err = CatalogMutator::mutate_and_commit(&mut c, 0, &muts).unwrap_err();
    assert_eq!(err.kind(), "backend");
    assert_eq!(c.version, 0);
}

#[test]
fn drop_missing_table_with_if_exists_commits() {
    let mut c = CatalogState::initial();
    let muts = vec![Mutation::DropTable {
        schema: "public".to_string(),
        name: "missing".to_string(),
        if_exists: true,
    }];
    let v = CatalogMutator::mutate_and_commit(&mut c, 0, &muts).expect("if-exists drop commits");
    assert_eq!(v, 1);
}

#[test]
fn drop_credentials_removes_names() {
    let mut c = CatalogState::initial();
    c.credentials = vec!["one".to_string(), "two".to_string()];
    let muts = vec![Mutation::DropCredentials { names: vec!["one".to_string()], if_exists: false }];
    let v = CatalogMutator::mutate_and_commit(&mut c, 0, &muts).expect("drop should commit");
    assert_eq!(v, 1);
    assert_eq!(c.credentials, vec!["two".to_string()]);
}
