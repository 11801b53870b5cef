use sqlexec::logical::AlterTableOperation;
use sqlexec::logical::DdlPlan;
use sqlexec::logical::DropCredentials;
use sqlexec::logical::LogicalPlanExtension;
use sqlexec::data::TableRef;
use sqlexec::logical::SourceQuery;

#[test]
fn drop_credentials_round_trip() {
    let node = DropCredentials {
        names: vec!["first".to_string(), "second".to_string()],
        if_exists: true,
    };
    let bytes = node.try_encode();
    let back = DropCredentials::try_decode(&bytes).expect("decode should succeed");
    assert_eq!(back.names, node.names);
    assert_eq!(back.if_exists, node.if_exists);
}

#[test]
fn alter_table_round_trip() {
    let node = DdlPlan::AlterTable {
        schema: "public".to_string(),
        name: "t".to_string(),
        operation: AlterTableOperation::RenameTable { new_name: "t2".to_string() },
    };
    let bytes = node.try_encode();
    let back = DdlPlan::try_decode(&bytes).expect("decode should succeed");
    match back {
        DdlPlan::AlterTable { schema, name, operation } => {
            assert_eq!(schema, "public");
            assert_eq!(name, "t");
            match operation {
                AlterTableOperation::RenameTable { new_name } => assert_eq!(new_name, "t2"),
            }
        }
        other => panic!("wrong node kind: {other:?}"),
    }
}

#[test]
fn drop_tables_round_trip_unicode() {
    let node = DdlPlan::DropTables {
        references: vec![
            TableRef { schema: "public".to_string(), name: "æble".to_string() },
            TableRef { schema: "s2".to_string(), name: "t2".to_string() },
        ],
        if_exists: false,
    };
    let bytes = node.try_encode();
    let back = DdlPlan::try_decode(&bytes).expect("decode should succeed");
    match back {
        DdlPlan::DropTables { references, if_exists } => {
            assert!(!if_exists);
            assert_eq!(references.len(), 2);
            assert_eq!(references[0].schema, "public");
            assert_eq!(references[0].name, "æble");
            assert_eq!(references[1].schema, "s2");
            assert_eq!(references[1].name, "t2");
        }
        other => panic!("wrong node kind: {other:?}"),
    }
}

#[test]
fn create_table_round_trip() {
    let node = DdlPlan::CreateTable {
        reference: TableRef { schema: "public".to_string(), name: "t".to_string() },
        columns: vec!["a".to_string(), "b".to_string()],
    };
    let bytes = node.try_encode();
    let back = DdlPlan::try_decode(&bytes).expect("decode should succeed");
    match back {
        DdlPlan::CreateTable { reference, columns } => {
            assert_eq!(reference.schema, "public");
            assert_eq!(reference.name, "t");
            assert_eq!(columns, vec!["a".to_string(), "b".to_string()]);
        }
        other => panic!("wrong node kind: {other:?}"),
    }
}

#[test]
fn create_table_as_round_trip() {
    let node = DdlPlan::CreateTableAs {
        reference: TableRef { schema: "public".to_string(), name: "t2".to_string() },
        source: SourceQuery::ScanStar { table: vec!["t".to_string()] },
        columns: vec!["a".to_string()],
    };
    let bytes = node.try_encode();
    let back = DdlPlan::try_decode(&bytes).expect("decode should succeed");
    match back {
        DdlPlan::CreateTableAs { reference, source, columns } => {
            assert_eq!(reference.name, "t2");
            assert_eq!(columns, vec!["a".to_string()]);
            match source {
                SourceQuery::ScanStar { table } => assert_eq!(table, vec!["t".to_string()]),
                other => panic!("wrong source kind: {other:?}"),
            }
        }
        other => panic!("wrong node kind: {other:?}"),
    }
}

#[test]
fn decode_rejects_unknown_kind() {
    let bytes = vec![99u8, 0, 0, 0];
    assert!(DdlPlan::try_decode(&bytes).is_err());
}

#[test]
fn decode_rejects_empty_message() {
    let bytes: Vec<u8> = Vec::new();
    assert!(DdlPlan::try_decode(&bytes).is_err());
}

#[test]
fn decode_rejects_trailing_bytes() {
    let node = DdlPlan::CreateSchema { name: "s".to_string() };
    let mut bytes = node.try_encode();
    bytes.push(0u8);
    assert!(DdlPlan::try_decode(&bytes).is_err());
}

#[test]
fn decode_extension_recovers_matching_kind() {
    let node = DropCredentials { names: vec!["c".to_string()], if_exists: false };
    let ext = LogicalPlanExtension { node: DdlPlan::DropCredentials(node.clone()) };
    let back = DropCredentials::try_decode_extension(&ext).expect("kinds match");
    assert_eq!(back.names, node.names);
    assert_eq!(back.if_exists, node.if_exists);
}

#[test]
fn decode_extension_rejects_other_kind() {
    let ext = LogicalPlanExtension { node: DdlPlan::CreateSchema { name: "s".to_string() } };
    let err = DropCredentials::try_decode_extension(&ext).unwrap_err();
    assert_eq!(err.kind(), "decode");
}

#[test]
fn extension_node_capabilities() {
    let node = DropCredentials { names: vec!["c".to_string()], if_exists: true };
    assert_eq!(node.name(), "DropCredentials");
    assert_eq!(node.inputs().len(), 0);
    assert_eq!(node.expressions().len(), 0);
    assert_eq!(node.schema().columns, vec!["operation".to_string()]);
    assert_eq!(node.fmt_for_explain(), "DropCredentials");
    let copy = node.from_template();
    assert_eq!(copy.names, node.names);
    assert_eq!(copy.if_exists, node.if_exists);
}

#[test]
fn ddl_node_capabilities() {
    let node = DdlPlan::CreateSchema { name: "s".to_string() };
    assert_eq!(node.name(), "CreateSchema");
    assert_eq!(node.inputs().len(), 0);
    assert_eq!(node.expressions().len(), 0);
    assert_eq!(node.schema().columns, vec!["operation".to_string()]);
    assert_eq!(node.fmt_for_explain(), "CreateSchema");
}
