//! The parsing boundary: SQL text is parsed by the `sqlparser` crate, and
//! each parsed statement is converted into the library's plain
//! `ParsedStatement` form, on which planning and execution are verified.

use vstd::prelude::*;

use crate::logical::SourceQuery;
use sqlparser::ast::AlterTableOperation;
use sqlparser::ast::ObjectType;
use sqlparser::ast::RenameTableNameKind;
use sqlparser::ast::SchemaName;
use sqlparser::ast::SelectItem;
use sqlparser::ast::SetExpr;
use sqlparser::ast::Statement;
use sqlparser::ast::TableFactor;
use sqlparser::ast::TableObject;
use sqlparser::ast::TableWithJoins;

verus! {

#[verifier::external_type_specification]
#[verifier::external_body]
pub struct ExStatement(sqlparser::ast::Statement);

#[verifier::external_type_specification]
#[verifier::external_body]
pub struct ExObjectName(sqlparser::ast::ObjectName);

#[verifier::external_type_specification]
#[verifier::external_body]
pub struct ExQuery(sqlparser::ast::Query);

/// Whether `sqlparser` accepts this SQL text.
pub uninterp spec fn sql_parses(sql: Seq<char>) -> bool;

/// How many statements `sqlparser` reads out of this SQL text.
pub uninterp spec fn sql_statement_count(sql: Seq<char>) -> nat;

/// Relies on `sqlparser::parser::Parser::parse_sql` with the generic
/// dialect: parsing depends on the SQL text alone; it returns one entry
/// per parsed statement, or an error on malformed SQL.
#[verifier::external_body]
pub fn parse_sql_statements(sql: &str) -> (r: Result<Vec<sqlparser::ast::Statement>, String>)
    ensures
        r is Ok <==> sql_parses(sql@),
        r matches Ok(v) ==> v@.len() == sql_statement_count(sql@),
{
    match sqlparser::parser::Parser::parse_sql(&sqlparser::dialect::GenericDialect {}, sql) {
        Ok(v) => Ok(v),
        Err(e) => Err(format!("{e}")),
    }
}

/// Relies on `sqlparser::ast::ObjectName`: hands out the name's identifier
/// parts in order.
#[verifier::external_body]
fn object_name_idents(n: &sqlparser::ast::ObjectName) -> (r: Vec<String>) {
    n.0.iter().map(
        |p| match p {
            sqlparser::ast::ObjectNamePart::Identifier(i) => i.value.clone(),
            sqlparser::ast::ObjectNamePart::Function(f) => f.name.value.clone(),
        },
    ).collect()
}

/// Relies on `sqlparser::ast::Statement::AlterTable`: picks out a
/// single-operation `RENAME TO` and hands back the old and new names.
#[verifier::external_body]
fn stmt_alter_rename<'a>(s: &'a sqlparser::ast::Statement) -> (r: Option<
    (&'a sqlparser::ast::ObjectName, &'a sqlparser::ast::ObjectName),
>) {
    match s {
        Statement::AlterTable(at) => match at.operations.as_slice() {
            [AlterTableOperation::RenameTable { table_name: RenameTableNameKind::To(n) }] => Some(
                (&at.name, n),
            ),
            [AlterTableOperation::RenameTable { table_name: RenameTableNameKind::As(n) }] => Some(
                (&at.name, n),
            ),
            _ => None,
        },
        _ => None,
    }
}

/// Relies on `sqlparser::ast::Statement::Drop`: tells a table drop from a
/// schema drop and hands back the flag and the dropped names.
#[verifier::external_body]
fn stmt_drop<'a>(s: &'a sqlparser::ast::Statement) -> (r: Option<
    (bool, bool, &'a Vec<sqlparser::ast::ObjectName>),
>) {
    match s {
        Statement::Drop { object_type: ObjectType::Table, if_exists, names, .. } => Some(
            (false, *if_exists, names),
        ),
        Statement::Drop { object_type: ObjectType::Schema, if_exists, names, .. } => Some(
            (true, *if_exists, names),
        ),
        _ => None,
    }
}

/// Relies on `sqlparser::ast::Statement::CreateSchema`: hands back the
/// plain schema name.
#[verifier::external_body]
fn stmt_create_schema<'a>(s: &'a sqlparser::ast::Statement) -> (r: Option<
    &'a sqlparser::ast::ObjectName,
>) {
    match s {
        Statement::CreateSchema { schema_name: SchemaName::Simple(n), .. } => Some(n),
        _ => None,
    }
}

/// Relies on `sqlparser::ast::Statement::CreateTable`: hands back the
/// table name, the column names, the `EXTERNAL` flag, and the `AS` query.
#[verifier::external_body]
fn stmt_create_table<'a>(s: &'a sqlparser::ast::Statement) -> (r: Option<
    (&'a sqlparser::ast::ObjectName, Vec<String>, bool, Option<&'a sqlparser::ast::Query>),
>) {
    match s {
        Statement::CreateTable(ct) => Some(
            (
                &ct.name,
                ct.columns.iter().map(|c| c.name.value.clone()).collect(),
                ct.external,
                ct.query.as_deref(),
            ),
        ),
        _ => None,
    }
}

/// Relies on `sqlparser::ast::Statement::Insert`: hands back the target
/// table name and the source query.
#[verifier::external_body]
fn stmt_insert<'a>(s: &'a sqlparser::ast::Statement) -> (r: Option<
    (&'a sqlparser::ast::ObjectName, Option<&'a sqlparser::ast::Query>),
>) {
    match s {
        Statement::Insert(ins) => match &ins.table {
            TableObject::TableName(n) => Some((n, ins.source.as_deref())),
            _ => None,
        },
        _ => None,
    }
}

/// Relies on `sqlparser::ast::Statement::Query`: hands back the query.
#[verifier::external_body]
fn stmt_query<'a>(s: &'a sqlparser::ast::Statement) -> (r: Option<&'a sqlparser::ast::Query>) {
    match s {
        sqlparser::ast::Statement::Query(q) => Some(q),
        _ => None,
    }
}

/// Relies on `sqlparser::ast::Set::SingleAssignment`: hands back the
/// variable name and the single assigned value in its printed form.
#[verifier::external_body]
fn stmt_set_variable<'a>(s: &'a sqlparser::ast::Statement) -> (r: Option<
    (&'a sqlparser::ast::ObjectName, String),
>) {
    match s {
        Statement::Set(sqlparser::ast::Set::SingleAssignment { variable, values, .. }) => match values.as_slice() {
            [v] => Some((variable, format!("{v}"))),
            _ => None,
        },
        _ => None,
    }
}

/// Relies on `sqlparser`'s `Display` for `Statement`: the statement's
/// printed SQL form.
#[verifier::external_body]
fn stmt_display(s: &sqlparser::ast::Statement) -> (r: String) {
    format!("{s}")
}

/// Relies on `sqlparser::ast::Query`: picks out a plain
/// `SELECT * FROM <table>` with no joins and no filter.
#[verifier::external_body]
fn query_select_star_from<'a>(q: &'a sqlparser::ast::Query) -> (r: Option<
    &'a sqlparser::ast::ObjectName,
>) {
    match q.body.as_ref() {
        SetExpr::Select(sel) => match (sel.projection.as_slice(), sel.from.as_slice()) {
            (
                [SelectItem::Wildcard(_)],
                [TableWithJoins { relation: TableFactor::Table { name, .. }, joins }],
            ) => match (sel.selection.as_ref(), joins.as_slice()) {
                (None, []) => Some(name),
                _ => None,
            },
            _ => None,
        },
        _ => None,
    }
}

/// Relies on `sqlparser`'s `Display` for `Query`: the query's printed SQL
/// form.
#[verifier::external_body]
fn query_display(q: &sqlparser::ast::Query) -> (r: String) {
    format!("{q}")
}

/// The library's plain form of one parsed statement; planning and
/// execution work on this value alone.
#[derive(Debug)]
pub enum ParsedStatement {
    AlterTableRename { name: Vec<String>, new_name: Vec<String> },
    DropTables { names: Vec<Vec<String>>, if_exists: bool },
    DropSchemas { names: Vec<Vec<String>>, if_exists: bool },
    CreateSchema { name: Vec<String> },
    CreateTable { name: Vec<String>, columns: Vec<String> },
    CreateExternalTable { name: Vec<String> },
    CreateTableAs { name: Vec<String>, source: SourceQuery },
    Insert { table: Vec<String>, source: SourceQuery },
    Query { source: SourceQuery },
    SetVariable { name: Vec<String>, value: String },
    Other { display: String },
}

/// Converts one query into the library's plain source-query form.
pub fn classify_query(q: &sqlparser::ast::Query) -> SourceQuery {
    match query_select_star_from(q) {
        Some(n) => SourceQuery::ScanStar { table: object_name_idents(n) },
        None => SourceQuery::Unsupported { display: query_display(q) },
    }
}

/// Converts the names of a drop statement into their identifier parts.
fn drop_names(names: &Vec<sqlparser::ast::ObjectName>) -> (r: Vec<Vec<String>>)
    ensures
        r@.len() == names@.len(),
{
    let mut out: Vec<Vec<String>> = Vec::new();
    let mut i: usize = 0;
    while i < names.len()
        invariant
            i <= names.len(),
            out@.len() == i,
        decreases names.len() - i,
    {
        out.push(object_name_idents(&names[i]));
        i = i + 1;
    }
    out
}

/// Converts one parsed statement into the library's plain form.
pub fn classify_statement(s: &sqlparser::ast::Statement) -> ParsedStatement {
    match stmt_alter_rename(s) {
        Some((name, new_name)) => {
            return ParsedStatement::AlterTableRename {
                name: object_name_idents(name),
                new_name: object_name_idents(new_name),
            };
        },
        None => {},
    }
    match stmt_drop(s) {
        Some((is_schema, if_exists, names)) => {
            let parts = drop_names(names);
            if is_schema {
                return ParsedStatement::DropSchemas { names: parts, if_exists };
            } else {
                return ParsedStatement::DropTables { names: parts, if_exists };
            }
        },
        None => {},
    }
    match stmt_create_schema(s) {
        Some(n) => {
            return ParsedStatement::CreateSchema { name: object_name_idents(n) };
        },
        None => {},
    }
    match stmt_create_table(s) {
        Some((name, columns, external, query)) => {
            let name = object_name_idents(name);
            if external {
                return ParsedStatement::CreateExternalTable { name };
            }
            match query {
                Some(q) => {
                    return ParsedStatement::CreateTableAs { name, source: classify_query(q) };
                },
                None => {
                    return ParsedStatement::CreateTable { name, columns };
                },
            }
        },
        None => {},
    }
    match stmt_insert(s) {
        Some((table, source)) => {
            match source {
                Some(q) => {
                    return ParsedStatement::Insert {
                        table: object_name_idents(table),
                        source: classify_query(q),
                    };
                },
                None => {
                    return ParsedStatement::Other { display: stmt_display(s) };
                },
            }
        },
        None => {},
    }
    match stmt_query(s) {
        Some(q) => {
            return ParsedStatement::Query { source: classify_query(q) };
        },
        None => {},
    }
    match stmt_set_variable(s) {
        Some((name, value)) => {
            return ParsedStatement::SetVariable { name: object_name_idents(name), value };
        },
        None => {},
    }
    ParsedStatement::Other { display: stmt_display(s) }
}

} // verus!
