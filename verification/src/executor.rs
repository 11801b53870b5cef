//! The statement executor: a queue of parsed statements pulled one at a
//! time through planning, dispatch and execution.

use vstd::prelude::*;
use vstd::string::StringExecFns;

use crate::catalog::CatalogState;
use crate::catalog::ContentsV;
use crate::catalog::Mutation;
use crate::catalog::MutationV;
use crate::catalog::apply_all;
use crate::catalog::apply_mutation;
use crate::catalog::has_table_in;
use crate::catalog::muts_view;
use crate::data::Batch;
use crate::data::RelationSchema;
use crate::data::TableRef;
use crate::data::TableRefV;
use crate::data::Value;
use crate::data::clone_ref;
use crate::data::clone_strings;
use crate::data::total_rows;
use crate::error::ExecError;
use crate::logical::AlterTableOperation;
use crate::logical::AlterTableOperationV;
use crate::logical::ConfigurationPlan;
use crate::logical::DdlPlan;
use crate::logical::DdlView;
use crate::logical::InsertPlan;
use crate::logical::LogicalPlan;
use crate::logical::SetConfigurationPlan;
use crate::logical::SourceQuery;
use crate::logical::WritePlan;
use crate::parse::ParsedStatement;
use crate::parse::classify_statement;
use crate::parse::parse_sql_statements;
use crate::parse::sql_parses;
use crate::parse::sql_statement_count;
use crate::physical::AlterTableExec;
use crate::physical::InputExec;
use crate::physical::InsertExec;
use crate::planner::base_of;
use crate::planner::ref_of;
use crate::planner::refs_of;
use crate::planner::bases_of;
use crate::planner::all_named;
use crate::planner::resolve_reference;
use crate::planner::resolve_references;
use crate::planner::resolve_names;
use crate::planner::resolve_source;
use crate::planner::table_columns_in;
use crate::relational::RelationalPlan;
use crate::relational::Scan;
use crate::session::Session;
use crate::session::commit_batch;
use crate::session::lookup_var;
use crate::session::vars_view;
use crate::storage::Storage;
use crate::storage::stored_rows;

verus! {

/// The result of executing one statement.
#[derive(Debug)]
pub enum ExecutionResult {
    /// The output of a query: its projected schema and its row batches.
    Query { schema: RelationSchema, batches: Vec<Batch> },
    /// Transaction started.
    Begin,
    /// Transaction committed.
    Commit,
    /// Transaction rolled back.
    Rollback,
    /// Data successfully written, with the count of rows written.
    WriteSuccess { count: u64 },
    /// Table created.
    CreateTable,
    /// Schema created.
    CreateSchema,
    /// A client-local variable was set.
    SetLocal,
    /// Tables dropped.
    DropTables,
    /// Schemas dropped.
    DropSchemas,
    /// Table altered.
    AlterTable,
}

impl ExecutionResult {
    /// A short, stable description of the result kind.
    pub fn describe(&self) -> (r: &'static str)
        ensures
            r@ == self.describe_spec(),
    {
        match self {
            ExecutionResult::Query { .. } => "query",
            ExecutionResult::Begin => "begin",
            ExecutionResult::Commit => "commit",
            ExecutionResult::Rollback => "rollback",
            ExecutionResult::WriteSuccess { .. } => "write success",
            ExecutionResult::CreateTable => "create table",
            ExecutionResult::CreateSchema => "create schema",
            ExecutionResult::SetLocal => "set local",
            ExecutionResult::DropTables => "drop tables",
            ExecutionResult::DropSchemas => "drop schemas",
            ExecutionResult::AlterTable => "alter table",
        }
    }

    pub open spec fn describe_spec(&self) -> Seq<char> {
        match self {
            ExecutionResult::Query { .. } => "query"@,
            ExecutionResult::Begin => "begin"@,
            ExecutionResult::Commit => "commit"@,
            ExecutionResult::Rollback => "rollback"@,
            ExecutionResult::WriteSuccess { .. } => "write success"@,
            ExecutionResult::CreateTable => "create table"@,
            ExecutionResult::CreateSchema => "create schema"@,
            ExecutionResult::SetLocal => "set local"@,
            ExecutionResult::DropTables => "drop tables"@,
            ExecutionResult::DropSchemas => "drop schemas"@,
            ExecutionResult::AlterTable => "alter table"@,
        }
    }
}

/// Turns one parsed statement into a typed logical plan, resolving table
/// references against the catalog.  Statements the planner does not
/// understand fail with an unimplemented-plan error; malformed names and
/// unresolvable references fail with a plan error.
#[verifier::rlimit(100)]
#[verifier::spinoff_prover]
pub fn plan_parsed(catalog: &CatalogState, stmt: &ParsedStatement) -> (r: Result<
    LogicalPlan,
    ExecError,
>)
    ensures
        stmt matches ParsedStatement::AlterTableRename { name, new_name } ==> (name@.len() >= 1
            && new_name@.len() >= 1 ==> (r matches Ok(p) && p matches LogicalPlan::Ddl(d) && d@
            == (DdlView::AlterTable {
            schema: ref_of(name.deep_view()).schema,
            name: ref_of(name.deep_view()).name,
            operation: AlterTableOperationV::RenameTable {
                new_name: base_of(new_name.deep_view()),
            },
        }))) && (name@.len() == 0 || new_name@.len() == 0 ==> (r matches Err(e) && e is Plan)),
        stmt matches ParsedStatement::DropTables { names, if_exists } ==> (all_named(
            names.deep_view(),
        ) ==> (r matches Ok(p) && p matches LogicalPlan::Ddl(d) && d@ == (DdlView::DropTables {
            references: refs_of(names.deep_view()),
            if_exists: *if_exists,
        }))) && (!all_named(names.deep_view()) ==> (r matches Err(e) && e is Plan)),
        stmt matches ParsedStatement::DropSchemas { names, if_exists } ==> (all_named(
            names.deep_view(),
        ) ==> (r matches Ok(p) && p matches LogicalPlan::Ddl(d) && d@ == (DdlView::DropSchemas {
            names: bases_of(names.deep_view()),
            if_exists: *if_exists,
        }))) && (!all_named(names.deep_view()) ==> (r matches Err(e) && e is Plan)),
        stmt matches ParsedStatement::CreateSchema { name } ==> (name@.len() >= 1 ==> (r matches Ok(
            p,
        ) && p matches LogicalPlan::Ddl(d) && d@ == (DdlView::CreateSchema {
            name: base_of(name.deep_view()),
        }))) && (name@.len() == 0 ==> (r matches Err(e) && e is Plan)),
        stmt matches ParsedStatement::CreateTable { name, columns } ==> (name@.len() >= 1 ==> (
        r matches Ok(p) && p matches LogicalPlan::Ddl(d) && d@ == (DdlView::CreateTable {
            schema: ref_of(name.deep_view()).schema,
            name: ref_of(name.deep_view()).name,
            columns: columns.deep_view(),
        }))) && (name@.len() == 0 ==> (r matches Err(e) && e is Plan)),
        stmt matches ParsedStatement::CreateExternalTable { name } ==> (name@.len() >= 1 ==> (
        r matches Ok(p) && p matches LogicalPlan::Ddl(d) && d@ == (DdlView::CreateExternalTable {
            schema: ref_of(name.deep_view()).schema,
            name: ref_of(name.deep_view()).name,
        }))) && (name@.len() == 0 ==> (r matches Err(e) && e is Plan)),
        stmt matches ParsedStatement::CreateTableAs { name, source } ==> (name@.len() == 0 ==> (
        r matches Err(e) && e is Plan)) && (source matches SourceQuery::Unsupported { display }
            ==> (r matches Err(e) && e is Plan)),
        stmt matches ParsedStatement::CreateTableAs { name, source } ==> (
        source matches SourceQuery::ScanStar { table: st } ==> ((st@.len() == 0 || !has_table_in(
            catalog.contents().tables,
            ref_of(st.deep_view()).schema,
            ref_of(st.deep_view()).name,
        ) ==> (r matches Err(e) && e is Plan)) && (name@.len() >= 1 && st@.len() >= 1
            && has_table_in(
            catalog.contents().tables,
            ref_of(st.deep_view()).schema,
            ref_of(st.deep_view()).name,
        ) ==> (r matches Ok(p) && p matches LogicalPlan::Ddl(d) && d@ == (DdlView::CreateTableAs {
            schema: ref_of(name.deep_view()).schema,
            name: ref_of(name.deep_view()).name,
            source: source@,
            columns: table_columns_in(
                catalog.contents().tables,
                ref_of(st.deep_view()).schema,
                ref_of(st.deep_view()).name,
            ),
        }))))),
        stmt matches ParsedStatement::Query { source } ==> (source matches SourceQuery::ScanStar {
            table,
        } ==> (table@.len() >= 1 && has_table_in(
            catalog.contents().tables,
            ref_of(table.deep_view()).schema,
            ref_of(table.deep_view()).name,
        ) ==> (r matches Ok(p) && p matches LogicalPlan::Query(q) && (
        q matches RelationalPlan::Scan(sc) && sc.table@ == ref_of(table.deep_view())
            && sc.projected_schema.columns.deep_view() == table_columns_in(
            catalog.contents().tables,
            ref_of(table.deep_view()).schema,
            ref_of(table.deep_view()).name,
        ) && sc.project is None && sc.filters is None)))),
        stmt matches ParsedStatement::Insert { table, source } ==> (
        source matches SourceQuery::ScanStar { table: st } ==> (table@.len() >= 1 && has_table_in(
            catalog.contents().tables,
            ref_of(table.deep_view()).schema,
            ref_of(table.deep_view()).name,
        ) && st@.len() >= 1 && has_table_in(
            catalog.contents().tables,
            ref_of(st.deep_view()).schema,
            ref_of(st.deep_view()).name,
        ) ==> (r matches Ok(p) && p matches LogicalPlan::Write(w) && (
        w matches WritePlan::Insert(ip) && ip.table@ == ref_of(table.deep_view()) && (
        ip.source matches RelationalPlan::Scan(sc) && sc.table@ == ref_of(st.deep_view())
            && sc.projected_schema.columns.deep_view() == table_columns_in(
            catalog.contents().tables,
            ref_of(st.deep_view()).schema,
            ref_of(st.deep_view()).name,
        ) && sc.project is None && sc.filters is None))))),
        stmt matches ParsedStatement::Query { source } ==> (source matches SourceQuery::Unsupported {
            display,
        } ==> (r matches Err(e) && e is Plan)),
        stmt matches ParsedStatement::Query { source } ==> (source matches SourceQuery::ScanStar {
            table,
        } ==> (table@.len() == 0 || !has_table_in(
            catalog.contents().tables,
            ref_of(table.deep_view()).schema,
            ref_of(table.deep_view()).name,
        ) ==> (r matches Err(e) && e is Plan))),
        stmt matches ParsedStatement::Insert { table, source } ==> (table@.len() == 0 || (
        table@.len() >= 1 && !has_table_in(
            catalog.contents().tables,
            ref_of(table.deep_view()).schema,
            ref_of(table.deep_view()).name,
        )) ==> (r matches Err(e) && e is Plan)),
        stmt matches ParsedStatement::Insert { table, source } ==> (
        source matches SourceQuery::Unsupported { display } ==> (r matches Err(e) && e is Plan)),
        stmt matches ParsedStatement::Insert { table, source } ==> (
        source matches SourceQuery::ScanStar { table: st } ==> (st@.len() == 0 || !has_table_in(
            catalog.contents().tables,
            ref_of(st.deep_view()).schema,
            ref_of(st.deep_view()).name,
        ) ==> (r matches Err(e) && e is Plan))),
        stmt matches ParsedStatement::SetVariable { name, value } ==> (name@.len() >= 1 ==> (
        r matches Ok(p) && p matches LogicalPlan::Configuration(c) && c matches ConfigurationPlan::SetConfiguration(
            sc,
        ) && sc.name@ == base_of(name.deep_view()) && sc.value@ == value@)) && (name@.len() == 0
            ==> (r matches Err(e) && e is Plan)),
        stmt matches ParsedStatement::Other { display } ==> (r matches Err(e)
            && e is UnimplementedPlan),
{
    match stmt {
        ParsedStatement::AlterTableRename { name, new_name } => {
            let reference = match resolve_reference(name) {
                Ok(t) => t,
                Err(e) => {
                    return Err(e);
                },
            };
            if new_name.len() == 0 {
                return Err(ExecError::Plan { message: String::from_str("empty object name") });
            }
            let nn = new_name[new_name.len() - 1].clone();
            Ok(
                LogicalPlan::Ddl(
                    DdlPlan::AlterTable {
                        schema: reference.schema,
                        name: reference.name,
                        operation: AlterTableOperation::RenameTable { new_name: nn },
                    },
                ),
            )
        },
        ParsedStatement::DropTables { names, if_exists } => {
            proof {
                assert(names.deep_view().skip(0) =~= names.deep_view());
            }
            match resolve_references(names, 0) {
                Ok(references) => Ok(
                    LogicalPlan::Ddl(DdlPlan::DropTables { references, if_exists: *if_exists }),
                ),
                Err(e) => Err(e),
            }
        },
        ParsedStatement::DropSchemas { names, if_exists } => {
            proof {
                assert(names.deep_view().skip(0) =~= names.deep_view());
            }
            match resolve_names(names, 0) {
                Ok(plain) => Ok(
                    LogicalPlan::Ddl(DdlPlan::DropSchemas { names: plain, if_exists: *if_exists }),
                ),
                Err(e) => Err(e),
            }
        },
        ParsedStatement::CreateSchema { name } => {
            if name.len() == 0 {
                return Err(ExecError::Plan { message: String::from_str("empty object name") });
            }
            let plain = name[name.len() - 1].clone();
            Ok(LogicalPlan::Ddl(DdlPlan::CreateSchema { name: plain }))
        },
        ParsedStatement::CreateTable { name, columns } => {
            match resolve_reference(name) {
                Ok(reference) => Ok(
                    LogicalPlan::Ddl(
                        DdlPlan::CreateTable { reference, columns: clone_strings(columns) },
                    ),
                ),
                Err(e) => Err(e),
            }
        },
        ParsedStatement::CreateExternalTable { name } => {
            match resolve_reference(name) {
                Ok(reference) => Ok(
                    LogicalPlan::Ddl(DdlPlan::CreateExternalTable { reference }),
                ),
                Err(e) => Err(e),
            }
        },
        ParsedStatement::CreateTableAs { name, source } => {
            let reference = match resolve_reference(name) {
                Ok(t) => t,
                Err(e) => {
                    return Err(e);
                },
            };
            match resolve_source(catalog, source) {
                Ok((_, columns)) => Ok(
                    LogicalPlan::Ddl(
                        DdlPlan::CreateTableAs {
                            reference,
                            source: clone_source(source),
                            columns,
                        },
                    ),
                ),
                Err(e) => Err(e),
            }
        },
        ParsedStatement::Query { source } => {
            match resolve_source(catalog, source) {
                Ok((table, columns)) => Ok(
                    LogicalPlan::Query(
                        RelationalPlan::Scan(
                            Scan {
                                table,
                                projected_schema: RelationSchema { columns },
                                project: None,
                                filters: None,
                            },
                        ),
                    ),
                ),
                Err(e) => Err(e),
            }
        },
        ParsedStatement::Insert { table, source } => {
            let target = match resolve_reference(table) {
                Ok(t) => t,
                Err(e) => {
                    return Err(e);
                },
            };
            proof {
                assert(crate::catalog::entries_view(catalog.tables@).skip(0)
                    =~= crate::catalog::entries_view(catalog.tables@));
            }
            match crate::planner::find_table_columns(&catalog.tables, 0, &target) {
                Some(_) => {},
                None => {
                    return Err(ExecError::Plan { message: String::from_str("table not found") });
                },
            }
            match resolve_source(catalog, source) {
                Ok((src_table, columns)) => Ok(
                    LogicalPlan::Write(
                        WritePlan::Insert(
                            InsertPlan {
                                table: target,
                                source: RelationalPlan::Scan(
                                    Scan {
                                        table: src_table,
                                        projected_schema: RelationSchema { columns },
                                        project: None,
                                        filters: None,
                                    },
                                ),
                            },
                        ),
                    ),
                ),
                Err(e) => Err(e),
            }
        },
        ParsedStatement::SetVariable { name, value } => {
            if name.len() == 0 {
                return Err(ExecError::Plan { message: String::from_str("empty variable name") });
            }
            let plain = name[name.len() - 1].clone();
            Ok(
                LogicalPlan::Configuration(
                    ConfigurationPlan::SetConfiguration(
                        SetConfigurationPlan { name: plain, value: value.clone() },
                    ),
                ),
            )
        },
        ParsedStatement::Other { display } => Err(
            ExecError::UnimplementedPlan { message: display.clone() },
        ),
    }
}

/// Copies a source-query description.
pub fn clone_source(q: &SourceQuery) -> (r: SourceQuery)
    ensures
        r@ == q@,
{
    match q {
        SourceQuery::ScanStar { table } => SourceQuery::ScanStar { table: clone_strings(table) },
        SourceQuery::Unsupported { display } => SourceQuery::Unsupported {
            display: display.clone(),
        },
    }
}

/// Whether the executor has a handler for this DDL plan.
pub open spec fn ddl_handled(d: DdlView) -> bool {
    !(d is DropCredentials)
}

/// The drop mutations for a list of table references.
pub open spec fn drop_table_muts(refs: Seq<TableRefV>, if_exists: bool) -> Seq<MutationV> {
    refs.map_values(
        |t: TableRefV| MutationV::DropTable { schema: t.schema, name: t.name, if_exists },
    )
}

/// The drop mutations for a list of schema names.
pub open spec fn drop_schema_muts(names: Seq<Seq<char>>, if_exists: bool) -> Seq<MutationV> {
    names.map_values(|n: Seq<char>| MutationV::DropSchema { name: n, if_exists })
}

/// The mutation batch a handled DDL plan submits to the catalog mutator.
pub open spec fn ddl_mutations(d: DdlView) -> Seq<MutationV> {
    match d {
        DdlView::CreateTable { schema, name, columns } => seq![
            MutationV::CreateTable { schema, name, columns },
        ],
        DdlView::CreateExternalTable { schema, name } => seq![
            MutationV::CreateTable { schema, name, columns: Seq::empty() },
        ],
        DdlView::CreateTableAs { schema, name, source, columns } => seq![
            MutationV::CreateTable { schema, name, columns },
        ],
        DdlView::CreateSchema { name } => seq![MutationV::CreateSchema { name }],
        DdlView::DropTables { references, if_exists } => drop_table_muts(references, if_exists),
        DdlView::DropSchemas { names, if_exists } => drop_schema_muts(names, if_exists),
        DdlView::AlterTable { schema, name, operation } => seq![
            MutationV::AlterTable { schema, name, operation },
        ],
        DdlView::DropCredentials { names, if_exists } => Seq::empty(),
    }
}

/// Whether `res` is the result tag a DDL plan's success produces.
pub open spec fn ddl_result_ok(d: DdlView, res: ExecutionResult) -> bool {
    match d {
        DdlView::CreateTable { .. } => res is CreateTable,
        DdlView::CreateExternalTable { .. } => res is CreateTable,
        DdlView::CreateTableAs { .. } => res is CreateTable,
        DdlView::CreateSchema { .. } => res is CreateSchema,
        DdlView::DropTables { .. } => res is DropTables,
        DdlView::DropSchemas { .. } => res is DropSchemas,
        DdlView::AlterTable { .. } => res is AlterTable,
        DdlView::DropCredentials { .. } => false,
    }
}

/// Builds the drop mutations for the references from index `i` on.
fn refs_to_drop_muts(refs: &Vec<TableRef>, i: usize, if_exists: bool) -> (r: Vec<Mutation>)
    requires
        i <= refs.len(),
    ensures
        muts_view(r) == drop_table_muts(
            refs@.map_values(|t: TableRef| t@).skip(i as int),
            if_exists,
        ),
    decreases refs.len() - i,
{
    let ghost rv = refs@.map_values(|t: TableRef| t@);
    if i < refs.len() {
        let mut rest = refs_to_drop_muts(refs, i + 1, if_exists);
        let ghost pre = muts_view(rest);
        let m = Mutation::DropTable {
            schema: refs[i].schema.clone(),
            name: refs[i].name.clone(),
            if_exists,
        };
        let ghost mv = m@;
        rest.insert(0, m);
        proof {
            assert(muts_view(rest) =~= seq![mv] + pre);
            assert(rv.skip(i as int)[0] == rv[i as int]);
            assert(rv.skip(i as int).drop_first() =~= rv.skip(i as int + 1));
            assert(muts_view(rest) =~= drop_table_muts(rv.skip(i as int), if_exists));
        }
        rest
    } else {
        let r: Vec<Mutation> = Vec::new();
        proof {
            assert(rv.skip(i as int) =~= Seq::<TableRefV>::empty());
            assert(muts_view(r) =~= drop_table_muts(rv.skip(i as int), if_exists));
        }
        r
    }
}

/// Builds the drop mutations for the schema names from index `i` on.
fn names_to_drop_muts(names: &Vec<String>, i: usize, if_exists: bool) -> (r: Vec<Mutation>)
    requires
        i <= names.len(),
    ensures
        muts_view(r) == drop_schema_muts(names.deep_view().skip(i as int), if_exists),
    decreases names.len() - i,
{
    if i < names.len() {
        let mut rest = names_to_drop_muts(names, i + 1, if_exists);
        let ghost pre = muts_view(rest);
        let m = Mutation::DropSchema { name: names[i].clone(), if_exists };
        let ghost mv = m@;
        rest.insert(0, m);
        proof {
            assert(muts_view(rest) =~= seq![mv] + pre);
            assert(names.deep_view().skip(i as int)[0] == names.deep_view()[i as int]);
            assert(names.deep_view().skip(i as int).drop_first() =~= names.deep_view().skip(
                i as int + 1,
            ));
            assert(muts_view(rest) =~= drop_schema_muts(
                names.deep_view().skip(i as int),
                if_exists,
            ));
        }
        rest
    } else {
        let r: Vec<Mutation> = Vec::new();
        proof {
            assert(names.deep_view().skip(i as int) =~= Seq::<Seq<char>>::empty());
            assert(muts_view(r) =~= drop_schema_muts(names.deep_view().skip(i as int), if_exists));
        }
        r
    }
}

/// Builds the mutation batch a handled DDL plan submits.
#[verifier::rlimit(100)]
#[verifier::spinoff_prover]
fn ddl_to_mutations(d: &DdlPlan) -> (r: Result<Vec<Mutation>, ExecError>)
    ensures
        ddl_handled(d@) ==> (r matches Ok(v) && muts_view(v) == ddl_mutations(d@)),
        !ddl_handled(d@) ==> (r matches Err(e) && e is UnimplementedPlan),
{
    match d {
        DdlPlan::CreateTable { reference, columns } => {
            let mut v: Vec<Mutation> = Vec::new();
            v.push(
                Mutation::CreateTable {
                    schema: reference.schema.clone(),
                    name: reference.name.clone(),
                    columns: clone_strings(columns),
                },
            );
            proof {
                assert(muts_view(v)[0] == v@[0]@);
                assert(v@[0]@ == (MutationV::CreateTable {
                    schema: reference.schema@,
                    name: reference.name@,
                    columns: columns.deep_view(),
                }));
                assert(muts_view(v) =~= ddl_mutations(d@));
            }
            Ok(v)
        },
        DdlPlan::CreateExternalTable { reference } => {
            let mut v: Vec<Mutation> = Vec::new();
            let empty_cols: Vec<String> = Vec::new();
            proof {
                assert(empty_cols.deep_view() =~= Seq::<Seq<char>>::empty());
            }
            v.push(
                Mutation::CreateTable {
                    schema: reference.schema.clone(),
                    name: reference.name.clone(),
                    columns: empty_cols,
                },
            );
            proof {
                assert(muts_view(v)[0] == v@[0]@);
                assert(v@[0]@ == (MutationV::CreateTable {
                    schema: reference.schema@,
                    name: reference.name@,
                    columns: Seq::empty(),
                }));
                assert(muts_view(v) =~= ddl_mutations(d@));
            }
            Ok(v)
        },
        DdlPlan::CreateTableAs { reference, source, columns } => {
            let mut v: Vec<Mutation> = Vec::new();
            v.push(
                Mutation::CreateTable {
                    schema: reference.schema.clone(),
                    name: reference.name.clone(),
                    columns: clone_strings(columns),
                },
            );
            proof {
                assert(muts_view(v)[0] == v@[0]@);
                assert(v@[0]@ == (MutationV::CreateTable {
                    schema: reference.schema@,
                    name: reference.name@,
                    columns: columns.deep_view(),
                }));
                assert(muts_view(v) =~= ddl_mutations(d@));
            }
            Ok(v)
        },
        DdlPlan::CreateSchema { name } => {
            let mut v: Vec<Mutation> = Vec::new();
            v.push(Mutation::CreateSchema { name: name.clone() });
            proof {
                assert(muts_view(v) =~= ddl_mutations(d@));
            }
            Ok(v)
        },
        DdlPlan::DropTables { references, if_exists } => {
            proof {
                assert(references@.map_values(|t: TableRef| t@).skip(0) =~= references@.map_values(
                    |t: TableRef| t@,
                ));
            }
            Ok(refs_to_drop_muts(references, 0, *if_exists))
        },
        DdlPlan::DropSchemas { names, if_exists } => {
            proof {
                assert(names.deep_view().skip(0) =~= names.deep_view());
            }
            Ok(names_to_drop_muts(names, 0, *if_exists))
        },
        DdlPlan::AlterTable { schema, name, operation } => {
            let mut v: Vec<Mutation> = Vec::new();
            v.push(
                Mutation::AlterTable {
                    schema: schema.clone(),
                    name: name.clone(),
                    operation: crate::physical::clone_op(operation),
                },
            );
            proof {
                assert(muts_view(v) =~= ddl_mutations(d@));
            }
            Ok(v)
        },
        DdlPlan::DropCredentials(_) => Err(
            ExecError::UnimplementedPlan {
                message: String::from_str("unimplemented logical plan: DropCredentials"),
            },
        ),
    }
}

/// Builds the physical source of a data-flow plan: the batches a scan
/// yields from storage.  Any other operator has no physical handler here.
pub fn create_physical_plan(storage: &Storage, plan: &RelationalPlan) -> (r: Result<
    InputExec,
    ExecError,
>)
    ensures
        plan matches RelationalPlan::Scan(sc) ==> (r matches Ok(ie) && ie.batches@.len() == 1
            && ie.batches@[0]@ == stored_rows(storage.tables@, sc.table.schema@, sc.table.name@)),
        !(plan is Scan) ==> (r matches Err(e) && e is UnimplementedPlan),
{
    match plan {
        RelationalPlan::Scan(sc) => {
            let b = storage.scan(&sc.table);
            let mut batches: Vec<Batch> = Vec::new();
            batches.push(b);
            Ok(InputExec { batches })
        },
        _ => Err(
            ExecError::UnimplementedPlan {
                message: String::from_str("unimplemented physical plan"),
            },
        ),
    }
}

/// Hands the physical source's batches to the caller as the query stream.
pub fn execute_physical(input: InputExec) -> (r: Vec<Batch>)
    ensures
        r == input.batches,
{
    input.batches
}

/// Executes one logical plan against the session, the catalog and the
/// data store.
///
/// A DDL plan commits its mutation batch under the session's observed
/// version: a stale version is a conflict and nothing is applied; on a
/// match the batch applies atomically, both versions advance by one, and
/// the result carries the plan's success tag.  A write drives its source
/// and reports exactly the number of rows materialized.  A query hands
/// back the scanned rows and changes nothing.  A configuration plan sets
/// one client-local variable.  A plan without a handler fails with an
/// unimplemented-plan error.
#[verifier::rlimit(100)]
#[verifier::spinoff_prover]
pub fn dispatch_plan(
    session: &mut Session,
    catalog: &mut CatalogState,
    storage: &mut Storage,
    plan: LogicalPlan,
) -> (r: Result<ExecutionResult, ExecError>)
    ensures
        plan matches LogicalPlan::Ddl(d) ==> *final(storage) == *old(storage) && final(session).vars == old(session).vars,
        plan matches LogicalPlan::Ddl(d) ==> (!ddl_handled(d@) ==> (r matches Err(e)
            && e is UnimplementedPlan) && *final(catalog) == *old(catalog) && *final(session)
            == *old(session)),
        plan matches LogicalPlan::Ddl(d) ==> (ddl_handled(d@) && old(session).version != old(catalog).version ==> (r matches Err(e) && e == (ExecError::Conflict {
            expected: old(session).version,
            current: old(catalog).version,
        })) && final(catalog).version == old(catalog).version && final(catalog).contents() == old(catalog).contents() && final(session).version
            == old(session).version),
        plan matches LogicalPlan::Ddl(d) ==> (ddl_handled(d@) && old(session).version == old(catalog).version && old(catalog).version < u64::MAX ==> (apply_all(
            old(catalog).contents(),
            ddl_mutations(d@),
        ) matches Some(c) ==> (r matches Ok(res) && ddl_result_ok(d@, res)) && final(catalog).contents() == c && final(catalog).version == old(catalog).version + 1 && final(session).version == old(catalog).version + 1)),
        plan matches LogicalPlan::Ddl(d) ==> (ddl_handled(d@) && old(session).version == old(catalog).version && old(catalog).version < u64::MAX && apply_all(
            old(catalog).contents(),
            ddl_mutations(d@),
        ) is None ==> (r matches Err(e) && e is Backend) && final(catalog).version == old(catalog).version && final(catalog).contents() == old(catalog).contents() && final(session).version
            == old(session).version),
        plan matches LogicalPlan::Ddl(d) ==> (ddl_handled(d@) && old(session).version == old(catalog).version && old(catalog).version == u64::MAX ==> (r matches Err(e)
            && e is Backend) && final(catalog).version == old(catalog).version && final(catalog).contents() == old(catalog).contents() && final(session).version == old(session).version),
        plan matches LogicalPlan::Write(w) ==> *final(catalog) == *old(catalog) && *final(session)
            == *old(session),
        plan matches LogicalPlan::Write(w) ==> (w matches WritePlan::Insert(ip) ==> (
        ip.source matches RelationalPlan::Scan(sc) ==> (r matches Ok(res) && (
        res matches ExecutionResult::WriteSuccess { count } && count == stored_rows(
            old(storage).tables@,
            sc.table.schema@,
            sc.table.name@,
        ).len()) && stored_rows(final(storage).tables@, ip.table.schema@, ip.table.name@)
            == stored_rows(old(storage).tables@, ip.table.schema@, ip.table.name@) + stored_rows(
            old(storage).tables@,
            sc.table.schema@,
            sc.table.name@,
        )))),
        plan matches LogicalPlan::Write(w) ==> (w matches WritePlan::Insert(ip) ==> (!(
        ip.source is Scan) ==> (r matches Err(e) && e is UnimplementedPlan) && *final(storage)
            == *old(storage))),
        plan matches LogicalPlan::Query(q) ==> *final(catalog) == *old(catalog) && *final(session)
            == *old(session) && *final(storage) == *old(storage),
        plan matches LogicalPlan::Query(q) ==> (q matches RelationalPlan::Scan(sc) ==> (r matches Ok(
            res,
        ) && (res matches ExecutionResult::Query { schema, batches } && schema.columns.deep_view()
            == sc.projected_schema.columns.deep_view() && batches@.len() == 1 && batches@[0]@
            == stored_rows(old(storage).tables@, sc.table.schema@, sc.table.name@)))),
        plan matches LogicalPlan::Query(q) ==> (!(q is Scan) ==> (r matches Err(e)
            && e is UnimplementedPlan)),
        plan matches LogicalPlan::Configuration(cp) ==> *final(catalog) == *old(catalog) && *final(storage) == *old(storage) && final(session).version == old(session).version,
        plan matches LogicalPlan::Configuration(cp) ==> (cp matches ConfigurationPlan::SetConfiguration(
            sc,
        ) ==> (r matches Ok(res) && res is SetLocal) && lookup_var(
            vars_view(final(session).vars@),
            sc.name@,
        ) == Some(sc.value@)),
{
    match plan {
        LogicalPlan::Ddl(d) => {
            match &d {
                DdlPlan::AlterTable { schema, name, operation } => {
                    let exec = AlterTableExec {
                        catalog_version: session.version,
                        schema: schema.clone(),
                        name: name.clone(),
                        operation: crate::physical::clone_op(operation),
                    };
                    let ghost c0 = catalog.contents();
                    let ghost mv = exec.mutation_view();
                    proof {
                        assert(seq![mv] =~= ddl_mutations(d@));
                        assert(seq![mv][0] == mv);
                        assert(seq![mv].drop_first() =~= Seq::<MutationV>::empty());
                        reveal_with_fuel(apply_all, 2);
                        assert(apply_mutation(c0, mv) matches Some(c2) ==> apply_all(c0, seq![mv])
                            == Some(c2));
                        assert(apply_mutation(c0, mv) is None ==> apply_all(c0, seq![mv]) is None);
                    }
                    match exec.execute(0, catalog) {
                        Ok(_) => {
                            session.version = catalog.version;
                            Ok(ExecutionResult::AlterTable)
                        },
                        Err(e) => Err(e),
                    }
                },
                _ => {
                    let muts = match ddl_to_mutations(&d) {
                        Ok(m) => m,
                        Err(e) => {
                            return Err(e);
                        },
                    };
                    match commit_batch(session, catalog, &muts) {
                        Ok(_) => {
                            match &d {
                                DdlPlan::CreateTable { .. } => Ok(ExecutionResult::CreateTable),
                                DdlPlan::CreateExternalTable { .. } => Ok(
                                    ExecutionResult::CreateTable,
                                ),
                                DdlPlan::CreateTableAs { .. } => Ok(ExecutionResult::CreateTable),
                                DdlPlan::CreateSchema { .. } => Ok(ExecutionResult::CreateSchema),
                                DdlPlan::DropTables { .. } => Ok(ExecutionResult::DropTables),
                                DdlPlan::DropSchemas { .. } => Ok(ExecutionResult::DropSchemas),
                                DdlPlan::AlterTable { .. } => Ok(ExecutionResult::AlterTable),
                                DdlPlan::DropCredentials(_) => Err(
                                    ExecError::UnimplementedPlan {
                                        message: String::from_str("unimplemented logical plan"),
                                    },
                                ),
                            }
                        },
                        Err(e) => Err(e),
                    }
                },
            }
        },
        LogicalPlan::Write(WritePlan::Insert(ip)) => {
            let input = match create_physical_plan(storage, &ip.source) {
                Ok(i) => i,
                Err(e) => {
                    return Err(e);
                },
            };
            let ghost scanned = input.batches@[0]@;
            let exec = InsertExec { input, table: clone_ref(&ip.table) };
            proof {
                reveal_with_fuel(crate::data::total_rows, 2);
                assert(exec.input.batches@.drop_first() =~= Seq::<Batch>::empty());
                assert(total_rows(exec.input.batches@) == exec.input.batches@[0].rows.len());
                reveal_with_fuel(crate::physical::rows_of, 2);
                assert(crate::physical::rows_of(exec.input.batches@.drop_first())
                    =~= Seq::<Seq<crate::data::ValueV>>::empty());
                assert(crate::physical::rows_of(exec.input.batches@) =~= scanned);
            }
            match exec.execute(0, storage) {
                Ok(batch) => {
                    let count: u64 = if batch.rows.len() == 1 && batch.rows[0].values.len() == 1 {
                        match &batch.rows[0].values[0] {
                            Value::Unsigned(c) => *c,
                            _ => 0,
                        }
                    } else {
                        0
                    };
                    Ok(ExecutionResult::WriteSuccess { count })
                },
                Err(e) => Err(e),
            }
        },
        LogicalPlan::Query(q) => {
            let schema = match &q {
                RelationalPlan::Scan(sc) => RelationSchema {
                    columns: clone_strings(&sc.projected_schema.columns),
                },
                _ => {
                    return Err(
                        ExecError::UnimplementedPlan {
                            message: String::from_str("unimplemented physical plan"),
                        },
                    );
                },
            };
            let input = match create_physical_plan(storage, &q) {
                Ok(i) => i,
                Err(e) => {
                    return Err(e);
                },
            };
            let batches = execute_physical(input);
            Ok(ExecutionResult::Query { schema, batches })
        },
        LogicalPlan::Configuration(ConfigurationPlan::SetConfiguration(sc)) => {
            session.set_configuration(sc.name, sc.value);
            Ok(ExecutionResult::SetLocal)
        },
    }
}

/// Whether `res` carries the success tag of this statement kind.
pub open spec fn result_matches(stmt: ParsedStatement, res: ExecutionResult) -> bool {
    match stmt {
        ParsedStatement::AlterTableRename { .. } => res is AlterTable,
        ParsedStatement::DropTables { .. } => res is DropTables,
        ParsedStatement::DropSchemas { .. } => res is DropSchemas,
        ParsedStatement::CreateSchema { .. } => res is CreateSchema,
        ParsedStatement::CreateTable { .. } => res is CreateTable,
        ParsedStatement::CreateExternalTable { .. } => res is CreateTable,
        ParsedStatement::CreateTableAs { .. } => res is CreateTable,
        ParsedStatement::Insert { .. } => res is WriteSuccess,
        ParsedStatement::Query { .. } => res is Query,
        ParsedStatement::SetVariable { .. } => res is SetLocal,
        ParsedStatement::Other { .. } => false,
    }
}

/// Whether this statement kind commits catalog mutations when it runs.
pub open spec fn is_ddl_statement(stmt: ParsedStatement) -> bool {
    ||| stmt is AlterTableRename
    ||| stmt is DropTables
    ||| stmt is DropSchemas
    ||| stmt is CreateSchema
    ||| stmt is CreateTable
    ||| stmt is CreateExternalTable
    ||| stmt is CreateTableAs
}

/// Whether every object name the statement carries has at least one part.
pub open spec fn stmt_named_ok(stmt: ParsedStatement) -> bool {
    match stmt {
        ParsedStatement::AlterTableRename { name, new_name } => name@.len() >= 1 && new_name@.len()
            >= 1,
        ParsedStatement::DropTables { names, if_exists } => all_named(names.deep_view()),
        ParsedStatement::DropSchemas { names, if_exists } => all_named(names.deep_view()),
        ParsedStatement::CreateSchema { name } => name@.len() >= 1,
        ParsedStatement::CreateTable { name, columns } => name@.len() >= 1,
        ParsedStatement::CreateExternalTable { name } => name@.len() >= 1,
        ParsedStatement::CreateTableAs { name, source } => name@.len() >= 1,
        _ => true,
    }
}

/// Whether the planner accepts the statement: every name has at least one
/// part, and a `CREATE TABLE AS` source is a resolvable scan.
pub open spec fn stmt_plannable(c: ContentsV, stmt: ParsedStatement) -> bool {
    stmt_named_ok(stmt) && (stmt matches ParsedStatement::CreateTableAs { name, source } ==> (
    source matches SourceQuery::ScanStar { table } && table@.len() >= 1 && has_table_in(
        c.tables,
        ref_of(table.deep_view()).schema,
        ref_of(table.deep_view()).name,
    )))
}

/// The mutation batch a plannable catalog-mutating statement commits
/// against contents `c`.
pub open spec fn stmt_mutations(c: ContentsV, stmt: ParsedStatement) -> Seq<MutationV> {
    match stmt {
        ParsedStatement::AlterTableRename { name, new_name } => seq![
            MutationV::AlterTable {
                schema: ref_of(name.deep_view()).schema,
                name: ref_of(name.deep_view()).name,
                operation: AlterTableOperationV::RenameTable {
                    new_name: base_of(new_name.deep_view()),
                },
            },
        ],
        ParsedStatement::DropTables { names, if_exists } => drop_table_muts(
            refs_of(names.deep_view()),
            if_exists,
        ),
        ParsedStatement::DropSchemas { names, if_exists } => drop_schema_muts(
            bases_of(names.deep_view()),
            if_exists,
        ),
        ParsedStatement::CreateSchema { name } => seq![
            MutationV::CreateSchema { name: base_of(name.deep_view()) },
        ],
        ParsedStatement::CreateTable { name, columns } => seq![
            MutationV::CreateTable {
                schema: ref_of(name.deep_view()).schema,
                name: ref_of(name.deep_view()).name,
                columns: columns.deep_view(),
            },
        ],
        ParsedStatement::CreateExternalTable { name } => seq![
            MutationV::CreateTable {
                schema: ref_of(name.deep_view()).schema,
                name: ref_of(name.deep_view()).name,
                columns: Seq::empty(),
            },
        ],
        ParsedStatement::CreateTableAs { name, source } => seq![
            MutationV::CreateTable {
                schema: ref_of(name.deep_view()).schema,
                name: ref_of(name.deep_view()).name,
                columns: (match source {
                    SourceQuery::ScanStar { table } => table_columns_in(
                        c.tables,
                        ref_of(table.deep_view()).schema,
                        ref_of(table.deep_view()).name,
                    ),
                    SourceQuery::Unsupported { display } => Seq::empty(),
                }),
            },
        ],
        _ => Seq::empty(),
    }
}

/// Everything executing one statement promises, over the states before and
/// after and the returned result.  This one predicate is the contract of
/// `execute_statement` and, through `execute_next`, of the front of the
/// executor's queue.
pub open spec fn statement_outcome_ok(
    stmt: ParsedStatement,
    pre_session: Session,
    pre_catalog: CatalogState,
    pre_storage: Storage,
    post_session: Session,
    post_catalog: CatalogState,
    post_storage: Storage,
    r: Result<ExecutionResult, ExecError>,
) -> bool {
    // A success always carries the statement kind's tag.
    &&& (r matches Ok(res) ==> result_matches(stmt, res))
    // A statement without a handler fails and touches nothing.
    &&& (stmt matches ParsedStatement::Other { display } ==> (r matches Err(e)
        && e is UnimplementedPlan) && post_session == pre_session && post_catalog == pre_catalog
        && post_storage == pre_storage)
    // Catalog-mutating statements never write table data, and never touch
    // the session's variables.
    &&& (is_ddl_statement(stmt) ==> post_storage == pre_storage && post_session.vars
        == pre_session.vars)
    // A malformed name, or an unresolvable `CREATE TABLE AS` source, is a
    // plan error and nothing is applied.
    &&& (is_ddl_statement(stmt) && !stmt_plannable(pre_catalog.contents(), stmt) ==> (
    r matches Err(e) && e is Plan) && post_session == pre_session && post_catalog == pre_catalog)
    // A stale session version is exactly the conflict error, and nothing
    // is applied.
    &&& (is_ddl_statement(stmt) && stmt_plannable(pre_catalog.contents(), stmt)
        && pre_session.version != pre_catalog.version ==> (r matches Err(e) && e == (ExecError::Conflict {
        expected: pre_session.version,
        current: pre_catalog.version,
    })) && post_catalog.version == pre_catalog.version && post_catalog.contents()
        == pre_catalog.contents() && post_session.version == pre_session.version)
    // A current version whose batch applies commits atomically, advances
    // both versions by one, and succeeds with the statement's tag.
    &&& (is_ddl_statement(stmt) && stmt_plannable(pre_catalog.contents(), stmt)
        && pre_session.version == pre_catalog.version && pre_catalog.version < u64::MAX ==> (
    apply_all(
        pre_catalog.contents(),
        stmt_mutations(pre_catalog.contents(), stmt),
    ) matches Some(c) ==> (r matches Ok(res) && result_matches(stmt, res))
        && post_catalog.contents() == c && post_catalog.version == pre_catalog.version + 1
        && post_session.version == pre_catalog.version + 1))
    // A batch that cannot apply is a backend error and nothing is applied.
    &&& (is_ddl_statement(stmt) && stmt_plannable(pre_catalog.contents(), stmt)
        && pre_session.version == pre_catalog.version && pre_catalog.version < u64::MAX
        && apply_all(
        pre_catalog.contents(),
        stmt_mutations(pre_catalog.contents(), stmt),
    ) is None ==> (r matches Err(e) && e is Backend) && post_catalog.version
        == pre_catalog.version && post_catalog.contents() == pre_catalog.contents()
        && post_session.version == pre_session.version)
    // An exhausted version counter is a backend error.
    &&& (is_ddl_statement(stmt) && stmt_plannable(pre_catalog.contents(), stmt)
        && pre_session.version == pre_catalog.version && pre_catalog.version == u64::MAX ==> (r matches Err(e)
        && e is Backend) && post_catalog.version == pre_catalog.version && post_catalog.contents()
        == pre_catalog.contents() && post_session.version == pre_session.version)
    // A query changes nothing.
    &&& (stmt matches ParsedStatement::Query { source } ==> post_session == pre_session
        && post_catalog == pre_catalog && post_storage == pre_storage)
    // A query the planner does not understand is a plan error.
    &&& (stmt matches ParsedStatement::Query { source } ==> (
    source matches SourceQuery::Unsupported { display } ==> (r matches Err(e) && e is Plan)))
    // A scan of a known table succeeds with its projected schema and
    // exactly the stored rows; a bad or unknown name is a plan error.
    &&& (stmt matches ParsedStatement::Query { source } ==> (source matches SourceQuery::ScanStar {
        table,
    } ==> ((table@.len() == 0 || !has_table_in(
        pre_catalog.contents().tables,
        ref_of(table.deep_view()).schema,
        ref_of(table.deep_view()).name,
    ) ==> (r matches Err(e) && e is Plan)) && (table@.len() >= 1 && has_table_in(
        pre_catalog.contents().tables,
        ref_of(table.deep_view()).schema,
        ref_of(table.deep_view()).name,
    ) ==> (r matches Ok(res) && (res matches ExecutionResult::Query { schema, batches }
        && schema.columns.deep_view() == table_columns_in(
        pre_catalog.contents().tables,
        ref_of(table.deep_view()).schema,
        ref_of(table.deep_view()).name,
    ) && batches@.len() == 1 && batches@[0]@ == stored_rows(
        pre_storage.tables@,
        ref_of(table.deep_view()).schema,
        ref_of(table.deep_view()).name,
    )))))))
    // An insert never touches the catalog or the session, and writes
    // nothing when it fails.
    &&& (stmt matches ParsedStatement::Insert { table, source } ==> post_catalog == pre_catalog
        && post_session == pre_session)
    &&& (stmt matches ParsedStatement::Insert { table, source } ==> (r is Err ==> post_storage
        == pre_storage))
    // An insert from an unsupported query is a plan error.
    &&& (stmt matches ParsedStatement::Insert { table, source } ==> (
    source matches SourceQuery::Unsupported { display } ==> (r matches Err(e) && e is Plan)))
    // An insert whose target is unnamed or unknown is a plan error.
    &&& (stmt matches ParsedStatement::Insert { table, source } ==> (table@.len() == 0 || (
    table@.len() >= 1 && !has_table_in(
        pre_catalog.contents().tables,
        ref_of(table.deep_view()).schema,
        ref_of(table.deep_view()).name,
    )) ==> (r matches Err(e) && e is Plan)))
    // A resolvable insert succeeds: it writes exactly the source's stored
    // rows to the target and reports exactly that count, zero included.
    &&& (stmt matches ParsedStatement::Insert { table, source } ==> (
    source matches SourceQuery::ScanStar { table: st } ==> ((st@.len() == 0 || !has_table_in(
        pre_catalog.contents().tables,
        ref_of(st.deep_view()).schema,
        ref_of(st.deep_view()).name,
    ) ==> (r matches Err(e) && e is Plan)) && (table@.len() >= 1 && has_table_in(
        pre_catalog.contents().tables,
        ref_of(table.deep_view()).schema,
        ref_of(table.deep_view()).name,
    ) && st@.len() >= 1 && has_table_in(
        pre_catalog.contents().tables,
        ref_of(st.deep_view()).schema,
        ref_of(st.deep_view()).name,
    ) ==> (r matches Ok(res) && (res matches ExecutionResult::WriteSuccess { count } && count
        == stored_rows(
        pre_storage.tables@,
        ref_of(st.deep_view()).schema,
        ref_of(st.deep_view()).name,
    ).len()) && stored_rows(
        post_storage.tables@,
        ref_of(table.deep_view()).schema,
        ref_of(table.deep_view()).name,
    ) == stored_rows(
        pre_storage.tables@,
        ref_of(table.deep_view()).schema,
        ref_of(table.deep_view()).name,
    ) + stored_rows(
        pre_storage.tables@,
        ref_of(st.deep_view()).schema,
        ref_of(st.deep_view()).name,
    ))))))
    // Setting a variable touches neither catalog nor storage nor the
    // observed version.
    &&& (stmt matches ParsedStatement::SetVariable { name, value } ==> post_catalog == pre_catalog
        && post_storage == pre_storage && post_session.version == pre_session.version)
    // An unnamed variable is a plan error; otherwise the set succeeds and
    // the value is seen under the name.
    &&& (stmt matches ParsedStatement::SetVariable { name, value } ==> (name@.len() == 0 ==> (
    r matches Err(e) && e is Plan) && post_session == pre_session))
    &&& (stmt matches ParsedStatement::SetVariable { name, value } ==> (name@.len() >= 1 ==> (
    r matches Ok(res) && res is SetLocal) && lookup_var(
        vars_view(post_session.vars@),
        base_of(name.deep_view()),
    ) == Some(value@)))
}

/// Plans one statement and executes it: planning resolves the statement
/// against the catalog; execution dispatches on the plan's variant.  A
/// successful result carries the statement kind's success tag; a
/// statement without a handler fails with an unimplemented-plan error;
/// and a successful catalog-mutating statement advances the session's and
/// the catalog's version by exactly one.
#[verifier::rlimit(100)]
#[verifier::spinoff_prover]
pub fn execute_statement(
    session: &mut Session,
    catalog: &mut CatalogState,
    storage: &mut Storage,
    stmt: &ParsedStatement,
) -> (r: Result<ExecutionResult, ExecError>)
    ensures
        statement_outcome_ok(
            *stmt,
            *old(session),
            *old(catalog),
            *old(storage),
            *final(session),
            *final(catalog),
            *final(storage),
            r,
        ),
{
    let plan = match plan_parsed(catalog, stmt) {
        Ok(p) => p,
        Err(e) => {
            return Err(e);
        },
    };
    dispatch_plan(session, catalog, storage, plan)
}

/// A pull-based executor for one SQL string: the string is parsed eagerly
/// into a queue of statements, and each call to `execute_next` runs the
/// front of the queue.
#[derive(Debug)]
pub struct Executor {
    statements: Vec<ParsedStatement>,
}

impl Executor {
    /// The queued statements, front first.
    pub closed spec fn queue(&self) -> Seq<ParsedStatement> {
        self.statements@
    }

    /// How many statements are still queued.
    pub open spec fn remaining(&self) -> nat {
        self.queue().len()
    }

    /// The statement at the front of the queue.
    pub open spec fn front(&self) -> ParsedStatement {
        self.queue()[0]
    }

    /// Parses the SQL string eagerly into a statement queue.  Malformed
    /// SQL fails immediately with a parse error and no queue is built.
    pub fn new(sql: &str) -> (r: Result<Executor, ExecError>)
        ensures
            r is Ok <==> sql_parses(sql@),
            r matches Ok(ex) ==> ex.remaining() == sql_statement_count(sql@),
            r matches Err(e) ==> e is Parse,
    {
        match parse_sql_statements(sql) {
            Err(message) => Err(ExecError::Parse { message }),
            Ok(raw) => {
                let mut statements: Vec<ParsedStatement> = Vec::new();
                let mut i: usize = 0;
                while i < raw.len()
                    invariant
                        i <= raw.len(),
                        statements@.len() == i,
                    decreases raw.len() - i,
                {
                    statements.push(classify_statement(&raw[i]));
                    i = i + 1;
                }
                Ok(Executor { statements })
            },
        }
    }

    /// How many statements have not been executed yet.
    pub fn statements_remaining(&self) -> (r: usize)
        ensures
            r == self.remaining(),
    {
        self.statements.len()
    }

    /// Executes the next statement, or returns nothing when the queue is
    /// empty.  Exactly the front statement leaves the queue, whether it
    /// succeeds or fails, and the rest keep their order; its outcome is
    /// returned unmodified, and the caller decides whether to keep
    /// pulling.
    pub fn execute_next(
        &mut self,
        session: &mut Session,
        catalog: &mut CatalogState,
        storage: &mut Storage,
    ) -> (r: Option<Result<ExecutionResult, ExecError>>)
        ensures
            old(self).remaining() == 0 ==> r is None && *final(self) == *old(self) && *final(session) == *old(session) && *final(catalog) == *old(catalog) && *final(storage) == *old(storage),
            old(self).remaining() > 0 ==> r is Some && final(self).queue() == old(self).queue().drop_first(),
            old(self).remaining() > 0 ==> (r matches Some(out) && statement_outcome_ok(
                old(self).front(),
                *old(session),
                *old(catalog),
                *old(storage),
                *final(session),
                *final(catalog),
                *final(storage),
                out,
            )),
    {
        if self.statements.len() == 0 {
            return None;
        }
        let ghost pre = self.statements@;
        let stmt = self.statements.remove(0);
        proof {
            assert(self.statements@ =~= pre.drop_first());
        }
        Some(execute_statement(session, catalog, storage, &stmt))
    }
}

} // verus!
