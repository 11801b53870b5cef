//! Logical plans: one tagged tree per parsed statement.
//!
//! DDL variants are extension nodes: self-describing leaves with no plan
//! children that round-trip through the byte encoding in `codec`.

use vstd::prelude::*;
use vstd::string::StringExecFns;

use crate::data::RelationSchema;
use crate::data::TableRef;
use crate::data::TableRefV;
use crate::data::clone_strings;
use crate::error::ExecError;
use crate::expr::ScalarExpr;
use crate::relational::RelationalPlan;

verus! {

/// A plain description of the source query feeding a `CREATE TABLE AS`.
#[derive(Debug, Clone)]
pub enum SourceQuery {
    /// `SELECT * FROM <table>`, table named by its dotted parts.
    ScanStar { table: Vec<String> },
    /// Any other query shape, kept as its printed form.
    Unsupported { display: String },
}

/// One supported `ALTER TABLE` operation.
#[derive(Debug, Clone)]
pub enum AlterTableOperation {
    RenameTable { new_name: String },
}

/// Extension node for `DROP CREDENTIALS`.
#[derive(Debug, Clone)]
pub struct DropCredentials {
    pub names: Vec<String>,
    pub if_exists: bool,
}

/// A catalog-mutating statement plan.
#[derive(Debug, Clone)]
pub enum DdlPlan {
    CreateTable { reference: TableRef, columns: Vec<String> },
    CreateExternalTable { reference: TableRef },
    CreateTableAs { reference: TableRef, source: SourceQuery, columns: Vec<String> },
    CreateSchema { name: String },
    DropTables { references: Vec<TableRef>, if_exists: bool },
    DropSchemas { names: Vec<String>, if_exists: bool },
    AlterTable { schema: String, name: String, operation: AlterTableOperation },
    DropCredentials(DropCredentials),
}

/// A data-writing statement plan.
#[derive(Debug)]
pub enum WritePlan {
    Insert(InsertPlan),
}

/// An insert: a resolved target table and the plan producing the rows.
#[derive(Debug)]
pub struct InsertPlan {
    pub table: TableRef,
    pub source: RelationalPlan,
}

/// A session-configuration statement plan.
#[derive(Debug, Clone)]
pub enum ConfigurationPlan {
    SetConfiguration(SetConfigurationPlan),
}

#[derive(Debug, Clone)]
pub struct SetConfigurationPlan {
    pub name: String,
    pub value: String,
}

/// The top-level plan: exactly one variant per parsed statement.
#[derive(Debug)]
pub enum LogicalPlan {
    /// A pure data-flow query.
    Query(RelationalPlan),
    /// A catalog-mutating operation.
    Ddl(DdlPlan),
    /// A data write.
    Write(WritePlan),
    /// A client-local configuration change.
    Configuration(ConfigurationPlan),
}

/// The generic wrapper around an extension node, as it travels inside a
/// plan tree or across a process boundary.
#[derive(Debug, Clone)]
pub struct LogicalPlanExtension {
    pub node: DdlPlan,
}

/// Mathematical value of a `DropCredentials` node.
pub struct DropCredentialsV {
    pub names: Seq<Seq<char>>,
    pub if_exists: bool,
}

impl View for DropCredentials {
    type V = DropCredentialsV;

    open spec fn view(&self) -> DropCredentialsV {
        DropCredentialsV { names: self.names.deep_view(), if_exists: self.if_exists }
    }
}

/// Mathematical value of a `SourceQuery`.
pub enum SourceQueryV {
    ScanStar { table: Seq<Seq<char>> },
    Unsupported { display: Seq<char> },
}

/// Mathematical value of an `AlterTableOperation`.
pub enum AlterTableOperationV {
    RenameTable { new_name: Seq<char> },
}

/// Mathematical value of a `DdlPlan`.
pub enum DdlView {
    CreateTable { schema: Seq<char>, name: Seq<char>, columns: Seq<Seq<char>> },
    CreateExternalTable { schema: Seq<char>, name: Seq<char> },
    CreateTableAs { schema: Seq<char>, name: Seq<char>, source: SourceQueryV, columns: Seq<Seq<char>> },
    CreateSchema { name: Seq<char> },
    DropTables { references: Seq<TableRefV>, if_exists: bool },
    DropSchemas { names: Seq<Seq<char>>, if_exists: bool },
    AlterTable { schema: Seq<char>, name: Seq<char>, operation: AlterTableOperationV },
    DropCredentials { names: Seq<Seq<char>>, if_exists: bool },
}

impl View for SourceQuery {
    type V = SourceQueryV;

    open spec fn view(&self) -> SourceQueryV {
        match self {
            SourceQuery::ScanStar { table } => SourceQueryV::ScanStar {
                table: table.deep_view(),
            },
            SourceQuery::Unsupported { display } => SourceQueryV::Unsupported {
                display: display@,
            },
        }
    }
}

impl View for AlterTableOperation {
    type V = AlterTableOperationV;

    open spec fn view(&self) -> AlterTableOperationV {
        match self {
            AlterTableOperation::RenameTable { new_name } => AlterTableOperationV::RenameTable {
                new_name: new_name@,
            },
        }
    }
}

impl View for DdlPlan {
    type V = DdlView;

    open spec fn view(&self) -> DdlView {
        match self {
            DdlPlan::CreateTable { reference, columns } => DdlView::CreateTable {
                schema: reference.schema@,
                name: reference.name@,
                columns: columns.deep_view(),
            },
            DdlPlan::CreateExternalTable { reference } => DdlView::CreateExternalTable {
                schema: reference.schema@,
                name: reference.name@,
            },
            DdlPlan::CreateTableAs { reference, source, columns } => DdlView::CreateTableAs {
                schema: reference.schema@,
                name: reference.name@,
                source: source@,
                columns: columns.deep_view(),
            },
            DdlPlan::CreateSchema { name } => DdlView::CreateSchema { name: name@ },
            DdlPlan::DropTables { references, if_exists } => DdlView::DropTables {
                references: references@.map_values(|r: TableRef| r@),
                if_exists: *if_exists,
            },
            DdlPlan::DropSchemas { names, if_exists } => DdlView::DropSchemas {
                names: names.deep_view(),
                if_exists: *if_exists,
            },
            DdlPlan::AlterTable { schema, name, operation } => DdlView::AlterTable {
                schema: schema@,
                name: name@,
                operation: operation@,
            },
            DdlPlan::DropCredentials(dc) => DdlView::DropCredentials {
                names: dc.names.deep_view(),
                if_exists: dc.if_exists,
            },
        }
    }
}

/// The fixed, shared schema of a status-only operation result.
pub open spec fn generic_operation_schema() -> Seq<Seq<char>> {
    seq!["operation"@]
}

impl DdlPlan {
    /// The stable identifier used for serialization dispatch.
    pub fn name(&self) -> (r: &'static str)
        ensures
            r@ == self.name_spec(),
    {
        match self {
            DdlPlan::CreateTable { .. } => "CreateTable",
            DdlPlan::CreateExternalTable { .. } => "CreateExternalTable",
            DdlPlan::CreateTableAs { .. } => "CreateTableAs",
            DdlPlan::CreateSchema { .. } => "CreateSchema",
            DdlPlan::DropTables { .. } => "DropTables",
            DdlPlan::DropSchemas { .. } => "DropSchemas",
            DdlPlan::AlterTable { .. } => "AlterTable",
            DdlPlan::DropCredentials(_) => "DropCredentials",
        }
    }

    pub open spec fn name_spec(&self) -> Seq<char> {
        match self {
            DdlPlan::CreateTable { .. } => "CreateTable"@,
            DdlPlan::CreateExternalTable { .. } => "CreateExternalTable"@,
            DdlPlan::CreateTableAs { .. } => "CreateTableAs"@,
            DdlPlan::CreateSchema { .. } => "CreateSchema"@,
            DdlPlan::DropTables { .. } => "DropTables"@,
            DdlPlan::DropSchemas { .. } => "DropSchemas"@,
            DdlPlan::AlterTable { .. } => "AlterTable"@,
            DdlPlan::DropCredentials(_) => "DropCredentials"@,
        }
    }

    /// Extension nodes are leaves: they have no plan children.
    pub fn inputs(&self) -> (r: Vec<LogicalPlan>)
        ensures
            r@.len() == 0,
    {
        Vec::new()
    }

    /// Extension nodes carry no scalar expressions.
    pub fn expressions(&self) -> (r: Vec<ScalarExpr>)
        ensures
            r@.len() == 0,
    {
        Vec::new()
    }

    /// The fixed, shared operation schema; it is not node-specific.
    pub fn schema(&self) -> (r: RelationSchema)
        ensures
            r.columns.deep_view() == generic_operation_schema(),
    {
        let mut columns: Vec<String> = Vec::new();
        columns.push(String::from_str("operation"));
        proof {
            assert(columns.deep_view() =~= generic_operation_schema());
        }
        RelationSchema { columns }
    }

    /// One-line human description for explain output.
    pub fn fmt_for_explain(&self) -> (r: String)
        ensures
            r@ == self.name_spec(),
    {
        String::from_str(self.name())
    }
}

impl DropCredentials {
    /// The stable string identifier used for serialization dispatch.
    pub fn name(&self) -> (r: &'static str)
        ensures
            r@ == "DropCredentials"@,
    {
        "DropCredentials"
    }

    /// Extension nodes are leaves: no plan children.
    pub fn inputs(&self) -> (r: Vec<LogicalPlan>)
        ensures
            r@.len() == 0,
    {
        Vec::new()
    }

    /// Extension nodes carry no scalar expressions.
    pub fn expressions(&self) -> (r: Vec<ScalarExpr>)
        ensures
            r@.len() == 0,
    {
        Vec::new()
    }

    /// The fixed, shared operation schema; it is not node-specific.
    pub fn schema(&self) -> (r: RelationSchema)
        ensures
            r.columns.deep_view() == generic_operation_schema(),
    {
        let mut columns: Vec<String> = Vec::new();
        columns.push(String::from_str("operation"));
        proof {
            assert(columns.deep_view() =~= generic_operation_schema());
        }
        RelationSchema { columns }
    }

    /// One-line human description for explain output.
    pub fn fmt_for_explain(&self) -> (r: String)
        ensures
            r@ == "DropCredentials"@,
    {
        String::from_str("DropCredentials")
    }

    /// Rebuilds an equivalent node.  The node takes no inputs and no
    /// expressions, so this is always a copy.
    pub fn from_template(&self) -> (r: DropCredentials)
        ensures
            r@ == self@,
    {
        DropCredentials { names: clone_strings(&self.names), if_exists: self.if_exists }
    }

    /// Recovers a concretely-typed node from the generic extension wrapper,
    /// failing with a decode error when the wrapped kind does not match.
    pub fn try_decode_extension(extension: &LogicalPlanExtension) -> (r: Result<
        DropCredentials,
        ExecError,
    >)
        ensures
            extension.node matches DdlPlan::DropCredentials(dc) ==> r matches Ok(d) && d@ == dc@,
            !(extension.node is DropCredentials) ==> (r matches Err(e) && e is Decode),
    {
        match &extension.node {
            DdlPlan::DropCredentials(dc) => Ok(dc.from_template()),
            _ => Err(
                ExecError::Decode { message: String::from_str("extension node kind mismatch") },
            ),
        }
    }
}

} // verus!
