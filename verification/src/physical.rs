//! Physical mutation operators: single-partition streaming operators that
//! perform one side effect and emit one status or count row.

use vstd::prelude::*;
use vstd::string::StringExecFns;

use crate::catalog::CatalogMutator;
use crate::catalog::CatalogState;
use crate::catalog::Mutation;
use crate::catalog::MutationV;
use crate::catalog::apply_mutation;
use crate::catalog::muts_view;
use crate::data::Batch;
use crate::data::RelationSchema;
use crate::data::Row;
use crate::data::TableRef;
use crate::data::ValueV;
use crate::data::clone_rows;
use crate::data::total_rows;
use crate::error::ExecError;
use crate::logical::AlterTableOperation;
use crate::storage::Storage;
use crate::storage::stored_rows;

verus! {

/// One sort key of an operator's output ordering.
#[derive(Debug, Clone)]
pub struct SortExpr {
    pub column: String,
    pub descending: bool,
}

/// A requirement on how an operator's input is distributed.
#[derive(Debug)]
pub enum Distribution {
    Unspecified,
}

/// What an operator knows about its output size.
#[derive(Debug)]
pub struct Statistics {
    pub num_rows: Option<u64>,
}

/// A one-row status batch carrying the finished operation's name.
pub fn new_operation_batch(operation: &str) -> (r: Batch)
    ensures
        r@ == seq![seq![ValueV::Text(operation@)]],
{
    let mut values: Vec<crate::data::Value> = Vec::new();
    values.push(crate::data::Value::Text(String::from_str(operation)));
    let mut rows: Vec<Row> = Vec::new();
    rows.push(Row { values });
    let r = Batch { rows };
    proof {
        assert(r@ =~~= seq![seq![ValueV::Text(operation@)]]);
    }
    r
}

/// A one-row batch carrying a row count.
pub fn new_count_batch(count: u64) -> (r: Batch)
    ensures
        r@ == seq![seq![ValueV::Unsigned(count)]],
{
    let mut values: Vec<crate::data::Value> = Vec::new();
    values.push(crate::data::Value::Unsigned(count));
    let mut rows: Vec<Row> = Vec::new();
    rows.push(Row { values });
    let r = Batch { rows };
    proof {
        assert(r@ =~~= seq![seq![ValueV::Unsigned(count)]]);
    }
    r
}

/// The already-planned data-flow input of a write operator: the batches it
/// yields when driven to completion.
#[derive(Debug)]
pub struct InputExec {
    pub batches: Vec<Batch>,
}

/// All rows yielded by a sequence of batches, in order.
pub open spec fn rows_of(batches: Seq<Batch>) -> Seq<Seq<ValueV>>
    decreases batches.len(),
{
    if batches.len() == 0 {
        Seq::empty()
    } else {
        batches[0]@ + rows_of(batches.drop_first())
    }
}

/// The flat row list is exactly as long as the batches' row count.
pub proof fn lemma_rows_of_len(batches: Seq<Batch>)
    ensures
        rows_of(batches).len() == total_rows(batches),
    decreases batches.len(),
{
    if batches.len() > 0 {
        lemma_rows_of_len(batches.drop_first());
    }
}

/// Materializes every row of the batches from index `i` on.
fn flatten_batches(batches: &Vec<Batch>, i: usize) -> (r: Vec<Row>)
    requires
        i <= batches.len(),
    ensures
        r.deep_view() == rows_of(batches@.skip(i as int)),
    decreases batches.len() - i,
{
    if i < batches.len() {
        proof {
            assert(batches@.skip(i as int)[0] == batches@[i as int]);
            assert(batches@.skip(i as int).drop_first() =~= batches@.skip(i as int + 1));
        }
        let mut head = clone_rows(&batches[i].rows);
        let mut rest = flatten_batches(batches, i + 1);
        let ghost hv = head.deep_view();
        let ghost rv = rest.deep_view();
        head.append(&mut rest);
        proof {
            assert(head.deep_view() =~= hv + rv);
        }
        head
    } else {
        let r: Vec<Row> = Vec::new();
        proof {
            assert(batches@.skip(i as int) =~= Seq::<Batch>::empty());
            assert(r.deep_view() =~= Seq::<Seq<ValueV>>::empty());
        }
        r
    }
}

/// The physical operator behind `ALTER TABLE`.
#[derive(Debug)]
pub struct AlterTableExec {
    pub catalog_version: u64,
    pub schema: String,
    pub name: String,
    pub operation: AlterTableOperation,
}

/// Copies an alter-table operation.
pub fn clone_op(op: &AlterTableOperation) -> (r: AlterTableOperation)
    ensures
        r@ == op@,
{
    match op {
        AlterTableOperation::RenameTable { new_name } => AlterTableOperation::RenameTable {
            new_name: new_name.clone(),
        },
    }
}

impl AlterTableExec {
    /// The single catalog mutation this operator submits.
    pub open spec fn mutation_view(&self) -> MutationV {
        MutationV::AlterTable {
            schema: self.schema@,
            name: self.name@,
            operation: self.operation@,
        }
    }

    /// The fixed, shared status schema of catalog-mutating operators.
    pub fn output_schema(&self) -> (r: RelationSchema)
        ensures
            r.columns.deep_view() == crate::logical::generic_operation_schema(),
    {
        let mut columns: Vec<String> = Vec::new();
        columns.push(String::from_str("operation"));
        proof {
            assert(columns.deep_view() =~= crate::logical::generic_operation_schema());
        }
        RelationSchema { columns }
    }

    /// The operator always produces exactly one output partition.
    pub fn output_partitioning(&self) -> (r: usize)
        ensures
            r == 1,
    {
        1
    }

    /// The operator promises no output ordering.
    pub fn output_ordering(&self) -> (r: Option<SortExpr>)
        ensures
            r is None,
    {
        None
    }

    /// Pure DDL operators have no children.
    pub fn children(&self) -> (r: Vec<&InputExec>)
        ensures
            r@.len() == 0,
    {
        Vec::new()
    }

    /// The operator accepts no children; handing it any is a plan error.
    pub fn with_new_children(self, children: Vec<InputExec>) -> (r: Result<
        AlterTableExec,
        ExecError,
    >)
        ensures
            children@.len() == 0 ==> (r matches Ok(x) && x == self),
            children@.len() != 0 ==> (r matches Err(e) && e is Plan),
    {
        if children.len() == 0 {
            Ok(self)
        } else {
            Err(
                ExecError::Plan {
                    message: String::from_str("cannot change children of an alter-table operator"),
                },
            )
        }
    }

    /// Output size is unknown ahead of execution.
    pub fn statistics(&self) -> (r: Statistics)
        ensures
            r.num_rows is None,
    {
        Statistics { num_rows: None }
    }

    /// One-line description for explain output.
    pub fn fmt_as(&self) -> (r: &'static str)
        ensures
            r@ == "AlterTableExec"@,
    {
        "AlterTableExec"
    }

    /// Performs the rename exactly once and emits one status row.
    ///
    /// Any partition other than 0 fails with a partition error and leaves
    /// the catalog untouched.  On partition 0 the operator submits its one
    /// mutation to the catalog mutator under the operator's recorded
    /// catalog version, and the commit's outcome is passed through
    /// unchanged: a conflict on a stale version, the new contents on
    /// success.
    pub fn execute(&self, partition: usize, state: &mut CatalogState) -> (r: Result<
        Batch,
        ExecError,
    >)
        ensures
            partition != 0 ==> (r matches Err(e) && e == (ExecError::Partition { partition }))
                && *final(state) == *old(state),
            partition == 0 && old(state).version != self.catalog_version ==> (r matches Err(e)
                && e == (ExecError::Conflict {
                expected: self.catalog_version,
                current: old(state).version,
            })) && final(state).version == old(state).version && final(state).contents() == old(
                state,
            ).contents(),
            partition == 0 && old(state).version == self.catalog_version && self.catalog_version
                < u64::MAX ==> (apply_mutation(old(state).contents(), self.mutation_view())
                matches Some(c) ==> (r matches Ok(b) && b@ == seq![seq![ValueV::Text("alter_table"@)]])
                && final(state).version == self.catalog_version + 1 && final(state).contents()
                == c),
            partition == 0 && old(state).version == self.catalog_version && self.catalog_version
                < u64::MAX && apply_mutation(old(state).contents(), self.mutation_view()) is None
                ==> (r matches Err(e) && e is Backend) && final(state).version == old(
                state,
            ).version && final(state).contents() == old(state).contents(),
            partition == 0 && old(state).version == self.catalog_version && self.catalog_version
                == u64::MAX ==> (r matches Err(e) && e is Backend) && final(state).version == old(
                state,
            ).version && final(state).contents() == old(state).contents(),
    {
        if partition != 0 {
            return Err(ExecError::Partition { partition });
        }
        let mut mutations: Vec<Mutation> = Vec::new();
        mutations.push(
            Mutation::AlterTable {
                schema: self.schema.clone(),
                name: self.name.clone(),
                operation: clone_op(&self.operation),
            },
        );
        let ghost c0 = state.contents();
        let ghost mv = self.mutation_view();
        proof {
            assert(muts_view(mutations) =~= seq![mv]);
            assert(seq![mv].drop_first() =~= Seq::<MutationV>::empty());
            assert(seq![mv][0] == mv);
            reveal_with_fuel(crate::catalog::apply_all, 2);
            assert(apply_mutation(c0, mv) matches Some(c2) ==> crate::catalog::apply_all(
                c0,
                seq![mv],
            ) == Some(c2));
            assert(apply_mutation(c0, mv) is None ==> crate::catalog::apply_all(
                c0,
                seq![mv],
            ) is None);
        }
        match CatalogMutator::mutate_and_commit(state, self.catalog_version, &mutations) {
            Ok(_) => Ok(new_operation_batch("alter_table")),
            Err(e) => Err(e),
        }
    }
}

/// The physical operator behind a table insert: it drives its input plan
/// to completion, writes the rows, and emits one count row.
#[derive(Debug)]
pub struct InsertExec {
    pub input: InputExec,
    pub table: TableRef,
}

impl InsertExec {
    /// The fixed count schema of write operators.
    pub fn output_schema(&self) -> (r: RelationSchema)
        ensures
            r.columns.deep_view() == seq!["count"@],
    {
        let mut columns: Vec<String> = Vec::new();
        columns.push(String::from_str("count"));
        proof {
            assert(columns.deep_view() =~= seq!["count"@]);
        }
        RelationSchema { columns }
    }

    /// The operator always produces exactly one output partition.
    pub fn output_partitioning(&self) -> (r: usize)
        ensures
            r == 1,
    {
        1
    }

    /// The operator promises no output ordering.
    pub fn output_ordering(&self) -> (r: Option<SortExpr>)
        ensures
            r is None,
    {
        None
    }

    /// The input may arrive in any distribution.
    pub fn required_input_distribution(&self) -> (r: Vec<Distribution>)
        ensures
            r@.len() == 1,
            r@[0] is Unspecified,
    {
        let mut v: Vec<Distribution> = Vec::new();
        v.push(Distribution::Unspecified);
        v
    }

    /// Writing does not keep the input's order observable.
    pub fn maintains_input_order(&self) -> (r: Vec<bool>)
        ensures
            r@ == seq![false],
    {
        let mut v: Vec<bool> = Vec::new();
        v.push(false);
        proof {
            assert(v@ =~= seq![false]);
        }
        v
    }

    /// The one child: the input plan whose rows are written.
    pub fn children(&self) -> (r: Vec<&InputExec>)
        ensures
            r@.len() == 1,
            r@[0] == &self.input,
    {
        let mut v: Vec<&InputExec> = Vec::new();
        v.push(&self.input);
        v
    }

    /// Rebuilds the operator around a replacement input.
    pub fn with_new_children(self, children: Vec<InputExec>) -> (r: Result<InsertExec, ExecError>)
        ensures
            children@.len() == 1 ==> (r matches Ok(x) && x.input == children@[0] && x.table
                == self.table),
            children@.len() != 1 ==> (r matches Err(e) && e is Plan),
    {
        let mut children = children;
        if children.len() == 1 {
            let input = children.remove(0);
            Ok(InsertExec { input, table: self.table })
        } else {
            Err(
                ExecError::Plan {
                    message: String::from_str("an insert operator takes exactly one child"),
                },
            )
        }
    }

    /// Output size is unknown ahead of execution.
    pub fn statistics(&self) -> (r: Statistics)
        ensures
            r.num_rows is None,
    {
        Statistics { num_rows: None }
    }

    /// One-line description for explain output.
    pub fn fmt_as(&self) -> (r: &'static str)
        ensures
            r@ == "InsertExec"@,
    {
        "InsertExec"
    }

    /// Drives the input plan to completion, writes every row it yields,
    /// and emits one row carrying the count of rows written.
    ///
    /// Any partition other than 0 fails with a partition error and writes
    /// nothing.  The reported count equals the number of rows the input
    /// actually materialized, zero included.
    pub fn execute(&self, partition: usize, storage: &mut Storage) -> (r: Result<Batch, ExecError>)
        ensures
            partition != 0 ==> (r matches Err(e) && e == (ExecError::Partition { partition }))
                && *final(storage) == *old(storage),
            partition == 0 ==> (r matches Ok(b) && b@.len() == 1 && b@[0].len() == 1 && (b@[0][0]
                matches ValueV::Unsigned(c) && c == total_rows(self.input.batches@))),
            partition == 0 ==> stored_rows(
                final(storage).tables@,
                self.table.schema@,
                self.table.name@,
            ) == stored_rows(old(storage).tables@, self.table.schema@, self.table.name@) + rows_of(
                self.input.batches@,
            ),
            partition == 0 ==> forall|s: Seq<char>, n: Seq<char>|
                !(s == self.table.schema@ && n == self.table.name@) ==> #[trigger] stored_rows(
                    final(storage).tables@,
                    s,
                    n,
                ) == stored_rows(old(storage).tables@, s, n),
    {
        if partition != 0 {
            return Err(ExecError::Partition { partition });
        }
        proof {
            assert(self.input.batches@.skip(0) =~= self.input.batches@);
        }
        let rows = flatten_batches(&self.input.batches, 0);
        let count = rows.len();
        proof {
            lemma_rows_of_len(self.input.batches@);
        }
        storage.append(&self.table, rows);
        Ok(new_count_batch(count as u64))
    }
}

} // verus!
