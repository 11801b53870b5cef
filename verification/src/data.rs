//! Plain data values, rows and column batches flowing between operators.

use vstd::prelude::*;
use vstd::pervasive::cloned;
use vstd::std_specs::vec::vec_clone_deep_view_proof;

verus! {

/// One scalar value inside a row.
#[derive(Debug, Clone)]
pub enum Value {
    Null,
    Boolean(bool),
    Integer(i64),
    Unsigned(u64),
    Text(String),
}

/// Mathematical value of a scalar.
pub enum ValueV {
    Null,
    Boolean(bool),
    Integer(i64),
    Unsigned(u64),
    Text(Seq<char>),
}

impl View for Value {
    type V = ValueV;

    open spec fn view(&self) -> ValueV {
        match self {
            Value::Null => ValueV::Null,
            Value::Boolean(b) => ValueV::Boolean(*b),
            Value::Integer(i) => ValueV::Integer(*i),
            Value::Unsigned(u) => ValueV::Unsigned(*u),
            Value::Text(s) => ValueV::Text(s@),
        }
    }
}

impl DeepView for Value {
    type V = ValueV;

    open spec fn deep_view(&self) -> ValueV {
        self@
    }
}

/// One row of values.
#[derive(Debug, Clone)]
pub struct Row {
    pub values: Vec<Value>,
}

impl View for Row {
    type V = Seq<ValueV>;

    open spec fn view(&self) -> Seq<ValueV> {
        self.values.deep_view()
    }
}

impl DeepView for Row {
    type V = Seq<ValueV>;

    open spec fn deep_view(&self) -> Seq<ValueV> {
        self@
    }
}

/// A batch of rows, the unit streamed between operators.
#[derive(Debug, Clone)]
pub struct Batch {
    pub rows: Vec<Row>,
}

impl View for Batch {
    type V = Seq<Seq<ValueV>>;

    open spec fn view(&self) -> Seq<Seq<ValueV>> {
        self.rows.deep_view()
    }
}

/// Copies one scalar value.
pub fn clone_value(v: &Value) -> (r: Value)
    ensures
        r@ == v@,
{
    match v {
        Value::Null => Value::Null,
        Value::Boolean(b) => Value::Boolean(*b),
        Value::Integer(i) => Value::Integer(*i),
        Value::Unsigned(u) => Value::Unsigned(*u),
        Value::Text(s) => Value::Text(s.clone()),
    }
}

/// Copies one row, keeping every value.
pub fn clone_row(row: &Row) -> (r: Row)
    ensures
        r@ == row@,
{
    let mut values: Vec<Value> = Vec::new();
    let mut i: usize = 0;
    while i < row.values.len()
        invariant
            i <= row.values.len(),
            values.deep_view() =~= row.values.deep_view().take(i as int),
        decreases row.values.len() - i,
    {
        let ghost pre = values.deep_view();
        values.push(clone_value(&row.values[i]));
        proof {
            assert(values.deep_view() =~= pre.push(row.values.deep_view()[i as int]));
        }
        i = i + 1;
        proof {
            assert(values.deep_view() =~= row.values.deep_view().take(i as int));
        }
    }
    proof {
        assert(row.values.deep_view().take(row.values.len() as int) =~= row.values.deep_view());
    }
    Row { values }
}

/// Copies a list of rows, keeping every value.
pub fn clone_rows(rows: &Vec<Row>) -> (r: Vec<Row>)
    ensures
        r.deep_view() == rows.deep_view(),
{
    let mut out: Vec<Row> = Vec::new();
    let mut i: usize = 0;
    while i < rows.len()
        invariant
            i <= rows.len(),
            out.deep_view() =~= rows.deep_view().take(i as int),
        decreases rows.len() - i,
    {
        let ghost pre = out.deep_view();
        out.push(clone_row(&rows[i]));
        proof {
            assert(out.deep_view() =~= pre.push(rows.deep_view()[i as int]));
        }
        i = i + 1;
        proof {
            assert(out.deep_view() =~= rows.deep_view().take(i as int));
        }
    }
    proof {
        assert(rows.deep_view().take(rows.len() as int) =~= rows.deep_view());
    }
    out
}

/// Number of rows held by a sequence of batches.
pub open spec fn total_rows(batches: Seq<Batch>) -> nat
    decreases batches.len(),
{
    if batches.len() == 0 {
        0
    } else {
        (batches[0].rows.len() + total_rows(batches.drop_first())) as nat
    }
}

/// A table reference resolved against the catalog: schema plus table name.
#[derive(Debug, Clone)]
pub struct TableRef {
    pub schema: String,
    pub name: String,
}

/// Mathematical value of a table reference.
#[verifier::ext_equal]
pub struct TableRefV {
    pub schema: Seq<char>,
    pub name: Seq<char>,
}

impl View for TableRef {
    type V = TableRefV;

    open spec fn view(&self) -> TableRefV {
        TableRefV { schema: self.schema@, name: self.name@ }
    }
}

impl TableRef {
    /// Two references name the same table when both parts agree.
    pub open spec fn same_table(&self, other: &TableRef) -> bool {
        self.schema@ == other.schema@ && self.name@ == other.name@
    }
}

/// Character-for-character comparison of two table references.
pub fn table_ref_eq(a: &TableRef, b: &TableRef) -> (r: bool)
    ensures
        r == a.same_table(b),
{
    a.schema == b.schema && a.name == b.name
}

/// Copies a table reference.
pub fn clone_ref(r: &TableRef) -> (out: TableRef)
    ensures
        out@ == r@,
{
    let out = TableRef { schema: r.schema.clone(), name: r.name.clone() };
    proof {
        assert(out@ =~= r@);
    }
    out
}

/// The output shape of a relational operator: ordered column names.
#[derive(Debug, Clone)]
pub struct RelationSchema {
    pub columns: Vec<String>,
}

/// Copies a list of strings, keeping every character.
pub fn clone_strings(v: &Vec<String>) -> (r: Vec<String>)
    ensures
        r.deep_view() == v.deep_view(),
{
    let r = v.clone();
    proof {
        assert forall|i: int| 0 <= i < v@.len() implies #[trigger] r.deep_view()[i]
            == v.deep_view()[i] by {
            assert(cloned::<String>(v[i], r[i]));
        }
        assert(r.deep_view() =~= v.deep_view());
        vec_clone_deep_view_proof(*v, r);
    }
    r
}

} // verus!
