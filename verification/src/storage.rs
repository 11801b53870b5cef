//! The table-data backend: rows stored per resolved table reference.
//!
//! The catalog gates access to a table; this store only holds and hands
//! back rows.  Appends add a fresh run of rows for the written table and
//! leave every other table untouched.

use vstd::prelude::*;

use crate::data::Batch;
use crate::data::Row;
use crate::data::TableRef;
use crate::data::ValueV;
use crate::data::clone_rows;
use crate::data::table_ref_eq;

verus! {

/// The stored rows of one write to one table.
#[derive(Debug)]
pub struct StoredTable {
    pub reference: TableRef,
    pub rows: Vec<Row>,
}

/// The whole data store.
#[derive(Debug)]
pub struct Storage {
    pub tables: Vec<StoredTable>,
}

/// All rows stored for `schema`.`name`, in write order.
pub open spec fn stored_rows(tables: Seq<StoredTable>, schema: Seq<char>, name: Seq<char>) -> Seq<
    Seq<ValueV>,
>
    decreases tables.len(),
{
    if tables.len() == 0 {
        Seq::empty()
    } else {
        (if tables[0].reference.schema@ == schema && tables[0].reference.name@ == name {
            tables[0].rows.deep_view()
        } else {
            Seq::empty()
        }) + stored_rows(tables.drop_first(), schema, name)
    }
}

/// Appending an entry at the end extends the stored rows of its own table
/// and leaves every other table's rows unchanged.
proof fn lemma_stored_rows_push(
    tables: Seq<StoredTable>,
    e: StoredTable,
    schema: Seq<char>,
    name: Seq<char>,
)
    ensures
        stored_rows(tables.push(e), schema, name) == stored_rows(tables, schema, name) + (
        if e.reference.schema@ == schema && e.reference.name@ == name {
            e.rows.deep_view()
        } else {
            Seq::<Seq<ValueV>>::empty()
        }),
    decreases tables.len(),
{
    let tail = (if e.reference.schema@ == schema && e.reference.name@ == name {
        e.rows.deep_view()
    } else {
        Seq::<Seq<ValueV>>::empty()
    });
    if tables.len() == 0 {
        assert(tables.push(e)[0] == e);
        assert(tables.push(e).drop_first() =~= Seq::<StoredTable>::empty());
        assert(stored_rows(tables, schema, name) =~= Seq::<Seq<ValueV>>::empty());
        assert(stored_rows(tables.push(e).drop_first(), schema, name)
            =~= Seq::<Seq<ValueV>>::empty());
        assert(stored_rows(tables.push(e), schema, name) =~= stored_rows(tables, schema, name)
            + tail);
    } else {
        assert(tables.push(e).drop_first() =~= tables.drop_first().push(e));
        lemma_stored_rows_push(tables.drop_first(), e, schema, name);
        assert(stored_rows(tables.push(e), schema, name) =~= stored_rows(tables, schema, name)
            + tail);
    }
}

/// The stored rows for `table` from entry `i` on, as one flat list.
fn collect_rows(tables: &Vec<StoredTable>, i: usize, table: &TableRef) -> (r: Vec<Row>)
    requires
        i <= tables.len(),
    ensures
        r.deep_view() == stored_rows(tables@.skip(i as int), table.schema@, table.name@),
    decreases tables.len() - i,
{
    if i < tables.len() {
        proof {
            assert(tables@.skip(i as int)[0] == tables@[i as int]);
            assert(tables@.skip(i as int).drop_first() =~= tables@.skip(i as int + 1));
        }
        let mut rest = collect_rows(tables, i + 1, table);
        if table_ref_eq(&tables[i].reference, table) {
            let mut head = clone_rows(&tables[i].rows);
            let ghost hv = head.deep_view();
            let ghost rv = rest.deep_view();
            head.append(&mut rest);
            proof {
                assert(head.deep_view() =~= hv + rv);
            }
            head
        } else {
            rest
        }
    } else {
        let r: Vec<Row> = Vec::new();
        proof {
            assert(tables@.skip(i as int) =~= Seq::<StoredTable>::empty());
            assert(r.deep_view() =~= Seq::<Seq<ValueV>>::empty());
        }
        r
    }
}

impl Storage {
    /// An empty store.
    pub fn new() -> (r: Storage)
        ensures
            r.tables@.len() == 0,
    {
        Storage { tables: Vec::new() }
    }

    /// All rows stored for `table`, in write order, as one batch.
    pub fn scan(&self, table: &TableRef) -> (r: Batch)
        ensures
            r@ == stored_rows(self.tables@, table.schema@, table.name@),
    {
        proof {
            assert(self.tables@.skip(0) =~= self.tables@);
        }
        let rows = collect_rows(&self.tables, 0, table);
        Batch { rows }
    }

    /// Appends one run of rows for `table`; every other table keeps its
    /// rows.
    pub fn append(&mut self, table: &TableRef, rows: Vec<Row>)
        ensures
            stored_rows(final(self).tables@, table.schema@, table.name@) == stored_rows(
                old(self).tables@,
                table.schema@,
                table.name@,
            ) + rows.deep_view(),
            forall|s: Seq<char>, n: Seq<char>|
                !(s == table.schema@ && n == table.name@) ==> #[trigger] stored_rows(
                    final(self).tables@,
                    s,
                    n,
                ) == stored_rows(old(self).tables@, s, n),
    {
        let ghost rv = rows.deep_view();
        let entry = StoredTable {
            reference: TableRef { schema: table.schema.clone(), name: table.name.clone() },
            rows,
        };
        let ghost e = entry;
        self.tables.push(entry);
        proof {
            assert(e.rows.deep_view() == rv);
            assert(self.tables@ == old(self).tables@.push(e));
            lemma_stored_rows_push(old(self).tables@, e, table.schema@, table.name@);
            assert(stored_rows(self.tables@, table.schema@, table.name@) == stored_rows(
                old(self).tables@,
                table.schema@,
                table.name@,
            ) + rv);
            assert forall|s: Seq<char>, n: Seq<char>|
                !(s == table.schema@ && n == table.name@) implies #[trigger] stored_rows(
                self.tables@,
                s,
                n,
            ) == stored_rows(old(self).tables@, s, n) by {
                lemma_stored_rows_push(old(self).tables@, e, s, n);
                assert(stored_rows(old(self).tables@, s, n) + Seq::<Seq<ValueV>>::empty()
                    =~= stored_rows(old(self).tables@, s, n));
            }
        }
    }
}

} // verus!
