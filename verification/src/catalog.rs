//! Catalog state and the mutator: the sole authority for catalog changes.
//!
//! Every mutation batch presents the catalog version it believes is
//! current.  On a mismatch the commit fails with a conflict and nothing is
//! applied; on a match the whole batch applies as one atomic unit and the
//! version advances by exactly one.

use vstd::prelude::*;
use vstd::string::StringExecFns;

use crate::data::TableRef;
use crate::data::TableRefV;
use crate::data::clone_strings;
use crate::error::ExecError;
use crate::logical::AlterTableOperation;
use crate::logical::AlterTableOperationV;

verus! {

/// One table known to the catalog.
#[derive(Debug)]
pub struct TableEntry {
    pub reference: TableRef,
    pub columns: Vec<String>,
}

/// Mathematical value of a table entry.
#[verifier::ext_equal]
pub struct TableEntryV {
    pub reference: TableRefV,
    pub columns: Seq<Seq<char>>,
}

impl View for TableEntry {
    type V = TableEntryV;

    open spec fn view(&self) -> TableEntryV {
        TableEntryV { reference: self.reference@, columns: self.columns.deep_view() }
    }
}

/// The versioned catalog: a version counter plus its contents.
#[derive(Debug)]
pub struct CatalogState {
    pub version: u64,
    pub schemas: Vec<String>,
    pub tables: Vec<TableEntry>,
    pub credentials: Vec<String>,
}

/// The observable contents of the catalog, version aside.
#[verifier::ext_equal]
pub struct ContentsV {
    pub schemas: Seq<Seq<char>>,
    pub tables: Seq<TableEntryV>,
    pub credentials: Seq<Seq<char>>,
}

/// The view of a table-entry list.
pub open spec fn entries_view(v: Seq<TableEntry>) -> Seq<TableEntryV> {
    v.map_values(|e: TableEntry| e@)
}

impl CatalogState {
    /// The observable contents of this catalog.
    pub open spec fn contents(&self) -> ContentsV {
        ContentsV {
            schemas: self.schemas.deep_view(),
            tables: entries_view(self.tables@),
            credentials: self.credentials.deep_view(),
        }
    }

    /// An empty catalog holding only the default schema, at version 0.
    pub fn initial() -> (r: CatalogState)
        ensures
            r.version == 0,
            r.contents().schemas == seq!["public"@],
            r.contents().tables.len() == 0,
            r.contents().credentials.len() == 0,
    {
        let mut schemas: Vec<String> = Vec::new();
        schemas.push(String::from_str("public"));
        let r = CatalogState { version: 0, schemas, tables: Vec::new(), credentials: Vec::new() };
        proof {
            assert(r.contents().schemas =~= seq!["public"@]);
        }
        r
    }
}

/// One catalog change, pure data until submitted to the mutator.
#[derive(Debug)]
pub enum Mutation {
    CreateSchema { name: String },
    CreateTable { schema: String, name: String, columns: Vec<String> },
    DropTable { schema: String, name: String, if_exists: bool },
    DropSchema { name: String, if_exists: bool },
    AlterTable { schema: String, name: String, operation: AlterTableOperation },
    DropCredentials { names: Vec<String>, if_exists: bool },
}

/// Mathematical value of a mutation.
pub enum MutationV {
    CreateSchema { name: Seq<char> },
    CreateTable { schema: Seq<char>, name: Seq<char>, columns: Seq<Seq<char>> },
    DropTable { schema: Seq<char>, name: Seq<char>, if_exists: bool },
    DropSchema { name: Seq<char>, if_exists: bool },
    AlterTable { schema: Seq<char>, name: Seq<char>, operation: AlterTableOperationV },
    DropCredentials { names: Seq<Seq<char>>, if_exists: bool },
}

impl View for Mutation {
    type V = MutationV;

    open spec fn view(&self) -> MutationV {
        match self {
            Mutation::CreateSchema { name } => MutationV::CreateSchema { name: name@ },
            Mutation::CreateTable { schema, name, columns } => MutationV::CreateTable {
                schema: schema@,
                name: name@,
                columns: columns.deep_view(),
            },
            Mutation::DropTable { schema, name, if_exists } => MutationV::DropTable {
                schema: schema@,
                name: name@,
                if_exists: *if_exists,
            },
            Mutation::DropSchema { name, if_exists } => MutationV::DropSchema {
                name: name@,
                if_exists: *if_exists,
            },
            Mutation::AlterTable { schema, name, operation } => MutationV::AlterTable {
                schema: schema@,
                name: name@,
                operation: operation@,
            },
            Mutation::DropCredentials { names, if_exists } => MutationV::DropCredentials {
                names: names.deep_view(),
                if_exists: *if_exists,
            },
        }
    }
}

/// The view of a mutation batch.
pub open spec fn muts_view(v: Vec<Mutation>) -> Seq<MutationV> {
    v@.map_values(|m: Mutation| m@)
}

/// Whether `s` occurs in `ss`.
pub open spec fn contains_str(ss: Seq<Seq<char>>, s: Seq<char>) -> bool
    decreases ss.len(),
{
    if ss.len() == 0 {
        false
    } else {
        ss[0] == s || contains_str(ss.drop_first(), s)
    }
}

/// Whether a table named `schema`.`name` occurs in `tables`.
pub open spec fn has_table_in(tables: Seq<TableEntryV>, schema: Seq<char>, name: Seq<char>) -> bool
    decreases tables.len(),
{
    if tables.len() == 0 {
        false
    } else {
        (tables[0].reference.schema == schema && tables[0].reference.name == name) || has_table_in(
            tables.drop_first(),
            schema,
            name,
        )
    }
}

/// `tables` with every entry named `schema`.`name` removed.
pub open spec fn remove_table(
    tables: Seq<TableEntryV>,
    schema: Seq<char>,
    name: Seq<char>,
) -> Seq<TableEntryV>
    decreases tables.len(),
{
    if tables.len() == 0 {
        Seq::empty()
    } else {
        let rest = remove_table(tables.drop_first(), schema, name);
        if tables[0].reference.schema == schema && tables[0].reference.name == name {
            rest
        } else {
            seq![tables[0]] + rest
        }
    }
}

/// `tables` with every entry in schema `schema` removed.
pub open spec fn remove_schema_tables(tables: Seq<TableEntryV>, schema: Seq<char>) -> Seq<
    TableEntryV,
>
    decreases tables.len(),
{
    if tables.len() == 0 {
        Seq::empty()
    } else {
        let rest = remove_schema_tables(tables.drop_first(), schema);
        if tables[0].reference.schema == schema {
            rest
        } else {
            seq![tables[0]] + rest
        }
    }
}

/// `ss` with every occurrence of `s` removed.
pub open spec fn remove_str(ss: Seq<Seq<char>>, s: Seq<char>) -> Seq<Seq<char>>
    decreases ss.len(),
{
    if ss.len() == 0 {
        Seq::empty()
    } else {
        let rest = remove_str(ss.drop_first(), s);
        if ss[0] == s {
            rest
        } else {
            seq![ss[0]] + rest
        }
    }
}

/// `ss` with every string that occurs in `names` removed.
pub open spec fn remove_strs(ss: Seq<Seq<char>>, names: Seq<Seq<char>>) -> Seq<Seq<char>>
    decreases ss.len(),
{
    if ss.len() == 0 {
        Seq::empty()
    } else {
        let rest = remove_strs(ss.drop_first(), names);
        if contains_str(names, ss[0]) {
            rest
        } else {
            seq![ss[0]] + rest
        }
    }
}

/// Whether every string of `names` occurs in `ss`.
pub open spec fn all_contained(names: Seq<Seq<char>>, ss: Seq<Seq<char>>) -> bool
    decreases names.len(),
{
    if names.len() == 0 {
        true
    } else {
        contains_str(ss, names[0]) && all_contained(names.drop_first(), ss)
    }
}

/// `tables` with every entry named `schema`.`name` renamed to `new_name`.
pub open spec fn rename_table(
    tables: Seq<TableEntryV>,
    schema: Seq<char>,
    name: Seq<char>,
    new_name: Seq<char>,
) -> Seq<TableEntryV>
    decreases tables.len(),
{
    if tables.len() == 0 {
        Seq::empty()
    } else {
        let rest = rename_table(tables.drop_first(), schema, name, new_name);
        if tables[0].reference.schema == schema && tables[0].reference.name == name {
            seq![
                TableEntryV {
                    reference: TableRefV { schema: tables[0].reference.schema, name: new_name },
                    columns: tables[0].columns,
                },
            ] + rest
        } else {
            seq![tables[0]] + rest
        }
    }
}

/// What one mutation does to the catalog contents; `None` when it cannot
/// apply.
pub open spec fn apply_mutation(c: ContentsV, m: MutationV) -> Option<ContentsV> {
    match m {
        MutationV::CreateSchema { name } => if contains_str(c.schemas, name) {
            Option::None
        } else {
            Option::Some(
                ContentsV {
                    schemas: c.schemas.push(name),
                    tables: c.tables,
                    credentials: c.credentials,
                },
            )
        },
        MutationV::CreateTable { schema, name, columns } => if contains_str(c.schemas, schema)
            && !has_table_in(c.tables, schema, name) {
            Option::Some(
                ContentsV {
                    schemas: c.schemas,
                    tables: c.tables.push(
                        TableEntryV { reference: TableRefV { schema, name }, columns },
                    ),
                    credentials: c.credentials,
                },
            )
        } else {
            Option::None
        },
        MutationV::DropTable { schema, name, if_exists } => if has_table_in(
            c.tables,
            schema,
            name,
        ) {
            Option::Some(
                ContentsV {
                    schemas: c.schemas,
                    tables: remove_table(c.tables, schema, name),
                    credentials: c.credentials,
                },
            )
        } else if if_exists {
            Option::Some(c)
        } else {
            Option::None
        },
        MutationV::DropSchema { name, if_exists } => if contains_str(c.schemas, name) {
            Option::Some(
                ContentsV {
                    schemas: remove_str(c.schemas, name),
                    tables: remove_schema_tables(c.tables, name),
                    credentials: c.credentials,
                },
            )
        } else if if_exists {
            Option::Some(c)
        } else {
            Option::None
        },
        MutationV::AlterTable { schema, name, operation } => match operation {
            AlterTableOperationV::RenameTable { new_name } => if has_table_in(
                c.tables,
                schema,
                name,
            ) && !has_table_in(c.tables, schema, new_name) {
                Option::Some(
                    ContentsV {
                        schemas: c.schemas,
                        tables: rename_table(c.tables, schema, name, new_name),
                        credentials: c.credentials,
                    },
                )
            } else {
                Option::None
            },
        },
        MutationV::DropCredentials { names, if_exists } => if if_exists || all_contained(
            names,
            c.credentials,
        ) {
            Option::Some(
                ContentsV {
                    schemas: c.schemas,
                    tables: c.tables,
                    credentials: remove_strs(c.credentials, names),
                },
            )
        } else {
            Option::None
        },
    }
}

/// What a whole batch does: every mutation in order, or nothing.
pub open spec fn apply_all(c: ContentsV, ms: Seq<MutationV>) -> Option<ContentsV>
    decreases ms.len(),
{
    if ms.len() == 0 {
        Option::Some(c)
    } else {
        match apply_mutation(c, ms[0]) {
            Option::None => Option::None,
            Option::Some(c2) => apply_all(c2, ms.drop_first()),
        }
    }
}

/// Character-for-character string comparison.
fn str_eq(a: &String, b: &String) -> (r: bool)
    ensures
        r == (a@ == b@),
{
    *a == *b
}

/// Whether `s` occurs in `v`, from index `i` on.
fn contains_str_from(v: &Vec<String>, i: usize, s: &String) -> (r: bool)
    requires
        i <= v.len(),
    ensures
        r == contains_str(v.deep_view().skip(i as int), s@),
    decreases v.len() - i,
{
    if i < v.len() {
        proof {
            assert(v.deep_view().skip(i as int)[0] == v.deep_view()[i as int]);
            assert(v.deep_view().skip(i as int).drop_first() =~= v.deep_view().skip(i as int + 1));
        }
        if str_eq(&v[i], s) {
            true
        } else {
            contains_str_from(v, i + 1, s)
        }
    } else {
        proof {
            assert(v.deep_view().skip(i as int) =~= Seq::<Seq<char>>::empty());
        }
        false
    }
}

/// Whether a table named `schema`.`name` occurs in `v`, from index `i` on.
fn has_table_from(v: &Vec<TableEntry>, i: usize, schema: &String, name: &String) -> (r: bool)
    requires
        i <= v.len(),
    ensures
        r == has_table_in(entries_view(v@).skip(i as int), schema@, name@),
    decreases v.len() - i,
{
    if i < v.len() {
        proof {
            assert(entries_view(v@).skip(i as int)[0] == entries_view(v@)[i as int]);
            assert(entries_view(v@).skip(i as int).drop_first() =~= entries_view(v@).skip(
                i as int + 1,
            ));
        }
        if str_eq(&v[i].reference.schema, schema) && str_eq(&v[i].reference.name, name) {
            true
        } else {
            has_table_from(v, i + 1, schema, name)
        }
    } else {
        proof {
            assert(entries_view(v@).skip(i as int) =~= Seq::<TableEntryV>::empty());
        }
        false
    }
}

/// Copies one table entry, keeping every field.
fn clone_entry(e: &TableEntry) -> (r: TableEntry)
    ensures
        r@ == e@,
{
    let r = TableEntry {
        reference: TableRef {
            schema: e.reference.schema.clone(),
            name: e.reference.name.clone(),
        },
        columns: clone_strings(&e.columns),
    };
    proof {
        assert(r@ =~= e@);
    }
    r
}

/// Copies the table entries from index `i` on.
fn clone_entries(v: &Vec<TableEntry>, i: usize) -> (r: Vec<TableEntry>)
    requires
        i <= v.len(),
    ensures
        entries_view(r@) == entries_view(v@).skip(i as int),
    decreases v.len() - i,
{
    if i < v.len() {
        let mut rest = clone_entries(v, i + 1);
        let ghost pre = entries_view(rest@);
        rest.insert(0, clone_entry(&v[i]));
        proof {
            assert(entries_view(rest@) =~= seq![v@[i as int]@] + pre);
            assert(entries_view(v@).skip(i as int)[0] == entries_view(v@)[i as int]);
            assert(entries_view(v@).skip(i as int).drop_first() =~= entries_view(v@).skip(
                i as int + 1,
            ));
            assert(entries_view(rest@) =~= entries_view(v@).skip(i as int));
        }
        rest
    } else {
        let r: Vec<TableEntry> = Vec::new();
        proof {
            assert(entries_view(r@) =~= entries_view(v@).skip(i as int));
        }
        r
    }
}

/// The entries from index `i` on, without those named `schema`.`name`.
fn remove_table_from(v: &Vec<TableEntry>, i: usize, schema: &String, name: &String) -> (r: Vec<
    TableEntry,
>)
    requires
        i <= v.len(),
    ensures
        entries_view(r@) == remove_table(entries_view(v@).skip(i as int), schema@, name@),
    decreases v.len() - i,
{
    if i < v.len() {
        proof {
            assert(entries_view(v@).skip(i as int).drop_first() =~= entries_view(v@).skip(
                i as int + 1,
            ));
        }
        let mut rest = remove_table_from(v, i + 1, schema, name);
        proof {
            assert(entries_view(v@).skip(i as int)[0] == entries_view(v@)[i as int]);
        }
        if str_eq(&v[i].reference.schema, schema) && str_eq(&v[i].reference.name, name) {
            rest
        } else {
            let ghost pre = entries_view(rest@);
            rest.insert(0, clone_entry(&v[i]));
            proof {
                assert(entries_view(rest@) =~= seq![v@[i as int]@] + pre);
            }
            rest
        }
    } else {
        let r: Vec<TableEntry> = Vec::new();
        proof {
            assert(entries_view(v@).skip(i as int) =~= Seq::<TableEntryV>::empty());
            assert(entries_view(r@) =~= Seq::<TableEntryV>::empty());
        }
        r
    }
}

/// The entries from index `i` on, without those in schema `schema`.
fn remove_schema_tables_from(v: &Vec<TableEntry>, i: usize, schema: &String) -> (r: Vec<TableEntry>)
    requires
        i <= v.len(),
    ensures
        entries_view(r@) == remove_schema_tables(entries_view(v@).skip(i as int), schema@),
    decreases v.len() - i,
{
    if i < v.len() {
        proof {
            assert(entries_view(v@).skip(i as int).drop_first() =~= entries_view(v@).skip(
                i as int + 1,
            ));
        }
        let mut rest = remove_schema_tables_from(v, i + 1, schema);
        proof {
            assert(entries_view(v@).skip(i as int)[0] == entries_view(v@)[i as int]);
        }
        if str_eq(&v[i].reference.schema, schema) {
            rest
        } else {
            let ghost pre = entries_view(rest@);
            rest.insert(0, clone_entry(&v[i]));
            proof {
                assert(entries_view(rest@) =~= seq![v@[i as int]@] + pre);
            }
            rest
        }
    } else {
        let r: Vec<TableEntry> = Vec::new();
        proof {
            assert(entries_view(v@).skip(i as int) =~= Seq::<TableEntryV>::empty());
            assert(entries_view(r@) =~= Seq::<TableEntryV>::empty());
        }
        r
    }
}

/// The entries from index `i` on, with `schema`.`name` renamed to
/// `new_name`.
fn rename_table_from(
    v: &Vec<TableEntry>,
    i: usize,
    schema: &String,
    name: &String,
    new_name: &String,
) -> (r: Vec<TableEntry>)
    requires
        i <= v.len(),
    ensures
        entries_view(r@) == rename_table(
            entries_view(v@).skip(i as int),
            schema@,
            name@,
            new_name@,
        ),
    decreases v.len() - i,
{
    if i < v.len() {
        proof {
            assert(entries_view(v@).skip(i as int).drop_first() =~= entries_view(v@).skip(
                i as int + 1,
            ));
        }
        let mut rest = rename_table_from(v, i + 1, schema, name, new_name);
        proof {
            assert(entries_view(v@).skip(i as int)[0] == entries_view(v@)[i as int]);
        }
        let ghost pre = entries_view(rest@);
        if str_eq(&v[i].reference.schema, schema) && str_eq(&v[i].reference.name, name) {
            let renamed = TableEntry {
                reference: TableRef { schema: v[i].reference.schema.clone(), name: new_name.clone() },
                columns: clone_strings(&v[i].columns),
            };
            let ghost rv = renamed@;
            rest.insert(0, renamed);
            proof {
                assert(entries_view(rest@) =~= seq![rv] + pre);
                assert(rv =~= (TableEntryV {
                    reference: TableRefV {
                        schema: v@[i as int]@.reference.schema,
                        name: new_name@,
                    },
                    columns: v@[i as int]@.columns,
                }));
            }
        } else {
            rest.insert(0, clone_entry(&v[i]));
            proof {
                assert(entries_view(rest@) =~= seq![v@[i as int]@] + pre);
            }
        }
        rest
    } else {
        let r: Vec<TableEntry> = Vec::new();
        proof {
            assert(entries_view(v@).skip(i as int) =~= Seq::<TableEntryV>::empty());
            assert(entries_view(r@) =~= Seq::<TableEntryV>::empty());
        }
        r
    }
}

/// The strings from index `i` on, without occurrences of `s`.
fn remove_str_from(v: &Vec<String>, i: usize, s: &String) -> (r: Vec<String>)
    requires
        i <= v.len(),
    ensures
        r.deep_view() == remove_str(v.deep_view().skip(i as int), s@),
    decreases v.len() - i,
{
    if i < v.len() {
        proof {
            assert(v.deep_view().skip(i as int).drop_first() =~= v.deep_view().skip(i as int + 1));
        }
        let mut rest = remove_str_from(v, i + 1, s);
        proof {
            assert(v.deep_view().skip(i as int)[0] == v.deep_view()[i as int]);
        }
        if str_eq(&v[i], s) {
            rest
        } else {
            let ghost pre = rest.deep_view();
            rest.insert(0, v[i].clone());
            proof {
                assert(rest.deep_view() =~= seq![v.deep_view()[i as int]] + pre);
            }
            rest
        }
    } else {
        let r: Vec<String> = Vec::new();
        proof {
            assert(v.deep_view().skip(i as int) =~= Seq::<Seq<char>>::empty());
            assert(r.deep_view() =~= Seq::<Seq<char>>::empty());
        }
        r
    }
}

/// The strings from index `i` on, without those that occur in `names`.
fn remove_strs_from(v: &Vec<String>, i: usize, names: &Vec<String>) -> (r: Vec<String>)
    requires
        i <= v.len(),
    ensures
        r.deep_view() == remove_strs(v.deep_view().skip(i as int), names.deep_view()),
    decreases v.len() - i,
{
    if i < v.len() {
        proof {
            assert(v.deep_view().skip(i as int).drop_first() =~= v.deep_view().skip(i as int + 1));
            assert(names.deep_view().skip(0) =~= names.deep_view());
        }
        let mut rest = remove_strs_from(v, i + 1, names);
        proof {
            assert(v.deep_view().skip(i as int)[0] == v.deep_view()[i as int]);
        }
        if contains_str_from(names, 0, &v[i]) {
            rest
        } else {
            let ghost pre = rest.deep_view();
            rest.insert(0, v[i].clone());
            proof {
                assert(rest.deep_view() =~= seq![v.deep_view()[i as int]] + pre);
            }
            rest
        }
    } else {
        let r: Vec<String> = Vec::new();
        proof {
            assert(v.deep_view().skip(i as int) =~= Seq::<Seq<char>>::empty());
            assert(r.deep_view() =~= Seq::<Seq<char>>::empty());
        }
        r
    }
}

/// Whether every string of `names` from index `i` on occurs in `ss`.
fn all_contained_from(names: &Vec<String>, i: usize, ss: &Vec<String>) -> (r: bool)
    requires
        i <= names.len(),
    ensures
        r == all_contained(names.deep_view().skip(i as int), ss.deep_view()),
    decreases names.len() - i,
{
    if i < names.len() {
        proof {
            assert(names.deep_view().skip(i as int).drop_first() =~= names.deep_view().skip(
                i as int + 1,
            ));
            assert(ss.deep_view().skip(0) =~= ss.deep_view());
        }
        proof {
            assert(names.deep_view().skip(i as int)[0] == names.deep_view()[i as int]);
        }
        if contains_str_from(ss, 0, &names[i]) {
            all_contained_from(names, i + 1, ss)
        } else {
            false
        }
    } else {
        proof {
            assert(names.deep_view().skip(i as int) =~= Seq::<Seq<char>>::empty());
        }
        true
    }
}

/// The contents value of three working lists.
pub open spec fn work_view(
    schemas: Vec<String>,
    tables: Vec<TableEntry>,
    credentials: Vec<String>,
) -> ContentsV {
    ContentsV {
        schemas: schemas.deep_view(),
        tables: entries_view(tables@),
        credentials: credentials.deep_view(),
    }
}

/// Applies one mutation to fresh copies of the working lists; `None` when
/// it cannot apply.
#[verifier::rlimit(100)]
#[verifier::spinoff_prover]
fn apply_one(
    schemas: &Vec<String>,
    tables: &Vec<TableEntry>,
    credentials: &Vec<String>,
    m: &Mutation,
) -> (r: Option<(Vec<String>, Vec<TableEntry>, Vec<String>)>)
    ensures
        r matches Some(t) ==> apply_mutation(work_view(*schemas, *tables, *credentials), m@)
            == Some(work_view(t.0, t.1, t.2)),
        r is None ==> apply_mutation(work_view(*schemas, *tables, *credentials), m@) is None,
{
    proof {
        assert(schemas.deep_view().skip(0) =~= schemas.deep_view());
        assert(entries_view(tables@).skip(0) =~= entries_view(tables@));
        assert(credentials.deep_view().skip(0) =~= credentials.deep_view());
    }
    match m {
        Mutation::CreateSchema { name } => {
            if contains_str_from(schemas, 0, name) {
                None
            } else {
                let mut s2 = clone_strings(schemas);
                let ghost pre = s2.deep_view();
                s2.push(name.clone());
                proof {
                    assert(s2.deep_view() =~= pre.push(name@));
                }
                Some((s2, clone_entries(tables, 0), clone_strings(credentials)))
            }
        },
        Mutation::CreateTable { schema, name, columns } => {
            if contains_str_from(schemas, 0, schema) && !has_table_from(tables, 0, schema, name) {
                let mut t2 = clone_entries(tables, 0);
                let ghost pre = entries_view(t2@);
                let entry = TableEntry {
                    reference: TableRef { schema: schema.clone(), name: name.clone() },
                    columns: clone_strings(columns),
                };
                let ghost ev = entry@;
                t2.push(entry);
                proof {
                    assert(entries_view(t2@) =~= pre.push(ev));
                    assert(ev =~= (TableEntryV {
                        reference: TableRefV { schema: schema@, name: name@ },
                        columns: columns.deep_view(),
                    }));
                }
                Some((clone_strings(schemas), t2, clone_strings(credentials)))
            } else {
                None
            }
        },
        Mutation::DropTable { schema, name, if_exists } => {
            if has_table_from(tables, 0, schema, name) {
                Some(
                    (
                        clone_strings(schemas),
                        remove_table_from(tables, 0, schema, name),
                        clone_strings(credentials),
                    ),
                )
            } else if *if_exists {
                Some((clone_strings(schemas), clone_entries(tables, 0), clone_strings(credentials)))
            } else {
                None
            }
        },
        Mutation::DropSchema { name, if_exists } => {
            if contains_str_from(schemas, 0, name) {
                Some(
                    (
                        remove_str_from(schemas, 0, name),
                        remove_schema_tables_from(tables, 0, name),
                        clone_strings(credentials),
                    ),
                )
            } else if *if_exists {
                Some((clone_strings(schemas), clone_entries(tables, 0), clone_strings(credentials)))
            } else {
                None
            }
        },
        Mutation::AlterTable { schema, name, operation } => {
            match operation {
                AlterTableOperation::RenameTable { new_name } => {
                    if has_table_from(tables, 0, schema, name) && !has_table_from(
                        tables,
                        0,
                        schema,
                        new_name,
                    ) {
                        Some(
                            (
                                clone_strings(schemas),
                                rename_table_from(tables, 0, schema, name, new_name),
                                clone_strings(credentials),
                            ),
                        )
                    } else {
                        None
                    }
                },
            }
        },
        Mutation::DropCredentials { names, if_exists } => {
            proof {
                assert(names.deep_view().skip(0) =~= names.deep_view());
            }
            if *if_exists || all_contained_from(names, 0, credentials) {
                Some(
                    (
                        clone_strings(schemas),
                        clone_entries(tables, 0),
                        remove_strs_from(credentials, 0, names),
                    ),
                )
            } else {
                None
            }
        },
    }
}

/// The sole authority for applying catalog mutations.
pub struct CatalogMutator {}

impl CatalogMutator {
    /// Commits a mutation batch against the catalog, enforcing optimistic
    /// concurrency.
    ///
    /// With a stale `expected_version` the commit fails with a conflict and
    /// the catalog is unchanged.  With the current version, either every
    /// mutation applies as one atomic unit and the version advances by
    /// exactly one, or nothing is applied and the backend failure is
    /// returned.
    pub fn mutate_and_commit(
        state: &mut CatalogState,
        expected_version: u64,
        mutations: &Vec<Mutation>,
    ) -> (r: Result<u64, ExecError>)
        ensures
            old(state).version != expected_version ==> (r matches Err(e) && e == (ExecError::Conflict {
                expected: expected_version,
                current: old(state).version,
            })),
            old(state).version != expected_version ==> final(state).version == old(state).version
                && final(state).contents() == old(state).contents(),
            old(state).version == expected_version && expected_version < u64::MAX ==> (apply_all(
                old(state).contents(),
                muts_view(*mutations),
            ) matches Some(c) ==> (r matches Ok(v) && v == expected_version + 1)
                && final(state).version == expected_version + 1
                && final(state).contents() == c),
            old(state).version == expected_version && expected_version < u64::MAX && apply_all(
                old(state).contents(),
                muts_view(*mutations),
            ) is None ==> (r matches Err(e) && e is Backend)
                && final(state).version == old(state).version
                && final(state).contents() == old(state).contents(),
            old(state).version == expected_version && expected_version == u64::MAX ==> (r matches Err(e)
                && e is Backend) && final(state).version == old(state).version
                && final(state).contents() == old(state).contents(),
    {
        if state.version != expected_version {
            return Err(
                ExecError::Conflict { expected: expected_version, current: state.version },
            );
        }
        if expected_version == u64::MAX {
            return Err(ExecError::Backend { message: String::from_str("catalog version exhausted") });
        }
        let mut schemas = clone_strings(&state.schemas);
        let mut tables = clone_entries(&state.tables, 0);
        let mut credentials = clone_strings(&state.credentials);
        proof {
            assert(entries_view(state.tables@).skip(0) =~= entries_view(state.tables@));
        }
        let ghost orig = state.contents();
        let ghost mvs = muts_view(*mutations);
        proof {
            assert(mvs.skip(0) =~= mvs);
            assert(work_view(schemas, tables, credentials) =~= orig);
        }
        let mut i: usize = 0;
        while i < mutations.len()
            invariant
                i <= mutations.len(),
                *state == *old(state),
                old(state).version == expected_version,
                expected_version < u64::MAX,
                mvs == muts_view(*mutations),
                orig == old(state).contents(),
                apply_all(orig, mvs) == apply_all(
                    work_view(schemas, tables, credentials),
                    mvs.skip(i as int),
                ),
            decreases mutations.len() - i,
        {
            proof {
                assert(mvs.skip(i as int)[0] == mvs[i as int]);
                assert(mvs[i as int] == mutations@[i as int]@);
                assert(mvs.skip(i as int).drop_first() =~= mvs.skip(i as int + 1));
            }
            match apply_one(&schemas, &tables, &credentials, &mutations[i]) {
                None => {
                    return Err(
                        ExecError::Backend {
                            message: String::from_str("mutation cannot be applied"),
                        },
                    );
                },
                Some((s2, t2, c2)) => {
                    schemas = s2;
                    tables = t2;
                    credentials = c2;
                    i = i + 1;
                },
            }
        }
        proof {
            assert(mvs.skip(mutations@.len() as int) =~= Seq::<MutationV>::empty());
        }
        state.schemas = schemas;
        state.tables = tables;
        state.credentials = credentials;
        state.version = expected_version + 1;
        Ok(state.version)
    }
}

} // verus!
