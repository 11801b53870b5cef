//! The planner: turns one parsed statement into a typed logical plan,
//! resolving table references against the catalog.

use vstd::prelude::*;
use vstd::string::StringExecFns;

use crate::catalog::CatalogState;
use crate::catalog::TableEntry;
use crate::catalog::TableEntryV;
use crate::catalog::entries_view;
use crate::catalog::has_table_in;
use crate::data::TableRef;
use crate::data::TableRefV;
use crate::data::clone_strings;
use crate::error::ExecError;
use crate::logical::SourceQuery;
use crate::parse::ParsedStatement;

verus! {

/// The schema named by dotted name parts; an unqualified name falls back
/// to the default schema.
pub open spec fn schema_of(parts: Seq<Seq<char>>) -> Seq<char> {
    if parts.len() >= 2 {
        parts[parts.len() - 2]
    } else {
        "public"@
    }
}

/// The object named by dotted name parts: the last part.
pub open spec fn base_of(parts: Seq<Seq<char>>) -> Seq<char>
    recommends
        parts.len() >= 1,
{
    parts[parts.len() - 1]
}

/// The resolved reference named by dotted name parts.
pub open spec fn ref_of(parts: Seq<Seq<char>>) -> TableRefV {
    TableRefV { schema: schema_of(parts), name: base_of(parts) }
}

/// The references named by a list of dotted names.
pub open spec fn refs_of(names: Seq<Seq<Seq<char>>>) -> Seq<TableRefV> {
    names.map_values(|p: Seq<Seq<char>>| ref_of(p))
}

/// The plain names picked out of a list of dotted names.
pub open spec fn bases_of(names: Seq<Seq<Seq<char>>>) -> Seq<Seq<char>> {
    names.map_values(|p: Seq<Seq<char>>| base_of(p))
}

/// Whether every dotted name in the list has at least one part.
pub open spec fn all_named(names: Seq<Seq<Seq<char>>>) -> bool {
    forall|j: int| 0 <= j < names.len() ==> #[trigger] names[j].len() >= 1
}

/// Resolves dotted name parts into a schema-qualified table reference;
/// an empty name is a plan error.
pub fn resolve_reference(parts: &Vec<String>) -> (r: Result<TableRef, ExecError>)
    ensures
        parts@.len() == 0 ==> (r matches Err(e) && e is Plan),
        parts@.len() >= 1 ==> (r matches Ok(t) && t@ == ref_of(parts.deep_view())),
{
    if parts.len() == 0 {
        return Err(ExecError::Plan { message: String::from_str("empty object name") });
    }
    let name = parts[parts.len() - 1].clone();
    let schema = if parts.len() >= 2 {
        parts[parts.len() - 2].clone()
    } else {
        String::from_str("public")
    };
    let t = TableRef { schema, name };
    proof {
        assert(t@ =~= ref_of(parts.deep_view()));
    }
    Ok(t)
}

/// Resolves every dotted name from index `i` on; any empty name is a plan
/// error.
pub fn resolve_references(names: &Vec<Vec<String>>, i: usize) -> (r: Result<
    Vec<TableRef>,
    ExecError,
>)
    requires
        i <= names.len(),
    ensures
        r matches Ok(v) ==> all_named(names.deep_view().skip(i as int)) && v@.map_values(
            |t: TableRef| t@,
        ) == refs_of(names.deep_view().skip(i as int)),
        r matches Err(e) ==> !all_named(names.deep_view().skip(i as int)) && e is Plan,
    decreases names.len() - i,
{
    if i < names.len() {
        proof {
            assert(names.deep_view().skip(i as int)[0] == names.deep_view()[i as int]);
            assert(names.deep_view().skip(i as int).drop_first() =~= names.deep_view().skip(
                i as int + 1,
            ));
        }
        let head = match resolve_reference(&names[i]) {
            Ok(t) => t,
            Err(e) => {
                proof {
                    assert(names.deep_view().skip(i as int)[0].len() == 0);
                }
                return Err(e);
            },
        };
        match resolve_references(names, i + 1) {
            Ok(mut rest) => {
                let ghost pre = rest@.map_values(|t: TableRef| t@);
                let ghost hv = head@;
                rest.insert(0, head);
                proof {
                    assert(rest@.map_values(|t: TableRef| t@) =~= seq![hv] + pre);
                    assert forall|j: int|
                        0 <= j < names.deep_view().skip(i as int).len() implies #[trigger] names.deep_view().skip(
                        i as int,
                    )[j].len() >= 1 by {
                        if j == 0 {
                        } else {
                            assert(names.deep_view().skip(i as int)[j] == names.deep_view().skip(
                                i as int + 1,
                            )[j - 1]);
                        }
                    }
                    assert(rest@.map_values(|t: TableRef| t@) =~= refs_of(
                        names.deep_view().skip(i as int),
                    ));
                }
                Ok(rest)
            },
            Err(e) => Err(e),
        }
    } else {
        let r: Vec<TableRef> = Vec::new();
        proof {
            assert(names.deep_view().skip(i as int) =~= Seq::<Seq<Seq<char>>>::empty());
            assert(r@.map_values(|t: TableRef| t@) =~= refs_of(names.deep_view().skip(i as int)));
        }
        Ok(r)
    }
}

/// Picks the plain object name out of every dotted name from index `i`
/// on; any empty name is a plan error.
pub fn resolve_names(names: &Vec<Vec<String>>, i: usize) -> (r: Result<Vec<String>, ExecError>)
    requires
        i <= names.len(),
    ensures
        r matches Ok(v) ==> all_named(names.deep_view().skip(i as int)) && v.deep_view()
            == bases_of(names.deep_view().skip(i as int)),
        r matches Err(e) ==> !all_named(names.deep_view().skip(i as int)) && e is Plan,
    decreases names.len() - i,
{
    if i < names.len() {
        proof {
            assert(names.deep_view().skip(i as int)[0] == names.deep_view()[i as int]);
            assert(names.deep_view().skip(i as int).drop_first() =~= names.deep_view().skip(
                i as int + 1,
            ));
        }
        if names[i].len() == 0 {
            proof {
                assert(names.deep_view().skip(i as int)[0].len() == 0);
            }
            return Err(ExecError::Plan { message: String::from_str("empty object name") });
        }
        let head = names[i][names[i].len() - 1].clone();
        match resolve_names(names, i + 1) {
            Ok(mut rest) => {
                let ghost pre = rest.deep_view();
                let ghost hv = head@;
                rest.insert(0, head);
                proof {
                    assert(rest.deep_view() =~= seq![hv] + pre);
                    assert forall|j: int|
                        0 <= j < names.deep_view().skip(i as int).len() implies #[trigger] names.deep_view().skip(
                        i as int,
                    )[j].len() >= 1 by {
                        if j == 0 {
                        } else {
                            assert(names.deep_view().skip(i as int)[j] == names.deep_view().skip(
                                i as int + 1,
                            )[j - 1]);
                        }
                    }
                    assert(rest.deep_view() =~= bases_of(names.deep_view().skip(i as int)));
                }
                Ok(rest)
            },
            Err(e) => Err(e),
        }
    } else {
        let r: Vec<String> = Vec::new();
        proof {
            assert(names.deep_view().skip(i as int) =~= Seq::<Seq<Seq<char>>>::empty());
            assert(r.deep_view() =~= bases_of(names.deep_view().skip(i as int)));
        }
        Ok(r)
    }
}

/// The column names of the first table named `schema`.`name`.
pub open spec fn table_columns_in(
    tables: Seq<TableEntryV>,
    schema: Seq<char>,
    name: Seq<char>,
) -> Seq<Seq<char>>
    decreases tables.len(),
{
    if tables.len() == 0 {
        Seq::empty()
    } else if tables[0].reference.schema == schema && tables[0].reference.name == name {
        tables[0].columns
    } else {
        table_columns_in(tables.drop_first(), schema, name)
    }
}

/// Looks a table up in the catalog from entry `i` on: its column names
/// when present, nothing when absent.
pub fn find_table_columns(v: &Vec<TableEntry>, i: usize, table: &TableRef) -> (r: Option<
    Vec<String>,
>)
    requires
        i <= v.len(),
    ensures
        r is Some == has_table_in(entries_view(v@).skip(i as int), table.schema@, table.name@),
        r matches Some(c) ==> c.deep_view() == table_columns_in(
            entries_view(v@).skip(i as int),
            table.schema@,
            table.name@,
        ),
    decreases v.len() - i,
{
    if i < v.len() {
        proof {
            assert(entries_view(v@).skip(i as int)[0] == entries_view(v@)[i as int]);
            assert(entries_view(v@).skip(i as int).drop_first() =~= entries_view(v@).skip(
                i as int + 1,
            ));
        }
        if v[i].reference.schema == table.schema && v[i].reference.name == table.name {
            Some(clone_strings(&v[i].columns))
        } else {
            find_table_columns(v, i + 1, table)
        }
    } else {
        proof {
            assert(entries_view(v@).skip(i as int) =~= Seq::<TableEntryV>::empty());
        }
        None
    }
}

/// Resolves a source query into a scan of an existing table: the resolved
/// reference and the table's columns, or a plan error.
pub fn resolve_source(catalog: &CatalogState, source: &SourceQuery) -> (r: Result<
    (TableRef, Vec<String>),
    ExecError,
>)
    ensures
        source matches SourceQuery::Unsupported { display } ==> (r matches Err(e) && e is Plan),
        source matches SourceQuery::ScanStar { table } && table@.len() == 0 ==> (r matches Err(e)
            && e is Plan),
        source matches SourceQuery::ScanStar { table } && table@.len() >= 1 && !has_table_in(
            catalog.contents().tables,
            ref_of(table.deep_view()).schema,
            ref_of(table.deep_view()).name,
        ) ==> (r matches Err(e) && e is Plan),
        source matches SourceQuery::ScanStar { table } ==> (table@.len() >= 1 && has_table_in(
            catalog.contents().tables,
            ref_of(table.deep_view()).schema,
            ref_of(table.deep_view()).name,
        ) ==> (r matches Ok(p) && p.0@ == ref_of(table.deep_view()) && p.1.deep_view()
            == table_columns_in(
            catalog.contents().tables,
            ref_of(table.deep_view()).schema,
            ref_of(table.deep_view()).name,
        ))),
{
    match source {
        SourceQuery::Unsupported { display } => Err(
            ExecError::Plan { message: String::from_str("unsupported query shape") },
        ),
        SourceQuery::ScanStar { table } => {
            let t = match resolve_reference(table) {
                Ok(t) => t,
                Err(e) => {
                    return Err(e);
                },
            };
            proof {
                assert(entries_view(catalog.tables@).skip(0) =~= entries_view(catalog.tables@));
            }
            match find_table_columns(&catalog.tables, 0, &t) {
                Some(columns) => Ok((t, columns)),
                None => Err(ExecError::Plan { message: String::from_str("table not found") }),
            }
        },
    }
}

} // verus!
