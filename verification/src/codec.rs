//! Byte encoding of extension nodes: length-prefixed, self-describing, and
//! proved to round-trip.
//!
//! Layout: one tag byte naming the node kind, then the node's fields.  A
//! string is its UTF-8 bytes behind a little-endian `u64` length; a list is
//! a little-endian `u64` count followed by its items; a flag is one byte.

use vstd::prelude::*;
use vstd::bytes::lemma_auto_spec_u64_to_from_le_bytes;
use vstd::bytes::spec_u64_from_le_bytes;
use vstd::bytes::spec_u64_to_le_bytes;
use vstd::bytes::u64_from_le_bytes;
use vstd::bytes::u64_to_le_bytes;
use vstd::slice::slice_subrange;
use vstd::slice::slice_to_vec;
use vstd::string::StringExecFns;
use vstd::string::StringSliceAdditionalSpecFns;
use vstd::utf8::decode_utf8;
use vstd::utf8::encode_utf8;
use vstd::utf8::encode_utf8_decode_utf8;
use vstd::utf8::encode_utf8_valid_utf8;
use vstd::utf8::valid_utf8;

use crate::data::TableRef;
use crate::data::TableRefV;
use crate::error::ExecError;
use crate::logical::AlterTableOperation;
use crate::logical::AlterTableOperationV;
use crate::logical::DdlPlan;
use crate::logical::DdlView;
use crate::logical::DropCredentials;
use crate::logical::SourceQuery;
use crate::logical::SourceQueryV;

verus! {

broadcast use encode_utf8_decode_utf8, encode_utf8_valid_utf8;

/// Relies on `String::from_utf8`: it succeeds exactly on valid UTF-8 input
/// and returns the decoded characters.
#[verifier::external_type_specification]
#[verifier::external_body]
pub struct ExFromUtf8Error(std::string::FromUtf8Error);

pub assume_specification[ String::from_utf8 ](vec: Vec<u8>) -> (r: Result<
    String,
    std::string::FromUtf8Error,
>)
    ensures
        r matches Ok(s) ==> valid_utf8(vec@) && s@ == decode_utf8(vec@),
        r is Err ==> !valid_utf8(vec@),
;

/// An eight-byte little-endian length or count.
pub open spec fn enc_u64(x: u64) -> Seq<u8> {
    spec_u64_to_le_bytes(x)
}

/// Length-prefixed raw bytes.
pub open spec fn enc_bytes(bs: Seq<u8>) -> Seq<u8> {
    enc_u64(bs.len() as u64) + bs
}

/// Length-prefixed UTF-8 text.
pub open spec fn enc_str(s: Seq<char>) -> Seq<u8> {
    enc_bytes(encode_utf8(s))
}

/// A single flag byte.
pub open spec fn enc_bool(v: bool) -> Seq<u8> {
    if v {
        seq![1u8]
    } else {
        seq![0u8]
    }
}

/// The items of a string list, in order.
pub open spec fn enc_strs_items(ss: Seq<Seq<char>>) -> Seq<u8>
    decreases ss.len(),
{
    if ss.len() == 0 {
        Seq::empty()
    } else {
        enc_str(ss[0]) + enc_strs_items(ss.drop_first())
    }
}

/// A count-prefixed string list.
pub open spec fn enc_strlist(ss: Seq<Seq<char>>) -> Seq<u8> {
    enc_u64(ss.len() as u64) + enc_strs_items(ss)
}

/// The items of a table-reference list: schema then name per item.
pub open spec fn enc_refs_items(rs: Seq<TableRefV>) -> Seq<u8>
    decreases rs.len(),
{
    if rs.len() == 0 {
        Seq::empty()
    } else {
        enc_str(rs[0].schema) + enc_str(rs[0].name) + enc_refs_items(rs.drop_first())
    }
}

/// A count-prefixed table-reference list.
pub open spec fn enc_reflist(rs: Seq<TableRefV>) -> Seq<u8> {
    enc_u64(rs.len() as u64) + enc_refs_items(rs)
}

/// Reads an eight-byte little-endian number.
pub open spec fn dec_u64(b: Seq<u8>) -> Option<(u64, Seq<u8>)> {
    if b.len() >= 8 {
        Option::Some((spec_u64_from_le_bytes(b.take(8)), b.skip(8)))
    } else {
        Option::None
    }
}

/// Reads length-prefixed raw bytes.
pub open spec fn dec_bytes(b: Seq<u8>) -> Option<(Seq<u8>, Seq<u8>)> {
    match dec_u64(b) {
        Option::None => Option::None,
        Option::Some((n, r)) => if r.len() >= n {
            Option::Some((r.take(n as int), r.skip(n as int)))
        } else {
            Option::None
        },
    }
}

/// Reads length-prefixed UTF-8 text.
pub open spec fn dec_str(b: Seq<u8>) -> Option<(Seq<char>, Seq<u8>)> {
    match dec_bytes(b) {
        Option::None => Option::None,
        Option::Some((bs, r)) => if valid_utf8(bs) {
            Option::Some((decode_utf8(bs), r))
        } else {
            Option::None
        },
    }
}

/// Reads a single flag byte.
pub open spec fn dec_bool(b: Seq<u8>) -> Option<(bool, Seq<u8>)> {
    if b.len() >= 1 && (b[0] == 0u8 || b[0] == 1u8) {
        Option::Some((b[0] == 1u8, b.skip(1)))
    } else {
        Option::None
    }
}

/// Reads exactly `n` strings.
pub open spec fn dec_strs(b: Seq<u8>, n: nat) -> Option<(Seq<Seq<char>>, Seq<u8>)>
    decreases n,
{
    if n == 0 {
        Option::Some((Seq::empty(), b))
    } else {
        match dec_str(b) {
            Option::None => Option::None,
            Option::Some((s, r)) => match dec_strs(r, (n - 1) as nat) {
                Option::None => Option::None,
                Option::Some((ss, r2)) => Option::Some((seq![s] + ss, r2)),
            },
        }
    }
}

/// Reads a count-prefixed string list.
pub open spec fn dec_strlist(b: Seq<u8>) -> Option<(Seq<Seq<char>>, Seq<u8>)> {
    match dec_u64(b) {
        Option::None => Option::None,
        Option::Some((n, r)) => dec_strs(r, n as nat),
    }
}

/// Reads exactly `n` table references.
pub open spec fn dec_refs(b: Seq<u8>, n: nat) -> Option<(Seq<TableRefV>, Seq<u8>)>
    decreases n,
{
    if n == 0 {
        Option::Some((Seq::empty(), b))
    } else {
        match dec_str(b) {
            Option::None => Option::None,
            Option::Some((schema, r)) => match dec_str(r) {
                Option::None => Option::None,
                Option::Some((name, r2)) => match dec_refs(r2, (n - 1) as nat) {
                    Option::None => Option::None,
                    Option::Some((rs, r3)) => Option::Some(
                        (seq![TableRefV { schema, name }] + rs, r3),
                    ),
                },
            },
        }
    }
}

/// Reads a count-prefixed table-reference list.
pub open spec fn dec_reflist(b: Seq<u8>) -> Option<(Seq<TableRefV>, Seq<u8>)> {
    match dec_u64(b) {
        Option::None => Option::None,
        Option::Some((n, r)) => dec_refs(r, n as nat),
    }
}

/// Text whose UTF-8 form is addressable by an eight-byte length.
pub open spec fn str_wf(s: Seq<char>) -> bool {
    encode_utf8(s).len() <= u64::MAX
}

/// A string list whose count and items fit the encoding.
pub open spec fn strs_wf(ss: Seq<Seq<char>>) -> bool {
    ss.len() <= u64::MAX && forall|i: int| 0 <= i < ss.len() ==> str_wf(#[trigger] ss[i])
}

/// A table-reference list whose count and items fit the encoding.
pub open spec fn refs_wf(rs: Seq<TableRefV>) -> bool {
    rs.len() <= u64::MAX && forall|i: int|
        0 <= i < rs.len() ==> str_wf(#[trigger] rs[i].schema) && str_wf(rs[i].name)
}

/// Reading a number from its own encoding yields the number and the rest.
pub proof fn lemma_dec_enc_u64(x: u64, rest: Seq<u8>)
    ensures
        dec_u64(enc_u64(x) + rest) == Option::Some((x, rest)),
{
    lemma_auto_spec_u64_to_from_le_bytes();
    assert((enc_u64(x) + rest).take(8) =~= enc_u64(x));
    assert((enc_u64(x) + rest).skip(8) =~= rest);
}

/// Reading bytes from their own encoding yields the bytes and the rest.
pub proof fn lemma_dec_enc_bytes(bs: Seq<u8>, rest: Seq<u8>)
    requires
        bs.len() <= u64::MAX,
    ensures
        dec_bytes(enc_bytes(bs) + rest) == Option::Some((bs, rest)),
{
    assert(enc_bytes(bs) + rest =~= enc_u64(bs.len() as u64) + (bs + rest));
    lemma_dec_enc_u64(bs.len() as u64, bs + rest);
    assert((bs + rest).take(bs.len() as int) =~= bs);
    assert((bs + rest).skip(bs.len() as int) =~= rest);
}

/// Reading text from its own encoding yields the text and the rest.
pub proof fn lemma_dec_enc_str(s: Seq<char>, rest: Seq<u8>)
    requires
        str_wf(s),
    ensures
        dec_str(enc_str(s) + rest) == Option::Some((s, rest)),
{
    lemma_dec_enc_bytes(encode_utf8(s), rest);
}

/// Reading a flag from its own encoding yields the flag and the rest.
pub proof fn lemma_dec_enc_bool(v: bool, rest: Seq<u8>)
    ensures
        dec_bool(enc_bool(v) + rest) == Option::Some((v, rest)),
{
    assert((enc_bool(v) + rest).skip(1) =~= rest);
}

/// Reading a string list from its own encoding yields the list and the rest.
pub proof fn lemma_dec_enc_strs(ss: Seq<Seq<char>>, rest: Seq<u8>)
    requires
        strs_wf(ss),
    ensures
        dec_strs(enc_strs_items(ss) + rest, ss.len()) == Option::Some((ss, rest)),
    decreases ss.len(),
{
    if ss.len() == 0 {
        assert(enc_strs_items(ss) + rest =~= rest);
    } else {
        let tail = ss.drop_first();
        assert(enc_strs_items(ss) + rest =~= enc_str(ss[0]) + (enc_strs_items(tail) + rest));
        lemma_dec_enc_str(ss[0], enc_strs_items(tail) + rest);
        assert(strs_wf(tail)) by {
            assert(forall|i: int| 0 <= i < tail.len() ==> #[trigger] tail[i] == ss[i + 1]);
        }
        lemma_dec_enc_strs(tail, rest);
        assert(seq![ss[0]] + tail =~= ss);
    }
}

/// Reading a count-prefixed string list from its own encoding.
pub proof fn lemma_dec_enc_strlist(ss: Seq<Seq<char>>, rest: Seq<u8>)
    requires
        strs_wf(ss),
    ensures
        dec_strlist(enc_strlist(ss) + rest) == Option::Some((ss, rest)),
{
    assert(enc_strlist(ss) + rest =~= enc_u64(ss.len() as u64) + (enc_strs_items(ss) + rest));
    lemma_dec_enc_u64(ss.len() as u64, enc_strs_items(ss) + rest);
    lemma_dec_enc_strs(ss, rest);
}

/// Reading a table-reference list from its own encoding.
pub proof fn lemma_dec_enc_refs(rs: Seq<TableRefV>, rest: Seq<u8>)
    requires
        refs_wf(rs),
    ensures
        dec_refs(enc_refs_items(rs) + rest, rs.len()) == Option::Some((rs, rest)),
    decreases rs.len(),
{
    if rs.len() == 0 {
        assert(enc_refs_items(rs) + rest =~= rest);
    } else {
        let tail = rs.drop_first();
        assert(enc_refs_items(rs) + rest =~= enc_str(rs[0].schema) + (enc_str(rs[0].name)
            + (enc_refs_items(tail) + rest)));
        lemma_dec_enc_str(rs[0].schema, enc_str(rs[0].name) + (enc_refs_items(tail) + rest));
        lemma_dec_enc_str(rs[0].name, enc_refs_items(tail) + rest);
        assert(refs_wf(tail)) by {
            assert(forall|i: int| 0 <= i < tail.len() ==> #[trigger] tail[i] == rs[i + 1]);
        }
        lemma_dec_enc_refs(tail, rest);
        assert(seq![TableRefV { schema: rs[0].schema, name: rs[0].name }] + tail =~= rs);
    }
}

/// Reading a count-prefixed table-reference list from its own encoding.
pub proof fn lemma_dec_enc_reflist(rs: Seq<TableRefV>, rest: Seq<u8>)
    requires
        refs_wf(rs),
    ensures
        dec_reflist(enc_reflist(rs) + rest) == Option::Some((rs, rest)),
{
    assert(enc_reflist(rs) + rest =~= enc_u64(rs.len() as u64) + (enc_refs_items(rs) + rest));
    lemma_dec_enc_u64(rs.len() as u64, enc_refs_items(rs) + rest);
    lemma_dec_enc_refs(rs, rest);
}

/// Encoding of a source-query description.
pub open spec fn enc_source(q: SourceQueryV) -> Seq<u8> {
    match q {
        SourceQueryV::ScanStar { table } => seq![1u8] + enc_strlist(table),
        SourceQueryV::Unsupported { display } => seq![2u8] + enc_str(display),
    }
}

/// Encoding of an alter-table operation.
pub open spec fn enc_op(op: AlterTableOperationV) -> Seq<u8> {
    match op {
        AlterTableOperationV::RenameTable { new_name } => seq![1u8] + enc_str(new_name),
    }
}

/// The tag byte naming a node kind.
pub open spec fn ddl_tag(d: DdlView) -> u8 {
    match d {
        DdlView::CreateTable { .. } => 1u8,
        DdlView::CreateExternalTable { .. } => 2u8,
        DdlView::CreateTableAs { .. } => 3u8,
        DdlView::CreateSchema { .. } => 4u8,
        DdlView::DropTables { .. } => 5u8,
        DdlView::DropSchemas { .. } => 6u8,
        DdlView::AlterTable { .. } => 7u8,
        DdlView::DropCredentials { .. } => 8u8,
    }
}

/// The full, self-describing encoding of an extension node.
pub open spec fn encode_ddl(d: DdlView) -> Seq<u8> {
    seq![ddl_tag(d)] + match d {
        DdlView::CreateTable { schema, name, columns } => enc_str(schema) + enc_str(name)
            + enc_strlist(columns),
        DdlView::CreateExternalTable { schema, name } => enc_str(schema) + enc_str(name),
        DdlView::CreateTableAs { schema, name, source, columns } => enc_str(schema) + enc_str(
            name,
        ) + enc_source(source) + enc_strlist(columns),
        DdlView::CreateSchema { name } => enc_str(name),
        DdlView::DropTables { references, if_exists } => enc_reflist(references) + enc_bool(
            if_exists,
        ),
        DdlView::DropSchemas { names, if_exists } => enc_strlist(names) + enc_bool(if_exists),
        DdlView::AlterTable { schema, name, operation } => enc_str(schema) + enc_str(name)
            + enc_op(operation),
        DdlView::DropCredentials { names, if_exists } => enc_strlist(names) + enc_bool(if_exists),
    }
}

/// Reads a source-query description.
pub open spec fn dec_source(b: Seq<u8>) -> Option<(SourceQueryV, Seq<u8>)> {
    if b.len() == 0 {
        Option::None
    } else if b[0] == 1u8 {
        match dec_strlist(b.drop_first()) {
            Option::None => Option::None,
            Option::Some((table, r)) => Option::Some((SourceQueryV::ScanStar { table }, r)),
        }
    } else if b[0] == 2u8 {
        match dec_str(b.drop_first()) {
            Option::None => Option::None,
            Option::Some((display, r)) => Option::Some((SourceQueryV::Unsupported { display }, r)),
        }
    } else {
        Option::None
    }
}

/// Reads an alter-table operation.
pub open spec fn dec_op(b: Seq<u8>) -> Option<(AlterTableOperationV, Seq<u8>)> {
    if b.len() == 0 || b[0] != 1u8 {
        Option::None
    } else {
        match dec_str(b.drop_first()) {
            Option::None => Option::None,
            Option::Some((new_name, r)) => Option::Some(
                (AlterTableOperationV::RenameTable { new_name }, r),
            ),
        }
    }
}

/// Reads the payload of the node kind named by `t`.
pub open spec fn dec_variant(t: u8, b: Seq<u8>) -> Option<(DdlView, Seq<u8>)> {
    if t == 1u8 {
        match dec_str(b) {
            Option::None => Option::None,
            Option::Some((schema, r)) => match dec_str(r) {
                Option::None => Option::None,
                Option::Some((name, r2)) => match dec_strlist(r2) {
                    Option::None => Option::None,
                    Option::Some((columns, r3)) => Option::Some(
                        (DdlView::CreateTable { schema, name, columns }, r3),
                    ),
                },
            },
        }
    } else if t == 2u8 {
        match dec_str(b) {
            Option::None => Option::None,
            Option::Some((schema, r)) => match dec_str(r) {
                Option::None => Option::None,
                Option::Some((name, r2)) => Option::Some(
                    (DdlView::CreateExternalTable { schema, name }, r2),
                ),
            },
        }
    } else if t == 3u8 {
        match dec_str(b) {
            Option::None => Option::None,
            Option::Some((schema, r)) => match dec_str(r) {
                Option::None => Option::None,
                Option::Some((name, r2)) => match dec_source(r2) {
                    Option::None => Option::None,
                    Option::Some((source, r3)) => match dec_strlist(r3) {
                        Option::None => Option::None,
                        Option::Some((columns, r4)) => Option::Some(
                            (DdlView::CreateTableAs { schema, name, source, columns }, r4),
                        ),
                    },
                },
            },
        }
    } else if t == 4u8 {
        match dec_str(b) {
            Option::None => Option::None,
            Option::Some((name, r)) => Option::Some((DdlView::CreateSchema { name }, r)),
        }
    } else if t == 5u8 {
        match dec_reflist(b) {
            Option::None => Option::None,
            Option::Some((references, r)) => match dec_bool(r) {
                Option::None => Option::None,
                Option::Some((if_exists, r2)) => Option::Some(
                    (DdlView::DropTables { references, if_exists }, r2),
                ),
            },
        }
    } else if t == 6u8 {
        match dec_strlist(b) {
            Option::None => Option::None,
            Option::Some((names, r)) => match dec_bool(r) {
                Option::None => Option::None,
                Option::Some((if_exists, r2)) => Option::Some(
                    (DdlView::DropSchemas { names, if_exists }, r2),
                ),
            },
        }
    } else if t == 7u8 {
        match dec_str(b) {
            Option::None => Option::None,
            Option::Some((schema, r)) => match dec_str(r) {
                Option::None => Option::None,
                Option::Some((name, r2)) => match dec_op(r2) {
                    Option::None => Option::None,
                    Option::Some((operation, r3)) => Option::Some(
                        (DdlView::AlterTable { schema, name, operation }, r3),
                    ),
                },
            },
        }
    } else if t == 8u8 {
        match dec_strlist(b) {
            Option::None => Option::None,
            Option::Some((names, r)) => match dec_bool(r) {
                Option::None => Option::None,
                Option::Some((if_exists, r2)) => Option::Some(
                    (DdlView::DropCredentials { names, if_exists }, r2),
                ),
            },
        }
    } else {
        Option::None
    }
}

/// The full decoding of an extension node; the message must be consumed
/// exactly.
pub open spec fn decode_ddl(b: Seq<u8>) -> Option<DdlView> {
    if b.len() == 0 {
        Option::None
    } else {
        match dec_variant(b[0], b.drop_first()) {
            Option::None => Option::None,
            Option::Some((d, r)) => if r.len() == 0 {
                Option::Some(d)
            } else {
                Option::None
            },
        }
    }
}

/// A source description whose parts fit the encoding.
pub open spec fn source_wf(q: SourceQueryV) -> bool {
    match q {
        SourceQueryV::ScanStar { table } => strs_wf(table),
        SourceQueryV::Unsupported { display } => str_wf(display),
    }
}

/// An extension node whose parts fit the encoding.  Every node held in
/// memory satisfies this: each bound is a length below `u64::MAX`.
pub open spec fn ddl_wf(d: DdlView) -> bool {
    match d {
        DdlView::CreateTable { schema, name, columns } => str_wf(schema) && str_wf(name)
            && strs_wf(columns),
        DdlView::CreateExternalTable { schema, name } => str_wf(schema) && str_wf(name),
        DdlView::CreateTableAs { schema, name, source, columns } => str_wf(schema) && str_wf(
            name,
        ) && source_wf(source) && strs_wf(columns),
        DdlView::CreateSchema { name } => str_wf(name),
        DdlView::DropTables { references, if_exists } => refs_wf(references),
        DdlView::DropSchemas { names, if_exists } => strs_wf(names),
        DdlView::AlterTable { schema, name, operation } => str_wf(schema) && str_wf(name)
            && (match operation {
            AlterTableOperationV::RenameTable { new_name } => str_wf(new_name),
        }),
        DdlView::DropCredentials { names, if_exists } => strs_wf(names),
    }
}

/// Reading a source description from its own encoding.
pub proof fn lemma_dec_enc_source(q: SourceQueryV, rest: Seq<u8>)
    requires
        source_wf(q),
    ensures
        dec_source(enc_source(q) + rest) == Option::Some((q, rest)),
{
    match q {
        SourceQueryV::ScanStar { table } => {
            assert(enc_source(q) + rest =~= seq![1u8] + (enc_strlist(table) + rest));
            assert((seq![1u8] + (enc_strlist(table) + rest)).drop_first() =~= enc_strlist(table)
                + rest);
            lemma_dec_enc_strlist(table, rest);
        },
        SourceQueryV::Unsupported { display } => {
            assert(enc_source(q) + rest =~= seq![2u8] + (enc_str(display) + rest));
            assert((seq![2u8] + (enc_str(display) + rest)).drop_first() =~= enc_str(display)
                + rest);
            lemma_dec_enc_str(display, rest);
        },
    }
}

/// Reading an alter-table operation from its own encoding.
pub proof fn lemma_dec_enc_op(op: AlterTableOperationV, rest: Seq<u8>)
    requires
        match op {
            AlterTableOperationV::RenameTable { new_name } => str_wf(new_name),
        },
    ensures
        dec_op(enc_op(op) + rest) == Option::Some((op, rest)),
{
    match op {
        AlterTableOperationV::RenameTable { new_name } => {
            assert(enc_op(op) + rest =~= seq![1u8] + (enc_str(new_name) + rest));
            assert((seq![1u8] + (enc_str(new_name) + rest)).drop_first() =~= enc_str(new_name)
                + rest);
            lemma_dec_enc_str(new_name, rest);
        },
    }
}

/// Decoding inverts encoding: every well-formed extension node survives the
/// round trip through its byte encoding without loss.
#[verifier::rlimit(100)]
#[verifier::spinoff_prover]
pub proof fn lemma_extension_roundtrip(d: DdlView)
    requires
        ddl_wf(d),
    ensures
        decode_ddl(encode_ddl(d)) == Option::Some(d),
{
    let b = encode_ddl(d);
    assert(b[0] == ddl_tag(d));
    match d {
        DdlView::CreateTable { schema, name, columns } => {
            assert(b.drop_first() =~= enc_str(schema) + (enc_str(name) + (enc_strlist(columns)
                + Seq::<u8>::empty())));
            lemma_dec_enc_str(schema, enc_str(name) + (enc_strlist(columns) + Seq::<u8>::empty()));
            lemma_dec_enc_str(name, enc_strlist(columns) + Seq::<u8>::empty());
            lemma_dec_enc_strlist(columns, Seq::<u8>::empty());
        },
        DdlView::CreateExternalTable { schema, name } => {
            assert(b.drop_first() =~= enc_str(schema) + (enc_str(name) + Seq::<u8>::empty()));
            lemma_dec_enc_str(schema, enc_str(name) + Seq::<u8>::empty());
            lemma_dec_enc_str(name, Seq::<u8>::empty());
        },
        DdlView::CreateTableAs { schema, name, source, columns } => {
            assert(b.drop_first() =~= enc_str(schema) + (enc_str(name) + (enc_source(source)
                + (enc_strlist(columns) + Seq::<u8>::empty()))));
            lemma_dec_enc_str(
                schema,
                enc_str(name) + (enc_source(source) + (enc_strlist(columns) + Seq::<u8>::empty())),
            );
            lemma_dec_enc_str(
                name,
                enc_source(source) + (enc_strlist(columns) + Seq::<u8>::empty()),
            );
            lemma_dec_enc_source(source, enc_strlist(columns) + Seq::<u8>::empty());
            lemma_dec_enc_strlist(columns, Seq::<u8>::empty());
        },
        DdlView::CreateSchema { name } => {
            assert(b.drop_first() =~= enc_str(name) + Seq::<u8>::empty());
            lemma_dec_enc_str(name, Seq::<u8>::empty());
        },
        DdlView::DropTables { references, if_exists } => {
            assert(b.drop_first() =~= enc_reflist(references) + (enc_bool(if_exists)
                + Seq::<u8>::empty()));
            lemma_dec_enc_reflist(references, enc_bool(if_exists) + Seq::<u8>::empty());
            lemma_dec_enc_bool(if_exists, Seq::<u8>::empty());
        },
        DdlView::DropSchemas { names, if_exists } => {
            assert(b.drop_first() =~= enc_strlist(names) + (enc_bool(if_exists)
                + Seq::<u8>::empty()));
            lemma_dec_enc_strlist(names, enc_bool(if_exists) + Seq::<u8>::empty());
            lemma_dec_enc_bool(if_exists, Seq::<u8>::empty());
        },
        DdlView::AlterTable { schema, name, operation } => {
            assert(b.drop_first() =~= enc_str(schema) + (enc_str(name) + (enc_op(operation)
                + Seq::<u8>::empty())));
            lemma_dec_enc_str(schema, enc_str(name) + (enc_op(operation) + Seq::<u8>::empty()));
            lemma_dec_enc_str(name, enc_op(operation) + Seq::<u8>::empty());
            lemma_dec_enc_op(operation, Seq::<u8>::empty());
        },
        DdlView::DropCredentials { names, if_exists } => {
            assert(b.drop_first() =~= enc_strlist(names) + (enc_bool(if_exists)
                + Seq::<u8>::empty()));
            lemma_dec_enc_strlist(names, enc_bool(if_exists) + Seq::<u8>::empty());
            lemma_dec_enc_bool(if_exists, Seq::<u8>::empty());
        },
    }
}

/// Appends the eight-byte little-endian form of `x`.
fn push_u64(x: u64, out: &mut Vec<u8>)
    ensures
        final(out)@ == old(out)@ + enc_u64(x),
{
    let mut b = u64_to_le_bytes(x);
    out.append(&mut b);
}

/// Appends the length-prefixed UTF-8 form of `s`.
fn push_str_enc(s: &str, out: &mut Vec<u8>)
    ensures
        final(out)@ == old(out)@ + enc_str(s@),
{
    let bs = s.as_bytes();
    push_u64(bs.len() as u64, out);
    let mut v = slice_to_vec(bs);
    out.append(&mut v);
    proof {
        assert(out@ =~= old(out)@ + enc_str(s@));
    }
}

/// Appends the flag byte for `v`.
fn push_bool(v: bool, out: &mut Vec<u8>)
    ensures
        final(out)@ == old(out)@ + enc_bool(v),
{
    if v {
        out.push(1u8);
    } else {
        out.push(0u8);
    }
    proof {
        assert(out@ =~= old(out)@ + enc_bool(v));
    }
}

/// Appends the encodings of the strings from index `i` on.
fn push_strs_from(v: &Vec<String>, i: usize, out: &mut Vec<u8>)
    requires
        i <= v.len(),
    ensures
        final(out)@ == old(out)@ + enc_strs_items(v.deep_view().skip(i as int)),
    decreases v.len() - i,
{
    if i < v.len() {
        push_str_enc(v[i].as_str(), out);
        push_strs_from(v, i + 1, out);
        proof {
            let ss = v.deep_view();
            assert(ss.skip(i as int)[0] == ss[i as int]);
            assert(ss.skip(i as int).drop_first() =~= ss.skip(i as int + 1));
            assert(out@ =~= old(out)@ + enc_strs_items(ss.skip(i as int)));
        }
    } else {
        proof {
            assert(v.deep_view().skip(i as int) =~= Seq::<Seq<char>>::empty());
        }
    }
}

/// Appends the count-prefixed encoding of a string list.
fn push_strlist(v: &Vec<String>, out: &mut Vec<u8>)
    ensures
        final(out)@ == old(out)@ + enc_strlist(v.deep_view()),
{
    push_u64(v.len() as u64, out);
    push_strs_from(v, 0, out);
    proof {
        assert(v.deep_view().skip(0) =~= v.deep_view());
        assert(out@ =~= old(out)@ + enc_strlist(v.deep_view()));
    }
}

/// The view of a table-reference list.
pub open spec fn refs_view(v: Vec<TableRef>) -> Seq<TableRefV> {
    v@.map_values(|r: TableRef| r@)
}

/// Appends the encodings of the table references from index `i` on.
fn push_refs_from(v: &Vec<TableRef>, i: usize, out: &mut Vec<u8>)
    requires
        i <= v.len(),
    ensures
        final(out)@ == old(out)@ + enc_refs_items(refs_view(*v).skip(i as int)),
    decreases v.len() - i,
{
    if i < v.len() {
        push_str_enc(v[i].schema.as_str(), out);
        push_str_enc(v[i].name.as_str(), out);
        push_refs_from(v, i + 1, out);
        proof {
            let rs = refs_view(*v);
            assert(rs.skip(i as int)[0] == rs[i as int]);
            assert(rs.skip(i as int).drop_first() =~= rs.skip(i as int + 1));
            assert(out@ =~= old(out)@ + enc_refs_items(rs.skip(i as int)));
        }
    } else {
        proof {
            assert(refs_view(*v).skip(i as int) =~= Seq::<TableRefV>::empty());
        }
    }
}

/// Appends the count-prefixed encoding of a table-reference list.
fn push_reflist(v: &Vec<TableRef>, out: &mut Vec<u8>)
    ensures
        final(out)@ == old(out)@ + enc_reflist(refs_view(*v)),
{
    push_u64(v.len() as u64, out);
    push_refs_from(v, 0, out);
    proof {
        assert(refs_view(*v).skip(0) =~= refs_view(*v));
        assert(out@ =~= old(out)@ + enc_reflist(refs_view(*v)));
    }
}

/// Appends the encoding of a source-query description.
fn push_source(q: &SourceQuery, out: &mut Vec<u8>)
    ensures
        final(out)@ == old(out)@ + enc_source(q@),
{
    match q {
        SourceQuery::ScanStar { table } => {
            out.push(1u8);
            push_strlist(table, out);
        },
        SourceQuery::Unsupported { display } => {
            out.push(2u8);
            push_str_enc(display.as_str(), out);
        },
    }
    proof {
        assert(out@ =~= old(out)@ + enc_source(q@));
    }
}

impl DdlPlan {
    /// Serializes this node into a self-describing wire message tagged with
    /// the node's kind.
    #[verifier::rlimit(100)]
    #[verifier::spinoff_prover]
    pub fn try_encode(&self) -> (r: Vec<u8>)
        ensures
            r@ == encode_ddl(self@),
    {
        let mut out: Vec<u8> = Vec::new();
        match self {
            DdlPlan::CreateTable { reference, columns } => {
                out.push(1u8);
                push_str_enc(reference.schema.as_str(), &mut out);
                push_str_enc(reference.name.as_str(), &mut out);
                push_strlist(columns, &mut out);
            },
            DdlPlan::CreateExternalTable { reference } => {
                out.push(2u8);
                push_str_enc(reference.schema.as_str(), &mut out);
                push_str_enc(reference.name.as_str(), &mut out);
            },
            DdlPlan::CreateTableAs { reference, source, columns } => {
                out.push(3u8);
                push_str_enc(reference.schema.as_str(), &mut out);
                push_str_enc(reference.name.as_str(), &mut out);
                push_source(source, &mut out);
                push_strlist(columns, &mut out);
            },
            DdlPlan::CreateSchema { name } => {
                out.push(4u8);
                push_str_enc(name.as_str(), &mut out);
            },
            DdlPlan::DropTables { references, if_exists } => {
                out.push(5u8);
                push_reflist(references, &mut out);
                push_bool(*if_exists, &mut out);
            },
            DdlPlan::DropSchemas { names, if_exists } => {
                out.push(6u8);
                push_strlist(names, &mut out);
                push_bool(*if_exists, &mut out);
            },
            DdlPlan::AlterTable { schema, name, operation } => {
                out.push(7u8);
                push_str_enc(schema.as_str(), &mut out);
                push_str_enc(name.as_str(), &mut out);
                match operation {
                    AlterTableOperation::RenameTable { new_name } => {
                        out.push(1u8);
                        push_str_enc(new_name.as_str(), &mut out);
                    },
                }
            },
            DdlPlan::DropCredentials(dc) => {
                out.push(8u8);
                push_strlist(&dc.names, &mut out);
                push_bool(dc.if_exists, &mut out);
            },
        }
        proof {
            assert(out@ =~= encode_ddl(self@));
        }
        out
    }
}

/// Reads an eight-byte count or length at `pos`.
fn read_u64(bytes: &Vec<u8>, pos: usize) -> (r: Option<(u64, usize)>)
    requires
        pos <= bytes@.len(),
    ensures
        r matches Some(p) ==> dec_u64(bytes@.skip(pos as int)) == Some(
            (p.0, bytes@.skip(p.1 as int)),
        ),
        r matches Some(p) ==> pos <= p.1 <= bytes@.len(),
        r is None ==> dec_u64(bytes@.skip(pos as int)) is None,
{
    if bytes.len() - pos >= 8 {
        let s = slice_subrange(bytes.as_slice(), pos, pos + 8);
        let x = u64_from_le_bytes(s);
        proof {
            assert(s@ =~= bytes@.skip(pos as int).take(8));
            assert(bytes@.skip(pos as int).skip(8) =~= bytes@.skip(pos as int + 8));
        }
        Some((x, pos + 8))
    } else {
        None
    }
}

/// Reads a length-prefixed run of raw bytes at `pos`.
fn read_bytes_vec(bytes: &Vec<u8>, pos: usize) -> (r: Option<(Vec<u8>, usize)>)
    requires
        pos <= bytes@.len(),
    ensures
        r matches Some(p) ==> dec_bytes(bytes@.skip(pos as int)) == Some(
            (p.0@, bytes@.skip(p.1 as int)),
        ),
        r matches Some(p) ==> pos <= p.1 <= bytes@.len(),
        r is None ==> dec_bytes(bytes@.skip(pos as int)) is None,
{
    match read_u64(bytes, pos) {
        None => None,
        Some((n, p1)) => {
            if n <= (bytes.len() - p1) as u64 {
                let m = n as usize;
                let s = slice_subrange(bytes.as_slice(), p1, p1 + m);
                let v = slice_to_vec(s);
                proof {
                    assert(s@ =~= bytes@.skip(p1 as int).take(n as int));
                    assert(bytes@.skip(p1 as int).skip(n as int) =~= bytes@.skip(
                        p1 as int + n as int,
                    ));
                }
                Some((v, p1 + m))
            } else {
                proof {
                    assert(bytes@.skip(p1 as int).len() < n);
                }
                None
            }
        },
    }
}

/// Reads a length-prefixed string at `pos`.
fn read_string(bytes: &Vec<u8>, pos: usize) -> (r: Option<(String, usize)>)
    requires
        pos <= bytes@.len(),
    ensures
        r matches Some(p) ==> dec_str(bytes@.skip(pos as int)) == Some(
            (p.0@, bytes@.skip(p.1 as int)),
        ),
        r matches Some(p) ==> pos <= p.1 <= bytes@.len(),
        r is None ==> dec_str(bytes@.skip(pos as int)) is None,
{
    match read_bytes_vec(bytes, pos) {
        None => None,
        Some((v, p1)) => {
            let ghost bs = v@;
            match String::from_utf8(v) {
                Ok(s) => Some((s, p1)),
                Err(_) => None,
            }
        },
    }
}

/// Reads a flag byte at `pos`.
fn read_bool(bytes: &Vec<u8>, pos: usize) -> (r: Option<(bool, usize)>)
    requires
        pos <= bytes@.len(),
    ensures
        r matches Some(p) ==> dec_bool(bytes@.skip(pos as int)) == Some(
            (p.0, bytes@.skip(p.1 as int)),
        ),
        r matches Some(p) ==> pos <= p.1 <= bytes@.len(),
        r is None ==> dec_bool(bytes@.skip(pos as int)) is None,
{
    if pos < bytes.len() {
        let x = bytes[pos];
        proof {
            assert(bytes@.skip(pos as int)[0] == bytes@[pos as int]);
            assert(bytes@.skip(pos as int).skip(1) =~= bytes@.skip(pos as int + 1));
        }
        if x == 1 {
            Some((true, pos + 1))
        } else if x == 0 {
            Some((false, pos + 1))
        } else {
            None
        }
    } else {
        None
    }
}

/// Reads exactly `n` strings starting at `pos`.
fn read_strs(bytes: &Vec<u8>, pos: usize, n: u64) -> (r: Option<(Vec<String>, usize)>)
    requires
        pos <= bytes@.len(),
    ensures
        r matches Some(p) ==> dec_strs(bytes@.skip(pos as int), n as nat) == Some(
            (p.0.deep_view(), bytes@.skip(p.1 as int)),
        ),
        r matches Some(p) ==> pos <= p.1 <= bytes@.len(),
        r is None ==> dec_strs(bytes@.skip(pos as int), n as nat) is None,
    decreases n,
{
    if n == 0 {
        let v: Vec<String> = Vec::new();
        proof {
            assert(v.deep_view() =~= Seq::<Seq<char>>::empty());
        }
        Some((v, pos))
    } else {
        match read_string(bytes, pos) {
            None => None,
            Some((s, p1)) => match read_strs(bytes, p1, n - 1) {
                None => None,
                Some((mut v, p2)) => {
                    let ghost pre = v.deep_view();
                    v.insert(0, s);
                    proof {
                        assert(v.deep_view() =~= seq![s@] + pre);
                    }
                    Some((v, p2))
                },
            },
        }
    }
}

/// Reads a count-prefixed string list at `pos`.
fn read_strlist(bytes: &Vec<u8>, pos: usize) -> (r: Option<(Vec<String>, usize)>)
    requires
        pos <= bytes@.len(),
    ensures
        r matches Some(p) ==> dec_strlist(bytes@.skip(pos as int)) == Some(
            (p.0.deep_view(), bytes@.skip(p.1 as int)),
        ),
        r matches Some(p) ==> pos <= p.1 <= bytes@.len(),
        r is None ==> dec_strlist(bytes@.skip(pos as int)) is None,
{
    match read_u64(bytes, pos) {
        None => None,
        Some((n, p1)) => read_strs(bytes, p1, n),
    }
}

/// Reads exactly `n` table references starting at `pos`.
fn read_refs(bytes: &Vec<u8>, pos: usize, n: u64) -> (r: Option<(Vec<TableRef>, usize)>)
    requires
        pos <= bytes@.len(),
    ensures
        r matches Some(p) ==> dec_refs(bytes@.skip(pos as int), n as nat) == Some(
            (refs_view(p.0), bytes@.skip(p.1 as int)),
        ),
        r matches Some(p) ==> pos <= p.1 <= bytes@.len(),
        r is None ==> dec_refs(bytes@.skip(pos as int), n as nat) is None,
    decreases n,
{
    if n == 0 {
        let v: Vec<TableRef> = Vec::new();
        proof {
            assert(refs_view(v) =~= Seq::<TableRefV>::empty());
        }
        Some((v, pos))
    } else {
        match read_string(bytes, pos) {
            None => None,
            Some((schema, p1)) => match read_string(bytes, p1) {
                None => None,
                Some((name, p2)) => match read_refs(bytes, p2, n - 1) {
                    None => None,
                    Some((mut v, p3)) => {
                        let ghost pre = refs_view(v);
                        let ghost sv = schema@;
                        let ghost nv = name@;
                        v.insert(0, TableRef { schema, name });
                        proof {
                            assert(refs_view(v) =~= seq![TableRefV { schema: sv, name: nv }]
                                + pre);
                        }
                        Some((v, p3))
                    },
                },
            },
        }
    }
}

/// Reads a count-prefixed table-reference list at `pos`.
fn read_reflist(bytes: &Vec<u8>, pos: usize) -> (r: Option<(Vec<TableRef>, usize)>)
    requires
        pos <= bytes@.len(),
    ensures
        r matches Some(p) ==> dec_reflist(bytes@.skip(pos as int)) == Some(
            (refs_view(p.0), bytes@.skip(p.1 as int)),
        ),
        r matches Some(p) ==> pos <= p.1 <= bytes@.len(),
        r is None ==> dec_reflist(bytes@.skip(pos as int)) is None,
{
    match read_u64(bytes, pos) {
        None => None,
        Some((n, p1)) => read_refs(bytes, p1, n),
    }
}

/// Reads a source-query description at `pos`.
fn read_source(bytes: &Vec<u8>, pos: usize) -> (r: Option<(SourceQuery, usize)>)
    requires
        pos <= bytes@.len(),
    ensures
        r matches Some(p) ==> dec_source(bytes@.skip(pos as int)) == Some(
            (p.0@, bytes@.skip(p.1 as int)),
        ),
        r matches Some(p) ==> pos <= p.1 <= bytes@.len(),
        r is None ==> dec_source(bytes@.skip(pos as int)) is None,
{
    if pos < bytes.len() {
        let t = bytes[pos];
        proof {
            assert(bytes@.skip(pos as int)[0] == bytes@[pos as int]);
            assert(bytes@.skip(pos as int).drop_first() =~= bytes@.skip(pos as int + 1));
        }
        if t == 1 {
            match read_strlist(bytes, pos + 1) {
                None => None,
                Some((table, p1)) => Some((SourceQuery::ScanStar { table }, p1)),
            }
        } else if t == 2 {
            match read_string(bytes, pos + 1) {
                None => None,
                Some((display, p1)) => Some((SourceQuery::Unsupported { display }, p1)),
            }
        } else {
            None
        }
    } else {
        None
    }
}

/// Reads an alter-table operation at `pos`.
fn read_op(bytes: &Vec<u8>, pos: usize) -> (r: Option<(AlterTableOperation, usize)>)
    requires
        pos <= bytes@.len(),
    ensures
        r matches Some(p) ==> dec_op(bytes@.skip(pos as int)) == Some(
            (p.0@, bytes@.skip(p.1 as int)),
        ),
        r matches Some(p) ==> pos <= p.1 <= bytes@.len(),
        r is None ==> dec_op(bytes@.skip(pos as int)) is None,
{
    if pos < bytes.len() {
        let t = bytes[pos];
        proof {
            assert(bytes@.skip(pos as int)[0] == bytes@[pos as int]);
            assert(bytes@.skip(pos as int).drop_first() =~= bytes@.skip(pos as int + 1));
        }
        if t == 1 {
            match read_string(bytes, pos + 1) {
                None => None,
                Some((new_name, p1)) => Some((AlterTableOperation::RenameTable { new_name }, p1)),
            }
        } else {
            None
        }
    } else {
        None
    }
}

/// Reads the payload of the node kind named by `t`, starting at `pos`.
#[verifier::rlimit(100)]
#[verifier::spinoff_prover]
fn read_variant(t: u8, bytes: &Vec<u8>, pos: usize) -> (r: Option<(DdlPlan, usize)>)
    requires
        pos <= bytes@.len(),
    ensures
        r matches Some(p) ==> dec_variant(t, bytes@.skip(pos as int)) == Some(
            (p.0@, bytes@.skip(p.1 as int)),
        ),
        r matches Some(p) ==> pos <= p.1 <= bytes@.len(),
        r is None ==> dec_variant(t, bytes@.skip(pos as int)) is None,
{
    if t == 1 {
        match read_string(bytes, pos) {
            None => None,
            Some((schema, p1)) => match read_string(bytes, p1) {
                None => None,
                Some((name, p2)) => match read_strlist(bytes, p2) {
                    None => None,
                    Some((columns, p3)) => Some(
                        (DdlPlan::CreateTable { reference: TableRef { schema, name }, columns }, p3),
                    ),
                },
            },
        }
    } else if t == 2 {
        match read_string(bytes, pos) {
            None => None,
            Some((schema, p1)) => match read_string(bytes, p1) {
                None => None,
                Some((name, p2)) => Some(
                    (DdlPlan::CreateExternalTable { reference: TableRef { schema, name } }, p2),
                ),
            },
        }
    } else if t == 3 {
        match read_string(bytes, pos) {
            None => None,
            Some((schema, p1)) => match read_string(bytes, p1) {
                None => None,
                Some((name, p2)) => match read_source(bytes, p2) {
                    None => None,
                    Some((source, p3)) => match read_strlist(bytes, p3) {
                        None => None,
                        Some((columns, p4)) => Some(
                            (
                                DdlPlan::CreateTableAs {
                                    reference: TableRef { schema, name },
                                    source,
                                    columns,
                                },
                                p4,
                            ),
                        ),
                    },
                },
            },
        }
    } else if t == 4 {
        match read_string(bytes, pos) {
            None => None,
            Some((name, p1)) => Some((DdlPlan::CreateSchema { name }, p1)),
        }
    } else if t == 5 {
        match read_reflist(bytes, pos) {
            None => None,
            Some((references, p1)) => match read_bool(bytes, p1) {
                None => None,
                Some((if_exists, p2)) => Some((DdlPlan::DropTables { references, if_exists }, p2)),
            },
        }
    } else if t == 6 {
        match read_strlist(bytes, pos) {
            None => None,
            Some((names, p1)) => match read_bool(bytes, p1) {
                None => None,
                Some((if_exists, p2)) => Some((DdlPlan::DropSchemas { names, if_exists }, p2)),
            },
        }
    } else if t == 7 {
        match read_string(bytes, pos) {
            None => None,
            Some((schema, p1)) => match read_string(bytes, p1) {
                None => None,
                Some((name, p2)) => match read_op(bytes, p2) {
                    None => None,
                    Some((operation, p3)) => Some(
                        (DdlPlan::AlterTable { schema, name, operation }, p3),
                    ),
                },
            },
        }
    } else if t == 8 {
        match read_strlist(bytes, pos) {
            None => None,
            Some((names, p1)) => match read_bool(bytes, p1) {
                None => None,
                Some((if_exists, p2)) => Some(
                    (DdlPlan::DropCredentials(DropCredentials { names, if_exists }), p2),
                ),
            },
        }
    } else {
        None
    }
}

impl DdlPlan {
    /// Reconstructs an extension node from its wire message; fails with a
    /// decode error on an unknown kind or a malformed or oversized payload.
    pub fn try_decode(bytes: &Vec<u8>) -> (r: Result<DdlPlan, ExecError>)
        ensures
            r matches Ok(d) ==> decode_ddl(bytes@) == Some(d@),
            r is Err ==> decode_ddl(bytes@) is None,
    {
        if bytes.len() == 0 {
            return Err(
                ExecError::Decode { message: String::from_str("empty extension message") },
            );
        }
        let tag = bytes[0];
        proof {
            assert(bytes@.skip(1) =~= bytes@.drop_first());
        }
        match read_variant(tag, bytes, 1) {
            None => Err(
                ExecError::Decode { message: String::from_str("malformed extension payload") },
            ),
            Some((d, p)) => {
                if p == bytes.len() {
                    proof {
                        assert(bytes@.skip(p as int).len() == 0);
                    }
                    Ok(d)
                } else {
                    proof {
                        assert(bytes@.skip(p as int).len() > 0);
                    }
                    Err(
                        ExecError::Decode {
                            message: String::from_str("trailing bytes after extension payload"),
                        },
                    )
                }
            },
        }
    }
}

impl DropCredentials {
    /// Serializes this node as the tagged extension wire message.
    pub fn try_encode(&self) -> (r: Vec<u8>)
        ensures
            r@ == encode_ddl(
                DdlView::DropCredentials {
                    names: self.names.deep_view(),
                    if_exists: self.if_exists,
                },
            ),
    {
        let mut out: Vec<u8> = Vec::new();
        out.push(8u8);
        push_strlist(&self.names, &mut out);
        push_bool(self.if_exists, &mut out);
        proof {
            assert(out@ =~= encode_ddl(
                DdlView::DropCredentials {
                    names: self.names.deep_view(),
                    if_exists: self.if_exists,
                },
            ));
        }
        out
    }

    /// Reconstructs a `DropCredentials` node from a wire message, failing
    /// with a decode error when the message holds another node kind.
    pub fn try_decode(bytes: &Vec<u8>) -> (r: Result<DropCredentials, ExecError>)
        ensures
            r matches Ok(d) ==> decode_ddl(bytes@) == Some(
                DdlView::DropCredentials { names: d.names.deep_view(), if_exists: d.if_exists },
            ),
            r is Err ==> decode_ddl(bytes@) is None || !(decode_ddl(
                bytes@,
            ).unwrap() is DropCredentials),
    {
        match DdlPlan::try_decode(bytes) {
            Ok(DdlPlan::DropCredentials(dc)) => Ok(dc),
            Ok(_) => Err(
                ExecError::Decode { message: String::from_str("extension node kind mismatch") },
            ),
            Err(e) => Err(e),
        }
    }
}

} // verus!
