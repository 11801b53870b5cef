//! Scalar expressions carried by relational operators, and their rendering.

use vstd::prelude::*;
use vstd::string::StringExecFns;

use crate::data::Value;
use crate::numfmt::int_str_of;
use crate::numfmt::dec_str_of;
use crate::numfmt::append_i64;
use crate::numfmt::append_u64;

verus! {

/// A comparison operator inside a predicate.
#[derive(Debug, Clone)]
pub enum CompareOp {
    Eq,
    Lt,
    Gt,
}

/// A scalar expression evaluated per row.
#[derive(Debug)]
pub enum ScalarExpr {
    /// A column referenced by name.
    Column(String),
    /// A constant value.
    Literal(Value),
    /// A comparison between two expressions.
    Compare { left: Box<ScalarExpr>, op: CompareOp, right: Box<ScalarExpr> },
}

/// Textual form of a constant.
pub open spec fn value_seq(v: Value) -> Seq<char> {
    match v {
        Value::Null => "NULL"@,
        Value::Boolean(b) => if b {
            "true"@
        } else {
            "false"@
        },
        Value::Integer(i) => int_str_of(i as int),
        Value::Unsigned(u) => dec_str_of(u as nat),
        Value::Text(s) => "'"@ + s@ + "'"@,
    }
}

/// Textual form of a comparison operator.
pub open spec fn compare_op_seq(op: CompareOp) -> Seq<char> {
    match op {
        CompareOp::Eq => "="@,
        CompareOp::Lt => "<"@,
        CompareOp::Gt => ">"@,
    }
}

/// Textual form of an expression.
pub open spec fn expr_seq(e: ScalarExpr) -> Seq<char>
    decreases e,
{
    match e {
        ScalarExpr::Column(name) => name@,
        ScalarExpr::Literal(v) => value_seq(v),
        ScalarExpr::Compare { left, op, right } => expr_seq(*left) + " "@ + compare_op_seq(op)
            + " "@ + expr_seq(*right),
    }
}

/// Comma-joined textual form of the expressions from index `i` on.
pub open spec fn exprs_from_seq(es: Seq<ScalarExpr>, i: int) -> Seq<char>
    decreases es.len() - i,
{
    if i < 0 || i >= es.len() {
        Seq::empty()
    } else if i == es.len() - 1 {
        expr_seq(es[i])
    } else {
        expr_seq(es[i]) + ", "@ + exprs_from_seq(es, i + 1)
    }
}

/// Bracketed, comma-joined textual form of a list of expressions.
pub open spec fn exprs_list_seq(es: Seq<ScalarExpr>) -> Seq<char> {
    "["@ + exprs_from_seq(es, 0) + "]"@
}

/// Appends the rendering of a constant.
pub fn append_value(v: &Value, out: &mut String)
    ensures
        final(out)@ == old(out)@ + value_seq(*v),
{
    match v {
        Value::Null => {
            proof {
                reveal_strlit("NULL");
            }
            out.append("NULL");
        },
        Value::Boolean(b) => {
            proof {
                reveal_strlit("true");
                reveal_strlit("false");
            }
            if *b {
                out.append("true");
            } else {
                out.append("false");
            }
        },
        Value::Integer(i) => {
            append_i64(*i, out);
        },
        Value::Unsigned(u) => {
            append_u64(*u, out);
        },
        Value::Text(s) => {
            proof {
                reveal_strlit("'");
            }
            out.append("'");
            out.append(s.as_str());
            out.append("'");
            proof {
                assert(out@ =~= old(out)@ + value_seq(*v));
            }
        },
    }
}

/// Appends the rendering of an expression.
pub fn append_expr(e: &ScalarExpr, out: &mut String)
    ensures
        final(out)@ == old(out)@ + expr_seq(*e),
    decreases *e,
{
    match e {
        ScalarExpr::Column(name) => {
            out.append(name.as_str());
        },
        ScalarExpr::Literal(v) => {
            append_value(v, out);
        },
        ScalarExpr::Compare { left, op, right } => {
            proof {
                reveal_strlit(" ");
                reveal_strlit("=");
                reveal_strlit("<");
                reveal_strlit(">");
            }
            append_expr(left, out);
            out.append(" ");
            match op {
                CompareOp::Eq => out.append("="),
                CompareOp::Lt => out.append("<"),
                CompareOp::Gt => out.append(">"),
            }
            out.append(" ");
            append_expr(right, out);
            proof {
                assert(out@ =~= old(out)@ + expr_seq(*e));
            }
        },
    }
}

/// Appends the comma-joined renderings of the expressions from index `i` on.
pub fn append_exprs_from(es: &Vec<ScalarExpr>, i: usize, out: &mut String)
    requires
        i <= es.len(),
    ensures
        final(out)@ == old(out)@ + exprs_from_seq(es@, i as int),
    decreases es.len() - i,
{
    if i < es.len() {
        append_expr(&es[i], out);
        if i + 1 < es.len() {
            proof {
                reveal_strlit(", ");
            }
            out.append(", ");
            append_exprs_from(es, i + 1, out);
            proof {
                assert(out@ =~= old(out)@ + exprs_from_seq(es@, i as int));
            }
        }
    }
}

/// Appends the bracketed rendering of a list of expressions.
pub fn append_exprs_list(es: &Vec<ScalarExpr>, out: &mut String)
    ensures
        final(out)@ == old(out)@ + exprs_list_seq(es@),
{
    proof {
        reveal_strlit("[");
        reveal_strlit("]");
    }
    out.append("[");
    append_exprs_from(es, 0, out);
    out.append("]");
    proof {
        assert(out@ =~= old(out)@ + exprs_list_seq(es@));
    }
}

} // verus!
