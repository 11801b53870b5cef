//! Pure-value relational plan tree and its deterministic textual rendering.
//!
//! Each node owns its children outright: there is no sharing and no cycle by
//! construction.  Rendering writes one line per node; children render at one
//! depth more, with a `"| "` indent unit repeated once per ancestor.

use vstd::prelude::*;
use vstd::string::StringExecFns;

use crate::data::RelationSchema;
use crate::data::TableRef;
use crate::expr::ScalarExpr;
use crate::expr::append_expr;
use crate::expr::append_exprs_list;
use crate::expr::expr_seq;
use crate::expr::exprs_list_seq;
use crate::numfmt::append_u64;
use crate::numfmt::dec_str_of;

verus! {

/// A relational query plan node.
#[derive(Debug)]
pub enum RelationalPlan {
    /// Evaluate a predicate on all input rows.
    Filter(Filter),
    /// Project expressions from the input.
    Project(Project),
    /// Join two plan nodes on a condition.
    Join(Join),
    /// Cross join two plan nodes.
    CrossJoin(CrossJoin),
    /// A base table scan.
    Scan(Scan),
    /// Constant values.
    Values(Values),
}

#[derive(Debug)]
pub struct Filter {
    pub predicate: ScalarExpr,
    pub input: Box<RelationalPlan>,
}

#[derive(Debug)]
pub struct Project {
    /// Expressions to evaluate; these may introduce new values.
    pub expressions: Vec<ScalarExpr>,
    pub input: Box<RelationalPlan>,
}

#[derive(Debug)]
pub struct Scan {
    pub table: TableRef,
    /// Schema describing the table with the projection applied.
    pub projected_schema: RelationSchema,
    /// Optional column indices to project.
    pub project: Option<Vec<usize>>,
    /// Optional filters applied during scanning; each returns a boolean
    /// saying whether the row is kept.
    pub filters: Option<Vec<ScalarExpr>>,
}

#[derive(Debug)]
pub struct Values {
    pub schema: RelationSchema,
    pub values: Vec<Vec<ScalarExpr>>,
}

#[derive(Debug)]
pub struct Join {
    pub left: Box<RelationalPlan>,
    pub right: Box<RelationalPlan>,
    pub join_type: JoinType,
    pub operator: JoinOperator,
}

#[derive(Debug, Clone)]
pub enum JoinType {
    Inner,
    Left,
    Right,
}

#[derive(Debug)]
pub enum JoinOperator {
    On(ScalarExpr),
}

#[derive(Debug)]
pub struct CrossJoin {
    pub left: Box<RelationalPlan>,
    pub right: Box<RelationalPlan>,
}

/// Height of a plan tree; a leaf has height 1.
pub open spec fn plan_height(p: RelationalPlan) -> nat
    decreases p,
{
    match p {
        RelationalPlan::Filter(f) => 1 + plan_height(*f.input),
        RelationalPlan::Project(pr) => 1 + plan_height(*pr.input),
        RelationalPlan::Join(j) => 1 + if plan_height(*j.left) >= plan_height(*j.right) {
            plan_height(*j.left)
        } else {
            plan_height(*j.right)
        },
        RelationalPlan::CrossJoin(c) => 1 + if plan_height(*c.left) >= plan_height(*c.right) {
            plan_height(*c.left)
        } else {
            plan_height(*c.right)
        },
        RelationalPlan::Scan(_) => 1,
        RelationalPlan::Values(_) => 1,
    }
}

/// The `"| "` indent unit repeated `k` times.
pub open spec fn indent_seq(k: nat) -> Seq<char>
    decreases k,
{
    if k == 0 {
        Seq::empty()
    } else {
        indent_seq((k - 1) as nat) + "| "@
    }
}

/// Comma-joined decimal rendering of the indices from position `i` on.
pub open spec fn indices_from_seq(ns: Seq<usize>, i: int) -> Seq<char>
    decreases ns.len() - i,
{
    if i < 0 || i >= ns.len() {
        Seq::empty()
    } else if i == ns.len() - 1 {
        dec_str_of(ns[i] as nat)
    } else {
        dec_str_of(ns[i] as nat) + ", "@ + indices_from_seq(ns, i + 1)
    }
}

/// Bracketed rendering of a list of column indices.
pub open spec fn indices_list_seq(ns: Seq<usize>) -> Seq<char> {
    "["@ + indices_from_seq(ns, 0) + "]"@
}

/// The scan projection segment: a list of indices, or `None`.
pub open spec fn opt_indices_seq(p: Option<Vec<usize>>) -> Seq<char> {
    match p {
        Option::Some(ns) => indices_list_seq(ns@),
        Option::None => "None"@,
    }
}

/// The scan filter segment: a list of expressions, or `None`.
pub open spec fn opt_filters_seq(p: Option<Vec<ScalarExpr>>) -> Seq<char> {
    match p {
        Option::Some(es) => exprs_list_seq(es@),
        Option::None => "None"@,
    }
}

/// One line per constant row, each bracketed.
pub open spec fn values_rows_seq(rows: Seq<Vec<ScalarExpr>>, i: int) -> Seq<char>
    decreases rows.len() - i,
{
    if i < 0 || i >= rows.len() {
        Seq::empty()
    } else {
        exprs_list_seq(rows[i]@) + "\n"@ + values_rows_seq(rows, i + 1)
    }
}

/// Textual form of a join type.
pub open spec fn join_type_seq(t: JoinType) -> Seq<char> {
    match t {
        JoinType::Inner => "inner"@,
        JoinType::Left => "left"@,
        JoinType::Right => "right"@,
    }
}

/// The header line of a projection node.
pub open spec fn project_head_seq(pr: Project) -> Seq<char> {
    "Project: projections = "@ + exprs_list_seq(pr.expressions@) + "\n"@
}

/// The header line of a filter node.
pub open spec fn filter_head_seq(f: Filter) -> Seq<char> {
    "Filter: predicate = "@ + expr_seq(f.predicate) + "\n"@
}

/// The header line of a join node.
pub open spec fn join_head_seq(j: Join) -> Seq<char> {
    "Join: type = "@ + join_type_seq(j.join_type) + ", operator = on ("@ + (match j.operator {
        JoinOperator::On(e) => expr_seq(e),
    }) + ")\n"@
}

/// The whole line of a scan node.
pub open spec fn scan_seq(s: Scan) -> Seq<char> {
    "Scan: table = "@ + s.table.schema@ + "."@ + s.table.name@ + ", projection = "@
        + opt_indices_seq(s.project) + ", filters = "@ + opt_filters_seq(s.filters) + "\n"@
}

/// The whole block of a values node.
pub open spec fn values_seq(v: Values) -> Seq<char> {
    "Values: values = [\n"@ + values_rows_seq(v.values@, 0) + "]\n"@
}

/// The full rendering of the node at `depth`, children at `depth + 1`.
pub open spec fn render_node(p: RelationalPlan, depth: nat) -> Seq<char>
    decreases p,
{
    let lead: Seq<char> = if depth > 0 {
        indent_seq((depth - 1) as nat)
    } else {
        Seq::empty()
    };
    lead + match p {
        RelationalPlan::Project(pr) => project_head_seq(pr) + render_node(*pr.input, depth + 1),
        RelationalPlan::Filter(f) => filter_head_seq(f) + render_node(*f.input, depth + 1),
        RelationalPlan::Join(j) => join_head_seq(j) + render_node(*j.left, depth + 1)
            + render_node(*j.right, depth + 1),
        RelationalPlan::CrossJoin(c) => "Cross join:\n"@ + render_node(*c.left, depth + 1)
            + render_node(*c.right, depth + 1),
        RelationalPlan::Scan(s) => scan_seq(s),
        RelationalPlan::Values(v) => values_seq(v),
    }
}

/// Appends the header line of a projection node.
fn append_project_head(pr: &Project, out: &mut String)
    ensures
        final(out)@ == old(out)@ + project_head_seq(*pr),
{
    proof {
        reveal_strlit("Project: projections = ");
        reveal_strlit("\n");
    }
    out.append("Project: projections = ");
    append_exprs_list(&pr.expressions, out);
    out.append("\n");
    proof {
        assert(out@ =~= old(out)@ + project_head_seq(*pr));
    }
}

/// Appends the header line of a filter node.
fn append_filter_head(f: &Filter, out: &mut String)
    ensures
        final(out)@ == old(out)@ + filter_head_seq(*f),
{
    proof {
        reveal_strlit("Filter: predicate = ");
        reveal_strlit("\n");
    }
    out.append("Filter: predicate = ");
    append_expr(&f.predicate, out);
    out.append("\n");
    proof {
        assert(out@ =~= old(out)@ + filter_head_seq(*f));
    }
}

/// Appends the header line of a join node.
fn append_join_head(j: &Join, out: &mut String)
    ensures
        final(out)@ == old(out)@ + join_head_seq(*j),
{
    proof {
        reveal_strlit("Join: type = ");
        reveal_strlit("inner");
        reveal_strlit("left");
        reveal_strlit("right");
        reveal_strlit(", operator = on (");
        reveal_strlit(")\n");
    }
    out.append("Join: type = ");
    match &j.join_type {
        JoinType::Inner => out.append("inner"),
        JoinType::Left => out.append("left"),
        JoinType::Right => out.append("right"),
    }
    out.append(", operator = on (");
    match &j.operator {
        JoinOperator::On(e) => append_expr(e, out),
    }
    out.append(")\n");
    proof {
        assert(out@ =~= old(out)@ + join_head_seq(*j));
    }
}

/// Appends the whole line of a scan node.
fn append_scan(s: &Scan, out: &mut String)
    ensures
        final(out)@ == old(out)@ + scan_seq(*s),
{
    proof {
        reveal_strlit("Scan: table = ");
        reveal_strlit(".");
        reveal_strlit(", projection = ");
        reveal_strlit(", filters = ");
        reveal_strlit("None");
        reveal_strlit("\n");
    }
    out.append("Scan: table = ");
    out.append(s.table.schema.as_str());
    out.append(".");
    out.append(s.table.name.as_str());
    out.append(", projection = ");
    match &s.project {
        Option::Some(ns) => append_indices_list(ns, out),
        Option::None => out.append("None"),
    }
    out.append(", filters = ");
    match &s.filters {
        Option::Some(es) => append_exprs_list(es, out),
        Option::None => out.append("None"),
    }
    out.append("\n");
    proof {
        assert(out@ =~= old(out)@ + scan_seq(*s));
    }
}

/// Appends the whole block of a values node.
fn append_values(v: &Values, out: &mut String)
    ensures
        final(out)@ == old(out)@ + values_seq(*v),
{
    proof {
        reveal_strlit("Values: values = [\n");
        reveal_strlit("]\n");
    }
    out.append("Values: values = [\n");
    append_values_rows(&v.values, 0, out);
    out.append("]\n");
    proof {
        assert(out@ =~= old(out)@ + values_seq(*v));
    }
}

/// Appends `k` copies of the indent unit.
fn append_indent(k: usize, out: &mut String)
    ensures
        final(out)@ == old(out)@ + indent_seq(k as nat),
    decreases k,
{
    if k > 0 {
        append_indent(k - 1, out);
        proof {
            reveal_strlit("| ");
        }
        out.append("| ");
        proof {
            assert(out@ =~= old(out)@ + indent_seq(k as nat));
        }
    }
}

/// Appends the comma-joined indices from position `i` on.
fn append_indices_from(ns: &Vec<usize>, i: usize, out: &mut String)
    requires
        i <= ns.len(),
    ensures
        final(out)@ == old(out)@ + indices_from_seq(ns@, i as int),
    decreases ns.len() - i,
{
    if i < ns.len() {
        append_u64(ns[i] as u64, out);
        if i + 1 < ns.len() {
            proof {
                reveal_strlit(", ");
            }
            out.append(", ");
            append_indices_from(ns, i + 1, out);
            proof {
                assert(out@ =~= old(out)@ + indices_from_seq(ns@, i as int));
            }
        }
    }
}

/// Appends the bracketed list of indices.
fn append_indices_list(ns: &Vec<usize>, out: &mut String)
    ensures
        final(out)@ == old(out)@ + indices_list_seq(ns@),
{
    proof {
        reveal_strlit("[");
        reveal_strlit("]");
    }
    out.append("[");
    append_indices_from(ns, 0, out);
    out.append("]");
    proof {
        assert(out@ =~= old(out)@ + indices_list_seq(ns@));
    }
}

/// Appends one bracketed line per constant row, from row `i` on.
fn append_values_rows(rows: &Vec<Vec<ScalarExpr>>, i: usize, out: &mut String)
    requires
        i <= rows.len(),
    ensures
        final(out)@ == old(out)@ + values_rows_seq(rows@, i as int),
    decreases rows.len() - i,
{
    if i < rows.len() {
        append_exprs_list(&rows[i], out);
        proof {
            reveal_strlit("\n");
        }
        out.append("\n");
        append_values_rows(rows, i + 1, out);
        proof {
            assert(out@ =~= old(out)@ + values_rows_seq(rows@, i as int));
        }
    }
}

impl RelationalPlan {
    /// Renders the whole tree, starting at depth 0.
    ///
    /// The result is a function of the tree alone, so rendering the same
    /// tree twice yields identical output.
    pub fn render(&self) -> (r: String)
        requires
            plan_height(*self) <= usize::MAX,
        ensures
            r@ == render_node(*self, 0),
    {
        let mut out = String::new();
        self.render_into(0, &mut out);
        out
    }

    /// Appends the rendering of this node at `depth`.
    #[verifier::rlimit(100)]
    #[verifier::spinoff_prover]
    fn render_into(&self, depth: usize, out: &mut String)
        requires
            depth + plan_height(*self) <= usize::MAX,
        ensures
            final(out)@ == old(out)@ + render_node(*self, depth as nat),
        decreases *self,
    {
        if depth > 0 {
            append_indent(depth - 1, out);
        }
        match self {
            RelationalPlan::Project(pr) => {
                append_project_head(pr, out);
                pr.input.render_into(depth + 1, out);
                proof {
                    assert(out@ =~= old(out)@ + render_node(*self, depth as nat));
                }
            },
            RelationalPlan::Filter(f) => {
                append_filter_head(f, out);
                f.input.render_into(depth + 1, out);
                proof {
                    assert(out@ =~= old(out)@ + render_node(*self, depth as nat));
                }
            },
            RelationalPlan::Join(j) => {
                append_join_head(j, out);
                j.left.render_into(depth + 1, out);
                j.right.render_into(depth + 1, out);
                proof {
                    assert(out@ =~= old(out)@ + render_node(*self, depth as nat));
                }
            },
            RelationalPlan::CrossJoin(c) => {
                proof {
                    reveal_strlit("Cross join:\n");
                }
                out.append("Cross join:\n");
                c.left.render_into(depth + 1, out);
                c.right.render_into(depth + 1, out);
                proof {
                    assert(out@ =~= old(out)@ + render_node(*self, depth as nat));
                }
            },
            RelationalPlan::Scan(s) => {
                append_scan(s, out);
                proof {
                    assert(out@ =~= old(out)@ + render_node(*self, depth as nat));
                }
            },
            RelationalPlan::Values(v) => {
                append_values(v, out);
                proof {
                    assert(out@ =~= old(out)@ + render_node(*self, depth as nat));
                }
            },
        }
    }
}

/// The indent unit is two characters, so `k` units span `2 * k` characters.
pub proof fn lemma_indent_len(k: nat)
    ensures
        indent_seq(k).len() == 2 * k,
    decreases k,
{
    reveal_strlit("| ");
    if k > 0 {
        lemma_indent_len((k - 1) as nat);
    }
}

/// Rendering is a pure function of the tree: equal trees render equally,
/// whatever came before or between the two renderings.
pub proof fn lemma_render_deterministic(a: RelationalPlan, b: RelationalPlan, depth: nat)
    requires
        a == b,
    ensures
        render_node(a, depth) == render_node(b, depth),
{
}

/// A node rendered at depth `d > 0` starts with exactly `d - 1` indent units.
pub proof fn lemma_render_indent(p: RelationalPlan, depth: nat)
    requires
        depth > 0,
    ensures
        render_node(p, depth).len() >= 2 * (depth - 1),
        render_node(p, depth).take(2 * (depth - 1)) == indent_seq((depth - 1) as nat),
{
    lemma_indent_len((depth - 1) as nat);
    let lead = indent_seq((depth - 1) as nat);
    match p {
        RelationalPlan::Project(pr) => {
            assert(render_node(p, depth).take(2 * (depth - 1)) =~= lead);
        },
        RelationalPlan::Filter(f) => {
            assert(render_node(p, depth).take(2 * (depth - 1)) =~= lead);
        },
        RelationalPlan::Join(j) => {
            assert(render_node(p, depth).take(2 * (depth - 1)) =~= lead);
        },
        RelationalPlan::CrossJoin(c) => {
            assert(render_node(p, depth).take(2 * (depth - 1)) =~= lead);
        },
        RelationalPlan::Scan(s) => {
            assert(render_node(p, depth).take(2 * (depth - 1)) =~= lead);
        },
        RelationalPlan::Values(v) => {
            assert(render_node(p, depth).take(2 * (depth - 1)) =~= lead);
        },
    }
}

} // verus!
