use sqlexec::data::RelationSchema;
use sqlexec::data::TableRef;
use sqlexec::data::Value;
use sqlexec::expr::CompareOp;
use sqlexec::expr::ScalarExpr;
use sqlexec::numfmt::u64_to_string;
use sqlexec::relational::CrossJoin;
use sqlexec::relational::Filter;
use sqlexec::relational::Join;
use sqlexec::relational::JoinOperator;
use sqlexec::relational::JoinType;
use sqlexec::relational::Project;
use sqlexec::relational::RelationalPlan;
use sqlexec::relational::Scan;
use sqlexec::relational::Values;

fn scan(name: &str) -> RelationalPlan {
    RelationalPlan::Scan(Scan {
        table: TableRef { schema: "public".to_string(), name: name.to_string() },
        projected_schema: RelationSchema { columns: vec!["a".to_string()] },
        project: None,
        filters: None,
    })
}

fn sample_tree() -> RelationalPlan {
    RelationalPlan::Project(Project {
        expressions: vec![
            ScalarExpr::Column("a".to_string()),
            ScalarExpr::Column("b".to_string()),
        ],
        input: Box::new(RelationalPlan::Filter(Filter {
            predicate: ScalarExpr::Compare {
                left: Box::new(ScalarExpr::Column("a".to_string())),
                op: CompareOp::Eq,
                right: Box::new(ScalarExpr::Literal(Value::Integer(1))),
            },
            input: Box::new(RelationalPlan::Scan(Scan {
                table: TableRef { schema: "public".to_string(), name: "t1".to_string() },
                projected_schema: RelationSchema { columns: vec!["a".to_string()] },
                project: Some(vec![0, 1]),
                filters: None,
            })),
        })),
    })
}

#[test]
fn rendering_is_deterministic() {
    let first = sample_tree().render();
    let second = sample_tree().render();
    assert_eq!(first, second);
}

#[test]
fn rendering_indents_one_unit_per_ancestor() {
    let out = sample_tree().render();
    let expected = "Project: projections = [a, b]\n\
                    Filter: predicate = a = 1\n\
                    | Scan: table = public.t1, projection = [0, 1], filters = None\n";
    assert_eq!(out, expected);
}

#[test]
fn rendering_join_tree() {
    let tree = RelationalPlan::Join(Join {
        left: Box::new(scan("l")),
        right: Box::new(scan("r")),
        join_type: JoinType::Inner,
        operator: JoinOperator::On(ScalarExpr::Compare {
            left: Box::new(ScalarExpr::Column("x".to_string())),
            op: CompareOp::Eq,
            right: Box::new(ScalarExpr::Column("y".to_string())),
        }),
    });
    let out = tree.render();
    let expected = "Join: type = inner, operator = on (x = y)\n\
                    Scan: table = public.l, projection = None, filters = None\n\
                    Scan: table = public.r, projection = None, filters = None\n";
    assert_eq!(out, expected);
}

#[test]
fn rendering_cross_join_and_values() {
    let tree = RelationalPlan::CrossJoin(CrossJoin {
        left: Box::new(scan("l")),
        right: Box::new(RelationalPlan::Values(Values {
            schema: RelationSchema { columns: vec!["v".to_string()] },
            values: vec![vec![
                ScalarExpr::Literal(Value::Integer(-3)),
                ScalarExpr::Literal(Value::Text("x".to_string())),
            ]],
        })),
    });
    let out = tree.render();
    let expected = "Cross join:\n\
                    Scan: table = public.l, projection = None, filters = None\n\
                    Values: values = [\n\
                    [-3, 'x']\n\
                    ]\n";
    assert_eq!(out, expected);
}

#[test]
fn decimal_rendering_is_exact() {
    assert_eq!(u64_to_string(0), "0");
    assert_eq!(u64_to_string(907), "907");
    assert_eq!(u64_to_string(u64::MAX), "18446744073709551615");
}

#[test]
fn value_rendering_covers_every_kind() {
    let tree = RelationalPlan::Values(Values {
        schema: RelationSchema { columns: vec!["v".to_string()] },
        values: vec![vec![
            ScalarExpr::Literal(Value::Null),
            ScalarExpr::Literal(Value::Boolean(true)),
            ScalarExpr::Literal(Value::Unsigned(7)),
        ]],
    });
    let out = tree.render();
    assert_eq!(out, "Values: values = [\n[NULL, true, 7]\n]\n");
}
