use planflow::errors::PlanError;
use planflow::expr::{convert, AggFn, BinOp, EngineExpr, Expression, UnaryFn};
use planflow::plans::SchemaDataType;

fn col(name: &str) -> Expression {
    Expression::col(name.to_string())
}

fn b(e: Expression) -> Box<Expression> {
    Box::new(e)
}

#[test]
fn literals_compile() {
    assert_eq!(convert(&Expression::i32(7)).unwrap(), EngineExpr::LitI32(7));
    assert_eq!(convert(&Expression::i64(-4)).unwrap(), EngineExpr::LitI64(-4));
    assert_eq!(
        convert(&Expression::str("hi".to_string())).unwrap(),
        EngineExpr::LitStr("hi".to_string())
    );
    assert_eq!(
        convert(&Expression::float64("2.5".to_string())).unwrap(),
        EngineExpr::LitF64Text("2.5".to_string())
    );
    assert_eq!(
        convert(&Expression::float32("0.5".to_string())).unwrap(),
        EngineExpr::LitF32Text("0.5".to_string())
    );
    assert_eq!(
        convert(&col("Amount")).unwrap(),
        EngineExpr::Column("Amount".to_string())
    );
}

#[test]
fn comparisons_compile() {
    let e = Expression::gt(b(col("x")), b(Expression::i64(5)));
    assert_eq!(
        convert(&e).unwrap(),
        EngineExpr::Binary(
            BinOp::Gt,
            Box::new(EngineExpr::Column("x".to_string())),
            Box::new(EngineExpr::LitI64(5))
        )
    );
    let e = Expression::lte(b(col("x")), b(col("y")));
    assert_eq!(
        convert(&e).unwrap(),
        EngineExpr::Binary(
            BinOp::Lte,
            Box::new(EngineExpr::Column("x".to_string())),
            Box::new(EngineExpr::Column("y".to_string()))
        )
    );
}

#[test]
fn unary_functions_compile() {
    let e = Expression::abs(b(col("x")));
    assert_eq!(
        convert(&e).unwrap(),
        EngineExpr::Unary(UnaryFn::Abs, Box::new(EngineExpr::Column("x".to_string())))
    );
    let e = Expression::asin(b(col("x")));
    assert_eq!(
        convert(&e).unwrap(),
        EngineExpr::Unary(UnaryFn::Asin, Box::new(EngineExpr::Column("x".to_string())))
    );
    let e = Expression::not(b(Expression::is_true(b(col("f")))));
    assert_eq!(
        convert(&e).unwrap(),
        EngineExpr::Unary(
            UnaryFn::Not,
            Box::new(EngineExpr::Unary(
                UnaryFn::IsTrue,
                Box::new(EngineExpr::Column("f".to_string()))
            ))
        )
    );
}

#[test]
fn and_compiles_left_associated() {
    // the law on concrete values: and([a, b, c]) is (a AND b) AND c
    let a = Expression::eq(b(col("a")), b(Expression::i64(1)));
    let bb = Expression::eq(b(col("b")), b(Expression::i64(2)));
    let c = Expression::eq(b(col("c")), b(Expression::i64(3)));
    let ca = convert(&a).unwrap();
    let cb = convert(&bb).unwrap();
    let cc = convert(&c).unwrap();
    let e = Expression::and(vec![a, bb, c]);
    assert_eq!(
        convert(&e).unwrap(),
        EngineExpr::Binary(
            BinOp::And,
            Box::new(EngineExpr::Binary(BinOp::And, Box::new(ca), Box::new(cb))),
            Box::new(cc)
        )
    );
}

#[test]
fn or_and_product_compile_left_associated() {
    let xs = vec![col("a"), col("b"), col("c")];
    let e = Expression::or(xs);
    let ca = EngineExpr::Column("a".to_string());
    let cb = EngineExpr::Column("b".to_string());
    let cc = EngineExpr::Column("c".to_string());
    assert_eq!(
        convert(&e).unwrap(),
        EngineExpr::Binary(
            BinOp::Or,
            Box::new(EngineExpr::Binary(
                BinOp::Or,
                Box::new(ca.clone()),
                Box::new(cb.clone())
            )),
            Box::new(cc.clone())
        )
    );
    let e = Expression::product(vec![col("a"), col("b"), col("c")]);
    assert_eq!(
        convert(&e).unwrap(),
        EngineExpr::Binary(
            BinOp::Mul,
            Box::new(EngineExpr::Binary(BinOp::Mul, Box::new(ca), Box::new(cb))),
            Box::new(cc)
        )
    );
}

#[test]
fn single_operand_reduction_is_the_operand() {
    let e = Expression::and(vec![col("a")]);
    assert_eq!(convert(&e).unwrap(), EngineExpr::Column("a".to_string()));
}

#[test]
fn empty_reduction_is_invalid() {
    assert!(matches!(
        convert(&Expression::and(vec![])),
        Err(PlanError::InvalidExpression)
    ));
    assert!(matches!(
        convert(&Expression::or(vec![])),
        Err(PlanError::InvalidExpression)
    ));
    assert!(matches!(
        convert(&Expression::product(vec![])),
        Err(PlanError::InvalidExpression)
    ));
}

#[test]
fn nested_empty_reduction_is_invalid() {
    // the defect is found at any depth
    let e = Expression::plus(b(Expression::i64(1)), b(Expression::and(vec![])));
    assert!(matches!(convert(&e), Err(PlanError::InvalidExpression)));
    let e = Expression::sum(vec![Expression::or(vec![])]);
    assert!(matches!(convert(&e), Err(PlanError::InvalidExpression)));
}

#[test]
fn aggregates_compile() {
    let e = Expression::avg(vec![col("x"), col("y")]);
    assert_eq!(
        convert(&e).unwrap(),
        EngineExpr::Aggregate(
            AggFn::Avg,
            vec![
                EngineExpr::Column("x".to_string()),
                EngineExpr::Column("y".to_string())
            ]
        )
    );
    // an aggregate over no operands is allowed: the engine sees an empty array
    let e = Expression::sum(vec![]);
    assert_eq!(convert(&e).unwrap(), EngineExpr::Aggregate(AggFn::Sum, vec![]));
}

#[test]
fn cast_compiles() {
    let e = Expression::cast(b(col("x")), SchemaDataType::i64);
    assert_eq!(
        convert(&e).unwrap(),
        EngineExpr::Cast(
            Box::new(EngineExpr::Column("x".to_string())),
            SchemaDataType::i64
        )
    );
}

#[test]
fn arithmetic_compiles() {
    let e = Expression::modulus(b(col("x")), b(Expression::i32(3)));
    assert_eq!(
        convert(&e).unwrap(),
        EngineExpr::Binary(
            BinOp::Mod,
            Box::new(EngineExpr::Column("x".to_string())),
            Box::new(EngineExpr::LitI32(3))
        )
    );
    let e = Expression::div(b(Expression::minus(b(col("x")), b(col("y")))), b(col("z")));
    assert_eq!(
        convert(&e).unwrap(),
        EngineExpr::Binary(
            BinOp::Div,
            Box::new(EngineExpr::Binary(
                BinOp::Sub,
                Box::new(EngineExpr::Column("x".to_string())),
                Box::new(EngineExpr::Column("y".to_string()))
            )),
            Box::new(EngineExpr::Column("z".to_string()))
        )
    );
}
