use vstd::prelude::*;

use crate::errors::PlanError;
use crate::plans::SchemaDataType;

verus! {

/// The declarative expression language as it appears in a plan document:
/// literals, column references, unary functions, binary comparisons and
/// arithmetic, n-ary boolean connectives and aggregates, and casts.
///
/// Float literals are carried as their decimal text; this crate never
/// interprets them, only the compute engine does.
#[allow(non_camel_case_types)]
#[derive(Debug)]
pub enum Expression {
    col(String),
    float32(String),
    float64(String),
    i32(i32),
    i64(i64),
    str(String),
    abs(Box<Expression>),
    acos(Box<Expression>),
    asin(Box<Expression>),
    atan(Box<Expression>),
    not(Box<Expression>),
    eq(Box<Expression>, Box<Expression>),
    ne(Box<Expression>, Box<Expression>),
    gt(Box<Expression>, Box<Expression>),
    gte(Box<Expression>, Box<Expression>),
    lt(Box<Expression>, Box<Expression>),
    lte(Box<Expression>, Box<Expression>),
    plus(Box<Expression>, Box<Expression>),
    minus(Box<Expression>, Box<Expression>),
    times(Box<Expression>, Box<Expression>),
    div(Box<Expression>, Box<Expression>),
    modulus(Box<Expression>, Box<Expression>),
    and(Vec<Expression>),
    or(Vec<Expression>),
    product(Vec<Expression>),
    avg(Vec<Expression>),
    min(Vec<Expression>),
    max(Vec<Expression>),
    sum(Vec<Expression>),
    stddev(Vec<Expression>),
    is_true(Box<Expression>),
    is_false(Box<Expression>),
    cast(Box<Expression>, SchemaDataType),
}

/// A binary operator of the compute engine.
#[derive(Clone, Copy, Debug, PartialEq, Eq, Structural)]
pub enum BinOp {
    Eq,
    Ne,
    Gt,
    Gte,
    Lt,
    Lte,
    Add,
    Sub,
    Mul,
    Div,
    Mod,
    And,
    Or,
}

/// A unary function of the compute engine.
#[derive(Clone, Copy, Debug, PartialEq, Eq, Structural)]
pub enum UnaryFn {
    Abs,
    Acos,
    Asin,
    Atan,
    Not,
    IsTrue,
    IsFalse,
}

/// An aggregate function of the compute engine, applied over an array
/// constructed from the operand list.
#[derive(Clone, Copy, Debug, PartialEq, Eq, Structural)]
pub enum AggFn {
    Avg,
    Min,
    Max,
    Sum,
    Stddev,
}

/// The compiled form of an expression: the shape of the expression tree the
/// compute engine is asked to evaluate.  Lowering this model to the engine's
/// own type is a one-for-one translation at the engine boundary.
#[derive(Debug, PartialEq)]
pub enum EngineExpr {
    LitI32(i32),
    LitI64(i64),
    LitF32Text(String),
    LitF64Text(String),
    LitStr(String),
    /// A column reference; the name is quoted at the engine boundary so the
    /// engine keeps its exact case.
    Column(String),
    Unary(UnaryFn, Box<EngineExpr>),
    Binary(BinOp, Box<EngineExpr>, Box<EngineExpr>),
    Aggregate(AggFn, Vec<EngineExpr>),
    Cast(Box<EngineExpr>, SchemaDataType),
}

/// The mathematical shape of an engine expression, used in contracts.
pub enum SpecExpr {
    LitI32(i32),
    LitI64(i64),
    LitF32Text(Seq<char>),
    LitF64Text(Seq<char>),
    LitStr(Seq<char>),
    Column(Seq<char>),
    Unary(UnaryFn, Box<SpecExpr>),
    Binary(BinOp, Box<SpecExpr>, Box<SpecExpr>),
    Aggregate(AggFn, Seq<SpecExpr>),
    Cast(Box<SpecExpr>, SchemaDataType),
}

/// The shape of an engine expression value.
pub open spec fn view_expr(e: EngineExpr) -> SpecExpr
    decreases e, 0int,
{
    match e {
        EngineExpr::LitI32(v) => SpecExpr::LitI32(v),
        EngineExpr::LitI64(v) => SpecExpr::LitI64(v),
        EngineExpr::LitF32Text(v) => SpecExpr::LitF32Text(v@),
        EngineExpr::LitF64Text(v) => SpecExpr::LitF64Text(v@),
        EngineExpr::LitStr(v) => SpecExpr::LitStr(v@),
        EngineExpr::Column(v) => SpecExpr::Column(v@),
        EngineExpr::Unary(f, a) => SpecExpr::Unary(f, Box::new(view_expr(*a))),
        EngineExpr::Binary(op, a, b) => SpecExpr::Binary(
            op,
            Box::new(view_expr(*a)),
            Box::new(view_expr(*b)),
        ),
        EngineExpr::Aggregate(f, items) => SpecExpr::Aggregate(
            f,
            view_expr_prefix(items@, items@.len() as int),
        ),
        EngineExpr::Cast(a, t) => SpecExpr::Cast(Box::new(view_expr(*a)), t),
    }
}

/// The shapes of the first `i` elements of a list of engine expressions.
pub open spec fn view_expr_prefix(s: Seq<EngineExpr>, i: int) -> Seq<SpecExpr>
    decreases s, i,
{
    if i <= 0 || i > s.len() {
        Seq::empty()
    } else {
        view_expr_prefix(s, i - 1).push(view_expr(s[i - 1]))
    }
}

/// The shapes of a list of engine expressions.
pub open spec fn view_expr_seq(s: Seq<EngineExpr>) -> Seq<SpecExpr> {
    view_expr_prefix(s, s.len() as int)
}

impl View for EngineExpr {
    type V = SpecExpr;

    open spec fn view(&self) -> SpecExpr {
        view_expr(*self)
    }
}

/// `view_expr_seq` is the element-wise shape of the list.
pub proof fn lemma_view_expr_seq_index(s: Seq<EngineExpr>)
    ensures
        view_expr_seq(s).len() == s.len(),
        forall|i: int| 0 <= i < s.len() ==> #[trigger] view_expr_seq(s)[i] == view_expr(s[i]),
{
    lemma_view_expr_prefix_index(s, s.len() as int);
}

proof fn lemma_view_expr_prefix_index(s: Seq<EngineExpr>, j: int)
    requires
        0 <= j <= s.len(),
    ensures
        view_expr_prefix(s, j).len() == j,
        forall|i: int| 0 <= i < j ==> #[trigger] view_expr_prefix(s, j)[i] == view_expr(s[i]),
    decreases j,
{
    if j > 0 {
        lemma_view_expr_prefix_index(s, j - 1);
    }
}

/// A prefix's shape depends only on the elements it covers.
proof fn lemma_view_expr_prefix_agrees(s1: Seq<EngineExpr>, s2: Seq<EngineExpr>, j: int)
    requires
        0 <= j <= s1.len(),
        j <= s2.len(),
        forall|i: int| 0 <= i < j ==> s1[i] == s2[i],
    ensures
        view_expr_prefix(s1, j) == view_expr_prefix(s2, j),
    decreases j,
{
    if j > 0 {
        lemma_view_expr_prefix_agrees(s1, s2, j - 1);
    }
}

impl Clone for EngineExpr {
    /// A deep copy with the same shape as the original.
    fn clone(&self) -> (r: Self)
        ensures
            r@ == self@,
        decreases *self, 1int, 0int,
    {
        match self {
            EngineExpr::LitI32(v) => EngineExpr::LitI32(*v),
            EngineExpr::LitI64(v) => EngineExpr::LitI64(*v),
            EngineExpr::LitF32Text(v) => EngineExpr::LitF32Text(v.clone()),
            EngineExpr::LitF64Text(v) => EngineExpr::LitF64Text(v.clone()),
            EngineExpr::LitStr(v) => EngineExpr::LitStr(v.clone()),
            EngineExpr::Column(v) => EngineExpr::Column(v.clone()),
            EngineExpr::Unary(f, a) => EngineExpr::Unary(*f, Box::new((**a).clone())),
            EngineExpr::Binary(op, a, b) => EngineExpr::Binary(
                *op,
                Box::new((**a).clone()),
                Box::new((**b).clone()),
            ),
            EngineExpr::Aggregate(f, items) => EngineExpr::Aggregate(*f, clone_exprs(items)),
            EngineExpr::Cast(a, t) => EngineExpr::Cast(Box::new((**a).clone()), *t),
        }
    }
}

/// A deep copy of a list of engine expressions, with the same shapes.
fn clone_exprs(items: &Vec<EngineExpr>) -> (r: Vec<EngineExpr>)
    ensures
        view_expr_seq(r@) == view_expr_seq(items@),
        r@.len() == items@.len(),
    decreases items@, items@.len(),
{
    let mut out: Vec<EngineExpr> = Vec::new();
    let n = items.len();
    let mut i: usize = 0;
    while i < n
        invariant
            0 <= i <= n,
            n == items@.len(),
            out@.len() == i,
            forall|k: int| 0 <= k < i ==> view_expr(#[trigger] out@[k]) == view_expr(items@[k]),
        decreases n - i,
    {
        out.push(items[i].clone());
        i = i + 1;
    }
    proof {
        lemma_view_expr_seq_index(out@);
        lemma_view_expr_seq_index(items@);
        assert(view_expr_seq(out@) =~= view_expr_seq(items@));
    }
    out
}

/// The left-associated fold of `op` over the first `i` elements of `cs`:
/// `fold [x0] = x0`, `fold [x0..xi] = Binary(op, fold [x0..x_{i-1}], x_{i-1})`.
pub open spec fn fold_left_expr(op: BinOp, cs: Seq<SpecExpr>, i: int) -> SpecExpr
    recommends
        1 <= i <= cs.len(),
    decreases i,
{
    if i <= 1 {
        cs[0]
    } else {
        SpecExpr::Binary(op, Box::new(fold_left_expr(op, cs, i - 1)), Box::new(cs[i - 1]))
    }
}

/// What compiling each of the first `i` elements of `es` yields: the
/// compiled operands in order, or `None` as soon as any operand is
/// ill-formed.
pub open spec fn spec_compile_prefix(es: Seq<Expression>, i: int) -> Option<Seq<SpecExpr>>
    decreases es, i,
{
    if i <= 0 || i > es.len() {
        Some(Seq::empty())
    } else {
        match spec_compile_prefix(es, i - 1) {
            None => None,
            Some(rest) => match spec_compile(es[i - 1]) {
                None => None,
                Some(c) => Some(rest.push(c)),
            },
        }
    }
}

/// What compiling every element of `es` yields.
pub open spec fn spec_compile_seq(es: Seq<Expression>) -> Option<Seq<SpecExpr>>
    decreases es, es.len() as int + 1,
{
    spec_compile_prefix(es, es.len() as int)
}

/// Combine two compiled operands with a binary operator.
pub open spec fn spec_binary(
    op: BinOp,
    a: Option<SpecExpr>,
    b: Option<SpecExpr>,
) -> Option<SpecExpr> {
    match (a, b) {
        (Some(x), Some(y)) => Some(SpecExpr::Binary(op, Box::new(x), Box::new(y))),
        _ => None,
    }
}

/// Apply a unary function to a compiled operand.
pub open spec fn spec_unary(f: UnaryFn, a: Option<SpecExpr>) -> Option<SpecExpr> {
    match a {
        Some(x) => Some(SpecExpr::Unary(f, Box::new(x))),
        None => None,
    }
}

/// The left-associated reduction of a compiled operand list, or `None` for
/// an empty list, which is ill-formed for a reducing operator.
pub open spec fn spec_reduce(op: BinOp, cs: Option<Seq<SpecExpr>>) -> Option<SpecExpr> {
    match cs {
        Some(s) => if s.len() == 0 {
            None
        } else {
            Some(fold_left_expr(op, s, s.len() as int))
        },
        None => None,
    }
}

/// An aggregate over a compiled operand list.
pub open spec fn spec_aggregate(f: AggFn, cs: Option<Seq<SpecExpr>>) -> Option<SpecExpr> {
    match cs {
        Some(s) => Some(SpecExpr::Aggregate(f, s)),
        None => None,
    }
}

/// What `convert` returns: the compiled engine expression, or `None` where
/// the expression is ill-formed (an `and`, `or` or `prod` with an empty
/// operand list, at any depth).
pub open spec fn spec_compile(e: Expression) -> Option<SpecExpr>
    decreases e, 0int,
{
    match e {
        Expression::col(name) => Some(SpecExpr::Column(name@)),
        Expression::float32(text) => Some(SpecExpr::LitF32Text(text@)),
        Expression::float64(text) => Some(SpecExpr::LitF64Text(text@)),
        Expression::i32(v) => Some(SpecExpr::LitI32(v)),
        Expression::i64(v) => Some(SpecExpr::LitI64(v)),
        Expression::str(v) => Some(SpecExpr::LitStr(v@)),
        Expression::abs(a) => spec_unary(UnaryFn::Abs, spec_compile(*a)),
        Expression::acos(a) => spec_unary(UnaryFn::Acos, spec_compile(*a)),
        Expression::asin(a) => spec_unary(UnaryFn::Asin, spec_compile(*a)),
        Expression::atan(a) => spec_unary(UnaryFn::Atan, spec_compile(*a)),
        Expression::not(a) => spec_unary(UnaryFn::Not, spec_compile(*a)),
        Expression::is_true(a) => spec_unary(UnaryFn::IsTrue, spec_compile(*a)),
        Expression::is_false(a) => spec_unary(UnaryFn::IsFalse, spec_compile(*a)),
        Expression::eq(a, b) => spec_binary(BinOp::Eq, spec_compile(*a), spec_compile(*b)),
        Expression::ne(a, b) => spec_binary(BinOp::Ne, spec_compile(*a), spec_compile(*b)),
        Expression::gt(a, b) => spec_binary(BinOp::Gt, spec_compile(*a), spec_compile(*b)),
        Expression::gte(a, b) => spec_binary(BinOp::Gte, spec_compile(*a), spec_compile(*b)),
        Expression::lt(a, b) => spec_binary(BinOp::Lt, spec_compile(*a), spec_compile(*b)),
        Expression::lte(a, b) => spec_binary(BinOp::Lte, spec_compile(*a), spec_compile(*b)),
        Expression::plus(a, b) => spec_binary(BinOp::Add, spec_compile(*a), spec_compile(*b)),
        Expression::minus(a, b) => spec_binary(BinOp::Sub, spec_compile(*a), spec_compile(*b)),
        Expression::times(a, b) => spec_binary(BinOp::Mul, spec_compile(*a), spec_compile(*b)),
        Expression::div(a, b) => spec_binary(BinOp::Div, spec_compile(*a), spec_compile(*b)),
        Expression::modulus(a, b) => spec_binary(BinOp::Mod, spec_compile(*a), spec_compile(*b)),
        Expression::and(es) => spec_reduce(BinOp::And, spec_compile_seq(es@)),
        Expression::or(es) => spec_reduce(BinOp::Or, spec_compile_seq(es@)),
        Expression::product(es) => spec_reduce(BinOp::Mul, spec_compile_seq(es@)),
        Expression::avg(es) => spec_aggregate(AggFn::Avg, spec_compile_seq(es@)),
        Expression::min(es) => spec_aggregate(AggFn::Min, spec_compile_seq(es@)),
        Expression::max(es) => spec_aggregate(AggFn::Max, spec_compile_seq(es@)),
        Expression::sum(es) => spec_aggregate(AggFn::Sum, spec_compile_seq(es@)),
        Expression::stddev(es) => spec_aggregate(AggFn::Stddev, spec_compile_seq(es@)),
        Expression::cast(a, t) => match spec_compile(*a) {
            Some(c) => Some(SpecExpr::Cast(Box::new(c), t)),
            None => None,
        },
    }
}

/// Compile the operands of a list-carrying expression node, left to right,
/// stopping at the first ill-formed one.
pub(crate) fn convert_list(es: &Vec<Expression>) -> (r: Result<Vec<EngineExpr>, PlanError>)
    ensures
        match spec_compile_seq(es@) {
            Some(cs) => r matches Ok(v) && view_expr_seq(v@) == cs,
            None => r == Err::<Vec<EngineExpr>, PlanError>(PlanError::InvalidExpression),
        },
    decreases es@, es@.len(), 0int,
{
    let mut out: Vec<EngineExpr> = Vec::new();
    let n = es.len();
    let mut i: usize = 0;
    while i < n
        invariant
            0 <= i <= n,
            n == es@.len(),
            out@.len() == i,
            spec_compile_prefix(es@, i as int) == Some(view_expr_seq(out@)),
        decreases n - i,
    {
        match convert(&es[i]) {
            Ok(c) => {
                proof {
                    lemma_view_expr_prefix_agrees(out@.push(c), out@, i as int);
                }
                out.push(c);
            },
            Err(e) => {
                proof {
                    lemma_compile_prefix_fails(es@, i as int, es@.len() as int);
                }
                return Err(e);
            },
        }
        i = i + 1;
    }
    Ok(out)
}

/// If compiling element `i` of `es` fails, compiling any prefix that
/// reaches past `i` fails too.
proof fn lemma_compile_prefix_fails(es: Seq<Expression>, i: int, j: int)
    requires
        0 <= i < j <= es.len(),
        spec_compile(es[i]) is None || spec_compile_prefix(es, i) is None,
    ensures
        spec_compile_prefix(es, j) is None,
    decreases j,
{
    if j - 1 > i {
        lemma_compile_prefix_fails(es, i, j - 1);
    }
}

/// Compile one declarative expression into the engine expression model.
///
/// Succeeds exactly on well-formed expressions: compiling fails, with
/// `InvalidExpression`, if and only if an `and`, `or` or `prod` node
/// anywhere in the tree has an empty operand list.
pub fn convert(expr: &Expression) -> (r: Result<EngineExpr, PlanError>)
    ensures
        match spec_compile(*expr) {
            Some(v) => r matches Ok(c) && c@ == v,
            None => r == Err::<EngineExpr, PlanError>(PlanError::InvalidExpression),
        },
    decreases *expr, 1int, 0int,
{
    match expr {
        Expression::col(name) => Ok(EngineExpr::Column(name.clone())),
        Expression::float32(text) => Ok(EngineExpr::LitF32Text(text.clone())),
        Expression::float64(text) => Ok(EngineExpr::LitF64Text(text.clone())),
        Expression::i32(v) => Ok(EngineExpr::LitI32(*v)),
        Expression::i64(v) => Ok(EngineExpr::LitI64(*v)),
        Expression::str(v) => Ok(EngineExpr::LitStr(v.clone())),
        Expression::abs(a) => convert_unary(UnaryFn::Abs, convert(a)),
        Expression::acos(a) => convert_unary(UnaryFn::Acos, convert(a)),
        Expression::asin(a) => convert_unary(UnaryFn::Asin, convert(a)),
        Expression::atan(a) => convert_unary(UnaryFn::Atan, convert(a)),
        Expression::not(a) => convert_unary(UnaryFn::Not, convert(a)),
        Expression::is_true(a) => convert_unary(UnaryFn::IsTrue, convert(a)),
        Expression::is_false(a) => convert_unary(UnaryFn::IsFalse, convert(a)),
        Expression::eq(a, b) => convert_binary(BinOp::Eq, convert(a), convert(b)),
        Expression::ne(a, b) => convert_binary(BinOp::Ne, convert(a), convert(b)),
        Expression::gt(a, b) => convert_binary(BinOp::Gt, convert(a), convert(b)),
        Expression::gte(a, b) => convert_binary(BinOp::Gte, convert(a), convert(b)),
        Expression::lt(a, b) => convert_binary(BinOp::Lt, convert(a), convert(b)),
        Expression::lte(a, b) => convert_binary(BinOp::Lte, convert(a), convert(b)),
        Expression::plus(a, b) => convert_binary(BinOp::Add, convert(a), convert(b)),
        Expression::minus(a, b) => convert_binary(BinOp::Sub, convert(a), convert(b)),
        Expression::times(a, b) => convert_binary(BinOp::Mul, convert(a), convert(b)),
        Expression::div(a, b) => convert_binary(BinOp::Div, convert(a), convert(b)),
        Expression::modulus(a, b) => convert_binary(BinOp::Mod, convert(a), convert(b)),
        Expression::and(es) => convert_reduce(BinOp::And, convert_list(es)),
        Expression::or(es) => convert_reduce(BinOp::Or, convert_list(es)),
        Expression::product(es) => convert_reduce(BinOp::Mul, convert_list(es)),
        Expression::avg(es) => convert_aggregate(AggFn::Avg, convert_list(es)),
        Expression::min(es) => convert_aggregate(AggFn::Min, convert_list(es)),
        Expression::max(es) => convert_aggregate(AggFn::Max, convert_list(es)),
        Expression::sum(es) => convert_aggregate(AggFn::Sum, convert_list(es)),
        Expression::stddev(es) => convert_aggregate(AggFn::Stddev, convert_list(es)),
        Expression::cast(a, t) => match convert(a) {
            Ok(c) => Ok(EngineExpr::Cast(Box::new(c), *t)),
            Err(e) => Err(e),
        },
    }
}

/// Combine one compiled operand with a unary function, keeping any failure.
fn convert_unary(f: UnaryFn, a: Result<EngineExpr, PlanError>) -> (r: Result<
    EngineExpr,
    PlanError,
>)
    ensures
        match a {
            Ok(x) => r matches Ok(c) && c@ == SpecExpr::Unary(f, Box::new(x@)),
            Err(e) => r == Err::<EngineExpr, PlanError>(e),
        },
{
    match a {
        Ok(x) => Ok(EngineExpr::Unary(f, Box::new(x))),
        Err(e) => Err(e),
    }
}

/// Combine two compiled operands with a binary operator, keeping any failure.
fn convert_binary(
    op: BinOp,
    a: Result<EngineExpr, PlanError>,
    b: Result<EngineExpr, PlanError>,
) -> (r: Result<EngineExpr, PlanError>)
    ensures
        match (a, b) {
            (Ok(x), Ok(y)) => r matches Ok(c) && c@ == SpecExpr::Binary(
                op,
                Box::new(x@),
                Box::new(y@),
            ),
            (Err(e), _) => r == Err::<EngineExpr, PlanError>(e),
            (Ok(_), Err(e)) => r == Err::<EngineExpr, PlanError>(e),
        },
{
    match (a, b) {
        (Ok(x), Ok(y)) => Ok(EngineExpr::Binary(op, Box::new(x), Box::new(y))),
        (Err(e), _) => Err(e),
        (_, Err(e)) => Err(e),
    }
}

/// Reduce a compiled operand list with a binary operator, left-associated.
/// An empty list is ill-formed.
fn convert_reduce(op: BinOp, cs: Result<Vec<EngineExpr>, PlanError>) -> (r: Result<
    EngineExpr,
    PlanError,
>)
    ensures
        match cs {
            Ok(v) => match spec_reduce(op, Some(view_expr_seq(v@))) {
                Some(x) => r matches Ok(c) && c@ == x,
                None => r == Err::<EngineExpr, PlanError>(PlanError::InvalidExpression),
            },
            Err(e) => r == Err::<EngineExpr, PlanError>(e),
        },
{
    let v = match cs {
        Ok(v) => v,
        Err(e) => {
            return Err(e);
        },
    };
    let n = v.len();
    if n == 0 {
        return Err(PlanError::InvalidExpression);
    }
    proof {
        lemma_view_expr_seq_index(v@);
    }
    let mut acc = v[0].clone();
    let mut i: usize = 1;
    while i < n
        invariant
            1 <= i <= n,
            n == v@.len(),
            view_expr_seq(v@).len() == n,
            forall|k: int| 0 <= k < n ==> #[trigger] view_expr_seq(v@)[k] == view_expr(v@[k]),
            acc@ == fold_left_expr(op, view_expr_seq(v@), i as int),
        decreases n - i,
    {
        acc = EngineExpr::Binary(op, Box::new(acc), Box::new(v[i].clone()));
        i = i + 1;
    }
    Ok(acc)
}

/// Wrap a compiled operand list in an aggregate; an empty list is allowed
/// here, the engine sees an empty array.
fn convert_aggregate(f: AggFn, cs: Result<Vec<EngineExpr>, PlanError>) -> (r: Result<
    EngineExpr,
    PlanError,
>)
    ensures
        match cs {
            Ok(v) => r matches Ok(c) && c@ == SpecExpr::Aggregate(f, view_expr_seq(v@)),
            Err(e) => r == Err::<EngineExpr, PlanError>(e),
        },
{
    match cs {
        Ok(v) => Ok(EngineExpr::Aggregate(f, v)),
        Err(e) => Err(e),
    }
}

/// Law: a reducing node (`and`, `or`, `prod`) compiles to the
/// left-associated fold of the corresponding engine binary operator over
/// its compiled operands: with operands `[a, b, c]` the result is
/// `Binary(op, Binary(op, ca, cb), cc)`.
pub proof fn lemma_nary_left_fold(e: Expression)
    requires
        e is and || e is or || e is product,
        spec_compile(e) is Some,
    ensures
        ({
            let es = if e is and {
                e->and_0
            } else if e is or {
                e->or_0
            } else {
                e->product_0
            };
            let op = if e is and {
                BinOp::And
            } else if e is or {
                BinOp::Or
            } else {
                BinOp::Mul
            };
            let cs = spec_compile_seq(es@)->Some_0;
            &&& spec_compile_seq(es@) is Some
            &&& cs.len() >= 1
            &&& spec_compile(e) == Some(fold_left_expr(op, cs, cs.len() as int))
            &&& cs.len() >= 2 ==> spec_compile(e)->Some_0 == SpecExpr::Binary(
                op,
                Box::new(fold_left_expr(op, cs, cs.len() - 1)),
                Box::new(cs.last()),
            )
        }),
{
}

/// Law: every operand of a compiled operand list is itself compiled, in
/// order: element `i` of the compiled list is the compilation of operand
/// `i`.
pub proof fn lemma_compile_seq_elementwise(es: Seq<Expression>)
    requires
        spec_compile_seq(es) is Some,
    ensures
        spec_compile_seq(es)->Some_0.len() == es.len(),
        forall|i: int|
            0 <= i < es.len() ==> spec_compile(es[i]) == Some(
                #[trigger] spec_compile_seq(es)->Some_0[i],
            ),
{
    lemma_compile_prefix_elementwise(es, es.len() as int);
}

proof fn lemma_compile_prefix_elementwise(es: Seq<Expression>, j: int)
    requires
        0 <= j <= es.len(),
        spec_compile_prefix(es, j) is Some,
    ensures
        spec_compile_prefix(es, j)->Some_0.len() == j,
        forall|i: int|
            0 <= i < j ==> spec_compile(es[i]) == Some(
                #[trigger] spec_compile_prefix(es, j)->Some_0[i],
            ),
    decreases j,
{
    if j > 0 {
        lemma_compile_prefix_elementwise(es, j - 1);
    }
}

} // verus!
