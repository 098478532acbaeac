use vstd::prelude::*;

use crate::config::SortKey;
use crate::expr::{view_expr_seq, AggFn, BinOp, EngineExpr, SpecExpr, UnaryFn};
use crate::plans::{JoinType, SchemaDataType};

use datafusion::arrow::datatypes::{DataType, TimeUnit};
use datafusion::common::JoinType as EngineJoinType;
use datafusion::logical_expr::Operator;

verus! {

// ---------------------------------------------------------------------
// The compute engine's types.  Values of these types are opaque to this
// crate: they are built, carried and handed back to the engine, never
// inspected.
// ---------------------------------------------------------------------

#[verifier::external_type_specification]
#[verifier::external_body]
pub struct ExDataFrame(datafusion::dataframe::DataFrame);

#[verifier::external_type_specification]
#[verifier::external_body]
pub struct ExExpr(datafusion::logical_expr::Expr);

#[verifier::external_type_specification]
#[verifier::external_body]
pub struct ExSortExpr(datafusion::logical_expr::SortExpr);

#[verifier::external_type_specification]
#[verifier::external_body]
pub struct ExDataType(datafusion::arrow::datatypes::DataType);

#[verifier::external_type_specification]
#[verifier::external_body]
pub struct ExDataFusionError(datafusion::error::DataFusionError);

// ---------------------------------------------------------------------
// Names for what the engine builds.  Each engine call below constructs a
// value that is a function of its arguments alone (a logical plan node;
// no I/O, no chance, no ambient state), so each result gets a name, the
// calling wrapper's contract applies it, and everything downstream -- the
// lowering, the relational actions, the dispatchers -- is verified
// against these names.
// ---------------------------------------------------------------------

/// The engine's 32-bit integer literal expression.
pub uninterp spec fn lit_i32_of(v: i32) -> datafusion::logical_expr::Expr;

/// The engine's 64-bit integer literal expression.
pub uninterp spec fn lit_i64_of(v: i64) -> datafusion::logical_expr::Expr;

/// The engine's string literal expression.
pub uninterp spec fn lit_str_of(s: Seq<char>) -> datafusion::logical_expr::Expr;

/// Whether this decimal text parses as a 32-bit float.
pub uninterp spec fn float32_text_ok(s: Seq<char>) -> bool;

/// The engine's 32-bit float literal parsed from its decimal text.
pub uninterp spec fn lit_float32_of(s: Seq<char>) -> datafusion::logical_expr::Expr;

/// Whether this decimal text parses as a 64-bit float.
pub uninterp spec fn float64_text_ok(s: Seq<char>) -> bool;

/// The engine's 64-bit float literal parsed from its decimal text.
pub uninterp spec fn lit_float64_of(s: Seq<char>) -> datafusion::logical_expr::Expr;

/// The engine's reference to the column whose exact name is `name` (the
/// quoting that protects the name's case happens at the boundary).
pub uninterp spec fn col_of(name: Seq<char>) -> datafusion::logical_expr::Expr;

/// The expression renamed in the output schema.
pub uninterp spec fn alias_of(
    e: datafusion::logical_expr::Expr,
    name: Seq<char>,
) -> datafusion::logical_expr::Expr;

/// The engine's binary operation `l op r`.
pub uninterp spec fn binary_of(
    l: datafusion::logical_expr::Expr,
    op: BinOp,
    r: datafusion::logical_expr::Expr,
) -> datafusion::logical_expr::Expr;

/// The engine's absolute-value call.
pub uninterp spec fn abs_of(e: datafusion::logical_expr::Expr) -> datafusion::logical_expr::Expr;

/// The engine's arc-cosine call.
pub uninterp spec fn acos_of(e: datafusion::logical_expr::Expr) -> datafusion::logical_expr::Expr;

/// The engine's arc-sine call.
pub uninterp spec fn asin_of(e: datafusion::logical_expr::Expr) -> datafusion::logical_expr::Expr;

/// The engine's arc-tangent call.
pub uninterp spec fn atan_of(e: datafusion::logical_expr::Expr) -> datafusion::logical_expr::Expr;

/// The engine's boolean negation.
pub uninterp spec fn not_of(e: datafusion::logical_expr::Expr) -> datafusion::logical_expr::Expr;

/// The engine's is-true test.
pub uninterp spec fn is_true_of(
    e: datafusion::logical_expr::Expr,
) -> datafusion::logical_expr::Expr;

/// The engine's is-false test.
pub uninterp spec fn is_false_of(
    e: datafusion::logical_expr::Expr,
) -> datafusion::logical_expr::Expr;

/// The engine's array built from the operands, in order.
pub uninterp spec fn make_array_of(
    items: Seq<datafusion::logical_expr::Expr>,
) -> datafusion::logical_expr::Expr;

/// The engine's average aggregate.
pub uninterp spec fn avg_of(e: datafusion::logical_expr::Expr) -> datafusion::logical_expr::Expr;

/// The engine's minimum aggregate.
pub uninterp spec fn min_of(e: datafusion::logical_expr::Expr) -> datafusion::logical_expr::Expr;

/// The engine's maximum aggregate.
pub uninterp spec fn max_of(e: datafusion::logical_expr::Expr) -> datafusion::logical_expr::Expr;

/// The engine's sum aggregate.
pub uninterp spec fn sum_of(e: datafusion::logical_expr::Expr) -> datafusion::logical_expr::Expr;

/// The engine's standard-deviation aggregate.
pub uninterp spec fn stddev_of(
    e: datafusion::logical_expr::Expr,
) -> datafusion::logical_expr::Expr;

/// The engine type a plan schema type stands for.
pub uninterp spec fn engine_type_of(t: SchemaDataType) -> datafusion::arrow::datatypes::DataType;

/// The engine's cast-or-null of the expression to the type.
pub uninterp spec fn try_cast_of(
    e: datafusion::logical_expr::Expr,
    t: datafusion::arrow::datatypes::DataType,
) -> datafusion::logical_expr::Expr;

/// The expression decorated as a sort key.
pub uninterp spec fn sort_key_of(
    e: datafusion::logical_expr::Expr,
    asc: bool,
    nulls_first: bool,
) -> datafusion::logical_expr::SortExpr;

/// The relation of the rows of `df` on which `predicate` is true.
pub uninterp spec fn filter_of(
    df: datafusion::dataframe::DataFrame,
    predicate: datafusion::logical_expr::Expr,
) -> datafusion::dataframe::DataFrame;

/// The projection of `df` onto `exprs`, in order.
pub uninterp spec fn select_of(
    df: datafusion::dataframe::DataFrame,
    exprs: Seq<datafusion::logical_expr::Expr>,
) -> datafusion::dataframe::DataFrame;

/// `df` ordered by `keys`.
pub uninterp spec fn sort_of(
    df: datafusion::dataframe::DataFrame,
    keys: Seq<datafusion::logical_expr::SortExpr>,
) -> datafusion::dataframe::DataFrame;

/// `df` grouped by `group` with the aggregates `aggr`.
pub uninterp spec fn aggregate_of(
    df: datafusion::dataframe::DataFrame,
    group: Seq<datafusion::logical_expr::Expr>,
    aggr: Seq<datafusion::logical_expr::Expr>,
) -> datafusion::dataframe::DataFrame;

/// The `jt`-join of `l` and `r` on the paired key columns.
pub uninterp spec fn join_of(
    l: datafusion::dataframe::DataFrame,
    r: datafusion::dataframe::DataFrame,
    jt: JoinType,
    left_cols: Seq<Seq<char>>,
    right_cols: Seq<Seq<char>>,
) -> datafusion::dataframe::DataFrame;

/// The plain concatenation of `l` and `r`.
pub uninterp spec fn union_of(
    l: datafusion::dataframe::DataFrame,
    r: datafusion::dataframe::DataFrame,
) -> datafusion::dataframe::DataFrame;

/// The concatenation of `l` and `r`, de-duplicated.
pub uninterp spec fn union_distinct_of(
    l: datafusion::dataframe::DataFrame,
    r: datafusion::dataframe::DataFrame,
) -> datafusion::dataframe::DataFrame;

/// `df` with duplicate rows removed.
pub uninterp spec fn distinct_of(
    df: datafusion::dataframe::DataFrame,
) -> datafusion::dataframe::DataFrame;

/// The rows of `l` absent from `r`.
pub uninterp spec fn except_of(
    l: datafusion::dataframe::DataFrame,
    r: datafusion::dataframe::DataFrame,
) -> datafusion::dataframe::DataFrame;

/// The rows common to `l` and `r`.
pub uninterp spec fn intersect_of(
    l: datafusion::dataframe::DataFrame,
    r: datafusion::dataframe::DataFrame,
) -> datafusion::dataframe::DataFrame;

/// The views of a list of column names.
pub open spec fn str_views(v: Seq<String>) -> Seq<Seq<char>> {
    v.map_values(|s: String| s@)
}

// ---------------------------------------------------------------------
// Expression constructors.
// ---------------------------------------------------------------------

/// Relies on datafusion's `lit`: a 32-bit integer literal.
#[verifier::external_body]
pub(crate) fn lit_i32(v: i32) -> (r: datafusion::logical_expr::Expr)
    ensures
        r == lit_i32_of(v),
{
    datafusion::prelude::lit(v)
}

/// Relies on datafusion's `lit`: a 64-bit integer literal.
#[verifier::external_body]
pub(crate) fn lit_i64(v: i64) -> (r: datafusion::logical_expr::Expr)
    ensures
        r == lit_i64_of(v),
{
    datafusion::prelude::lit(v)
}

/// Relies on datafusion's `lit`: a string literal.
#[verifier::external_body]
pub(crate) fn lit_str(v: &str) -> (r: datafusion::logical_expr::Expr)
    ensures
        r == lit_str_of(v@),
{
    datafusion::prelude::lit(v)
}

/// Relies on `ScalarValue::try_from_string` and `lit`: a 32-bit float
/// literal parsed from its decimal text; succeeds exactly when the text
/// is a number.
#[verifier::external_body]
pub(crate) fn lit_float32_text(text: &str) -> (r: Result<
    datafusion::logical_expr::Expr,
    datafusion::error::DataFusionError,
>)
    ensures
        r is Ok <==> float32_text_ok(text@),
        r matches Ok(v) ==> v == lit_float32_of(text@),
{
    let t = datafusion::arrow::datatypes::DataType::Float32;
    let v = datafusion::common::ScalarValue::try_from_string(text.to_string(), &t)?;
    Ok(datafusion::prelude::lit(v))
}

/// Relies on `ScalarValue::try_from_string` and `lit`: a 64-bit float
/// literal parsed from its decimal text; succeeds exactly when the text
/// is a number.
#[verifier::external_body]
pub(crate) fn lit_float64_text(text: &str) -> (r: Result<
    datafusion::logical_expr::Expr,
    datafusion::error::DataFusionError,
>)
    ensures
        r is Ok <==> float64_text_ok(text@),
        r matches Ok(v) ==> v == lit_float64_of(text@),
{
    let t = datafusion::arrow::datatypes::DataType::Float64;
    let v = datafusion::common::ScalarValue::try_from_string(text.to_string(), &t)?;
    Ok(datafusion::prelude::lit(v))
}

/// Relies on datafusion's `col`: a column reference with the name quoted,
/// so the engine keeps its exact case.
#[verifier::external_body]
pub(crate) fn col_quoted(name: &str) -> (r: datafusion::logical_expr::Expr)
    ensures
        r == col_of(name@),
{
    datafusion::prelude::col(format!("\"{}\"", name))
}

/// Relies on `Expr::alias`: the expression renamed in the output schema.
#[verifier::external_body]
pub(crate) fn alias_expr(
    e: datafusion::logical_expr::Expr,
    name: &str,
) -> (r: datafusion::logical_expr::Expr)
    ensures
        r == alias_of(e, name@),
{
    e.alias(name)
}

/// Relies on datafusion's `binary_expr`: the binary operation `l op r`.
#[verifier::external_body]
pub(crate) fn binary_op_expr(
    l: datafusion::logical_expr::Expr,
    op: &BinOp,
    r: datafusion::logical_expr::Expr,
) -> (res: datafusion::logical_expr::Expr)
    ensures
        res == binary_of(l, *op, r),
{
    let o = match op {
        BinOp::Eq => Operator::Eq, BinOp::Ne => Operator::NotEq,
        BinOp::Gt => Operator::Gt, BinOp::Gte => Operator::GtEq,
        BinOp::Lt => Operator::Lt, BinOp::Lte => Operator::LtEq,
        BinOp::Add => Operator::Plus, BinOp::Sub => Operator::Minus,
        BinOp::Mul => Operator::Multiply, BinOp::Div => Operator::Divide,
        BinOp::Mod => Operator::Modulo, BinOp::And => Operator::And,
        BinOp::Or => Operator::Or,
    };
    datafusion::logical_expr::binary_expr(l, o, r)
}

/// Relies on datafusion's `abs`.
#[verifier::external_body]
pub(crate) fn abs_expr(e: datafusion::logical_expr::Expr) -> (r: datafusion::logical_expr::Expr)
    ensures
        r == abs_of(e),
{
    datafusion::functions::expr_fn::abs(e)
}

/// Relies on datafusion's `acos`.
#[verifier::external_body]
pub(crate) fn acos_expr(e: datafusion::logical_expr::Expr) -> (r: datafusion::logical_expr::Expr)
    ensures
        r == acos_of(e),
{
    datafusion::functions::expr_fn::acos(e)
}

/// Relies on datafusion's `asin`.
#[verifier::external_body]
pub(crate) fn asin_expr(e: datafusion::logical_expr::Expr) -> (r: datafusion::logical_expr::Expr)
    ensures
        r == asin_of(e),
{
    datafusion::functions::expr_fn::asin(e)
}

/// Relies on datafusion's `atan`.
#[verifier::external_body]
pub(crate) fn atan_expr(e: datafusion::logical_expr::Expr) -> (r: datafusion::logical_expr::Expr)
    ensures
        r == atan_of(e),
{
    datafusion::functions::expr_fn::atan(e)
}

/// Relies on datafusion's `not`: boolean negation.
#[verifier::external_body]
pub(crate) fn not_expr(e: datafusion::logical_expr::Expr) -> (r: datafusion::logical_expr::Expr)
    ensures
        r == not_of(e),
{
    datafusion::logical_expr::expr_fn::not(e)
}

/// Relies on datafusion's `is_true`.
#[verifier::external_body]
pub(crate) fn is_true_expr(e: datafusion::logical_expr::Expr) -> (r:
    datafusion::logical_expr::Expr)
    ensures
        r == is_true_of(e),
{
    datafusion::logical_expr::expr_fn::is_true(e)
}

/// Relies on datafusion's `is_false`.
#[verifier::external_body]
pub(crate) fn is_false_expr(e: datafusion::logical_expr::Expr) -> (r:
    datafusion::logical_expr::Expr)
    ensures
        r == is_false_of(e),
{
    datafusion::logical_expr::expr_fn::is_false(e)
}

/// Relies on datafusion's `make_array`: an array built from the operands.
#[verifier::external_body]
pub(crate) fn make_array_expr(items: Vec<datafusion::logical_expr::Expr>) -> (r:
    datafusion::logical_expr::Expr)
    ensures
        r == make_array_of(items@),
{
    datafusion::functions_nested::expr_fn::make_array(items)
}

/// Relies on datafusion's `avg` aggregate.
#[verifier::external_body]
pub(crate) fn avg_expr(e: datafusion::logical_expr::Expr) -> (r: datafusion::logical_expr::Expr)
    ensures
        r == avg_of(e),
{
    datafusion::functions_aggregate::expr_fn::avg(e)
}

/// Relies on datafusion's `min` aggregate.
#[verifier::external_body]
pub(crate) fn min_expr(e: datafusion::logical_expr::Expr) -> (r: datafusion::logical_expr::Expr)
    ensures
        r == min_of(e),
{
    datafusion::functions_aggregate::expr_fn::min(e)
}

/// Relies on datafusion's `max` aggregate.
#[verifier::external_body]
pub(crate) fn max_expr(e: datafusion::logical_expr::Expr) -> (r: datafusion::logical_expr::Expr)
    ensures
        r == max_of(e),
{
    datafusion::functions_aggregate::expr_fn::max(e)
}

/// Relies on datafusion's `sum` aggregate.
#[verifier::external_body]
pub(crate) fn sum_expr(e: datafusion::logical_expr::Expr) -> (r: datafusion::logical_expr::Expr)
    ensures
        r == sum_of(e),
{
    datafusion::functions_aggregate::expr_fn::sum(e)
}

/// Relies on datafusion's `stddev` aggregate.
#[verifier::external_body]
pub(crate) fn stddev_expr(e: datafusion::logical_expr::Expr) -> (r:
    datafusion::logical_expr::Expr)
    ensures
        r == stddev_of(e),
{
    datafusion::functions_aggregate::expr_fn::stddev(e)
}

/// Relies on arrow's `DataType` constructors: the engine type a plan
/// schema type stands for.
#[verifier::external_body]
pub fn datatype_of(t: &SchemaDataType) -> (r: datafusion::arrow::datatypes::DataType)
    ensures
        r == engine_type_of(*t),
{
    match t {
        SchemaDataType::ts => DataType::Timestamp(TimeUnit::Second, None),
        SchemaDataType::ms => DataType::Timestamp(TimeUnit::Millisecond, None),
        SchemaDataType::ns => DataType::Timestamp(TimeUnit::Nanosecond, None),
        SchemaDataType::utf8 => DataType::Utf8, SchemaDataType::bool => DataType::Boolean,
        SchemaDataType::null => DataType::Null, SchemaDataType::date => DataType::Date32,
        SchemaDataType::i8 => DataType::Int8, SchemaDataType::i16 => DataType::Int16,
        SchemaDataType::i32 => DataType::Int32, SchemaDataType::i64 => DataType::Int64,
        SchemaDataType::u8 => DataType::UInt8, SchemaDataType::u16 => DataType::UInt16,
        SchemaDataType::u32 => DataType::UInt32, SchemaDataType::u64 => DataType::UInt64,
        SchemaDataType::float16 => DataType::Float16,
        SchemaDataType::float32 => DataType::Float32,
        SchemaDataType::float64 => DataType::Float64,
    }
}

/// Relies on datafusion's `try_cast`: cast to the type, null on failure.
#[verifier::external_body]
pub(crate) fn try_cast_expr(
    e: datafusion::logical_expr::Expr,
    t: datafusion::arrow::datatypes::DataType,
) -> (r: datafusion::logical_expr::Expr)
    ensures
        r == try_cast_of(e, t),
{
    datafusion::prelude::try_cast(e, t)
}

/// Relies on `Expr::sort`: the expression decorated as a sort key.
#[verifier::external_body]
pub(crate) fn sort_key_expr(
    e: datafusion::logical_expr::Expr,
    asc: bool,
    nulls_first: bool,
) -> (r: datafusion::logical_expr::SortExpr)
    ensures
        r == sort_key_of(e, asc, nulls_first),
{
    e.sort(asc, nulls_first)
}

// ---------------------------------------------------------------------
// Relational operators on data frames.  Each consumes its frame(s); on
// success the result is exactly the named operation applied to them.
// ---------------------------------------------------------------------

/// Relies on `DataFrame::clone`: a data frame handle is a cheap,
/// reference-counted view of a lazy logical plan, and its clone is the
/// same logical relation.
#[verifier::external_body]
pub(crate) fn clone_frame(df: &datafusion::dataframe::DataFrame) -> (r:
    datafusion::dataframe::DataFrame)
    ensures
        r == *df,
{
    df.clone()
}

/// Relies on `DataFrame::filter`.
#[verifier::external_body]
pub(crate) fn df_filter(
    df: datafusion::dataframe::DataFrame,
    predicate: datafusion::logical_expr::Expr,
) -> (r: Result<datafusion::dataframe::DataFrame, datafusion::error::DataFusionError>)
    ensures
        r matches Ok(v) ==> v == filter_of(df, predicate),
{
    df.filter(predicate)
}

/// Relies on `DataFrame::select`.
#[verifier::external_body]
pub(crate) fn df_select(
    df: datafusion::dataframe::DataFrame,
    exprs: Vec<datafusion::logical_expr::Expr>,
) -> (r: Result<datafusion::dataframe::DataFrame, datafusion::error::DataFusionError>)
    ensures
        r matches Ok(v) ==> v == select_of(df, exprs@),
{
    df.select(exprs)
}

/// Relies on `DataFrame::sort`.
#[verifier::external_body]
pub(crate) fn df_sort(
    df: datafusion::dataframe::DataFrame,
    keys: Vec<datafusion::logical_expr::SortExpr>,
) -> (r: Result<datafusion::dataframe::DataFrame, datafusion::error::DataFusionError>)
    ensures
        r matches Ok(v) ==> v == sort_of(df, keys@),
{
    df.sort(keys)
}

/// Relies on `DataFrame::aggregate`.
#[verifier::external_body]
pub(crate) fn df_aggregate(
    df: datafusion::dataframe::DataFrame,
    group: Vec<datafusion::logical_expr::Expr>,
    aggr: Vec<datafusion::logical_expr::Expr>,
) -> (r: Result<datafusion::dataframe::DataFrame, datafusion::error::DataFusionError>)
    ensures
        r matches Ok(v) ==> v == aggregate_of(df, group@, aggr@),
{
    df.aggregate(group, aggr)
}

/// Relies on `DataFrame::join`: one engine-native join variant per
/// configured type, keyed on the paired column-name lists, each list
/// resolved against its own side.
#[verifier::external_body]
pub(crate) fn df_join(
    left: datafusion::dataframe::DataFrame,
    right: datafusion::dataframe::DataFrame,
    jt: &JoinType,
    left_cols: &Vec<String>,
    right_cols: &Vec<String>,
) -> (r: Result<datafusion::dataframe::DataFrame, datafusion::error::DataFusionError>)
    ensures
        r matches Ok(v) ==> v == join_of(
            left,
            right,
            *jt,
            str_views(left_cols@),
            str_views(right_cols@),
        ),
{
    let j = match jt {
        JoinType::inner => EngineJoinType::Inner, JoinType::left => EngineJoinType::Left,
        JoinType::right => EngineJoinType::Right, JoinType::full => EngineJoinType::Full,
        JoinType::left_semi => EngineJoinType::LeftSemi, JoinType::right_semi => EngineJoinType::RightSemi,
        JoinType::left_anti => EngineJoinType::LeftAnti, JoinType::right_anti => EngineJoinType::RightAnti,
    };
    let lc: Vec<&str> = left_cols.iter().map(|s| s.as_str()).collect();
    let rc: Vec<&str> = right_cols.iter().map(|s| s.as_str()).collect();
    left.join(right, j, &lc, &rc, None)
}

/// Relies on `DataFrame::union`: plain concatenation.
#[verifier::external_body]
pub(crate) fn df_union(
    left: datafusion::dataframe::DataFrame,
    right: datafusion::dataframe::DataFrame,
) -> (r: Result<datafusion::dataframe::DataFrame, datafusion::error::DataFusionError>)
    ensures
        r matches Ok(v) ==> v == union_of(left, right),
{
    left.union(right)
}

/// Relies on `DataFrame::union_distinct`: concatenation, de-duplicated.
#[verifier::external_body]
pub(crate) fn df_union_distinct(
    left: datafusion::dataframe::DataFrame,
    right: datafusion::dataframe::DataFrame,
) -> (r: Result<datafusion::dataframe::DataFrame, datafusion::error::DataFusionError>)
    ensures
        r matches Ok(v) ==> v == union_distinct_of(left, right),
{
    left.union_distinct(right)
}

/// Relies on `DataFrame::distinct`.
#[verifier::external_body]
pub(crate) fn df_distinct(df: datafusion::dataframe::DataFrame) -> (r: Result<
    datafusion::dataframe::DataFrame,
    datafusion::error::DataFusionError,
>)
    ensures
        r matches Ok(v) ==> v == distinct_of(df),
{
    df.distinct()
}

/// Relies on `DataFrame::except`: the rows of `left` absent from `right`.
#[verifier::external_body]
pub(crate) fn df_except(
    left: datafusion::dataframe::DataFrame,
    right: datafusion::dataframe::DataFrame,
) -> (r: Result<datafusion::dataframe::DataFrame, datafusion::error::DataFusionError>)
    ensures
        r matches Ok(v) ==> v == except_of(left, right),
{
    left.except(right)
}

/// Relies on `DataFrame::intersect`.
#[verifier::external_body]
pub(crate) fn df_intersect(
    left: datafusion::dataframe::DataFrame,
    right: datafusion::dataframe::DataFrame,
) -> (r: Result<datafusion::dataframe::DataFrame, datafusion::error::DataFusionError>)
    ensures
        r matches Ok(v) ==> v == intersect_of(left, right),
{
    left.intersect(right)
}

// ---------------------------------------------------------------------
// Lowering the engine expression model to the engine's own type.  The
// target is fixed as a spec function over the model, by structural
// recursion through the names above; the executable lowering is proved
// to produce exactly it.
// ---------------------------------------------------------------------

/// The engine expression a compiled model lowers to.
pub open spec fn lower_spec(e: SpecExpr) -> datafusion::logical_expr::Expr
    decreases e, 0int,
{
    match e {
        SpecExpr::LitI32(v) => lit_i32_of(v),
        SpecExpr::LitI64(v) => lit_i64_of(v),
        SpecExpr::LitF32Text(t) => lit_float32_of(t),
        SpecExpr::LitF64Text(t) => lit_float64_of(t),
        SpecExpr::LitStr(s) => lit_str_of(s),
        SpecExpr::Column(s) => col_of(s),
        SpecExpr::Unary(f, a) => match f {
            UnaryFn::Abs => abs_of(lower_spec(*a)),
            UnaryFn::Acos => acos_of(lower_spec(*a)),
            UnaryFn::Asin => asin_of(lower_spec(*a)),
            UnaryFn::Atan => atan_of(lower_spec(*a)),
            UnaryFn::Not => not_of(lower_spec(*a)),
            UnaryFn::IsTrue => is_true_of(lower_spec(*a)),
            UnaryFn::IsFalse => is_false_of(lower_spec(*a)),
        },
        SpecExpr::Binary(op, a, b) => binary_of(lower_spec(*a), op, lower_spec(*b)),
        SpecExpr::Aggregate(f, items) => {
            let arr = make_array_of(lower_prefix_spec(items, items.len() as int));
            match f {
                AggFn::Avg => avg_of(arr),
                AggFn::Min => min_of(arr),
                AggFn::Max => max_of(arr),
                AggFn::Sum => sum_of(arr),
                AggFn::Stddev => stddev_of(arr),
            }
        },
        SpecExpr::Cast(a, t) => try_cast_of(lower_spec(*a), engine_type_of(t)),
    }
}

/// The engine expressions the first `i` elements of a compiled list lower
/// to, in order.
pub open spec fn lower_prefix_spec(items: Seq<SpecExpr>, i: int) -> Seq<
    datafusion::logical_expr::Expr,
>
    decreases items, i,
{
    if i <= 0 || i > items.len() {
        Seq::empty()
    } else {
        lower_prefix_spec(items, i - 1).push(lower_spec(items[i - 1]))
    }
}

/// The engine expressions a compiled list lowers to.
pub open spec fn lower_seq_spec(items: Seq<SpecExpr>) -> Seq<datafusion::logical_expr::Expr>
    decreases items, items.len() as int + 1,
{
    lower_prefix_spec(items, items.len() as int)
}

/// The engine sort keys a list of compiled sort keys lowers to.
pub open spec fn lower_keys_spec(keys: Seq<SortKey>) -> Seq<datafusion::logical_expr::SortExpr> {
    keys.map_values(|k: SortKey| sort_key_of(lower_spec(k.expr@), k.asc, k.nulls_first))
}

/// Lower one compiled expression to the engine's expression type.
/// Structural recursion: each node lowers its children first, then applies
/// the corresponding engine primitive; the result is exactly `lower_spec`
/// of the model.  Fails only where a float literal's decimal text is not
/// a number.
pub(crate) fn lower(e: &EngineExpr) -> (r: Result<
    datafusion::logical_expr::Expr,
    datafusion::error::DataFusionError,
>)
    ensures
        r matches Ok(v) ==> v == lower_spec(e@),
    decreases *e, 1int, 0int,
{
    match e {
        EngineExpr::LitI32(v) => Ok(lit_i32(*v)),
        EngineExpr::LitI64(v) => Ok(lit_i64(*v)),
        EngineExpr::LitF32Text(text) => lit_float32_text(text.as_str()),
        EngineExpr::LitF64Text(text) => lit_float64_text(text.as_str()),
        EngineExpr::LitStr(v) => Ok(lit_str(v.as_str())),
        EngineExpr::Column(name) => Ok(col_quoted(name.as_str())),
        EngineExpr::Unary(f, a) => {
            let inner = lower(a)?;
            Ok(
                match f {
                    UnaryFn::Abs => abs_expr(inner),
                    UnaryFn::Acos => acos_expr(inner),
                    UnaryFn::Asin => asin_expr(inner),
                    UnaryFn::Atan => atan_expr(inner),
                    UnaryFn::Not => not_expr(inner),
                    UnaryFn::IsTrue => is_true_expr(inner),
                    UnaryFn::IsFalse => is_false_expr(inner),
                },
            )
        },
        EngineExpr::Binary(op, a, b) => {
            let l = lower(a)?;
            let r = lower(b)?;
            Ok(binary_op_expr(l, op, r))
        },
        EngineExpr::Aggregate(f, items) => {
            let lowered = lower_list(items)?;
            let arr = make_array_expr(lowered);
            Ok(
                match f {
                    AggFn::Avg => avg_expr(arr),
                    AggFn::Min => min_expr(arr),
                    AggFn::Max => max_expr(arr),
                    AggFn::Sum => sum_expr(arr),
                    AggFn::Stddev => stddev_expr(arr),
                },
            )
        },
        EngineExpr::Cast(a, t) => {
            let inner = lower(a)?;
            Ok(try_cast_expr(inner, datatype_of(t)))
        },
    }
}

/// Lower a list of compiled expressions, in order.
pub(crate) fn lower_list(items: &Vec<EngineExpr>) -> (r: Result<
    Vec<datafusion::logical_expr::Expr>,
    datafusion::error::DataFusionError,
>)
    ensures
        r matches Ok(v) ==> v@ == lower_seq_spec(view_expr_seq(items@)),
    decreases items@, items@.len(), 0int,
{
    let mut out: Vec<datafusion::logical_expr::Expr> = Vec::new();
    let n = items.len();
    proof {
        crate::expr::lemma_view_expr_seq_index(items@);
    }
    let mut i: usize = 0;
    while i < n
        invariant
            0 <= i <= n,
            n == items@.len(),
            view_expr_seq(items@).len() == n,
            forall|k: int|
                0 <= k < n ==> #[trigger] view_expr_seq(items@)[k] == crate::expr::view_expr(
                    items@[k],
                ),
            out@ == lower_prefix_spec(view_expr_seq(items@), i as int),
        decreases n - i,
    {
        let lowered = lower(&items[i])?;
        out.push(lowered);
        i = i + 1;
    }
    Ok(out)
}

/// Lower a list of sort keys, in order, keeping direction and null
/// placement.
pub(crate) fn lower_sort_keys(keys: &Vec<SortKey>) -> (r: Result<
    Vec<datafusion::logical_expr::SortExpr>,
    datafusion::error::DataFusionError,
>)
    ensures
        r matches Ok(v) ==> v@ == lower_keys_spec(keys@),
{
    let mut out: Vec<datafusion::logical_expr::SortExpr> = Vec::new();
    let n = keys.len();
    let mut i: usize = 0;
    while i < n
        invariant
            0 <= i <= n,
            n == keys@.len(),
            out@.len() == i,
            forall|k: int|
                0 <= k < i ==> #[trigger] out@[k] == sort_key_of(
                    lower_spec(keys@[k].expr@),
                    keys@[k].asc,
                    keys@[k].nulls_first,
                ),
        decreases n - i,
    {
        let key = &keys[i];
        let lowered = lower(&key.expr)?;
        out.push(sort_key_expr(lowered, key.asc, key.nulls_first));
        i = i + 1;
    }
    proof {
        assert(out@ =~= lower_keys_spec(keys@));
    }
    Ok(out)
}

} // verus!
