use vstd::prelude::*;

use datafusion::dataframe::DataFrame;
use datafusion::error::DataFusionError;

use crate::config::{
    FilterConfig, JoinConfig, MapConfig, SelectConfig, SortConfig, SummarizeConfig, UnionConfig,
};
use crate::engine::{
    aggregate_of, alias_expr, alias_of, col_of, col_quoted, df_aggregate, df_distinct, df_except,
    df_filter, df_intersect, df_join, df_select, df_sort, df_union, df_union_distinct,
    distinct_of, except_of, filter_of, intersect_of, join_of, lower, lower_keys_spec, lower_list,
    lower_seq_spec, lower_sort_keys, lower_spec, select_of, sort_of, str_views, union_distinct_of,
    union_of,
};
use crate::expr::view_expr_seq;
use crate::plans::InputSide;

verus! {

/// The pending-inputs accumulator of one node: at most one primary and one
/// secondary materialized result.  An entry is filled as upstream results
/// arrive and consumed exactly once, when the node executes.
pub struct Data {
    pub left: Option<DataFrame>,
    pub right: Option<DataFrame>,
}

impl Data {
    /// An accumulator with both slots empty.
    pub fn empty() -> (r: Data)
        ensures
            r.left is None,
            r.right is None,
    {
        Data { left: None, right: None }
    }

    /// Deliver a result into one input slot; the other slot is untouched.
    pub fn set(&mut self, side: InputSide, df: DataFrame)
        ensures
            side == InputSide::left ==> final(self).left == Some(df) && final(self).right == old(self).right,
            side == InputSide::right ==> final(self).right == Some(df) && final(self).left == old(self).left,
    {
        match side {
            InputSide::left => self.left = Some(df),
            InputSide::right => self.right = Some(df),
        }
    }
}

/// The rows of the primary input absent from the secondary input.
/// Consumes both slots; on engine success the result is exactly the
/// engine's set difference of them.
pub fn difference(data: &mut Data) -> (r: Result<Option<DataFrame>, DataFusionError>)
    requires
        old(data).left is Some,
        old(data).right is Some,
    ensures
        final(data).left is None,
        final(data).right is None,
        r matches Ok(o) ==> o == Some(except_of(old(data).left->0, old(data).right->0)),
{
    let left = data.left.take().unwrap();
    let right = data.right.take().unwrap();
    match df_except(left, right) {
        Ok(df) => Ok(Some(df)),
        Err(e) => Err(e),
    }
}

/// The primary input with duplicate rows removed.
pub fn distinct(data: &mut Data) -> (r: Result<Option<DataFrame>, DataFusionError>)
    requires
        old(data).left is Some,
    ensures
        final(data).left is None,
        final(data).right == old(data).right,
        r matches Ok(o) ==> o == Some(distinct_of(old(data).left->0)),
{
    let df = data.left.take().unwrap();
    match df_distinct(df) {
        Ok(df) => Ok(Some(df)),
        Err(e) => Err(e),
    }
}

/// The rows common to the primary and secondary inputs.
pub fn intersect(data: &mut Data) -> (r: Result<Option<DataFrame>, DataFusionError>)
    requires
        old(data).left is Some,
        old(data).right is Some,
    ensures
        final(data).left is None,
        final(data).right is None,
        r matches Ok(o) ==> o == Some(intersect_of(old(data).left->0, old(data).right->0)),
{
    let left = data.left.take().unwrap();
    let right = data.right.take().unwrap();
    match df_intersect(left, right) {
        Ok(df) => Ok(Some(df)),
        Err(e) => Err(e),
    }
}

/// The rows of the primary input on which the compiled predicate is true:
/// on engine success, exactly the engine's filter of the input by the
/// lowered predicate.
pub fn filter(data: &mut Data, config: &FilterConfig) -> (r: Result<
    Option<DataFrame>,
    DataFusionError,
>)
    requires
        old(data).left is Some,
    ensures
        final(data).left is None,
        final(data).right == old(data).right,
        r matches Ok(o) ==> o == Some(
            filter_of(old(data).left->0, lower_spec(config.expr@)),
        ),
{
    let df = data.left.take().unwrap();
    let predicate = match lower(&config.expr) {
        Ok(e) => e,
        Err(e) => {
            return Err(e);
        },
    };
    match df_filter(df, predicate) {
        Ok(df) => Ok(Some(df)),
        Err(e) => Err(e),
    }
}

/// Join the primary and secondary inputs on the configured key pairs with
/// the configured variant.  The key lists pair off one to one, which the
/// configuration guarantees; on engine success the result is exactly the
/// engine's join of the two inputs on them.
pub fn join(data: &mut Data, config: &JoinConfig) -> (r: Result<
    Option<DataFrame>,
    DataFusionError,
>)
    requires
        old(data).left is Some,
        old(data).right is Some,
        config.wf(),
    ensures
        final(data).left is None,
        final(data).right is None,
        r matches Ok(o) ==> o == Some(
            join_of(
                old(data).left->0,
                old(data).right->0,
                config.join_type,
                str_views(config.left_cols@),
                str_views(config.right_cols@),
            ),
        ),
{
    let left = data.left.take().unwrap();
    let right = data.right.take().unwrap();
    match df_join(left, right, &config.join_type, &config.left_cols, &config.right_cols) {
        Ok(df) => Ok(Some(df)),
        Err(e) => Err(e),
    }
}

/// Project the primary input onto the compiled column expressions: on
/// engine success, exactly the engine's projection onto the lowered list.
pub fn project(data: &mut Data, config: &MapConfig) -> (r: Result<
    Option<DataFrame>,
    DataFusionError,
>)
    requires
        old(data).left is Some,
    ensures
        final(data).left is None,
        final(data).right == old(data).right,
        r matches Ok(o) ==> o == Some(
            select_of(old(data).left->0, lower_seq_spec(view_expr_seq(config.exprs@))),
        ),
{
    let df = data.left.take().unwrap();
    let exprs = match lower_list(&config.exprs) {
        Ok(es) => es,
        Err(e) => {
            return Err(e);
        },
    };
    match df_select(df, exprs) {
        Ok(df) => Ok(Some(df)),
        Err(e) => Err(e),
    }
}

/// The first rename that applies to `column`, scanning from position `i`.
pub open spec fn spec_find_alias_from(
    aliases: Seq<(String, String)>,
    column: Seq<char>,
    i: int,
) -> Option<Seq<char>>
    decreases aliases.len() - i,
{
    if i < 0 || i >= aliases.len() {
        None
    } else if aliases[i].0@ == column {
        Some(aliases[i].1@)
    } else {
        spec_find_alias_from(aliases, column, i + 1)
    }
}

/// The first rename that applies to `column`, if any.
pub open spec fn spec_find_alias(
    aliases: Seq<(String, String)>,
    column: Seq<char>,
) -> Option<Seq<char>> {
    spec_find_alias_from(aliases, column, 0)
}

/// The first rename that applies to `column`, if any.
pub fn find_alias<'a>(aliases: &'a Vec<(String, String)>, column: &String) -> (r: Option<
    &'a String,
>)
    ensures
        match r {
            Some(a) => spec_find_alias(aliases@, column@) == Some(a@),
            None => spec_find_alias(aliases@, column@) is None,
        },
{
    let n = aliases.len();
    let mut i: usize = 0;
    while i < n
        invariant
            0 <= i <= n,
            n == aliases@.len(),
            spec_find_alias(aliases@, column@) == spec_find_alias_from(
                aliases@,
                column@,
                i as int,
            ),
        decreases n - i,
    {
        if aliases[i].0 == *column {
            return Some(&aliases[i].1);
        }
        i = i + 1;
    }
    None
}

/// The engine expressions a column pick stands for: each column quoted,
/// renamed by its first applicable alias.
pub open spec fn spec_select_exprs(
    columns: Seq<String>,
    aliases: Seq<(String, String)>,
) -> Seq<datafusion::logical_expr::Expr> {
    columns.map_values(
        |c: String|
            match spec_find_alias(aliases, c@) {
                Some(a) => alias_of(col_of(c@), a),
                None => col_of(c@),
            },
    )
}

/// Keep the configured columns of the primary input, in order, renaming
/// each one by its first applicable alias: on engine success, exactly the
/// engine's projection onto those column expressions.
pub fn select(data: &mut Data, config: &SelectConfig) -> (r: Result<
    Option<DataFrame>,
    DataFusionError,
>)
    requires
        old(data).left is Some,
    ensures
        final(data).left is None,
        final(data).right == old(data).right,
        r matches Ok(o) ==> o == Some(
            select_of(
                old(data).left->0,
                spec_select_exprs(config.columns@, config.aliases@),
            ),
        ),
{
    let df = data.left.take().unwrap();
    let mut exprs: Vec<datafusion::logical_expr::Expr> = Vec::new();
    let n = config.columns.len();
    let mut i: usize = 0;
    while i < n
        invariant
            0 <= i <= n,
            n == config.columns@.len(),
            exprs@.len() == i,
            forall|k: int|
                0 <= k < i ==> #[trigger] exprs@[k] == spec_select_exprs(
                    config.columns@,
                    config.aliases@,
                )[k],
        decreases n - i,
    {
        let c = &config.columns[i];
        let e = match find_alias(&config.aliases, c) {
            Some(alias) => alias_expr(col_quoted(c.as_str()), alias.as_str()),
            None => col_quoted(c.as_str()),
        };
        exprs.push(e);
        i = i + 1;
    }
    proof {
        assert(exprs@ =~= spec_select_exprs(config.columns@, config.aliases@));
    }
    match df_select(df, exprs) {
        Ok(df) => Ok(Some(df)),
        Err(e) => Err(e),
    }
}

/// Sort the primary input by the compiled keys: on engine success,
/// exactly the engine's sort of the input by the lowered keys.
pub fn sort(data: &mut Data, config: &SortConfig) -> (r: Result<
    Option<DataFrame>,
    DataFusionError,
>)
    requires
        old(data).left is Some,
    ensures
        final(data).left is None,
        final(data).right == old(data).right,
        r matches Ok(o) ==> o == Some(
            sort_of(old(data).left->0, lower_keys_spec(config.exprs@)),
        ),
{
    let df = data.left.take().unwrap();
    let keys = match lower_sort_keys(&config.exprs) {
        Ok(ks) => ks,
        Err(e) => {
            return Err(e);
        },
    };
    match df_sort(df, keys) {
        Ok(df) => Ok(Some(df)),
        Err(e) => Err(e),
    }
}

/// Group the primary input by the compiled grouping expressions and apply
/// the compiled aggregates: on engine success, exactly the engine's
/// aggregation of the input over the lowered lists.
pub fn summarize(data: &mut Data, config: &SummarizeConfig) -> (r: Result<
    Option<DataFrame>,
    DataFusionError,
>)
    requires
        old(data).left is Some,
    ensures
        final(data).left is None,
        final(data).right == old(data).right,
        r matches Ok(o) ==> o == Some(
            aggregate_of(
                old(data).left->0,
                lower_seq_spec(view_expr_seq(config.group@)),
                lower_seq_spec(view_expr_seq(config.aggr@)),
            ),
        ),
{
    let df = data.left.take().unwrap();
    let group = match lower_list(&config.group) {
        Ok(es) => es,
        Err(e) => {
            return Err(e);
        },
    };
    let aggr = match lower_list(&config.aggr) {
        Ok(es) => es,
        Err(e) => {
            return Err(e);
        },
    };
    match df_aggregate(df, group, aggr) {
        Ok(df) => Ok(Some(df)),
        Err(e) => Err(e),
    }
}

/// Concatenate the primary and secondary inputs; with the distinct flag
/// set, de-duplicate the concatenation.  On engine success the result is
/// exactly the engine operation the flag selects.
pub fn union(data: &mut Data, config: &UnionConfig) -> (r: Result<
    Option<DataFrame>,
    DataFusionError,
>)
    requires
        old(data).left is Some,
        old(data).right is Some,
    ensures
        final(data).left is None,
        final(data).right is None,
        r matches Ok(o) ==> o == Some(
            if config.distinct {
                union_distinct_of(old(data).left->0, old(data).right->0)
            } else {
                union_of(old(data).left->0, old(data).right->0)
            },
        ),
{
    let left = data.left.take().unwrap();
    let right = data.right.take().unwrap();
    let joined = if config.distinct {
        df_union_distinct(left, right)
    } else {
        df_union(left, right)
    };
    match joined {
        Ok(df) => Ok(Some(df)),
        Err(e) => Err(e),
    }
}

} // verus!
