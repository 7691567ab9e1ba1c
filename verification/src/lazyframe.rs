//! The operations on lazy query plans that the host can call.
//!
//! A plan is never changed: each operation copies the plan out of its handle,
//! lets the engine build a new plan from the copy, and returns the new plan
//! behind a new handle. Only `lf_collect` and `lf_fetch` make the engine run
//! a plan.

use vstd::prelude::*;
use vstd::string::StringExecFns;
use polars::prelude::{
    all,
    by_name,
    DataFrame,
    Expr,
    JoinArgs,
    JoinType,
    LazyFrame,
    PolarsError,
    Selector,
    SortMultipleOptions,
    UniqueKeepStrategy,
    UnpivotArgsDSL,
};
use crate::error::{engine_result, failure_text, ExplorerError};
use crate::handles::{ExDataFrame, ExExpr, ExLazyFrame};

verus! {

/// A choice of columns of the engine.
#[verifier::external_type_specification]
#[verifier::external_body]
pub struct ExEngineSelector(Selector);

/// The ways in which two plans can be joined.
#[derive(Clone, Copy, Debug, PartialEq, Eq, Structural)]
pub enum JoinKind {
    Left,
    Inner,
    Outer,
    Cross,
}

/// The plan that `LazyFrame::slice` of polars builds: it keeps `length` rows
/// from the row at `offset` on, a negative offset counting from the end.
pub uninterp spec fn plan_slice(plan: LazyFrame, offset: i64, length: u32) -> LazyFrame;

/// The plan that keeps the first `length` rows: the slice from the first row on.
pub open spec fn plan_limit(plan: LazyFrame, length: u32) -> LazyFrame {
    plan_slice(plan, 0, length)
}

/// The plan that keeps the last `length` rows: the slice that begins that
/// many rows before the end.
pub open spec fn plan_tail(plan: LazyFrame, length: u32) -> LazyFrame {
    plan_slice(plan, (-(length as int)) as i64, length)
}

/// The plan that `LazyFrame::filter` of polars builds.
pub uninterp spec fn plan_filter(plan: LazyFrame, predicate: Expr) -> LazyFrame;

/// The plan that `LazyFrame::select` of polars builds.
pub uninterp spec fn plan_select(plan: LazyFrame, exprs: Seq<Expr>) -> LazyFrame;

/// The plan that `LazyFrame::with_columns` of polars builds.
pub uninterp spec fn plan_with_columns(plan: LazyFrame, exprs: Seq<Expr>) -> LazyFrame;

/// The plan that `LazyFrame::sort_by_exprs` of polars builds.
pub uninterp spec fn plan_sort(plan: LazyFrame, exprs: Seq<Expr>, descending: Seq<bool>) -> LazyFrame;

/// The plan that `LazyFrame::unique_stable` of polars builds when it keeps
/// the first of the rows that are equal.
pub uninterp spec fn plan_unique(plan: LazyFrame, subset: Selector) -> LazyFrame;

/// The plan that `LazyFrame::group_by_stable` and `LazyGroupBy::agg` of
/// polars build.
pub uninterp spec fn plan_aggregate(plan: LazyFrame, groups: Seq<Expr>, aggs: Seq<Expr>) -> LazyFrame;

/// The plan that `LazyFrame::rename` of polars builds when a column that is
/// not there is a failure.
pub uninterp spec fn plan_rename(
    plan: LazyFrame,
    existing: Seq<Seq<char>>,
    new: Seq<Seq<char>>,
) -> LazyFrame;

/// The plan that `LazyFrame::drop_nulls` of polars builds.
pub uninterp spec fn plan_drop_nulls(plan: LazyFrame, subset: Option<Selector>) -> LazyFrame;

/// The plan that `LazyFrame::unpivot` of polars builds.
pub uninterp spec fn plan_unpivot(
    plan: LazyFrame,
    on: Option<Selector>,
    index: Selector,
    variable_name: Seq<char>,
    value_name: Seq<char>,
) -> LazyFrame;

/// The plan that `LazyFrame::join` of polars builds.
pub uninterp spec fn plan_join(
    left: LazyFrame,
    right: LazyFrame,
    left_on: Seq<Expr>,
    right_on: Seq<Expr>,
    how: JoinKind,
) -> LazyFrame;

/// The columns that `by_name` of polars chooses, by their exact names.
pub uninterp spec fn selector_by_name(names: Seq<Seq<char>>) -> Selector;

/// The columns that `all` and `Selector::exclude_cols` of polars choose.
pub uninterp spec fn selector_all_but(names: Seq<Seq<char>>) -> Selector;

/// The expression that `Selector::as_expr` of polars makes.
pub uninterp spec fn selector_expr(selector: Selector) -> Expr;

/// The columns that `Expr::into_selector` of polars reads from an expression.
pub uninterp spec fn expr_selector(expr: Expr) -> Option<Selector>;

/// The columns that `|` of polars chooses from two choices.
pub uninterp spec fn selector_union(first: Selector, second: Selector) -> Selector;

/// The names, as sequences of characters.
pub open spec fn names_of(names: Seq<String>) -> Seq<Seq<char>> {
    Seq::new(names.len(), |i: int| names[i]@)
}

/// The names, as sequences of characters.
pub open spec fn strs_of(names: Seq<&str>) -> Seq<Seq<char>> {
    Seq::new(names.len(), |i: int| names[i]@)
}

/// Calls `LazyFrame::slice` of polars. Trusted: the plan that it builds
/// depends on the plan and the two numbers alone.
#[verifier::external_body]
fn lazy_slice(plan: LazyFrame, offset: i64, length: u32) -> (out: LazyFrame)
    ensures
        out == plan_slice(plan, offset, length),
{
    plan.slice(offset, length)
}

/// Calls `LazyFrame::limit` of polars. Trusted: it builds the slice of
/// `length` rows from the first row on.
#[verifier::external_body]
fn lazy_limit(plan: LazyFrame, length: u32) -> (out: LazyFrame)
    ensures
        out == plan_limit(plan, length),
{
    plan.limit(length)
}

/// Calls `LazyFrame::tail` of polars. Trusted: it builds the slice of
/// `length` rows that begins `length` rows before the end.
#[verifier::external_body]
fn lazy_tail(plan: LazyFrame, length: u32) -> (out: LazyFrame)
    ensures
        out == plan_tail(plan, length),
{
    plan.tail(length)
}

/// Calls `LazyFrame::filter` of polars. Trusted: the plan that it builds
/// depends on the plan and the expression alone.
#[verifier::external_body]
fn lazy_filter(plan: LazyFrame, predicate: Expr) -> (out: LazyFrame)
    ensures
        out == plan_filter(plan, predicate),
{
    plan.filter(predicate)
}

/// Calls `LazyFrame::select` of polars. Trusted: the plan that it builds
/// depends on the plan and the expressions alone.
#[verifier::external_body]
fn lazy_select(plan: LazyFrame, exprs: Vec<Expr>) -> (out: LazyFrame)
    ensures
        out == plan_select(plan, exprs@),
{
    plan.select(exprs)
}

/// Calls `LazyFrame::with_columns` of polars. Trusted: the plan that it
/// builds depends on the plan and the expressions alone.
#[verifier::external_body]
fn lazy_with_columns(plan: LazyFrame, exprs: Vec<Expr>) -> (out: LazyFrame)
    ensures
        out == plan_with_columns(plan, exprs@),
{
    plan.with_columns(exprs)
}

/// Calls `LazyFrame::sort_by_exprs` of polars, with the default options of
/// `SortMultipleOptions` but for the directions. Trusted: the plan that it
/// builds depends on the plan, the expressions and the directions alone.
#[verifier::external_body]
fn lazy_sort(plan: LazyFrame, exprs: Vec<Expr>, descending: Vec<bool>) -> (out: LazyFrame)
    ensures
        out == plan_sort(plan, exprs@, descending@),
{
    plan.sort_by_exprs(exprs, SortMultipleOptions::default().with_order_descending_multi(descending))
}

/// Calls `LazyFrame::unique_stable` of polars with
/// `UniqueKeepStrategy::First`. Trusted: the plan that it builds depends on
/// the plan and the choice of columns alone.
#[verifier::external_body]
fn lazy_unique(plan: LazyFrame, subset: Selector) -> (out: LazyFrame)
    ensures
        out == plan_unique(plan, subset),
{
    plan.unique_stable(Some(subset), UniqueKeepStrategy::First)
}

/// Calls `LazyFrame::group_by_stable` of polars and, on the groups,
/// `LazyGroupBy::agg`. Trusted: the plan that they build depends on the plan
/// and the expressions alone.
#[verifier::external_body]
fn lazy_aggregate(plan: LazyFrame, groups: Vec<Expr>, aggs: Vec<Expr>) -> (out: LazyFrame)
    ensures
        out == plan_aggregate(plan, groups@, aggs@),
{
    plan.group_by_stable(groups).agg(aggs)
}

/// Calls `LazyFrame::rename` of polars, strictly. Trusted: the plan that it
/// builds depends on the plan and the names alone.
#[verifier::external_body]
fn lazy_rename(plan: LazyFrame, existing: Vec<String>, new: Vec<String>) -> (out: LazyFrame)
    ensures
        out == plan_rename(plan, names_of(existing@), names_of(new@)),
{
    plan.rename(existing, new, true)
}

/// Calls `LazyFrame::drop_nulls` of polars. Trusted: the plan that it builds
/// depends on the plan and the choice of columns alone.
#[verifier::external_body]
fn lazy_drop_nulls(plan: LazyFrame, subset: Option<Selector>) -> (out: LazyFrame)
    ensures
        out == plan_drop_nulls(plan, subset),
{
    plan.drop_nulls(subset)
}

/// Calls `LazyFrame::unpivot` of polars with the arguments as one
/// `UnpivotArgsDSL`. Trusted: the plan that it builds depends on the
/// arguments alone.
#[verifier::external_body]
fn lazy_unpivot(
    plan: LazyFrame,
    on: Option<Selector>,
    index: Selector,
    variable_name: String,
    value_name: String,
) -> (out: LazyFrame)
    ensures
        out == plan_unpivot(plan, on, index, variable_name@, value_name@),
{
    plan.unpivot(
        UnpivotArgsDSL {
            on,
            index,
            variable_name: Some(variable_name.into()),
            value_name: Some(value_name.into()),
        },
    )
}

/// Calls `LazyFrame::join` of polars with `JoinArgs::new` of the join type
/// that stands for the kind; `Outer` is the join that polars calls `Full`.
/// Trusted: the plan that it builds depends on the arguments alone.
#[verifier::external_body]
fn lazy_join(
    left: LazyFrame,
    right: LazyFrame,
    left_on: Vec<Expr>,
    right_on: Vec<Expr>,
    how: JoinKind,
) -> (out: LazyFrame)
    ensures
        out == plan_join(left, right, left_on@, right_on@, how),
{
    let join_type = match how {
        JoinKind::Left => JoinType::Left,
        JoinKind::Inner => JoinType::Inner,
        JoinKind::Outer => JoinType::Full,
        JoinKind::Cross => JoinType::Cross,
    };
    left.join(right, left_on, right_on, JoinArgs::new(join_type))
}

/// Calls `by_name` of polars, strictly and without patterns. Trusted: the
/// choice that it makes depends on the names alone.
#[verifier::external_body]
fn columns_by_name(names: Vec<String>) -> (selector: Selector)
    ensures
        selector == selector_by_name(names_of(names@)),
{
    by_name(names, true, false)
}

/// Calls `by_name` of polars, strictly and without patterns. Trusted: the
/// choice that it makes depends on the names alone, whether they are owned
/// or lent.
#[verifier::external_body]
fn columns_by_str(names: Vec<&str>) -> (selector: Selector)
    ensures
        selector == selector_by_name(strs_of(names@)),
{
    by_name(names, true, false)
}

/// Calls `all` of polars and `Selector::exclude_cols` on what it gives.
/// Trusted: the choice that they make depends on the names alone.
#[verifier::external_body]
fn columns_all_but(names: Vec<&str>) -> (selector: Selector)
    ensures
        selector == selector_all_but(strs_of(names@)),
{
    all().exclude_cols(names)
}

/// Calls `Selector::as_expr` of polars. Trusted: the expression that it
/// makes depends on the choice of columns alone.
#[verifier::external_body]
fn columns_as_expr(selector: Selector) -> (expr: Expr)
    ensures
        expr == selector_expr(selector),
{
    selector.as_expr()
}

/// Calls `Expr::into_selector` of polars. Trusted: what it reads depends on
/// the expression alone.
#[verifier::external_body]
fn columns_of_expr(expr: Expr) -> (selector: Option<Selector>)
    ensures
        selector == expr_selector(expr),
{
    expr.into_selector()
}

/// Calls `|` of polars on two choices of columns. Trusted: the choice that
/// it makes depends on the two alone.
#[verifier::external_body]
fn columns_union(first: Selector, second: Selector) -> (both: Selector)
    ensures
        both == selector_union(first, second),
{
    first | second
}

/// Calls `LazyFrame::collect` of polars, which runs the plan. Nothing is
/// claimed of what comes back.
#[verifier::external_body]
fn lazy_collect(plan: LazyFrame) -> (outcome: Result<DataFrame, PolarsError>) {
    plan.collect()
}

/// Calls `LazyFrame::explain` of polars, which describes the plan as it
/// stands or, where `optimized` is set, as the engine would run it. Nothing
/// is claimed of what comes back.
#[verifier::external_body]
fn lazy_explain(plan: &LazyFrame, optimized: bool) -> (outcome: Result<String, PolarsError>) {
    plan.explain(optimized)
}

/// Calls `LazyFrame::collect_schema` of polars and hands out the names of
/// the schema (`iter_names`), each as an owned string. Nothing is claimed of
/// what comes back.
#[verifier::external_body]
fn lazy_schema_names(plan: LazyFrame) -> (outcome: Result<Vec<String>, PolarsError>) {
    let mut plan = plan;
    let schema = plan.collect_schema()?;
    Ok(schema.iter_names().map(|name| name.to_string()).collect())
}

/// Calls `LazyFrame::collect_schema` of polars and hands out the types of
/// the schema (`iter_values`), each as the engine prints it. Nothing is
/// claimed of what comes back.
#[verifier::external_body]
fn lazy_schema_dtypes(plan: LazyFrame) -> (outcome: Result<Vec<String>, PolarsError>) {
    let mut plan = plan;
    let schema = plan.collect_schema()?;
    Ok(schema.iter_values().map(|dtype| dtype.to_string()).collect())
}

/// The expressions behind the handles, in order.
pub open spec fn exprs_of(expressions: Seq<ExExpr>) -> Seq<Expr> {
    Seq::new(expressions.len(), |i: int| expressions[i].inner())
}

/// Copies the expressions out of their handles, in order.
pub fn ex_expr_to_exprs(expressions: Vec<ExExpr>) -> (exprs: Vec<Expr>)
    ensures
        exprs@ == exprs_of(expressions@),
{
    let mut exprs: Vec<Expr> = Vec::new();
    let mut i: usize = 0;
    while i < expressions.len()
        invariant
            0 <= i <= expressions.len(),
            exprs@ == exprs_of(expressions@).take(i as int),
        decreases expressions.len() - i,
    {
        exprs.push(expressions[i].clone_inner());
        assert(exprs@ =~= exprs_of(expressions@).take(i as int + 1));
        i += 1;
    }
    assert(exprs_of(expressions@).take(i as int) =~= exprs_of(expressions@));
    exprs
}

/// The join that a word of the host names, if it names one.
pub open spec fn join_kind_of(how: Seq<char>) -> Option<JoinKind> {
    if how == "left"@ {
        Some(JoinKind::Left)
    } else if how == "inner"@ {
        Some(JoinKind::Inner)
    } else if how == "outer"@ {
        Some(JoinKind::Outer)
    } else if how == "cross"@ {
        Some(JoinKind::Cross)
    } else {
        None
    }
}

/// The words with which a join that has no name is turned down.
pub open spec fn unsupported_join_message(how: Seq<char>) -> Seq<char> {
    "Join method "@ + how + " not supported"@
}

/// Reads the kind of a join from the word that the host sent: `left`,
/// `inner`, `outer` or `cross`. Any other word is turned down, by name.
pub fn parse_join_kind(how: &str) -> (kind: Result<JoinKind, ExplorerError>)
    ensures
        match join_kind_of(how@) {
            Some(named) => kind == Ok::<JoinKind, ExplorerError>(named),
            None => kind matches Err(ExplorerError::Other(message)) && message@
                == unsupported_join_message(how@),
        },
{
    let word = how.to_owned();
    if word == "left".to_owned() {
        Ok(JoinKind::Left)
    } else if word == "inner".to_owned() {
        Ok(JoinKind::Inner)
    } else if word == "outer".to_owned() {
        Ok(JoinKind::Outer)
    } else if word == "cross".to_owned() {
        Ok(JoinKind::Cross)
    } else {
        let message = String::from_str("Join method ").concat(how).concat(" not supported");
        Err(ExplorerError::Other(message))
    }
}

/// What running a plan yielded, as this library reports it: the dataframe
/// behind a new handle that is made for it, a failure in the engine's words.
pub fn collected(outcome: Result<DataFrame, PolarsError>) -> (result: Result<
    ExDataFrame,
    ExplorerError,
>)
    ensures
        match outcome {
            Ok(df) => result matches Ok(handle) && handle.made_for() == df,
            Err(failure) => result matches Err(ExplorerError::Polars { message }) && message@
                == failure_text(failure),
        },
{
    match engine_result(outcome) {
        Ok(df) => Ok(ExDataFrame::new(df)),
        Err(failure) => Err(failure),
    }
}

/// Runs the plan and returns the dataframe that it yields behind a new
/// handle. A failure of the engine is reported in the engine's words.
pub fn lf_collect(data: ExLazyFrame) -> (result: Result<ExDataFrame, ExplorerError>)
    ensures
        result matches Err(failure) ==> failure is Polars,
{
    collected(lazy_collect(data.clone_inner()))
}

/// The number of rows to which a plan is cut before it is run for a sample:
/// the number asked for, or the largest that the engine can count.
pub open spec fn fetch_limit(n_rows: usize) -> u32 {
    if n_rows > u32::MAX {
        u32::MAX
    } else {
        n_rows as u32
    }
}

/// The plan that is run for a sample: the plan behind the handle, cut to its
/// first `n_rows` rows.
pub fn fetch_plan(data: &ExLazyFrame, n_rows: usize) -> (plan: LazyFrame)
    ensures
        plan == plan_limit(data.inner(), fetch_limit(n_rows)),
{
    lazy_limit(data.clone_inner(), fetch_rows(n_rows))
}

/// Runs the plan on its first `n_rows` rows and returns the dataframe that
/// this yields behind a new handle.
pub fn lf_fetch(data: ExLazyFrame, n_rows: usize) -> (result: Result<ExDataFrame, ExplorerError>)
    ensures
        result matches Err(failure) ==> failure is Polars,
{
    collected(lazy_collect(fetch_plan(&data, n_rows)))
}

/// The number of rows of a sample as the engine counts rows.
pub fn fetch_rows(n_rows: usize) -> (length: u32)
    ensures
        length == fetch_limit(n_rows),
{
    if n_rows > u32::MAX as usize {
        u32::MAX
    } else {
        n_rows as u32
    }
}

/// Describes the plan in words, as it stands or as the engine would run it.
pub fn lf_describe_plan(data: ExLazyFrame, optimized: bool) -> (result: Result<
    String,
    ExplorerError,
>)
    ensures
        result matches Err(failure) ==> failure is Polars,
{
    let lf = data.clone_inner();
    engine_result(lazy_explain(&lf, optimized))
}

/// The plan that keeps the first `length` rows.
pub fn lf_head(data: ExLazyFrame, length: u32) -> (result: Result<ExLazyFrame, ExplorerError>)
    ensures
        result matches Ok(handle) && handle.inner() == plan_limit(data.inner(), length),
{
    let lf = data.clone_inner();
    Ok(ExLazyFrame::new(lazy_limit(lf, length)))
}

/// The plan that keeps the last `length` rows.
pub fn lf_tail(data: ExLazyFrame, length: u32) -> (result: Result<ExLazyFrame, ExplorerError>)
    ensures
        result matches Ok(handle) && handle.inner() == plan_tail(data.inner(), length),
{
    let lf = data.clone_inner();
    Ok(ExLazyFrame::new(lazy_tail(lf, length)))
}

/// The names of the columns that the plan yields, in order.
pub fn lf_names(data: ExLazyFrame) -> (result: Result<Vec<String>, ExplorerError>)
    ensures
        result matches Err(failure) ==> failure is Polars,
{
    engine_result(lazy_schema_names(data.clone_inner()))
}

/// The types of the columns that the plan yields, in order, each as the
/// engine prints it.
pub fn lf_dtypes(data: ExLazyFrame) -> (result: Result<Vec<String>, ExplorerError>)
    ensures
        result matches Err(failure) ==> failure is Polars,
{
    engine_result(lazy_schema_dtypes(data.clone_inner()))
}

/// The plan that keeps the named columns.
pub fn lf_select(data: ExLazyFrame, columns: Vec<&str>) -> (result: Result<
    ExLazyFrame,
    ExplorerError,
>)
    ensures
        result matches Ok(handle) && handle.inner() == plan_select(
            data.inner(),
            seq![selector_expr(selector_by_name(strs_of(columns@)))],
        ),
{
    let mut exprs: Vec<Expr> = Vec::new();
    exprs.push(columns_as_expr(columns_by_str(columns)));
    assert(exprs@ =~= seq![selector_expr(selector_by_name(strs_of(columns@)))]);
    let lf = lazy_select(data.clone_inner(), exprs);
    Ok(ExLazyFrame::new(lf))
}

/// The plan that keeps every column but the named ones.
pub fn lf_drop(data: ExLazyFrame, columns: Vec<&str>) -> (result: Result<
    ExLazyFrame,
    ExplorerError,
>)
    ensures
        result matches Ok(handle) && handle.inner() == plan_select(
            data.inner(),
            seq![selector_expr(selector_all_but(strs_of(columns@)))],
        ),
{
    let mut exprs: Vec<Expr> = Vec::new();
    exprs.push(columns_as_expr(columns_all_but(columns)));
    assert(exprs@ =~= seq![selector_expr(selector_all_but(strs_of(columns@)))]);
    let lf = lazy_select(data.clone_inner(), exprs);
    Ok(ExLazyFrame::new(lf))
}

/// The plan that keeps `length` rows from the row at `offset` on; a negative
/// offset counts from the end.
pub fn lf_slice(data: ExLazyFrame, offset: i64, length: u32) -> (result: Result<
    ExLazyFrame,
    ExplorerError,
>)
    ensures
        result matches Ok(handle) && handle.inner() == plan_slice(data.inner(), offset, length),
{
    let lf = data.clone_inner();
    Ok(ExLazyFrame::new(lazy_slice(lf, offset, length)))
}

/// The plan that keeps the rows for which the expression holds.
pub fn lf_filter_with(data: ExLazyFrame, ex_expr: ExExpr) -> (result: Result<
    ExLazyFrame,
    ExplorerError,
>)
    ensures
        result matches Ok(handle) && handle.inner() == plan_filter(
            data.inner(),
            ex_expr.inner(),
        ),
{
    let ldf = data.clone_inner();
    let expr = ex_expr.clone_inner();
    Ok(ExLazyFrame::new(lazy_filter(ldf, expr)))
}

/// The plan that orders the rows by the expressions, each in its direction:
/// `true` is descending.
pub fn lf_arrange_with(data: ExLazyFrame, expressions: Vec<ExExpr>, directions: Vec<bool>) -> (result:
    Result<ExLazyFrame, ExplorerError>)
    ensures
        result matches Ok(handle) && handle.inner() == plan_sort(
            data.inner(),
            exprs_of(expressions@),
            directions@,
        ),
{
    let exprs = ex_expr_to_exprs(expressions);
    let ldf = lazy_sort(data.clone_inner(), exprs, directions);
    Ok(ExLazyFrame::new(ldf))
}

/// The plan that `lf_distinct` builds.
pub open spec fn distinct_plan(
    plan: LazyFrame,
    subset: Seq<Seq<char>>,
    columns_to_keep: Option<Seq<Expr>>,
) -> LazyFrame {
    let unique = plan_unique(plan, selector_by_name(subset));
    match columns_to_keep {
        Some(columns) => plan_select(unique, columns),
        None => unique,
    }
}

/// The plan that keeps, of the rows that are equal in the columns of
/// `subset`, the first, and of the columns those of `columns_to_keep`, or
/// all of them where none are given.
pub fn lf_distinct(
    data: ExLazyFrame,
    subset: Vec<String>,
    columns_to_keep: Option<Vec<ExExpr>>,
) -> (result: Result<ExLazyFrame, ExplorerError>)
    ensures
        result matches Ok(handle) && handle.inner() == distinct_plan(
            data.inner(),
            names_of(subset@),
            match columns_to_keep {
                Some(columns) => Some(exprs_of(columns@)),
                None => None,
            },
        ),
{
    let df = data.clone_inner();
    let new_df = lazy_unique(df, columns_by_name(subset));
    match columns_to_keep {
        Some(columns) => Ok(ExLazyFrame::new(lazy_select(new_df, ex_expr_to_exprs(columns)))),
        None => Ok(ExLazyFrame::new(new_df)),
    }
}

/// The plan that adds the columns of the expressions, or puts them in the
/// place of columns of the same name.
pub fn lf_mutate_with(data: ExLazyFrame, columns: Vec<ExExpr>) -> (result: Result<
    ExLazyFrame,
    ExplorerError,
>)
    ensures
        result matches Ok(handle) && handle.inner() == plan_with_columns(
            data.inner(),
            exprs_of(columns@),
        ),
{
    let ldf = data.clone_inner();
    let mutations = ex_expr_to_exprs(columns);
    Ok(ExLazyFrame::new(lazy_with_columns(ldf, mutations)))
}

/// The plan that groups the rows by `groups`, keeping the order of the
/// groups, and computes `aggs` for each group.
pub fn lf_summarise_with(data: ExLazyFrame, groups: Vec<ExExpr>, aggs: Vec<ExExpr>) -> (result:
    Result<ExLazyFrame, ExplorerError>)
    ensures
        result matches Ok(handle) && handle.inner() == plan_aggregate(
            data.inner(),
            exprs_of(groups@),
            exprs_of(aggs@),
        ),
{
    let ldf = data.clone_inner();
    let groups = ex_expr_to_exprs(groups);
    let aggs = ex_expr_to_exprs(aggs);
    let new_df = lazy_aggregate(ldf, groups, aggs);
    Ok(ExLazyFrame::new(new_df))
}

/// The first names of the pairs, in order.
pub open spec fn firsts_of(renames: Seq<(&str, &str)>) -> Seq<Seq<char>> {
    Seq::new(renames.len(), |i: int| renames[i].0@)
}

/// The second names of the pairs, in order.
pub open spec fn seconds_of(renames: Seq<(&str, &str)>) -> Seq<Seq<char>> {
    Seq::new(renames.len(), |i: int| renames[i].1@)
}

/// Parts a list of pairs of names into the list of the first names and the
/// list of the second names.
pub fn unzip_renames(renames: &Vec<(&str, &str)>) -> (names: (Vec<String>, Vec<String>))
    ensures
        names_of(names.0@) == firsts_of(renames@),
        names_of(names.1@) == seconds_of(renames@),
{
    let mut existing: Vec<String> = Vec::new();
    let mut new: Vec<String> = Vec::new();
    let mut i: usize = 0;
    while i < renames.len()
        invariant
            0 <= i <= renames.len(),
            existing@.len() == i,
            new@.len() == i,
            names_of(existing@) == firsts_of(renames@).take(i as int),
            names_of(new@) == seconds_of(renames@).take(i as int),
        decreases renames.len() - i,
    {
        let ghost existing_before = existing@;
        let ghost new_before = new@;
        let from: &str = renames[i].0;
        let to: &str = renames[i].1;
        let from_owned = from.to_owned();
        let to_owned = to.to_owned();
        existing.push(from_owned);
        new.push(to_owned);
        assert forall|k: int| 0 <= k < i + 1 implies #[trigger] names_of(existing@)[k]
            == firsts_of(renames@).take(i as int + 1)[k] by {
            if k < i {
                assert(existing@[k] == existing_before[k]);
                assert(names_of(existing_before)[k] == firsts_of(renames@).take(i as int)[k]);
            }
        }
        assert forall|k: int| 0 <= k < i + 1 implies #[trigger] names_of(new@)[k] == seconds_of(
            renames@,
        ).take(i as int + 1)[k] by {
            if k < i {
                assert(new@[k] == new_before[k]);
                assert(names_of(new_before)[k] == seconds_of(renames@).take(i as int)[k]);
            }
        }
        assert(names_of(existing@) =~= firsts_of(renames@).take(i as int + 1));
        assert(names_of(new@) =~= seconds_of(renames@).take(i as int + 1));
        i += 1;
    }
    assert(firsts_of(renames@).take(i as int) =~= firsts_of(renames@));
    assert(seconds_of(renames@).take(i as int) =~= seconds_of(renames@));
    (existing, new)
}

/// The plan that gives each column named first in a pair the name that is
/// second in that pair.
pub fn lf_rename_columns(data: ExLazyFrame, renames: Vec<(&str, &str)>) -> (result: Result<
    ExLazyFrame,
    ExplorerError,
>)
    ensures
        result matches Ok(handle) && handle.inner() == plan_rename(
            data.inner(),
            firsts_of(renames@),
            seconds_of(renames@),
        ),
{
    let df = data.clone_inner();
    let (existing, new) = unzip_renames(&renames);
    Ok(ExLazyFrame::new(lazy_rename(df, existing, new)))
}

/// The columns that all the expressions choose together: none for no
/// expression, and no choice at all where one of them does not choose columns.
pub open spec fn selector_of_exprs(exprs: Seq<Expr>) -> Option<Selector>
    decreases exprs.len(),
{
    if exprs.len() == 0 {
        Some(selector_by_name(Seq::empty()))
    } else {
        match (selector_of_exprs(exprs.drop_last()), expr_selector(exprs.last())) {
            (Some(before), Some(last)) => Some(selector_union(before, last)),
            _ => None,
        }
    }
}

/// Where the first expressions choose no columns together, all of them do not.
pub proof fn lemma_selector_of_exprs_fails_on(exprs: Seq<Expr>, n: int)
    requires
        0 <= n <= exprs.len(),
        selector_of_exprs(exprs.take(n)) is None,
    ensures
        selector_of_exprs(exprs) is None,
    decreases exprs.len() - n,
{
    if n < exprs.len() {
        assert(exprs.take(n + 1).drop_last() =~= exprs.take(n));
        lemma_selector_of_exprs_fails_on(exprs, n + 1);
    } else {
        assert(exprs.take(n) =~= exprs);
    }
}

/// The columns that the expressions behind the handles choose together.
pub fn columns_of_handles(columns: &Vec<ExExpr>) -> (selector: Option<Selector>)
    ensures
        selector == selector_of_exprs(exprs_of(columns@)),
{
    let ghost exprs = exprs_of(columns@);
    let mut chosen = columns_by_name(Vec::new());
    let mut i: usize = 0;
    assert(names_of(Seq::<String>::empty()) =~= Seq::<Seq<char>>::empty());
    assert(exprs.take(0) =~= Seq::<Expr>::empty());
    while i < columns.len()
        invariant
            0 <= i <= columns.len(),
            exprs == exprs_of(columns@),
            selector_of_exprs(exprs.take(i as int)) == Some(chosen),
        decreases columns.len() - i,
    {
        assert(exprs.take(i as int + 1).drop_last() =~= exprs.take(i as int));
        assert(exprs.take(i as int + 1).last() == columns@[i as int].inner());
        match columns_of_expr(columns[i].clone_inner()) {
            Some(next) => {
                chosen = columns_union(chosen, next);
            },
            None => {
                proof {
                    lemma_selector_of_exprs_fails_on(exprs, i as int + 1);
                }
                return None;
            },
        }
        i += 1;
    }
    assert(exprs.take(i as int) =~= exprs);
    Some(chosen)
}

/// The words with which a subset that does not choose columns is turned down.
pub open spec fn not_columns_message() -> Seq<char> {
    "drop_nils expects a subset made of columns"@
}

/// The plan that drops the rows with a null in one of the columns that the
/// expressions of `subset` choose, or in any column where no subset is
/// given. A subset with an expression that does not choose columns is turned
/// down.
pub fn lf_drop_nils(data: ExLazyFrame, subset: Option<Vec<ExExpr>>) -> (result: Result<
    ExLazyFrame,
    ExplorerError,
>)
    ensures
        match subset {
            None => result matches Ok(handle) && handle.inner() == plan_drop_nulls(
                data.inner(),
                None,
            ),
            Some(columns) => match selector_of_exprs(exprs_of(columns@)) {
                Some(selector) => result matches Ok(handle) && handle.inner() == plan_drop_nulls(
                    data.inner(),
                    Some(selector),
                ),
                None => result matches Err(ExplorerError::Other(message)) && message@
                    == not_columns_message(),
            },
        },
{
    let ldf = data.clone_inner();
    match subset {
        None => Ok(ExLazyFrame::new(lazy_drop_nulls(ldf, None))),
        Some(columns) => match columns_of_handles(&columns) {
            Some(selector) => Ok(ExLazyFrame::new(lazy_drop_nulls(ldf, Some(selector)))),
            None => Err(
                ExplorerError::Other(String::from_str("drop_nils expects a subset made of columns")),
            ),
        },
    }
}

/// The plan that turns the columns of `value_vars`, or every column that is
/// not among `id_vars` where `value_vars` is empty, into rows: the name of
/// the column goes to the column `names_to`, its value to the column
/// `values_to`, and the columns of `id_vars` are kept beside them.
pub fn lf_pivot_longer(
    data: ExLazyFrame,
    id_vars: Vec<String>,
    value_vars: Vec<String>,
    names_to: String,
    values_to: String,
) -> (result: Result<ExLazyFrame, ExplorerError>)
    ensures
        result matches Ok(handle) && handle.inner() == plan_unpivot(
            data.inner(),
            if value_vars@.len() == 0 {
                None
            } else {
                Some(selector_by_name(names_of(value_vars@)))
            },
            selector_by_name(names_of(id_vars@)),
            names_to@,
            values_to@,
        ),
{
    let ldf = data.clone_inner();
    let on = if value_vars.len() == 0 {
        None
    } else {
        Some(columns_by_name(value_vars))
    };
    let index = columns_by_name(id_vars);
    let new_df = lazy_unpivot(ldf, on, index, names_to, values_to);
    Ok(ExLazyFrame::new(new_df))
}

/// The plan that joins the rows of two plans on the given expressions, in
/// the way that `how` names: `left`, `inner`, `outer` or `cross`. Any other
/// word is turned down, by name, before either plan is touched.
pub fn lf_join(
    data: ExLazyFrame,
    other: ExLazyFrame,
    left_on: Vec<ExExpr>,
    right_on: Vec<ExExpr>,
    how: &str,
) -> (result: Result<ExLazyFrame, ExplorerError>)
    ensures
        match join_kind_of(how@) {
            Some(kind) => result matches Ok(handle) && handle.inner() == plan_join(
                data.inner(),
                other.inner(),
                exprs_of(left_on@),
                exprs_of(right_on@),
                kind,
            ),
            None => result matches Err(ExplorerError::Other(message)) && message@
                == unsupported_join_message(how@),
        },
{
    let how = match parse_join_kind(how) {
        Ok(kind) => kind,
        Err(failure) => {
            return Err(failure);
        },
    };
    let ldf = data.clone_inner();
    let ldf1 = other.clone_inner();
    let new_ldf = lazy_join(ldf, ldf1, ex_expr_to_exprs(left_on), ex_expr_to_exprs(right_on), how);
    Ok(ExLazyFrame::new(new_ldf))
}

} // verus!
