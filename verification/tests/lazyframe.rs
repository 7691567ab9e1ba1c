use explorer::error::{engine_result, ExplorerError};
use explorer::handles::{ExDataFrame, ExExpr, ExLazyFrame};
use explorer::lazyframe::{
    collected, ex_expr_to_exprs, fetch_plan, fetch_rows, lf_arrange_with, lf_collect, lf_describe_plan, lf_distinct,
    lf_drop, lf_drop_nils, lf_dtypes, lf_fetch, lf_filter_with, lf_head, lf_join, lf_mutate_with,
    lf_names, lf_pivot_longer, lf_rename_columns, lf_select, lf_slice, lf_summarise_with, lf_tail,
    parse_join_kind, unzip_renames, JoinKind,
};
use polars::prelude::{col, lit, Column, DataFrame, IntoLazy, NamedFrom, PolarsError, Series};

fn people() -> ExLazyFrame {
    let frame = DataFrame::new_infer_height(vec![
        Column::new("id".into(), &[1i64, 2, 3, 3]),
        Column::new("name".into(), &["ann", "bob", "cy", "cy"]),
        Column::new("age".into(), &[Some(30i64), None, Some(41), Some(41)]),
    ])
    .unwrap();
    ExLazyFrame::new(frame.lazy())
}

fn pets() -> ExLazyFrame {
    let frame = DataFrame::new_infer_height(vec![
        Column::new("owner".into(), &[1i64, 1, 3]),
        Column::new("pet".into(), &["cat", "dog", "eel"]),
    ])
    .unwrap();
    ExLazyFrame::new(frame.lazy())
}

fn again(handle: &ExLazyFrame) -> ExLazyFrame {
    ExLazyFrame { resource: std::sync::Arc::clone(&handle.resource) }
}

fn run(handle: ExLazyFrame) -> DataFrame {
    let frame: ExDataFrame = lf_collect(handle).unwrap();
    frame.clone_inner()
}

fn names(frame: &DataFrame) -> Vec<String> {
    frame.get_column_names().into_iter().map(|name| name.to_string()).collect()
}

fn integers(frame: &DataFrame, column: &str) -> Vec<Option<i64>> {
    let series: Series = frame.column(column).unwrap().as_materialized_series().clone();
    series.i64().unwrap().iter().collect()
}

#[test]
fn join_method_that_has_no_name_is_turned_down() {
    match lf_join(people(), pets(), vec![], vec![], "sideways") {
        Err(ExplorerError::Other(message)) => {
            assert_eq!(message, "Join method sideways not supported")
        }
        _ => panic!("the join was not turned down"),
    }
}

#[test]
fn join_kinds_are_read_from_their_words() {
    assert_eq!(parse_join_kind("left"), Ok(JoinKind::Left));
    assert_eq!(parse_join_kind("inner"), Ok(JoinKind::Inner));
    assert_eq!(parse_join_kind("outer"), Ok(JoinKind::Outer));
    assert_eq!(parse_join_kind("cross"), Ok(JoinKind::Cross));
    assert_eq!(
        parse_join_kind("Left"),
        Err(ExplorerError::Other("Join method Left not supported".to_string()))
    );
    assert_eq!(
        parse_join_kind(""),
        Err(ExplorerError::Other("Join method  not supported".to_string()))
    );
}

#[test]
fn inner_join_keeps_the_rows_that_match() {
    let joined = lf_join(
        people(),
        pets(),
        vec![ExExpr::new(col("id"))],
        vec![ExExpr::new(col("owner"))],
        "inner",
    )
    .unwrap();
    let frame = run(joined);
    assert_eq!(frame.height(), 4);
    assert!(names(&frame).contains(&"pet".to_string()));
}

#[test]
fn left_join_keeps_every_row_of_the_left() {
    let joined = lf_join(
        people(),
        pets(),
        vec![ExExpr::new(col("id"))],
        vec![ExExpr::new(col("owner"))],
        "left",
    )
    .unwrap();
    assert_eq!(run(joined).height(), 5);
}

#[test]
fn cross_join_pairs_every_row_with_every_row() {
    let joined = lf_join(people(), pets(), vec![], vec![], "cross").unwrap();
    assert_eq!(run(joined).height(), 12);
}

#[test]
fn head_tail_and_slice_cut_rows() {
    let source = people();
    assert_eq!(integers(&run(lf_head(again(&source), 2).unwrap()), "id"), vec![Some(1), Some(2)]);
    assert_eq!(integers(&run(lf_tail(again(&source), 1).unwrap()), "id"), vec![Some(3)]);
    assert_eq!(
        integers(&run(lf_slice(again(&source), 1, 2).unwrap()), "id"),
        vec![Some(2), Some(3)]
    );
    assert_eq!(
        integers(&run(lf_slice(again(&source), -1, 5).unwrap()), "id"),
        vec![Some(3)]
    );
}

#[test]
fn fetch_runs_the_plan_on_its_first_rows() {
    let frame = lf_fetch(people(), 3).unwrap().clone_inner();
    assert_eq!(frame.height(), 3);
    assert_eq!(fetch_rows(3), 3);
    assert_eq!(fetch_rows(0), 0);
    assert_eq!(fetch_rows(u32::MAX as usize), u32::MAX);
    assert_eq!(fetch_rows(usize::MAX), u32::MAX);
}

#[test]
fn names_and_dtypes_follow_the_schema() {
    assert_eq!(lf_names(people()).unwrap(), vec!["id", "name", "age"]);
    assert_eq!(lf_dtypes(people()).unwrap(), vec!["i64", "str", "i64"]);
}

#[test]
fn plan_is_described_in_both_forms() {
    let plan = lf_filter_with(
        lf_select(people(), vec!["id", "age"]).unwrap(),
        ExExpr::new(col("id").gt(lit(1i64))),
    )
    .unwrap();
    let engine = plan.clone_inner();
    let plain = lf_describe_plan(again(&plan), false).unwrap();
    let optimized = lf_describe_plan(again(&plan), true).unwrap();
    assert!(!plain.is_empty());
    assert!(!optimized.is_empty());
    assert_ne!(plain, optimized);
    assert_eq!(plain, engine.describe_plan().unwrap());
    assert_eq!(optimized, engine.describe_optimized_plan().unwrap());
}

#[test]
fn select_and_drop_choose_columns() {
    let source = people();
    let selected = lf_select(again(&source), vec!["name", "id"]).unwrap();
    assert_eq!(lf_names(selected).unwrap(), vec!["name", "id"]);
    let dropped = lf_drop(again(&source), vec!["name"]).unwrap();
    assert_eq!(lf_names(dropped).unwrap(), vec!["id", "age"]);
}

#[test]
fn source_handle_is_untouched_by_an_operation() {
    let source = people();
    let before = lf_describe_plan(again(&source), false).unwrap();
    let derived = lf_select(again(&source), vec!["id"]).unwrap();
    assert_eq!(lf_names(derived).unwrap(), vec!["id"]);
    let after = lf_describe_plan(again(&source), false).unwrap();
    assert_eq!(before, after);
    assert_eq!(lf_names(source).unwrap(), vec!["id", "name", "age"]);
}

#[test]
fn filter_keeps_the_rows_that_hold() {
    let kept = lf_filter_with(people(), ExExpr::new(col("id").gt(lit(1i64)))).unwrap();
    assert_eq!(integers(&run(kept), "id"), vec![Some(2), Some(3), Some(3)]);
}

#[test]
fn arrange_orders_rows_in_each_direction() {
    let down = lf_arrange_with(people(), vec![ExExpr::new(col("id"))], vec![true]).unwrap();
    assert_eq!(integers(&run(down), "id"), vec![Some(3), Some(3), Some(2), Some(1)]);
    let up = lf_arrange_with(people(), vec![ExExpr::new(col("id"))], vec![false]).unwrap();
    assert_eq!(integers(&run(up), "id"), vec![Some(1), Some(2), Some(3), Some(3)]);
}

#[test]
fn distinct_keeps_the_first_of_equal_rows() {
    let all = lf_distinct(people(), vec!["id".to_string()], None).unwrap();
    let frame = run(all);
    assert_eq!(integers(&frame, "id"), vec![Some(1), Some(2), Some(3)]);
    assert_eq!(names(&frame), vec!["id", "name", "age"]);
    let some =
        lf_distinct(people(), vec!["id".to_string()], Some(vec![ExExpr::new(col("age"))])).unwrap();
    let frame = run(some);
    assert_eq!(names(&frame), vec!["age"]);
    assert_eq!(integers(&frame, "age"), vec![Some(30), None, Some(41)]);
}

#[test]
fn mutate_adds_a_column() {
    let grown =
        lf_mutate_with(people(), vec![ExExpr::new((col("id") + lit(10i64)).alias("more"))]).unwrap();
    let frame = run(grown);
    assert_eq!(names(&frame), vec!["id", "name", "age", "more"]);
    assert_eq!(integers(&frame, "more"), vec![Some(11), Some(12), Some(13), Some(13)]);
}

#[test]
fn summarise_groups_in_order() {
    let summed = lf_summarise_with(
        people(),
        vec![ExExpr::new(col("name"))],
        vec![ExExpr::new(col("id").sum().alias("total"))],
    )
    .unwrap();
    let frame = run(summed);
    assert_eq!(names(&frame), vec!["name", "total"]);
    assert_eq!(integers(&frame, "total"), vec![Some(1), Some(2), Some(6)]);
}

#[test]
fn rename_goes_by_pairs() {
    let renamed = lf_rename_columns(people(), vec![("id", "key"), ("age", "years")]).unwrap();
    assert_eq!(lf_names(renamed).unwrap(), vec!["key", "name", "years"]);
    let (existing, new) = unzip_renames(&vec![("a", "b"), ("c", "d")]);
    assert_eq!(existing, vec!["a", "c"]);
    assert_eq!(new, vec!["b", "d"]);
    let (existing, new) = unzip_renames(&vec![]);
    assert!(existing.is_empty());
    assert!(new.is_empty());
}

#[test]
fn drop_nils_looks_at_the_subset_or_at_every_column() {
    let everywhere = lf_drop_nils(people(), None).unwrap();
    assert_eq!(integers(&run(everywhere), "id"), vec![Some(1), Some(3), Some(3)]);
    let in_age = lf_drop_nils(people(), Some(vec![ExExpr::new(col("age"))])).unwrap();
    assert_eq!(integers(&run(in_age), "id"), vec![Some(1), Some(3), Some(3)]);
    let in_id = lf_drop_nils(people(), Some(vec![ExExpr::new(col("id")), ExExpr::new(col("name"))]))
        .unwrap();
    assert_eq!(run(in_id).height(), 4);
    let nowhere = lf_drop_nils(people(), Some(vec![])).unwrap();
    assert_eq!(run(nowhere).height(), 4);
}

#[test]
fn drop_nils_turns_down_what_is_no_column() {
    match lf_drop_nils(people(), Some(vec![ExExpr::new(col("id") + lit(1i64))])) {
        Err(ExplorerError::Other(message)) => {
            assert_eq!(message, "drop_nils expects a subset made of columns")
        }
        _ => panic!("the subset was not turned down"),
    }
}

#[test]
fn pivot_longer_turns_columns_into_rows() {
    let longer = lf_pivot_longer(
        people(),
        vec!["name".to_string()],
        vec!["id".to_string(), "age".to_string()],
        "what".to_string(),
        "amount".to_string(),
    )
    .unwrap();
    let frame = run(longer);
    assert_eq!(names(&frame), vec!["name", "what", "amount"]);
    assert_eq!(frame.height(), 8);
    let rest = lf_pivot_longer(
        lf_drop(people(), vec!["name"]).unwrap(),
        vec!["id".to_string()],
        vec![],
        "what".to_string(),
        "amount".to_string(),
    )
    .unwrap();
    let frame = run(rest);
    assert_eq!(names(&frame), vec!["id", "what", "amount"]);
    assert_eq!(frame.height(), 4);
}

#[test]
fn expressions_are_copied_out_in_order() {
    let exprs = ex_expr_to_exprs(vec![ExExpr::new(col("a")), ExExpr::new(col("b"))]);
    assert_eq!(exprs, vec![col("a"), col("b")]);
    assert!(ex_expr_to_exprs(vec![]).is_empty());
}

#[test]
fn failure_of_the_engine_is_reported_in_its_words() {
    let missing = lf_select(people(), vec!["nope"]).unwrap();
    match lf_collect(missing) {
        Err(ExplorerError::Polars { message }) => assert!(message.contains("nope")),
        _ => panic!("the plan ran"),
    }
    let missing = lf_select(people(), vec!["nope"]).unwrap();
    match lf_names(missing) {
        Err(ExplorerError::Polars { message }) => assert!(message.contains("nope")),
        _ => panic!("the schema was found"),
    }
}

#[test]
fn outcome_of_the_engine_is_handed_on() {
    assert_eq!(engine_result(Ok(7)), Ok(7));
    let words = PolarsError::ComputeError("boom".into()).to_string();
    assert!(words.contains("boom"));
    assert_eq!(
        engine_result::<i32>(Err(PolarsError::ComputeError("boom".into()))),
        Err(ExplorerError::Polars { message: words })
    );
}

#[test]
fn what_the_engine_yielded_goes_behind_a_handle() {
    let frame = DataFrame::new_infer_height(vec![Column::new("n".into(), &[4i64, 5])]).unwrap();
    let handle = collected(Ok(frame.clone())).unwrap();
    assert!(handle.clone_inner().equals(&frame));
    let words = PolarsError::ComputeError("boom".into()).to_string();
    match collected(Err(PolarsError::ComputeError("boom".into()))) {
        Err(ExplorerError::Polars { message }) => assert_eq!(message, words),
        _ => panic!("the failure was lost"),
    }
}

#[test]
fn sample_is_cut_before_it_is_run() {
    let source = people();
    assert_eq!(fetch_plan(&source, 2).collect().unwrap().height(), 2);
    assert_eq!(fetch_plan(&source, 0).collect().unwrap().height(), 0);
    assert_eq!(fetch_plan(&source, usize::MAX).collect().unwrap().height(), 4);
    assert_eq!(lf_names(source).unwrap(), vec!["id", "name", "age"]);
}
