use explorer::handles::{
    ExDataFrame, ExDataFrameRef, ExExpr, ExExprRef, ExLazyFrame, ExLazyFrameRef, ExSeries,
    ExSeriesRef,
};
use polars::prelude::{col, Column, DataFrame, IntoLazy, NamedFrom, Series};
use std::sync::Arc;

fn frame_of(values: &[i64]) -> DataFrame {
    DataFrame::new_infer_height(vec![Column::new("n".into(), values)]).unwrap()
}

fn with_row(frame: DataFrame, value: i64) -> DataFrame {
    frame.vstack(&frame_of(&[value])).unwrap()
}

#[test]
fn series_handle_hands_out_copies() {
    let series = Series::new("a".into(), &[1i64, 2, 3]);
    let handle = ExSeries::new(series.clone());
    let first = handle.clone_inner();
    let second = handle.clone_inner();
    assert!(first.equals(&series));
    assert!(second.equals(&series));
}

#[test]
fn changing_a_copy_leaves_the_handle_alone() {
    let series = Series::new("a".into(), &[1i64, 2, 3]);
    let handle = ExSeries::new(series.clone());
    let mut copy = handle.clone_inner();
    copy.rename("b".into());
    let shorter = copy.slice(0, 1);
    assert_eq!(shorter.len(), 1);
    assert!(handle.clone_inner().equals(&series));
    assert_eq!(handle.clone_inner().name().as_str(), "a");
}

#[test]
fn shared_parts_hold_what_they_were_given() {
    let series = Series::new("a".into(), &[1i64]);
    assert!(ExSeriesRef::new(series.clone()).0.equals(&series));
    assert_eq!(ExExprRef::new(col("a")).0, col("a"));
    let _ = ExLazyFrameRef::new(DataFrame::empty().lazy());
    let _ = ExDataFrameRef::new(DataFrame::empty());
}

#[test]
fn holders_of_one_handle_share_one_value() {
    let handle = ExSeries::new(Series::new("a".into(), &[1i64, 2]));
    let other = ExSeries { resource: Arc::clone(&handle.resource) };
    assert_eq!(Arc::strong_count(&handle.resource), 2);
    assert!(other.clone_inner().equals(&handle.clone_inner()));
    drop(other);
    assert_eq!(Arc::strong_count(&handle.resource), 1);
}

#[test]
fn expression_handle_hands_out_copies() {
    let handle = ExExpr::new(col("a"));
    assert_eq!(handle.clone_inner(), col("a"));
    assert_eq!(handle.clone_inner(), col("a"));
}

#[test]
fn lazy_frame_handle_hands_out_copies() {
    let handle = ExLazyFrame::new(frame_of(&[1, 2]).lazy());
    let first = handle.clone_inner().collect().unwrap();
    let second = handle.clone_inner().limit(1).collect().unwrap();
    assert_eq!(first.height(), 2);
    assert_eq!(second.height(), 1);
    assert_eq!(handle.clone_inner().collect().unwrap().height(), 2);
}

#[test]
fn dataframe_is_changed_under_the_lock() {
    let handle = ExDataFrame::new(frame_of(&[1]));
    let height = handle.with_write_lock(|frame: DataFrame| {
        let next = with_row(frame, 2);
        let height = next.height();
        (next, height)
    });
    assert_eq!(height, 2);
    assert_eq!(handle.clone_inner().height(), 2);
}

#[test]
fn failed_change_releases_the_lock() {
    let handle = ExDataFrame::new(frame_of(&[1]));
    let outcome: Result<(), String> =
        handle.with_write_lock(|frame: DataFrame| (frame, Err("no".to_string())));
    assert_eq!(outcome, Err("no".to_string()));
    assert_eq!(handle.clone_inner().height(), 1);
    let outcome: Result<(), String> =
        handle.with_write_lock(|frame: DataFrame| (with_row(frame, 5), Ok(())));
    assert_eq!(outcome, Ok(()));
    assert_eq!(handle.clone_inner().height(), 2);
}

#[test]
fn changes_through_two_holders_follow_one_another() {
    let handle = ExDataFrame::new(frame_of(&[]));
    let other = ExDataFrame { resource: Arc::clone(&handle.resource) };
    for step in 0..50i64 {
        let writer = if step % 2 == 0 { &handle } else { &other };
        let reader = if step % 2 == 0 { &other } else { &handle };
        writer.with_write_lock(|frame: DataFrame| {
            let first = with_row(frame, step);
            (with_row(first, step), ())
        });
        assert_eq!(reader.clone_inner().height(), 2 * (step as usize + 1));
    }
    let frame = handle.clone_inner();
    let values: Vec<i64> =
        frame.column("n").unwrap().as_materialized_series().i64().unwrap().iter().flatten().collect();
    let mut expected = Vec::new();
    for step in 0..50i64 {
        expected.push(step);
        expected.push(step);
    }
    assert_eq!(values, expected);
}

#[test]
fn new_handle_holds_the_dataframe_it_was_made_for() {
    let frame = frame_of(&[7, 8, 9]);
    let handle = ExDataFrame::new(frame.clone());
    assert!(handle.clone_inner().equals(&frame));
    let other = ExDataFrame { resource: Arc::new(ExDataFrameRef::new(frame_of(&[1]))) };
    assert!(other.clone_inner().equals(&frame_of(&[1])));
}
