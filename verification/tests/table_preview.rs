use dafer_utils::frame::{DataKind, TimeUnit};
use dafer_utils::operations::Operation;
use dafer_utils::pipeline::AutoCast;
use dafer_utils::plots::{axis_scale, find_column, series_length, x_axis_scale, AxisScale};
use dafer_utils::preview::{build_preview_result, column_types, display_rows, shown_column_stats};
use dafer_utils::state::AppState;
use polars::prelude::{Column, DataFrame};

fn frame() -> DataFrame {
    DataFrame::new_infer_height(vec![
        Column::new("id".into(), &[Some(1i64), None, Some(3)]),
        Column::new("name".into(), &[Some("ann"), Some("\"bob\""), None]),
        Column::new("score".into(), &[Some(1.5f64), Some(f64::NAN), Some(5.5)]),
        Column::new("text".into(), &["1.5", "2.0", "3.25"]),
    ])
    .unwrap()
}

#[test]
fn a_preview_shows_names_types_and_rows() {
    let shown = build_preview_result(&frame(), None);
    assert_eq!(shown.headers, vec!["id", "name", "score", "text"]);
    assert_eq!(shown.dtypes, vec!["i64", "str", "f64", "str"]);
    assert_eq!(
        shown.rows,
        vec![
            vec!["1", "ann", "1.5", "1.5"],
            vec!["", "\"bob\"", "NaN", "2.0"],
            vec!["3", "", "5.5", "3.25"],
        ]
    );
    assert_eq!(shown.preview_rows, 3);
    assert_eq!(shown.total_rows, 3);
}

#[test]
fn a_preview_takes_its_statistics_from_the_full_result() {
    let full = DataFrame::new_infer_height(vec![Column::new(
        "id".into(),
        &[Some(1i64), None, Some(3), Some(10)],
    )])
    .unwrap();
    let shown = build_preview_result(&frame(), Some(&full));
    assert_eq!(shown.preview_rows, 3);
    assert_eq!(shown.total_rows, 4);
    assert_eq!(shown.stats.len(), 1);
    assert_eq!(shown.stats[0].max.as_deref(), Some("10"));
    assert_eq!(shown.headers.len(), 4);
}

#[test]
fn statistics_are_shown_with_four_decimals_where_they_have_a_point() {
    let frame = DataFrame::new_infer_height(vec![
        Column::new("id".into(), &[1i64, 2, 3, 4, 5]),
        Column::new("score".into(), &[1.5f64, 2.0, 3.25, 4.0, 5.5]),
    ])
    .unwrap();
    let stats = shown_column_stats(&frame);
    assert_eq!(stats[0].min.as_deref(), Some("1"));
    assert_eq!(stats[0].max.as_deref(), Some("5"));
    assert_eq!(stats[1].name, "score");
    assert_eq!(stats[1].dtype, "Float64");
    assert_eq!(stats[1].min.as_deref(), Some("1.5000"));
    assert_eq!(stats[1].max.as_deref(), Some("5.5000"));
    assert_eq!(stats[1].null_count, 0);
    assert_eq!(stats[1].error_count, 0);
}

#[test]
fn types_and_rows_alone() {
    assert_eq!(column_types(&frame()), vec!["i64", "str", "f64", "str"]);
    assert_eq!(display_rows(&frame()).len(), 3);
    assert!(display_rows(&DataFrame::empty()).is_empty());
}

#[test]
fn a_column_is_found_by_name() {
    assert_eq!(find_column(&frame(), "id"), Some(0));
    assert_eq!(find_column(&frame(), "text"), Some(3));
    assert_eq!(find_column(&frame(), "ID"), None);
    assert_eq!(find_column(&DataFrame::empty(), "id"), None);
}

#[test]
fn an_axis_is_scaled_by_the_type_of_its_column() {
    assert_eq!(axis_scale(DataKind::Int64), AxisScale::Plain);
    assert_eq!(axis_scale(DataKind::String), AxisScale::Plain);
    assert_eq!(axis_scale(DataKind::Date), AxisScale::PerDay(86_400));
    assert_eq!(
        axis_scale(DataKind::Datetime(TimeUnit::Nanoseconds)),
        AxisScale::PerSecond(1_000_000_000)
    );
    assert_eq!(
        axis_scale(DataKind::Datetime(TimeUnit::Microseconds)),
        AxisScale::PerSecond(1_000_000)
    );
    assert_eq!(axis_scale(DataKind::Datetime(TimeUnit::Milliseconds)), AxisScale::PerSecond(1_000));
    assert!(!AxisScale::Plain.is_datetime());
    assert!(AxisScale::PerDay(86_400).is_datetime());
    assert!(AxisScale::PerSecond(1_000).is_datetime());
}

#[test]
fn the_axis_over_a_number_column_or_none_is_plain() {
    assert_eq!(x_axis_scale(&frame(), "score"), AxisScale::Plain);
    assert_eq!(x_axis_scale(&frame(), "nowhere"), AxisScale::Plain);
}

#[test]
fn the_first_preview_of_a_load_names_the_numeric_text_columns() {
    let mut state = AppState::new();
    state.open("a.csv".to_string()).unwrap();
    state.pipeline.add(Operation::Limit(3));
    assert!(state.note_preview(&frame()));
    assert_eq!(state.pipeline.source.as_ref().unwrap().auto_numeric_cols, vec!["text"]);
    assert_eq!(state.pipeline.auto_cast, AutoCast::CheckedFound);
    assert!(state.pipeline.preview_dirty);
    assert!(!state.note_preview(&frame()));
    assert_eq!(state.pipeline.operations.len(), 1);
}

#[test]
fn a_preview_without_numeric_text_sets_the_latch_only() {
    let plain = DataFrame::new_infer_height(vec![Column::new("id".into(), &[1i64, 2])]).unwrap();
    let mut state = AppState::new();
    state.open("a.csv".to_string()).unwrap();
    state.pipeline.preview_dirty = false;
    assert!(!state.note_preview(&plain));
    assert_eq!(state.pipeline.auto_cast, AutoCast::CheckedNone);
    assert!(state.pipeline.source.as_ref().unwrap().auto_numeric_cols.is_empty());
    assert!(!state.pipeline.preview_dirty);
    assert!(!state.note_preview(&frame()));
    assert!(state.pipeline.source.as_ref().unwrap().auto_numeric_cols.is_empty());
}

#[test]
fn an_accepted_preview_is_cached_and_clears_the_mark() {
    let mut state = AppState::new();
    state.open("a.csv".to_string()).unwrap();
    assert!(state.table().is_none());
    let shown = state.accept_preview(frame(), None);
    assert_eq!(shown.total_rows, 3);
    assert!(!state.pipeline.preview_dirty);
    assert_eq!(state.table().unwrap().height(), 3);
    let full = DataFrame::new_infer_height(vec![Column::new("id".into(), &[1i64, 2, 3, 4])]).unwrap();
    let shown = state.accept_preview(frame(), Some(full));
    assert_eq!(shown.total_rows, 4);
    assert_eq!(state.table().unwrap().height(), 4);
    assert_eq!(state.preview_df.as_ref().unwrap().height(), 3);
}

#[test]
fn a_new_load_drops_the_cached_tables() {
    let mut state = AppState::new();
    state.open("a.csv".to_string()).unwrap();
    state.accept_preview(frame(), None);
    assert!(state.open("notes.txt".to_string()).is_err());
    assert!(state.table().is_some());
    state.open("b.parquet".to_string()).unwrap();
    assert!(state.table().is_none());
    assert!(state.pipeline.preview_dirty);
    state.accept_preview(frame(), None);
    state.restore(state.pipeline.snapshot());
    assert!(state.table().is_none());
    assert_eq!(state.pipeline.source.as_ref().unwrap().path, "b.parquet");
}

#[test]
fn a_load_with_a_numeric_text_column_is_previewed_twice() {
    let scores = ["1.5", "2.0", "3.25", "4.0", "5.5"];
    let ids = Column::new("id".into(), &[1i64, 2, 3, 4, 5]);
    let names = Column::new("name".into(), &["a", "b", "c", "d", "e"]);
    let as_text = Column::new("score".into(), &scores);
    let as_numbers = Column::new("score".into(), &[1.5f64, 2.0, 3.25, 4.0, 5.5]);
    let first =
        DataFrame::new_infer_height(vec![ids.clone(), names.clone(), as_text]).unwrap();
    let second = DataFrame::new_infer_height(vec![ids, names, as_numbers]).unwrap();

    let mut state = AppState::new();
    state.open("data.csv".to_string()).unwrap();
    assert_eq!(state.pipeline.auto_cast, AutoCast::NotChecked);
    assert!(state.pipeline.operations.is_empty());

    assert!(state.note_preview(&first));
    assert_eq!(state.pipeline.source.as_ref().unwrap().auto_numeric_cols, vec!["score"]);
    assert_eq!(state.pipeline.auto_cast, AutoCast::CheckedFound);

    assert!(!state.note_preview(&second));
    let shown = state.accept_preview(second, None);
    assert_eq!(shown.headers, vec!["id", "name", "score"]);
    assert_eq!(shown.dtypes.len(), 3);
    assert_eq!(shown.dtypes[2], "f64");
    assert_eq!(shown.preview_rows, 5);
    assert_eq!(state.pipeline.source.as_ref().unwrap().auto_numeric_cols, vec!["score"]);
    assert_eq!(state.pipeline.auto_cast, AutoCast::CheckedFound);
    assert!(state.pipeline.operations.is_empty());
}

#[test]
fn a_preview_shows_booleans_by_their_words() {
    let flags = DataFrame::new_infer_height(vec![Column::new(
        "member".into(),
        &[Some(true), None, Some(false)],
    )])
    .unwrap();
    assert_eq!(display_rows(&flags), vec![vec!["true"], vec![""], vec!["false"]]);
}

#[test]
fn a_series_is_as_long_as_the_shorter_column() {
    assert_eq!(series_length(5, 3), Some(3));
    assert_eq!(series_length(3, 5), Some(3));
    assert_eq!(series_length(4, 4), Some(4));
    assert_eq!(series_length(1, usize::MAX), Some(1));
    assert_eq!(series_length(0, 5), None);
    assert_eq!(series_length(5, 0), None);
    assert_eq!(series_length(0, 0), None);
}
