use dafer_utils::data_loader::{column_stats, sort_df};
use polars::prelude::{Column, DataFrame};

#[test]
fn stats_of_each_numeric_type() {
    let frame = DataFrame::new_infer_height(vec![
        Column::new("long".into(), &[3i64, -1, 2]),
        Column::new("short".into(), &[7i32, 9, 8]),
        Column::new("double".into(), &[1.5f64, 5.5, 3.25]),
        Column::new("single".into(), &[0.5f32, 0.25, 2.0]),
    ])
    .unwrap();
    let stats = column_stats(&frame);
    let seen: Vec<(&str, &str, Option<&str>, Option<&str>)> = stats
        .iter()
        .map(|s| (s.name.as_str(), s.dtype.as_str(), s.min.as_deref(), s.max.as_deref()))
        .collect();
    assert_eq!(
        seen,
        vec![
            ("long", "Int64", Some("-1"), Some("3")),
            ("short", "Int32", Some("7"), Some("9")),
            ("double", "Float64", Some("1.5"), Some("5.5")),
            ("single", "Float32", Some("0.25"), Some("2")),
        ]
    );
}

#[test]
fn stats_of_other_types_have_no_extremes() {
    let frame = DataFrame::new_infer_height(vec![
        Column::new("name".into(), &["ann", "bob"]),
        Column::new("member".into(), &[true, false]),
    ])
    .unwrap();
    let stats = column_stats(&frame);
    assert_eq!(stats.len(), 2);
    assert_eq!(stats[0].dtype, "String");
    assert_eq!(stats[1].dtype, "Boolean");
    for s in &stats {
        assert_eq!(s.min, None);
        assert_eq!(s.max, None);
        assert_eq!(s.null_count, 0);
        assert_eq!(s.error_count, 0);
    }
}

#[test]
fn stats_count_nulls_and_never_errors() {
    let frame = DataFrame::new_infer_height(vec![
        Column::new("x".into(), &[Some(4i64), None, Some(8), None]),
        Column::new("y".into(), &[None::<f64>, None, None, None]),
        Column::new("z".into(), &[Some("a"), None, Some("not a number"), Some("c")]),
    ])
    .unwrap();
    let stats = column_stats(&frame);
    assert_eq!(stats[0].null_count, 2);
    assert_eq!(stats[0].min.as_deref(), Some("4"));
    assert_eq!(stats[0].max.as_deref(), Some("8"));
    assert_eq!(stats[1].null_count, 4);
    assert_eq!(stats[1].min, None);
    assert_eq!(stats[1].max, None);
    assert_eq!(stats[2].null_count, 1);
    assert!(stats.iter().all(|s| s.error_count == 0));
}

#[test]
fn stats_of_five_scores() {
    let frame = DataFrame::new_infer_height(vec![Column::new(
        "score".into(),
        &[1.5f64, 2.0, 3.25, 4.0, 5.5],
    )])
    .unwrap();
    let stats = column_stats(&frame);
    assert_eq!(stats[0].name, "score");
    assert_eq!(stats[0].min.as_deref(), Some("1.5"));
    assert_eq!(stats[0].max.as_deref(), Some("5.5"));
    assert_eq!(stats[0].null_count, 0);
}

#[test]
fn stats_of_an_empty_table() {
    assert!(column_stats(&DataFrame::empty()).is_empty());
}

#[test]
fn a_table_is_sorted_by_one_column() {
    let frame = DataFrame::new_infer_height(vec![
        Column::new("id".into(), &[3i64, 1, 2]),
        Column::new("name".into(), &["c", "a", "b"]),
    ])
    .unwrap();
    let up = sort_df(&frame, "id", false).unwrap();
    let down = sort_df(&frame, "id", true).unwrap();
    let names = |f: &DataFrame| -> Vec<String> {
        let column = f.column("name").unwrap().as_materialized_series().clone();
        column.str().unwrap().iter().map(|s| s.unwrap_or("").to_string()).collect()
    };
    assert_eq!(names(&up), vec!["a", "b", "c"]);
    assert_eq!(names(&down), vec!["c", "b", "a"]);
    assert_eq!(names(&frame), vec!["c", "a", "b"]);
    assert!(sort_df(&frame, "nowhere", false).is_err());
}

#[test]
fn rows_of_equal_key_keep_their_order_in_a_sort() {
    let frame = DataFrame::new_infer_height(vec![
        Column::new("key".into(), &[2i64, 1, 2, 1, 2, 1]),
        Column::new("name".into(), &["a", "b", "c", "d", "e", "f"]),
    ])
    .unwrap();
    let names = |f: &DataFrame| -> Vec<String> {
        let column = f.column("name").unwrap().as_materialized_series().clone();
        column.str().unwrap().iter().map(|s| s.unwrap_or("").to_string()).collect()
    };
    let up = sort_df(&frame, "key", false).unwrap();
    let down = sort_df(&frame, "key", true).unwrap();
    assert_eq!(names(&up), vec!["b", "d", "f", "a", "c", "e"]);
    assert_eq!(names(&down), vec!["a", "c", "e", "b", "d", "f"]);
}
