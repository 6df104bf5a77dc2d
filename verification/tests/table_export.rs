use dafer_utils::execution::{column_names, export_csv, export_rows};
use polars::prelude::{Column, DataFrame};

fn frame() -> DataFrame {
    DataFrame::new_infer_height(vec![
        Column::new("id".into(), &[Some(1i64), None, Some(3)]),
        Column::new("score".into(), &[Some(1.5f64), Some(2.0), None]),
        Column::new("member".into(), &[Some(true), None, Some(false)]),
    ])
    .unwrap()
}

#[test]
fn the_header_row_names_the_columns() {
    assert_eq!(column_names(&frame()), vec!["id", "score", "member"]);
    assert!(column_names(&DataFrame::empty()).is_empty());
}

#[test]
fn nulls_are_empty_fields() {
    assert_eq!(
        export_rows(&frame()),
        vec![vec!["1", "1.5", "true"], vec!["", "2.0", ""], vec!["3", "", "false"]]
    );
}

#[test]
fn a_table_is_written_header_first() {
    let text = String::from_utf8(export_csv(&frame())).unwrap();
    assert_eq!(text, "id,score,member\n1,1.5,true\n,2.0,\n3,,false\n");
}

#[test]
fn strings_are_written_in_their_display_form() {
    let frame = DataFrame::new_infer_height(vec![Column::new(
        "name".into(),
        &[Some("ann"), Some("b,c"), None],
    )])
    .unwrap();
    assert_eq!(export_rows(&frame), vec![vec!["\"ann\""], vec!["\"b,c\""], vec![""]]);
    let text = String::from_utf8(export_csv(&frame)).unwrap();
    assert_eq!(text, "name\n\"\"\"ann\"\"\"\n\"\"\"b,c\"\"\"\n\"\"\n");
}

#[test]
fn quotes_inside_a_string_are_left_as_they_are() {
    let frame = DataFrame::new_infer_height(vec![Column::new(
        "said".into(),
        &[Some("say \"hi\""), Some(""), Some("\"")],
    )])
    .unwrap();
    assert_eq!(
        export_rows(&frame),
        vec![vec!["\"say \"hi\"\""], vec!["\"\""], vec!["\"\"\""]]
    );
}

#[test]
fn a_table_without_rows_is_its_header() {
    let frame = DataFrame::new_infer_height(vec![Column::new("id".into(), Vec::<i64>::new())]).unwrap();
    assert_eq!(String::from_utf8(export_csv(&frame)).unwrap(), "id\n");
}
