use dafer_utils::records::{csv_document, ExportError};

fn row(fields: &[&str]) -> Vec<String> {
    fields.iter().map(|f| f.to_string()).collect()
}

fn document(header: &[&str], rows: &[&[&str]]) -> Result<String, ExportError> {
    let rows: Vec<Vec<String>> = rows.iter().map(|r| row(r)).collect();
    csv_document(&row(header), &rows).map(|bytes| String::from_utf8(bytes).unwrap())
}

#[test]
fn header_comes_first_then_one_line_per_row() {
    let text = document(&["id", "name"], &[&["1", "ann"], &["2", "bob"]]).unwrap();
    assert_eq!(text, "id,name\n1,ann\n2,bob\n");
}

#[test]
fn a_document_without_rows_is_its_header() {
    assert_eq!(document(&["id", "name"], &[]).unwrap(), "id,name\n");
}

#[test]
fn empty_fields_stay_empty() {
    let text = document(&["id", "name", "score"], &[&["1", "", "2.5"], &["", "", ""]]).unwrap();
    assert_eq!(text, "id,name,score\n1,,2.5\n,,\n");
}

#[test]
fn fields_are_quoted_where_needed() {
    let text = document(&["a,b", "c"], &[&["say \"hi\"", "two\nlines"]]).unwrap();
    assert_eq!(text, "\"a,b\",c\n\"say \"\"hi\"\"\",\"two\nlines\"\n");
}

#[test]
fn text_is_written_as_utf8() {
    let text = document(&["naïve"], &[&["→"]]).unwrap();
    assert_eq!(text, "naïve\n→\n");
}

#[test]
fn a_row_of_another_length_is_refused() {
    assert_eq!(document(&["a", "b"], &[&["1"]]), Err(ExportError::UnequalLengths));
    assert_eq!(document(&["a"], &[&["1"], &["1", "2"]]), Err(ExportError::UnequalLengths));
    assert_eq!(document(&[], &[&["1"]]), Err(ExportError::UnequalLengths));
}

#[test]
fn a_short_row_is_not_filled_up_by_the_next() {
    let refused = document(&["a", "b", "c"], &[&["x"], &["y", "z"]]);
    assert_eq!(refused, Err(ExportError::UnequalLengths));
    let text = document(&["a", "b", "c"], &[&["x", "y", "z"]]).unwrap();
    assert_eq!(text, "a,b,c\nx,y,z\n");
}

#[test]
fn the_error_has_a_message() {
    assert!(ExportError::UnequalLengths.message().contains("number of fields"));
}
