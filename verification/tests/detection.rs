use dafer_utils::detection::{holds_number, is_numeric_string_column, SAMPLE_ROWS};

fn column(numbers: usize, words: usize, nulls: usize) -> Vec<Option<String>> {
    let mut cells = Vec::new();
    for i in 0..numbers {
        cells.push(Some(format!("{}.5", i)));
    }
    for i in 0..words {
        cells.push(Some(format!("word{}", i)));
    }
    for _ in 0..nulls {
        cells.push(None);
    }
    cells
}

#[test]
fn the_sample_is_two_hundred_cells() {
    assert_eq!(SAMPLE_ROWS, 200);
}

#[test]
fn a_column_with_181_numbers_of_200_is_flagged() {
    assert!(is_numeric_string_column(&column(181, 19, 0)));
}

#[test]
fn a_column_with_179_numbers_of_200_is_not_flagged() {
    assert!(!is_numeric_string_column(&column(179, 21, 0)));
}

#[test]
fn nine_in_ten_is_enough() {
    assert!(is_numeric_string_column(&column(180, 20, 0)));
    assert!(is_numeric_string_column(&column(9, 1, 0)));
    assert!(!is_numeric_string_column(&column(8, 1, 0)));
}

#[test]
fn nulls_do_not_count() {
    assert!(is_numeric_string_column(&column(9, 1, 190)));
    assert!(is_numeric_string_column(&column(1, 0, 5)));
}

#[test]
fn an_empty_or_all_null_column_is_never_flagged() {
    assert!(!is_numeric_string_column(&Vec::new()));
    assert!(!is_numeric_string_column(&column(0, 0, 50)));
    assert!(!is_numeric_string_column(&column(0, 0, 300)));
}

#[test]
fn only_the_first_two_hundred_cells_are_read() {
    let mut cells = column(0, 200, 0);
    cells.extend(column(5000, 0, 0));
    assert!(!is_numeric_string_column(&cells));
    let mut cells = column(200, 0, 0);
    cells.extend(column(0, 5000, 0));
    assert!(is_numeric_string_column(&cells));
}

#[test]
fn the_scores_of_five_rows_are_numeric() {
    let cells: Vec<Option<String>> =
        ["1.5", "2.0", "3.25", "4.0", "5.5"].iter().map(|s| Some(s.to_string())).collect();
    assert!(is_numeric_string_column(&cells));
}

#[test]
fn a_cell_is_trimmed_before_it_is_read() {
    assert!(holds_number(" 1.5 "));
    assert!(holds_number("\t-2e3\n"));
    assert!(holds_number("7"));
    assert!(holds_number("nan"));
    assert!(!holds_number(""));
    assert!(!holds_number("   "));
    assert!(!holds_number("1 5"));
    assert!(!holds_number("1,5"));
    assert!(!holds_number("abc"));
}
