use dafer_utils::cells::{
    format_any_value, format_cell_value, format_optional_stat, format_stat_float, strip_quotes,
    Cell,
};

fn float(shown: &str, nan: bool) -> Cell {
    Cell::Float { shown: shown.to_string(), nan }
}

fn other(shown: &str) -> Cell {
    Cell::Other { shown: shown.to_string() }
}

fn boolean(value: bool) -> Cell {
    Cell::Bool { value, shown: value.to_string() }
}

fn string(raw: &str) -> Cell {
    Cell::Text { raw: raw.to_string(), shown: format!("\"{raw}\"") }
}

#[test]
fn export_writes_nothing_for_a_null() {
    assert_eq!(format_any_value(&Cell::Null), "");
}

#[test]
fn export_writes_the_display_text() {
    assert_eq!(format_any_value(&float("1.5", false)), "1.5");
    assert_eq!(format_any_value(&float("NaN", true)), "NaN");
    assert_eq!(format_any_value(&other("42")), "42");
    assert_eq!(format_any_value(&string("ann")), "\"ann\"");
    assert_eq!(format_any_value(&string("")), "\"\"");
    assert_eq!(format_any_value(&boolean(true)), "true");
    assert_eq!(format_any_value(&boolean(false)), "false");
}

#[test]
fn preview_shows_a_boolean_by_its_word() {
    assert_eq!(format_cell_value(&boolean(true)), "true");
    assert_eq!(format_cell_value(&boolean(false)), "false");
}

#[test]
fn preview_shows_nothing_for_a_null() {
    assert_eq!(format_cell_value(&Cell::Null), "");
}

#[test]
fn preview_shows_nan_for_a_number_that_is_none() {
    assert_eq!(format_cell_value(&float("nan", true)), "NaN");
    assert_eq!(format_cell_value(&float("1.5", false)), "1.5");
}

#[test]
fn preview_shows_a_string_as_it_is() {
    assert_eq!(format_cell_value(&string("ann")), "ann");
    assert_eq!(format_cell_value(&string("\"quoted\"")), "\"quoted\"");
    assert_eq!(format_cell_value(&string("")), "");
}

#[test]
fn preview_strips_quotes_from_other_values() {
    assert_eq!(format_cell_value(&other("\"a\"")), "a");
    assert_eq!(format_cell_value(&other("2024-01-02")), "2024-01-02");
    assert_eq!(format_cell_value(&other("[1, 2]")), "[1, 2]");
}

#[test]
fn quotes_are_stripped_only_in_pairs() {
    assert_eq!(strip_quotes("\"a\""), "a");
    assert_eq!(strip_quotes("\"\""), "");
    assert_eq!(strip_quotes("\""), "\"");
    assert_eq!(strip_quotes("\"a"), "\"a");
    assert_eq!(strip_quotes("a\""), "a\"");
    assert_eq!(strip_quotes(""), "");
    assert_eq!(strip_quotes("\"é→\""), "é→");
    assert_eq!(strip_quotes("\"\"a\"\""), "\"a\"");
}

#[test]
fn statistics_with_a_point_or_an_exponent_get_four_decimals() {
    assert_eq!(format_stat_float("1.5"), "1.5000");
    assert_eq!(format_stat_float("5.5"), "5.5000");
    assert_eq!(format_stat_float("3.14159265"), "3.1416");
    assert_eq!(format_stat_float("-0.00004"), "-0.0000");
    assert_eq!(format_stat_float("1e3"), "1000.0000");
    assert_eq!(format_stat_float("2.5E-1"), "0.2500");
    assert_eq!(format_stat_float("1."), "1.0000");
}

#[test]
fn other_statistics_stay_as_they_are() {
    assert_eq!(format_stat_float("42"), "42");
    assert_eq!(format_stat_float("-7"), "-7");
    assert_eq!(format_stat_float("inf"), "inf");
    assert_eq!(format_stat_float("NaN"), "NaN");
    assert_eq!(format_stat_float("2024.01.02"), "2024.01.02");
    assert_eq!(format_stat_float("ten"), "ten");
    assert_eq!(format_stat_float("e"), "e");
    assert_eq!(format_stat_float("."), ".");
    assert_eq!(format_stat_float(""), "");
}

#[test]
fn an_absent_statistic_stays_absent() {
    assert_eq!(format_optional_stat(&None), None);
    assert_eq!(format_optional_stat(&Some("2.0".to_string())), Some("2.0000".to_string()));
    assert_eq!(format_optional_stat(&Some("2".to_string())), Some("2".to_string()));
}
