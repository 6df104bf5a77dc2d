//! The detection of text columns that hold numbers, on a sample of a
//! column's cells.

use crate::operations::optional_text;
use crate::text::{chars_of, float_test, is_float_text, trim_chars, trimmed};
use vstd::prelude::*;

verus! {

/// How many leading cells of a column the detection reads.
pub const SAMPLE_ROWS: usize = 200;

/// The cells of a column, each string by its characters.
pub open spec fn sample_view(cells: Seq<Option<String>>) -> Seq<Option<Seq<char>>> {
    Seq::new(cells.len(), |i: int| optional_text(cells[i]))
}

/// Whether a cell holds a number: a string that, without the white space
/// around it, is a floating-point literal.
pub open spec fn is_numeric_text(cell: Option<Seq<char>>) -> bool {
    match cell {
        Some(text) => trimmed(text).len() > 0 && is_float_text(trimmed(text)),
        None => false,
    }
}

/// How many of the cells are strings.
pub open spec fn string_count(cells: Seq<Option<Seq<char>>>) -> nat
    decreases cells.len(),
{
    if cells.len() == 0 {
        0
    } else {
        string_count(cells.drop_last()) + if cells.last() is Some {
            1nat
        } else {
            0nat
        }
    }
}

/// How many of the cells hold a number.
pub open spec fn number_count(cells: Seq<Option<Seq<char>>>) -> nat
    decreases cells.len(),
{
    if cells.len() == 0 {
        0
    } else {
        number_count(cells.drop_last()) + if is_numeric_text(cells.last()) {
            1nat
        } else {
            0nat
        }
    }
}

/// The cells that the detection reads: the first 200, or all where there
/// are fewer.
pub open spec fn sampled(cells: Seq<Option<Seq<char>>>) -> Seq<Option<Seq<char>>> {
    if cells.len() < SAMPLE_ROWS {
        cells
    } else {
        cells.take(SAMPLE_ROWS as int)
    }
}

/// Whether a column reads as numeric: among its sampled cells there is at
/// least one string, and at least nine in ten of the strings hold a number.
pub open spec fn reads_numeric(cells: Seq<Option<Seq<char>>>) -> bool {
    let strings = string_count(sampled(cells));
    let numbers = number_count(sampled(cells));
    strings > 0 && numbers * 10 >= strings * 9
}

/// Whether `text` holds a number once the white space around it is gone.
#[inline]
pub fn holds_number(text: &str) -> (r: bool)
    ensures
        r == is_numeric_text(Some(text@)),
{
    let chars = chars_of(text);
    let inner = trim_chars(&chars);
    inner.len() > 0 && float_test(&inner)
}

/// Whether a column reads as numeric, judged by its first 200 cells.
#[inline]
pub fn is_numeric_string_column(cells: &Vec<Option<String>>) -> (r: bool)
    ensures
        r == reads_numeric(sample_view(cells@)),
{
    let sample = if cells.len() < SAMPLE_ROWS {
        cells.len()
    } else {
        SAMPLE_ROWS
    };
    let ghost all = sample_view(cells@);
    let mut strings: usize = 0;
    let mut numbers: usize = 0;
    let mut i: usize = 0;
    while i < sample
        invariant
            i <= sample <= cells.len(),
            sample <= SAMPLE_ROWS,
            all == sample_view(cells@),
            strings == string_count(all.take(i as int)),
            numbers == number_count(all.take(i as int)),
            numbers <= strings <= i,
        decreases sample - i,
    {
        proof {
            assert(all.take(i + 1).drop_last() =~= all.take(i as int));
            assert(all.take(i + 1).last() == optional_text(cells@[i as int]));
        }
        match &cells[i] {
            Some(text) => {
                strings = strings + 1;
                if holds_number(text.as_str()) {
                    numbers = numbers + 1;
                }
            },
            None => {},
        }
        i = i + 1;
    }
    proof {
        if cells.len() < SAMPLE_ROWS {
            assert(all.take(i as int) =~= all);
        }
        assert(all.take(i as int) == sampled(all));
    }
    strings > 0 && numbers * 10 >= strings * 9
}

} // verus!
