//! Statistics over a materialized table, and the detection of text columns
//! that hold numbers.

use crate::frame::{
    column_kind, column_max_float32, column_max_float64, column_max_int32, column_max_int64,
    column_min_float32, column_min_float64, column_min_int32, column_min_int64, column_name,
    column_null_count, column_type_debug, frame_height, frame_sorted, frame_width,
    has_no_column, height, kind, max_float32, max_float64, max_int32, max_int64, min_float32,
    min_float64, min_int32, min_int64, name, null_count, sorted_by, string_at, string_cell,
    type_debug, width, DataKind,
};
use crate::detection::{is_numeric_string_column, reads_numeric, sample_view, SAMPLE_ROWS};
use crate::text::texts;
use crate::operations::optional_text;
use crate::text::{signed_decimal_string, signed_decimal_text};
use polars::prelude::{DataFrame, PolarsError};
use vstd::prelude::*;

verus! {

/// What is known of one column of a table.
#[derive(Debug, Clone)]
pub struct ColumnStats {
    pub name: String,
    pub dtype: String,
    pub min: Option<String>,
    pub max: Option<String>,
    pub null_count: usize,
    pub error_count: usize,
}

pub struct ColumnStatsView {
    pub name: Seq<char>,
    pub dtype: Seq<char>,
    pub min: Option<Seq<char>>,
    pub max: Option<Seq<char>>,
    pub null_count: nat,
    pub error_count: nat,
}

impl View for ColumnStats {
    type V = ColumnStatsView;

    open spec fn view(&self) -> ColumnStatsView {
        ColumnStatsView {
            name: self.name@,
            dtype: self.dtype@,
            min: optional_text(self.min),
            max: optional_text(self.max),
            null_count: self.null_count as nat,
            error_count: self.error_count as nat,
        }
    }
}

/// An optional integer in base ten.
pub open spec fn optional_decimal(value: Option<int>) -> Option<Seq<char>> {
    match value {
        Some(n) => Some(signed_decimal_text(n)),
        None => None,
    }
}

/// The least value of column `c` as text: that of the column's own type for
/// a numeric column, and none for any other.
pub open spec fn least_text(df: DataFrame, c: int) -> Option<Seq<char>> {
    match column_kind(df, c) {
        DataKind::Int64 => optional_decimal(
            match column_min_int64(df, c) {
                Some(v) => Some(v as int),
                None => None,
            },
        ),
        DataKind::Int32 => optional_decimal(
            match column_min_int32(df, c) {
                Some(v) => Some(v as int),
                None => None,
            },
        ),
        DataKind::Float64 => column_min_float64(df, c),
        DataKind::Float32 => column_min_float32(df, c),
        _ => None,
    }
}

/// The greatest value of column `c` as text: that of the column's own type
/// for a numeric column, and none for any other.
pub open spec fn greatest_text(df: DataFrame, c: int) -> Option<Seq<char>> {
    match column_kind(df, c) {
        DataKind::Int64 => optional_decimal(
            match column_max_int64(df, c) {
                Some(v) => Some(v as int),
                None => None,
            },
        ),
        DataKind::Int32 => optional_decimal(
            match column_max_int32(df, c) {
                Some(v) => Some(v as int),
                None => None,
            },
        ),
        DataKind::Float64 => column_max_float64(df, c),
        DataKind::Float32 => column_max_float32(df, c),
        _ => None,
    }
}

/// The statistics of column `c`. No cell is ever counted as an error.
pub open spec fn stats_of(df: DataFrame, c: int) -> ColumnStatsView {
    ColumnStatsView {
        name: column_name(df, c),
        dtype: column_type_debug(df, c),
        min: least_text(df, c),
        max: greatest_text(df, c),
        null_count: column_null_count(df, c),
        error_count: 0,
    }
}

#[inline]
fn decimal_or_none(value: Option<i64>) -> (r: Option<String>)
    ensures
        optional_text(r) == optional_decimal(
            match value {
                Some(v) => Some(v as int),
                None => None,
            },
        ),
{
    match value {
        Some(v) => Some(signed_decimal_string(v)),
        None => None,
    }
}

#[inline]
fn widen(value: Option<i32>) -> (r: Option<i64>)
    ensures
        r == match value {
            Some(v) => Some(v as i64),
            None => None,
        },
{
    match value {
        Some(v) => Some(v as i64),
        None => None,
    }
}

/// The statistics of every column of a table, in column order: name, type,
/// least and greatest value for the numeric types, and the number of nulls.
#[inline]
pub fn column_stats(df: &DataFrame) -> (r: Vec<ColumnStats>)
    ensures
        r.len() == frame_width(*df),
        forall|c: int| 0 <= c < r.len() ==> (#[trigger] r[c])@ == stats_of(*df, c),
{
    let n = width(df);
    let mut out: Vec<ColumnStats> = Vec::new();
    let mut c: usize = 0;
    while c < n
        invariant
            c <= n,
            n == frame_width(*df),
            out.len() == c,
            forall|k: int| 0 <= k < c ==> (#[trigger] out[k])@ == stats_of(*df, k),
        decreases n - c,
    {
        let (min, max) = match kind(df, c) {
            DataKind::Int64 => (decimal_or_none(min_int64(df, c)), decimal_or_none(max_int64(df, c))),
            DataKind::Int32 => (
                decimal_or_none(widen(min_int32(df, c))),
                decimal_or_none(widen(max_int32(df, c))),
            ),
            DataKind::Float64 => (min_float64(df, c), max_float64(df, c)),
            DataKind::Float32 => (min_float32(df, c), max_float32(df, c)),
            _ => (None, None),
        };
        let stats = ColumnStats {
            name: name(df, c),
            dtype: type_debug(df, c),
            min,
            max,
            null_count: null_count(df, c),
            error_count: 0,
        };
        assert(stats@ == stats_of(*df, c as int));
        out.push(stats);
        c = c + 1;
    }
    out
}

/// The number of rows that the detection reads: all of them, up to 200.
pub open spec fn sample_rows(df: DataFrame) -> nat {
    if frame_height(df) < SAMPLE_ROWS {
        frame_height(df)
    } else {
        SAMPLE_ROWS as nat
    }
}

/// The sampled cells of column `c`: its leading rows, each the string
/// there or none for a null.
pub open spec fn column_sample(df: DataFrame, c: int) -> Seq<Option<Seq<char>>> {
    Seq::new(sample_rows(df), |row: int| string_cell(df, c, row))
}

/// The names of the first `upto` columns that are text and read as numeric,
/// in column order.
pub open spec fn detected(df: DataFrame, upto: nat) -> Seq<Seq<char>>
    decreases upto,
{
    if upto == 0 {
        Seq::empty()
    } else {
        let before = detected(df, (upto - 1) as nat);
        if column_kind(df, upto - 1) is String && reads_numeric(column_sample(df, upto - 1)) {
            before.push(column_name(df, upto - 1))
        } else {
            before
        }
    }
}

/// The leading rows of column `c`, up to 200 of them: the string in each,
/// or none for a null.
#[inline]
fn sample_column(df: &DataFrame, c: usize) -> (r: Vec<Option<String>>)
    requires
        c < frame_width(*df),
    ensures
        sample_view(r@) == column_sample(*df, c as int),
{
    let rows = height(df);
    let sample = if rows < SAMPLE_ROWS {
        rows
    } else {
        SAMPLE_ROWS
    };
    let mut out: Vec<Option<String>> = Vec::new();
    let mut row: usize = 0;
    while row < sample
        invariant
            row <= sample,
            sample == sample_rows(*df),
            c < frame_width(*df),
            out.len() == row,
            forall|k: int| 0 <= k < row ==> optional_text(#[trigger] out[k]) == string_cell(*df, c as int, k),
        decreases sample - row,
    {
        out.push(string_at(df, c, row));
        row = row + 1;
    }
    assert(sample_view(out@) =~= column_sample(*df, c as int));
    out
}

/// The names of the text columns that read as numeric, in column order.
#[inline]
pub fn detect_numeric_string_columns(df: &DataFrame) -> (r: Vec<String>)
    ensures
        texts(r@) == detected(*df, frame_width(*df)),
{
    let n = width(df);
    let mut out: Vec<String> = Vec::new();
    let mut c: usize = 0;
    while c < n
        invariant
            c <= n,
            n == frame_width(*df),
            texts(out@) == detected(*df, c as nat),
        decreases n - c,
    {
        let ghost before = out@;
        if matches!(kind(df, c), DataKind::String) {
            let sample = sample_column(df, c);
            if is_numeric_string_column(&sample) {
                out.push(name(df, c));
                assert(texts(out@) =~= texts(before).push(column_name(*df, c as int)));
            }
        }
        c = c + 1;
    }
    out
}

/// A copy of the table sorted by one column, rows of equal key in the order
/// they had; or the engine's error, which comes for every column the table
/// lacks.
#[inline]
pub fn sort_df(df: &DataFrame, column: &str, descending: bool) -> (r: Result<
    DataFrame,
    PolarsError,
>)
    ensures
        has_no_column(*df, column@) ==> r is Err,
        match r {
            Ok(sorted) => frame_sorted(*df, column@, descending) == Some(sorted),
            Err(_) => frame_sorted(*df, column@, descending) is None,
        },
{
    sorted_by(df, column, descending, true)
}

} // verus!
