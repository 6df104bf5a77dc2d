//! What an export writes: the table as CSV text, a header row of column
//! names and then one row per record.

use crate::cells::{format_any_value, lemma_export_follows_the_table, writes_cell};
use crate::frame::{
    cell, cell_at, column_name, frame_height, frame_width, height, name, width,
};
use crate::records::{csv_document, csv_text, grid_view};
use crate::text::texts;
use polars::prelude::DataFrame;
use vstd::pervasive::unreached;
use vstd::prelude::*;

verus! {

/// The header row of a table: its column names, in order.
pub open spec fn header_record(df: DataFrame) -> Seq<Seq<char>> {
    Seq::new(frame_width(df), |c: int| column_name(df, c))
}

/// Whether `fields` can be what an export writes for row `row`: one field
/// for each column, in column order; an empty one where the table holds a
/// null, a string between double quotes, a boolean as `true` or `false`.
pub open spec fn is_row_record(df: DataFrame, row: int, fields: Seq<Seq<char>>) -> bool {
    &&& fields.len() == frame_width(df)
    &&& forall|c: int|
        0 <= c < frame_width(df) ==> writes_cell(cell(df, c, row), #[trigger] fields[c])
}

/// Whether `rows` can be what an export writes for the rows of a table: one
/// record for each row, in order.
pub open spec fn are_row_records(df: DataFrame, rows: Seq<Seq<Seq<char>>>) -> bool {
    &&& rows.len() == frame_height(df)
    &&& forall|row: int| 0 <= row < frame_height(df) ==> is_row_record(df, row, #[trigger] rows[row])
}

/// Whether `bytes` can be the export of a table: the CSV text of its header
/// row followed by one record for each row.
pub open spec fn is_export(df: DataFrame, bytes: Seq<u8>) -> bool {
    exists|rows: Seq<Seq<Seq<char>>>|
        are_row_records(df, rows) && bytes == csv_text(seq![header_record(df)] + rows)
}

/// The column names of a table, in order.
#[inline]
pub fn column_names(df: &DataFrame) -> (r: Vec<String>)
    ensures
        texts(r@) == header_record(*df),
{
    let n = width(df);
    let mut out: Vec<String> = Vec::new();
    let mut c: usize = 0;
    while c < n
        invariant
            c <= n,
            n == frame_width(*df),
            out.len() == c,
            forall|k: int| 0 <= k < c ==> (#[trigger] out[k])@ == column_name(*df, k),
        decreases n - c,
    {
        out.push(name(df, c));
        c = c + 1;
    }
    assert(texts(out@) =~= header_record(*df));
    out
}

/// Row `row` of a table as an export writes it.
#[inline]
fn export_row(df: &DataFrame, row: usize) -> (r: Vec<String>)
    requires
        row < frame_height(*df),
    ensures
        is_row_record(*df, row as int, texts(r@)),
{
    let n = width(df);
    let mut out: Vec<String> = Vec::new();
    let mut c: usize = 0;
    while c < n
        invariant
            c <= n,
            n == frame_width(*df),
            row < frame_height(*df),
            out.len() == c,
            forall|k: int|
                0 <= k < c ==> writes_cell(cell(*df, k, row as int), (#[trigger] out[k])@),
        decreases n - c,
    {
        let value = cell_at(df, c, row);
        proof {
            lemma_export_follows_the_table(value@);
        }
        out.push(format_any_value(&value));
        c = c + 1;
    }
    assert forall|k: int| 0 <= k < frame_width(*df) implies writes_cell(
        cell(*df, k, row as int),
        #[trigger] texts(out@)[k],
    ) by {
        assert(texts(out@)[k] == out[k]@);
    }
    out
}

/// The rows of a table as an export writes them, in order.
#[inline]
pub fn export_rows(df: &DataFrame) -> (r: Vec<Vec<String>>)
    ensures
        are_row_records(*df, grid_view(r@)),
{
    let rows = height(df);
    let mut out: Vec<Vec<String>> = Vec::new();
    let mut row: usize = 0;
    while row < rows
        invariant
            row <= rows,
            rows == frame_height(*df),
            out.len() == row,
            forall|k: int| 0 <= k < row ==> is_row_record(*df, k, texts((#[trigger] out[k])@)),
        decreases rows - row,
    {
        out.push(export_row(df, row));
        row = row + 1;
    }
    assert forall|k: int| 0 <= k < frame_height(*df) implies is_row_record(
        *df,
        k,
        #[trigger] grid_view(out@)[k],
    ) by {
        assert(grid_view(out@)[k] == texts(out[k]@));
    }
    out
}

/// The CSV text of a table: a header row of column names, then one record
/// per row with one field per column. A null is an empty field, a string is
/// written as the engine displays it, between double quotes, and a boolean
/// as `true` or `false`. Numbers and values of the other kinds are written
/// as the engine displays them too, but that text depends on settings of
/// the engine that hold for the whole process, so only its place in the
/// record is promised.
#[inline]
pub fn export_csv(df: &DataFrame) -> (r: Vec<u8>)
    ensures
        is_export(*df, r@),
{
    let header = column_names(df);
    let rows = export_rows(df);
    proof {
        assert forall|k: int| 0 <= k < grid_view(rows@).len() implies (#[trigger] grid_view(
            rows@,
        )[k]).len() == texts(header@).len() by {
            assert(is_row_record(*df, k, grid_view(rows@)[k]));
        }
    }
    match csv_document(&header, &rows) {
        Ok(bytes) => bytes,
        Err(_) => unreached(),
    }
}

} // verus!
