//! What a preview shows: the table as a grid of display text, with its
//! column names, type labels and statistics.

use crate::data_loader::{column_stats, stats_of, ColumnStats, ColumnStatsView};
use crate::execution::{column_names, header_record};
use crate::cells::{
    format_cell_value, format_optional_stat, lemma_preview_follows_the_table, optional_stat_text,
    shows_cell,
};
use crate::frame::{
    cell, cell_at, column_type_display, frame_height, frame_width, height, type_display, width,
};
use crate::records::grid_view;
use crate::text::texts;
use polars::prelude::DataFrame;
use vstd::prelude::*;

verus! {

/// A column by name and type label.
#[derive(Debug, Clone)]
pub struct ColumnInfo {
    pub name: String,
    pub dtype: String,
}

/// The statistics of a column as a preview shows them.
pub type ColumnStatInfo = ColumnStats;

/// What a preview shows.
#[derive(Debug)]
pub struct PreviewResult {
    pub headers: Vec<String>,
    pub dtypes: Vec<String>,
    pub rows: Vec<Vec<String>>,
    pub total_rows: usize,
    pub preview_rows: usize,
    pub stats: Vec<ColumnStatInfo>,
}

/// Statistics with their least and greatest value as a preview shows them.
pub open spec fn shown_stats(stats: ColumnStatsView) -> ColumnStatsView {
    ColumnStatsView {
        name: stats.name,
        dtype: stats.dtype,
        min: optional_stat_text(stats.min),
        max: optional_stat_text(stats.max),
        null_count: stats.null_count,
        error_count: stats.error_count,
    }
}

/// The type labels of a table, in column order.
pub open spec fn type_labels(df: DataFrame) -> Seq<Seq<char>> {
    Seq::new(frame_width(df), |c: int| column_type_display(df, c))
}

/// Whether `line` can be what a preview shows for row `row`: one text for
/// each column, in column order; nothing for a null, `NaN` for a number that
/// is none, a string as it is, a boolean as `true` or `false`.
pub open spec fn is_display_row(df: DataFrame, row: int, line: Seq<Seq<char>>) -> bool {
    &&& line.len() == frame_width(df)
    &&& forall|c: int| 0 <= c < frame_width(df) ==> shows_cell(cell(df, c, row), #[trigger] line[c])
}

/// Whether `grid` can be what a preview shows for a table: one line for each
/// row, in order.
pub open spec fn is_display_grid(df: DataFrame, grid: Seq<Seq<Seq<char>>>) -> bool {
    &&& grid.len() == frame_height(df)
    &&& forall|row: int|
        0 <= row < frame_height(df) ==> is_display_row(df, row, #[trigger] grid[row])
}

/// The statistics of a list of columns, each by its view.
pub open spec fn stats_view(stats: Seq<ColumnStats>) -> Seq<ColumnStatsView> {
    Seq::new(stats.len(), |c: int| stats[c]@)
}

/// The statistics of a table as a preview shows them, in column order.
pub open spec fn shown_table_stats(df: DataFrame) -> Seq<ColumnStatsView> {
    Seq::new(frame_width(df), |c: int| shown_stats(stats_of(df, c)))
}

/// The table that the statistics of a preview are taken from: the full
/// result where there is one, and the preview itself where there is none.
pub open spec fn stats_source(preview: DataFrame, full: Option<DataFrame>) -> DataFrame {
    match full {
        Some(table) => table,
        None => preview,
    }
}

/// The table behind an optional reference.
pub open spec fn referred(full: Option<&DataFrame>) -> Option<DataFrame> {
    match full {
        Some(table) => Some(*table),
        None => None,
    }
}

/// The type labels of a table, in column order.
#[inline]
pub fn column_types(df: &DataFrame) -> (r: Vec<String>)
    ensures
        texts(r@) == type_labels(*df),
{
    let n = width(df);
    let mut out: Vec<String> = Vec::new();
    let mut c: usize = 0;
    while c < n
        invariant
            c <= n,
            n == frame_width(*df),
            out.len() == c,
            forall|k: int| 0 <= k < c ==> (#[trigger] out[k])@ == column_type_display(*df, k),
        decreases n - c,
    {
        out.push(type_display(df, c));
        c = c + 1;
    }
    assert(texts(out@) =~= type_labels(*df));
    out
}

/// A table as a preview shows it, row by row. The text of a number, but
/// for one that is none, and of a value that is neither null, string nor
/// boolean is the engine's display text, which depends on settings of the
/// engine that hold for the whole process: only its place is promised.
#[inline]
pub fn display_rows(df: &DataFrame) -> (r: Vec<Vec<String>>)
    ensures
        is_display_grid(*df, grid_view(r@)),
{
    let rows = height(df);
    let n = width(df);
    let mut grid: Vec<Vec<String>> = Vec::new();
    let mut row: usize = 0;
    while row < rows
        invariant
            row <= rows,
            rows == frame_height(*df),
            n == frame_width(*df),
            grid.len() == row,
            forall|k: int| 0 <= k < row ==> is_display_row(*df, k, texts((#[trigger] grid[k])@)),
        decreases rows - row,
    {
        let mut line: Vec<String> = Vec::new();
        let mut c: usize = 0;
        while c < n
            invariant
                c <= n,
                n == frame_width(*df),
                row < frame_height(*df),
                line.len() == c,
                forall|k: int|
                    0 <= k < c ==> shows_cell(cell(*df, k, row as int), (#[trigger] line[k])@),
            decreases n - c,
        {
            let value = cell_at(df, c, row);
            proof {
                lemma_preview_follows_the_table(value@);
            }
            line.push(format_cell_value(&value));
            c = c + 1;
        }
        assert forall|k: int| 0 <= k < frame_width(*df) implies shows_cell(
            cell(*df, k, row as int),
            #[trigger] texts(line@)[k],
        ) by {
            assert(texts(line@)[k] == line[k]@);
        }
        grid.push(line);
        row = row + 1;
    }
    assert forall|k: int| 0 <= k < frame_height(*df) implies is_display_row(
        *df,
        k,
        #[trigger] grid_view(grid@)[k],
    ) by {
        assert(grid_view(grid@)[k] == texts(grid[k]@));
    }
    grid
}

/// The statistics of a table as a preview shows them, in column order.
#[inline]
pub fn shown_column_stats(df: &DataFrame) -> (r: Vec<ColumnStatInfo>)
    ensures
        stats_view(r@) == shown_table_stats(*df),
{
    let raw = column_stats(df);
    let mut out: Vec<ColumnStatInfo> = Vec::new();
    let mut c: usize = 0;
    while c < raw.len()
        invariant
            c <= raw.len(),
            raw.len() == frame_width(*df),
            forall|k: int| 0 <= k < raw.len() ==> (#[trigger] raw[k])@ == stats_of(*df, k),
            out.len() == c,
            forall|k: int| 0 <= k < c ==> (#[trigger] out[k])@ == shown_stats(stats_of(*df, k)),
        decreases raw.len() - c,
    {
        let stats = &raw[c];
        let shown = ColumnStats {
            name: stats.name.clone(),
            dtype: stats.dtype.clone(),
            min: format_optional_stat(&stats.min),
            max: format_optional_stat(&stats.max),
            null_count: stats.null_count,
            error_count: stats.error_count,
        };
        assert(shown@ == shown_stats(stats_of(*df, c as int)));
        out.push(shown);
        c = c + 1;
    }
    assert(stats_view(out@) =~= shown_table_stats(*df));
    out
}

/// Puts a preview together: the column names, type labels and rows of the
/// previewed table, and the statistics and the row count of the full result
/// where there is one, else of the preview itself.
#[inline]
pub fn build_preview_result(preview: &DataFrame, full: Option<&DataFrame>) -> (r: PreviewResult)
    ensures
        texts(r.headers@) == header_record(*preview),
        texts(r.dtypes@) == type_labels(*preview),
        is_display_grid(*preview, grid_view(r.rows@)),
        r.preview_rows == frame_height(*preview),
        r.total_rows == frame_height(stats_source(*preview, referred(full))),
        stats_view(r.stats@) == shown_table_stats(stats_source(*preview, referred(full))),
{
    let headers = column_names(preview);
    let dtypes = column_types(preview);
    let rows = display_rows(preview);
    let preview_rows = height(preview);
    let (stats, total_rows) = match full {
        Some(table) => (shown_column_stats(table), height(table)),
        None => (shown_column_stats(preview), preview_rows),
    };
    PreviewResult { headers, dtypes, rows, total_rows, preview_rows, stats }
}

} // verus!
