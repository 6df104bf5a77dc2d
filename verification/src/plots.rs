//! What a plot reads off a table before any number is touched: which
//! column stands on the horizontal axis, and how its values become seconds.

use crate::frame::{
    column_kind, column_name, frame_width, has_no_column, kind, name, width, DataKind, TimeUnit,
};
use crate::text::same_text;
use polars::prelude::DataFrame;
use vstd::prelude::*;

verus! {

/// How the values of the horizontal axis become what is drawn.
#[derive(Debug, Clone, Copy, PartialEq, Eq, Structural)]
pub enum AxisScale {
    /// Numbers, drawn as they are.
    Plain,
    /// Timestamps, divided by so many units per second.
    PerSecond(u32),
    /// Dates, multiplied by so many seconds per day.
    PerDay(u32),
}

impl AxisScale {
    /// Whether the axis shows points in time.
    pub open spec fn spec_is_datetime(&self) -> bool {
        !(self is Plain)
    }

    #[verifier::when_used_as_spec(spec_is_datetime)]
    #[inline]
    pub fn is_datetime(&self) -> (r: bool)
        ensures
            r == self.spec_is_datetime(),
    {
        !matches!(self, AxisScale::Plain)
    }
}

/// The scale of an axis over a column of a given type: timestamps by their
/// resolution, dates by the seconds of a day, anything else plain.
pub open spec fn scale_for(kind: DataKind) -> AxisScale {
    match kind {
        DataKind::Datetime(TimeUnit::Nanoseconds) => AxisScale::PerSecond(1_000_000_000),
        DataKind::Datetime(TimeUnit::Microseconds) => AxisScale::PerSecond(1_000_000),
        DataKind::Datetime(TimeUnit::Milliseconds) => AxisScale::PerSecond(1_000),
        DataKind::Date => AxisScale::PerDay(86_400),
        _ => AxisScale::Plain,
    }
}

/// Whether `c` is the first column of the table with the given name.
pub open spec fn is_first_named(df: DataFrame, column: Seq<char>, c: int) -> bool {
    &&& 0 <= c < frame_width(df)
    &&& column_name(df, c) == column
    &&& forall|k: int| 0 <= k < c ==> column_name(df, k) != column
}

/// The scale of an axis over a column of a given type.
#[inline]
pub fn axis_scale(kind: DataKind) -> (r: AxisScale)
    ensures
        r == scale_for(kind),
{
    match kind {
        DataKind::Datetime(TimeUnit::Nanoseconds) => AxisScale::PerSecond(1_000_000_000),
        DataKind::Datetime(TimeUnit::Microseconds) => AxisScale::PerSecond(1_000_000),
        DataKind::Datetime(TimeUnit::Milliseconds) => AxisScale::PerSecond(1_000),
        DataKind::Date => AxisScale::PerDay(86_400),
        _ => AxisScale::Plain,
    }
}

/// The index of the first column with the given name, if there is one.
#[inline]
pub fn find_column(df: &DataFrame, column: &str) -> (r: Option<usize>)
    ensures
        match r {
            Some(c) => is_first_named(*df, column@, c as int),
            None => has_no_column(*df, column@),
        },
{
    let n = width(df);
    let mut c: usize = 0;
    while c < n
        invariant
            c <= n,
            n == frame_width(*df),
            forall|k: int| 0 <= k < c ==> column_name(*df, k) != column@,
        decreases n - c,
    {
        let found = name(df, c);
        if same_text(found.as_str(), column) {
            return Some(c);
        }
        c = c + 1;
    }
    None
}

/// The scale of the horizontal axis of a plot over the named column: that
/// of the column's type, and plain where the table has no such column.
#[inline]
pub fn x_axis_scale(df: &DataFrame, column: &str) -> (r: AxisScale)
    ensures
        has_no_column(*df, column@) ==> r == AxisScale::Plain,
        forall|c: int| is_first_named(*df, column@, c) ==> r == scale_for(column_kind(*df, c)),
{
    match find_column(df, column) {
        Some(c) => {
            assert forall|d: int| is_first_named(*df, column@, d) implies d == c by {
                if d < c {
                    assert(column_name(*df, d) != column@);
                }
                if c < d {
                    assert(column_name(*df, c as int) != column@);
                }
            }
            axis_scale(kind(df, c))
        },
        None => AxisScale::Plain,
    }
}

/// The points of a series drawn from two columns of values: as many as the
/// shorter column has, and no series at all where that is none.
pub open spec fn series_points(x_len: usize, y_len: usize) -> Option<usize> {
    if x_len == 0 || y_len == 0 {
        None
    } else if x_len < y_len {
        Some(x_len)
    } else {
        Some(y_len)
    }
}

/// The number of points of a series over `x_len` horizontal and `y_len`
/// vertical values, or `None` where the series is left out.
#[inline]
pub fn series_length(x_len: usize, y_len: usize) -> (r: Option<usize>)
    ensures
        r == series_points(x_len, y_len),
{
    if x_len == 0 || y_len == 0 {
        None
    } else if x_len < y_len {
        Some(x_len)
    } else {
        Some(y_len)
    }
}

} // verus!
