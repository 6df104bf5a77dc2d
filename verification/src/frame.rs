//! Bindings to a materialized table of the dataframe engine. A table is a
//! list of named columns of equal height; what it holds is named here, and
//! each binding reads one thing out of it.

use polars::prelude::TimeUnit as Unit;
use polars::prelude::{AnyValue, DataFrame, DataType, PolarsError};
use crate::cells::{shape, shown_by_engine, Cell, CellShape};
use crate::operations::optional_text;
use vstd::prelude::*;

verus! {

#[verifier::external_type_specification]
#[verifier::external_body]
pub struct ExDataFrame(polars::prelude::DataFrame);

#[verifier::external_type_specification]
#[verifier::external_body]
pub struct ExColumn(polars::prelude::Column);

/// The resolution of a timestamp column.
#[derive(Debug, Clone, Copy, PartialEq, Eq, Structural)]
pub enum TimeUnit {
    Nanoseconds,
    Microseconds,
    Milliseconds,
}

/// The column types that the statistics, the detection of numeric text and
/// the plots tell apart.
#[derive(Debug, Clone, Copy, PartialEq, Eq, Structural)]
pub enum DataKind {
    Int32,
    Int64,
    Float32,
    Float64,
    String,
    Date,
    Datetime(TimeUnit),
    Other,
}

/// The number of columns of a table.
pub uninterp spec fn frame_width(df: DataFrame) -> nat;

/// The number of rows of a table.
pub uninterp spec fn frame_height(df: DataFrame) -> nat;

/// The name of column `c`.
pub uninterp spec fn column_name(df: DataFrame, c: int) -> Seq<char>;

/// The type of column `c`.
pub uninterp spec fn column_kind(df: DataFrame, c: int) -> DataKind;

/// The `Debug` text of the type of column `c`.
pub uninterp spec fn column_type_debug(df: DataFrame, c: int) -> Seq<char>;

/// The `Display` text of the type of column `c`.
pub uninterp spec fn column_type_display(df: DataFrame, c: int) -> Seq<char>;

/// The number of nulls in column `c`.
pub uninterp spec fn column_null_count(df: DataFrame, c: int) -> nat;

/// The least and the greatest value of column `c`, read as 64-bit integers.
pub uninterp spec fn column_min_int64(df: DataFrame, c: int) -> Option<i64>;

pub uninterp spec fn column_max_int64(df: DataFrame, c: int) -> Option<i64>;

/// The least and the greatest value of column `c`, read as 32-bit integers.
pub uninterp spec fn column_min_int32(df: DataFrame, c: int) -> Option<i32>;

pub uninterp spec fn column_max_int32(df: DataFrame, c: int) -> Option<i32>;

/// The display text of the least and of the greatest value of column `c`,
/// read as double-precision numbers.
pub uninterp spec fn column_min_float64(df: DataFrame, c: int) -> Option<Seq<char>>;

pub uninterp spec fn column_max_float64(df: DataFrame, c: int) -> Option<Seq<char>>;

/// The display text of the least and of the greatest value of column `c`,
/// read as single-precision numbers.
pub uninterp spec fn column_min_float32(df: DataFrame, c: int) -> Option<Seq<char>>;

pub uninterp spec fn column_max_float32(df: DataFrame, c: int) -> Option<Seq<char>>;

/// The string in row `row` of the string column `c`, `None` for a null.
pub uninterp spec fn string_cell(df: DataFrame, c: int, row: int) -> Option<Seq<char>>;

/// What `DataFrame::sort` makes of a table when told to keep rows of equal
/// key in their order: the rows ordered by one column, with default options
/// but for the direction; `None` where the engine refuses the sort.
pub uninterp spec fn frame_sorted(df: DataFrame, column: Seq<char>, descending: bool) -> Option<
    DataFrame,
>;

/// Whether the table has no column of the given name.
pub open spec fn has_no_column(df: DataFrame, column: Seq<char>) -> bool {
    forall|k: int| 0 <= k < frame_width(df) ==> column_name(df, k) != column
}

/// What the table fixes of the value in row `row` of column `c`: its kind,
/// the string or the boolean where it is one, whether a floating-point value
/// is a number.
pub uninterp spec fn cell(df: DataFrame, c: int, row: int) -> CellShape;

/// `DataFrame::width`: the number of columns.
#[verifier::external_body]
#[inline]
pub(crate) fn width(df: &DataFrame) -> (r: usize)
    ensures
        r == frame_width(*df),
{
    df.width()
}

/// `DataFrame::height`: the number of rows.
#[verifier::external_body]
#[inline]
pub(crate) fn height(df: &DataFrame) -> (r: usize)
    ensures
        r == frame_height(*df),
{
    df.height()
}

/// `Column::name` of column `c`.
#[verifier::external_body]
#[inline]
pub(crate) fn name(df: &DataFrame, c: usize) -> (r: String)
    requires
        c < frame_width(*df),
    ensures
        r@ == column_name(*df, c as int),
{
    df.columns()[c].name().to_string()
}

/// `Column::dtype` of column `c`, told apart by variant.
#[verifier::external_body]
#[inline]
pub(crate) fn kind(df: &DataFrame, c: usize) -> (r: DataKind)
    requires
        c < frame_width(*df),
    ensures
        r == column_kind(*df, c as int),
{
    match df.columns()[c].dtype() {
        DataType::Int32 => DataKind::Int32,
        DataType::Int64 => DataKind::Int64,
        DataType::Float32 => DataKind::Float32,
        DataType::Float64 => DataKind::Float64,
        DataType::String => DataKind::String,
        DataType::Date => DataKind::Date,
        DataType::Datetime(Unit::Nanoseconds, _) => DataKind::Datetime(TimeUnit::Nanoseconds),
        DataType::Datetime(Unit::Microseconds, _) => DataKind::Datetime(TimeUnit::Microseconds),
        DataType::Datetime(Unit::Milliseconds, _) => DataKind::Datetime(TimeUnit::Milliseconds),
        _ => DataKind::Other,
    }
}

/// `Column::null_count` of column `c`.
#[verifier::external_body]
#[inline]
pub(crate) fn null_count(df: &DataFrame, c: usize) -> (r: usize)
    requires
        c < frame_width(*df),
    ensures
        r == column_null_count(*df, c as int),
{
    df.columns()[c].null_count()
}

/// `Series::try_str` and `StringChunked::get` on row `row` of column `c`: the
/// string there, `None` for a null, and `None` too where the column holds no
/// strings.
#[verifier::external_body]
#[inline]
pub(crate) fn string_at(df: &DataFrame, c: usize, row: usize) -> (r: Option<String>)
    requires
        c < frame_width(*df),
        row < frame_height(*df),
    ensures
        optional_text(r) == string_cell(*df, c as int, row as int),
{
    let strings = df.columns()[c].as_materialized_series().try_str()?;
    strings.get(row).map(|s| s.to_string())
}

/// `Series::min` of column `c` as `i64`; `None` where the engine finds none.
#[verifier::external_body]
#[inline]
pub(crate) fn min_int64(df: &DataFrame, c: usize) -> (r: Option<i64>)
    requires
        c < frame_width(*df),
    ensures
        r == column_min_int64(*df, c as int),
{
    df.columns()[c].as_materialized_series().min::<i64>().ok().flatten()
}

/// `Series::max` of column `c` as `i64`; `None` where the engine finds none.
#[verifier::external_body]
#[inline]
pub(crate) fn max_int64(df: &DataFrame, c: usize) -> (r: Option<i64>)
    requires
        c < frame_width(*df),
    ensures
        r == column_max_int64(*df, c as int),
{
    df.columns()[c].as_materialized_series().max::<i64>().ok().flatten()
}

/// `Series::min` of column `c` as `i32`; `None` where the engine finds none.
#[verifier::external_body]
#[inline]
pub(crate) fn min_int32(df: &DataFrame, c: usize) -> (r: Option<i32>)
    requires
        c < frame_width(*df),
    ensures
        r == column_min_int32(*df, c as int),
{
    df.columns()[c].as_materialized_series().min::<i32>().ok().flatten()
}

/// `Series::max` of column `c` as `i32`; `None` where the engine finds none.
#[verifier::external_body]
#[inline]
pub(crate) fn max_int32(df: &DataFrame, c: usize) -> (r: Option<i32>)
    requires
        c < frame_width(*df),
    ensures
        r == column_max_int32(*df, c as int),
{
    df.columns()[c].as_materialized_series().max::<i32>().ok().flatten()
}

/// `Series::min` of column `c` as a double-precision number, printed by
/// `to_string`; `None` where the engine finds none.
#[verifier::external_body]
#[inline]
pub(crate) fn min_float64(df: &DataFrame, c: usize) -> (r: Option<String>)
    requires
        c < frame_width(*df),
    ensures
        optional_text(r) == column_min_float64(*df, c as int),
{
    let least = df.columns()[c].as_materialized_series().min::<<polars::prelude::Float64Type as polars::prelude::PolarsNumericType>::Native>();
    least.ok().flatten().map(|v| v.to_string())
}

/// `Series::max` of column `c` as a double-precision number, printed by
/// `to_string`; `None` where the engine finds none.
#[verifier::external_body]
#[inline]
pub(crate) fn max_float64(df: &DataFrame, c: usize) -> (r: Option<String>)
    requires
        c < frame_width(*df),
    ensures
        optional_text(r) == column_max_float64(*df, c as int),
{
    let greatest = df.columns()[c].as_materialized_series().max::<<polars::prelude::Float64Type as polars::prelude::PolarsNumericType>::Native>();
    greatest.ok().flatten().map(|v| v.to_string())
}

/// `Series::min` of column `c` as a single-precision number, printed by
/// `to_string`; `None` where the engine finds none.
#[verifier::external_body]
#[inline]
pub(crate) fn min_float32(df: &DataFrame, c: usize) -> (r: Option<String>)
    requires
        c < frame_width(*df),
    ensures
        optional_text(r) == column_min_float32(*df, c as int),
{
    let least = df.columns()[c].as_materialized_series().min::<<polars::prelude::Float32Type as polars::prelude::PolarsNumericType>::Native>();
    least.ok().flatten().map(|v| v.to_string())
}

/// `Series::max` of column `c` as a single-precision number, printed by
/// `to_string`; `None` where the engine finds none.
#[verifier::external_body]
#[inline]
pub(crate) fn max_float32(df: &DataFrame, c: usize) -> (r: Option<String>)
    requires
        c < frame_width(*df),
    ensures
        optional_text(r) == column_max_float32(*df, c as int),
{
    let greatest = df.columns()[c].as_materialized_series().max::<<polars::prelude::Float32Type as polars::prelude::PolarsNumericType>::Native>();
    greatest.ok().flatten().map(|v| v.to_string())
}

/// `Column::dtype` of column `c`, as `Debug` prints it.
#[verifier::external_body]
#[inline]
pub(crate) fn type_debug(df: &DataFrame, c: usize) -> (r: String)
    requires
        c < frame_width(*df),
    ensures
        r@ == column_type_debug(*df, c as int),
{
    format!("{:?}", df.columns()[c].dtype())
}

/// `Column::dtype` of column `c`, as `Display` prints it.
#[verifier::external_body]
#[inline]
pub(crate) fn type_display(df: &DataFrame, c: usize) -> (r: String)
    requires
        c < frame_width(*df),
    ensures
        r@ == column_type_display(*df, c as int),
{
    format!("{}", df.columns()[c].dtype())
}

/// `Column::get` on row `row` of column `c`, told apart by variant, each
/// with the text that `Display` gives for it. That text is claimed for a
/// string, which the engine writes between double quotes, and for a boolean,
/// which it writes as `true` or `false`; for numbers and the other kinds the
/// engine writes it by settings of its own, and nothing is claimed. A value
/// that the engine cannot hand out counts as null.
#[verifier::external_body]
#[inline]
pub(crate) fn cell_at(df: &DataFrame, c: usize, row: usize) -> (r: Cell)
    requires
        c < frame_width(*df),
        row < frame_height(*df),
    ensures
        shape(r@) == cell(*df, c as int, row as int),
        shown_by_engine(r@),
{
    let Ok(value) = df.columns()[c].get(row) else {
        return Cell::Null;
    };
    let shown = value.to_string();
    match value {
        AnyValue::Null => Cell::Null,
        AnyValue::Boolean(value) => Cell::Bool { value, shown },
        AnyValue::Float64(x) => Cell::Float { shown, nan: x.is_nan() },
        AnyValue::Float32(x) => Cell::Float { shown, nan: x.is_nan() },
        AnyValue::String(s) => Cell::Text { raw: s.to_string(), shown },
        AnyValue::StringOwned(s) => Cell::Text { raw: s.to_string(), shown },
        _ => Cell::Other { shown },
    }
}

/// `DataFrame::sort` by one column: a sorted copy of the table, or the
/// engine's error, of which nothing is claimed but that it comes for a
/// column the table lacks. With `maintain_order` the engine keeps rows of
/// equal key in their order, and whether it sorts and the table it makes are
/// then fixed; without it the order of such rows is the engine's to choose.
#[verifier::external_body]
#[inline]
pub(crate) fn sorted_by(df: &DataFrame, column: &str, descending: bool, maintain_order: bool) -> (r:
    Result<DataFrame, PolarsError>)
    ensures
        r is Ok ==> !has_no_column(*df, column@),
        maintain_order ==> match r {
            Ok(sorted) => frame_sorted(*df, column@, descending) == Some(sorted),
            Err(_) => frame_sorted(*df, column@, descending) is None,
        },
{
    let options = polars::prelude::SortMultipleOptions {
        descending: vec![descending],
        maintain_order,
        ..Default::default()
    };
    df.sort([column], options)
}

} // verus!
