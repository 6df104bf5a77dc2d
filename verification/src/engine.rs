//! Bindings to the dataframe engine. Every function here hands one call to
//! the engine and is believed, not proved. An expression or a plan is opaque:
//! the contracts name what a call builds from its arguments, so that callers
//! can state exactly which plan they compose.

use crate::frame::TimeUnit;
use crate::operations::DTypeTag;
use crate::text::is_float_text;
use polars::prelude::{DataType, Expr, LazyFrame, PolarsError, TimeZone};
use vstd::prelude::*;

verus! {

#[verifier::external_type_specification]
#[verifier::external_body]
pub struct ExLazyFrame(polars::prelude::LazyFrame);

#[verifier::external_type_specification]
#[verifier::external_body]
pub struct ExExpr(polars::prelude::Expr);

#[verifier::external_type_specification]
#[verifier::external_body]
pub struct ExDataType(polars::prelude::DataType);

#[verifier::external_type_specification]
#[verifier::external_body]
pub struct ExPolarsError(polars::prelude::PolarsError);

#[verifier::external_type_specification]
#[verifier::external_body]
pub struct ExTimeZone(polars::prelude::TimeZone);

/// The expression `col` builds for a column name.
pub uninterp spec fn expr_column(name: Seq<char>) -> Expr;

/// The expression `lit` builds for a 64-bit integer.
pub uninterp spec fn expr_int(value: i64) -> Expr;

/// The expression `lit` builds for a 32-bit integer.
pub uninterp spec fn expr_offset(value: i32) -> Expr;

/// The expression `lit` builds for the double-precision number that `text`
/// writes.
pub uninterp spec fn expr_float(text: Seq<char>) -> Expr;

/// The expression `lit` builds for a boolean.
pub uninterp spec fn expr_bool(value: bool) -> Expr;

/// The expression `lit` builds for a string.
pub uninterp spec fn expr_text(text: Seq<char>) -> Expr;

/// The expression `Expr::is_null` builds.
pub uninterp spec fn expr_is_null(e: Expr) -> Expr;

/// The expression `Expr::is_not_null` builds.
pub uninterp spec fn expr_is_not_null(e: Expr) -> Expr;

/// The expression `Expr::eq` builds.
pub uninterp spec fn expr_eq(left: Expr, right: Expr) -> Expr;

/// The expression `Expr::neq` builds.
pub uninterp spec fn expr_neq(left: Expr, right: Expr) -> Expr;

/// The expression `Expr::gt` builds.
pub uninterp spec fn expr_gt(left: Expr, right: Expr) -> Expr;

/// The expression `Expr::gt_eq` builds.
pub uninterp spec fn expr_gt_eq(left: Expr, right: Expr) -> Expr;

/// The expression `Expr::lt` builds.
pub uninterp spec fn expr_lt(left: Expr, right: Expr) -> Expr;

/// The expression `Expr::lt_eq` builds.
pub uninterp spec fn expr_lt_eq(left: Expr, right: Expr) -> Expr;

/// The expression `StringNameSpace::contains_literal` builds.
pub uninterp spec fn expr_contains(e: Expr, pattern: Expr) -> Expr;

/// The expression `Expr::fill_null` builds.
pub uninterp spec fn expr_fill_null(e: Expr, fill: Expr) -> Expr;

/// The expression `Expr::shift` builds.
pub uninterp spec fn expr_shift(e: Expr, n: Expr) -> Expr;

/// The expression `Expr::mean` builds.
pub uninterp spec fn expr_mean(e: Expr) -> Expr;

/// The expression `Expr::min` builds.
pub uninterp spec fn expr_min(e: Expr) -> Expr;

/// The expression `Expr::max` builds.
pub uninterp spec fn expr_max(e: Expr) -> Expr;

/// The engine's type for a cast target.
pub uninterp spec fn polars_type(tag: DTypeTag) -> DataType;

/// The expression `Expr::cast` builds.
pub uninterp spec fn expr_cast(e: Expr, dtype: DataType) -> Expr;

/// The expression `StringNameSpace::to_datetime` builds for timestamps of
/// the given resolution and time zone.
pub uninterp spec fn expr_to_datetime(
    e: Expr,
    unit: TimeUnit,
    zone: Option<TimeZone>,
    format: Seq<char>,
    strict: bool,
    exact: bool,
    ambiguous: Expr,
) -> Expr;

/// The text that `Display` prints for an engine error.
pub uninterp spec fn error_message(error: PolarsError) -> Seq<char>;

/// The plan `LazyFrame::filter` builds.
pub uninterp spec fn plan_filter(plan: LazyFrame, predicate: Expr) -> LazyFrame;

/// The plan `LazyFrame::sort` builds for one column, with default options
/// but for the direction and for whether rows of equal key keep their order.
pub uninterp spec fn plan_sort(
    plan: LazyFrame,
    column: Seq<char>,
    descending: bool,
    maintain_order: bool,
) -> LazyFrame;

/// The plan `LazyFrame::select` builds.
pub uninterp spec fn plan_select(plan: LazyFrame, exprs: Seq<Expr>) -> LazyFrame;

/// The plan `LazyFrame::rename` builds for one column.
pub uninterp spec fn plan_rename(
    plan: LazyFrame,
    from: Seq<char>,
    to: Seq<char>,
    strict: bool,
) -> LazyFrame;

/// The plan `LazyFrame::limit` builds.
pub uninterp spec fn plan_limit(plan: LazyFrame, n: u32) -> LazyFrame;

/// The plan `LazyFrame::with_columns` builds.
pub uninterp spec fn plan_with_columns(plan: LazyFrame, exprs: Seq<Expr>) -> LazyFrame;

/// `polars::prelude::col`: the expression that stands for the named column.
#[verifier::external_body]
#[inline]
pub(crate) fn col(name: &str) -> (r: Expr)
    ensures
        r == expr_column(name@),
{
    polars::prelude::col(name)
}

/// `polars::prelude::lit` on an `i64`: a literal of that value.
#[verifier::external_body]
#[inline]
pub(crate) fn lit_int(value: i64) -> (r: Expr)
    ensures
        r == expr_int(value),
{
    polars::prelude::lit(value)
}

/// `polars::prelude::lit` on an `i32`: a literal of that value.
#[verifier::external_body]
#[inline]
pub(crate) fn lit_offset(value: i32) -> (r: Expr)
    ensures
        r == expr_offset(value),
{
    polars::prelude::lit(value)
}

/// `polars::prelude::lit` on the double-precision number that `str::parse`
/// reads from `text`: a literal of that number. The text has to write one.
#[verifier::external_body]
#[inline]
pub(crate) fn lit_float(text: &str) -> (r: Expr)
    requires
        is_float_text(text@),
    ensures
        r == expr_float(text@),
{
    let number: <polars::prelude::Float64Type as polars::prelude::PolarsNumericType>::Native =
        text.parse().unwrap();
    polars::prelude::lit(number)
}

/// `polars::prelude::lit` on a `bool`: a literal of that value.
#[verifier::external_body]
#[inline]
pub(crate) fn lit_bool(value: bool) -> (r: Expr)
    ensures
        r == expr_bool(value),
{
    polars::prelude::lit(value)
}

/// `polars::prelude::lit` on a `String`: a literal of that text.
#[verifier::external_body]
#[inline]
pub(crate) fn lit_text(text: &str) -> (r: Expr)
    ensures
        r == expr_text(text@),
{
    polars::prelude::lit(text.to_string())
}

/// `Expr::is_null`: true where the operand is null.
#[verifier::external_body]
#[inline]
pub(crate) fn is_null(e: Expr) -> (r: Expr)
    ensures
        r == expr_is_null(e),
{
    e.is_null()
}

/// `Expr::is_not_null`: true where the operand is not null.
#[verifier::external_body]
#[inline]
pub(crate) fn is_not_null(e: Expr) -> (r: Expr)
    ensures
        r == expr_is_not_null(e),
{
    e.is_not_null()
}

/// `Expr::eq`: the comparison `left == right`.
#[verifier::external_body]
#[inline]
pub(crate) fn eq(left: Expr, right: Expr) -> (r: Expr)
    ensures
        r == expr_eq(left, right),
{
    left.eq(right)
}

/// `Expr::neq`: the comparison `left != right`.
#[verifier::external_body]
#[inline]
pub(crate) fn neq(left: Expr, right: Expr) -> (r: Expr)
    ensures
        r == expr_neq(left, right),
{
    left.neq(right)
}

/// `Expr::gt`: the comparison `left > right`.
#[verifier::external_body]
#[inline]
pub(crate) fn gt(left: Expr, right: Expr) -> (r: Expr)
    ensures
        r == expr_gt(left, right),
{
    left.gt(right)
}

/// `Expr::gt_eq`: the comparison `left >= right`.
#[verifier::external_body]
#[inline]
pub(crate) fn gt_eq(left: Expr, right: Expr) -> (r: Expr)
    ensures
        r == expr_gt_eq(left, right),
{
    left.gt_eq(right)
}

/// `Expr::lt`: the comparison `left < right`.
#[verifier::external_body]
#[inline]
pub(crate) fn lt(left: Expr, right: Expr) -> (r: Expr)
    ensures
        r == expr_lt(left, right),
{
    left.lt(right)
}

/// `Expr::lt_eq`: the comparison `left <= right`.
#[verifier::external_body]
#[inline]
pub(crate) fn lt_eq(left: Expr, right: Expr) -> (r: Expr)
    ensures
        r == expr_lt_eq(left, right),
{
    left.lt_eq(right)
}

/// `StringNameSpace::contains_literal`: true where the operand, as a string,
/// holds the pattern as a substring.
#[verifier::external_body]
#[inline]
pub(crate) fn contains_literal(e: Expr, pattern: Expr) -> (r: Expr)
    ensures
        r == expr_contains(e, pattern),
{
    e.str().contains_literal(pattern)
}

/// `Expr::fill_null`: the operand with its nulls replaced by `fill`.
#[verifier::external_body]
#[inline]
pub(crate) fn fill_null(e: Expr, fill: Expr) -> (r: Expr)
    ensures
        r == expr_fill_null(e, fill),
{
    e.fill_null(fill)
}

/// `Expr::shift`: the operand moved down by `n` rows.
#[verifier::external_body]
#[inline]
pub(crate) fn shift(e: Expr, n: Expr) -> (r: Expr)
    ensures
        r == expr_shift(e, n),
{
    e.shift(n)
}

/// `Expr::mean`: the mean of the operand.
#[verifier::external_body]
#[inline]
pub(crate) fn mean(e: Expr) -> (r: Expr)
    ensures
        r == expr_mean(e),
{
    e.mean()
}

/// `Expr::min`: the least value of the operand.
#[verifier::external_body]
#[inline]
pub(crate) fn min(e: Expr) -> (r: Expr)
    ensures
        r == expr_min(e),
{
    e.min()
}

/// `Expr::max`: the greatest value of the operand.
#[verifier::external_body]
#[inline]
pub(crate) fn max(e: Expr) -> (r: Expr)
    ensures
        r == expr_max(e),
{
    e.max()
}

/// `Expr::cast`: the operand converted to `dtype`.
#[verifier::external_body]
#[inline]
pub(crate) fn cast(e: Expr, dtype: DataType) -> (r: Expr)
    ensures
        r == expr_cast(e, dtype),
{
    e.cast(dtype)
}

/// `StringNameSpace::to_datetime`: the operand parsed by `format` as a
/// timestamp of the given resolution and time zone.
#[verifier::external_body]
#[inline]
pub(crate) fn to_datetime(
    e: Expr,
    unit: TimeUnit,
    zone: Option<TimeZone>,
    format: &str,
    strict: bool,
    exact: bool,
    ambiguous: Expr,
) -> (r: Expr)
    ensures
        r == expr_to_datetime(e, unit, zone, format@, strict, exact, ambiguous),
{
    let unit = match unit {
        TimeUnit::Nanoseconds => polars::prelude::TimeUnit::Nanoseconds,
        TimeUnit::Microseconds => polars::prelude::TimeUnit::Microseconds,
        TimeUnit::Milliseconds => polars::prelude::TimeUnit::Milliseconds,
    };
    let format = Some(format.into());
    let options = polars::prelude::StrptimeOptions { format, strict, exact, ..Default::default() };
    e.str().to_datetime(Some(unit), zone, options, ambiguous)
}

/// `LazyFrame::filter`: the plan followed by a filter on `predicate`.
#[verifier::external_body]
#[inline]
pub(crate) fn filter(plan: LazyFrame, predicate: Expr) -> (r: LazyFrame)
    ensures
        r == plan_filter(plan, predicate),
{
    plan.filter(predicate)
}

/// `LazyFrame::sort` by one column: the plan followed by that sort. With
/// `maintain_order` the engine keeps rows of equal key in their order.
#[verifier::external_body]
#[inline]
pub(crate) fn sort(plan: LazyFrame, column: &str, descending: bool, maintain_order: bool) -> (r:
    LazyFrame)
    ensures
        r == plan_sort(plan, column@, descending, maintain_order),
{
    let options = polars::prelude::SortMultipleOptions {
        descending: vec![descending],
        maintain_order,
        ..Default::default()
    };
    plan.sort([column], options)
}

/// `LazyFrame::select`: the plan followed by a projection to `exprs`.
#[verifier::external_body]
#[inline]
pub(crate) fn select(plan: LazyFrame, exprs: Vec<Expr>) -> (r: LazyFrame)
    ensures
        r == plan_select(plan, exprs@),
{
    plan.select(exprs)
}

/// `LazyFrame::rename` of one column: the plan followed by that renaming.
#[verifier::external_body]
#[inline]
pub(crate) fn rename(plan: LazyFrame, from: &str, to: &str, strict: bool) -> (r: LazyFrame)
    ensures
        r == plan_rename(plan, from@, to@, strict),
{
    plan.rename([from], [to], strict)
}

/// `LazyFrame::limit`: the plan cut to its first `n` rows.
#[verifier::external_body]
#[inline]
pub(crate) fn limit(plan: LazyFrame, n: u32) -> (r: LazyFrame)
    ensures
        r == plan_limit(plan, n),
{
    plan.limit(n)
}

/// `LazyFrame::with_columns`: the plan followed by the replacement or
/// addition of the columns that `exprs` compute.
#[verifier::external_body]
#[inline]
pub(crate) fn with_columns(plan: LazyFrame, exprs: Vec<Expr>) -> (r: LazyFrame)
    ensures
        r == plan_with_columns(plan, exprs@),
{
    plan.with_columns(exprs)
}

/// `PolarsError`'s `Display`: the error as text.
#[verifier::external_body]
#[inline]
pub(crate) fn error_text(error: &PolarsError) -> (r: String)
    ensures
        r@ == error_message(*error),
{
    error.to_string()
}

impl DTypeTag {
    /// The engine's type for this target.
    #[verifier::external_body]
    #[inline]
    pub fn to_polars(&self) -> (r: DataType)
        ensures
            r == polars_type(*self),
    {
        match self {
            DTypeTag::Int32 => DataType::Int32,
            DTypeTag::Int64 => DataType::Int64,
            DTypeTag::Float32 => DataType::Float32,
            DTypeTag::Float64 => DataType::Float64,
            DTypeTag::Utf8String => DataType::String,
            DTypeTag::Boolean => DataType::Boolean,
            DTypeTag::Date => DataType::Date,
        }
    }
}

} // verus!
