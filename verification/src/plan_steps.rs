//! The steps of a plan: the literal that a value writes, the expressions
//! of a filter, a fill, a cast and a timestamp parse, and the step that
//! each operation puts on top of a plan. Nothing is materialized here, and
//! nothing asks the engine to resolve a plan.

use crate::datasource::DataSource;
use crate::engine::{
    cast, col, contains_literal, eq, error_message, error_text, expr_bool, expr_cast, expr_column,
    expr_contains, expr_eq, expr_fill_null, expr_float, expr_gt, expr_gt_eq, expr_int,
    expr_is_not_null, expr_is_null, expr_lt, expr_lt_eq, expr_max, expr_mean, expr_min,
    expr_neq, expr_offset, expr_shift, expr_text, expr_to_datetime, fill_null, filter, gt, gt_eq,
    is_not_null, is_null, limit, lit_bool, lit_float, lit_int, lit_offset, lit_text, lt, lt_eq,
    max, mean, min, neq, plan_filter, plan_limit, plan_rename, plan_select, plan_sort,
    plan_with_columns, polars_type, rename, select, shift, sort, to_datetime, with_columns,
};
use crate::operations::{DTypeTag, FillNullStrategy, FilterOp, Operation, OperationView};
use crate::text::{
    classify_literal, holds_text, kept_columns, literal_of, remaining_columns, texts,
    Literal,
};
use crate::frame::TimeUnit;
use polars::prelude::{Expr, LazyFrame, PolarsError, TimeZone};
use vstd::prelude::*;
use vstd::string::StringExecFns;

verus! {

/// Why a plan could not be built.
#[derive(Debug)]
pub enum EngineError {
    /// The engine could not resolve the columns of the plan so far.
    Schema(PolarsError),
    /// The operation would leave the table without a column.
    DropAllColumns,
    /// The column to remove is none of the table's.
    UnknownColumn,
}

impl EngineError {
    /// The error as one line of text.
    #[inline]
    pub fn message(&self) -> (r: String)
        ensures
            r@ == match self {
                EngineError::Schema(error) => error_message(*error),
                EngineError::DropAllColumns => "Cannot drop all columns"@,
                EngineError::UnknownColumn => "Cannot drop a column that is not there"@,
            },
    {
        match self {
            EngineError::Schema(error) => error_text(error),
            EngineError::DropAllColumns => String::from_str("Cannot drop all columns"),
            EngineError::UnknownColumn => String::from_str(
                "Cannot drop a column that is not there",
            ),
        }
    }
}

/// What the engine answers when asked for the column names of a plan.
pub type SchemaOutcome = Result<Seq<Seq<char>>, PolarsError>;

/// The literal that a value field writes: an integer if it reads as one,
/// else a floating-point number, else a boolean, else the text itself.
pub open spec fn literal_expr(value: Seq<char>) -> Expr {
    match literal_of(value) {
        Literal::Int(n) => expr_int(n),
        Literal::Float => expr_float(value),
        Literal::Bool(b) => expr_bool(b),
        Literal::Text => expr_text(value),
    }
}

/// The predicate of a filter. The null tests ignore the value; `Contains`
/// looks for the value as a substring; the others compare with the literal
/// that the value writes.
pub open spec fn filter_expr(column: Seq<char>, op: FilterOp, value: Seq<char>) -> Expr {
    let c = expr_column(column);
    match op {
        FilterOp::IsNull => expr_is_null(c),
        FilterOp::IsNotNull => expr_is_not_null(c),
        FilterOp::Eq => expr_eq(c, literal_expr(value)),
        FilterOp::Neq => expr_neq(c, literal_expr(value)),
        FilterOp::Gt => expr_gt(c, literal_expr(value)),
        FilterOp::Gte => expr_gt_eq(c, literal_expr(value)),
        FilterOp::Lt => expr_lt(c, literal_expr(value)),
        FilterOp::Lte => expr_lt_eq(c, literal_expr(value)),
        FilterOp::Contains => expr_contains(c, expr_text(value)),
    }
}

/// The text that a fill with a given value reads: the value, or nothing.
pub open spec fn fill_text(value: Option<Seq<char>>) -> Seq<char> {
    match value {
        Some(text) => text,
        None => Seq::empty(),
    }
}

/// The expression that replaces the nulls of a column.
pub open spec fn fill_expr(
    column: Seq<char>,
    strategy: FillNullStrategy,
    value: Option<Seq<char>>,
) -> Expr {
    let c = expr_column(column);
    let replacement = match strategy {
        FillNullStrategy::Forward => expr_shift(c, expr_offset(1i32)),
        FillNullStrategy::Backward => expr_shift(c, expr_offset(-1i32)),
        FillNullStrategy::WithValue => literal_expr(fill_text(value)),
        FillNullStrategy::Mean => expr_mean(c),
        FillNullStrategy::Min => expr_min(c),
        FillNullStrategy::Max => expr_max(c),
    };
    expr_fill_null(c, replacement)
}

/// One column expression for each name, in order.
pub open spec fn column_exprs(names: Seq<Seq<char>>) -> Seq<Expr> {
    Seq::new(names.len(), |i: int| expr_column(names[i]))
}

/// The expression that parses `column` as timestamps written in `format`:
/// of microsecond resolution and without a time zone, matching the format
/// exactly, and null where a value does not parse.
pub open spec fn datetime_expr(column: Seq<char>, format: Seq<char>) -> Expr {
    expr_to_datetime(
        expr_column(column),
        TimeUnit::Microseconds,
        None::<TimeZone>,
        format,
        false,
        true,
        expr_text("null"@),
    )
}

/// The plan after an operation that needs no look at the columns.
pub open spec fn step_plan(plan: LazyFrame, op: OperationView) -> LazyFrame {
    match op {
        OperationView::Filter { column, op, value } => plan_filter(
            plan,
            filter_expr(column, op, value),
        ),
        OperationView::Sort { column, descending } => plan_sort(plan, column, descending, true),
        OperationView::DropColumn(_) => plan,
        OperationView::RenameColumn { from, to } => plan_rename(plan, from, to, true),
        OperationView::SelectColumns(columns) => plan_select(plan, column_exprs(columns)),
        OperationView::Limit(n) => plan_limit(plan, n),
        OperationView::FillNull { column, strategy, value } => plan_with_columns(
            plan,
            seq![fill_expr(column, strategy, value)],
        ),
        OperationView::CastColumn { column, dtype } => plan_with_columns(
            plan,
            seq![expr_cast(expr_column(column), polars_type(dtype))],
        ),
        OperationView::ParseDatetime { column, format } => plan_with_columns(
            plan,
            seq![datetime_expr(column, format)],
        ),
    }
}

/// The plan after the removal of one column, given what the engine said of
/// the columns before it: a projection to all the others, and a failure
/// where the column is none of them, where no other is left, or where the
/// engine could not tell.
pub open spec fn drop_result(plan: LazyFrame, schema: SchemaOutcome, column: Seq<char>) -> Result<
    LazyFrame,
    EngineError,
> {
    match schema {
        Err(error) => Err(EngineError::Schema(error)),
        Ok(names) => if !names.contains(column) {
            Err(EngineError::UnknownColumn)
        } else if kept_columns(names, column).len() == 0 {
            Err(EngineError::DropAllColumns)
        } else {
            Ok(plan_select(plan, column_exprs(kept_columns(names, column))))
        },
    }
}

/// The plan after one operation. Only the removal of a column reads
/// `schema`, the engine's answer on the columns of `plan`.
pub open spec fn step_result(plan: LazyFrame, op: OperationView, schema: SchemaOutcome) -> Result<
    LazyFrame,
    EngineError,
> {
    match op {
        OperationView::DropColumn(column) => drop_result(plan, schema, column),
        _ => Ok(step_plan(plan, op)),
    }
}

/// The literal that `value` writes: integer, else floating point, else
/// boolean, else text.
#[inline]
pub fn parse_literal(value: &str) -> (r: Expr)
    ensures
        r == literal_expr(value@),
{
    match classify_literal(value) {
        Literal::Int(n) => lit_int(n),
        Literal::Float => lit_float(value),
        Literal::Bool(b) => lit_bool(b),
        Literal::Text => lit_text(value),
    }
}

/// The predicate of a filter on `column`.
#[inline]
pub fn build_filter_expr(column: &str, op: &FilterOp, value: &str) -> (r: Expr)
    ensures
        r == filter_expr(column@, *op, value@),
{
    let c = col(column);
    match op {
        FilterOp::IsNull => is_null(c),
        FilterOp::IsNotNull => is_not_null(c),
        FilterOp::Eq => eq(c, parse_literal(value)),
        FilterOp::Neq => neq(c, parse_literal(value)),
        FilterOp::Gt => gt(c, parse_literal(value)),
        FilterOp::Gte => gt_eq(c, parse_literal(value)),
        FilterOp::Lt => lt(c, parse_literal(value)),
        FilterOp::Lte => lt_eq(c, parse_literal(value)),
        FilterOp::Contains => contains_literal(c, lit_text(value)),
    }
}

/// The expression that replaces the nulls of `column`.
#[inline]
pub fn build_fill_expr(column: &str, strategy: &FillNullStrategy, value: &Option<String>) -> (r:
    Expr)
    ensures
        r == fill_expr(column@, *strategy, crate::operations::optional_text(*value)),
{
    proof {
        reveal_strlit("");
        assert(""@ =~= Seq::<char>::empty());
    }
    let replacement = match strategy {
        FillNullStrategy::Forward => shift(col(column), lit_offset(1)),
        FillNullStrategy::Backward => shift(col(column), lit_offset(-1)),
        FillNullStrategy::WithValue => match value {
            Some(text) => parse_literal(text.as_str()),
            None => parse_literal(""),
        },
        FillNullStrategy::Mean => mean(col(column)),
        FillNullStrategy::Min => min(col(column)),
        FillNullStrategy::Max => max(col(column)),
    };
    fill_null(col(column), replacement)
}

/// The expression that converts `column` to `dtype`.
#[inline]
pub fn build_cast_expr(column: &str, dtype: &DTypeTag) -> (r: Expr)
    ensures
        r == expr_cast(expr_column(column@), polars_type(*dtype)),
{
    cast(col(column), dtype.to_polars())
}

/// The expression that parses `column` as timestamps written in `format`:
/// of microsecond resolution and without a time zone, matching the format
/// exactly, and null where a value does not parse.
#[inline]
pub fn build_datetime_expr(column: &str, format: &str) -> (r: Expr)
    ensures
        r == datetime_expr(column@, format@),
{
    to_datetime(
        col(column),
        TimeUnit::Microseconds,
        None,
        format,
        false,
        true,
        lit_text("null"),
    )
}

/// One column expression for each name, in order.
#[inline]
pub fn column_list(names: &Vec<String>) -> (r: Vec<Expr>)
    ensures
        r@ == column_exprs(texts(names@)),
{
    let mut out: Vec<Expr> = Vec::new();
    let mut i: usize = 0;
    while i < names.len()
        invariant
            i <= names.len(),
            out@ == column_exprs(texts(names@).take(i as int)),
        decreases names.len() - i,
    {
        out.push(col(names[i].as_str()));
        i = i + 1;
        assert(out@ =~= column_exprs(texts(names@).take(i as int)));
    }
    assert(texts(names@).take(i as int) =~= texts(names@));
    out
}

/// The engine's answer on the columns of a plan, with each name by its
/// characters.
pub open spec fn outcome_view(schema: Result<Vec<String>, PolarsError>) -> SchemaOutcome {
    match schema {
        Ok(names) => Ok(texts(names@)),
        Err(error) => Err(error),
    }
}

/// Removes `column` from the plan, given the engine's answer on the columns
/// before the removal.
#[inline]
pub fn drop_column(plan: LazyFrame, schema: Result<Vec<String>, PolarsError>, column: &str) -> (r:
    Result<LazyFrame, EngineError>)
    ensures
        r == drop_result(plan, outcome_view(schema), column@),
{
    match schema {
        Err(error) => Err(EngineError::Schema(error)),
        Ok(names) => {
            if !holds_text(&names, column) {
                return Err(EngineError::UnknownColumn);
            }
            let kept = remaining_columns(&names, column);
            if kept.len() == 0 {
                Err(EngineError::DropAllColumns)
            } else {
                Ok(select(plan, column_list(&kept)))
            }
        },
    }
}

/// Applies an operation that needs no look at the columns: one step on top
/// of the plan. The removal of a column is none; it leaves the plan as it
/// is.
#[inline]
pub fn apply_step(plan: LazyFrame, op: &Operation) -> (r: LazyFrame)
    ensures
        r == step_plan(plan, op@),
{
    match op {
        Operation::Filter { column, op: filter_op, value } => {
            let predicate = build_filter_expr(column.as_str(), filter_op, value.as_str());
            filter(plan, predicate)
        },
        Operation::Sort { column, descending } => sort(plan, column.as_str(), *descending, true),
        Operation::DropColumn(_) => plan,
        Operation::RenameColumn { from, to } => rename(plan, from.as_str(), to.as_str(), true),
        Operation::SelectColumns(columns) => select(plan, column_list(columns)),
        Operation::Limit(n) => limit(plan, *n),
        Operation::FillNull { column, strategy, value } => {
            let fill = build_fill_expr(column.as_str(), strategy, value);
            let exprs = vec![fill];
            assert(exprs@ =~= seq![fill]);
            with_columns(plan, exprs)
        },
        Operation::CastColumn { column, dtype } => {
            let converted = build_cast_expr(column.as_str(), dtype);
            let exprs = vec![converted];
            assert(exprs@ =~= seq![converted]);
            with_columns(plan, exprs)
        },
        Operation::ParseDatetime { column, format } => {
            let parsed = build_datetime_expr(column.as_str(), format.as_str());
            let exprs = vec![parsed];
            assert(exprs@ =~= seq![parsed]);
            with_columns(plan, exprs)
        },
    }
}

/// Removing the only column of a table fails: the plan is not built, and
/// the table keeps its column.
pub proof fn lemma_cannot_drop_last_column(plan: LazyFrame, column: Seq<char>)
    ensures
        step_result(plan, OperationView::DropColumn(column), Ok(seq![column])) == Err::<
            LazyFrame,
            EngineError,
        >(EngineError::DropAllColumns),
{
    reveal_with_fuel(Seq::filter, 2);
    let names = seq![column];
    let keep = |name: Seq<char>| name != column;
    assert(names.drop_last() =~= Seq::<Seq<char>>::empty());
    assert(names.drop_last().filter(keep) =~= Seq::<Seq<char>>::empty());
    assert(names.last() == column);
    assert(kept_columns(names, column) =~= Seq::<Seq<char>>::empty());
    assert(names[0] == column);
}

/// Removing a column that is not there fails, whatever the table holds:
/// the plan is not built.
pub proof fn lemma_cannot_drop_unknown_column(
    plan: LazyFrame,
    names: Seq<Seq<char>>,
    column: Seq<char>,
)
    requires
        !names.contains(column),
    ensures
        step_result(plan, OperationView::DropColumn(column), Ok(names)) == Err::<
            LazyFrame,
            EngineError,
        >(EngineError::UnknownColumn),
{
}

/// One cast to double precision for each name, in order.
pub open spec fn numeric_casts(names: Seq<Seq<char>>) -> Seq<Expr> {
    Seq::new(names.len(), |i: int| expr_cast(expr_column(names[i]), polars_type(DTypeTag::Float64)))
}

/// The plan of a scan: the opened file as it is where no text column is to
/// be read as numbers, and else followed by the casts of those columns.
pub open spec fn scan_plan(opened: LazyFrame, numeric: Seq<Seq<char>>) -> LazyFrame {
    if numeric.len() == 0 {
        opened
    } else {
        plan_with_columns(opened, numeric_casts(numeric))
    }
}

impl DataSource {
    /// The plan that reads this source, on top of its opened file: the
    /// text columns found to hold numbers are cast to double precision, so
    /// that every plan built from the scan reads them as numbers.
    #[inline]
    pub fn scan(&self, opened: LazyFrame) -> (r: LazyFrame)
        ensures
            r == scan_plan(opened, self@.auto_numeric_cols),
    {
        if self.auto_numeric_cols.len() == 0 {
            return opened;
        }
        let mut exprs: Vec<Expr> = Vec::new();
        let mut i: usize = 0;
        while i < self.auto_numeric_cols.len()
            invariant
                i <= self.auto_numeric_cols.len(),
                exprs@ == numeric_casts(texts(self.auto_numeric_cols@).take(i as int)),
            decreases self.auto_numeric_cols.len() - i,
        {
            exprs.push(build_cast_expr(self.auto_numeric_cols[i].as_str(), &DTypeTag::Float64));
            i = i + 1;
            assert(exprs@ =~= numeric_casts(texts(self.auto_numeric_cols@).take(i as int)));
        }
        assert(texts(self.auto_numeric_cols@).take(i as int) =~= texts(self.auto_numeric_cols@));
        with_columns(opened, exprs)
    }
}

} // verus!
