//! The command surface: operations as a host shell sends them, a flat record
//! of optional fields tagged by a kind, checked once into an [`Operation`].

use crate::operations::{
    clone_strings, optional_text, DTypeTag, FillNullStrategy, FilterOp, Operation, OperationView,
};
use crate::text::{same_text, texts};
use vstd::prelude::*;
use vstd::string::StringExecFns;

verus! {

/// An operation as a host shell sends it. Which fields are read depends on
/// `op_type`.
#[derive(Debug)]
pub struct OperationInput {
    pub op_type: String,
    pub column: Option<String>,
    pub filter_op: Option<String>,
    pub value: Option<String>,
    pub descending: Option<bool>,
    pub rename_from: Option<String>,
    pub rename_to: Option<String>,
    pub columns: Option<Vec<String>>,
    pub limit: Option<u32>,
    pub fill_strategy: Option<String>,
    pub fill_value: Option<String>,
    pub cast_dtype: Option<String>,
    pub datetime_format: Option<String>,
}

/// The comparator that a name stands for.
pub open spec fn filter_op_named(name: Seq<char>) -> Option<FilterOp> {
    if name == "="@ || name == "eq"@ {
        Some(FilterOp::Eq)
    } else if name == "!="@ || name == "neq"@ {
        Some(FilterOp::Neq)
    } else if name == ">"@ || name == "gt"@ {
        Some(FilterOp::Gt)
    } else if name == ">="@ || name == "gte"@ {
        Some(FilterOp::Gte)
    } else if name == "<"@ || name == "lt"@ {
        Some(FilterOp::Lt)
    } else if name == "<="@ || name == "lte"@ {
        Some(FilterOp::Lte)
    } else if name == "contains"@ {
        Some(FilterOp::Contains)
    } else if name == "is_null"@ {
        Some(FilterOp::IsNull)
    } else if name == "is_not_null"@ {
        Some(FilterOp::IsNotNull)
    } else {
        None
    }
}

/// The fill strategy that a name stands for.
pub open spec fn strategy_named(name: Seq<char>) -> Option<FillNullStrategy> {
    if name == "forward"@ {
        Some(FillNullStrategy::Forward)
    } else if name == "backward"@ {
        Some(FillNullStrategy::Backward)
    } else if name == "with_value"@ {
        Some(FillNullStrategy::WithValue)
    } else if name == "mean"@ {
        Some(FillNullStrategy::Mean)
    } else if name == "min"@ {
        Some(FillNullStrategy::Min)
    } else if name == "max"@ {
        Some(FillNullStrategy::Max)
    } else {
        None
    }
}

/// The cast target that a name stands for.
pub open spec fn dtype_named(name: Seq<char>) -> Option<DTypeTag> {
    if name == "Int32"@ {
        Some(DTypeTag::Int32)
    } else if name == "Int64"@ {
        Some(DTypeTag::Int64)
    } else if name == "Float32"@ {
        Some(DTypeTag::Float32)
    } else if name == "Float64"@ {
        Some(DTypeTag::Float64)
    } else if name == "String"@ {
        Some(DTypeTag::Utf8String)
    } else if name == "Boolean"@ {
        Some(DTypeTag::Boolean)
    } else if name == "Date"@ {
        Some(DTypeTag::Date)
    } else {
        None
    }
}

/// The text of an optional field, empty where the field is absent.
pub open spec fn text_or_empty(field: Option<String>) -> Seq<char> {
    match field {
        Some(text) => text@,
        None => Seq::empty(),
    }
}

/// The filter that an input describes.
pub open spec fn parsed_filter(input: &OperationInput) -> Result<OperationView, Seq<char>> {
    match (input.column, input.filter_op) {
        (None, _) => Err("Missing column"@),
        (Some(_), None) => Err("Missing filter_op"@),
        (Some(column), Some(name)) => match filter_op_named(name@) {
            None => Err("Unknown filter op: "@ + name@),
            Some(op) => Ok(
                OperationView::Filter { column: column@, op, value: text_or_empty(input.value) },
            ),
        },
    }
}

/// The fill that an input describes. The fill value is kept only where the
/// strategy reads one.
pub open spec fn parsed_fill_null(input: &OperationInput) -> Result<OperationView, Seq<char>> {
    match (input.column, input.fill_strategy) {
        (None, _) => Err("Missing column"@),
        (Some(_), None) => Err("Missing fill_strategy"@),
        (Some(column), Some(name)) => match strategy_named(name@) {
            None => Err("Unknown fill strategy: "@ + name@),
            Some(strategy) => Ok(
                OperationView::FillNull {
                    column: column@,
                    strategy,
                    value: if strategy.spec_needs_value() {
                        optional_text(input.fill_value)
                    } else {
                        None
                    },
                },
            ),
        },
    }
}

/// The cast that an input describes.
pub open spec fn parsed_cast(input: &OperationInput) -> Result<OperationView, Seq<char>> {
    match (input.column, input.cast_dtype) {
        (None, _) => Err("Missing column"@),
        (Some(_), None) => Err("Missing cast_dtype"@),
        (Some(column), Some(name)) => match dtype_named(name@) {
            None => Err("Unknown dtype: "@ + name@),
            Some(dtype) => Ok(OperationView::CastColumn { column: column@, dtype }),
        },
    }
}

/// The operation that an input describes, or the reason why it describes
/// none: an unknown kind, a missing field of that kind, or an unknown name
/// in one of its fields.
pub open spec fn parsed(input: &OperationInput) -> Result<OperationView, Seq<char>> {
    let kind = input.op_type@;
    if kind == "filter"@ {
        parsed_filter(input)
    } else if kind == "sort"@ {
        match input.column {
            None => Err("Missing column"@),
            Some(column) => Ok(
                OperationView::Sort {
                    column: column@,
                    descending: input.descending == Some(true),
                },
            ),
        }
    } else if kind == "drop_column"@ {
        match input.column {
            None => Err("Missing column"@),
            Some(column) => Ok(OperationView::DropColumn(column@)),
        }
    } else if kind == "rename_column"@ {
        match (input.rename_from, input.rename_to) {
            (None, _) => Err("Missing rename_from"@),
            (Some(_), None) => Err("Missing rename_to"@),
            (Some(from), Some(to)) => Ok(OperationView::RenameColumn { from: from@, to: to@ }),
        }
    } else if kind == "select_columns"@ {
        match input.columns {
            None => Err("Missing columns"@),
            Some(columns) => Ok(OperationView::SelectColumns(texts(columns@))),
        }
    } else if kind == "limit"@ {
        match input.limit {
            None => Err("Missing limit"@),
            Some(n) => Ok(OperationView::Limit(n)),
        }
    } else if kind == "fill_null"@ {
        parsed_fill_null(input)
    } else if kind == "cast_column"@ {
        parsed_cast(input)
    } else if kind == "parse_datetime"@ {
        match input.column {
            None => Err("Missing column"@),
            Some(column) => Ok(
                OperationView::ParseDatetime {
                    column: column@,
                    format: match input.datetime_format {
                        Some(format) => format@,
                        None => "%Y-%m-%d %H:%M:%S"@,
                    },
                },
            ),
        }
    } else {
        Err("Unknown operation type: "@ + kind)
    }
}

/// A parse result with the operation by its view and the message by its
/// characters.
pub open spec fn outcome(r: Result<Operation, String>) -> Result<OperationView, Seq<char>> {
    match r {
        Ok(op) => Ok(op@),
        Err(message) => Err(message@),
    }
}

/// The comparator that `name` stands for.
#[inline]
pub fn filter_op_from_name(name: &str) -> (r: Option<FilterOp>)
    ensures
        r == filter_op_named(name@),
{
    if same_text(name, "=") || same_text(name, "eq") {
        Some(FilterOp::Eq)
    } else if same_text(name, "!=") || same_text(name, "neq") {
        Some(FilterOp::Neq)
    } else if same_text(name, ">") || same_text(name, "gt") {
        Some(FilterOp::Gt)
    } else if same_text(name, ">=") || same_text(name, "gte") {
        Some(FilterOp::Gte)
    } else if same_text(name, "<") || same_text(name, "lt") {
        Some(FilterOp::Lt)
    } else if same_text(name, "<=") || same_text(name, "lte") {
        Some(FilterOp::Lte)
    } else if same_text(name, "contains") {
        Some(FilterOp::Contains)
    } else if same_text(name, "is_null") {
        Some(FilterOp::IsNull)
    } else if same_text(name, "is_not_null") {
        Some(FilterOp::IsNotNull)
    } else {
        None
    }
}

/// The fill strategy that `name` stands for.
#[inline]
pub fn strategy_from_name(name: &str) -> (r: Option<FillNullStrategy>)
    ensures
        r == strategy_named(name@),
{
    if same_text(name, "forward") {
        Some(FillNullStrategy::Forward)
    } else if same_text(name, "backward") {
        Some(FillNullStrategy::Backward)
    } else if same_text(name, "with_value") {
        Some(FillNullStrategy::WithValue)
    } else if same_text(name, "mean") {
        Some(FillNullStrategy::Mean)
    } else if same_text(name, "min") {
        Some(FillNullStrategy::Min)
    } else if same_text(name, "max") {
        Some(FillNullStrategy::Max)
    } else {
        None
    }
}

/// The cast target that `name` stands for.
#[inline]
pub fn dtype_from_name(name: &str) -> (r: Option<DTypeTag>)
    ensures
        r == dtype_named(name@),
{
    if same_text(name, "Int32") {
        Some(DTypeTag::Int32)
    } else if same_text(name, "Int64") {
        Some(DTypeTag::Int64)
    } else if same_text(name, "Float32") {
        Some(DTypeTag::Float32)
    } else if same_text(name, "Float64") {
        Some(DTypeTag::Float64)
    } else if same_text(name, "String") {
        Some(DTypeTag::Utf8String)
    } else if same_text(name, "Boolean") {
        Some(DTypeTag::Boolean)
    } else if same_text(name, "Date") {
        Some(DTypeTag::Date)
    } else {
        None
    }
}

/// `prefix` followed by `name`.
#[inline]
fn named_error(prefix: &str, name: &str) -> (r: String)
    ensures
        r@ == prefix@ + name@,
{
    let mut message = String::from_str(prefix);
    message.append(name);
    message
}

#[inline]
fn parse_filter(input: &OperationInput) -> (r: Result<Operation, String>)
    ensures
        outcome(r) == parsed_filter(input),
{
    match (&input.column, &input.filter_op) {
        (None, _) => Err(String::from_str("Missing column")),
        (Some(_), None) => Err(String::from_str("Missing filter_op")),
        (Some(column), Some(name)) => match filter_op_from_name(name.as_str()) {
            None => Err(named_error("Unknown filter op: ", name.as_str())),
            Some(op) => {
                let value = match &input.value {
                    Some(text) => text.clone(),
                    None => String::new(),
                };
                Ok(Operation::Filter { column: column.clone(), op, value })
            },
        },
    }
}

#[inline]
fn parse_fill_null(input: &OperationInput) -> (r: Result<Operation, String>)
    ensures
        outcome(r) == parsed_fill_null(input),
{
    match (&input.column, &input.fill_strategy) {
        (None, _) => Err(String::from_str("Missing column")),
        (Some(_), None) => Err(String::from_str("Missing fill_strategy")),
        (Some(column), Some(name)) => match strategy_from_name(name.as_str()) {
            None => Err(named_error("Unknown fill strategy: ", name.as_str())),
            Some(strategy) => {
                let value = if strategy.needs_value() {
                    match &input.fill_value {
                        Some(text) => Some(text.clone()),
                        None => None,
                    }
                } else {
                    None
                };
                Ok(Operation::FillNull { column: column.clone(), strategy, value })
            },
        },
    }
}

#[inline]
fn parse_cast(input: &OperationInput) -> (r: Result<Operation, String>)
    ensures
        outcome(r) == parsed_cast(input),
{
    match (&input.column, &input.cast_dtype) {
        (None, _) => Err(String::from_str("Missing column")),
        (Some(_), None) => Err(String::from_str("Missing cast_dtype")),
        (Some(column), Some(name)) => match dtype_from_name(name.as_str()) {
            None => Err(named_error("Unknown dtype: ", name.as_str())),
            Some(dtype) => Ok(Operation::CastColumn { column: column.clone(), dtype }),
        },
    }
}

/// Checks an input into the operation it describes. A kind reads only its
/// own fields; a missing one is reported by name, and so is an unknown
/// kind, comparator, strategy or type.
#[inline]
pub fn parse_operation(input: &OperationInput) -> (r: Result<Operation, String>)
    ensures
        outcome(r) == parsed(input),
{
    let kind = input.op_type.as_str();
    if same_text(kind, "filter") {
        parse_filter(input)
    } else if same_text(kind, "sort") {
        match &input.column {
            None => Err(String::from_str("Missing column")),
            Some(column) => {
                let descending = match input.descending {
                    Some(d) => d,
                    None => false,
                };
                Ok(Operation::Sort { column: column.clone(), descending })
            },
        }
    } else if same_text(kind, "drop_column") {
        match &input.column {
            None => Err(String::from_str("Missing column")),
            Some(column) => Ok(Operation::DropColumn(column.clone())),
        }
    } else if same_text(kind, "rename_column") {
        match (&input.rename_from, &input.rename_to) {
            (None, _) => Err(String::from_str("Missing rename_from")),
            (Some(_), None) => Err(String::from_str("Missing rename_to")),
            (Some(from), Some(to)) => Ok(
                Operation::RenameColumn { from: from.clone(), to: to.clone() },
            ),
        }
    } else if same_text(kind, "select_columns") {
        match &input.columns {
            None => Err(String::from_str("Missing columns")),
            Some(columns) => Ok(Operation::SelectColumns(clone_strings(columns))),
        }
    } else if same_text(kind, "limit") {
        match input.limit {
            None => Err(String::from_str("Missing limit")),
            Some(n) => Ok(Operation::Limit(n)),
        }
    } else if same_text(kind, "fill_null") {
        parse_fill_null(input)
    } else if same_text(kind, "cast_column") {
        parse_cast(input)
    } else if same_text(kind, "parse_datetime") {
        match &input.column {
            None => Err(String::from_str("Missing column")),
            Some(column) => {
                let format = match &input.datetime_format {
                    Some(format) => format.clone(),
                    None => String::from_str("%Y-%m-%d %H:%M:%S"),
                };
                Ok(Operation::ParseDatetime { column: column.clone(), format })
            },
        }
    } else {
        Err(named_error("Unknown operation type: ", kind))
    }
}

} // verus!
