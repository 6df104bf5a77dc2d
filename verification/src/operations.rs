//! The operation data model: serializable descriptions of table
//! transformations. Nothing here refers to a live table or engine handle.

use crate::text::{decimal_text, join, join_text, push_decimal, texts};
use vstd::prelude::*;
use vstd::string::StringExecFns;

verus! {

/// Comparison used by a row filter.
#[derive(Debug, Clone, Copy, PartialEq, Eq, Structural)]
pub enum FilterOp {
    Eq,
    Neq,
    Gt,
    Gte,
    Lt,
    Lte,
    Contains,
    IsNull,
    IsNotNull,
}

impl FilterOp {
    /// Every comparator, once, in declaration order.
    pub open spec fn spec_all() -> Seq<FilterOp> {
        seq![
            FilterOp::Eq,
            FilterOp::Neq,
            FilterOp::Gt,
            FilterOp::Gte,
            FilterOp::Lt,
            FilterOp::Lte,
            FilterOp::Contains,
            FilterOp::IsNull,
            FilterOp::IsNotNull,
        ]
    }

    #[inline]
    pub fn all() -> (r: &'static [FilterOp])
        ensures
            r@ == Self::spec_all(),
    {
        &[
            FilterOp::Eq,
            FilterOp::Neq,
            FilterOp::Gt,
            FilterOp::Gte,
            FilterOp::Lt,
            FilterOp::Lte,
            FilterOp::Contains,
            FilterOp::IsNull,
            FilterOp::IsNotNull,
        ]
    }

    /// Whether the comparator reads the filter's value field.
    pub open spec fn spec_needs_value(&self) -> bool {
        !(self is IsNull || self is IsNotNull)
    }

    #[verifier::when_used_as_spec(spec_needs_value)]
    #[inline]
    pub fn needs_value(&self) -> (r: bool)
        ensures
            r == self.spec_needs_value(),
    {
        !matches!(self, FilterOp::IsNull | FilterOp::IsNotNull)
    }

    pub open spec fn spec_label(&self) -> Seq<char> {
        match self {
            FilterOp::Eq => "="@,
            FilterOp::Neq => "≠"@,
            FilterOp::Gt => ">"@,
            FilterOp::Gte => "≥"@,
            FilterOp::Lt => "<"@,
            FilterOp::Lte => "≤"@,
            FilterOp::Contains => "contains"@,
            FilterOp::IsNull => "is null"@,
            FilterOp::IsNotNull => "is not null"@,
        }
    }

    /// The comparator as it is shown to a user.
    #[inline]
    pub fn label(&self) -> (r: &'static str)
        ensures
            r@ == self.spec_label(),
    {
        match self {
            FilterOp::Eq => "=",
            FilterOp::Neq => "≠",
            FilterOp::Gt => ">",
            FilterOp::Gte => "≥",
            FilterOp::Lt => "<",
            FilterOp::Lte => "≤",
            FilterOp::Contains => "contains",
            FilterOp::IsNull => "is null",
            FilterOp::IsNotNull => "is not null",
        }
    }
}

impl Default for FilterOp {
    #[inline]
    fn default() -> (r: FilterOp)
        ensures
            r == FilterOp::Eq,
    {
        FilterOp::Eq
    }
}

/// How the nulls of a column are replaced.
#[derive(Debug, Clone, Copy, PartialEq, Eq, Structural)]
pub enum FillNullStrategy {
    Forward,
    Backward,
    WithValue,
    Mean,
    Min,
    Max,
}

impl FillNullStrategy {
    /// Every strategy, once, in declaration order.
    pub open spec fn spec_all() -> Seq<FillNullStrategy> {
        seq![
            FillNullStrategy::Forward,
            FillNullStrategy::Backward,
            FillNullStrategy::WithValue,
            FillNullStrategy::Mean,
            FillNullStrategy::Min,
            FillNullStrategy::Max,
        ]
    }

    #[inline]
    pub fn all() -> (r: &'static [FillNullStrategy])
        ensures
            r@ == Self::spec_all(),
    {
        &[
            FillNullStrategy::Forward,
            FillNullStrategy::Backward,
            FillNullStrategy::WithValue,
            FillNullStrategy::Mean,
            FillNullStrategy::Min,
            FillNullStrategy::Max,
        ]
    }

    /// Whether the strategy reads the operation's value field.
    pub open spec fn spec_needs_value(&self) -> bool {
        self is WithValue
    }

    #[verifier::when_used_as_spec(spec_needs_value)]
    #[inline]
    pub fn needs_value(&self) -> (r: bool)
        ensures
            r == self.spec_needs_value(),
    {
        matches!(self, FillNullStrategy::WithValue)
    }

    pub open spec fn spec_label(&self) -> Seq<char> {
        match self {
            FillNullStrategy::Forward => "Forward Fill"@,
            FillNullStrategy::Backward => "Backward Fill"@,
            FillNullStrategy::WithValue => "With Value"@,
            FillNullStrategy::Mean => "Mean"@,
            FillNullStrategy::Min => "Min"@,
            FillNullStrategy::Max => "Max"@,
        }
    }

    /// The strategy as it is shown to a user.
    #[inline]
    pub fn label(&self) -> (r: &'static str)
        ensures
            r@ == self.spec_label(),
    {
        match self {
            FillNullStrategy::Forward => "Forward Fill",
            FillNullStrategy::Backward => "Backward Fill",
            FillNullStrategy::WithValue => "With Value",
            FillNullStrategy::Mean => "Mean",
            FillNullStrategy::Min => "Min",
            FillNullStrategy::Max => "Max",
        }
    }
}

impl Default for FillNullStrategy {
    #[inline]
    fn default() -> (r: FillNullStrategy)
        ensures
            r == FillNullStrategy::Forward,
    {
        FillNullStrategy::Forward
    }
}

/// The column types a cast can target.
#[derive(Debug, Clone, Copy, PartialEq, Eq, Structural)]
pub enum DTypeTag {
    Int32,
    Int64,
    Float32,
    Float64,
    Utf8String,
    Boolean,
    Date,
}

impl DTypeTag {
    /// Every target type, once, in declaration order.
    pub open spec fn spec_all() -> Seq<DTypeTag> {
        seq![
            DTypeTag::Int32,
            DTypeTag::Int64,
            DTypeTag::Float32,
            DTypeTag::Float64,
            DTypeTag::Utf8String,
            DTypeTag::Boolean,
            DTypeTag::Date,
        ]
    }

    #[inline]
    pub fn all() -> (r: &'static [DTypeTag])
        ensures
            r@ == Self::spec_all(),
    {
        &[
            DTypeTag::Int32,
            DTypeTag::Int64,
            DTypeTag::Float32,
            DTypeTag::Float64,
            DTypeTag::Utf8String,
            DTypeTag::Boolean,
            DTypeTag::Date,
        ]
    }

    pub open spec fn spec_label(&self) -> Seq<char> {
        match self {
            DTypeTag::Int32 => "Int32"@,
            DTypeTag::Int64 => "Int64"@,
            DTypeTag::Float32 => "Float32"@,
            DTypeTag::Float64 => "Float64"@,
            DTypeTag::Utf8String => "String"@,
            DTypeTag::Boolean => "Boolean"@,
            DTypeTag::Date => "Date"@,
        }
    }

    /// The type as it is shown to a user.
    #[inline]
    pub fn label(&self) -> (r: &'static str)
        ensures
            r@ == self.spec_label(),
    {
        match self {
            DTypeTag::Int32 => "Int32",
            DTypeTag::Int64 => "Int64",
            DTypeTag::Float32 => "Float32",
            DTypeTag::Float64 => "Float64",
            DTypeTag::Utf8String => "String",
            DTypeTag::Boolean => "Boolean",
            DTypeTag::Date => "Date",
        }
    }
}

impl Default for DTypeTag {
    #[inline]
    fn default() -> (r: DTypeTag)
        ensures
            r == DTypeTag::Float64,
    {
        DTypeTag::Float64
    }
}

/// One transformation of a table, described by plain values only.
#[derive(Debug)]
#[allow(inconsistent_fields)]
pub enum Operation {
    Filter { column: String, op: FilterOp, value: String },
    Sort { column: String, descending: bool },
    DropColumn(String),
    RenameColumn { from: String, to: String },
    SelectColumns(Vec<String>),
    Limit(u32),
    FillNull { column: String, strategy: FillNullStrategy, value: Option<String> },
    CastColumn { column: String, dtype: DTypeTag },
    ParseDatetime { column: String, format: String },
}

/// What an [`Operation`] holds, with each string as its characters.
#[allow(inconsistent_fields)]
pub enum OperationView {
    Filter { column: Seq<char>, op: FilterOp, value: Seq<char> },
    Sort { column: Seq<char>, descending: bool },
    DropColumn(Seq<char>),
    RenameColumn { from: Seq<char>, to: Seq<char> },
    SelectColumns(Seq<Seq<char>>),
    Limit(u32),
    FillNull { column: Seq<char>, strategy: FillNullStrategy, value: Option<Seq<char>> },
    CastColumn { column: Seq<char>, dtype: DTypeTag },
    ParseDatetime { column: Seq<char>, format: Seq<char> },
}

/// An optional string as its optional characters.
pub open spec fn optional_text(value: Option<String>) -> Option<Seq<char>> {
    match value {
        Some(s) => Some(s@),
        None => None,
    }
}

impl View for Operation {
    type V = OperationView;

    open spec fn view(&self) -> OperationView {
        match self {
            Operation::Filter { column, op, value } => OperationView::Filter {
                column: column@,
                op: *op,
                value: value@,
            },
            Operation::Sort { column, descending } => OperationView::Sort {
                column: column@,
                descending: *descending,
            },
            Operation::DropColumn(column) => OperationView::DropColumn(column@),
            Operation::RenameColumn { from, to } => OperationView::RenameColumn {
                from: from@,
                to: to@,
            },
            Operation::SelectColumns(columns) => OperationView::SelectColumns(texts(columns@)),
            Operation::Limit(n) => OperationView::Limit(*n),
            Operation::FillNull { column, strategy, value } => OperationView::FillNull {
                column: column@,
                strategy: *strategy,
                value: optional_text(*value),
            },
            Operation::CastColumn { column, dtype } => OperationView::CastColumn {
                column: column@,
                dtype: *dtype,
            },
            Operation::ParseDatetime { column, format } => OperationView::ParseDatetime {
                column: column@,
                format: format@,
            },
        }
    }
}

impl OperationView {
    /// The one-line text that lists the operation in a pipeline.
    pub open spec fn description(self) -> Seq<char> {
        match self {
            OperationView::Filter { column, op, value } => if op.spec_needs_value() {
                "Filter: "@ + column + " "@ + op.spec_label() + " "@ + value
            } else {
                "Filter: "@ + column + " "@ + op.spec_label()
            },
            OperationView::Sort { column, descending } => "Sort: "@ + column + " "@ + (if descending {
                "DESC"@
            } else {
                "ASC"@
            }),
            OperationView::DropColumn(column) => "Drop: "@ + column,
            OperationView::RenameColumn { from, to } => "Rename: "@ + from + " → "@ + to,
            OperationView::SelectColumns(columns) => "Select: "@ + join_text(columns, ", "@),
            OperationView::Limit(n) => "Limit: "@ + decimal_text(n as nat),
            OperationView::FillNull { column, strategy, value } => "FillNull: "@ + column + " ("@
                + strategy.spec_label() + ")"@,
            OperationView::CastColumn { column, dtype } => "Cast: "@ + column + " → "@
                + dtype.spec_label(),
            OperationView::ParseDatetime { column, format } => "ParseDatetime: "@ + column + " ("@
                + format + ")"@,
        }
    }
}

/// The operations of a log, each by its view.
pub open spec fn log_view(ops: Seq<Operation>) -> Seq<OperationView> {
    Seq::new(ops.len(), |i: int| ops[i]@)
}

/// A copy of `v` with equal strings in the same order.
#[inline]
pub fn clone_strings(v: &Vec<String>) -> (r: Vec<String>)
    ensures
        r@ == v@,
{
    let mut out: Vec<String> = Vec::new();
    let mut i: usize = 0;
    while i < v.len()
        invariant
            i <= v.len(),
            out@ == v@.take(i as int),
        decreases v.len() - i,
    {
        out.push(v[i].clone());
        i = i + 1;
        assert(out@ =~= v@.take(i as int));
    }
    assert(v@.take(i as int) =~= v@);
    out
}

/// Whether two lists hold the same strings in the same order.
#[inline]
pub fn same_strings(a: &Vec<String>, b: &Vec<String>) -> (r: bool)
    ensures
        r == (texts(a@) == texts(b@)),
{
    if a.len() != b.len() {
        assert(texts(a@).len() != texts(b@).len());
        return false;
    }
    let mut i: usize = 0;
    while i < a.len()
        invariant
            i <= a.len(),
            a.len() == b.len(),
            forall|k: int| 0 <= k < i ==> a@[k]@ == b@[k]@,
        decreases a.len() - i,
    {
        if a[i] != b[i] {
            assert(texts(a@)[i as int] != texts(b@)[i as int]);
            return false;
        }
        i = i + 1;
    }
    assert(texts(a@) =~= texts(b@));
    true
}

impl Clone for Operation {
    #[inline]
    fn clone(&self) -> (r: Operation)
        ensures
            r@ == self@,
    {
        match self {
            Operation::Filter { column, op, value } => Operation::Filter {
                column: column.clone(),
                op: *op,
                value: value.clone(),
            },
            Operation::Sort { column, descending } => Operation::Sort {
                column: column.clone(),
                descending: *descending,
            },
            Operation::DropColumn(column) => Operation::DropColumn(column.clone()),
            Operation::RenameColumn { from, to } => Operation::RenameColumn {
                from: from.clone(),
                to: to.clone(),
            },
            Operation::SelectColumns(columns) => Operation::SelectColumns(clone_strings(columns)),
            Operation::Limit(n) => Operation::Limit(*n),
            Operation::FillNull { column, strategy, value } => Operation::FillNull {
                column: column.clone(),
                strategy: *strategy,
                value: match value {
                    Some(v) => Some(v.clone()),
                    None => None,
                },
            },
            Operation::CastColumn { column, dtype } => Operation::CastColumn {
                column: column.clone(),
                dtype: *dtype,
            },
            Operation::ParseDatetime { column, format } => Operation::ParseDatetime {
                column: column.clone(),
                format: format.clone(),
            },
        }
    }
}

impl Operation {
    /// Whether `other` describes the same transformation, field by field.
    #[inline]
    pub fn same_as(&self, other: &Operation) -> (r: bool)
        ensures
            r == (self@ == other@),
    {
        match (self, other) {
            (
                Operation::Filter { column: c1, op: o1, value: v1 },
                Operation::Filter { column: c2, op: o2, value: v2 },
            ) => *c1 == *c2 && *o1 == *o2 && *v1 == *v2,
            (
                Operation::Sort { column: c1, descending: d1 },
                Operation::Sort { column: c2, descending: d2 },
            ) => *c1 == *c2 && *d1 == *d2,
            (Operation::DropColumn(c1), Operation::DropColumn(c2)) => *c1 == *c2,
            (
                Operation::RenameColumn { from: f1, to: t1 },
                Operation::RenameColumn { from: f2, to: t2 },
            ) => *f1 == *f2 && *t1 == *t2,
            (Operation::SelectColumns(a), Operation::SelectColumns(b)) => same_strings(a, b),
            (Operation::Limit(a), Operation::Limit(b)) => *a == *b,
            (
                Operation::FillNull { column: c1, strategy: s1, value: v1 },
                Operation::FillNull { column: c2, strategy: s2, value: v2 },
            ) => {
                let same_value = match (v1, v2) {
                    (Some(a), Some(b)) => *a == *b,
                    (None, None) => true,
                    _ => false,
                };
                *c1 == *c2 && *s1 == *s2 && same_value
            },
            (
                Operation::CastColumn { column: c1, dtype: d1 },
                Operation::CastColumn { column: c2, dtype: d2 },
            ) => *c1 == *c2 && *d1 == *d2,
            (
                Operation::ParseDatetime { column: c1, format: f1 },
                Operation::ParseDatetime { column: c2, format: f2 },
            ) => *c1 == *c2 && *f1 == *f2,
            _ => false,
        }
    }

    /// The one-line text that lists the operation in a pipeline.
    #[inline]
    pub fn description(&self) -> (r: String)
        ensures
            r@ == self@.description(),
    {
        match self {
            Operation::Filter { column, op, value } => {
                let mut out = String::from_str("Filter: ");
                out.append(column.as_str());
                out.append(" ");
                out.append(op.label());
                if op.needs_value() {
                    out.append(" ");
                    out.append(value.as_str());
                }
                out
            },
            Operation::Sort { column, descending } => {
                let mut out = String::from_str("Sort: ");
                out.append(column.as_str());
                out.append(" ");
                if *descending {
                    out.append("DESC");
                } else {
                    out.append("ASC");
                }
                out
            },
            Operation::DropColumn(column) => {
                let mut out = String::from_str("Drop: ");
                out.append(column.as_str());
                out
            },
            Operation::RenameColumn { from, to } => {
                let mut out = String::from_str("Rename: ");
                out.append(from.as_str());
                out.append(" → ");
                out.append(to.as_str());
                out
            },
            Operation::SelectColumns(columns) => {
                let mut out = String::from_str("Select: ");
                let joined = join(columns, ", ");
                out.append(joined.as_str());
                out
            },
            Operation::Limit(n) => {
                let mut out = String::from_str("Limit: ");
                push_decimal(&mut out, *n as u64);
                out
            },
            Operation::FillNull { column, strategy, value: _ } => {
                let mut out = String::from_str("FillNull: ");
                out.append(column.as_str());
                out.append(" (");
                out.append(strategy.label());
                out.append(")");
                out
            },
            Operation::CastColumn { column, dtype } => {
                let mut out = String::from_str("Cast: ");
                out.append(column.as_str());
                out.append(" → ");
                out.append(dtype.label());
                out
            },
            Operation::ParseDatetime { column, format } => {
                let mut out = String::from_str("ParseDatetime: ");
                out.append(column.as_str());
                out.append(" (");
                out.append(format.as_str());
                out.append(")");
                out
            },
        }
    }
}

/// The kinds of operation, without their fields.
#[derive(Debug, Clone, Copy, PartialEq, Eq, Structural)]
pub enum OperationType {
    Filter,
    Sort,
    DropColumn,
    RenameColumn,
    SelectColumns,
    Limit,
    FillNull,
    CastColumn,
    ParseDatetime,
}

impl OperationType {
    /// Every kind, once, in declaration order.
    pub open spec fn spec_all() -> Seq<OperationType> {
        seq![
            OperationType::Filter,
            OperationType::Sort,
            OperationType::DropColumn,
            OperationType::RenameColumn,
            OperationType::SelectColumns,
            OperationType::Limit,
            OperationType::FillNull,
            OperationType::CastColumn,
            OperationType::ParseDatetime,
        ]
    }

    #[inline]
    pub fn all() -> (r: &'static [OperationType])
        ensures
            r@ == Self::spec_all(),
    {
        &[
            OperationType::Filter,
            OperationType::Sort,
            OperationType::DropColumn,
            OperationType::RenameColumn,
            OperationType::SelectColumns,
            OperationType::Limit,
            OperationType::FillNull,
            OperationType::CastColumn,
            OperationType::ParseDatetime,
        ]
    }

    pub open spec fn spec_label(&self) -> Seq<char> {
        match self {
            OperationType::Filter => "Filter"@,
            OperationType::Sort => "Sort"@,
            OperationType::DropColumn => "Drop Column"@,
            OperationType::RenameColumn => "Rename Column"@,
            OperationType::SelectColumns => "Select Columns"@,
            OperationType::Limit => "Limit Rows"@,
            OperationType::FillNull => "Fill Null"@,
            OperationType::CastColumn => "Cast Column Type"@,
            OperationType::ParseDatetime => "Parse Datetime"@,
        }
    }

    /// The kind as it is shown to a user.
    #[inline]
    pub fn label(&self) -> (r: &'static str)
        ensures
            r@ == self.spec_label(),
    {
        match self {
            OperationType::Filter => "Filter",
            OperationType::Sort => "Sort",
            OperationType::DropColumn => "Drop Column",
            OperationType::RenameColumn => "Rename Column",
            OperationType::SelectColumns => "Select Columns",
            OperationType::Limit => "Limit Rows",
            OperationType::FillNull => "Fill Null",
            OperationType::CastColumn => "Cast Column Type",
            OperationType::ParseDatetime => "Parse Datetime",
        }
    }
}

impl Default for OperationType {
    #[inline]
    fn default() -> (r: OperationType)
        ensures
            r == OperationType::Filter,
    {
        OperationType::Filter
    }
}

} // verus!
