//! The values of a table as they are written out: one way for an export,
//! another for a preview, and the statistics of a preview.

use crate::numbers::{fixed_decimals, fixed_text};
use crate::operations::optional_text;
use crate::text::{chars_of, float_test, holds_char, is_float_text};
use vstd::prelude::*;
use vstd::string::{StrSliceExecFns, StringExecFns};

verus! {

/// One value of a table, as far as its rendering reads it.
#[derive(Debug)]
pub enum Cell {
    /// A missing value.
    Null,
    /// A floating-point value: its display text, and whether it is not a number.
    Float { shown: String, nan: bool },
    /// A string value: the string itself, and its display text, which the
    /// engine puts in double quotes.
    Text { raw: String, shown: String },
    /// A boolean value, and its display text.
    Bool { value: bool, shown: String },
    /// Any other value, by its display text.
    Other { shown: String },
}

pub enum CellView {
    Null,
    Float { shown: Seq<char>, nan: bool },
    Text { raw: Seq<char>, shown: Seq<char> },
    Bool { value: bool, shown: Seq<char> },
    Other { shown: Seq<char> },
}

impl View for Cell {
    type V = CellView;

    open spec fn view(&self) -> CellView {
        match self {
            Cell::Null => CellView::Null,
            Cell::Float { shown, nan } => CellView::Float { shown: shown@, nan: *nan },
            Cell::Text { raw, shown } => CellView::Text { raw: raw@, shown: shown@ },
            Cell::Bool { value, shown } => CellView::Bool { value: *value, shown: shown@ },
            Cell::Other { shown } => CellView::Other { shown: shown@ },
        }
    }
}

/// What the table itself fixes of a value: which kind it is, the string or
/// the boolean where it is one, and whether a floating-point value is not a
/// number. The display text is left out: for numbers and the other kinds the
/// engine makes it by settings of its own.
pub enum CellShape {
    Null,
    Float { nan: bool },
    Text { raw: Seq<char> },
    Bool { value: bool },
    Other,
}

/// What the table fixes of a cell.
pub open spec fn shape(cell: CellView) -> CellShape {
    match cell {
        CellView::Null => CellShape::Null,
        CellView::Float { nan, .. } => CellShape::Float { nan },
        CellView::Text { raw, .. } => CellShape::Text { raw },
        CellView::Bool { value, .. } => CellShape::Bool { value },
        CellView::Other { .. } => CellShape::Other,
    }
}

/// `s` between two double quotes, with nothing in it escaped.
pub open spec fn quoted(s: Seq<char>) -> Seq<char> {
    seq!['"'] + s + seq!['"']
}

/// A boolean as the engine displays it.
pub open spec fn bool_text(value: bool) -> Seq<char> {
    if value {
        "true"@
    } else {
        "false"@
    }
}

/// Whether the display text of a cell is the one the engine writes for such
/// a value, where the value alone fixes it: a string between double quotes,
/// a boolean as `true` or `false`.
pub open spec fn shown_by_engine(cell: CellView) -> bool {
    match cell {
        CellView::Text { raw, shown } => shown == quoted(raw),
        CellView::Bool { value, shown } => shown == bool_text(value),
        _ => true,
    }
}

/// Whether `text` can be what an export writes for a value of this shape:
/// nothing for a null, a string between double quotes, a boolean as `true`
/// or `false`. The text of any other value is the engine's to choose.
pub open spec fn writes_cell(cell: CellShape, text: Seq<char>) -> bool {
    match cell {
        CellShape::Null => text.len() == 0,
        CellShape::Text { raw } => text == quoted(raw),
        CellShape::Bool { value } => text == bool_text(value),
        _ => true,
    }
}

/// Whether `text` can be what a preview shows for a value of this shape:
/// nothing for a null, `NaN` for a number that is none, a string as it is,
/// a boolean as `true` or `false`. The text of any other value is the
/// engine's to choose.
pub open spec fn shows_cell(cell: CellShape, text: Seq<char>) -> bool {
    match cell {
        CellShape::Null => text.len() == 0,
        CellShape::Float { nan } => nan ==> text == "NaN"@,
        CellShape::Text { raw } => text == raw,
        CellShape::Bool { value } => text == bool_text(value),
        CellShape::Other => true,
    }
}

/// A cell as an export writes it: nothing for a null, and the value's
/// display text for anything else. The engine displays a string in double
/// quotes, and so the export writes it.
pub open spec fn plain_text(cell: CellView) -> Seq<char> {
    match cell {
        CellView::Null => Seq::empty(),
        CellView::Float { shown, .. } => shown,
        CellView::Text { shown, .. } => shown,
        CellView::Bool { shown, .. } => shown,
        CellView::Other { shown } => shown,
    }
}

/// `s` without the double quotes around it, where it has them.
pub open spec fn unquoted(s: Seq<char>) -> Seq<char> {
    if s.len() >= 2 && s[0] == '"' && s.last() == '"' {
        s.subrange(1, s.len() - 1)
    } else {
        s
    }
}

/// A cell as a preview shows it: nothing for a null, `NaN` for a number
/// that is none, a string as it is, and the display text of any other value
/// without quotes around it.
pub open spec fn display_text(cell: CellView) -> Seq<char> {
    match cell {
        CellView::Null => Seq::empty(),
        CellView::Float { shown, nan } => if nan {
            "NaN"@
        } else {
            unquoted(shown)
        },
        CellView::Text { raw, .. } => raw,
        CellView::Bool { shown, .. } => unquoted(shown),
        CellView::Other { shown } => unquoted(shown),
    }
}

/// The digits after the point of a statistic that a preview shows.
pub const STAT_DIGITS: u8 = 4;

/// A statistic as a preview shows it: a text with a point or an exponent
/// that writes a number is printed with four digits after the point, any
/// other text stays as it is.
pub open spec fn stat_text(s: Seq<char>) -> Seq<char> {
    if (s.contains('.') || s.contains('e') || s.contains('E')) && is_float_text(s) {
        fixed_text(s, STAT_DIGITS)
    } else {
        s
    }
}

pub open spec fn optional_stat_text(s: Option<Seq<char>>) -> Option<Seq<char>> {
    match s {
        Some(text) => Some(stat_text(text)),
        None => None,
    }
}

/// What an export writes for a cell agrees with what the table fixes of
/// it, where the cell's display text is the engine's.
pub proof fn lemma_export_follows_the_table(cell: CellView)
    requires
        shown_by_engine(cell),
    ensures
        writes_cell(shape(cell), plain_text(cell)),
{
}

/// What a preview shows for a cell agrees with what the table fixes of it,
/// where the cell's display text is the engine's.
pub proof fn lemma_preview_follows_the_table(cell: CellView)
    requires
        shown_by_engine(cell),
    ensures
        shows_cell(shape(cell), display_text(cell)),
{
    reveal_strlit("true");
    reveal_strlit("false");
}

/// A cell as an export writes it.
#[inline]
pub fn format_any_value(cell: &Cell) -> (r: String)
    ensures
        r@ == plain_text(cell@),
{
    match cell {
        Cell::Null => String::new(),
        Cell::Float { shown, nan: _ } => shown.clone(),
        Cell::Text { raw: _, shown } => shown.clone(),
        Cell::Bool { value: _, shown } => shown.clone(),
        Cell::Other { shown } => shown.clone(),
    }
}

/// `s` without the double quotes around it, where it has them.
#[inline]
pub fn strip_quotes(s: &str) -> (r: String)
    ensures
        r@ == unquoted(s@),
{
    let n = s.unicode_len();
    if n >= 2 && s.get_char(0) == '"' && s.get_char(n - 1) == '"' {
        String::from_str(s.substring_char(1, n - 1))
    } else {
        String::from_str(s)
    }
}

/// A cell as a preview shows it.
#[inline]
pub fn format_cell_value(cell: &Cell) -> (r: String)
    ensures
        r@ == display_text(cell@),
{
    match cell {
        Cell::Null => String::new(),
        Cell::Float { shown, nan } => {
            if *nan {
                String::from_str("NaN")
            } else {
                strip_quotes(shown.as_str())
            }
        },
        Cell::Text { raw, shown: _ } => raw.clone(),
        Cell::Bool { value: _, shown } => strip_quotes(shown.as_str()),
        Cell::Other { shown } => strip_quotes(shown.as_str()),
    }
}

/// A statistic as a preview shows it.
#[inline]
pub fn format_stat_float(s: &str) -> (r: String)
    ensures
        r@ == stat_text(s@),
{
    let chars = chars_of(s);
    if (holds_char(&chars, '.') || holds_char(&chars, 'e') || holds_char(&chars, 'E'))
        && float_test(&chars) {
        fixed_decimals(s, STAT_DIGITS)
    } else {
        String::from_str(s)
    }
}

#[inline]
pub fn format_optional_stat(s: &Option<String>) -> (r: Option<String>)
    ensures
        optional_text(r) == optional_stat_text(optional_text(*s)),
{
    match s {
        Some(text) => Some(format_stat_float(text.as_str())),
        None => None,
    }
}

} // verus!
