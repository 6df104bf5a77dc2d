//! The choices a host shell offers: tabs, file types, plot types, export
//! formats and themes.

use crate::text::same_text;
use vstd::prelude::*;
use vstd::string::StringExecFns;

verus! {

/// The main tabs of a shell.
#[derive(Debug, Clone, Copy, PartialEq, Eq, Structural)]
pub enum MainTab {
    LoadPreview,
    Modify,
    Visualize,
}

impl MainTab {
    pub open spec fn spec_emoji(&self) -> Seq<char> {
        match self {
            MainTab::LoadPreview => "📂"@,
            MainTab::Modify => "⛭"@,
            MainTab::Visualize => "📊"@,
        }
    }

    /// The sign that stands for the tab.
    #[inline]
    pub fn emoji(&self) -> (r: &'static str)
        ensures
            r@ == self.spec_emoji(),
    {
        match self {
            MainTab::LoadPreview => "📂",
            MainTab::Modify => "⛭",
            MainTab::Visualize => "📊",
        }
    }

    /// Every tab, once, in declaration order.
    #[inline]
    pub fn all() -> (r: [MainTab; 3])
        ensures
            r@ == seq![MainTab::LoadPreview, MainTab::Modify, MainTab::Visualize],
    {
        [MainTab::LoadPreview, MainTab::Modify, MainTab::Visualize]
    }
}

impl Default for MainTab {
    #[inline]
    fn default() -> (r: MainTab)
        ensures
            r == MainTab::LoadPreview,
    {
        MainTab::LoadPreview
    }
}

/// The file types a shell can open.
#[derive(Debug, Clone, Copy, PartialEq, Eq, Structural)]
pub enum FileType {
    Csv,
    Parquet,
}

impl FileType {
    pub open spec fn spec_label(&self) -> Seq<char> {
        match self {
            FileType::Csv => "CSV"@,
            FileType::Parquet => "Parquet"@,
        }
    }

    /// The file type as it is shown to a user.
    #[inline]
    pub fn label(&self) -> (r: &'static str)
        ensures
            r@ == self.spec_label(),
    {
        match self {
            FileType::Csv => "CSV",
            FileType::Parquet => "Parquet",
        }
    }
}

impl Default for FileType {
    #[inline]
    fn default() -> (r: FileType)
        ensures
            r == FileType::Csv,
    {
        FileType::Csv
    }
}

/// The kinds of plot.
#[derive(Debug, Clone, Copy, PartialEq, Eq, Structural)]
pub enum PlotType {
    Scatter,
    Line,
    Bar,
    Histogram,
}

impl PlotType {
    /// Every kind of plot, once, in declaration order.
    pub open spec fn spec_all() -> Seq<PlotType> {
        seq![PlotType::Scatter, PlotType::Line, PlotType::Bar, PlotType::Histogram]
    }

    #[inline]
    pub fn all() -> (r: &'static [PlotType])
        ensures
            r@ == Self::spec_all(),
    {
        &[PlotType::Scatter, PlotType::Line, PlotType::Bar, PlotType::Histogram]
    }

    /// Whether the plot reads a column for its vertical axis.
    pub open spec fn spec_needs_y(&self) -> bool {
        !(self is Histogram)
    }

    #[verifier::when_used_as_spec(spec_needs_y)]
    #[inline]
    pub fn needs_y(&self) -> (r: bool)
        ensures
            r == self.spec_needs_y(),
    {
        !matches!(self, PlotType::Histogram)
    }

    pub open spec fn spec_label(&self) -> Seq<char> {
        match self {
            PlotType::Scatter => "Scatter"@,
            PlotType::Line => "Line"@,
            PlotType::Bar => "Bar"@,
            PlotType::Histogram => "Histogram"@,
        }
    }

    /// The kind of plot as it is shown to a user.
    #[inline]
    pub fn label(&self) -> (r: &'static str)
        ensures
            r@ == self.spec_label(),
    {
        match self {
            PlotType::Scatter => "Scatter",
            PlotType::Line => "Line",
            PlotType::Bar => "Bar",
            PlotType::Histogram => "Histogram",
        }
    }
}

impl Default for PlotType {
    #[inline]
    fn default() -> (r: PlotType)
        ensures
            r == PlotType::Scatter,
    {
        PlotType::Scatter
    }
}

/// The formats an export can write.
#[derive(Debug, Clone, Copy, PartialEq, Eq, Structural)]
pub enum ExportFormat {
    Csv,
    Parquet,
}

/// The export format that a name stands for.
pub open spec fn export_format_named(name: Seq<char>) -> Option<ExportFormat> {
    if name == "csv"@ {
        Some(ExportFormat::Csv)
    } else if name == "parquet"@ {
        Some(ExportFormat::Parquet)
    } else {
        None
    }
}

impl ExportFormat {
    pub open spec fn spec_label(&self) -> Seq<char> {
        match self {
            ExportFormat::Csv => "CSV"@,
            ExportFormat::Parquet => "Parquet"@,
        }
    }

    /// The format as it is shown to a user.
    #[inline]
    pub fn label(&self) -> (r: &'static str)
        ensures
            r@ == self.spec_label(),
    {
        match self {
            ExportFormat::Csv => "CSV",
            ExportFormat::Parquet => "Parquet",
        }
    }

    pub open spec fn spec_extension(&self) -> Seq<char> {
        match self {
            ExportFormat::Csv => "csv"@,
            ExportFormat::Parquet => "parquet"@,
        }
    }

    /// The file extension of the format.
    #[inline]
    pub fn extension(&self) -> (r: &'static str)
        ensures
            r@ == self.spec_extension(),
    {
        match self {
            ExportFormat::Csv => "csv",
            ExportFormat::Parquet => "parquet",
        }
    }

    /// The format that `name` stands for, or the reason why it stands for
    /// none.
    #[inline]
    pub fn from_name(name: &str) -> (r: Result<ExportFormat, String>)
        ensures
            match export_format_named(name@) {
                Some(format) => r == Ok::<ExportFormat, String>(format),
                None => r matches Err(reason) && reason@ == "Unknown export format: "@ + name@,
            },
    {
        if same_text(name, "csv") {
            Ok(ExportFormat::Csv)
        } else if same_text(name, "parquet") {
            Ok(ExportFormat::Parquet)
        } else {
            let mut reason = String::from_str("Unknown export format: ");
            reason.append(name);
            Err(reason)
        }
    }
}

impl Default for ExportFormat {
    #[inline]
    fn default() -> (r: ExportFormat)
        ensures
            r == ExportFormat::Csv,
    {
        ExportFormat::Csv
    }
}

/// The colour themes of a shell.
#[derive(Debug, Clone, Copy, PartialEq, Eq, Structural)]
pub enum Theme {
    Dark,
    Light,
}

impl Default for Theme {
    #[inline]
    fn default() -> (r: Theme)
        ensures
            r == Theme::Dark,
    {
        Theme::Dark
    }
}

} // verus!
