//! The data source: a file, the format read off its extension, and the text
//! columns found to hold numbers.

use crate::operations::{clone_strings, optional_text};
use crate::text::{ascii_lowercase, chars_of, reads_ignoring_case, texts};
use vstd::prelude::*;

verus! {

/// How many leading rows of a CSV file the engine reads to infer the column
/// types.
pub const INFER_SCHEMA_ROWS: usize = 10000;

/// The file formats that can be read.
#[derive(Debug, Clone, Copy, PartialEq, Eq, Structural)]
pub enum DataSourceType {
    Csv,
    Parquet,
}

impl DataSourceType {
    pub open spec fn spec_label(&self) -> Seq<char> {
        match self {
            DataSourceType::Csv => "CSV"@,
            DataSourceType::Parquet => "Parquet"@,
        }
    }

    /// The format as it is shown to a user.
    #[inline]
    pub fn label(&self) -> (r: &'static str)
        ensures
            r@ == self.spec_label(),
    {
        match self {
            DataSourceType::Csv => "CSV",
            DataSourceType::Parquet => "Parquet",
        }
    }
}

/// A file to read, with its format and the names of its text columns that
/// are to be read as numbers.
#[derive(Debug)]
pub struct DataSource {
    pub path: String,
    pub source_type: DataSourceType,
    pub auto_numeric_cols: Vec<String>,
}

pub struct DataSourceView {
    pub path: Seq<char>,
    pub source_type: DataSourceType,
    pub auto_numeric_cols: Seq<Seq<char>>,
}

impl View for DataSource {
    type V = DataSourceView;

    open spec fn view(&self) -> DataSourceView {
        DataSourceView {
            path: self.path@,
            source_type: self.source_type,
            auto_numeric_cols: texts(self.auto_numeric_cols@),
        }
    }
}

impl Clone for DataSource {
    #[inline]
    fn clone(&self) -> (r: DataSource)
        ensures
            r@ == self@,
    {
        DataSource {
            path: self.path.clone(),
            source_type: self.source_type,
            auto_numeric_cols: clone_strings(&self.auto_numeric_cols),
        }
    }
}

/// The extension of a path as `std::path::Path::extension` finds it on the
/// platform the crate is built for: the part of the file name after its
/// last dot, if the name has a dot that is not its first character.
pub uninterp spec fn path_extension(path: Seq<char>) -> Option<Seq<char>>;

/// `std::path::Path::extension` on `path`, as a string.
#[verifier::external_body]
#[inline]
pub(crate) fn extension(path: &str) -> (r: Option<String>)
    ensures
        optional_text(r) == path_extension(path@),
{
    let found = std::path::Path::new(path).extension()?;
    found.to_str().map(|e| e.to_string())
}

/// The format that an extension stands for, in any mix of ASCII case.
pub open spec fn source_type_for(extension: Seq<char>) -> Option<DataSourceType> {
    let lower = ascii_lowercase(extension);
    if lower == "csv"@ || lower == "tsv"@ {
        Some(DataSourceType::Csv)
    } else if lower == "parquet"@ || lower == "pq"@ {
        Some(DataSourceType::Parquet)
    } else {
        None
    }
}

/// The source that a path names: one of the format that its extension
/// stands for, with no numeric text column yet; none where the path has no
/// extension or an unknown one.
pub open spec fn source_for(path: Seq<char>) -> Option<DataSourceView> {
    match path_extension(path) {
        None => None,
        Some(extension) => match source_type_for(extension) {
            None => None,
            Some(source_type) => Some(
                DataSourceView { path, source_type, auto_numeric_cols: Seq::empty() },
            ),
        },
    }
}

/// A source by its view, if there is one.
pub open spec fn optional_source(source: Option<DataSource>) -> Option<DataSourceView> {
    match source {
        Some(s) => Some(s@),
        None => None,
    }
}

/// The format that `extension` stands for.
#[inline]
pub fn source_type_from_extension(extension: &str) -> (r: Option<DataSourceType>)
    ensures
        r == source_type_for(extension@),
{
    let chars = chars_of(extension);
    if reads_ignoring_case(&chars, "csv") || reads_ignoring_case(&chars, "tsv") {
        Some(DataSourceType::Csv)
    } else if reads_ignoring_case(&chars, "parquet") || reads_ignoring_case(&chars, "pq") {
        Some(DataSourceType::Parquet)
    } else {
        None
    }
}

impl DataSource {
    /// The source that `path` names, its format read off the extension.
    #[inline]
    pub fn from_path(path: String) -> (r: Option<DataSource>)
        ensures
            optional_source(r) == source_for(path@),
    {
        let found = match extension(path.as_str()) {
            Some(e) => e,
            None => {
                return None;
            },
        };
        match source_type_from_extension(found.as_str()) {
            None => None,
            Some(source_type) => {
                let source = DataSource { path, source_type, auto_numeric_cols: Vec::new() };
                assert(source@.auto_numeric_cols =~= Seq::<Seq<char>>::empty());
                Some(source)
            },
        }
    }
}

} // verus!
