//! CSV text. The bindings to the CSV writer come first: the writer collects
//! records in memory; what it has taken so far is named here, and so is the
//! text it hands out. The document built with them follows.

use crate::text::texts;
use vstd::pervasive::unreached;
use vstd::prelude::*;

verus! {

/// A `csv::Writer` that writes into memory.
#[verifier::external_body]
pub struct RecordWriter {
    inner: csv::Writer<Vec<u8>>,
}

#[verifier::external_type_specification]
#[verifier::external_body]
pub struct ExCsvError(csv::Error);

/// The records a writer has taken, in order, each as its fields.
pub uninterp spec fn written(writer: RecordWriter) -> Seq<Seq<Seq<char>>>;

/// The CSV text of a list of records under the writer's default settings.
pub uninterp spec fn csv_text(records: Seq<Seq<Seq<char>>>) -> Seq<u8>;

/// `csv::Writer::from_writer` over an empty byte vector: a writer with the
/// default settings that has taken no record.
#[verifier::external_body]
#[inline]
pub(crate) fn new_writer() -> (w: RecordWriter)
    ensures
        written(w) == Seq::<Seq<Seq<char>>>::empty(),
{
    RecordWriter { inner: csv::Writer::from_writer(Vec::new()) }
}

/// `csv::Writer::write_record`: appends one record. With the default
/// settings the writer refuses a record only when its number of fields
/// differs from that of the first record, and a refused record leaves the
/// writer unfit for use: such a record is not to be handed in. Writing into
/// memory cannot fail.
#[verifier::external_body]
#[inline]
pub(crate) fn write_record(writer: &mut RecordWriter, fields: &Vec<String>) -> (r: Result<
    (),
    csv::Error,
>)
    requires
        written(*old(writer)).len() == 0 || written(*old(writer))[0].len() == fields.len(),
    ensures
        r is Ok,
        written(*final(writer)) == written(*old(writer)).push(texts(fields@)),
{
    writer.inner.write_record(fields)
}

/// `csv::Writer::into_inner`: flushes and hands out the bytes written.
/// Flushing into memory cannot fail.
#[verifier::external_body]
#[inline]
pub(crate) fn into_bytes(writer: RecordWriter) -> (r: Option<Vec<u8>>)
    ensures
        r is Some,
        r.unwrap()@ == csv_text(written(writer)),
{
    writer.inner.into_inner().ok()
}

/// Why a document could not be written.
#[derive(Debug, Clone, Copy, PartialEq, Eq, Structural)]
pub enum ExportError {
    /// A row has another number of fields than the header.
    UnequalLengths,
}

impl ExportError {
    /// The error as one line of text.
    #[inline]
    pub fn message(&self) -> (r: &'static str)
        ensures
            r@ == "CSV error: record has a different number of fields than the header"@,
    {
        "CSV error: record has a different number of fields than the header"
    }
}

/// The rows of a grid, each as the texts of its fields.
pub open spec fn grid_view(rows: Seq<Vec<String>>) -> Seq<Seq<Seq<char>>> {
    Seq::new(rows.len(), |r: int| texts(rows[r]@))
}

/// Whether every row has as many fields as the header.
pub open spec fn is_rectangular(header: Seq<Seq<char>>, rows: Seq<Seq<Seq<char>>>) -> bool {
    forall|r: int| 0 <= r < rows.len() ==> (#[trigger] rows[r]).len() == header.len()
}

/// The CSV text of a header and rows: the header record first, then one
/// record per row. Rows of another length than the header are refused, and
/// nothing of such a document is handed out.
#[inline]
pub fn csv_document(header: &Vec<String>, rows: &Vec<Vec<String>>) -> (r: Result<
    Vec<u8>,
    ExportError,
>)
    ensures
        r is Ok <==> is_rectangular(texts(header@), grid_view(rows@)),
        r matches Ok(bytes) ==> bytes@ == csv_text(seq![texts(header@)] + grid_view(rows@)),
{
    let ghost all = seq![texts(header@)] + grid_view(rows@);
    let mut writer = new_writer();
    match write_record(&mut writer, header) {
        Ok(()) => {},
        Err(_) => {
            return unreached();
        },
    }
    assert(written(writer) =~= all.take(1));
    let mut i: usize = 0;
    while i < rows.len()
        invariant
            i <= rows.len(),
            all == seq![texts(header@)] + grid_view(rows@),
            written(writer) == all.take(i + 1),
            forall|k: int| 0 <= k < i ==> (#[trigger] grid_view(rows@)[k]).len() == header.len(),
        decreases rows.len() - i,
    {
        proof {
            assert(all.take(i + 1)[0] == texts(header@));
            assert(grid_view(rows@)[i as int].len() == rows[i as int].len());
        }
        if rows[i].len() != header.len() {
            return Err(ExportError::UnequalLengths);
        }
        match write_record(&mut writer, &rows[i]) {
            Ok(()) => {},
            Err(_) => {
                return unreached();
            },
        }
        i = i + 1;
        assert(written(writer) =~= all.take(i + 1));
    }
    assert(all.take(i + 1) =~= all);
    match into_bytes(writer) {
        Some(bytes) => Ok(bytes),
        None => unreached(),
    }
}

} // verus!
