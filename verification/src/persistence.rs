//! What is kept between sessions: the data source and the operation log,
//! never a table. The state is written as a compact binary text: integers
//! little-endian at fixed width, a string or a list as its length in 64
//! bits and then its bytes or items, an optional value as one byte and then
//! the value, an enum as the index of its variant in 32 bits and then the
//! fields.

use crate::datasource::{optional_source, DataSource, DataSourceType, DataSourceView};
use crate::operations::{
    log_view, optional_text, DTypeTag, FillNullStrategy, FilterOp, Operation, OperationView,
};
use crate::text::texts;
use vstd::bytes::{
    lemma_auto_spec_u32_to_from_le_bytes, lemma_auto_spec_u64_to_from_le_bytes,
    spec_u32_from_le_bytes, spec_u32_to_le_bytes, spec_u64_from_le_bytes, spec_u64_to_le_bytes,
    u32_from_le_bytes, u32_to_le_bytes, u64_from_le_bytes, u64_to_le_bytes,
};
use vstd::prelude::*;
use vstd::slice::{slice_subrange, slice_to_vec};
use vstd::string::{StrSliceExecFns, StringSliceAdditionalSpecFns};
use vstd::utf8::{decode_utf8, encode_utf8, valid_utf8};

verus! {

/// Everything needed to rebuild a pipeline.
#[derive(Debug)]
pub struct PersistentState {
    pub source: Option<DataSource>,
    pub operations: Vec<Operation>,
}

pub struct PersistentStateView {
    pub source: Option<DataSourceView>,
    pub operations: Seq<OperationView>,
}

impl View for PersistentState {
    type V = PersistentStateView;

    open spec fn view(&self) -> PersistentStateView {
        PersistentStateView {
            source: optional_source(self.source),
            operations: log_view(self.operations@),
        }
    }
}

impl Default for PersistentState {
    #[inline]
    fn default() -> (r: PersistentState)
        ensures
            r@.source is None,
            r@.operations.len() == 0,
    {
        PersistentState { source: None, operations: Vec::new() }
    }
}

/// Why bytes are not a state.
#[derive(Debug, Clone, Copy, PartialEq, Eq, Structural)]
pub enum DecodeError {
    /// The bytes end before the state does.
    UnexpectedEnd,
    /// The bytes of a string are not UTF-8.
    InvalidUtf8,
    /// The byte of a boolean is neither 0 nor 1.
    InvalidBool(u8),
    /// The byte before an optional value is neither 0 nor 1.
    InvalidTag(u8),
    /// An enum has no variant of this index.
    UnknownVariant(u32),
}

impl DecodeError {
    /// The error as one line of text.
    #[inline]
    pub fn message(&self) -> (r: &'static str)
        ensures
            r@ == match self {
                DecodeError::UnexpectedEnd => "the state file ends too early"@,
                DecodeError::InvalidUtf8 => "a string in the state file is not UTF-8"@,
                DecodeError::InvalidBool(_) => "a boolean in the state file is neither 0 nor 1"@,
                DecodeError::InvalidTag(_) => "an optional value in the state file has a wrong tag"@,
                DecodeError::UnknownVariant(_) => "the state file names a variant that is not there"@,
            },
    {
        match self {
            DecodeError::UnexpectedEnd => "the state file ends too early",
            DecodeError::InvalidUtf8 => "a string in the state file is not UTF-8",
            DecodeError::InvalidBool(_) => "a boolean in the state file is neither 0 nor 1",
            DecodeError::InvalidTag(_) => "an optional value in the state file has a wrong tag",
            DecodeError::UnknownVariant(_) => "the state file names a variant that is not there",
        }
    }
}

/// `n` in four bytes, the least significant first.
pub open spec fn u32_bytes(n: u32) -> Seq<u8> {
    spec_u32_to_le_bytes(n)
}

/// `n` in eight bytes, the least significant first.
pub open spec fn u64_bytes(n: u64) -> Seq<u8> {
    spec_u64_to_le_bytes(n)
}

/// A boolean in one byte.
pub open spec fn bool_bytes(b: bool) -> Seq<u8> {
    seq![if b { 1u8 } else { 0u8 }]
}

/// A string: the number of its UTF-8 bytes, then the bytes.
pub open spec fn text_bytes(s: Seq<char>) -> Seq<u8> {
    u64_bytes(encode_utf8(s).len() as u64) + encode_utf8(s)
}

/// The byte at `pos`, and the position after it.
pub open spec fn parse_u8(bytes: Seq<u8>, pos: int) -> Result<(u8, int), DecodeError> {
    if 0 <= pos < bytes.len() {
        Ok((bytes[pos], pos + 1))
    } else {
        Err(DecodeError::UnexpectedEnd)
    }
}

/// The 32-bit integer at `pos`, and the position after it.
pub open spec fn parse_u32(bytes: Seq<u8>, pos: int) -> Result<(u32, int), DecodeError> {
    if 0 <= pos && pos + 4 <= bytes.len() {
        Ok((spec_u32_from_le_bytes(bytes.subrange(pos, pos + 4)), pos + 4))
    } else {
        Err(DecodeError::UnexpectedEnd)
    }
}

/// The 64-bit integer at `pos`, and the position after it.
pub open spec fn parse_u64(bytes: Seq<u8>, pos: int) -> Result<(u64, int), DecodeError> {
    if 0 <= pos && pos + 8 <= bytes.len() {
        Ok((spec_u64_from_le_bytes(bytes.subrange(pos, pos + 8)), pos + 8))
    } else {
        Err(DecodeError::UnexpectedEnd)
    }
}

/// The boolean at `pos`, and the position after it.
pub open spec fn parse_bool(bytes: Seq<u8>, pos: int) -> Result<(bool, int), DecodeError> {
    match parse_u8(bytes, pos) {
        Err(e) => Err(e),
        Ok((byte, next)) => if byte == 0 {
            Ok((false, next))
        } else if byte == 1 {
            Ok((true, next))
        } else {
            Err(DecodeError::InvalidBool(byte))
        },
    }
}

/// The string at `pos`, and the position after it.
pub open spec fn parse_text(bytes: Seq<u8>, pos: int) -> Result<(Seq<char>, int), DecodeError> {
    match parse_u64(bytes, pos) {
        Err(e) => Err(e),
        Ok((n, start)) => if start + n > bytes.len() {
            Err(DecodeError::UnexpectedEnd)
        } else if !valid_utf8(bytes.subrange(start, start + n)) {
            Err(DecodeError::InvalidUtf8)
        } else {
            Ok((decode_utf8(bytes.subrange(start, start + n)), start + n))
        },
    }
}

/// Whether a reading of a string agrees with what the bytes hold.
pub open spec fn agrees_text(
    r: Result<(String, usize), DecodeError>,
    parsed: Result<(Seq<char>, int), DecodeError>,
) -> bool {
    match (r, parsed) {
        (Ok((value, next)), Ok((expected, end))) => value@ == expected && next == end,
        (Err(e), Err(f)) => e == f,
        _ => false,
    }
}

/// Whether `part` stands in `bytes` at `pos`.
pub open spec fn holds_at(bytes: Seq<u8>, pos: int, part: Seq<u8>) -> bool {
    0 <= pos && pos + part.len() <= bytes.len() && bytes.subrange(pos, pos + part.len()) == part
}

proof fn lemma_holds_split(bytes: Seq<u8>, pos: int, first: Seq<u8>, second: Seq<u8>)
    requires
        holds_at(bytes, pos, first + second),
    ensures
        holds_at(bytes, pos, first),
        holds_at(bytes, pos + first.len(), second),
{
    let both = first + second;
    let window = bytes.subrange(pos, pos + both.len());
    assert(bytes.subrange(pos, pos + first.len()) =~= window.subrange(0, first.len() as int));
    assert(window.subrange(0, first.len() as int) =~= first);
    assert(bytes.subrange(pos + first.len(), pos + first.len() + second.len()) =~= window.subrange(
        first.len() as int,
        both.len() as int,
    ));
    assert(window.subrange(first.len() as int, both.len() as int) =~= second);
}

proof fn lemma_parse_u32(bytes: Seq<u8>, pos: int, n: u32)
    requires
        holds_at(bytes, pos, u32_bytes(n)),
    ensures
        u32_bytes(n).len() == 4,
        parse_u32(bytes, pos) == Ok::<(u32, int), DecodeError>((n, pos + 4)),
{
    lemma_auto_spec_u32_to_from_le_bytes();
}

proof fn lemma_parse_u64(bytes: Seq<u8>, pos: int, n: u64)
    requires
        holds_at(bytes, pos, u64_bytes(n)),
    ensures
        u64_bytes(n).len() == 8,
        parse_u64(bytes, pos) == Ok::<(u64, int), DecodeError>((n, pos + 8)),
{
    lemma_auto_spec_u64_to_from_le_bytes();
}

proof fn lemma_parse_bool(bytes: Seq<u8>, pos: int, b: bool)
    requires
        holds_at(bytes, pos, bool_bytes(b)),
    ensures
        parse_bool(bytes, pos) == Ok::<(bool, int), DecodeError>((b, pos + 1)),
{
    assert(bytes[pos] == bytes.subrange(pos, pos + 1)[0]);
}

proof fn lemma_parse_text(bytes: Seq<u8>, pos: int, s: Seq<char>)
    requires
        holds_at(bytes, pos, text_bytes(s)),
        encode_utf8(s).len() <= u64::MAX,
    ensures
        parse_text(bytes, pos) == Ok::<(Seq<char>, int), DecodeError>(
            (s, pos + text_bytes(s).len()),
        ),
{
    let body = encode_utf8(s);
    let n = body.len() as u64;
    lemma_auto_spec_u64_to_from_le_bytes();
    lemma_holds_split(bytes, pos, u64_bytes(n), body);
    lemma_parse_u64(bytes, pos, n);
    vstd::utf8::encode_utf8_valid_utf8(s);
    vstd::utf8::encode_utf8_decode_utf8(s);
}

/// Appends `n` in four bytes.
#[inline]
fn put_u32(out: &mut Vec<u8>, n: u32)
    ensures
        final(out)@ == old(out)@ + u32_bytes(n),
{
    let mut bytes = u32_to_le_bytes(n);
    out.append(&mut bytes);
}

/// Appends `n` in eight bytes.
#[inline]
fn put_u64(out: &mut Vec<u8>, n: u64)
    ensures
        final(out)@ == old(out)@ + u64_bytes(n),
{
    let mut bytes = u64_to_le_bytes(n);
    out.append(&mut bytes);
}

/// Appends a boolean in one byte.
#[inline]
fn put_bool(out: &mut Vec<u8>, b: bool)
    ensures
        final(out)@ == old(out)@ + bool_bytes(b),
{
    out.push(if b { 1u8 } else { 0u8 });
    assert(out@ =~= old(out)@ + bool_bytes(b));
}

/// Appends a string: its length in bytes, then its bytes.
#[inline]
fn put_text(out: &mut Vec<u8>, s: &str)
    ensures
        final(out)@ == old(out)@ + text_bytes(s@),
        encode_utf8(s@).len() <= u64::MAX,
{
    let mut bytes = s.as_bytes_vec();
    put_u64(out, bytes.len() as u64);
    out.append(&mut bytes);
    assert(out@ =~= old(out)@ + text_bytes(s@));
}

/// Reads the byte at `pos`.
#[inline]
fn take_u8(bytes: &[u8], pos: usize) -> (r: Result<(u8, usize), DecodeError>)
    ensures
        match parse_u8(bytes@, pos as int) {
            Ok((value, end)) => r == Ok::<(u8, usize), DecodeError>((value, end as usize)) && end
                <= bytes@.len(),
            Err(e) => r == Err::<(u8, usize), DecodeError>(e),
        },
{
    if pos < bytes.len() {
        Ok((bytes[pos], pos + 1))
    } else {
        Err(DecodeError::UnexpectedEnd)
    }
}

/// Reads the 32-bit integer at `pos`.
#[inline]
fn take_u32(bytes: &[u8], pos: usize) -> (r: Result<(u32, usize), DecodeError>)
    ensures
        match parse_u32(bytes@, pos as int) {
            Ok((value, end)) => r == Ok::<(u32, usize), DecodeError>((value, end as usize)) && end
                <= bytes@.len(),
            Err(e) => r == Err::<(u32, usize), DecodeError>(e),
        },
{
    if pos <= bytes.len() && bytes.len() - pos >= 4 {
        let value = u32_from_le_bytes(slice_subrange(bytes, pos, pos + 4));
        Ok((value, pos + 4))
    } else {
        Err(DecodeError::UnexpectedEnd)
    }
}

/// Reads the 64-bit integer at `pos`.
#[inline]
fn take_u64(bytes: &[u8], pos: usize) -> (r: Result<(u64, usize), DecodeError>)
    ensures
        match parse_u64(bytes@, pos as int) {
            Ok((value, end)) => r == Ok::<(u64, usize), DecodeError>((value, end as usize)) && end
                <= bytes@.len(),
            Err(e) => r == Err::<(u64, usize), DecodeError>(e),
        },
{
    if pos <= bytes.len() && bytes.len() - pos >= 8 {
        let value = u64_from_le_bytes(slice_subrange(bytes, pos, pos + 8));
        Ok((value, pos + 8))
    } else {
        Err(DecodeError::UnexpectedEnd)
    }
}

/// Reads the boolean at `pos`.
#[inline]
fn take_bool(bytes: &[u8], pos: usize) -> (r: Result<(bool, usize), DecodeError>)
    ensures
        match parse_bool(bytes@, pos as int) {
            Ok((value, end)) => r == Ok::<(bool, usize), DecodeError>((value, end as usize))
                && end <= bytes@.len(),
            Err(e) => r == Err::<(bool, usize), DecodeError>(e),
        },
{
    let (byte, next) = take_u8(bytes, pos)?;
    if byte == 0 {
        Ok((false, next))
    } else if byte == 1 {
        Ok((true, next))
    } else {
        Err(DecodeError::InvalidBool(byte))
    }
}

/// `String::from_utf8`: the string that the bytes encode, where they are
/// UTF-8, and none where they are not.
#[verifier::external_body]
#[inline]
fn string_from_utf8(bytes: Vec<u8>) -> (r: Option<String>)
    ensures
        r is Some <==> valid_utf8(bytes@),
        r is Some ==> r.unwrap()@ == decode_utf8(bytes@),
{
    String::from_utf8(bytes).ok()
}

/// Reads the string at `pos`.
#[inline]
fn take_text(bytes: &[u8], pos: usize) -> (r: Result<(String, usize), DecodeError>)
    ensures
        agrees_text(r, parse_text(bytes@, pos as int)),
        r is Ok ==> r.unwrap().1 <= bytes@.len(),
{
    let (n, start) = take_u64(bytes, pos)?;
    if n > (bytes.len() - start) as u64 {
        return Err(DecodeError::UnexpectedEnd);
    }
    let end = start + n as usize;
    let body = slice_to_vec(slice_subrange(bytes, start, end));
    match string_from_utf8(body) {
        Some(text) => Ok((text, end)),
        None => Err(DecodeError::InvalidUtf8),
    }
}

/// The index of a comparator among its variants.
pub open spec fn filter_op_index(op: FilterOp) -> u32 {
    match op {
        FilterOp::Eq => 0,
        FilterOp::Neq => 1,
        FilterOp::Gt => 2,
        FilterOp::Gte => 3,
        FilterOp::Lt => 4,
        FilterOp::Lte => 5,
        FilterOp::Contains => 6,
        FilterOp::IsNull => 7,
        FilterOp::IsNotNull => 8,
    }
}

/// The comparator of an index, if there is one.
pub open spec fn filter_op_at(index: u32) -> Option<FilterOp> {
    if index == 0 {
        Some(FilterOp::Eq)
    } else if index == 1 {
        Some(FilterOp::Neq)
    } else if index == 2 {
        Some(FilterOp::Gt)
    } else if index == 3 {
        Some(FilterOp::Gte)
    } else if index == 4 {
        Some(FilterOp::Lt)
    } else if index == 5 {
        Some(FilterOp::Lte)
    } else if index == 6 {
        Some(FilterOp::Contains)
    } else if index == 7 {
        Some(FilterOp::IsNull)
    } else if index == 8 {
        Some(FilterOp::IsNotNull)
    } else {
        None
    }
}

/// The index of a fill strategy among its variants.
pub open spec fn strategy_index(strategy: FillNullStrategy) -> u32 {
    match strategy {
        FillNullStrategy::Forward => 0,
        FillNullStrategy::Backward => 1,
        FillNullStrategy::WithValue => 2,
        FillNullStrategy::Mean => 3,
        FillNullStrategy::Min => 4,
        FillNullStrategy::Max => 5,
    }
}

/// The fill strategy of an index, if there is one.
pub open spec fn strategy_at(index: u32) -> Option<FillNullStrategy> {
    if index == 0 {
        Some(FillNullStrategy::Forward)
    } else if index == 1 {
        Some(FillNullStrategy::Backward)
    } else if index == 2 {
        Some(FillNullStrategy::WithValue)
    } else if index == 3 {
        Some(FillNullStrategy::Mean)
    } else if index == 4 {
        Some(FillNullStrategy::Min)
    } else if index == 5 {
        Some(FillNullStrategy::Max)
    } else {
        None
    }
}

/// The index of a cast target among its variants.
pub open spec fn dtype_index(dtype: DTypeTag) -> u32 {
    match dtype {
        DTypeTag::Int32 => 0,
        DTypeTag::Int64 => 1,
        DTypeTag::Float32 => 2,
        DTypeTag::Float64 => 3,
        DTypeTag::Utf8String => 4,
        DTypeTag::Boolean => 5,
        DTypeTag::Date => 6,
    }
}

/// The cast target of an index, if there is one.
pub open spec fn dtype_at(index: u32) -> Option<DTypeTag> {
    if index == 0 {
        Some(DTypeTag::Int32)
    } else if index == 1 {
        Some(DTypeTag::Int64)
    } else if index == 2 {
        Some(DTypeTag::Float32)
    } else if index == 3 {
        Some(DTypeTag::Float64)
    } else if index == 4 {
        Some(DTypeTag::Utf8String)
    } else if index == 5 {
        Some(DTypeTag::Boolean)
    } else if index == 6 {
        Some(DTypeTag::Date)
    } else {
        None
    }
}

/// The index of a file format among its variants.
pub open spec fn source_type_index(source_type: DataSourceType) -> u32 {
    match source_type {
        DataSourceType::Csv => 0,
        DataSourceType::Parquet => 1,
    }
}

/// The file format of an index, if there is one.
pub open spec fn source_type_at(index: u32) -> Option<DataSourceType> {
    if index == 0 {
        Some(DataSourceType::Csv)
    } else if index == 1 {
        Some(DataSourceType::Parquet)
    } else {
        None
    }
}

/// An optional string: one byte that says whether it is there, then the
/// string.
pub open spec fn optional_text_bytes(value: Option<Seq<char>>) -> Seq<u8> {
    match value {
        None => seq![0u8],
        Some(text) => seq![1u8] + text_bytes(text),
    }
}

/// The strings of a list, one after the other.
pub open spec fn items_bytes(items: Seq<Seq<char>>) -> Seq<u8>
    decreases items.len(),
{
    if items.len() == 0 {
        Seq::empty()
    } else {
        text_bytes(items[0]) + items_bytes(items.skip(1))
    }
}

/// A list of strings: the number of its items, then the items.
pub open spec fn text_list_bytes(items: Seq<Seq<char>>) -> Seq<u8> {
    u64_bytes(items.len() as u64) + items_bytes(items)
}

/// Whether a string can be written: its UTF-8 length fits 64 bits.
pub open spec fn text_fits(s: Seq<char>) -> bool {
    encode_utf8(s).len() <= u64::MAX
}

/// Whether a list of strings can be written.
pub open spec fn text_list_fits(items: Seq<Seq<char>>) -> bool {
    &&& items.len() <= u64::MAX
    &&& forall|i: int| 0 <= i < items.len() ==> text_fits(#[trigger] items[i])
}

/// The optional string at `pos`, and the position after it.
pub open spec fn parse_optional_text(bytes: Seq<u8>, pos: int) -> Result<
    (Option<Seq<char>>, int),
    DecodeError,
> {
    match parse_u8(bytes, pos) {
        Err(e) => Err(e),
        Ok((tag, next)) => if tag == 0 {
            Ok((None, next))
        } else if tag == 1 {
            match parse_text(bytes, next) {
                Err(e) => Err(e),
                Ok((text, end)) => Ok((Some(text), end)),
            }
        } else {
            Err(DecodeError::InvalidTag(tag))
        },
    }
}

/// The `n` strings that stand one after the other from `pos` on, and the
/// position after them.
pub open spec fn parse_items(bytes: Seq<u8>, pos: int, n: nat) -> Result<
    (Seq<Seq<char>>, int),
    DecodeError,
>
    decreases n,
{
    if n == 0 {
        Ok((Seq::empty(), pos))
    } else {
        match parse_text(bytes, pos) {
            Err(e) => Err(e),
            Ok((first, next)) => match parse_items(bytes, next, (n - 1) as nat) {
                Err(e) => Err(e),
                Ok((rest, end)) => Ok((seq![first] + rest, end)),
            },
        }
    }
}

/// The list of strings at `pos`, and the position after it.
pub open spec fn parse_text_list(bytes: Seq<u8>, pos: int) -> Result<
    (Seq<Seq<char>>, int),
    DecodeError,
> {
    match parse_u64(bytes, pos) {
        Err(e) => Err(e),
        Ok((n, start)) => parse_items(bytes, start, n as nat),
    }
}

/// Whether a reading of an optional string agrees with what the bytes hold.
pub open spec fn agrees_optional_text(
    r: Result<(Option<String>, usize), DecodeError>,
    parsed: Result<(Option<Seq<char>>, int), DecodeError>,
) -> bool {
    match (r, parsed) {
        (Ok((value, next)), Ok((expected, end))) => optional_text(value) == expected && next == end,
        (Err(e), Err(f)) => e == f,
        _ => false,
    }
}

/// Whether a reading of a list of strings agrees with what the bytes hold.
pub open spec fn agrees_texts(
    r: Result<(Vec<String>, usize), DecodeError>,
    parsed: Result<(Seq<Seq<char>>, int), DecodeError>,
) -> bool {
    match (r, parsed) {
        (Ok((value, next)), Ok((expected, end))) => texts(value@) == expected && next == end,
        (Err(e), Err(f)) => e == f,
        _ => false,
    }
}

proof fn lemma_items_bytes_push(items: Seq<Seq<char>>, last: Seq<char>)
    ensures
        items_bytes(items.push(last)) == items_bytes(items) + text_bytes(last),
    decreases items.len(),
{
    if items.len() == 0 {
        let one = items.push(last);
        assert(one.skip(1) =~= Seq::<Seq<char>>::empty());
        assert(one[0] == last);
        assert(items_bytes(one.skip(1)) =~= Seq::<u8>::empty());
        assert(items_bytes(one) =~= text_bytes(last));
        assert(items_bytes(items) + text_bytes(last) =~= text_bytes(last));
    } else {
        assert(items.push(last).skip(1) =~= items.skip(1).push(last));
        lemma_items_bytes_push(items.skip(1), last);
        assert(items_bytes(items.push(last)) =~= items_bytes(items) + text_bytes(last));
    }
}

proof fn lemma_parse_optional_text(bytes: Seq<u8>, pos: int, value: Option<Seq<char>>)
    requires
        holds_at(bytes, pos, optional_text_bytes(value)),
        value is Some ==> text_fits(value.unwrap()),
    ensures
        parse_optional_text(bytes, pos) == Ok::<(Option<Seq<char>>, int), DecodeError>(
            (value, pos + optional_text_bytes(value).len()),
        ),
{
    assert(bytes[pos] == bytes.subrange(pos, pos + optional_text_bytes(value).len())[0]);
    match value {
        None => {},
        Some(text) => {
            lemma_holds_split(bytes, pos, seq![1u8], text_bytes(text));
            lemma_parse_text(bytes, pos + 1, text);
        },
    }
}

proof fn lemma_parse_items(bytes: Seq<u8>, pos: int, items: Seq<Seq<char>>)
    requires
        holds_at(bytes, pos, items_bytes(items)),
        forall|i: int| 0 <= i < items.len() ==> text_fits(#[trigger] items[i]),
    ensures
        parse_items(bytes, pos, items.len()) == Ok::<(Seq<Seq<char>>, int), DecodeError>(
            (items, pos + items_bytes(items).len()),
        ),
    decreases items.len(),
{
    if items.len() == 0 {
        assert(items =~= Seq::<Seq<char>>::empty());
    } else {
        let rest = items.skip(1);
        lemma_holds_split(bytes, pos, text_bytes(items[0]), items_bytes(rest));
        lemma_parse_text(bytes, pos, items[0]);
        assert forall|i: int| 0 <= i < rest.len() implies text_fits(#[trigger] rest[i]) by {
            assert(rest[i] == items[i + 1]);
        }
        lemma_parse_items(bytes, pos + text_bytes(items[0]).len(), rest);
        assert(seq![items[0]] + rest =~= items);
    }
}

proof fn lemma_parse_text_list(bytes: Seq<u8>, pos: int, items: Seq<Seq<char>>)
    requires
        holds_at(bytes, pos, text_list_bytes(items)),
        text_list_fits(items),
    ensures
        parse_text_list(bytes, pos) == Ok::<(Seq<Seq<char>>, int), DecodeError>(
            (items, pos + text_list_bytes(items).len()),
        ),
{
    lemma_auto_spec_u64_to_from_le_bytes();
    lemma_holds_split(bytes, pos, u64_bytes(items.len() as u64), items_bytes(items));
    lemma_parse_u64(bytes, pos, items.len() as u64);
    lemma_parse_items(bytes, pos + 8, items);
}

#[inline]
fn filter_op_code(op: FilterOp) -> (r: u32)
    ensures
        r == filter_op_index(op),
{
    match op {
        FilterOp::Eq => 0,
        FilterOp::Neq => 1,
        FilterOp::Gt => 2,
        FilterOp::Gte => 3,
        FilterOp::Lt => 4,
        FilterOp::Lte => 5,
        FilterOp::Contains => 6,
        FilterOp::IsNull => 7,
        FilterOp::IsNotNull => 8,
    }
}

#[inline]
fn filter_op_of(index: u32) -> (r: Result<FilterOp, DecodeError>)
    ensures
        match filter_op_at(index) {
            Some(op) => r == Ok::<FilterOp, DecodeError>(op),
            None => r == Err::<FilterOp, DecodeError>(DecodeError::UnknownVariant(index)),
        },
{
    match index {
        0 => Ok(FilterOp::Eq),
        1 => Ok(FilterOp::Neq),
        2 => Ok(FilterOp::Gt),
        3 => Ok(FilterOp::Gte),
        4 => Ok(FilterOp::Lt),
        5 => Ok(FilterOp::Lte),
        6 => Ok(FilterOp::Contains),
        7 => Ok(FilterOp::IsNull),
        8 => Ok(FilterOp::IsNotNull),
        _ => Err(DecodeError::UnknownVariant(index)),
    }
}

#[inline]
fn strategy_code(strategy: FillNullStrategy) -> (r: u32)
    ensures
        r == strategy_index(strategy),
{
    match strategy {
        FillNullStrategy::Forward => 0,
        FillNullStrategy::Backward => 1,
        FillNullStrategy::WithValue => 2,
        FillNullStrategy::Mean => 3,
        FillNullStrategy::Min => 4,
        FillNullStrategy::Max => 5,
    }
}

#[inline]
fn strategy_of(index: u32) -> (r: Result<FillNullStrategy, DecodeError>)
    ensures
        match strategy_at(index) {
            Some(strategy) => r == Ok::<FillNullStrategy, DecodeError>(strategy),
            None => r == Err::<FillNullStrategy, DecodeError>(DecodeError::UnknownVariant(index)),
        },
{
    match index {
        0 => Ok(FillNullStrategy::Forward),
        1 => Ok(FillNullStrategy::Backward),
        2 => Ok(FillNullStrategy::WithValue),
        3 => Ok(FillNullStrategy::Mean),
        4 => Ok(FillNullStrategy::Min),
        5 => Ok(FillNullStrategy::Max),
        _ => Err(DecodeError::UnknownVariant(index)),
    }
}

#[inline]
fn dtype_code(dtype: DTypeTag) -> (r: u32)
    ensures
        r == dtype_index(dtype),
{
    match dtype {
        DTypeTag::Int32 => 0,
        DTypeTag::Int64 => 1,
        DTypeTag::Float32 => 2,
        DTypeTag::Float64 => 3,
        DTypeTag::Utf8String => 4,
        DTypeTag::Boolean => 5,
        DTypeTag::Date => 6,
    }
}

#[inline]
fn dtype_of(index: u32) -> (r: Result<DTypeTag, DecodeError>)
    ensures
        match dtype_at(index) {
            Some(dtype) => r == Ok::<DTypeTag, DecodeError>(dtype),
            None => r == Err::<DTypeTag, DecodeError>(DecodeError::UnknownVariant(index)),
        },
{
    match index {
        0 => Ok(DTypeTag::Int32),
        1 => Ok(DTypeTag::Int64),
        2 => Ok(DTypeTag::Float32),
        3 => Ok(DTypeTag::Float64),
        4 => Ok(DTypeTag::Utf8String),
        5 => Ok(DTypeTag::Boolean),
        6 => Ok(DTypeTag::Date),
        _ => Err(DecodeError::UnknownVariant(index)),
    }
}

#[inline]
fn source_type_code(source_type: DataSourceType) -> (r: u32)
    ensures
        r == source_type_index(source_type),
{
    match source_type {
        DataSourceType::Csv => 0,
        DataSourceType::Parquet => 1,
    }
}

#[inline]
fn source_type_of(index: u32) -> (r: Result<DataSourceType, DecodeError>)
    ensures
        match source_type_at(index) {
            Some(source_type) => r == Ok::<DataSourceType, DecodeError>(source_type),
            None => r == Err::<DataSourceType, DecodeError>(DecodeError::UnknownVariant(index)),
        },
{
    match index {
        0 => Ok(DataSourceType::Csv),
        1 => Ok(DataSourceType::Parquet),
        _ => Err(DecodeError::UnknownVariant(index)),
    }
}

/// Appends an optional string.
#[inline]
fn put_optional_text(out: &mut Vec<u8>, value: &Option<String>)
    ensures
        final(out)@ == old(out)@ + optional_text_bytes(optional_text(*value)),
        value is Some ==> text_fits(value.unwrap()@),
{
    match value {
        None => {
            out.push(0u8);
            assert(out@ =~= old(out)@ + optional_text_bytes(None));
        },
        Some(text) => {
            out.push(1u8);
            put_text(out, text.as_str());
            assert(out@ =~= old(out)@ + optional_text_bytes(Some(text@)));
        },
    }
}

/// Appends a list of strings.
#[inline]
fn put_text_list(out: &mut Vec<u8>, items: &Vec<String>)
    ensures
        final(out)@ == old(out)@ + text_list_bytes(texts(items@)),
        text_list_fits(texts(items@)),
{
    put_u64(out, items.len() as u64);
    let ghost start = out@;
    let mut i: usize = 0;
    assert(items_bytes(texts(items@).take(0)) =~= Seq::<u8>::empty());
    while i < items.len()
        invariant
            i <= items.len(),
            out@ == start + items_bytes(texts(items@).take(i as int)),
            forall|k: int| 0 <= k < i ==> text_fits(#[trigger] texts(items@)[k]),
        decreases items.len() - i,
    {
        let ghost before = out@;
        put_text(out, items[i].as_str());
        proof {
            let all = texts(items@);
            lemma_items_bytes_push(all.take(i as int), all[i as int]);
            assert(all.take(i as int).push(all[i as int]) =~= all.take(i + 1));
            assert(out@ =~= start + items_bytes(all.take(i + 1)));
        }
        i = i + 1;
    }
    assert(texts(items@).take(i as int) =~= texts(items@));
    assert(out@ =~= old(out)@ + text_list_bytes(texts(items@)));
}

/// Reads the optional string at `pos`.
#[inline]
fn take_optional_text(bytes: &[u8], pos: usize) -> (r: Result<
    (Option<String>, usize),
    DecodeError,
>)
    ensures
        agrees_optional_text(r, parse_optional_text(bytes@, pos as int)),
        r is Ok ==> r.unwrap().1 <= bytes@.len(),
{
    let total = bytes.len();
    let (tag, next) = take_u8(bytes, pos)?;
    if tag == 0 {
        Ok((None, next))
    } else if tag == 1 {
        let (text, end) = take_text(bytes, next)?;
        Ok((Some(text), end))
    } else {
        Err(DecodeError::InvalidTag(tag))
    }
}

/// What is read when `rest` follows the strings already read.
pub open spec fn extended(
    read: Seq<Seq<char>>,
    rest: Result<(Seq<Seq<char>>, int), DecodeError>,
) -> Result<(Seq<Seq<char>>, int), DecodeError> {
    match rest {
        Ok((items, end)) => Ok((read + items, end)),
        Err(e) => Err(e),
    }
}

/// Reads the list of strings at `pos`.
#[inline]
fn take_text_list(bytes: &[u8], pos: usize) -> (r: Result<(Vec<String>, usize), DecodeError>)
    ensures
        agrees_texts(r, parse_text_list(bytes@, pos as int)),
        r is Ok ==> r.unwrap().1 <= bytes@.len(),
{
    let total = bytes.len();
    let (n, start) = take_u64(bytes, pos)?;
    let mut items: Vec<String> = Vec::new();
    let mut at: usize = start;
    let mut i: u64 = 0;
    proof {
        match parse_items(bytes@, start as int, n as nat) {
            Ok((rest, end)) => {
                assert(texts(items@) + rest =~= rest);
            },
            Err(_) => {},
        }
    }
    while i < n
        invariant
            i <= n,
            at <= bytes@.len(),
            parse_text_list(bytes@, pos as int) == extended(
                texts(items@),
                parse_items(bytes@, at as int, (n - i) as nat),
            ),
        decreases n - i,
    {
        let ghost read = texts(items@);
        let (text, next) = match take_text(bytes, at) {
            Ok(found) => found,
            Err(e) => {
                return Err(e);
            },
        };
        items.push(text);
        proof {
            assert(texts(items@) =~= read.push(text@));
            match parse_items(bytes@, next as int, (n - i - 1) as nat) {
                Ok((rest, end)) => {
                    assert(read + (seq![text@] + rest) =~= read.push(text@) + rest);
                },
                Err(_) => {},
            }
        }
        at = next;
        i = i + 1;
    }
    assert(texts(items@) + Seq::<Seq<char>>::empty() =~= texts(items@));
    Ok((items, at))
}

/// An operation: the index of its variant, then its fields in order.
pub open spec fn operation_bytes(op: OperationView) -> Seq<u8> {
    u32_bytes(operation_index(op)) + fields_bytes(op)
}

/// Whether an operation can be written: its strings and lists fit.
pub open spec fn operation_fits(op: OperationView) -> bool {
    match op {
        OperationView::Filter { column, op, value } => text_fits(column) && text_fits(value),
        OperationView::Sort { column, descending } => text_fits(column),
        OperationView::DropColumn(column) => text_fits(column),
        OperationView::RenameColumn { from, to } => text_fits(from) && text_fits(to),
        OperationView::SelectColumns(columns) => text_list_fits(columns),
        OperationView::Limit(n) => true,
        OperationView::FillNull { column, strategy, value } => text_fits(column) && (value is Some
            ==> text_fits(value.unwrap())),
        OperationView::CastColumn { column, dtype } => text_fits(column),
        OperationView::ParseDatetime { column, format } => text_fits(column) && text_fits(format),
    }
}

/// The fields of a filter at `pos`.
pub open spec fn parse_filter(bytes: Seq<u8>, pos: int) -> Result<(OperationView, int), DecodeError> {
    match parse_text(bytes, pos) {
        Err(e) => Err(e),
        Ok((column, mid)) => match parse_u32(bytes, mid) {
            Err(e) => Err(e),
            Ok((index, late)) => match filter_op_at(index) {
                None => Err(DecodeError::UnknownVariant(index)),
                Some(op) => match parse_text(bytes, late) {
                    Err(e) => Err(e),
                    Ok((value, end)) => Ok((OperationView::Filter { column, op, value }, end)),
                },
            },
        },
    }
}

/// The fields of a sort at `pos`.
pub open spec fn parse_sort(bytes: Seq<u8>, pos: int) -> Result<(OperationView, int), DecodeError> {
    match parse_text(bytes, pos) {
        Err(e) => Err(e),
        Ok((column, mid)) => match parse_bool(bytes, mid) {
            Err(e) => Err(e),
            Ok((descending, late)) => Ok((OperationView::Sort { column, descending }, late)),
        },
    }
}

/// The fields of a renaming at `pos`.
pub open spec fn parse_rename(bytes: Seq<u8>, pos: int) -> Result<(OperationView, int), DecodeError> {
    match parse_text(bytes, pos) {
        Err(e) => Err(e),
        Ok((from, mid)) => match parse_text(bytes, mid) {
            Err(e) => Err(e),
            Ok((to, late)) => Ok((OperationView::RenameColumn { from, to }, late)),
        },
    }
}

/// The fields of a fill at `pos`.
pub open spec fn parse_fill_null(bytes: Seq<u8>, pos: int) -> Result<
    (OperationView, int),
    DecodeError,
> {
    match parse_text(bytes, pos) {
        Err(e) => Err(e),
        Ok((column, mid)) => match parse_u32(bytes, mid) {
            Err(e) => Err(e),
            Ok((index, late)) => match strategy_at(index) {
                None => Err(DecodeError::UnknownVariant(index)),
                Some(strategy) => match parse_optional_text(bytes, late) {
                    Err(e) => Err(e),
                    Ok((value, end)) => Ok(
                        (OperationView::FillNull { column, strategy, value }, end),
                    ),
                },
            },
        },
    }
}

/// The fields of a cast at `pos`.
pub open spec fn parse_cast(bytes: Seq<u8>, pos: int) -> Result<(OperationView, int), DecodeError> {
    match parse_text(bytes, pos) {
        Err(e) => Err(e),
        Ok((column, mid)) => match parse_u32(bytes, mid) {
            Err(e) => Err(e),
            Ok((index, late)) => match dtype_at(index) {
                None => Err(DecodeError::UnknownVariant(index)),
                Some(dtype) => Ok((OperationView::CastColumn { column, dtype }, late)),
            },
        },
    }
}

/// The fields of a timestamp parse at `pos`.
pub open spec fn parse_datetime(bytes: Seq<u8>, pos: int) -> Result<
    (OperationView, int),
    DecodeError,
> {
    match parse_text(bytes, pos) {
        Err(e) => Err(e),
        Ok((column, mid)) => match parse_text(bytes, mid) {
            Err(e) => Err(e),
            Ok((format, late)) => Ok((OperationView::ParseDatetime { column, format }, late)),
        },
    }
}

/// The operation at `pos`, and the position after it.
pub open spec fn parse_operation(bytes: Seq<u8>, pos: int) -> Result<
    (OperationView, int),
    DecodeError,
> {
    match parse_u32(bytes, pos) {
        Err(e) => Err(e),
        Ok((tag, next)) => if tag == 0 {
            parse_filter(bytes, next)
        } else if tag == 1 {
            parse_sort(bytes, next)
        } else if tag == 2 {
            match parse_text(bytes, next) {
                Err(e) => Err(e),
                Ok((column, end)) => Ok((OperationView::DropColumn(column), end)),
            }
        } else if tag == 3 {
            parse_rename(bytes, next)
        } else if tag == 4 {
            match parse_text_list(bytes, next) {
                Err(e) => Err(e),
                Ok((columns, end)) => Ok((OperationView::SelectColumns(columns), end)),
            }
        } else if tag == 5 {
            match parse_u32(bytes, next) {
                Err(e) => Err(e),
                Ok((n, end)) => Ok((OperationView::Limit(n), end)),
            }
        } else if tag == 6 {
            parse_fill_null(bytes, next)
        } else if tag == 7 {
            parse_cast(bytes, next)
        } else if tag == 8 {
            parse_datetime(bytes, next)
        } else {
            Err(DecodeError::UnknownVariant(tag))
        },
    }
}

/// Whether a reading of an operation agrees with what the bytes hold.
pub open spec fn agrees_operation(
    r: Result<(Operation, usize), DecodeError>,
    parsed: Result<(OperationView, int), DecodeError>,
) -> bool {
    match (r, parsed) {
        (Ok((value, next)), Ok((expected, end))) => value@ == expected && next == end,
        (Err(e), Err(f)) => e == f,
        _ => false,
    }
}

proof fn lemma_parse_filter(
    bytes: Seq<u8>,
    pos: int,
    column: Seq<char>,
    op: FilterOp,
    value: Seq<char>,
)
    requires
        holds_at(
            bytes,
            pos,
            text_bytes(column) + u32_bytes(filter_op_index(op)) + text_bytes(value),
        ),
        text_fits(column),
        text_fits(value),
    ensures
        parse_filter(bytes, pos) == Ok::<(OperationView, int), DecodeError>(
            (
                OperationView::Filter { column, op, value },
                pos + text_bytes(column).len() + 4 + text_bytes(value).len(),
            ),
        ),
{
    lemma_auto_spec_u32_to_from_le_bytes();
    let a = text_bytes(column);
    let b = u32_bytes(filter_op_index(op));
    let c = text_bytes(value);
    lemma_holds_split(bytes, pos, a + b, c);
    lemma_holds_split(bytes, pos, a, b);
    lemma_parse_text(bytes, pos, column);
    lemma_parse_u32(bytes, pos + a.len(), filter_op_index(op));
    lemma_parse_text(bytes, pos + a.len() + 4, value);
}

proof fn lemma_parse_sort(bytes: Seq<u8>, pos: int, column: Seq<char>, descending: bool)
    requires
        holds_at(bytes, pos, text_bytes(column) + bool_bytes(descending)),
        text_fits(column),
    ensures
        parse_sort(bytes, pos) == Ok::<(OperationView, int), DecodeError>(
            (OperationView::Sort { column, descending }, pos + text_bytes(column).len() + 1),
        ),
{
    let a = text_bytes(column);
    lemma_holds_split(bytes, pos, a, bool_bytes(descending));
    lemma_parse_text(bytes, pos, column);
    lemma_parse_bool(bytes, pos + a.len(), descending);
}

proof fn lemma_parse_rename(bytes: Seq<u8>, pos: int, from: Seq<char>, to: Seq<char>)
    requires
        holds_at(bytes, pos, text_bytes(from) + text_bytes(to)),
        text_fits(from),
        text_fits(to),
    ensures
        parse_rename(bytes, pos) == Ok::<(OperationView, int), DecodeError>(
            (
                OperationView::RenameColumn { from, to },
                pos + text_bytes(from).len() + text_bytes(to).len(),
            ),
        ),
{
    let a = text_bytes(from);
    lemma_holds_split(bytes, pos, a, text_bytes(to));
    lemma_parse_text(bytes, pos, from);
    lemma_parse_text(bytes, pos + a.len(), to);
}

proof fn lemma_parse_fill_null(
    bytes: Seq<u8>,
    pos: int,
    column: Seq<char>,
    strategy: FillNullStrategy,
    value: Option<Seq<char>>,
)
    requires
        holds_at(
            bytes,
            pos,
            text_bytes(column) + u32_bytes(strategy_index(strategy)) + optional_text_bytes(value),
        ),
        text_fits(column),
        value is Some ==> text_fits(value.unwrap()),
    ensures
        parse_fill_null(bytes, pos) == Ok::<(OperationView, int), DecodeError>(
            (
                OperationView::FillNull { column, strategy, value },
                pos + text_bytes(column).len() + 4 + optional_text_bytes(value).len(),
            ),
        ),
{
    lemma_auto_spec_u32_to_from_le_bytes();
    let a = text_bytes(column);
    let b = u32_bytes(strategy_index(strategy));
    let c = optional_text_bytes(value);
    lemma_holds_split(bytes, pos, a + b, c);
    lemma_holds_split(bytes, pos, a, b);
    lemma_parse_text(bytes, pos, column);
    lemma_parse_u32(bytes, pos + a.len(), strategy_index(strategy));
    lemma_parse_optional_text(bytes, pos + a.len() + 4, value);
}

proof fn lemma_parse_cast(bytes: Seq<u8>, pos: int, column: Seq<char>, dtype: DTypeTag)
    requires
        holds_at(bytes, pos, text_bytes(column) + u32_bytes(dtype_index(dtype))),
        text_fits(column),
    ensures
        parse_cast(bytes, pos) == Ok::<(OperationView, int), DecodeError>(
            (OperationView::CastColumn { column, dtype }, pos + text_bytes(column).len() + 4),
        ),
{
    lemma_auto_spec_u32_to_from_le_bytes();
    let a = text_bytes(column);
    lemma_holds_split(bytes, pos, a, u32_bytes(dtype_index(dtype)));
    lemma_parse_text(bytes, pos, column);
    lemma_parse_u32(bytes, pos + a.len(), dtype_index(dtype));
}

proof fn lemma_parse_datetime(bytes: Seq<u8>, pos: int, column: Seq<char>, format: Seq<char>)
    requires
        holds_at(bytes, pos, text_bytes(column) + text_bytes(format)),
        text_fits(column),
        text_fits(format),
    ensures
        parse_datetime(bytes, pos) == Ok::<(OperationView, int), DecodeError>(
            (
                OperationView::ParseDatetime { column, format },
                pos + text_bytes(column).len() + text_bytes(format).len(),
            ),
        ),
{
    let a = text_bytes(column);
    lemma_holds_split(bytes, pos, a, text_bytes(format));
    lemma_parse_text(bytes, pos, column);
    lemma_parse_text(bytes, pos + a.len(), format);
}

/// The fields of an operation, without the index of its variant.
pub open spec fn fields_bytes(op: OperationView) -> Seq<u8> {
    match op {
        OperationView::Filter { column, op, value } => text_bytes(column) + u32_bytes(
            filter_op_index(op),
        ) + text_bytes(value),
        OperationView::Sort { column, descending } => text_bytes(column) + bool_bytes(descending),
        OperationView::DropColumn(column) => text_bytes(column),
        OperationView::RenameColumn { from, to } => text_bytes(from) + text_bytes(to),
        OperationView::SelectColumns(columns) => text_list_bytes(columns),
        OperationView::Limit(n) => u32_bytes(n),
        OperationView::FillNull { column, strategy, value } => text_bytes(column) + u32_bytes(
            strategy_index(strategy),
        ) + optional_text_bytes(value),
        OperationView::CastColumn { column, dtype } => text_bytes(column) + u32_bytes(
            dtype_index(dtype),
        ),
        OperationView::ParseDatetime { column, format } => text_bytes(column) + text_bytes(format),
    }
}

/// The index of an operation among its variants.
pub open spec fn operation_index(op: OperationView) -> u32 {
    match op {
        OperationView::Filter { .. } => 0,
        OperationView::Sort { .. } => 1,
        OperationView::DropColumn(_) => 2,
        OperationView::RenameColumn { .. } => 3,
        OperationView::SelectColumns(_) => 4,
        OperationView::Limit(_) => 5,
        OperationView::FillNull { .. } => 6,
        OperationView::CastColumn { .. } => 7,
        OperationView::ParseDatetime { .. } => 8,
    }
}

proof fn lemma_parse_operation(bytes: Seq<u8>, pos: int, op: OperationView)
    requires
        holds_at(bytes, pos, operation_bytes(op)),
        operation_fits(op),
    ensures
        parse_operation(bytes, pos) == Ok::<(OperationView, int), DecodeError>(
            (op, pos + operation_bytes(op).len()),
        ),
{
    lemma_auto_spec_u32_to_from_le_bytes();
    lemma_holds_split(bytes, pos, u32_bytes(operation_index(op)), fields_bytes(op));
    lemma_parse_u32(bytes, pos, operation_index(op));
    match op {
        OperationView::Filter { column, op: filter_op, value } => {
            lemma_parse_filter(bytes, pos + 4, column, filter_op, value);
        },
        OperationView::Sort { column, descending } => {
            lemma_parse_sort(bytes, pos + 4, column, descending);
        },
        OperationView::DropColumn(column) => {
            lemma_parse_text(bytes, pos + 4, column);
        },
        OperationView::RenameColumn { from, to } => {
            lemma_parse_rename(bytes, pos + 4, from, to);
        },
        OperationView::SelectColumns(columns) => {
            lemma_parse_text_list(bytes, pos + 4, columns);
        },
        OperationView::Limit(n) => {
            lemma_parse_u32(bytes, pos + 4, n);
        },
        OperationView::FillNull { column, strategy, value } => {
            lemma_parse_fill_null(bytes, pos + 4, column, strategy, value);
        },
        OperationView::CastColumn { column, dtype } => {
            lemma_parse_cast(bytes, pos + 4, column, dtype);
        },
        OperationView::ParseDatetime { column, format } => {
            lemma_parse_datetime(bytes, pos + 4, column, format);
        },
    }
}

/// Appends an operation.
#[inline]
fn put_operation(out: &mut Vec<u8>, op: &Operation)
    ensures
        final(out)@ == old(out)@ + operation_bytes(op@),
        operation_fits(op@),
{
    match op {
        Operation::Filter { column, op: filter_op, value } => {
            put_u32(out, 0);
            put_text(out, column.as_str());
            put_u32(out, filter_op_code(*filter_op));
            put_text(out, value.as_str());
        },
        Operation::Sort { column, descending } => {
            put_u32(out, 1);
            put_text(out, column.as_str());
            put_bool(out, *descending);
        },
        Operation::DropColumn(column) => {
            put_u32(out, 2);
            put_text(out, column.as_str());
        },
        Operation::RenameColumn { from, to } => {
            put_u32(out, 3);
            put_text(out, from.as_str());
            put_text(out, to.as_str());
        },
        Operation::SelectColumns(columns) => {
            put_u32(out, 4);
            put_text_list(out, columns);
        },
        Operation::Limit(n) => {
            put_u32(out, 5);
            put_u32(out, *n);
        },
        Operation::FillNull { column, strategy, value } => {
            put_u32(out, 6);
            put_text(out, column.as_str());
            put_u32(out, strategy_code(*strategy));
            put_optional_text(out, value);
        },
        Operation::CastColumn { column, dtype } => {
            put_u32(out, 7);
            put_text(out, column.as_str());
            put_u32(out, dtype_code(*dtype));
        },
        Operation::ParseDatetime { column, format } => {
            put_u32(out, 8);
            put_text(out, column.as_str());
            put_text(out, format.as_str());
        },
    }
    assert(out@ =~= old(out)@ + operation_bytes(op@));
}

/// Reads the operation at `pos`.
#[inline]
fn take_operation(bytes: &[u8], pos: usize) -> (r: Result<(Operation, usize), DecodeError>)
    ensures
        agrees_operation(r, parse_operation(bytes@, pos as int)),
        r is Ok ==> r.unwrap().1 <= bytes@.len(),
{
    let total = bytes.len();
    let (tag, next) = take_u32(bytes, pos)?;
    if tag == 0 {
        let (column, mid) = take_text(bytes, next)?;
        let (index, late) = take_u32(bytes, mid)?;
        let op = filter_op_of(index)?;
        let (value, end) = take_text(bytes, late)?;
        Ok((Operation::Filter { column, op, value }, end))
    } else if tag == 1 {
        let (column, mid) = take_text(bytes, next)?;
        let (descending, late) = take_bool(bytes, mid)?;
        Ok((Operation::Sort { column, descending }, late))
    } else if tag == 2 {
        let (column, end) = take_text(bytes, next)?;
        Ok((Operation::DropColumn(column), end))
    } else if tag == 3 {
        let (from, mid) = take_text(bytes, next)?;
        let (to, late) = take_text(bytes, mid)?;
        Ok((Operation::RenameColumn { from, to }, late))
    } else if tag == 4 {
        let (columns, end) = take_text_list(bytes, next)?;
        Ok((Operation::SelectColumns(columns), end))
    } else if tag == 5 {
        let (n, end) = take_u32(bytes, next)?;
        Ok((Operation::Limit(n), end))
    } else if tag == 6 {
        let (column, mid) = take_text(bytes, next)?;
        let (index, late) = take_u32(bytes, mid)?;
        let strategy = strategy_of(index)?;
        let (value, end) = take_optional_text(bytes, late)?;
        Ok((Operation::FillNull { column, strategy, value }, end))
    } else if tag == 7 {
        let (column, mid) = take_text(bytes, next)?;
        let (index, late) = take_u32(bytes, mid)?;
        let dtype = dtype_of(index)?;
        Ok((Operation::CastColumn { column, dtype }, late))
    } else if tag == 8 {
        let (column, mid) = take_text(bytes, next)?;
        let (format, late) = take_text(bytes, mid)?;
        Ok((Operation::ParseDatetime { column, format }, late))
    } else {
        Err(DecodeError::UnknownVariant(tag))
    }
}

/// The operations of a log, one after the other.
pub open spec fn operations_bytes(ops: Seq<OperationView>) -> Seq<u8>
    decreases ops.len(),
{
    if ops.len() == 0 {
        Seq::empty()
    } else {
        operation_bytes(ops[0]) + operations_bytes(ops.skip(1))
    }
}

/// A log: the number of its operations, then the operations.
pub open spec fn log_bytes(ops: Seq<OperationView>) -> Seq<u8> {
    u64_bytes(ops.len() as u64) + operations_bytes(ops)
}

/// A source: its path, the index of its format, and the names of its
/// numeric text columns.
pub open spec fn source_bytes(source: DataSourceView) -> Seq<u8> {
    text_bytes(source.path) + u32_bytes(source_type_index(source.source_type)) + text_list_bytes(
        source.auto_numeric_cols,
    )
}

/// An optional source: one byte that says whether it is there, then the
/// source.
pub open spec fn optional_source_bytes(source: Option<DataSourceView>) -> Seq<u8> {
    match source {
        None => seq![0u8],
        Some(source) => seq![1u8] + source_bytes(source),
    }
}

/// A state as it is kept: the optional source, then the log.
pub open spec fn state_bytes(state: PersistentStateView) -> Seq<u8> {
    optional_source_bytes(state.source) + log_bytes(state.operations)
}

/// Whether a log can be written.
pub open spec fn log_fits(ops: Seq<OperationView>) -> bool {
    &&& ops.len() <= u64::MAX
    &&& forall|i: int| 0 <= i < ops.len() ==> operation_fits(#[trigger] ops[i])
}

/// Whether a source can be written.
pub open spec fn source_fits(source: DataSourceView) -> bool {
    text_fits(source.path) && text_list_fits(source.auto_numeric_cols)
}

/// Whether a state can be written: every string and every list in it is
/// short enough for its length to be written in 64 bits.
pub open spec fn state_fits(state: PersistentStateView) -> bool {
    &&& state.source is Some ==> source_fits(state.source.unwrap())
    &&& log_fits(state.operations)
}

/// The `n` operations that stand one after the other from `pos` on, and
/// the position after them.
pub open spec fn parse_operations(bytes: Seq<u8>, pos: int, n: nat) -> Result<
    (Seq<OperationView>, int),
    DecodeError,
>
    decreases n,
{
    if n == 0 {
        Ok((Seq::empty(), pos))
    } else {
        match parse_operation(bytes, pos) {
            Err(e) => Err(e),
            Ok((first, next)) => match parse_operations(bytes, next, (n - 1) as nat) {
                Err(e) => Err(e),
                Ok((rest, end)) => Ok((seq![first] + rest, end)),
            },
        }
    }
}

/// The log at `pos`, and the position after it.
pub open spec fn parse_log(bytes: Seq<u8>, pos: int) -> Result<
    (Seq<OperationView>, int),
    DecodeError,
> {
    match parse_u64(bytes, pos) {
        Err(e) => Err(e),
        Ok((n, start)) => parse_operations(bytes, start, n as nat),
    }
}

/// The source at `pos`, and the position after it.
pub open spec fn parse_source(bytes: Seq<u8>, pos: int) -> Result<(DataSourceView, int), DecodeError> {
    match parse_text(bytes, pos) {
        Err(e) => Err(e),
        Ok((path, mid)) => match parse_u32(bytes, mid) {
            Err(e) => Err(e),
            Ok((index, late)) => match source_type_at(index) {
                None => Err(DecodeError::UnknownVariant(index)),
                Some(source_type) => match parse_text_list(bytes, late) {
                    Err(e) => Err(e),
                    Ok((auto_numeric_cols, end)) => Ok(
                        (DataSourceView { path, source_type, auto_numeric_cols }, end),
                    ),
                },
            },
        },
    }
}

/// The optional source at `pos`, and the position after it.
pub open spec fn parse_optional_source(bytes: Seq<u8>, pos: int) -> Result<
    (Option<DataSourceView>, int),
    DecodeError,
> {
    match parse_u8(bytes, pos) {
        Err(e) => Err(e),
        Ok((tag, next)) => if tag == 0 {
            Ok((None, next))
        } else if tag == 1 {
            match parse_source(bytes, next) {
                Err(e) => Err(e),
                Ok((source, end)) => Ok((Some(source), end)),
            }
        } else {
            Err(DecodeError::InvalidTag(tag))
        },
    }
}

/// The state that bytes hold from their start on, or the reason why they
/// hold none. Bytes after the state are not read.
pub open spec fn parse_state(bytes: Seq<u8>) -> Result<PersistentStateView, DecodeError> {
    match parse_optional_source(bytes, 0) {
        Err(e) => Err(e),
        Ok((source, next)) => match parse_log(bytes, next) {
            Err(e) => Err(e),
            Ok((operations, _)) => Ok(PersistentStateView { source, operations }),
        },
    }
}

/// Whether a reading of a log agrees with what the bytes hold.
pub open spec fn agrees_log(
    r: Result<(Vec<Operation>, usize), DecodeError>,
    parsed: Result<(Seq<OperationView>, int), DecodeError>,
) -> bool {
    match (r, parsed) {
        (Ok((value, next)), Ok((expected, end))) => log_view(value@) == expected && next == end,
        (Err(e), Err(f)) => e == f,
        _ => false,
    }
}

/// Whether a reading of an optional source agrees with what the bytes hold.
pub open spec fn agrees_source(
    r: Result<(Option<DataSource>, usize), DecodeError>,
    parsed: Result<(Option<DataSourceView>, int), DecodeError>,
) -> bool {
    match (r, parsed) {
        (Ok((value, next)), Ok((expected, end))) => optional_source(value) == expected && next
            == end,
        (Err(e), Err(f)) => e == f,
        _ => false,
    }
}

/// Whether a reading of a state agrees with what the bytes hold.
pub open spec fn agrees_state(
    r: Result<PersistentState, DecodeError>,
    parsed: Result<PersistentStateView, DecodeError>,
) -> bool {
    match (r, parsed) {
        (Ok(value), Ok(expected)) => value@ == expected,
        (Err(e), Err(f)) => e == f,
        _ => false,
    }
}

/// What is read when `rest` follows the operations already read.
pub open spec fn extended_log(
    read: Seq<OperationView>,
    rest: Result<(Seq<OperationView>, int), DecodeError>,
) -> Result<(Seq<OperationView>, int), DecodeError> {
    match rest {
        Ok((ops, end)) => Ok((read + ops, end)),
        Err(e) => Err(e),
    }
}

proof fn lemma_operations_bytes_push(ops: Seq<OperationView>, last: OperationView)
    ensures
        operations_bytes(ops.push(last)) == operations_bytes(ops) + operation_bytes(last),
    decreases ops.len(),
{
    if ops.len() == 0 {
        let one = ops.push(last);
        assert(one.skip(1) =~= Seq::<OperationView>::empty());
        assert(one[0] == last);
        assert(operations_bytes(one.skip(1)) =~= Seq::<u8>::empty());
        assert(operations_bytes(one) =~= operation_bytes(last));
        assert(operations_bytes(ops) + operation_bytes(last) =~= operation_bytes(last));
    } else {
        assert(ops.push(last).skip(1) =~= ops.skip(1).push(last));
        lemma_operations_bytes_push(ops.skip(1), last);
        assert(operations_bytes(ops.push(last)) =~= operations_bytes(ops) + operation_bytes(last));
    }
}

proof fn lemma_parse_operations(bytes: Seq<u8>, pos: int, ops: Seq<OperationView>)
    requires
        holds_at(bytes, pos, operations_bytes(ops)),
        forall|i: int| 0 <= i < ops.len() ==> operation_fits(#[trigger] ops[i]),
    ensures
        parse_operations(bytes, pos, ops.len()) == Ok::<(Seq<OperationView>, int), DecodeError>(
            (ops, pos + operations_bytes(ops).len()),
        ),
    decreases ops.len(),
{
    if ops.len() == 0 {
        assert(ops =~= Seq::<OperationView>::empty());
    } else {
        let rest = ops.skip(1);
        lemma_holds_split(bytes, pos, operation_bytes(ops[0]), operations_bytes(rest));
        lemma_parse_operation(bytes, pos, ops[0]);
        assert forall|i: int| 0 <= i < rest.len() implies operation_fits(#[trigger] rest[i]) by {
            assert(rest[i] == ops[i + 1]);
        }
        lemma_parse_operations(bytes, pos + operation_bytes(ops[0]).len(), rest);
        assert(seq![ops[0]] + rest =~= ops);
    }
}

proof fn lemma_parse_log(bytes: Seq<u8>, pos: int, ops: Seq<OperationView>)
    requires
        holds_at(bytes, pos, log_bytes(ops)),
        log_fits(ops),
    ensures
        parse_log(bytes, pos) == Ok::<(Seq<OperationView>, int), DecodeError>(
            (ops, pos + log_bytes(ops).len()),
        ),
{
    lemma_auto_spec_u64_to_from_le_bytes();
    lemma_holds_split(bytes, pos, u64_bytes(ops.len() as u64), operations_bytes(ops));
    lemma_parse_u64(bytes, pos, ops.len() as u64);
    lemma_parse_operations(bytes, pos + 8, ops);
}

proof fn lemma_parse_source(bytes: Seq<u8>, pos: int, source: DataSourceView)
    requires
        holds_at(bytes, pos, source_bytes(source)),
        source_fits(source),
    ensures
        parse_source(bytes, pos) == Ok::<(DataSourceView, int), DecodeError>(
            (source, pos + source_bytes(source).len()),
        ),
{
    lemma_auto_spec_u32_to_from_le_bytes();
    let a = text_bytes(source.path);
    let b = u32_bytes(source_type_index(source.source_type));
    let c = text_list_bytes(source.auto_numeric_cols);
    lemma_holds_split(bytes, pos, a + b, c);
    lemma_holds_split(bytes, pos, a, b);
    lemma_parse_text(bytes, pos, source.path);
    lemma_parse_u32(bytes, pos + a.len(), source_type_index(source.source_type));
    lemma_parse_text_list(bytes, pos + a.len() + 4, source.auto_numeric_cols);
}

proof fn lemma_parse_optional_source(bytes: Seq<u8>, pos: int, source: Option<DataSourceView>)
    requires
        holds_at(bytes, pos, optional_source_bytes(source)),
        source is Some ==> source_fits(source.unwrap()),
    ensures
        parse_optional_source(bytes, pos) == Ok::<(Option<DataSourceView>, int), DecodeError>(
            (source, pos + optional_source_bytes(source).len()),
        ),
{
    assert(bytes[pos] == bytes.subrange(pos, pos + optional_source_bytes(source).len())[0]);
    match source {
        None => {},
        Some(inner) => {
            lemma_holds_split(bytes, pos, seq![1u8], source_bytes(inner));
            lemma_parse_source(bytes, pos + 1, inner);
        },
    }
}

/// A state that was written is read back as it was, whatever follows it:
/// the same source, and the same operations in the same order.
pub proof fn lemma_written_state_is_read_back(state: PersistentStateView, after: Seq<u8>)
    requires
        state_fits(state),
    ensures
        parse_state(state_bytes(state) + after) == Ok::<PersistentStateView, DecodeError>(state),
{
    let bytes = state_bytes(state) + after;
    let a = optional_source_bytes(state.source);
    let b = log_bytes(state.operations);
    assert(bytes.subrange(0, (a + b).len() as int) =~= a + b);
    lemma_holds_split(bytes, 0, a, b);
    lemma_parse_optional_source(bytes, 0, state.source);
    lemma_parse_log(bytes, a.len() as int, state.operations);
}

/// Appends a log.
#[inline]
fn put_log(out: &mut Vec<u8>, ops: &Vec<Operation>)
    ensures
        final(out)@ == old(out)@ + log_bytes(log_view(ops@)),
        log_fits(log_view(ops@)),
{
    put_u64(out, ops.len() as u64);
    let ghost start = out@;
    let mut i: usize = 0;
    assert(operations_bytes(log_view(ops@).take(0)) =~= Seq::<u8>::empty());
    while i < ops.len()
        invariant
            i <= ops.len(),
            out@ == start + operations_bytes(log_view(ops@).take(i as int)),
            forall|k: int| 0 <= k < i ==> operation_fits(#[trigger] log_view(ops@)[k]),
        decreases ops.len() - i,
    {
        put_operation(out, &ops[i]);
        proof {
            let all = log_view(ops@);
            lemma_operations_bytes_push(all.take(i as int), all[i as int]);
            assert(all.take(i as int).push(all[i as int]) =~= all.take(i + 1));
            assert(out@ =~= start + operations_bytes(all.take(i + 1)));
        }
        i = i + 1;
    }
    assert(log_view(ops@).take(i as int) =~= log_view(ops@));
    assert(out@ =~= old(out)@ + log_bytes(log_view(ops@)));
}

/// Appends an optional source.
#[inline]
fn put_optional_source(out: &mut Vec<u8>, source: &Option<DataSource>)
    ensures
        final(out)@ == old(out)@ + optional_source_bytes(optional_source(*source)),
        source is Some ==> source_fits(source.unwrap()@),
{
    match source {
        None => {
            out.push(0u8);
            assert(out@ =~= old(out)@ + optional_source_bytes(None));
        },
        Some(inner) => {
            out.push(1u8);
            put_text(out, inner.path.as_str());
            put_u32(out, source_type_code(inner.source_type));
            put_text_list(out, &inner.auto_numeric_cols);
            assert(out@ =~= old(out)@ + optional_source_bytes(Some(inner@)));
        },
    }
}

/// Reads the log at `pos`.
#[inline]
fn take_log(bytes: &[u8], pos: usize) -> (r: Result<(Vec<Operation>, usize), DecodeError>)
    ensures
        agrees_log(r, parse_log(bytes@, pos as int)),
{
    let total = bytes.len();
    let (n, start) = take_u64(bytes, pos)?;
    let mut ops: Vec<Operation> = Vec::new();
    let mut at: usize = start;
    let mut i: u64 = 0;
    proof {
        match parse_operations(bytes@, start as int, n as nat) {
            Ok((rest, end)) => {
                assert(log_view(ops@) + rest =~= rest);
            },
            Err(_) => {},
        }
    }
    while i < n
        invariant
            i <= n,
            at <= bytes@.len(),
            parse_log(bytes@, pos as int) == extended_log(
                log_view(ops@),
                parse_operations(bytes@, at as int, (n - i) as nat),
            ),
        decreases n - i,
    {
        let ghost read = log_view(ops@);
        let (op, next) = match take_operation(bytes, at) {
            Ok(found) => found,
            Err(e) => {
                return Err(e);
            },
        };
        let ghost first = op@;
        ops.push(op);
        proof {
            assert(log_view(ops@) =~= read.push(first));
            match parse_operations(bytes@, next as int, (n - i - 1) as nat) {
                Ok((rest, end)) => {
                    assert(read + (seq![first] + rest) =~= read.push(first) + rest);
                },
                Err(_) => {},
            }
        }
        at = next;
        i = i + 1;
    }
    assert(log_view(ops@) + Seq::<OperationView>::empty() =~= log_view(ops@));
    Ok((ops, at))
}

/// Reads the optional source at `pos`.
#[inline]
fn take_optional_source(bytes: &[u8], pos: usize) -> (r: Result<
    (Option<DataSource>, usize),
    DecodeError,
>)
    ensures
        agrees_source(r, parse_optional_source(bytes@, pos as int)),
        r is Ok ==> r.unwrap().1 <= bytes@.len(),
{
    let total = bytes.len();
    let (tag, next) = take_u8(bytes, pos)?;
    if tag == 0 {
        Ok((None, next))
    } else if tag == 1 {
        let (path, mid) = take_text(bytes, next)?;
        let (index, late) = take_u32(bytes, mid)?;
        let source_type = source_type_of(index)?;
        let (auto_numeric_cols, end) = take_text_list(bytes, late)?;
        Ok((Some(DataSource { path, source_type, auto_numeric_cols }), end))
    } else {
        Err(DecodeError::InvalidTag(tag))
    }
}

impl PersistentState {
    /// The state as it is kept in a file. Reading the bytes back gives the
    /// state as it is: the same source, the same operations in the same
    /// order.
    #[inline]
    pub fn to_bytes(&self) -> (r: Vec<u8>)
        ensures
            r@ == state_bytes(self@),
            parse_state(r@) == Ok::<PersistentStateView, DecodeError>(self@),
    {
        let mut out: Vec<u8> = Vec::new();
        put_optional_source(&mut out, &self.source);
        put_log(&mut out, &self.operations);
        proof {
            assert(out@ =~= state_bytes(self@));
            lemma_written_state_is_read_back(self@, Seq::empty());
            assert(state_bytes(self@) + Seq::<u8>::empty() =~= state_bytes(self@));
        }
        out
    }

    /// The state that the start of `bytes` holds, or the reason why it
    /// holds none: the bytes end too early, a string is not UTF-8, or a
    /// tag or a variant index is out of range. Bytes after the state are
    /// not read.
    #[inline]
    pub fn from_bytes(bytes: &[u8]) -> (r: Result<PersistentState, DecodeError>)
        ensures
            agrees_state(r, parse_state(bytes@)),
    {
        let (source, next) = take_optional_source(bytes, 0)?;
        let (operations, _) = take_log(bytes, next)?;
        Ok(PersistentState { source, operations })
    }
}

} // verus!
