//! Arrow IPC encoding and decoding for data-plane payloads.
//!
//! Each LAIC Arrow message carries exactly **one** record batch, written as
//! an Arrow IPC stream. The decoder reads the stream's first and second
//! items, each a batch, a read failure (its error text) or the end of the
//! stream; the payload is valid only when the first is a batch and the
//! second is the end.
use vstd::prelude::*;
use vstd::string::StringExecFns;

use arrow_array::RecordBatch;
use arrow_ipc::reader::StreamReader;
use arrow_ipc::writer::StreamWriter;
use std::io::Cursor;

use crate::error::{CodecError, LaicError};

verus! {

#[verifier::external_type_specification]
#[verifier::external_body]
#[verifier::reject_recursive_types(R)]
pub struct ExStreamReader<R>(StreamReader<R>);

#[verifier::external_type_specification]
#[verifier::external_body]
#[verifier::reject_recursive_types(W)]
pub struct ExStreamWriter<W>(StreamWriter<W>);

#[verifier::external_type_specification]
#[verifier::external_body]
#[verifier::reject_recursive_types(T)]
pub struct ExCursor<T>(Cursor<T>);

/// One Arrow record batch, carried through the library unopened: its
/// columns are Arrow's business, and `inner` hands the batch in and out.
#[verifier::external_body]
pub struct Batch {
    pub inner: RecordBatch,
}

/// The bytes an Arrow stream reader was opened on.
pub uninterp spec fn arrow_reader_source(r: StreamReader<Cursor<Vec<u8>>>) -> Seq<u8>;

/// How many items have been asked of an Arrow stream reader.
pub uninterp spec fn arrow_reader_taken(r: StreamReader<Cursor<Vec<u8>>>) -> nat;

/// Why `StreamReader::try_new` refuses to open a stream on `bytes` (the
/// text of its error), or `None` when it opens it.
pub uninterp spec fn arrow_open_error(bytes: Seq<u8>) -> Option<Seq<char>>;

/// What the `index`-th call (from 0) of `next` yields on a stream reader
/// opened on `bytes`: the end (`None`), a batch (`Some(Ok(()))`) or a read
/// failure with its error text.
pub uninterp spec fn arrow_stream_item(bytes: Seq<u8>, index: nat) -> Option<Result<(), Seq<char>>>;

/// The batch that the `index`-th call of `next` yields, when it yields one,
/// on a stream reader opened on `bytes`.
pub uninterp spec fn arrow_stream_batch(bytes: Seq<u8>, index: nat) -> Batch;

/// Opens an Arrow IPC stream reader on a copy of `bytes` with
/// `StreamReader::try_new` (no projection), turning its error into text.
/// Trusted: that opening depends on the bytes alone (it reads the schema
/// message), and that the reader starts at the first item of those bytes.
#[verifier::external_body]
fn open_stream_reader(bytes: &[u8]) -> (r: Result<StreamReader<Cursor<Vec<u8>>>, String>)
    ensures
        r is Ok <==> arrow_open_error(bytes@) is None,
        r matches Ok(s) ==> arrow_reader_source(s) == bytes@ && arrow_reader_taken(s) == 0,
        r matches Err(d) ==> arrow_open_error(bytes@) == Some(d@),
{
    StreamReader::try_new(Cursor::new(bytes.to_vec()), None).map_err(|e| e.to_string())
}

/// The next item of an Arrow stream reader (`Iterator::next`), a batch
/// handed out as a [`Batch`] and a failure as its error text. Trusted: that
/// the item is a function of the stream's bytes and of how many items were
/// taken before it, and so is the batch it yields, column for column.
#[verifier::external_body]
fn next_stream_item(s: &mut StreamReader<Cursor<Vec<u8>>>) -> (r: Option<Result<Batch, String>>)
    ensures
        arrow_reader_source(*final(s)) == arrow_reader_source(*old(s)),
        arrow_reader_taken(*final(s)) == arrow_reader_taken(*old(s)) + 1,
        ({
            let item = arrow_stream_item(arrow_reader_source(*old(s)), arrow_reader_taken(*old(s)));
            &&& r is None <==> item is None
            &&& (r matches Some(Ok(_))) <==> item == Some(Ok::<(), Seq<char>>(()))
            &&& r matches Some(Err(d)) ==> item == Some(Err::<(), Seq<char>>(d@))
            &&& r matches Some(Ok(b)) ==> b == arrow_stream_batch(
                arrow_reader_source(*old(s)),
                arrow_reader_taken(*old(s)),
            )
        }),
{
    s.next().map(|item| item.map(|b| Batch { inner: b }).map_err(|e| e.to_string()))
}

/// The bytes an Arrow stream writer has written into its buffer so far.
pub uninterp spec fn arrow_writer_output(w: StreamWriter<Vec<u8>>) -> Seq<u8>;

/// Whether an Arrow stream writer was made with the default write options
/// (metadata version 5, no legacy format) and has not been finished.
pub uninterp spec fn arrow_writer_open(w: StreamWriter<Vec<u8>>) -> bool;

/// The continuation marker that opens every message of an Arrow IPC stream.
pub open spec fn continuation_marker() -> Seq<u8> {
    seq![0xFFu8, 0xFFu8, 0xFFu8, 0xFFu8]
}

/// The end-of-stream marker: a continuation marker and a zero length.
pub open spec fn end_of_stream_marker() -> Seq<u8> {
    continuation_marker() + seq![0u8, 0u8, 0u8, 0u8]
}

/// The batch whose schema an Arrow stream writer was just opened on, with
/// nothing written since; `None` for any other writer.
pub uninterp spec fn arrow_writer_fresh(w: StreamWriter<Vec<u8>>) -> Option<Batch>;

/// What `StreamWriter::try_new` writes for the schema of `b` (its schema
/// message, with default options), or the text of its error.
pub uninterp spec fn arrow_schema_message(b: Batch) -> Result<Seq<u8>, Seq<char>>;

/// What `StreamWriter::write` appends for `b` on a writer just opened on
/// the schema of `b` (its dictionary and record batch messages), or the
/// text of its error.
pub uninterp spec fn arrow_batch_message(b: Batch) -> Result<Seq<u8>, Seq<char>>;

/// The Arrow IPC stream of one batch, or the text of the writer's error:
/// the schema message, the batch's messages, the end-of-stream marker.
pub open spec fn arrow_encoding(b: Batch) -> Result<Seq<u8>, Seq<char>> {
    match arrow_schema_message(b) {
        Err(d) => Err(d),
        Ok(schema) => match arrow_batch_message(b) {
            Err(d) => Err(d),
            Ok(body) => Ok(schema + body + end_of_stream_marker()),
        },
    }
}

/// Starts an Arrow IPC stream in a fresh buffer with
/// `StreamWriter::try_new` (default options), writing the schema message of
/// `batch`; its error turned into text. Trusted: that the outcome depends
/// on the batch alone (its schema), and that a writer it returns is open,
/// fresh for `batch`, and holds just that schema message, which begins with
/// the continuation marker and its 4-byte length.
#[verifier::external_body]
fn open_stream_writer(batch: &Batch) -> (r: Result<StreamWriter<Vec<u8>>, String>)
    ensures
        r is Ok <==> arrow_schema_message(*batch) is Ok,
        r matches Err(d) ==> (arrow_schema_message(*batch) matches Err(x) && x == d@),
        r matches Ok(w) ==> {
            &&& arrow_writer_open(w)
            &&& arrow_writer_fresh(w) == Some(*batch)
            &&& arrow_schema_message(*batch) matches Ok(m) && m == arrow_writer_output(w)
            &&& arrow_writer_output(w).len() >= 8
            &&& arrow_writer_output(w).subrange(0, 4) == continuation_marker()
        },
{
    StreamWriter::try_new(Vec::new(), &batch.inner.schema()).map_err(|e| e.to_string())
}

/// Appends `batch` to an Arrow IPC stream with `StreamWriter::write`, its
/// error turned into text. Trusted: that it only appends to the buffer and
/// leaves an open writer open, whether it fails or not; and that on a
/// writer just opened on the schema of `batch` its outcome depends on the
/// batch alone. Into a `Vec` no write fails for want of room.
#[verifier::external_body]
fn write_stream_batch(w: &mut StreamWriter<Vec<u8>>, batch: &Batch) -> (r: Result<(), String>)
    ensures
        arrow_writer_open(*old(w)) ==> arrow_writer_open(*final(w)),
        arrow_writer_output(*old(w)).len() <= arrow_writer_output(*final(w)).len(),
        arrow_writer_output(*final(w)).subrange(0, arrow_writer_output(*old(w)).len() as int)
            == arrow_writer_output(*old(w)),
        arrow_writer_fresh(*old(w)) == Some(*batch) ==> {
            &&& r is Ok <==> arrow_batch_message(*batch) is Ok
            &&& r matches Err(d) ==> (arrow_batch_message(*batch) matches Err(x) && x == d@)
            &&& r is Ok ==> (arrow_batch_message(*batch) matches Ok(m) && m
                == arrow_writer_output(*final(w)).subrange(
                arrow_writer_output(*old(w)).len() as int,
                arrow_writer_output(*final(w)).len() as int,
            ))
        },
{
    w.write(&batch.inner).map_err(|e| e.to_string())
}

/// Ends an Arrow IPC stream and takes its bytes with
/// `StreamWriter::into_inner`; its error turned into text. Trusted: that on
/// an open writer it appends the end-of-stream marker (`finish`, whose
/// writes into a `Vec` cannot fail) and hands back the whole buffer.
#[verifier::external_body]
fn finish_stream(w: StreamWriter<Vec<u8>>) -> (r: Result<Vec<u8>, String>)
    ensures
        arrow_writer_open(w) ==> r is Ok,
        r matches Ok(b) ==> (arrow_writer_open(w) ==> b@ == arrow_writer_output(w)
            + end_of_stream_marker()),
{
    w.into_inner().map_err(|e| e.to_string())
}

/// `e` is an Arrow decode failure with this detail text.
pub open spec fn arrow_decode_with(e: LaicError, text: Seq<char>) -> bool {
    e matches LaicError::Codec(CodecError::ArrowDecode { detail }) && detail@ == text
}

/// `e` is an Arrow encode failure with this detail text.
pub open spec fn arrow_encode_with(e: LaicError, text: Seq<char>) -> bool {
    e matches LaicError::Codec(CodecError::ArrowEncode { detail }) && detail@ == text
}

/// An Arrow encode failure with the library's error text.
pub fn arrow_encode_error(detail: String) -> (r: LaicError)
    ensures
        arrow_encode_with(r, detail@),
{
    LaicError::Codec(CodecError::ArrowEncode { detail })
}

/// An Arrow decode failure with the library's error text.
pub fn arrow_decode_error(detail: String) -> (r: LaicError)
    ensures
        arrow_decode_with(r, detail@),
{
    LaicError::Codec(CodecError::ArrowDecode { detail })
}

/// The first batch of a stream, from the reader's first item: an empty
/// stream and a read failure are both `ArrowDecode` failures.
pub fn first_batch<B>(first: Option<Result<B, String>>) -> (r: Result<B, LaicError>)
    ensures
        first is None ==> (r matches Err(e) && arrow_decode_with(
            e,
            "expected 1 record batch, got 0"@,
        )),
        first matches Some(Err(d)) ==> (r matches Err(e) && arrow_decode_with(e, d@)),
        first matches Some(Ok(b)) ==> r == Ok::<B, LaicError>(b),
{
    match first {
        None => Err(arrow_decode_error(String::from_str("expected 1 record batch, got 0"))),
        Some(Err(d)) => Err(arrow_decode_error(d)),
        Some(Ok(b)) => Ok(b),
    }
}

/// The only batch of a stream, from its first batch and the reader's second
/// item, which must be the end. A second batch is a cardinality failure; a
/// read failure stays a read failure, never masked as cardinality.
pub fn only_batch<B>(first: B, second: Option<Result<B, String>>) -> (r: Result<B, LaicError>)
    ensures
        second is None ==> r == Ok::<B, LaicError>(first),
        second matches Some(Ok(_)) ==> (r matches Err(e) && arrow_decode_with(
            e,
            "expected 1 record batch, got >1"@,
        )),
        second matches Some(Err(d)) ==> (r matches Err(e) && arrow_decode_with(e, d@)),
{
    match second {
        None => Ok(first),
        Some(Ok(_)) => Err(arrow_decode_error(String::from_str("expected 1 record batch, got >1"))),
        Some(Err(d)) => Err(arrow_decode_error(d)),
    }
}

/// Encode one record batch as Arrow IPC stream bytes: the schema message,
/// the batch's messages, the end-of-stream marker. A failure of the Arrow
/// writer is an `ArrowEncode` failure carrying the writer's error text.
pub fn encode_record_batch(batch: &Batch) -> (r: Result<Vec<u8>, LaicError>)
    ensures
        r is Ok <==> arrow_encoding(*batch) is Ok,
        r matches Ok(v) ==> arrow_encoding(*batch) == Ok::<Seq<u8>, Seq<char>>(v@),
        r matches Err(e) ==> (arrow_encoding(*batch) matches Err(d) && arrow_encode_with(e, d)),
        r matches Ok(b) ==> {
            &&& b@.len() >= 16
            &&& b@.subrange(0, 4) == continuation_marker()
            &&& b@.subrange(b@.len() - 8, b@.len() as int) == end_of_stream_marker()
        },
{
    let mut writer = match open_stream_writer(batch) {
        Ok(w) => w,
        Err(d) => return Err(arrow_encode_error(d)),
    };
    let ghost opened = arrow_writer_output(writer);
    match write_stream_batch(&mut writer, batch) {
        Ok(()) => {},
        Err(d) => return Err(arrow_encode_error(d)),
    }
    let ghost written = arrow_writer_output(writer);
    match finish_stream(writer) {
        Ok(bytes) => {
            proof {
                assert(written.subrange(0, 4) =~= opened.subrange(0, 4)) by {
                    assert(written.subrange(0, opened.len() as int) == opened);
                    assert(written.subrange(0, 4) =~= written.subrange(0, opened.len() as int).subrange(0, 4));
                }
                assert(written =~= written.subrange(0, opened.len() as int) + written.subrange(
                    opened.len() as int,
                    written.len() as int,
                ));
                assert(bytes@.subrange(0, 4) =~= written.subrange(0, 4));
                assert(bytes@.subrange(bytes@.len() - 8, bytes@.len() as int) =~= end_of_stream_marker());
            }
            Ok(bytes)
        },
        Err(d) => Err(arrow_encode_error(d)),
    }
}

/// Decode Arrow IPC stream bytes into their single record batch: the batch
/// the stream's first item holds. A stream that does not open, whose first
/// item is missing or unreadable, or whose second item is anything but the
/// end, is an `ArrowDecode` failure; a read failure is reported as such,
/// never as a cardinality failure.
pub fn decode_record_batch(bytes: &[u8]) -> (r: Result<Batch, LaicError>)
    ensures
        arrow_open_error(bytes@) matches Some(d) ==> (r matches Err(e) && arrow_decode_with(e, d)),
        arrow_open_error(bytes@) is None ==> match arrow_stream_item(bytes@, 0) {
            None => r matches Err(e) && arrow_decode_with(e, "expected 1 record batch, got 0"@),
            Some(Err(d)) => r matches Err(e) && arrow_decode_with(e, d),
            Some(Ok(())) => match arrow_stream_item(bytes@, 1) {
                None => r is Ok,
                Some(Ok(())) => r matches Err(e) && arrow_decode_with(
                    e,
                    "expected 1 record batch, got >1"@,
                ),
                Some(Err(d)) => r matches Err(e) && arrow_decode_with(e, d),
            },
        },
        r matches Ok(b) ==> b == arrow_stream_batch(bytes@, 0),
{
    let mut reader = match open_stream_reader(bytes) {
        Ok(s) => s,
        Err(d) => return Err(arrow_decode_error(d)),
    };
    let first = match first_batch(next_stream_item(&mut reader)) {
        Ok(b) => b,
        Err(e) => return Err(e),
    };
    only_batch(first, next_stream_item(&mut reader))
}

} // verus!
