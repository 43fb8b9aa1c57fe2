//! The columnar result decoder: turns the opaque byte payload carried in a
//! response into in-memory record batches. The byte stream is a
//! self-describing streaming columnar format; decoding it is delegated to
//! the columnar array library and is a deterministic function of the bytes
//! alone, so its outcome is named rather than written out.
use crate::error::{DeserializationError, SparkError};
use crate::protocol::ArrowBatch;
use arrow_array::Array;
use vstd::prelude::*;

verus! {

/// One in-memory record batch of the columnar array library, carried
/// opaquely: the session layer hands batches to the caller and never looks
/// inside them.
#[verifier::external_body]
pub struct RecordBatch {
    inner: arrow_array::RecordBatch,
}

impl RecordBatch {
    /// Relies on arrow_array's `RecordBatch::num_rows`.
    #[verifier::external_body]
    pub fn num_rows(&self) -> usize {
        self.inner.num_rows()
    }

    /// Relies on arrow_array's `RecordBatch::num_columns`.
    #[verifier::external_body]
    pub fn num_columns(&self) -> usize {
        self.inner.num_columns()
    }

    /// Relies on arrow_array's column accessor and `StringArray` downcast:
    /// the values of one string-typed column, in row order, or nothing if
    /// the column is absent or not string-typed.
    #[verifier::external_body]
    pub fn column_strings(&self, col: usize) -> Option<Vec<String>> {
        let column = self.inner.columns().get(col)?;
        let strings = column.as_any().downcast_ref::<arrow_array::StringArray>()?;
        Some((0..strings.len()).map(|i| strings.value(i).to_string()).collect())
    }

    /// Relies on arrow_array's column accessor and `Int64Array` downcast:
    /// the values of one 64-bit integer column, in row order, or nothing if
    /// the column is absent or not of that type.
    #[verifier::external_body]
    pub fn column_i64(&self, col: usize) -> Option<Vec<i64>> {
        let column = self.inner.columns().get(col)?;
        let ints = column.as_any().downcast_ref::<arrow_array::Int64Array>()?;
        Some((0..ints.len()).map(|i| ints.value(i)).collect())
    }
}

/// How many record batches the given bytes decode to, when they form a
/// valid streaming columnar payload; the same bytes always decode the same
/// way, and invalid bytes decode to nothing.
pub uninterp spec fn ipc_stream_batch_count(bytes: Seq<u8>) -> Option<nat>;

/// Relies on arrow_ipc's `StreamReader`: reading all record batches of a
/// streaming columnar payload succeeds exactly on valid streams, reads the
/// bytes front to back once, and is deterministic in the bytes alone.
#[verifier::external_body]
fn read_ipc_stream(data: &Vec<u8>) -> (r: Result<Vec<RecordBatch>, String>)
    ensures
        r is Ok <==> ipc_stream_batch_count(data@) is Some,
        r matches Ok(batches) ==> ipc_stream_batch_count(data@) == Some(batches@.len() as nat),
{
    let reader = match arrow_ipc::reader::StreamReader::try_new(data.as_slice(), None) {
        Ok(reader) => reader,
        Err(e) => return Err(e.to_string()),
    };
    let mut rows = Vec::new();
    for record in reader {
        match record {
            Ok(batch) => rows.push(RecordBatch { inner: batch }),
            Err(e) => return Err(e.to_string()),
        }
    }
    Ok(rows)
}

/// Adapter that hands a batch's payload bytes to the stream decoder.
pub struct ArrowBatchReader {
    pub batch: ArrowBatch,
}

/// Decodes the payload of one response batch into the in-memory record
/// batches it carries, in their original order. Succeeds exactly when the
/// payload is a valid streaming columnar byte stream; a truncated or
/// corrupt stream yields `DeserializationFailed` carrying the decode
/// diagnostic, never a partial result.
pub fn deserialize(batch: ArrowBatch) -> (r: Result<Vec<RecordBatch>, SparkError>)
    ensures
        r is Ok <==> ipc_stream_batch_count(batch.data@) is Some,
        r matches Ok(batches) ==> ipc_stream_batch_count(batch.data@) == Some(
            batches@.len() as nat,
        ),
        r matches Err(e) ==> e matches SparkError::DeserializationFailed(_),
{
    let wrapper = ArrowBatchReader { batch };
    match read_ipc_stream(&wrapper.batch.data) {
        Ok(rows) => Ok(rows),
        Err(detail) => Err(SparkError::DeserializationFailed(DeserializationError(detail))),
    }
}

} // verus!
