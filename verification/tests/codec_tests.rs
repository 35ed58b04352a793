//! Arrow IPC payloads: encoding, decoding and the one-batch rule.

use std::sync::Arc;

use arrow_array::{Float32Array, Int32Array, RecordBatch};
use arrow_ipc::writer::StreamWriter;
use arrow_schema::{DataType, Field, Schema};
use laic::codec::arrow::{
    arrow_decode_error, arrow_encode_error, decode_record_batch, encode_record_batch, first_batch,
    only_batch, Batch,
};
use laic::{CodecError, LaicError};

fn sample_batch() -> RecordBatch {
    let schema = Arc::new(Schema::new(vec![
        Field::new("id", DataType::Int32, false),
        Field::new("value", DataType::Float32, false),
    ]));
    let ids = Int32Array::from(vec![1, 2, 3]);
    let vals = Float32Array::from(vec![1.0f32, 2.0, 3.0]);
    let Ok(batch) = RecordBatch::try_new(schema, vec![Arc::new(ids), Arc::new(vals)]) else {
        panic!("test batch creation failed");
    };
    batch
}

fn encode(batch: &RecordBatch) -> Result<Vec<u8>, LaicError> {
    encode_record_batch(&Batch { inner: batch.clone() })
}

fn decode(bytes: &[u8]) -> Result<RecordBatch, LaicError> {
    decode_record_batch(bytes).map(|b| b.inner)
}

#[test]
fn arrow_roundtrip() {
    let original = sample_batch();
    let Ok(bytes) = encode(&original) else {
        panic!("encode failed");
    };
    let Ok(decoded) = decode(&bytes) else {
        panic!("decode failed");
    };
    assert_eq!(decoded, original);
}

#[test]
fn decode_rejects_garbage() {
    // Zeros are not a valid IPC continuation marker.
    let result = decode(&[0x00; 16]);
    assert!(result.is_err());
    if let Err(e) = result {
        assert_eq!(e.code().as_u16(), 0x0202);
    }
}

#[test]
fn decode_rejects_empty() {
    let result = decode(&[]);
    assert!(result.is_err());
}

#[test]
fn roundtrip_empty_batch() {
    let schema = Arc::new(Schema::new(vec![Field::new("x", DataType::Float32, false)]));
    let col = Float32Array::from(Vec::<f32>::new());
    let Ok(batch) = RecordBatch::try_new(schema, vec![Arc::new(col)]) else {
        panic!("empty batch creation failed");
    };
    let Ok(bytes) = encode(&batch) else {
        panic!("encode empty batch failed");
    };
    let Ok(decoded) = decode(&bytes) else {
        panic!("decode empty batch failed");
    };
    assert_eq!(decoded.num_rows(), 0);
}

#[test]
fn decode_rejects_multi_batch() {
    let schema = Arc::new(Schema::new(vec![Field::new("x", DataType::Float32, false)]));
    let col = Float32Array::from(vec![1.0f32]);
    let Ok(batch) = RecordBatch::try_new(schema.clone(), vec![Arc::new(col)]) else {
        panic!("batch creation failed");
    };
    // Write two valid batches into one stream.
    let mut buf = Vec::new();
    {
        let Ok(mut writer) = StreamWriter::try_new(&mut buf, &schema) else {
            panic!("writer creation failed");
        };
        let Ok(()) = writer.write(&batch) else {
            panic!("first write failed");
        };
        let Ok(()) = writer.write(&batch) else {
            panic!("second write failed");
        };
        let Ok(()) = writer.finish() else {
            panic!("finish failed");
        };
    }
    let result = decode(&buf);
    assert!(result.is_err());
    if let Err(e) = &result {
        let msg = e.to_string();
        assert!(msg.contains(">1"), "should report >1 batch: {msg}");
    }
}

#[test]
fn decode_corrupt_trailing_reports_decode_error_not_cardinality() {
    // Corrupt trailing data must produce a decode error, not be masked
    // as "got >1".
    let original = sample_batch();
    let Ok(mut bytes) = encode(&original) else {
        panic!("encode failed");
    };
    // The stream ends with the EOS marker 0xFFFFFFFF + 0x00000000 (8 bytes).
    // Replace it with a continuation marker and a metadata length pointing
    // past the end, so the reader tries a second message and fails.
    let eos_start = bytes.len() - 8;
    bytes.truncate(eos_start);
    bytes.extend_from_slice(&0xFFFF_FFFFu32.to_le_bytes());
    bytes.extend_from_slice(&0x0000_1000u32.to_le_bytes());

    let result = decode(&bytes);
    assert!(result.is_err());
    if let Err(e) = &result {
        let msg = e.to_string();
        assert!(
            !msg.contains("got >1"),
            "corrupt trailing data should not report cardinality error: {msg}"
        );
    }
}

#[test]
fn encoded_stream_ends_with_the_end_marker() {
    let Ok(bytes) = encode(&sample_batch()) else {
        panic!("encode failed");
    };
    let n = bytes.len();
    assert!(n >= 16);
    assert_eq!(&bytes[..4], &[0xFF, 0xFF, 0xFF, 0xFF]);
    assert_eq!(&bytes[n - 8..], &[0xFF, 0xFF, 0xFF, 0xFF, 0, 0, 0, 0]);
}

#[test]
fn truncated_stream_is_a_decode_error_with_arrow_text() {
    let Ok(bytes) = encode(&sample_batch()) else {
        panic!("encode failed");
    };
    let Err(e) = decode(&bytes[..bytes.len() / 2]) else {
        panic!("half a stream must not decode");
    };
    assert_eq!(e.code().as_u16(), 0x0202);
    assert!(!detail(&e).is_empty());
}

#[test]
fn schema_only_stream_has_no_batch() {
    let schema = Schema::new(vec![Field::new("x", DataType::Float32, false)]);
    let mut buf = Vec::new();
    {
        let Ok(mut writer) = StreamWriter::try_new(&mut buf, &schema) else {
            panic!("writer creation failed");
        };
        let Ok(()) = writer.finish() else {
            panic!("finish failed");
        };
    }
    let Err(e) = decode(&buf) else {
        panic!("a stream without a batch must not decode");
    };
    assert_eq!(detail(&e), "expected 1 record batch, got 0");
}

fn detail(err: &LaicError) -> String {
    match err {
        LaicError::Codec(CodecError::ArrowDecode { detail }) => detail.clone(),
        other => panic!("expected an Arrow decode error, got {other:?}"),
    }
}

#[test]
fn empty_stream_is_a_cardinality_error() {
    let Err(err) = first_batch::<u32>(None) else {
        panic!("an empty stream must fail");
    };
    assert_eq!(err.code().as_u16(), 0x0202);
    assert_eq!(detail(&err), "expected 1 record batch, got 0");
}

#[test]
fn read_failures_keep_their_text() {
    let Err(err) = first_batch::<u32>(Some(Err("bad metadata".to_string()))) else {
        panic!("a read failure must fail");
    };
    assert_eq!(detail(&err), "bad metadata");
    let Err(err) = only_batch(1u32, Some(Err("truncated".to_string()))) else {
        panic!("a trailing read failure must fail");
    };
    // Must NOT say "got >1" — a corrupt tail is not a cardinality error.
    assert_eq!(detail(&err), "truncated");
}

#[test]
fn exactly_one_batch_is_accepted() {
    let Ok(first) = first_batch(Some(Ok(7u32))) else {
        panic!("a batch must be taken");
    };
    assert_eq!(only_batch(first, None).ok(), Some(7));
}

#[test]
fn second_batch_is_rejected() {
    let Err(err) = only_batch(1u32, Some(Ok(2))) else {
        panic!("two batches must fail");
    };
    assert!(detail(&err).contains(">1"));
}

#[test]
fn codec_errors_carry_library_text() {
    let e = arrow_encode_error("schema mismatch".to_string());
    assert_eq!(e.code().as_u16(), 0x0201);
    assert_eq!(e.to_string(), "codec error: Arrow encode failed: schema mismatch");
    let d = arrow_decode_error("oops".to_string());
    assert_eq!(d.code().as_u16(), 0x0202);
    assert!(!d.is_retryable());
}
