use arrow_array::types::Int32Type;
use arrow_array::{ArrayRef, DictionaryArray, Float64Array, Int64Array, RecordBatch, StringArray};
use arrow_ipc::reader::StreamReader;
use arrow_ipc::writer::{
    DictionaryTracker, EncodedData, IpcDataGenerator, IpcWriteContext, IpcWriteOptions, StreamWriter,
};
use arrow_schema::{DataType, Field, Schema};
use engine::builder::ipc_stream::{
    assemble_stream, frame_batch, to_arrow_ipc, EncodedBatch, EncodedMessage, ResultSet,
};
use engine::error::SaError;
use std::io::Cursor;
use std::sync::Arc;

const END_MARKER: [u8; 8] = [255, 255, 255, 255, 0, 0, 0, 0];

fn message(encoded: EncodedData) -> EncodedMessage {
    EncodedMessage { metadata: encoded.ipc_message, body: encoded.arrow_data }
}

fn encode(schema: &Schema, batches: &[RecordBatch]) -> ResultSet {
    let generator = IpcDataGenerator::default();
    let options = IpcWriteOptions::default();
    let mut tracker = DictionaryTracker::new(false);
    let mut context = IpcWriteContext::default();
    let header = generator.schema_to_bytes_with_dictionary_tracker(schema, &mut tracker, &options);
    let mut encoded = Vec::new();
    for batch in batches {
        let (dictionaries, records) =
            generator.encode(batch, &mut tracker, &options, &mut context).unwrap();
        encoded.push(EncodedBatch {
            dictionaries: dictionaries.into_iter().map(message).collect(),
            records: message(records),
        });
    }
    ResultSet { schema: message(header), batches: encoded }
}

fn by_stream_writer(schema: &Schema, batches: &[RecordBatch]) -> Vec<u8> {
    let mut writer = StreamWriter::try_new(Vec::new(), schema).unwrap();
    for batch in batches {
        writer.write(batch).unwrap();
    }
    writer.into_inner().unwrap()
}

fn read_back(buffer: Vec<u8>) -> (Schema, Vec<RecordBatch>) {
    let reader = StreamReader::try_new(Cursor::new(buffer), None).unwrap();
    let schema = reader.schema().as_ref().clone();
    let batches = reader.map(|batch| batch.unwrap()).collect();
    (schema, batches)
}

fn people_schema() -> Schema {
    Schema::new(vec![
        Field::new("id", DataType::Int64, false),
        Field::new("name", DataType::Utf8, true),
        Field::new("score", DataType::Float64, true),
    ])
}

fn people(ids: Vec<i64>, names: Vec<Option<&str>>, scores: Vec<Option<f64>>) -> RecordBatch {
    let columns: Vec<ArrayRef> = vec![
        Arc::new(Int64Array::from(ids)),
        Arc::new(StringArray::from(names)),
        Arc::new(Float64Array::from(scores)),
    ];
    RecordBatch::try_new(Arc::new(people_schema()), columns).unwrap()
}

fn small(metadata: Vec<u8>, body: Vec<u8>) -> EncodedMessage {
    EncodedMessage { metadata, body }
}

#[test]
fn a_frame_is_marker_length_metadata_padding_and_body() {
    let result = ResultSet { schema: small(vec![1, 2, 3], vec![]), batches: vec![] };
    let buffer = to_arrow_ipc(&result).unwrap();
    let mut expected: Vec<u8> = vec![255, 255, 255, 255, 56, 0, 0, 0, 1, 2, 3];
    expected.extend(vec![0u8; 53]);
    expected.extend(END_MARKER);
    assert_eq!(buffer, expected);
    assert_eq!(buffer.len(), 72);
}

#[test]
fn the_padded_length_grows_in_steps_of_the_alignment() {
    for (len, padded) in [(1usize, 56u8), (56, 56), (57, 120), (120, 120), (121, 184)] {
        let result = ResultSet { schema: small(vec![7; len], vec![]), batches: vec![] };
        let buffer = to_arrow_ipc(&result).unwrap();
        assert_eq!(buffer[4..8], [padded, 0, 0, 0], "metadata of {} bytes", len);
        assert_eq!(buffer.len(), 8 + padded as usize + 8);
        assert_eq!(buffer[8..8 + len], vec![7u8; len][..]);
        assert!(buffer[8 + len..8 + padded as usize].iter().all(|b| *b == 0));
    }
}

#[test]
fn a_long_length_is_written_least_significant_byte_first() {
    let result = ResultSet { schema: small(vec![9; 70_000], vec![]), batches: vec![] };
    let buffer = to_arrow_ipc(&result).unwrap();
    assert_eq!(buffer[4..8], 70_008u32.to_le_bytes());
    assert_eq!(buffer[4..8], [120, 17, 1, 0]);
}

#[test]
fn batches_follow_the_header_in_order() {
    let first = EncodedBatch { dictionaries: vec![], records: small(vec![1], vec![11; 64]) };
    let second = EncodedBatch {
        dictionaries: vec![small(vec![2], vec![22; 64]), small(vec![3], vec![])],
        records: small(vec![4], vec![44; 128]),
    };
    let result = ResultSet { schema: small(vec![0], vec![]), batches: vec![first, second] };
    let buffer = to_arrow_ipc(&result).unwrap();
    let frame = |tag: u8, body: Vec<u8>| -> Vec<u8> {
        let mut f: Vec<u8> = vec![255, 255, 255, 255, 56, 0, 0, 0, tag];
        f.extend(vec![0u8; 55]);
        f.extend(body);
        f
    };
    let mut expected = frame(0, vec![]);
    expected.extend(frame(1, vec![11; 64]));
    expected.extend(frame(2, vec![22; 64]));
    expected.extend(frame(3, vec![]));
    expected.extend(frame(4, vec![44; 128]));
    expected.extend(END_MARKER);
    assert_eq!(buffer, expected);
}

#[test]
fn messages_that_cannot_be_framed_are_serialization_errors() {
    let ragged_schema = ResultSet { schema: small(vec![1], vec![0; 3]), batches: vec![] };
    assert_eq!(to_arrow_ipc(&ragged_schema), Err(SaError::SerializationError));

    let ragged_body = ResultSet {
        schema: small(vec![1], vec![]),
        batches: vec![EncodedBatch { dictionaries: vec![], records: small(vec![1], vec![0; 63]) }],
    };
    assert_eq!(to_arrow_ipc(&ragged_body), Err(SaError::SerializationError));
    assert_eq!(frame_batch(&ragged_body.batches[0]), Err(SaError::SerializationError));

    let bad_dictionary = ResultSet {
        schema: small(vec![1], vec![]),
        batches: vec![EncodedBatch {
            dictionaries: vec![small(vec![2], vec![0; 1])],
            records: small(vec![1], vec![]),
        }],
    };
    assert_eq!(to_arrow_ipc(&bad_dictionary), Err(SaError::SerializationError));
}

#[test]
fn a_batch_frame_is_its_dictionaries_then_its_records() {
    let batch = EncodedBatch {
        dictionaries: vec![small(vec![2], vec![22; 64])],
        records: small(vec![4], vec![44; 64]),
    };
    let frame = frame_batch(&batch).unwrap();
    assert_eq!(frame.len(), 2 * (64 + 64));
    assert_eq!(frame[8], 2);
    assert_eq!(frame[64..128], [22u8; 64]);
    assert_eq!(frame[128 + 8], 4);
    assert_eq!(frame[192..], [44u8; 64]);
}

#[test]
fn a_stream_is_header_frames_and_end_marker() {
    assert_eq!(assemble_stream(&vec![], &vec![]), END_MARKER.to_vec());
    assert_eq!(
        assemble_stream(&vec![1, 2], &vec![vec![3], vec![], vec![4, 5]]),
        vec![1, 2, 3, 4, 5, 255, 255, 255, 255, 0, 0, 0, 0]
    );
}

#[test]
fn a_result_without_batches_is_header_and_end_marker() {
    let schema = people_schema();
    let result = encode(&schema, &[]);
    let buffer = to_arrow_ipc(&result).unwrap();
    assert_eq!(buffer[buffer.len() - 8..], END_MARKER);
    assert_eq!(buffer[..4], [255, 255, 255, 255]);
    let header_len = u32::from_le_bytes([buffer[4], buffer[5], buffer[6], buffer[7]]) as usize;
    assert_eq!(buffer.len(), 8 + header_len + 8);
    assert_eq!(buffer[8..8 + result.schema.metadata.len()], result.schema.metadata[..]);
    assert_eq!(buffer, by_stream_writer(&schema, &[]));
}

#[test]
fn a_result_without_batches_reads_back_with_its_schema() {
    let schema = people_schema();
    let buffer = to_arrow_ipc(&encode(&schema, &[])).unwrap();
    let (read_schema, read_batches) = read_back(buffer);
    assert_eq!(read_schema, schema);
    assert!(read_batches.is_empty());
}

#[test]
fn a_result_with_several_batches_reads_back() {
    let schema = people_schema();
    let batches = vec![
        people(vec![1, 2, 3], vec![Some("ann"), None, Some("cy")], vec![Some(1.5), Some(2.0), None]),
        people(vec![], vec![], vec![]),
        people(vec![4], vec![Some("dee")], vec![Some(-0.25)]),
    ];
    let buffer = to_arrow_ipc(&encode(&schema, &batches)).unwrap();
    let (read_schema, read_batches) = read_back(buffer);
    assert_eq!(read_schema, schema);
    assert_eq!(read_batches, batches);
    assert_eq!(read_batches.iter().map(|b| b.num_rows()).sum::<usize>(), 4);
}

#[test]
fn the_stream_is_the_one_of_the_stream_writer() {
    let schema = people_schema();
    let batches = vec![
        people(vec![1, 2], vec![Some("ann"), Some("bo")], vec![None, Some(3.0)]),
        people(vec![3, 4, 5], vec![None, None, Some("eve")], vec![Some(0.0), None, Some(9.5)]),
    ];
    assert_eq!(to_arrow_ipc(&encode(&schema, &batches)).unwrap(), by_stream_writer(&schema, &batches));
    assert_eq!(to_arrow_ipc(&encode(&schema, &batches[..1])).unwrap(), by_stream_writer(&schema, &batches[..1]));
}

#[test]
fn dictionaries_travel_before_their_batch() {
    let schema = Schema::new(vec![Field::new(
        "city",
        DataType::Dictionary(Box::new(DataType::Int32), Box::new(DataType::Utf8)),
        true,
    )]);
    let first: DictionaryArray<Int32Type> = vec!["rome", "oslo", "rome"].into_iter().collect();
    let second: DictionaryArray<Int32Type> = vec!["lima", "lima"].into_iter().collect();
    let batches = vec![
        RecordBatch::try_new(Arc::new(schema.clone()), vec![Arc::new(first) as ArrayRef]).unwrap(),
        RecordBatch::try_new(Arc::new(schema.clone()), vec![Arc::new(second) as ArrayRef]).unwrap(),
    ];
    let result = encode(&schema, &batches);
    assert_eq!(result.batches[0].dictionaries.len(), 1);
    let buffer = to_arrow_ipc(&result).unwrap();
    assert_eq!(buffer, by_stream_writer(&schema, &batches));
    let (read_schema, read_batches) = read_back(buffer);
    assert_eq!(read_schema, schema);
    assert_eq!(read_batches, batches);
}
