//! Writing a result set as one columnar stream.
//!
//! A result set arrives here with its schema and its batches already encoded
//! as messages: metadata bytes and body bytes. The stream is the schema
//! message in a frame, then for each batch its messages in frames, then the
//! end marker. Each frame is written by `arrow_ipc`; what is proved here is
//! how the stream is put together from the frames. The header is written from
//! the schema of the result set, never from a batch, so a result set without
//! batches is written as well.

use crate::error::SaError;
use arrow_ipc::writer::{write_message, EncodedData, IpcWriteOptions};
use arrow_schema::ArrowError;
use vstd::prelude::*;

verus! {

/// One encoded message: what describes it, and the data it carries.
#[derive(Debug)]
pub struct EncodedMessage {
    pub metadata: Vec<u8>,
    pub body: Vec<u8>,
}

/// What an encoded message holds.
pub struct EncodedMessageView {
    pub metadata: Seq<u8>,
    pub body: Seq<u8>,
}

impl View for EncodedMessage {
    type V = EncodedMessageView;

    open spec fn view(&self) -> EncodedMessageView {
        EncodedMessageView { metadata: self.metadata@, body: self.body@ }
    }
}

/// One encoded batch: the dictionaries it brings, then its records.
#[derive(Debug)]
pub struct EncodedBatch {
    pub dictionaries: Vec<EncodedMessage>,
    pub records: EncodedMessage,
}

/// What an encoded batch holds.
pub struct EncodedBatchView {
    pub dictionaries: Seq<EncodedMessageView>,
    pub records: EncodedMessageView,
}

impl View for EncodedBatch {
    type V = EncodedBatchView;

    open spec fn view(&self) -> EncodedBatchView {
        EncodedBatchView {
            dictionaries: Seq::new(self.dictionaries@.len(), |i: int| self.dictionaries@[i]@),
            records: self.records@,
        }
    }
}

/// A result set: the schema of the result and its batches in order.
#[derive(Debug)]
pub struct ResultSet {
    pub schema: EncodedMessage,
    pub batches: Vec<EncodedBatch>,
}

/// What a result set holds.
pub struct ResultSetView {
    pub schema: EncodedMessageView,
    pub batches: Seq<EncodedBatchView>,
}

impl View for ResultSet {
    type V = ResultSetView;

    open spec fn view(&self) -> ResultSetView {
        ResultSetView {
            schema: self.schema@,
            batches: Seq::new(self.batches@.len(), |i: int| self.batches@[i]@),
        }
    }
}

/// `arrow_schema::ArrowError`: the error of the message writer.
#[verifier::external_type_specification]
#[verifier::external_body]
pub struct ExArrowError(arrow_schema::ArrowError);

/// The frame that `arrow_ipc::writer::write_message` writes for a message with
/// the given metadata and body under the default write options; `None` where
/// it refuses the message.
pub uninterp spec fn spec_ipc_frame(metadata: Seq<u8>, body: Seq<u8>) -> Option<Seq<u8>>;

/// Calls `arrow_ipc::writer::write_message` with an empty byte vector, the
/// message and the default write options, and hands out what was written. The
/// contract names the bytes `spec_ipc_frame` of the message's metadata and
/// body, says that an error means there is no such frame, and claims nothing
/// else.
#[verifier::external_body]
fn ipc_frame(message: &EncodedMessage) -> (r: Result<Vec<u8>, ArrowError>)
    ensures
        match r {
            Ok(frame) => spec_ipc_frame(message@.metadata, message@.body) == Some(frame@),
            Err(_) => spec_ipc_frame(message@.metadata, message@.body).is_none(),
        },
{
    let mut frame: Vec<u8> = Vec::new();
    let encoded =
        EncodedData { ipc_message: message.metadata.clone(), arrow_data: message.body.clone() };
    write_message(&mut frame, encoded, &IpcWriteOptions::default())?;
    Ok(frame)
}

/// The end marker of a stream: the continuation bytes and a length of zero.
pub open spec fn spec_end_marker() -> Seq<u8> {
    seq![255u8, 255u8, 255u8, 255u8, 0u8, 0u8, 0u8, 0u8]
}

/// The message can be put in a frame.
pub open spec fn frameable(m: EncodedMessageView) -> bool {
    spec_ipc_frame(m.metadata, m.body).is_some()
}

/// The frame of a message that can be put in one.
pub open spec fn spec_frame(m: EncodedMessageView) -> Seq<u8> {
    spec_ipc_frame(m.metadata, m.body).unwrap()
}

/// The frames of `messages`, one after the other.
pub open spec fn spec_frames(messages: Seq<EncodedMessageView>) -> Seq<u8>
    decreases messages.len(),
{
    if messages.len() == 0 {
        Seq::empty()
    } else {
        spec_frames(messages.drop_last()) + spec_frame(messages.last())
    }
}

/// The frame of a batch: its dictionaries, then its records.
pub open spec fn spec_batch_frame(b: EncodedBatchView) -> Seq<u8> {
    spec_frames(b.dictionaries) + spec_frame(b.records)
}

/// The frames of `batches`, one after the other.
pub open spec fn spec_batch_frames(batches: Seq<EncodedBatchView>) -> Seq<u8>
    decreases batches.len(),
{
    if batches.len() == 0 {
        Seq::empty()
    } else {
        spec_batch_frames(batches.drop_last()) + spec_batch_frame(batches.last())
    }
}

/// Every message of the batch can be put in a frame.
pub open spec fn batch_frameable(b: EncodedBatchView) -> bool {
    &&& forall|i: int| 0 <= i < b.dictionaries.len() ==> frameable(#[trigger] b.dictionaries[i])
    &&& frameable(b.records)
}

/// Every message of the result set can be put in a frame.
pub open spec fn serializable(r: ResultSetView) -> bool {
    &&& frameable(r.schema)
    &&& forall|i: int| 0 <= i < r.batches.len() ==> batch_frameable(#[trigger] r.batches[i])
}

/// The stream of a result set: the schema header, one frame for each batch in
/// order, and the end marker.
pub open spec fn spec_stream(r: ResultSetView) -> Seq<u8> {
    spec_frame(r.schema) + spec_batch_frames(r.batches) + spec_end_marker()
}

/// Byte vectors, one after the other.
pub open spec fn spec_concat(parts: Seq<Vec<u8>>) -> Seq<u8>
    decreases parts.len(),
{
    if parts.len() == 0 {
        Seq::empty()
    } else {
        spec_concat(parts.drop_last()) + parts.last()@
    }
}

/// Appends `bytes` to `out`.
fn append_bytes(out: &mut Vec<u8>, bytes: &Vec<u8>)
    ensures
        final(out)@ == old(out)@ + bytes@,
{
    out.extend_from_slice(bytes.as_slice());
    assert(out@ =~= old(out)@ + bytes@);
}

/// Puts a stream together: the header, the frames in their order, and the end
/// marker. Without frames the stream is the header and the end marker.
pub fn assemble_stream(header: &Vec<u8>, frames: &Vec<Vec<u8>>) -> (buffer: Vec<u8>)
    ensures
        buffer@ == header@ + spec_concat(frames@) + spec_end_marker(),
{
    let mut buffer: Vec<u8> = Vec::new();
    append_bytes(&mut buffer, header);
    let mut i: usize = 0;
    assert(buffer@ =~= header@ + spec_concat(frames@.take(0)));
    while i < frames.len()
        invariant
            i <= frames@.len(),
            buffer@ == header@ + spec_concat(frames@.take(i as int)),
        decreases frames.len() - i,
    {
        let ghost next = frames@.take(i + 1);
        assert(next.drop_last() =~= frames@.take(i as int));
        assert(next.last() == frames@[i as int]);
        append_bytes(&mut buffer, &frames[i]);
        assert(buffer@ =~= header@ + spec_concat(next));
        i += 1;
    }
    assert(frames@.take(i as int) =~= frames@);
    let ghost framed = buffer@;
    buffer.push(255u8);
    buffer.push(255u8);
    buffer.push(255u8);
    buffer.push(255u8);
    buffer.push(0u8);
    buffer.push(0u8);
    buffer.push(0u8);
    buffer.push(0u8);
    assert(buffer@ =~= framed + spec_end_marker());
    buffer
}

/// The frame of `batch`: the frames of its dictionaries, then the frame of its
/// records. A message that cannot be put in a frame is a serialization error.
pub fn frame_batch(batch: &EncodedBatch) -> (r: Result<Vec<u8>, SaError>)
    ensures
        match r {
            Ok(frame) => batch_frameable(batch@) && frame@ == spec_batch_frame(batch@),
            Err(e) => e == SaError::SerializationError && !batch_frameable(batch@),
        },
{
    let mut out: Vec<u8> = Vec::new();
    let mut i: usize = 0;
    assert(out@ =~= spec_frames(batch@.dictionaries.take(0)));
    while i < batch.dictionaries.len()
        invariant
            i <= batch.dictionaries@.len(),
            forall|k: int| 0 <= k < i ==> frameable(#[trigger] batch@.dictionaries[k]),
            out@ == spec_frames(batch@.dictionaries.take(i as int)),
        decreases batch.dictionaries.len() - i,
    {
        let ghost next = batch@.dictionaries.take(i + 1);
        assert(next.drop_last() =~= batch@.dictionaries.take(i as int));
        assert(next.last() == batch.dictionaries@[i as int]@);
        match ipc_frame(&batch.dictionaries[i]) {
            Ok(frame) => {
                append_bytes(&mut out, &frame);
            },
            Err(_) => {
                assert(!frameable(batch@.dictionaries[i as int]));
                return Err(SaError::SerializationError);
            },
        }
        i += 1;
    }
    assert(batch@.dictionaries.take(i as int) =~= batch@.dictionaries);
    match ipc_frame(&batch.records) {
        Ok(frame) => {
            append_bytes(&mut out, &frame);
            Ok(out)
        },
        Err(_) => Err(SaError::SerializationError),
    }
}

/// Writes `result` as one stream: the frame of its schema, the frames of its
/// batches in order, and the end marker. A result set without batches gives
/// the schema frame and the end marker. A result set with a message that
/// cannot be put in a frame is a serialization error.
pub fn to_arrow_ipc(result: &ResultSet) -> (r: Result<Vec<u8>, SaError>)
    ensures
        match r {
            Ok(buffer) => serializable(result@) && buffer@ == spec_stream(result@),
            Err(e) => e == SaError::SerializationError && !serializable(result@),
        },
{
    let header = match ipc_frame(&result.schema) {
        Ok(frame) => frame,
        Err(_) => {
            return Err(SaError::SerializationError);
        },
    };
    let mut frames: Vec<Vec<u8>> = Vec::new();
    let mut i: usize = 0;
    assert(spec_concat(frames@) =~= spec_batch_frames(result@.batches.take(0)));
    while i < result.batches.len()
        invariant
            i <= result.batches@.len(),
            frames@.len() == i,
            forall|k: int| 0 <= k < i ==> batch_frameable(#[trigger] result@.batches[k]),
            spec_concat(frames@) == spec_batch_frames(result@.batches.take(i as int)),
        decreases result.batches.len() - i,
    {
        let ghost next = result@.batches.take(i + 1);
        assert(next.drop_last() =~= result@.batches.take(i as int));
        assert(next.last() == result.batches@[i as int]@);
        match frame_batch(&result.batches[i]) {
            Ok(frame) => {
                let ghost before = frames@;
                frames.push(frame);
                assert(frames@.drop_last() =~= before);
            },
            Err(e) => {
                assert(!batch_frameable(result@.batches[i as int]));
                return Err(e);
            },
        }
        i += 1;
    }
    assert(result@.batches.take(i as int) =~= result@.batches);
    Ok(assemble_stream(&header, &frames))
}

/// The stream of a result set without batches is the schema header followed
/// by the end marker, and nothing else.
pub proof fn law_empty_result_stream(r: ResultSetView)
    requires
        r.batches.len() == 0,
    ensures
        spec_stream(r) == spec_frame(r.schema) + spec_end_marker(),
        spec_stream(r).len() == spec_frame(r.schema).len() + 8,
{
    assert(spec_frame(r.schema) + spec_batch_frames(r.batches) =~= spec_frame(r.schema));
}

/// Every stream starts with the schema header and ends with the end marker;
/// the frames of the batches stand between the two.
pub proof fn law_stream_layout(r: ResultSetView)
    ensures
        spec_stream(r).len() == spec_frame(r.schema).len() + spec_batch_frames(r.batches).len() + 8,
        spec_stream(r).subrange(0, spec_frame(r.schema).len() as int) == spec_frame(r.schema),
        spec_stream(r).subrange(
            spec_frame(r.schema).len() as int,
            spec_stream(r).len() - 8,
        ) == spec_batch_frames(r.batches),
        spec_stream(r).subrange(spec_stream(r).len() - 8, spec_stream(r).len() as int)
            == spec_end_marker(),
{
    let s = spec_stream(r);
    let h = spec_frame(r.schema);
    assert(s.subrange(0, h.len() as int) =~= h);
    assert(s.subrange(h.len() as int, s.len() - 8) =~= spec_batch_frames(r.batches));
    assert(s.subrange(s.len() - 8, s.len() as int) =~= spec_end_marker());
}

/// The frames of the batches of a result set with one more batch are the
/// frames of the batches before it, followed by the frame of that batch: the
/// batches are written in their order, one frame each.
pub proof fn law_batches_in_order(batches: Seq<EncodedBatchView>, batch: EncodedBatchView)
    ensures
        spec_batch_frames(batches.push(batch)) == spec_batch_frames(batches) + spec_batch_frame(
            batch,
        ),
{
    assert(batches.push(batch).drop_last() =~= batches);
}

} // verus!
