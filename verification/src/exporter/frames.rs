//! Encoded exports that wait for a stream to carry them.

use http_body_util::BodyExt;
use opentelemetry_proto::tonic::collector::trace::v1::{
    ExportTraceServiceRequest, ExportTraceServiceResponse,
};
use opentelemetry_proto::transform::common::tonic::ResourceAttributesWithSchema;
use opentelemetry_proto::transform::trace::tonic::group_spans_by_resource_and_scope;
use opentelemetry_sdk::trace::SpanData;
use prost::Message;
use std::collections::VecDeque;
use std::future::Future;
use std::task::{Context, Poll, Waker};
use tonic::codec::{BufferSettings, EncodeBody};
use tonic_prost::ProstCodec;
use vstd::prelude::*;

use crate::text::join;

verus! {

/// How many exports may wait before further ones are refused.
pub const MAX_PENDING_EXPORTS: usize = 2048;

/// Why an export was refused.
#[derive(Debug, PartialEq, Eq)]
pub enum ExportError {
    InternalFailure(String),
}

/// The model of a list of frames.
pub open spec fn frames_view(frames: Seq<Vec<u8>>) -> Seq<Seq<u8>> {
    frames.map_values(|frame: Vec<u8>| frame@)
}

/// The queue after an encoder returned this, and what the export is answered: a frame goes to the
/// back of a queue that is not full; otherwise the queue stays as it is.
pub open spec fn enqueued(queue: Seq<Seq<u8>>, encoded: Result<Seq<u8>, Seq<char>>) -> (
    Seq<Seq<u8>>,
    Result<(), Seq<char>>,
) {
    match encoded {
        Err(error) => (queue, Err("failed to encode OTLP/gRPC request: "@ + error)),
        Ok(frame) => if queue.len() < MAX_PENDING_EXPORTS {
            (queue.push(frame), Ok(()))
        } else {
            (queue, Err("Envoy OTLP/gRPC export queue reached 2048 entries"@))
        },
    }
}

/// The model of what an export is answered.
pub open spec fn export_view(result: Result<(), ExportError>) -> Result<(), Seq<char>> {
    match result {
        Ok(()) => Ok(()),
        Err(ExportError::InternalFailure(message)) => Err(message@),
    }
}

/// The queue of encoded exports, oldest first.
#[derive(Debug)]
pub struct PendingFrames {
    frames: VecDeque<Vec<u8>>,
}

impl View for PendingFrames {
    type V = Seq<Seq<u8>>;

    closed spec fn view(&self) -> Seq<Seq<u8>> {
        frames_view(self.frames@)
    }
}

impl Default for PendingFrames {
    /// An empty queue.
    fn default() -> (pending: PendingFrames)
        ensures
            pending@ == Seq::<Seq<u8>>::empty(),
    {
        let pending = PendingFrames { frames: VecDeque::new() };
        assert(pending@ =~= Seq::<Seq<u8>>::empty());
        pending
    }
}

impl PendingFrames {
    /// Puts a frame at the end of the queue, unless the queue is full.
    pub fn push(&mut self, frame: Vec<u8>) -> (result: Result<(), ExportError>)
        ensures
            match result {
                Ok(()) => {
                    &&& old(self)@.len() < MAX_PENDING_EXPORTS
                    &&& final(self)@ == old(self)@.push(frame@)
                },
                Err(ExportError::InternalFailure(message)) => {
                    &&& old(self)@.len() >= MAX_PENDING_EXPORTS
                    &&& final(self)@ == old(self)@
                    &&& message@ == "Envoy OTLP/gRPC export queue reached 2048 entries"@
                },
            },
    {
        if self.frames.len() >= MAX_PENDING_EXPORTS {
            return Err(
                ExportError::InternalFailure(
                    "Envoy OTLP/gRPC export queue reached 2048 entries".to_owned(),
                ),
            );
        }
        self.frames.push_back(frame);
        assert(self@ =~= old(self)@.push(frame@));
        Ok(())
    }

    /// Puts what an encoder returned at the end of the queue, if it is a frame and the queue is not
    /// full.
    pub fn enqueue(&mut self, encoded: Result<Vec<u8>, String>) -> (result: Result<
        (),
        ExportError,
    >)
        ensures
            (final(self)@, export_view(result)) == enqueued(old(self)@, encoding_view(encoded)),
    {
        match encoding_result(encoded) {
            Ok(frame) => self.push(frame),
            Err(error) => Err(error),
        }
    }

    /// Encodes the request of a span that ended and puts it at the end of the queue.
    pub fn export(&mut self, request: ExportTraceServiceRequest) -> (result: Result<
        (),
        ExportError,
    >)
        ensures
            (final(self)@, export_view(result)) == enqueued(old(self)@, tonic_frame(request)),
            tonic_frame(request) is Ok <==> encoded_length(request) <= u32::MAX,
            result is Ok <==> encoded_length(request) <= u32::MAX && old(self)@.len()
                < MAX_PENDING_EXPORTS,
            result is Ok ==> carries(final(self)@.last(), request),
    {
        let encoded = encode_with_tonic(request).unwrap();
        self.enqueue(encoded)
    }

    /// Makes one request of spans that ended and puts it at the end of the queue. Spans that end one
    /// by one come in batches of one. The scopes of a larger batch may stand in any order.
    pub fn export_spans(
        &mut self,
        batch: Vec<SpanData>,
        resource: &ResourceAttributesWithSchema,
    ) -> (result: Result<(), ExportError>)
        ensures
            batch@.len() <= 1 ==> (final(self)@, export_view(result)) == enqueued(
                old(self)@,
                tonic_frame(batch_request(batch@, *resource)),
            ),
            exists|request: ExportTraceServiceRequest|
                {
                    &&& (final(self)@, export_view(result)) == enqueued(
                        old(self)@,
                        #[trigger] tonic_frame(request),
                    )
                    &&& result is Ok <==> encoded_length(request) <= u32::MAX && old(self)@.len()
                        < MAX_PENDING_EXPORTS
                    &&& result is Ok ==> carries(final(self)@.last(), request)
                    &&& batch@.len() <= 1 ==> request == batch_request(batch@, *resource)
                },
            result is Ok && batch@.len() == 1 && readable(
                batch_request(Seq::empty(), *resource),
            ) ==> request_in(final(self)@.last()) == Some(batch_request(batch@, *resource)),
    {
        let request = request_of(batch, resource);
        self.export(request)
    }

    /// Takes all frames out of the queue, oldest first.
    pub fn drain(&mut self) -> (frames: VecDeque<Vec<u8>>)
        ensures
            frames_view(frames@) == old(self)@,
            final(self)@ == Seq::<Seq<u8>>::empty(),
    {
        let mut frames: VecDeque<Vec<u8>> = VecDeque::new();
        std::mem::swap(&mut frames, &mut self.frames);
        assert(self@ =~= Seq::<Seq<u8>>::empty());
        frames
    }

    /// Puts frames back in front of the queue, in their order.
    pub fn prepend(&mut self, frames: VecDeque<Vec<u8>>)
        ensures
            final(self)@ == frames_view(frames@) + old(self)@,
    {
        let mut frames = frames;
        let ghost all = frames_view(frames@);
        let ghost before = self@;
        loop
            invariant
                frames_view(frames@) + self@ == all + before,
            ensures
                frames@.len() == 0,
                self@ == all + before,
            decreases frames@.len(),
        {
            let ghost rest = frames@;
            let ghost queued = self@;
            match frames.pop_back() {
                Some(frame) => {
                    self.frames.push_front(frame);
                    assert(self@ =~= seq![frame@] + queued);
                    assert(frames_view(rest) =~= frames_view(frames@).push(frame@));
                    assert(frames_view(frames@) + self@ =~= frames_view(rest) + queued);
                },
                None => {
                    assert(frames_view(frames@) + self@ =~= self@);
                    break;
                },
            }
        }
    }
}

/// An OTLP trace export request of the `opentelemetry-proto` crate. Nothing is known of what is
/// inside one.
#[verifier::external_type_specification]
#[verifier::external_body]
pub struct ExExportTraceServiceRequest(ExportTraceServiceRequest);

/// The bytes that tonic puts on the wire for an export request, or the text of its refusal.
pub uninterp spec fn tonic_frame(request: ExportTraceServiceRequest) -> Result<
    Seq<u8>,
    Seq<char>,
>;

/// How many bytes `prost::Message::encoded_len` counts for the message of an export request.
pub uninterp spec fn encoded_length(request: ExportTraceServiceRequest) -> nat;

/// The export request that `prost::Message::decode` reads from a message, if it reads one.
pub uninterp spec fn decoded_request(message: Seq<u8>) -> Option<ExportTraceServiceRequest>;

/// A finished span of the OpenTelemetry SDK. Nothing is known of what is inside one.
#[verifier::external_type_specification]
#[verifier::external_body]
pub struct ExSpanData(SpanData);

/// The attributes of the resource that spans come from, in the form of the `opentelemetry-proto`
/// crate. Nothing is known of what is inside.
#[verifier::external_type_specification]
#[verifier::external_body]
pub struct ExResourceAttributesWithSchema(ResourceAttributesWithSchema);

/// The export request whose spans are what `group_spans_by_resource_and_scope` makes of a batch of
/// at most one span.
pub uninterp spec fn batch_request(
    batch: Seq<SpanData>,
    resource: ResourceAttributesWithSchema,
) -> ExportTraceServiceRequest;

/// Whether a request is encoded to something that is decoded.
pub open spec fn readable(request: ExportTraceServiceRequest) -> bool {
    tonic_frame(request) matches Ok(frame) && decoded_request(frame.skip(5)) is Some
}

/// Whether the bytes are one uncompressed gRPC message: a zero byte, the length of the message in
/// four bytes, most significant first, and the message.
pub open spec fn is_grpc_message(bytes: Seq<u8>) -> bool {
    &&& bytes.len() >= 5
    &&& bytes[0] == 0
    &&& bytes[1] * 0x100_0000 + bytes[2] * 0x1_0000 + bytes[3] * 0x100 + bytes[4] == bytes.len() - 5
}

/// The export request that a frame is read as: a frame is one message and nothing after it.
pub open spec fn request_in(frame: Seq<u8>) -> Option<ExportTraceServiceRequest> {
    if is_grpc_message(frame) {
        decoded_request(frame.skip(5))
    } else {
        None
    }
}

/// Whether a frame is the gRPC message of a request, which can be read as that request only.
pub open spec fn carries(frame: Seq<u8>, request: ExportTraceServiceRequest) -> bool {
    &&& is_grpc_message(frame)
    &&& frame.len() == 5 + encoded_length(request)
    &&& request_in(frame) matches Some(read) ==> read == request
}

/// The model of an encoding result.
pub open spec fn encoding_view(result: Result<Vec<u8>, String>) -> Result<Seq<u8>, Seq<char>> {
    match result {
        Ok(bytes) => Ok(bytes@),
        Err(message) => Err(message@),
    }
}

/// Calls `opentelemetry_proto::transform::trace::tonic::group_spans_by_resource_and_scope` and puts
/// what it returns into a request. What a batch of at most one span is turned into is left to the
/// name `batch_request`; of a larger batch nothing is said, since the order of its scopes is that
/// of a hash map. Attributes of a span are plain values or lists of them, a few messages deep. So
/// where a request with this resource and no span can be decoded, one with a span can be, too,
/// provided that it can be encoded.
#[verifier::external_body]
fn request_of(batch: Vec<SpanData>, resource: &ResourceAttributesWithSchema) -> (request:
    ExportTraceServiceRequest)
    ensures
        batch@.len() <= 1 ==> request == batch_request(batch@, *resource),
        batch@.len() == 1 && tonic_frame(request) is Ok && readable(
            batch_request(Seq::empty(), *resource),
        ) ==> readable(request),
{
    ExportTraceServiceRequest {
        resource_spans: group_spans_by_resource_and_scope(batch, resource),
    }
}

/// Calls `prost::Message::encoded_len`: the number of bytes of the encoded message, left to the
/// name `encoded_length`.
#[verifier::external_body]
fn message_length(request: &ExportTraceServiceRequest) -> (length: usize)
    ensures
        length == encoded_length(*request),
{
    request.encoded_len()
}

/// Calls `prost::Message::decode` on a whole message. No bytes are the message of the empty
/// request. Which other bytes are a message, and of which request, is left to the name
/// `decoded_request`.
#[verifier::external_body]
fn decode_with_prost(message: &[u8]) -> (request: Option<ExportTraceServiceRequest>)
    ensures
        request == decoded_request(message@),
        message@.len() == 0 ==> request is Some && encoded_length(request->0) == 0,
{
    ExportTraceServiceRequest::decode(message).ok()
}

/// Calls `tonic::codec::EncodeBody::new_client` on a stream of one message, with the prost codec,
/// without compression and without a size limit, and collects the body. Body and stream are ready
/// whenever they are polled, so one poll yields the whole body. A message of up to `u32::MAX`
/// bytes comes out as one uncompressed gRPC message, a longer one is refused. If the message is
/// decoded, it gives the request back, and an empty message is decoded. Decoding refuses messages that are nested more than a
/// hundred deep, and the depth of a request cannot be seen here, so nothing more is said of when
/// decoding succeeds. The message itself, and the text of a refusal, are left to the name
/// `tonic_frame`.
#[verifier::external_body]
fn encode_with_tonic(request: ExportTraceServiceRequest) -> (frame: Option<Result<Vec<u8>, String>>)
    ensures
        frame is Some,
        encoding_view(frame->0) == tonic_frame(request),
        frame->0 is Ok <==> encoded_length(request) <= u32::MAX,
        frame->0 matches Ok(bytes) ==> is_grpc_message(bytes@),
        frame->0 matches Ok(bytes) ==> bytes@.len() == 5 + encoded_length(request),
        frame->0 matches Ok(bytes) ==> (decoded_request(bytes@.skip(5)) matches Some(read)
            ==> read == request),
        frame->0 matches Ok(bytes) ==> (encoded_length(request) == 0 ==> decoded_request(
            bytes@.skip(5),
        ) is Some),
{
    let encoder = ProstCodec::<ExportTraceServiceRequest, ExportTraceServiceResponse>::raw_encoder(
        BufferSettings::default(),
    );
    let messages = tokio_stream::once(Ok::<_, tonic::Status>(request));
    let body = EncodeBody::new_client(encoder, messages, None, None);
    let mut collected = Box::pin(tokio::task::unconstrained(body.collect()));
    match collected.as_mut().poll(&mut Context::from_waker(Waker::noop())) {
        Poll::Ready(Ok(body)) => Some(Ok(body.to_bytes().to_vec())),
        Poll::Ready(Err(status)) => Some(Err(status.to_string())),
        Poll::Pending => None,
    }
}

/// Encodes an export request as the body of a gRPC call. This fails exactly if the message has more
/// than `u32::MAX` bytes.
pub fn encode_grpc_request(request: ExportTraceServiceRequest) -> (frame: Result<
    Vec<u8>,
    ExportError,
>)
    ensures
        frame is Ok <==> encoded_length(request) <= u32::MAX,
        match frame {
            Ok(bytes) => tonic_frame(request) == Ok::<Seq<u8>, Seq<char>>(bytes@) && carries(
                bytes@,
                request,
            ),
            Err(ExportError::InternalFailure(message)) => tonic_frame(request) is Err && message@
                == "failed to encode OTLP/gRPC request: "@ + tonic_frame(request)->Err_0,
        },
        encoded_length(request) == 0 ==> (frame matches Ok(bytes) && bytes@ == seq![
            0u8,
            0,
            0,
            0,
            0,
        ] && request_in(bytes@) == Some(request)),
{
    let encoded = encode_with_tonic(request).unwrap();
    proof {
        if encoded_length(request) == 0 {
            assert(encoded->Ok_0@ =~= seq![0u8, 0, 0, 0, 0]);
        }
    }
    encoding_result(encoded)
}

/// Whether an export request fits into a frame.
pub fn fits_in_frame(request: &ExportTraceServiceRequest) -> (fits: bool)
    ensures
        fits == (encoded_length(*request) <= u32::MAX),
{
    message_length(request) <= 0xffff_ffff
}

/// Whether the bytes are one uncompressed gRPC message.
fn is_one_message(frame: &[u8]) -> (one: bool)
    ensures
        one == is_grpc_message(frame@),
{
    if frame.len() < 5 || frame[0] != 0 {
        return false;
    }
    let length: u64 = frame[1] as u64 * 0x100_0000 + frame[2] as u64 * 0x1_0000 + frame[3] as u64
        * 0x100 + frame[4] as u64;
    length == (frame.len() - 5) as u64
}

/// Reads the export request that a frame carries.
pub fn decode_grpc_request(frame: &[u8]) -> (request: Option<ExportTraceServiceRequest>)
    ensures
        request == request_in(frame@),
        frame@ == seq![0u8, 0, 0, 0, 0] ==> request is Some && encoded_length(request->0) == 0,
{
    if !is_one_message(frame) {
        return None;
    }
    let message = vstd::slice::slice_subrange(frame, 5, frame.len());
    assert(message@ =~= frame@.skip(5));
    decode_with_prost(message)
}

/// Turns what the encoder returned into the result of an export.
pub fn encoding_result(encoded: Result<Vec<u8>, String>) -> (frame: Result<Vec<u8>, ExportError>)
    ensures
        match encoded {
            Ok(bytes) => frame == Ok::<Vec<u8>, ExportError>(bytes),
            Err(error) => frame matches Err(ExportError::InternalFailure(message)) && message@
                == "failed to encode OTLP/gRPC request: "@ + error@,
        },
{
    match encoded {
        Ok(bytes) => Ok(bytes),
        Err(error) => Err(
            ExportError::InternalFailure(
                join("failed to encode OTLP/gRPC request: ", error.as_str()),
            ),
        ),
    }
}

/// The queue after these frames came from the encoder in turn.
pub open spec fn enqueued_all(queue: Seq<Seq<u8>>, frames: Seq<Seq<u8>>) -> Seq<Seq<u8>>
    decreases frames.len(),
{
    if frames.len() == 0 {
        queue
    } else {
        enqueued(enqueued_all(queue, frames.drop_last()), Ok(frames.last())).0
    }
}

/// The request of a span that ended is the last thing in the queue, and with it in what the next
/// drain takes out, exactly if it was encoded and the queue was not full. Otherwise the queue
/// stays as it was.
pub proof fn law_ended_span_is_queued_last(
    queue: Seq<Seq<u8>>,
    encoded: Result<Seq<u8>, Seq<char>>,
)
    ensures
        ({
            let (after, answer) = enqueued(queue, encoded);
            &&& answer is Ok <==> encoded is Ok && queue.len() < MAX_PENDING_EXPORTS
            &&& answer is Ok ==> {
                &&& after.len() == queue.len() + 1
                &&& after.last() == encoded->Ok_0
                &&& after.drop_last() == queue
            }
            &&& answer is Err ==> after == queue
        }),
{
    let (after, answer) = enqueued(queue, encoded);
    if answer is Ok {
        assert(after.drop_last() =~= queue);
    }
}

/// Spans are queued in the order in which they end; those that end while the queue is full are
/// lost, and no other.
pub proof fn law_spans_are_queued_in_order(queue: Seq<Seq<u8>>, frames: Seq<Seq<u8>>)
    requires
        queue.len() <= MAX_PENDING_EXPORTS,
    ensures
        enqueued_all(queue, frames) == queue + frames.take(
            if queue.len() + frames.len() <= MAX_PENDING_EXPORTS {
                frames.len() as int
            } else {
                MAX_PENDING_EXPORTS - queue.len()
            },
        ),
    decreases frames.len(),
{
    if frames.len() == 0 {
        assert(queue + frames.take(0) =~= queue);
    } else {
        let before = frames.drop_last();
        law_spans_are_queued_in_order(queue, before);
        if queue.len() + frames.len() <= MAX_PENDING_EXPORTS {
            assert((queue + before.take(before.len() as int)).push(frames.last()) =~= queue
                + frames.take(frames.len() as int));
        } else {
            let room = MAX_PENDING_EXPORTS - queue.len();
            assert(before.take(room) =~= frames.take(room));
        }
    }
}

} // verus!
