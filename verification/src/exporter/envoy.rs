//! OTLP/gRPC export through HTTP streams that Envoy opens.
//!
//! Envoy can open a stream only from within a callback of a request. So finished spans are encoded
//! and queued, and the next request to come by carries what is queued: each frame becomes the body
//! of one stream, and the request waits until all its streams are closed.

use super::frames::{enqueued, frames_view, MAX_PENDING_EXPORTS};
use super::grpc::{header_pairs, verdict_view, GrpcResponse, Header, ResponseView};
use super::{ProviderPlan, ProviderView, SpanProcessor, SpanProcessorView};
use std::collections::{HashMap, VecDeque};
use vstd::prelude::*;
use vstd::utf8::*;

verus! {

/// How long one export stream may take, in milliseconds.
pub const STREAM_TIMEOUT_MS: u64 = 1000;

/// A stream for Envoy to open.
pub struct StreamRequest {
    pub cluster: String,
    pub headers: Vec<(String, Vec<u8>)>,
    pub body: Vec<u8>,
    pub end_stream: bool,
    pub timeout_ms: u64,
}

/// The model of a `StreamRequest`.
pub struct StreamRequestView {
    pub cluster: Seq<char>,
    pub headers: Seq<(Seq<char>, Seq<u8>)>,
    pub body: Seq<u8>,
    pub end_stream: bool,
    pub timeout_ms: u64,
}

impl View for StreamRequest {
    type V = StreamRequestView;

    open spec fn view(&self) -> StreamRequestView {
        StreamRequestView {
            cluster: self.cluster@,
            headers: self.headers@.map_values(|header: (String, Vec<u8>)| (header.0@, header.1@)),
            body: self.body@,
            end_stream: self.end_stream,
            timeout_ms: self.timeout_ms,
        }
    }
}

/// The stream that carries a frame to the collector of a cluster.
pub open spec fn export_request(cluster: Seq<char>, frame: Seq<u8>) -> StreamRequestView {
    StreamRequestView {
        cluster,
        headers: seq![
            (":method"@, encode_utf8("POST"@)),
            (
                ":path"@,
                encode_utf8("/opentelemetry.proto.collector.trace.v1.TraceService/Export"@),
            ),
            ("host"@, encode_utf8(cluster)),
            ("content-type"@, encode_utf8("application/grpc"@)),
            ("te"@, encode_utf8("trailers"@)),
        ],
        body: frame,
        end_stream: true,
        timeout_ms: 1000,
    }
}

/// What happened in the course of an export.
pub enum ExportEvent {
    /// These frames were taken out of the queue to be exported, after any that still are.
    Drained(VecDeque<Vec<u8>>),
    /// Envoy opened the stream asked for, under this id.
    Started(u64),
    /// Envoy did not open the stream asked for.
    Refused,
}

/// What to do next in the course of an export.
pub enum ExportAction {
    /// Ask Envoy to open this stream.
    Start(StreamRequest),
    /// The export is over. The frames go back to the front of the queue, and `waiting` tells
    /// whether the HTTP stream must stay alive for streams that are open.
    Finish { requeue: VecDeque<Vec<u8>>, waiting: bool },
}

/// The model of an `ExportEvent`.
pub enum EventView {
    Drained(Seq<Seq<u8>>),
    Started(u64),
    Refused,
}

/// The model of an `ExportAction`.
pub enum ActionView {
    Start(StreamRequestView),
    Finish { requeue: Seq<Seq<u8>>, waiting: bool },
}

impl View for ExportEvent {
    type V = EventView;

    open spec fn view(&self) -> EventView {
        match self {
            ExportEvent::Drained(frames) => EventView::Drained(frames_view(frames@)),
            ExportEvent::Started(stream_id) => EventView::Started(*stream_id),
            ExportEvent::Refused => EventView::Refused,
        }
    }
}

impl View for ExportAction {
    type V = ActionView;

    open spec fn view(&self) -> ActionView {
        match self {
            ExportAction::Start(request) => ActionView::Start(request@),
            ExportAction::Finish { requeue, waiting } => ActionView::Finish {
                requeue: frames_view(requeue@),
                waiting: *waiting,
            },
        }
    }
}

/// What became of an export stream that ended.
pub struct Completion {
    /// Whether the export succeeded; nothing for a stream that the handle does not own.
    pub report: Option<Result<(), String>>,
    /// Whether this was the last stream that the handle owns.
    pub last: bool,
}

/// The model of a `Completion`.
pub struct CompletionView {
    pub report: Option<Result<(), Seq<char>>>,
    pub last: bool,
}

impl View for Completion {
    type V = CompletionView;

    open spec fn view(&self) -> CompletionView {
        CompletionView {
            report: match self.report {
                Some(report) => Some(verdict_view(report)),
                None => None,
            },
            last: self.last,
        }
    }
}

/// The export streams of one HTTP stream.
pub struct StreamHandle {
    pub cluster: String,
    /// The frames of the export in progress that no stream carries yet; a stream was asked for
    /// to carry the first.
    pub exporting: VecDeque<Vec<u8>>,
    pub in_flight: HashMap<u64, GrpcResponse>,
}

/// The model of a `StreamHandle`.
#[verifier::ext_equal]
pub struct StreamView {
    pub cluster: Seq<char>,
    pub exporting: Seq<Seq<u8>>,
    pub in_flight: Map<u64, ResponseView>,
}

impl View for StreamHandle {
    type V = StreamView;

    open spec fn view(&self) -> StreamView {
        StreamView {
            cluster: self.cluster@,
            exporting: frames_view(self.exporting@),
            in_flight: self.in_flight@.map_values(|response: GrpcResponse| response@),
        }
    }
}

impl StreamView {
    /// Nothing is being exported.
    pub open spec fn idle(cluster: Seq<char>) -> StreamView {
        StreamView { cluster, exporting: Seq::empty(), in_flight: Map::empty() }
    }

    /// Whether export streams are open.
    pub open spec fn waiting(self) -> bool {
        !self.in_flight.is_empty()
    }

    /// What the export in progress asks for next.
    pub open spec fn next_action(self) -> ActionView {
        if self.exporting.len() == 0 {
            ActionView::Finish { requeue: Seq::empty(), waiting: self.waiting() }
        } else {
            ActionView::Start(export_request(self.cluster, self.exporting[0]))
        }
    }

    /// The handle after a stream was opened for the first frame.
    pub open spec fn started(self, stream_id: u64) -> StreamView {
        StreamView {
            exporting: if self.exporting.len() == 0 {
                self.exporting
            } else {
                self.exporting.skip(1)
            },
            in_flight: self.in_flight.insert(stream_id, ResponseView::unanswered()),
            ..self
        }
    }

    /// The handle after an event of an export, and what to do next.
    pub open spec fn export_step(self, event: EventView) -> (StreamView, ActionView) {
        match event {
            EventView::Drained(frames) => {
                let begun = StreamView { exporting: self.exporting + frames, ..self };
                (begun, begun.next_action())
            },
            EventView::Started(stream_id) => {
                let begun = self.started(stream_id);
                (begun, begun.next_action())
            },
            EventView::Refused => (
                StreamView { exporting: Seq::empty(), ..self },
                ActionView::Finish { requeue: self.exporting, waiting: self.waiting() },
            ),
        }
    }

    /// The handle after the response headers of an export stream.
    pub open spec fn headers_seen(
        self,
        stream_id: u64,
        headers: Seq<(Seq<u8>, Seq<u8>)>,
        end_stream: bool,
    ) -> StreamView {
        if self.in_flight.contains_key(stream_id) {
            StreamView {
                in_flight: self.in_flight.insert(
                    stream_id,
                    self.in_flight[stream_id].with_headers(headers, end_stream),
                ),
                ..self
            }
        } else {
            self
        }
    }

    /// The handle after the response trailers of an export stream.
    pub open spec fn trailers_seen(
        self,
        stream_id: u64,
        trailers: Seq<(Seq<u8>, Seq<u8>)>,
    ) -> StreamView {
        if self.in_flight.contains_key(stream_id) {
            StreamView {
                in_flight: self.in_flight.insert(
                    stream_id,
                    self.in_flight[stream_id].with_status(trailers),
                ),
                ..self
            }
        } else {
            self
        }
    }

    /// The handle after an export stream was closed.
    pub open spec fn closed(self, stream_id: u64) -> StreamView {
        StreamView { in_flight: self.in_flight.remove(stream_id), ..self }
    }

    /// Whether this is an open export stream, and the only one.
    pub open spec fn closes_last(self, stream_id: u64) -> bool {
        self.in_flight.contains_key(stream_id) && !self.closed(stream_id).waiting()
    }

    /// What is reported of an export stream that ends now.
    pub open spec fn completion(self, stream_id: u64) -> CompletionView {
        CompletionView {
            report: if self.in_flight.contains_key(stream_id) {
                Some(self.in_flight[stream_id].verdict())
            } else {
                None
            },
            last: self.closes_last(stream_id),
        }
    }
}

/// A header for Envoy.
fn header(name: &str, value: &str) -> (header: (String, Vec<u8>))
    ensures
        header.0@ == name@,
        header.1@ == encode_utf8(value@),
{
    (name.to_owned(), vstd::slice::slice_to_vec(value.as_bytes()))
}

impl StreamHandle {
    /// Whether export streams are open.
    fn waiting(&self) -> (waiting: bool)
        ensures
            waiting == self@.waiting(),
    {
        let waiting = !self.in_flight.is_empty();
        assert(self@.in_flight.dom() =~= self.in_flight@.dom());
        waiting
    }

    /// What the export in progress asks for next.
    fn next_action(&self) -> (action: ExportAction)
        ensures
            action@ == self@.next_action(),
    {
        if self.exporting.len() == 0 {
            let requeue: VecDeque<Vec<u8>> = VecDeque::new();
            assert(frames_view(requeue@) =~= Seq::<Seq<u8>>::empty());
            return ExportAction::Finish { requeue, waiting: self.waiting() };
        }
        let frame = &self.exporting[0];
        let body = frame.clone();
        assert(body@ =~= frame@);
        let mut headers: Vec<(String, Vec<u8>)> = Vec::new();
        headers.push(header(":method", "POST"));
        headers.push(
            header(":path", "/opentelemetry.proto.collector.trace.v1.TraceService/Export"),
        );
        headers.push(header("host", self.cluster.as_str()));
        headers.push(header("content-type", "application/grpc"));
        headers.push(header("te", "trailers"));
        let request = StreamRequest {
            cluster: self.cluster.clone(),
            headers,
            body,
            end_stream: true,
            timeout_ms: STREAM_TIMEOUT_MS,
        };
        assert(request@.headers =~= export_request(self.cluster@, frame@).headers);
        ExportAction::Start(request)
    }

    /// Advances an export by one event: hands the frames to Envoy one by one, oldest first, and
    /// on a refusal gives back those that no stream carries.
    pub fn export_pending(&mut self, event: ExportEvent) -> (action: ExportAction)
        ensures
            (final(self)@, action@) == old(self)@.export_step(event@),
    {
        match event {
            ExportEvent::Drained(frames) => {
                let mut frames = frames;
                self.exporting.append(&mut frames);
                assert(self@.exporting =~= old(self)@.export_step(event@).0.exporting);
                assert(self@ =~= old(self)@.export_step(event@).0);
                self.next_action()
            },
            ExportEvent::Started(stream_id) => {
                let _carried = self.exporting.pop_front();
                self.in_flight.insert(stream_id, GrpcResponse::default());
                assert(self@.exporting =~= old(self)@.started(stream_id).exporting);
                assert(self@ =~= old(self)@.started(stream_id));
                self.next_action()
            },
            ExportEvent::Refused => {
                let mut requeue: VecDeque<Vec<u8>> = VecDeque::new();
                std::mem::swap(&mut requeue, &mut self.exporting);
                assert(self@ =~= old(self)@.export_step(event@).0);
                ExportAction::Finish { requeue, waiting: self.waiting() }
            },
        }
    }

    /// Takes in the response headers of an export stream.
    pub fn on_http_stream_headers(
        &mut self,
        stream_id: u64,
        headers: &[Header<'_>],
        end_stream: bool,
    )
        ensures
            final(self)@ == old(self)@.headers_seen(
                stream_id,
                header_pairs(headers@),
                end_stream,
            ),
    {
        if let Some(response) = self.in_flight.remove(&stream_id) {
            let mut response = response;
            response.record_headers(headers, end_stream);
            self.in_flight.insert(stream_id, response);
        }
        assert(self@ =~= old(self)@.headers_seen(stream_id, header_pairs(headers@), end_stream));
    }

    /// Takes in the response trailers of an export stream.
    pub fn on_http_stream_trailers(&mut self, stream_id: u64, trailers: &[Header<'_>])
        ensures
            final(self)@ == old(self)@.trailers_seen(stream_id, header_pairs(trailers@)),
    {
        if let Some(response) = self.in_flight.remove(&stream_id) {
            let mut response = response;
            response.record_trailers(trailers);
            self.in_flight.insert(stream_id, response);
        }
        assert(self@ =~= old(self)@.trailers_seen(stream_id, header_pairs(trailers@)));
    }

    /// Closes an export stream whose response is complete.
    pub fn on_http_stream_complete(&mut self, stream_id: u64) -> (completion: Completion)
        ensures
            completion@ == old(self)@.completion(stream_id),
            final(self)@ == old(self)@.closed(stream_id),
    {
        let response = self.in_flight.remove(&stream_id);
        assert(self@ =~= old(self)@.closed(stream_id));
        match response {
            None => Completion { report: None, last: false },
            Some(response) => {
                Completion { report: Some(response.validate()), last: !self.waiting() }
            },
        }
    }

    /// Closes an export stream that was reset.
    pub fn on_http_stream_reset(&mut self, stream_id: u64) -> (last: bool)
        ensures
            last == old(self)@.closes_last(stream_id),
            final(self)@ == old(self)@.closed(stream_id),
    {
        let response = self.in_flight.remove(&stream_id);
        assert(self@ =~= old(self)@.closed(stream_id));
        if response.is_none() {
            return false;
        }
        !self.waiting()
    }
}

/// The exports of one HTTP stream. With direct export there are none, and all methods do nothing.
pub struct Handle {
    pub state: Option<StreamHandle>,
}

impl View for Handle {
    type V = Option<StreamView>;

    open spec fn view(&self) -> Option<StreamView> {
        match self.state {
            Some(state) => Some(state@),
            None => None,
        }
    }
}

/// Whether a handle has export streams open.
pub open spec fn handle_waiting(handle: Option<StreamView>) -> bool {
    handle is Some && handle->0.waiting()
}

/// A handle after an event of an export, and what to do next.
pub open spec fn handle_export_step(handle: Option<StreamView>, event: EventView) -> (
    Option<StreamView>,
    ActionView,
) {
    match handle {
        Some(state) => {
            let (state, action) = state.export_step(event);
            (Some(state), action)
        },
        None => (
            None,
            ActionView::Finish {
                requeue: match event {
                    EventView::Drained(frames) => frames,
                    _ => Seq::empty(),
                },
                waiting: false,
            },
        ),
    }
}

/// A handle after an export stream was closed.
pub open spec fn handle_closed(handle: Option<StreamView>, stream_id: u64) -> Option<StreamView> {
    match handle {
        Some(state) => Some(state.closed(stream_id)),
        None => None,
    }
}

/// Whether this is the only export stream that a handle has open.
pub open spec fn handle_closes_last(handle: Option<StreamView>, stream_id: u64) -> bool {
    handle is Some && handle->0.closes_last(stream_id)
}

/// What a handle reports of an export stream that ends now.
pub open spec fn handle_completion(handle: Option<StreamView>, stream_id: u64) -> CompletionView {
    match handle {
        Some(state) => state.completion(stream_id),
        None => CompletionView { report: None, last: false },
    }
}

impl Handle {
    /// The handle of direct export.
    pub fn direct() -> (handle: Handle)
        ensures
            handle@ is None,
    {
        Handle { state: None }
    }

    /// Advances an export by one event.
    pub fn export_pending(&mut self, event: ExportEvent) -> (action: ExportAction)
        ensures
            (final(self)@, action@) == handle_export_step(old(self)@, event@),
    {
        match self.state.take() {
            Some(state) => {
                let mut state = state;
                let action = state.export_pending(event);
                self.state = Some(state);
                action
            },
            None => {
                let requeue = match event {
                    ExportEvent::Drained(frames) => frames,
                    _ => VecDeque::new(),
                };
                assert(event@ !is Drained ==> frames_view(requeue@) =~= Seq::<Seq<u8>>::empty());
                ExportAction::Finish { requeue, waiting: false }
            },
        }
    }

    /// Takes in the response headers of an export stream.
    pub fn on_http_stream_headers(
        &mut self,
        stream_id: u64,
        headers: &[Header<'_>],
        end_stream: bool,
    )
        ensures
            match old(self)@ {
                Some(state) => final(self)@ == Some(
                    state.headers_seen(stream_id, header_pairs(headers@), end_stream),
                ),
                None => final(self)@ is None,
            },
    {
        if let Some(state) = self.state.take() {
            let mut state = state;
            state.on_http_stream_headers(stream_id, headers, end_stream);
            self.state = Some(state);
        }
    }

    /// Takes in the response trailers of an export stream.
    pub fn on_http_stream_trailers(&mut self, stream_id: u64, trailers: &[Header<'_>])
        ensures
            match old(self)@ {
                Some(state) => final(self)@ == Some(
                    state.trailers_seen(stream_id, header_pairs(trailers@)),
                ),
                None => final(self)@ is None,
            },
    {
        if let Some(state) = self.state.take() {
            let mut state = state;
            state.on_http_stream_trailers(stream_id, trailers);
            self.state = Some(state);
        }
    }

    /// Closes an export stream whose response is complete.
    pub fn on_http_stream_complete(&mut self, stream_id: u64) -> (completion: Completion)
        ensures
            completion@ == handle_completion(old(self)@, stream_id),
            final(self)@ == handle_closed(old(self)@, stream_id),
    {
        match self.state.take() {
            Some(state) => {
                let mut state = state;
                let completion = state.on_http_stream_complete(stream_id);
                self.state = Some(state);
                completion
            },
            None => Completion { report: None, last: false },
        }
    }

    /// Closes an export stream that was reset. Returns whether it was the last one.
    pub fn on_http_stream_reset(&mut self, stream_id: u64) -> (last: bool)
        ensures
            last == handle_closes_last(old(self)@, stream_id),
            final(self)@ == handle_closed(old(self)@, stream_id),
    {
        match self.state.take() {
            Some(state) => {
                let mut state = state;
                let last = state.on_http_stream_reset(stream_id);
                self.state = Some(state);
                last
            },
            None => false,
        }
    }
}

/// Makes the export handle of each HTTP stream.
pub struct HandleFactory {
    pub cluster: String,
}

impl HandleFactory {
    /// The handle of a stream that has exported nothing yet.
    pub fn new_handle(&self) -> (handle: Handle)
        ensures
            handle@ == Some(StreamView::idle(self.cluster@)),
    {
        let state = StreamHandle {
            cluster: self.cluster.clone(),
            exporting: VecDeque::new(),
            in_flight: HashMap::new(),
        };
        assert(state@ =~= StreamView::idle(self.cluster@));
        Handle { state: Some(state) }
    }
}

/// The provider that queues each span as it ends. A batch would be exported on a thread of its
/// own, where no request is at hand to carry it.
pub open spec fn envoy_provider(service_name: Seq<char>) -> ProviderView {
    ProviderView { service_name, processor: SpanProcessorView::Simple }
}

/// Plans a provider that queues each span as it ends, and the handles that carry the queue.
pub fn build_provider(cluster: String, service_name: String) -> (built: (
    ProviderPlan,
    HandleFactory,
))
    ensures
        built.0@ == envoy_provider(service_name@),
        built.1.cluster@ == cluster@,
{
    (
        ProviderPlan { service_name, processor: SpanProcessor::Simple },
        HandleFactory { cluster },
    )
}

/// The export streams that are open after Envoy opened these in turn.
pub open spec fn opened(in_flight: Map<u64, ResponseView>, stream_ids: Seq<u64>) -> Map<
    u64,
    ResponseView,
>
    decreases stream_ids.len(),
{
    if stream_ids.len() == 0 {
        in_flight
    } else {
        opened(in_flight, stream_ids.drop_last()).insert(
            stream_ids.last(),
            ResponseView::unanswered(),
        )
    }
}

/// The handle after an export began with some frames and Envoy opened these streams in turn, and
/// what to do next.
pub open spec fn export_run(
    handle: StreamView,
    frames: Seq<Seq<u8>>,
    stream_ids: Seq<u64>,
) -> (StreamView, ActionView)
    decreases stream_ids.len(),
{
    if stream_ids.len() == 0 {
        handle.export_step(EventView::Drained(frames))
    } else {
        export_run(handle, frames, stream_ids.drop_last()).0.export_step(
            EventView::Started(stream_ids.last()),
        )
    }
}

/// An export hands the frames to Envoy in their order, each once, after those of an export that was
/// still going on. When Envoy refuses a stream, the frames that go back to the queue are those that
/// no stream carries, in their order, and the request waits exactly if an export stream is open. In
/// front of frames that were queued meanwhile they stand as if only the ones sent had ever left the
/// queue.
pub proof fn law_frames_go_out_in_order(
    handle: StreamView,
    frames: Seq<Seq<u8>>,
    stream_ids: Seq<u64>,
    later: Seq<Seq<u8>>,
)
    requires
        stream_ids.len() <= handle.exporting.len() + frames.len(),
    ensures
        ({
            let all = handle.exporting + frames;
            let sent = stream_ids.len() as int;
            let (state, action) = export_run(handle, frames, stream_ids);
            &&& state.cluster == handle.cluster
            &&& state.exporting == all.skip(sent)
            &&& state.in_flight == opened(handle.in_flight, stream_ids)
            &&& state.waiting() == (handle.waiting() || sent > 0)
            &&& sent < all.len() ==> action == ActionView::Start(
                export_request(handle.cluster, all[sent]),
            )
            &&& sent == all.len() ==> action == (ActionView::Finish {
                requeue: Seq::empty(),
                waiting: state.waiting(),
            })
            &&& state.export_step(EventView::Refused).1 == (ActionView::Finish {
                requeue: all.skip(sent),
                waiting: state.waiting(),
            })
            &&& all.skip(sent) + later == (all + later).skip(sent)
        }),
    decreases stream_ids.len(),
{
    let all = handle.exporting + frames;
    let sent = stream_ids.len() as int;
    assert(all.skip(sent) + later =~= (all + later).skip(sent));
    if stream_ids.len() == 0 {
        assert(all.skip(0) =~= all);
    } else {
        law_frames_go_out_in_order(handle, frames, stream_ids.drop_last(), later);
        assert(all.skip(sent - 1).skip(1) =~= all.skip(sent));
        let state = export_run(handle, frames, stream_ids).0;
        assert(state.in_flight.dom().contains(stream_ids.last()));
    }
}

/// A span that ends while the queue is not full is sent by whichever handle exports next, to the
/// cluster of that handle, as the last of the frames that waited. The provider hands each span over
/// as it ends, and a handle that is made anew owns no stream of another.
pub proof fn law_ended_span_is_sent_next(
    handle: StreamView,
    queue: Seq<Seq<u8>>,
    frame: Seq<u8>,
    stream_ids: Seq<u64>,
    last_id: u64,
    service_name: Seq<char>,
)
    requires
        queue.len() < MAX_PENDING_EXPORTS,
        stream_ids.len() == handle.exporting.len() + queue.len(),
    ensures
        ({
            let waiting = enqueued(queue, Ok(frame)).0;
            let (state, action) = export_run(handle, waiting, stream_ids);
            let (done, end) = export_run(handle, waiting, stream_ids.push(last_id));
            &&& action == ActionView::Start(export_request(handle.cluster, frame))
            &&& state.exporting == seq![frame]
            &&& end == (ActionView::Finish { requeue: Seq::empty(), waiting: true })
            &&& done.in_flight.contains_key(last_id)
        }),
        envoy_provider(service_name).processor is Simple,
        !StreamView::idle(handle.cluster).in_flight.contains_key(last_id),
{
    let waiting = enqueued(queue, Ok(frame)).0;
    law_frames_go_out_in_order(handle, waiting, stream_ids, Seq::empty());
    law_frames_go_out_in_order(handle, waiting, stream_ids.push(last_id), Seq::empty());
    assert((handle.exporting + waiting).skip(stream_ids.len() as int) =~= seq![frame]);
    assert(stream_ids.push(last_id).drop_last() =~= stream_ids);
}

/// Closing an export stream is reported as the last exactly if it was the only one open.
pub proof fn law_last_stream_is_noticed(handle: StreamView, stream_id: u64)
    ensures
        handle.closes_last(stream_id) <==> handle.in_flight.dom() == set![stream_id],
{
    if handle.closes_last(stream_id) {
        assert forall|id: u64| handle.in_flight.dom().contains(id) implies id == stream_id by {
            if id != stream_id {
                assert(handle.closed(stream_id).in_flight.dom().contains(id));
            }
        }
        assert(handle.in_flight.dom() =~= set![stream_id]);
    }
    if handle.in_flight.dom() == set![stream_id] {
        assert(handle.in_flight.dom().contains(stream_id));
        assert(handle.closed(stream_id).in_flight.dom() =~= Set::empty());
    }
}

/// With direct export a handle opens no stream, gives back every frame and never waits.
pub proof fn law_direct_export_does_nothing(frames: Seq<Seq<u8>>, event: EventView, stream_id: u64)
    ensures
        handle_export_step(None, event).0 is None,
        handle_export_step(None, event).1 is Finish,
        !handle_export_step(None, event).1->waiting,
        handle_export_step(None, EventView::Drained(frames)).1->requeue == frames,
        handle_closed(None, stream_id) is None,
        !handle_closes_last(None, stream_id),
        handle_completion(None, stream_id) == (CompletionView { report: None, last: false }),
{
}

} // verus!
