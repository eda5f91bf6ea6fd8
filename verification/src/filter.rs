//! The filter of one HTTP stream.
//!
//! The request is held up until its mapping is stored, the response until its time is stored. A
//! storage operation runs elsewhere; when it is done, Envoy schedules an event, and on that event
//! the stream exports finished spans and goes on. If export streams are open then, it goes on once
//! the last of them is closed.

use crate::error::StorageErrorView;
use crate::exporter::envoy::{
    handle_closed, handle_closes_last, handle_completion, handle_export_step, handle_waiting,
    ActionView, Completion, EventView, ExportAction, ExportEvent, Handle, StreamRequest,
    StreamRequestView, StreamView,
};
use crate::exporter::frames::frames_view;
use crate::exporter::grpc::{header_pairs, Header};
use crate::operation::{
    event_id_of, outcome_of, OperationOutcome, OperationType, OperationView, OutcomeView,
    PendingOperation, PendingRequests, PendingView,
};
use crate::request_id::{hyphenated, is_version_4, RequestId};
use crate::spanner::{request_mutation, response_mutation, Mutation, MutationView, SpannerClient};
use crate::telemetry::{
    active_context, active_parent_context, spanner_span, start_spanner_span, ActiveSpan,
    ParentContext, SpanPlan, SpanPlanView,
};
use std::collections::VecDeque;
use vstd::prelude::*;

verus! {

/// A storage operation to run while the stream is held up.
pub struct StoreOperation {
    pub event_id: u64,
    pub mutation: Mutation,
    /// How long the operation may take, in milliseconds.
    pub timeout_ms: u64,
    /// The span around the operation.
    pub span: Option<SpanPlan>,
    /// Why no span could be made, where that turned out just now.
    pub untraced: Option<String>,
}

/// The model of a `StoreOperation`.
pub struct StoreOperationView {
    pub event_id: u64,
    pub mutation: MutationView,
    pub timeout_ms: u64,
    pub span: Option<SpanPlanView>,
    pub untraced: Option<Seq<char>>,
}

impl View for StoreOperation {
    type V = StoreOperationView;

    open spec fn view(&self) -> StoreOperationView {
        StoreOperationView {
            event_id: self.event_id,
            mutation: self.mutation@,
            timeout_ms: self.timeout_ms,
            span: match self.span {
                Some(span) => Some(span@),
                None => None,
            },
            untraced: match self.untraced {
                Some(reason) => Some(reason@),
                None => None,
            },
        }
    }
}

/// What to do about headers that came in.
pub enum HeadersStep {
    /// Let them pass.
    Continue,
    /// Stop all iteration and run this operation.
    Pause(StoreOperation),
}

/// The model of a `HeadersStep`.
pub enum HeadersStepView {
    Continue,
    Pause(StoreOperationView),
}

impl View for HeadersStep {
    type V = HeadersStepView;

    open spec fn view(&self) -> HeadersStepView {
        match self {
            HeadersStep::Continue => HeadersStepView::Continue,
            HeadersStep::Pause(operation) => HeadersStepView::Pause(operation@),
        }
    }
}

/// Something to do to the HTTP stream.
#[derive(Debug, PartialEq, Eq)]
pub enum StreamAction {
    SetRequestHeader { name: String, value: String },
    ContinueDecoding,
    ContinueEncoding,
}

/// The model of a `StreamAction`.
pub enum StreamActionView {
    SetRequestHeader { name: Seq<char>, value: Seq<char> },
    ContinueDecoding,
    ContinueEncoding,
}

impl View for StreamAction {
    type V = StreamActionView;

    open spec fn view(&self) -> StreamActionView {
        match self {
            StreamAction::SetRequestHeader { name, value } => StreamActionView::SetRequestHeader {
                name: name@,
                value: value@,
            },
            StreamAction::ContinueDecoding => StreamActionView::ContinueDecoding,
            StreamAction::ContinueEncoding => StreamActionView::ContinueEncoding,
        }
    }
}

/// The action that lets the stream go on after an operation on this path.
pub open spec fn resume(operation_type: OperationType) -> StreamActionView {
    match operation_type {
        OperationType::Request => StreamActionView::ContinueDecoding,
        OperationType::Response => StreamActionView::ContinueEncoding,
    }
}

/// An operation that the stream need not wait for any longer.
#[derive(Debug, PartialEq, Eq)]
pub struct Finished {
    pub event_id: u64,
    pub operation: PendingOperation,
    /// What to do to the stream, in this order.
    pub actions: Vec<StreamAction>,
}

/// The model of a `Finished`.
pub struct FinishedView {
    pub event_id: u64,
    pub operation: OperationView,
    pub actions: Seq<StreamActionView>,
}

impl View for Finished {
    type V = FinishedView;

    open spec fn view(&self) -> FinishedView {
        FinishedView {
            event_id: self.event_id,
            operation: self.operation@,
            actions: self.actions@.map_values(|action: StreamAction| action@),
        }
    }
}

/// The model of an optional `Finished`.
pub open spec fn optional_finished(finished: Option<Finished>) -> Option<FinishedView> {
    match finished {
        Some(finished) => Some(finished@),
        None => None,
    }
}

/// What a scheduled event leads to.
pub enum Scheduled {
    /// The event stands for no operation: let the stream go on.
    Missing(StreamAction),
    /// Export finished spans, then the operation is settled.
    Export,
}

/// What to do next while spans are exported for a scheduled event.
pub enum ExportStep {
    /// Ask Envoy to open this stream.
    Start(StreamRequest),
    /// The export is over: the frames go back to the front of the queue, and the operation may be
    /// finished.
    Settled { requeue: VecDeque<Vec<u8>>, finished: Option<Finished> },
}

/// The model of an `ExportStep`.
pub enum ExportStepView {
    Start(StreamRequestView),
    Settled { requeue: Seq<Seq<u8>>, finished: Option<FinishedView> },
}

impl View for ExportStep {
    type V = ExportStepView;

    open spec fn view(&self) -> ExportStepView {
        match self {
            ExportStep::Start(request) => ExportStepView::Start(request@),
            ExportStep::Settled { requeue, finished } => ExportStepView::Settled {
                requeue: frames_view(requeue@),
                finished: optional_finished(*finished),
            },
        }
    }
}

/// The filter of one HTTP stream.
pub struct Filter {
    pub spanner: SpannerClient,
    /// The id under which the request was stored.
    pub request_id: Option<RequestId>,
    pub operation_timeout_ms: u64,
    pub exporter: Handle,
    pub parent_context: Option<ParentContext>,
    /// The operation whose event is being handled.
    pub scheduled_operation: Option<(u64, PendingOperation)>,
    /// The operation that waits for export streams to close.
    pub deferred_operation: Option<(u64, PendingOperation)>,
}

/// The model of an operation with its event id.
pub open spec fn event_operation(operation: Option<(u64, PendingOperation)>) -> Option<
    (u64, OperationView),
> {
    match operation {
        Some((event_id, operation)) => Some((event_id, operation@)),
        None => None,
    }
}

/// The model of a `Filter`.
pub struct FilterView {
    pub database: Seq<char>,
    pub request_id: Option<RequestId>,
    pub operation_timeout_ms: u64,
    pub exporter: Option<StreamView>,
    pub parent_context: Option<ParentContext>,
    pub scheduled_operation: Option<(u64, OperationView)>,
    pub deferred_operation: Option<(u64, OperationView)>,
}

impl View for Filter {
    type V = FilterView;

    open spec fn view(&self) -> FilterView {
        FilterView {
            database: self.spanner.database@,
            request_id: self.request_id,
            operation_timeout_ms: self.operation_timeout_ms,
            exporter: self.exporter@,
            parent_context: self.parent_context,
            scheduled_operation: event_operation(self.scheduled_operation),
            deferred_operation: event_operation(self.deferred_operation),
        }
    }
}

impl FilterView {
    /// A filter never waits for export streams when none is open, and its operations are bounded.
    pub open spec fn wf(self) -> bool {
        &&& self.deferred_operation is Some ==> handle_waiting(self.exporter)
        &&& self.operation_timeout_ms > 0
    }

    /// The filter with its exports in another state.
    pub open spec fn with_exporter(self, exporter: Option<StreamView>) -> FilterView {
        FilterView { exporter, ..self }
    }

    /// The filter after request headers.
    pub open spec fn request_seen(self, active: Option<ActiveSpan>) -> FilterView {
        FilterView {
            parent_context: match active_context(active) {
                Ok(context) => Some(context),
                Err(_) => None,
            },
            ..self
        }
    }

    /// What request headers lead to: the request is stored.
    pub open spec fn request_step(
        self,
        pending: PendingView,
        uuid: RequestId,
        active: Option<ActiveSpan>,
    ) -> HeadersStepView {
        HeadersStepView::Pause(
            StoreOperationView {
                event_id: event_id_of(pending.next_sequence, OperationType::Request),
                mutation: request_mutation(uuid),
                timeout_ms: self.operation_timeout_ms,
                span: match active_context(active) {
                    Ok(context) => Some(
                        spanner_span(context, "spanner.insert_request_mapping"@, "INSERT"@, uuid),
                    ),
                    Err(_) => None,
                },
                untraced: match active_context(active) {
                    Ok(_) => None,
                    Err(reason) => Some(reason),
                },
            },
        )
    }

    /// What response headers lead to: the time of the response is stored, if the request was.
    pub open spec fn response_step(self, pending: PendingView) -> HeadersStepView {
        match self.request_id {
            None => HeadersStepView::Continue,
            Some(uuid) => HeadersStepView::Pause(
                StoreOperationView {
                    event_id: event_id_of(pending.next_sequence, OperationType::Response),
                    mutation: response_mutation(uuid),
                    timeout_ms: self.operation_timeout_ms,
                    span: match self.parent_context {
                        Some(context) => Some(
                            spanner_span(
                                context,
                                "spanner.update_response_timestamp"@,
                                "UPDATE"@,
                                uuid,
                            ),
                        ),
                        None => None,
                    },
                    untraced: None,
                },
            ),
        }
    }

    /// The table of pending operations after response headers.
    pub open spec fn response_pending(self, pending: PendingView) -> PendingView {
        match self.request_id {
            None => pending,
            Some(uuid) => pending.inserted(uuid, OperationType::Response),
        }
    }

    /// The filter after an operation was finished.
    pub open spec fn after_operation(self, operation: OperationView) -> FilterView {
        if operation.operation_type == OperationType::Request && operation.outcome
            == OutcomeView::Succeeded {
            FilterView { request_id: Some(operation.uuid), ..self }
        } else {
            self
        }
    }

    /// The filter after a scheduled event.
    pub open spec fn scheduled(self, pending: PendingView, event_id: u64) -> FilterView {
        match pending.lookup(event_id) {
            Some(operation) => FilterView {
                scheduled_operation: Some((event_id, operation)),
                ..self
            },
            None => self,
        }
    }

    /// The filter after an event of an export, and what to do next. When the export is over, the
    /// scheduled operation is finished, or put off until the open export streams are closed.
    pub open spec fn export_step(self, event: EventView) -> (FilterView, ExportStepView) {
        let (exporter, action) = handle_export_step(self.exporter, event);
        let exported = self.with_exporter(exporter);
        match action {
            ActionView::Start(request) => (exported, ExportStepView::Start(request)),
            ActionView::Finish { requeue, waiting } => {
                let settled = FilterView { scheduled_operation: None, ..exported };
                match self.scheduled_operation {
                    None => (settled, ExportStepView::Settled { requeue, finished: None }),
                    Some((event_id, operation)) => {
                        if waiting {
                            (
                                FilterView {
                                    deferred_operation: Some((event_id, operation)),
                                    ..settled
                                },
                                ExportStepView::Settled { requeue, finished: None },
                            )
                        } else {
                            (
                                settled.after_operation(operation),
                                ExportStepView::Settled {
                                    requeue,
                                    finished: Some(finish(event_id, operation)),
                                },
                            )
                        }
                    },
                }
            },
        }
    }

    /// The filter once its exports are done, if they are, and the operation that this finishes.
    pub open spec fn exports_done(self, done: bool) -> (FilterView, Option<FinishedView>) {
        if done {
            let resumed = FilterView { deferred_operation: None, ..self };
            match self.deferred_operation {
                Some((event_id, operation)) => (
                    resumed.after_operation(operation),
                    Some(finish(event_id, operation)),
                ),
                None => (resumed, None),
            }
        } else {
            (self, None)
        }
    }

    /// The filter after an export stream was closed, and the operation that this finishes.
    pub open spec fn stream_closed(self, stream_id: u64) -> (FilterView, Option<FinishedView>) {
        self.with_exporter(handle_closed(self.exporter, stream_id)).exports_done(
            handle_closes_last(self.exporter, stream_id),
        )
    }
}

/// What is done to the stream when an operation is finished. After the request was stored, it gets
/// its id as a header; in any case the stream goes on.
pub open spec fn finish(event_id: u64, operation: OperationView) -> FinishedView {
    FinishedView {
        event_id,
        operation,
        actions: if operation.operation_type == OperationType::Request && operation.outcome
            == OutcomeView::Succeeded {
            seq![
                StreamActionView::SetRequestHeader {
                    name: "x-request-id"@,
                    value: hyphenated(operation.uuid.bits as int),
                },
                StreamActionView::ContinueDecoding,
            ]
        } else {
            seq![resume(operation.operation_type)]
        },
    }
}

impl Filter {
    /// Lets the stream go on after an event that stands for no operation, on the path that the
    /// event id tells.
    pub fn continue_after_missing_event(event_id: u64) -> (action: StreamAction)
        ensures
            action@ == resume(OperationType::of_event(event_id)),
    {
        match OperationType::from_event_id(event_id) {
            OperationType::Request => StreamAction::ContinueDecoding,
            OperationType::Response => StreamAction::ContinueEncoding,
        }
    }

    /// Finishes an operation, whatever came of it.
    pub fn finish_operation(&mut self, event_id: u64, operation: PendingOperation) -> (finished:
        Finished)
        ensures
            finished@ == finish(event_id, operation@),
            final(self)@ == old(self)@.after_operation(operation@),
    {
        let mut actions: Vec<StreamAction> = Vec::new();
        match (operation.operation_type, &operation.outcome) {
            (OperationType::Request, OperationOutcome::Succeeded) => {
                self.request_id = Some(operation.uuid);
                actions.push(
                    StreamAction::SetRequestHeader {
                        name: "x-request-id".to_owned(),
                        value: operation.uuid.to_string(),
                    },
                );
                actions.push(StreamAction::ContinueDecoding);
            },
            (OperationType::Request, OperationOutcome::Failed(_)) => {
                actions.push(StreamAction::ContinueDecoding);
            },
            (OperationType::Response, OperationOutcome::Succeeded) => {
                actions.push(StreamAction::ContinueEncoding);
            },
            (OperationType::Response, OperationOutcome::Failed(_)) => {
                actions.push(StreamAction::ContinueEncoding);
            },
            (operation_type, OperationOutcome::Pending) => {
                match operation_type {
                    OperationType::Request => actions.push(StreamAction::ContinueDecoding),
                    OperationType::Response => actions.push(StreamAction::ContinueEncoding),
                }
            },
        }
        let finished = Finished { event_id, operation, actions };
        assert(finished@.actions =~= finish(event_id, operation@).actions);
        finished
    }

    /// Starts to store the request under a fresh random id.
    pub fn on_request_headers(
        &mut self,
        pending: &mut PendingRequests,
        active: Option<ActiveSpan>,
    ) -> (step: HeadersStep)
        ensures
            exists|uuid: RequestId|
                {
                    &&& is_version_4(uuid.bits as int)
                    &&& step@ == old(self)@.request_step(old(pending)@, uuid, active)
                    &&& final(pending)@ == #[trigger] old(pending)@.inserted(
                        uuid,
                        OperationType::Request,
                    )
                },
            final(self)@ == old(self)@.request_seen(active),
    {
        let uuid = RequestId::new_v4();
        self.store_request(pending, uuid, active)
    }

    /// Starts to store the request under this id.
    pub fn store_request(
        &mut self,
        pending: &mut PendingRequests,
        uuid: RequestId,
        active: Option<ActiveSpan>,
    ) -> (step: HeadersStep)
        ensures
            step@ == old(self)@.request_step(old(pending)@, uuid, active),
            final(self)@ == old(self)@.request_seen(active),
            final(pending)@ == old(pending)@.inserted(uuid, OperationType::Request),
    {
        let event_id = pending.insert(uuid, OperationType::Request);
        let untraced = match active_parent_context(active) {
            Ok(context) => {
                self.parent_context = Some(context);
                None
            },
            Err(error) => {
                self.parent_context = None;
                Some(error)
            },
        };
        let span = match self.parent_context {
            Some(parent) => Some(
                start_spanner_span(parent, "spanner.insert_request_mapping", "INSERT", uuid),
            ),
            None => None,
        };
        HeadersStep::Pause(
            StoreOperation {
                event_id,
                mutation: self.spanner.insert_request_mapping(uuid),
                timeout_ms: self.operation_timeout_ms,
                span,
                untraced,
            },
        )
    }

    /// Starts to store the time of the response, if the request was stored.
    pub fn on_response_headers(&self, pending: &mut PendingRequests) -> (step: HeadersStep)
        ensures
            step@ == self@.response_step(old(pending)@),
            final(pending)@ == self@.response_pending(old(pending)@),
    {
        let uuid = match self.request_id {
            Some(uuid) => uuid,
            None => {
                return HeadersStep::Continue;
            },
        };
        let event_id = pending.insert(uuid, OperationType::Response);
        let span = match self.parent_context {
            Some(parent) => Some(
                start_spanner_span(parent, "spanner.update_response_timestamp", "UPDATE", uuid),
            ),
            None => None,
        };
        HeadersStep::Pause(
            StoreOperation {
                event_id,
                mutation: self.spanner.update_response_timestamp(uuid),
                timeout_ms: self.operation_timeout_ms,
                span,
                untraced: None,
            },
        )
    }

    /// Collects the operation that a scheduled event stands for.
    pub fn on_scheduled(&mut self, pending: &mut PendingRequests, event_id: u64) -> (next:
        Scheduled)
        ensures
            match old(pending)@.lookup(event_id) {
                Some(_) => next is Export,
                None => next matches Scheduled::Missing(action) && action@ == resume(
                    OperationType::of_event(event_id),
                ),
            },
            final(self)@ == old(self)@.scheduled(old(pending)@, event_id),
            final(pending)@ == old(pending)@.removed(event_id),
    {
        match pending.remove(event_id) {
            None => Scheduled::Missing(Filter::continue_after_missing_event(event_id)),
            Some(operation) => {
                self.scheduled_operation = Some((event_id, operation));
                Scheduled::Export
            },
        }
    }

    /// Advances the export that goes before the scheduled operation, and settles the operation
    /// when the export is over.
    pub fn on_export_event(&mut self, event: ExportEvent) -> (step: ExportStep)
        ensures
            (final(self)@, step@) == old(self)@.export_step(event@),
    {
        match self.exporter.export_pending(event) {
            ExportAction::Start(request) => ExportStep::Start(request),
            ExportAction::Finish { requeue, waiting } => {
                let finished = match self.scheduled_operation.take() {
                    None => None,
                    Some((event_id, operation)) => {
                        if waiting {
                            self.deferred_operation = Some((event_id, operation));
                            None
                        } else {
                            Some(self.finish_operation(event_id, operation))
                        }
                    },
                };
                ExportStep::Settled { requeue, finished }
            },
        }
    }

    /// Finishes the operation that was put off, once the exports of this stream are done.
    pub fn on_http_callout_done(&mut self, exports_done: bool) -> (finished: Option<Finished>)
        ensures
            (final(self)@, optional_finished(finished)) == old(self)@.exports_done(exports_done),
    {
        if exports_done {
            if let Some((event_id, operation)) = self.deferred_operation.take() {
                return Some(self.finish_operation(event_id, operation));
            }
        }
        None
    }

    /// Takes in the response headers of an export stream.
    pub fn on_http_stream_headers(
        &mut self,
        stream_id: u64,
        headers: &[Header<'_>],
        end_stream: bool,
    )
        ensures
            final(self)@ == old(self)@.with_exporter(
                match old(self)@.exporter {
                    Some(state) => Some(
                        state.headers_seen(stream_id, header_pairs(headers@), end_stream),
                    ),
                    None => None,
                },
            ),
    {
        self.exporter.on_http_stream_headers(stream_id, headers, end_stream);
    }

    /// Takes in the response trailers of an export stream.
    pub fn on_http_stream_trailers(&mut self, stream_id: u64, trailers: &[Header<'_>])
        ensures
            final(self)@ == old(self)@.with_exporter(
                match old(self)@.exporter {
                    Some(state) => Some(state.trailers_seen(stream_id, header_pairs(trailers@))),
                    None => None,
                },
            ),
    {
        self.exporter.on_http_stream_trailers(stream_id, trailers);
    }

    /// Closes an export stream whose response is complete.
    pub fn on_http_stream_complete(&mut self, stream_id: u64) -> (closed: (
        Completion,
        Option<Finished>,
    ))
        ensures
            closed.0@ == handle_completion(old(self)@.exporter, stream_id),
            (final(self)@, optional_finished(closed.1)) == old(self)@.stream_closed(stream_id),
    {
        let completion = self.exporter.on_http_stream_complete(stream_id);
        let finished = self.on_http_callout_done(completion.last);
        (completion, finished)
    }

    /// Closes an export stream that was reset.
    pub fn on_http_stream_reset(&mut self, stream_id: u64) -> (finished: Option<Finished>)
        ensures
            (final(self)@, optional_finished(finished)) == old(self)@.stream_closed(stream_id),
    {
        let last = self.exporter.on_http_stream_reset(stream_id);
        self.on_http_callout_done(last)
    }
}

/// Whether the stream goes on exactly once, on this path, and only as the last thing done to it.
pub open spec fn resumes_once(
    actions: Seq<StreamActionView>,
    operation_type: OperationType,
) -> bool {
    &&& actions.len() > 0
    &&& actions.last() == resume(operation_type)
    &&& forall|i: int| 0 <= i < actions.len() - 1 ==> #[trigger] actions[i] is SetRequestHeader
}

/// Finishing an operation lets the stream go on exactly once, on the path of the operation,
/// whether it succeeded, failed or never ran.
pub proof fn law_finishing_resumes_once(event_id: u64, operation: OperationView)
    ensures
        resumes_once(finish(event_id, operation).actions, operation.operation_type),
{
}

/// A request gets its id, as a header and for the response, exactly if its mapping was stored.
pub proof fn law_id_follows_commit(filter: FilterView, event_id: u64, operation: OperationView)
    ensures
        ({
            let stored = operation.operation_type == OperationType::Request && operation.outcome
                == OutcomeView::Succeeded;
            let actions = finish(event_id, operation).actions;
            &&& actions.contains(
                StreamActionView::SetRequestHeader {
                    name: "x-request-id"@,
                    value: hyphenated(operation.uuid.bits as int),
                },
            ) <==> stored
            &&& filter.after_operation(operation).request_id == if stored {
                Some(operation.uuid)
            } else {
                filter.request_id
            }
        }),
{
    let actions = finish(event_id, operation).actions;
    let header = StreamActionView::SetRequestHeader {
        name: "x-request-id"@,
        value: hyphenated(operation.uuid.bits as int),
    };
    if operation.operation_type == OperationType::Request && operation.outcome
        == OutcomeView::Succeeded {
        assert(actions[0] == header);
    } else {
        assert forall|i: int| 0 <= i < actions.len() implies actions[i] != header by {}
    }
}

/// All that happens to a filter keeps it from waiting for export streams when none is open.
pub proof fn law_filter_stays_well_formed(
    filter: FilterView,
    active: Option<ActiveSpan>,
    pending: PendingView,
    event_id: u64,
    event: EventView,
    stream_id: u64,
    headers: Seq<(Seq<u8>, Seq<u8>)>,
    end_stream: bool,
    done: bool,
)
    requires
        filter.wf(),
    ensures
        filter.request_seen(active).wf(),
        filter.scheduled(pending, event_id).wf(),
        filter.export_step(event).0.wf(),
        filter.stream_closed(stream_id).0.wf(),
        filter.exports_done(done).0.wf(),
        filter.exporter matches Some(state) ==> {
            &&& filter.with_exporter(
                Some(state.headers_seen(stream_id, headers, end_stream)),
            ).wf()
            &&& filter.with_exporter(Some(state.trailers_seen(stream_id, headers))).wf()
        },
{
    if let Some(state) = filter.exporter {
        if state.waiting() {
            let open = choose|id: u64| state.in_flight.dom().contains(id);
            assert(state.in_flight.dom().contains(open)) by {
                if forall|id: u64| !state.in_flight.dom().contains(id) {
                    assert(state.in_flight.dom() =~= Set::empty());
                }
            }
            assert(state.headers_seen(stream_id, headers, end_stream).in_flight.dom().contains(
                open,
            ));
            assert(state.trailers_seen(stream_id, headers).in_flight.dom().contains(open));
            assert(state.export_step(event).0.in_flight.dom().contains(open));
        }
        if !state.in_flight.contains_key(stream_id) {
            assert(state.closed(stream_id).in_flight =~= state.in_flight);
        }
    }
}

/// When the export that goes before a scheduled operation is over, the operation is finished, or
/// it is put off and an export stream is open.
pub proof fn law_scheduled_operation_is_settled(
    filter: FilterView,
    event: EventView,
    event_id: u64,
    operation: OperationView,
)
    requires
        filter.scheduled_operation == Some((event_id, operation)),
    ensures
        ({
            let (after, step) = filter.export_step(event);
            match step {
                ExportStepView::Start(_) => after.scheduled_operation
                    == filter.scheduled_operation,
                ExportStepView::Settled { finished: Some(finished), .. } => {
                    &&& finished == finish(event_id, operation)
                    &&& after.scheduled_operation is None
                    &&& after.deferred_operation == filter.deferred_operation
                    &&& !handle_waiting(after.exporter)
                },
                ExportStepView::Settled { finished: None, .. } => {
                    &&& after.scheduled_operation is None
                    &&& after.deferred_operation == Some((event_id, operation))
                    &&& handle_waiting(after.exporter)
                },
            }
        }),
{
    if let Some(state) = filter.exporter {
        let (exported, action) = state.export_step(event);
        assert(action matches ActionView::Finish { waiting, .. } ==> waiting
            == exported.waiting());
    }
}

/// The filter after these export streams were closed in turn, and the operations that this
/// finished.
pub open spec fn streams_closed(filter: FilterView, stream_ids: Seq<u64>) -> (
    FilterView,
    Seq<FinishedView>,
)
    decreases stream_ids.len(),
{
    if stream_ids.len() == 0 {
        (filter, Seq::empty())
    } else {
        let (closed, finished) = filter.stream_closed(stream_ids[0]);
        let (last, rest) = streams_closed(closed, stream_ids.skip(1));
        (
            last,
            match finished {
                Some(finished) => seq![finished] + rest,
                None => rest,
            },
        )
    }
}

proof fn lemma_nothing_deferred(filter: FilterView, stream_ids: Seq<u64>)
    requires
        filter.deferred_operation is None,
    ensures
        streams_closed(filter, stream_ids).0.deferred_operation is None,
        streams_closed(filter, stream_ids).1 == Seq::<FinishedView>::empty(),
    decreases stream_ids.len(),
{
    if stream_ids.len() > 0 {
        lemma_nothing_deferred(filter.stream_closed(stream_ids[0]).0, stream_ids.skip(1));
    }
}

/// An operation that was put off is finished exactly once when the open export streams are closed,
/// in whatever order they end or are reset, and whatever else is reported in between.
pub proof fn law_deferred_operation_is_finished_once(
    filter: FilterView,
    stream_ids: Seq<u64>,
    event_id: u64,
    operation: OperationView,
)
    requires
        filter.wf(),
        filter.deferred_operation == Some((event_id, operation)),
        forall|id: u64| #[trigger]
            filter.exporter->0.in_flight.contains_key(id) ==> stream_ids.contains(id),
    ensures
        streams_closed(filter, stream_ids).0.deferred_operation is None,
        streams_closed(filter, stream_ids).1 == seq![finish(event_id, operation)],
    decreases stream_ids.len(),
{
    let state = filter.exporter->0;
    if stream_ids.len() == 0 {
        assert(state.in_flight.dom() =~= Set::empty());
    } else {
        let stream_id = stream_ids[0];
        let rest = stream_ids.skip(1);
        let (closed, finished) = filter.stream_closed(stream_id);
        if state.closes_last(stream_id) {
            lemma_nothing_deferred(closed, rest);
            assert(seq![finish(event_id, operation)] + Seq::<FinishedView>::empty() =~= seq![
                finish(event_id, operation),
            ]);
        } else {
            assert(closed.wf()) by {
                law_filter_stays_well_formed(
                    filter,
                    None,
                    PendingView { operations: Map::empty(), next_sequence: 0 },
                    0,
                    EventView::Refused,
                    stream_id,
                    Seq::empty(),
                    false,
                    false,
                );
            }
            assert forall|id: u64| #[trigger]
                closed.exporter->0.in_flight.contains_key(id) implies rest.contains(id) by {
                assert(state.in_flight.contains_key(id));
                assert(stream_ids.contains(id));
                let i = choose|i: int| 0 <= i < stream_ids.len() && stream_ids[i] == id;
                assert(rest[i - 1] == id);
            }
            law_deferred_operation_is_finished_once(closed, rest, event_id, operation);
        }
    }
}

/// From the request on, the time limit and the parent of all spans stay the same, and only
/// finishing an operation changes the id of the request.
pub proof fn law_request_state_is_kept(
    filter: FilterView,
    pending: PendingView,
    event_id: u64,
    event: EventView,
    stream_id: u64,
)
    ensures
        ({
            let scheduled = filter.scheduled(pending, event_id);
            &&& scheduled.parent_context == filter.parent_context
            &&& scheduled.operation_timeout_ms == filter.operation_timeout_ms
            &&& scheduled.request_id == filter.request_id
        }),
        ({
            let (exported, step) = filter.export_step(event);
            &&& exported.parent_context == filter.parent_context
            &&& exported.operation_timeout_ms == filter.operation_timeout_ms
            &&& exported.request_id == match step {
                ExportStepView::Settled { finished: Some(finished), .. } => filter.after_operation(
                    finished.operation,
                ).request_id,
                _ => filter.request_id,
            }
        }),
        ({
            let (closed, finished) = filter.stream_closed(stream_id);
            &&& closed.parent_context == filter.parent_context
            &&& closed.operation_timeout_ms == filter.operation_timeout_ms
            &&& closed.request_id == match finished {
                Some(finished) => filter.after_operation(finished.operation).request_id,
                None => filter.request_id,
            }
        }),
{
}

/// Every storage operation is given the time limit of the filter, which is above zero.
pub proof fn law_operations_are_bounded(
    filter: FilterView,
    pending: PendingView,
    uuid: RequestId,
    active: Option<ActiveSpan>,
)
    requires
        filter.wf(),
    ensures
        filter.request_step(pending, uuid, active) matches HeadersStepView::Pause(operation) ==> {
            0 < operation.timeout_ms == filter.operation_timeout_ms
        },
        filter.response_step(pending) matches HeadersStepView::Pause(operation) ==> {
            0 < operation.timeout_ms == filter.operation_timeout_ms
        },
{
}

/// What is stored and how it is traced does not depend on the transport of spans.
pub proof fn law_transport_does_not_matter_to_storage(
    filter: FilterView,
    exporter: Option<StreamView>,
    pending: PendingView,
    uuid: RequestId,
    active: Option<ActiveSpan>,
)
    ensures
        filter.with_exporter(exporter).request_step(pending, uuid, active) == filter.request_step(
            pending,
            uuid,
            active,
        ),
        filter.with_exporter(exporter).response_step(pending) == filter.response_step(pending),
{
}

/// A request whose mapping is stored goes on with its id as a header, and its response is stored
/// under the same id, within the same time and as a child of the same span.
pub proof fn law_stored_request_is_completed(
    filter: FilterView,
    pending: PendingView,
    uuid: RequestId,
    later: PendingView,
)
    ensures
        ({
            let event_id = event_id_of(pending.next_sequence, OperationType::Request);
            let stored = pending.inserted(uuid, OperationType::Request).completed(
                event_id,
                Ok(()),
            );
            &&& stored.lookup(event_id) matches Some(operation)
            &&& finish(event_id, operation).actions == seq![
                StreamActionView::SetRequestHeader {
                    name: "x-request-id"@,
                    value: hyphenated(uuid.bits as int),
                },
                StreamActionView::ContinueDecoding,
            ]
            &&& filter.after_operation(operation).response_step(
                later,
            ) matches HeadersStepView::Pause(response)
            &&& response.mutation == response_mutation(uuid)
            &&& response.timeout_ms == filter.operation_timeout_ms
            &&& match filter.parent_context {
                Some(context) => response.span is Some && response.span->0.parent == context,
                None => response.span is None,
            }
        }),
{
    assert(outcome_of(Ok(())) == OutcomeView::Succeeded);
}

/// A request whose mapping could not be stored goes on without an id, and its response is not held
/// up.
pub proof fn law_failed_request_goes_on(
    filter: FilterView,
    pending: PendingView,
    uuid: RequestId,
    error: StorageErrorView,
    later: PendingView,
)
    requires
        filter.request_id is None,
    ensures
        ({
            let event_id = event_id_of(pending.next_sequence, OperationType::Request);
            let failed = pending.inserted(uuid, OperationType::Request).completed(
                event_id,
                Err(error),
            );
            &&& failed.lookup(event_id) matches Some(operation)
            &&& finish(event_id, operation).actions == seq![StreamActionView::ContinueDecoding]
            &&& filter.after_operation(operation).response_step(later) is Continue
        }),
{
}

} // verus!
