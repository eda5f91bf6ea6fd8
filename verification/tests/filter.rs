use envoy_spanner_extension::error::StorageError;
use envoy_spanner_extension::exporter::envoy::{ExportEvent, Handle, HandleFactory};
use envoy_spanner_extension::exporter::grpc::GrpcResponse;
use envoy_spanner_extension::filter::{
    ExportStep, Filter, Finished, HeadersStep, Scheduled, StoreOperation, StreamAction,
};
use envoy_spanner_extension::operation::{
    OperationOutcome, OperationType, PendingOperation, PendingRequests,
};
use envoy_spanner_extension::request_id::RequestId;
use envoy_spanner_extension::spanner::{MutationKind, SpannerClient};
use envoy_spanner_extension::telemetry::ActiveSpan;
use std::collections::VecDeque;

const UUID: RequestId = RequestId {
    bits: 0xa1a2a3a4b1b2c1c2d1d2d3d4d5d6d7d8,
};

fn filter(exporter: Handle) -> Filter {
    Filter {
        spanner: SpannerClient {
            database: "projects/p/instances/i/databases/d".to_string(),
        },
        request_id: None,
        operation_timeout_ms: 10_000,
        exporter,
        parent_context: None,
        scheduled_operation: None,
        deferred_operation: None,
    }
}

fn envoy_handle() -> Handle {
    HandleFactory {
        cluster: "collector".to_string(),
    }
    .new_handle()
}

fn active_span() -> Option<ActiveSpan> {
    Some(ActiveSpan {
        trace_id: Some("1f".to_string()),
        span_id: Some("2".to_string()),
    })
}

fn paused(step: HeadersStep) -> StoreOperation {
    match step {
        HeadersStep::Pause(operation) => operation,
        HeadersStep::Continue => panic!("the stream is held up"),
    }
}

fn header_and_resume() -> Vec<StreamAction> {
    vec![
        StreamAction::SetRequestHeader {
            name: "x-request-id".to_string(),
            value: "a1a2a3a4-b1b2-c1c2-d1d2-d3d4d5d6d7d8".to_string(),
        },
        StreamAction::ContinueDecoding,
    ]
}

fn operation(operation_type: OperationType, outcome: OperationOutcome) -> PendingOperation {
    PendingOperation {
        uuid: UUID,
        operation_type,
        outcome,
    }
}

fn settled(step: ExportStep) -> (VecDeque<Vec<u8>>, Option<Finished>) {
    match step {
        ExportStep::Settled { requeue, finished } => (requeue, finished),
        ExportStep::Start(_) => panic!("the export is over"),
    }
}

fn no_frames() -> ExportEvent {
    ExportEvent::Drained(VecDeque::new())
}

#[test]
fn request_and_response_are_stored_under_one_id() {
    let mut pending = PendingRequests::new();
    let mut filter = filter(Handle::direct());

    let request = paused(filter.store_request(&mut pending, UUID, active_span()));
    assert_eq!(request.event_id, 2);
    assert_eq!(request.timeout_ms, 10_000);
    assert_eq!(request.untraced, None);
    assert_eq!(request.mutation.kind, MutationKind::Insert);
    let request_span = request.span.unwrap();
    assert_eq!(request_span.name, "spanner.insert_request_mapping");
    assert_eq!(request_span.attributes[1].1, "INSERT");
    assert_eq!(request_span.parent.trace_id, 0x1f);

    pending.complete(2, Ok(()));
    assert!(matches!(
        filter.on_scheduled(&mut pending, 2),
        Scheduled::Export
    ));
    let (requeue, finished) = settled(filter.on_export_event(no_frames()));
    assert!(requeue.is_empty());
    let finished = finished.unwrap();
    assert_eq!(finished.event_id, 2);
    assert_eq!(finished.actions, header_and_resume());
    assert_eq!(filter.request_id, Some(UUID));

    let response = paused(filter.on_response_headers(&mut pending));
    assert_eq!(response.event_id, 5);
    assert_eq!(response.timeout_ms, 10_000);
    assert_eq!(response.mutation.kind, MutationKind::Update);
    assert_eq!(response.mutation.values, request.mutation.values);
    let response_span = response.span.unwrap();
    assert_eq!(response_span.name, "spanner.update_response_timestamp");
    assert_eq!(response_span.attributes[1].1, "UPDATE");
    assert_eq!(response_span.parent, request_span.parent);

    pending.complete(5, Ok(()));
    assert!(matches!(
        filter.on_scheduled(&mut pending, 5),
        Scheduled::Export
    ));
    let (_, finished) = settled(filter.on_export_event(no_frames()));
    assert_eq!(
        finished.unwrap().actions,
        vec![StreamAction::ContinueEncoding]
    );
}

#[test]
fn each_request_gets_a_fresh_id() {
    let mut pending = PendingRequests::new();
    let mut filter = filter(Handle::direct());
    let first = paused(filter.on_request_headers(&mut pending, active_span()));
    let second = paused(filter.on_request_headers(&mut pending, None));
    assert_eq!(first.event_id, 2);
    assert_eq!(second.event_id, 4);
    let first = pending.remove(first.event_id).unwrap();
    let second = pending.remove(second.event_id).unwrap();
    assert_eq!(first.operation_type, OperationType::Request);
    assert_eq!(first.outcome, OperationOutcome::Pending);
    assert_ne!(first.uuid, second.uuid);
    assert_eq!(first.uuid.to_string().as_bytes()[14], b'4');
}

#[test]
fn failed_request_goes_on_and_its_response_is_not_held_up() {
    let mut pending = PendingRequests::new();
    let mut filter = filter(Handle::direct());
    let request = paused(filter.store_request(&mut pending, UUID, None));
    assert!(request.span.is_none());
    assert_eq!(request.untraced, Some("Envoy has no active span".to_string()));
    pending.complete(request.event_id, Err(StorageError::Timeout(10_000)));
    filter.on_scheduled(&mut pending, request.event_id);
    let (_, finished) = settled(filter.on_export_event(no_frames()));
    let finished = finished.unwrap();
    assert_eq!(finished.actions, vec![StreamAction::ContinueDecoding]);
    assert_eq!(
        finished.operation.outcome,
        OperationOutcome::Failed("Spanner operation timed out after 10s".to_string())
    );
    assert_eq!(filter.request_id, None);
    assert!(matches!(
        filter.on_response_headers(&mut pending),
        HeadersStep::Continue
    ));
    assert_eq!(pending.remove(5), None);
}

#[test]
fn untraced_request_has_an_untraced_response() {
    let mut pending = PendingRequests::new();
    let mut filter = filter(Handle::direct());
    filter.store_request(&mut pending, UUID, active_span());
    assert!(filter.parent_context.is_some());
    filter.store_request(&mut pending, UUID, None);
    assert!(filter.parent_context.is_none());
    filter.request_id = Some(UUID);
    let response = paused(filter.on_response_headers(&mut pending));
    assert!(response.span.is_none());
    assert_eq!(response.untraced, None);
}

#[test]
fn missing_event_lets_its_path_go_on() {
    let mut pending = PendingRequests::new();
    let mut filter = filter(Handle::direct());
    assert!(matches!(
        filter.on_scheduled(&mut pending, 2),
        Scheduled::Missing(StreamAction::ContinueDecoding)
    ));
    assert!(matches!(
        filter.on_scheduled(&mut pending, 3),
        Scheduled::Missing(StreamAction::ContinueEncoding)
    ));
    assert_eq!(
        Filter::continue_after_missing_event(u64::MAX),
        StreamAction::ContinueEncoding
    );
    assert!(filter.scheduled_operation.is_none());
}

#[test]
fn every_outcome_resumes_its_path_once() {
    let outcomes = || {
        [
            OperationOutcome::Pending,
            OperationOutcome::Succeeded,
            OperationOutcome::Failed("x".to_string()),
        ]
    };
    for outcome in outcomes() {
        let stored = outcome == OperationOutcome::Succeeded;
        let mut filter = filter(Handle::direct());
        let finished = filter.finish_operation(8, operation(OperationType::Request, outcome));
        assert_eq!(finished.event_id, 8);
        if stored {
            assert_eq!(finished.actions, header_and_resume());
            assert_eq!(filter.request_id, Some(UUID));
        } else {
            assert_eq!(finished.actions, vec![StreamAction::ContinueDecoding]);
            assert_eq!(filter.request_id, None);
        }
    }
    for outcome in outcomes() {
        let mut filter = filter(Handle::direct());
        let finished = filter.finish_operation(9, operation(OperationType::Response, outcome));
        assert_eq!(finished.actions, vec![StreamAction::ContinueEncoding]);
        assert_eq!(filter.request_id, None);
    }
}

#[test]
fn operation_waits_for_all_export_streams() {
    let mut pending = PendingRequests::new();
    let mut filter = filter(envoy_handle());
    let request = paused(filter.store_request(&mut pending, UUID, None));
    pending.complete(request.event_id, Ok(()));
    filter.on_scheduled(&mut pending, request.event_id);

    let frames = VecDeque::from(vec![vec![1], vec![2], vec![3]]);
    let step = filter.on_export_event(ExportEvent::Drained(frames));
    assert!(matches!(step, ExportStep::Start(request) if request.body == vec![1]));
    let step = filter.on_export_event(ExportEvent::Started(10));
    assert!(matches!(step, ExportStep::Start(request) if request.body == vec![2]));
    let step = filter.on_export_event(ExportEvent::Started(11));
    assert!(matches!(step, ExportStep::Start(request) if request.body == vec![3]));
    let (requeue, finished) = settled(filter.on_export_event(ExportEvent::Refused));
    assert_eq!(requeue, VecDeque::from(vec![vec![3]]));
    assert_eq!(finished, None);
    assert!(filter.deferred_operation.is_some());
    assert!(filter.scheduled_operation.is_none());

    filter.on_http_stream_headers(11, &[(b":status", b"200")], false);
    filter.on_http_stream_trailers(11, &[(b"grpc-status", b"0")]);
    let (completion, finished) = filter.on_http_stream_complete(11);
    assert_eq!(completion.report, Some(Ok(())));
    assert!(!completion.last);
    assert_eq!(finished, None);
    assert_eq!(filter.on_http_stream_reset(99), None);

    let finished = filter.on_http_stream_reset(10).unwrap();
    assert_eq!(finished.event_id, request.event_id);
    assert_eq!(finished.actions, header_and_resume());
    assert_eq!(filter.request_id, Some(UUID));
    assert!(filter.deferred_operation.is_none());
    assert_eq!(filter.on_http_stream_reset(10), None);
}

#[test]
fn last_stream_without_a_deferred_operation_finishes_nothing() {
    let mut filter = filter(envoy_handle());
    filter
        .exporter
        .state
        .as_mut()
        .unwrap()
        .in_flight
        .insert(1, GrpcResponse::default());
    let (completion, finished) = filter.on_http_stream_complete(1);
    assert!(completion.last);
    assert_eq!(finished, None);
}

#[test]
fn deferred_operation_stays_until_exports_are_done() {
    let mut filter = filter(envoy_handle());
    filter.deferred_operation = Some((
        4,
        operation(OperationType::Response, OperationOutcome::Succeeded),
    ));
    assert_eq!(filter.on_http_callout_done(false), None);
    assert!(filter.deferred_operation.is_some());
    let finished = filter.on_http_callout_done(true).unwrap();
    assert_eq!(finished.actions, vec![StreamAction::ContinueEncoding]);
    assert_eq!(filter.on_http_callout_done(true), None);
}

#[test]
fn export_without_a_scheduled_operation_finishes_nothing() {
    let mut filter = filter(Handle::direct());
    let frames = VecDeque::from(vec![vec![1]]);
    let (requeue, finished) = settled(filter.on_export_event(ExportEvent::Drained(frames)));
    assert_eq!(requeue, VecDeque::from(vec![vec![1]]));
    assert_eq!(finished, None);
}
