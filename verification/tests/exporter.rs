use envoy_spanner_extension::exporter::direct::{EXPORT_INTERVAL_MS, EXPORT_TIMEOUT_MS};
use envoy_spanner_extension::exporter::envoy::{
    ExportAction, ExportEvent, Handle, HandleFactory, StreamHandle,
};
use envoy_spanner_extension::exporter::frames::{
    decode_grpc_request, encode_grpc_request, encoding_result, fits_in_frame, ExportError,
    PendingFrames, MAX_PENDING_EXPORTS,
};
use envoy_spanner_extension::exporter::grpc::{
    display_header, header_value, owned_header_value, GrpcResponse,
};
use envoy_spanner_extension::exporter::{Config, Error, Mode, Pipeline, SpanProcessor};
use opentelemetry::trace::{Span, Tracer, TracerProvider};
use opentelemetry_proto::tonic::collector::trace::v1::ExportTraceServiceRequest;
use opentelemetry_proto::tonic::common::v1::{any_value::Value, AnyValue, ArrayValue, KeyValue};
use opentelemetry_proto::transform::common::tonic::ResourceAttributesWithSchema;
use opentelemetry_proto::transform::trace::tonic::group_spans_by_resource_and_scope;
use opentelemetry_sdk::error::{OTelSdkError, OTelSdkResult};
use opentelemetry_sdk::trace::{
    InMemorySpanExporter, SdkTracerProvider, SpanData, SpanExporter,
};
use opentelemetry_sdk::Resource;
use prost::Message;
use std::collections::{HashMap, VecDeque};
use std::sync::{Arc, Mutex};

fn header<'a>(name: &'a str, value: &'a str) -> (&'a [u8], &'a [u8]) {
    (name.as_bytes(), value.as_bytes())
}

fn handle(cluster: &str) -> StreamHandle {
    StreamHandle {
        cluster: cluster.to_string(),
        exporting: VecDeque::new(),
        in_flight: HashMap::new(),
    }
}

#[derive(Debug)]
struct QueueingExporter {
    pending: Arc<Mutex<PendingFrames>>,
    resource: ResourceAttributesWithSchema,
}

impl SpanExporter for QueueingExporter {
    fn export(
        &self,
        batch: Vec<SpanData>,
    ) -> impl std::future::Future<Output = OTelSdkResult> + Send {
        let result = self
            .pending
            .lock()
            .unwrap()
            .export_spans(batch, &self.resource);
        std::future::ready(result.map_err(|ExportError::InternalFailure(message)| {
            OTelSdkError::InternalFailure(message)
        }))
    }

    fn set_resource(&mut self, resource: &Resource) {
        self.resource = resource.into();
    }
}

#[test]
fn exporter_config_validates_transport_specific_fields() {
    assert!(Mode::DirectGrpc {
        grpc_endpoint: "collector:4317".to_string()
    }
    .validate()
    .is_err());
    assert!(Mode::EnvoyGrpcCallout {
        cluster: " ".to_string()
    }
    .validate()
    .is_err());
}

#[test]
fn every_fault_of_a_mode_has_its_error() {
    let direct = |endpoint: &str| {
        Mode::DirectGrpc {
            grpc_endpoint: endpoint.to_string(),
        }
        .validate()
    };
    assert_eq!(direct(""), Err(Error::EmptyField("grpc_endpoint")));
    assert_eq!(direct("\t\u{3000}\n"), Err(Error::EmptyField("grpc_endpoint")));
    assert_eq!(direct("collector:4317"), Err(Error::InvalidGrpcEndpoint));
    assert_eq!(direct(" http://collector:4317"), Err(Error::InvalidGrpcEndpoint));
    assert_eq!(direct("HTTP://collector:4317"), Err(Error::InvalidGrpcEndpoint));
    assert_eq!(direct("http://127.0.0.1:4317"), Ok(()));
    assert_eq!(direct("https://collector"), Ok(()));
    let callout = Mode::EnvoyGrpcCallout {
        cluster: " ".to_string(),
    };
    assert_eq!(callout.validate(), Err(Error::EmptyField("cluster")));
    let callout = Mode::EnvoyGrpcCallout {
        cluster: "otel_collector_grpc".to_string(),
    };
    assert_eq!(callout.validate(), Ok(()));
}

#[test]
fn service_name_is_checked_before_the_mode() {
    let config = Config {
        service_name: "\u{a0} ".to_string(),
        exporter: Mode::EnvoyGrpcCallout {
            cluster: String::new(),
        },
    };
    assert_eq!(config.validate(), Err(Error::EmptyServiceName));
    assert!(matches!(Pipeline::new(config), Err(Error::EmptyServiceName)));
}

#[test]
fn exporter_errors_are_worded() {
    assert_eq!(
        Error::Direct("no transport".to_string()).to_string(),
        "failed to build the direct OTLP/gRPC exporter: no transport"
    );
    assert_eq!(
        Error::EmptyField("cluster").to_string(),
        "opentelemetry.exporter.cluster must not be empty"
    );
    assert_eq!(
        Error::InvalidGrpcEndpoint.to_string(),
        "opentelemetry.exporter.grpc_endpoint must use http:// or https://"
    );
    assert_eq!(
        Error::EmptyServiceName.to_string(),
        "opentelemetry.service_name must not be empty"
    );
}

#[test]
fn pipelines_keep_the_service_name_and_differ_in_transport() {
    let direct = Pipeline::new(Config {
        service_name: "svc".to_string(),
        exporter: Mode::DirectGrpc {
            grpc_endpoint: "http://c:4317".to_string(),
        },
    })
    .ok()
    .unwrap();
    assert_eq!(direct.provider.service_name, "svc");
    match &direct.provider.processor {
        SpanProcessor::Batch {
            grpc_endpoint,
            timeout_ms,
            scheduled_delay_ms,
        } => {
            assert_eq!(grpc_endpoint, "http://c:4317");
            assert_eq!(*timeout_ms, EXPORT_TIMEOUT_MS);
            assert_eq!(*timeout_ms, 1000);
            assert_eq!(*scheduled_delay_ms, EXPORT_INTERVAL_MS);
            assert_eq!(*scheduled_delay_ms, 100);
        }
        SpanProcessor::Simple => panic!("direct export batches spans"),
    }
    assert!(direct.new_handle().state.is_none());
    assert_eq!(direct.tracer(), "envoy-spanner-extension");

    let envoy = Pipeline::new(Config {
        service_name: "svc".to_string(),
        exporter: Mode::EnvoyGrpcCallout {
            cluster: "otel".to_string(),
        },
    })
    .ok()
    .unwrap();
    assert_eq!(envoy.provider.service_name, "svc");
    assert!(matches!(envoy.provider.processor, SpanProcessor::Simple));
    let handle = envoy.new_handle();
    let state = handle.state.unwrap();
    assert_eq!(state.cluster, "otel");
    assert!(state.exporting.is_empty());
    assert!(state.in_flight.is_empty());
}

#[test]
fn sdk_span_becomes_a_tonic_framed_otlp_request() {
    let pending = Arc::new(Mutex::new(PendingFrames::default()));
    let exporter = QueueingExporter {
        pending: pending.clone(),
        resource: ResourceAttributesWithSchema::default(),
    };
    let provider = SdkTracerProvider::builder()
        .with_resource(Resource::builder_empty().with_service_name("test").build())
        .with_simple_exporter(exporter)
        .build();
    let tracer = provider.tracer("test");
    let mut span = tracer.start("spanner.test");

    span.end();

    let frame = pending.lock().unwrap().drain().pop_front().unwrap();

    assert_eq!(frame[0], 0);
    let payload_length = u32::from_be_bytes(frame[1..5].try_into().unwrap()) as usize;
    assert_eq!(payload_length, frame.len() - 5);
    let request = ExportTraceServiceRequest::decode(&frame[5..]).unwrap();
    assert_eq!(
        request.resource_spans[0].scope_spans[0].spans[0].name,
        "spanner.test"
    );
}

#[test]
fn empty_request_is_framed_as_an_empty_message() {
    let request = ExportTraceServiceRequest {
        resource_spans: Vec::new(),
    };
    assert_eq!(encode_grpc_request(request), Ok(vec![0, 0, 0, 0, 0]));
}

#[test]
fn refused_encoding_is_worded() {
    assert_eq!(
        encoding_result(Err("too large".to_string())),
        Err(ExportError::InternalFailure(
            "failed to encode OTLP/gRPC request: too large".to_string()
        ))
    );
    assert_eq!(encoding_result(Ok(vec![7])), Ok(vec![7]));
}

#[test]
fn large_request_is_framed_in_one_piece() {
    let span = opentelemetry_proto::tonic::trace::v1::Span {
        name: "x".repeat(100_000),
        ..Default::default()
    };
    let request = ExportTraceServiceRequest {
        resource_spans: vec![opentelemetry_proto::tonic::trace::v1::ResourceSpans {
            scope_spans: vec![opentelemetry_proto::tonic::trace::v1::ScopeSpans {
                spans: vec![span],
                ..Default::default()
            }],
            ..Default::default()
        }],
    };
    let message = request.encode_to_vec();
    let frame = encode_grpc_request(request).unwrap();
    let mut expected = vec![0];
    expected.extend_from_slice(&(message.len() as u32).to_be_bytes());
    expected.extend_from_slice(&message);
    assert_eq!(frame, expected);
}

fn request_named(name: &str) -> ExportTraceServiceRequest {
    ExportTraceServiceRequest {
        resource_spans: vec![opentelemetry_proto::tonic::trace::v1::ResourceSpans {
            scope_spans: vec![opentelemetry_proto::tonic::trace::v1::ScopeSpans {
                spans: vec![opentelemetry_proto::tonic::trace::v1::Span {
                    name: name.to_string(),
                    kind: -1,
                    flags: 7,
                    status: Some(Default::default()),
                    ..Default::default()
                }],
                ..Default::default()
            }],
            ..Default::default()
        }],
    }
}

#[test]
fn frame_reads_back_as_the_request() {
    let request = request_named("spanner.test");
    assert!(fits_in_frame(&request));
    let frame = encode_grpc_request(request.clone()).unwrap();
    assert_eq!(frame.len(), 5 + request.encoded_len());
    assert_eq!(decode_grpc_request(&frame), Some(request));
    assert_ne!(
        encode_grpc_request(request_named("a")),
        encode_grpc_request(request_named("b"))
    );
}

#[test]
fn bytes_that_are_no_frame_are_not_read() {
    let frame = encode_grpc_request(request_named("x")).unwrap();
    assert_eq!(decode_grpc_request(&frame[..frame.len() - 1]), None);
    assert_eq!(decode_grpc_request(&frame[..4]), None);
    let mut longer = frame.clone();
    longer.push(0);
    assert_eq!(decode_grpc_request(&longer), None);
    let mut compressed = frame.clone();
    compressed[0] = 1;
    assert_eq!(decode_grpc_request(&compressed), None);
    assert_eq!(decode_grpc_request(&[0, 0, 0, 0, 1, 0xff]), None);
    assert_eq!(
        decode_grpc_request(&[0, 0, 0, 0, 0]),
        Some(ExportTraceServiceRequest::default())
    );
}

#[test]
fn very_deep_values_are_framed_and_not_read_back() {
    let nested = |depth: usize| {
        let mut value = AnyValue {
            value: Some(Value::BoolValue(true)),
        };
        for _ in 0..depth {
            value = AnyValue {
                value: Some(Value::ArrayValue(ArrayValue {
                    values: vec![value],
                })),
            };
        }
        let mut request = request_named("deep");
        request.resource_spans[0].scope_spans[0].spans[0].attributes = vec![KeyValue {
            key: "k".to_string(),
            value: Some(value),
            ..Default::default()
        }];
        request
    };
    let shallow = nested(20);
    let frame = encode_grpc_request(shallow.clone()).unwrap();
    assert_eq!(decode_grpc_request(&frame), Some(shallow));
    let frame = encode_grpc_request(nested(200)).unwrap();
    assert_eq!(decode_grpc_request(&frame), None);
}

#[test]
fn ended_span_is_queued_last_and_sent_next() {
    let mut pending = PendingFrames::default();
    pending.push(vec![1]).unwrap();
    pending.export(request_named("first")).unwrap();
    pending.export(request_named("second")).unwrap();
    let first = encode_grpc_request(request_named("first")).unwrap();
    let second = encode_grpc_request(request_named("second")).unwrap();

    let mut handle = handle("collector");
    let mut bodies = Vec::new();
    let mut action = handle.export_pending(ExportEvent::Drained(pending.drain()));
    while let ExportAction::Start(request) = action {
        assert_eq!(request.cluster, "collector");
        bodies.push(request.body);
        action = handle.export_pending(ExportEvent::Started(bodies.len() as u64));
    }
    assert_eq!(bodies, vec![vec![1], first, second]);
    assert!(pending.drain().is_empty());
}

fn ended_span(name: &'static str) -> SpanData {
    let exporter = InMemorySpanExporter::default();
    let provider = SdkTracerProvider::builder()
        .with_simple_exporter(exporter.clone())
        .build();
    let mut span = provider.tracer("scope").start(name);
    span.set_attribute(opentelemetry::KeyValue::new("k", "v"));
    span.end();
    exporter.get_finished_spans().unwrap().remove(0)
}

#[test]
fn span_is_converted_queued_and_read_back() {
    let resource = ResourceAttributesWithSchema::from(
        &Resource::builder_empty().with_service_name("test").build(),
    );
    let span = ended_span("spanner.test");
    let expected = ExportTraceServiceRequest {
        resource_spans: group_spans_by_resource_and_scope(vec![span.clone()], &resource),
    };
    let mut pending = PendingFrames::default();
    pending.export_spans(Vec::new(), &resource).unwrap();
    pending.export_spans(vec![span], &resource).unwrap();

    let frames = pending.drain();
    assert_eq!(frames.len(), 2);
    let alone = decode_grpc_request(&frames[0]).unwrap();
    assert!(alone.resource_spans[0].scope_spans.is_empty());
    assert_eq!(
        alone.resource_spans[0].resource,
        expected.resource_spans[0].resource
    );
    let read = decode_grpc_request(&frames[1]).unwrap();
    assert_eq!(read, expected);
    let scope = &read.resource_spans[0].scope_spans[0];
    assert_eq!(scope.scope.as_ref().unwrap().name, "scope");
    assert_eq!(scope.spans[0].name, "spanner.test");
    assert_eq!(scope.spans[0].attributes[0].key, "k");
}

#[test]
fn spans_of_one_batch_share_a_request() {
    let mut pending = PendingFrames::default();
    let batch = vec![ended_span("first"), ended_span("second")];
    pending
        .export_spans(batch, &ResourceAttributesWithSchema::default())
        .unwrap();
    let frames = pending.drain();
    assert_eq!(frames.len(), 1);
    let read = decode_grpc_request(&frames[0]).unwrap();
    let names: Vec<&str> = read.resource_spans[0].scope_spans[0]
        .spans
        .iter()
        .map(|span| span.name.as_str())
        .collect();
    assert_eq!(names, ["first", "second"]);
}

#[test]
fn frames_drained_in_mid_export_come_after_the_others() {
    let mut handle = handle("collector");
    let drained = |frames: Vec<Vec<u8>>| ExportEvent::Drained(frames.into_iter().collect());
    handle.export_pending(drained(vec![vec![1], vec![2]]));
    handle.export_pending(drained(vec![vec![3]]));
    let action = handle.export_pending(ExportEvent::Refused);
    assert!(matches!(
        action,
        ExportAction::Finish { requeue, waiting: false } if requeue == [vec![1], vec![2], vec![3]]
    ));
}

#[test]
fn refused_span_leaves_the_queue_as_it_was() {
    let mut pending = PendingFrames::default();
    assert_eq!(
        pending.enqueue(Err("too large".to_string())),
        Err(ExportError::InternalFailure(
            "failed to encode OTLP/gRPC request: too large".to_string()
        ))
    );
    assert_eq!(pending.enqueue(Ok(vec![7])), Ok(()));
    for _ in 1..MAX_PENDING_EXPORTS {
        pending.export(ExportTraceServiceRequest::default()).unwrap();
    }
    assert_eq!(
        pending.export(request_named("late")),
        Err(ExportError::InternalFailure(
            "Envoy OTLP/gRPC export queue reached 2048 entries".to_string()
        ))
    );
    let frames = pending.drain();
    assert_eq!(frames.len(), MAX_PENDING_EXPORTS);
    assert_eq!(frames[0], vec![7]);
    assert_eq!(frames[MAX_PENDING_EXPORTS - 1], vec![0, 0, 0, 0, 0]);
}

#[test]
fn grpc_response_requires_success_status_in_trailers() {
    let headers = [
        header(":status", "200"),
        header("content-type", "application/grpc"),
    ];
    let trailers = [header("grpc-status", "0")];
    let mut response = GrpcResponse::default();

    response.record_headers(&headers, false);
    assert_eq!(response.validate().unwrap_err(), "missing grpc-status");

    response.record_trailers(&trailers);
    assert_eq!(response.validate(), Ok(()));
}

#[test]
fn grpc_response_rejects_nonzero_and_missing_http_statuses() {
    let trailers = [header("grpc-status", "14")];
    let mut response = GrpcResponse::default();

    response.record_trailers(&trailers);
    assert_eq!(response.validate().unwrap_err(), "HTTP status <missing>");

    let headers = [header(":status", "200")];
    response.record_headers(&headers, false);
    assert_eq!(response.validate().unwrap_err(), "gRPC status Unavailable");
}

#[test]
fn grpc_trailers_only_response_reads_status_from_headers() {
    let headers = [header(":status", "200"), header("grpc-status", "0")];
    let mut response = GrpcResponse::default();

    response.record_headers(&headers, true);

    assert_eq!(response.validate(), Ok(()));
}

#[test]
fn headers_that_something_follows_do_not_carry_the_status() {
    let headers = [header(":status", "200"), header("grpc-status", "0")];
    let mut response = GrpcResponse::default();
    response.record_headers(&headers, false);
    assert_eq!(response.validate().unwrap_err(), "missing grpc-status");
}

#[test]
fn later_headers_replace_the_http_status() {
    let mut response = GrpcResponse::default();
    response.record_headers(&[header(":status", "200")], false);
    response.record_headers(&[header("server", "envoy")], false);
    assert_eq!(response.http_status, None);
}

#[test]
fn metadata_without_a_status_keeps_the_one_seen() {
    let mut response = GrpcResponse::default();
    response.record_trailers(&[header("grpc-status", "5")]);
    response.record_trailers(&[header("grpc-message", "gone")]);
    assert_eq!(response.grpc_status, Some(5));
}

#[test]
fn statuses_are_read_and_named() {
    let names = [
        "Ok",
        "Cancelled",
        "Unknown",
        "InvalidArgument",
        "DeadlineExceeded",
        "NotFound",
        "AlreadyExists",
        "PermissionDenied",
        "ResourceExhausted",
        "FailedPrecondition",
        "Aborted",
        "OutOfRange",
        "Unimplemented",
        "Internal",
        "Unavailable",
        "DataLoss",
        "Unauthenticated",
    ];
    for (number, name) in names.iter().enumerate() {
        let value = number.to_string();
        let mut response = GrpcResponse {
            http_status: Some(b"200".to_vec()),
            grpc_status: None,
        };
        response.record_status(&[header("grpc-status", &value)]);
        assert_eq!(response.grpc_status, Some(number as i32));
        if number == 0 {
            assert_eq!(response.validate(), Ok(()));
        } else {
            assert_eq!(response.validate(), Err(format!("gRPC status {name}")));
        }
    }
    for value in ["", "17", "00", "01", "1a", "-1", "100", " 0"] {
        let mut response = GrpcResponse {
            http_status: Some(b"200".to_vec()),
            grpc_status: None,
        };
        response.record_status(&[header("grpc-status", value)]);
        assert_eq!(response.grpc_status, Some(2));
        assert_eq!(response.validate(), Err("gRPC status Unknown".to_string()));
    }
    for code in [17, -1] {
        let response = GrpcResponse {
            http_status: Some(b"200".to_vec()),
            grpc_status: Some(code),
        };
        assert_eq!(response.validate(), Err("gRPC status Unknown".to_string()));
    }
}

#[test]
fn http_status_is_shown_as_text() {
    let response = GrpcResponse {
        http_status: Some(b"503".to_vec()),
        grpc_status: Some(0),
    };
    assert_eq!(response.validate().unwrap_err(), "HTTP status 503");
    assert_eq!(display_header(Some(b"503")), "503");
    assert_eq!(display_header(Some(b"a\xffb")), "a\u{fffd}b");
    assert_eq!(display_header(None), "<missing>");
}

#[test]
fn first_header_of_a_name_is_found_in_any_case() {
    let headers = [
        header("Content-Type", "one"),
        header("content-type", "two"),
        header("GRPC-Status", "0"),
    ];
    assert_eq!(header_value(&headers, b"CONTENT-TYPE"), Some(b"one".as_slice()));
    assert_eq!(header_value(&headers, b"grpc-status"), Some(b"0".as_slice()));
    assert_eq!(header_value(&headers, b"content-typ"), None);
    assert_eq!(header_value(&headers, b"content_type"), None);
    assert_eq!(header_value(&[header("[", "x")], b"{"), None);
    assert_eq!(owned_header_value(&headers, b"grpc-status"), Some(b"0".to_vec()));
    assert_eq!(owned_header_value(&[], b"grpc-status"), None);
}

#[test]
fn pending_frame_uses_envoy_stream_and_completes_after_trailers() {
    let mut pending = PendingFrames::default();
    pending.push(vec![0, 0, 0, 0, 0]).unwrap();
    let mut handle = handle("collector");

    let request = match handle.export_pending(ExportEvent::Drained(pending.drain())) {
        ExportAction::Start(request) => request,
        ExportAction::Finish { .. } => panic!("a frame is pending"),
    };
    assert_eq!(request.body, vec![0, 0, 0, 0, 0]);
    match handle.export_pending(ExportEvent::Started(42)) {
        ExportAction::Start(_) => panic!("only one frame is pending"),
        ExportAction::Finish { requeue, waiting } => {
            assert!(requeue.is_empty());
            assert!(waiting);
        }
    }
    assert!(handle.in_flight.contains_key(&42));

    let headers = [header(":status", "200")];
    let trailers = [header("grpc-status", "0")];
    handle.on_http_stream_headers(42, &headers, false);
    handle.on_http_stream_trailers(42, &trailers);

    let completion = handle.on_http_stream_complete(42);
    assert_eq!(completion.report, Some(Ok(())));
    assert!(completion.last);
    assert!(handle.in_flight.is_empty());
}

#[test]
fn export_stream_is_described_in_full() {
    let mut handle = handle("collector");
    let frames = VecDeque::from(vec![vec![1, 2]]);
    let request = match handle.export_pending(ExportEvent::Drained(frames)) {
        ExportAction::Start(request) => request,
        ExportAction::Finish { .. } => panic!("a frame is pending"),
    };
    assert_eq!(request.cluster, "collector");
    assert_eq!(
        request.headers,
        vec![
            (":method".to_string(), b"POST".to_vec()),
            (
                ":path".to_string(),
                b"/opentelemetry.proto.collector.trace.v1.TraceService/Export".to_vec()
            ),
            ("host".to_string(), b"collector".to_vec()),
            ("content-type".to_string(), b"application/grpc".to_vec()),
            ("te".to_string(), b"trailers".to_vec()),
        ]
    );
    assert_eq!(request.body, vec![1, 2]);
    assert!(request.end_stream);
    assert_eq!(request.timeout_ms, 1000);
}

#[test]
fn refused_frames_go_back_in_order_before_newer_ones() {
    let mut pending = PendingFrames::default();
    for n in 1..=3 {
        pending.push(vec![n]).unwrap();
    }
    let mut handle = handle("collector");
    let first = handle.export_pending(ExportEvent::Drained(pending.drain()));
    assert!(matches!(first, ExportAction::Start(request) if request.body == vec![1]));
    let second = handle.export_pending(ExportEvent::Started(7));
    assert!(matches!(second, ExportAction::Start(request) if request.body == vec![2]));
    pending.push(vec![4]).unwrap();
    match handle.export_pending(ExportEvent::Refused) {
        ExportAction::Finish { requeue, waiting } => {
            assert!(waiting);
            assert_eq!(requeue, VecDeque::from(vec![vec![2], vec![3]]));
            pending.prepend(requeue);
        }
        ExportAction::Start(_) => panic!("the stream was refused"),
    }
    assert!(handle.exporting.is_empty());
    assert_eq!(
        pending.drain(),
        VecDeque::from(vec![vec![2], vec![3], vec![4]])
    );
    assert!(pending.drain().is_empty());
}

#[test]
fn refusal_of_the_first_stream_does_not_wait() {
    let mut handle = handle("collector");
    let frames = VecDeque::from(vec![vec![1]]);
    assert!(matches!(
        handle.export_pending(ExportEvent::Drained(frames)),
        ExportAction::Start(_)
    ));
    match handle.export_pending(ExportEvent::Refused) {
        ExportAction::Finish { requeue, waiting } => {
            assert_eq!(requeue, VecDeque::from(vec![vec![1]]));
            assert!(!waiting);
        }
        ExportAction::Start(_) => panic!("the stream was refused"),
    }
}

#[test]
fn nothing_pending_waits_only_for_open_streams() {
    let mut handle = handle("collector");
    assert!(matches!(
        handle.export_pending(ExportEvent::Drained(VecDeque::new())),
        ExportAction::Finish { waiting: false, .. }
    ));
    handle.in_flight.insert(9, GrpcResponse::default());
    assert!(matches!(
        handle.export_pending(ExportEvent::Drained(VecDeque::new())),
        ExportAction::Finish { waiting: true, .. }
    ));
}

#[test]
fn last_stream_is_noticed_on_completion_and_reset() {
    let mut handle = handle("collector");
    handle.in_flight.insert(1, GrpcResponse::default());
    handle.in_flight.insert(2, GrpcResponse::default());
    assert!(!handle.on_http_stream_reset(3));
    let unknown = handle.on_http_stream_complete(3);
    assert_eq!(unknown.report, None);
    assert!(!unknown.last);
    let first = handle.on_http_stream_complete(1);
    assert_eq!(
        first.report,
        Some(Err("HTTP status <missing>".to_string()))
    );
    assert!(!first.last);
    assert!(handle.on_http_stream_reset(2));
    assert!(!handle.on_http_stream_reset(2));
}

#[test]
fn replies_to_unknown_streams_are_ignored() {
    let mut handle = handle("collector");
    handle.in_flight.insert(1, GrpcResponse::default());
    handle.on_http_stream_headers(2, &[header(":status", "200")], false);
    handle.on_http_stream_trailers(2, &[header("grpc-status", "0")]);
    assert_eq!(handle.in_flight.len(), 1);
    assert_eq!(handle.in_flight[&1].http_status, None);
    assert_eq!(handle.in_flight[&1].grpc_status, None);
}

#[test]
fn direct_handle_does_nothing() {
    let mut handle = Handle::direct();
    let frames = VecDeque::from(vec![vec![1]]);
    match handle.export_pending(ExportEvent::Drained(frames)) {
        ExportAction::Finish { requeue, waiting } => {
            assert_eq!(requeue, VecDeque::from(vec![vec![1]]));
            assert!(!waiting);
        }
        ExportAction::Start(_) => panic!("direct export opens no stream"),
    }
    assert!(matches!(
        handle.export_pending(ExportEvent::Started(1)),
        ExportAction::Finish { waiting: false, .. }
    ));
    handle.on_http_stream_headers(1, &[header(":status", "200")], true);
    handle.on_http_stream_trailers(1, &[]);
    assert!(!handle.on_http_stream_complete(1).last);
    assert!(!handle.on_http_stream_reset(1));
    assert!(handle.state.is_none());
}

#[test]
fn envoy_handle_passes_everything_on() {
    let mut handle = HandleFactory {
        cluster: "collector".to_string(),
    }
    .new_handle();
    let frames = VecDeque::from(vec![vec![1]]);
    assert!(matches!(
        handle.export_pending(ExportEvent::Drained(frames)),
        ExportAction::Start(_)
    ));
    assert!(matches!(
        handle.export_pending(ExportEvent::Started(5)),
        ExportAction::Finish { waiting: true, .. }
    ));
    handle.on_http_stream_headers(5, &[header(":status", "200")], false);
    handle.on_http_stream_trailers(5, &[header("grpc-status", "7")]);
    let completion = handle.on_http_stream_complete(5);
    assert_eq!(
        completion.report,
        Some(Err("gRPC status PermissionDenied".to_string()))
    );
    assert!(completion.last);
}

#[test]
fn full_queue_refuses_further_frames() {
    let mut pending = PendingFrames::default();
    for n in 0..MAX_PENDING_EXPORTS {
        pending.push(vec![(n % 251) as u8]).unwrap();
    }
    assert_eq!(
        pending.push(vec![1]),
        Err(ExportError::InternalFailure(
            "Envoy OTLP/gRPC export queue reached 2048 entries".to_string()
        ))
    );
    let frames = pending.drain();
    assert_eq!(frames.len(), 2048);
    assert_eq!(frames[2047], vec![(2047 % 251) as u8]);
}
