use envoy_spanner_extension::error::StorageError;
use envoy_spanner_extension::request_id::RequestId;
use envoy_spanner_extension::telemetry::{
    active_parent_context, finish_span, parent_context, parsed_context, start_spanner_span,
    ActiveSpan, ParentContext, SpanKind,
};
use opentelemetry::trace::{
    Span, SpanContext, TraceContextExt, TraceFlags, TraceState, Tracer, TracerProvider,
};
use opentelemetry::{Context, KeyValue};
use opentelemetry_sdk::trace::{InMemorySpanExporter, SdkTracerProvider};

fn active(trace_id: Option<&str>, span_id: Option<&str>) -> Option<ActiveSpan> {
    Some(ActiveSpan {
        trace_id: trace_id.map(str::to_string),
        span_id: span_id.map(str::to_string),
    })
}

#[test]
fn exported_span_is_a_child_of_the_copied_envoy_span() {
    let exporter = InMemorySpanExporter::default();
    let provider = SdkTracerProvider::builder()
        .with_simple_exporter(exporter.clone())
        .build();
    let tracer = provider.tracer("test");
    let parent = parent_context("4bf92f3577b34da6a3ce929d0e0e4736", "00f067aa0ba902b7").unwrap();
    let plan = start_spanner_span(
        parent,
        "spanner.insert_request_mapping",
        "INSERT",
        RequestId { bits: 0 },
    );
    let context = Context::new().with_remote_span_context(SpanContext::new(
        plan.parent.trace_id.into(),
        plan.parent.span_id.into(),
        TraceFlags::default().with_sampled(plan.parent.sampled),
        plan.parent.remote,
        TraceState::default(),
    ));
    let attributes: Vec<KeyValue> = plan
        .attributes
        .iter()
        .map(|(key, value)| KeyValue::new(key.clone(), value.clone()))
        .collect();
    let mut span = tracer
        .span_builder(plan.name.clone())
        .with_attributes(attributes)
        .start_with_context(&tracer, &context);

    span.end();
    provider.force_flush().unwrap();

    let spans = exporter.get_finished_spans().unwrap();
    assert_eq!(spans.len(), 1);
    assert_eq!(
        spans[0].span_context.trace_id().to_string(),
        "4bf92f3577b34da6a3ce929d0e0e4736"
    );
    assert_eq!(spans[0].parent_span_id.to_string(), "00f067aa0ba902b7");
}

#[test]
fn ids_are_read_in_base_sixteen() {
    assert_eq!(
        parent_context("4bf92f3577b34da6a3ce929d0e0e4736", "00f067aa0ba902b7"),
        Ok(ParentContext {
            trace_id: 0x4bf92f3577b34da6a3ce929d0e0e4736,
            span_id: 0x00f067aa0ba902b7,
            sampled: true,
            remote: true,
        })
    );
    let short = parent_context("+Ff", "0").unwrap();
    assert_eq!(short.trace_id, 255);
    assert_eq!(short.span_id, 0);
    let widest = parent_context(
        "00ffffffffffffffffffffffffffffffff",
        "000FFFFFFFFFFFFFFFF",
    )
    .unwrap();
    assert_eq!(widest.trace_id, u128::MAX);
    assert_eq!(widest.span_id, u64::MAX);
}

#[test]
fn malformed_ids_are_refused() {
    for bad in ["", "+", "-1", "++1", " 1", "1 ", "0x1", "1_0", "g", "\u{664}"] {
        let error = parent_context(bad, "1").unwrap_err();
        assert!(error.starts_with("invalid Envoy trace ID: "));
        assert!(error.len() > "invalid Envoy trace ID: ".len());
        let error = parent_context("1", bad).unwrap_err();
        assert!(error.starts_with("invalid Envoy span ID: "));
        assert!(error.len() > "invalid Envoy span ID: ".len());
    }
    assert!(parent_context("100000000000000000000000000000000", "1").is_err());
    assert!(parent_context("1", "10000000000000000").is_err());
    assert!(parent_context("x", "x")
        .unwrap_err()
        .starts_with("invalid Envoy trace ID: "));
}

#[test]
fn parsed_ids_make_a_sampled_remote_context() {
    assert_eq!(
        parsed_context(Ok(5), Ok(6)),
        Ok(ParentContext {
            trace_id: 5,
            span_id: 6,
            sampled: true,
            remote: true,
        })
    );
    assert_eq!(
        parsed_context(Err("a".to_string()), Err("b".to_string())),
        Err("invalid Envoy trace ID: a".to_string())
    );
    assert_eq!(
        parsed_context(Ok(5), Err("b".to_string())),
        Err("invalid Envoy span ID: b".to_string())
    );
}

#[test]
fn missing_parts_of_the_active_span_are_named() {
    assert_eq!(
        active_parent_context(None),
        Err("Envoy has no active span".to_string())
    );
    assert_eq!(
        active_parent_context(active(None, None)),
        Err("active Envoy span has no trace ID".to_string())
    );
    assert_eq!(
        active_parent_context(active(Some("zz"), None)),
        Err("active Envoy span has no span ID".to_string())
    );
    assert_eq!(
        active_parent_context(active(Some("1f"), Some("2"))),
        Ok(ParentContext {
            trace_id: 31,
            span_id: 2,
            sampled: true,
            remote: true,
        })
    );
}

#[test]
fn spans_describe_the_operation() {
    let parent = parsed_context(Ok(5), Ok(6)).unwrap();
    let span = start_spanner_span(parent, "name", "UPDATE", RequestId { bits: 2 });
    assert_eq!(span.parent, parent);
    assert_eq!(span.name, "name");
    assert_eq!(span.kind, SpanKind::Client);
    let expected = [
        ("db.system.name", "gcp.spanner"),
        ("db.operation.name", "UPDATE"),
        ("request.id", "00000000-0000-0000-0000-000000000002"),
    ];
    assert_eq!(span.attributes.len(), 3);
    for (attribute, (key, value)) in span.attributes.iter().zip(expected) {
        assert_eq!(attribute.0, key);
        assert_eq!(attribute.1, value);
    }
}

#[test]
fn spans_end_with_the_error_of_the_operation() {
    assert!(finish_span(None::<u8>, &Ok(())).is_none());
    let (span, end) = finish_span(Some(3u8), &Ok(())).unwrap();
    assert_eq!(span, 3);
    assert_eq!(end.error, None);
    let (span, end) =
        finish_span(Some(4u8), &Err(StorageError::Spanner("gone".to_string()))).unwrap();
    assert_eq!(span, 4);
    assert_eq!(end.error, Some("Spanner client error: gone".to_string()));
}
