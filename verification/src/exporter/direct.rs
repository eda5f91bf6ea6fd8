//! Direct OTLP/gRPC export, over a connection that the OpenTelemetry SDK owns.

use super::{ProviderPlan, ProviderView, SpanProcessor, SpanProcessorView};
use vstd::prelude::*;

verus! {

/// How long finished spans are gathered before they are exported, in milliseconds.
pub const EXPORT_INTERVAL_MS: u64 = 100;

/// How long one export may take, in milliseconds.
pub const EXPORT_TIMEOUT_MS: u64 = 1000;

/// The provider that exports batches of spans to an endpoint.
pub open spec fn direct_provider(
    grpc_endpoint: Seq<char>,
    service_name: Seq<char>,
) -> ProviderView {
    ProviderView {
        service_name,
        processor: SpanProcessorView::Batch {
            grpc_endpoint,
            timeout_ms: 1000,
            scheduled_delay_ms: 100,
        },
    }
}

/// Plans a provider that exports batches of spans to an endpoint.
pub fn build_provider(grpc_endpoint: String, service_name: String) -> (provider: ProviderPlan)
    ensures
        provider@ == direct_provider(grpc_endpoint@, service_name@),
{
    ProviderPlan {
        service_name,
        processor: SpanProcessor::Batch {
            grpc_endpoint,
            timeout_ms: EXPORT_TIMEOUT_MS,
            scheduled_delay_ms: EXPORT_INTERVAL_MS,
        },
    }
}

} // verus!
