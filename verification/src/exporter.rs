//! Choice of the transport that carries spans to the collector.
//!
//! Both transports speak OTLP/gRPC and carry the same spans. They differ in who owns the
//! connection: the OpenTelemetry SDK or Envoy.

pub mod direct;
pub mod envoy;
pub mod frames;
pub mod grpc;

use crate::text::{blank, is_blank, join, starts_with};
use vstd::prelude::*;

pub use envoy::Handle;

verus! {

/// The telemetry section of the configuration.
pub struct Config {
    pub service_name: String,
    pub exporter: Mode,
}

/// Which transport to use, and where it leads.
pub enum Mode {
    DirectGrpc { grpc_endpoint: String },
    EnvoyGrpcCallout { cluster: String },
}

/// The model of a `Config`.
pub struct ConfigView {
    pub service_name: Seq<char>,
    pub exporter: ModeView,
}

/// The model of a `Mode`.
pub enum ModeView {
    DirectGrpc { grpc_endpoint: Seq<char> },
    EnvoyGrpcCallout { cluster: Seq<char> },
}

impl View for Config {
    type V = ConfigView;

    open spec fn view(&self) -> ConfigView {
        ConfigView { service_name: self.service_name@, exporter: self.exporter@ }
    }
}

impl View for Mode {
    type V = ModeView;

    open spec fn view(&self) -> ModeView {
        match self {
            Mode::DirectGrpc { grpc_endpoint } => ModeView::DirectGrpc {
                grpc_endpoint: grpc_endpoint@,
            },
            Mode::EnvoyGrpcCallout { cluster } => ModeView::EnvoyGrpcCallout { cluster: cluster@ },
        }
    }
}

/// Why the telemetry section is rejected, or why its exporter could not be built.
#[derive(Debug, PartialEq, Eq)]
pub enum Error {
    /// The direct exporter could not be built, for this reason.
    Direct(String),
    EmptyField(&'static str),
    InvalidGrpcEndpoint,
    EmptyServiceName,
}

/// The model of an `Error`.
pub enum ErrorView {
    Direct(Seq<char>),
    EmptyField(Seq<char>),
    InvalidGrpcEndpoint,
    EmptyServiceName,
}

impl View for Error {
    type V = ErrorView;

    open spec fn view(&self) -> ErrorView {
        match self {
            Error::Direct(reason) => ErrorView::Direct(reason@),
            Error::EmptyField(field) => ErrorView::EmptyField(field@),
            Error::InvalidGrpcEndpoint => ErrorView::InvalidGrpcEndpoint,
            Error::EmptyServiceName => ErrorView::EmptyServiceName,
        }
    }
}

impl ErrorView {
    /// The message shown to operators.
    pub open spec fn message(self) -> Seq<char> {
        match self {
            ErrorView::Direct(reason) => "failed to build the direct OTLP/gRPC exporter: "@
                + reason,
            ErrorView::EmptyField(field) => "opentelemetry.exporter."@ + field
                + " must not be empty"@,
            ErrorView::InvalidGrpcEndpoint =>
                "opentelemetry.exporter.grpc_endpoint must use http:// or https://"@,
            ErrorView::EmptyServiceName => "opentelemetry.service_name must not be empty"@,
        }
    }
}

impl Error {
    /// The message shown to operators.
    pub fn to_string(&self) -> (text: String)
        ensures
            text@ == self@.message(),
    {
        match self {
            Error::Direct(reason) => join(
                "failed to build the direct OTLP/gRPC exporter: ",
                reason.as_str(),
            ),
            Error::EmptyField(field) => {
                let start = join("opentelemetry.exporter.", field);
                join(start.as_str(), " must not be empty")
            },
            Error::InvalidGrpcEndpoint => {
                "opentelemetry.exporter.grpc_endpoint must use http:// or https://".to_owned()
            },
            Error::EmptyServiceName => "opentelemetry.service_name must not be empty".to_owned(),
        }
    }
}

/// The model of the result of a check.
pub open spec fn check_view(result: Result<(), Error>) -> Result<(), ErrorView> {
    match result {
        Ok(()) => Ok(()),
        Err(error) => Err(error@),
    }
}

impl ModeView {
    /// Whether the transport leads somewhere.
    pub open spec fn check(self) -> Result<(), ErrorView> {
        match self {
            ModeView::DirectGrpc { grpc_endpoint } => {
                if blank(grpc_endpoint) {
                    Err(ErrorView::EmptyField("grpc_endpoint"@))
                } else if !"http://"@.is_prefix_of(grpc_endpoint) && !"https://"@.is_prefix_of(
                    grpc_endpoint,
                ) {
                    Err(ErrorView::InvalidGrpcEndpoint)
                } else {
                    Ok(())
                }
            },
            ModeView::EnvoyGrpcCallout { cluster } => {
                if blank(cluster) {
                    Err(ErrorView::EmptyField("cluster"@))
                } else {
                    Ok(())
                }
            },
        }
    }
}

impl ConfigView {
    /// Whether the section names a service and a transport that leads somewhere.
    pub open spec fn check(self) -> Result<(), ErrorView> {
        if blank(self.service_name) {
            Err(ErrorView::EmptyServiceName)
        } else {
            self.exporter.check()
        }
    }
}

impl Config {
    /// Checks the section without touching any service.
    pub fn validate(&self) -> (result: Result<(), Error>)
        ensures
            check_view(result) == self@.check(),
    {
        if is_blank(self.service_name.as_str()) {
            return Err(Error::EmptyServiceName);
        }
        self.exporter.validate()
    }
}

impl Mode {
    /// Checks the fields that the chosen transport needs.
    pub fn validate(&self) -> (result: Result<(), Error>)
        ensures
            check_view(result) == self@.check(),
    {
        match self {
            Mode::DirectGrpc { grpc_endpoint } => {
                if is_blank(grpc_endpoint.as_str()) {
                    return Err(Error::EmptyField("grpc_endpoint"));
                }
                if !starts_with(grpc_endpoint.as_str(), "http://") && !starts_with(
                    grpc_endpoint.as_str(),
                    "https://",
                ) {
                    return Err(Error::InvalidGrpcEndpoint);
                }
            },
            Mode::EnvoyGrpcCallout { cluster } => {
                if is_blank(cluster.as_str()) {
                    return Err(Error::EmptyField("cluster"));
                }
            },
        }
        Ok(())
    }
}

/// How finished spans are handed to the exporter.
pub enum SpanProcessor {
    /// One by one, as each ends, into the queue of encoded exports.
    Simple,
    /// In batches, to a collector.
    Batch { grpc_endpoint: String, timeout_ms: u64, scheduled_delay_ms: u64 },
}

/// What the tracer provider is built from.
pub struct ProviderPlan {
    pub service_name: String,
    pub processor: SpanProcessor,
}

/// The model of a `SpanProcessor`.
pub enum SpanProcessorView {
    Simple,
    Batch { grpc_endpoint: Seq<char>, timeout_ms: u64, scheduled_delay_ms: u64 },
}

/// The model of a `ProviderPlan`.
pub struct ProviderView {
    pub service_name: Seq<char>,
    pub processor: SpanProcessorView,
}

impl View for ProviderPlan {
    type V = ProviderView;

    open spec fn view(&self) -> ProviderView {
        ProviderView {
            service_name: self.service_name@,
            processor: match self.processor {
                SpanProcessor::Simple => SpanProcessorView::Simple,
                SpanProcessor::Batch { grpc_endpoint, timeout_ms, scheduled_delay_ms } =>
                    SpanProcessorView::Batch {
                    grpc_endpoint: grpc_endpoint@,
                    timeout_ms,
                    scheduled_delay_ms,
                },
            },
        }
    }
}

/// Makes the export handle of each HTTP stream.
pub enum HandleFactory {
    Direct,
    Envoy(envoy::HandleFactory),
}

/// The model of a `HandleFactory`: the cluster that Envoy exports to, if Envoy exports at all.
pub open spec fn factory_cluster(factory: HandleFactory) -> Option<Seq<char>> {
    match factory {
        HandleFactory::Direct => None,
        HandleFactory::Envoy(factory) => Some(factory.cluster@),
    }
}

/// The handle of a stream that has exported nothing yet.
pub open spec fn fresh_handle(cluster: Option<Seq<char>>) -> Option<envoy::StreamView> {
    match cluster {
        None => None,
        Some(cluster) => Some(envoy::StreamView::idle(cluster)),
    }
}

impl HandleFactory {
    /// The handle of a stream that has exported nothing yet.
    pub fn new_handle(&self) -> (handle: Handle)
        ensures
            handle@ == fresh_handle(factory_cluster(*self)),
    {
        match self {
            HandleFactory::Direct => Handle::direct(),
            HandleFactory::Envoy(factory) => factory.new_handle(),
        }
    }
}

/// The telemetry of a filter configuration: its provider and the handles of its streams.
pub struct Pipeline {
    pub provider: ProviderPlan,
    pub handle_factory: HandleFactory,
}

/// The model of a `Pipeline`.
pub struct PipelineView {
    pub provider: ProviderView,
    pub cluster: Option<Seq<char>>,
}

impl View for Pipeline {
    type V = PipelineView;

    open spec fn view(&self) -> PipelineView {
        PipelineView {
            provider: self.provider@,
            cluster: factory_cluster(self.handle_factory),
        }
    }
}

/// The pipeline that a configuration describes.
pub open spec fn pipeline_for(config: ConfigView) -> PipelineView {
    match config.exporter {
        ModeView::DirectGrpc { grpc_endpoint } => PipelineView {
            provider: direct::direct_provider(grpc_endpoint, config.service_name),
            cluster: None,
        },
        ModeView::EnvoyGrpcCallout { cluster } => PipelineView {
            provider: envoy::envoy_provider(config.service_name),
            cluster: Some(cluster),
        },
    }
}

impl Pipeline {
    /// Plans the pipeline that a configuration describes, if the configuration is valid.
    pub fn new(config: Config) -> (result: Result<Pipeline, Error>)
        ensures
            match result {
                Ok(pipeline) => config@.check() is Ok && pipeline@ == pipeline_for(config@),
                Err(error) => config@.check() == Err::<(), ErrorView>(error@),
            },
    {
        match config.validate() {
            Ok(()) => {},
            Err(error) => {
                return Err(error);
            },
        }
        let (provider, handle_factory) = match config.exporter {
            Mode::DirectGrpc { grpc_endpoint } => (
                direct::build_provider(grpc_endpoint, config.service_name),
                HandleFactory::Direct,
            ),
            Mode::EnvoyGrpcCallout { cluster } => {
                let (provider, factory) = envoy::build_provider(cluster, config.service_name);
                (provider, HandleFactory::Envoy(factory))
            },
        };
        Ok(Pipeline { provider, handle_factory })
    }

    /// The instrumentation scope of the tracer that starts all spans.
    pub fn tracer(&self) -> (scope: &'static str)
        ensures
            scope@ == "envoy-spanner-extension"@,
    {
        "envoy-spanner-extension"
    }

    /// The handle of a stream that has exported nothing yet.
    pub fn new_handle(&self) -> (handle: Handle)
        ensures
            handle@ == fresh_handle(self@.cluster),
    {
        self.handle_factory.new_handle()
    }
}

/// The choice of transport changes who exports, and nothing about the service that is named.
pub proof fn law_service_name_is_kept(config: ConfigView)
    ensures
        pipeline_for(config).provider.service_name == config.service_name,
{
}

} // verus!
