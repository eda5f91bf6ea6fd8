//! The configuration of the filter: its checks, and the services that it starts.

use crate::error::{StorageError, StorageErrorView};
use crate::exporter::{
    self, fresh_handle, pipeline_for, ConfigView as TelemetryView, ErrorView as TelemetryErrorView,
    Pipeline, PipelineView,
};
use crate::filter::{Filter, FilterView};
use crate::spanner::{database_name, SpannerClient};
use crate::text::{blank, is_blank, join};
use vstd::prelude::*;

verus! {

/// How long a storage operation may take unless the configuration says otherwise.
pub const DEFAULT_OPERATION_TIMEOUT_MS: u64 = 10_000;

/// How many threads run storage operations.
pub const RUNTIME_WORKER_THREADS: usize = 2;

/// How long telemetry may take to shut down, in seconds.
pub const TELEMETRY_SHUTDOWN_SECS: u64 = 2;

/// How long the runtime may take to shut down, in seconds.
pub const RUNTIME_SHUTDOWN_SECS: u64 = 5;

/// The configuration of the module.
pub struct ModuleConfig {
    pub spanner: SpannerConfig,
    pub opentelemetry: exporter::Config,
}

/// The storage section of the configuration.
pub struct SpannerConfig {
    pub project_id: String,
    pub instance_id: String,
    pub database_id: String,
    pub operation_timeout_ms: u64,
}

/// The model of a `ModuleConfig`.
pub struct ModuleConfigView {
    pub project_id: Seq<char>,
    pub instance_id: Seq<char>,
    pub database_id: Seq<char>,
    pub operation_timeout_ms: u64,
    pub opentelemetry: TelemetryView,
}

impl View for ModuleConfig {
    type V = ModuleConfigView;

    open spec fn view(&self) -> ModuleConfigView {
        ModuleConfigView {
            project_id: self.spanner.project_id@,
            instance_id: self.spanner.instance_id@,
            database_id: self.spanner.database_id@,
            operation_timeout_ms: self.spanner.operation_timeout_ms,
            opentelemetry: self.opentelemetry@,
        }
    }
}

/// How long a storage operation may take unless the configuration says otherwise.
pub fn default_operation_timeout_ms() -> (millis: u64)
    ensures
        millis == 10_000,
{
    DEFAULT_OPERATION_TIMEOUT_MS
}

/// Why no filter configuration could be made.
#[derive(Debug, PartialEq, Eq)]
pub enum ConfigError {
    /// The text is not the JSON of a configuration, for this reason.
    Json(String),
    /// The runtime could not be built, for this reason.
    Runtime(String),
    Spanner(StorageError),
    OpenTelemetry(exporter::Error),
    EmptyField(&'static str),
    InvalidTimeout,
}

/// The model of a `ConfigError`.
pub enum ConfigErrorView {
    Json(Seq<char>),
    Runtime(Seq<char>),
    Spanner(StorageErrorView),
    OpenTelemetry(TelemetryErrorView),
    EmptyField(Seq<char>),
    InvalidTimeout,
}

impl View for ConfigError {
    type V = ConfigErrorView;

    open spec fn view(&self) -> ConfigErrorView {
        match self {
            ConfigError::Json(reason) => ConfigErrorView::Json(reason@),
            ConfigError::Runtime(reason) => ConfigErrorView::Runtime(reason@),
            ConfigError::Spanner(error) => ConfigErrorView::Spanner(error@),
            ConfigError::OpenTelemetry(error) => ConfigErrorView::OpenTelemetry(error@),
            ConfigError::EmptyField(field) => ConfigErrorView::EmptyField(field@),
            ConfigError::InvalidTimeout => ConfigErrorView::InvalidTimeout,
        }
    }
}

impl ConfigErrorView {
    /// The message shown to operators.
    pub open spec fn message(self) -> Seq<char> {
        match self {
            ConfigErrorView::Json(reason) => "invalid JSON: "@ + reason,
            ConfigErrorView::Runtime(reason) => "failed to create Tokio runtime: "@ + reason,
            ConfigErrorView::Spanner(error) => "failed to initialize Spanner: "@ + error.message(),
            ConfigErrorView::OpenTelemetry(error) => "failed to initialize OpenTelemetry: "@
                + error.message(),
            ConfigErrorView::EmptyField(field) => field + " must not be empty"@,
            ConfigErrorView::InvalidTimeout =>
                "spanner.operation_timeout_ms must be greater than zero"@,
        }
    }
}

impl ConfigError {
    /// The message shown to operators.
    pub fn to_string(&self) -> (text: String)
        ensures
            text@ == self@.message(),
    {
        match self {
            ConfigError::Json(reason) => join("invalid JSON: ", reason.as_str()),
            ConfigError::Runtime(reason) => {
                join("failed to create Tokio runtime: ", reason.as_str())
            },
            ConfigError::Spanner(error) => {
                let message = error.to_string();
                join("failed to initialize Spanner: ", message.as_str())
            },
            ConfigError::OpenTelemetry(error) => {
                let message = error.to_string();
                join("failed to initialize OpenTelemetry: ", message.as_str())
            },
            ConfigError::EmptyField(field) => join(field, " must not be empty"),
            ConfigError::InvalidTimeout => {
                "spanner.operation_timeout_ms must be greater than zero".to_owned()
            },
        }
    }
}

impl ModuleConfigView {
    /// Whether the configuration names a database, bounds its operations and can be traced. Of
    /// several faults the first in this order is reported.
    pub open spec fn check(self) -> Result<(), ConfigErrorView> {
        if blank(self.project_id) {
            Err(ConfigErrorView::EmptyField("spanner.project_id"@))
        } else if blank(self.instance_id) {
            Err(ConfigErrorView::EmptyField("spanner.instance_id"@))
        } else if blank(self.database_id) {
            Err(ConfigErrorView::EmptyField("spanner.database_id"@))
        } else if self.operation_timeout_ms == 0 {
            Err(ConfigErrorView::InvalidTimeout)
        } else {
            match self.opentelemetry.check() {
                Ok(()) => Ok(()),
                Err(error) => Err(ConfigErrorView::OpenTelemetry(error)),
            }
        }
    }
}

impl ModuleConfig {
    /// Checks the configuration without touching any service.
    pub fn validate(&self) -> (result: Result<(), ConfigError>)
        ensures
            match result {
                Ok(()) => self@.check() is Ok,
                Err(error) => self@.check() == Err::<(), ConfigErrorView>(error@),
            },
    {
        if is_blank(self.spanner.project_id.as_str()) {
            return Err(ConfigError::EmptyField("spanner.project_id"));
        }
        if is_blank(self.spanner.instance_id.as_str()) {
            return Err(ConfigError::EmptyField("spanner.instance_id"));
        }
        if is_blank(self.spanner.database_id.as_str()) {
            return Err(ConfigError::EmptyField("spanner.database_id"));
        }
        if self.spanner.operation_timeout_ms == 0 {
            return Err(ConfigError::InvalidTimeout);
        }
        match self.opentelemetry.validate() {
            Ok(()) => Ok(()),
            Err(error) => Err(ConfigError::OpenTelemetry(error)),
        }
    }
}

/// The runtime that runs storage operations.
pub struct RuntimePlan {
    pub worker_threads: usize,
    pub thread_name: String,
}

/// The model of a `RuntimePlan`.
pub struct RuntimeView {
    pub worker_threads: usize,
    pub thread_name: Seq<char>,
}

/// A configuration that all filters share: the services to start, or none if the configuration is
/// only validated.
pub struct FilterConfig {
    pub runtime: Option<RuntimePlan>,
    pub spanner_client: Option<SpannerClient>,
    pub telemetry: Option<Pipeline>,
    pub operation_timeout_ms: u64,
}

/// The model of a `FilterConfig`.
pub struct FilterConfigView {
    pub runtime: Option<RuntimeView>,
    pub database: Option<Seq<char>>,
    pub telemetry: Option<PipelineView>,
    pub operation_timeout_ms: u64,
}

impl View for FilterConfig {
    type V = FilterConfigView;

    open spec fn view(&self) -> FilterConfigView {
        FilterConfigView {
            runtime: match self.runtime {
                Some(runtime) => Some(
                    RuntimeView {
                        worker_threads: runtime.worker_threads,
                        thread_name: runtime.thread_name@,
                    },
                ),
                None => None,
            },
            database: match self.spanner_client {
                Some(client) => Some(client.database@),
                None => None,
            },
            telemetry: match self.telemetry {
                Some(telemetry) => Some(telemetry@),
                None => None,
            },
            operation_timeout_ms: self.operation_timeout_ms,
        }
    }
}

/// The filter configuration that valid configuration describes.
pub open spec fn filter_config(config: ModuleConfigView, validation_only: bool) -> FilterConfigView {
    if validation_only {
        FilterConfigView {
            runtime: None,
            database: None,
            telemetry: None,
            operation_timeout_ms: config.operation_timeout_ms,
        }
    } else {
        FilterConfigView {
            runtime: Some(RuntimeView { worker_threads: 2, thread_name: "envoy-spanner"@ }),
            database: Some(
                database_name(config.project_id, config.instance_id, config.database_id),
            ),
            telemetry: Some(pipeline_for(config.opentelemetry)),
            operation_timeout_ms: config.operation_timeout_ms,
        }
    }
}

/// The filter configuration that a parsed configuration amounts to, or why there is none.
pub open spec fn configured(
    parsed: Result<ModuleConfigView, Seq<char>>,
    validation_only: bool,
) -> Result<FilterConfigView, ConfigErrorView> {
    match parsed {
        Err(reason) => Err(ConfigErrorView::Json(reason)),
        Ok(config) => match config.check() {
            Err(error) => Err(error),
            Ok(()) => Ok(filter_config(config, validation_only)),
        },
    }
}

/// The model of a parsed configuration.
pub open spec fn parsed_view(parsed: Result<ModuleConfig, String>) -> Result<
    ModuleConfigView,
    Seq<char>,
> {
    match parsed {
        Ok(config) => Ok(config@),
        Err(reason) => Err(reason@),
    }
}

impl FilterConfigView {
    /// Whether the services that filters need are there.
    pub open spec fn can_create_filters(self) -> bool {
        self.runtime is Some && self.database is Some && self.telemetry is Some
    }

    /// The filter of a new HTTP stream.
    pub open spec fn new_filter(self) -> FilterView {
        FilterView {
            database: self.database->0,
            request_id: None,
            operation_timeout_ms: self.operation_timeout_ms,
            exporter: fresh_handle(self.telemetry->0.cluster),
            parent_context: None,
            scheduled_operation: None,
            deferred_operation: None,
        }
    }
}

/// A service that a filter configuration starts.
#[derive(Clone, Copy, Debug, PartialEq, Eq, Structural)]
pub enum Service {
    Runtime,
    Spanner,
    Telemetry,
}

/// What came of starting a service.
pub enum StartupEvent {
    Runtime(Result<(), String>),
    Spanner(Result<(), StorageError>),
    Telemetry(Result<(), exporter::Error>),
}

/// The model of a `StartupEvent`: the service, and the error if it did not start.
pub open spec fn startup_view(event: StartupEvent) -> (Service, Option<ConfigErrorView>) {
    match event {
        StartupEvent::Runtime(Ok(())) => (Service::Runtime, None),
        StartupEvent::Runtime(Err(reason)) => (
            Service::Runtime,
            Some(ConfigErrorView::Runtime(reason@)),
        ),
        StartupEvent::Spanner(Ok(())) => (Service::Spanner, None),
        StartupEvent::Spanner(Err(error)) => (
            Service::Spanner,
            Some(ConfigErrorView::Spanner(error@)),
        ),
        StartupEvent::Telemetry(Ok(())) => (Service::Telemetry, None),
        StartupEvent::Telemetry(Err(error)) => (
            Service::Telemetry,
            Some(ConfigErrorView::OpenTelemetry(error@)),
        ),
    }
}

/// The service that is started after this one.
pub open spec fn next_service(service: Service) -> Option<Service> {
    match service {
        Service::Runtime => Some(Service::Spanner),
        Service::Spanner => Some(Service::Telemetry),
        Service::Telemetry => None,
    }
}

/// What happened in the course of a shutdown.
pub enum ShutdownEvent {
    Begin,
    /// Telemetry was shut down; a failure comes with its reason.
    Telemetry(Result<(), String>),
    Runtime,
}

/// What to do next in the course of a shutdown.
#[derive(Clone, Copy, Debug, PartialEq, Eq, Structural)]
pub enum ShutdownStep {
    StopTelemetry { timeout_secs: u64 },
    StopRuntime { timeout_secs: u64 },
    Done,
}

impl FilterConfigView {
    /// What a shutdown goes on with after an event: telemetry is stopped before the runtime that
    /// it may need, and the runtime is stopped whatever came of that.
    pub open spec fn shutdown_step(self, event: ShutdownEvent) -> ShutdownStep {
        if event is Begin && self.telemetry is Some {
            ShutdownStep::StopTelemetry { timeout_secs: 2 }
        } else if event !is Runtime && self.runtime is Some {
            ShutdownStep::StopRuntime { timeout_secs: 5 }
        } else {
            ShutdownStep::Done
        }
    }
}

/// What operators are told about an event of a shutdown, if anything.
pub open spec fn shutdown_warning(event: ShutdownEvent) -> Option<Seq<char>> {
    match event {
        ShutdownEvent::Telemetry(Err(reason)) => Some(
            "failed to shut down OpenTelemetry cleanly: "@ + reason@,
        ),
        _ => None,
    }
}

impl FilterConfig {
    /// What the shutdown of a started configuration goes on with after an event, and what operators
    /// are told about the event.
    pub fn on_shutdown(&self, event: ShutdownEvent) -> (next: (ShutdownStep, Option<String>))
        ensures
            next.0 == self@.shutdown_step(event),
            match next.1 {
                Some(warning) => shutdown_warning(event) == Some(warning@),
                None => shutdown_warning(event) is None,
            },
    {
        let (begins, ends, warning) = match event {
            ShutdownEvent::Begin => (true, false, None),
            ShutdownEvent::Telemetry(Ok(())) => (false, false, None),
            ShutdownEvent::Telemetry(Err(reason)) => {
                let warning = join(
                    "failed to shut down OpenTelemetry cleanly: ",
                    reason.as_str(),
                );
                (false, false, Some(warning))
            },
            ShutdownEvent::Runtime => (false, true, None),
        };
        let step = if begins && self.telemetry.is_some() {
            ShutdownStep::StopTelemetry { timeout_secs: TELEMETRY_SHUTDOWN_SECS }
        } else if !ends && self.runtime.is_some() {
            ShutdownStep::StopRuntime { timeout_secs: RUNTIME_SHUTDOWN_SECS }
        } else {
            ShutdownStep::Done
        };
        (step, warning)
    }

    /// Makes the filter configuration that a parsed configuration describes. Nothing is started
    /// yet; if the configuration is only validated, nothing is to be started at all.
    pub fn new(parsed: Result<ModuleConfig, String>, validation_only: bool) -> (result: Result<
        FilterConfig,
        ConfigError,
    >)
        ensures
            match result {
                Ok(config) => configured(parsed_view(parsed), validation_only) == Ok::<
                    FilterConfigView,
                    ConfigErrorView,
                >(config@),
                Err(error) => configured(parsed_view(parsed), validation_only) == Err::<
                    FilterConfigView,
                    ConfigErrorView,
                >(error@),
            },
    {
        let config = match parsed {
            Ok(config) => config,
            Err(reason) => {
                return Err(ConfigError::Json(reason));
            },
        };
        match config.validate() {
            Ok(()) => {},
            Err(error) => {
                return Err(error);
            },
        }
        let operation_timeout_ms = config.spanner.operation_timeout_ms;
        if validation_only {
            return Ok(
                FilterConfig {
                    runtime: None,
                    spanner_client: None,
                    telemetry: None,
                    operation_timeout_ms,
                },
            );
        }
        let runtime = RuntimePlan {
            worker_threads: RUNTIME_WORKER_THREADS,
            thread_name: "envoy-spanner".to_owned(),
        };
        let spanner = SpannerClient::new(
            config.spanner.project_id,
            config.spanner.instance_id,
            config.spanner.database_id,
        );
        let telemetry = match Pipeline::new(config.opentelemetry) {
            Ok(telemetry) => telemetry,
            Err(error) => {
                return Err(ConfigError::OpenTelemetry(error));
            },
        };
        Ok(
            FilterConfig {
                runtime: Some(runtime),
                spanner_client: Some(spanner),
                telemetry: Some(telemetry),
                operation_timeout_ms,
            },
        )
    }

    /// The service to start first, if any is to be started.
    pub fn first_service(&self) -> (service: Option<Service>)
        ensures
            service == if self@.runtime is Some {
                Some(Service::Runtime)
            } else {
                None
            },
    {
        if self.runtime.is_some() {
            Some(Service::Runtime)
        } else {
            None
        }
    }

    /// The service to start next, or the error that ends the start.
    pub fn on_service_started(event: StartupEvent) -> (next: Result<Option<Service>, ConfigError>)
        ensures
            match next {
                Ok(service) => startup_view(event).1 is None && service == next_service(
                    startup_view(event).0,
                ),
                Err(error) => startup_view(event).1 == Some(error@),
            },
    {
        match event {
            StartupEvent::Runtime(Ok(())) => Ok(Some(Service::Spanner)),
            StartupEvent::Runtime(Err(reason)) => Err(ConfigError::Runtime(reason)),
            StartupEvent::Spanner(Ok(())) => Ok(Some(Service::Telemetry)),
            StartupEvent::Spanner(Err(error)) => Err(ConfigError::Spanner(error)),
            StartupEvent::Telemetry(Ok(())) => Ok(None),
            StartupEvent::Telemetry(Err(error)) => Err(ConfigError::OpenTelemetry(error)),
        }
    }

    /// The filter of a new HTTP stream. A configuration that was only validated has none.
    pub fn new_http_filter(&self) -> (filter: Filter)
        requires
            self@.can_create_filters(),
        ensures
            filter@ == self@.new_filter(),
    {
        let spanner = self.spanner_client.as_ref().unwrap();
        let telemetry = self.telemetry.as_ref().unwrap();
        Filter {
            spanner: SpannerClient { database: spanner.database.clone() },
            request_id: None,
            operation_timeout_ms: self.operation_timeout_ms,
            exporter: telemetry.new_handle(),
            parent_context: None,
            scheduled_operation: None,
            deferred_operation: None,
        }
    }
}

/// Validation accepts exactly the configurations that a start accepts, rejects the others for the
/// same reason, and starts nothing.
pub proof fn law_validation_matches_start(parsed: Result<ModuleConfigView, Seq<char>>)
    ensures
        configured(parsed, true) is Ok <==> configured(parsed, false) is Ok,
        configured(parsed, true) matches Err(error) ==> configured(parsed, false) == Err::<
            FilterConfigView,
            ConfigErrorView,
        >(error),
        configured(parsed, true) matches Ok(config) ==> {
            &&& config.runtime is None
            &&& config.database is None
            &&& config.telemetry is None
        },
{
}

/// Every configuration that is accepted bounds its operations, and one that is started makes
/// filters in good order.
pub proof fn law_accepted_configuration_is_usable(
    parsed: Result<ModuleConfigView, Seq<char>>,
    validation_only: bool,
)
    ensures
        configured(parsed, validation_only) matches Ok(config) ==> {
            &&& config.operation_timeout_ms > 0
            &&& config.can_create_filters() == !validation_only
            &&& config.can_create_filters() ==> config.new_filter().wf()
        },
{
}

/// A started configuration stops its telemetry first, within two seconds, then its runtime, within
/// five, whether or not telemetry was shut down cleanly, and then nothing more. One that was only
/// validated has nothing to stop.
pub proof fn law_telemetry_stops_before_runtime(
    parsed: Result<ModuleConfigView, Seq<char>>,
    validation_only: bool,
    stopped: Result<(), String>,
)
    ensures
        configured(parsed, validation_only) matches Ok(config) ==> {
            &&& !validation_only ==> {
                &&& config.shutdown_step(ShutdownEvent::Begin) == (ShutdownStep::StopTelemetry {
                    timeout_secs: 2,
                })
                &&& config.shutdown_step(ShutdownEvent::Telemetry(stopped)) == (
                ShutdownStep::StopRuntime { timeout_secs: 5 })
            }
            &&& validation_only ==> config.shutdown_step(ShutdownEvent::Begin) == ShutdownStep::Done
            &&& config.shutdown_step(ShutdownEvent::Runtime) == ShutdownStep::Done
        },
{
}

} // verus!
