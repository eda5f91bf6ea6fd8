use envoy_spanner_extension::config::{
    default_operation_timeout_ms, ConfigError, FilterConfig, ModuleConfig, Service, ShutdownEvent,
    ShutdownStep, SpannerConfig, StartupEvent, DEFAULT_OPERATION_TIMEOUT_MS,
};
use envoy_spanner_extension::error::StorageError;
use envoy_spanner_extension::exporter::{Config, Error, Mode};
use envoy_spanner_extension::module::{
    init, new_filter_config, supports_filter, InitStep, Refusal,
};
use envoy_spanner_extension::text::is_blank;
use serde::de::Error as _;
use serde_json::Value;

/// Reads an object that holds no field besides these, as the module's parser does.
fn object<'a>(
    value: &'a Value,
    fields: &'static [&'static str],
) -> Result<&'a serde_json::Map<String, Value>, serde_json::Error> {
    let object = value
        .as_object()
        .ok_or_else(|| serde_json::Error::custom("expected an object"))?;
    match object.keys().find(|key| !fields.contains(&key.as_str())) {
        Some(key) => Err(serde_json::Error::unknown_field(key, fields)),
        None => Ok(object),
    }
}

fn text(
    object: &serde_json::Map<String, Value>,
    field: &'static str,
) -> Result<String, serde_json::Error> {
    match object.get(field) {
        Some(value) => serde_json::from_value(value.clone()),
        None => Err(serde_json::Error::missing_field(field)),
    }
}

fn module_config(json: &str) -> Result<ModuleConfig, serde_json::Error> {
    let root: Value = serde_json::from_str(json)?;
    let root = object(&root, &["spanner", "opentelemetry"])?;
    let spanner = object(
        &root["spanner"],
        &["project_id", "instance_id", "database_id", "operation_timeout_ms"],
    )?;
    let telemetry = object(&root["opentelemetry"], &["service_name", "exporter"])?;
    let exporter = &telemetry["exporter"];
    let exporter = if exporter["type"] == "direct_grpc" {
        let fields = object(exporter, &["type", "grpc_endpoint"])?;
        Mode::DirectGrpc {
            grpc_endpoint: text(fields, "grpc_endpoint")?,
        }
    } else {
        let fields = object(exporter, &["type", "cluster"])?;
        Mode::EnvoyGrpcCallout {
            cluster: text(fields, "cluster")?,
        }
    };
    Ok(ModuleConfig {
        spanner: SpannerConfig {
            project_id: text(spanner, "project_id")?,
            instance_id: text(spanner, "instance_id")?,
            database_id: text(spanner, "database_id")?,
            operation_timeout_ms: match spanner.get("operation_timeout_ms") {
                Some(millis) => serde_json::from_value(millis.clone())?,
                None => default_operation_timeout_ms(),
            },
        },
        opentelemetry: Config {
            service_name: text(telemetry, "service_name")?,
            exporter,
        },
    })
}

fn parse(json: &str) -> Result<ModuleConfig, String> {
    module_config(json).map_err(|error| error.to_string())
}

fn direct() -> Config {
    Config {
        service_name: "envoy-spanner-poc".to_string(),
        exporter: Mode::DirectGrpc {
            grpc_endpoint: "http://127.0.0.1:4317".to_string(),
        },
    }
}

fn callout() -> Config {
    Config {
        service_name: "envoy-spanner-poc".to_string(),
        exporter: Mode::EnvoyGrpcCallout {
            cluster: "otel_collector_grpc".to_string(),
        },
    }
}

fn module(project_id: &str, instance_id: &str, database_id: &str) -> ModuleConfig {
    ModuleConfig {
        spanner: SpannerConfig {
            project_id: project_id.to_string(),
            instance_id: instance_id.to_string(),
            database_id: database_id.to_string(),
            operation_timeout_ms: default_operation_timeout_ms(),
        },
        opentelemetry: direct(),
    }
}

fn rejection(config: ModuleConfig) -> ConfigError {
    let checked = config.validate().unwrap_err();
    let made = FilterConfig::new(Ok(config), false).err().unwrap();
    assert_eq!(checked, made);
    made
}

#[test]
fn config_validation_does_not_initialize_external_services() {
    let config = r#"{
            "spanner": {
                "project_id": "project",
                "instance_id": "instance",
                "database_id": "database"
            },
            "opentelemetry": {
                "service_name": "envoy-spanner-poc",
                "exporter": {
                    "type": "direct_grpc",
                    "grpc_endpoint": "http://127.0.0.1:4317"
                }
            }
        }"#;

    let config = FilterConfig::new(parse(config), true).ok().unwrap();

    assert!(config.runtime.is_none());
    assert!(config.spanner_client.is_none());
    assert!(config.telemetry.is_none());
    assert_eq!(config.operation_timeout_ms, DEFAULT_OPERATION_TIMEOUT_MS);
}

#[test]
fn config_rejects_unknown_fields() {
    let config = r#"{
            "spanner": {
                "project_id": "project",
                "instance_id": "instance",
                "database_id": "database",
                "typo": true
            },
            "opentelemetry": {
                "service_name": "envoy-spanner-poc",
                "exporter": {
                    "type": "direct_grpc",
                    "grpc_endpoint": "http://127.0.0.1:4317"
                }
            }
        }"#;

    assert!(matches!(
        FilterConfig::new(parse(config), true),
        Err(ConfigError::Json(_))
    ));
    let known = config.replace(",\n                \"typo\": true", "");
    assert!(FilterConfig::new(parse(&known), true).is_ok());
}

#[test]
fn config_rejects_empty_spanner_identifiers() {
    let config = r#"{
            "spanner": {
                "project_id": "",
                "instance_id": "instance",
                "database_id": "database"
            },
            "opentelemetry": {
                "service_name": "envoy-spanner-poc",
                "exporter": {
                    "type": "envoy_grpc_callout",
                    "cluster": "otel_collector_grpc"
                }
            }
        }"#;

    assert!(matches!(
        FilterConfig::new(parse(config), true),
        Err(ConfigError::EmptyField("spanner.project_id"))
    ));
}

#[test]
fn faults_are_reported_in_order() {
    assert_eq!(
        rejection(module(" ", "", "")),
        ConfigError::EmptyField("spanner.project_id")
    );
    assert_eq!(
        rejection(module("p", "\u{2003}", "")),
        ConfigError::EmptyField("spanner.instance_id")
    );
    assert_eq!(
        rejection(module("p", "i", "\r\n")),
        ConfigError::EmptyField("spanner.database_id")
    );
    let mut config = module("p", "i", "d");
    config.spanner.operation_timeout_ms = 0;
    config.opentelemetry.service_name = String::new();
    assert_eq!(rejection(config), ConfigError::InvalidTimeout);
    let mut config = module("p", "i", "d");
    config.opentelemetry.service_name = String::new();
    assert_eq!(
        rejection(config),
        ConfigError::OpenTelemetry(Error::EmptyServiceName)
    );
}

#[test]
fn started_config_plans_every_service() {
    let mut module = module("project", "instance", "database");
    module.spanner.operation_timeout_ms = 250;
    module.opentelemetry = callout();
    let config = FilterConfig::new(Ok(module), false).ok().unwrap();
    let runtime = config.runtime.as_ref().unwrap();
    assert_eq!(runtime.worker_threads, 2);
    assert_eq!(runtime.thread_name, "envoy-spanner");
    assert_eq!(
        config.spanner_client.as_ref().unwrap().database,
        "projects/project/instances/instance/databases/database"
    );
    assert_eq!(config.operation_timeout_ms, 250);

    let filter = config.new_http_filter();
    assert_eq!(filter.operation_timeout_ms, 250);
    assert_eq!(filter.request_id, None);
    assert_eq!(filter.parent_context, None);
    assert_eq!(filter.deferred_operation, None);
    assert_eq!(
        filter.spanner.database,
        "projects/project/instances/instance/databases/database"
    );
    assert_eq!(filter.exporter.state.unwrap().cluster, "otel_collector_grpc");
}

#[test]
fn services_start_in_order_and_stop_at_the_first_failure() {
    let config = FilterConfig::new(Ok(module("p", "i", "d")), false).ok().unwrap();
    assert_eq!(config.first_service(), Some(Service::Runtime));
    let validated = FilterConfig::new(Ok(module("p", "i", "d")), true).ok().unwrap();
    assert_eq!(validated.first_service(), None);

    let next = FilterConfig::on_service_started;
    assert_eq!(
        next(StartupEvent::Runtime(Ok(()))),
        Ok(Some(Service::Spanner))
    );
    assert_eq!(
        next(StartupEvent::Spanner(Ok(()))),
        Ok(Some(Service::Telemetry))
    );
    assert_eq!(next(StartupEvent::Telemetry(Ok(()))), Ok(None));
    assert_eq!(
        next(StartupEvent::Runtime(Err("no threads".to_string()))),
        Err(ConfigError::Runtime("no threads".to_string()))
    );
    assert_eq!(
        next(StartupEvent::Spanner(Err(StorageError::Spanner(
            "x".to_string()
        )))),
        Err(ConfigError::Spanner(StorageError::Spanner("x".to_string())))
    );
    assert_eq!(
        next(StartupEvent::Telemetry(Err(Error::Direct("x".to_string())))),
        Err(ConfigError::OpenTelemetry(Error::Direct("x".to_string())))
    );
}

#[test]
fn config_errors_are_worded() {
    assert_eq!(
        ConfigError::Json("eof".to_string()).to_string(),
        "invalid JSON: eof"
    );
    assert_eq!(
        ConfigError::Runtime("eperm".to_string()).to_string(),
        "failed to create Tokio runtime: eperm"
    );
    assert_eq!(
        ConfigError::Spanner(StorageError::Configuration("x".to_string())).to_string(),
        "failed to initialize Spanner: Configuration error: x"
    );
    assert_eq!(
        ConfigError::OpenTelemetry(Error::EmptyServiceName).to_string(),
        "failed to initialize OpenTelemetry: opentelemetry.service_name must not be empty"
    );
    assert_eq!(
        ConfigError::EmptyField("spanner.project_id").to_string(),
        "spanner.project_id must not be empty"
    );
    assert_eq!(
        ConfigError::InvalidTimeout.to_string(),
        "spanner.operation_timeout_ms must be greater than zero"
    );
}

#[test]
fn default_timeout_is_ten_seconds() {
    assert_eq!(default_operation_timeout_ms(), 10_000);
}

#[test]
fn blank_text_is_unicode_white_space() {
    for c in [
        '\u{9}', '\u{a}', '\u{b}', '\u{c}', '\u{d}', '\u{20}', '\u{85}', '\u{a0}', '\u{1680}',
        '\u{2000}', '\u{200a}', '\u{2028}', '\u{2029}', '\u{202f}', '\u{205f}', '\u{3000}',
    ] {
        assert!(is_blank(&c.to_string()));
    }
    for c in ['\u{8}', '\u{e}', '\u{1f}', '\u{180e}', '\u{200b}', '\u{feff}', 'a'] {
        assert!(!is_blank(&c.to_string()));
    }
    assert!(is_blank(""));
    assert!(!is_blank(" a "));
}

#[test]
fn module_starts_with_any_crypto_provider() {
    assert_eq!(init(true, None), InitStep::Ready);
    assert_eq!(init(false, None), InitStep::InstallProvider);
    assert_eq!(init(false, Some(true)), InitStep::Ready);
    assert_eq!(init(true, Some(false)), InitStep::Ready);
    assert_eq!(init(false, Some(false)), InitStep::Failed);
}

#[test]
fn module_offers_one_filter() {
    assert!(supports_filter("spanner_request_mapper"));
    assert!(!supports_filter("spanner_request_mapper "));
    assert!(!supports_filter(""));
}

#[test]
fn telemetry_is_stopped_before_the_runtime() {
    let config = FilterConfig::new(Ok(module("p", "i", "d")), false).ok().unwrap();
    assert_eq!(
        config.on_shutdown(ShutdownEvent::Begin),
        (ShutdownStep::StopTelemetry { timeout_secs: 2 }, None)
    );
    assert_eq!(
        config.on_shutdown(ShutdownEvent::Telemetry(Ok(()))),
        (ShutdownStep::StopRuntime { timeout_secs: 5 }, None)
    );
    assert_eq!(
        config.on_shutdown(ShutdownEvent::Telemetry(Err("late".to_string()))),
        (
            ShutdownStep::StopRuntime { timeout_secs: 5 },
            Some("failed to shut down OpenTelemetry cleanly: late".to_string())
        )
    );
    assert_eq!(
        config.on_shutdown(ShutdownEvent::Runtime),
        (ShutdownStep::Done, None)
    );
    let validated = FilterConfig::new(Ok(module("p", "i", "d")), true).ok().unwrap();
    assert_eq!(
        validated.on_shutdown(ShutdownEvent::Begin),
        (ShutdownStep::Done, None)
    );
}

#[test]
fn filter_name_is_looked_at_before_the_configuration() {
    let refusal = new_filter_config("other", Err("bad".to_string()), true).err().unwrap();
    assert_eq!(refusal, Refusal::UnsupportedName("other".to_string()));
    assert_eq!(refusal.to_string(), "unsupported filter name: other");
    let name = "spanner_request_mapper";
    let refusal = new_filter_config(name, Err("bad".to_string()), true).err().unwrap();
    assert_eq!(
        refusal.to_string(),
        "failed to create filter config: invalid JSON: bad"
    );
    let config = new_filter_config(name, Ok(module("p", "i", "d")), false).ok().unwrap();
    assert!(config.runtime.is_some());
}
