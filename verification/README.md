# Envoy Spanner Extension

The decision logic of an Envoy HTTP filter, verified with Verus. The filter

- gives each request a random version 4 UUID,
- writes the times of request and response to a Spanner table,
- adds `x-request-id` to a request after its mapping is committed,
- traces each Spanner operation as a child of Envoy's active span.

Spans go to a collector over OTLP/gRPC, on a connection that either the OpenTelemetry SDK or Envoy
owns.

## Layout

- `src/filter.rs`: the filter of one HTTP stream, as a state machine from callbacks to actions
- `src/operation.rs`: the table that carries results of storage operations back to their stream
- `src/exporter.rs` and `src/exporter/`: choice of transport, queue of encoded exports, streams
  through Envoy and the verdict on the collector's reply
- `src/telemetry.rs`: parent contexts and the spans around storage operations
- `src/spanner.rs`, `src/request_id.rs`: rows and identifiers
- `src/config.rs`, `src/module.rs`: configuration, start of services, entry points
- `src/error.rs`, `src/text.rs`: error messages and text helpers
- `app/`: the dynamic module around the library: Envoy callbacks, Tokio, Spanner client, JSON

What holds of the filter as a whole is stated by the functions named `law_*`.
