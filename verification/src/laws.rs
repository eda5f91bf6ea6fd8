//! What holds from one end of the library to the other: from what Envoy, Spanner, the collector and
//! the configuration say to what is done to the stream, to the table and to the collector.
//!
//! Each law writes out what it promises.

use crate::config::{
    configured, next_service, parsed_view, shutdown_warning, startup_view, ConfigErrorView,
    FilterConfig, FilterConfigView, ModuleConfig, ModuleConfigView, RuntimeView, Service,
    ShutdownEvent, StartupEvent,
};
use crate::error::{storage_result_view, StorageError, StorageErrorView, StorageResult};
use crate::exporter::envoy::{
    handle_closed, handle_closes_last, handle_completion, ActionView, Completion, EventView,
    ExportAction, ExportEvent, Handle, StreamHandle, StreamRequest, StreamRequestView, StreamView,
};
use crate::exporter::frames::{
    carries, decoded_request, encoded_length, encoding_view, enqueued, export_view, frames_view,
    is_grpc_message, readable, request_in, tonic_frame, ExportError,
};
use crate::exporter::grpc::{
    first_value, header_pairs, same_name, status_code, status_name, verdict_view, GrpcResponse,
    ResponseView,
};
use crate::exporter::{
    check_view, factory_cluster, fresh_handle, ConfigView, Error, ErrorView, HandleFactory, Mode,
    ModeView, Pipeline, ProviderPlan, SpanProcessor, SpanProcessorView,
};
use crate::filter::{
    event_operation, optional_finished, ExportStep, ExportStepView, Filter, FilterView, Finished,
    FinishedView, HeadersStep, HeadersStepView, StoreOperation, StreamAction, StreamActionView,
};
use crate::module::{offered, Refusal, RefusalView};
use crate::operation::{
    event_id_of, optional_operation_view, reply_result, OperationOutcome, OperationType,
    OperationView, OutcomeView, PendingOperation, PendingView,
};
use crate::request_id::{hex_digit, hyphenated, nibble, RequestId};
use crate::spanner::{
    attempt_view, connect_step, database_name, request_mutation, response_mutation, write_outcome,
    ColumnValue, ColumnValueView, ConnectEvent, ConnectEventView, ConnectStep, ConnectStepView,
    Mutation, MutationKind,
};
use crate::telemetry::{
    active_context, context_of, context_view, digits_value, hex_number_up_to, padded_hex,
    span_error, span_id_error, trace_id_error, ActiveSpan, ParentContext, SpanKind, SpanPlan,
    SpanPlanView,
};
use crate::text::{blank, white_space};
use opentelemetry_proto::tonic::collector::trace::v1::ExportTraceServiceRequest;
use vstd::arithmetic::power::*;
use vstd::prelude::*;
use vstd::utf8::*;

verus! {

// ---- replies, results and their wording ----

/// The result of a storage call is `Ok` exactly if a reply came in time and is `Ok`. An error that
/// was replied is the result as it is; no reply is a timeout after the limit that was set.
pub proof fn law_reply_decides_the_result(
    reply: Option<StorageResult<()>>,
    timeout_ms: u64,
    error: StorageError,
)
    ensures
        reply_result(reply, timeout_ms) is Ok <==> (reply is Some && reply->0 is Ok),
        reply_result(Some(Err(error)), timeout_ms) == Err::<(), StorageErrorView>(error@),
        reply_result(None, timeout_ms) == Err::<(), StorageErrorView>(
            StorageErrorView::Timeout(timeout_ms),
        ),
{
}

/// A storage error says what failed and gives the reason that came with it.
pub proof fn law_storage_errors_are_worded(reason: Seq<char>)
    ensures
        StorageErrorView::Spanner(reason).message() == "Spanner client error: "@ + reason,
        StorageErrorView::Configuration(reason).message() == "Configuration error: "@ + reason,
        forall|millis: u64| #[trigger]
            StorageErrorView::Timeout(millis).message() == "Spanner operation timed out after "@
                + crate::error::millis_text(millis),
{
}

/// The span around a call ends without an error exactly if the call succeeded, and otherwise with
/// the message of the failure.
pub proof fn law_span_ends_with_the_failure(result: Result<(), StorageErrorView>)
    ensures
        span_error(result) is None <==> result is Ok,
        result matches Err(error) ==> span_error(result) == Some(error.message()),
{
}

/// A failed write is a failure of Spanner, with its reason; every other write succeeded.
pub proof fn law_write_outcome_is_the_reply(reply: Result<(), Seq<char>>)
    ensures
        write_outcome(reply) is Ok <==> reply is Ok,
        reply matches Err(reason) ==> write_outcome(reply) == Err::<(), StorageErrorView>(
            StorageErrorView::Spanner(reason),
        ),
{
}

/// Connecting looks up credentials, then opens a client of the very database, then is done. A
/// failure to find credentials is one of configuration, a failure to open the client one of
/// Spanner, each with its reason.
pub proof fn law_connecting_takes_its_steps(database: Seq<char>, reason: Seq<char>)
    ensures
        connect_step(database, ConnectEventView::Begin) == Ok::<ConnectStepView, StorageErrorView>(
            ConnectStepView::FindCredentials,
        ),
        connect_step(database, ConnectEventView::Credentials(Ok(()))) == Ok::<
            ConnectStepView,
            StorageErrorView,
        >(ConnectStepView::Open { database }),
        connect_step(database, ConnectEventView::Opened(Ok(()))) == Ok::<
            ConnectStepView,
            StorageErrorView,
        >(ConnectStepView::Connected),
        connect_step(database, ConnectEventView::Credentials(Err(reason))) == Err::<
            ConnectStepView,
            StorageErrorView,
        >(StorageErrorView::Configuration(reason)),
        connect_step(database, ConnectEventView::Opened(Err(reason))) == Err::<
            ConnectStepView,
            StorageErrorView,
        >(StorageErrorView::Spanner(reason)),
{
}

// ---- event ids and the table of pending operations ----

/// An event id is the sequence number, as far as it fits, above one bit that is 0 on the request
/// path and 1 on the response path.
pub proof fn law_event_id_is_number_and_path(
    sequence: u64,
    operation_type: OperationType,
    event_id: u64,
)
    ensures
        event_id_of(sequence, operation_type) / 2 == sequence % 0x8000_0000_0000_0000,
        event_id_of(sequence, operation_type) % 2 == 0 <==> operation_type
            == OperationType::Request,
        OperationType::of_event(event_id) == OperationType::Request <==> event_id % 2 == 0,
        OperationType::of_event(event_id) == OperationType::Response <==> event_id % 2 == 1,
{
}

/// An operation that is started is pending under its own event id, with its own request and path.
/// The next operation has the next sequence number, and nothing else changes.
pub proof fn law_started_operation_is_pending(
    pending: PendingView,
    uuid: RequestId,
    operation_type: OperationType,
    other: u64,
)
    ensures
        ({
            let event_id = event_id_of(pending.next_sequence, operation_type);
            let after = pending.inserted(uuid, operation_type);
            &&& after.lookup(event_id) == Some(
                OperationView { uuid, operation_type, outcome: OutcomeView::Pending },
            )
            &&& other != event_id ==> after.lookup(other) == pending.lookup(other)
            &&& after.next_sequence == (pending.next_sequence + 1) % 0x1_0000_0000_0000_0000
        }),
{
}

/// A result is recorded with the operation it belongs to: success as such, failure with its
/// message. The request and the path of the operation stay, every other operation stays, and the
/// result of an operation that is not there leaves no trace.
pub proof fn law_result_is_recorded_as_it_is(
    pending: PendingView,
    event_id: u64,
    result: Result<(), StorageErrorView>,
    other: u64,
)
    ensures
        ({
            let after = pending.completed(event_id, result);
            &&& pending.lookup(event_id) is None ==> after == pending
            &&& pending.lookup(event_id) matches Some(operation) ==> {
                &&& after.lookup(event_id) matches Some(recorded)
                &&& recorded.uuid == operation.uuid
                &&& recorded.operation_type == operation.operation_type
                &&& recorded.outcome == OutcomeView::Succeeded <==> result is Ok
                &&& result matches Err(error) ==> recorded.outcome == OutcomeView::Failed(
                    error.message(),
                )
            }
            &&& other != event_id ==> after.lookup(other) == pending.lookup(other)
            &&& after.next_sequence == pending.next_sequence
        }),
{
}

/// An operation that is collected is gone; every other one stays, and so does the numbering. The
/// table knows an operation exactly if it holds it.
pub proof fn law_collected_operation_is_gone(pending: PendingView, event_id: u64, other: u64)
    ensures
        pending.lookup(event_id) is Some <==> pending.operations.contains_key(event_id),
        pending.lookup(event_id) matches Some(operation) ==> operation
            == pending.operations[event_id],
        pending.removed(event_id).lookup(event_id) is None,
        other != event_id ==> pending.removed(event_id).lookup(other) == pending.lookup(other),
        pending.removed(event_id).next_sequence == pending.next_sequence,
{
}

// ---- what is stored ----

/// The hyphenated form of an id is made of 32 hexadecimal digits that are read back as the id, with
/// hyphens after the eighth, twelfth, sixteenth and twentieth.
pub proof fn law_id_is_written_in_full(id: RequestId)
    ensures
        ({
            let text = hyphenated(id.bits as int);
            let digits = text.subrange(0, 8) + text.subrange(9, 13) + text.subrange(14, 18)
                + text.subrange(19, 23) + text.subrange(24, 36);
            &&& text.len() == 36
            &&& text[8] == '-' && text[13] == '-' && text[18] == '-' && text[23] == '-'
            &&& digits == padded_hex(id.bits as int, 32)
            &&& digits_value(digits) == id.bits
        }),
{
    let bits = id.bits as int;
    let text = hyphenated(bits);
    let digits = text.subrange(0, 8) + text.subrange(9, 13) + text.subrange(14, 18)
        + text.subrange(19, 23) + text.subrange(24, 36);
    assert(pow(16, 8) == 0x1_0000_0000) by {
        reveal_with_fuel(pow, 9);
    }
    assert(pow(16, 16) == 0x1_0000_0000_0000_0000) by {
        lemma_pow_adds(16, 8, 8);
    }
    assert(pow(16, 32) == 0x1_0000_0000_0000_0000_0000_0000_0000_0000) by {
        lemma_pow_adds(16, 16, 16);
    }
    crate::telemetry::lemma_padded_hex(bits, 32);
    assert forall|k: int| 0 <= k < 32 implies digits[k] == padded_hex(bits, 32)[k] by {
        lemma_padded_digit(bits, 32, k);
        assert(digits[k] == hex_digit(nibble(bits, k)));
    }
    assert(digits =~= padded_hex(bits, 32));
}

/// The digits of the padded form are those of the number.
proof fn lemma_padded_digit(n: int, width: nat, k: int)
    requires
        0 <= n,
        0 <= k < width,
    ensures
        padded_hex(n, width).len() == width,
        padded_hex(n, width)[k] == hex_digit(n / pow(16, (width - 1 - k) as nat) % 16),
    decreases width,
{
    let rest = (width - 1) as nat;
    lemma_padded_len(n / 16, rest);
    if k == rest {
        lemma_pow0(16);
    } else {
        lemma_padded_digit(n / 16, rest, k);
        let j = (rest - 1 - k) as nat;
        lemma_pow_positive(16, j);
        lemma_pow_adds(16, 1, j);
        lemma_pow1(16);
        vstd::arithmetic::div_mod::lemma_div_denominator(n, 16, pow(16, j));
    }
}

proof fn lemma_padded_len(n: int, width: nat)
    ensures
        padded_hex(n, width).len() == width,
    decreases width,
{
    if width > 0 {
        lemma_padded_len(n / 16, (width - 1) as nat);
    }
}

/// A version 4 id shows its version and its variant.
pub proof fn law_version_and_variant_are_shown(id: RequestId)
    requires
        crate::request_id::is_version_4(id.bits as int),
    ensures
        ({
            let text = hyphenated(id.bits as int);
            &&& text[14] == '4'
            &&& text[19] == '8' || text[19] == '9' || text[19] == 'a' || text[19] == 'b'
        }),
{
    let n = nibble(id.bits as int, 16);
    assert(n == 8 || n == 9 || n == 10 || n == 11);
    assert(hyphenated(id.bits as int)[19] == hex_digit(n));
}

/// On request headers the stream is held up for a write that makes the row of the request, with
/// its id and the time of the commit, within the time limit of the filter. The operation is
/// pending under the event id that is given out.
pub proof fn law_request_row_is_inserted(
    filter: FilterView,
    pending: PendingView,
    uuid: RequestId,
    active: Option<ActiveSpan>,
)
    ensures
        filter.request_step(pending, uuid, active) matches HeadersStepView::Pause(operation) && {
            &&& operation.mutation.kind == MutationKind::Insert
            &&& operation.mutation.table == "request_mappings"@
            &&& operation.mutation.columns == seq!["request_id"@, "timestamp"@]
            &&& operation.mutation.values == seq![
                ColumnValueView::Text(hyphenated(uuid.bits as int)),
                ColumnValueView::CommitTimestamp,
            ]
            &&& operation.timeout_ms == filter.operation_timeout_ms
            &&& operation.event_id == 2 * (pending.next_sequence % 0x8000_0000_0000_0000)
            &&& pending.inserted(uuid, OperationType::Request).lookup(operation.event_id) == Some(
                OperationView {
                    uuid,
                    operation_type: OperationType::Request,
                    outcome: OutcomeView::Pending,
                },
            )
        },
        ({
            let seen = filter.request_seen(active);
            &&& seen.database == filter.database
            &&& seen.request_id == filter.request_id
            &&& seen.operation_timeout_ms == filter.operation_timeout_ms
            &&& seen.exporter == filter.exporter
            &&& seen.scheduled_operation == filter.scheduled_operation
            &&& seen.deferred_operation == filter.deferred_operation
        }),
{
}

/// Response headers pass if the request has no id. Otherwise the stream is held up for a write that
/// adds the time of the response, the time of the commit, to the row of that id, within the time
/// limit of the filter. The operation is pending under the event id that is given out.
pub proof fn law_response_time_is_updated(filter: FilterView, pending: PendingView)
    ensures
        filter.request_id is None <==> filter.response_step(pending) is Continue,
        filter.request_id is None ==> filter.response_pending(pending) == pending,
        filter.request_id matches Some(uuid) ==> {
            &&& filter.response_step(pending) matches HeadersStepView::Pause(operation)
            &&& operation.mutation.kind == MutationKind::Update
            &&& operation.mutation.table == "request_mappings"@
            &&& operation.mutation.columns == seq!["request_id"@, "response_timestamp"@]
            &&& operation.mutation.values == seq![
                ColumnValueView::Text(hyphenated(uuid.bits as int)),
                ColumnValueView::CommitTimestamp,
            ]
            &&& operation.timeout_ms == filter.operation_timeout_ms
            &&& operation.untraced is None
            &&& operation.event_id == 2 * (pending.next_sequence % 0x8000_0000_0000_0000) + 1
            &&& filter.response_pending(pending) == pending.inserted(uuid, OperationType::Response)
            &&& filter.response_pending(pending).lookup(operation.event_id) == Some(
                OperationView {
                    uuid,
                    operation_type: OperationType::Response,
                    outcome: OutcomeView::Pending,
                },
            )
        },
{
}

/// The writes of a client are those that the filter asks for, and a database is named by its
/// project, instance and own id.
pub proof fn law_rows_and_databases_are_named(
    uuid: RequestId,
    project_id: Seq<char>,
    instance_id: Seq<char>,
    database_id: Seq<char>,
)
    ensures
        request_mutation(uuid).kind == MutationKind::Insert,
        request_mutation(uuid).table == "request_mappings"@,
        request_mutation(uuid).columns == seq!["request_id"@, "timestamp"@],
        response_mutation(uuid).kind == MutationKind::Update,
        response_mutation(uuid).table == "request_mappings"@,
        response_mutation(uuid).columns == seq!["request_id"@, "response_timestamp"@],
        request_mutation(uuid).values == seq![
            ColumnValueView::Text(hyphenated(uuid.bits as int)),
            ColumnValueView::CommitTimestamp,
        ],
        response_mutation(uuid).values == request_mutation(uuid).values,
        database_name(project_id, instance_id, database_id) == "projects/"@ + project_id
            + "/instances/"@ + instance_id + "/databases/"@ + database_id,
{
}

// ---- how it is traced ----

/// What is told of a span around a storage operation.
pub open spec fn tells_operation(
    span: SpanPlanView,
    name: Seq<char>,
    operation: Seq<char>,
    uuid: RequestId,
) -> bool {
    &&& span.name == name
    &&& span.kind == SpanKind::Client
    &&& span.attributes == seq![
        ("db.system.name"@, "gcp.spanner"@),
        ("db.operation.name"@, operation),
        ("request.id"@, hyphenated(uuid.bits as int)),
    ]
}

/// Whether this is the context of a sampled span of another process.
pub open spec fn is_remote_parent(context: ParentContext, trace_id: u128, span_id: u64) -> bool {
    &&& context.trace_id == trace_id
    &&& context.span_id == span_id
    &&& context.sampled
    &&& context.remote
}

/// The span around the write of a request is a child of Envoy's active span, and so is the span
/// around the write of its response, whatever came in between: the filter keeps that parent. This
/// holds of any ids that are hexadecimal numbers that fit.
pub proof fn law_spans_are_children_of_envoys_span(
    filter: FilterView,
    pending: PendingView,
    uuid: RequestId,
    trace_text: String,
    span_text: String,
    trace_id: u128,
    span_id: u64,
    later: FilterView,
    later_pending: PendingView,
    stored: RequestId,
)
    requires
        hex_number_up_to(trace_text@, u128::MAX as int) == Some(trace_id as int),
        hex_number_up_to(span_text@, u64::MAX as int) == Some(span_id as int),
    ensures
        ({
            let active = Some(
                ActiveSpan { trace_id: Some(trace_text), span_id: Some(span_text) },
            );
            let seen = filter.request_seen(active);
            &&& filter.request_step(pending, uuid, active) matches HeadersStepView::Pause(operation)
            &&& operation.untraced is None
            &&& operation.span matches Some(span)
            &&& is_remote_parent(span.parent, trace_id, span_id)
            &&& tells_operation(span, "spanner.insert_request_mapping"@, "INSERT"@, uuid)
            &&& seen.parent_context matches Some(kept)
            &&& is_remote_parent(kept, trace_id, span_id)
            &&& (later.parent_context == seen.parent_context && later.request_id == Some(stored))
                ==> {
                &&& later.response_step(later_pending) matches HeadersStepView::Pause(response)
                &&& response.span matches Some(span)
                &&& is_remote_parent(span.parent, trace_id, span_id)
                &&& tells_operation(span, "spanner.update_response_timestamp"@, "UPDATE"@, stored)
            }
        }),
{
}

/// Ids that Envoy writes in full, 32 and 16 digits, give the span around the write of the request,
/// and the filter from then on, exactly that trace and that parent.
pub proof fn law_full_ids_are_taken_over(
    filter: FilterView,
    pending: PendingView,
    uuid: RequestId,
    trace_text: String,
    span_text: String,
    trace_id: u128,
    span_id: u64,
)
    requires
        trace_text@ == padded_hex(trace_id as int, 32),
        span_text@ == padded_hex(span_id as int, 16),
    ensures
        ({
            let active = Some(
                ActiveSpan { trace_id: Some(trace_text), span_id: Some(span_text) },
            );
            &&& filter.request_step(pending, uuid, active) matches HeadersStepView::Pause(operation)
            &&& operation.span matches Some(span)
            &&& is_remote_parent(span.parent, trace_id, span_id)
            &&& filter.request_seen(active).parent_context matches Some(kept)
            &&& is_remote_parent(kept, trace_id, span_id)
        }),
{
    crate::telemetry::law_span_joins_envoy_trace(trace_id, span_id);
}

/// Without a usable active span the request is stored all the same, untraced, with the reason told;
/// its response is untraced, too.
pub proof fn law_untraced_request_is_stored(
    filter: FilterView,
    pending: PendingView,
    uuid: RequestId,
    active: Option<ActiveSpan>,
    later: FilterView,
    later_pending: PendingView,
)
    ensures
        filter.request_step(pending, uuid, active) matches HeadersStepView::Pause(operation) && {
            &&& operation.span is None <==> active_context(active) is Err
            &&& operation.untraced is Some <==> active_context(active) is Err
            &&& filter.request_seen(active).parent_context is None <==> active_context(active)
                is Err
            &&& active_context(active) matches Err(reason) ==> operation.untraced == Some(reason)
        },
        later.parent_context is None ==> (later.response_step(later_pending)
            matches HeadersStepView::Pause(response) ==> response.span is None),
{
}

/// Why there is no usable active span: there is none, an id is missing, or an id is no number. The
/// trace id is looked at first.
pub proof fn law_missing_span_is_explained(
    trace_text: String,
    span_text: String,
    other: Option<String>,
)
    ensures
        active_context(None) == Err::<ParentContext, Seq<char>>("Envoy has no active span"@),
        active_context(Some(ActiveSpan { trace_id: None, span_id: other })) == Err::<
            ParentContext,
            Seq<char>,
        >("active Envoy span has no trace ID"@),
        active_context(Some(ActiveSpan { trace_id: Some(trace_text), span_id: None })) == Err::<
            ParentContext,
            Seq<char>,
        >("active Envoy span has no span ID"@),
        active_context(Some(ActiveSpan { trace_id: Some(trace_text), span_id: Some(span_text) }))
            == context_of(trace_text@, span_text@),
        hex_number_up_to(trace_text@, u128::MAX as int) is None ==> context_of(
            trace_text@,
            span_text@,
        ) == Err::<ParentContext, Seq<char>>(
            "invalid Envoy trace ID: "@ + trace_id_error(trace_text@),
        ),
        hex_number_up_to(trace_text@, u128::MAX as int) is Some && hex_number_up_to(
            span_text@,
            u64::MAX as int,
        ) is None ==> context_of(trace_text@, span_text@) == Err::<ParentContext, Seq<char>>(
            "invalid Envoy span ID: "@ + span_id_error(span_text@),
        ),
        context_of(trace_text@, span_text@) is Ok <==> (hex_number_up_to(
            trace_text@,
            u128::MAX as int,
        ) is Some && hex_number_up_to(span_text@, u64::MAX as int) is Some),
{
}

/// An id with a character that is no hexadecimal digit, apart from a leading plus sign, is refused,
/// and so are an empty one and one whose number does not fit.
pub proof fn law_malformed_id_is_refused(text: Seq<char>, limit: int, i: int)
    ensures
        text.len() == 0 || text == seq!['+'] ==> hex_number_up_to(text, limit) is None,
        0 <= i < text.len() && !('0' <= text[i] <= '9' || 'a' <= text[i] <= 'f' || 'A' <= text[i]
            <= 'F') && !(i == 0 && text[0] == '+') ==> hex_number_up_to(text, limit) is None,
        hex_number_up_to(text, limit) matches Some(n) ==> n <= limit,
{
    let digits = crate::telemetry::unsigned_digits(text);
    if 0 <= i < text.len() && !('0' <= text[i] <= '9' || 'a' <= text[i] <= 'f' || 'A' <= text[i]
        <= 'F') && !(i == 0 && text[0] == '+') {
        if text[0] == '+' {
            assert(digits[i - 1] == text[i]);
        } else {
            assert(digits[i] == text[i]);
        }
    }
}

/// Appending a hexadecimal digit to an id multiplies its number by sixteen and adds the digit, in
/// either case of the letters; a leading plus sign changes nothing.
pub proof fn law_id_is_read_digit_by_digit(text: Seq<char>, c: char)
    requires
        text.len() > 0,
        text[0] != '+',
    ensures
        crate::telemetry::hex_number(seq!['+'] + text) == crate::telemetry::hex_number(text),
        crate::telemetry::hex_number(text) matches Some(n) ==> {
            &&& '0' <= c <= '9' ==> crate::telemetry::hex_number(text.push(c)) == Some(
                16 * n + (c as int - 48),
            )
            &&& 'a' <= c <= 'f' ==> crate::telemetry::hex_number(text.push(c)) == Some(
                16 * n + (c as int - 87),
            )
            &&& 'A' <= c <= 'F' ==> crate::telemetry::hex_number(text.push(c)) == Some(
                16 * n + (c as int - 55),
            )
        },
{
    assert((seq!['+'] + text).skip(1) =~= text);
    assert(text.push(c).drop_last() =~= text);
    if crate::telemetry::all_hex(text) && crate::telemetry::is_hex_digit(c) {
        assert forall|i: int| 0 <= i < text.push(c).len() implies crate::telemetry::is_hex_digit(
            #[trigger] text.push(c)[i],
        ) by {
            if i < text.len() {
                assert(text.push(c)[i] == text[i]);
            }
        }
    }
}

/// An id of one hexadecimal digit is read as that digit, in either case of the letters.
pub proof fn law_single_digit_is_read(c: char)
    ensures
        '0' <= c <= '9' ==> crate::telemetry::hex_number(seq![c]) == Some(c as int - 48),
        'a' <= c <= 'f' ==> crate::telemetry::hex_number(seq![c]) == Some(c as int - 87),
        'A' <= c <= 'F' ==> crate::telemetry::hex_number(seq![c]) == Some(c as int - 55),
{
    assert(seq![c].drop_last() =~= Seq::empty());
    assert(seq![c].last() == c);
    assert(digits_value(Seq::<char>::empty()) == 0);
    assert(digits_value(seq![c]) == crate::telemetry::hex_digit_value(c));
}

// ---- how the stream goes on ----

/// Whether the stream of a request goes on as it should: with its id as a header exactly if the
/// request was stored.
pub open spec fn lets_request_go_on(
    actions: Seq<StreamActionView>,
    uuid: RequestId,
    stored: bool,
) -> bool {
    &&& stored ==> actions == seq![
        StreamActionView::SetRequestHeader {
            name: "x-request-id"@,
            value: hyphenated(uuid.bits as int),
        },
        StreamActionView::ContinueDecoding,
    ]
    &&& !stored ==> actions == seq![StreamActionView::ContinueDecoding]
}

/// From request headers to the end of the write: the request gets `x-request-id`, and the filter
/// its id, exactly if the write was replied to in time and the reply is a success. Otherwise the
/// request goes on without either. This holds whether the operation is finished right after the
/// export or put off until the export streams are closed.
pub proof fn law_request_gets_its_id_exactly_after_commit(
    filter: FilterView,
    pending: PendingView,
    uuid: RequestId,
    active: Option<ActiveSpan>,
    reply: Option<StorageResult<()>>,
    event: EventView,
    later: FilterView,
)
    ensures
        ({
            let stored = reply is Some && reply->0 is Ok;
            &&& filter.request_step(pending, uuid, active) matches HeadersStepView::Pause(operation)
            &&& {
                let event_id = operation.event_id;
                let table = pending.inserted(uuid, OperationType::Request).completed(
                    event_id,
                    reply_result(reply, operation.timeout_ms),
                );
                let scheduled = filter.request_seen(active).scheduled(table, event_id);
                let (after, step) = scheduled.export_step(event);
                &&& step matches ExportStepView::Settled { finished: Some(finished), .. } ==> {
                    &&& finished.event_id == event_id
                    &&& finished.operation.uuid == uuid
                    &&& finished.operation.operation_type == OperationType::Request
                    &&& lets_request_go_on(finished.actions, uuid, stored)
                    &&& after.request_id == if stored {
                        Some(uuid)
                    } else {
                        filter.request_id
                    }
                }
                &&& step matches ExportStepView::Settled { finished: None, .. } ==> {
                    &&& after.request_id == filter.request_id
                    &&& after.deferred_operation is Some
                    &&& later.deferred_operation == after.deferred_operation ==> {
                        &&& later.exports_done(true).1 matches Some(finished)
                        &&& finished.event_id == event_id
                        &&& lets_request_go_on(finished.actions, uuid, stored)
                        &&& later.exports_done(true).0.request_id == if stored {
                            Some(uuid)
                        } else {
                            later.request_id
                        }
                    }
                }
                &&& step is Start ==> after.request_id == filter.request_id
            }
        }),
{
}

/// An error that Spanner replied to the write of a request keeps the request from getting
/// `x-request-id`, ends the span with the wording of that error, and keeps the response from being
/// held up.
pub proof fn law_replied_error_is_not_a_commit(
    filter: FilterView,
    pending: PendingView,
    event_id: u64,
    timeout_ms: u64,
    error: StorageError,
    later: PendingView,
)
    requires
        pending.lookup(event_id) matches Some(operation) && operation.operation_type
            == OperationType::Request,
        filter.request_id is None,
    ensures
        ({
            let result = reply_result(Some(Err(error)), timeout_ms);
            &&& span_error(result) == Some(error@.message())
            &&& pending.completed(event_id, result).lookup(event_id) matches Some(operation)
            &&& operation.outcome == OutcomeView::Failed(error@.message())
            &&& forall|i: int|
                0 <= i < crate::filter::finish(event_id, operation).actions.len() ==> !(#[trigger]
                crate::filter::finish(event_id, operation).actions[i] is SetRequestHeader)
            &&& filter.after_operation(operation).request_id is None
            &&& filter.after_operation(operation).response_step(later) is Continue
        }),
{
}

/// The stream of a response goes on once, whatever came of the write, and keeps its id.
pub proof fn law_response_goes_on(filter: FilterView, event_id: u64, operation: OperationView)
    requires
        operation.operation_type == OperationType::Response,
    ensures
        crate::filter::finish(event_id, operation).actions == seq![
            StreamActionView::ContinueEncoding,
        ],
        crate::filter::finish(event_id, operation).event_id == event_id,
        crate::filter::finish(event_id, operation).operation == operation,
        filter.after_operation(operation) == filter,
{
}

/// A request that was stored goes on with its id and nothing but its id changes in the filter; one
/// that was not, or whose outcome is not known, goes on as it is.
pub proof fn law_finished_request_goes_on(
    filter: FilterView,
    event_id: u64,
    operation: OperationView,
)
    requires
        operation.operation_type == OperationType::Request,
    ensures
        lets_request_go_on(
            crate::filter::finish(event_id, operation).actions,
            operation.uuid,
            operation.outcome is Succeeded,
        ),
        crate::filter::finish(event_id, operation).event_id == event_id,
        crate::filter::finish(event_id, operation).operation == operation,
        operation.outcome is Succeeded ==> same_but_for_id(
            filter.after_operation(operation),
            filter,
        ) && filter.after_operation(operation).request_id == Some(operation.uuid),
        operation.outcome !is Succeeded ==> filter.after_operation(operation) == filter,
{
}

/// Whether two filters differ in nothing but the id of the request.
pub open spec fn same_but_for_id(a: FilterView, b: FilterView) -> bool {
    &&& a.database == b.database
    &&& a.operation_timeout_ms == b.operation_timeout_ms
    &&& a.exporter == b.exporter
    &&& a.parent_context == b.parent_context
    &&& a.scheduled_operation == b.scheduled_operation
    &&& a.deferred_operation == b.deferred_operation
}

/// A scheduled event puts its operation before the export, and changes nothing else. An event that
/// stands for no operation lets the stream go on, on the path that its id tells.
pub proof fn law_scheduled_event_brings_its_operation(
    filter: FilterView,
    pending: PendingView,
    event_id: u64,
)
    ensures
        ({
            let after = filter.scheduled(pending, event_id);
            &&& pending.lookup(event_id) is None ==> after == filter
            &&& pending.lookup(event_id) matches Some(operation) ==> after.scheduled_operation
                == Some((event_id, operation))
            &&& same_but_for_id(
                after,
                FilterView { scheduled_operation: after.scheduled_operation, ..filter },
            )
            &&& after.request_id == filter.request_id
        }),
        event_id % 2 == 0 ==> crate::filter::resume(OperationType::of_event(event_id))
            == StreamActionView::ContinueDecoding,
        event_id % 2 == 1 ==> crate::filter::resume(OperationType::of_event(event_id))
            == StreamActionView::ContinueEncoding,
{
}

// ---- how spans are exported through Envoy ----

/// Whether this is the stream that carries a frame to the collector of a cluster: a gRPC call of
/// the OTLP trace service, with the frame as its whole body and one second to end.
pub open spec fn carries_to_collector(
    request: StreamRequestView,
    cluster: Seq<char>,
    frame: Seq<u8>,
) -> bool {
    &&& request.cluster == cluster
    &&& request.headers == seq![
        (":method"@, encode_utf8("POST"@)),
        (
            ":path"@,
            encode_utf8("/opentelemetry.proto.collector.trace.v1.TraceService/Export"@),
        ),
        ("host"@, encode_utf8(cluster)),
        ("content-type"@, encode_utf8("application/grpc"@)),
        ("te"@, encode_utf8("trailers"@)),
    ]
    &&& request.body == frame
    &&& request.end_stream
    &&& request.timeout_ms == 1000
}

/// The frames that are still to be exported after an event, if Envoy exports.
pub open spec fn remaining(exporting: Seq<Seq<u8>>, event: EventView) -> Seq<Seq<u8>> {
    match event {
        EventView::Drained(frames) => exporting + frames,
        EventView::Started(_) => if exporting.len() == 0 {
            exporting
        } else {
            exporting.skip(1)
        },
        EventView::Refused => exporting,
    }
}

/// While frames remain and Envoy opens streams, the filter asks for a stream that carries the first
/// remaining frame to the cluster of its handle. When none remain, nothing goes back to the queue;
/// when Envoy refuses a stream, all that remain go back, in their order.
pub proof fn law_filter_hands_frames_to_envoy(
    filter: FilterView,
    state: StreamView,
    event: EventView,
)
    requires
        filter.exporter == Some(state),
    ensures
        ({
            let rest = remaining(state.exporting, event);
            let (after, step) = filter.export_step(event);
            &&& after.exporter matches Some(exported)
            &&& exported.cluster == state.cluster
            &&& event !is Refused && rest.len() > 0 ==> {
                &&& step matches ExportStepView::Start(request)
                &&& carries_to_collector(request, state.cluster, rest[0])
                &&& exported.exporting == rest
                &&& after.scheduled_operation == filter.scheduled_operation
                &&& after.deferred_operation == filter.deferred_operation
                &&& after.request_id == filter.request_id
            }
            &&& event !is Refused && rest.len() == 0 ==> {
                &&& step matches ExportStepView::Settled { requeue, .. }
                &&& requeue == Seq::<Seq<u8>>::empty()
            }
            &&& event is Refused ==> {
                &&& step matches ExportStepView::Settled { requeue, .. }
                &&& requeue == state.exporting
            }
            &&& step is Settled ==> exported.exporting == Seq::<Seq<u8>>::empty()
            &&& event matches EventView::Started(stream_id) ==> exported.in_flight
                == state.in_flight.insert(
                stream_id,
                ResponseView { http_status: None, grpc_status: None },
            )
            &&& event !is Started ==> exported.in_flight == state.in_flight
        }),
{
}

/// When an export is over, the scheduled operation is finished if no export stream is open, and put
/// off if one is. Nothing else of the filter changes, but for the id of a request that is finished.
pub proof fn law_settled_export_settles_the_operation(filter: FilterView, event: EventView)
    ensures
        ({
            let (after, step) = filter.export_step(event);
            let waits = after.exporter is Some && !after.exporter->0.in_flight.is_empty();
            &&& after.database == filter.database
            &&& after.operation_timeout_ms == filter.operation_timeout_ms
            &&& after.parent_context == filter.parent_context
            &&& step matches ExportStepView::Settled { finished, .. } ==> {
                &&& after.scheduled_operation is None
                &&& filter.scheduled_operation is None ==> {
                    &&& finished is None
                    &&& after.deferred_operation == filter.deferred_operation
                    &&& after.request_id == filter.request_id
                }
                &&& filter.scheduled_operation matches Some((event_id, operation)) ==> {
                    &&& waits ==> {
                        &&& finished is None
                        &&& after.deferred_operation == Some((event_id, operation))
                        &&& after.request_id == filter.request_id
                    }
                    &&& !waits ==> {
                        &&& finished == Some(crate::filter::finish(event_id, operation))
                        &&& after.deferred_operation == filter.deferred_operation
                        &&& after.request_id == filter.after_operation(operation).request_id
                    }
                }
            }
        }),
{
    if let Some(state) = filter.exporter {
        let (exported, action) = state.export_step(event);
        assert(action matches ActionView::Finish { waiting, .. } ==> waiting
            == !exported.in_flight.is_empty());
    }
}

/// With direct export the filter asks for no stream and gives every frame back.
pub proof fn law_direct_filter_exports_nothing(filter: FilterView, event: EventView)
    requires
        filter.exporter is None,
    ensures
        filter.export_step(event).0.exporter is None,
        filter.export_step(event).1 matches ExportStepView::Settled { requeue, .. } && requeue
            == match event {
            EventView::Drained(frames) => frames,
            _ => Seq::<Seq<u8>>::empty(),
        },
{
}

/// Once the exports of a stream are done, the operation that was put off is finished; before that
/// nothing happens.
pub proof fn law_deferred_operation_waits_for_exports(filter: FilterView)
    ensures
        filter.exports_done(false) == (filter, None::<FinishedView>),
        filter.exports_done(true).0.deferred_operation is None,
        filter.deferred_operation is None ==> filter.exports_done(true) == (
            filter,
            None::<FinishedView>,
        ),
        filter.deferred_operation matches Some((event_id, operation)) ==> {
            &&& filter.exports_done(true).1 == Some(crate::filter::finish(event_id, operation))
            &&& filter.exports_done(true).0.request_id == filter.after_operation(
                operation,
            ).request_id
            &&& same_but_for_id(
                filter.exports_done(true).0,
                FilterView { deferred_operation: None, ..filter },
            )
        },
{
}

/// Closing an export stream takes that stream, and no other, from the filter. It finishes the
/// operation that was put off exactly if the stream was open and no other one is.
pub proof fn law_closed_stream_is_forgotten(filter: FilterView, stream_id: u64, other: u64)
    ensures
        filter.exporter is None ==> filter.stream_closed(stream_id) == (
            filter,
            None::<FinishedView>,
        ),
        filter.exporter matches Some(state) ==> {
            let (after, finished) = filter.stream_closed(stream_id);
            let last = state.in_flight.contains_key(stream_id) && state.in_flight.remove(
                stream_id,
            ).is_empty();
            &&& after.exporter matches Some(closed)
            &&& closed.cluster == state.cluster
            &&& closed.exporting == state.exporting
            &&& closed.in_flight == state.in_flight.remove(stream_id)
            &&& finished is Some <==> last && filter.deferred_operation is Some
            &&& last ==> (filter.deferred_operation matches Some((event_id, operation)) ==> finished
                == Some(crate::filter::finish(event_id, operation)))
            &&& last ==> after.deferred_operation is None
            &&& !last ==> after.deferred_operation == filter.deferred_operation && after.request_id
                == filter.request_id
            &&& after.database == filter.database
            &&& after.operation_timeout_ms == filter.operation_timeout_ms
            &&& after.parent_context == filter.parent_context
            &&& after.scheduled_operation == filter.scheduled_operation
        },
        filter.with_exporter(filter.exporter) == filter,
        forall|exporter: Option<StreamView>|
            {
                &&& (#[trigger] filter.with_exporter(exporter)).exporter == exporter
                &&& filter.with_exporter(exporter).request_id == filter.request_id
                &&& same_but_for_id(
                    filter.with_exporter(exporter),
                    FilterView { exporter, ..filter },
                )
            },
{
}

/// A stream is reported by the verdict on the reply that came for it, one that is not open by
/// nothing. Handles without exports report nothing and own no stream.
pub proof fn law_closed_stream_is_reported(state: StreamView, stream_id: u64)
    ensures
        handle_closed(Some(state), stream_id) == Some(state.closed(stream_id)),
        state.closed(stream_id).in_flight == state.in_flight.remove(stream_id),
        handle_closes_last(Some(state), stream_id) <==> state.in_flight.contains_key(stream_id)
            && state.in_flight.remove(stream_id).is_empty(),
        handle_completion(Some(state), stream_id).last == handle_closes_last(
            Some(state),
            stream_id,
        ),
        handle_completion(Some(state), stream_id).report == if state.in_flight.contains_key(
            stream_id,
        ) {
            Some(state.in_flight[stream_id].verdict())
        } else {
            None
        },
        handle_closed(None, stream_id) is None,
        !handle_closes_last(None, stream_id),
        handle_completion(None, stream_id).report is None && !handle_completion(
            None,
            stream_id,
        ).last,
{
}

/// Headers and trailers of a reply are taken in for the stream they come on, and for no other. A
/// stream that is not open takes in nothing.
pub proof fn law_reply_belongs_to_its_stream(
    state: StreamView,
    stream_id: u64,
    metadata: Seq<(Seq<u8>, Seq<u8>)>,
    end_stream: bool,
    other: u64,
)
    ensures
        ({
            let headed = state.headers_seen(stream_id, metadata, end_stream);
            let trailed = state.trailers_seen(stream_id, metadata);
            &&& headed.cluster == state.cluster && trailed.cluster == state.cluster
            &&& headed.exporting == state.exporting && trailed.exporting == state.exporting
            &&& headed.in_flight.dom() == state.in_flight.dom()
            &&& trailed.in_flight.dom() == state.in_flight.dom()
            &&& state.in_flight.contains_key(stream_id) ==> {
                &&& headed.in_flight[stream_id] == state.in_flight[stream_id].with_headers(
                    metadata,
                    end_stream,
                )
                &&& trailed.in_flight[stream_id] == state.in_flight[stream_id].with_status(metadata)
            }
            &&& other != stream_id && state.in_flight.contains_key(other) ==> {
                &&& headed.in_flight[other] == state.in_flight[other]
                &&& trailed.in_flight[other] == state.in_flight[other]
            }
        }),
{
    let headed = state.headers_seen(stream_id, metadata, end_stream);
    let trailed = state.trailers_seen(stream_id, metadata);
    assert(headed.in_flight.dom() =~= state.in_flight.dom());
    assert(trailed.in_flight.dom() =~= state.in_flight.dom());
}

/// Response headers tell the HTTP status, and the gRPC status only if nothing follows them; trailers
/// tell the gRPC status. A status that is not told stays as it was.
pub proof fn law_reply_tells_its_status(
    response: ResponseView,
    metadata: Seq<(Seq<u8>, Seq<u8>)>,
    end_stream: bool,
)
    ensures
        ({
            let told = first_value(metadata, encode_utf8("grpc-status"@));
            let headed = response.with_headers(metadata, end_stream);
            let trailed = response.with_status(metadata);
            &&& headed.http_status == first_value(metadata, encode_utf8(":status"@))
            &&& trailed.http_status == response.http_status
            &&& !end_stream || told is None ==> headed.grpc_status == response.grpc_status
            &&& end_stream ==> headed.grpc_status == trailed.grpc_status
            &&& told is None ==> trailed.grpc_status == response.grpc_status
            &&& told matches Some(value) ==> trailed.grpc_status == Some(status_code(value))
        }),
{
}

/// An export succeeded exactly if the HTTP status is 200 and the gRPC status is 0. Otherwise the
/// HTTP status is told if it is not 200, else the gRPC status by its name, else that it is missing.
pub proof fn law_verdict_names_the_first_fault(response: ResponseView)
    ensures
        response.verdict() is Ok <==> (response.http_status == Some(encode_utf8("200"@))
            && response.grpc_status == Some(0i32)),
        response.http_status is None ==> response.verdict() == Err::<(), Seq<char>>(
            "HTTP status "@ + "<missing>"@,
        ),
        response.http_status matches Some(status) ==> (status != encode_utf8("200"@) && valid_utf8(
            status,
        ) ==> response.verdict() == Err::<(), Seq<char>>(
            "HTTP status "@ + decode_utf8(status),
        )),
        response.http_status matches Some(status) ==> (status != encode_utf8("200"@) && !valid_utf8(
            status,
        ) ==> response.verdict() == Err::<(), Seq<char>>(
            "HTTP status "@ + crate::text::utf8_lossy(status),
        )),
        response.http_status == Some(encode_utf8("200"@)) && response.grpc_status is None
            ==> response.verdict() == Err::<(), Seq<char>>("missing grpc-status"@),
        response.http_status == Some(encode_utf8("200"@)) ==> (response.grpc_status matches Some(
            code,
        ) ==> (code != 0 ==> response.verdict() == Err::<(), Seq<char>>(
            "gRPC status "@ + status_name(code),
        ))),
{
}

/// A status value is read as the decimal number from 0 to 16 that it writes, without leading zeros;
/// any other value is read as 2.
pub proof fn law_status_is_a_decimal_number(value: Seq<u8>)
    ensures
        0 <= status_code(value) <= 16,
        value.len() == 1 && 48 <= value[0] <= 57 ==> status_code(value) == value[0] - 48,
        value.len() == 2 && value[0] == 49 && 48 <= value[1] <= 54 ==> status_code(value)
            == value[1] - 38,
        value.len() != 1 && value.len() != 2 ==> status_code(value) == 2,
        value.len() == 1 && !(48 <= value[0] <= 57) ==> status_code(value) == 2,
        value.len() == 2 && !(value[0] == 49 && 48 <= value[1] <= 54) ==> status_code(value) == 2,
        status_name(0) == "Ok"@,
        status_name(1) == "Cancelled"@,
        status_name(2) == "Unknown"@,
        status_name(3) == "InvalidArgument"@,
        status_name(4) == "DeadlineExceeded"@,
        status_name(5) == "NotFound"@,
        status_name(6) == "AlreadyExists"@,
        status_name(7) == "PermissionDenied"@,
        status_name(8) == "ResourceExhausted"@,
        status_name(9) == "FailedPrecondition"@,
        status_name(10) == "Aborted"@,
        status_name(11) == "OutOfRange"@,
        status_name(12) == "Unimplemented"@,
        status_name(13) == "Internal"@,
        status_name(14) == "Unavailable"@,
        status_name(15) == "DataLoss"@,
        status_name(16) == "Unauthenticated"@,
        forall|code: i32| code < 0 || code > 16 ==> #[trigger] status_name(code) == "Unknown"@,
{
}

/// A header is found under a name exactly if it is the first whose own name is the same up to the
/// case of ASCII letters.
pub proof fn law_header_is_found_by_its_name(headers: Seq<(Seq<u8>, Seq<u8>)>, name: Seq<u8>)
    ensures
        first_value(headers, name) is None ==> forall|i: int|
            0 <= i < headers.len() ==> !same_name(#[trigger] headers[i].0, name),
        first_value(headers, name) matches Some(value) ==> exists|i: int|
            {
                &&& 0 <= i < headers.len()
                &&& same_name(#[trigger] headers[i].0, name)
                &&& headers[i].1 == value
                &&& forall|j: int| 0 <= j < i ==> !same_name(#[trigger] headers[j].0, name)
            },
    decreases headers.len(),
{
    if headers.len() > 0 {
        let rest = headers.skip(1);
        law_header_is_found_by_its_name(rest, name);
        if same_name(headers[0].0, name) {
            assert(same_name(headers[0].0, name) && headers[0].1 == first_value(headers, name)->0);
        } else if first_value(rest, name) is Some {
            let i = choose|i: int|
                {
                    &&& 0 <= i < rest.len()
                    &&& same_name(#[trigger] rest[i].0, name)
                    &&& rest[i].1 == first_value(rest, name)->0
                    &&& forall|j: int| 0 <= j < i ==> !same_name(#[trigger] rest[j].0, name)
                };
            assert(rest[i] == headers[i + 1]);
            assert forall|j: int| 0 <= j < i + 1 implies !same_name(
                #[trigger] headers[j].0,
                name,
            ) by {
                if j > 0 {
                    assert(rest[j - 1] == headers[j]);
                }
            }
            assert(same_name(headers[i + 1].0, name));
        } else {
            assert forall|i: int| 0 <= i < headers.len() implies !same_name(
                #[trigger] headers[i].0,
                name,
            ) by {
                if i > 0 {
                    assert(rest[i - 1] == headers[i]);
                }
            }
        }
    }
}

/// Two names are the same if each byte is, or is the same letter in the other case.
pub proof fn law_names_are_the_same_in_any_case(a: Seq<u8>, b: Seq<u8>)
    ensures
        same_name(a, b) <==> a.len() == b.len() && forall|i: int|
            0 <= i < a.len() ==> (#[trigger] a[i] == b[i] || (65 <= a[i] <= 90 && b[i] == a[i] + 32)
                || (65 <= b[i] <= 90 && a[i] == b[i] + 32)),
{
    if same_name(a, b) {
        assert forall|i: int| 0 <= i < a.len() implies (#[trigger] a[i] == b[i] || (65 <= a[i] <= 90
            && b[i] == a[i] + 32) || (65 <= b[i] <= 90 && a[i] == b[i] + 32)) by {
            assert(crate::exporter::grpc::ascii_lower(a[i]) == crate::exporter::grpc::ascii_lower(
                b[i],
            ));
        }
    }
}

/// A frame goes to the back of a queue of less than 2048, and the export is answered `Ok`. A full
/// queue, or a failed encoding, changes nothing and is answered by what went wrong.
pub proof fn law_export_is_queued_or_answered(
    queue: Seq<Seq<u8>>,
    frame: Seq<u8>,
    error: Seq<char>,
)
    ensures
        queue.len() < 2048 ==> enqueued(queue, Ok(frame)) == (
            queue.push(frame),
            Ok::<(), Seq<char>>(()),
        ),
        queue.len() >= 2048 ==> enqueued(queue, Ok(frame)) == (
            queue,
            Err::<(), Seq<char>>("Envoy OTLP/gRPC export queue reached 2048 entries"@),
        ),
        enqueued(queue, Err(error)) == (
            queue,
            Err::<(), Seq<char>>("failed to encode OTLP/gRPC request: "@ + error),
        ),
{
}

/// A frame is a zero byte, four bytes that tell the length of the rest, most significant first, and
/// the rest.
pub proof fn law_frame_tells_its_length(message: Seq<u8>, a: u8, b: u8, c: u8, d: u8, flag: u8)
    ensures
        is_grpc_message(seq![flag, a, b, c, d] + message) <==> (flag == 0 && message.len() == ((a
            * 256 + b) * 256 + c) * 256 + d),
        message.len() < 5 ==> !is_grpc_message(message),
{
}

/// A frame is read as the message behind its five bytes of framing, and nothing else is read.
pub proof fn law_frame_is_read_behind_its_framing(
    message: Seq<u8>,
    a: u8,
    b: u8,
    c: u8,
    d: u8,
    flag: u8,
)
    ensures
        ({
            let frame = seq![flag, a, b, c, d] + message;
            let framed = flag == 0 && message.len() == ((a * 256 + b) * 256 + c) * 256 + d;
            &&& framed ==> request_in(frame) == decoded_request(message)
            &&& !framed ==> request_in(frame) is None
        }),
        message.len() < 5 ==> request_in(message) is None,
{
    let frame = seq![flag, a, b, c, d] + message;
    assert(frame.skip(5) =~= message);
}

/// A frame carries a request exactly if it is framed, as long as the message of the request, and read
/// as no other request. A request is readable exactly if it has a frame whose message is decoded.
pub proof fn law_frame_carries_one_request(
    frame: Seq<u8>,
    request: ExportTraceServiceRequest,
    other: ExportTraceServiceRequest,
)
    ensures
        carries(frame, request) <==> {
            &&& is_grpc_message(frame)
            &&& frame.len() - 5 == encoded_length(request)
            &&& decoded_request(frame.skip(5)) is None || decoded_request(frame.skip(5)) == Some(
                request,
            )
        },
        carries(frame, request) && carries(frame, other) && request_in(frame) is Some ==> request
            == other,
        tonic_frame(request) is Err ==> !readable(request),
        tonic_frame(request) matches Ok(bytes) ==> (readable(request) <==> decoded_request(
            bytes.skip(5),
        ) is Some),
{
}

// ---- what a configuration amounts to ----

/// A configuration is accepted exactly if it names a project, an instance and a database, bounds its
/// operations, names a service and says where spans go: an endpoint with a scheme of HTTP, or a
/// cluster.
pub proof fn law_configuration_is_accepted_if_complete(
    config: ModuleConfigView,
    validation_only: bool,
)
    ensures
        configured(Ok(config), validation_only) is Ok <==> {
            &&& !blank(config.project_id)
            &&& !blank(config.instance_id)
            &&& !blank(config.database_id)
            &&& config.operation_timeout_ms > 0
            &&& !blank(config.opentelemetry.service_name)
            &&& match config.opentelemetry.exporter {
                ModeView::DirectGrpc { grpc_endpoint } => !blank(grpc_endpoint) && (
                "http://"@.is_prefix_of(grpc_endpoint) || "https://"@.is_prefix_of(grpc_endpoint)),
                ModeView::EnvoyGrpcCallout { cluster } => !blank(cluster),
            }
        },
{
}

/// A configuration that is rejected is rejected for its first fault: project, instance, database,
/// time limit, service name, transport. A text that is no configuration is rejected as such.
pub proof fn law_first_fault_is_reported(
    config: ModuleConfigView,
    validation_only: bool,
    reason: Seq<char>,
)
    ensures
        configured(Err(reason), validation_only) == Err::<FilterConfigView, ConfigErrorView>(
            ConfigErrorView::Json(reason),
        ),
        blank(config.project_id) ==> configured(Ok(config), validation_only) == Err::<
            FilterConfigView,
            ConfigErrorView,
        >(ConfigErrorView::EmptyField("spanner.project_id"@)),
        !blank(config.project_id) && blank(config.instance_id) ==> configured(
            Ok(config),
            validation_only,
        ) == Err::<FilterConfigView, ConfigErrorView>(
            ConfigErrorView::EmptyField("spanner.instance_id"@),
        ),
        !blank(config.project_id) && !blank(config.instance_id) && blank(config.database_id)
            ==> configured(Ok(config), validation_only) == Err::<FilterConfigView, ConfigErrorView>(
            ConfigErrorView::EmptyField("spanner.database_id"@),
        ),
        !blank(config.project_id) && !blank(config.instance_id) && !blank(config.database_id) ==> {
            &&& config.operation_timeout_ms == 0 ==> configured(Ok(config), validation_only)
                == Err::<FilterConfigView, ConfigErrorView>(ConfigErrorView::InvalidTimeout)
            &&& config.operation_timeout_ms > 0 ==> (config.opentelemetry.check() matches Err(
                error,
            ) ==> configured(Ok(config), validation_only) == Err::<
                FilterConfigView,
                ConfigErrorView,
            >(ConfigErrorView::OpenTelemetry(error)))
        },
{
}

/// The telemetry section is checked for its service name first, then for what its transport needs.
pub proof fn law_transport_faults_are_told_apart(
    service_name: Seq<char>,
    mode: ModeView,
    grpc_endpoint: Seq<char>,
    cluster: Seq<char>,
)
    ensures
        blank(service_name) ==> (ConfigView { service_name, exporter: mode }).check() == Err::<
            (),
            ErrorView,
        >(ErrorView::EmptyServiceName),
        !blank(service_name) ==> (ConfigView { service_name, exporter: mode }).check()
            == mode.check(),
        blank(grpc_endpoint) ==> (ModeView::DirectGrpc { grpc_endpoint }).check() == Err::<
            (),
            ErrorView,
        >(ErrorView::EmptyField("grpc_endpoint"@)),
        !blank(grpc_endpoint) && !"http://"@.is_prefix_of(grpc_endpoint)
            && !"https://"@.is_prefix_of(grpc_endpoint) ==> (ModeView::DirectGrpc {
            grpc_endpoint,
        }).check() == Err::<(), ErrorView>(ErrorView::InvalidGrpcEndpoint),
        !blank(grpc_endpoint) && ("http://"@.is_prefix_of(grpc_endpoint)
            || "https://"@.is_prefix_of(grpc_endpoint)) ==> (ModeView::DirectGrpc {
            grpc_endpoint,
        }).check() is Ok,
        blank(cluster) ==> (ModeView::EnvoyGrpcCallout { cluster }).check() == Err::<
            (),
            ErrorView,
        >(ErrorView::EmptyField("cluster"@)),
        !blank(cluster) ==> (ModeView::EnvoyGrpcCallout { cluster }).check() is Ok,
{
}

/// A configuration that is started runs storage operations on two threads, writes to the database
/// of the configured ids within the configured time, and traces under the configured service name:
/// in batches to the configured endpoint, or span by span through the configured cluster. One that
/// is only validated has the time limit and nothing to start.
pub proof fn law_started_configuration_is_the_one_given(
    config: ModuleConfigView,
    validation_only: bool,
)
    ensures
        configured(Ok(config), false) matches Ok(started) ==> {
            &&& started.operation_timeout_ms == config.operation_timeout_ms
            &&& started.runtime matches Some(runtime)
            &&& runtime.worker_threads == 2
            &&& runtime.thread_name == "envoy-spanner"@
            &&& started.database == Some(
                "projects/"@ + config.project_id + "/instances/"@ + config.instance_id
                    + "/databases/"@ + config.database_id,
            )
            &&& started.telemetry matches Some(telemetry)
            &&& telemetry.provider.service_name == config.opentelemetry.service_name
            &&& match config.opentelemetry.exporter {
                ModeView::DirectGrpc { grpc_endpoint } => {
                    &&& telemetry.cluster is None
                    &&& telemetry.provider.processor == (SpanProcessorView::Batch {
                        grpc_endpoint,
                        timeout_ms: 1000,
                        scheduled_delay_ms: 100,
                    })
                },
                ModeView::EnvoyGrpcCallout { cluster } => {
                    &&& telemetry.cluster == Some(cluster)
                    &&& telemetry.provider.processor is Simple
                },
            }
        },
        configured(Ok(config), true) matches Ok(validated) ==> {
            &&& validated.operation_timeout_ms == config.operation_timeout_ms
            &&& validated.runtime is None
            &&& validated.database is None
            &&& validated.telemetry is None
        },
{
}

/// The filter of a new stream writes to the configured database within the configured time, exports
/// through the configured cluster if Envoy exports, and is otherwise blank.
pub proof fn law_new_filter_is_blank(config: ModuleConfigView)
    ensures
        configured(Ok(config), false) matches Ok(started) ==> {
            let filter = started.new_filter();
            &&& started.can_create_filters()
            &&& filter.database == "projects/"@ + config.project_id + "/instances/"@
                + config.instance_id + "/databases/"@ + config.database_id
            &&& filter.operation_timeout_ms == config.operation_timeout_ms
            &&& filter.request_id is None
            &&& filter.parent_context is None
            &&& filter.scheduled_operation is None
            &&& filter.deferred_operation is None
            &&& match config.opentelemetry.exporter {
                ModeView::DirectGrpc { .. } => filter.exporter is None,
                ModeView::EnvoyGrpcCallout { cluster } => {
                    &&& filter.exporter matches Some(state)
                    &&& state.cluster == cluster
                    &&& state.exporting == Seq::<Seq<u8>>::empty()
                    &&& state.in_flight == Map::<u64, ResponseView>::empty()
                },
            }
        },
        forall|config: FilterConfigView| #[trigger]
            config.can_create_filters() <==> (config.runtime is Some && config.database is Some
                && config.telemetry is Some),
        fresh_handle(None) is None,
        forall|cluster: Seq<char>|
            (#[trigger] fresh_handle(Some(cluster))) == Some(
                StreamView { cluster, exporting: Seq::empty(), in_flight: Map::empty() },
            ),
{
}

/// What is wrong with a configuration is worded with the field or the reason.
pub proof fn law_configuration_errors_are_worded(
    text: Seq<char>,
    storage: StorageErrorView,
    telemetry: ErrorView,
)
    ensures
        ConfigErrorView::Json(text).message() == "invalid JSON: "@ + text,
        ConfigErrorView::Runtime(text).message() == "failed to create Tokio runtime: "@ + text,
        ConfigErrorView::Spanner(storage).message() == "failed to initialize Spanner: "@
            + storage.message(),
        ConfigErrorView::OpenTelemetry(telemetry).message()
            == "failed to initialize OpenTelemetry: "@ + telemetry.message(),
        ConfigErrorView::EmptyField(text).message() == text + " must not be empty"@,
        ConfigErrorView::InvalidTimeout.message()
            == "spanner.operation_timeout_ms must be greater than zero"@,
        ErrorView::Direct(text).message() == "failed to build the direct OTLP/gRPC exporter: "@
            + text,
        ErrorView::EmptyField(text).message() == "opentelemetry.exporter."@ + text
            + " must not be empty"@,
        ErrorView::InvalidGrpcEndpoint.message()
            == "opentelemetry.exporter.grpc_endpoint must use http:// or https://"@,
        ErrorView::EmptyServiceName.message() == "opentelemetry.service_name must not be empty"@,
        RefusalView::UnsupportedName(text).message() == "unsupported filter name: "@ + text,
        forall|error: ConfigErrorView| #[trigger]
            RefusalView::Config(error).message() == "failed to create filter config: "@
                + error.message(),
{
}

/// Envoy is handed the configuration of one filter only, by its name; under any other name it is
/// refused whatever the configuration is.
pub proof fn law_one_filter_is_offered(
    name: Seq<char>,
    parsed: Result<ModuleConfigView, Seq<char>>,
    validation_only: bool,
)
    ensures
        name != "spanner_request_mapper"@ ==> offered(name, parsed, validation_only) == Err::<
            FilterConfigView,
            RefusalView,
        >(RefusalView::UnsupportedName(name)),
        name == "spanner_request_mapper"@ ==> {
            &&& configured(parsed, validation_only) matches Ok(config) ==> offered(
                name,
                parsed,
                validation_only,
            ) == Ok::<FilterConfigView, RefusalView>(config)
            &&& configured(parsed, validation_only) matches Err(error) ==> offered(
                name,
                parsed,
                validation_only,
            ) == Err::<FilterConfigView, RefusalView>(RefusalView::Config(error))
        },
{
}

/// Runtime, Spanner and telemetry are started in this order, and a service that does not start is
/// told with its own error. A shutdown that is not clean is told with its reason.
pub proof fn law_services_start_in_order(
    reason: String,
    storage: StorageError,
    telemetry: Error,
)
    ensures
        next_service(Service::Runtime) == Some(Service::Spanner),
        next_service(Service::Spanner) == Some(Service::Telemetry),
        next_service(Service::Telemetry) is None,
        startup_view(StartupEvent::Runtime(Ok(()))) == (Service::Runtime, None::<ConfigErrorView>),
        startup_view(StartupEvent::Spanner(Ok(()))) == (Service::Spanner, None::<ConfigErrorView>),
        startup_view(StartupEvent::Telemetry(Ok(()))) == (
            Service::Telemetry,
            None::<ConfigErrorView>,
        ),
        startup_view(StartupEvent::Runtime(Err(reason))).1 == Some(
            ConfigErrorView::Runtime(reason@),
        ),
        startup_view(StartupEvent::Spanner(Err(storage))).1 == Some(
            ConfigErrorView::Spanner(storage@),
        ),
        startup_view(StartupEvent::Telemetry(Err(telemetry))).1 == Some(
            ConfigErrorView::OpenTelemetry(telemetry@),
        ),
        shutdown_warning(ShutdownEvent::Telemetry(Err(reason))) == Some(
            "failed to shut down OpenTelemetry cleanly: "@ + reason@,
        ),
        shutdown_warning(ShutdownEvent::Telemetry(Ok(()))) is None,
        shutdown_warning(ShutdownEvent::Begin) is None,
        shutdown_warning(ShutdownEvent::Runtime) is None,
{
}

/// A text is blank if it is empty, or if it is blank but for one more character of white space.
pub proof fn law_blank_is_white_space_only(text: Seq<char>, c: char)
    ensures
        blank(Seq::empty()),
        blank(text.push(c)) <==> blank(text) && white_space(c),
        white_space(' ') && white_space('\t') && white_space('\n') && white_space('\r'),
        'a' <= c <= 'z' || 'A' <= c <= 'Z' || '0' <= c <= '9' ==> !white_space(c),
        '!' <= c <= '~' ==> !white_space(c),
{
    if blank(text.push(c)) {
        assert(text.push(c)[text.len() as int] == c);
        assert forall|i: int| 0 <= i < text.len() implies white_space(#[trigger] text[i]) by {
            assert(text.push(c)[i] == text[i]);
        }
    }
}

// ---- models ----

/// A result is modelled by what it says: success as success, a failure with its text.
pub proof fn law_results_are_modelled_as_they_are(
    text: String,
    bytes: Vec<u8>,
    storage: StorageError,
    telemetry: Error,
    context: ParentContext,
    config: ModuleConfig,
    operation: PendingOperation,
    finished: Finished,
    event_id: u64,
)
    ensures
        storage_result_view(Ok(())) is Ok,
        storage_result_view(Err(storage)) == Err::<(), StorageErrorView>(storage@),
        attempt_view(Ok(())) is Ok,
        attempt_view(Err(text)) == Err::<(), Seq<char>>(text@),
        encoding_view(Ok(bytes)) == Ok::<Seq<u8>, Seq<char>>(bytes@),
        encoding_view(Err(text)) == Err::<Seq<u8>, Seq<char>>(text@),
        export_view(Ok(())) is Ok,
        export_view(Err(ExportError::InternalFailure(text))) == Err::<(), Seq<char>>(text@),
        verdict_view(Ok(())) is Ok,
        verdict_view(Err(text)) == Err::<(), Seq<char>>(text@),
        check_view(Ok(())) is Ok,
        check_view(Err(telemetry)) == Err::<(), ErrorView>(telemetry@),
        context_view(Ok(context)) == Ok::<ParentContext, Seq<char>>(context),
        context_view(Err(text)) == Err::<ParentContext, Seq<char>>(text@),
        parsed_view(Ok(config)) == Ok::<ModuleConfigView, Seq<char>>(config@),
        parsed_view(Err(text)) == Err::<ModuleConfigView, Seq<char>>(text@),
        optional_operation_view(None) is None,
        optional_operation_view(Some(operation)) == Some(operation@),
        optional_finished(None) is None,
        optional_finished(Some(finished)) == Some(finished@),
        event_operation(None) is None,
        event_operation(Some((event_id, operation))) == Some((event_id, operation@)),
{
}

/// Errors are modelled with their kind and what they carry.
pub proof fn law_errors_are_modelled_as_they_are(
    text: String,
    field: &'static str,
    millis: u64,
    storage: StorageError,
    telemetry: Error,
    config: crate::config::ConfigError,
)
    ensures
        StorageError::Spanner(text)@ == StorageErrorView::Spanner(text@),
        StorageError::Configuration(text)@ == StorageErrorView::Configuration(text@),
        StorageError::Timeout(millis)@ == StorageErrorView::Timeout(millis),
        Error::Direct(text)@ == ErrorView::Direct(text@),
        Error::EmptyField(field)@ == ErrorView::EmptyField(field@),
        Error::InvalidGrpcEndpoint@ == ErrorView::InvalidGrpcEndpoint,
        Error::EmptyServiceName@ == ErrorView::EmptyServiceName,
        crate::config::ConfigError::Json(text)@ == ConfigErrorView::Json(text@),
        crate::config::ConfigError::Runtime(text)@ == ConfigErrorView::Runtime(text@),
        crate::config::ConfigError::Spanner(storage)@ == ConfigErrorView::Spanner(storage@),
        crate::config::ConfigError::OpenTelemetry(telemetry)@ == ConfigErrorView::OpenTelemetry(
            telemetry@,
        ),
        crate::config::ConfigError::EmptyField(field)@ == ConfigErrorView::EmptyField(field@),
        crate::config::ConfigError::InvalidTimeout@ == ConfigErrorView::InvalidTimeout,
        Refusal::UnsupportedName(text)@ == RefusalView::UnsupportedName(text@),
        Refusal::Config(config)@ == RefusalView::Config(config@),
{
}

/// What is stored and how it is traced is modelled field by field.
pub proof fn law_operations_are_modelled_as_they_are(
    operation: StoreOperation,
    mutation: Mutation,
    span: SpanPlan,
    pending: PendingOperation,
    text: String,
)
    ensures
        operation@.event_id == operation.event_id,
        operation@.mutation == operation.mutation@,
        operation@.timeout_ms == operation.timeout_ms,
        operation.span is None <==> operation@.span is None,
        operation.span matches Some(span) ==> operation@.span == Some(span@),
        operation.untraced is None <==> operation@.untraced is None,
        operation.untraced matches Some(reason) ==> operation@.untraced == Some(reason@),
        mutation@.kind == mutation.kind,
        mutation@.table == mutation.table@,
        mutation@.columns.len() == mutation.columns@.len(),
        forall|i: int|
            0 <= i < mutation.columns@.len() ==> #[trigger] mutation@.columns[i]
                == mutation.columns@[i]@,
        mutation@.values.len() == mutation.values@.len(),
        forall|i: int|
            0 <= i < mutation.values@.len() ==> #[trigger] mutation@.values[i]
                == mutation.values@[i]@,
        ColumnValue::Text(text)@ == ColumnValueView::Text(text@),
        ColumnValue::CommitTimestamp@ == ColumnValueView::CommitTimestamp,
        span@.parent == span.parent,
        span@.name == span.name@,
        span@.kind == span.kind,
        span@.attributes.len() == span.attributes@.len(),
        forall|i: int|
            0 <= i < span.attributes@.len() ==> #[trigger] span@.attributes[i] == (
                span.attributes@[i].0@,
                span.attributes@[i].1@,
            ),
        pending@.uuid == pending.uuid,
        pending@.operation_type == pending.operation_type,
        pending@.outcome == pending.outcome@,
        OperationOutcome::Pending@ == OutcomeView::Pending,
        OperationOutcome::Succeeded@ == OutcomeView::Succeeded,
        OperationOutcome::Failed(text)@ == OutcomeView::Failed(text@),
{
}

/// The filter and what it asks for are modelled field by field.
pub proof fn law_filters_are_modelled_as_they_are(
    filter: Filter,
    finished: Finished,
    operation: StoreOperation,
    request: StreamRequest,
    requeue: std::collections::VecDeque<Vec<u8>>,
    done: Option<Finished>,
    name: String,
    value: String,
)
    ensures
        filter@.database == filter.spanner.database@,
        filter@.request_id == filter.request_id,
        filter@.operation_timeout_ms == filter.operation_timeout_ms,
        filter@.exporter == filter.exporter@,
        filter@.parent_context == filter.parent_context,
        filter@.scheduled_operation == event_operation(filter.scheduled_operation),
        filter@.deferred_operation == event_operation(filter.deferred_operation),
        finished@.event_id == finished.event_id,
        finished@.operation == finished.operation@,
        finished@.actions.len() == finished.actions@.len(),
        forall|i: int|
            0 <= i < finished.actions@.len() ==> #[trigger] finished@.actions[i]
                == finished.actions@[i]@,
        HeadersStep::Continue@ == HeadersStepView::Continue,
        HeadersStep::Pause(operation)@ == HeadersStepView::Pause(operation@),
        StreamAction::ContinueDecoding@ == StreamActionView::ContinueDecoding,
        StreamAction::ContinueEncoding@ == StreamActionView::ContinueEncoding,
        (StreamAction::SetRequestHeader { name, value })@ == (StreamActionView::SetRequestHeader {
            name: name@,
            value: value@,
        }),
        ExportStep::Start(request)@ == ExportStepView::Start(request@),
        (ExportStep::Settled { requeue, finished: done })@ == (ExportStepView::Settled {
            requeue: frames_view(requeue@),
            finished: optional_finished(done),
        }),
{
}

/// Exports are modelled field by field.
pub proof fn law_exports_are_modelled_as_they_are(
    request: StreamRequest,
    frames: std::collections::VecDeque<Vec<u8>>,
    waiting: bool,
    stream_id: u64,
    state: StreamHandle,
    response: GrpcResponse,
    completion: Completion,
    headers: Seq<(&[u8], &[u8])>,
)
    ensures
        request@.cluster == request.cluster@,
        request@.body == request.body@,
        request@.end_stream == request.end_stream,
        request@.timeout_ms == request.timeout_ms,
        request@.headers.len() == request.headers@.len(),
        forall|i: int|
            0 <= i < request.headers@.len() ==> #[trigger] request@.headers[i] == (
                request.headers@[i].0@,
                request.headers@[i].1@,
            ),
        frames_view(frames@).len() == frames@.len(),
        forall|i: int|
            0 <= i < frames@.len() ==> #[trigger] frames_view(frames@)[i] == frames@[i]@,
        ExportEvent::Drained(frames)@ == EventView::Drained(frames_view(frames@)),
        ExportEvent::Started(stream_id)@ == EventView::Started(stream_id),
        ExportEvent::Refused@ == EventView::Refused,
        ExportAction::Start(request)@ == ActionView::Start(request@),
        (ExportAction::Finish { requeue: frames, waiting })@ == (ActionView::Finish {
            requeue: frames_view(frames@),
            waiting,
        }),
        state@.cluster == state.cluster@,
        state@.exporting == frames_view(state.exporting@),
        forall|id: u64| #[trigger]
            state@.in_flight.contains_key(id) <==> state.in_flight@.contains_key(id),
        forall|id: u64| #[trigger]
            state@.in_flight.contains_key(id) ==> state@.in_flight[id] == state.in_flight@[id]@,
        (Handle { state: Some(state) })@ == Some(state@),
        (Handle { state: None })@ is None,
        response@.grpc_status == response.grpc_status,
        response.http_status is None <==> response@.http_status is None,
        response.http_status matches Some(status) ==> response@.http_status == Some(status@),
        completion@.last == completion.last,
        completion.report is None <==> completion@.report is None,
        completion.report matches Some(report) ==> completion@.report == Some(
            verdict_view(report),
        ),
        header_pairs(headers).len() == headers.len(),
        forall|i: int|
            0 <= i < headers.len() ==> #[trigger] header_pairs(headers)[i] == (
                headers[i].0@,
                headers[i].1@,
            ),
{
}

/// Configurations, before and after they are checked, are modelled field by field.
pub proof fn law_configurations_are_modelled_as_they_are(
    module: ModuleConfig,
    config: FilterConfig,
    pipeline: Pipeline,
    plan: ProviderPlan,
    factory: crate::exporter::envoy::HandleFactory,
    text: String,
    event: ConnectEvent,
)
    ensures
        module@.project_id == module.spanner.project_id@,
        module@.instance_id == module.spanner.instance_id@,
        module@.database_id == module.spanner.database_id@,
        module@.operation_timeout_ms == module.spanner.operation_timeout_ms,
        module@.opentelemetry.service_name == module.opentelemetry.service_name@,
        module@.opentelemetry.exporter == module.opentelemetry.exporter@,
        (Mode::DirectGrpc { grpc_endpoint: text })@ == (ModeView::DirectGrpc {
            grpc_endpoint: text@,
        }),
        (Mode::EnvoyGrpcCallout { cluster: text })@ == (ModeView::EnvoyGrpcCallout {
            cluster: text@,
        }),
        config@.operation_timeout_ms == config.operation_timeout_ms,
        config.runtime is None <==> config@.runtime is None,
        config.runtime matches Some(runtime) ==> config@.runtime == Some(
            RuntimeView {
                worker_threads: runtime.worker_threads,
                thread_name: runtime.thread_name@,
            },
        ),
        config.spanner_client is None <==> config@.database is None,
        config.spanner_client matches Some(client) ==> config@.database == Some(client.database@),
        config.telemetry is None <==> config@.telemetry is None,
        config.telemetry matches Some(telemetry) ==> config@.telemetry == Some(telemetry@),
        pipeline@.provider == pipeline.provider@,
        pipeline@.cluster == factory_cluster(pipeline.handle_factory),
        factory_cluster(HandleFactory::Direct) is None,
        factory_cluster(HandleFactory::Envoy(factory)) == Some(factory.cluster@),
        plan@.service_name == plan.service_name@,
        plan.processor is Simple <==> plan@.processor is Simple,
        plan.processor matches SpanProcessor::Batch {
            grpc_endpoint,
            timeout_ms,
            scheduled_delay_ms,
        } ==> plan@.processor == (SpanProcessorView::Batch {
            grpc_endpoint: grpc_endpoint@,
            timeout_ms,
            scheduled_delay_ms,
        }),
        event is Begin <==> event@ is Begin,
        event matches ConnectEvent::Credentials(found) ==> event@ == ConnectEventView::Credentials(
            attempt_view(found),
        ),
        event matches ConnectEvent::Opened(opened) ==> event@ == ConnectEventView::Opened(
            attempt_view(opened),
        ),
        ConnectStep::FindCredentials@ == ConnectStepView::FindCredentials,
        (ConnectStep::Open { database: text })@ == (ConnectStepView::Open { database: text@ }),
        ConnectStep::Connected@ == ConnectStepView::Connected,
{
}

} // verus!
