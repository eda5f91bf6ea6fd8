//! Spans around storage operations, as children of the span that Envoy has active.

use crate::error::{storage_result_view, StorageErrorView, StorageResult};
use crate::request_id::{hex_digit, hyphenated, RequestId};
use crate::text::join;
use vstd::arithmetic::power::*;
use vstd::prelude::*;

verus! {

/// The identity of a span, copied out of Envoy. It can outlive the callback in which Envoy showed
/// the span.
#[derive(Clone, Copy, Debug, PartialEq, Eq, Structural)]
pub struct ParentContext {
    pub trace_id: u128,
    pub span_id: u64,
    pub sampled: bool,
    pub remote: bool,
}

/// What Envoy tells of its active span.
pub struct ActiveSpan {
    pub trace_id: Option<String>,
    pub span_id: Option<String>,
}

/// Whether a character is a hexadecimal digit, in either case.
pub open spec fn is_hex_digit(c: char) -> bool {
    '0' <= c <= '9' || 'a' <= c <= 'f' || 'A' <= c <= 'F'
}

/// The value of a hexadecimal digit.
pub open spec fn hex_digit_value(c: char) -> int {
    if '0' <= c <= '9' {
        c as int - 48
    } else if 'a' <= c <= 'f' {
        c as int - 87
    } else {
        c as int - 55
    }
}

/// The number that hexadecimal digits stand for.
pub open spec fn digits_value(digits: Seq<char>) -> int
    decreases digits.len(),
{
    if digits.len() == 0 {
        0
    } else {
        16 * digits_value(digits.drop_last()) + hex_digit_value(digits.last())
    }
}

/// The text without a leading plus sign.
pub open spec fn unsigned_digits(text: Seq<char>) -> Seq<char> {
    if text.len() > 0 && text[0] == '+' {
        text.skip(1)
    } else {
        text
    }
}

/// Whether there are only hexadecimal digits.
pub open spec fn all_hex(digits: Seq<char>) -> bool {
    forall|i: int| 0 <= i < digits.len() ==> is_hex_digit(#[trigger] digits[i])
}

/// The number that a text stands for: hexadecimal digits, at least one, after an optional plus
/// sign.
pub open spec fn hex_number(text: Seq<char>) -> Option<int> {
    let digits = unsigned_digits(text);
    if digits.len() > 0 && all_hex(digits) {
        Some(digits_value(digits))
    } else {
        None
    }
}

/// The number that a text stands for, if it is not above `limit`.
pub open spec fn hex_number_up_to(text: Seq<char>, limit: int) -> Option<int> {
    match hex_number(text) {
        Some(n) => if n <= limit {
            Some(n)
        } else {
            None
        },
        None => None,
    }
}

/// The text of the error with which `opentelemetry::trace::TraceId::from_hex` refuses a text.
pub uninterp spec fn trace_id_error(text: Seq<char>) -> Seq<char>;

/// The text of the error with which `opentelemetry::trace::SpanId::from_hex` refuses a text.
pub uninterp spec fn span_id_error(text: Seq<char>) -> Seq<char>;

/// Calls `opentelemetry::trace::TraceId::from_hex`, which reads a number of at most 128 bits in
/// base 16. The wording of its errors is left to the name `trace_id_error`.
#[verifier::external_body]
fn trace_id_from_hex(text: &str) -> (id: Result<u128, String>)
    ensures
        match id {
            Ok(n) => hex_number_up_to(text@, u128::MAX as int) == Some(n as int),
            Err(error) => hex_number_up_to(text@, u128::MAX as int) is None && error@
                == trace_id_error(text@),
        },
{
    opentelemetry::trace::TraceId::from_hex(text)
        .map(|id| u128::from_be_bytes(id.to_bytes()))
        .map_err(|error| error.to_string())
}

/// Calls `opentelemetry::trace::SpanId::from_hex`, which reads a number of at most 64 bits in
/// base 16. The wording of its errors is left to the name `span_id_error`.
#[verifier::external_body]
fn span_id_from_hex(text: &str) -> (id: Result<u64, String>)
    ensures
        match id {
            Ok(n) => hex_number_up_to(text@, u64::MAX as int) == Some(n as int),
            Err(error) => hex_number_up_to(text@, u64::MAX as int) is None && error@
                == span_id_error(text@),
        },
{
    opentelemetry::trace::SpanId::from_hex(text)
        .map(|id| u64::from_be_bytes(id.to_bytes()))
        .map_err(|error| error.to_string())
}

/// The context of a sampled span of another process.
pub open spec fn remote_span(trace_id: u128, span_id: u64) -> ParentContext {
    ParentContext { trace_id, span_id, sampled: true, remote: true }
}

/// The context that Envoy's ids stand for, or why there is none.
pub open spec fn context_of(trace_id: Seq<char>, span_id: Seq<char>) -> Result<
    ParentContext,
    Seq<char>,
> {
    match hex_number_up_to(trace_id, u128::MAX as int) {
        None => Err("invalid Envoy trace ID: "@ + trace_id_error(trace_id)),
        Some(trace) => match hex_number_up_to(span_id, u64::MAX as int) {
            None => Err("invalid Envoy span ID: "@ + span_id_error(span_id)),
            Some(span) => Ok(remote_span(trace as u128, span as u64)),
        },
    }
}

/// The context of Envoy's active span, or why there is none.
pub open spec fn active_context(active: Option<ActiveSpan>) -> Result<ParentContext, Seq<char>> {
    match active {
        None => Err("Envoy has no active span"@),
        Some(span) => match (span.trace_id, span.span_id) {
            (None, _) => Err("active Envoy span has no trace ID"@),
            (Some(_), None) => Err("active Envoy span has no span ID"@),
            (Some(trace_id), Some(span_id)) => context_of(trace_id@, span_id@),
        },
    }
}

/// The model of a context result.
pub open spec fn context_view(context: Result<ParentContext, String>) -> Result<
    ParentContext,
    Seq<char>,
> {
    match context {
        Ok(context) => Ok(context),
        Err(error) => Err(error@),
    }
}

/// Copies the identity of Envoy's active span.
pub fn active_parent_context(active: Option<ActiveSpan>) -> (context: Result<
    ParentContext,
    String,
>)
    ensures
        context_view(context) == active_context(active),
{
    let span = match active {
        Some(span) => span,
        None => {
            return Err("Envoy has no active span".to_owned());
        },
    };
    let trace_id = match span.trace_id {
        Some(trace_id) => trace_id,
        None => {
            return Err("active Envoy span has no trace ID".to_owned());
        },
    };
    let span_id = match span.span_id {
        Some(span_id) => span_id,
        None => {
            return Err("active Envoy span has no span ID".to_owned());
        },
    };
    parent_context(trace_id.as_str(), span_id.as_str())
}

/// The context that a pair of ids stands for.
pub fn parent_context(trace_id: &str, span_id: &str) -> (context: Result<ParentContext, String>)
    ensures
        context_view(context) == context_of(trace_id@, span_id@),
{
    parsed_context(trace_id_from_hex(trace_id), span_id_from_hex(span_id))
}

/// The context that a pair of parsed ids stands for.
pub fn parsed_context(trace_id: Result<u128, String>, span_id: Result<u64, String>) -> (context:
    Result<ParentContext, String>)
    ensures
        match (trace_id, span_id) {
            (Err(error), _) => context matches Err(message) && message@
                == "invalid Envoy trace ID: "@ + error@,
            (Ok(_), Err(error)) => context matches Err(message) && message@
                == "invalid Envoy span ID: "@ + error@,
            (Ok(trace_id), Ok(span_id)) => context == Ok::<ParentContext, String>(
                remote_span(trace_id, span_id),
            ),
        },
{
    let trace_id = match trace_id {
        Ok(trace_id) => trace_id,
        Err(error) => {
            return Err(join("invalid Envoy trace ID: ", error.as_str()));
        },
    };
    let span_id = match span_id {
        Ok(span_id) => span_id,
        Err(error) => {
            return Err(join("invalid Envoy span ID: ", error.as_str()));
        },
    };
    Ok(ParentContext { trace_id, span_id, sampled: true, remote: true })
}

/// The role of a span in a remote call.
#[derive(Clone, Copy, Debug, PartialEq, Eq, Structural)]
pub enum SpanKind {
    Client,
}

/// A span to start.
pub struct SpanPlan {
    pub parent: ParentContext,
    pub name: String,
    pub kind: SpanKind,
    pub attributes: Vec<(String, String)>,
}

/// The model of a `SpanPlan`.
pub struct SpanPlanView {
    pub parent: ParentContext,
    pub name: Seq<char>,
    pub kind: SpanKind,
    pub attributes: Seq<(Seq<char>, Seq<char>)>,
}

impl View for SpanPlan {
    type V = SpanPlanView;

    open spec fn view(&self) -> SpanPlanView {
        SpanPlanView {
            parent: self.parent,
            name: self.name@,
            kind: self.kind,
            attributes: self.attributes@.map_values(
                |attribute: (String, String)| (attribute.0@, attribute.1@),
            ),
        }
    }
}

/// The span around a storage operation of a request.
pub open spec fn spanner_span(
    parent: ParentContext,
    name: Seq<char>,
    operation: Seq<char>,
    request_id: RequestId,
) -> SpanPlanView {
    SpanPlanView {
        parent,
        name,
        kind: SpanKind::Client,
        attributes: seq![
            ("db.system.name"@, "gcp.spanner"@),
            ("db.operation.name"@, operation),
            ("request.id"@, hyphenated(request_id.bits as int)),
        ],
    }
}

/// Plans the span around a storage operation of a request.
pub fn start_spanner_span(
    parent: ParentContext,
    name: &str,
    operation: &str,
    request_id: RequestId,
) -> (span: SpanPlan)
    ensures
        span@ == spanner_span(parent, name@, operation@, request_id),
{
    let mut attributes: Vec<(String, String)> = Vec::new();
    attributes.push(("db.system.name".to_owned(), "gcp.spanner".to_owned()));
    attributes.push(("db.operation.name".to_owned(), operation.to_owned()));
    attributes.push(("request.id".to_owned(), request_id.to_string()));
    let span = SpanPlan { parent, name: name.to_owned(), kind: SpanKind::Client, attributes };
    assert(span@.attributes =~= spanner_span(parent, name@, operation@, request_id).attributes);
    span
}

/// How a span ends: with this error, recorded and as its status, or without any.
pub struct SpanEnd {
    pub error: Option<String>,
}

/// The error that the span around an operation with this result ends with.
pub open spec fn span_error(result: Result<(), StorageErrorView>) -> Option<Seq<char>> {
    match result {
        Ok(()) => None,
        Err(error) => Some(error.message()),
    }
}

/// Ends the span around an operation, if one was started.
pub fn finish_span<S>(span: Option<S>, result: &StorageResult<()>) -> (ended: Option<(S, SpanEnd)>)
    ensures
        match span {
            None => ended is None,
            Some(span) => ended matches Some((ended_span, end)) && ended_span == span && match (
                end.error
            ) {
                Some(error) => Some(error@) == span_error(storage_result_view(*result)),
                None => span_error(storage_result_view(*result)) is None,
            },
        },
{
    let span = match span {
        Some(span) => span,
        None => {
            return None;
        },
    };
    let error = match result {
        Ok(()) => None,
        Err(error) => Some(error.to_string()),
    };
    Some((span, SpanEnd { error }))
}

/// The lower-case hexadecimal form of a number, with leading zeros up to `width` digits. This is
/// how trace and span ids are written.
pub open spec fn padded_hex(n: int, width: nat) -> Seq<char>
    decreases width,
{
    if width == 0 {
        Seq::empty()
    } else {
        padded_hex(n / 16, (width - 1) as nat).push(hex_digit(n % 16))
    }
}

pub(crate) proof fn lemma_padded_hex(n: int, width: nat)
    requires
        0 <= n < pow(16, width),
    ensures
        padded_hex(n, width).len() == width,
        forall|i: int| 0 <= i < width ==> is_hex_digit(#[trigger] padded_hex(n, width)[i]),
        forall|i: int| 0 <= i < width ==> #[trigger] padded_hex(n, width)[i] != '+',
        digits_value(padded_hex(n, width)) == n,
    decreases width,
{
    if width == 0 {
        lemma_pow0(16);
    } else {
        let rest = (width - 1) as nat;
        lemma_pow_adds(16, 1, rest);
        lemma_pow1(16);
        assert(0 <= n / 16 < pow(16, rest));
        lemma_padded_hex(n / 16, rest);
        let c = hex_digit(n % 16);
        assert(c as int == if n % 16 < 10 {
            48 + n % 16
        } else {
            87 + n % 16
        });
        let digits = padded_hex(n, width);
        assert(digits.drop_last() =~= padded_hex(n / 16, rest));
        assert forall|i: int| 0 <= i < width implies is_hex_digit(#[trigger] digits[i])
            && digits[i] != '+' by {
            if i < rest {
                assert(digits[i] == padded_hex(n / 16, rest)[i]);
            }
        }
    }
}

/// Ids that are written out in full are read back as they were, so a span has the trace of Envoy's
/// span and that span as its parent.
pub proof fn law_span_joins_envoy_trace(trace_id: u128, span_id: u64)
    ensures
        context_of(padded_hex(trace_id as int, 32), padded_hex(span_id as int, 16)) == Ok::<
            ParentContext,
            Seq<char>,
        >(remote_span(trace_id, span_id)),
{
    assert(pow(16, 8) == 0x1_0000_0000) by {
        reveal_with_fuel(pow, 9);
    }
    assert(pow(16, 16) == 0x1_0000_0000_0000_0000) by {
        lemma_pow_adds(16, 8, 8);
    }
    assert(pow(16, 32) == 0x1_0000_0000_0000_0000_0000_0000_0000_0000) by {
        lemma_pow_adds(16, 16, 16);
    }
    lemma_padded_hex(trace_id as int, 32);
    lemma_padded_hex(span_id as int, 16);
}

} // verus!
