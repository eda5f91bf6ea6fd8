//! The collector's reply to an export: response headers, trailers and their verdict.

use crate::text::{from_utf8_lossy, join, same_bytes, utf8_lossy};
use vstd::prelude::*;
use vstd::utf8::*;

verus! {

/// A header name with its value.
pub type Header<'a> = (&'a [u8], &'a [u8]);

/// The model of a list of headers.
pub open spec fn header_pairs(headers: Seq<(&[u8], &[u8])>) -> Seq<(Seq<u8>, Seq<u8>)> {
    headers.map_values(|header: (&[u8], &[u8])| (header.0@, header.1@))
}

/// A byte with upper-case ASCII letters made lower-case.
pub open spec fn ascii_lower(byte: u8) -> u8 {
    if 65 <= byte <= 90 {
        (byte + 32) as u8
    } else {
        byte
    }
}

/// Whether two names are the same up to the case of ASCII letters.
pub open spec fn same_name(a: Seq<u8>, b: Seq<u8>) -> bool {
    &&& a.len() == b.len()
    &&& forall|i: int| 0 <= i < a.len() ==> ascii_lower(#[trigger] a[i]) == ascii_lower(b[i])
}

/// The value of the first header with this name.
pub open spec fn first_value(headers: Seq<(Seq<u8>, Seq<u8>)>, name: Seq<u8>) -> Option<Seq<u8>>
    decreases headers.len(),
{
    if headers.len() == 0 {
        None
    } else if same_name(headers[0].0, name) {
        Some(headers[0].1)
    } else {
        first_value(headers.skip(1), name)
    }
}

/// The number of the status that a `grpc-status` value stands for: the decimal numbers 0 to 16
/// without leading zeros stand for themselves, everything else for `Unknown`.
pub open spec fn status_code(value: Seq<u8>) -> i32 {
    if value.len() == 1 && 48 <= value[0] <= 57 {
        (value[0] - 48) as i32
    } else if value.len() == 2 && value[0] == 49 && 48 <= value[1] <= 54 {
        (value[1] - 48 + 10) as i32
    } else {
        2
    }
}

/// The name of a status number; a number that is no status is `Unknown`.
pub open spec fn status_name(code: i32) -> Seq<char> {
    if code == 0 {
        "Ok"@
    } else if code == 1 {
        "Cancelled"@
    } else if code == 3 {
        "InvalidArgument"@
    } else if code == 4 {
        "DeadlineExceeded"@
    } else if code == 5 {
        "NotFound"@
    } else if code == 6 {
        "AlreadyExists"@
    } else if code == 7 {
        "PermissionDenied"@
    } else if code == 8 {
        "ResourceExhausted"@
    } else if code == 9 {
        "FailedPrecondition"@
    } else if code == 10 {
        "Aborted"@
    } else if code == 11 {
        "OutOfRange"@
    } else if code == 12 {
        "Unimplemented"@
    } else if code == 13 {
        "Internal"@
    } else if code == 14 {
        "Unavailable"@
    } else if code == 15 {
        "DataLoss"@
    } else if code == 16 {
        "Unauthenticated"@
    } else {
        "Unknown"@
    }
}

/// Calls `tonic::Code::from_bytes` and takes the number of the code. One digit, or `1` followed
/// by a digit up to `6`, is read as a decimal number; any other value is `Unknown`, number 2.
#[verifier::external_body]
fn code_from_bytes(value: &[u8]) -> (code: i32)
    ensures
        code == status_code(value@),
{
    tonic::Code::from_bytes(value).into()
}

/// Calls `tonic::Code::from_i32` and the derived `Debug` formatting of the code, which writes the
/// name of the variant.
#[verifier::external_body]
fn code_name(code: i32) -> (name: String)
    ensures
        name@ == status_name(code),
{
    format!("{:?}", tonic::Code::from_i32(code))
}

/// Makes an upper-case ASCII letter lower-case.
fn to_lower(byte: u8) -> (lower: u8)
    ensures
        lower == ascii_lower(byte),
{
    if 65 <= byte && byte <= 90 {
        byte + 32
    } else {
        byte
    }
}

/// Compares two names without regard to the case of ASCII letters.
fn eq_ignore_ascii_case(a: &[u8], b: &[u8]) -> (same: bool)
    ensures
        same == same_name(a@, b@),
{
    if a.len() != b.len() {
        return false;
    }
    let mut i: usize = 0;
    while i < a.len()
        invariant
            a@.len() == b@.len(),
            i <= a@.len(),
            forall|j: int|
                0 <= j < i ==> ascii_lower(#[trigger] a@[j]) == ascii_lower(b@[j]),
        decreases a@.len() - i,
    {
        if to_lower(a[i]) != to_lower(b[i]) {
            return false;
        }
        i += 1;
    }
    true
}

/// Finds the first header with this name, without regard to case.
pub fn header_value<'a>(headers: &[Header<'a>], name: &[u8]) -> (value: Option<&'a [u8]>)
    ensures
        match value {
            Some(value) => first_value(header_pairs(headers@), name@) == Some(value@),
            None => first_value(header_pairs(headers@), name@) is None,
        },
{
    let ghost pairs = header_pairs(headers@);
    assert(pairs.skip(0) =~= pairs);
    let mut i: usize = 0;
    while i < headers.len()
        invariant
            pairs == header_pairs(headers@),
            i <= headers@.len(),
            first_value(pairs, name@) == first_value(pairs.skip(i as int), name@),
        decreases headers@.len() - i,
    {
        let header = headers[i];
        assert(pairs.skip(i as int)[0] == (header.0@, header.1@));
        if eq_ignore_ascii_case(header.0, name) {
            return Some(header.1);
        }
        assert(pairs.skip(i as int).skip(1) =~= pairs.skip(i + 1));
        i += 1;
    }
    None
}

/// Copies the value of the first header with this name.
pub fn owned_header_value(headers: &[Header<'_>], name: &[u8]) -> (value: Option<Vec<u8>>)
    ensures
        optional_bytes(value) == first_value(header_pairs(headers@), name@),
{
    match header_value(headers, name) {
        Some(value) => {
            let copy = vstd::slice::slice_to_vec(value);
            Some(copy)
        },
        None => None,
    }
}

/// The model of an optional byte string.
pub open spec fn optional_bytes(bytes: Option<Vec<u8>>) -> Option<Seq<u8>> {
    match bytes {
        Some(bytes) => Some(bytes@),
        None => None,
    }
}

/// How a header value is shown in a message: as the text it is, with replacements where it is not
/// UTF-8.
pub open spec fn shown_header(value: Option<Seq<u8>>) -> Seq<char> {
    match value {
        Some(value) => if valid_utf8(value) {
            decode_utf8(value)
        } else {
            utf8_lossy(value)
        },
        None => "<missing>"@,
    }
}

/// The text that stands for a header value in a message.
pub fn display_header(value: Option<&[u8]>) -> (text: String)
    ensures
        text@ == shown_header(
            match value {
                Some(value) => Some(value@),
                None => None,
            },
        ),
{
    match value {
        Some(value) => from_utf8_lossy(value),
        None => "<missing>".to_owned(),
    }
}

/// The message about an HTTP status, given how the status is shown.
pub fn http_status_message(shown: &str) -> (message: String)
    ensures
        message@ == "HTTP status "@ + shown@,
{
    join("HTTP status ", shown)
}

/// What is known so far of the reply to an export.
#[derive(Debug)]
pub struct GrpcResponse {
    pub http_status: Option<Vec<u8>>,
    /// The number of the gRPC status.
    pub grpc_status: Option<i32>,
}

/// The model of a `GrpcResponse`.
pub struct ResponseView {
    pub http_status: Option<Seq<u8>>,
    pub grpc_status: Option<i32>,
}

impl View for GrpcResponse {
    type V = ResponseView;

    open spec fn view(&self) -> ResponseView {
        ResponseView {
            http_status: optional_bytes(self.http_status),
            grpc_status: self.grpc_status,
        }
    }
}

impl ResponseView {
    /// Nothing is known yet.
    pub open spec fn unanswered() -> ResponseView {
        ResponseView { http_status: None, grpc_status: None }
    }

    /// The reply after metadata that may carry the gRPC status.
    pub open spec fn with_status(self, metadata: Seq<(Seq<u8>, Seq<u8>)>) -> ResponseView {
        match first_value(metadata, encode_utf8("grpc-status"@)) {
            Some(value) => ResponseView { grpc_status: Some(status_code(value)), ..self },
            None => self,
        }
    }

    /// The reply after response headers. They carry the gRPC status only if nothing follows them.
    pub open spec fn with_headers(
        self,
        headers: Seq<(Seq<u8>, Seq<u8>)>,
        end_stream: bool,
    ) -> ResponseView {
        let seen = ResponseView {
            http_status: first_value(headers, encode_utf8(":status"@)),
            ..self
        };
        if end_stream {
            seen.with_status(headers)
        } else {
            seen
        }
    }

    /// Whether the export succeeded, or what went wrong.
    pub open spec fn verdict(self) -> Result<(), Seq<char>> {
        if self.http_status != Some(encode_utf8("200"@)) {
            Err("HTTP status "@ + shown_header(self.http_status))
        } else {
            match self.grpc_status {
                Some(code) => if code == 0 {
                    Ok(())
                } else {
                    Err("gRPC status "@ + status_name(code))
                },
                None => Err("missing grpc-status"@),
            }
        }
    }
}

/// The model of a verdict.
pub open spec fn verdict_view(verdict: Result<(), String>) -> Result<(), Seq<char>> {
    match verdict {
        Ok(()) => Ok(()),
        Err(message) => Err(message@),
    }
}

impl Default for GrpcResponse {
    /// Nothing is known yet.
    fn default() -> (response: GrpcResponse)
        ensures
            response@ == ResponseView::unanswered(),
    {
        GrpcResponse { http_status: None, grpc_status: None }
    }
}

impl GrpcResponse {
    /// Takes in response headers; with `end_stream` nothing follows them.
    pub fn record_headers(&mut self, headers: &[Header<'_>], end_stream: bool)
        ensures
            final(self)@ == old(self)@.with_headers(header_pairs(headers@), end_stream),
    {
        self.http_status = owned_header_value(headers, ":status".as_bytes());
        if end_stream {
            self.record_status(headers);
        }
    }

    /// Takes in response trailers.
    pub fn record_trailers(&mut self, trailers: &[Header<'_>])
        ensures
            final(self)@ == old(self)@.with_status(header_pairs(trailers@)),
    {
        self.record_status(trailers);
    }

    /// Takes in the gRPC status, if the metadata carries one.
    pub fn record_status(&mut self, metadata: &[Header<'_>])
        ensures
            final(self)@ == old(self)@.with_status(header_pairs(metadata@)),
    {
        if let Some(status) = header_value(metadata, "grpc-status".as_bytes()) {
            self.grpc_status = Some(code_from_bytes(status));
        }
    }

    /// Whether the export succeeded, or what went wrong.
    pub fn validate(&self) -> (verdict: Result<(), String>)
        ensures
            verdict_view(verdict) == self@.verdict(),
    {
        let http_status = match &self.http_status {
            Some(status) => Some(status.as_slice()),
            None => None,
        };
        let ok = match http_status {
            Some(status) => same_bytes(status, "200".as_bytes()),
            None => false,
        };
        if !ok {
            let shown = display_header(http_status);
            return Err(http_status_message(shown.as_str()));
        }
        match self.grpc_status {
            Some(code) => {
                if code == 0 {
                    Ok(())
                } else {
                    let name = code_name(code);
                    Err(join("gRPC status ", name.as_str()))
                }
            },
            None => Err("missing grpc-status".to_owned()),
        }
    }
}

/// Response headers that something follows never make an export succeed on their own.
pub proof fn law_headers_alone_do_not_succeed(headers: Seq<(Seq<u8>, Seq<u8>)>)
    ensures
        ResponseView::unanswered().with_headers(headers, false).verdict() is Err,
{
}

/// An export whose reply has headers and trailers succeeds exactly if the headers say `200` and
/// the trailers carry a `grpc-status` of `0`.
pub proof fn law_trailers_decide(
    headers: Seq<(Seq<u8>, Seq<u8>)>,
    trailers: Seq<(Seq<u8>, Seq<u8>)>,
)
    ensures
        ResponseView::unanswered().with_headers(headers, false).with_status(trailers).verdict()
            is Ok <==> {
            &&& first_value(headers, encode_utf8(":status"@)) == Some(encode_utf8("200"@))
            &&& first_value(trailers, encode_utf8("grpc-status"@)) == Some(seq![48u8])
        },
{
    lemma_ok_is_zero(trailers);
}

/// An export whose reply has headers only succeeds exactly if they say `200` and carry a
/// `grpc-status` of `0`.
pub proof fn law_trailers_only_reply(headers: Seq<(Seq<u8>, Seq<u8>)>)
    ensures
        ResponseView::unanswered().with_headers(headers, true).verdict() is Ok <==> {
            &&& first_value(headers, encode_utf8(":status"@)) == Some(encode_utf8("200"@))
            &&& first_value(headers, encode_utf8("grpc-status"@)) == Some(seq![48u8])
        },
{
    lemma_ok_is_zero(headers);
}

/// Only the value `0` stands for success.
proof fn lemma_ok_is_zero(metadata: Seq<(Seq<u8>, Seq<u8>)>)
    ensures
        first_value(metadata, encode_utf8("grpc-status"@)) matches Some(value) ==> (status_code(
            value,
        ) == 0 <==> value == seq![48u8]),
{
    if let Some(value) = first_value(metadata, encode_utf8("grpc-status"@)) {
        if status_code(value) == 0 {
            assert(value =~= seq![48u8]);
        }
    }
}

/// A header is found by its name in any case, and an earlier header hides later ones.
pub proof fn law_first_header_wins(
    headers: Seq<(Seq<u8>, Seq<u8>)>,
    later: Seq<(Seq<u8>, Seq<u8>)>,
    name: Seq<u8>,
    other_name: Seq<u8>,
)
    requires
        same_name(name, other_name),
    ensures
        first_value(headers, name) == first_value(headers, other_name),
        first_value(headers + later, name) == if first_value(headers, name) is Some {
            first_value(headers, name)
        } else {
            first_value(later, name)
        },
    decreases headers.len(),
{
    if headers.len() == 0 {
        assert(headers + later =~= later);
    } else {
        assert(same_name(headers[0].0, name) == same_name(headers[0].0, other_name)) by {
            let key = headers[0].0;
            if same_name(key, name) {
                assert forall|i: int| 0 <= i < key.len() implies ascii_lower(#[trigger] key[i])
                    == ascii_lower(other_name[i]) by {
                    assert(ascii_lower(name[i]) == ascii_lower(other_name[i]));
                }
            }
            if same_name(key, other_name) {
                assert forall|i: int| 0 <= i < key.len() implies ascii_lower(#[trigger] key[i])
                    == ascii_lower(name[i]) by {
                    assert(ascii_lower(name[i]) == ascii_lower(other_name[i]));
                }
            }
        }
        law_first_header_wins(headers.skip(1), later, name, other_name);
        assert((headers + later).skip(1) =~= headers.skip(1) + later);
    }
}

} // verus!
