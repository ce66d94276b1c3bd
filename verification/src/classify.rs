//! Classification of HTTP responses into success, retryable failure and
//! fatal error.

use crate::error::{solution_of, text_of, ErrorHandler, HttpFailure, WhatsAppError};
use crate::json::{
    as_integer, as_text, below, error_text, has_member, json_contents, json_parse,
    lemma_member_root, member, member_integer, member_text, parse_document, JsonLeaf,
};
use vstd::prelude::*;
use vstd::utf8::encode_utf8;

verus! {

/// HTTP status of a throttled request.
pub const TOO_MANY_REQUESTS: u16 = 429;

/// Why an attempt may be tried again.
#[derive(Debug, Clone, Copy, PartialEq, Eq, Structural)]
pub enum RetryReason {
    /// The server throttled the client (HTTP 429).
    Throttled,
    /// The server answered with a status of the transient set.
    ServerUnavailable { status: u16 },
    /// The attempt ran into a network timeout.
    NetworkTimeout,
}

/// The client's view of the result of one attempt.
#[derive(Debug, Clone, PartialEq, Eq)]
pub enum ClassifiedOutcome {
    /// The request went through; the body is handed on as it came.
    Success(String),
    /// The attempt failed in a way that may pass.
    Retryable {
        reason: RetryReason,
        /// Delay the server asked for, in milliseconds.
        server_delay_ms: Option<u64>,
    },
    /// The attempt failed for good.
    Fatal(WhatsAppError),
}

/// The error envelope of the API.
#[derive(Debug, Clone, PartialEq, Eq)]
pub struct ErrorEnvelope {
    pub message: String,
    pub error_type: String,
    pub code: i32,
    pub error_subcode: Option<i32>,
    pub fbtrace_id: String,
}

/// The members of an error envelope as they were found in a document.
#[derive(Debug, Clone, PartialEq, Eq)]
pub struct EnvelopeFields {
    /// `message`, where it is a string.
    pub message: Option<String>,
    /// `type`, where it is a string.
    pub error_type: Option<String>,
    /// `code`, where it is an integer.
    pub code: Option<i64>,
    /// Whether the document has a member `error_subcode`.
    pub has_subcode: bool,
    /// `error_subcode`, where it is an integer.
    pub subcode: Option<i64>,
    /// `fbtrace_id`, where it is a string.
    pub fbtrace_id: Option<String>,
}

/// What the classifier reads of a response body.
#[derive(Debug, Clone, PartialEq, Eq)]
pub enum BodyShape {
    /// The body is no JSON document; the parser's complaint is kept.
    Malformed(String),
    /// The body is a JSON document without an error envelope.
    Document,
    /// The body holds an error envelope.
    Envelope(ErrorEnvelope),
}

/// A response as the transport hands it over.
#[derive(Debug, Clone, PartialEq, Eq)]
pub struct RawResponse {
    pub status: u16,
    /// Value of the `Retry-After` header, where the response has one.
    pub retry_after: Option<String>,
    pub body: String,
}

/// Whether an integer fits the 32 bits the API's codes have.
pub open spec fn fits_i32(n: i64) -> bool {
    i32::MIN <= n <= i32::MAX
}

/// Whether the members make up an envelope: `message`, `type`, `code` and the
/// trace identifier are there, the code fits, and a subcode, where the
/// document has one, is an integer that fits.
pub open spec fn is_complete(fields: EnvelopeFields) -> bool {
    &&& fields.message.is_some()
    &&& fields.error_type.is_some()
    &&& fields.code.is_some() && fits_i32(fields.code.unwrap())
    &&& fields.fbtrace_id.is_some()
    &&& fields.has_subcode ==> fields.subcode.is_some() && fits_i32(fields.subcode.unwrap())
}

/// The envelope that complete members make up.
pub open spec fn envelope_of(fields: EnvelopeFields) -> ErrorEnvelope {
    ErrorEnvelope {
        message: fields.message.unwrap(),
        error_type: fields.error_type.unwrap(),
        code: fields.code.unwrap() as i32,
        error_subcode: if fields.has_subcode {
            Some(fields.subcode.unwrap() as i32)
        } else {
            None
        },
        fbtrace_id: fields.fbtrace_id.unwrap(),
    }
}

fn narrow(n: i64) -> (r: Option<i32>)
    ensures
        r == if fits_i32(n) {
            Some(n as i32)
        } else {
            None
        },
{
    if -2147483648 <= n && n <= 2147483647 {
        Some(n as i32)
    } else {
        None
    }
}

/// Builds the envelope from the members found in a document, or refuses them
/// where one that the schema requires is missing or does not fit.
pub fn assemble_envelope(fields: EnvelopeFields) -> (envelope: Option<ErrorEnvelope>)
    ensures
        envelope == if is_complete(fields) {
            Some(envelope_of(fields))
        } else {
            None::<ErrorEnvelope>
        },
{
    let EnvelopeFields { message, error_type, code, has_subcode, subcode, fbtrace_id } = fields;
    let message = match message {
        Some(m) => m,
        None => { return None; },
    };
    let error_type = match error_type {
        Some(t) => t,
        None => { return None; },
    };
    let code = match code {
        Some(c) => match narrow(c) {
            Some(c) => c,
            None => { return None; },
        },
        None => { return None; },
    };
    let fbtrace_id = match fbtrace_id {
        Some(f) => f,
        None => { return None; },
    };
    let error_subcode = if has_subcode {
        match subcode {
            Some(s) => match narrow(s) {
                Some(s) => Some(s),
                None => { return None; },
            },
            None => { return None; },
        }
    } else {
        None
    };
    Some(ErrorEnvelope { message, error_type, code, error_subcode, fbtrace_id })
}

/// Reads the member `key` of a JSON value as a string.
fn text_member(node: &serde_json::Value, key: &str) -> (text: Option<String>)
    ensures
        text_of(text) == member_text(json_contents(*node), key@),
{
    proof {
        lemma_member_root(json_contents(*node), key@);
    }
    match member(node, key) {
        Some(value) => match as_text(value) {
            Some(text) => Some(text.to_owned()),
            None => None,
        },
        None => None,
    }
}

/// Reads the member `key` of a JSON value as an integer.
fn integer_member(node: &serde_json::Value, key: &str) -> (number: Option<i64>)
    ensures
        number == member_integer(json_contents(*node), key@),
{
    proof {
        lemma_member_root(json_contents(*node), key@);
    }
    match member(node, key) {
        Some(value) => as_integer(value),
        None => None,
    }
}

/// Where a document keeps its error envelope: in its member `error`, or in
/// the document itself where it has no such member.
pub open spec fn envelope_node(doc: Map<Seq<Seq<char>>, JsonLeaf>) -> Map<
    Seq<Seq<char>>,
    JsonLeaf,
> {
    if has_member(doc, "error"@) {
        below(doc, "error"@)
    } else {
        doc
    }
}

/// Whether a document holds an envelope: `message`, `type` and `fbtrace_id`
/// are strings, `code` is an integer that fits, and `error_subcode`, where
/// the document has it, is an integer that fits.
pub open spec fn holds_envelope(node: Map<Seq<Seq<char>>, JsonLeaf>) -> bool {
    &&& member_text(node, "message"@).is_some()
    &&& member_text(node, "type"@).is_some()
    &&& member_integer(node, "code"@).is_some() && fits_i32(
        member_integer(node, "code"@).unwrap(),
    )
    &&& member_text(node, "fbtrace_id"@).is_some()
    &&& has_member(node, "error_subcode"@) ==> member_integer(node, "error_subcode"@).is_some()
        && fits_i32(member_integer(node, "error_subcode"@).unwrap())
}

/// Whether `envelope` is the envelope that a document holds.
pub open spec fn is_envelope_of(envelope: ErrorEnvelope, node: Map<Seq<Seq<char>>, JsonLeaf>)
    -> bool {
    &&& Some(envelope.message@) == member_text(node, "message"@)
    &&& Some(envelope.error_type@) == member_text(node, "type"@)
    &&& Some(envelope.code as i64) == member_integer(node, "code"@)
    &&& Some(envelope.fbtrace_id@) == member_text(node, "fbtrace_id"@)
    &&& match envelope.error_subcode {
        Some(subcode) => has_member(node, "error_subcode"@) && Some(subcode as i64)
            == member_integer(node, "error_subcode"@),
        None => !has_member(node, "error_subcode"@),
    }
}

/// Whether `shape` is what a body reads as: malformed where the parser
/// refuses it, the envelope where the document holds one, else a document
/// without one. Of a malformed body the complaint is the parser's own text.
pub open spec fn reads_as(shape: BodyShape, body: Seq<char>) -> bool {
    match json_parse(body) {
        None => shape is Malformed,
        Some(doc) => if holds_envelope(envelope_node(doc)) {
            shape matches BodyShape::Envelope(envelope) && is_envelope_of(
                envelope,
                envelope_node(doc),
            )
        } else {
            shape == BodyShape::Document
        },
    }
}

/// Reads a response body: parses it as JSON and looks for the error envelope
/// in the member `error` of the document, or in the document itself where it
/// has no such member.
fn inspect_body(body: &str) -> (shape: BodyShape)
    ensures
        reads_as(shape, body@),
{
    match parse_document(body) {
        Err(error) => BodyShape::Malformed(error_text(&error)),
        Ok(document) => {
            let node = match member(&document, "error") {
                Some(inner) => inner,
                None => &document,
            };
            let fields = EnvelopeFields {
                message: text_member(node, "message"),
                error_type: text_member(node, "type"),
                code: integer_member(node, "code"),
                has_subcode: member(node, "error_subcode").is_some(),
                subcode: integer_member(node, "error_subcode"),
                fbtrace_id: text_member(node, "fbtrace_id"),
            };
            match assemble_envelope(fields) {
                Some(envelope) => BodyShape::Envelope(envelope),
                None => BodyShape::Document,
            }
        },
    }
}

/// Whether a byte is an ASCII digit.
pub open spec fn is_digit(b: u8) -> bool {
    0x30 <= b <= 0x39
}

/// The number that a sequence of ASCII digits writes in base ten.
pub open spec fn decimal_value(digits: Seq<u8>) -> nat
    decreases digits.len(),
{
    if digits.len() == 0 {
        0
    } else {
        decimal_value(digits.drop_last()) * 10 + (digits.last() - 0x30) as nat
    }
}

/// The number of seconds that a `Retry-After` value gives: the value is a
/// non-empty run of ASCII digits whose number fits 64 bits. Any other value
/// (an HTTP date among them) gives none.
pub open spec fn retry_after_secs(value: Seq<u8>) -> Option<u64> {
    if value.len() > 0 && (forall|i: int| 0 <= i < value.len() ==> is_digit(#[trigger] value[i]))
        && decimal_value(value) <= u64::MAX {
        Some(decimal_value(value) as u64)
    } else {
        None
    }
}

/// A longer run of digits never writes a smaller number.
pub proof fn lemma_decimal_value_grows(digits: Seq<u8>, n: int)
    requires
        0 <= n <= digits.len(),
    ensures
        decimal_value(digits.take(n)) <= decimal_value(digits),
    decreases digits.len() - n,
{
    if n < digits.len() {
        lemma_decimal_value_grows(digits, n + 1);
        assert(digits.take(n + 1).drop_last() =~= digits.take(n));
    } else {
        assert(digits.take(n) =~= digits);
    }
}

/// Reads the number of seconds from the value of a `Retry-After` header.
pub fn parse_retry_after(value: &str) -> (secs: Option<u64>)
    ensures
        secs == retry_after_secs(encode_utf8(value@)),
{
    let bytes = value.as_bytes();
    if bytes.len() == 0 {
        return None;
    }
    let mut total: u64 = 0;
    let mut i: usize = 0;
    while i < bytes.len()
        invariant
            i <= bytes.len(),
            bytes@ == encode_utf8(value@),
            forall|j: int| 0 <= j < i ==> is_digit(#[trigger] bytes@[j]),
            total == decimal_value(bytes@.take(i as int)),
        decreases bytes.len() - i,
    {
        let b = bytes[i];
        if b < 0x30 || b > 0x39 {
            return None;
        }
        let digit: u64 = (b - 0x30) as u64;
        proof {
            assert(bytes@.take(i + 1).drop_last() =~= bytes@.take(i as int));
            lemma_decimal_value_grows(bytes@, i + 1);
        }
        if total > (u64::MAX - digit) / 10 {
            return None;
        }
        total = total * 10 + digit;
        i = i + 1;
    }
    assert(bytes@.take(i as int) =~= bytes@);
    Some(total)
}

/// Seconds as milliseconds, held at the largest representable delay.
pub open spec fn secs_to_ms(secs: u64) -> u64 {
    if secs * 1000 > u64::MAX {
        u64::MAX
    } else {
        (secs * 1000) as u64
    }
}

/// Converts seconds to milliseconds without overflow.
pub fn secs_as_ms(secs: u64) -> (ms: u64)
    ensures
        ms == secs_to_ms(secs),
{
    if secs > u64::MAX / 1000 {
        u64::MAX
    } else {
        secs * 1000
    }
}

/// The delay in milliseconds that a `Retry-After` of so many seconds asks for.
pub open spec fn delay_of(retry_after: Option<u64>) -> Option<u64> {
    match retry_after {
        Some(secs) => Some(secs_to_ms(secs)),
        None => None,
    }
}

/// Whether a status is one of the 2xx.
pub open spec fn is_success(status: u16) -> bool {
    200 <= status <= 299
}

/// Whether `error` is the API error of `envelope`, enriched with the
/// remediation hint for its type and code.
pub open spec fn is_api_error(error: WhatsAppError, envelope: ErrorEnvelope) -> bool {
    error matches WhatsAppError::ApiError { message, error_type, code, subcode, fbtrace_id, solution }
        && message == envelope.message && error_type == envelope.error_type && code
        == envelope.code && subcode == envelope.error_subcode && fbtrace_id == envelope.fbtrace_id
        && text_of(solution) == solution_of(envelope.error_type@, envelope.code as int)
}

/// Whether `outcome` is the classification of a response with the given
/// status, `Retry-After` seconds and body, where `shape` is what the body was
/// read as and `transient` is the set of statuses that pass for temporary.
pub open spec fn is_classification(
    outcome: ClassifiedOutcome,
    transient: Seq<u16>,
    status: u16,
    retry_after: Option<u64>,
    body: String,
    shape: BodyShape,
) -> bool {
    if is_success(status) {
        match shape {
            BodyShape::Malformed(complaint) => outcome == ClassifiedOutcome::Fatal(
                WhatsAppError::JsonError(complaint),
            ),
            _ => outcome == ClassifiedOutcome::Success(body),
        }
    } else if status == TOO_MANY_REQUESTS {
        outcome == (ClassifiedOutcome::Retryable {
            reason: RetryReason::Throttled,
            server_delay_ms: delay_of(retry_after),
        })
    } else if transient.contains(status) {
        outcome == (ClassifiedOutcome::Retryable {
            reason: RetryReason::ServerUnavailable { status },
            server_delay_ms: delay_of(retry_after),
        })
    } else {
        match shape {
            BodyShape::Envelope(envelope) => outcome matches ClassifiedOutcome::Fatal(error)
                && is_api_error(error, envelope),
            _ => outcome == ClassifiedOutcome::Fatal(
                WhatsAppError::HttpError(
                    HttpFailure { status: Some(status), timed_out: false, message: body },
                ),
            ),
        }
    }
}

/// The classification of a failure below the HTTP layer: a network timeout
/// may pass, anything else is fatal.
pub open spec fn failure_outcome(failure: HttpFailure) -> ClassifiedOutcome {
    if failure.timed_out {
        ClassifiedOutcome::Retryable { reason: RetryReason::NetworkTimeout, server_delay_ms: None }
    } else {
        ClassifiedOutcome::Fatal(WhatsAppError::HttpError(failure))
    }
}

/// Turns raw transport results into classified outcomes.
#[derive(Debug, Clone, PartialEq, Eq)]
pub struct ErrorClassifier {
    transient: Vec<u16>,
}

impl View for ErrorClassifier {
    type V = Seq<u16>;

    closed spec fn view(&self) -> Seq<u16> {
        self.transient@
    }
}

impl ErrorClassifier {
    /// A classifier for which 500, 502, 503 and 504 pass for temporary.
    pub fn new() -> (classifier: ErrorClassifier)
        ensures
            classifier@ == seq![500u16, 502u16, 503u16, 504u16],
    {
        ErrorClassifier { transient: vec![500u16, 502u16, 503u16, 504u16] }
    }

    /// A classifier with a transient set of the caller's choice.
    pub fn with_transient(transient: Vec<u16>) -> (classifier: ErrorClassifier)
        ensures
            classifier@ == transient@,
    {
        ErrorClassifier { transient }
    }

    /// Whether a status passes for temporary.
    pub fn is_transient(&self, status: u16) -> (found: bool)
        ensures
            found == self@.contains(status),
    {
        let mut i: usize = 0;
        while i < self.transient.len()
            invariant
                i <= self.transient.len(),
                forall|j: int| 0 <= j < i ==> self.transient@[j] != status,
            decreases self.transient.len() - i,
        {
            if self.transient[i] == status {
                return true;
            }
            i = i + 1;
        }
        false
    }

    /// Classifies a response from its status, the seconds of its
    /// `Retry-After` header, its body and what the body was read as.
    ///
    /// A 2xx with a well-formed body is a success. Otherwise a 429 and the
    /// statuses of the transient set may pass, and carry the delay the server
    /// asked for. Anything else is fatal: the API error of the envelope with
    /// its remediation hint, or an HTTP error where the body holds none.
    pub fn classify(
        &self,
        status: u16,
        retry_after: Option<u64>,
        body: String,
        shape: BodyShape,
    ) -> (outcome: ClassifiedOutcome)
        ensures
            is_classification(outcome, self@, status, retry_after, body, shape),
    {
        let server_delay_ms = match retry_after {
            Some(secs) => Some(secs_as_ms(secs)),
            None => None,
        };
        if 200 <= status && status <= 299 {
            match shape {
                BodyShape::Malformed(complaint) => ClassifiedOutcome::Fatal(
                    WhatsAppError::JsonError(complaint),
                ),
                _ => ClassifiedOutcome::Success(body),
            }
        } else if status == TOO_MANY_REQUESTS {
            ClassifiedOutcome::Retryable { reason: RetryReason::Throttled, server_delay_ms }
        } else if self.is_transient(status) {
            ClassifiedOutcome::Retryable {
                reason: RetryReason::ServerUnavailable { status },
                server_delay_ms,
            }
        } else {
            match shape {
                BodyShape::Envelope(envelope) => ClassifiedOutcome::Fatal(
                    ErrorHandler::enhance_error(
                        envelope.message,
                        envelope.error_type,
                        envelope.code,
                        envelope.error_subcode,
                        envelope.fbtrace_id,
                    ),
                ),
                _ => ClassifiedOutcome::Fatal(
                    WhatsAppError::HttpError(
                        HttpFailure { status: Some(status), timed_out: false, message: body },
                    ),
                ),
            }
        }
    }

    /// Classifies a response as the transport handed it over: reads the
    /// `Retry-After` header and the body, then classifies.
    ///
    /// The outcome is the classification for the shape that the body reads
    /// as. For a 429 and for the statuses of the transient set the shape
    /// plays no part.
    pub fn classify_response(&self, response: RawResponse) -> (outcome: ClassifiedOutcome)
        ensures
            exists|shape: BodyShape|
                reads_as(shape, response.body@) && is_classification(
                    outcome,
                    self@,
                    response.status,
                    header_secs(response.retry_after),
                    response.body,
                    shape,
                ),
            !is_success(response.status) && (response.status == TOO_MANY_REQUESTS
                || self@.contains(response.status)) ==> is_classification(
                outcome,
                self@,
                response.status,
                header_secs(response.retry_after),
                response.body,
                BodyShape::Document,
            ),
    {
        let RawResponse { status, retry_after, body } = response;
        let secs = match &retry_after {
            Some(value) => parse_retry_after(value.as_str()),
            None => None,
        };
        let shape = inspect_body(body.as_str());
        self.classify(status, secs, body, shape)
    }

    /// Classifies a failure below the HTTP layer.
    pub fn classify_failure(failure: HttpFailure) -> (outcome: ClassifiedOutcome)
        ensures
            outcome == failure_outcome(failure),
    {
        if failure.timed_out {
            ClassifiedOutcome::Retryable {
                reason: RetryReason::NetworkTimeout,
                server_delay_ms: None,
            }
        } else {
            ClassifiedOutcome::Fatal(WhatsAppError::HttpError(failure))
        }
    }
}

/// The seconds that an optional `Retry-After` header gives.
pub open spec fn header_secs(header: Option<String>) -> Option<u64> {
    match header {
        Some(value) => retry_after_secs(encode_utf8(value@)),
        None => None,
    }
}

} // verus!
