//! The tracing identifiers that travel with a task.
use bson::Document;
use opentelemetry::trace::{SpanContext, SpanId, TraceContextExt, TraceFlags, TraceId, TraceState};
use tracing_opentelemetry::OpenTelemetrySpanExt;
use vstd::prelude::*;

use crate::config::converts;
use crate::document::{
    bson_i32, bson_str, document_fields, no_fields, one_field, with_field, BsonValue, Fields,
};

verus! {

#[verifier::external_type_specification]
#[verifier::external_body]
pub struct ExSpanContext(SpanContext);

#[verifier::external_type_specification]
#[verifier::external_body]
pub struct ExTraceFlags(TraceFlags);

/// The bytes of a span context's trace id.
pub uninterp spec fn span_trace_id(span_context: SpanContext) -> Seq<u8>;

/// The bytes of a span context's span id.
pub uninterp spec fn span_span_id(span_context: SpanContext) -> Seq<u8>;

/// The trace flags of a span context, as bits.
pub uninterp spec fn span_flag_bits(span_context: SpanContext) -> u8;

/// Whether a span context came from another process.
pub uninterp spec fn span_is_remote(span_context: SpanContext) -> bool;

/// Trace flags as bits.
pub uninterp spec fn flag_bits(flags: TraceFlags) -> u8;

/// Whether any byte differs from zero.
pub open spec fn is_nonzero(bytes: Seq<u8>) -> bool {
    exists|i: int| 0 <= i < bytes.len() && #[trigger] bytes[i] != 0
}

/// The lower-case hexadecimal digit for a number below sixteen.
pub open spec fn hex_digit(number: u8) -> char {
    if number < 10 {
        (48 + number) as char
    } else {
        (87 + number) as char
    }
}

/// Bytes in lower-case hexadecimal, two digits each.
pub open spec fn hex_text(bytes: Seq<u8>) -> Seq<char> {
    Seq::new(
        2 * bytes.len(),
        |i: int|
            if i % 2 == 0 {
                hex_digit(bytes[i / 2] / 16)
            } else {
                hex_digit(bytes[i / 2] % 16)
            },
    )
}

/// The number that a hexadecimal digit of either case stands for.
pub open spec fn hex_digit_value(digit: char) -> Option<u8> {
    if '0' <= digit && digit <= '9' {
        Some((digit as u8 - 48) as u8)
    } else if 'a' <= digit && digit <= 'f' {
        Some((digit as u8 - 87) as u8)
    } else if 'A' <= digit && digit <= 'F' {
        Some((digit as u8 - 55) as u8)
    } else {
        None
    }
}

/// The bytes that a hexadecimal text stands for: nothing unless its length is even and every
/// character is a hexadecimal digit.
pub open spec fn hex_bytes(text: Seq<char>) -> Option<Seq<u8>> {
    if text.len() % 2 == 0 && forall|i: int|
        0 <= i < text.len() ==> hex_digit_value(#[trigger] text[i]) is Some {
        Some(
            Seq::new(
                text.len() / 2,
                |i: int|
                    (hex_digit_value(text[2 * i])->0 * 16 + hex_digit_value(
                        text[2 * i + 1],
                    )->0) as u8,
            ),
        )
    } else {
        None
    }
}

/// `hex::decode`: the bytes that the text stands for, an error where it stands for none.
#[verifier::external_body]
fn hex_decode(text: &str) -> (bytes: Option<Vec<u8>>)
    ensures
        match bytes {
            Some(bytes) => hex_bytes(text@) == Some(bytes@),
            None => hex_bytes(text@) is None,
        },
{
    hex::decode(text).ok()
}

/// `opentelemetry::trace::SpanContext::is_valid`: whether both ids differ from zero.
#[verifier::external_body]
fn span_is_valid(span_context: &SpanContext) -> (valid: bool)
    ensures
        valid == (is_nonzero(span_trace_id(*span_context)) && is_nonzero(
            span_span_id(*span_context),
        )),
{
    span_context.is_valid()
}

/// `opentelemetry::trace::SpanContext::trace_id`, with `Display` of the id: its sixteen bytes as 32
/// lower-case hexadecimal digits.
#[verifier::external_body]
fn span_trace_id_text(span_context: &SpanContext) -> (text: String)
    ensures
        text@ == hex_text(span_trace_id(*span_context)),
        text@.len() == 32,
{
    span_context.trace_id().to_string()
}

/// `opentelemetry::trace::SpanContext::span_id`, with `Display` of the id: its eight bytes as 16
/// lower-case hexadecimal digits.
#[verifier::external_body]
fn span_span_id_text(span_context: &SpanContext) -> (text: String)
    ensures
        text@ == hex_text(span_span_id(*span_context)),
        text@.len() == 16,
{
    span_context.span_id().to_string()
}

/// `opentelemetry::trace::SpanContext::trace_flags`, as bits.
#[verifier::external_body]
fn span_flags(span_context: &SpanContext) -> (bits: u8)
    ensures
        bits == span_flag_bits(*span_context),
{
    span_context.trace_flags().to_u8()
}

/// `opentelemetry::trace::SpanContext::new`: the span context with these ids and flags, and with no
/// trace state.
#[verifier::external_body]
fn span_new(trace_id: [u8; 16], span_id: [u8; 8], bits: u8, is_remote: bool) -> (span_context:
    SpanContext)
    ensures
        span_trace_id(span_context) == trace_id@,
        span_span_id(span_context) == span_id@,
        span_flag_bits(span_context) == bits,
        span_is_remote(span_context) == is_remote,
{
    SpanContext::new(
        TraceId::from_bytes(trace_id),
        SpanId::from_bytes(span_id),
        TraceFlags::new(bits),
        is_remote,
        TraceState::default(),
    )
}

/// `opentelemetry::trace::TraceFlags::to_u8`: the flags as bits.
#[verifier::external_body]
fn flags_to_bits(flags: TraceFlags) -> (bits: u8)
    ensures
        bits == flag_bits(flags),
{
    flags.to_u8()
}

/// `opentelemetry::trace::TraceFlags::SAMPLED`: only the lowest bit is set.
#[verifier::external_body]
fn sampled_flags() -> (flags: TraceFlags)
    ensures
        flag_bits(flags) == 1,
{
    TraceFlags::SAMPLED
}

/// `tracing_opentelemetry::OpenTelemetrySpanExt::context` of `tracing::Span::current`: the span
/// context of the span that is active where this is called. Nothing is known of it.
#[verifier::external_body]
fn current_span_context() -> (span_context: SpanContext) {
    let context = tracing::Span::current().context();
    let span = context.span();
    span.span_context().clone()
}

/// Whether a look at the active span has given this span context.
pub closed spec fn is_active_span(span_context: SpanContext) -> bool {
    call_ensures(current_span_context, (), span_context)
}

/// A span context counts as that of the active span only where a look at it gave it.
proof fn active_span_was_looked_at(span_context: SpanContext)
    requires
        is_active_span(span_context),
    ensures
        call_ensures(current_span_context, (), span_context),
{
}

/// The caller's tracing identifiers, as they are stored with a task.
#[derive(Debug, PartialEq, Eq)]
pub struct TraceContext {
    /// The trace id of the caller's span, in hexadecimal.
    pub trace_id: String,
    /// The span id of the caller's span, in hexadecimal.
    pub span_id: String,
    /// The trace flags of the caller's span, so that sampling decisions stay intact.
    pub trace_flags: u8,
}

/// A `TraceContext` as contracts speak of it.
pub ghost struct TraceIds {
    pub trace_id: Seq<char>,
    pub span_id: Seq<char>,
    pub trace_flags: u8,
}

impl View for TraceContext {
    type V = TraceIds;

    open spec fn view(&self) -> TraceIds {
        TraceIds {
            trace_id: self.trace_id@,
            span_id: self.span_id@,
            trace_flags: self.trace_flags,
        }
    }
}

/// The identifiers of a span context.
pub open spec fn trace_ids(span_context: SpanContext) -> TraceIds {
    TraceIds {
        trace_id: hex_text(span_trace_id(span_context)),
        span_id: hex_text(span_span_id(span_context)),
        trace_flags: span_flag_bits(span_context),
    }
}

/// Whether a span context has a trace id and a span id.
pub open spec fn is_valid_span(span_context: SpanContext) -> bool {
    is_nonzero(span_trace_id(span_context)) && is_nonzero(span_span_id(span_context))
}

impl TraceIds {
    /// Whether the identifiers name a span: sixteen and eight bytes in hexadecimal.
    pub open spec fn names_span(self) -> bool {
        &&& hex_bytes(self.trace_id) matches Some(bytes) && bytes.len() == 16
        &&& hex_bytes(self.span_id) matches Some(bytes) && bytes.len() == 8
    }

    /// The document that stores the identifiers.
    pub open spec fn stored(self) -> Fields {
        no_fields().insert("trace_id"@, BsonValue::Str(self.trace_id)).insert(
            "span_id"@,
            BsonValue::Str(self.span_id),
        ).insert("trace_flags"@, BsonValue::Int32(self.trace_flags as i32))
    }
}

impl Clone for TraceContext {
    /// The same identifiers.
    fn clone(&self) -> (context: TraceContext)
        ensures
            context == *self,
    {
        TraceContext {
            trace_id: self.trace_id.clone(),
            span_id: self.span_id.clone(),
            trace_flags: self.trace_flags,
        }
    }
}

impl TraceContext {
    /// The trace context with these ids, sampled.
    pub fn from_parts<T: Into<String>, S: Into<String>>(trace_id: T, span_id: S) -> (context:
        TraceContext)
        ensures
            converts(trace_id, context.trace_id),
            converts(span_id, context.span_id),
            context.trace_flags == 1,
    {
        let trace_id_text: String = trace_id.into();
        let span_id_text: String = span_id.into();
        TraceContext {
            trace_id: trace_id_text,
            span_id: span_id_text,
            trace_flags: TraceContext::default_trace_flags(),
        }
    }

    /// The trace context with these ids and flags.
    pub fn from_parts_with_flags<T: Into<String>, S: Into<String>>(
        trace_id: T,
        span_id: S,
        trace_flags: TraceFlags,
    ) -> (context: TraceContext)
        ensures
            converts(trace_id, context.trace_id),
            converts(span_id, context.span_id),
            context.trace_flags == flag_bits(trace_flags),
    {
        let trace_id_text: String = trace_id.into();
        let span_id_text: String = span_id.into();
        TraceContext {
            trace_id: trace_id_text,
            span_id: span_id_text,
            trace_flags: flags_to_bits(trace_flags),
        }
    }

    /// The trace context of the active span, as a look at it gives it; nothing if that is invalid.
    pub fn capture_current() -> (context: Option<TraceContext>)
        ensures
            exists|span_context: SpanContext| #[trigger]
                captures(context, span_context) && is_active_span(span_context),
    {
        let span_context = current_span_context();
        let context = TraceContext::from_span_context(&span_context);
        assert(captures(context, span_context));
        context
    }

    /// The trace context of a span context; nothing if that is invalid.
    pub fn from_span_context(span_context: &SpanContext) -> (context: Option<TraceContext>)
        ensures
            captures(context, *span_context),
            context matches Some(context) ==> context@.names_span(),
    {
        if !span_is_valid(span_context) {
            return None;
        }
        let context = TraceContext {
            trace_id: span_trace_id_text(span_context),
            span_id: span_span_id_text(span_context),
            trace_flags: span_flags(span_context),
        };
        proof {
            hex_text_read_back(span_trace_id(*span_context));
            hex_text_read_back(span_span_id(*span_context));
        }
        Some(context)
    }

    /// The span context that the stored identifiers name; nothing if they name none.
    pub fn to_span_context(&self) -> (span_context: Option<SpanContext>)
        ensures
            span_context is Some <==> self@.names_span(),
            span_context matches Some(span_context) ==> {
                &&& hex_bytes(self@.trace_id) == Some(span_trace_id(span_context))
                &&& hex_bytes(self@.span_id) == Some(span_span_id(span_context))
                &&& span_flag_bits(span_context) == self@.trace_flags
                &&& span_is_remote(span_context)
            },
    {
        let trace_bytes = match hex_decode(self.trace_id.as_str()) {
            Some(bytes) => bytes,
            None => {
                return None;
            },
        };
        if trace_bytes.len() != 16 {
            return None;
        }
        let span_bytes = match hex_decode(self.span_id.as_str()) {
            Some(bytes) => bytes,
            None => {
                return None;
            },
        };
        if span_bytes.len() != 8 {
            return None;
        }
        let mut trace_id: [u8; 16] = [0;16];
        let mut i: usize = 0;
        while i < 16
            invariant
                i <= 16,
                trace_bytes.len() == 16,
                trace_id@.len() == 16,
                forall|k: int| 0 <= k < i ==> trace_id@[k] == trace_bytes@[k],
            decreases 16 - i,
        {
            trace_id[i] = trace_bytes[i];
            i = i + 1;
        }
        let mut span_id: [u8; 8] = [0;8];
        let mut j: usize = 0;
        while j < 8
            invariant
                j <= 8,
                span_bytes.len() == 8,
                span_id@.len() == 8,
                forall|k: int| 0 <= k < j ==> span_id@[k] == span_bytes@[k],
            decreases 8 - j,
        {
            span_id[j] = span_bytes[j];
            j = j + 1;
        }
        proof {
            assert(trace_id@ =~= trace_bytes@);
            assert(span_id@ =~= span_bytes@);
        }
        Some(span_new(trace_id, span_id, self.trace_flags, true))
    }

    /// The flags of a trace context that comes without any: sampled.
    pub fn default_trace_flags() -> (bits: u8)
        ensures
            bits == 1,
    {
        flags_to_bits(sampled_flags())
    }

    /// The document that stores the identifiers with a task.
    pub fn to_document(&self) -> (document: Document)
        ensures
            document_fields(document) == self@.stored(),
    {
        let document = one_field("trace_id", bson_str(self.trace_id.as_str()));
        let document = with_field(document, "span_id", bson_str(self.span_id.as_str()));
        with_field(document, "trace_flags", bson_i32(self.trace_flags as i32))
    }
}

/// Whether `context` holds the identifiers of `span_context`, or is nothing because that is invalid.
pub open spec fn captures(context: Option<TraceContext>, span_context: SpanContext) -> bool {
    match context {
        Some(context) => is_valid_span(span_context) && context@ == trace_ids(span_context),
        None => !is_valid_span(span_context),
    }
}

/// Reading back bytes written in hexadecimal gives the bytes again.
pub proof fn hex_text_read_back(bytes: Seq<u8>)
    ensures
        hex_bytes(hex_text(bytes)) == Some(bytes),
{
    let text = hex_text(bytes);
    assert forall|i: int| 0 <= i < text.len() implies hex_digit_value(#[trigger] text[i]) is Some
        && (hex_digit_value(text[i])->0) == if i % 2 == 0 {
        bytes[i / 2] / 16
    } else {
        bytes[i / 2] % 16
    } by {}
    let read = hex_bytes(text)->0;
    assert forall|i: int| 0 <= i < bytes.len() implies #[trigger] read[i] == bytes[i] by {
        assert((2 * i) % 2 == 0 && (2 * i) / 2 == i);
        assert((2 * i + 1) % 2 == 1 && (2 * i + 1) / 2 == i);
        assert(hex_digit_value(text[2 * i])->0 == bytes[i] / 16);
        assert(hex_digit_value(text[2 * i + 1])->0 == bytes[i] % 16);
    }
    assert(read =~= bytes);
}

/// A span context that went through a task document and back keeps its ids and its flags: the
/// identifiers captured of a valid span name a span again, and it is the same one.
pub proof fn trace_context_round_trip(span_context: SpanContext)
    ensures
        hex_bytes(trace_ids(span_context).trace_id) == Some(span_trace_id(span_context)),
        hex_bytes(trace_ids(span_context).span_id) == Some(span_span_id(span_context)),
        trace_ids(span_context).trace_flags == span_flag_bits(span_context),
{
    hex_text_read_back(span_trace_id(span_context));
    hex_text_read_back(span_span_id(span_context));
}

} // verus!
