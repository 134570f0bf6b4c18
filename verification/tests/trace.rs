use std::sync::{Arc, Mutex};

use bson::Bson;
use futures_util::future::BoxFuture;
use getitdone::TraceContext;
use opentelemetry::trace::{
    Link, SpanContext, SpanId, TraceFlags, TraceId, TraceState, Tracer, TracerProvider,
};
use opentelemetry_sdk::error::OTelSdkResult;
use opentelemetry_sdk::trace::{SdkTracerProvider, SpanData, SpanExporter};

fn sample_ids() -> (&'static str, &'static str) {
    ("00112233445566778899aabbccddeeff", "0011223344556677")
}

#[test]
fn trace_from_parts_defaults_to_sampled() {
    let (trace_id, span_id) = sample_ids();
    let ctx = TraceContext::from_parts(trace_id, span_id);
    assert_eq!(ctx.trace_id, trace_id);
    assert_eq!(ctx.span_id, span_id);
    assert_eq!(ctx.trace_flags, TraceFlags::SAMPLED.to_u8());
    let span_context = ctx.to_span_context().expect("valid hex ids");
    assert!(span_context.is_remote());
    assert_eq!(span_context.trace_flags(), TraceFlags::SAMPLED);
}

#[test]
fn trace_from_parts_with_flags_respects_sampling() {
    let (trace_id, span_id) = sample_ids();
    let ctx = TraceContext::from_parts_with_flags(trace_id, span_id, TraceFlags::NOT_SAMPLED);
    assert_eq!(ctx.trace_flags, TraceFlags::NOT_SAMPLED.to_u8());
    let span_context = ctx.to_span_context().expect("valid hex ids");
    assert!(!span_context.trace_flags().is_sampled());
}

#[test]
fn trace_from_span_context_roundtrip() {
    let span_context = SpanContext::new(
        TraceId::from_hex("00112233445566778899aabbccddeeff").unwrap(),
        SpanId::from_hex("0011223344556677").unwrap(),
        TraceFlags::SAMPLED,
        true,
        TraceState::default(),
    );
    let stored = TraceContext::from_span_context(&span_context).expect("valid span");
    let rebuilt = stored.to_span_context().expect("rebuild");
    assert_eq!(rebuilt.trace_id(), span_context.trace_id());
    assert_eq!(rebuilt.span_id(), span_context.span_id());
}

#[derive(Clone, Debug, Default)]
struct CollectingExporter {
    spans: Arc<Mutex<Vec<SpanData>>>,
}

impl CollectingExporter {
    fn finished_spans(&self) -> Vec<SpanData> {
        self.spans.lock().unwrap().clone()
    }
}

impl SpanExporter for CollectingExporter {
    fn export(&mut self, batch: Vec<SpanData>) -> BoxFuture<'static, OTelSdkResult> {
        let spans = Arc::clone(&self.spans);
        Box::pin(async move {
            spans.lock().unwrap().extend(batch);
            Ok(())
        })
    }
}

#[test]
fn span_link_is_exported() {
    let exporter = CollectingExporter::default();
    let provider = SdkTracerProvider::builder()
        .with_simple_exporter(exporter.clone())
        .build();

    let tracer = provider.tracer("getitdone/tests/span_linking");

    // Fake caller span context we want to link to.
    let tc = TraceContext::from_parts("00112233445566778899aabbccddeeff", "0011223344556677");
    let linked = tc.to_span_context().expect("valid span context");

    let handler_span = tracer
        .span_builder("worker.handler.test")
        .with_links(vec![Link::new(linked.clone(), Vec::new(), 0)])
        .start(&tracer);
    drop(handler_span);

    provider.force_flush().expect("force_flush");

    let spans = exporter.finished_spans();
    let exported = spans
        .iter()
        .find(|s| s.name.as_ref() == "worker.handler.test")
        .expect("exported span");

    assert!(
        exported
            .links
            .links
            .iter()
            .any(|l| l.span_context.trace_id().to_string() == tc.trace_id
                && l.span_context.span_id().to_string() == tc.span_id),
        "expected exported span to contain the linked SpanContext"
    );
}

#[test]
fn identifiers_and_flags_survive_the_way_through_a_document() {
    let span_context = SpanContext::new(
        TraceId::from_bytes([0, 1, 2, 3, 4, 5, 6, 7, 8, 9, 10, 11, 12, 13, 14, 255]),
        SpanId::from_bytes([0, 0, 0, 0, 0, 0, 0, 42]),
        TraceFlags::new(0x2b),
        false,
        TraceState::default(),
    );
    let stored = TraceContext::from_span_context(&span_context).expect("valid span");
    assert_eq!(stored.trace_id, "000102030405060708090a0b0c0d0eff");
    assert_eq!(stored.span_id, "000000000000002a");
    assert_eq!(stored.trace_flags, 0x2b);
    let rebuilt = stored.to_span_context().expect("rebuild");
    assert_eq!(rebuilt.trace_id(), span_context.trace_id());
    assert_eq!(rebuilt.span_id(), span_context.span_id());
    assert_eq!(rebuilt.trace_flags(), span_context.trace_flags());
    assert!(rebuilt.is_remote());
    assert_eq!(rebuilt.trace_state(), &TraceState::NONE);
}

#[test]
fn invalid_span_has_no_trace_context() {
    assert_eq!(TraceContext::from_span_context(&SpanContext::NONE), None);
    let no_span_id = SpanContext::new(
        TraceId::from_bytes([1; 16]),
        SpanId::INVALID,
        TraceFlags::SAMPLED,
        true,
        TraceState::default(),
    );
    assert_eq!(TraceContext::from_span_context(&no_span_id), None);
    let no_trace_id = SpanContext::new(
        TraceId::INVALID,
        SpanId::from_bytes([1; 8]),
        TraceFlags::SAMPLED,
        true,
        TraceState::default(),
    );
    assert_eq!(TraceContext::from_span_context(&no_trace_id), None);
}

#[test]
fn identifiers_that_are_no_hexadecimal_ids_name_no_span() {
    let (trace_id, span_id) = sample_ids();
    for (bad_trace, bad_span) in [
        ("", span_id),
        ("0011", span_id),
        ("00112233445566778899aabbccddeef", span_id),
        ("00112233445566778899aabbccddeefg", span_id),
        ("00112233445566778899aabbccddeeff00", span_id),
        ("ää112233445566778899aabbccddee", span_id),
        (trace_id, ""),
        (trace_id, "001122334455667"),
        (trace_id, "001122334455667z"),
        (trace_id, "00112233445566778899"),
    ] {
        assert!(TraceContext::from_parts(bad_trace, bad_span)
            .to_span_context()
            .is_none());
    }
    let upper = TraceContext::from_parts("00112233445566778899AABBCCDDEEFF", span_id);
    assert_eq!(
        upper.to_span_context().expect("either case").trace_id(),
        TraceId::from_hex(trace_id).unwrap()
    );
}

#[test]
fn without_an_active_span_nothing_is_captured() {
    assert_eq!(TraceContext::capture_current(), None);
}

#[test]
fn stored_document_has_the_three_identifiers() {
    let (trace_id, span_id) = sample_ids();
    let document = TraceContext::from_parts(trace_id, span_id).to_document();
    assert_eq!(document.get_str("trace_id").unwrap(), trace_id);
    assert_eq!(document.get_str("span_id").unwrap(), span_id);
    assert_eq!(document.get("trace_flags"), Some(&Bson::Int32(1)));
    assert_eq!(document.len(), 3);
}

#[test]
fn cloned_trace_context_is_the_same() {
    let (trace_id, span_id) = sample_ids();
    let ctx = TraceContext::from_parts_with_flags(trace_id, span_id, TraceFlags::new(7));
    assert_eq!(ctx.clone(), ctx);
    assert_eq!(TraceContext::default_trace_flags(), 1);
}
