use getitdone::TraceContext;
use opentelemetry::trace::{TraceContextExt, TracerProvider};
use opentelemetry_sdk::trace::SdkTracerProvider;
use tracing::callsite::{Callsite, Identifier};
use tracing::field::FieldSet;
use tracing::metadata::Kind;
use tracing::subscriber::Interest;
use tracing::{Level, Metadata, Span};
use tracing_opentelemetry::OpenTelemetrySpanExt;
use tracing_subscriber::layer::SubscriberExt;

struct CallerSite;

const SITE: &CallerSite = &CallerSite;

const META: &Metadata<'static> = &Metadata::new(
    "caller_root_span",
    "tests",
    Level::INFO,
    None,
    None,
    None,
    FieldSet::new(&[], Identifier(SITE)),
    Kind::SPAN,
);

impl Callsite for CallerSite {
    fn set_interest(&self, _interest: Interest) {}

    fn metadata(&self) -> &Metadata<'_> {
        META
    }
}

#[test]
fn active_span_is_captured() {
    let provider = SdkTracerProvider::builder().build();
    let tracer = provider.tracer("getitdone/tests/capture");
    let telemetry = tracing_opentelemetry::layer().with_tracer(tracer);
    let subscriber = tracing_subscriber::registry().with(telemetry);
    let _guard = tracing::subscriber::set_default(subscriber);

    let span = Span::new(META, &META.fields().value_set(&[]));
    let context = span.context();
    let active = context.span().span_context().clone();
    assert!(active.is_valid());

    let captured = span.in_scope(TraceContext::capture_current).expect("captured");
    assert_eq!(captured.trace_id, active.trace_id().to_string());
    assert_eq!(captured.span_id, active.span_id().to_string());
    assert_eq!(captured.trace_flags, active.trace_flags().to_u8());

    assert_eq!(TraceContext::capture_current(), None);
}
