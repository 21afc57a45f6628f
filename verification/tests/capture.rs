use lean_rs::error::capture::{level_str, parse_code_str, TraceLevel};
use lean_rs::{DiagnosticCapture, LeanDiagnosticCode, DIAGNOSTIC_CAPTURE_DEFAULT_CAPACITY};

fn field(name: &'static str, value: &str) -> (&'static str, String) {
    (name, value.to_owned())
}

fn info(capture: &mut DiagnosticCapture, target: &str, fields: Vec<(&'static str, String)>) {
    capture.on_event(target, TraceLevel::Info, "event", None, None, &fields);
}

#[test]
fn captures_lean_rs_event() {
    let mut capture = DiagnosticCapture::install();
    info(
        &mut capture,
        "lean_rs",
        vec![field("message", "linker failed"), field("code", "lean_rs.linking")],
    );
    let events = capture.events();
    assert!(
        events
            .iter()
            .any(|e| e.code == Some(LeanDiagnosticCode::Linking) && e.message == "linker failed"),
        "expected one linking event, got {events:?}",
    );
    assert_eq!(events[0].level, "info");
    assert!(events[0].fields.is_empty());
    assert_eq!(capture.capacity(), DIAGNOSTIC_CAPTURE_DEFAULT_CAPACITY);
}

#[test]
fn ignores_other_targets() {
    let mut capture = DiagnosticCapture::install();
    info(&mut capture, "some_other_crate", vec![field("message", "boring")]);
    capture.on_new_span("other", TraceLevel::Info, "span", &vec![]);
    assert!(capture.events().is_empty());
}

#[test]
fn captures_span_open() {
    let mut capture = DiagnosticCapture::install();
    capture.on_new_span("lean_rs", TraceLevel::Info, "lean_rs.host.session.import", &vec![]);
    let events = capture.events();
    assert!(
        events
            .iter()
            .any(|e| e.span.as_deref() == Some("lean_rs.host.session.import")),
        "expected a span_open record, got {events:?}",
    );
    assert_eq!(events[0].name, "span_open");
}

#[test]
fn bounded_buffer_drops_oldest() {
    let mut capture = DiagnosticCapture::with_capacity(2);
    for text in ["one", "two", "three"] {
        info(&mut capture, "lean_rs", vec![field("message", text)]);
    }
    let events = capture.events();
    assert_eq!(events.len(), 2);
    let messages: Vec<&str> = events.iter().map(|e| e.message.as_str()).collect();
    assert_eq!(messages, ["two", "three"]);
    assert_eq!(capture.overflowed(), 1);
}

#[test]
fn capacity_is_at_least_one() {
    let mut capture = DiagnosticCapture::with_capacity(0);
    assert_eq!(capture.capacity(), 1);
    info(&mut capture, "lean_rs::host", vec![field("message", "a")]);
    info(&mut capture, "lean_rs::host", vec![field("message", "b")]);
    assert_eq!(capture.events().len(), 1);
    assert_eq!(capture.overflowed(), 1);
}

#[test]
fn events_prefer_their_own_span() {
    let mut capture = DiagnosticCapture::install();
    let own = Some("own".to_owned());
    let current = Some("current".to_owned());
    capture.on_event("lean_rs", TraceLevel::Warn, "e", own, current.clone(), &vec![]);
    capture.on_event("lean_rs", TraceLevel::Debug, "e", None, current, &vec![]);
    let spans: Vec<Option<String>> = capture.events().into_iter().map(|e| e.span).collect();
    assert_eq!(spans, vec![Some("own".to_owned()), Some("current".to_owned())]);
}

#[test]
fn unknown_codes_are_left_out() {
    let mut capture = DiagnosticCapture::install();
    info(
        &mut capture,
        "lean_rs",
        vec![field("code", "E0001"), field("shape", "string"), field("message", "")],
    );
    let event = capture.events().remove(0);
    assert_eq!(event.code, None);
    assert_eq!(event.message, "");
    let fields: Vec<(&str, &str)> = event.fields.iter().map(|f| (f.0, f.1.as_str())).collect();
    assert_eq!(fields, vec![("shape", "string")]);
}

#[test]
fn codes_parse_by_identifier_and_by_name() {
    let codes = [
        LeanDiagnosticCode::RuntimeInit,
        LeanDiagnosticCode::Linking,
        LeanDiagnosticCode::ModuleInit,
        LeanDiagnosticCode::SymbolLookup,
        LeanDiagnosticCode::AbiConversion,
        LeanDiagnosticCode::LeanException,
        LeanDiagnosticCode::Elaboration,
        LeanDiagnosticCode::Unsupported,
        LeanDiagnosticCode::Internal,
    ];
    for code in codes {
        assert_eq!(parse_code_str(code.as_str()), Some(code));
        assert_eq!(parse_code_str(&format!("{:?}", code.as_str())), Some(code));
        assert_eq!(parse_code_str(&format!("{code:?}")), Some(code));
    }
    assert_eq!(parse_code_str("lean_rs.other"), None);
    assert_eq!(parse_code_str("\"\""), None);
}

#[test]
fn levels_have_lower_case_names() {
    assert_eq!(level_str(TraceLevel::Error), "error");
    assert_eq!(level_str(TraceLevel::Warn), "warn");
    assert_eq!(level_str(TraceLevel::Info), "info");
    assert_eq!(level_str(TraceLevel::Debug), "debug");
    assert_eq!(level_str(TraceLevel::Trace), "trace");
}
