use lean_rs::error::init::{self, InitError, INIT_ERROR_MESSAGE_LIMIT};
use lean_rs::error::io::{classify_io_error, exception_kind, KIND_TABLE_LEN};
use lean_rs::error::panic_guard::{catch_callback_panic, CallbackRun};
use lean_rs::error::redact::short_path;
use lean_rs::error::{bound_message, host_module_init, PanicPayload};
use lean_rs::runtime::obj::{Ctor, Obj};
use lean_rs::{
    HostStage, LeanDiagnosticCode, LeanError, LeanExceptionKind, LEAN_ERROR_MESSAGE_LIMIT,
};

#[test]
fn bound_message_passes_short_strings_through() {
    let short = "hello";
    assert_eq!(init::bound_message(short, 16), "hello");
}

#[test]
fn bound_message_truncates_on_char_boundary() {
    let s = "\u{1F600}\u{1F600}\u{1F600}";
    let bounded = init::bound_message(s, 5);
    assert!(bounded.len() <= 5);
    assert!(bounded.is_char_boundary(bounded.len()));
    assert_eq!(bounded, "\u{1F600}");
    assert_eq!(init::bound_message(s, 3), "");
    assert_eq!(init::bound_message(s, 12), s);
}

#[test]
fn bounding_is_idempotent() {
    let once = bound_message("é".repeat(3000));
    assert_eq!(once.len(), 4096);
    assert_eq!(bound_message(once.clone()), once);
    let odd = bound_message(format!("x{}", "é".repeat(3000)));
    assert_eq!(odd.len(), 4095);
}

#[test]
fn runtime_panic_renders_str_payload() {
    let err = InitError::runtime_panic(&PanicPayload::StaticStr("boom"));
    match err {
        InitError::RuntimePanic { message } => assert_eq!(message, "boom"),
        _ => unreachable!(),
    }
}

#[test]
fn runtime_panic_renders_string_payload() {
    let err = InitError::runtime_panic(&PanicPayload::Owned(String::from("kaboom")));
    match err {
        InitError::RuntimePanic { message } => assert_eq!(message, "kaboom"),
        _ => unreachable!(),
    }
}

#[test]
fn runtime_panic_bounds_oversize_payload() {
    let payload = PanicPayload::Owned("x".repeat(INIT_ERROR_MESSAGE_LIMIT.saturating_add(1024)));
    match InitError::runtime_panic(&payload) {
        InitError::RuntimePanic { message } => assert!(message.len() <= INIT_ERROR_MESSAGE_LIMIT),
        _ => unreachable!(),
    }
}

#[test]
fn runtime_panic_renders_opaque_payload() {
    match InitError::runtime_panic(&PanicPayload::Opaque) {
        InitError::RuntimePanic { message } => {
            assert_eq!(message, "Lean runtime initialization panicked with a non-string payload")
        }
        _ => unreachable!(),
    }
}

#[test]
fn lean_error_displays_init_failure() {
    let err = init::LeanError::from(InitError::RuntimePanic { message: "boom".into() });
    let rendered = err.render();
    assert!(rendered.contains("Lean runtime initialization panicked"));
    assert!(rendered.contains("boom"));
    assert_eq!(rendered, "lean-rs: Lean runtime initialization panicked: boom");
}

#[test]
fn kind_table_length_matches_known_constructor_count() {
    assert_eq!(KIND_TABLE_LEN, 19);
    assert_eq!(exception_kind(0), LeanExceptionKind::AlreadyExists);
    assert_eq!(exception_kind(18), LeanExceptionKind::UserError);
    assert_eq!(exception_kind(19), LeanExceptionKind::Other);
}

#[test]
fn io_errors_are_classified_by_tag_and_last_string_field() {
    let (kind, message) = classify_io_error(&Obj::Scalar(4));
    assert_eq!(kind, LeanExceptionKind::Other);
    assert_eq!(message, "<Lean IO error: scalar-encoded constructor>");

    let err = Obj::Ctor(Ctor {
        tag: 11,
        objects: vec![Obj::Str(b"path".to_vec()), Obj::Str(b"no such \xFF file".to_vec())],
        scalars: vec![],
    });
    let (kind, message) = classify_io_error(&err);
    assert_eq!(kind, LeanExceptionKind::NoFileOrDirectory);
    assert_eq!(message, "no such \u{FFFD} file");

    let bare = Obj::Ctor(Ctor { tag: 17, objects: vec![], scalars: vec![] });
    let (kind, message) = classify_io_error(&bare);
    assert_eq!(kind, LeanExceptionKind::UnexpectedEof);
    assert_eq!(message, "<Lean IO error: constructor tag 17>");

    let unknown = Obj::Ctor(Ctor {
        tag: 19,
        objects: vec![Obj::Str(b"detail".to_vec())],
        scalars: vec![],
    });
    let (kind, message) = classify_io_error(&unknown);
    assert_eq!(kind, LeanExceptionKind::Other);
    assert_eq!(message, "<Lean IO error: constructor tag 19>");
}

#[test]
fn short_path_keeps_three_tail_components() {
    assert_eq!(short_path("/Users/me/lake/build/lib/lib.dylib"), "build/lib/lib.dylib",);
}

#[test]
fn short_path_handles_short_input() {
    assert_eq!(short_path("lib.dylib"), "lib.dylib");
    assert_eq!(short_path("/tmp/lib.dylib"), "tmp/lib.dylib");
}

#[test]
fn short_path_empty_path_falls_back_to_placeholder() {
    assert_eq!(short_path(""), "<unknown>");
}

#[test]
fn short_path_normalises_components() {
    assert_eq!(short_path("./a//b/./c/"), "a/b/c");
    assert_eq!(short_path("./a/b"), "./a/b");
    assert_eq!(short_path("../a"), "../a");
    assert_eq!(short_path("/"), "/");
    assert_eq!(short_path(&"y".repeat(5000)).len(), LEAN_ERROR_MESSAGE_LIMIT);
}

#[test]
fn host_constructor_bounds_oversize_message() {
    let oversize = "x".repeat(LEAN_ERROR_MESSAGE_LIMIT + 1024);
    let LeanError::Host(host) = LeanError::abi_conversion(oversize) else {
        panic!("expected Host variant");
    };
    assert!(host.message().len() <= LEAN_ERROR_MESSAGE_LIMIT);
    assert_eq!(host.stage(), HostStage::Conversion);
    assert_eq!(host.code(), LeanDiagnosticCode::AbiConversion);
}

#[test]
fn host_constructor_passes_short_message_through() {
    let LeanError::Host(host) = LeanError::abi_conversion("ok".to_owned()) else {
        panic!("expected Host variant");
    };
    assert_eq!(host.message(), "ok");
    assert_eq!(host.stage(), HostStage::Conversion);
    assert_eq!(host.code(), LeanDiagnosticCode::AbiConversion);
}

#[test]
fn lean_error_code_projects_from_variant() {
    assert_eq!(LeanError::linking("x".to_owned()).code(), LeanDiagnosticCode::Linking);
    assert_eq!(LeanError::module_init("x".to_owned()).code(), LeanDiagnosticCode::ModuleInit);
    assert_eq!(LeanError::symbol_lookup("x".to_owned()).code(), LeanDiagnosticCode::SymbolLookup);
    assert_eq!(LeanError::runtime_init("x".to_owned()).code(), LeanDiagnosticCode::RuntimeInit);
    assert_eq!(
        LeanError::lean_exception(LeanExceptionKind::UserError, "x".to_owned()).code(),
        LeanDiagnosticCode::LeanException,
    );
    assert_eq!(host_module_init("x".to_owned()).code(), LeanDiagnosticCode::ModuleInit);
    assert_eq!(LeanError::internal("x".to_owned()).code(), LeanDiagnosticCode::Internal);
}

#[test]
fn diagnostic_code_as_str_is_stable() {
    assert_eq!(LeanDiagnosticCode::RuntimeInit.as_str(), "lean_rs.runtime_init");
    assert_eq!(LeanDiagnosticCode::Linking.as_str(), "lean_rs.linking");
    assert_eq!(LeanDiagnosticCode::ModuleInit.as_str(), "lean_rs.module_init");
    assert_eq!(LeanDiagnosticCode::SymbolLookup.as_str(), "lean_rs.symbol_lookup");
    assert_eq!(LeanDiagnosticCode::AbiConversion.as_str(), "lean_rs.abi_conversion");
    assert_eq!(LeanDiagnosticCode::LeanException.as_str(), "lean_rs.lean_exception");
    assert_eq!(LeanDiagnosticCode::Elaboration.as_str(), "lean_rs.elaboration");
    assert_eq!(LeanDiagnosticCode::Unsupported.as_str(), "lean_rs.unsupported");
    assert_eq!(LeanDiagnosticCode::Internal.as_str(), "lean_rs.internal");
}

#[test]
fn diagnostic_codes_describe_themselves() {
    assert_eq!(LeanDiagnosticCode::Linking.description(), "a linkable artefact was missing or mismatched");
    assert_eq!(
        LeanDiagnosticCode::Internal.description(),
        "a pub(crate) invariant tripped — likely a bug in lean-rs"
    );
}

#[test]
fn lean_exception_constructor_bounds_oversize_message() {
    let oversize: String = "\u{1F600}".repeat(LEAN_ERROR_MESSAGE_LIMIT / 2);
    let LeanError::LeanException(exc) =
        LeanError::lean_exception(LeanExceptionKind::UserError, oversize)
    else {
        panic!("expected LeanException variant");
    };
    assert!(exc.message().len() <= LEAN_ERROR_MESSAGE_LIMIT);
    assert!(exc.message().is_char_boundary(exc.message().len()));
    assert_eq!(exc.kind(), LeanExceptionKind::UserError);
}

#[test]
fn lean_error_display_includes_stage_and_message() {
    let err = LeanError::runtime_init("boom".to_owned());
    let rendered = err.render();
    assert!(rendered.starts_with("lean-rs:"), "got {rendered:?}");
    assert!(rendered.contains("RuntimeInit"), "got {rendered:?}");
    assert!(rendered.contains("boom"), "got {rendered:?}");
    assert!(
        rendered.contains("lean_rs.runtime_init"),
        "expected diagnostic code in render, got {rendered:?}"
    );
    assert_eq!(rendered, "lean-rs: host stage RuntimeInit [lean_rs.runtime_init]: boom");
}

#[test]
fn lean_error_display_includes_kind_and_message() {
    let err = LeanError::lean_exception(LeanExceptionKind::UserError, "kaboom".to_owned());
    let rendered = err.render();
    assert!(rendered.starts_with("lean-rs:"), "got {rendered:?}");
    assert!(rendered.contains("UserError"), "got {rendered:?}");
    assert!(rendered.contains("kaboom"), "got {rendered:?}");
    assert_eq!(err.clone().render(), "lean-rs: Lean threw UserError: kaboom");
}

fn panicked(payload: PanicPayload) -> lean_rs::HostFailure {
    let err = catch_callback_panic::<()>(CallbackRun::Panicked(payload)).expect_err("closure panicked");
    let LeanError::Host(host) = err else {
        panic!("expected Host");
    };
    host
}

#[test]
fn catch_callback_panic_returns_ok_when_closure_returns_ok() {
    let outcome: LeanError = match catch_callback_panic(CallbackRun::Returned(Ok::<u32, _>(7))) {
        Ok(value) => {
            assert_eq!(value, 7);
            return;
        }
        Err(e) => e,
    };
    panic!("expected Ok, got {outcome:?}");
}

#[test]
fn catch_callback_panic_propagates_explicit_lean_error() {
    let run = CallbackRun::Returned(Err::<(), _>(LeanError::abi_conversion("explicit".to_owned())));
    let err = catch_callback_panic(run).expect_err("closure returned Err; helper should pass it through");
    let LeanError::Host(host) = err else {
        panic!("expected Host");
    };
    assert_eq!(host.stage(), HostStage::Conversion);
    assert_eq!(host.message(), "explicit");
}

#[test]
fn catch_callback_panic_converts_str_payload_into_callback_panic() {
    let host = panicked(PanicPayload::StaticStr("boom"));
    assert_eq!(host.stage(), HostStage::CallbackPanic);
    assert!(host.message().contains("boom"), "got {:?}", host.message());
}

#[test]
fn catch_callback_panic_converts_string_payload_into_callback_panic() {
    let host = panicked(PanicPayload::Owned(format!("dynamic: {}", 42)));
    assert_eq!(host.stage(), HostStage::CallbackPanic);
    assert!(host.message().contains("dynamic: 42"), "got {:?}", host.message());
}

#[test]
fn catch_callback_panic_bounds_oversize_panic_payload() {
    let huge: String = "x".repeat(LEAN_ERROR_MESSAGE_LIMIT + 4096);
    let host = panicked(PanicPayload::Owned(huge));
    assert!(host.message().len() <= LEAN_ERROR_MESSAGE_LIMIT);
}

#[test]
fn catch_callback_panic_handles_non_string_payload() {
    let host = panicked(PanicPayload::Opaque);
    assert_eq!(host.stage(), HostStage::CallbackPanic);
    assert!(
        !host.message().is_empty(),
        "non-string panic payloads must still surface a non-empty diagnostic",
    );
    assert_eq!(host.message(), "panic payload was not a string");
    assert!(host.message().len() <= LEAN_ERROR_MESSAGE_LIMIT);
}

#[test]
fn catch_callback_panic_loop_remains_independent() {
    for i in 0..512 {
        let expected = format!("iter {i}");
        let host = panicked(PanicPayload::Owned(expected.clone()));
        assert_eq!(host.stage(), HostStage::CallbackPanic);
        assert!(host.message().contains(&expected));
    }
}

#[test]
fn version_constant_matches_package() {
    assert_eq!(lean_rs::VERSION, "0.1.2");
}
