use lean_rs::abi::string;
use lean_rs::abi::structure::alloc_ctor_with_objects;
use lean_rs::abi::traits::{IntoLean, LeanAbi, TryFromLean};
use lean_rs::host::capabilities::LoadOutcomes;
use lean_rs::host::meta::{LeanMetaOptions, LeanMetaResponse, LeanMetaService, MetaCallStatus};
use lean_rs::host::session::{
    BulkElabStep, BulkStep, CallReply, DeclarationQuestion, MetaStep, NameQuery, QueryStep,
};
use lean_rs::host::symbols::SymbolAnswers;
use lean_rs::module::args::CArg;
use lean_rs::module::exported::{ForeignCall, LeanIo};
use lean_rs::module::initializer::InitializerRun;
use lean_rs::module::library::InitializerCall;
use lean_rs::runtime::init::{InitRun, RuntimeCell};
use lean_rs::runtime::obj::{Obj, OpaqueKind};
use lean_rs::runtime::thread::AttachDepth;
use lean_rs::{
    EvidenceStatus, HostStage, LeanCapabilities, LeanElabFailure, LeanElabOptions, LeanError,
    LeanEvidence, LeanExpr, LeanHost, LeanKernelOutcome, LeanResult, LeanRuntime, LeanSession,
    SessionStats,
};

fn runtime() -> LeanRuntime {
    let mut cell = RuntimeCell::new();
    let mut depth = AttachDepth::new();
    LeanRuntime::init(&mut cell, Some(InitRun::Completed), true, "4.29.1", &mut depth)
        .expect("Lean runtime initialisation must succeed")
}

/// The smallest object file: an ELF header without sections.
fn empty_object() -> Vec<u8> {
    let mut file = vec![0x7f, b'E', b'L', b'F', 2, 1, 1, 0, 0, 0, 0, 0, 0, 0, 0, 0];
    file.extend_from_slice(&[3, 0, 62, 0, 1, 0, 0, 0]);
    file.extend_from_slice(&[0; 28]);
    file.extend_from_slice(&[64, 0, 0, 0, 0, 0, 64, 0, 0, 0, 0, 0]);
    file
}

fn all_symbols() -> SymbolAnswers {
    SymbolAnswers {
        session_import: Ok(1),
        name_from_string: Ok(2),
        env_query_declaration: Ok(3),
        env_query_declarations_bulk: Ok(4),
        env_list_declarations: Ok(5),
        env_declaration_type: Ok(6),
        env_declaration_kind: Ok(7),
        env_declaration_name: Ok(8),
        elaborate: Ok(9),
        elaborate_bulk: Ok(10),
        kernel_check: Ok(11),
        check_evidence: Ok(12),
        evidence_summary: Ok(13),
        meta_infer_type: Ok(14),
        meta_whnf: Err("undefined symbol".to_owned()),
        meta_heartbeat_burn: Ok(16),
    }
}

fn io_ok(value: Obj) -> Obj {
    alloc_ctor_with_objects(0, vec![value, Obj::Scalar(0)])
}

fn outcomes(symbols: SymbolAnswers) -> LoadOutcomes {
    LoadOutcomes {
        read: Ok(empty_object()),
        opened: Ok(()),
        initializer: InitializerCall::Ran(InitializerRun::Returned(io_ok(Obj::Scalar(0)))),
        symbols,
    }
}

fn fixture_host(runtime: &LeanRuntime) -> LeanHost<'_> {
    LeanHost::from_lake_project(runtime, "/work/fixtures/lean", true).expect("host opens cleanly")
}

fn load<'lean, 'h>(host: &'h LeanHost<'lean>) -> LeanCapabilities<'lean, 'h> {
    host.load_capabilities("lean_rs_fixture", "LeanRsFixture", false, outcomes(all_symbols()))
        .expect("capability dylib loads + symbols resolve")
}

fn reply(value: Obj, elapsed_nanos: u128) -> CallReply {
    CallReply { value, elapsed_nanos }
}

fn environment() -> Obj {
    string::from_str("the environment")
}

fn session<'lean, 'c>(caps: &'c LeanCapabilities<'lean, 'c>) -> LeanSession<'lean, 'c> {
    LeanSession::import_reply(caps, reply(io_ok(environment()), 1_000)).expect("session imports cleanly")
}

fn invoked(call: ForeignCall, expected: usize) -> Vec<CArg> {
    match call {
        ForeignCall::Invoke { address, args } => {
            assert_eq!(address, expected);
            args
        }
        other => panic!("unexpected {other:?}"),
    }
}

fn text(arg: &CArg) -> String {
    match arg {
        CArg::Object(obj) => string::borrow_str(obj).expect("string").to_owned(),
        other => panic!("unexpected {other:?}"),
    }
}

/// Runs the query of a declaration: checks its two calls, and gives `value` as the
/// result of the second.
fn answered<Q: DeclarationQuestion>(
    session: &mut LeanSession<'_, '_>,
    start: (NameQuery<Q>, ForeignCall),
    wanted: &str,
    target: usize,
    value: Obj,
) -> LeanResult<Q::Answer> {
    let (query, call) = start;
    let args = invoked(call, 2);
    assert_eq!((args.len(), text(&args[0]).as_str()), (1, wanted));
    let handle = format!("handle of {wanted}");
    let (query, call) = match session.query_reply(query, reply(string::from_str(&handle), 10)) {
        QueryStep::Call(query, call) => (query, call),
        QueryStep::Done(_) => panic!("the environment was not asked"),
    };
    let args = invoked(call, target);
    assert_eq!(args.len(), 2);
    assert_eq!(text(&args[0]), "the environment");
    assert_eq!(text(&args[1]), handle);
    match session.query_reply(query, reply(io_ok(value), 20)) {
        QueryStep::Done(outcome) => outcome,
        QueryStep::Call(_, call) => panic!("unexpected {call:?}"),
    }
}

fn some(obj: Obj) -> Obj {
    alloc_ctor_with_objects(1, vec![obj])
}

fn message<T>(r: Result<T, LeanError>, stage: HostStage) -> String {
    match r {
        Err(LeanError::Host(failure)) => {
            assert_eq!(failure.stage(), stage);
            failure.message().to_owned()
        }
        _ => panic!("expected a host failure"),
    }
}

#[test]
fn from_lake_project_missing_path_is_load_error() {
    let runtime = runtime();
    let err = LeanHost::from_lake_project(&runtime, "/does/not/exist/lean-rs-fixture", false)
        .expect_err("opening a nonexistent project root must fail");
    match err {
        LeanError::Host(failure) => {
            assert_eq!(failure.stage(), HostStage::Load);
            assert!(
                failure.message().contains("lean-rs-fixture"),
                "diagnostic must name the requested path, got: {:?}",
                failure.message(),
            );
        }
        other => panic!("expected Host(Load) failure, got {other:?}"),
    }
}

#[test]
fn load_capabilities_resolves_all_session_symbols() {
    let runtime = runtime();
    let host = fixture_host(&runtime);
    let caps = load(&host);
    assert_eq!(caps.symbols().session_import, 1);
    assert_eq!(caps.symbols().evidence_summary, 13);
    assert_eq!(caps.symbols().meta_address_by_name("lean_rs_host_meta_infer_type"), Some(14));
    assert_eq!(caps.symbols().meta_address_by_name("lean_rs_host_meta_whnf"), None);
    assert_eq!(caps.symbols().meta_address_by_name("lean_rs_host_meta_heartbeat_burn"), Some(16));
    assert_eq!(caps.symbols().meta_address_by_name("lean_rs_host_elaborate"), None);
}

#[test]
fn load_capabilities_missing_dylib_is_load_error() {
    let runtime = runtime();
    let host = fixture_host(&runtime);
    let mut outcomes = outcomes(all_symbols());
    outcomes.read = Err("No such file or directory".to_owned());
    let err = host
        .load_capabilities("does_not_exist", "NoSuchLib", false, outcomes)
        .expect_err("missing dylib must fail");
    match err {
        LeanError::Host(failure) => {
            assert_eq!(failure.stage(), HostStage::Load);
            assert!(
                failure.message().contains("NoSuchLib"),
                "diagnostic must name the requested library, got: {:?}",
                failure.message(),
            );
        }
        other => panic!("expected Host(Load) failure, got {other:?}"),
    }
}

#[test]
fn the_first_missing_mandatory_symbol_is_reported() {
    let runtime = runtime();
    let host = fixture_host(&runtime);
    let mut symbols = all_symbols();
    symbols.kernel_check = Err("undefined symbol".to_owned());
    symbols.check_evidence = Err("undefined symbol".to_owned());
    let r = host.load_capabilities("lean_rs_fixture", "LeanRsFixture", false, outcomes(symbols));
    let found = message(r, HostStage::Link);
    assert!(found.contains("'lean_rs_host_kernel_check'"), "{found}");
    assert!(found.contains("liblean__rs__fixture_LeanRsFixture.so"), "{found}");
}

#[test]
fn lake_layout_is_followed() {
    let runtime = runtime();
    let host = fixture_host(&runtime);
    assert_eq!(
        host.capability_dylib("lean_rs_fixture", "LeanRsFixture", true),
        "/work/fixtures/lean/.lake/build/lib/liblean__rs__fixture_LeanRsFixture.dylib"
    );
    assert_eq!(host.project().olean_search_path(), "/work/fixtures/lean/.lake/build/lib/lean");
    let slashed = LeanHost::from_lake_project(&runtime, "/p/", true).expect("host");
    assert_eq!(slashed.project().olean_search_path(), "/p/.lake/build/lib/lean");
}

#[test]
fn import_passes_the_search_path_and_is_not_counted() {
    let runtime = runtime();
    let host = fixture_host(&runtime);
    let caps = load(&host);
    let call = caps.session(vec!["LeanRsFixture.Handles".to_owned()]);
    let mut args = invoked(call, 1);
    assert_eq!(args.len(), 2);
    match args.pop() {
        Some(CArg::Object(obj)) => {
            let imports = Vec::<String>::try_from_lean(obj).expect("imports");
            assert_eq!(imports, vec!["LeanRsFixture.Handles".to_owned()]);
        }
        other => panic!("unexpected {other:?}"),
    }
    assert_eq!(text(&args[0]), "/work/fixtures/lean/.lake/build/lib/lean");
    let session = session(&caps);
    assert_eq!(session.stats(), SessionStats::default());
    assert_eq!(string::borrow_str(&session.into_environment()).expect("env"), "the environment");
}

#[test]
fn session_import_then_query_fixture_definition() {
    let runtime = runtime();
    let host = fixture_host(&runtime);
    let caps = load(&host);
    let mut session = session(&caps);
    let wanted = "LeanRsFixture.Handles.nameAnonymous";
    let start = session.query_declaration(wanted);
    answered(&mut session, start, wanted, 3, some(string::from_str("decl")))
        .expect("query existing fixture declaration");
    assert_eq!(
        session.stats(),
        SessionStats { ffi_calls: 2, batch_items: 0, elapsed_ns: 30 }
    );
}

#[test]
fn session_query_missing_declaration_is_host_error() {
    let runtime = runtime();
    let host = fixture_host(&runtime);
    let caps = load(&host);
    let mut session = session(&caps);
    let wanted = "This.Name.Does.Not.Exist";
    let start = session.query_declaration(wanted);
    let r = answered(&mut session, start, wanted, 3, Obj::Scalar(0));
    let found = message(r, HostStage::Conversion);
    assert!(
        found.contains("This.Name.Does.Not.Exist"),
        "diagnostic must name the missing declaration, got: {found:?}",
    );
    assert_eq!(session.stats().ffi_calls, 2);
}

#[test]
fn session_declaration_kind_discriminates() {
    let runtime = runtime();
    let host = fixture_host(&runtime);
    let caps = load(&host);
    let mut session = session(&caps);
    let wanted = "LeanRsFixture.Handles.nameAnonymous";
    let start = session.declaration_kind(wanted);
    let fixture_def_kind = answered(&mut session, start, wanted, 7, string::from_str("definition"))
        .expect("kind for fixture def");
    assert_eq!(fixture_def_kind, "definition", "fixture `def` must classify as definition");

    let start = session.declaration_kind("Nat");
    let nat_kind = answered(&mut session, start, "Nat", 7, string::from_str("inductive"))
        .expect("kind for Nat");
    assert_eq!(nat_kind, "inductive", "prelude `Nat` must classify as inductive");

    let wanted = "This.Name.Does.Not.Exist";
    let start = session.declaration_kind(wanted);
    let missing_kind = answered(&mut session, start, wanted, 7, string::from_str("missing"))
        .expect("kind query for absent name");
    assert_eq!(missing_kind, "missing", "absent name must classify as missing");
}

#[test]
fn session_declaration_type_returns_none_for_missing() {
    let runtime = runtime();
    let host = fixture_host(&runtime);
    let caps = load(&host);
    let mut session = session(&caps);
    let wanted = "This.Name.Does.Not.Exist";
    let start = session.declaration_type(wanted);
    let absent = answered(&mut session, start, wanted, 6, Obj::Scalar(0))
        .expect("type query for absent name");
    assert!(absent.is_none(), "missing name must yield None");
}

#[test]
fn session_declaration_type_round_trips_as_expr() {
    let runtime = runtime();
    let host = fixture_host(&runtime);
    let caps = load(&host);
    let mut session = session(&caps);
    let wanted = "LeanRsFixture.Handles.nameAnonymous";
    let start = session.declaration_type(wanted);
    let type_handle = answered(&mut session, start, wanted, 6, some(string::from_str("Name")))
        .expect("type query for fixture def")
        .expect("fixture def has a type");
    assert_eq!(string::borrow_str(&type_handle.into_c()).expect("carried"), "Name");
}

#[test]
fn session_declaration_name_renders_dotted_form() {
    let runtime = runtime();
    let host = fixture_host(&runtime);
    let caps = load(&host);
    let mut session = session(&caps);
    let wanted = "LeanRsFixture.Handles.nameAnonymous";
    let start = session.declaration_name(wanted);
    let rendered = answered(&mut session, start, wanted, 8, string::from_str(wanted))
        .expect("render name");
    assert!(
        rendered.contains("nameAnonymous"),
        "rendered name must contain the leaf component, got {rendered:?}",
    );
}

#[test]
fn queries_pass_on_what_lean_raises() {
    let runtime = runtime();
    let host = fixture_host(&runtime);
    let caps = load(&host);
    let mut session = session(&caps);
    let (query, _) = session.declaration_kind("x");
    let (query, _) = match session.query_reply(query, reply(string::from_str("x"), 1)) {
        QueryStep::Call(query, call) => (query, call),
        QueryStep::Done(_) => panic!("the environment was not asked"),
    };
    let raised = alloc_ctor_with_objects(18, vec![string::from_str("boom")]);
    let result = alloc_ctor_with_objects(1, vec![raised, Obj::Scalar(0)]);
    match session.query_reply(query, reply(result, 1)) {
        QueryStep::Done(Err(LeanError::LeanException(exc))) => assert_eq!(exc.message(), "boom"),
        _ => panic!("expected an exception"),
    }
    assert_eq!(session.stats().ffi_calls, 2);
}

#[test]
fn session_list_declarations_includes_prelude_and_fixture() {
    let runtime = runtime();
    let host = fixture_host(&runtime);
    let caps = load(&host);
    let mut session = session(&caps);
    assert_eq!(invoked(session.list_declarations(), 5).len(), 1);
    let names = Obj::Array(vec![string::from_str("Nat"), string::from_str("Eq")]);
    let names = session.list_declarations_reply(reply(io_ok(names), 1)).expect("list declarations");
    assert_eq!(names.len(), 2);
}

#[test]
fn elaborate_success_returns_expr() {
    let runtime = runtime();
    let host = fixture_host(&runtime);
    let caps = load(&host);
    let mut session = session(&caps);
    let options = LeanElabOptions::new().namespace_context("NS").heartbeat_limit(5);
    let args = invoked(session.elaborate("(1 + 2 : Nat)", None, &options), 9);
    assert_eq!(args.len(), 7);
    assert_eq!(text(&args[1]), "(1 + 2 : Nat)");
    assert!(matches!(&args[2], CArg::Object(Obj::Scalar(0))));
    assert_eq!(text(&args[3]), "NS");
    assert_eq!(text(&args[4]), "<elaborate>");
    assert!(matches!(&args[5], CArg::U64(5)));
    assert!(matches!(&args[6], CArg::Usize(65_536)));
    let ok = alloc_ctor_with_objects(1, vec![string::from_str("expr")]);
    let outcome = session.elaborate_reply(reply(io_ok(ok), 1)).expect("no exception");
    assert!(outcome.is_ok());
    let expected = LeanExpr::from_c(string::from_str("type")).expect("expr");
    let args = invoked(session.elaborate("x", Some(&expected), &options), 9);
    assert!(matches!(&args[2], CArg::Object(Obj::Ctor(ctor)) if ctor.tag == 1));
}

#[test]
fn elaborate_failure_carries_leans_account() {
    let runtime = runtime();
    let host = fixture_host(&runtime);
    let caps = load(&host);
    let mut session = session(&caps);
    let failed = alloc_ctor_with_objects(0, vec![string::from_str("diagnostics")]);
    let outcome = session.elaborate_reply(reply(io_ok(failed), 1)).expect("no exception");
    assert!(matches!(outcome, Err(LeanElabFailure::Reported(_))));
}

#[test]
fn kernel_check_small_theorem_returns_evidence() {
    let runtime = runtime();
    let host = fixture_host(&runtime);
    let caps = load(&host);
    let mut session = session(&caps);
    let src = "theorem lean_rs_smoke : 1 + 1 = 2 := rfl";
    let args = invoked(session.kernel_check(src, &LeanElabOptions::new()), 11);
    assert_eq!((args.len(), text(&args[1]).as_str()), (6, src));
    let checked = alloc_ctor_with_objects(0, vec![string::from_str("evidence")]);
    let outcome = session.kernel_check_reply(reply(io_ok(checked), 1)).expect("no exception");
    assert_eq!(outcome.status(), EvidenceStatus::Checked);
    match outcome {
        LeanKernelOutcome::Checked(evidence) => {
            let args = invoked(session.check_evidence(&evidence), 12);
            assert_eq!(text(&args[1]), "evidence");
            invoked(session.summarize_evidence(&evidence), 13);
        }
        other => panic!("expected Checked variant, got {other:?}"),
    }
    let status = session.check_evidence_reply(reply(io_ok(Obj::Scalar(1)), 1)).expect("status");
    assert_eq!(status, EvidenceStatus::Rejected);
    let bad = session.check_evidence_reply(reply(io_ok(Obj::Scalar(4)), 1));
    assert!(message(bad, HostStage::Conversion).contains("EvidenceStatus"));
}

#[test]
fn kernel_check_rejects_bad_proof() {
    let runtime = runtime();
    let host = fixture_host(&runtime);
    let caps = load(&host);
    let mut session = session(&caps);
    let src = "theorem lean_rs_bad : 1 = 2 := rfl";
    let args = invoked(session.kernel_check(src, &LeanElabOptions::new()), 11);
    assert_eq!((args.len(), text(&args[1]).as_str()), (6, src));
    let diagnostics = Obj::Array(vec![string::from_str("type mismatch")]);
    let rejected = alloc_ctor_with_objects(1, vec![diagnostics]);
    let outcome = session
        .kernel_check_reply(reply(io_ok(rejected), 1))
        .expect("host stack reports no exception");
    assert_eq!(
        outcome.status(),
        EvidenceStatus::Rejected,
        "kernel must reject a false proof, got {outcome:?}"
    );
    match outcome {
        LeanKernelOutcome::Rejected(LeanElabFailure::Reported(failure)) => {
            let diagnostics = Vec::<String>::try_from_lean(failure).expect("diagnostics");
            assert!(!diagnostics.is_empty(), "rejected proof must carry at least one diagnostic");
        }
        other => panic!("expected Rejected variant, got {other:?}"),
    }
    let bogus = session.kernel_check_reply(reply(io_ok(alloc_ctor_with_objects(4, vec![])), 1));
    assert!(message(bogus, HostStage::Conversion).contains("KernelOutcome"));
}

#[test]
fn summaries_decode_three_strings() {
    let runtime = runtime();
    let host = fixture_host(&runtime);
    let caps = load(&host);
    let mut session = session(&caps);
    let summary = alloc_ctor_with_objects(
        0,
        vec![string::from_str("foo"), string::from_str("theorem"), string::from_str("1 = 1")],
    );
    let summary = session.summarize_evidence_reply(reply(io_ok(summary), 1)).expect("summary");
    assert_eq!(summary.declaration_name(), "foo");
    assert_eq!(summary.kind(), "theorem");
    assert_eq!(summary.clone().type_signature(), "1 = 1");
    let short = alloc_ctor_with_objects(0, vec![string::from_str("foo")]);
    let r = session.summarize_evidence_reply(reply(io_ok(short), 1));
    assert_eq!(
        message(r, HostStage::Conversion),
        "expected Lean ProofSummary ctor with 3 object field(s), found 1"
    );
    assert!(LeanEvidence::from_c(Obj::Scalar(0)).is_ok());
}

#[test]
fn bulk_queries_take_one_call_more_than_names() {
    let runtime = runtime();
    let host = fixture_host(&runtime);
    let caps = load(&host);
    let mut session = session(&caps);
    let names = vec!["a".to_owned(), "b".to_owned(), "c".to_owned()];
    let mut step = session.query_declarations_bulk(names);
    let mut calls = 0;
    let found = loop {
        match step {
            BulkStep::Call(query, call) => {
                calls += 1;
                let value = if calls <= 3 {
                    let args = invoked(call, 2);
                    string::from_str(&format!("name {}", text(&args[0])))
                } else {
                    let mut args = invoked(call, 4);
                    match args.pop() {
                        Some(CArg::Object(Obj::Array(handles))) => {
                            let shown: Vec<String> = handles
                                .into_iter()
                                .map(|h| String::try_from_lean(h).expect("name"))
                                .collect();
                            assert_eq!(shown, vec!["name a", "name b", "name c"]);
                        }
                        other => panic!("unexpected {other:?}"),
                    }
                    let slots = vec![some(Obj::Scalar(1)), some(Obj::Scalar(2)), some(Obj::Scalar(3))];
                    io_ok(Obj::Array(slots))
                };
                step = session.query_declarations_bulk_reply(query, reply(value, 5));
            }
            BulkStep::Done(outcome) => break outcome.expect("all found"),
        }
    };
    assert_eq!(found.len(), 3);
    assert_eq!(
        session.stats(),
        SessionStats { ffi_calls: 4, batch_items: 3, elapsed_ns: 20 }
    );
}

#[test]
fn bulk_queries_name_the_first_missing_declaration() {
    let runtime = runtime();
    let host = fixture_host(&runtime);
    let caps = load(&host);
    let mut session = session(&caps);
    let mut step = session.query_declarations_bulk(vec!["a".to_owned(), "b".to_owned()]);
    let mut calls = 0;
    let outcome = loop {
        match step {
            BulkStep::Call(query, _) => {
                calls += 1;
                let value = if calls <= 2 {
                    Obj::Scalar(0)
                } else {
                    io_ok(Obj::Array(vec![some(Obj::Scalar(1)), Obj::Scalar(0)]))
                };
                step = session.query_declarations_bulk_reply(query, reply(value, 0));
            }
            BulkStep::Done(outcome) => break outcome,
        }
    };
    assert_eq!(
        message(outcome, HostStage::Conversion),
        "declaration 'b' not found in imported environment"
    );
    match session.query_declarations_bulk(vec![]) {
        BulkStep::Done(Ok(found)) => assert!(found.is_empty()),
        other => panic!("unexpected {other:?}"),
    }
}

#[test]
fn bulk_elaboration_is_one_call() {
    let runtime = runtime();
    let host = fixture_host(&runtime);
    let caps = load(&host);
    let mut session = session(&caps);
    let options = LeanElabOptions::new();
    match session.elaborate_bulk(vec![], &options) {
        BulkElabStep::Done(outcomes) => assert!(outcomes.is_empty()),
        BulkElabStep::Call(_, call) => panic!("unexpected {call:?}"),
    }
    assert_eq!(session.stats().ffi_calls, 0);
    let (pending, call) = match session.elaborate_bulk(vec!["1".to_owned(), "2".to_owned()], &options) {
        BulkElabStep::Call(pending, call) => (pending, call),
        BulkElabStep::Done(_) => panic!("a call is due"),
    };
    assert_eq!(invoked(call, 10).len(), 6);
    let outcomes = Obj::Array(vec![
        alloc_ctor_with_objects(1, vec![Obj::Scalar(1)]),
        alloc_ctor_with_objects(0, vec![Obj::Scalar(2)]),
    ]);
    let outcomes = session.elaborate_bulk_reply(pending, reply(io_ok(outcomes), 9)).expect("outcomes");
    assert!(outcomes[0].is_ok() && outcomes[1].is_err());
    assert_eq!(
        session.stats(),
        SessionStats { ffi_calls: 1, batch_items: 2, elapsed_ns: 9 }
    );
}

#[test]
fn bulk_elaboration_gives_what_single_elaborations_give() {
    let runtime = runtime();
    let host = fixture_host(&runtime);
    let caps = load(&host);
    let mut session = session(&caps);
    let element = |i: usize| alloc_ctor_with_objects((i % 2) as u8, vec![Obj::Scalar(i)]);
    let sources = vec!["a".to_owned(), "b".to_owned(), "c".to_owned()];
    let pending = match session.elaborate_bulk(sources, &LeanElabOptions::new()) {
        BulkElabStep::Call(pending, _) => pending,
        BulkElabStep::Done(_) => panic!("a call is due"),
    };
    let array = Obj::Array(vec![element(0), element(1), element(2)]);
    let bulk = session.elaborate_bulk_reply(pending, reply(io_ok(array), 1)).expect("outcomes");
    assert_eq!(bulk.len(), 3);
    for (i, outcome) in bulk.into_iter().enumerate() {
        let single = session.elaborate_reply(reply(io_ok(element(i)), 1)).expect("outcome");
        let carried = |r: Result<LeanExpr, LeanElabFailure>| match r {
            Ok(expr) => (true, usize_of(expr.into_c())),
            Err(LeanElabFailure::Reported(obj)) => (false, usize_of(obj)),
            Err(other) => panic!("unexpected {other:?}"),
        };
        let single = carried(single);
        assert_eq!(single, (i % 2 == 1, i));
        assert_eq!(carried(outcome), single);
    }
}

fn usize_of(obj: Obj) -> usize {
    match obj {
        Obj::Scalar(payload) => payload,
        other => panic!("unexpected {other:?}"),
    }
}

/// The reference in an environment that [`environment_with`] made.
fn reference_in(arg: &CArg) -> usize {
    match arg {
        CArg::Object(Obj::Ctor(ctor)) => match &ctor.objects[1] {
            Obj::Opaque { kind: OpaqueKind::Task, reference } => *reference,
            other => panic!("unexpected {other:?}"),
        },
        other => panic!("unexpected {other:?}"),
    }
}

fn environment_with(reference: usize) -> Obj {
    let task = Obj::Opaque { kind: OpaqueKind::Task, reference };
    alloc_ctor_with_objects(0, vec![string::from_str("constants"), task])
}

#[test]
fn sessions_hand_over_the_environment_that_they_received() {
    let runtime = runtime();
    let host = fixture_host(&runtime);
    let caps = load(&host);
    let options = LeanElabOptions::new();
    for reference in [7, 8] {
        let mut session =
            LeanSession::import_reply(&caps, reply(io_ok(environment_with(reference)), 1)).expect("imports");
        assert_eq!(reference_in(&invoked(session.list_declarations(), 5)[0]), reference);
        assert_eq!(reference_in(&invoked(session.elaborate("x", None, &options), 9)[0]), reference);
        assert_eq!(reference_in(&invoked(session.kernel_check("x", &options), 11)[0]), reference);
        let evidence = LeanEvidence::from_c(Obj::Opaque { kind: OpaqueKind::Ref, reference: 3 })
            .expect("evidence");
        for (call, target) in
            [(session.check_evidence(&evidence), 12), (session.summarize_evidence(&evidence), 13)]
        {
            let args = invoked(call, target);
            assert_eq!(reference_in(&args[0]), reference);
            assert!(matches!(
                &args[1],
                CArg::Object(Obj::Opaque { kind: OpaqueKind::Ref, reference: 3 })
            ));
        }
        match session.elaborate_bulk(vec!["x".to_owned()], &options) {
            BulkElabStep::Call(_, call) => assert_eq!(reference_in(&invoked(call, 10)[0]), reference),
            BulkElabStep::Done(_) => panic!("a call is due"),
        }
        let infer: LeanMetaService<LeanExpr, LeanExpr> =
            LeanMetaService::new("lean_rs_host_meta_infer_type");
        let expr = LeanExpr::from_c(Obj::Scalar(0)).expect("expr");
        match session.run_meta(&infer, expr, &LeanMetaOptions::new()) {
            MetaStep::Call(_, call) => assert_eq!(reference_in(&invoked(call, 14)[0]), reference),
            MetaStep::Done(response) => panic!("unexpected {response:?}"),
        }
        let (query, _) = session.declaration_kind("x");
        match session.query_reply(query, reply(Obj::Scalar(0), 1)) {
            QueryStep::Call(_, call) => assert_eq!(reference_in(&invoked(call, 7)[0]), reference),
            QueryStep::Done(_) => panic!("the environment was not asked"),
        }
        let BulkStep::Call(query, _) = session.query_declarations_bulk(vec!["x".to_owned()]) else {
            panic!("a call is due");
        };
        match session.query_declarations_bulk_reply(query, reply(Obj::Scalar(0), 1)) {
            BulkStep::Call(_, call) => assert_eq!(reference_in(&invoked(call, 4)[0]), reference),
            BulkStep::Done(_) => panic!("the environment was not asked"),
        }
    }
}

#[test]
fn meta_services_are_bounded_and_optional() {
    let runtime = runtime();
    let host = fixture_host(&runtime);
    let caps = load(&host);
    let mut session = session(&caps);
    let options = LeanMetaOptions::new();
    let whnf: LeanMetaService<LeanExpr, LeanExpr> = LeanMetaService::new("lean_rs_host_meta_whnf");
    let expr = || LeanExpr::from_c(string::from_str("e")).expect("expr");
    match session.run_meta(&whnf, expr(), &options) {
        MetaStep::Done(response) => {
            assert_eq!(response.status(), MetaCallStatus::Unsupported);
            match response {
                LeanMetaResponse::Unsupported(LeanElabFailure::Synthetic { message, file }) => {
                    assert_eq!(
                        message,
                        "meta service 'lean_rs_host_meta_whnf' is not exported by the loaded capability"
                    );
                    assert_eq!(file, "<host>");
                }
                other => panic!("unexpected {other:?}"),
            }
        }
        MetaStep::Call(_, call) => panic!("unexpected {call:?}"),
    }
    assert_eq!(session.stats().ffi_calls, 0);
    let infer: LeanMetaService<LeanExpr, LeanExpr> = LeanMetaService::new("lean_rs_host_meta_infer_type");
    let pending = || match session.run_meta(&infer, expr(), &options) {
        MetaStep::Call(pending, call) => {
            let args = invoked(call, 14);
            assert_eq!(text(&args[1]), "e");
            assert!(matches!(&args[4], CArg::U8(0)));
            pending
        }
        MetaStep::Done(response) => panic!("unexpected {response:?}"),
    };
    let mut calls = vec![pending(), pending(), pending(), pending(), pending()];
    let statuses = [
        MetaCallStatus::Completed,
        MetaCallStatus::Failed,
        MetaCallStatus::TimeoutOrHeartbeat,
        MetaCallStatus::Unsupported,
    ];
    for (tag, status) in statuses.into_iter().enumerate() {
        let obj = alloc_ctor_with_objects(tag as u8, vec![Obj::Scalar(0)]);
        let call = calls.pop().expect("a call was built");
        let response = session.run_meta_reply(call, reply(io_ok(obj), 1)).expect("response decodes");
        assert_eq!(response.status(), status);
    }
    let call = calls.pop().expect("a call was built");
    let bad = session.run_meta_reply(call, reply(io_ok(alloc_ctor_with_objects(4, vec![])), 1));
    assert_eq!(
        message(bad, HostStage::Conversion),
        "expected Lean MetaResponse ctor (tag 0..=3), found tag 4"
    );
}

#[test]
fn capabilities_are_called_by_name() {
    let runtime = runtime();
    let host = fixture_host(&runtime);
    let caps = load(&host);
    let mut session = session(&caps);
    let (pending, call) = session
        .call_capability::<(u64, String), LeanIo<u64>>("f", (7, "x".to_owned()), Ok(99))
        .expect("call");
    let args = invoked(call, 99);
    assert!(matches!(&args[0], CArg::U64(7)));
    let value = session
        .call_capability_reply(pending, io_ok(8_u64.into_lean()), 3)
        .expect("value");
    assert_eq!(value, 8);
    assert_eq!(session.stats().ffi_calls, 1);
    let r = session.call_capability::<(), u8>("g", (), Err("undefined symbol".to_owned()));
    assert!(message(r, HostStage::Link).contains("unknown exported symbol 'g'"));
}

#[test]
fn stats_saturate() {
    let runtime = runtime();
    let host = fixture_host(&runtime);
    let caps = load(&host);
    let mut session = session(&caps);
    session.record_call(u64::MAX, u128::MAX);
    session.record_call(1, 1);
    assert_eq!(
        session.stats(),
        SessionStats { ffi_calls: 2, batch_items: u64::MAX, elapsed_ns: u64::MAX }
    );
}
