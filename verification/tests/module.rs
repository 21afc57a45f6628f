use lean_rs::abi::string;
use lean_rs::abi::structure::alloc_ctor_with_objects;
use lean_rs::error::PanicPayload;
use lean_rs::host::capabilities::LoadOutcomes;
use lean_rs::host::symbols::SymbolAnswers;
use lean_rs::module::bundle::{BundleAction, BundleEvent, BundleStep, LeanLibraryBundle};
use lean_rs::module::capability::{LeanCapability, LeanCheckedExportError};
use lean_rs::module::args::CArg;
use lean_rs::module::exported::{CallableTarget, ForeignCall, LeanExported, LeanIo};
use lean_rs::module::initializer::{InitializerName, InitializerRun};
use lean_rs::module::library::{classify_globals, InitializerCall, LeanLibrary};
use lean_rs::module::loader::{LeanLoaderCheck, LeanLoaderDiagnosticCode, LeanLoaderReport};
use lean_rs::module::manifest::{
    BuiltCapabilityArtifact, CapabilityManifest, LeanBuiltCapability, LeanBuiltCapabilityError,
    LeanLibraryDependency,
};
use lean_rs::module::preflight::{
    architecture_matches_host, check_imported_symbols, inspect_artifact, inspect_object,
    is_lean_dependency_symbol,
    manifest_error_to_lean_error, ArtifactInfo, ArtifactRead, ArtifactReadError, ArtifactReads,
    ArtifactRole, LeanRuntimePreflight, ManifestRead,
};
use lean_rs::module::signature::{
    LeanExportAbiRepr, LeanExportArgAbi, LeanExportOwnership, LeanExportResultConvention,
    LeanExportReturnAbi, LeanExportSignature,
};
use lean_rs::module::symbols::{normalise_symbol_name, SymbolEntry, SymbolSet};
use lean_rs::runtime::init::{InitRun, RuntimeCell};
use lean_rs::runtime::obj::Obj;
use lean_rs::runtime::thread::AttachDepth;
use lean_rs::{
    HostFailure, HostStage, LeanDiagnosticCode, LeanError, LeanHost, LeanResult, LeanRuntime, LeanSession,
};

// A minimal ELF file with a symbol table and a dynamic symbol table.

#[derive(Clone, Copy)]
struct Sym {
    name: &'static str,
    global: bool,
    section: u16,
}

const UNDEF: u16 = 0;
const TEXT: u16 = 1;
const DATA: u16 = 2;
const RODATA: u16 = 3;

fn sym(name: &'static str, global: bool, section: u16) -> Sym {
    Sym { name, global, section }
}

fn symbol_table(symbols: &[Sym]) -> (Vec<u8>, Vec<u8>, u32) {
    let mut sorted: Vec<Sym> = symbols.iter().copied().filter(|s| !s.global).collect();
    let first_global = sorted.len() as u32 + 1;
    sorted.extend(symbols.iter().copied().filter(|s| s.global));
    let mut table = vec![0_u8; 24];
    let mut names = vec![0_u8];
    for s in sorted {
        let offset = names.len() as u32;
        names.extend_from_slice(s.name.as_bytes());
        names.push(0);
        table.extend_from_slice(&offset.to_le_bytes());
        let kind: u8 = if s.section == TEXT { 2 } else { 1 };
        table.push(((s.global as u8) << 4) | kind);
        table.push(0);
        table.extend_from_slice(&s.section.to_le_bytes());
        table.extend_from_slice(&[0; 16]);
    }
    (table, names, first_global)
}

fn elf(machine: u16, symbols: &[Sym], dynamic: &[Sym]) -> Vec<u8> {
    let (symtab, strtab, first) = symbol_table(symbols);
    let (dynsym, dynstr, dyn_first) = symbol_table(dynamic);
    let names = b"\0.text\0.data\0.rodata\0.symtab\0.strtab\0.dynsym\0.dynstr\0.shstrtab\0".to_vec();
    // name, type, flags, content, link, info, entry size
    let sections: Vec<(u32, u32, u64, Vec<u8>, u32, u32, u64)> = vec![
        (0, 0, 0, vec![], 0, 0, 0),
        (1, 1, 6, vec![0; 8], 0, 0, 0),
        (7, 1, 3, vec![0; 8], 0, 0, 0),
        (13, 1, 2, vec![0; 8], 0, 0, 0),
        (21, 2, 0, symtab, 5, first, 24),
        (29, 3, 0, strtab, 0, 0, 0),
        (37, 11, 2, dynsym, 7, dyn_first, 24),
        (45, 3, 2, dynstr, 0, 0, 0),
        (53, 3, 0, names, 0, 0, 0),
    ];
    let mut body: Vec<u8> = vec![];
    let mut headers: Vec<u8> = vec![];
    for (name, kind, flags, content, link, info, entry) in sections.iter() {
        while body.len() % 8 != 0 {
            body.push(0);
        }
        let offset = 64 + body.len() as u64;
        body.extend_from_slice(content);
        headers.extend_from_slice(&name.to_le_bytes());
        headers.extend_from_slice(&kind.to_le_bytes());
        headers.extend_from_slice(&flags.to_le_bytes());
        headers.extend_from_slice(&0_u64.to_le_bytes());
        headers.extend_from_slice(&offset.to_le_bytes());
        headers.extend_from_slice(&(content.len() as u64).to_le_bytes());
        headers.extend_from_slice(&link.to_le_bytes());
        headers.extend_from_slice(&info.to_le_bytes());
        headers.extend_from_slice(&1_u64.to_le_bytes());
        headers.extend_from_slice(&entry.to_le_bytes());
    }
    while body.len() % 8 != 0 {
        body.push(0);
    }
    let table_offset = 64 + body.len() as u64;
    let mut file = vec![0x7f, b'E', b'L', b'F', 2, 1, 1, 0, 0, 0, 0, 0, 0, 0, 0, 0];
    file.extend_from_slice(&3_u16.to_le_bytes());
    file.extend_from_slice(&machine.to_le_bytes());
    file.extend_from_slice(&1_u32.to_le_bytes());
    file.extend_from_slice(&[0; 16]);
    file.extend_from_slice(&table_offset.to_le_bytes());
    file.extend_from_slice(&0_u32.to_le_bytes());
    for value in [64_u16, 0, 0, 64, sections.len() as u16, 8] {
        file.extend_from_slice(&value.to_le_bytes());
    }
    file.extend_from_slice(&body);
    file.extend_from_slice(&headers);
    file
}

const X86_64: u16 = 62;
const AARCH64: u16 = 183;

fn fixture_symbols() -> Vec<Sym> {
    vec![
        sym("lean_rs_fixture_option_nat_none", true, DATA),
        sym("lean_rs_fixture_constant", true, RODATA),
        sym("lean_rs_fixture_string_identity", true, TEXT),
        sym("lean_rs_fixture_u8_identity", true, TEXT),
        sym("lean_rs_fixture_local", false, DATA),
        sym("lean_mk_string", true, UNDEF),
        sym("initialize_lean__rs__fixture_LeanRsFixture", true, TEXT),
    ]
}

fn fixture_bytes() -> Vec<u8> {
    elf(X86_64, &fixture_symbols(), &[])
}

const FIXTURE_PATH: &str = "/fixtures/lean/.lake/build/lib/liblean__rs__fixture_LeanRsFixture.so";

fn open_fixture() -> LeanLibrary {
    let globals = classify_globals(FIXTURE_PATH, &Ok(fixture_bytes())).expect("fixture parses");
    LeanLibrary::open(FIXTURE_PATH.to_owned(), globals, Ok(())).expect("fixture dylib opens cleanly")
}

fn io_unit() -> InitializerCall {
    InitializerCall::Ran(InitializerRun::Returned(alloc_ctor_with_objects(
        0,
        vec![Obj::Scalar(0), Obj::Scalar(0)],
    )))
}

fn host(err: LeanError) -> HostFailure {
    match err {
        LeanError::Host(failure) => failure,
        other => panic!("expected Host, got {other:?}"),
    }
}

fn host_err<T>(r: LeanResult<T>) -> HostFailure {
    match r {
        Ok(_) => panic!("expected a failure"),
        Err(err) => host(err),
    }
}

fn arg(repr: LeanExportAbiRepr) -> LeanExportArgAbi {
    LeanExportArgAbi::new(repr, ownership(repr))
}

fn ret(repr: LeanExportAbiRepr) -> LeanExportReturnAbi {
    LeanExportReturnAbi::new(repr, ownership(repr), LeanExportResultConvention::Pure)
}

fn ownership(repr: LeanExportAbiRepr) -> LeanExportOwnership {
    if repr == LeanExportAbiRepr::LeanObject {
        LeanExportOwnership::Owned
    } else {
        LeanExportOwnership::Unowned
    }
}

fn bundle_of(library: LeanLibrary) -> LeanLibraryBundle {
    let loader = LeanLibraryBundle::open(FIXTURE_PATH.to_owned(), vec![]);
    match loader.resume(BundleEvent::Opened(Ok(library))).0 {
        BundleStep::Done(Ok(bundle)) => bundle,
        other => panic!("unexpected {other:?}"),
    }
}

fn checked_fixture(exports: Vec<LeanExportSignature>) -> LeanCapability {
    LeanCapability::open_with_dependencies(
        bundle_of(open_fixture()),
        "lean_rs_fixture".to_owned(),
        "LeanRsFixture".to_owned(),
        exports,
        io_unit(),
    )
    .expect("fixture capability opens")
}

#[test]
fn open_and_initialize_root_module_succeeds() {
    let library = open_fixture();
    let module = library
        .initialize_module("lean_rs_fixture", "LeanRsFixture", io_unit())
        .expect("root module initializer succeeds");
    assert_eq!(module.module_name(), "lean_rs_fixture::LeanRsFixture");
}

#[test]
fn initialize_module_is_idempotent() {
    let library = open_fixture();
    let first = library
        .initialize_module("lean_rs_fixture", "LeanRsFixture.Scalars", io_unit())
        .expect("first initializer call succeeds");
    let second = library
        .initialize_module("lean_rs_fixture", "LeanRsFixture.Scalars", io_unit())
        .expect("second initializer call succeeds");
    assert_eq!(first.module_name(), second.module_name());
}

#[test]
fn missing_symbol_is_link_error() {
    let library = open_fixture();
    let failure = host_err(library.initialize_module(
        "lean_rs_fixture",
        "NoSuchModule",
        InitializerCall::Missing("undefined symbol".to_owned()),
    ));
    assert_eq!(failure.stage(), HostStage::Link);
    assert!(
        failure.message().contains("initialize_lean__rs__fixture_NoSuchModule"),
        "diagnostic must name the modern initializer symbol, got: {:?}",
        failure.message(),
    );
}

#[test]
fn missing_library_is_load_error() {
    let path = "/does/not/exist/liblean__rs__fixture_missing.dylib";
    let failure = host_err(classify_globals(path, &Err("No such file or directory".to_owned())));
    assert_eq!(failure.stage(), HostStage::Load);
    assert!(
        failure.message().contains("liblean__rs__fixture_missing"),
        "diagnostic must name the requested path, got: {:?}",
        failure.message(),
    );
    let unopened =
        LeanLibrary::open(path.to_owned(), SymbolSet::new(), Err("cannot open".to_owned()));
    assert_eq!(
        host_err(unopened).message(),
        "failed to open Lean library '/does/not/exist/liblean__rs__fixture_missing.dylib': cannot open"
    );
}

#[test]
fn invalid_module_name_is_link_error() {
    let library = open_fixture();
    let failure =
        host_err(library.initialize_module("lean_rs_fixture", "Has..Empty.Component", io_unit()));
    assert_eq!(failure.stage(), HostStage::Link);
    assert!(
        failure.message().contains("empty component"),
        "diagnostic must mention the empty component, got: {:?}",
        failure.message(),
    );
}

#[test]
fn invalid_package_name_is_link_error() {
    let library = open_fixture();
    let failure = host_err(library.initialize_module("9bad-package", "LeanRsFixture", io_unit()));
    assert_eq!(failure.stage(), HostStage::Link);
    assert_eq!(
        host_err(InitializerName::from_lake_names("pkg", "A.b-c")).message(),
        "invalid module component 'b-c': character '-' is not in [A-Za-z0-9_]",
    );
    assert_eq!(
        host_err(InitializerName::from_lake_names("pkg", "A\u{301}")).message(),
        format!("invalid module component 'A\u{301}': character {:?} is not in [A-Za-z0-9_]", '\u{301}'),
    );
    assert_eq!(
        host_err(InitializerName::from_lake_names("9p", "A")).message(),
        "invalid package name '9p': first character must be ASCII letter or underscore",
    );
}

#[test]
fn initializer_failures_are_load_errors() {
    let library = open_fixture();
    let call = |run: InitializerRun| {
        host_err(library.initialize_module("p", "M", InitializerCall::Ran(run)))
    };
    let failure = call(InitializerRun::Panicked(PanicPayload::StaticStr("boom")));
    assert_eq!((failure.stage(), failure.message()), (HostStage::Load, "boom"));
    let failure = call(InitializerRun::Null);
    assert_eq!(failure.message(), "module 'p::M' initializer returned a null IO result pointer");
    let raised = alloc_ctor_with_objects(18, vec![string::from_str("nope")]);
    let failure = call(InitializerRun::Returned(alloc_ctor_with_objects(1, vec![raised])));
    assert_eq!(failure.stage(), HostStage::Load);
    assert_eq!(failure.message(), "module 'p::M' initializer raised: nope");
}

#[test]
fn symbol_table_walk_classifies_functions_and_globals() {
    let library = open_fixture();
    let globals = library.globals();
    assert!(globals.contains("lean_rs_fixture_option_nat_none"));
    assert!(globals.contains("lean_rs_fixture_constant"));
    assert!(!globals.contains("lean_rs_fixture_string_identity"));
    assert!(!globals.contains("lean_rs_fixture_u8_identity"));
    assert!(!globals.contains("lean_rs_fixture_local"));
    assert!(!globals.contains("lean_mk_string"));
    assert_eq!(globals.len(), 2);
    assert_eq!(globals.get(0), "lean_rs_fixture_option_nat_none");
}

#[test]
fn unparsable_library_is_load_error() {
    let failure = host_err(classify_globals("lib.so", &Ok(b"not an object".to_vec())));
    assert_eq!(failure.stage(), HostStage::Load);
    assert!(failure.message().starts_with("failed to parse object file 'lib.so': "));
}

#[test]
fn mangling_matches_fixture_symbols() {
    let root = InitializerName::from_lake_names("lean_rs_fixture", "LeanRsFixture")
        .expect("root module name validates");
    assert_eq!(root.symbol_bytes(), b"initialize_lean__rs__fixture_LeanRsFixture\0",);

    let scalars = InitializerName::from_lake_names("lean_rs_fixture", "LeanRsFixture.Scalars")
        .expect("Scalars module name validates");
    assert_eq!(
        scalars.symbol_bytes(),
        b"initialize_lean__rs__fixture_LeanRsFixture_Scalars\0",
    );
    assert_eq!(scalars.display(), "lean_rs_fixture::LeanRsFixture.Scalars");
    assert_eq!(scalars.legacy_symbol_str(), "initialize_LeanRsFixture_Scalars");
    assert_eq!(scalars.clone(), scalars);
}

#[test]
fn checked_export_lookup_succeeds_with_matching_manifest_signature() {
    let capability = checked_fixture(vec![LeanExportSignature::function(
        "lean_rs_fixture_u8_identity",
        vec![arg(LeanExportAbiRepr::U8)],
        ret(LeanExportAbiRepr::U8),
    )]);

    let identity = capability
        .exported::<(u8,), u8>("lean_rs_fixture_u8_identity", Ok(0x40))
        .expect("checked lookup succeeds");

    match identity.call((17,)) {
        ForeignCall::Invoke { address, mut args } => {
            assert_eq!(address, 0x40);
            match args.remove(0) {
                CArg::U8(c) => assert_eq!(identity.finish(c).expect("checked call succeeds"), 17),
                other => panic!("unexpected {other:?}"),
            }
        }
        other => panic!("unexpected {other:?}"),
    }
}

#[test]
fn checked_export_lookup_reports_missing_signature_metadata() {
    let capability = checked_fixture(vec![]);

    let err = capability
        .exported::<(u8,), u8>("lean_rs_fixture_u8_identity", Ok(0x40))
        .expect_err("safe lookup requires manifest metadata");

    assert!(matches!(
        err,
        LeanCheckedExportError::MissingSignatureMetadata { symbol }
            if symbol == "lean_rs_fixture_u8_identity"
    ));
}

#[test]
fn checked_export_lookup_rejects_wrong_argument_shape() {
    let capability = checked_fixture(vec![LeanExportSignature::function(
        "lean_rs_fixture_u8_identity",
        vec![arg(LeanExportAbiRepr::U8)],
        ret(LeanExportAbiRepr::U8),
    )]);

    let err = capability
        .exported::<(u16,), u8>("lean_rs_fixture_u8_identity", Ok(0x40))
        .expect_err("argument ABI mismatch must fail before dispatch");

    assert!(matches!(err, LeanCheckedExportError::SignatureMismatch { .. }));
}

#[test]
fn checked_export_lookup_rejects_wrong_return_shape() {
    let capability = checked_fixture(vec![LeanExportSignature::function(
        "lean_rs_fixture_u8_identity",
        vec![arg(LeanExportAbiRepr::U8)],
        ret(LeanExportAbiRepr::U8),
    )]);

    let err = capability
        .exported::<(u8,), u16>("lean_rs_fixture_u8_identity", Ok(0x40))
        .expect_err("return ABI mismatch must fail before dispatch");

    assert!(matches!(err, LeanCheckedExportError::SignatureMismatch { .. }));
}

#[test]
fn checked_export_lookup_reports_manifest_symbol_missing_from_dylib() {
    let capability = checked_fixture(vec![LeanExportSignature::function(
        "lean_rs_fixture_no_such_export",
        vec![arg(LeanExportAbiRepr::U8)],
        ret(LeanExportAbiRepr::U8),
    )]);

    let err = capability
        .exported::<(u8,), u8>("lean_rs_fixture_no_such_export", Err("undefined symbol".to_owned()))
        .expect_err("manifest metadata cannot invent a dylib symbol");

    assert!(matches!(
        err,
        LeanCheckedExportError::MissingSymbol { symbol, .. }
            if symbol == "lean_rs_fixture_no_such_export"
    ));
}

#[test]
fn checked_export_lookup_tells_io_from_pure_and_globals_from_functions() {
    let io = LeanExportReturnAbi::new(
        LeanExportAbiRepr::LeanObject,
        LeanExportOwnership::Owned,
        LeanExportResultConvention::IoResult,
    );
    let capability = checked_fixture(vec![
        LeanExportSignature::function("act", vec![], io),
        LeanExportSignature::function("lean_rs_fixture_option_nat_none", vec![], io),
    ]);
    assert!(capability.exported::<(), LeanIo<u64>>("act", Ok(1)).is_ok());
    assert!(matches!(
        capability.exported::<(), String>("act", Ok(1)),
        Err(LeanCheckedExportError::SignatureMismatch { .. })
    ));
    assert!(matches!(
        capability.exported::<(), LeanIo<u64>>("lean_rs_fixture_option_nat_none", Ok(1)),
        Err(LeanCheckedExportError::SignatureMismatch { .. })
    ));
    assert_eq!(capability.package_name(), "lean_rs_fixture");
    assert_eq!(capability.module_name(), "LeanRsFixture");
    assert_eq!(capability.bundle().dependency_count(), 0);
    assert_eq!(capability.library().path(), FIXTURE_PATH);
    assert!(capability.module(io_unit()).is_ok());
    assert!(capability.bundle().initialize_module("lean_rs_fixture", "Other", io_unit()).is_ok());
}

#[test]
fn option_nat_none_resolves_as_global_and_decodes_via_arity_zero() {
    let library = open_fixture();
    let module = library
        .initialize_module("lean_rs_fixture", "LeanRsFixture", io_unit())
        .expect("init");
    let none_handle: LeanExported<(), Option<u64>> = module
        .exported_unchecked("lean_rs_fixture_option_nat_none", Ok(0x80))
        .expect("arity-0 lookup against the global succeeds");
    match none_handle.call(()) {
        ForeignCall::ReadGlobal { address } => assert_eq!(address, 0x80),
        other => panic!("unexpected {other:?}"),
    }
    let decoded = none_handle.finish(Obj::Scalar(0)).expect("call returns the persistent none value");
    assert_eq!(decoded, None, "Option::none decodes to Rust None");
}

#[test]
fn arity_one_lookup_against_global_rejects_with_link_diagnostic() {
    let library = open_fixture();
    let module = library
        .initialize_module("lean_rs_fixture", "LeanRsFixture", io_unit())
        .expect("init");
    let failure = host_err(
        module.exported_unchecked::<(u64,), u64>("lean_rs_fixture_option_nat_none", Ok(0x80)),
    );
    assert_eq!(failure.stage(), HostStage::Link);
    let message = failure.message();
    assert!(message.contains("lean_rs_fixture_option_nat_none"), "got: {message:?}");
    assert!(message.contains("nullary-constant global"), "got: {message:?}");
    assert!(message.ends_with("(lookup arity is 1)"), "got: {message:?}");
}

#[test]
fn lean_io_against_global_rejects_at_lookup() {
    let library = open_fixture();
    let module = library
        .initialize_module("lean_rs_fixture", "LeanRsFixture", io_unit())
        .expect("init");
    let failure = host_err(
        module.exported_unchecked::<(), LeanIo<u64>>("lean_rs_fixture_option_nat_none", Ok(0x80)),
    );
    assert_eq!(failure.stage(), HostStage::Link);
    assert!(
        failure.message().contains("LeanIo"),
        "diagnostic must mention LeanIo: {:?}",
        failure.message(),
    );
}

#[test]
fn unknown_symbol_lookup_surfaces_host_link_diagnostic() {
    let library = open_fixture();
    let module = library
        .initialize_module("lean_rs_fixture", "LeanRsFixture", io_unit())
        .expect("init");
    let missing = Err("undefined symbol".to_owned());
    let failure =
        host_err(module.exported_unchecked::<(), u64>("lean_rs_fixture_does_not_exist", missing));
    assert_eq!(failure.stage(), HostStage::Link);
    assert_eq!(failure.code(), LeanDiagnosticCode::SymbolLookup);
    assert!(
        failure.message().contains("lean_rs_fixture_does_not_exist"),
        "diagnostic must name the symbol: {:?}",
        failure.message(),
    );
    assert_eq!(CallableTarget::Function(3), CallableTarget::Function(3));
}

// -- bundles ------------------------------------------------------------

fn library(path: &str) -> LeanLibrary {
    LeanLibrary::open(path.to_owned(), SymbolSet::new(), Ok(())).expect("opens")
}

fn shown(action: &BundleAction) -> String {
    match action {
        BundleAction::Open { path, globally } => format!("open {path} {globally}"),
        BundleAction::Initialize { package, module } => format!("init {package} {module}"),
    }
}

#[test]
fn bundles_open_dependencies_first_and_in_order() {
    let dependencies = vec![
        LeanLibraryDependency::path("a.so".to_owned())
            .export_symbols_for_dependents()
            .initializer("pa".to_owned(), "A".to_owned()),
        LeanLibraryDependency::path("b.so".to_owned()),
    ];
    let mut loader = LeanLibraryBundle::open("main.so".to_owned(), dependencies);
    let mut action = loader.next_action();
    let mut log = vec![];
    loop {
        log.push(shown(&action));
        let event = match &action {
            BundleAction::Open { path, .. } => BundleEvent::Opened(Ok(library(path))),
            BundleAction::Initialize { .. } => BundleEvent::Initialized(io_unit()),
        };
        match loader.resume(event) {
            (BundleStep::Next(next), Some(rest)) => {
                action = next;
                loader = rest;
            }
            (BundleStep::Done(outcome), _) => {
                let bundle = outcome.expect("bundle");
                assert_eq!(bundle.dependency_count(), 2);
                assert_eq!(bundle.library().path(), "main.so");
                break;
            }
            other => panic!("unexpected {other:?}"),
        }
    }
    assert_eq!(log, vec!["open a.so true", "init pa A", "open b.so false", "open main.so false"]);
}

#[test]
fn bundles_stop_at_the_first_failure() {
    let dependencies = vec![LeanLibraryDependency::path("a.so".to_owned())
        .initializer("pa".to_owned(), "A".to_owned())];
    let loader = LeanLibraryBundle::open("main.so".to_owned(), dependencies);
    let (_, rest) = loader.resume(BundleEvent::Opened(Ok(library("a.so"))));
    let failed = BundleEvent::Initialized(InitializerCall::Missing("no".to_owned()));
    match rest.expect("initializer is due").resume(failed) {
        (BundleStep::Done(Err(err)), None) => assert_eq!(
            host(err).message(),
            "missing initializer symbol 'initialize_pa_A' in 'a.so': no"
        ),
        other => panic!("unexpected {other:?}"),
    }
    let loader = LeanLibraryBundle::open("main.so".to_owned(), vec![]);
    let failed = BundleEvent::Opened(Err(LeanError::module_init("no".to_owned())));
    match loader.resume(failed) {
        (BundleStep::Done(Err(err)), None) => assert_eq!(host(err).message(), "no"),
        other => panic!("unexpected {other:?}"),
    }
}

// -- built capabilities ---------------------------------------------------

#[test]
fn built_capability_path_is_resolved_without_runtime_env() {
    let spec = LeanBuiltCapability::path("/tmp/libcap.so".to_owned())
        .package("pkg".to_owned())
        .module("Cap".to_owned());
    let path = spec.dylib.resolve(BuiltCapabilityArtifact::Dylib, None).expect("expected path");
    assert_eq!(path, "/tmp/libcap.so");
    assert_eq!(spec.package.as_deref(), Some("pkg"));
    assert_eq!(spec.module.as_deref(), Some("Cap"));
}

#[test]
fn missing_runtime_env_is_typed() {
    let spec = LeanBuiltCapability::env("LEAN_RS_TEST_MISSING_CAPABILITY_DYLIB".to_owned())
        .package("pkg".to_owned())
        .module("Cap".to_owned());
    let err = spec
        .dylib
        .resolve(BuiltCapabilityArtifact::Dylib, None)
        .expect_err("expected missing env error");
    assert!(matches!(
        err,
        LeanBuiltCapabilityError::EnvVarNotSet { kind: BuiltCapabilityArtifact::Dylib, .. }
    ));
}

#[test]
fn missing_runtime_manifest_env_is_typed() {
    let spec = LeanBuiltCapability::manifest_env("LEAN_RS_TEST_MISSING_CAPABILITY_MANIFEST".to_owned());
    let err = spec
        .manifest
        .resolve(BuiltCapabilityArtifact::Manifest, None)
        .expect_err("expected missing manifest env error");
    assert!(matches!(
        err,
        LeanBuiltCapabilityError::EnvVarNotSet { kind: BuiltCapabilityArtifact::Manifest, .. }
    ));
}

#[test]
fn built_capability_records_dependency_descriptors() {
    let spec = LeanBuiltCapability::path("/tmp/libcap.so".to_owned()).dependency(
        LeanLibraryDependency::path("/tmp/libdep.so".to_owned())
            .export_symbols_for_dependents()
            .initializer("dep_pkg".to_owned(), "Dep".to_owned()),
    );
    assert_eq!(spec.dependencies.len(), 1);
    let dependency = &spec.dependencies[0];
    assert!(dependency.exports_symbols_for_dependents());
    assert_eq!(dependency.path_ref(), "/tmp/libdep.so");
    let initializer = dependency.module_initializer().expect("dependency initializer is recorded");
    assert_eq!(initializer.package_name(), "dep_pkg");
    assert_eq!(initializer.module_name(), "Dep");
}

#[test]
fn capability_plans_need_names_and_a_path() {
    let plan = |spec: LeanBuiltCapability, env: Option<&str>| LeanCapability::from_build_env(spec, env);
    let failure = host_err(plan(LeanBuiltCapability::path("x".to_owned()), None));
    assert!(failure.message().contains("call `.package(...)`"));
    let failure =
        host_err(plan(LeanBuiltCapability::path("x".to_owned()).package("p".to_owned()), None));
    assert!(failure.message().contains("call `.module(...)`"));
    let failure = host_err(plan(LeanBuiltCapability::env("VAR".to_owned()), None));
    assert_eq!(failure.code(), LeanDiagnosticCode::ModuleInit);
    assert!(failure.message().contains("'VAR'"));
    let spec = LeanBuiltCapability::env("VAR".to_owned())
        .package("p".to_owned())
        .module("M".to_owned());
    let done = plan(spec, Some("/lib/x.so")).expect("plan");
    assert_eq!(
        (done.dylib_path.as_str(), done.package.as_str(), done.module.as_str()),
        ("/lib/x.so", "p", "M")
    );
    assert!(LeanCapability::open("x".to_owned(), "p".to_owned(), "M".to_owned())
        .dependencies
        .is_empty());
}

// -- preflight ------------------------------------------------------------

fn manifest_for(primary: &str, dependencies: Vec<LeanLibraryDependency>) -> CapabilityManifest {
    CapabilityManifest {
        primary_dylib: primary.to_owned(),
        package: "pkg".to_owned(),
        module: "Cap".to_owned(),
        dependencies,
        lean_version: None,
        resolved_lean_version: None,
        lean_header_sha256: None,
    }
}

fn missing() -> ArtifactRead {
    Err(ArtifactReadError { not_found: true, text: "No such file".to_owned() })
}

fn preflight() -> LeanRuntimePreflight {
    LeanRuntimePreflight::new(LeanBuiltCapability::manifest_path("cap.json".to_owned()))
}

fn run(manifest: CapabilityManifest, dependencies: Vec<ArtifactRead>, primary: ArtifactRead) -> LeanLoaderReport {
    let read = ManifestRead::Read {
        manifest,
        findings: vec![],
        artifacts: ArtifactReads { dependencies, primary },
    };
    preflight().check("cap.json".to_owned(), read, "x86_64")
}

fn codes(report: &LeanLoaderReport) -> Vec<LeanLoaderDiagnosticCode> {
    report.checks().iter().map(LeanLoaderCheck::code).collect()
}

fn capability_bytes() -> Vec<u8> {
    elf(X86_64, &[sym("initialize_pkg_Cap", true, TEXT)], &[])
}

#[test]
fn missing_manifest_reports_stable_code() {
    let path = "/tmp/lean_rs/missing_manifest/missing.json";
    let preflight = LeanRuntimePreflight::new(LeanBuiltCapability::manifest_path(path.to_owned()));
    let path = preflight.manifest_path(None).expect("path");
    assert_eq!(path, "/tmp/lean_rs/missing_manifest/missing.json");
    let absent = LeanLoaderCheck::error(
        LeanLoaderDiagnosticCode::MissingManifest,
        path.clone(),
        "No such file or directory".to_owned(),
        "build the capability",
    );
    let report = preflight.check(path, ManifestRead::Unreadable(absent), "x86_64");
    assert!(!report.is_ok());
    assert_eq!(
        report.first_error().map(LeanLoaderCheck::code),
        Some(LeanLoaderDiagnosticCode::MissingManifest)
    );
}

#[test]
fn an_unset_manifest_variable_is_a_missing_manifest() {
    let spec = LeanBuiltCapability::manifest_env("LEAN_RS_MANIFEST".to_owned());
    let report = LeanRuntimePreflight::new(spec)
        .manifest_path(None)
        .expect_err("the variable is not set");
    assert!(!report.is_ok());
    assert_eq!(
        report.first_error().map(LeanLoaderCheck::code),
        Some(LeanLoaderDiagnosticCode::MissingManifest)
    );
    assert_eq!(report.manifest_path(), None);
    assert_eq!(preflight().manifest_path(None).expect("path"), "cap.json");
}

#[test]
fn malformed_manifest_reports_stable_code() {
    let check = LeanLoaderCheck::error(
        LeanLoaderDiagnosticCode::MalformedManifest,
        "cap.json".to_owned(),
        "unexpected end of input".to_owned(),
        "rebuild",
    );
    let report = preflight().check("cap.json".to_owned(), ManifestRead::Unreadable(check), "x86_64");
    assert_eq!(
        report.first_error().map(LeanLoaderCheck::code),
        Some(LeanLoaderDiagnosticCode::MalformedManifest)
    );
    assert_eq!(report.manifest_path(), Some("cap.json"));
}

#[test]
fn missing_primary_dylib_reports_stable_code() {
    let report = run(manifest_for("missing-capability.dylib", vec![]), vec![], missing());
    assert_eq!(codes(&report), vec![LeanLoaderDiagnosticCode::MissingPrimaryDylib]);
    let check = report.first_error().expect("error");
    assert_eq!(check.subject(), "missing-capability.dylib");
    assert_eq!(
        check.message(),
        "failed to read Lean dylib 'missing-capability.dylib': No such file"
    );
    assert!(check.repair_hint().ends_with("package the primary dylib"));
}

#[test]
fn missing_dependency_reports_stable_code() {
    let dependencies = vec![LeanLibraryDependency::path("missing-dependency.dylib".to_owned())];
    let report = run(
        manifest_for("cap.so", dependencies),
        vec![missing()],
        Ok(capability_bytes()),
    );
    assert_eq!(codes(&report), vec![LeanLoaderDiagnosticCode::MissingTransitiveDependency]);
}

#[test]
fn invalid_object_reports_unsupported_architecture() {
    let bad: ArtifactRead = Ok(b"not an object".to_vec());
    let err = inspect_artifact("not-a-dylib.so", ArtifactRole::Primary, &bad, "x86_64")
        .expect_err("invalid object should fail");
    assert_eq!(err.code(), LeanLoaderDiagnosticCode::UnsupportedArchitecture);
    let denied: ArtifactRead =
        Err(ArtifactReadError { not_found: false, text: "permission denied".to_owned() });
    let err = inspect_artifact("x.so", ArtifactRole::Primary, &denied, "x86_64").expect_err("unreadable");
    assert_eq!(err.code(), LeanLoaderDiagnosticCode::UnsupportedArchitecture);
}

#[test]
fn foreign_architecture_is_reported() {
    let bytes: ArtifactRead = Ok(elf(AARCH64, &[], &[]));
    let err = inspect_artifact("x.so", ArtifactRole::Dependency, &bytes, "x86_64").expect_err("foreign");
    assert_eq!(err.code(), LeanLoaderDiagnosticCode::UnsupportedArchitecture);
    assert_eq!(
        err.message(),
        "Lean dylib 'x.so' has architecture Aarch64, but this process is x86_64"
    );
    assert!(inspect_artifact("x.so", ArtifactRole::Dependency, &bytes, "aarch64").is_ok());
    assert!(architecture_matches_host("x86", "I386"));
    assert!(!architecture_matches_host("riscv64", "Riscv64"));
}

#[test]
fn inspection_reads_both_symbol_tables() {
    let bytes: ArtifactRead = Ok(elf(
        X86_64,
        &[sym("exported", true, TEXT), sym("hidden", false, TEXT), sym("imported", true, UNDEF)],
        &[sym("dyn_exported", true, DATA), sym("imported", true, UNDEF)],
    ));
    let info = inspect_artifact("x.so", ArtifactRole::Primary, &bytes, "x86_64").expect("inspects");
    assert!(info.defined_symbols.contains("exported"));
    assert!(info.defined_symbols.contains("dyn_exported"));
    assert!(!info.defined_symbols.contains("hidden"));
    assert_eq!(info.defined_symbols.len(), 2);
    assert!(info.undefined_symbols.contains("imported"));
    assert_eq!(info.undefined_symbols.len(), 1);
}

#[test]
fn missing_initializer_reports_stable_code() {
    let bytes = elf(X86_64, &[sym("main", true, TEXT)], &[]);
    let report = run(manifest_for("cap.so", vec![]), vec![], Ok(bytes));
    assert_eq!(codes(&report), vec![LeanLoaderDiagnosticCode::MissingInitializer]);
    assert_eq!(
        report.checks()[0].message(),
        "primary dylib 'cap.so' does not export initializer 'initialize_pkg_Cap' or 'initialize_Cap'"
    );
    let legacy = elf(X86_64, &[sym("initialize_Cap", true, TEXT)], &[]);
    assert!(run(manifest_for("cap.so", vec![]), vec![], Ok(legacy)).is_ok());
}

#[test]
fn invalid_names_in_the_manifest_are_reported() {
    let mut manifest = manifest_for("cap.so", vec![]);
    manifest.module = "A..B".to_owned();
    let report = run(manifest, vec![], Ok(capability_bytes()));
    assert_eq!(codes(&report), vec![LeanLoaderDiagnosticCode::MalformedManifest]);
    assert_eq!(report.checks()[0].subject(), "pkg/A..B");
    assert_eq!(
        report.checks()[0].message(),
        "lean-rs: host stage Link [lean_rs.linking]: invalid module component: empty component"
    );
}

#[test]
fn missing_imported_symbol_reports_stable_code() {
    let mut undefined_symbols = SymbolSet::new();
    undefined_symbols.insert("LeanRsInterop_missing");
    let primary = ArtifactInfo { defined_symbols: SymbolSet::new(), undefined_symbols };
    let manifest = manifest_for("/tmp/libcap.so", vec![]);
    let mut checks = Vec::new();

    check_imported_symbols(&manifest, &primary, &SymbolSet::new(), &mut checks);

    assert!(
        checks
            .iter()
            .any(|check| check.code() == LeanLoaderDiagnosticCode::MissingImportedSymbol)
    );
    assert_eq!(checks.len(), 1);
    assert_eq!(checks[0].subject(), "LeanRsInterop_missing");
}

#[test]
fn dependencies_provide_imported_symbols() {
    let primary = elf(
        X86_64,
        &[
            sym("initialize_pkg_Cap", true, TEXT),
            sym("LeanRsInterop_f", true, UNDEF),
            sym("lean_inc", true, UNDEF),
        ],
        &[],
    );
    let provider = elf(X86_64, &[sym("LeanRsInterop_f", true, TEXT)], &[]);
    let dependency = || vec![LeanLibraryDependency::path("dep.so".to_owned())];
    let clean = run(
        manifest_for("cap.so", dependency()),
        vec![Ok(provider)],
        Ok(primary.clone()),
    );
    assert!(clean.is_ok());
    let empty = elf(X86_64, &[], &[]);
    let report = run(manifest_for("cap.so", dependency()), vec![Ok(empty)], Ok(primary));
    assert_eq!(codes(&report), vec![LeanLoaderDiagnosticCode::MissingImportedSymbol]);
    assert!(is_lean_dependency_symbol("initialize_LeanRsInterop"));
    assert!(is_lean_dependency_symbol("lean_rs_host_elaborate"));
    assert!(!is_lean_dependency_symbol("lean_inc"));
}

#[test]
fn open_failure_uses_preflight_code_in_error_message() {
    let report = run(manifest_for("missing-capability.dylib", vec![]), vec![], missing());
    let err = LeanCapability::from_build_manifest(report, Ok(manifest_for("x", vec![])))
        .expect_err("missing primary should fail before open");
    assert_eq!(err.code(), LeanDiagnosticCode::ModuleInit);
    assert!(err.render().contains(LeanLoaderDiagnosticCode::MissingPrimaryDylib.as_str()));
}

#[test]
fn clean_reports_lead_to_a_plan() {
    let report = run(manifest_for("cap.so", vec![]), vec![], Ok(capability_bytes()));
    assert!(report.is_ok());
    let plan = LeanCapability::from_build_manifest(report, Ok(manifest_for("cap.so", vec![])))
        .expect("plan");
    assert_eq!(plan.dylib_path, "cap.so");
    let warning = LeanLoaderCheck::warning(
        LeanLoaderDiagnosticCode::StaleManifest,
        "cap.json".to_owned(),
        "stale".to_owned(),
        "rebuild",
    );
    let report = LeanLoaderReport::new(None, vec![warning.clone()]);
    assert!(report.is_ok());
    let err = host(manifest_error_to_lean_error(warning));
    assert_eq!(err.message(), "Lean capability preflight failed without a recorded finding");
}

#[test]
fn symbol_names_lose_the_underscore_of_their_format() {
    assert_eq!(normalise_symbol_name("_main", true), "main");
    assert_eq!(normalise_symbol_name("main", true), "main");
    assert_eq!(normalise_symbol_name("_main", false), "_main");
    assert_eq!(normalise_symbol_name("_", true), "");
}

fn entry(name: Option<&str>, undefined: bool, global: bool) -> SymbolEntry {
    SymbolEntry { name: name.map(str::to_owned), undefined, global, section_kind: None }
}

#[test]
fn symbols_are_sorted_into_exports_and_imports() {
    let table = vec![
        entry(Some("_f"), false, true),
        entry(Some("_g"), true, true),
        entry(Some("_h"), false, false),
        entry(Some("_"), false, true),
        entry(None, false, true),
    ];
    let again = vec![entry(Some("_f"), false, true), entry(Some("_k"), true, false)];
    let info =
        inspect_object("x.dylib", "MachO", "Aarch64", &table, &again, "aarch64").expect("inspects");
    assert_eq!(info.defined_symbols.len(), 1);
    assert_eq!(info.defined_symbols.get(0), "f");
    assert_eq!(info.undefined_symbols.len(), 2);
    assert_eq!((info.undefined_symbols.get(0), info.undefined_symbols.get(1)), ("g", "k"));
    let err = inspect_object("x.dylib", "MachO", "Arm", &table, &again, "aarch64").expect_err("foreign");
    assert_eq!(err.code(), LeanLoaderDiagnosticCode::UnsupportedArchitecture);
}

#[test]
fn distinct_components_have_distinct_manglings() {
    let symbol = |package: &str| {
        InitializerName::from_lake_names(package, "M").expect("valid").symbol_str().to_owned()
    };
    assert_eq!(symbol("a_b"), "initialize_a__b_M");
    assert_eq!(symbol("a__b"), "initialize_a____b_M");
    assert_eq!(symbol("ab"), "initialize_ab_M");
}

#[test]
fn capability_calls_take_functions_only() {
    let mut cell = RuntimeCell::new();
    let mut depth = AttachDepth::new();
    let runtime = LeanRuntime::init(&mut cell, Some(InitRun::Completed), true, "4.29.1", &mut depth)
        .expect("init");
    let lean = LeanHost::from_lake_project(&runtime, "/p", true).expect("host");
    let answers = SymbolAnswers {
        session_import: Ok(1),
        name_from_string: Ok(2),
        env_query_declaration: Ok(3),
        env_query_declarations_bulk: Ok(4),
        env_list_declarations: Ok(5),
        env_declaration_type: Ok(6),
        env_declaration_kind: Ok(7),
        env_declaration_name: Ok(8),
        elaborate: Ok(9),
        elaborate_bulk: Ok(10),
        kernel_check: Ok(11),
        check_evidence: Ok(12),
        evidence_summary: Ok(13),
        meta_infer_type: Ok(14),
        meta_whnf: Ok(15),
        meta_heartbeat_burn: Ok(16),
    };
    let outcomes = LoadOutcomes {
        read: Ok(elf(X86_64, &[sym("f", true, TEXT), sym("x", true, DATA)], &[])),
        opened: Ok(()),
        initializer: io_unit(),
        symbols: answers,
    };
    let caps = lean.load_capabilities("pkg", "Lib", false, outcomes).expect("loads");
    let session = LeanSession::from_environment(&caps, Obj::Scalar(0));
    assert!(session.call_capability::<(u64,), u64>("f", (1,), Ok(64)).is_ok());
    let err = session
        .call_capability::<(u64,), u64>("x", (1,), Ok(128))
        .expect_err("a global variable is no function");
    assert_eq!(
        host(err).message(),
        "exported symbol 'x' in '/p/.lake/build/lib/libpkg_Lib.so' is a Lean nullary-constant \
         global, not a function; look it up with `exported_unchecked::<(), R>(name)` instead \
         (lookup arity is 1)"
    );
}
