//! Checks of a built capability before any of its code is loaded.
//!
//! A preflight looks at the manifest and at the bytes of every dylib it names,
//! and reports what would make opening the capability fail. Reading files,
//! resolving environment variables and comparing time stamps happen outside;
//! their outcomes come in as plain values.

use vstd::prelude::*;
use vstd::string::*;

use crate::error::{
    LeanError, bound_message, bounded_message, kept_of, linking_error, module_init_error,
};
use crate::module::initializer::{
    InitializerName, initializer_name, initializer_symbol, lake_names_error,
    legacy_initializer_symbol,
};
use crate::module::library::source_name_of;
use crate::module::loader::{
    LeanLoaderCheck, LeanLoaderCheckView, LeanLoaderDiagnosticCode, LeanLoaderReport,
    LeanLoaderReportView, LeanLoaderSeverity, check_views, checks_pass, error_check,
    first_error_index, lemma_first_error_index,
};
use crate::module::manifest::{
    ArtifactLocation, BuiltCapabilityArtifact, CapabilityManifest, LeanBuiltCapability,
    LeanLibraryDependency, LeanLibraryDependencyView, dependency_views,
};
use crate::module::symbols::{
    SymbolEntry, SymbolEntryView, SymbolSet, distinct_names, distinct_names_keep_each_once,
    entries, normalise_symbol_name,
    normalised, object_architecture, object_dynamic_symbols, object_format, object_refusal,
    object_symbols, prefixes_underscore, read_object_architecture, read_object_dynamic_symbols,
    read_object_format, read_object_symbols, refused_object, strips_underscore,
};
use crate::text::{
    bounding_keeps_the_longest_prefix, cat3, cat4, cat5, cat7, same_text, starts_with,
};

verus! {

/// What a dylib is to a capability.
#[derive(Copy, Clone, Debug, PartialEq, Eq, Structural)]
pub enum ArtifactRole {
    /// The capability's own dylib.
    Primary,
    /// A dylib that the capability depends on.
    Dependency,
}

impl ArtifactRole {
    /// The finding for an absent dylib.
    pub open spec fn spec_missing_code(self) -> LeanLoaderDiagnosticCode {
        match self {
            ArtifactRole::Primary => LeanLoaderDiagnosticCode::MissingPrimaryDylib,
            ArtifactRole::Dependency => LeanLoaderDiagnosticCode::MissingTransitiveDependency,
        }
    }

    /// How to repair an unreadable dylib.
    pub open spec fn spec_repair(self) -> Seq<char> {
        match self {
            ArtifactRole::Primary => {
                "rebuild the Lean capability through CargoLeanCapability and package the primary dylib"@
            },
            ArtifactRole::Dependency => {
                "rebuild the Lean capability through CargoLeanCapability and package every manifest dependency"@
            },
        }
    }

    fn missing_code(self) -> (r: LeanLoaderDiagnosticCode)
        ensures
            r == self.spec_missing_code(),
    {
        match self {
            ArtifactRole::Primary => LeanLoaderDiagnosticCode::MissingPrimaryDylib,
            ArtifactRole::Dependency => LeanLoaderDiagnosticCode::MissingTransitiveDependency,
        }
    }

    fn repair(self) -> (r: &'static str)
        ensures
            r@ == self.spec_repair(),
    {
        match self {
            ArtifactRole::Primary => {
                "rebuild the Lean capability through CargoLeanCapability and package the primary dylib"
            },
            ArtifactRole::Dependency => {
                "rebuild the Lean capability through CargoLeanCapability and package every manifest dependency"
            },
        }
    }
}

/// Why a file could not be read.
#[derive(Debug)]
pub struct ArtifactReadError {
    /// Whether the file does not exist.
    pub not_found: bool,
    /// The operating system's message.
    pub text: String,
}

/// The outcome of reading a dylib's file.
pub type ArtifactRead = Result<Vec<u8>, ArtifactReadError>;

/// Mathematical value of an [`ArtifactRead`].
pub enum ArtifactReadView {
    Bytes(Seq<u8>),
    Failed { not_found: bool, text: Seq<char> },
}

/// The mathematical value of the outcome of reading a file.
pub open spec fn read_view(read: ArtifactRead) -> ArtifactReadView {
    match read {
        Ok(bytes) => ArtifactReadView::Bytes(bytes@),
        Err(err) => ArtifactReadView::Failed { not_found: err.not_found, text: err.text@ },
    }
}

/// Mathematical value of an [`ArtifactInfo`].
pub struct ArtifactInfoView {
    pub defined: Seq<Seq<char>>,
    pub undefined: Seq<Seq<char>>,
}

/// The symbols that a dylib exports and imports.
#[derive(Debug)]
pub struct ArtifactInfo {
    /// Global symbols that the dylib defines.
    pub defined_symbols: SymbolSet,
    /// Symbols that the dylib imports.
    pub undefined_symbols: SymbolSet,
}

impl View for ArtifactInfo {
    type V = ArtifactInfoView;

    open spec fn view(&self) -> ArtifactInfoView {
        ArtifactInfoView { defined: self.defined_symbols@, undefined: self.undefined_symbols@ }
    }
}

/// Whether a dylib of the object-file architecture `architecture` runs in a
/// process of the Rust target architecture `host`.
pub open spec fn architecture_supported(host: Seq<char>, architecture: Seq<char>) -> bool {
    ||| host == "x86_64"@ && architecture == "X86_64"@
    ||| host == "aarch64"@ && architecture == "Aarch64"@
    ||| host == "arm"@ && architecture == "Arm"@
    ||| host == "x86"@ && architecture == "I386"@
}

/// Whether a dylib of the object-file architecture `architecture` runs in a
/// process of the Rust target architecture `host`.
pub fn architecture_matches_host(host: &str, architecture: &str) -> (r: bool)
    ensures
        r == architecture_supported(host@, architecture@),
{
    (same_text(host, "x86_64") && same_text(architecture, "X86_64")) || (same_text(host, "aarch64")
        && same_text(architecture, "Aarch64")) || (same_text(host, "arm") && same_text(
        architecture,
        "Arm",
    )) || (same_text(host, "x86") && same_text(architecture, "I386"))
}

/// Whether a symbol is one that Lean dependency dylibs provide.
pub open spec fn lean_dependency_symbol(symbol: Seq<char>) -> bool {
    "LeanRs"@.is_prefix_of(symbol) || "lean_rs_"@.is_prefix_of(symbol)
        || "initialize_LeanRs"@.is_prefix_of(symbol)
}

/// Whether a symbol is one that Lean dependency dylibs provide.
pub fn is_lean_dependency_symbol(symbol: &str) -> (r: bool)
    ensures
        r == lean_dependency_symbol(symbol@),
{
    starts_with(symbol, "LeanRs") || starts_with(symbol, "lean_rs_") || starts_with(
        symbol,
        "initialize_LeanRs",
    )
}

/// The finding for a dylib that could not be read.
pub open spec fn read_failure_check(
    path: Seq<char>,
    role: ArtifactRole,
    not_found: bool,
    text: Seq<char>,
) -> LeanLoaderCheckView {
    error_check(
        if not_found {
            role.spec_missing_code()
        } else {
            LeanLoaderDiagnosticCode::UnsupportedArchitecture
        },
        path,
        "failed to read Lean dylib '"@ + path + "': "@ + text,
        role.spec_repair(),
    )
}

/// The finding for a dylib whose bytes are no object file.
pub open spec fn parse_failure_check(path: Seq<char>, text: Seq<char>) -> LeanLoaderCheckView {
    error_check(
        LeanLoaderDiagnosticCode::UnsupportedArchitecture,
        path,
        "Lean dylib '"@ + path + "' is not a supported native object for this platform: "@ + text,
        "rebuild the Lean capability for the current target architecture"@,
    )
}

/// The finding for a dylib of another architecture.
pub open spec fn architecture_check(
    path: Seq<char>,
    architecture: Seq<char>,
    host: Seq<char>,
) -> LeanLoaderCheckView {
    error_check(
        LeanLoaderDiagnosticCode::UnsupportedArchitecture,
        path,
        "Lean dylib '"@ + path + "' has architecture "@ + architecture + ", but this process is "@
            + host,
        "rebuild the Lean capability for the current target architecture"@,
    )
}

/// The usable name of a symbol table entry.
pub open spec fn entry_name(entry: SymbolEntryView, strip: bool) -> Option<Seq<char>> {
    match entry.name {
        Some(name) => if normalised(name, strip).len() > 0 {
            Some(normalised(name, strip))
        } else {
            None
        },
        None => None,
    }
}

/// The name that an entry exports.
pub open spec fn defined_name(entry: SymbolEntryView, strip: bool) -> Option<Seq<char>> {
    if !entry.undefined && entry.global {
        entry_name(entry, strip)
    } else {
        None
    }
}

/// The name that an entry imports.
pub open spec fn undefined_name(entry: SymbolEntryView, strip: bool) -> Option<Seq<char>> {
    if entry.undefined {
        entry_name(entry, strip)
    } else {
        None
    }
}

/// The names that a symbol table exports and imports.
pub open spec fn table_symbols(table: Seq<SymbolEntryView>, strip: bool) -> ArtifactInfoView {
    ArtifactInfoView {
        defined: distinct_names(table.map_values(|e: SymbolEntryView| defined_name(e, strip))),
        undefined: distinct_names(table.map_values(|e: SymbolEntryView| undefined_name(e, strip))),
    }
}

/// What is found of a dylib with the given format, architecture and symbol
/// tables.
pub open spec fn inspected_object(
    path: Seq<char>,
    format: Seq<char>,
    architecture: Seq<char>,
    symbols: Seq<SymbolEntryView>,
    dynamic_symbols: Seq<SymbolEntryView>,
    host: Seq<char>,
) -> Result<ArtifactInfoView, LeanLoaderCheckView> {
    if architecture_supported(host, architecture) {
        Ok(table_symbols(symbols + dynamic_symbols, prefixes_underscore(format)))
    } else {
        Err(architecture_check(path, architecture, host))
    }
}

/// What is found of a dylib, given the outcome of reading its file.
pub open spec fn inspected(
    path: Seq<char>,
    role: ArtifactRole,
    read: ArtifactReadView,
    host: Seq<char>,
) -> Result<ArtifactInfoView, LeanLoaderCheckView> {
    match read {
        ArtifactReadView::Failed { not_found, text } => Err(
            read_failure_check(path, role, not_found, text),
        ),
        ArtifactReadView::Bytes(bytes) => match object_refusal(bytes) {
            Some(text) => Err(parse_failure_check(path, text)),
            None => inspected_object(
                path,
                object_format(bytes),
                object_architecture(bytes),
                object_symbols(bytes),
                object_dynamic_symbols(bytes),
                host,
            ),
        },
    }
}

/// The mathematical value of what was found of a dylib.
pub open spec fn info_view(
    r: Result<ArtifactInfo, LeanLoaderCheck>,
) -> Result<ArtifactInfoView, LeanLoaderCheckView> {
    match r {
        Ok(info) => Ok(info@),
        Err(check) => Err(check@),
    }
}

/// Sorts the symbols of one table into exports and imports, behind those that
/// `info` already holds.
fn add_table(
    info: &mut ArtifactInfo,
    table: &Vec<SymbolEntry>,
    strip: bool,
    Ghost(before): Ghost<Seq<SymbolEntryView>>,
)
    requires
        old(info)@ == table_symbols(before, strip),
    ensures
        final(info)@ == table_symbols(before + entries(table@), strip),
{
    let ghost defined = |e: SymbolEntryView| defined_name(e, strip);
    let ghost undefined = |e: SymbolEntryView| undefined_name(e, strip);
    let ghost views = entries(table@);
    let mut i: usize = 0;
    assert(before + views.take(0) =~= before);
    while i < table.len()
        invariant
            i <= table@.len(),
            views == entries(table@),
            defined == (|e: SymbolEntryView| defined_name(e, strip)),
            undefined == (|e: SymbolEntryView| undefined_name(e, strip)),
            info@ == table_symbols(before + views.take(i as int), strip),
        decreases table@.len() - i,
    {
        let entry: &SymbolEntry = &table[i];
        proof {
            let now = before + views.take(i as int);
            let next = before + views.take(i as int + 1);
            assert(next =~= now.push(entry@));
            assert(next.map_values(defined).drop_last() =~= now.map_values(defined));
            assert(next.map_values(undefined).drop_last() =~= now.map_values(undefined));
            assert(next.map_values(defined).last() == defined_name(entry@, strip));
            assert(next.map_values(undefined).last() == undefined_name(entry@, strip));
        }
        match &entry.name {
            Some(name) => {
                let clean: String = normalise_symbol_name(name.as_str(), strip);
                if !clean.as_str().is_empty() {
                    if entry.undefined {
                        info.undefined_symbols.insert(clean.as_str());
                    } else if entry.global {
                        info.defined_symbols.insert(clean.as_str());
                    }
                }
            },
            None => {},
        }
        i = i + 1;
    }
    assert(views.take(views.len() as int) =~= views);
}

/// Sorts the symbols of a dylib's two tables into exports and imports.
pub fn collect_symbols(
    format: &str,
    symbols: &Vec<SymbolEntry>,
    dynamic_symbols: &Vec<SymbolEntry>,
) -> (r: ArtifactInfo)
    ensures
        r@ == table_symbols(
            entries(symbols@) + entries(dynamic_symbols@),
            prefixes_underscore(format@),
        ),
{
    let strip: bool = strips_underscore(format);
    let mut info: ArtifactInfo = ArtifactInfo {
        defined_symbols: SymbolSet::new(),
        undefined_symbols: SymbolSet::new(),
    };
    let ghost none = Seq::<SymbolEntryView>::empty();
    add_table(&mut info, symbols, strip, Ghost(none));
    assert(none + entries(symbols@) =~= entries(symbols@));
    add_table(&mut info, dynamic_symbols, strip, Ghost(entries(symbols@)));
    info
}

/// Rejects a dylib of an architecture that this process cannot run.
pub fn check_architecture(path: &str, architecture: &str, host: &str) -> (r: Option<
    LeanLoaderCheck,
>)
    ensures
        match r {
            None => architecture_supported(host@, architecture@),
            Some(check) => !architecture_supported(host@, architecture@) && check@
                == architecture_check(path@, architecture@, host@),
        },
{
    if architecture_matches_host(host, architecture) {
        None
    } else {
        let head: String = cat3("Lean dylib '", path, "' has architecture ");
        Some(
            LeanLoaderCheck::error(
                LeanLoaderDiagnosticCode::UnsupportedArchitecture,
                path.to_owned(),
                cat4(head.as_str(), architecture, ", but this process is ", host),
                "rebuild the Lean capability for the current target architecture",
            ),
        )
    }
}

/// Inspects a dylib whose format, architecture and symbol tables have been read.
pub fn inspect_object(
    path: &str,
    format: &str,
    architecture: &str,
    symbols: &Vec<SymbolEntry>,
    dynamic_symbols: &Vec<SymbolEntry>,
    host: &str,
) -> (r: Result<ArtifactInfo, LeanLoaderCheck>)
    ensures
        info_view(r) == inspected_object(
            path@,
            format@,
            architecture@,
            entries(symbols@),
            entries(dynamic_symbols@),
            host@,
        ),
{
    match check_architecture(path, architecture, host) {
        Some(check) => Err(check),
        None => Ok(collect_symbols(format, symbols, dynamic_symbols)),
    }
}

/// Reports a dylib that could not be read.
pub fn unreadable_artifact(path: &str, role: ArtifactRole, err: &ArtifactReadError) -> (r:
    LeanLoaderCheck)
    ensures
        r@ == read_failure_check(path@, role, err.not_found, err.text@),
{
    let code: LeanLoaderDiagnosticCode = if err.not_found {
        role.missing_code()
    } else {
        LeanLoaderDiagnosticCode::UnsupportedArchitecture
    };
    LeanLoaderCheck::error(
        code,
        path.to_owned(),
        cat4("failed to read Lean dylib '", path, "': ", err.text.as_str()),
        role.repair(),
    )
}

/// Reports a dylib whose bytes are no object file.
pub fn unparsable_artifact(path: &str, text: &str) -> (r: LeanLoaderCheck)
    ensures
        r@ == parse_failure_check(path@, text@),
{
    LeanLoaderCheck::error(
        LeanLoaderDiagnosticCode::UnsupportedArchitecture,
        path.to_owned(),
        cat4(
            "Lean dylib '",
            path,
            "' is not a supported native object for this platform: ",
            text,
        ),
        "rebuild the Lean capability for the current target architecture",
    )
}

/// Inspects a dylib, given the outcome of reading its file.
pub fn inspect_artifact(path: &str, role: ArtifactRole, read: &ArtifactRead, host: &str) -> (r:
    Result<ArtifactInfo, LeanLoaderCheck>)
    ensures
        info_view(r) == inspected(path@, role, read_view(*read), host@),
{
    let bytes: &[u8] = match read {
        Err(err) => {
            return Err(unreadable_artifact(path, role, err));
        },
        Ok(bytes) => bytes.as_slice(),
    };
    match refused_object(bytes) {
        Some(text) => {
            return Err(unparsable_artifact(path, text.as_str()));
        },
        None => {},
    }
    let architecture: String = read_object_architecture(bytes);
    match check_architecture(path, architecture.as_str(), host) {
        Some(check) => Err(check),
        None => {
            let format: String = read_object_format(bytes);
            let symbols: Vec<SymbolEntry> = read_object_symbols(bytes);
            let dynamic_symbols: Vec<SymbolEntry> = read_object_dynamic_symbols(bytes);
            Ok(collect_symbols(format.as_str(), &symbols, &dynamic_symbols))
        },
    }
}

/// The subject of a finding on a module.
pub open spec fn module_subject(package: Seq<char>, module: Seq<char>) -> Seq<char> {
    package + "/"@ + module
}

/// The findings on the initializer of a capability whose dylib exports
/// `defined`: none, where one of its two symbols is exported.
pub open spec fn initializer_checks(
    package: Seq<char>,
    module: Seq<char>,
    primary_dylib: Seq<char>,
    defined: Seq<Seq<char>>,
) -> Seq<LeanLoaderCheckView> {
    match lake_names_error(package, module) {
        Some(message) => seq![
            error_check(
                LeanLoaderDiagnosticCode::MalformedManifest,
                module_subject(package, module),
                linking_error(message).text(),
                "rebuild the manifest with valid Lake package and module names"@,
            ),
        ],
        None => {
            let name = initializer_name(package, module);
            if defined.contains(name.symbol) || defined.contains(name.legacy_symbol) {
                Seq::empty()
            } else {
                seq![
                    error_check(
                        LeanLoaderDiagnosticCode::MissingInitializer,
                        module_subject(package, module),
                        "primary dylib '"@ + primary_dylib + "' does not export initializer '"@
                            + name.symbol + "' or '"@ + name.legacy_symbol + "'"@,
                        "check the package/module names and rebuild the Lean capability shared target"@,
                    ),
                ]
            }
        },
    }
}

/// Checks that the primary dylib exports the initializer of its module.
pub fn check_initializer(
    manifest: &CapabilityManifest,
    primary: &ArtifactInfo,
    checks: &mut Vec<LeanLoaderCheck>,
)
    ensures
        check_views(final(checks)@) == check_views(old(checks)@) + initializer_checks(
            manifest.package@,
            manifest.module@,
            manifest.primary_dylib@,
            primary@.defined,
        ),
{
    let package: &str = manifest.package.as_str();
    let module: &str = manifest.module.as_str();
    let ghost before = check_views(checks@);
    let initializer: InitializerName = match InitializerName::from_lake_names(package, module) {
        Ok(initializer) => initializer,
        Err(err) => {
            checks.push(
                LeanLoaderCheck::error(
                    LeanLoaderDiagnosticCode::MalformedManifest,
                    cat3(package, "/", module),
                    err.render(),
                    "rebuild the manifest with valid Lake package and module names",
                ),
            );
            assert(check_views(checks@) =~= before + initializer_checks(
                manifest.package@,
                manifest.module@,
                manifest.primary_dylib@,
                primary@.defined,
            ));
            return;
        },
    };
    if primary.defined_symbols.contains(initializer.symbol_str())
        || primary.defined_symbols.contains(initializer.legacy_symbol_str()) {
        assert(before + Seq::<LeanLoaderCheckView>::empty() =~= before);
        return;
    }
    checks.push(
        LeanLoaderCheck::error(
            LeanLoaderDiagnosticCode::MissingInitializer,
            cat3(package, "/", module),
            cat7(
                "primary dylib '",
                manifest.primary_dylib.as_str(),
                "' does not export initializer '",
                initializer.symbol_str(),
                "' or '",
                initializer.legacy_symbol_str(),
                "'",
            ),
            "check the package/module names and rebuild the Lean capability shared target",
        ),
    );
    assert(check_views(checks@) =~= before + initializer_checks(
        manifest.package@,
        manifest.module@,
        manifest.primary_dylib@,
        primary@.defined,
    ));
}

/// Whether an imported symbol should come from a dependency and does not.
pub open spec fn unprovided(symbol: Seq<char>, exports: Set<Seq<char>>) -> bool {
    lean_dependency_symbol(symbol) && !exports.contains(symbol)
}

/// The first unprovided symbol at or after `from`, or the end.
pub open spec fn first_unprovided(
    undefined: Seq<Seq<char>>,
    exports: Set<Seq<char>>,
    from: int,
) -> int
    decreases undefined.len() - from,
{
    if from >= undefined.len() || unprovided(undefined[from], exports) {
        from
    } else {
        first_unprovided(undefined, exports, from + 1)
    }
}

/// The findings on a capability whose dylib imports `undefined` while its
/// dependencies provide `exports`: at most one, on the first unprovided symbol.
pub open spec fn imported_symbol_checks(
    primary_dylib: Seq<char>,
    undefined: Seq<Seq<char>>,
    exports: Set<Seq<char>>,
) -> Seq<LeanLoaderCheckView> {
    let i = first_unprovided(undefined, exports, 0);
    if i < undefined.len() {
        seq![
            error_check(
                LeanLoaderDiagnosticCode::MissingImportedSymbol,
                undefined[i],
                "primary dylib '"@ + primary_dylib + "' imports Lean symbol '"@ + undefined[i]
                    + "' that is not provided by the manifest dependencies"@,
                "rebuild the Lean capability through CargoLeanCapability so dependency dylibs are recorded in the manifest"@,
            ),
        ]
    } else {
        Seq::empty()
    }
}

proof fn lemma_first_unprovided(undefined: Seq<Seq<char>>, exports: Set<Seq<char>>, from: int)
    requires
        0 <= from <= undefined.len(),
    ensures
        from <= first_unprovided(undefined, exports, from) <= undefined.len(),
        first_unprovided(undefined, exports, from) < undefined.len() ==> unprovided(
            undefined[first_unprovided(undefined, exports, from)],
            exports,
        ),
        forall|i: int|
            from <= i < first_unprovided(undefined, exports, from) ==> !unprovided(
                #[trigger] undefined[i],
                exports,
            ),
    decreases undefined.len() - from,
{
    if from < undefined.len() && !unprovided(undefined[from], exports) {
        lemma_first_unprovided(undefined, exports, from + 1);
    }
}

/// A dylib passes the check of its imports exactly when every Lean symbol it
/// imports is provided by its dependencies.
pub proof fn imports_pass_iff_all_provided(
    primary_dylib: Seq<char>,
    undefined: Seq<Seq<char>>,
    exports: Set<Seq<char>>,
)
    ensures
        imported_symbol_checks(primary_dylib, undefined, exports).len() == 0 <==> forall|i: int|
            0 <= i < undefined.len() && lean_dependency_symbol(#[trigger] undefined[i])
                ==> exports.contains(undefined[i]),
{
    lemma_first_unprovided(undefined, exports, 0);
    let i = first_unprovided(undefined, exports, 0);
    if i < undefined.len() {
        assert(unprovided(undefined[i], exports));
    } else {
        assert forall|j: int|
            0 <= j < undefined.len() && lean_dependency_symbol(
                #[trigger] undefined[j],
            ) implies exports.contains(undefined[j]) by {
            assert(!unprovided(undefined[j], exports));
        }
    }
}

/// Checks that the dependencies provide the Lean symbols that the primary
/// dylib imports.
pub fn check_imported_symbols(
    manifest: &CapabilityManifest,
    primary: &ArtifactInfo,
    dependency_exports: &SymbolSet,
    checks: &mut Vec<LeanLoaderCheck>,
)
    ensures
        check_views(final(checks)@) == check_views(old(checks)@) + imported_symbol_checks(
            manifest.primary_dylib@,
            primary@.undefined,
            dependency_exports@.to_set(),
        ),
{
    let ghost before = check_views(checks@);
    let ghost undefined = primary@.undefined;
    let ghost exports = dependency_exports@.to_set();
    let mut i: usize = 0;
    while i < primary.undefined_symbols.len()
        invariant
            i <= undefined.len(),
            undefined == primary@.undefined,
            exports == dependency_exports@.to_set(),
            before == check_views(checks@),
            before == check_views(old(checks)@),
            first_unprovided(undefined, exports, 0) == first_unprovided(
                undefined,
                exports,
                i as int,
            ),
        decreases undefined.len() - i,
    {
        let symbol: &str = primary.undefined_symbols.get(i);
        if is_lean_dependency_symbol(symbol) && !dependency_exports.contains(symbol) {
            checks.push(
                LeanLoaderCheck::error(
                    LeanLoaderDiagnosticCode::MissingImportedSymbol,
                    symbol.to_owned(),
                    cat5(
                        "primary dylib '",
                        manifest.primary_dylib.as_str(),
                        "' imports Lean symbol '",
                        symbol,
                        "' that is not provided by the manifest dependencies",
                    ),
                    "rebuild the Lean capability through CargoLeanCapability so dependency dylibs are recorded in the manifest",
                ),
            );
            assert(check_views(checks@) =~= before + imported_symbol_checks(
                manifest.primary_dylib@,
                undefined,
                exports,
            ));
            return;
        }
        i = i + 1;
    }
    assert(before + Seq::<LeanLoaderCheckView>::empty() =~= before);
}

/// What the first `n` dependencies export.
pub open spec fn dependency_exports(
    dependencies: Seq<LeanLibraryDependencyView>,
    reads: Seq<ArtifactReadView>,
    host: Seq<char>,
    n: int,
) -> Set<Seq<char>>
    decreases n,
{
    if n <= 0 {
        Set::empty()
    } else {
        let before = dependency_exports(dependencies, reads, host, n - 1);
        match inspected(dependencies[n - 1].path, ArtifactRole::Dependency, reads[n - 1], host) {
            Ok(info) => before.union(info.defined.to_set()),
            Err(_) => before,
        }
    }
}

/// The findings on the first `n` dependencies.
pub open spec fn dependency_checks(
    dependencies: Seq<LeanLibraryDependencyView>,
    reads: Seq<ArtifactReadView>,
    host: Seq<char>,
    n: int,
) -> Seq<LeanLoaderCheckView>
    decreases n,
{
    if n <= 0 {
        Seq::empty()
    } else {
        let before = dependency_checks(dependencies, reads, host, n - 1);
        match inspected(dependencies[n - 1].path, ArtifactRole::Dependency, reads[n - 1], host) {
            Ok(_) => before,
            Err(check) => before.push(check),
        }
    }
}

/// The findings on the primary dylib.
pub open spec fn primary_checks(
    package: Seq<char>,
    module: Seq<char>,
    primary_dylib: Seq<char>,
    read: ArtifactReadView,
    exports: Set<Seq<char>>,
    host: Seq<char>,
) -> Seq<LeanLoaderCheckView> {
    match inspected(primary_dylib, ArtifactRole::Primary, read, host) {
        Ok(info) => initializer_checks(package, module, primary_dylib, info.defined)
            + imported_symbol_checks(primary_dylib, info.undefined, exports),
        Err(check) => seq![check],
    }
}

/// The outcomes of reading a capability's dylibs.
#[derive(Debug)]
pub struct ArtifactReads {
    /// One outcome per dependency of the manifest, in its order.
    pub dependencies: Vec<ArtifactRead>,
    /// The outcome for the primary dylib.
    pub primary: ArtifactRead,
}

/// The mathematical values of a sequence of outcomes.
pub open spec fn read_views(reads: Seq<ArtifactRead>) -> Seq<ArtifactReadView> {
    Seq::new(reads.len(), |i: int| read_view(reads[i]))
}

/// All findings on a manifest that was read.
pub open spec fn manifest_checks(
    manifest: CapabilityManifest,
    findings: Seq<LeanLoaderCheckView>,
    reads: ArtifactReads,
    host: Seq<char>,
) -> Seq<LeanLoaderCheckView> {
    let dependencies = dependency_views(manifest.dependencies@);
    let dependency_reads = read_views(reads.dependencies@);
    let n = dependencies.len() as int;
    findings + dependency_checks(dependencies, dependency_reads, host, n) + primary_checks(
        manifest.package@,
        manifest.module@,
        manifest.primary_dylib@,
        read_view(reads.primary),
        dependency_exports(dependencies, dependency_reads, host, n),
        host,
    )
}

/// The outcome of reading a manifest.
#[derive(Debug)]
pub enum ManifestRead {
    /// The manifest is absent, malformed or of an unknown schema.
    Unreadable(LeanLoaderCheck),
    /// The manifest was read.
    Read {
        /// Its content.
        manifest: CapabilityManifest,
        /// The findings on its toolchain fingerprint and its age.
        findings: Vec<LeanLoaderCheck>,
        /// The outcomes of reading the dylibs that it names.
        artifacts: ArtifactReads,
    },
}

impl ManifestRead {
    /// There is one read outcome per dependency.
    pub open spec fn complete(self) -> bool {
        match self {
            ManifestRead::Unreadable(_) => true,
            ManifestRead::Read { manifest, artifacts, .. } => artifacts.dependencies@.len()
                == manifest.dependencies@.len(),
        }
    }

    /// All findings that the outcome gives rise to.
    pub open spec fn checks(self, host: Seq<char>) -> Seq<LeanLoaderCheckView> {
        match self {
            ManifestRead::Unreadable(check) => seq![check@],
            ManifestRead::Read { manifest, findings, artifacts } => manifest_checks(
                manifest,
                check_views(findings@),
                artifacts,
                host,
            ),
        }
    }
}

/// Adds every name of `names` to `set`.
fn add_all(set: &mut SymbolSet, names: &SymbolSet)
    ensures
        final(set)@.to_set() == old(set)@.to_set().union(names@.to_set()),
{
    let ghost before = set@.to_set();
    let mut i: usize = 0;
    assert(before =~= before.union(names@.take(0).to_set()));
    while i < names.len()
        invariant
            i <= names@.len(),
            set@.to_set() == before.union(names@.take(i as int).to_set()),
        decreases names@.len() - i,
    {
        let ghost now = set@;
        let name: &str = names.get(i);
        set.insert(name);
        proof {
            assert(names@.take(i as int + 1) =~= names@.take(i as int).push(name@));
            lemma_push_to_set(names@.take(i as int), name@);
            lemma_push_to_set(now, name@);
            assert(set@.to_set() =~= now.to_set().insert(name@));
            assert(set@.to_set() =~= before.union(names@.take(i as int + 1).to_set()));
        }
        i = i + 1;
    }
    assert(names@.take(names@.len() as int) =~= names@);
}

proof fn lemma_push_to_set(s: Seq<Seq<char>>, x: Seq<char>)
    ensures
        s.push(x).to_set() == s.to_set().insert(x),
{
    let t = s.push(x);
    assert forall|y: Seq<char>| t.to_set().contains(y) <==> s.to_set().insert(x).contains(y) by {
        if s.contains(y) {
            let i = choose|i: int| 0 <= i < s.len() && s[i] == y;
            assert(t[i] == y);
        }
        if y == x {
            assert(t[s.len() as int] == y);
        }
        if t.contains(y) {
            let i = choose|i: int| 0 <= i < t.len() && t[i] == y;
            if i < s.len() {
                assert(s[i] == y);
            }
        }
    }
    assert(t.to_set() =~= s.to_set().insert(x));
}

/// Checks a manifest that was read, and the dylibs that it names.
pub fn check_manifest(
    manifest: &CapabilityManifest,
    findings: Vec<LeanLoaderCheck>,
    artifacts: &ArtifactReads,
    host: &str,
) -> (r: Vec<LeanLoaderCheck>)
    requires
        artifacts.dependencies@.len() == manifest.dependencies@.len(),
    ensures
        check_views(r@) == manifest_checks(*manifest, check_views(findings@), *artifacts, host@),
{
    let ghost found = check_views(findings@);
    let ghost dependencies = dependency_views(manifest.dependencies@);
    let ghost reads = read_views(artifacts.dependencies@);
    let mut checks: Vec<LeanLoaderCheck> = findings;
    let mut exports: SymbolSet = SymbolSet::new();
    let mut i: usize = 0;
    assert(found + dependency_checks(dependencies, reads, host@, 0) =~= found);
    assert(exports@.to_set() =~= Set::empty());
    while i < manifest.dependencies.len()
        invariant
            i <= manifest.dependencies@.len(),
            artifacts.dependencies@.len() == manifest.dependencies@.len(),
            dependencies == dependency_views(manifest.dependencies@),
            reads == read_views(artifacts.dependencies@),
            check_views(checks@) == found + dependency_checks(dependencies, reads, host@, i as int),
            exports@.to_set() == dependency_exports(dependencies, reads, host@, i as int),
        decreases manifest.dependencies@.len() - i,
    {
        let dependency: &LeanLibraryDependency = &manifest.dependencies[i];
        let ghost now = check_views(checks@);
        match inspect_artifact(
            dependency.path_ref(),
            ArtifactRole::Dependency,
            &artifacts.dependencies[i],
            host,
        ) {
            Ok(info) => {
                add_all(&mut exports, &info.defined_symbols);
            },
            Err(check) => {
                checks.push(check);
                assert(check_views(checks@) =~= now.push(check@));
                assert(check_views(checks@) =~= found + dependency_checks(
                    dependencies,
                    reads,
                    host@,
                    i as int + 1,
                ));
            },
        }
        i = i + 1;
    }
    let ghost inspected_so_far = check_views(checks@);
    match inspect_artifact(
        manifest.primary_dylib.as_str(),
        ArtifactRole::Primary,
        &artifacts.primary,
        host,
    ) {
        Ok(info) => {
            check_initializer(manifest, &info, &mut checks);
            check_imported_symbols(manifest, &info, &exports, &mut checks);
        },
        Err(check) => {
            checks.push(check);
            assert(check_views(checks@) =~= inspected_so_far.push(check@));
        },
    }
    assert(check_views(checks@) =~= manifest_checks(*manifest, found, *artifacts, host@));
    checks
}

/// The preflight of one built capability.
#[derive(Clone, Debug, PartialEq, Eq)]
pub struct LeanRuntimePreflight {
    spec: LeanBuiltCapability,
}

/// The preflight of one built capability.
pub type LeanCapabilityPreflight = LeanRuntimePreflight;

/// The finding for a manifest whose path could not be resolved.
pub open spec fn unresolved_manifest_check(text: Seq<char>) -> LeanLoaderCheckView {
    error_check(
        LeanLoaderDiagnosticCode::MissingManifest,
        "manifest"@,
        text,
        "rebuild the Lean capability through CargoLeanCapability and embed the manifest env var"@,
    )
}

impl LeanRuntimePreflight {
    /// The capability under check.
    pub closed spec fn spec_capability(self) -> LeanBuiltCapability {
        self.spec
    }

    /// Prepares the preflight of a capability.
    #[must_use]
    pub fn new(spec: LeanBuiltCapability) -> (r: LeanRuntimePreflight)
        ensures
            r.spec_capability() == spec,
    {
        LeanRuntimePreflight { spec }
    }

    /// Resolves the manifest's path, given the value of the environment
    /// variable that the capability names; a path that cannot be resolved is
    /// reported as a missing manifest.
    pub fn manifest_path(&self, env_value: Option<&str>) -> (r: Result<String, LeanLoaderReport>)
        ensures
            ({
                let location = self.spec_capability().manifest;
                let value = match env_value {
                    Some(text) => Some(text@),
                    None => None,
                };
                match location.resolved(value) {
                    Some(path) => r matches Ok(p) && p@ == path,
                    None => r matches Err(report) && report@.manifest_path is None
                        && report@.checks == seq![
                        unresolved_manifest_check(
                            match location {
                                ArtifactLocation::Env(name) => "environment variable '"@ + name@
                                    + "' for the Lean capability "@ + "manifest"@ + " is not set"@,
                                _ => "the Lean capability "@ + "manifest"@
                                    + " path is not configured"@,
                            },
                        ),
                    ],
                }
            }),
    {
        match self.spec.manifest.resolve(BuiltCapabilityArtifact::Manifest, env_value) {
            Ok(path) => Ok(path),
            Err(err) => {
                let check: LeanLoaderCheck = LeanLoaderCheck::error(
                    LeanLoaderDiagnosticCode::MissingManifest,
                    "manifest".to_owned(),
                    err.render(),
                    "rebuild the Lean capability through CargoLeanCapability and embed the manifest env var",
                );
                let ghost finding = check@;
                let report: LeanLoaderReport = LeanLoaderReport::new(None, vec![check]);
                assert(report@.checks =~= seq![finding]);
                Err(report)
            },
        }
    }

    /// Reports on the manifest at `manifest_path` and on the dylibs that it
    /// names, given the outcomes of reading them.
    #[must_use]
    pub fn check(&self, manifest_path: String, read: ManifestRead, host: &str) -> (r:
        LeanLoaderReport)
        requires
            read.complete(),
        ensures
            r@ == (LeanLoaderReportView {
                manifest_path: Some(manifest_path@),
                checks: read.checks(host@),
            }),
    {
        match read {
            ManifestRead::Unreadable(check) => {
                let ghost finding = check@;
                let report: LeanLoaderReport = LeanLoaderReport::new(
                    Some(manifest_path),
                    vec![check],
                );
                assert(report@.checks =~= seq![finding]);
                report
            },
            ManifestRead::Read { manifest, findings, artifacts } => {
                let checks: Vec<LeanLoaderCheck> = check_manifest(
                    &manifest,
                    findings,
                    &artifacts,
                    host,
                );
                LeanLoaderReport::new(Some(manifest_path), checks)
            },
        }
    }
}

/// The message of the error that stands for a report.
pub open spec fn report_message(checks: Seq<LeanLoaderCheckView>) -> Seq<char> {
    let i = first_error_index(checks, 0);
    if i < checks.len() {
        bounded_message(
            checks[i].code.spec_as_str() + ": "@ + checks[i].message + ". repair: "@
                + checks[i].repair_hint,
        )
    } else {
        "Lean capability preflight failed without a recorded finding"@
    }
}

/// Turns a report into the error for its first finding of error severity.
pub fn report_into_error(report: LeanLoaderReport) -> (r: LeanError)
    ensures
        r@ == module_init_error(report_message(report@.checks)),
{
    match report.first_error() {
        Some(first) => LeanError::module_init(
            bound_message(
                cat5(
                    first.code().as_str(),
                    ": ",
                    first.message(),
                    ". repair: ",
                    first.repair_hint(),
                ),
            ),
        ),
        None => {
            proof {
                lemma_first_error_index(report@.checks, 0);
            }
            LeanError::module_init(
                "Lean capability preflight failed without a recorded finding".to_owned(),
            )
        },
    }
}

/// Turns a single finding on a manifest into an error.
pub fn manifest_error_to_lean_error(check: LeanLoaderCheck) -> (r: LeanError)
    ensures
        r@ == module_init_error(report_message(seq![check@])),
{
    let ghost finding = check@;
    let report: LeanLoaderReport = LeanLoaderReport::new(None, vec![check]);
    assert(report@.checks =~= seq![finding]);
    report_into_error(report)
}

proof fn lemma_dependency_checks_are_errors(
    dependencies: Seq<LeanLibraryDependencyView>,
    reads: Seq<ArtifactReadView>,
    host: Seq<char>,
    n: int,
)
    requires
        0 <= n <= dependencies.len(),
        n <= reads.len(),
    ensures
        forall|k: int|
            0 <= k < dependency_checks(dependencies, reads, host, n).len() ==> (
            #[trigger] dependency_checks(dependencies, reads, host, n)[k]).severity
                == LeanLoaderSeverity::Error,
        dependency_checks(dependencies, reads, host, n).len() == 0 ==> forall|i: int|
            0 <= i < n ==> inspected(
                (#[trigger] dependencies[i]).path,
                ArtifactRole::Dependency,
                reads[i],
                host,
            ) is Ok,
    decreases n,
{
    if n > 0 {
        lemma_dependency_checks_are_errors(dependencies, reads, host, n - 1);
    }
}

/// A capability whose report is clean can be opened as far as its files show:
/// every dependency and the primary dylib were read, parse, and run on this
/// architecture; the package and module names are valid; the primary dylib
/// exports one of its module's initializer symbols; and the dependencies
/// provide every Lean symbol that it imports.
pub proof fn clean_report_means_loadable(
    manifest: CapabilityManifest,
    findings: Seq<LeanLoaderCheckView>,
    reads: ArtifactReads,
    host: Seq<char>,
)
    requires
        reads.dependencies@.len() == manifest.dependencies@.len(),
        checks_pass(manifest_checks(manifest, findings, reads, host)),
    ensures
        forall|i: int|
            0 <= i < manifest.dependencies@.len() ==> inspected(
                (#[trigger] manifest.dependencies@[i])@.path,
                ArtifactRole::Dependency,
                read_view(reads.dependencies@[i]),
                host,
            ) is Ok,
        inspected(
            manifest.primary_dylib@,
            ArtifactRole::Primary,
            read_view(reads.primary),
            host,
        ) matches Ok(info) && ({
            let name = initializer_name(manifest.package@, manifest.module@);
            &&& lake_names_error(manifest.package@, manifest.module@) is None
            &&& info.defined.contains(name.symbol) || info.defined.contains(name.legacy_symbol)
            &&& forall|j: int|
                0 <= j < info.undefined.len() && lean_dependency_symbol(
                    #[trigger] info.undefined[j],
                ) ==> dependency_exports(
                    dependency_views(manifest.dependencies@),
                    read_views(reads.dependencies@),
                    host,
                    manifest.dependencies@.len() as int,
                ).contains(info.undefined[j])
        }),
{
    let dependencies = dependency_views(manifest.dependencies@);
    let dependency_reads = read_views(reads.dependencies@);
    let n = dependencies.len() as int;
    let all = manifest_checks(manifest, findings, reads, host);
    let of_dependencies = dependency_checks(dependencies, dependency_reads, host, n);
    let exports = dependency_exports(dependencies, dependency_reads, host, n);
    let of_primary = primary_checks(
        manifest.package@,
        manifest.module@,
        manifest.primary_dylib@,
        read_view(reads.primary),
        exports,
        host,
    );
    lemma_dependency_checks_are_errors(dependencies, dependency_reads, host, n);
    if of_dependencies.len() > 0 {
        assert(all[findings.len() as int] == of_dependencies[0]);
    }
    assert forall|i: int| 0 <= i < manifest.dependencies@.len() implies inspected(
        (#[trigger] manifest.dependencies@[i])@.path,
        ArtifactRole::Dependency,
        read_view(reads.dependencies@[i]),
        host,
    ) is Ok by {
        assert(dependencies[i] == manifest.dependencies@[i]@);
        assert(dependency_reads[i] == read_view(reads.dependencies@[i]));
    }
    assert(all == findings + of_dependencies + of_primary);
    if of_primary.len() > 0 {
        assert(of_primary[0].severity == LeanLoaderSeverity::Error);
        assert(all[(findings.len() + of_dependencies.len()) as int] == of_primary[0]);
    }
    match inspected(manifest.primary_dylib@, ArtifactRole::Primary, read_view(reads.primary), host) {
        Ok(info) => {
            imports_pass_iff_all_provided(manifest.primary_dylib@, info.undefined, exports);
        },
        Err(_) => {},
    }
}

/// Whether a symbol table entry exports a symbol of the given name in its source.
pub open spec fn exports_name(entry: SymbolEntryView, format: Seq<char>, name: Seq<char>) -> bool {
    entry.global && !entry.undefined && name.len() > 0 && source_name_of(entry.name, format)
        == Some(name)
}

/// Whether a symbol table entry imports a symbol of the given name in its source.
pub open spec fn imports_name(entry: SymbolEntryView, format: Seq<char>, name: Seq<char>) -> bool {
    entry.undefined && name.len() > 0 && source_name_of(entry.name, format) == Some(name)
}

/// A dylib exports exactly the names that a global, defined entry of either of its
/// tables has, and imports exactly those that an undefined entry has, each once.
pub proof fn both_tables_are_searched(
    symbols: Seq<SymbolEntryView>,
    dynamic_symbols: Seq<SymbolEntryView>,
    format: Seq<char>,
    name: Seq<char>,
)
    ensures
        ({
            let info = table_symbols(symbols + dynamic_symbols, prefixes_underscore(format));
            &&& info.defined.contains(name) <==> (exists|i: int|
                0 <= i < symbols.len() && exports_name(#[trigger] symbols[i], format, name)) || (
            exists|i: int|
                0 <= i < dynamic_symbols.len() && exports_name(
                    #[trigger] dynamic_symbols[i],
                    format,
                    name,
                ))
            &&& info.undefined.contains(name) <==> (exists|i: int|
                0 <= i < symbols.len() && imports_name(#[trigger] symbols[i], format, name)) || (
            exists|i: int|
                0 <= i < dynamic_symbols.len() && imports_name(
                    #[trigger] dynamic_symbols[i],
                    format,
                    name,
                ))
            &&& info.defined.no_duplicates()
            &&& info.undefined.no_duplicates()
        }),
{
    let strip = prefixes_underscore(format);
    let table = symbols + dynamic_symbols;
    let info = table_symbols(table, strip);
    let defined = table.map_values(|e: SymbolEntryView| defined_name(e, strip));
    let undefined = table.map_values(|e: SymbolEntryView| undefined_name(e, strip));
    distinct_names_keep_each_once(defined);
    distinct_names_keep_each_once(undefined);
    assert(info.defined.contains(name) <==> defined.contains(Some(name)));
    assert(info.undefined.contains(name) <==> undefined.contains(Some(name)));
    assert forall|i: int| 0 <= i < table.len() implies (#[trigger] defined[i] == Some(name)
        <==> exports_name(table[i], format, name)) by {
    }
    assert forall|i: int| 0 <= i < table.len() implies (#[trigger] undefined[i] == Some(name)
        <==> imports_name(table[i], format, name)) by {
    }
    let n = symbols.len() as int;
    assert(forall|i: int| 0 <= i < n ==> table[i] == #[trigger] symbols[i]);
    assert(forall|i: int|
        0 <= i < dynamic_symbols.len() ==> table[n + i] == #[trigger] dynamic_symbols[i]);
    if defined.contains(Some(name)) {
        let i = choose|i: int| 0 <= i < defined.len() && defined[i] == Some(name);
        assert(exports_name(table[i], format, name));
        if i < n {
            assert(exports_name(symbols[i], format, name));
        } else {
            assert(exports_name(dynamic_symbols[i - n], format, name));
        }
    }
    if undefined.contains(Some(name)) {
        let i = choose|i: int| 0 <= i < undefined.len() && undefined[i] == Some(name);
        assert(imports_name(table[i], format, name));
        if i < n {
            assert(imports_name(symbols[i], format, name));
        } else {
            assert(imports_name(dynamic_symbols[i - n], format, name));
        }
    }
    if exists|i: int| 0 <= i < n && exports_name(#[trigger] symbols[i], format, name) {
        let i = choose|i: int| 0 <= i < n && exports_name(#[trigger] symbols[i], format, name);
        assert(defined[i] == Some(name));
    }
    if exists|i: int|
        0 <= i < dynamic_symbols.len() && exports_name(
            #[trigger] dynamic_symbols[i],
            format,
            name,
        ) {
        let i = choose|i: int|
            0 <= i < dynamic_symbols.len() && exports_name(
                #[trigger] dynamic_symbols[i],
                format,
                name,
            );
        assert(defined[n + i] == Some(name));
    }
    if exists|i: int| 0 <= i < n && imports_name(#[trigger] symbols[i], format, name) {
        let i = choose|i: int| 0 <= i < n && imports_name(#[trigger] symbols[i], format, name);
        assert(undefined[i] == Some(name));
    }
    if exists|i: int|
        0 <= i < dynamic_symbols.len() && imports_name(
            #[trigger] dynamic_symbols[i],
            format,
            name,
        ) {
        let i = choose|i: int|
            0 <= i < dynamic_symbols.len() && imports_name(
                #[trigger] dynamic_symbols[i],
                format,
                name,
            );
        assert(undefined[n + i] == Some(name));
    }
}

/// Whether a dylib can be looked into: its file was read, is an object file, and is
/// built for the architecture of this process.
pub open spec fn usable(read: ArtifactRead, host: Seq<char>) -> bool {
    match read {
        Ok(bytes) => {
            &&& object_refusal(bytes@) is None
            &&& {
                ||| host == "x86_64"@ && object_architecture(bytes@) == "X86_64"@
                ||| host == "aarch64"@ && object_architecture(bytes@) == "Aarch64"@
                ||| host == "arm"@ && object_architecture(bytes@) == "Arm"@
                ||| host == "x86"@ && object_architecture(bytes@) == "I386"@
            }
        },
        Err(_) => false,
    }
}

/// Whether a dylib exports a symbol of the given name.
pub open spec fn exports(read: ArtifactRead, name: Seq<char>) -> bool {
    let bytes = read->Ok_0@;
    ||| exists|i: int|
        0 <= i < object_symbols(bytes).len() && exports_name(
            #[trigger] object_symbols(bytes)[i],
            object_format(bytes),
            name,
        )
    ||| exists|i: int|
        0 <= i < object_dynamic_symbols(bytes).len() && exports_name(
            #[trigger] object_dynamic_symbols(bytes)[i],
            object_format(bytes),
            name,
        )
}

/// Whether a dylib imports a symbol of the given name.
pub open spec fn imports(read: ArtifactRead, name: Seq<char>) -> bool {
    let bytes = read->Ok_0@;
    ||| exists|i: int|
        0 <= i < object_symbols(bytes).len() && imports_name(
            #[trigger] object_symbols(bytes)[i],
            object_format(bytes),
            name,
        )
    ||| exists|i: int|
        0 <= i < object_dynamic_symbols(bytes).len() && imports_name(
            #[trigger] object_dynamic_symbols(bytes)[i],
            object_format(bytes),
            name,
        )
}

/// A dylib is looked into exactly when it is usable, and then shows the names that
/// it exports and imports. Of any other dylib there is a finding of error severity on
/// its path: that it is missing, where its file does not exist, and otherwise that it
/// does not suit this process.
pub proof fn usable_dylibs_show_their_symbols(
    path: Seq<char>,
    role: ArtifactRole,
    read: ArtifactRead,
    host: Seq<char>,
)
    ensures
        inspected(path, role, read_view(read), host) is Ok <==> usable(read, host),
        inspected(path, role, read_view(read), host) matches Ok(info) ==> forall|name: Seq<char>|
            (#[trigger] info.defined.contains(name) <==> exports(read, name)),
        inspected(path, role, read_view(read), host) matches Ok(info) ==> forall|name: Seq<char>|
            (#[trigger] info.undefined.contains(name) <==> imports(read, name)),
        inspected(path, role, read_view(read), host) matches Err(check) ==> {
            &&& check.severity == LeanLoaderSeverity::Error
            &&& check.subject == path
            &&& check.code == (if read is Err && read->Err_0.not_found {
                match role {
                    ArtifactRole::Primary => LeanLoaderDiagnosticCode::MissingPrimaryDylib,
                    ArtifactRole::Dependency => {
                        LeanLoaderDiagnosticCode::MissingTransitiveDependency
                    },
                }
            } else {
                LeanLoaderDiagnosticCode::UnsupportedArchitecture
            })
        },
{
    if let Ok(info) = inspected(path, role, read_view(read), host) {
        let bytes = read->Ok_0@;
        assert forall|name: Seq<char>|
            (#[trigger] info.defined.contains(name) <==> exports(read, name)) by {
            both_tables_are_searched(
                object_symbols(bytes),
                object_dynamic_symbols(bytes),
                object_format(bytes),
                name,
            );
        }
        assert forall|name: Seq<char>|
            (#[trigger] info.undefined.contains(name) <==> imports(read, name)) by {
            both_tables_are_searched(
                object_symbols(bytes),
                object_dynamic_symbols(bytes),
                object_format(bytes),
                name,
            );
        }
    }
}

/// The dependencies provide a symbol exactly when some usable dylib among them,
/// whichever its position, exports it.
pub proof fn provided_iff_some_dependency_exports(
    dependencies: Seq<LeanLibraryDependencyView>,
    reads: Seq<ArtifactRead>,
    host: Seq<char>,
    n: int,
    name: Seq<char>,
)
    requires
        0 <= n <= dependencies.len(),
        n <= reads.len(),
    ensures
        dependency_exports(dependencies, read_views(reads), host, n).contains(name) <==> exists|
            i: int,
        | 0 <= i < n && usable(#[trigger] reads[i], host) && exports(reads[i], name),
    decreases n,
{
    if n > 0 {
        let last = reads[n - 1];
        let found = inspected(
            dependencies[n - 1].path,
            ArtifactRole::Dependency,
            read_view(last),
            host,
        );
        provided_iff_some_dependency_exports(dependencies, reads, host, n - 1, name);
        usable_dylibs_show_their_symbols(
            dependencies[n - 1].path,
            ArtifactRole::Dependency,
            last,
            host,
        );
        assert(read_views(reads)[n - 1] == read_view(last));
        let before = dependency_exports(dependencies, read_views(reads), host, n - 1);
        let now = dependency_exports(dependencies, read_views(reads), host, n);
        if let Ok(info) = found {
            assert(now.contains(name) <==> before.contains(name) || info.defined.contains(name));
        }
        if now.contains(name) && !before.contains(name) {
            assert(usable(reads[n - 1], host) && exports(reads[n - 1], name));
        }
        if exists|i: int| 0 <= i < n && usable(#[trigger] reads[i], host) && exports(reads[i], name) {
            let i = choose|i: int|
                0 <= i < n && usable(#[trigger] reads[i], host) && exports(reads[i], name);
            if i < n - 1 {
                assert(before.contains(name));
            }
        }
    }
}

/// A symbol is one that Lean dependency dylibs provide when its name starts with
/// `LeanRs`, with `lean_rs_` or with `initialize_LeanRs`, whatever follows.
pub open spec fn lean_name(name: Seq<char>) -> bool {
    ||| exists|rest: Seq<char>| name == "LeanRs"@ + rest
    ||| exists|rest: Seq<char>| name == "lean_rs_"@ + rest
    ||| exists|rest: Seq<char>| name == "initialize_LeanRs"@ + rest
}

proof fn lemma_lean_name(name: Seq<char>)
    ensures
        lean_dependency_symbol(name) <==> lean_name(name),
{
    lemma_prefix("LeanRs"@, name);
    lemma_prefix("lean_rs_"@, name);
    lemma_prefix("initialize_LeanRs"@, name);
}

proof fn lemma_prefix(prefix: Seq<char>, name: Seq<char>)
    ensures
        prefix.is_prefix_of(name) <==> exists|rest: Seq<char>| name == prefix + rest,
{
    if prefix.is_prefix_of(name) {
        assert(name =~= prefix + name.skip(prefix.len() as int));
    }
    if exists|rest: Seq<char>| name == prefix + rest {
        let rest = choose|rest: Seq<char>| name == prefix + rest;
        assert(prefix =~= (prefix + rest).take(prefix.len() as int));
    }
}

/// Whether some usable dependency exports a symbol.
pub open spec fn provided(reads: ArtifactReads, host: Seq<char>, name: Seq<char>) -> bool {
    exists|i: int|
        0 <= i < reads.dependencies@.len() && usable(#[trigger] reads.dependencies@[i], host)
            && exports(reads.dependencies@[i], name)
}

/// A missing import is reported exactly when a usable primary dylib imports a Lean
/// symbol that no usable dependency exports, and the finding is on such a symbol. So
/// a primary dylib all of whose Lean imports some dependency exports, whichever it
/// is, gets no such finding.
pub proof fn missing_imports_are_reported(
    manifest: CapabilityManifest,
    findings: Seq<LeanLoaderCheckView>,
    reads: ArtifactReads,
    host: Seq<char>,
)
    requires
        reads.dependencies@.len() == manifest.dependencies@.len(),
    ensures
        ({
            let checks = manifest_checks(manifest, findings, reads, host);
            &&& (exists|k: int|
                findings.len() <= k < checks.len() && (#[trigger] checks[k]).code
                    == LeanLoaderDiagnosticCode::MissingImportedSymbol) <==> usable(
                reads.primary,
                host,
            ) && exists|name: Seq<char>|
                {
                    &&& lean_name(name)
                    &&& #[trigger] imports(reads.primary, name)
                    &&& !provided(reads, host, name)
                }
            &&& forall|k: int|
                findings.len() <= k < checks.len() && (#[trigger] checks[k]).code
                    == LeanLoaderDiagnosticCode::MissingImportedSymbol ==> {
                    &&& checks[k].severity == LeanLoaderSeverity::Error
                    &&& lean_name(checks[k].subject)
                    &&& imports(reads.primary, checks[k].subject)
                    &&& !provided(reads, host, checks[k].subject)
                }
        }),
{
    let dependencies = dependency_views(manifest.dependencies@);
    let views = read_views(reads.dependencies@);
    let n = dependencies.len() as int;
    let checks = manifest_checks(manifest, findings, reads, host);
    let of_dependencies = dependency_checks(dependencies, views, host, n);
    let known = dependency_exports(dependencies, views, host, n);
    let primary = manifest.primary_dylib@;
    let found = inspected(primary, ArtifactRole::Primary, read_view(reads.primary), host);
    let start = (findings.len() + of_dependencies.len()) as int;
    lemma_dependency_findings(dependencies, reads.dependencies@, host, n);
    usable_dylibs_show_their_symbols(primary, ArtifactRole::Primary, reads.primary, host);
    assert forall|k: int| findings.len() <= k < start implies (#[trigger] checks[k]).code
        != LeanLoaderDiagnosticCode::MissingImportedSymbol by {
        assert(checks[k] == of_dependencies[k - findings.len()]);
    }
    assert forall|name: Seq<char>| #[trigger] known.contains(name) == provided(
        reads,
        host,
        name,
    ) by {
        provided_iff_some_dependency_exports(dependencies, reads.dependencies@, host, n, name);
    }
    match found {
        Ok(info) => {
            let of_initializer = initializer_checks(
                manifest.package@,
                manifest.module@,
                primary,
                info.defined,
            );
            let of_imports = imported_symbol_checks(primary, info.undefined, known);
            assert(checks =~= findings + of_dependencies + (of_initializer + of_imports));
            assert forall|k: int| start <= k < start + of_initializer.len() implies (
            #[trigger] checks[k]).code != LeanLoaderDiagnosticCode::MissingImportedSymbol by {
                assert(checks[k] == of_initializer[k - start]);
            }
            let first = first_unprovided(info.undefined, known, 0);
            lemma_first_unprovided(info.undefined, known, 0);
            if first < info.undefined.len() {
                let name = info.undefined[first];
                let k = start + of_initializer.len();
                assert(checks[k] == of_imports[0]);
                assert(checks.len() == k + 1);
                lemma_lean_name(name);
                assert(info.undefined.contains(name));
                assert(imports(reads.primary, name));
                assert(!known.contains(name));
                assert(!provided(reads, host, name));
            } else {
                assert(checks.len() == start + of_initializer.len());
                assert forall|name: Seq<char>|
                    #[trigger] imports(reads.primary, name) && lean_name(name) implies provided(
                    reads,
                    host,
                    name,
                ) by {
                    assert(info.undefined.contains(name));
                    let j = choose|j: int|
                        0 <= j < info.undefined.len() && info.undefined[j] == name;
                    assert(!unprovided(info.undefined[j], known));
                    lemma_lean_name(name);
                    assert(known.contains(name));
                }
            }
        },
        Err(check) => {
            assert(checks =~= findings + of_dependencies + seq![check]);
            assert(checks[start] == check);
        },
    }
}

proof fn lemma_dependency_findings(
    dependencies: Seq<LeanLibraryDependencyView>,
    reads: Seq<ArtifactRead>,
    host: Seq<char>,
    n: int,
)
    requires
        0 <= n <= dependencies.len(),
        n <= reads.len(),
    ensures
        ({
            let checks = dependency_checks(dependencies, read_views(reads), host, n);
            &&& forall|k: int|
                0 <= k < checks.len() ==> {
                    &&& (#[trigger] checks[k]).severity == LeanLoaderSeverity::Error
                    &&& checks[k].code == LeanLoaderDiagnosticCode::MissingTransitiveDependency
                        || checks[k].code == LeanLoaderDiagnosticCode::UnsupportedArchitecture
                }
            &&& forall|i: int|
                0 <= i < n && !usable(#[trigger] reads[i], host) ==> exists|k: int|
                    0 <= k < checks.len() && (#[trigger] checks[k]).subject == dependencies[i].path
            &&& checks.len() > 0 ==> exists|i: int| 0 <= i < n && !usable(#[trigger] reads[i], host)
        }),
    decreases n,
{
    if n > 0 {
        let views = read_views(reads);
        lemma_dependency_findings(dependencies, reads, host, n - 1);
        usable_dylibs_show_their_symbols(
            dependencies[n - 1].path,
            ArtifactRole::Dependency,
            reads[n - 1],
            host,
        );
        assert(views[n - 1] == read_view(reads[n - 1]));
        let before = dependency_checks(dependencies, views, host, n - 1);
        let checks = dependency_checks(dependencies, views, host, n);
        assert forall|i: int| 0 <= i < n && !usable(#[trigger] reads[i], host) implies exists|k: int|
            0 <= k < checks.len() && (#[trigger] checks[k]).subject == dependencies[i].path by {
            if i < n - 1 {
                let k = choose|k: int|
                    0 <= k < before.len() && (#[trigger] before[k]).subject == dependencies[i].path;
                assert(checks[k] == before[k]);
            } else {
                assert(checks[before.len() as int].subject == dependencies[i].path);
            }
        }
        if checks.len() > 0 && usable(reads[n - 1], host) {
            assert(checks == before);
        }
    }
}

/// Earlier findings come first and stay as they are; every unusable dependency and an
/// unusable primary dylib are reported by their paths.
pub proof fn unusable_dylibs_are_reported(
    manifest: CapabilityManifest,
    findings: Seq<LeanLoaderCheckView>,
    reads: ArtifactReads,
    host: Seq<char>,
    i: int,
)
    requires
        reads.dependencies@.len() == manifest.dependencies@.len(),
        0 <= i < manifest.dependencies@.len(),
    ensures
        findings.is_prefix_of(manifest_checks(manifest, findings, reads, host)),
        !usable(reads.dependencies@[i], host) ==> reported(
            manifest_checks(manifest, findings, reads, host),
            findings.len() as int,
            manifest.dependencies@[i]@.path,
        ),
        !usable(reads.primary, host) ==> reported(
            manifest_checks(manifest, findings, reads, host),
            findings.len() as int,
            manifest.primary_dylib@,
        ),
{
    let dependencies = dependency_views(manifest.dependencies@);
    let views = read_views(reads.dependencies@);
    let n = dependencies.len() as int;
    let checks = manifest_checks(manifest, findings, reads, host);
    let of_dependencies = dependency_checks(dependencies, views, host, n);
    assert(findings =~= checks.take(findings.len() as int));
    lemma_dependency_findings(dependencies, reads.dependencies@, host, n);
    usable_dylibs_show_their_symbols(
        manifest.primary_dylib@,
        ArtifactRole::Primary,
        reads.primary,
        host,
    );
    if !usable(reads.dependencies@[i], host) {
        let k = choose|k: int|
            0 <= k < of_dependencies.len() && (#[trigger] of_dependencies[k]).subject
                == dependencies[i].path;
        assert(checks[findings.len() + k] == of_dependencies[k]);
    }
    if !usable(reads.primary, host) {
        let k = (findings.len() + of_dependencies.len()) as int;
        assert(checks[k].subject == manifest.primary_dylib@);
    }
}

/// Whether a finding of error severity on `subject` stands at or behind `from`.
pub open spec fn reported(checks: Seq<LeanLoaderCheckView>, from: int, subject: Seq<char>) -> bool {
    exists|k: int|
        from <= k < checks.len() && (#[trigger] checks[k]).subject == subject && checks[k].severity
            == LeanLoaderSeverity::Error
}

/// A report has no error exactly when the earlier findings have none, every
/// dependency and the primary dylib are usable, the names are accepted, the primary
/// dylib exports the module's initializer under its symbol or its legacy symbol, and
/// some usable dependency exports every Lean symbol that it imports.
pub proof fn report_is_clean_iff_loadable(
    manifest: CapabilityManifest,
    findings: Seq<LeanLoaderCheckView>,
    reads: ArtifactReads,
    host: Seq<char>,
)
    requires
        reads.dependencies@.len() == manifest.dependencies@.len(),
    ensures
        checks_pass(manifest_checks(manifest, findings, reads, host)) <==> {
            &&& forall|k: int|
                0 <= k < findings.len() ==> (#[trigger] findings[k]).severity
                    == LeanLoaderSeverity::Warning
            &&& forall|i: int|
                0 <= i < reads.dependencies@.len() ==> usable(
                    #[trigger] reads.dependencies@[i],
                    host,
                )
            &&& usable(reads.primary, host)
            &&& lake_names_error(manifest.package@, manifest.module@) is None
            &&& exports(
                reads.primary,
                initializer_symbol(manifest.package@, manifest.module@),
            ) || exports(reads.primary, legacy_initializer_symbol(manifest.module@))
            &&& forall|name: Seq<char>|
                lean_name(name) && #[trigger] imports(reads.primary, name) ==> provided(
                    reads,
                    host,
                    name,
                )
        },
{
    let dependencies = dependency_views(manifest.dependencies@);
    let views = read_views(reads.dependencies@);
    let n = dependencies.len() as int;
    let checks = manifest_checks(manifest, findings, reads, host);
    let of_dependencies = dependency_checks(dependencies, views, host, n);
    let known = dependency_exports(dependencies, views, host, n);
    let primary = manifest.primary_dylib@;
    let found = inspected(primary, ArtifactRole::Primary, read_view(reads.primary), host);
    let of_primary = primary_checks(
        manifest.package@,
        manifest.module@,
        primary,
        read_view(reads.primary),
        known,
        host,
    );
    let start = (findings.len() + of_dependencies.len()) as int;
    lemma_dependency_findings(dependencies, reads.dependencies@, host, n);
    usable_dylibs_show_their_symbols(primary, ArtifactRole::Primary, reads.primary, host);
    missing_imports_are_reported(manifest, findings, reads, host);
    assert(checks =~= findings + of_dependencies + of_primary);
    assert(forall|k: int| 0 <= k < findings.len() ==> checks[k] == #[trigger] findings[k]);
    assert(forall|k: int|
        0 <= k < of_dependencies.len() ==> checks[findings.len() + k]
            == #[trigger] of_dependencies[k]);
    assert(forall|k: int| 0 <= k < of_primary.len() ==> checks[start + k] == #[trigger] of_primary[k]);
    assert(of_primary.len() > 0 ==> of_primary[0].severity == LeanLoaderSeverity::Error);
    if let Ok(info) = found {
        imports_pass_iff_all_provided(primary, info.undefined, known);
        lemma_first_unprovided(info.undefined, known, 0);
        let symbol = initializer_symbol(manifest.package@, manifest.module@);
        let legacy = legacy_initializer_symbol(manifest.module@);
        assert(info.defined.contains(symbol) <==> exports(reads.primary, symbol));
        assert(info.defined.contains(legacy) <==> exports(reads.primary, legacy));
        let of_imports = imported_symbol_checks(primary, info.undefined, known);
        let of_initializer = initializer_checks(
            manifest.package@,
            manifest.module@,
            primary,
            info.defined,
        );
        assert(of_primary =~= of_initializer + of_imports);
        if of_imports.len() > 0 {
            assert(checks[start + of_initializer.len()] == of_imports[0]);
        }
    }
    if checks_pass(checks) {
        assert(of_dependencies.len() == 0) by {
            if of_dependencies.len() > 0 {
                assert(of_dependencies[0].severity == LeanLoaderSeverity::Error);
                assert(checks[findings.len() as int] == of_dependencies[0]);
            }
        }
        assert(of_primary.len() == 0) by {
            if of_primary.len() > 0 {
                assert(checks[start] == of_primary[0]);
            }
        }
        assert forall|k: int| 0 <= k < findings.len() implies (#[trigger] findings[k]).severity
            == LeanLoaderSeverity::Warning by {
            assert(checks[k].severity != LeanLoaderSeverity::Error);
        }
        assert forall|i: int| 0 <= i < reads.dependencies@.len() implies usable(
            #[trigger] reads.dependencies@[i],
            host,
        ) by {
        }
    }
}

/// The error that stands for a report is that of its first finding of error severity:
/// it names the finding's class, says what is wrong, and how to repair it, as far as
/// the limit on messages goes.
pub proof fn reports_stand_for_their_first_error(checks: Seq<LeanLoaderCheckView>, first: int)
    requires
        0 <= first < checks.len(),
        checks[first].severity is Error,
        forall|i: int| 0 <= i < first ==> (#[trigger] checks[i]).severity is Warning,
    ensures
        kept_of(
            checks[first].code.spec_as_str() + ": "@ + checks[first].message + ". repair: "@
                + checks[first].repair_hint,
            report_message(checks),
        ),
{
    lemma_first_error_index(checks, 0);
    let i = first_error_index(checks, 0);
    if i < first {
        assert(checks[i].severity is Warning);
    }
    bounding_keeps_the_longest_prefix(
        checks[first].code.spec_as_str() + ": "@ + checks[first].message + ". repair: "@
            + checks[first].repair_hint,
        4096,
    );
}

/// The outcome of reading a file is viewed with its bytes, or with its message and
/// whether the file exists.
pub proof fn reads_are_viewed_part_by_part(reads: Seq<ArtifactRead>, i: int)
    requires
        0 <= i < reads.len(),
    ensures
        read_views(reads).len() == reads.len(),
        match reads[i] {
            Ok(bytes) => read_views(reads)[i] == ArtifactReadView::Bytes(bytes@),
            Err(err) => read_views(reads)[i] == (ArtifactReadView::Failed {
                not_found: err.not_found,
                text: err.text@,
            }),
        },
{
}

/// An unreadable manifest is its only finding.
pub proof fn unreadable_manifests_are_reported_alone(check: LeanLoaderCheck, host: Seq<char>)
    ensures
        ManifestRead::Unreadable(check).checks(host) == seq![check@],
{
}

/// A manifest with names that are rejected is reported as malformed, and one whose
/// primary dylib exports neither initializer symbol as lacking its initializer, where
/// that dylib is usable; both findings are on the package and the module.
pub proof fn initializers_are_checked(
    manifest: CapabilityManifest,
    findings: Seq<LeanLoaderCheckView>,
    reads: ArtifactReads,
    host: Seq<char>,
)
    requires
        reads.dependencies@.len() == manifest.dependencies@.len(),
        usable(reads.primary, host),
    ensures
        ({
            let checks = manifest_checks(manifest, findings, reads, host);
            let subject = manifest.package@ + "/"@ + manifest.module@;
            let rejected = lake_names_error(manifest.package@, manifest.module@) is Some;
            let exported = exports(
                reads.primary,
                initializer_symbol(manifest.package@, manifest.module@),
            ) || exports(reads.primary, legacy_initializer_symbol(manifest.module@));
            &&& has_finding(
                checks,
                findings.len() as int,
                LeanLoaderDiagnosticCode::MalformedManifest,
                subject,
            ) <==> rejected
            &&& has_finding(
                checks,
                findings.len() as int,
                LeanLoaderDiagnosticCode::MissingInitializer,
                subject,
            ) <==> !rejected && !exported
        }),
{
    let dependencies = dependency_views(manifest.dependencies@);
    let views = read_views(reads.dependencies@);
    let n = dependencies.len() as int;
    let checks = manifest_checks(manifest, findings, reads, host);
    let of_dependencies = dependency_checks(dependencies, views, host, n);
    let known = dependency_exports(dependencies, views, host, n);
    let primary = manifest.primary_dylib@;
    let start = (findings.len() + of_dependencies.len()) as int;
    lemma_dependency_findings(dependencies, reads.dependencies@, host, n);
    usable_dylibs_show_their_symbols(primary, ArtifactRole::Primary, reads.primary, host);
    let info = inspected(primary, ArtifactRole::Primary, read_view(reads.primary), host)->Ok_0;
    let symbol = initializer_symbol(manifest.package@, manifest.module@);
    let legacy = legacy_initializer_symbol(manifest.module@);
    assert(info.defined.contains(symbol) <==> exports(reads.primary, symbol));
    assert(info.defined.contains(legacy) <==> exports(reads.primary, legacy));
    let of_initializer = initializer_checks(
        manifest.package@,
        manifest.module@,
        primary,
        info.defined,
    );
    let of_imports = imported_symbol_checks(primary, info.undefined, known);
    assert(checks =~= findings + of_dependencies + (of_initializer + of_imports));
    assert forall|k: int| findings.len() <= k < checks.len() implies (#[trigger] checks[k]) == (if k
        < start {
        of_dependencies[k - findings.len()]
    } else if k < start + of_initializer.len() {
        of_initializer[k - start]
    } else {
        of_imports[k - start - of_initializer.len()]
    }) by {
    }
    if of_initializer.len() > 0 {
        assert(checks[start] == of_initializer[0]);
    }
}

/// Whether a finding of the given class on `subject` stands at or behind `from`.
pub open spec fn has_finding(
    checks: Seq<LeanLoaderCheckView>,
    from: int,
    code: LeanLoaderDiagnosticCode,
    subject: Seq<char>,
) -> bool {
    exists|k: int|
        from <= k < checks.len() && (#[trigger] checks[k]).code == code && checks[k].subject
            == subject && checks[k].severity == LeanLoaderSeverity::Error
}

/// What was found of a dylib is viewed with its exports as exports and its imports as
/// imports; a manifest is complete when each of its dependencies has an outcome.
pub proof fn findings_on_dylibs_are_viewed_part_by_part(
    info: ArtifactInfo,
    check: LeanLoaderCheck,
    read: ManifestRead,
)
    ensures
        info_view(Ok(info)) matches Ok(view) && view.defined == info.defined_symbols@
            && view.undefined == info.undefined_symbols@,
        info_view(Err(check)) == Err::<ArtifactInfoView, LeanLoaderCheckView>(check@),
        read is Unreadable ==> read.complete(),
        read matches ManifestRead::Read { manifest, artifacts, .. } ==> (read.complete() <==>
            manifest.dependencies@.len() == artifacts.dependencies@.len()),
{
}

/// A manifest that was read is checked as its content, its earlier findings and the
/// outcomes of its dylibs say; one whose path is not known is missing.
pub proof fn manifests_are_checked_by_content(
    manifest: CapabilityManifest,
    findings: Vec<LeanLoaderCheck>,
    artifacts: ArtifactReads,
    host: Seq<char>,
    text: Seq<char>,
)
    ensures
        (ManifestRead::Read { manifest, findings, artifacts }).checks(host) == manifest_checks(
            manifest,
            check_views(findings@),
            artifacts,
            host,
        ),
        unresolved_manifest_check(text).code == LeanLoaderDiagnosticCode::MissingManifest,
        unresolved_manifest_check(text).severity == LeanLoaderSeverity::Error,
        unresolved_manifest_check(text).subject == "manifest"@,
        unresolved_manifest_check(text).message == text,
{
}

/// The message of a finding on a dylib names the dylib, and says what came of reading
/// it, why it is no object file, or which two architectures do not agree.
pub proof fn findings_on_dylibs_name_them(
    path: Seq<char>,
    role: ArtifactRole,
    not_found: bool,
    text: Seq<char>,
    architecture: Seq<char>,
    host: Seq<char>,
)
    ensures
        read_failure_check(path, role, not_found, text).message == "failed to read Lean dylib '"@
            + path + "': "@ + text,
        parse_failure_check(path, text).message == "Lean dylib '"@ + path
            + "' is not a supported native object for this platform: "@ + text,
        architecture_check(path, architecture, host).message == "Lean dylib '"@ + path
            + "' has architecture "@ + architecture + ", but this process is "@ + host,
        read_failure_check(path, role, not_found, text).repair_hint == (match role {
            ArtifactRole::Primary => {
                "rebuild the Lean capability through CargoLeanCapability and package the primary dylib"@
            },
            ArtifactRole::Dependency => {
                "rebuild the Lean capability through CargoLeanCapability and package every manifest dependency"@
            },
        }),
        parse_failure_check(path, text).repair_hint
            == "rebuild the Lean capability for the current target architecture"@,
        architecture_check(path, architecture, host).repair_hint
            == "rebuild the Lean capability for the current target architecture"@,
{
}

/// Of several Lean imports that no dependency provides the first is reported, and one
/// finding is enough.
pub proof fn first_missing_import_is_reported(
    primary_dylib: Seq<char>,
    undefined: Seq<Seq<char>>,
    provided_names: Set<Seq<char>>,
    first: int,
)
    requires
        0 <= first < undefined.len(),
        lean_name(undefined[first]),
        !provided_names.contains(undefined[first]),
        forall|i: int|
            0 <= i < first ==> !lean_name(#[trigger] undefined[i]) || provided_names.contains(
                undefined[i],
            ),
    ensures
        imported_symbol_checks(primary_dylib, undefined, provided_names).len() == 1,
        imported_symbol_checks(primary_dylib, undefined, provided_names)[0].subject
            == undefined[first],
        imported_symbol_checks(primary_dylib, undefined, provided_names)[0].message
            == "primary dylib '"@ + primary_dylib + "' imports Lean symbol '"@ + undefined[first]
            + "' that is not provided by the manifest dependencies"@,
{
    lemma_first_unprovided(undefined, provided_names, 0);
    let found = first_unprovided(undefined, provided_names, 0);
    lemma_lean_name(undefined[first]);
    if found < first {
        lemma_lean_name(undefined[found]);
    } else if first < found {
        assert(!unprovided(undefined[first], provided_names));
    }
}

/// A process runs the dylibs of its own architecture, and no others.
pub proof fn architectures_go_in_pairs(host: Seq<char>, architecture: Seq<char>)
    ensures
        architecture_supported("x86_64"@, "X86_64"@),
        architecture_supported("aarch64"@, "Aarch64"@),
        architecture_supported("arm"@, "Arm"@),
        architecture_supported("x86"@, "I386"@),
        architecture_supported(host, architecture) ==> {
            ||| host == "x86_64"@ && architecture == "X86_64"@
            ||| host == "aarch64"@ && architecture == "Aarch64"@
            ||| host == "arm"@ && architecture == "Arm"@
            ||| host == "x86"@ && architecture == "I386"@
        },
{
}

/// A symbol is one that dependencies provide exactly where its name starts as such
/// names do.
pub proof fn dependency_symbols_go_by_their_start(name: Seq<char>, rest: Seq<char>)
    ensures
        lean_dependency_symbol(name) <==> lean_name(name),
        lean_dependency_symbol("LeanRs"@ + rest),
        lean_dependency_symbol("lean_rs_"@ + rest),
        lean_dependency_symbol("initialize_LeanRs"@ + rest),
{
    lemma_lean_name(name);
    lemma_lean_name("LeanRs"@ + rest);
    lemma_lean_name("lean_rs_"@ + rest);
    lemma_lean_name("initialize_LeanRs"@ + rest);
}

/// A dylib whose tables were read is looked into where its architecture suits the
/// process: both tables count, read as its format writes names. Otherwise there is a
/// finding on its path.
pub proof fn suitable_objects_show_their_symbols(
    path: Seq<char>,
    format: Seq<char>,
    architecture: Seq<char>,
    symbols: Seq<SymbolEntryView>,
    dynamic_symbols: Seq<SymbolEntryView>,
    host: Seq<char>,
    name: Seq<char>,
)
    ensures
        ({
            let found = inspected_object(
                path,
                format,
                architecture,
                symbols,
                dynamic_symbols,
                host,
            );
            &&& found is Ok <==> architecture_supported(host, architecture)
            &&& found matches Ok(info) ==> (info.defined.contains(name) <==> (exists|i: int|
                0 <= i < symbols.len() && exports_name(#[trigger] symbols[i], format, name)) || (
            exists|i: int|
                0 <= i < dynamic_symbols.len() && exports_name(
                    #[trigger] dynamic_symbols[i],
                    format,
                    name,
                )))
            &&& found matches Ok(info) ==> (info.undefined.contains(name) <==> (exists|i: int|
                0 <= i < symbols.len() && imports_name(#[trigger] symbols[i], format, name)) || (
            exists|i: int|
                0 <= i < dynamic_symbols.len() && imports_name(
                    #[trigger] dynamic_symbols[i],
                    format,
                    name,
                )))
            &&& found matches Err(check) ==> check.code
                == LeanLoaderDiagnosticCode::UnsupportedArchitecture && check.subject == path
                && check.severity == LeanLoaderSeverity::Error
        }),
{
    both_tables_are_searched(symbols, dynamic_symbols, format, name);
}

/// The findings on an initializer: one that the manifest is malformed where the names
/// are rejected, one that the initializer is missing where neither of its symbols is
/// exported, and none otherwise.
pub proof fn initializer_findings_go_by_names_and_exports(
    package: Seq<char>,
    module: Seq<char>,
    primary_dylib: Seq<char>,
    defined: Seq<Seq<char>>,
)
    ensures
        ({
            let found = initializer_checks(package, module, primary_dylib, defined);
            let symbol = initializer_symbol(package, module);
            let legacy = legacy_initializer_symbol(module);
            match lake_names_error(package, module) {
                Some(message) => found.len() == 1 && found[0].code
                    == LeanLoaderDiagnosticCode::MalformedManifest && found[0].severity
                    == LeanLoaderSeverity::Error && found[0].subject == package + "/"@ + module
                    && found[0].message == linking_error(message).text(),
                None => if defined.contains(symbol) || defined.contains(legacy) {
                    found.len() == 0
                } else {
                    found.len() == 1 && found[0].code
                        == LeanLoaderDiagnosticCode::MissingInitializer && found[0].severity
                        == LeanLoaderSeverity::Error && found[0].subject == package + "/"@ + module
                        && found[0].message == "primary dylib '"@ + primary_dylib
                        + "' does not export initializer '"@ + symbol + "' or '"@ + legacy + "'"@
                },
            }
        }),
{
}

/// Findings on dylibs are errors on their paths. A file that does not exist is missing,
/// by its role; any other failure is one of the architecture.
pub proof fn findings_on_dylibs_go_by_cause(
    path: Seq<char>,
    role: ArtifactRole,
    text: Seq<char>,
    architecture: Seq<char>,
    host: Seq<char>,
)
    ensures
        read_failure_check(path, ArtifactRole::Primary, true, text).code
            == LeanLoaderDiagnosticCode::MissingPrimaryDylib,
        read_failure_check(path, ArtifactRole::Dependency, true, text).code
            == LeanLoaderDiagnosticCode::MissingTransitiveDependency,
        read_failure_check(path, role, false, text).code
            == LeanLoaderDiagnosticCode::UnsupportedArchitecture,
        parse_failure_check(path, text).code == LeanLoaderDiagnosticCode::UnsupportedArchitecture,
        architecture_check(path, architecture, host).code
            == LeanLoaderDiagnosticCode::UnsupportedArchitecture,
        forall|missing: bool|
            (#[trigger] read_failure_check(path, role, missing, text)).subject == path
                && read_failure_check(path, role, missing, text).severity
                == LeanLoaderSeverity::Error,
        parse_failure_check(path, text).subject == path,
        parse_failure_check(path, text).severity == LeanLoaderSeverity::Error,
        architecture_check(path, architecture, host).subject == path,
        architecture_check(path, architecture, host).severity == LeanLoaderSeverity::Error,
{
}

/// A report without an error has nothing to stand for, and says so.
pub proof fn clean_reports_stand_for_nothing(checks: Seq<LeanLoaderCheckView>)
    requires
        checks_pass(checks),
    ensures
        report_message(checks) == "Lean capability preflight failed without a recorded finding"@,
{
    lemma_first_error_index(checks, 0);
}

} // verus!
