//! Opening capabilities that a build script produced, and the checked lookup of
//! their exports.

use vstd::prelude::*;
use vstd::string::*;

use crate::error::{
    LeanDiagnosticCode, LeanError, LeanErrorView, LeanResult, linking_error, module_init_error,
};
use crate::module::args::LeanArgs;
use crate::module::bundle::LeanLibraryBundle;
use crate::module::exported::{
    CallableTarget, DecodeCallResult, LeanExported, found_view, lookup_verdict,
};
use crate::module::library::{InitializerCall, LeanLibrary, initialized};
use crate::module::loaded::LeanModule;
use crate::module::loader::{
    LeanLoaderCheck, LeanLoaderReport, checks_pass,
};
use crate::module::manifest::{
    ArtifactLocation, BuiltCapabilityArtifact, CapabilityManifest, LeanBuiltCapability,
    LeanBuiltCapabilityError, LeanLibraryDependency,
};
use crate::module::preflight::{
    manifest_error_to_lean_error, report_into_error, report_message,
};
use crate::module::signature::{
    LeanExportArgAbi, LeanExportReturnAbi, LeanExportSignature, LeanExportSignatureView,
    find_signature, first_signature_counts, signature_index, signature_views,
};
use crate::text::lemma_bounded;

verus! {

/// What is to be opened for a capability.
#[derive(Debug)]
pub struct CapabilityPlan {
    /// Path of the capability's own dylib.
    pub dylib_path: String,
    /// Lake package of the capability.
    pub package: String,
    /// Root module of the capability.
    pub module: String,
    /// Dylibs to open first, in order.
    pub dependencies: Vec<LeanLibraryDependency>,
}

/// The error for an artifact whose path could not be resolved.
pub open spec fn unresolved_dylib_error(location: ArtifactLocation) -> LeanErrorView {
    module_init_error(
        match location {
            ArtifactLocation::Env(name) => "environment variable '"@ + name@
                + "' for the Lean capability "@ + "dylib"@ + " is not set"@,
            _ => "the Lean capability "@ + "dylib"@ + " path is not configured"@,
        },
    )
}

/// The error for a capability without a package name.
pub open spec fn missing_package_error() -> LeanErrorView {
    linking_error("LeanBuiltCapability is missing the Lake package name; call `.package(...)`"@)
}

/// The error for a capability without a module name.
pub open spec fn missing_module_error() -> LeanErrorView {
    linking_error("LeanBuiltCapability is missing the root Lean module name; call `.module(...)`"@)
}

impl LeanCapability {
    /// Plans a capability that its manifest describes, given the report on the
    /// manifest. A report with errors stops here.
    pub fn from_build_manifest(
        report: LeanLoaderReport,
        manifest: Result<CapabilityManifest, LeanLoaderCheck>,
    ) -> (r: LeanResult<CapabilityPlan>)
        ensures
            if !checks_pass(report@.checks) {
                r matches Err(err) && err@ == module_init_error(report_message(report@.checks))
            } else {
                match manifest {
                    Err(check) => r matches Err(err) && err@ == module_init_error(
                        report_message(seq![check@]),
                    ),
                    Ok(m) => r matches Ok(plan) && plan.dylib_path == m.primary_dylib
                        && plan.package == m.package && plan.module == m.module
                        && plan.dependencies == m.dependencies,
                }
            },
    {
        if !report.is_ok() {
            return Err(report_into_error(report));
        }
        match manifest {
            Err(check) => Err(manifest_error_to_lean_error(check)),
            Ok(m) => Ok(
                CapabilityPlan {
                    dylib_path: m.primary_dylib,
                    package: m.package,
                    module: m.module,
                    dependencies: m.dependencies,
                },
            ),
        }
    }

    /// Plans a capability that its user describes by the location of its dylib,
    /// given the value of the environment variable that the location names.
    pub fn from_build_env(spec: LeanBuiltCapability, env_value: Option<&str>) -> (r: LeanResult<
        CapabilityPlan,
    >)
        ensures
            ({
                let value = match env_value {
                    Some(text) => Some(text@),
                    None => None,
                };
                match spec.dylib.resolved(value) {
                    None => r matches Err(err) && err@ == unresolved_dylib_error(spec.dylib),
                    Some(path) => match (spec.package, spec.module) {
                        (None, _) => r matches Err(err) && err@ == missing_package_error(),
                        (Some(_), None) => r matches Err(err) && err@ == missing_module_error(),
                        (Some(package), Some(module)) => r matches Ok(plan) && plan.dylib_path@
                            == path && plan.package == package && plan.module == module
                            && plan.dependencies == spec.dependencies,
                    },
                }
            }),
    {
        let dylib_path: String = match spec.dylib.resolve(
            BuiltCapabilityArtifact::Dylib,
            env_value,
        ) {
            Ok(path) => path,
            Err(err) => {
                return Err(LeanError::module_init(err.render()));
            },
        };
        let package: String = match spec.package {
            Some(package) => package,
            None => {
                return Err(
                    LeanError::linking(
                        "LeanBuiltCapability is missing the Lake package name; call `.package(...)`".to_owned(),
                    ),
                );
            },
        };
        let module: String = match spec.module {
            Some(module) => module,
            None => {
                return Err(
                    LeanError::linking(
                        "LeanBuiltCapability is missing the root Lean module name; call `.module(...)`".to_owned(),
                    ),
                );
            },
        };
        Ok(CapabilityPlan { dylib_path, package, module, dependencies: spec.dependencies })
    }

    /// Plans a capability that depends on no other dylib.
    pub fn open(dylib_path: String, package: String, module: String) -> (r: CapabilityPlan)
        ensures
            r.dylib_path == dylib_path,
            r.package == package,
            r.module == module,
            r.dependencies@.len() == 0,
    {
        CapabilityPlan { dylib_path, package, module, dependencies: Vec::new() }
    }
}

/// Why the checked lookup of an export failed.
#[derive(Debug)]
pub enum LeanCheckedExportError {
    /// The manifest says nothing of the symbol.
    MissingSignatureMetadata { symbol: String },
    /// The manifest gives the symbol another shape.
    SignatureMismatch { symbol: String },
    /// The dylib does not export the symbol.
    MissingSymbol { symbol: String, error: LeanError },
}

/// Mathematical value of a [`LeanCheckedExportError`].
pub enum LeanCheckedExportErrorView {
    MissingSignatureMetadata { symbol: Seq<char> },
    SignatureMismatch { symbol: Seq<char> },
    MissingSymbol { symbol: Seq<char>, error: LeanErrorView },
}

impl View for LeanCheckedExportError {
    type V = LeanCheckedExportErrorView;

    open spec fn view(&self) -> LeanCheckedExportErrorView {
        match *self {
            LeanCheckedExportError::MissingSignatureMetadata { symbol } => {
                LeanCheckedExportErrorView::MissingSignatureMetadata { symbol: symbol@ }
            },
            LeanCheckedExportError::SignatureMismatch { symbol } => {
                LeanCheckedExportErrorView::SignatureMismatch { symbol: symbol@ }
            },
            LeanCheckedExportError::MissingSymbol { symbol, error } => {
                LeanCheckedExportErrorView::MissingSymbol { symbol: symbol@, error: error@ }
            },
        }
    }
}

/// The verdict on the checked lookup of an export with the given shape.
pub open spec fn checked_verdict(
    exports: Seq<LeanExportSignatureView>,
    globals: Seq<Seq<char>>,
    path: Seq<char>,
    name: Seq<char>,
    args: Seq<LeanExportArgAbi>,
    result: LeanExportReturnAbi,
    expects_io_result: bool,
    found: Result<usize, Seq<char>>,
) -> Result<CallableTarget, LeanCheckedExportErrorView> {
    let i = signature_index(exports, name, 0);
    if i >= exports.len() {
        Err(LeanCheckedExportErrorView::MissingSignatureMetadata { symbol: name })
    } else if exports[i].args != args || exports[i].result != result {
        Err(LeanCheckedExportErrorView::SignatureMismatch { symbol: name })
    } else {
        match lookup_verdict(globals, path, name, args.len(), expects_io_result, found) {
            Ok(target) => Ok(target),
            Err(error) => if globals.contains(name) && (args.len() > 0 || expects_io_result) {
                Err(LeanCheckedExportErrorView::SignatureMismatch { symbol: name })
            } else {
                Err(LeanCheckedExportErrorView::MissingSymbol { symbol: name, error })
            },
        }
    }
}

/// An opened and initialized capability.
#[derive(Debug)]
pub struct LeanCapability {
    bundle: LeanLibraryBundle,
    package: String,
    module: String,
    exports: Vec<LeanExportSignature>,
}

impl LeanCapability {
    /// The libraries of the capability.
    pub closed spec fn spec_bundle(self) -> LeanLibraryBundle {
        self.bundle
    }

    /// The Lake package.
    pub closed spec fn spec_package(self) -> Seq<char> {
        self.package@
    }

    /// The root module.
    pub closed spec fn spec_module(self) -> Seq<char> {
        self.module@
    }

    /// The shapes of the capability's exports, as its manifest gives them.
    pub closed spec fn spec_exports(self) -> Seq<LeanExportSignatureView> {
        signature_views(self.exports@)
    }

    /// Completes a capability whose libraries are open: judges the initialization
    /// of its root module.
    pub fn open_with_dependencies(
        bundle: LeanLibraryBundle,
        package: String,
        module: String,
        exports: Vec<LeanExportSignature>,
        call: InitializerCall,
    ) -> (r: LeanResult<LeanCapability>)
        ensures
            match initialized(bundle.spec_primary().path, package@, module@, call) {
                Ok(_) => r matches Ok(capability) && capability.spec_bundle() == bundle
                    && capability.spec_package() == package@ && capability.spec_module() == module@
                    && capability.spec_exports() == signature_views(exports@),
                Err(err) => r matches Err(e) && e@ == err,
            },
    {
        let outcome: LeanResult<()> = match bundle.library().initialize_module(
            package.as_str(),
            module.as_str(),
            call,
        ) {
            Ok(_) => Ok(()),
            Err(err) => Err(err),
        };
        match outcome {
            Ok(()) => Ok(LeanCapability { bundle, package, module, exports }),
            Err(err) => Err(err),
        }
    }

    /// Judges another initialization of the root module, and names it.
    pub fn module(&self, call: InitializerCall) -> (r: LeanResult<LeanModule<'_>>)
        ensures
            match initialized(
                self.spec_bundle().spec_primary().path,
                self.spec_package(),
                self.spec_module(),
                call,
            ) {
                Ok(name) => r matches Ok(m) && m.spec_library()@
                    == self.spec_bundle().spec_primary() && m.spec_initializer() == name,
                Err(err) => r matches Err(e) && e@ == err,
            },
    {
        self.bundle.library().initialize_module(self.package.as_str(), self.module.as_str(), call)
    }

    /// The capability's own library.
    #[must_use]
    pub fn library(&self) -> (r: &LeanLibrary)
        ensures
            r@ == self.spec_bundle().spec_primary(),
    {
        self.bundle.library()
    }

    /// The libraries of the capability.
    #[must_use]
    pub fn bundle(&self) -> (r: &LeanLibraryBundle)
        ensures
            *r == self.spec_bundle(),
    {
        &self.bundle
    }

    /// The Lake package.
    #[must_use]
    pub fn package_name(&self) -> (r: &str)
        ensures
            r@ == self.spec_package(),
    {
        self.package.as_str()
    }

    /// The root module.
    #[must_use]
    pub fn module_name(&self) -> (r: &str)
        ensures
            r@ == self.spec_module(),
    {
        self.module.as_str()
    }

    /// Looks an export up by its symbol, given the loader's answer. The lookup
    /// only succeeds where the manifest gives the symbol the shape of the types.
    pub fn exported<Args: LeanArgs, R: DecodeCallResult>(
        &self,
        name: &str,
        found: Result<usize, String>,
    ) -> (r: Result<LeanExported<Args, R>, LeanCheckedExportError>)
        ensures
            match checked_verdict(
                self.spec_exports(),
                self.spec_bundle().spec_primary().globals,
                self.spec_bundle().spec_primary().path,
                name@,
                Args::abi_args(),
                R::abi_return(),
                R::spec_expects_io_result(),
                found_view(found),
            ) {
                Ok(target) => r matches Ok(export) && export.spec_target() == target,
                Err(err) => r matches Err(e) && e@ == err,
            },
    {
        let args: Vec<LeanExportArgAbi> = Args::export_abi_args();
        let signature: &LeanExportSignature = match find_signature(&self.exports, name) {
            Some(signature) => signature,
            None => {
                return Err(
                    LeanCheckedExportError::MissingSignatureMetadata { symbol: name.to_owned() },
                );
            },
        };
        if !signature.has_shape(&args, R::export_abi_return()) {
            return Err(LeanCheckedExportError::SignatureMismatch { symbol: name.to_owned() });
        }
        let library: &LeanLibrary = self.bundle.library();
        match LeanExported::<Args, R>::lookup(library, name, found) {
            Ok(export) => Ok(export),
            Err(error) => if library.globals().contains(name) && (Args::arity() > 0
                || R::expects_io_result()) {
                Err(LeanCheckedExportError::SignatureMismatch { symbol: name.to_owned() })
            } else {
                Err(LeanCheckedExportError::MissingSymbol { symbol: name.to_owned(), error })
            },
        }
    }
}

/// A checked lookup succeeds only for a symbol that the dylib exports and that
/// the manifest lists with exactly the shape of the types.
pub proof fn checked_lookup_needs_matching_signature(
    exports: Seq<LeanExportSignatureView>,
    globals: Seq<Seq<char>>,
    path: Seq<char>,
    name: Seq<char>,
    args: Seq<LeanExportArgAbi>,
    result: LeanExportReturnAbi,
    expects_io_result: bool,
    found: Result<usize, Seq<char>>,
)
    requires
        checked_verdict(
            exports,
            globals,
            path,
            name,
            args,
            result,
            expects_io_result,
            found,
        ) is Ok,
    ensures
        found is Ok,
        exists|i: int|
            0 <= i < exports.len() && (#[trigger] exports[i]) == (LeanExportSignatureView {
                symbol: name,
                args,
                result,
            }),
{
    let i = signature_index(exports, name, 0);
    lemma_signature_index(exports, name, 0);
    assert(exports[i] == (LeanExportSignatureView { symbol: name, args, result }));
}

proof fn lemma_signature_index(
    exports: Seq<LeanExportSignatureView>,
    name: Seq<char>,
    from: int,
)
    requires
        0 <= from <= exports.len(),
    ensures
        from <= signature_index(exports, name, from) <= exports.len(),
        signature_index(exports, name, from) < exports.len() ==> exports[signature_index(
            exports,
            name,
            from,
        )].symbol == name,
    decreases exports.len() - from,
{
    if from < exports.len() && exports[from].symbol != name {
        lemma_signature_index(exports, name, from + 1);
    }
}

/// What a checked lookup comes to goes by the first signature of the symbol: without
/// one the metadata are missing; one of another shape, and a global variable that is
/// asked for with arguments or an `IO` result, is a mismatch; otherwise the loader's
/// answer decides. Every refusal names the symbol.
pub proof fn checked_lookup_goes_by_the_first_signature(
    exports: Seq<LeanExportSignatureView>,
    globals: Seq<Seq<char>>,
    path: Seq<char>,
    name: Seq<char>,
    args: Seq<LeanExportArgAbi>,
    result: LeanExportReturnAbi,
    expects_io_result: bool,
    found: Result<usize, String>,
    first: int,
)
    requires
        0 <= first <= exports.len(),
        forall|i: int| 0 <= i < first ==> (#[trigger] exports[i]).symbol != name,
        first < exports.len() ==> exports[first].symbol == name,
    ensures
        ({
            let verdict = checked_verdict(
                exports,
                globals,
                path,
                name,
                args,
                result,
                expects_io_result,
                found_view(found),
            );
            let callable = globals.contains(name) ==> args.len() == 0 && !expects_io_result;
            if first == exports.len() {
                verdict == Err::<CallableTarget, LeanCheckedExportErrorView>(
                    LeanCheckedExportErrorView::MissingSignatureMetadata { symbol: name },
                )
            } else if exports[first].args != args || exports[first].result != result || !callable {
                verdict == Err::<CallableTarget, LeanCheckedExportErrorView>(
                    LeanCheckedExportErrorView::SignatureMismatch { symbol: name },
                )
            } else {
                match found {
                    Ok(address) => verdict == Ok::<CallableTarget, LeanCheckedExportErrorView>(
                        if globals.contains(name) {
                            CallableTarget::Global(address)
                        } else {
                            CallableTarget::Function(address)
                        },
                    ),
                    Err(_) => verdict matches Err(
                        LeanCheckedExportErrorView::MissingSymbol { symbol, .. },
                    ) && symbol == name,
                }
            }
        }),
{
    first_signature_counts(exports, name, first);
}

/// A refused lookup is viewed with its symbol and its cause.
pub proof fn refused_lookups_are_viewed_part_by_part(err: LeanCheckedExportError)
    ensures
        err matches LeanCheckedExportError::MissingSignatureMetadata { symbol } ==> err@ == (
        LeanCheckedExportErrorView::MissingSignatureMetadata { symbol: symbol@ }),
        err matches LeanCheckedExportError::SignatureMismatch { symbol } ==> err@ == (
        LeanCheckedExportErrorView::SignatureMismatch { symbol: symbol@ }),
        err matches LeanCheckedExportError::MissingSymbol { symbol, error } ==> err@ == (
        LeanCheckedExportErrorView::MissingSymbol { symbol: symbol@, error: error@ }),
{
}

/// A dylib that cannot be located is a failure to load, missing names are failures to
/// link, and each says which of the three is missing.
pub proof fn incomplete_descriptions_are_told_apart(location: ArtifactLocation, name: String)
    ensures
        unresolved_dylib_error(location).code() == LeanDiagnosticCode::ModuleInit,
        unresolved_dylib_error(ArtifactLocation::Env(name)) == module_init_error(
            (LeanBuiltCapabilityError::EnvVarNotSet {
                kind: BuiltCapabilityArtifact::Dylib,
                var: name,
            }).text(),
        ),
        unresolved_dylib_error(ArtifactLocation::Unspecified) == module_init_error(
            (LeanBuiltCapabilityError::NotConfigured {
                kind: BuiltCapabilityArtifact::Dylib,
            }).text(),
        ),
        missing_package_error().code() == LeanDiagnosticCode::Linking,
        missing_module_error().code() == LeanDiagnosticCode::Linking,
        missing_package_error() != missing_module_error(),
{
    reveal_strlit("LeanBuiltCapability is missing the Lake package name; call `.package(...)`");
    reveal_strlit("LeanBuiltCapability is missing the root Lean module name; call `.module(...)`");
    let package = "LeanBuiltCapability is missing the Lake package name; call `.package(...)`"@;
    let module = "LeanBuiltCapability is missing the root Lean module name; call `.module(...)`"@;
    assert(4 * package.len() <= 4096 && 4 * module.len() <= 4096);
    lemma_bounded(package, 4096);
    lemma_bounded(module, 4096);
    assert(package.len() != module.len());
}

} // verus!
