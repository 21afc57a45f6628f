//! Lake projects as hosts, and the capabilities that they load.

use vstd::prelude::*;
use vstd::string::*;

use crate::error::{LeanErrorView, LeanResult, module_init_error};
use crate::host::lake::{LakeProject, dylib_name, joined_path, lake_layout, library_dir};
use crate::host::symbols::{SessionSymbols, SymbolAnswers, first_missing, resolved_to};
use crate::module::initializer::mangled;
use crate::module::library::{
    InitializerCall, LeanLibrary, LeanLibraryView, bytes_or_text, classified_globals,
    classify_globals, initialized, unknown_function_error,
};
use crate::module::symbols::{SymbolSet, object_refusal};
use crate::runtime::init::LeanRuntime;

verus! {

/// A Lake project whose capabilities can be loaded.
#[derive(Debug)]
pub struct LeanHost<'lean> {
    runtime: &'lean LeanRuntime,
    project: LakeProject,
}

/// What the steps of loading a capability came to outside. The outcome of a step
/// that was not reached is not looked at.
#[derive(Debug)]
pub struct LoadOutcomes {
    /// Reading the dylib's file.
    pub read: Result<Vec<u8>, String>,
    /// Opening the dylib.
    pub opened: Result<(), String>,
    /// Initializing its root module.
    pub initializer: InitializerCall,
    /// Looking up the session symbols.
    pub symbols: SymbolAnswers,
}

/// The first failure among the steps of loading the dylib at `path`: reading and
/// parsing it, opening it, initializing its module, resolving its symbols.
pub open spec fn load_failure(
    path: Seq<char>,
    package: Seq<char>,
    lib_name: Seq<char>,
    outcomes: LoadOutcomes,
) -> Option<LeanErrorView> {
    match classified_globals(path, bytes_or_text(outcomes.read)) {
        Err(message) => Some(module_init_error(message)),
        Ok(_) => match outcomes.opened {
            Err(text) => Some(
                module_init_error("failed to open Lean library '"@ + path + "': "@ + text@),
            ),
            Ok(()) => match initialized(path, package, lib_name, outcomes.initializer) {
                Err(err) => Some(err),
                Ok(_) => match first_missing(outcomes.symbols) {
                    Some((name, text)) => Some(unknown_function_error(name, path, text)),
                    None => None,
                },
            },
        },
    }
}

impl<'lean> LeanHost<'lean> {
    /// The project's root directory.
    pub closed spec fn spec_root(self) -> Seq<char> {
        self.project.spec_root()
    }

    /// The runtime that the host runs on.
    pub closed spec fn spec_runtime(self) -> LeanRuntime {
        *self.runtime
    }

    /// Hosts the project with the given root, given whether that is a directory.
    pub fn from_lake_project(runtime: &'lean LeanRuntime, root: &str, is_dir: bool) -> (r:
        LeanResult<LeanHost<'lean>>)
        ensures
            if is_dir {
                r matches Ok(host) && host.spec_root() == root@ && host.spec_runtime() == *runtime
            } else {
                r matches Err(err) && err@ == module_init_error(
                    "Lake project root '"@ + root@ + "' does not exist or is not a directory"@,
                )
            },
    {
        match LakeProject::new(root, is_dir) {
            Ok(project) => Ok(LeanHost { runtime, project }),
            Err(err) => Err(err),
        }
    }

    /// The project.
    pub fn project(&self) -> (r: &LakeProject)
        ensures
            r.spec_root() == self.spec_root(),
    {
        &self.project
    }

    /// The runtime that the host runs on.
    pub fn runtime(&self) -> (r: &'lean LeanRuntime)
        ensures
            *r == self.spec_runtime(),
    {
        self.runtime
    }

    /// Where the dylib of a capability lies.
    pub open spec fn spec_dylib(self, package: Seq<char>, lib_name: Seq<char>, macos: bool) -> Seq<
        char,
    > {
        joined_path(library_dir(self.spec_root()), dylib_name(package, lib_name, macos))
    }

    /// Where the dylib of a capability lies.
    pub fn capability_dylib(&self, package: &str, lib_name: &str, macos: bool) -> (r: String)
        ensures
            r@ == self.spec_dylib(package@, lib_name@, macos),
    {
        self.project.capability_dylib(package, lib_name, macos)
    }

    /// Judges the loading of a capability: the first step that failed decides.
    pub fn load_capabilities<'h>(
        &'h self,
        package: &str,
        lib_name: &str,
        macos: bool,
        outcomes: LoadOutcomes,
    ) -> (r: LeanResult<LeanCapabilities<'lean, 'h>>)
        ensures
            ({
                let path = self.spec_dylib(package@, lib_name@, macos);
                match load_failure(path, package@, lib_name@, outcomes) {
                    Some(err) => r matches Err(e) && e@ == err,
                    None => r matches Ok(caps) && caps.spec_root() == self.spec_root()
                        && caps.spec_runtime() == self.spec_runtime() && caps.spec_library().path == path && classified_globals(
                        path,
                        bytes_or_text(outcomes.read),
                    ) == Ok::<Seq<Seq<char>>, Seq<char>>(caps.spec_library().globals)
                        && resolved_to(outcomes.symbols, caps.spec_symbols()),
                }
            }),
    {
        let path: String = self.capability_dylib(package, lib_name, macos);
        let globals: SymbolSet = match classify_globals(path.as_str(), &outcomes.read) {
            Ok(globals) => globals,
            Err(err) => {
                return Err(err);
            },
        };
        let library: LeanLibrary = match LeanLibrary::open(path, globals, outcomes.opened) {
            Ok(library) => library,
            Err(err) => {
                return Err(err);
            },
        };
        LeanCapabilities::new(
            self,
            library,
            package,
            lib_name,
            outcomes.initializer,
            outcomes.symbols,
        )
    }
}

/// A loaded capability with the addresses that sessions call.
#[derive(Debug)]
pub struct LeanCapabilities<'lean, 'h> {
    host: &'h LeanHost<'lean>,
    library: LeanLibrary,
    symbols: SessionSymbols,
}

impl<'lean, 'h> LeanCapabilities<'lean, 'h> {
    /// The root directory of the project that the capability belongs to.
    pub closed spec fn spec_root(self) -> Seq<char> {
        self.host.spec_root()
    }

    /// The runtime that the capability's host runs on.
    pub closed spec fn spec_runtime(self) -> LeanRuntime {
        self.host.spec_runtime()
    }

    /// The capability's library.
    pub closed spec fn spec_library(self) -> LeanLibraryView {
        self.library@
    }

    /// The addresses that sessions call.
    pub closed spec fn spec_symbols(self) -> SessionSymbols {
        self.symbols
    }

    /// Judges the initialization of an opened library's root module and the
    /// lookup of its session symbols, in that order.
    pub fn new(
        host: &'h LeanHost<'lean>,
        library: LeanLibrary,
        package: &str,
        lib_name: &str,
        initializer: InitializerCall,
        symbols: SymbolAnswers,
    ) -> (r: LeanResult<LeanCapabilities<'lean, 'h>>)
        ensures
            match initialized(library@.path, package@, lib_name@, initializer) {
                Err(err) => r matches Err(e) && e@ == err,
                Ok(_) => match first_missing(symbols) {
                    Some((name, text)) => r matches Err(e) && e@ == unknown_function_error(
                        name,
                        library@.path,
                        text,
                    ),
                    None => r matches Ok(caps) && caps.spec_root() == host.spec_root()
                        && caps.spec_runtime() == host.spec_runtime() && caps.spec_library() == library@ && resolved_to(
                        symbols,
                        caps.spec_symbols(),
                    ),
                },
            },
    {
        let outcome: LeanResult<()> = match library.initialize_module(
            package,
            lib_name,
            initializer,
        ) {
            Ok(_) => Ok(()),
            Err(err) => Err(err),
        };
        match outcome {
            Err(err) => Err(err),
            Ok(()) => match SessionSymbols::resolve(&library, symbols) {
                Ok(symbols) => Ok(LeanCapabilities { host, library, symbols }),
                Err(err) => Err(err),
            },
        }
    }

    /// The host of the capability.
    pub fn host(&self) -> (r: &'h LeanHost<'lean>)
        ensures
            r.spec_root() == self.spec_root(),
            r.spec_runtime() == self.spec_runtime(),
    {
        self.host
    }

    /// The addresses that sessions call.
    pub fn symbols(&self) -> (r: &SessionSymbols)
        ensures
            *r == self.spec_symbols(),
    {
        &self.symbols
    }

    /// The capability's library.
    pub fn library(&self) -> (r: &LeanLibrary)
        ensures
            r@ == self.spec_library(),
    {
        &self.library
    }
}

/// A capability is loaded exactly when its file is a readable object file, its dylib
/// opens, its root module is initialized, and every mandatory symbol is found.
pub proof fn loading_needs_every_step(
    path: Seq<char>,
    package: Seq<char>,
    lib_name: Seq<char>,
    outcomes: LoadOutcomes,
)
    ensures
        load_failure(path, package, lib_name, outcomes) is None <==> {
            &&& outcomes.read matches Ok(bytes) && object_refusal(bytes@) is None
            &&& outcomes.opened is Ok
            &&& initialized(path, package, lib_name, outcomes.initializer) is Ok
            &&& first_missing(outcomes.symbols) is None
        },
{
}

/// The steps are judged in order, so that the failure of an earlier one is reported
/// whatever came of the later ones.
pub proof fn earlier_failures_come_first(
    path: Seq<char>,
    package: Seq<char>,
    lib_name: Seq<char>,
    a: LoadOutcomes,
    b: LoadOutcomes,
)
    requires
        bytes_or_text(a.read) == bytes_or_text(b.read),
    ensures
        classified_globals(path, bytes_or_text(a.read)) is Err ==> load_failure(
            path,
            package,
            lib_name,
            a,
        ) == load_failure(path, package, lib_name, b),
        a.opened == b.opened && a.opened is Err ==> load_failure(path, package, lib_name, a)
            == load_failure(path, package, lib_name, b),
        a.opened == b.opened && a.initializer == b.initializer && initialized(
            path,
            package,
            lib_name,
            a.initializer,
        ) is Err ==> load_failure(path, package, lib_name, a) == load_failure(
            path,
            package,
            lib_name,
            b,
        ),
{
}

/// The dylib of a capability lies where Lake puts it below the project's root.
pub proof fn dylibs_lie_below_the_root(
    host: LeanHost<'_>,
    package: Seq<char>,
    lib_name: Seq<char>,
    macos: bool,
)
    requires
        host.spec_root().len() > 0,
        host.spec_root()[host.spec_root().len() - 1] != '/',
    ensures
        host.spec_dylib(package, lib_name, macos) == host.spec_root() + "/.lake/build/lib/lib"@
            + mangled(package) + seq!['_'] + lib_name + (if macos {
            ".dylib"@
        } else {
            ".so"@
        }),
{
    lake_layout(host.spec_root(), package, lib_name, macos);
}

/// Each step that fails is reported as what it is: an unreadable file and a dylib that
/// does not open as failures to load, a failed initialization as it is, and a missing
/// symbol as a failed lookup of that symbol.
pub proof fn failed_steps_are_reported_as_they_are(
    path: Seq<char>,
    package: Seq<char>,
    lib_name: Seq<char>,
    outcomes: LoadOutcomes,
)
    ensures
        classified_globals(path, bytes_or_text(outcomes.read)) matches Err(message) ==> load_failure(
            path,
            package,
            lib_name,
            outcomes,
        ) == Some(module_init_error(message)),
        classified_globals(path, bytes_or_text(outcomes.read)) is Ok ==> {
            let found = load_failure(path, package, lib_name, outcomes);
            match outcomes.opened {
                Err(text) => found == Some(
                    module_init_error("failed to open Lean library '"@ + path + "': "@ + text@),
                ),
                Ok(()) => match initialized(path, package, lib_name, outcomes.initializer) {
                    Err(err) => found == Some(err),
                    Ok(_) => first_missing(outcomes.symbols) matches Some(missing) ==> found
                        == Some(unknown_function_error(missing.0, path, missing.1)),
                },
            }
        },
{
}

} // verus!
