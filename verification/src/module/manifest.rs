//! Descriptions of built capabilities: the manifest a build writes, the
//! dependency dylibs it lists, and where to find the artifacts.

use vstd::prelude::*;
use vstd::string::*;

use crate::text::{cat3, cat5};

verus! {

/// A module whose initializer is to run.
#[derive(Clone, Debug, PartialEq, Eq)]
pub struct LeanModuleInitializer {
    package: String,
    module: String,
}

/// Mathematical value of a [`LeanModuleInitializer`].
pub struct LeanModuleInitializerView {
    pub package: Seq<char>,
    pub module: Seq<char>,
}

impl View for LeanModuleInitializer {
    type V = LeanModuleInitializerView;

    closed spec fn view(&self) -> LeanModuleInitializerView {
        LeanModuleInitializerView { package: self.package@, module: self.module@ }
    }
}

impl LeanModuleInitializer {
    /// Names a module by its Lake package and its dotted module name.
    pub fn new(package: String, module: String) -> (r: LeanModuleInitializer)
        ensures
            r@ == (LeanModuleInitializerView { package: package@, module: module@ }),
    {
        LeanModuleInitializer { package, module }
    }

    /// The Lake package.
    pub fn package_name(&self) -> (r: &str)
        ensures
            r@ == self@.package,
    {
        self.package.as_str()
    }

    /// The dotted module name.
    pub fn module_name(&self) -> (r: &str)
        ensures
            r@ == self@.module,
    {
        self.module.as_str()
    }
}

/// Mathematical value of a [`LeanLibraryDependency`].
pub struct LeanLibraryDependencyView {
    pub path: Seq<char>,
    pub exports_symbols: bool,
    pub initializer: Option<LeanModuleInitializerView>,
}

/// A dylib that has to be open before the primary one.
#[derive(Clone, Debug, PartialEq, Eq)]
pub struct LeanLibraryDependency {
    path: String,
    exports_symbols: bool,
    initializer: Option<LeanModuleInitializer>,
}

impl View for LeanLibraryDependency {
    type V = LeanLibraryDependencyView;

    closed spec fn view(&self) -> LeanLibraryDependencyView {
        LeanLibraryDependencyView {
            path: self.path@,
            exports_symbols: self.exports_symbols,
            initializer: match self.initializer {
                Some(initializer) => Some(initializer@),
                None => None,
            },
        }
    }
}

impl LeanLibraryDependency {
    /// Describes a dylib that exports nothing to its dependents and has no
    /// initializer to run.
    pub fn path(path: String) -> (r: LeanLibraryDependency)
        ensures
            r@ == (LeanLibraryDependencyView {
                path: path@,
                exports_symbols: false,
                initializer: None,
            }),
    {
        LeanLibraryDependency { path, exports_symbols: false, initializer: None }
    }

    /// Makes the dylib's symbols visible to the dylibs opened after it.
    pub fn export_symbols_for_dependents(self) -> (r: LeanLibraryDependency)
        ensures
            r@ == (LeanLibraryDependencyView { exports_symbols: true, ..self@ }),
    {
        LeanLibraryDependency {
            path: self.path,
            exports_symbols: true,
            initializer: self.initializer,
        }
    }

    /// Has a module of the dylib initialized once the dylib is open.
    pub fn initializer(self, package: String, module: String) -> (r: LeanLibraryDependency)
        ensures
            r@ == (LeanLibraryDependencyView {
                initializer: Some(
                    LeanModuleInitializerView { package: package@, module: module@ },
                ),
                ..self@
            }),
    {
        LeanLibraryDependency {
            path: self.path,
            exports_symbols: self.exports_symbols,
            initializer: Some(LeanModuleInitializer::new(package, module)),
        }
    }

    /// Where the dylib lies.
    pub fn path_ref(&self) -> (r: &str)
        ensures
            r@ == self@.path,
    {
        self.path.as_str()
    }

    /// Whether the dylib's symbols are visible to its dependents.
    pub fn exports_symbols_for_dependents(&self) -> (r: bool)
        ensures
            r == self@.exports_symbols,
    {
        self.exports_symbols
    }

    /// The module to initialize once the dylib is open.
    pub fn module_initializer(&self) -> (r: Option<&LeanModuleInitializer>)
        ensures
            match r {
                Some(initializer) => self@.initializer == Some(initializer@),
                None => self@.initializer is None,
            },
    {
        match &self.initializer {
            Some(initializer) => Some(initializer),
            None => None,
        }
    }
}

/// The contents of a sequence of dependencies.
pub open spec fn dependency_views(
    dependencies: Seq<LeanLibraryDependency>,
) -> Seq<LeanLibraryDependencyView> {
    Seq::new(dependencies.len(), |i: int| dependencies[i]@)
}

/// What a build recorded about a capability.
#[derive(Clone, Debug, PartialEq, Eq)]
pub struct CapabilityManifest {
    /// Path of the capability's own dylib.
    pub primary_dylib: String,
    /// Lake package of the capability.
    pub package: String,
    /// Root module of the capability.
    pub module: String,
    /// Dylibs to open first, in order.
    pub dependencies: Vec<LeanLibraryDependency>,
    /// Version of the toolchain that built the capability.
    pub lean_version: Option<String>,
    /// Version that the toolchain resolved to.
    pub resolved_lean_version: Option<String>,
    /// Digest of the toolchain's `lean.h`.
    pub lean_header_sha256: Option<String>,
}

/// Which artifact of a capability is meant.
#[derive(Copy, Clone, Debug, PartialEq, Eq, Structural)]
pub enum BuiltCapabilityArtifact {
    /// The dylib.
    Dylib,
    /// The manifest.
    Manifest,
}

impl BuiltCapabilityArtifact {
    /// The artifact's name.
    pub open spec fn spec_name(self) -> Seq<char> {
        match self {
            BuiltCapabilityArtifact::Dylib => "dylib"@,
            BuiltCapabilityArtifact::Manifest => "manifest"@,
        }
    }

    /// The artifact's name.
    pub fn name(self) -> (r: &'static str)
        ensures
            r@ == self.spec_name(),
    {
        match self {
            BuiltCapabilityArtifact::Dylib => "dylib",
            BuiltCapabilityArtifact::Manifest => "manifest",
        }
    }
}

/// Why the path of an artifact could not be resolved.
#[derive(Clone, Debug, PartialEq, Eq)]
pub enum LeanBuiltCapabilityError {
    /// The environment variable that holds the path is not set.
    EnvVarNotSet { kind: BuiltCapabilityArtifact, var: String },
    /// Neither a path nor an environment variable was given.
    NotConfigured { kind: BuiltCapabilityArtifact },
}

impl LeanBuiltCapabilityError {
    /// The error's rendering.
    pub open spec fn text(self) -> Seq<char> {
        match self {
            LeanBuiltCapabilityError::EnvVarNotSet { kind, var } => {
                "environment variable '"@ + var@ + "' for the Lean capability "@ + kind.spec_name()
                    + " is not set"@
            },
            LeanBuiltCapabilityError::NotConfigured { kind } => {
                "the Lean capability "@ + kind.spec_name() + " path is not configured"@
            },
        }
    }

    /// Renders the error.
    pub fn render(&self) -> (r: String)
        ensures
            r@ == self.text(),
    {
        match self {
            LeanBuiltCapabilityError::EnvVarNotSet { kind, var } => cat5(
                "environment variable '",
                var.as_str(),
                "' for the Lean capability ",
                kind.name(),
                " is not set",
            ),
            LeanBuiltCapabilityError::NotConfigured { kind } => cat3(
                "the Lean capability ",
                kind.name(),
                " path is not configured",
            ),
        }
    }
}

/// Where an artifact is to be found.
#[derive(Clone, Debug, PartialEq, Eq)]
pub enum ArtifactLocation {
    /// Nowhere.
    Unspecified,
    /// At a path.
    Path(String),
    /// At the path that an environment variable holds.
    Env(String),
}

impl ArtifactLocation {
    /// The path of the artifact, given the value of the environment variable
    /// that the location names.
    pub open spec fn resolved(self, env_value: Option<Seq<char>>) -> Option<Seq<char>> {
        match self {
            ArtifactLocation::Unspecified => None,
            ArtifactLocation::Path(path) => Some(path@),
            ArtifactLocation::Env(_) => env_value,
        }
    }

    /// Resolves the artifact's path, given the value of the environment
    /// variable that the location names.
    pub fn resolve(&self, kind: BuiltCapabilityArtifact, env_value: Option<&str>) -> (r: Result<
        String,
        LeanBuiltCapabilityError,
    >)
        ensures
            ({
                let value = match env_value {
                    Some(text) => Some(text@),
                    None => None,
                };
                match self.resolved(value) {
                    Some(path) => r matches Ok(p) && p@ == path,
                    None => match *self {
                        ArtifactLocation::Env(name) => r matches Err(
                            LeanBuiltCapabilityError::EnvVarNotSet { kind: k, var },
                        ) && k == kind && var@ == name@,
                        _ => r matches Err(LeanBuiltCapabilityError::NotConfigured { kind: k })
                            && k == kind,
                    },
                }
            }),
    {
        match self {
            ArtifactLocation::Unspecified => Err(LeanBuiltCapabilityError::NotConfigured { kind }),
            ArtifactLocation::Path(path) => Ok(path.clone()),
            ArtifactLocation::Env(name) => match env_value {
                Some(text) => Ok(text.to_owned()),
                None => Err(LeanBuiltCapabilityError::EnvVarNotSet { kind, var: name.clone() }),
            },
        }
    }
}

/// A capability that a build script produced, as its user describes it.
#[derive(Clone, Debug, PartialEq, Eq)]
pub struct LeanBuiltCapability {
    /// Where the dylib is.
    pub dylib: ArtifactLocation,
    /// Where the manifest is.
    pub manifest: ArtifactLocation,
    /// Lake package of the capability.
    pub package: Option<String>,
    /// Root module of the capability.
    pub module: Option<String>,
    /// Dylibs to open first, in order.
    pub dependencies: Vec<LeanLibraryDependency>,
}

impl LeanBuiltCapability {
    /// Describes a capability by the locations of its artifacts.
    fn located(dylib: ArtifactLocation, manifest: ArtifactLocation) -> (r: LeanBuiltCapability)
        ensures
            r.dylib == dylib,
            r.manifest == manifest,
            r.package is None,
            r.module is None,
            r.dependencies@.len() == 0,
    {
        LeanBuiltCapability {
            dylib,
            manifest,
            package: None,
            module: None,
            dependencies: Vec::new(),
        }
    }

    /// Describes a capability by the path of its dylib.
    pub fn path(path: String) -> (r: LeanBuiltCapability)
        ensures
            r.dylib == ArtifactLocation::Path(path),
            r.manifest == ArtifactLocation::Unspecified,
            r.package is None,
            r.module is None,
            r.dependencies@.len() == 0,
    {
        LeanBuiltCapability::located(ArtifactLocation::Path(path), ArtifactLocation::Unspecified)
    }

    /// Describes a capability by the environment variable that holds the path
    /// of its dylib.
    pub fn env(var: String) -> (r: LeanBuiltCapability)
        ensures
            r.dylib == ArtifactLocation::Env(var),
            r.manifest == ArtifactLocation::Unspecified,
            r.package is None,
            r.module is None,
            r.dependencies@.len() == 0,
    {
        LeanBuiltCapability::located(ArtifactLocation::Env(var), ArtifactLocation::Unspecified)
    }

    /// Describes a capability by the path of its manifest.
    pub fn manifest_path(path: String) -> (r: LeanBuiltCapability)
        ensures
            r.dylib == ArtifactLocation::Unspecified,
            r.manifest == ArtifactLocation::Path(path),
            r.package is None,
            r.module is None,
            r.dependencies@.len() == 0,
    {
        LeanBuiltCapability::located(ArtifactLocation::Unspecified, ArtifactLocation::Path(path))
    }

    /// Describes a capability by the environment variable that holds the path
    /// of its manifest.
    pub fn manifest_env(var: String) -> (r: LeanBuiltCapability)
        ensures
            r.dylib == ArtifactLocation::Unspecified,
            r.manifest == ArtifactLocation::Env(var),
            r.package is None,
            r.module is None,
            r.dependencies@.len() == 0,
    {
        LeanBuiltCapability::located(ArtifactLocation::Unspecified, ArtifactLocation::Env(var))
    }

    /// Names the Lake package.
    pub fn package(self, package: String) -> (r: LeanBuiltCapability)
        ensures
            r == (LeanBuiltCapability { package: Some(package), ..self }),
    {
        LeanBuiltCapability {
            dylib: self.dylib,
            manifest: self.manifest,
            package: Some(package),
            module: self.module,
            dependencies: self.dependencies,
        }
    }

    /// Names the root module.
    pub fn module(self, module: String) -> (r: LeanBuiltCapability)
        ensures
            r == (LeanBuiltCapability { module: Some(module), ..self }),
    {
        LeanBuiltCapability {
            dylib: self.dylib,
            manifest: self.manifest,
            package: self.package,
            module: Some(module),
            dependencies: self.dependencies,
        }
    }

    /// Adds a dylib to open first, behind those already there.
    pub fn dependency(self, dependency: LeanLibraryDependency) -> (r: LeanBuiltCapability)
        ensures
            r.dylib == self.dylib,
            r.manifest == self.manifest,
            r.package == self.package,
            r.module == self.module,
            r.dependencies@ == self.dependencies@.push(dependency),
    {
        let mut dependencies: Vec<LeanLibraryDependency> = self.dependencies;
        dependencies.push(dependency);
        LeanBuiltCapability {
            dylib: self.dylib,
            manifest: self.manifest,
            package: self.package,
            module: self.module,
            dependencies,
        }
    }
}

/// An artifact is found at the path that was given, or at the path that the
/// environment variable holds where one was named and is set, and nowhere else.
pub proof fn artifacts_are_found_where_they_are_named(
    location: ArtifactLocation,
    env_value: Option<Seq<char>>,
)
    ensures
        location matches ArtifactLocation::Path(path) ==> location.resolved(env_value) == Some(
            path@,
        ),
        location is Env ==> location.resolved(env_value) == env_value,
        location is Unspecified ==> location.resolved(env_value) is None,
{
}

/// An artifact that is not found is reported with its name, and with the variable that
/// should have held its path.
pub proof fn unresolved_artifacts_are_named(kind: BuiltCapabilityArtifact, var: String)
    ensures
        BuiltCapabilityArtifact::Dylib.spec_name() == "dylib"@,
        BuiltCapabilityArtifact::Manifest.spec_name() == "manifest"@,
        (LeanBuiltCapabilityError::EnvVarNotSet { kind, var }).text() == "environment variable '"@
            + var@ + "' for the Lean capability "@ + kind.spec_name() + " is not set"@,
        (LeanBuiltCapabilityError::NotConfigured { kind }).text() == "the Lean capability "@
            + kind.spec_name() + " path is not configured"@,
{
}

/// Dependencies are viewed one by one, in order.
pub proof fn dependencies_are_viewed_one_by_one(
    dependencies: Seq<LeanLibraryDependency>,
    i: int,
)
    requires
        0 <= i < dependencies.len(),
    ensures
        dependency_views(dependencies).len() == dependencies.len(),
        dependency_views(dependencies)[i] == dependencies[i]@,
{
}

} // verus!
