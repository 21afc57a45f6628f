//! Findings of the checks that run before a capability is opened.

use vstd::prelude::*;
use vstd::string::*;

verus! {

/// Stable identifier of a class of loader findings.
#[non_exhaustive]
#[derive(Copy, Clone, Debug, PartialEq, Eq, Structural)]
pub enum LeanLoaderDiagnosticCode {
    /// The manifest path could not be resolved or the file is absent.
    MissingManifest,
    /// The manifest could not be parsed, or names an invalid package or module.
    MalformedManifest,
    /// The manifest has a schema version that is not understood.
    UnsupportedManifestSchema,
    /// The primary dylib is absent.
    MissingPrimaryDylib,
    /// A dependency dylib is absent.
    MissingTransitiveDependency,
    /// A dylib is unreadable or not built for this process.
    UnsupportedArchitecture,
    /// The manifest was built by a toolchain outside the supported window.
    UnsupportedToolchainFingerprint,
    /// A dylib is newer than the manifest that describes it.
    StaleManifest,
    /// The primary dylib exports no initializer for its module.
    MissingInitializer,
    /// The primary dylib imports a Lean symbol that no dependency provides.
    MissingImportedSymbol,
}

impl LeanLoaderDiagnosticCode {
    /// The stable identifier.
    pub open spec fn spec_as_str(self) -> Seq<char> {
        match self {
            LeanLoaderDiagnosticCode::MissingManifest => "lean_rs.loader.missing_manifest"@,
            LeanLoaderDiagnosticCode::MalformedManifest => "lean_rs.loader.malformed_manifest"@,
            LeanLoaderDiagnosticCode::UnsupportedManifestSchema => {
                "lean_rs.loader.unsupported_manifest_schema"@
            },
            LeanLoaderDiagnosticCode::MissingPrimaryDylib => {
                "lean_rs.loader.missing_primary_dylib"@
            },
            LeanLoaderDiagnosticCode::MissingTransitiveDependency => {
                "lean_rs.loader.missing_transitive_dependency"@
            },
            LeanLoaderDiagnosticCode::UnsupportedArchitecture => {
                "lean_rs.loader.unsupported_architecture"@
            },
            LeanLoaderDiagnosticCode::UnsupportedToolchainFingerprint => {
                "lean_rs.loader.unsupported_toolchain_fingerprint"@
            },
            LeanLoaderDiagnosticCode::StaleManifest => "lean_rs.loader.stale_manifest"@,
            LeanLoaderDiagnosticCode::MissingInitializer => "lean_rs.loader.missing_initializer"@,
            LeanLoaderDiagnosticCode::MissingImportedSymbol => {
                "lean_rs.loader.missing_imported_symbol"@
            },
        }
    }

    /// The stable identifier.
    #[must_use]
    pub fn as_str(self) -> (r: &'static str)
        ensures
            r@ == self.spec_as_str(),
    {
        match self {
            LeanLoaderDiagnosticCode::MissingManifest => "lean_rs.loader.missing_manifest",
            LeanLoaderDiagnosticCode::MalformedManifest => "lean_rs.loader.malformed_manifest",
            LeanLoaderDiagnosticCode::UnsupportedManifestSchema => {
                "lean_rs.loader.unsupported_manifest_schema"
            },
            LeanLoaderDiagnosticCode::MissingPrimaryDylib => {
                "lean_rs.loader.missing_primary_dylib"
            },
            LeanLoaderDiagnosticCode::MissingTransitiveDependency => {
                "lean_rs.loader.missing_transitive_dependency"
            },
            LeanLoaderDiagnosticCode::UnsupportedArchitecture => {
                "lean_rs.loader.unsupported_architecture"
            },
            LeanLoaderDiagnosticCode::UnsupportedToolchainFingerprint => {
                "lean_rs.loader.unsupported_toolchain_fingerprint"
            },
            LeanLoaderDiagnosticCode::StaleManifest => "lean_rs.loader.stale_manifest",
            LeanLoaderDiagnosticCode::MissingInitializer => "lean_rs.loader.missing_initializer",
            LeanLoaderDiagnosticCode::MissingImportedSymbol => {
                "lean_rs.loader.missing_imported_symbol"
            },
        }
    }
}

/// How much a finding matters.
#[derive(Copy, Clone, Debug, PartialEq, Eq, Structural)]
pub enum LeanLoaderSeverity {
    /// The capability can be opened all the same.
    Warning,
    /// Opening the capability would fail.
    Error,
}

/// Mathematical value of a [`LeanLoaderCheck`].
pub struct LeanLoaderCheckView {
    pub code: LeanLoaderDiagnosticCode,
    pub severity: LeanLoaderSeverity,
    pub subject: Seq<char>,
    pub message: Seq<char>,
    pub repair_hint: Seq<char>,
}

/// One finding: what is wrong with which subject, and how to repair it.
#[derive(Debug, PartialEq, Eq)]
pub struct LeanLoaderCheck {
    code: LeanLoaderDiagnosticCode,
    severity: LeanLoaderSeverity,
    subject: String,
    message: String,
    repair_hint: String,
}

impl View for LeanLoaderCheck {
    type V = LeanLoaderCheckView;

    closed spec fn view(&self) -> LeanLoaderCheckView {
        LeanLoaderCheckView {
            code: self.code,
            severity: self.severity,
            subject: self.subject@,
            message: self.message@,
            repair_hint: self.repair_hint@,
        }
    }
}

/// A finding of error severity.
pub open spec fn error_check(
    code: LeanLoaderDiagnosticCode,
    subject: Seq<char>,
    message: Seq<char>,
    repair_hint: Seq<char>,
) -> LeanLoaderCheckView {
    LeanLoaderCheckView { code, severity: LeanLoaderSeverity::Error, subject, message, repair_hint }
}

impl Clone for LeanLoaderCheck {
    fn clone(&self) -> (r: LeanLoaderCheck)
        ensures
            r@ == self@,
    {
        LeanLoaderCheck {
            code: self.code,
            severity: self.severity,
            subject: self.subject.clone(),
            message: self.message.clone(),
            repair_hint: self.repair_hint.clone(),
        }
    }
}

impl LeanLoaderCheck {
    /// Makes a finding of error severity.
    pub fn error(
        code: LeanLoaderDiagnosticCode,
        subject: String,
        message: String,
        repair_hint: &str,
    ) -> (r: LeanLoaderCheck)
        ensures
            r@ == error_check(code, subject@, message@, repair_hint@),
    {
        LeanLoaderCheck {
            code,
            severity: LeanLoaderSeverity::Error,
            subject,
            message,
            repair_hint: repair_hint.to_owned(),
        }
    }

    /// Makes a finding of warning severity.
    pub fn warning(
        code: LeanLoaderDiagnosticCode,
        subject: String,
        message: String,
        repair_hint: &str,
    ) -> (r: LeanLoaderCheck)
        ensures
            r@ == (LeanLoaderCheckView {
                severity: LeanLoaderSeverity::Warning,
                ..error_check(code, subject@, message@, repair_hint@)
            }),
    {
        LeanLoaderCheck {
            code,
            severity: LeanLoaderSeverity::Warning,
            subject,
            message,
            repair_hint: repair_hint.to_owned(),
        }
    }

    /// Class of the finding.
    pub fn code(&self) -> (r: LeanLoaderDiagnosticCode)
        ensures
            r == self@.code,
    {
        self.code
    }

    /// How much the finding matters.
    pub fn severity(&self) -> (r: LeanLoaderSeverity)
        ensures
            r == self@.severity,
    {
        self.severity
    }

    /// What the finding is about.
    pub fn subject(&self) -> (r: &str)
        ensures
            r@ == self@.subject,
    {
        self.subject.as_str()
    }

    /// What is wrong.
    pub fn message(&self) -> (r: &str)
        ensures
            r@ == self@.message,
    {
        self.message.as_str()
    }

    /// How to repair it.
    pub fn repair_hint(&self) -> (r: &str)
        ensures
            r@ == self@.repair_hint,
    {
        self.repair_hint.as_str()
    }
}

/// The contents of a sequence of findings.
pub open spec fn check_views(checks: Seq<LeanLoaderCheck>) -> Seq<LeanLoaderCheckView> {
    Seq::new(checks.len(), |i: int| checks[i]@)
}

/// The first finding of error severity at or after `from`, or the end.
pub open spec fn first_error_index(checks: Seq<LeanLoaderCheckView>, from: int) -> int
    decreases checks.len() - from,
{
    if from >= checks.len() || checks[from].severity == LeanLoaderSeverity::Error {
        from
    } else {
        first_error_index(checks, from + 1)
    }
}

/// Whether no finding is of error severity.
pub open spec fn checks_pass(checks: Seq<LeanLoaderCheckView>) -> bool {
    forall|i: int|
        0 <= i < checks.len() ==> (#[trigger] checks[i]).severity != LeanLoaderSeverity::Error
}

/// `first_error_index` is the first finding of error severity, and the end
/// exactly when there is none.
pub proof fn lemma_first_error_index(checks: Seq<LeanLoaderCheckView>, from: int)
    requires
        0 <= from <= checks.len(),
    ensures
        from <= first_error_index(checks, from) <= checks.len(),
        forall|i: int|
            from <= i < first_error_index(checks, from) ==> (#[trigger] checks[i]).severity
                != LeanLoaderSeverity::Error,
        first_error_index(checks, from) < checks.len() ==> checks[first_error_index(
            checks,
            from,
        )].severity == LeanLoaderSeverity::Error,
    decreases checks.len() - from,
{
    if from < checks.len() && checks[from].severity != LeanLoaderSeverity::Error {
        lemma_first_error_index(checks, from + 1);
    }
}

/// Mathematical value of a [`LeanLoaderReport`].
pub struct LeanLoaderReportView {
    pub manifest_path: Option<Seq<char>>,
    pub checks: Seq<LeanLoaderCheckView>,
}

/// All findings on one manifest.
#[derive(Clone, Debug, PartialEq, Eq)]
pub struct LeanLoaderReport {
    manifest_path: Option<String>,
    checks: Vec<LeanLoaderCheck>,
}

impl View for LeanLoaderReport {
    type V = LeanLoaderReportView;

    closed spec fn view(&self) -> LeanLoaderReportView {
        LeanLoaderReportView {
            manifest_path: match self.manifest_path {
                Some(path) => Some(path@),
                None => None,
            },
            checks: check_views(self.checks@),
        }
    }
}

impl LeanLoaderReport {
    /// Makes a report.
    pub fn new(manifest_path: Option<String>, checks: Vec<LeanLoaderCheck>) -> (r: LeanLoaderReport)
        ensures
            r@.checks == check_views(checks@),
            r@.manifest_path == (match manifest_path {
                Some(path) => Some(path@),
                None => None,
            }),
    {
        LeanLoaderReport { manifest_path, checks }
    }

    /// Path of the manifest, where it was resolved.
    pub fn manifest_path(&self) -> (r: Option<&str>)
        ensures
            match r {
                Some(path) => self@.manifest_path == Some(path@),
                None => self@.manifest_path is None,
            },
    {
        match &self.manifest_path {
            Some(path) => Some(path.as_str()),
            None => None,
        }
    }

    /// The findings, in the order in which they were made.
    pub fn checks(&self) -> (r: &Vec<LeanLoaderCheck>)
        ensures
            check_views(r@) == self@.checks,
    {
        &self.checks
    }

    /// The first finding of error severity.
    pub fn first_error(&self) -> (r: Option<&LeanLoaderCheck>)
        ensures
            match r {
                Some(check) => {
                    let i = first_error_index(self@.checks, 0);
                    i < self@.checks.len() && check@ == self@.checks[i]
                },
                None => checks_pass(self@.checks),
            },
            r is None <==> checks_pass(self@.checks),
    {
        let mut i: usize = 0;
        while i < self.checks.len()
            invariant
                i <= self.checks@.len(),
                self@.checks == check_views(self.checks@),
                first_error_index(self@.checks, 0) == first_error_index(self@.checks, i as int),
                forall|j: int|
                    0 <= j < i ==> (#[trigger] self@.checks[j]).severity
                        != LeanLoaderSeverity::Error,
            decreases self.checks@.len() - i,
        {
            if self.checks[i].severity() == LeanLoaderSeverity::Error {
                assert(self@.checks[i as int].severity == LeanLoaderSeverity::Error);
                return Some(&self.checks[i]);
            }
            i = i + 1;
        }
        None
    }

    /// Whether no finding is of error severity.
    pub fn is_ok(&self) -> (r: bool)
        ensures
            r == checks_pass(self@.checks),
    {
        match self.first_error() {
            Some(_) => false,
            None => true,
        }
    }
}

/// The identifier of a class of findings is `lean_rs.loader.` and the variant's name
/// in snake case.
pub proof fn loader_identifiers_are_stable()
    ensures
        LeanLoaderDiagnosticCode::MissingManifest.spec_as_str()
            == "lean_rs.loader.missing_manifest"@,
        LeanLoaderDiagnosticCode::MalformedManifest.spec_as_str()
            == "lean_rs.loader.malformed_manifest"@,
        LeanLoaderDiagnosticCode::UnsupportedManifestSchema.spec_as_str()
            == "lean_rs.loader.unsupported_manifest_schema"@,
        LeanLoaderDiagnosticCode::MissingPrimaryDylib.spec_as_str()
            == "lean_rs.loader.missing_primary_dylib"@,
        LeanLoaderDiagnosticCode::MissingTransitiveDependency.spec_as_str()
            == "lean_rs.loader.missing_transitive_dependency"@,
        LeanLoaderDiagnosticCode::UnsupportedArchitecture.spec_as_str()
            == "lean_rs.loader.unsupported_architecture"@,
        LeanLoaderDiagnosticCode::UnsupportedToolchainFingerprint.spec_as_str()
            == "lean_rs.loader.unsupported_toolchain_fingerprint"@,
        LeanLoaderDiagnosticCode::StaleManifest.spec_as_str() == "lean_rs.loader.stale_manifest"@,
        LeanLoaderDiagnosticCode::MissingInitializer.spec_as_str()
            == "lean_rs.loader.missing_initializer"@,
        LeanLoaderDiagnosticCode::MissingImportedSymbol.spec_as_str()
            == "lean_rs.loader.missing_imported_symbol"@,
{
}

/// A finding of error severity keeps its class, subject, message and repair; findings
/// are viewed one by one, and pass exactly when none of them is an error.
pub proof fn findings_are_viewed_one_by_one(
    checks: Seq<LeanLoaderCheck>,
    i: int,
    code: LeanLoaderDiagnosticCode,
    subject: Seq<char>,
    message: Seq<char>,
    repair_hint: Seq<char>,
)
    requires
        0 <= i < checks.len(),
    ensures
        check_views(checks).len() == checks.len(),
        check_views(checks)[i] == checks[i]@,
        error_check(code, subject, message, repair_hint) == (LeanLoaderCheckView {
            code,
            severity: LeanLoaderSeverity::Error,
            subject,
            message,
            repair_hint,
        }),
        checks_pass(check_views(checks)) ==> checks[i]@.severity is Warning,
        !checks_pass(check_views(checks)) ==> exists|k: int|
            0 <= k < checks.len() && (#[trigger] checks[k])@.severity is Error,
{
    let views = check_views(checks);
    assert(views[i] == checks[i]@);
    if !checks_pass(views) {
        let k = choose|k: int|
            0 <= k < views.len() && (#[trigger] views[k]).severity == LeanLoaderSeverity::Error;
        assert(checks[k]@.severity is Error);
    }
}

} // verus!
