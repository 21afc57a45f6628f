//! The symbols that a session needs of a capability.

use vstd::prelude::*;
use vstd::string::*;

use crate::error::LeanResult;
use crate::module::library::{LeanLibrary, unknown_function_error};
use crate::text::same_text;

verus! {

/// The loader's answers to the lookup of the session symbols.
#[derive(Debug)]
pub struct SymbolAnswers {
    /// Answer for `lean_rs_host_session_import`.
    pub session_import: Result<usize, String>,
    /// Answer for `lean_rs_host_name_from_string`.
    pub name_from_string: Result<usize, String>,
    /// Answer for `lean_rs_host_env_query_declaration`.
    pub env_query_declaration: Result<usize, String>,
    /// Answer for `lean_rs_host_env_query_declarations_bulk`.
    pub env_query_declarations_bulk: Result<usize, String>,
    /// Answer for `lean_rs_host_env_list_declarations`.
    pub env_list_declarations: Result<usize, String>,
    /// Answer for `lean_rs_host_env_declaration_type`.
    pub env_declaration_type: Result<usize, String>,
    /// Answer for `lean_rs_host_env_declaration_kind`.
    pub env_declaration_kind: Result<usize, String>,
    /// Answer for `lean_rs_host_env_declaration_name`.
    pub env_declaration_name: Result<usize, String>,
    /// Answer for `lean_rs_host_elaborate`.
    pub elaborate: Result<usize, String>,
    /// Answer for `lean_rs_host_elaborate_bulk`.
    pub elaborate_bulk: Result<usize, String>,
    /// Answer for `lean_rs_host_kernel_check`.
    pub kernel_check: Result<usize, String>,
    /// Answer for `lean_rs_host_check_evidence`.
    pub check_evidence: Result<usize, String>,
    /// Answer for `lean_rs_host_evidence_summary`.
    pub evidence_summary: Result<usize, String>,
    /// Answer for `lean_rs_host_meta_infer_type`.
    pub meta_infer_type: Result<usize, String>,
    /// Answer for `lean_rs_host_meta_whnf`.
    pub meta_whnf: Result<usize, String>,
    /// Answer for `lean_rs_host_meta_heartbeat_burn`.
    pub meta_heartbeat_burn: Result<usize, String>,
}

/// The mandatory symbol that is missing first, with the loader's message.
pub open spec fn first_missing(answers: SymbolAnswers) -> Option<(Seq<char>, Seq<char>)> {
    if let Err(text) = answers.session_import {
        Some(("lean_rs_host_session_import"@, text@))
    } else if let Err(text) = answers.name_from_string {
        Some(("lean_rs_host_name_from_string"@, text@))
    } else if let Err(text) = answers.env_query_declaration {
        Some(("lean_rs_host_env_query_declaration"@, text@))
    } else if let Err(text) = answers.env_query_declarations_bulk {
        Some(("lean_rs_host_env_query_declarations_bulk"@, text@))
    } else if let Err(text) = answers.env_list_declarations {
        Some(("lean_rs_host_env_list_declarations"@, text@))
    } else if let Err(text) = answers.env_declaration_type {
        Some(("lean_rs_host_env_declaration_type"@, text@))
    } else if let Err(text) = answers.env_declaration_kind {
        Some(("lean_rs_host_env_declaration_kind"@, text@))
    } else if let Err(text) = answers.env_declaration_name {
        Some(("lean_rs_host_env_declaration_name"@, text@))
    } else if let Err(text) = answers.elaborate {
        Some(("lean_rs_host_elaborate"@, text@))
    } else if let Err(text) = answers.elaborate_bulk {
        Some(("lean_rs_host_elaborate_bulk"@, text@))
    } else if let Err(text) = answers.kernel_check {
        Some(("lean_rs_host_kernel_check"@, text@))
    } else if let Err(text) = answers.check_evidence {
        Some(("lean_rs_host_check_evidence"@, text@))
    } else if let Err(text) = answers.evidence_summary {
        Some(("lean_rs_host_evidence_summary"@, text@))
    } else {
        None
    }
}

/// Addresses of the functions that a session calls.
#[derive(Debug)]
pub struct SessionSymbols {
    /// Address of `lean_rs_host_session_import`.
    pub session_import: usize,
    /// Address of `lean_rs_host_name_from_string`.
    pub name_from_string: usize,
    /// Address of `lean_rs_host_env_query_declaration`.
    pub env_query_declaration: usize,
    /// Address of `lean_rs_host_env_query_declarations_bulk`.
    pub env_query_declarations_bulk: usize,
    /// Address of `lean_rs_host_env_list_declarations`.
    pub env_list_declarations: usize,
    /// Address of `lean_rs_host_env_declaration_type`.
    pub env_declaration_type: usize,
    /// Address of `lean_rs_host_env_declaration_kind`.
    pub env_declaration_kind: usize,
    /// Address of `lean_rs_host_env_declaration_name`.
    pub env_declaration_name: usize,
    /// Address of `lean_rs_host_elaborate`.
    pub elaborate: usize,
    /// Address of `lean_rs_host_elaborate_bulk`.
    pub elaborate_bulk: usize,
    /// Address of `lean_rs_host_kernel_check`.
    pub kernel_check: usize,
    /// Address of `lean_rs_host_check_evidence`.
    pub check_evidence: usize,
    /// Address of `lean_rs_host_evidence_summary`.
    pub evidence_summary: usize,
    /// Address of `lean_rs_host_meta_infer_type`, where it is exported.
    pub meta_infer_type: Option<usize>,
    /// Address of `lean_rs_host_meta_whnf`, where it is exported.
    pub meta_whnf: Option<usize>,
    /// Address of `lean_rs_host_meta_heartbeat_burn`, where it is exported.
    pub meta_heartbeat_burn: Option<usize>,
}

/// Whether the symbols are the addresses that the loader found.
pub open spec fn resolved_to(answers: SymbolAnswers, symbols: SessionSymbols) -> bool {
    &&& answers.session_import == Ok::<usize, String>(symbols.session_import)
    &&& answers.name_from_string == Ok::<usize, String>(symbols.name_from_string)
    &&& answers.env_query_declaration == Ok::<usize, String>(symbols.env_query_declaration)
    &&& answers.env_query_declarations_bulk == Ok::<usize, String>(symbols.env_query_declarations_bulk)
    &&& answers.env_list_declarations == Ok::<usize, String>(symbols.env_list_declarations)
    &&& answers.env_declaration_type == Ok::<usize, String>(symbols.env_declaration_type)
    &&& answers.env_declaration_kind == Ok::<usize, String>(symbols.env_declaration_kind)
    &&& answers.env_declaration_name == Ok::<usize, String>(symbols.env_declaration_name)
    &&& answers.elaborate == Ok::<usize, String>(symbols.elaborate)
    &&& answers.elaborate_bulk == Ok::<usize, String>(symbols.elaborate_bulk)
    &&& answers.kernel_check == Ok::<usize, String>(symbols.kernel_check)
    &&& answers.check_evidence == Ok::<usize, String>(symbols.check_evidence)
    &&& answers.evidence_summary == Ok::<usize, String>(symbols.evidence_summary)
    &&& symbols.meta_infer_type == optional_address(answers.meta_infer_type)
    &&& symbols.meta_whnf == optional_address(answers.meta_whnf)
    &&& symbols.meta_heartbeat_burn == optional_address(answers.meta_heartbeat_burn)
}

/// The address that the loader found, where it found one.
pub open spec fn optional_address(answer: Result<usize, String>) -> Option<usize> {
    match answer {
        Ok(address) => Some(address),
        Err(_) => None,
    }
}

impl SessionSymbols {
    /// Judges the loader's answers: the first missing mandatory symbol is an
    /// error; the meta services may be missing.
    pub fn resolve(library: &LeanLibrary, answers: SymbolAnswers) -> (r: LeanResult<
        SessionSymbols,
    >)
        ensures
            match first_missing(answers) {
                Some((name, text)) => r matches Err(err) && err@ == unknown_function_error(
                    name,
                    library@.path,
                    text,
                ),
                None => r matches Ok(symbols) && resolved_to(answers, symbols),
            },
    {
        let session_import: usize = match library.resolve_function_symbol(
            "lean_rs_host_session_import",
            answers.session_import,
        ) {
            Ok(address) => address,
            Err(err) => {
                return Err(err);
            },
        };
        let name_from_string: usize = match library.resolve_function_symbol(
            "lean_rs_host_name_from_string",
            answers.name_from_string,
        ) {
            Ok(address) => address,
            Err(err) => {
                return Err(err);
            },
        };
        let env_query_declaration: usize = match library.resolve_function_symbol(
            "lean_rs_host_env_query_declaration",
            answers.env_query_declaration,
        ) {
            Ok(address) => address,
            Err(err) => {
                return Err(err);
            },
        };
        let env_query_declarations_bulk: usize = match library.resolve_function_symbol(
            "lean_rs_host_env_query_declarations_bulk",
            answers.env_query_declarations_bulk,
        ) {
            Ok(address) => address,
            Err(err) => {
                return Err(err);
            },
        };
        let env_list_declarations: usize = match library.resolve_function_symbol(
            "lean_rs_host_env_list_declarations",
            answers.env_list_declarations,
        ) {
            Ok(address) => address,
            Err(err) => {
                return Err(err);
            },
        };
        let env_declaration_type: usize = match library.resolve_function_symbol(
            "lean_rs_host_env_declaration_type",
            answers.env_declaration_type,
        ) {
            Ok(address) => address,
            Err(err) => {
                return Err(err);
            },
        };
        let env_declaration_kind: usize = match library.resolve_function_symbol(
            "lean_rs_host_env_declaration_kind",
            answers.env_declaration_kind,
        ) {
            Ok(address) => address,
            Err(err) => {
                return Err(err);
            },
        };
        let env_declaration_name: usize = match library.resolve_function_symbol(
            "lean_rs_host_env_declaration_name",
            answers.env_declaration_name,
        ) {
            Ok(address) => address,
            Err(err) => {
                return Err(err);
            },
        };
        let elaborate: usize = match library.resolve_function_symbol(
            "lean_rs_host_elaborate",
            answers.elaborate,
        ) {
            Ok(address) => address,
            Err(err) => {
                return Err(err);
            },
        };
        let elaborate_bulk: usize = match library.resolve_function_symbol(
            "lean_rs_host_elaborate_bulk",
            answers.elaborate_bulk,
        ) {
            Ok(address) => address,
            Err(err) => {
                return Err(err);
            },
        };
        let kernel_check: usize = match library.resolve_function_symbol(
            "lean_rs_host_kernel_check",
            answers.kernel_check,
        ) {
            Ok(address) => address,
            Err(err) => {
                return Err(err);
            },
        };
        let check_evidence: usize = match library.resolve_function_symbol(
            "lean_rs_host_check_evidence",
            answers.check_evidence,
        ) {
            Ok(address) => address,
            Err(err) => {
                return Err(err);
            },
        };
        let evidence_summary: usize = match library.resolve_function_symbol(
            "lean_rs_host_evidence_summary",
            answers.evidence_summary,
        ) {
            Ok(address) => address,
            Err(err) => {
                return Err(err);
            },
        };
        Ok(
            SessionSymbols {
                session_import,
                name_from_string,
                env_query_declaration,
                env_query_declarations_bulk,
                env_list_declarations,
                env_declaration_type,
                env_declaration_kind,
                env_declaration_name,
                elaborate,
                elaborate_bulk,
                kernel_check,
                check_evidence,
                evidence_summary,
                meta_infer_type: library.resolve_optional_function_symbol(answers.meta_infer_type),
                meta_whnf: library.resolve_optional_function_symbol(answers.meta_whnf),
                meta_heartbeat_burn: library.resolve_optional_function_symbol(answers.meta_heartbeat_burn),
            },
        )
    }

    /// The address of a meta service, where it is known and exported.
    pub open spec fn spec_meta_address(self, name: Seq<char>) -> Option<usize> {
        if name == "lean_rs_host_meta_infer_type"@ {
            self.meta_infer_type
        } else if name == "lean_rs_host_meta_whnf"@ {
            self.meta_whnf
        } else if name == "lean_rs_host_meta_heartbeat_burn"@ {
            self.meta_heartbeat_burn
        } else {
            None
        }
    }

    /// The address of a meta service, where it is known and exported.
    pub fn meta_address_by_name(&self, name: &str) -> (r: Option<usize>)
        ensures
            r == self.spec_meta_address(name@),
    {
        if same_text(name, "lean_rs_host_meta_infer_type") {
            self.meta_infer_type
        } else if same_text(name, "lean_rs_host_meta_whnf") {
            self.meta_whnf
        } else if same_text(name, "lean_rs_host_meta_heartbeat_burn") {
            self.meta_heartbeat_burn
        } else {
            None
        }
    }
}

/// A capability is accepted exactly when it exports every mandatory symbol.
pub proof fn resolution_needs_every_mandatory_symbol(answers: SymbolAnswers)
    ensures
        first_missing(answers) is None <==> {
            &&& answers.session_import is Ok
            &&& answers.name_from_string is Ok
            &&& answers.env_query_declaration is Ok
            &&& answers.env_query_declarations_bulk is Ok
            &&& answers.env_list_declarations is Ok
            &&& answers.env_declaration_type is Ok
            &&& answers.env_declaration_kind is Ok
            &&& answers.env_declaration_name is Ok
            &&& answers.elaborate is Ok
            &&& answers.elaborate_bulk is Ok
            &&& answers.kernel_check is Ok
            &&& answers.check_evidence is Ok
            &&& answers.evidence_summary is Ok
        },
{
}

/// The mandatory symbols in the order of their lookup, each with the loader's answer.
pub open spec fn mandatory_answers(answers: SymbolAnswers) -> Seq<
    (Seq<char>, Result<usize, String>),
> {
    seq![
        ("lean_rs_host_session_import"@, answers.session_import),
        ("lean_rs_host_name_from_string"@, answers.name_from_string),
        ("lean_rs_host_env_query_declaration"@, answers.env_query_declaration),
        ("lean_rs_host_env_query_declarations_bulk"@, answers.env_query_declarations_bulk),
        ("lean_rs_host_env_list_declarations"@, answers.env_list_declarations),
        ("lean_rs_host_env_declaration_type"@, answers.env_declaration_type),
        ("lean_rs_host_env_declaration_kind"@, answers.env_declaration_kind),
        ("lean_rs_host_env_declaration_name"@, answers.env_declaration_name),
        ("lean_rs_host_elaborate"@, answers.elaborate),
        ("lean_rs_host_elaborate_bulk"@, answers.elaborate_bulk),
        ("lean_rs_host_kernel_check"@, answers.kernel_check),
        ("lean_rs_host_check_evidence"@, answers.check_evidence),
        ("lean_rs_host_evidence_summary"@, answers.evidence_summary),
    ]
}

/// The addresses of the mandatory symbols, in the same order.
pub open spec fn mandatory_addresses(symbols: SessionSymbols) -> Seq<usize> {
    seq![
        symbols.session_import,
        symbols.name_from_string,
        symbols.env_query_declaration,
        symbols.env_query_declarations_bulk,
        symbols.env_list_declarations,
        symbols.env_declaration_type,
        symbols.env_declaration_kind,
        symbols.env_declaration_name,
        symbols.elaborate,
        symbols.elaborate_bulk,
        symbols.kernel_check,
        symbols.check_evidence,
        symbols.evidence_summary,
    ]
}

/// A capability lacks the first mandatory symbol that the loader did not find: that
/// one is named, with the loader's message.
pub proof fn first_missing_symbol_is_named(answers: SymbolAnswers, i: int)
    requires
        0 <= i < mandatory_answers(answers).len(),
        forall|j: int| 0 <= j < i ==> (#[trigger] mandatory_answers(answers)[j]).1 is Ok,
    ensures
        mandatory_answers(answers)[i].1 matches Err(text) ==> first_missing(answers) == Some(
            (mandatory_answers(answers)[i].0, text@),
        ),
        mandatory_answers(answers).len() == 13,
{
    let all = mandatory_answers(answers);
    assert(i > 0 ==> all[0].1 is Ok);
    assert(i > 1 ==> all[1].1 is Ok);
    assert(i > 2 ==> all[2].1 is Ok);
    assert(i > 3 ==> all[3].1 is Ok);
    assert(i > 4 ==> all[4].1 is Ok);
    assert(i > 5 ==> all[5].1 is Ok);
    assert(i > 6 ==> all[6].1 is Ok);
    assert(i > 7 ==> all[7].1 is Ok);
    assert(i > 8 ==> all[8].1 is Ok);
    assert(i > 9 ==> all[9].1 is Ok);
    assert(i > 10 ==> all[10].1 is Ok);
    assert(i > 11 ==> all[11].1 is Ok);
}

/// Every symbol is called at the address that the loader found for it; a meta service
/// that was not found is simply not there.
pub proof fn symbols_are_called_where_they_were_found(
    answers: SymbolAnswers,
    symbols: SessionSymbols,
    i: int,
)
    requires
        resolved_to(answers, symbols),
        0 <= i < mandatory_addresses(symbols).len(),
    ensures
        mandatory_answers(answers)[i].1 == Ok::<usize, String>(mandatory_addresses(symbols)[i]),
        match answers.meta_infer_type {
            Ok(address) => symbols.meta_infer_type == Some(address),
            Err(_) => symbols.meta_infer_type is None,
        },
        match answers.meta_whnf {
            Ok(address) => symbols.meta_whnf == Some(address),
            Err(_) => symbols.meta_whnf is None,
        },
        match answers.meta_heartbeat_burn {
            Ok(address) => symbols.meta_heartbeat_burn == Some(address),
            Err(_) => symbols.meta_heartbeat_burn is None,
        },
{
}

/// A meta service is known by its exported symbol; there are three.
pub proof fn meta_services_are_known_by_their_symbols(symbols: SessionSymbols, name: Seq<char>)
    ensures
        symbols.spec_meta_address("lean_rs_host_meta_infer_type"@) == symbols.meta_infer_type,
        symbols.spec_meta_address("lean_rs_host_meta_whnf"@) == symbols.meta_whnf,
        symbols.spec_meta_address("lean_rs_host_meta_heartbeat_burn"@)
            == symbols.meta_heartbeat_burn,
        symbols.spec_meta_address(name) is Some ==> name == "lean_rs_host_meta_infer_type"@ || name
            == "lean_rs_host_meta_whnf"@ || name == "lean_rs_host_meta_heartbeat_burn"@,
{
    reveal_strlit("lean_rs_host_meta_infer_type");
    reveal_strlit("lean_rs_host_meta_whnf");
    reveal_strlit("lean_rs_host_meta_heartbeat_burn");
    assert("lean_rs_host_meta_infer_type"@.len() == 28);
    assert("lean_rs_host_meta_whnf"@.len() == 22);
    assert("lean_rs_host_meta_heartbeat_burn"@.len() == 32);
}

} // verus!
