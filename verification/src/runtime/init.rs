//! Process-once initialization of the Lean runtime.
//!
//! The initialization sequence itself runs outside, at most once. Its outcome
//! is kept, and every later call is answered from it.

use std::marker::PhantomData;
use std::rc::Rc;
use vstd::pervasive::unreached;
use vstd::prelude::*;
use vstd::string::*;

use crate::error::{
    HostStage, LeanDiagnosticCode, LeanError, LeanErrorView, LeanResult, PanicPayload,
    failures_say_stage_and_class, kept_of, runtime_init_error,
};
use crate::runtime::thread::{AttachDepth, permitted};
use crate::text::{
    cat3, decimal, decimal_reads_back, parse_u32, parsed_u32, rendered_numbers_are_parsed, trimmed,
    trimming_drops_white_space_at_the_ends,
};

verus! {

/// Witness that the Lean runtime is up. It stays on the thread that obtained it.
#[derive(Debug)]
pub struct LeanRuntime {
    ready: bool,
    on_this_thread: PhantomData<Rc<()>>,
}

/// How the run of the initialization sequence ended.
#[derive(Debug)]
pub enum InitRun {
    /// It completed.
    Completed,
    /// It panicked.
    Panicked(PanicPayload),
}

/// The outcome that is kept of a run.
pub open spec fn run_outcome(run: InitRun) -> Result<(), LeanErrorView> {
    match run {
        InitRun::Completed => Ok(()),
        InitRun::Panicked(payload) => Err(runtime_init_error(payload.rendered())),
    }
}

/// The mathematical value of a kept outcome.
pub open spec fn unit_result_view(r: LeanResult<()>) -> Result<(), LeanErrorView> {
    match r {
        Ok(()) => Ok(()),
        Err(err) => Err(err@),
    }
}

/// Turns the run of the initialization sequence into the outcome to keep.
pub fn do_initialize_once(run: InitRun) -> (r: LeanResult<()>)
    ensures
        unit_result_view(r) == run_outcome(run),
{
    match run {
        InitRun::Completed => Ok(()),
        InitRun::Panicked(payload) => Err(LeanError::runtime_init_panic(&payload)),
    }
}

/// The worker count that the value of `LEAN_RS_NUM_THREADS` asks for; `None`
/// stands for Lean's default.
pub open spec fn num_threads(raw: Option<Seq<char>>) -> Option<u32> {
    match raw {
        Some(text) => match parsed_u32(trimmed(text)) {
            Some(n) => if n >= 1 {
                Some(n)
            } else {
                None
            },
            None => None,
        },
        None => None,
    }
}

/// Reads the worker count from the value of `LEAN_RS_NUM_THREADS`. An absent
/// value, and any value that is no positive integer, give `None`.
pub fn read_num_threads_env(raw: Option<&str>) -> (r: Option<u32>)
    ensures
        r == num_threads(
            match raw {
                Some(text) => Some(text@),
                None => None,
            },
        ),
{
    match raw {
        Some(text) => match parse_u32(text) {
            Some(n) => if n >= 1 {
                Some(n)
            } else {
                None
            },
            None => None,
        },
        None => None,
    }
}

/// The process-wide outcome of initialization.
#[derive(Debug)]
pub struct RuntimeCell {
    outcome: Option<LeanResult<()>>,
}

impl View for RuntimeCell {
    type V = Option<Result<(), LeanErrorView>>;

    closed spec fn view(&self) -> Option<Result<(), LeanErrorView>> {
        match self.outcome {
            Some(outcome) => Some(unit_result_view(outcome)),
            None => None,
        }
    }
}

/// Whether an error reports a failed initialization of the runtime.
pub open spec fn is_runtime_init_failure(err: LeanErrorView) -> bool {
    err matches LeanErrorView::Host { stage, code, .. } && stage == HostStage::RuntimeInit && code
        == LeanDiagnosticCode::RuntimeInit
}

impl RuntimeCell {
    /// An error that is kept reports a failed initialization.
    #[verifier::type_invariant]
    spec fn consistent(self) -> bool {
        self@ matches Some(Err(err)) ==> is_runtime_init_failure(err)
    }

    /// No initialization has run yet.
    pub fn new() -> (r: RuntimeCell)
        ensures
            r@ is None,
    {
        RuntimeCell { outcome: None }
    }

    /// Whether the initialization sequence is still to run.
    pub fn needs_run(&self) -> (r: bool)
        ensures
            r == (self@ is None),
    {
        self.outcome.is_none()
    }
}

/// The error of a toolchain that is not supported.
pub open spec fn unsupported_toolchain_error(version: Seq<char>) -> LeanErrorView {
    runtime_init_error(
        "active Lean toolchain "@ + version + " is not in the supported window"@,
    )
}

/// The answer to a request for the runtime, given the kept outcome and whether
/// the active toolchain is supported.
pub open spec fn init_answer(
    outcome: Result<(), LeanErrorView>,
    supported: bool,
    version: Seq<char>,
) -> Result<(), LeanErrorView> {
    match outcome {
        Err(err) => Err(err),
        Ok(()) => if supported {
            Ok(())
        } else {
            Err(unsupported_toolchain_error(version))
        },
    }
}

/// The outcome that a cell keeps after a request: what it kept before, else that
/// of the run.
pub open spec fn kept_outcome(
    cell: Option<Result<(), LeanErrorView>>,
    run: Option<InitRun>,
) -> Option<Result<(), LeanErrorView>> {
    match cell {
        Some(outcome) => Some(outcome),
        None => match run {
            Some(first) => Some(run_outcome(first)),
            None => None,
        },
    }
}

impl LeanRuntime {
    /// The runtime is up.
    #[verifier::type_invariant]
    spec fn well_formed(self) -> bool {
        self.ready
    }

    /// Answers a request for the runtime from the current thread.
    ///
    /// `run` is how the initialization sequence ended, which the caller has run
    /// where the cell asked for it. Only the first run counts. A successful
    /// answer permits the current thread to call into Lean.
    pub fn init(
        cell: &mut RuntimeCell,
        run: Option<InitRun>,
        supported: bool,
        version: &str,
        depth: &mut AttachDepth,
    ) -> (r: LeanResult<LeanRuntime>)
        requires
            old(cell)@ is None ==> run is Some,
        ensures
            final(cell)@ == kept_outcome(old(cell)@, run),
            final(cell)@ matches Some(outcome) && match init_answer(outcome, supported, version@) {
                Ok(()) => r is Ok && final(depth)@ == permitted(old(depth)@),
                Err(err) => r matches Err(e) && e@ == err && final(depth)@ == old(depth)@,
            },
            r matches Err(e) ==> is_runtime_init_failure(e@),
    {
        proof {
            use_type_invariant(&*cell);
        }
        if cell.outcome.is_none() {
            match run {
                Some(first) => {
                    cell.outcome = Some(do_initialize_once(first));
                },
                None => {},
            }
        }
        match &cell.outcome {
            Some(Ok(())) => {
                if !supported {
                    return Err(
                        LeanError::runtime_init(
                            cat3(
                                "active Lean toolchain ",
                                version,
                                " is not in the supported window",
                            ),
                        ),
                    );
                }
                depth.mark_calling_thread_permitted();
                Ok(LeanRuntime { ready: true, on_this_thread: PhantomData })
            },
            Some(Err(err)) => Err(err.clone()),
            None => unreached(),
        }
    }
}

/// Initialization is idempotent: once an outcome is kept, no later run changes
/// it, and every request on a supported toolchain is answered alike.
pub proof fn initialization_is_idempotent(
    cell: Option<Result<(), LeanErrorView>>,
    first: Option<InitRun>,
    later: Option<InitRun>,
    version: Seq<char>,
)
    requires
        cell is None ==> first is Some,
    ensures
        kept_outcome(cell, first) is Some,
        kept_outcome(kept_outcome(cell, first), later) == kept_outcome(cell, first),
        init_answer(kept_outcome(kept_outcome(cell, first), later)->0, true, version)
            == init_answer(kept_outcome(cell, first)->0, true, version),
{
}

/// The worker count is the positive number that the variable holds in decimal, with
/// any white space around it; zero and an absent variable leave Lean's default.
pub proof fn worker_counts_are_read(n: nat)
    requires
        n <= u32::MAX,
    ensures
        n > 0 ==> num_threads(Some(decimal(n))) == Some(n as u32),
        n > 0 ==> num_threads(Some(seq![' '] + decimal(n))) == Some(n as u32),
        n > 0 ==> num_threads(Some(decimal(n) + seq!['\n'])) == Some(n as u32),
        n == 0 ==> num_threads(Some(decimal(n))) is None,
        num_threads(None) is None,
{
    decimal_reads_back(n);
    rendered_numbers_are_parsed(n);
    let text = decimal(n);
    assert('0' <= text[0] <= '9' && '0' <= text[text.len() - 1] <= '9');
    assert(trimmed(text) == text);
    trimming_drops_white_space_at_the_ends(text, ' ');
    trimming_drops_white_space_at_the_ends(text, '\n');
}

/// A value that is read as no number, or as zero, leaves Lean's default; any other
/// gives the number that it is read as.
pub proof fn other_values_leave_the_default(text: Seq<char>)
    ensures
        num_threads(Some(text)) is Some <==> (parsed_u32(trimmed(text)) matches Some(n) && n > 0),
        num_threads(Some(text)) is Some ==> num_threads(Some(text)) == parsed_u32(trimmed(text)),
{
}

/// The first run decides: what is kept is a success where it completed, and where it
/// panicked a failure of the initialization with the text that the panic carried. What
/// was kept before stays.
pub proof fn first_run_decides(
    kept: Result<(), LeanErrorView>,
    run: Option<InitRun>,
    payload: PanicPayload,
)
    ensures
        kept_outcome(Some(kept), run) == Some(kept),
        kept_outcome(None, None) is None,
        kept_outcome(None, Some(InitRun::Completed)) == Some(Ok::<(), LeanErrorView>(())),
        kept_outcome(None, Some(InitRun::Panicked(payload))) matches Some(
            Err(LeanErrorView::Host { stage, code, message }),
        ) && stage == HostStage::RuntimeInit && code == LeanDiagnosticCode::RuntimeInit && kept_of(
            payload.rendered(),
            message,
        ),
{
    failures_say_stage_and_class(payload.rendered());
}

/// The runtime is there exactly when its initialization succeeded and the toolchain is
/// supported. A failed initialization is reported as it was kept; an unsupported
/// toolchain is named.
pub proof fn runtime_needs_success_and_support(
    outcome: Result<(), LeanErrorView>,
    supported: bool,
    version: Seq<char>,
)
    ensures
        init_answer(outcome, supported, version) is Ok <==> outcome is Ok && supported,
        outcome is Err ==> init_answer(outcome, supported, version) == outcome,
        outcome is Ok && !supported ==> (init_answer(outcome, supported, version) matches Err(err)
            && is_runtime_init_failure(err) && kept_of(
            "active Lean toolchain "@ + version + " is not in the supported window"@,
            err.message(),
        )),
{
    failures_say_stage_and_class(
        "active Lean toolchain "@ + version + " is not in the supported window"@,
    );
}

/// A failed initialization is told by its stage and its class.
pub proof fn initialization_failures_are_told_by_stage_and_class(
    stage: HostStage,
    code: LeanDiagnosticCode,
    message: Seq<char>,
    r: LeanResult<()>,
)
    ensures
        is_runtime_init_failure(LeanErrorView::Host { stage, code, message }) <==> stage
            == HostStage::RuntimeInit && code == LeanDiagnosticCode::RuntimeInit,
        unit_result_view(r) is Ok <==> r is Ok,
        r matches Err(err) ==> unit_result_view(r) == Err::<(), LeanErrorView>(err@),
{
}

/// A run that completed is a success; one that panicked is a failed initialization with
/// the text that the panic carried.
pub proof fn runs_are_judged(payload: PanicPayload)
    ensures
        run_outcome(InitRun::Completed) is Ok,
        run_outcome(InitRun::Panicked(payload)) matches Err(err) && is_runtime_init_failure(err)
            && kept_of(payload.rendered(), err.message()),
{
    failures_say_stage_and_class(payload.rendered());
}

} // verus!
