//! Attachment of operating-system threads to the Lean runtime.
//!
//! A thread may call into Lean while its attach depth is at least one. A
//! successful initialization lifts the depth of the calling thread to one for
//! good; every guard adds one while it lives.

use vstd::prelude::*;
use vstd::string::*;

use crate::runtime::init::LeanRuntime;
use crate::text::cat3;

verus! {

/// How often the current thread is attached to the Lean runtime.
#[derive(Copy, Clone, Debug, PartialEq, Eq, Structural)]
pub struct AttachDepth {
    depth: u32,
}

impl View for AttachDepth {
    type V = nat;

    closed spec fn view(&self) -> nat {
        self.depth as nat
    }
}

/// The message of the panic on a thread that is not attached.
pub open spec fn not_attached_text(stage: Seq<char>) -> Seq<char> {
    "lean-rs: "@ + stage
        + " invoked on a thread that is not attached to the Lean runtime; construct a `lean_rs::LeanThreadGuard` on this thread first (see docs/architecture/04-concurrency.md)"@
}

impl AttachDepth {
    /// The depth of a thread that has not been attached.
    pub fn new() -> (r: AttachDepth)
        ensures
            r@ == 0,
    {
        AttachDepth { depth: 0 }
    }

    /// How often the thread is attached.
    pub fn depth(&self) -> (r: u32)
        ensures
            r == self@,
    {
        self.depth
    }

    /// Lifts the depth to one, where it is zero.
    pub fn mark_calling_thread_permitted(&mut self)
        ensures
            final(self)@ == permitted(old(self)@),
    {
        if self.depth == 0 {
            self.depth = 1;
        }
    }

    /// Whether the thread may call into Lean; where it may not, the message to
    /// panic with.
    pub fn debug_assert_attached(&self, stage: &str) -> (r: Option<String>)
        ensures
            match r {
                None => self@ >= 1,
                Some(message) => self@ == 0 && message@ == not_attached_text(stage@),
            },
    {
        if self.depth >= 1 {
            None
        } else {
            Some(
                cat3(
                    "lean-rs: ",
                    stage,
                    " invoked on a thread that is not attached to the Lean runtime; construct a `lean_rs::LeanThreadGuard` on this thread first (see docs/architecture/04-concurrency.md)",
                ),
            )
        }
    }
}

/// The depth after one more attachment.
pub open spec fn attached(depth: nat) -> nat {
    if depth < u32::MAX {
        depth + 1
    } else {
        u32::MAX as nat
    }
}

/// The depth after one attachment less.
pub open spec fn detached(depth: nat) -> nat {
    if depth > 0 {
        (depth - 1) as nat
    } else {
        0
    }
}

/// An attachment of the current thread to the Lean runtime.
#[must_use]
pub struct LeanThreadGuard<'lean> {
    runtime: &'lean LeanRuntime,
}

impl<'lean> LeanThreadGuard<'lean> {
    /// The runtime that the thread is attached to.
    pub closed spec fn spec_runtime(self) -> LeanRuntime {
        *self.runtime
    }

    /// Attaches the current thread.
    pub fn attach(runtime: &'lean LeanRuntime, depth: &mut AttachDepth) -> (r: LeanThreadGuard<
        'lean,
    >)
        ensures
            r.spec_runtime() == *runtime,
            final(depth)@ == attached(old(depth)@),
    {
        if depth.depth < u32::MAX {
            depth.depth = depth.depth + 1;
        }
        LeanThreadGuard { runtime }
    }

    /// Detaches the current thread again.
    pub fn detach(self, depth: &mut AttachDepth)
        ensures
            final(depth)@ == detached(old(depth)@),
    {
        if depth.depth > 0 {
            depth.depth = depth.depth - 1;
        }
    }
}

/// The depth after a successful initialization.
pub open spec fn permitted(depth: nat) -> nat {
    if depth == 0 {
        1
    } else {
        depth
    }
}

/// A change of a thread's attach depth.
pub enum DepthStep {
    /// A guard is made.
    Attach,
    /// A guard is given up.
    Detach,
    /// The runtime is initialized, for the first time or again.
    Permit,
}

/// The depth after a history of steps.
pub open spec fn depth_after(depth: nat, steps: Seq<DepthStep>) -> nat
    decreases steps.len(),
{
    if steps.len() == 0 {
        depth
    } else {
        let before = depth_after(depth, steps.drop_last());
        match steps.last() {
            DepthStep::Attach => attached(before),
            DepthStep::Detach => detached(before),
            DepthStep::Permit => permitted(before),
        }
    }
}

/// The number of guards that live after a history of steps.
pub open spec fn open_guards(steps: Seq<DepthStep>) -> int
    decreases steps.len(),
{
    if steps.len() == 0 {
        0
    } else {
        let before = open_guards(steps.drop_last());
        match steps.last() {
            DepthStep::Attach => before + 1,
            DepthStep::Detach => before - 1,
            DepthStep::Permit => before,
        }
    }
}

/// Whether every detachment gives up a guard that was made before.
pub open spec fn paired(steps: Seq<DepthStep>) -> bool {
    forall|k: int| 0 <= k <= steps.len() ==> open_guards(#[trigger] steps.take(k)) >= 0
}

/// Whether a count that starts at `depth` has room for all guards that live at a
/// time.
pub open spec fn fits(depth: nat, steps: Seq<DepthStep>) -> bool {
    forall|k: int|
        0 <= k <= steps.len() ==> depth + open_guards(#[trigger] steps.take(k)) <= u32::MAX
}

/// Attachments pair up: the depth exceeds the depth at the start by the number of
/// guards that live, however guards are nested or interleaved. So it never falls
/// below the depth at the start, and is restored once all guards are given up. On a
/// thread that is permitted to call into Lean, further initializations change
/// nothing.
pub proof fn paired_attachments_keep_the_floor(depth: nat, steps: Seq<DepthStep>)
    requires
        depth == 0 ==> forall|i: int| 0 <= i < steps.len() ==> !(#[trigger] steps[i] is Permit),
        paired(steps),
        fits(depth, steps),
    ensures
        depth_after(depth, steps) == depth + open_guards(steps),
        depth_after(depth, steps) >= depth,
        open_guards(steps) == 0 ==> depth_after(depth, steps) == depth,
        forall|k: int|
            0 <= k <= steps.len() ==> depth_after(depth, #[trigger] steps.take(k)) >= depth,
    decreases steps.len(),
{
    assert(steps.take(steps.len() as int) =~= steps);
    assert(open_guards(steps.take(steps.len() as int)) >= 0);
    if steps.len() > 0 {
        let front = steps.drop_last();
        assert forall|k: int| 0 <= k <= front.len() implies #[trigger] front.take(k) == steps.take(
            k,
        ) by {
            assert(front.take(k) =~= steps.take(k));
        }
        assert(paired(front) && fits(depth, front));
        assert forall|i: int| depth == 0 && 0 <= i < front.len() implies !(
        #[trigger] front[i] is Permit) by {
            assert(!(steps[i] is Permit));
        }
        assert(depth == 0 ==> !(steps[steps.len() - 1] is Permit));
        paired_attachments_keep_the_floor(depth, front);
        assert forall|k: int| 0 <= k <= steps.len() implies depth_after(
            depth,
            #[trigger] steps.take(k),
        ) >= depth by {
            if k < steps.len() {
                assert(front.take(k) == steps.take(k));
            }
        }
    } else {
        assert forall|k: int| 0 <= k <= steps.len() implies depth_after(
            depth,
            #[trigger] steps.take(k),
        ) >= depth by {
            assert(steps.take(k) =~= steps);
        }
    }
}

/// The floor holds for good: once a thread without guards has initialized the
/// runtime, it stays attached.
pub proof fn initialization_attaches_for_good(steps: Seq<DepthStep>)
    requires
        paired(steps),
        fits(permitted(0), steps),
    ensures
        depth_after(permitted(0), steps) >= 1,
{
    paired_attachments_keep_the_floor(permitted(0), steps);
}

/// A guard adds one to the depth and takes one away again, as far as the count goes: it
/// stays at its greatest value, and does not fall below zero. An initialization lifts
/// the depth from zero to one and leaves any other as it is.
pub proof fn depth_counts_guards(depth: nat)
    requires
        depth <= u32::MAX,
    ensures
        depth < 0xffff_ffff ==> attached(depth) == depth + 1 && detached(attached(depth)) == depth,
        depth == 0xffff_ffff ==> attached(depth) == depth,
        depth > 0 ==> detached(depth) == depth - 1,
        detached(0) == 0,
        permitted(0) == 1,
        depth > 0 ==> permitted(depth) == depth,
{
}

/// The message on a thread that is not attached names the stage that was invoked.
pub proof fn unattached_stages_are_named(stage: Seq<char>)
    ensures
        not_attached_text(stage) == "lean-rs: "@ + stage
            + " invoked on a thread that is not attached to the Lean runtime; construct a `lean_rs::LeanThreadGuard` on this thread first (see docs/architecture/04-concurrency.md)"@,
{
}

/// Steps are taken one after the other, and a history of steps is the steps that came
/// first followed by the others.
pub proof fn histories_follow_each_other(
    depth: nat,
    first: Seq<DepthStep>,
    others: Seq<DepthStep>,
)
    ensures
        depth_after(depth, first + others) == depth_after(depth_after(depth, first), others),
        open_guards(first + others) == open_guards(first) + open_guards(others),
        depth_after(depth, seq![DepthStep::Attach]) == attached(depth),
        depth_after(depth, seq![DepthStep::Detach]) == detached(depth),
        depth_after(depth, seq![DepthStep::Permit]) == permitted(depth),
        open_guards(seq![DepthStep::Attach]) == 1,
        open_guards(seq![DepthStep::Detach]) == -1,
        open_guards(seq![DepthStep::Permit]) == 0,
    decreases others.len(),
{
    assert(seq![DepthStep::Attach].drop_last() =~= Seq::empty());
    assert(seq![DepthStep::Detach].drop_last() =~= Seq::empty());
    assert(seq![DepthStep::Permit].drop_last() =~= Seq::empty());
    assert(depth_after(depth, Seq::empty()) == depth);
    assert(open_guards(Seq::empty()) == 0);
    if others.len() == 0 {
        assert(first + others =~= first);
    } else {
        assert((first + others).drop_last() =~= first + others.drop_last());
        histories_follow_each_other(depth, first, others.drop_last());
    }
}

} // verus!
