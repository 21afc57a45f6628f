//! Callbacks from Lean into Rust.
//!
//! Lean holds a callback by a number, the handle id, and calls it through one of
//! two trampolines, one per payload type. A registry maps ids to callbacks. An
//! id that is not in the registry is stale: the handle that owned it is gone.
//!
//! The registry decides what a call comes to. Running the callback itself, and
//! containing a panic in it, happens between [`CallbackRegistry::progress_trampoline`]
//! or [`CallbackRegistry::string_trampoline`] and [`CallbackRegistry::finish`].

use std::collections::HashMap;
use std::marker::PhantomData;
use vstd::arithmetic::div_mod::{
    lemma_mod_add_multiples_vanish, lemma_mod_self_0, lemma_small_mod,
};
use vstd::prelude::*;
use vstd::string::*;
use vstd::utf8::*;

use crate::abi::string::utf8_text;
use crate::error::panic_guard::{CallbackRun, catch_callback_panic};
use crate::error::{
    HostStage, LeanDiagnosticCode, LeanError, LeanErrorView, LeanResult, callback_panic_error,
    failures_say_stage_and_class, internal_error, kept_of,
};
use crate::runtime::obj::Obj;

verus! {

broadcast use vstd::std_specs::hash::group_hash_axioms;

/// Payload tag of a progress tick.
pub const PAYLOAD_PROGRESS_TICK: u8 = 0;

/// Payload tag of a string.
pub const PAYLOAD_STRING: u8 = 1;

/// How many ids are tried for a new callback.
pub const ID_ATTEMPTS: usize = 1024;

/// Progress of a computation.
#[derive(Copy, Clone, Debug, PartialEq, Eq, Structural)]
pub struct LeanProgressTick {
    /// Steps done.
    pub current: u64,
    /// Steps in all.
    pub total: u64,
}

/// A string that Lean hands to a callback.
#[derive(Clone, Debug, PartialEq, Eq)]
pub struct LeanStringEvent {
    /// The string.
    pub value: String,
}

/// What a callback asks Lean to do next.
#[derive(Copy, Clone, Debug, PartialEq, Eq, Structural)]
pub enum LeanCallbackFlow {
    /// Go on.
    Continue,
    /// Stop the loop that makes the calls.
    Stop,
}

/// What a call of a callback came to.
#[derive(Copy, Clone, Debug, PartialEq, Eq, Structural)]
pub enum LeanCallbackStatus {
    /// The callback ran and asked to go on.
    Completed,
    /// The handle is gone.
    StaleHandle,
    /// The callback panicked.
    Panic,
    /// The call came through the wrong trampoline, or with a malformed payload.
    WrongPayload,
    /// The callback ran and asked to stop.
    Stopped,
}

impl LeanCallbackStatus {
    /// The byte that stands for the status at the C boundary.
    pub open spec fn spec_as_abi(self) -> u8 {
        match self {
            LeanCallbackStatus::Completed => 0,
            LeanCallbackStatus::StaleHandle => 1,
            LeanCallbackStatus::Panic => 2,
            LeanCallbackStatus::WrongPayload => 3,
            LeanCallbackStatus::Stopped => 4,
        }
    }

    /// The status that a byte stands for.
    pub open spec fn spec_from_abi(value: u8) -> Option<LeanCallbackStatus> {
        match value {
            0 => Some(LeanCallbackStatus::Completed),
            1 => Some(LeanCallbackStatus::StaleHandle),
            2 => Some(LeanCallbackStatus::Panic),
            3 => Some(LeanCallbackStatus::WrongPayload),
            4 => Some(LeanCallbackStatus::Stopped),
            _ => None,
        }
    }

    /// The description of the status.
    pub open spec fn spec_description(self) -> Seq<char> {
        match self {
            LeanCallbackStatus::Completed => "callback completed successfully"@,
            LeanCallbackStatus::StaleHandle => {
                "Lean called a callback handle after Rust dropped it"@
            },
            LeanCallbackStatus::Panic => {
                "Rust callback panicked and the trampoline contained the panic"@
            },
            LeanCallbackStatus::WrongPayload => {
                "Lean called a callback handle through the wrong payload trampoline"@
            },
            LeanCallbackStatus::Stopped => "Rust callback asked Lean to stop the callback loop"@,
        }
    }

    /// The status that a byte stands for.
    #[must_use]
    pub fn from_abi(value: u8) -> (r: Option<LeanCallbackStatus>)
        ensures
            r == LeanCallbackStatus::spec_from_abi(value),
    {
        match value {
            0 => Some(LeanCallbackStatus::Completed),
            1 => Some(LeanCallbackStatus::StaleHandle),
            2 => Some(LeanCallbackStatus::Panic),
            3 => Some(LeanCallbackStatus::WrongPayload),
            4 => Some(LeanCallbackStatus::Stopped),
            _ => None,
        }
    }

    /// The byte that stands for the status at the C boundary.
    #[must_use]
    pub fn as_abi(self) -> (r: u8)
        ensures
            r == self.spec_as_abi(),
    {
        match self {
            LeanCallbackStatus::Completed => 0,
            LeanCallbackStatus::StaleHandle => 1,
            LeanCallbackStatus::Panic => 2,
            LeanCallbackStatus::WrongPayload => 3,
            LeanCallbackStatus::Stopped => 4,
        }
    }

    /// A description of the status.
    #[must_use]
    pub fn description(self) -> (r: &'static str)
        ensures
            r@ == self.spec_description(),
    {
        match self {
            LeanCallbackStatus::Completed => "callback completed successfully",
            LeanCallbackStatus::StaleHandle => {
                "Lean called a callback handle after Rust dropped it"
            },
            LeanCallbackStatus::Panic => {
                "Rust callback panicked and the trampoline contained the panic"
            },
            LeanCallbackStatus::WrongPayload => {
                "Lean called a callback handle through the wrong payload trampoline"
            },
            LeanCallbackStatus::Stopped => "Rust callback asked Lean to stop the callback loop",
        }
    }
}

/// Status bytes round-trip: every status is read back from its byte, and a byte
/// that stands for a status is the byte of that status.
pub proof fn status_bytes_round_trip(status: LeanCallbackStatus, value: u8)
    ensures
        LeanCallbackStatus::spec_from_abi(status.spec_as_abi()) == Some(status),
        LeanCallbackStatus::spec_from_abi(value) matches Some(s) ==> s.spec_as_abi() == value,
        LeanCallbackStatus::spec_from_abi(value) is None <==> value > 4,
{
}

/// The kind of payload that a callback takes.
#[derive(Copy, Clone, Debug, PartialEq, Eq, Structural)]
pub enum CallbackEntryKind {
    /// Progress ticks.
    Progress,
    /// Strings.
    Text,
}

/// Addresses of the two trampolines.
#[derive(Copy, Clone, Debug, PartialEq, Eq, Structural)]
pub struct TrampolineTable {
    /// The trampoline for progress ticks.
    pub progress: usize,
    /// The trampoline for strings.
    pub string: usize,
}

impl TrampolineTable {
    /// The trampoline for the kind of payload.
    pub open spec fn address(self, kind: CallbackEntryKind) -> usize {
        match kind {
            CallbackEntryKind::Progress => self.progress,
            CallbackEntryKind::Text => self.string,
        }
    }
}

/// Marks the types that callbacks can take.
pub trait Sealed {
    /// The kind of the payload.
    spec fn spec_kind() -> CallbackEntryKind;

    /// The kind of the payload.
    fn kind() -> (r: CallbackEntryKind)
        ensures
            r == Self::spec_kind(),
    ;

    /// The trampoline for the payload.
    fn trampoline(table: &TrampolineTable) -> (r: usize)
        ensures
            r == table.address(Self::spec_kind()),
    ;
}

/// A type that callbacks can take.
pub trait LeanCallbackPayload: Sealed {

}

impl Sealed for LeanProgressTick {
    open spec fn spec_kind() -> CallbackEntryKind {
        CallbackEntryKind::Progress
    }

    fn kind() -> (r: CallbackEntryKind) {
        CallbackEntryKind::Progress
    }

    fn trampoline(table: &TrampolineTable) -> (r: usize) {
        table.progress
    }
}

impl Sealed for LeanStringEvent {
    open spec fn spec_kind() -> CallbackEntryKind {
        CallbackEntryKind::Text
    }

    fn kind() -> (r: CallbackEntryKind) {
        CallbackEntryKind::Text
    }

    fn trampoline(table: &TrampolineTable) -> (r: usize) {
        table.string
    }
}

impl LeanCallbackPayload for LeanProgressTick {

}

impl LeanCallbackPayload for LeanStringEvent {

}

/// A registered callback.
#[derive(Debug)]
pub struct CallbackEntry {
    kind: CallbackEntryKind,
    last_error: Option<LeanError>,
}

/// Mathematical value of a registered callback.
pub struct CallbackEntryView {
    pub kind: CallbackEntryKind,
    pub last_error: Option<LeanErrorView>,
}

impl View for CallbackEntry {
    type V = CallbackEntryView;

    closed spec fn view(&self) -> CallbackEntryView {
        CallbackEntryView {
            kind: self.kind,
            last_error: match self.last_error {
                Some(err) => Some(err@),
                None => None,
            },
        }
    }
}

/// A callback that has not been called yet.
pub open spec fn fresh_entry(kind: CallbackEntryKind) -> CallbackEntryView {
    CallbackEntryView { kind, last_error: None }
}

impl CallbackEntry {
    /// Makes an entry for a callback that takes progress ticks.
    pub fn new_progress() -> (r: CallbackEntry)
        ensures
            r@ == fresh_entry(CallbackEntryKind::Progress),
    {
        CallbackEntry { kind: CallbackEntryKind::Progress, last_error: None }
    }

    /// Makes an entry for a callback that takes strings.
    pub fn new_string() -> (r: CallbackEntry)
        ensures
            r@ == fresh_entry(CallbackEntryKind::Text),
    {
        CallbackEntry { kind: CallbackEntryKind::Text, last_error: None }
    }

    /// Judges a run of the callback, and keeps the error of one that panicked.
    pub fn flow_or_panic(&mut self, result: LeanResult<LeanCallbackFlow>) -> (r: LeanCallbackStatus)
        ensures
            r == flow_status(result),
            final(self)@.kind == old(self)@.kind,
            final(self)@.last_error == (match result {
                Ok(_) => old(self)@.last_error,
                Err(err) => Some(err@),
            }),
    {
        match result {
            Ok(LeanCallbackFlow::Continue) => LeanCallbackStatus::Completed,
            Ok(LeanCallbackFlow::Stop) => LeanCallbackStatus::Stopped,
            Err(err) => {
                self.last_error = Some(err);
                LeanCallbackStatus::Panic
            },
        }
    }

    /// The error of the last run that panicked.
    pub fn last_error(&self) -> (r: Option<LeanError>)
        ensures
            match r {
                Some(err) => self@.last_error == Some(err@),
                None => self@.last_error is None,
            },
    {
        match &self.last_error {
            Some(err) => Some(err.clone()),
            None => None,
        }
    }
}

/// The status that a run comes to.
pub open spec fn flow_status(result: LeanResult<LeanCallbackFlow>) -> LeanCallbackStatus {
    match result {
        Ok(LeanCallbackFlow::Continue) => LeanCallbackStatus::Completed,
        Ok(LeanCallbackFlow::Stop) => LeanCallbackStatus::Stopped,
        Err(_) => LeanCallbackStatus::Panic,
    }
}

/// Whether an id can be given to a new callback.
pub open spec fn is_free(ids: Set<usize>, id: usize) -> bool {
    id != 0 && !ids.contains(id)
}

/// The id behind `id`, with zero behind the last.
pub open spec fn next_after(id: usize) -> usize {
    if id < usize::MAX {
        (id + 1) as usize
    } else {
        0
    }
}

/// The first id that can be given among the `attempts` ids from `id` on.
pub open spec fn first_free(ids: Set<usize>, id: usize, attempts: nat) -> Option<usize>
    decreases attempts,
{
    if attempts == 0 {
        None
    } else if is_free(ids, id) {
        Some(id)
    } else {
        first_free(ids, next_after(id), (attempts - 1) as nat)
    }
}

/// The id to try next, after `attempts` ids from `id` on were tried.
pub open spec fn counter_after(ids: Set<usize>, id: usize, attempts: nat) -> usize
    decreases attempts,
{
    if attempts == 0 {
        id
    } else if is_free(ids, id) {
        next_after(id)
    } else {
        counter_after(ids, next_after(id), (attempts - 1) as nat)
    }
}

/// An id that is given out is neither zero nor in use.
pub proof fn allocated_id_is_fresh(ids: Set<usize>, id: usize, attempts: nat)
    ensures
        first_free(ids, id, attempts) matches Some(found) ==> is_free(ids, found),
    decreases attempts,
{
    if attempts > 0 && !is_free(ids, id) {
        allocated_id_is_fresh(ids, next_after(id), (attempts - 1) as nat);
    }
}

/// Mathematical value of a [`CallbackRegistry`].
pub struct CallbackRegistryView {
    pub entries: Map<usize, CallbackEntryView>,
    pub next_id: usize,
}

/// What a trampoline has decided on a call.
#[derive(Debug)]
pub enum TrampolineStep<P> {
    /// The call is over.
    Done(LeanCallbackStatus),
    /// The callback is to run on the payload.
    Invoke(P),
}

/// The string that a payload holds; `None` for a null pointer, for an object that
/// is no string, and for a string that is no UTF-8.
pub open spec fn payload_text(payload: Option<Obj>) -> Option<Seq<char>> {
    match payload {
        Some(Obj::Str(bytes)) => if valid_utf8(bytes@) {
            Some(decode_utf8(bytes@))
        } else {
            None
        },
        _ => None,
    }
}

/// Reads the string that a payload holds.
pub fn decode_string_payload(payload: Option<&Obj>) -> (r: Option<String>)
    ensures
        ({
            let value = match payload {
                Some(obj) => Some(*obj),
                None => None,
            };
            match payload_text(value) {
                Some(text) => r matches Some(s) && s@ == text,
                None => r is None,
            }
        }),
{
    match payload {
        Some(Obj::Str(bytes)) => match utf8_text(bytes.as_slice()) {
            Some(text) => {
                proof {
                    encode_utf8_decode_utf8(text@);
                }
                Some(text.to_owned())
            },
            None => None,
        },
        _ => None,
    }
}

/// The outcome of a call through the trampoline for progress ticks.
pub open spec fn progress_step(
    entries: Map<usize, CallbackEntryView>,
    handle: usize,
    payload_tag: u8,
    tick: LeanProgressTick,
) -> TrampolineStep<LeanProgressTick> {
    if payload_tag != PAYLOAD_PROGRESS_TICK {
        TrampolineStep::Done(LeanCallbackStatus::WrongPayload)
    } else if !entries.contains_key(handle) {
        TrampolineStep::Done(LeanCallbackStatus::StaleHandle)
    } else if entries[handle].kind != CallbackEntryKind::Progress {
        TrampolineStep::Done(LeanCallbackStatus::WrongPayload)
    } else {
        TrampolineStep::Invoke(tick)
    }
}

/// The outcome of a call through the trampoline for strings.
pub open spec fn string_step(
    entries: Map<usize, CallbackEntryView>,
    handle: usize,
    payload_tag: u8,
    payload: Option<Obj>,
) -> TrampolineStep<Seq<char>> {
    if payload_tag != PAYLOAD_STRING {
        TrampolineStep::Done(LeanCallbackStatus::WrongPayload)
    } else if !entries.contains_key(handle) {
        TrampolineStep::Done(LeanCallbackStatus::StaleHandle)
    } else {
        match payload_text(payload) {
            None => TrampolineStep::Done(LeanCallbackStatus::WrongPayload),
            Some(text) => if entries[handle].kind != CallbackEntryKind::Text {
                TrampolineStep::Done(LeanCallbackStatus::WrongPayload)
            } else {
                TrampolineStep::Invoke(text)
            },
        }
    }
}

/// The callbacks that Lean can reach.
#[derive(Debug)]
pub struct CallbackRegistry {
    entries: HashMap<usize, CallbackEntry>,
    next_id: usize,
}

impl View for CallbackRegistry {
    type V = CallbackRegistryView;

    closed spec fn view(&self) -> CallbackRegistryView {
        CallbackRegistryView {
            entries: self.entries@.map_values(|e: CallbackEntry| e@),
            next_id: self.next_id,
        }
    }
}

/// The error of a registry that cannot find a free id.
pub open spec fn no_free_id_error() -> LeanErrorView {
    internal_error("callback registry could not allocate a fresh nonzero handle id"@)
}

impl CallbackRegistry {
    /// Makes an empty registry.
    pub fn new() -> (r: CallbackRegistry)
        ensures
            r@.entries == Map::<usize, CallbackEntryView>::empty(),
            r@.next_id == 1,
    {
        let r: CallbackRegistry = CallbackRegistry { entries: HashMap::new(), next_id: 1 };
        assert(r@.entries =~= Map::<usize, CallbackEntryView>::empty());
        r
    }

    /// The error for a registration that finds the registry poisoned.
    pub fn poisoned() -> (r: LeanError)
        ensures
            r@ == internal_error("callback registry mutex was poisoned during registration"@),
    {
        LeanError::internal("callback registry mutex was poisoned during registration".to_owned())
    }

    /// Finds an id for a new callback.
    fn allocate_id(&mut self) -> (r: LeanResult<usize>)
        ensures
            final(self)@.entries == old(self)@.entries,
            final(self)@.next_id == counter_after(
                old(self)@.entries.dom(),
                old(self)@.next_id,
                ID_ATTEMPTS as nat,
            ),
            match first_free(
                old(self)@.entries.dom(),
                old(self)@.next_id,
                ID_ATTEMPTS as nat,
            ) {
                Some(id) => r == Ok::<usize, LeanError>(id),
                None => r matches Err(err) && err@ == no_free_id_error(),
            },
    {
        let ghost ids = self@.entries.dom();
        let ghost start = self.next_id;
        let mut tried: usize = 0;
        while tried < ID_ATTEMPTS
            invariant
                tried <= ID_ATTEMPTS,
                self.entries == old(self).entries,
                self@.entries == old(self)@.entries,
                ids == self@.entries.dom(),
                start == old(self)@.next_id,
                first_free(ids, start, ID_ATTEMPTS as nat) == first_free(
                    ids,
                    self.next_id,
                    (ID_ATTEMPTS - tried) as nat,
                ),
                counter_after(ids, start, ID_ATTEMPTS as nat) == counter_after(
                    ids,
                    self.next_id,
                    (ID_ATTEMPTS - tried) as nat,
                ),
            decreases ID_ATTEMPTS - tried,
        {
            let id: usize = self.next_id;
            self.next_id = if id < usize::MAX {
                id + 1
            } else {
                0
            };
            assert(ids.contains(id) == self.entries@.contains_key(id));
            if id != 0 && !self.entries.contains_key(&id) {
                return Ok(id);
            }
            tried = tried + 1;
        }
        Err(
            LeanError::internal(
                "callback registry could not allocate a fresh nonzero handle id".to_owned(),
            ),
        )
    }

    /// Adds a callback under a fresh id.
    fn register_entry(&mut self, entry: CallbackEntry) -> (r: LeanResult<usize>)
        ensures
            final(self)@.next_id == counter_after(
                old(self)@.entries.dom(),
                old(self)@.next_id,
                ID_ATTEMPTS as nat,
            ),
            match first_free(
                old(self)@.entries.dom(),
                old(self)@.next_id,
                ID_ATTEMPTS as nat,
            ) {
                Some(id) => r == Ok::<usize, LeanError>(id) && is_free(
                    old(self)@.entries.dom(),
                    id,
                ) && final(self)@.entries == old(self)@.entries.insert(id, entry@),
                None => r matches Err(err) && err@ == no_free_id_error() && final(self)@.entries
                    == old(self)@.entries,
            },
    {
        proof {
            allocated_id_is_fresh(self@.entries.dom(), self@.next_id, ID_ATTEMPTS as nat);
        }
        match self.allocate_id() {
            Ok(id) => {
                let ghost before = self@.entries;
                self.entries.insert(id, entry);
                assert(self@.entries =~= before.insert(id, entry@));
                Ok(id)
            },
            Err(err) => Err(err),
        }
    }

    /// Decides on a call through the trampoline for progress ticks.
    pub fn progress_trampoline(&self, handle: usize, payload_tag: u8, arg0: u64, arg1: u64) -> (r:
        TrampolineStep<LeanProgressTick>)
        ensures
            r == progress_step(
                self@.entries,
                handle,
                payload_tag,
                LeanProgressTick { current: arg0, total: arg1 },
            ),
    {
        if payload_tag != PAYLOAD_PROGRESS_TICK {
            return TrampolineStep::Done(LeanCallbackStatus::WrongPayload);
        }
        match self.entries.get(&handle) {
            None => TrampolineStep::Done(LeanCallbackStatus::StaleHandle),
            Some(entry) => match entry.kind {
                CallbackEntryKind::Progress => TrampolineStep::Invoke(
                    LeanProgressTick { current: arg0, total: arg1 },
                ),
                CallbackEntryKind::Text => TrampolineStep::Done(LeanCallbackStatus::WrongPayload),
            },
        }
    }

    /// Decides on a call through the trampoline for strings. `None` stands for a
    /// null payload pointer.
    pub fn string_trampoline(&self, handle: usize, payload_tag: u8, payload: Option<&Obj>) -> (r:
        TrampolineStep<LeanStringEvent>)
        ensures
            ({
                let value = match payload {
                    Some(obj) => Some(*obj),
                    None => None,
                };
                match string_step(self@.entries, handle, payload_tag, value) {
                    TrampolineStep::Done(status) => r == TrampolineStep::<LeanStringEvent>::Done(
                        status,
                    ),
                    TrampolineStep::Invoke(text) => r matches TrampolineStep::Invoke(event)
                        && event.value@ == text,
                }
            }),
    {
        if payload_tag != PAYLOAD_STRING {
            return TrampolineStep::Done(LeanCallbackStatus::WrongPayload);
        }
        match self.entries.get(&handle) {
            None => TrampolineStep::Done(LeanCallbackStatus::StaleHandle),
            Some(entry) => match decode_string_payload(payload) {
                None => TrampolineStep::Done(LeanCallbackStatus::WrongPayload),
                Some(value) => match entry.kind {
                    CallbackEntryKind::Text => TrampolineStep::Invoke(LeanStringEvent { value }),
                    CallbackEntryKind::Progress => TrampolineStep::Done(
                        LeanCallbackStatus::WrongPayload,
                    ),
                },
            },
        }
    }

    /// Judges how the run of a callback ended. The error of a panic is kept with
    /// the callback, unless its handle went away meanwhile.
    pub fn finish(&mut self, handle: usize, run: CallbackRun<LeanCallbackFlow>) -> (r:
        LeanCallbackStatus)
        ensures
            final(self)@.next_id == old(self)@.next_id,
            match run {
                CallbackRun::Returned(outcome) => r == flow_status(outcome),
                CallbackRun::Panicked(_) => r == LeanCallbackStatus::Panic,
            },
            final(self)@.entries == finished(old(self)@.entries, handle, run),
    {
        let ghost before = self@.entries;
        let result: LeanResult<LeanCallbackFlow> = catch_callback_panic(run);
        match self.entries.remove(&handle) {
            Some(entry) => {
                let mut entry: CallbackEntry = entry;
                let ghost kept = entry@;
                assert(before[handle] == kept);
                let status: LeanCallbackStatus = entry.flow_or_panic(result);
                self.entries.insert(handle, entry);
                assert(self@.entries =~= before.insert(handle, entry@));
                assert(before.insert(handle, kept) =~= before);
                status
            },
            None => {
                assert(self@.entries =~= before);
                match result {
                    Ok(LeanCallbackFlow::Continue) => LeanCallbackStatus::Completed,
                    Ok(LeanCallbackFlow::Stop) => LeanCallbackStatus::Stopped,
                    Err(_) => LeanCallbackStatus::Panic,
                }
            },
        }
    }

    fn remove(&mut self, handle: usize)
        ensures
            final(self)@.entries == old(self)@.entries.remove(handle),
            final(self)@.next_id == old(self)@.next_id,
    {
        let ghost before = self@.entries;
        let _entry: Option<CallbackEntry> = self.entries.remove(&handle);
        assert(self@.entries =~= before.remove(handle));
    }
}

/// The error that the run of a callback ended with.
pub open spec fn run_error(run: CallbackRun<LeanCallbackFlow>) -> Option<LeanErrorView> {
    match run {
        CallbackRun::Returned(Ok(_)) => None,
        CallbackRun::Returned(Err(err)) => Some(err@),
        CallbackRun::Panicked(payload) => Some(callback_panic_error(payload.rendered())),
    }
}

/// The callbacks after a run of the one with the given id: it keeps the error of a
/// run that panicked.
pub open spec fn finished(
    entries: Map<usize, CallbackEntryView>,
    handle: usize,
    run: CallbackRun<LeanCallbackFlow>,
) -> Map<usize, CallbackEntryView> {
    match run_error(run) {
        Some(err) if entries.contains_key(handle) => entries.insert(
            handle,
            CallbackEntryView { kind: entries[handle].kind, last_error: Some(err) },
        ),
        _ => entries,
    }
}

/// What happens to a registry.
pub enum RegistryEvent {
    /// A callback is registered under an id.
    Registered { id: usize, kind: CallbackEntryKind },
    /// A run of a callback ends.
    Finished { id: usize, run: CallbackRun<LeanCallbackFlow> },
    /// A handle is given up.
    Released { id: usize },
}

impl RegistryEvent {
    /// The callbacks after the event.
    pub open spec fn applied(self, entries: Map<usize, CallbackEntryView>) -> Map<
        usize,
        CallbackEntryView,
    > {
        match self {
            RegistryEvent::Registered { id, kind } => entries.insert(id, fresh_entry(kind)),
            RegistryEvent::Finished { id, run } => finished(entries, id, run),
            RegistryEvent::Released { id } => entries.remove(id),
        }
    }

    /// Whether the callback with the given id is still the same after the event.
    pub open spec fn spares(self, callback: usize) -> bool {
        match self {
            RegistryEvent::Registered { id, .. } => id != callback,
            RegistryEvent::Finished { .. } => true,
            RegistryEvent::Released { id } => id != callback,
        }
    }
}

/// The callbacks after a history of events.
pub open spec fn after_history(
    entries: Map<usize, CallbackEntryView>,
    events: Seq<RegistryEvent>,
) -> Map<usize, CallbackEntryView>
    decreases events.len(),
{
    if events.len() == 0 {
        entries
    } else {
        events.last().applied(after_history(entries, events.drop_last()))
    }
}

/// The error of the most recent run of a callback that panicked.
pub open spec fn most_recent_error(events: Seq<RegistryEvent>, callback: usize) -> Option<
    LeanErrorView,
>
    decreases events.len(),
{
    if events.len() == 0 {
        None
    } else {
        let before = most_recent_error(events.drop_last(), callback);
        match events.last() {
            RegistryEvent::Finished { id, run } if id == callback && run_error(run) is Some =>
                run_error(run),
            _ => before,
        }
    }
}

/// Over any history of a registry, a callback that was registered and not released
/// keeps its kind, and its last error is that of its most recent run that
/// panicked; there is none where no run did.
pub proof fn last_error_is_the_most_recent_panic(
    entries: Map<usize, CallbackEntryView>,
    id: usize,
    kind: CallbackEntryKind,
    events: Seq<RegistryEvent>,
)
    requires
        forall|i: int| 0 <= i < events.len() ==> (#[trigger] events[i]).spares(id),
    ensures
        ({
            let after = after_history(entries.insert(id, fresh_entry(kind)), events);
            &&& after.contains_key(id)
            &&& after[id] == (CallbackEntryView { kind, last_error: most_recent_error(events, id) })
        }),
    decreases events.len(),
{
    if events.len() > 0 {
        let front = events.drop_last();
        assert forall|i: int| 0 <= i < front.len() implies (#[trigger] front[i]).spares(id) by {
            assert(events[i].spares(id));
        }
        last_error_is_the_most_recent_panic(entries, id, kind, front);
        assert(events[events.len() - 1].spares(id));
    }
}

/// A registered callback, as its owner holds it. Giving the handle up takes the
/// callback out of the registry.
#[derive(Debug)]
pub struct LeanCallbackHandle<P: LeanCallbackPayload> {
    id: usize,
    payload: PhantomData<P>,
}

impl<P: LeanCallbackPayload> LeanCallbackHandle<P> {
    /// The id that Lean knows the callback by.
    pub closed spec fn spec_id(self) -> usize {
        self.id
    }

    /// Registers a callback that takes the handle's payload.
    pub fn register(registry: &mut CallbackRegistry) -> (r: LeanResult<LeanCallbackHandle<P>>)
        ensures
            final(registry)@.next_id == counter_after(
                old(registry)@.entries.dom(),
                old(registry)@.next_id,
                ID_ATTEMPTS as nat,
            ),
            match first_free(
                old(registry)@.entries.dom(),
                old(registry)@.next_id,
                ID_ATTEMPTS as nat,
            ) {
                Some(id) => r matches Ok(handle) && handle.spec_id() == id && is_free(
                    old(registry)@.entries.dom(),
                    id,
                ) && final(registry)@.entries == old(registry)@.entries.insert(
                    id,
                    fresh_entry(P::spec_kind()),
                ),
                None => r matches Err(err) && err@ == no_free_id_error()
                    && final(registry)@.entries == old(registry)@.entries,
            },
    {
        let entry: CallbackEntry = match P::kind() {
            CallbackEntryKind::Progress => CallbackEntry::new_progress(),
            CallbackEntryKind::Text => CallbackEntry::new_string(),
        };
        match registry.register_entry(entry) {
            Ok(id) => Ok(LeanCallbackHandle { id, payload: PhantomData }),
            Err(err) => Err(err),
        }
    }

    /// The id to hand to Lean.
    #[must_use]
    pub fn abi_handle(&self) -> (r: usize)
        ensures
            r == self.spec_id(),
    {
        self.id
    }

    /// The address of the trampoline to hand to Lean.
    #[must_use]
    pub fn abi_trampoline(&self, table: &TrampolineTable) -> (r: usize)
        ensures
            r == table.address(P::spec_kind()),
    {
        P::trampoline(table)
    }

    /// The id and the address of the trampoline to hand to Lean.
    #[must_use]
    pub fn abi_parts(&self, table: &TrampolineTable) -> (r: (usize, usize))
        ensures
            r == (self.spec_id(), table.address(P::spec_kind())),
    {
        (self.abi_handle(), self.abi_trampoline(table))
    }

    /// The error of the last run that panicked.
    #[must_use]
    pub fn last_error(&self, registry: &CallbackRegistry) -> (r: Option<LeanError>)
        ensures
            ({
                let entries = registry@.entries;
                match r {
                    Some(err) => entries.contains_key(self.spec_id())
                        && entries[self.spec_id()].last_error == Some(err@),
                    None => entries.contains_key(self.spec_id())
                        ==> entries[self.spec_id()].last_error is None,
                }
            }),
    {
        match registry.entries.get(&self.id) {
            Some(entry) => entry.last_error(),
            None => None,
        }
    }

    /// Gives the handle up: its id goes stale.
    pub fn release(self, registry: &mut CallbackRegistry)
        ensures
            final(registry)@.entries == old(registry)@.entries.remove(self.spec_id()),
            final(registry)@.next_id == old(registry)@.next_id,
    {
        registry.remove(self.id);
    }
}

/// A released id is stale: no trampoline invokes anything on it, and with the
/// right payload tag each reports a stale handle. All other ids answer as before.
pub proof fn released_handle_is_stale(
    entries: Map<usize, CallbackEntryView>,
    id: usize,
    other: usize,
    payload_tag: u8,
    tick: LeanProgressTick,
    payload: Option<Obj>,
)
    ensures
        progress_step(entries.remove(id), id, PAYLOAD_PROGRESS_TICK, tick)
            == TrampolineStep::<LeanProgressTick>::Done(LeanCallbackStatus::StaleHandle),
        string_step(entries.remove(id), id, PAYLOAD_STRING, payload)
            == TrampolineStep::<Seq<char>>::Done(LeanCallbackStatus::StaleHandle),
        progress_step(entries.remove(id), id, payload_tag, tick) is Done,
        string_step(entries.remove(id), id, payload_tag, payload) is Done,
        other != id ==> progress_step(entries.remove(id), other, payload_tag, tick)
            == progress_step(entries, other, payload_tag, tick),
        other != id ==> string_step(entries.remove(id), other, payload_tag, payload)
            == string_step(entries, other, payload_tag, payload),
{
}

/// A trampoline only ever invokes a live callback of its own kind; a freshly
/// registered callback is invoked by its own trampoline.
pub proof fn only_matching_callbacks_are_invoked(
    entries: Map<usize, CallbackEntryView>,
    id: usize,
    payload_tag: u8,
    tick: LeanProgressTick,
    payload: Option<Obj>,
)
    ensures
        progress_step(entries, id, payload_tag, tick) is Invoke ==> entries.contains_key(id)
            && entries[id].kind == CallbackEntryKind::Progress,
        string_step(entries, id, payload_tag, payload) is Invoke ==> entries.contains_key(id)
            && entries[id].kind == CallbackEntryKind::Text,
        progress_step(
            entries.insert(id, fresh_entry(CallbackEntryKind::Progress)),
            id,
            PAYLOAD_PROGRESS_TICK,
            tick,
        ) == TrampolineStep::Invoke(tick),
        payload_text(payload) matches Some(text) ==> string_step(
            entries.insert(id, fresh_entry(CallbackEntryKind::Text)),
            id,
            PAYLOAD_STRING,
            payload,
        ) == TrampolineStep::Invoke(text),
{
}

/// The bytes that stand for the statuses at the C boundary, and what each status is
/// described by.
pub proof fn status_bytes_are_stable()
    ensures
        LeanCallbackStatus::Completed.spec_as_abi() == 0,
        LeanCallbackStatus::StaleHandle.spec_as_abi() == 1,
        LeanCallbackStatus::Panic.spec_as_abi() == 2,
        LeanCallbackStatus::WrongPayload.spec_as_abi() == 3,
        LeanCallbackStatus::Stopped.spec_as_abi() == 4,
        LeanCallbackStatus::Completed.spec_description() == "callback completed successfully"@,
        LeanCallbackStatus::StaleHandle.spec_description()
            == "Lean called a callback handle after Rust dropped it"@,
        LeanCallbackStatus::Panic.spec_description()
            == "Rust callback panicked and the trampoline contained the panic"@,
        LeanCallbackStatus::WrongPayload.spec_description()
            == "Lean called a callback handle through the wrong payload trampoline"@,
        LeanCallbackStatus::Stopped.spec_description()
            == "Rust callback asked Lean to stop the callback loop"@,
{
}

/// Ticks are progress and string events are text, each with the trampoline of its own.
pub proof fn payloads_have_their_own_trampolines(table: TrampolineTable)
    ensures
        table.address(<LeanProgressTick as Sealed>::spec_kind()) == table.progress,
        table.address(<LeanStringEvent as Sealed>::spec_kind()) == table.string,
        <LeanProgressTick as Sealed>::spec_kind() is Progress,
        <LeanStringEvent as Sealed>::spec_kind() is Text,
{
}

/// What a call through the trampoline for ticks comes to: with another payload tag
/// than zero the payload is wrong; an id that is not registered is stale; the callback
/// of an id that takes strings gets no tick; every other call hands over the tick.
pub proof fn ticks_reach_progress_callbacks(
    entries: Map<usize, CallbackEntryView>,
    handle: usize,
    payload_tag: u8,
    tick: LeanProgressTick,
)
    ensures
        ({
            let step = progress_step(entries, handle, payload_tag, tick);
            &&& step matches TrampolineStep::Invoke(handed) ==> handed == tick
            &&& step is Invoke <==> payload_tag == 0 && entries.contains_key(handle)
                && entries[handle].kind is Progress
            &&& step == TrampolineStep::<LeanProgressTick>::Done(LeanCallbackStatus::StaleHandle)
                <==> payload_tag == 0 && !entries.contains_key(handle)
            &&& step == TrampolineStep::<LeanProgressTick>::Done(LeanCallbackStatus::WrongPayload)
                <==> payload_tag != 0 || entries.contains_key(handle) && entries[handle].kind is Text
        }),
{
}

/// What a call through the trampoline for strings comes to: with another payload tag
/// than one the payload is wrong; an id that is not registered is stale; a payload that
/// is no string of valid UTF-8 is wrong, and so is any for a callback that takes ticks;
/// every other call hands over the text that the payload encodes.
pub proof fn strings_reach_text_callbacks(
    entries: Map<usize, CallbackEntryView>,
    handle: usize,
    payload_tag: u8,
    payload: Option<Obj>,
)
    ensures
        ({
            let step = string_step(entries, handle, payload_tag, payload);
            let readable = payload matches Some(Obj::Str(bytes)) && valid_utf8(bytes@);
            &&& step matches TrampolineStep::Invoke(text) ==> (payload matches Some(
                Obj::Str(bytes),
            ) && encode_utf8(text) == bytes@)
            &&& step is Invoke <==> payload_tag == 1 && entries.contains_key(handle)
                && entries[handle].kind is Text && readable
            &&& step == TrampolineStep::<Seq<char>>::Done(LeanCallbackStatus::StaleHandle) <==>
                payload_tag == 1 && !entries.contains_key(handle)
            &&& step == TrampolineStep::<Seq<char>>::Done(LeanCallbackStatus::WrongPayload) <==>
                payload_tag != 1 || entries.contains_key(handle) && (entries[handle].kind is Progress
                || !readable)
        }),
{
    if let Some(Obj::Str(bytes)) = payload {
        if valid_utf8(bytes@) {
            decode_utf8_encode_utf8(bytes@);
        }
    }
}

/// A run that asked to go on completed, one that asked to stop stopped, and one that
/// failed or panicked counts as a panic.
pub proof fn runs_come_to_their_status(flow: LeanCallbackFlow, err: LeanError)
    ensures
        flow is Continue ==> flow_status(Ok(flow)) == LeanCallbackStatus::Completed,
        flow is Stop ==> flow_status(Ok(flow)) == LeanCallbackStatus::Stopped,
        flow_status(Err(err)) == LeanCallbackStatus::Panic,
{
}

/// The end of a run concerns the callback that ran alone, and only where it is still
/// registered and the run failed: it keeps its kind, and the error becomes its last
/// one. A panic is kept as one that was contained, with the text that it carried.
pub proof fn failed_runs_leave_their_error(
    entries: Map<usize, CallbackEntryView>,
    handle: usize,
    other: usize,
    run: CallbackRun<LeanCallbackFlow>,
)
    ensures
        ({
            let after = finished(entries, handle, run);
            &&& after.dom() == entries.dom()
            &&& other != handle && entries.contains_key(other) ==> after[other] == entries[other]
            &&& run matches CallbackRun::Returned(Ok(_)) ==> after == entries
            &&& entries.contains_key(handle) ==> after[handle].kind == entries[handle].kind
            &&& entries.contains_key(handle) ==> (run matches CallbackRun::Returned(Err(err))
                ==> after[handle].last_error == Some(err@))
            &&& entries.contains_key(handle) ==> (run matches CallbackRun::Panicked(payload) ==> (
            after[handle].last_error matches Some(LeanErrorView::Host { stage, code, message })
                && stage == HostStage::CallbackPanic && code == LeanDiagnosticCode::Internal
                && kept_of(payload.rendered(), message)))
        }),
{
    if let CallbackRun::Panicked(payload) = run {
        failures_say_stage_and_class(payload.rendered());
    }
    assert(finished(entries, handle, run).dom() =~= entries.dom());
}

/// The id that is `k` steps behind `id`, where zero is behind the greatest.
pub open spec fn steps_behind(id: usize, k: int) -> int {
    (id + k) % (usize::MAX + 1)
}

/// A new callback gets the first id from the counter on, going round, that is neither
/// zero nor in use, and the counter then stands behind it. Up to 1024 ids are tried;
/// where all of them are taken there is none, and the counter stands behind the last.
pub proof fn nearest_free_id_is_given_out(ids: Set<usize>, id: usize, attempts: nat, k: int)
    requires
        0 <= k <= attempts,
        forall|j: int|
            0 <= j < k ==> #[trigger] steps_behind(id, j) == 0 || ids.contains(
                steps_behind(id, j) as usize,
            ),
        k < attempts ==> steps_behind(id, k) != 0 && !ids.contains(steps_behind(id, k) as usize),
    ensures
        ID_ATTEMPTS == 1024,
        k < attempts ==> first_free(ids, id, attempts) == Some(steps_behind(id, k) as usize)
            && counter_after(ids, id, attempts) == steps_behind(id, k + 1),
        k == attempts ==> first_free(ids, id, attempts) is None && counter_after(ids, id, attempts)
            == steps_behind(id, attempts as int),
    decreases attempts,
{
    let wrap = usize::MAX + 1;
    lemma_small_mod(id as nat, wrap as nat);
    assert(steps_behind(id, 0) == id);
    if attempts > 0 {
        let next = next_after(id);
        assert(next == steps_behind(id, 1)) by {
            if id < usize::MAX {
                lemma_small_mod((id + 1) as nat, wrap as nat);
            } else {
                lemma_mod_self_0(wrap);
            }
        }
        if k > 0 {
            assert(!is_free(ids, id)) by {
                assert(steps_behind(id, 0) == 0 || ids.contains(steps_behind(id, 0) as usize));
            }
            assert forall|j: int| true implies #[trigger] steps_behind(next, j) == steps_behind(
                id,
                j + 1,
            ) by {
                lemma_step_on(id, j);
            }
            assert forall|j: int| 0 <= j < k - 1 implies #[trigger] steps_behind(next, j) == 0
                || ids.contains(steps_behind(next, j) as usize) by {
                assert(steps_behind(id, j + 1) == 0 || ids.contains(
                    steps_behind(id, j + 1) as usize,
                ));
            }
            assert(steps_behind(next, k - 1) == steps_behind(id, k));
            assert(steps_behind(next, k) == steps_behind(id, k + 1));
            assert(steps_behind(next, attempts - 1) == steps_behind(id, attempts as int));
            nearest_free_id_is_given_out(ids, next, (attempts - 1) as nat, k - 1);
        }
    }
}

proof fn lemma_step_on(id: usize, j: int)
    ensures
        steps_behind(next_after(id), j) == steps_behind(id, j + 1),
{
    let wrap = usize::MAX + 1;
    if id == usize::MAX {
        lemma_mod_add_multiples_vanish(j, wrap);
        assert(id + (j + 1) == wrap + j);
    }
}

/// A registration that finds no id fails as an internal error, and a fresh callback has
/// no error yet. An id can be given out unless it is zero or in use.
pub proof fn registrations_start_clean(kind: CallbackEntryKind, ids: Set<usize>, id: usize)
    ensures
        is_free(ids, id) <==> id > 0 && !ids.contains(id),
        no_free_id_error().code() == LeanDiagnosticCode::Internal,
        fresh_entry(kind).kind == kind,
        fresh_entry(kind).last_error is None,
{
}

} // verus!
