//! Capture of diagnostic events.
//!
//! A [`DiagnosticCapture`] keeps the most recent events of this library's
//! targets in a bounded buffer. When the buffer is full the oldest event makes
//! room, and the number of events lost that way is counted. The subscriber that
//! feeds the capture hands over every event as plain values.

use std::collections::VecDeque;
use vstd::prelude::*;
use vstd::string::*;

use crate::error::LeanDiagnosticCode;
use crate::text::{chars_of, optional_text, same_text, starts_with, text_between};

verus! {

/// Number of events that a capture keeps unless told otherwise.
pub const DIAGNOSTIC_CAPTURE_DEFAULT_CAPACITY: usize = 256;

/// Level of an event.
#[derive(Copy, Clone, Debug, PartialEq, Eq, Structural)]
pub enum TraceLevel {
    /// An error.
    Error,
    /// A warning.
    Warn,
    /// Information.
    Info,
    /// Debugging detail.
    Debug,
    /// Fine-grained detail.
    Trace,
}

/// The name of a level.
pub open spec fn level_name(level: TraceLevel) -> Seq<char> {
    match level {
        TraceLevel::Error => "error"@,
        TraceLevel::Warn => "warn"@,
        TraceLevel::Info => "info"@,
        TraceLevel::Debug => "debug"@,
        TraceLevel::Trace => "trace"@,
    }
}

/// The name of a level.
pub fn level_str(level: TraceLevel) -> (r: &'static str)
    ensures
        r@ == level_name(level),
{
    match level {
        TraceLevel::Error => "error",
        TraceLevel::Warn => "warn",
        TraceLevel::Info => "info",
        TraceLevel::Debug => "debug",
        TraceLevel::Trace => "trace",
    }
}

/// The diagnostic code with the identifier or the variant name `s`.
pub open spec fn code_named(s: Seq<char>) -> Option<LeanDiagnosticCode> {
    if s == "lean_rs.runtime_init"@ || s == "RuntimeInit"@ {
        Some(LeanDiagnosticCode::RuntimeInit)
    } else if s == "lean_rs.linking"@ || s == "Linking"@ {
        Some(LeanDiagnosticCode::Linking)
    } else if s == "lean_rs.module_init"@ || s == "ModuleInit"@ {
        Some(LeanDiagnosticCode::ModuleInit)
    } else if s == "lean_rs.symbol_lookup"@ || s == "SymbolLookup"@ {
        Some(LeanDiagnosticCode::SymbolLookup)
    } else if s == "lean_rs.abi_conversion"@ || s == "AbiConversion"@ {
        Some(LeanDiagnosticCode::AbiConversion)
    } else if s == "lean_rs.lean_exception"@ || s == "LeanException"@ {
        Some(LeanDiagnosticCode::LeanException)
    } else if s == "lean_rs.elaboration"@ || s == "Elaboration"@ {
        Some(LeanDiagnosticCode::Elaboration)
    } else if s == "lean_rs.unsupported"@ || s == "Unsupported"@ {
        Some(LeanDiagnosticCode::Unsupported)
    } else if s == "lean_rs.internal"@ || s == "Internal"@ {
        Some(LeanDiagnosticCode::Internal)
    } else {
        None
    }
}

fn named_code(s: &str) -> (r: Option<LeanDiagnosticCode>)
    ensures
        r == code_named(s@),
{
    if same_text(s, "lean_rs.runtime_init") || same_text(s, "RuntimeInit") {
        Some(LeanDiagnosticCode::RuntimeInit)
    } else if same_text(s, "lean_rs.linking") || same_text(s, "Linking") {
        Some(LeanDiagnosticCode::Linking)
    } else if same_text(s, "lean_rs.module_init") || same_text(s, "ModuleInit") {
        Some(LeanDiagnosticCode::ModuleInit)
    } else if same_text(s, "lean_rs.symbol_lookup") || same_text(s, "SymbolLookup") {
        Some(LeanDiagnosticCode::SymbolLookup)
    } else if same_text(s, "lean_rs.abi_conversion") || same_text(s, "AbiConversion") {
        Some(LeanDiagnosticCode::AbiConversion)
    } else if same_text(s, "lean_rs.lean_exception") || same_text(s, "LeanException") {
        Some(LeanDiagnosticCode::LeanException)
    } else if same_text(s, "lean_rs.elaboration") || same_text(s, "Elaboration") {
        Some(LeanDiagnosticCode::Elaboration)
    } else if same_text(s, "lean_rs.unsupported") || same_text(s, "Unsupported") {
        Some(LeanDiagnosticCode::Unsupported)
    } else if same_text(s, "lean_rs.internal") || same_text(s, "Internal") {
        Some(LeanDiagnosticCode::Internal)
    } else {
        None
    }
}

/// Every diagnostic code is recognised by its identifier and by its variant
/// name.
pub proof fn codes_are_recognised(code: LeanDiagnosticCode)
    ensures
        code_named(code.spec_as_str()) == Some(code),
        code_named(code.spec_name()) == Some(code),
{
    reveal_strlit("lean_rs.runtime_init");
    reveal_strlit("RuntimeInit");
    reveal_strlit("lean_rs.linking");
    reveal_strlit("Linking");
    reveal_strlit("lean_rs.module_init");
    reveal_strlit("ModuleInit");
    reveal_strlit("lean_rs.symbol_lookup");
    reveal_strlit("SymbolLookup");
    reveal_strlit("lean_rs.abi_conversion");
    reveal_strlit("AbiConversion");
    reveal_strlit("lean_rs.lean_exception");
    reveal_strlit("LeanException");
    reveal_strlit("lean_rs.elaboration");
    reveal_strlit("Elaboration");
    reveal_strlit("lean_rs.unsupported");
    reveal_strlit("Unsupported");
    reveal_strlit("lean_rs.internal");
    reveal_strlit("Internal");
    assert("lean_rs.runtime_init"@.len() == 20 && "lean_rs.runtime_init"@[8] == 'r');
    assert("RuntimeInit"@.len() == 11 && "RuntimeInit"@[0] == 'R');
    assert("lean_rs.linking"@.len() == 15 && "lean_rs.linking"@[8] == 'l');
    assert("Linking"@.len() == 7 && "Linking"@[0] == 'L');
    assert("lean_rs.module_init"@.len() == 19 && "lean_rs.module_init"@[8] == 'm');
    assert("ModuleInit"@.len() == 10 && "ModuleInit"@[0] == 'M');
    assert("lean_rs.symbol_lookup"@.len() == 21 && "lean_rs.symbol_lookup"@[8] == 's');
    assert("SymbolLookup"@.len() == 12 && "SymbolLookup"@[0] == 'S');
    assert("lean_rs.abi_conversion"@.len() == 22 && "lean_rs.abi_conversion"@[8] == 'a');
    assert("AbiConversion"@.len() == 13 && "AbiConversion"@[0] == 'A');
    assert("lean_rs.lean_exception"@.len() == 22 && "lean_rs.lean_exception"@[8] == 'l');
    assert("LeanException"@.len() == 13 && "LeanException"@[0] == 'L');
    assert("lean_rs.elaboration"@.len() == 19 && "lean_rs.elaboration"@[8] == 'e');
    assert("Elaboration"@.len() == 11 && "Elaboration"@[0] == 'E');
    assert("lean_rs.unsupported"@.len() == 19 && "lean_rs.unsupported"@[8] == 'u');
    assert("Unsupported"@.len() == 11 && "Unsupported"@[0] == 'U');
    assert("lean_rs.internal"@.len() == 16 && "lean_rs.internal"@[8] == 'i');
    assert("Internal"@.len() == 8 && "Internal"@[0] == 'I');
}

/// Distinct diagnostic codes have distinct identifiers.
pub proof fn code_identifiers_are_distinct(a: LeanDiagnosticCode, b: LeanDiagnosticCode)
    requires
        a.spec_as_str() == b.spec_as_str(),
    ensures
        a == b,
{
    codes_are_recognised(a);
    codes_are_recognised(b);
}

/// `s` without the quotation marks at its start and at its end.
pub open spec fn unquoted(s: Seq<char>) -> Seq<char>
    decreases s.len(),
{
    if s.len() > 0 && s[0] == '"' {
        unquoted(s.drop_first())
    } else if s.len() > 0 && s.last() == '"' {
        unquoted(s.drop_last())
    } else {
        s
    }
}

/// Recognises a diagnostic code by its identifier or its variant name, quoted
/// or not.
pub fn parse_code_str(raw: &str) -> (r: Option<LeanDiagnosticCode>)
    ensures
        r == code_named(unquoted(raw@)),
{
    let chars: Vec<char> = chars_of(raw);
    let mut from: usize = 0;
    let mut to: usize = chars.len();
    assert(chars@.subrange(0, to as int) =~= raw@);
    while from < to && chars[from] == '"'
        invariant
            from <= to == chars@.len(),
            unquoted(raw@) == unquoted(chars@.subrange(from as int, to as int)),
        decreases to - from,
    {
        assert(chars@.subrange(from as int, to as int).drop_first() =~= chars@.subrange(
            from as int + 1,
            to as int,
        ));
        from = from + 1;
    }
    while from < to && chars[to - 1] == '"'
        invariant
            from <= to <= chars@.len(),
            from < to ==> chars@[from as int] != '"',
            unquoted(raw@) == unquoted(chars@.subrange(from as int, to as int)),
        decreases to - from,
    {
        assert(chars@.subrange(from as int, to as int).drop_last() =~= chars@.subrange(
            from as int,
            to as int - 1,
        ));
        to = to - 1;
    }
    let trimmed: String = text_between(&chars, from, to);
    assert(unquoted(trimmed@) == trimmed@);
    named_code(trimmed.as_str())
}

/// Parsing recognises what rendering gives: the identifier of a code, as it is
/// and in quotation marks.
pub proof fn parsing_undoes_rendering(code: LeanDiagnosticCode)
    ensures
        code_named(unquoted(code.spec_as_str())) == Some(code),
        code_named(unquoted(seq!['"'] + code.spec_as_str() + seq!['"'])) == Some(code),
{
    reveal_strlit("lean_rs.runtime_init");
    reveal_strlit("RuntimeInit");
    reveal_strlit("lean_rs.linking");
    reveal_strlit("Linking");
    reveal_strlit("lean_rs.module_init");
    reveal_strlit("ModuleInit");
    reveal_strlit("lean_rs.symbol_lookup");
    reveal_strlit("SymbolLookup");
    reveal_strlit("lean_rs.abi_conversion");
    reveal_strlit("AbiConversion");
    reveal_strlit("lean_rs.lean_exception");
    reveal_strlit("LeanException");
    reveal_strlit("lean_rs.elaboration");
    reveal_strlit("Elaboration");
    reveal_strlit("lean_rs.unsupported");
    reveal_strlit("Unsupported");
    reveal_strlit("lean_rs.internal");
    reveal_strlit("Internal");
    let id = code.spec_as_str();
    let quoted = seq!['"'] + id + seq!['"'];
    assert(id.len() > 0 && id[0] != '"' && id.last() != '"');
    assert(unquoted(id) == id);
    assert(quoted.drop_first() =~= id.push('"'));
    assert(id.push('"').drop_last() =~= id);
    assert(unquoted(id.push('"')) == id);
    codes_are_recognised(code);
}

/// A named value attached to an event: its name and its rendered value.
pub type EventField = (&'static str, String);

/// Mathematical value of a field.
pub struct EventFieldView {
    pub name: Seq<char>,
    pub value: Seq<char>,
}

/// The mathematical value of a field.
pub open spec fn field_view(field: EventField) -> EventFieldView {
    EventFieldView { name: field.0@, value: field.1@ }
}

/// The contents of a sequence of fields.
pub open spec fn field_views(fields: Seq<EventField>) -> Seq<EventFieldView> {
    Seq::new(fields.len(), |i: int| field_view(fields[i]))
}

fn copy_fields(fields: &Vec<EventField>) -> (r: Vec<EventField>)
    ensures
        field_views(r@) == field_views(fields@),
{
    let mut r: Vec<EventField> = Vec::new();
    let mut i: usize = 0;
    while i < fields.len()
        invariant
            i <= fields@.len(),
            r@.len() == i,
            forall|j: int| 0 <= j < i ==> field_view(#[trigger] r@[j]) == field_view(fields@[j]),
        decreases fields@.len() - i,
    {
        let field: &EventField = &fields[i];
        r.push((field.0, field.1.clone()));
        i = i + 1;
    }
    assert(field_views(r@) =~= field_views(fields@));
    r
}

/// What the fields of an event amount to.
pub struct FieldSummary {
    pub code: Option<LeanDiagnosticCode>,
    pub message: Option<Seq<char>>,
    pub others: Seq<EventFieldView>,
}

/// The summary of the first `n` fields: the last recognised `code`, the last
/// `message`, and all fields of other names in order. A `code` that is not
/// recognised is left out.
pub open spec fn summarised(fields: Seq<EventFieldView>, n: int) -> FieldSummary
    decreases n,
{
    if n <= 0 {
        FieldSummary { code: None, message: None, others: Seq::empty() }
    } else {
        let before = summarised(fields, n - 1);
        let field = fields[n - 1];
        if field.name == "code"@ {
            match code_named(unquoted(field.value)) {
                Some(code) => FieldSummary { code: Some(code), ..before },
                None => before,
            }
        } else if field.name == "message"@ {
            FieldSummary { message: Some(field.value), ..before }
        } else {
            FieldSummary { others: before.others.push(field), ..before }
        }
    }
}

/// The collected fields exclude `code` and `message`, whatever their values; a
/// field of any other name is collected.
pub proof fn collected_fields_exclude_code_and_message(
    fields: Seq<EventFieldView>,
    field: EventFieldView,
)
    ensures
        ({
            let collected = summarised(fields, fields.len() as int).others;
            collected.contains(field) <==> fields.contains(field) && field.name != "code"@
                && field.name != "message"@
        }),
{
    lemma_collected(fields, fields.len() as int, field);
    assert(fields.take(fields.len() as int) =~= fields);
}

proof fn lemma_collected(fields: Seq<EventFieldView>, n: int, field: EventFieldView)
    requires
        0 <= n <= fields.len(),
    ensures
        summarised(fields, n).others.contains(field) <==> fields.take(n).contains(field)
            && field.name != "code"@ && field.name != "message"@,
    decreases n,
{
    if n > 0 {
        lemma_collected(fields, n - 1, field);
        let before = summarised(fields, n - 1).others;
        let last = fields[n - 1];
        assert(fields.take(n) =~= fields.take(n - 1).push(last));
        lemma_push_contains(fields.take(n - 1), last, field);
        lemma_push_contains(before, last, field);
    }
}

proof fn lemma_push_contains<A>(items: Seq<A>, item: A, wanted: A)
    ensures
        items.push(item).contains(wanted) <==> items.contains(wanted) || item == wanted,
{
    if items.contains(wanted) {
        let i = choose|i: int| 0 <= i < items.len() && items[i] == wanted;
        assert(items.push(item)[i] == wanted);
    }
    assert(items.push(item)[items.len() as int] == item);
}

/// Sorts the fields of an event.
#[derive(Debug)]
pub struct FieldVisitor {
    code: Option<LeanDiagnosticCode>,
    message: Option<String>,
    other_fields: Vec<EventField>,
}

impl View for FieldVisitor {
    type V = FieldSummary;

    closed spec fn view(&self) -> FieldSummary {
        FieldSummary {
            code: self.code,
            message: match self.message {
                Some(text) => Some(text@),
                None => None,
            },
            others: field_views(self.other_fields@),
        }
    }
}

impl FieldVisitor {
    /// Starts with no fields.
    pub fn new() -> (r: FieldVisitor)
        ensures
            r@ == summarised(Seq::empty(), 0),
    {
        let r: FieldVisitor = FieldVisitor {
            code: None,
            message: None,
            other_fields: Vec::new(),
        };
        assert(field_views(r.other_fields@) =~= Seq::empty());
        r
    }

    /// Takes the next field.
    pub fn record_str(&mut self, name: &'static str, value: &str)
        ensures
            final(self)@ == (if name@ == "code"@ {
                match code_named(unquoted(value@)) {
                    Some(code) => FieldSummary { code: Some(code), ..old(self)@ },
                    None => old(self)@,
                }
            } else if name@ == "message"@ {
                FieldSummary { message: Some(value@), ..old(self)@ }
            } else {
                FieldSummary {
                    others: old(self)@.others.push(EventFieldView { name: name@, value: value@ }),
                    ..old(self)@
                }
            }),
    {
        let ghost before = self@.others;
        if same_text(name, "code") {
            match parse_code_str(value) {
                Some(code) => {
                    self.code = Some(code);
                },
                None => {},
            }
        } else if same_text(name, "message") {
            self.message = Some(value.to_owned());
        } else {
            self.other_fields.push((name, value.to_owned()));
            assert(self@.others =~= before.push(EventFieldView { name: name@, value: value@ }));
        }
    }

    /// Takes all fields of an event.
    fn record_all(fields: &Vec<EventField>) -> (r: FieldVisitor)
        ensures
            r@ == summarised(field_views(fields@), fields@.len() as int),
    {
        let ghost all = field_views(fields@);
        let mut r: FieldVisitor = FieldVisitor::new();
        let mut i: usize = 0;
        while i < fields.len()
            invariant
                i <= fields@.len(),
                all == field_views(fields@),
                r@ == summarised(all, i as int),
            decreases fields@.len() - i,
        {
            let field: &EventField = &fields[i];
            assert(all[i as int] == field_view(*field));
            r.record_str(field.0, field.1.as_str());
            i = i + 1;
        }
        r
    }
}

/// Mathematical value of a [`CapturedEvent`].
pub struct CapturedEventView {
    pub target: Seq<char>,
    pub level: Seq<char>,
    pub name: Seq<char>,
    pub span: Option<Seq<char>>,
    pub code: Option<LeanDiagnosticCode>,
    pub message: Seq<char>,
    pub fields: Seq<EventFieldView>,
}

/// A captured event.
#[derive(Debug, PartialEq, Eq)]
pub struct CapturedEvent {
    /// Target of the event.
    pub target: String,
    /// Level of the event, in lower case.
    pub level: &'static str,
    /// Name of the event; `span_open` for the opening of a span.
    pub name: &'static str,
    /// Name of the span that the event was emitted in.
    pub span: Option<String>,
    /// Diagnostic code of the event, where it carries a known one.
    pub code: Option<LeanDiagnosticCode>,
    /// Message of the event; empty where it has none.
    pub message: String,
    /// The fields of other names than `code` and `message`.
    pub fields: Vec<EventField>,
}

impl View for CapturedEvent {
    type V = CapturedEventView;

    open spec fn view(&self) -> CapturedEventView {
        CapturedEventView {
            target: self.target@,
            level: self.level@,
            name: self.name@,
            span: optional_text(self.span),
            code: self.code,
            message: self.message@,
            fields: field_views(self.fields@),
        }
    }
}

impl Clone for CapturedEvent {
    fn clone(&self) -> (r: CapturedEvent)
        ensures
            r@ == self@,
    {
        let span: Option<String> = match &self.span {
            Some(text) => Some(text.clone()),
            None => None,
        };
        CapturedEvent {
            target: self.target.clone(),
            level: self.level,
            name: self.name,
            span,
            code: self.code,
            message: self.message.clone(),
            fields: copy_fields(&self.fields),
        }
    }
}

/// The contents of a sequence of events.
pub open spec fn event_views(events: Seq<CapturedEvent>) -> Seq<CapturedEventView> {
    Seq::new(events.len(), |i: int| events[i]@)
}

/// Mathematical value of a capture.
pub struct CaptureView {
    pub events: Seq<CapturedEventView>,
    pub overflowed: usize,
    pub capacity: usize,
}

impl CaptureView {
    /// The buffer is never over its capacity, which is at least one.
    pub open spec fn within_capacity(self) -> bool {
        self.capacity >= 1 && self.events.len() <= self.capacity
    }

    /// The buffer after another event: where it was full, the oldest event has
    /// made room and is counted as lost.
    pub open spec fn pushed(self, event: CapturedEventView) -> CaptureView {
        if self.events.len() >= self.capacity {
            CaptureView {
                events: self.events.skip(1).push(event),
                overflowed: if self.overflowed < usize::MAX {
                    (self.overflowed + 1) as usize
                } else {
                    usize::MAX
                },
                capacity: self.capacity,
            }
        } else {
            CaptureView { events: self.events.push(event), ..self }
        }
    }

    /// The buffer after a sequence of events.
    pub open spec fn pushed_all(self, events: Seq<CapturedEventView>) -> CaptureView
        decreases events.len(),
    {
        if events.len() == 0 {
            self
        } else {
            self.pushed_all(events.drop_last()).pushed(events.last())
        }
    }
}

/// A capture that starts empty holds, after any events, exactly the most recent
/// of them that fit its capacity, in order, and has counted all others as lost.
pub proof fn capture_keeps_the_most_recent(
    capacity: usize,
    events: Seq<CapturedEventView>,
)
    requires
        capacity >= 1,
        events.len() <= usize::MAX,
    ensures
        ({
            let start = CaptureView { events: Seq::empty(), overflowed: 0, capacity };
            let after = start.pushed_all(events);
            &&& after.within_capacity()
            &&& after.capacity == capacity
            &&& events.len() <= capacity ==> after.events == events && after.overflowed == 0
            &&& events.len() > capacity ==> after.events == events.skip(events.len() - capacity)
                && after.overflowed == events.len() - capacity
        }),
    decreases events.len(),
{
    let start = CaptureView { events: Seq::empty(), overflowed: 0, capacity };
    if events.len() == 0 {
        assert(start.events =~= events);
    } else {
        let front = events.drop_last();
        capture_keeps_the_most_recent(capacity, front);
        let before = start.pushed_all(front);
        let after = start.pushed_all(events);
        assert(events =~= front.push(events.last()));
        if front.len() < capacity {
            assert(after.events =~= events);
        } else if front.len() == capacity {
            assert(after.events =~= events.skip(1));
        } else {
            assert(after.events =~= events.skip(events.len() - capacity));
        }
    }
}

/// A bounded buffer of events.
#[derive(Debug)]
struct CaptureBuffer {
    events: VecDeque<CapturedEvent>,
    overflowed: usize,
    capacity: usize,
}

impl View for CaptureBuffer {
    type V = CaptureView;

    closed spec fn view(&self) -> CaptureView {
        CaptureView {
            events: event_views(self.events@),
            overflowed: self.overflowed,
            capacity: self.capacity,
        }
    }
}

/// The capacity that a capture gets when `capacity` is asked for.
pub open spec fn effective_capacity(capacity: usize) -> usize {
    if capacity >= 1 {
        capacity
    } else {
        1
    }
}

impl CaptureBuffer {
    /// Makes an empty buffer for at least one event.
    pub fn new(capacity: usize) -> (r: CaptureBuffer)
        ensures
            r@ == (CaptureView {
                events: Seq::empty(),
                overflowed: 0,
                capacity: effective_capacity(capacity),
            }),
    {
        let capacity: usize = if capacity >= 1 {
            capacity
        } else {
            1
        };
        let r: CaptureBuffer = CaptureBuffer { events: VecDeque::new(), overflowed: 0, capacity };
        assert(r@.events =~= Seq::empty());
        r
    }

    /// Adds an event, at the expense of the oldest where the buffer is full.
    pub fn push(&mut self, event: CapturedEvent)
        requires
            old(self)@.within_capacity(),
        ensures
            final(self)@ == old(self)@.pushed(event@),
            final(self)@.within_capacity(),
    {
        let ghost before = self@;
        if self.events.len() >= self.capacity {
            let _oldest: Option<CapturedEvent> = self.events.pop_front();
            if self.overflowed < usize::MAX {
                self.overflowed = self.overflowed + 1;
            }
            assert(event_views(self.events@) =~= before.events.skip(1));
        }
        let ghost kept = event_views(self.events@);
        self.events.push_back(event);
        assert(event_views(self.events@) =~= kept.push(event@));
    }

    /// Copies the events out, oldest first.
    pub fn snapshot(&self) -> (r: Vec<CapturedEvent>)
        ensures
            event_views(r@) == self@.events,
    {
        let mut r: Vec<CapturedEvent> = Vec::new();
        let mut i: usize = 0;
        while i < self.events.len()
            invariant
                i <= self.events@.len(),
                r@.len() == i,
                forall|j: int| 0 <= j < i ==> (#[trigger] r@[j])@ == self.events@[j]@,
            decreases self.events@.len() - i,
        {
            r.push(self.events[i].clone());
            i = i + 1;
        }
        assert(event_views(r@) =~= self@.events);
        r
    }
}

/// Whether events of the target are captured.
pub open spec fn captured_target(target: Seq<char>) -> bool {
    "lean_rs"@.is_prefix_of(target)
}

/// The event that an emission is captured as.
pub open spec fn captured(
    target: Seq<char>,
    level: TraceLevel,
    name: Seq<char>,
    span: Option<Seq<char>>,
    fields: Seq<EventFieldView>,
) -> CapturedEventView {
    let summary = summarised(fields, fields.len() as int);
    CapturedEventView {
        target,
        level: level_name(level),
        name,
        span,
        code: summary.code,
        message: match summary.message {
            Some(text) => text,
            None => Seq::empty(),
        },
        fields: summary.others,
    }
}

fn capture_event(
    target: &str,
    level: TraceLevel,
    name: &'static str,
    span: Option<String>,
    fields: &Vec<EventField>,
) -> (r: CapturedEvent)
    ensures
        r@ == captured(target@, level, name@, optional_text(span), field_views(fields@)),
{
    let visitor: FieldVisitor = FieldVisitor::record_all(fields);
    let message: String = match visitor.message {
        Some(text) => text,
        None => String::new(),
    };
    CapturedEvent {
        target: target.to_owned(),
        level: level_str(level),
        name,
        span,
        code: visitor.code,
        message,
        fields: visitor.other_fields,
    }
}

/// A collector of this library's events.
#[must_use]
#[derive(Debug)]
pub struct DiagnosticCapture {
    buffer: CaptureBuffer,
}

impl View for DiagnosticCapture {
    type V = CaptureView;

    closed spec fn view(&self) -> CaptureView {
        self.buffer@
    }
}

impl DiagnosticCapture {
    /// The buffer stays within its capacity.
    #[verifier::type_invariant]
    spec fn well_formed(self) -> bool {
        self.buffer@.within_capacity()
    }

    /// Starts a capture of the default capacity.
    pub fn install() -> (r: DiagnosticCapture)
        ensures
            r@ == (CaptureView {
                events: Seq::empty(),
                overflowed: 0,
                capacity: DIAGNOSTIC_CAPTURE_DEFAULT_CAPACITY,
            }),
    {
        DiagnosticCapture::with_capacity(DIAGNOSTIC_CAPTURE_DEFAULT_CAPACITY)
    }

    /// Starts a capture that keeps up to `capacity` events, but at least one.
    pub fn with_capacity(capacity: usize) -> (r: DiagnosticCapture)
        ensures
            r@ == (CaptureView {
                events: Seq::empty(),
                overflowed: 0,
                capacity: effective_capacity(capacity),
            }),
    {
        DiagnosticCapture { buffer: CaptureBuffer::new(capacity) }
    }

    /// Copies the captured events out, oldest first.
    #[must_use]
    pub fn events(&self) -> (r: Vec<CapturedEvent>)
        ensures
            event_views(r@) == self@.events,
            r@.len() <= self@.capacity,
    {
        proof {
            use_type_invariant(&*self);
        }
        let r: Vec<CapturedEvent> = self.buffer.snapshot();
        assert(event_views(r@).len() == r@.len());
        r
    }

    /// Number of events that were lost because the buffer was full.
    #[must_use]
    pub fn overflowed(&self) -> (r: usize)
        ensures
            r == self@.overflowed,
    {
        self.buffer.overflowed
    }

    /// Number of events that the buffer holds at most.
    #[must_use]
    pub fn capacity(&self) -> (r: usize)
        ensures
            r == self@.capacity,
    {
        self.buffer.capacity
    }

    fn push(&mut self, event: CapturedEvent)
        ensures
            final(self)@ == old(self)@.pushed(event@),
    {
        proof {
            use_type_invariant(&*self);
        }
        let mut current: DiagnosticCapture = DiagnosticCapture::with_capacity(1);
        std::mem::swap(self, &mut current);
        let DiagnosticCapture { mut buffer } = current;
        buffer.push(event);
        *self = DiagnosticCapture { buffer };
    }

    /// Takes note of a span that was opened.
    pub fn on_new_span(
        &mut self,
        target: &str,
        level: TraceLevel,
        span_name: &str,
        fields: &Vec<EventField>,
    )
        ensures
            final(self)@ == (if captured_target(target@) {
                old(self)@.pushed(
                    captured(
                        target@,
                        level,
                        "span_open"@,
                        Some(span_name@),
                        field_views(fields@),
                    ),
                )
            } else {
                old(self)@
            }),
    {
        if starts_with(target, "lean_rs") {
            let event: CapturedEvent = capture_event(
                target,
                level,
                "span_open",
                Some(span_name.to_owned()),
                fields,
            );
            self.push(event);
        }
    }

    /// Takes note of an event. Its span is the one it names, else the current
    /// one.
    pub fn on_event(
        &mut self,
        target: &str,
        level: TraceLevel,
        name: &'static str,
        event_span: Option<String>,
        current_span: Option<String>,
        fields: &Vec<EventField>,
    )
        ensures
            final(self)@ == (if captured_target(target@) {
                old(self)@.pushed(
                    captured(
                        target@,
                        level,
                        name@,
                        if event_span is Some {
                            optional_text(event_span)
                        } else {
                            optional_text(current_span)
                        },
                        field_views(fields@),
                    ),
                )
            } else {
                old(self)@
            }),
    {
        if starts_with(target, "lean_rs") {
            let span: Option<String> = match event_span {
                Some(text) => Some(text),
                None => current_span,
            };
            let event: CapturedEvent = capture_event(target, level, name, span, fields);
            self.push(event);
        }
    }
}

/// A level is named in lower case.
pub proof fn levels_are_named_in_lower_case()
    ensures
        level_name(TraceLevel::Error) == "error"@,
        level_name(TraceLevel::Warn) == "warn"@,
        level_name(TraceLevel::Info) == "info"@,
        level_name(TraceLevel::Debug) == "debug"@,
        level_name(TraceLevel::Trace) == "trace"@,
{
}

/// Only identifiers and variant names are recognised: a text that gives a code is
/// one of the two texts that stand for that code.
pub proof fn recognised_texts_stand_for_their_code(s: Seq<char>, code: LeanDiagnosticCode)
    requires
        code_named(s) == Some(code),
    ensures
        s == code.spec_as_str() || s == code.spec_name(),
{
}

/// A quotation mark more at either end of a text makes no difference, and a text
/// without one at its ends is kept as it is.
pub proof fn quotation_marks_at_the_ends_are_dropped(s: Seq<char>, ch: char)
    ensures
        unquoted(seq!['"'] + s) == unquoted(s),
        unquoted(s + seq!['"']) == unquoted(s),
        ch != '"' ==> unquoted(seq![ch] + s + seq![ch]) == seq![ch] + s + seq![ch],
        ch != '"' ==> unquoted(seq![ch]) == seq![ch],
        unquoted(Seq::empty()) == Seq::<char>::empty(),
    decreases s.len(),
{
    assert((seq!['"'] + s).drop_first() =~= s);
    let longer = s + seq!['"'];
    if s.len() == 0 {
        assert(longer.drop_first() =~= s);
    } else if s[0] == '"' {
        assert(longer.drop_first() =~= s.drop_first() + seq!['"']);
        quotation_marks_at_the_ends_are_dropped(s.drop_first(), ch);
    } else {
        assert(longer.drop_last() =~= s);
    }
}

/// The message of an event is the value of its last field named `message`; an event
/// without such a field has an empty message.
pub proof fn last_message_counts(
    target: Seq<char>,
    level: TraceLevel,
    name: Seq<char>,
    span: Option<Seq<char>>,
    fields: Seq<EventFieldView>,
    last: int,
)
    requires
        -1 <= last < fields.len(),
        last >= 0 ==> fields[last].name == "message"@,
        forall|i: int| last < i < fields.len() ==> (#[trigger] fields[i]).name != "message"@,
    ensures
        last >= 0 ==> captured(target, level, name, span, fields).message == fields[last].value,
        last < 0 ==> captured(target, level, name, span, fields).message.len() == 0,
{
    lemma_last_message(fields, fields.len() as int, last);
}

proof fn lemma_last_message(fields: Seq<EventFieldView>, n: int, last: int)
    requires
        -1 <= last < n <= fields.len() || last == -1 && n == 0,
        last >= 0 ==> fields[last].name == "message"@,
        forall|i: int| last < i < n ==> (#[trigger] fields[i]).name != "message"@,
    ensures
        summarised(fields, n).message == (if last >= 0 {
            Some(fields[last].value)
        } else {
            None
        }),
    decreases n,
{
    reveal_strlit("message");
    reveal_strlit("code");
    assert("message"@.len() == 7 && "code"@.len() == 4);
    if n > 0 && last < n - 1 {
        lemma_last_message(fields, n - 1, last);
    }
}

/// The code of an event is that of the last field named `code` whose value, with
/// quotation marks dropped, is recognised; an event without such a field has none.
pub proof fn last_recognised_code_counts(
    target: Seq<char>,
    level: TraceLevel,
    name: Seq<char>,
    span: Option<Seq<char>>,
    fields: Seq<EventFieldView>,
    last: int,
)
    requires
        -1 <= last < fields.len(),
        last >= 0 ==> fields[last].name == "code"@ && code_named(unquoted(fields[last].value)) is Some,
        forall|i: int|
            last < i < fields.len() && (#[trigger] fields[i]).name == "code"@ ==> code_named(
                unquoted(fields[i].value),
            ) is None,
    ensures
        last >= 0 ==> captured(target, level, name, span, fields).code == code_named(
            unquoted(fields[last].value),
        ),
        last < 0 ==> captured(target, level, name, span, fields).code is None,
{
    lemma_last_code(fields, fields.len() as int, last);
}

proof fn lemma_last_code(fields: Seq<EventFieldView>, n: int, last: int)
    requires
        -1 <= last < n <= fields.len() || last == -1 && n == 0,
        last >= 0 ==> fields[last].name == "code"@ && code_named(unquoted(fields[last].value)) is Some,
        forall|i: int|
            last < i < n && (#[trigger] fields[i]).name == "code"@ ==> code_named(
                unquoted(fields[i].value),
            ) is None,
    ensures
        summarised(fields, n).code == (if last >= 0 {
            code_named(unquoted(fields[last].value))
        } else {
            None
        }),
    decreases n,
{
    if n > 0 && last < n - 1 {
        lemma_last_code(fields, n - 1, last);
    }
}

/// A captured event keeps its target, its level by name, its name and its span, and
/// all fields but those named `code` and `message`, in their order.
pub proof fn events_are_captured_whole(
    target: Seq<char>,
    level: TraceLevel,
    name: Seq<char>,
    span: Option<Seq<char>>,
    fields: Seq<EventFieldView>,
)
    ensures
        captured(target, level, name, span, fields).target == target,
        captured(target, level, name, span, fields).level == level_name(level),
        captured(target, level, name, span, fields).name == name,
        captured(target, level, name, span, fields).span == span,
        captured(target, level, name, span, fields).fields == fields.filter(
            |field: EventFieldView| field.name != "code"@ && field.name != "message"@,
        ),
{
    lemma_others_are_filtered(fields, fields.len() as int);
    assert(fields.take(fields.len() as int) =~= fields);
}

proof fn lemma_others_are_filtered(fields: Seq<EventFieldView>, n: int)
    requires
        0 <= n <= fields.len(),
    ensures
        summarised(fields, n).others == fields.take(n).filter(
            |field: EventFieldView| field.name != "code"@ && field.name != "message"@,
        ),
    decreases n,
{
    reveal(Seq::filter);
    if n > 0 {
        lemma_others_are_filtered(fields, n - 1);
        assert(fields.take(n).drop_last() =~= fields.take(n - 1));
    }
}

/// Events are captured exactly where their target starts with `lean_rs`, whatever
/// follows.
pub proof fn own_targets_are_captured(target: Seq<char>, rest: Seq<char>)
    ensures
        captured_target("lean_rs"@ + rest),
        captured_target(target) ==> target == "lean_rs"@ + target.skip("lean_rs"@.len() as int),
{
    assert("lean_rs"@ =~= ("lean_rs"@ + rest).take("lean_rs"@.len() as int));
    if captured_target(target) {
        assert(target =~= "lean_rs"@ + target.skip("lean_rs"@.len() as int));
    }
}

/// Another event comes behind the others. The buffer never holds more events than its
/// capacity, which is one at least; an event that has to go is the oldest, and is
/// counted as long as the count can hold it.
pub proof fn another_event_comes_last(before: CaptureView, event: CapturedEventView, asked: usize)
    requires
        before.within_capacity(),
    ensures
        before.pushed(event).events.last() == event,
        before.pushed(event).capacity == before.capacity,
        before.pushed(event).events.len() <= before.capacity,
        before.events.len() < before.capacity ==> before.pushed(event).events.drop_last()
            == before.events && before.pushed(event).overflowed == before.overflowed,
        before.events.len() == before.capacity ==> seq![before.events[0]] + before.pushed(
            event,
        ).events.drop_last() == before.events && before.pushed(event).overflowed == (
        if before.overflowed == usize::MAX {
            usize::MAX as int
        } else {
            before.overflowed + 1
        }),
        asked > 0 ==> effective_capacity(asked) == asked,
        asked == 0 ==> effective_capacity(asked) == 1,
        DIAGNOSTIC_CAPTURE_DEFAULT_CAPACITY == 256,
        before.pushed(event).within_capacity(),
        before.events.len() >= 1 ==> !(CaptureView { capacity: 0, ..before }).within_capacity(),
{
    assert(before.events.push(event).drop_last() =~= before.events);
    if before.events.len() == before.capacity {
        assert(seq![before.events[0]] + before.pushed(event).events.drop_last() =~= before.events);
    }
}

/// Events and fields are viewed one by one, part by part.
pub proof fn events_are_viewed_part_by_part(events: Seq<CapturedEvent>, i: int, j: int)
    requires
        0 <= i < events.len(),
        0 <= j < events[i].fields@.len(),
    ensures
        event_views(events).len() == events.len(),
        event_views(events)[i].target == events[i].target@,
        event_views(events)[i].level == events[i].level@,
        event_views(events)[i].name == events[i].name@,
        event_views(events)[i].code == events[i].code,
        event_views(events)[i].message == events[i].message@,
        event_views(events)[i].fields.len() == events[i].fields@.len(),
        event_views(events)[i].fields[j].name == events[i].fields@[j].0@,
        event_views(events)[i].fields[j].value == events[i].fields@[j].1@,
        match events[i].span {
            Some(span) => event_views(events)[i].span == Some(span@),
            None => event_views(events)[i].span is None,
        },
{
}

/// Fields are viewed one by one, name and value apart.
pub proof fn fields_are_viewed_one_by_one(fields: Seq<EventField>, i: int)
    requires
        0 <= i < fields.len(),
    ensures
        field_views(fields).len() == fields.len(),
        field_views(fields)[i].name == fields[i].0@,
        field_views(fields)[i].value == fields[i].1@,
{
}

} // verus!
