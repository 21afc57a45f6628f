//! Errors of runtime initialization on its own, for hosts that do nothing but
//! bring the runtime up.

use vstd::prelude::*;
use vstd::std_specs::convert::FromSpecImpl;
use vstd::string::*;

use crate::error::{PanicPayload, kept_of};
use crate::text::{bounded, bounding_keeps_the_longest_prefix, cat2, truncate_utf8, utf8_len};

verus! {

/// Byte limit on the message of an initialization failure.
pub const INIT_ERROR_MESSAGE_LIMIT: usize = 4096;

/// Result of bringing the runtime up.
pub type LeanResult<T> = Result<T, LeanError>;

/// Why the runtime is not available.
#[non_exhaustive]
#[derive(Clone, Debug)]
pub enum LeanError {
    /// The runtime could not be initialized.
    Init(InitError),
}

/// Why initialization failed.
#[non_exhaustive]
#[derive(Clone, Debug)]
pub enum InitError {
    /// The initializer panicked.
    RuntimePanic { message: String },
}

impl InitError {
    /// The failure's rendering.
    pub open spec fn text(self) -> Seq<char> {
        match self {
            InitError::RuntimePanic { message } => {
                "Lean runtime initialization panicked: "@ + message@
            },
        }
    }

    /// The message that a panic with the given payload gives rise to.
    pub open spec fn panic_message(payload: PanicPayload) -> Seq<char> {
        bounded(
            match payload.text() {
                Some(text) => text,
                None => "Lean runtime initialization panicked with a non-string payload"@,
            },
            INIT_ERROR_MESSAGE_LIMIT as nat,
        )
    }

    /// Describes an initializer that panicked.
    pub fn runtime_panic(payload: &PanicPayload) -> (r: InitError)
        ensures
            r matches InitError::RuntimePanic { message } && message@ == InitError::panic_message(
                *payload,
            ) && utf8_len(message@) <= INIT_ERROR_MESSAGE_LIMIT,
    {
        let raw: &str = match payload {
            PanicPayload::StaticStr(s) => s,
            PanicPayload::Owned(s) => s.as_str(),
            PanicPayload::Opaque => {
                "Lean runtime initialization panicked with a non-string payload"
            },
        };
        InitError::RuntimePanic { message: bound_message(raw, INIT_ERROR_MESSAGE_LIMIT) }
    }

    /// Renders the failure.
    pub fn render(&self) -> (r: String)
        ensures
            r@ == self.text(),
    {
        match self {
            InitError::RuntimePanic { message } => cat2(
                "Lean runtime initialization panicked: ",
                message.as_str(),
            ),
        }
    }
}

impl From<InitError> for LeanError {
    fn from(err: InitError) -> (r: LeanError) {
        LeanError::Init(err)
    }
}

impl FromSpecImpl<InitError> for LeanError {
    open spec fn obeys_from_spec() -> bool {
        true
    }

    open spec fn from_spec(err: InitError) -> LeanError {
        LeanError::Init(err)
    }
}

impl LeanError {
    /// The error's rendering.
    pub open spec fn text(self) -> Seq<char> {
        match self {
            LeanError::Init(err) => "lean-rs: "@ + err.text(),
        }
    }

    /// Renders the error.
    pub fn render(&self) -> (r: String)
        ensures
            r@ == self.text(),
    {
        match self {
            LeanError::Init(err) => cat2("lean-rs: ", err.render().as_str()),
        }
    }
}

/// Cuts `s` to at most `limit` bytes, at a character boundary.
pub fn bound_message(s: &str, limit: usize) -> (r: String)
    ensures
        r@ == bounded(s@, limit as nat),
        utf8_len(r@) <= limit,
{
    truncate_utf8(s.to_owned(), limit)
}

/// An initializer that panicked with a string is reported by that string, as far as
/// 4096 bytes of UTF-8 go; one that panicked with anything else by a fixed text. A
/// rendered failure names the library and ends with the message.
pub proof fn init_panics_are_reported(payload: PanicPayload, message: String)
    ensures
        payload matches PanicPayload::StaticStr(text) ==> kept_of(
            text@,
            InitError::panic_message(payload),
        ),
        payload matches PanicPayload::Owned(text) ==> kept_of(
            text@,
            InitError::panic_message(payload),
        ),
        payload is Opaque ==> kept_of(
            "Lean runtime initialization panicked with a non-string payload"@,
            InitError::panic_message(payload),
        ),
        LeanError::Init(InitError::RuntimePanic { message }).text() == "lean-rs: "@ + (
        "Lean runtime initialization panicked: "@ + message@),
{
    bounding_keeps_the_longest_prefix(
        match payload {
            PanicPayload::StaticStr(text) => text@,
            PanicPayload::Owned(text) => text@,
            PanicPayload::Opaque => {
                "Lean runtime initialization panicked with a non-string payload"@
            },
        },
        4096,
    );
}

} // verus!
