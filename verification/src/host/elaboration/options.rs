//! Bounds on elaboration.
//!
//! Setters saturate at the published ceilings; there is no way to go beyond
//! them.

use vstd::prelude::*;
use vstd::string::*;
use vstd::utf8::encode_utf8;

use crate::error::{LEAN_ERROR_MESSAGE_LIMIT, bound_message, bounded_message};
use crate::text::{lemma_utf8_len_range, utf8_len};

verus! {

/// Heartbeats that elaboration may take unless told otherwise.
pub const LEAN_HEARTBEAT_LIMIT_DEFAULT: u64 = 200_000;

/// Heartbeats that elaboration may be given at most.
pub const LEAN_HEARTBEAT_LIMIT_MAX: u64 = 200_000_000;

/// Bytes of diagnostics that are kept unless told otherwise.
pub const LEAN_DIAGNOSTIC_BYTE_LIMIT_DEFAULT: usize = 64 * 1024;

/// Bytes of diagnostics that can be asked for at most.
pub const LEAN_DIAGNOSTIC_BYTE_LIMIT_MAX: usize = 1024 * 1024;

/// Name of the source in diagnostics unless told otherwise.
pub const DEFAULT_FILE_LABEL: &'static str = "<elaborate>";

/// Mathematical value of [`LeanElabOptions`].
pub struct LeanElabOptionsView {
    pub namespace_context: Seq<char>,
    pub file_label: Seq<char>,
    pub heartbeat_limit: u64,
    pub diagnostic_byte_limit: usize,
}

impl LeanElabOptionsView {
    /// Nothing exceeds its ceiling.
    pub open spec fn within_limits(self) -> bool {
        &&& self.heartbeat_limit <= LEAN_HEARTBEAT_LIMIT_MAX
        &&& self.diagnostic_byte_limit <= LEAN_DIAGNOSTIC_BYTE_LIMIT_MAX
        &&& utf8_len(self.namespace_context) <= LEAN_ERROR_MESSAGE_LIMIT
        &&& utf8_len(self.file_label) <= LEAN_ERROR_MESSAGE_LIMIT
    }
}

/// Bounds on elaboration.
#[derive(Debug)]
pub struct LeanElabOptions {
    namespace_context: String,
    file_label: String,
    heartbeat_limit: u64,
    diagnostic_byte_limit: usize,
}

impl View for LeanElabOptions {
    type V = LeanElabOptionsView;

    closed spec fn view(&self) -> LeanElabOptionsView {
        LeanElabOptionsView {
            namespace_context: self.namespace_context@,
            file_label: self.file_label@,
            heartbeat_limit: self.heartbeat_limit,
            diagnostic_byte_limit: self.diagnostic_byte_limit,
        }
    }
}

/// The bounds that hold unless told otherwise.
pub open spec fn default_elab_options() -> LeanElabOptionsView {
    LeanElabOptionsView {
        namespace_context: Seq::empty(),
        file_label: DEFAULT_FILE_LABEL@,
        heartbeat_limit: LEAN_HEARTBEAT_LIMIT_DEFAULT,
        diagnostic_byte_limit: LEAN_DIAGNOSTIC_BYTE_LIMIT_DEFAULT,
    }
}

impl Clone for LeanElabOptions {
    fn clone(&self) -> (r: LeanElabOptions)
        ensures
            r@ == self@,
    {
        proof {
            use_type_invariant(&*self);
        }
        LeanElabOptions {
            namespace_context: self.namespace_context.clone(),
            file_label: self.file_label.clone(),
            heartbeat_limit: self.heartbeat_limit,
            diagnostic_byte_limit: self.diagnostic_byte_limit,
        }
    }
}

impl LeanElabOptions {
    /// Nothing exceeds its ceiling.
    #[verifier::type_invariant]
    spec fn well_formed(self) -> bool {
        self@.within_limits()
    }

    /// The bounds that hold unless told otherwise.
    #[must_use]
    pub fn new() -> (r: LeanElabOptions)
        ensures
            r@ == default_elab_options(),
    {
        proof {
            reveal_strlit("<elaborate>");
            lemma_utf8_len_range(DEFAULT_FILE_LABEL@);
        }
        let r: LeanElabOptions = LeanElabOptions {
            namespace_context: String::new(),
            file_label: DEFAULT_FILE_LABEL.to_owned(),
            heartbeat_limit: LEAN_HEARTBEAT_LIMIT_DEFAULT,
            diagnostic_byte_limit: LEAN_DIAGNOSTIC_BYTE_LIMIT_DEFAULT,
        };
        assert(r@ == default_elab_options());
        r
    }

    /// Sets the heartbeats that may be taken, up to the ceiling.
    #[must_use]
    pub fn heartbeat_limit(self, heartbeats: u64) -> (r: LeanElabOptions)
        ensures
            r@ == (LeanElabOptionsView {
                heartbeat_limit: if heartbeats <= LEAN_HEARTBEAT_LIMIT_MAX {
                    heartbeats
                } else {
                    LEAN_HEARTBEAT_LIMIT_MAX
                },
                ..self@
            }),
    {
        proof {
            use_type_invariant(&self);
        }
        let heartbeat_limit: u64 = if heartbeats <= LEAN_HEARTBEAT_LIMIT_MAX {
            heartbeats
        } else {
            LEAN_HEARTBEAT_LIMIT_MAX
        };
        LeanElabOptions {
            namespace_context: self.namespace_context,
            file_label: self.file_label,
            heartbeat_limit: heartbeat_limit,
            diagnostic_byte_limit: self.diagnostic_byte_limit,
        }
    }

    /// Sets the bytes of diagnostics that are kept, up to the ceiling.
    #[must_use]
    pub fn diagnostic_byte_limit(self, bytes: usize) -> (r: LeanElabOptions)
        ensures
            r@ == (LeanElabOptionsView {
                diagnostic_byte_limit: if bytes <= LEAN_DIAGNOSTIC_BYTE_LIMIT_MAX {
                    bytes
                } else {
                    LEAN_DIAGNOSTIC_BYTE_LIMIT_MAX
                },
                ..self@
            }),
    {
        proof {
            use_type_invariant(&self);
        }
        let diagnostic_byte_limit: usize = if bytes <= LEAN_DIAGNOSTIC_BYTE_LIMIT_MAX {
            bytes
        } else {
            LEAN_DIAGNOSTIC_BYTE_LIMIT_MAX
        };
        LeanElabOptions {
            namespace_context: self.namespace_context,
            file_label: self.file_label,
            heartbeat_limit: self.heartbeat_limit,
            diagnostic_byte_limit: diagnostic_byte_limit,
        }
    }

    /// Sets the namespace that names are resolved in, bounded.
    #[must_use]
    pub fn namespace_context(self, ns: &str) -> (r: LeanElabOptions)
        ensures
            r@ == (LeanElabOptionsView { namespace_context: bounded_message(ns@), ..self@ }),
    {
        proof {
            use_type_invariant(&self);
        }
        LeanElabOptions {
            namespace_context: bound_message(ns.to_owned()),
            file_label: self.file_label,
            heartbeat_limit: self.heartbeat_limit,
            diagnostic_byte_limit: self.diagnostic_byte_limit,
        }
    }

    /// Sets the name of the source in diagnostics, bounded.
    #[must_use]
    pub fn file_label(self, label: &str) -> (r: LeanElabOptions)
        ensures
            r@ == (LeanElabOptionsView { file_label: bounded_message(label@), ..self@ }),
    {
        proof {
            use_type_invariant(&self);
        }
        LeanElabOptions {
            namespace_context: self.namespace_context,
            file_label: bound_message(label.to_owned()),
            heartbeat_limit: self.heartbeat_limit,
            diagnostic_byte_limit: self.diagnostic_byte_limit,
        }
    }

    /// The namespace that names are resolved in.
    pub fn namespace_context_str(&self) -> (r: &str)
        ensures
            r@ == self@.namespace_context,
            utf8_len(r@) <= LEAN_ERROR_MESSAGE_LIMIT,
    {
        proof {
            use_type_invariant(&*self);
        }
        self.namespace_context.as_str()
    }

    /// The name of the source in diagnostics.
    pub fn file_label_str(&self) -> (r: &str)
        ensures
            r@ == self@.file_label,
            utf8_len(r@) <= LEAN_ERROR_MESSAGE_LIMIT,
    {
        proof {
            use_type_invariant(&*self);
        }
        self.file_label.as_str()
    }

    /// The heartbeats that may be taken.
    pub fn heartbeats(&self) -> (r: u64)
        ensures
            r == self@.heartbeat_limit,
            r <= LEAN_HEARTBEAT_LIMIT_MAX,
    {
        proof {
            use_type_invariant(&*self);
        }
        self.heartbeat_limit
    }

    /// The bytes of diagnostics that are kept.
    pub fn diagnostic_byte_limit_usize(&self) -> (r: usize)
        ensures
            r == self@.diagnostic_byte_limit,
            r <= LEAN_DIAGNOSTIC_BYTE_LIMIT_MAX,
    {
        proof {
            use_type_invariant(&*self);
        }
        self.diagnostic_byte_limit
    }
}

impl Default for LeanElabOptions {
    fn default() -> (r: LeanElabOptions)
        ensures
            r@ == default_elab_options(),
    {
        LeanElabOptions::new()
    }
}

/// The bounds that hold unless told otherwise, and the ceilings that no bound exceeds.
pub proof fn elaboration_bounds_are_published(options: LeanElabOptionsView)
    ensures
        default_elab_options().namespace_context.len() == 0,
        default_elab_options().file_label == "<elaborate>"@,
        default_elab_options().heartbeat_limit == 200_000,
        default_elab_options().diagnostic_byte_limit == 65_536,
        options.within_limits() <==> options.heartbeat_limit <= 200_000_000
            && options.diagnostic_byte_limit <= 1_048_576 && encode_utf8(
            options.namespace_context,
        ).len() <= 4096 && encode_utf8(options.file_label).len() <= 4096,
{
}

} // verus!
