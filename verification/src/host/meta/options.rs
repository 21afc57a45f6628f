//! Bounds on bounded meta services.
//!
//! Setters saturate at the published ceilings; there is no way to go beyond
//! them.

use vstd::prelude::*;
use vstd::string::*;
use vstd::utf8::encode_utf8;

use crate::error::{LEAN_ERROR_MESSAGE_LIMIT, bound_message, bounded_message};
use crate::host::elaboration::{
    LEAN_DIAGNOSTIC_BYTE_LIMIT_DEFAULT, LEAN_DIAGNOSTIC_BYTE_LIMIT_MAX,
    LEAN_HEARTBEAT_LIMIT_DEFAULT, LEAN_HEARTBEAT_LIMIT_MAX,
};
use crate::text::utf8_len;

verus! {

/// How far definitions are unfolded.
#[non_exhaustive]
#[derive(Copy, Clone, Debug, PartialEq, Eq, Structural)]
pub enum LeanMetaTransparency {
    /// Everything but what is marked irreducible.
    Default,
    /// Only what is marked reducible.
    Reducible,
    /// Instances besides.
    Instances,
    /// Everything.
    All,
}

impl LeanMetaTransparency {
    /// The index of Lean's constructor.
    pub open spec fn spec_as_byte(self) -> u8 {
        match self {
            LeanMetaTransparency::Default => 0,
            LeanMetaTransparency::Reducible => 1,
            LeanMetaTransparency::Instances => 2,
            LeanMetaTransparency::All => 3,
        }
    }

    /// The index of Lean's constructor.
    #[must_use]
    pub fn as_byte(self) -> (r: u8)
        ensures
            r == self.spec_as_byte(),
    {
        match self {
            LeanMetaTransparency::Default => 0,
            LeanMetaTransparency::Reducible => 1,
            LeanMetaTransparency::Instances => 2,
            LeanMetaTransparency::All => 3,
        }
    }
}

impl Default for LeanMetaTransparency {
    fn default() -> (r: LeanMetaTransparency)
        ensures
            r == LeanMetaTransparency::Default,
    {
        LeanMetaTransparency::Default
    }
}

/// Distinct transparencies have distinct bytes.
pub proof fn transparency_bytes_are_distinct(a: LeanMetaTransparency, b: LeanMetaTransparency)
    requires
        a.spec_as_byte() == b.spec_as_byte(),
    ensures
        a == b,
{
}

/// Mathematical value of [`LeanMetaOptions`].
pub struct LeanMetaOptionsView {
    pub namespace_context: Seq<char>,
    pub heartbeat_limit: u64,
    pub diagnostic_byte_limit: usize,
    pub transparency: LeanMetaTransparency,
}

impl LeanMetaOptionsView {
    /// Nothing exceeds its ceiling.
    pub open spec fn within_limits(self) -> bool {
        &&& self.heartbeat_limit <= LEAN_HEARTBEAT_LIMIT_MAX
        &&& self.diagnostic_byte_limit <= LEAN_DIAGNOSTIC_BYTE_LIMIT_MAX
        &&& utf8_len(self.namespace_context) <= LEAN_ERROR_MESSAGE_LIMIT
    }
}

/// Bounds on a call of a meta service.
#[derive(Debug)]
pub struct LeanMetaOptions {
    namespace_context: String,
    heartbeat_limit: u64,
    diagnostic_byte_limit: usize,
    transparency: LeanMetaTransparency,
}

impl View for LeanMetaOptions {
    type V = LeanMetaOptionsView;

    closed spec fn view(&self) -> LeanMetaOptionsView {
        LeanMetaOptionsView {
            namespace_context: self.namespace_context@,
            heartbeat_limit: self.heartbeat_limit,
            diagnostic_byte_limit: self.diagnostic_byte_limit,
            transparency: self.transparency,
        }
    }
}

/// The bounds that hold unless told otherwise.
pub open spec fn default_meta_options() -> LeanMetaOptionsView {
    LeanMetaOptionsView {
        namespace_context: Seq::empty(),
        heartbeat_limit: LEAN_HEARTBEAT_LIMIT_DEFAULT,
        diagnostic_byte_limit: LEAN_DIAGNOSTIC_BYTE_LIMIT_DEFAULT,
        transparency: LeanMetaTransparency::Default,
    }
}

impl Clone for LeanMetaOptions {
    fn clone(&self) -> (r: LeanMetaOptions)
        ensures
            r@ == self@,
    {
        proof {
            use_type_invariant(&*self);
        }
        LeanMetaOptions {
            namespace_context: self.namespace_context.clone(),
            heartbeat_limit: self.heartbeat_limit,
            diagnostic_byte_limit: self.diagnostic_byte_limit,
            transparency: self.transparency,
        }
    }
}

impl LeanMetaOptions {
    /// Nothing exceeds its ceiling.
    #[verifier::type_invariant]
    spec fn well_formed(self) -> bool {
        self@.within_limits()
    }

    /// The bounds that hold unless told otherwise.
    #[must_use]
    pub fn new() -> (r: LeanMetaOptions)
        ensures
            r@ == default_meta_options(),
    {
        let r: LeanMetaOptions = LeanMetaOptions {
            namespace_context: String::new(),
            heartbeat_limit: LEAN_HEARTBEAT_LIMIT_DEFAULT,
            diagnostic_byte_limit: LEAN_DIAGNOSTIC_BYTE_LIMIT_DEFAULT,
            transparency: LeanMetaTransparency::Default,
        };
        assert(r@ == default_meta_options());
        r
    }

    /// Sets the heartbeats that may be taken, up to the ceiling.
    #[must_use]
    pub fn heartbeat_limit(self, heartbeats: u64) -> (r: LeanMetaOptions)
        ensures
            r@ == (LeanMetaOptionsView {
                heartbeat_limit: if heartbeats <= LEAN_HEARTBEAT_LIMIT_MAX {
                    heartbeats
                } else {
                    LEAN_HEARTBEAT_LIMIT_MAX
                },
                ..self@
            }),
    {
        proof {
            use_type_invariant(&self);
        }
        let heartbeat_limit: u64 = if heartbeats <= LEAN_HEARTBEAT_LIMIT_MAX {
            heartbeats
        } else {
            LEAN_HEARTBEAT_LIMIT_MAX
        };
        LeanMetaOptions {
            namespace_context: self.namespace_context,
            heartbeat_limit: heartbeat_limit,
            diagnostic_byte_limit: self.diagnostic_byte_limit,
            transparency: self.transparency,
        }
    }

    /// Sets the bytes of diagnostics that are kept, up to the ceiling.
    #[must_use]
    pub fn diagnostic_byte_limit(self, bytes: usize) -> (r: LeanMetaOptions)
        ensures
            r@ == (LeanMetaOptionsView {
                diagnostic_byte_limit: if bytes <= LEAN_DIAGNOSTIC_BYTE_LIMIT_MAX {
                    bytes
                } else {
                    LEAN_DIAGNOSTIC_BYTE_LIMIT_MAX
                },
                ..self@
            }),
    {
        proof {
            use_type_invariant(&self);
        }
        let diagnostic_byte_limit: usize = if bytes <= LEAN_DIAGNOSTIC_BYTE_LIMIT_MAX {
            bytes
        } else {
            LEAN_DIAGNOSTIC_BYTE_LIMIT_MAX
        };
        LeanMetaOptions {
            namespace_context: self.namespace_context,
            heartbeat_limit: self.heartbeat_limit,
            diagnostic_byte_limit: diagnostic_byte_limit,
            transparency: self.transparency,
        }
    }

    /// Sets the namespace that names are resolved in, bounded.
    #[must_use]
    pub fn namespace_context(self, ns: &str) -> (r: LeanMetaOptions)
        ensures
            r@ == (LeanMetaOptionsView { namespace_context: bounded_message(ns@), ..self@ }),
    {
        proof {
            use_type_invariant(&self);
        }
        LeanMetaOptions {
            namespace_context: bound_message(ns.to_owned()),
            heartbeat_limit: self.heartbeat_limit,
            diagnostic_byte_limit: self.diagnostic_byte_limit,
            transparency: self.transparency,
        }
    }

    /// Sets how far definitions are unfolded.
    #[must_use]
    pub fn transparency(self, transparency: LeanMetaTransparency) -> (r: LeanMetaOptions)
        ensures
            r@ == (LeanMetaOptionsView { transparency, ..self@ }),
    {
        proof {
            use_type_invariant(&self);
        }
        LeanMetaOptions {
            namespace_context: self.namespace_context,
            heartbeat_limit: self.heartbeat_limit,
            diagnostic_byte_limit: self.diagnostic_byte_limit,
            transparency: transparency,
        }
    }

    /// The namespace that names are resolved in.
    pub fn namespace_context_str(&self) -> (r: &str)
        ensures
            r@ == self@.namespace_context,
            utf8_len(r@) <= LEAN_ERROR_MESSAGE_LIMIT,
    {
        proof {
            use_type_invariant(&*self);
        }
        self.namespace_context.as_str()
    }

    /// The heartbeats that may be taken.
    pub fn heartbeats(&self) -> (r: u64)
        ensures
            r == self@.heartbeat_limit,
            r <= LEAN_HEARTBEAT_LIMIT_MAX,
    {
        proof {
            use_type_invariant(&*self);
        }
        self.heartbeat_limit
    }

    /// The bytes of diagnostics that are kept.
    pub fn diagnostic_byte_limit_usize(&self) -> (r: usize)
        ensures
            r == self@.diagnostic_byte_limit,
            r <= LEAN_DIAGNOSTIC_BYTE_LIMIT_MAX,
    {
        proof {
            use_type_invariant(&*self);
        }
        self.diagnostic_byte_limit
    }

    /// How far definitions are unfolded, as the index of Lean's constructor.
    pub fn transparency_byte(&self) -> (r: u8)
        ensures
            r == self@.transparency.spec_as_byte(),
    {
        self.transparency.as_byte()
    }
}

impl Default for LeanMetaOptions {
    fn default() -> (r: LeanMetaOptions)
        ensures
            r@ == default_meta_options(),
    {
        LeanMetaOptions::new()
    }
}

/// The bounds that hold unless told otherwise, and the ceilings that no bound exceeds.
pub proof fn meta_bounds_are_published(options: LeanMetaOptionsView)
    ensures
        default_meta_options().namespace_context.len() == 0,
        default_meta_options().heartbeat_limit == 200_000,
        default_meta_options().diagnostic_byte_limit == 65_536,
        default_meta_options().transparency is Default,
        options.within_limits() <==> options.heartbeat_limit <= 200_000_000
            && options.diagnostic_byte_limit <= 1_048_576 && encode_utf8(
            options.namespace_context,
        ).len() <= 4096,
{
}

/// The bytes that stand for the transparencies are the indices of Lean's constructors.
pub proof fn transparency_bytes_are_stable()
    ensures
        LeanMetaTransparency::Default.spec_as_byte() == 0,
        LeanMetaTransparency::Reducible.spec_as_byte() == 1,
        LeanMetaTransparency::Instances.spec_as_byte() == 2,
        LeanMetaTransparency::All.spec_as_byte() == 3,
{
}

} // verus!
