//! Lean's `Nat`.
//!
//! A `Nat` up to [`LEAN_MAX_SMALL_NAT`] is a scalar; a greater one is an
//! arbitrary-precision heap number, which the readers here refuse. The boxed
//! `UInt64` and `USize` of [`crate::abi::scalar`] have another shape.

use vstd::prelude::*;

use crate::abi::traits::{conversion_error, reads};
use crate::error::{LeanError, LeanResult, abi_conversion_error};
use crate::runtime::obj::Obj;
use crate::text::{cat2, decimal, decimal_string};

verus! {

/// Greatest `Nat` that is a scalar: one bit of a pointer tells scalars apart.
pub const LEAN_MAX_SMALL_NAT: usize = usize::MAX / 2;

/// The message for a `Nat` that is no scalar.
pub open spec fn bignum_nat_text(tag: u32) -> Seq<char> {
    "expected Lean Nat (scalar-fitting), found object with tag "@ + decimal(tag as nat)
}

fn bignum_nat(found_tag: u32) -> (r: LeanError)
    ensures
        r@ == abi_conversion_error(bignum_nat_text(found_tag)),
{
    conversion_error(
        cat2(
            "expected Lean Nat (scalar-fitting), found object with tag ",
            decimal_string(found_tag as u64).as_str(),
        ),
    )
}

/// Whether `obj` is the `Nat` with the value `n`.
pub open spec fn is_nat(obj: Obj, n: u64) -> bool {
    if n <= LEAN_MAX_SMALL_NAT {
        obj == Obj::Scalar(n as usize)
    } else {
        obj matches Obj::Mpz { negative, limbs } && !negative && limbs@ == seq![n]
    }
}

/// The value of a scalar `Nat`, or why there is none.
pub open spec fn nat_of(obj: Obj) -> Result<usize, Seq<char>> {
    match obj {
        Obj::Scalar(payload) => Ok(payload),
        _ => Err(bignum_nat_text(obj.spec_tag())),
    }
}

/// The value of a scalar `Nat` as a `u64`, or why there is none.
pub open spec fn nat_u64_of(obj: Obj) -> Result<u64, Seq<char>> {
    match nat_of(obj) {
        Ok(n) => Ok(n as u64),
        Err(message) => Err(message),
    }
}

/// Builds the `Nat` with the value `n`.
#[must_use]
pub fn from_u64(n: u64) -> (r: Obj)
    ensures
        is_nat(r, n),
{
    if n <= LEAN_MAX_SMALL_NAT as u64 {
        Obj::Scalar(n as usize)
    } else {
        let limbs: Vec<u64> = vec![n];
        assert(limbs@ =~= seq![n]);
        Obj::Mpz { negative: false, limbs }
    }
}

/// Builds the `Nat` with the value `n`.
#[must_use]
pub fn from_usize(n: usize) -> (r: Obj)
    ensures
        is_nat(r, n as u64),
{
    from_u64(n as u64)
}

/// Reads a scalar `Nat`.
pub fn try_to_u64(obj: Obj) -> (r: LeanResult<u64>)
    ensures
        reads(r, nat_u64_of(obj)),
{
    match try_to_usize(obj) {
        Ok(n) => Ok(n as u64),
        Err(err) => Err(err),
    }
}

/// Reads a scalar `Nat`.
pub fn try_to_usize(obj: Obj) -> (r: LeanResult<usize>)
    ensures
        reads(r, nat_of(obj)),
{
    match obj {
        Obj::Scalar(payload) => Ok(payload),
        _ => Err(bignum_nat(obj.heap_tag())),
    }
}

/// A `Nat` is read back exactly when it is small enough for a scalar; a greater
/// one is refused.
pub proof fn nat_round_trip(obj: Obj, n: u64)
    requires
        is_nat(obj, n),
    ensures
        n <= LEAN_MAX_SMALL_NAT ==> nat_u64_of(obj) == Ok::<u64, Seq<char>>(n),
        n > LEAN_MAX_SMALL_NAT ==> nat_u64_of(obj) is Err,
{
}

/// A `Nat` is a scalar whose payload is the number itself where one bit less than
/// a pointer has can hold it, and otherwise a big number of one limb, which is the
/// number, without a sign.
pub proof fn nats_are_held_as_they_are(obj: Obj, n: u64)
    requires
        is_nat(obj, n),
    ensures
        usize::BITS == 64 ==> (obj is Scalar <==> n < 0x8000_0000_0000_0000),
        usize::BITS == 32 ==> (obj is Scalar <==> n < 0x8000_0000),
        obj matches Obj::Scalar(payload) ==> payload == n,
        obj !is Scalar ==> (obj matches Obj::Mpz { negative, limbs } && !negative && limbs@.len()
            == 1 && limbs@[0] == n),
{
}

/// The number read from a scalar `Nat` is its payload, in either width; what is no
/// scalar is refused.
pub proof fn nats_are_read_as_they_are(obj: Obj)
    ensures
        obj matches Obj::Scalar(payload) ==> (nat_of(obj) matches Ok(n) && n == payload) && (
        nat_u64_of(obj) matches Ok(m) && m == payload),
        obj !is Scalar ==> nat_of(obj) is Err && nat_u64_of(obj) is Err,
{
}

/// A `Nat` that is no scalar is refused by the tag that was found, in either width.
pub proof fn refused_nats_show_their_tag(obj: Obj)
    requires
        obj !is Scalar,
    ensures
        nat_of(obj) == Err::<usize, Seq<char>>(
            "expected Lean Nat (scalar-fitting), found object with tag "@ + decimal(
                obj.spec_tag() as nat,
            ),
        ),
        nat_u64_of(obj) == Err::<u64, Seq<char>>(
            "expected Lean Nat (scalar-fitting), found object with tag "@ + decimal(
                obj.spec_tag() as nat,
            ),
        ),
{
}

} // verus!
