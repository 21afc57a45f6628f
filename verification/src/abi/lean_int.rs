//! Lean's `Int`.
//!
//! An `Int` within the bounds of a machine `int` is a scalar that holds its
//! two's complement; any other is an arbitrary-precision heap number, which the
//! readers here refuse.

use vstd::arithmetic::div_mod::lemma_fundamental_div_mod_converse;
use vstd::prelude::*;
use vstd::string::*;

use crate::abi::traits::{conversion_error, reads};
use crate::error::{LeanError, LeanResult, abi_conversion_error};
use crate::runtime::obj::Obj;
use crate::text::{cat2, decimal, decimal_string};

verus! {

/// Greatest `Int` that is a scalar.
pub open spec fn spec_max_small_int() -> int {
    if usize::BITS == 64 {
        0x7fff_ffff
    } else {
        0x3fff_ffff
    }
}

/// Smallest `Int` that is a scalar.
pub open spec fn spec_min_small_int() -> int {
    if usize::BITS == 64 {
        -0x8000_0000
    } else {
        -0x4000_0000
    }
}

/// Greatest `Int` that is a scalar.
pub fn max_small_int() -> (r: i64)
    ensures
        r == spec_max_small_int(),
{
    if usize::BITS == 64 {
        0x7fff_ffff
    } else {
        0x3fff_ffff
    }
}

/// Smallest `Int` that is a scalar.
pub fn min_small_int() -> (r: i64)
    ensures
        r == spec_min_small_int(),
{
    if usize::BITS == 64 {
        -0x8000_0000
    } else {
        -0x4000_0000
    }
}

/// The payload of the scalar `Int` with the value `n`: its two's complement in
/// the bits that a scalar has.
pub open spec fn int_payload(n: i64) -> int {
    if n >= 0 {
        n as int
    } else {
        n + usize::MAX / 2 + 1
    }
}

/// The value of the scalar `Int` with the given payload: on 64-bit hosts the low
/// 32 bits, on 32-bit hosts all 31, each read as two's complement.
pub open spec fn int_of_payload(payload: usize) -> int {
    if usize::BITS == 64 {
        let low = payload as int % 0x1_0000_0000;
        if low < 0x8000_0000 {
            low
        } else {
            low - 0x1_0000_0000
        }
    } else {
        let low = payload as int % 0x8000_0000;
        if low < 0x4000_0000 {
            low
        } else {
            low - 0x8000_0000
        }
    }
}

/// Whether `obj` is the `Int` with the value `n`.
pub open spec fn is_int(obj: Obj, n: i64) -> bool {
    if spec_min_small_int() <= n <= spec_max_small_int() {
        obj == Obj::Scalar(int_payload(n) as usize)
    } else {
        obj matches Obj::Mpz { negative, limbs } && negative == (n < 0) && limbs@ == seq![
            (if n < 0 {
                -n
            } else {
                n as int
            }) as u64,
        ]
    }
}

/// The message for an `Int` that is no scalar.
pub open spec fn bignum_int_text(tag: u32) -> Seq<char> {
    "expected Lean Int (scalar-fitting), found object with tag "@ + decimal(tag as nat)
}

/// The value of a scalar `Int`, or why there is none.
pub open spec fn int_of(obj: Obj) -> Result<i64, Seq<char>> {
    match obj {
        Obj::Scalar(payload) => Ok(int_of_payload(payload) as i64),
        _ => Err(bignum_int_text(obj.spec_tag())),
    }
}

/// The value of a scalar `Int` as an `isize`, or why there is none.
pub open spec fn int_isize_of(obj: Obj) -> Result<isize, Seq<char>> {
    match int_of(obj) {
        Ok(n) => if isize::MIN <= n <= isize::MAX {
            Ok(n as isize)
        } else {
            Err("Lean Int value does not fit Rust isize"@)
        },
        Err(message) => Err(message),
    }
}

fn bignum_int(found_tag: u32) -> (r: LeanError)
    ensures
        r@ == abi_conversion_error(bignum_int_text(found_tag)),
{
    conversion_error(
        cat2(
            "expected Lean Int (scalar-fitting), found object with tag ",
            decimal_string(found_tag as u64).as_str(),
        ),
    )
}

fn out_of_range_isize() -> (r: LeanError)
    ensures
        r@ == abi_conversion_error("Lean Int value does not fit Rust isize"@),
{
    conversion_error("Lean Int value does not fit Rust isize".to_owned())
}

/// Builds the `Int` with the value `n`.
#[must_use]
pub fn from_i64(n: i64) -> (r: Obj)
    ensures
        is_int(r, n),
{
    if min_small_int() <= n && n <= max_small_int() {
        if n >= 0 {
            Obj::Scalar(n as usize)
        } else {
            Obj::Scalar(usize::MAX / 2 - (-(n + 1)) as usize)
        }
    } else if n >= 0 {
        let limbs: Vec<u64> = vec![n as u64];
        assert(limbs@ =~= seq![n as u64]);
        Obj::Mpz { negative: false, limbs }
    } else {
        let magnitude: u64 = (-(n + 1)) as u64 + 1;
        let limbs: Vec<u64> = vec![magnitude];
        assert(limbs@ =~= seq![(-n) as u64]);
        Obj::Mpz { negative: true, limbs }
    }
}

/// Builds the `Int` with the value `n`.
#[must_use]
pub fn from_isize(n: isize) -> (r: Obj)
    ensures
        is_int(r, n as i64),
{
    from_i64(n as i64)
}

/// Reads a scalar `Int`.
pub fn try_to_i64(obj: Obj) -> (r: LeanResult<i64>)
    ensures
        reads(r, int_of(obj)),
{
    match obj {
        Obj::Scalar(payload) => {
            if usize::BITS == 64 {
                let low: i64 = (payload as u64 % 0x1_0000_0000) as i64;
                if low < 0x8000_0000 {
                    Ok(low)
                } else {
                    Ok(low - 0x1_0000_0000)
                }
            } else {
                let low: i64 = (payload as u64 % 0x8000_0000) as i64;
                if low < 0x4000_0000 {
                    Ok(low)
                } else {
                    Ok(low - 0x8000_0000)
                }
            }
        },
        _ => Err(bignum_int(obj.heap_tag())),
    }
}

/// Reads a scalar `Int`.
pub fn try_to_isize(obj: Obj) -> (r: LeanResult<isize>)
    ensures
        reads(r, int_isize_of(obj)),
{
    match try_to_i64(obj) {
        Ok(n) => if isize::MIN as i64 <= n && n <= isize::MAX as i64 {
            Ok(n as isize)
        } else {
            Err(out_of_range_isize())
        },
        Err(err) => Err(err),
    }
}

/// An `Int` is read back when it is small enough for a scalar; any other is
/// refused.
pub proof fn int_round_trip(obj: Obj, n: i64)
    requires
        is_int(obj, n),
    ensures
        spec_min_small_int() <= n <= spec_max_small_int() ==> int_of(obj) == Ok::<i64, Seq<char>>(
            n,
        ),
        n < spec_min_small_int() || n > spec_max_small_int() ==> int_of(obj) is Err,
{
    if spec_min_small_int() <= n <= spec_max_small_int() {
        let payload = int_payload(n);
        if usize::BITS == 64 {
            assert(usize::MAX == 0xffff_ffff_ffff_ffff);
            if n < 0 {
                assert(payload == 0x7fff_ffff * 0x1_0000_0000 + (n + 0x1_0000_0000));
                lemma_fundamental_div_mod_converse(
                    payload,
                    0x1_0000_0000,
                    0x7fff_ffff,
                    n + 0x1_0000_0000,
                );
            } else {
                lemma_fundamental_div_mod_converse(payload, 0x1_0000_0000, 0, n as int);
            }
        } else {
            assert(usize::MAX == 0xffff_ffff);
            if n < 0 {
                lemma_fundamental_div_mod_converse(payload, 0x8000_0000, 0, n + 0x8000_0000);
            } else {
                lemma_fundamental_div_mod_converse(payload, 0x8000_0000, 0, n as int);
            }
        }
    }
}

/// A scalar `Int` holds its value in two's complement: the payload takes up the
/// bits of a pointer but one, and differs from the value by a multiple of two to
/// the number of those bits. A negative value has its top bits set, so that the
/// payload of -1 has all of them set and each smaller value a smaller payload.
/// The scalars are the values of a signed number of 32 bits on 64-bit hosts, of 31
/// bits on 32-bit hosts.
pub proof fn int_scalars_are_twos_complement(obj: Obj, n: i64)
    requires
        is_int(obj, n),
    ensures
        usize::BITS == 64 ==> (obj is Scalar <==> -0x8000_0000 <= n < 0x8000_0000),
        usize::BITS == 32 ==> (obj is Scalar <==> -0x4000_0000 <= n < 0x4000_0000),
        usize::BITS == 64 ==> (obj matches Obj::Scalar(payload) ==> payload
            < 0x8000_0000_0000_0000 && (payload - n) % 0x8000_0000_0000_0000 == 0),
        usize::BITS == 32 ==> (obj matches Obj::Scalar(payload) ==> payload < 0x8000_0000 && (
        payload - n) % 0x8000_0000 == 0),
        n == -1 ==> (obj matches Obj::Scalar(payload) && 2 * payload + 1 == usize::MAX),
{
    if usize::BITS == 64 {
        assert(usize::MAX == 0xffff_ffff_ffff_ffff);
    } else {
        assert(usize::MAX == 0xffff_ffff);
    }
}

/// The value read from a scalar `Int` is the signed number that agrees with the
/// payload in its low bits: the one of 32 bits that is congruent to it modulo two
/// to the 32nd on 64-bit hosts, the one of 31 bits that is congruent to it modulo
/// two to the 31st on 32-bit hosts.
pub proof fn int_scalars_are_read_as_twos_complement(payload: usize)
    ensures
        int_of(Obj::Scalar(payload)) is Ok,
        usize::BITS == 64 ==> (int_of(Obj::Scalar(payload)) matches Ok(n) ==> -0x8000_0000 <= n
            < 0x8000_0000 && (payload - n) % 0x1_0000_0000 == 0),
        usize::BITS == 32 ==> (int_of(Obj::Scalar(payload)) matches Ok(n) ==> -0x4000_0000 <= n
            < 0x4000_0000 && (payload - n) % 0x8000_0000 == 0),
{
}

/// An `Int` that is no scalar is a big number of one limb, which is its magnitude,
/// and a sign.
pub proof fn int_bignums_hold_sign_and_magnitude(obj: Obj, n: i64)
    requires
        is_int(obj, n),
        obj !is Scalar,
    ensures
        obj matches Obj::Mpz { negative, limbs } && limbs@.len() == 1 && (if negative {
            n < 0 && n == -limbs@[0]
        } else {
            n > 0 && n == limbs@[0]
        }),
{
}

/// A pointer-sized reading agrees with the wide one wherever the value fits, and
/// is refused nowhere else but on what is no scalar.
pub proof fn int_isize_reading_agrees(obj: Obj)
    ensures
        int_isize_of(obj) matches Ok(n) ==> int_of(obj) == Ok::<i64, Seq<char>>(n as i64),
        int_isize_of(obj) is Ok <==> obj is Scalar,
{
    if let Obj::Scalar(payload) = obj {
        int_scalars_are_read_as_twos_complement(payload);
    }
}

/// An `Int` that is no scalar is refused by the tag that was found, in either width.
pub proof fn refused_ints_show_their_tag(obj: Obj)
    requires
        obj !is Scalar,
    ensures
        int_of(obj) == Err::<i64, Seq<char>>(
            "expected Lean Int (scalar-fitting), found object with tag "@ + decimal(
                obj.spec_tag() as nat,
            ),
        ),
        int_isize_of(obj) == Err::<isize, Seq<char>>(
            "expected Lean Int (scalar-fitting), found object with tag "@ + decimal(
                obj.spec_tag() as nat,
            ),
        ),
{
}

/// The bounds of the scalars are those of a signed number of 32 bits on 64-bit hosts,
/// of 31 bits on 32-bit hosts.
pub proof fn scalar_int_bounds()
    ensures
        usize::BITS == 64 ==> spec_min_small_int() == -0x8000_0000 && spec_max_small_int()
            == 0x7fff_ffff,
        usize::BITS == 32 ==> spec_min_small_int() == -0x4000_0000 && spec_max_small_int()
            == 0x3fff_ffff,
{
}

} // verus!
