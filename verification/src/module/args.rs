//! Argument lists of exported Lean functions.
//!
//! A tuple of up to twelve values is marshalled value by value into the form in
//! which the foreign call takes it.

use vstd::prelude::*;
use vstd::string::*;
use vstd::utf8::{char_is_scalar, encode_utf8};

use crate::abi::traits::{LeanAbi, LeanModel};
use crate::module::signature::{
    LeanExportAbiRepr, LeanExportArgAbi, LeanExportOwnership, arg_abi, export_abi_arg_for,
};
use crate::runtime::obj::Obj;

verus! {

/// An argument as the foreign call takes it.
#[derive(Debug)]
pub enum CArg {
    /// A `u8`.
    U8(u8),
    /// A `u16`.
    U16(u16),
    /// A `u32`.
    U32(u32),
    /// A `u64`.
    U64(u64),
    /// A `usize`.
    Usize(usize),
    /// A `i8`.
    I8(i8),
    /// A `i16`.
    I16(i16),
    /// A `i32`.
    I32(i32),
    /// A `i64`.
    I64(i64),
    /// A `isize`.
    Isize(isize),
    /// A `Obj`.
    Object(Obj),
}

/// A type that a foreign call takes as it is.
pub trait CValue: Sized {
    /// The value that an argument holds, where it is of this type.
    spec fn held_by(arg: CArg) -> Option<Self>;

    /// Makes an argument of the value.
    fn into_arg(self) -> (arg: CArg)
        ensures
            Self::held_by(arg) == Some(self),
    ;
}

impl CValue for u8 {
    open spec fn held_by(arg: CArg) -> Option<u8> {
        match arg {
            CArg::U8(value) => Some(value),
            _ => None,
        }
    }

    fn into_arg(self) -> (arg: CArg) {
        CArg::U8(self)
    }
}

impl CValue for u16 {
    open spec fn held_by(arg: CArg) -> Option<u16> {
        match arg {
            CArg::U16(value) => Some(value),
            _ => None,
        }
    }

    fn into_arg(self) -> (arg: CArg) {
        CArg::U16(self)
    }
}

impl CValue for u32 {
    open spec fn held_by(arg: CArg) -> Option<u32> {
        match arg {
            CArg::U32(value) => Some(value),
            _ => None,
        }
    }

    fn into_arg(self) -> (arg: CArg) {
        CArg::U32(self)
    }
}

impl CValue for u64 {
    open spec fn held_by(arg: CArg) -> Option<u64> {
        match arg {
            CArg::U64(value) => Some(value),
            _ => None,
        }
    }

    fn into_arg(self) -> (arg: CArg) {
        CArg::U64(self)
    }
}

impl CValue for usize {
    open spec fn held_by(arg: CArg) -> Option<usize> {
        match arg {
            CArg::Usize(value) => Some(value),
            _ => None,
        }
    }

    fn into_arg(self) -> (arg: CArg) {
        CArg::Usize(self)
    }
}

impl CValue for i8 {
    open spec fn held_by(arg: CArg) -> Option<i8> {
        match arg {
            CArg::I8(value) => Some(value),
            _ => None,
        }
    }

    fn into_arg(self) -> (arg: CArg) {
        CArg::I8(self)
    }
}

impl CValue for i16 {
    open spec fn held_by(arg: CArg) -> Option<i16> {
        match arg {
            CArg::I16(value) => Some(value),
            _ => None,
        }
    }

    fn into_arg(self) -> (arg: CArg) {
        CArg::I16(self)
    }
}

impl CValue for i32 {
    open spec fn held_by(arg: CArg) -> Option<i32> {
        match arg {
            CArg::I32(value) => Some(value),
            _ => None,
        }
    }

    fn into_arg(self) -> (arg: CArg) {
        CArg::I32(self)
    }
}

impl CValue for i64 {
    open spec fn held_by(arg: CArg) -> Option<i64> {
        match arg {
            CArg::I64(value) => Some(value),
            _ => None,
        }
    }

    fn into_arg(self) -> (arg: CArg) {
        CArg::I64(self)
    }
}

impl CValue for isize {
    open spec fn held_by(arg: CArg) -> Option<isize> {
        match arg {
            CArg::Isize(value) => Some(value),
            _ => None,
        }
    }

    fn into_arg(self) -> (arg: CArg) {
        CArg::Isize(self)
    }
}

impl CValue for Obj {
    open spec fn held_by(arg: CArg) -> Option<Obj> {
        match arg {
            CArg::Object(value) => Some(value),
            _ => None,
        }
    }

    fn into_arg(self) -> (arg: CArg) {
        CArg::Object(self)
    }
}

/// Whether an argument represents the value with the given model.
pub open spec fn passes<A: LeanAbi>(model: A::Model, arg: CArg) -> bool
    where A::CRepr: CValue
{
    match <A::CRepr as CValue>::held_by(arg) {
        Some(c) => A::c_encodes(model, c),
        None => false,
    }
}

/// Marks the tuples that can be argument lists.
pub trait SealedArgs {

}

/// The argument list of an exported function.
pub trait LeanArgs: LeanModel + SealedArgs {
    /// The number of arguments.
    spec fn spec_arity() -> nat;

    /// The shapes of the arguments.
    spec fn abi_args() -> Seq<LeanExportArgAbi>;

    /// Whether `args` represent the values with the given model.
    spec fn passed(model: Self::Model, args: Seq<CArg>) -> bool;

    /// The number of arguments.
    fn arity() -> (r: usize)
        ensures
            r == Self::spec_arity(),
    ;

    /// The shapes of the arguments.
    fn export_abi_args() -> (r: Vec<LeanExportArgAbi>)
        ensures
            r@ == Self::abi_args(),
            r@.len() == Self::spec_arity(),
    ;

    /// Marshals the arguments.
    fn into_args(self) -> (r: Vec<CArg>)
        ensures
            Self::passed(self.model(), r@),
            r@.len() == Self::spec_arity(),
    ;
}

impl SealedArgs for () {

}

impl LeanArgs for () {
    open spec fn spec_arity() -> nat {
        0
    }

    open spec fn abi_args() -> Seq<LeanExportArgAbi> {
        Seq::empty()
    }

    open spec fn passed(model: Self::Model, args: Seq<CArg>) -> bool {
        args.len() == 0
    }

    fn arity() -> (r: usize) {
        0
    }

    fn export_abi_args() -> (r: Vec<LeanExportArgAbi>) {
        let r: Vec<LeanExportArgAbi> = Vec::new();
        assert(r@ =~= Self::abi_args());
        r
    }

    fn into_args(self) -> (r: Vec<CArg>) {
        Vec::new()
    }
}

impl<A1: LeanModel> LeanModel for (A1,) {
    type Model = (A1::Model,);

    open spec fn model(&self) -> Self::Model {
        (self.0.model(),)
    }
}

impl<A1> SealedArgs for (A1,) {

}

impl<A1: LeanAbi> LeanArgs for (A1,)
where
    A1::CRepr: CValue,
{
    open spec fn spec_arity() -> nat {
        1
    }

    open spec fn abi_args() -> Seq<LeanExportArgAbi> {
        seq![arg_abi(A1::c_repr())]
    }

    open spec fn passed(model: Self::Model, args: Seq<CArg>) -> bool {
        args.len() == 1
            && passes::<A1>(model.0, args[0])
    }

    fn arity() -> (r: usize) {
        1
    }

    fn export_abi_args() -> (r: Vec<LeanExportArgAbi>) {
        let r: Vec<LeanExportArgAbi> = vec![export_abi_arg_for(A1::export_abi_repr())];
        assert(r@ =~= Self::abi_args());
        r
    }

    fn into_args(self) -> (r: Vec<CArg>) {
        let (a1,) = self;
        vec![a1.into_c().into_arg()]
    }
}

impl<A1, A2> SealedArgs for (A1, A2) {

}

impl<A1: LeanAbi, A2: LeanAbi> LeanArgs for (A1, A2)
where
    A1::CRepr: CValue,
    A2::CRepr: CValue,
{
    open spec fn spec_arity() -> nat {
        2
    }

    open spec fn abi_args() -> Seq<LeanExportArgAbi> {
        seq![arg_abi(A1::c_repr()), arg_abi(A2::c_repr())]
    }

    open spec fn passed(model: Self::Model, args: Seq<CArg>) -> bool {
        args.len() == 2
            && passes::<A1>(model.0, args[0])
            && passes::<A2>(model.1, args[1])
    }

    fn arity() -> (r: usize) {
        2
    }

    fn export_abi_args() -> (r: Vec<LeanExportArgAbi>) {
        let r: Vec<LeanExportArgAbi> = vec![
            export_abi_arg_for(A1::export_abi_repr()), export_abi_arg_for(A2::export_abi_repr()),
        ];
        assert(r@ =~= Self::abi_args());
        r
    }

    fn into_args(self) -> (r: Vec<CArg>) {
        let (a1, a2) = self;
        vec![a1.into_c().into_arg(), a2.into_c().into_arg()]
    }
}

impl<A1, A2, A3> SealedArgs for (A1, A2, A3) {

}

impl<A1: LeanAbi, A2: LeanAbi, A3: LeanAbi> LeanArgs for (A1, A2, A3)
where
    A1::CRepr: CValue,
    A2::CRepr: CValue,
    A3::CRepr: CValue,
{
    open spec fn spec_arity() -> nat {
        3
    }

    open spec fn abi_args() -> Seq<LeanExportArgAbi> {
        seq![arg_abi(A1::c_repr()), arg_abi(A2::c_repr()), arg_abi(A3::c_repr())]
    }

    open spec fn passed(model: Self::Model, args: Seq<CArg>) -> bool {
        args.len() == 3
            && passes::<A1>(model.0, args[0])
            && passes::<A2>(model.1, args[1])
            && passes::<A3>(model.2, args[2])
    }

    fn arity() -> (r: usize) {
        3
    }

    fn export_abi_args() -> (r: Vec<LeanExportArgAbi>) {
        let r: Vec<LeanExportArgAbi> = vec![
            export_abi_arg_for(A1::export_abi_repr()), export_abi_arg_for(A2::export_abi_repr()),
            export_abi_arg_for(A3::export_abi_repr()),
        ];
        assert(r@ =~= Self::abi_args());
        r
    }

    fn into_args(self) -> (r: Vec<CArg>) {
        let (a1, a2, a3) = self;
        vec![a1.into_c().into_arg(), a2.into_c().into_arg(), a3.into_c().into_arg()]
    }
}

impl<
    A1: LeanModel, A2: LeanModel, A3: LeanModel, A4: LeanModel,
> LeanModel for (A1, A2, A3, A4) {
    type Model = (A1::Model, A2::Model, A3::Model, A4::Model);

    open spec fn model(&self) -> Self::Model {
        (self.0.model(), self.1.model(), self.2.model(), self.3.model())
    }
}

impl<A1, A2, A3, A4> SealedArgs for (A1, A2, A3, A4) {

}

impl<A1: LeanAbi, A2: LeanAbi, A3: LeanAbi, A4: LeanAbi> LeanArgs for (A1, A2, A3, A4)
where
    A1::CRepr: CValue,
    A2::CRepr: CValue,
    A3::CRepr: CValue,
    A4::CRepr: CValue,
{
    open spec fn spec_arity() -> nat {
        4
    }

    open spec fn abi_args() -> Seq<LeanExportArgAbi> {
        seq![
            arg_abi(A1::c_repr()), arg_abi(A2::c_repr()), arg_abi(A3::c_repr()),
            arg_abi(A4::c_repr()),
        ]
    }

    open spec fn passed(model: Self::Model, args: Seq<CArg>) -> bool {
        args.len() == 4
            && passes::<A1>(model.0, args[0])
            && passes::<A2>(model.1, args[1])
            && passes::<A3>(model.2, args[2])
            && passes::<A4>(model.3, args[3])
    }

    fn arity() -> (r: usize) {
        4
    }

    fn export_abi_args() -> (r: Vec<LeanExportArgAbi>) {
        let r: Vec<LeanExportArgAbi> = vec![
            export_abi_arg_for(A1::export_abi_repr()), export_abi_arg_for(A2::export_abi_repr()),
            export_abi_arg_for(A3::export_abi_repr()), export_abi_arg_for(A4::export_abi_repr()),
        ];
        assert(r@ =~= Self::abi_args());
        r
    }

    fn into_args(self) -> (r: Vec<CArg>) {
        let (a1, a2, a3, a4) = self;
        vec![
            a1.into_c().into_arg(), a2.into_c().into_arg(), a3.into_c().into_arg(),
            a4.into_c().into_arg(),
        ]
    }
}

impl<
    A1: LeanModel, A2: LeanModel, A3: LeanModel, A4: LeanModel, A5: LeanModel,
> LeanModel for (A1, A2, A3, A4, A5) {
    type Model = (A1::Model, A2::Model, A3::Model, A4::Model, A5::Model);

    open spec fn model(&self) -> Self::Model {
        (self.0.model(), self.1.model(), self.2.model(), self.3.model(), self.4.model())
    }
}

impl<A1, A2, A3, A4, A5> SealedArgs for (A1, A2, A3, A4, A5) {

}

impl<
    A1: LeanAbi, A2: LeanAbi, A3: LeanAbi, A4: LeanAbi, A5: LeanAbi,
> LeanArgs for (A1, A2, A3, A4, A5)
where
    A1::CRepr: CValue,
    A2::CRepr: CValue,
    A3::CRepr: CValue,
    A4::CRepr: CValue,
    A5::CRepr: CValue,
{
    open spec fn spec_arity() -> nat {
        5
    }

    open spec fn abi_args() -> Seq<LeanExportArgAbi> {
        seq![
            arg_abi(A1::c_repr()), arg_abi(A2::c_repr()), arg_abi(A3::c_repr()),
            arg_abi(A4::c_repr()), arg_abi(A5::c_repr()),
        ]
    }

    open spec fn passed(model: Self::Model, args: Seq<CArg>) -> bool {
        args.len() == 5
            && passes::<A1>(model.0, args[0])
            && passes::<A2>(model.1, args[1])
            && passes::<A3>(model.2, args[2])
            && passes::<A4>(model.3, args[3])
            && passes::<A5>(model.4, args[4])
    }

    fn arity() -> (r: usize) {
        5
    }

    fn export_abi_args() -> (r: Vec<LeanExportArgAbi>) {
        let r: Vec<LeanExportArgAbi> = vec![
            export_abi_arg_for(A1::export_abi_repr()), export_abi_arg_for(A2::export_abi_repr()),
            export_abi_arg_for(A3::export_abi_repr()), export_abi_arg_for(A4::export_abi_repr()),
            export_abi_arg_for(A5::export_abi_repr()),
        ];
        assert(r@ =~= Self::abi_args());
        r
    }

    fn into_args(self) -> (r: Vec<CArg>) {
        let (a1, a2, a3, a4, a5) = self;
        vec![
            a1.into_c().into_arg(), a2.into_c().into_arg(), a3.into_c().into_arg(),
            a4.into_c().into_arg(), a5.into_c().into_arg(),
        ]
    }
}

impl<
    A1: LeanModel, A2: LeanModel, A3: LeanModel, A4: LeanModel, A5: LeanModel, A6: LeanModel,
> LeanModel for (A1, A2, A3, A4, A5, A6) {
    type Model = (A1::Model, A2::Model, A3::Model, A4::Model, A5::Model, A6::Model);

    open spec fn model(&self) -> Self::Model {
        (
            self.0.model(), self.1.model(), self.2.model(), self.3.model(), self.4.model(),
            self.5.model(),
        )
    }
}

impl<A1, A2, A3, A4, A5, A6> SealedArgs for (A1, A2, A3, A4, A5, A6) {

}

impl<
    A1: LeanAbi, A2: LeanAbi, A3: LeanAbi, A4: LeanAbi, A5: LeanAbi, A6: LeanAbi,
> LeanArgs for (A1, A2, A3, A4, A5, A6)
where
    A1::CRepr: CValue,
    A2::CRepr: CValue,
    A3::CRepr: CValue,
    A4::CRepr: CValue,
    A5::CRepr: CValue,
    A6::CRepr: CValue,
{
    open spec fn spec_arity() -> nat {
        6
    }

    open spec fn abi_args() -> Seq<LeanExportArgAbi> {
        seq![
            arg_abi(A1::c_repr()), arg_abi(A2::c_repr()), arg_abi(A3::c_repr()),
            arg_abi(A4::c_repr()), arg_abi(A5::c_repr()), arg_abi(A6::c_repr()),
        ]
    }

    open spec fn passed(model: Self::Model, args: Seq<CArg>) -> bool {
        args.len() == 6
            && passes::<A1>(model.0, args[0])
            && passes::<A2>(model.1, args[1])
            && passes::<A3>(model.2, args[2])
            && passes::<A4>(model.3, args[3])
            && passes::<A5>(model.4, args[4])
            && passes::<A6>(model.5, args[5])
    }

    fn arity() -> (r: usize) {
        6
    }

    fn export_abi_args() -> (r: Vec<LeanExportArgAbi>) {
        let r: Vec<LeanExportArgAbi> = vec![
            export_abi_arg_for(A1::export_abi_repr()), export_abi_arg_for(A2::export_abi_repr()),
            export_abi_arg_for(A3::export_abi_repr()), export_abi_arg_for(A4::export_abi_repr()),
            export_abi_arg_for(A5::export_abi_repr()), export_abi_arg_for(A6::export_abi_repr()),
        ];
        assert(r@ =~= Self::abi_args());
        r
    }

    fn into_args(self) -> (r: Vec<CArg>) {
        let (a1, a2, a3, a4, a5, a6) = self;
        vec![
            a1.into_c().into_arg(), a2.into_c().into_arg(), a3.into_c().into_arg(),
            a4.into_c().into_arg(), a5.into_c().into_arg(), a6.into_c().into_arg(),
        ]
    }
}

impl<
    A1: LeanModel, A2: LeanModel, A3: LeanModel, A4: LeanModel, A5: LeanModel, A6: LeanModel,
    A7: LeanModel,
> LeanModel for (A1, A2, A3, A4, A5, A6, A7) {
    type Model = (
        A1::Model, A2::Model, A3::Model, A4::Model, A5::Model, A6::Model, A7::Model,
    );

    open spec fn model(&self) -> Self::Model {
        (
            self.0.model(), self.1.model(), self.2.model(), self.3.model(), self.4.model(),
            self.5.model(), self.6.model(),
        )
    }
}

impl<A1, A2, A3, A4, A5, A6, A7> SealedArgs for (A1, A2, A3, A4, A5, A6, A7) {

}

impl<
    A1: LeanAbi, A2: LeanAbi, A3: LeanAbi, A4: LeanAbi, A5: LeanAbi, A6: LeanAbi, A7: LeanAbi,
> LeanArgs for (A1, A2, A3, A4, A5, A6, A7)
where
    A1::CRepr: CValue,
    A2::CRepr: CValue,
    A3::CRepr: CValue,
    A4::CRepr: CValue,
    A5::CRepr: CValue,
    A6::CRepr: CValue,
    A7::CRepr: CValue,
{
    open spec fn spec_arity() -> nat {
        7
    }

    open spec fn abi_args() -> Seq<LeanExportArgAbi> {
        seq![
            arg_abi(A1::c_repr()), arg_abi(A2::c_repr()), arg_abi(A3::c_repr()),
            arg_abi(A4::c_repr()), arg_abi(A5::c_repr()), arg_abi(A6::c_repr()),
            arg_abi(A7::c_repr()),
        ]
    }

    open spec fn passed(model: Self::Model, args: Seq<CArg>) -> bool {
        args.len() == 7
            && passes::<A1>(model.0, args[0])
            && passes::<A2>(model.1, args[1])
            && passes::<A3>(model.2, args[2])
            && passes::<A4>(model.3, args[3])
            && passes::<A5>(model.4, args[4])
            && passes::<A6>(model.5, args[5])
            && passes::<A7>(model.6, args[6])
    }

    fn arity() -> (r: usize) {
        7
    }

    fn export_abi_args() -> (r: Vec<LeanExportArgAbi>) {
        let r: Vec<LeanExportArgAbi> = vec![
            export_abi_arg_for(A1::export_abi_repr()), export_abi_arg_for(A2::export_abi_repr()),
            export_abi_arg_for(A3::export_abi_repr()), export_abi_arg_for(A4::export_abi_repr()),
            export_abi_arg_for(A5::export_abi_repr()), export_abi_arg_for(A6::export_abi_repr()),
            export_abi_arg_for(A7::export_abi_repr()),
        ];
        assert(r@ =~= Self::abi_args());
        r
    }

    fn into_args(self) -> (r: Vec<CArg>) {
        let (a1, a2, a3, a4, a5, a6, a7) = self;
        vec![
            a1.into_c().into_arg(), a2.into_c().into_arg(), a3.into_c().into_arg(),
            a4.into_c().into_arg(), a5.into_c().into_arg(), a6.into_c().into_arg(),
            a7.into_c().into_arg(),
        ]
    }
}

impl<
    A1: LeanModel, A2: LeanModel, A3: LeanModel, A4: LeanModel, A5: LeanModel, A6: LeanModel,
    A7: LeanModel, A8: LeanModel,
> LeanModel for (A1, A2, A3, A4, A5, A6, A7, A8) {
    type Model = (
        A1::Model, A2::Model, A3::Model, A4::Model, A5::Model, A6::Model, A7::Model, A8::Model,
    );

    open spec fn model(&self) -> Self::Model {
        (
            self.0.model(), self.1.model(), self.2.model(), self.3.model(), self.4.model(),
            self.5.model(), self.6.model(), self.7.model(),
        )
    }
}

impl<A1, A2, A3, A4, A5, A6, A7, A8> SealedArgs for (A1, A2, A3, A4, A5, A6, A7, A8) {

}

impl<
    A1: LeanAbi, A2: LeanAbi, A3: LeanAbi, A4: LeanAbi, A5: LeanAbi, A6: LeanAbi, A7: LeanAbi,
    A8: LeanAbi,
> LeanArgs for (A1, A2, A3, A4, A5, A6, A7, A8)
where
    A1::CRepr: CValue,
    A2::CRepr: CValue,
    A3::CRepr: CValue,
    A4::CRepr: CValue,
    A5::CRepr: CValue,
    A6::CRepr: CValue,
    A7::CRepr: CValue,
    A8::CRepr: CValue,
{
    open spec fn spec_arity() -> nat {
        8
    }

    open spec fn abi_args() -> Seq<LeanExportArgAbi> {
        seq![
            arg_abi(A1::c_repr()), arg_abi(A2::c_repr()), arg_abi(A3::c_repr()),
            arg_abi(A4::c_repr()), arg_abi(A5::c_repr()), arg_abi(A6::c_repr()),
            arg_abi(A7::c_repr()), arg_abi(A8::c_repr()),
        ]
    }

    open spec fn passed(model: Self::Model, args: Seq<CArg>) -> bool {
        args.len() == 8
            && passes::<A1>(model.0, args[0])
            && passes::<A2>(model.1, args[1])
            && passes::<A3>(model.2, args[2])
            && passes::<A4>(model.3, args[3])
            && passes::<A5>(model.4, args[4])
            && passes::<A6>(model.5, args[5])
            && passes::<A7>(model.6, args[6])
            && passes::<A8>(model.7, args[7])
    }

    fn arity() -> (r: usize) {
        8
    }

    fn export_abi_args() -> (r: Vec<LeanExportArgAbi>) {
        let r: Vec<LeanExportArgAbi> = vec![
            export_abi_arg_for(A1::export_abi_repr()), export_abi_arg_for(A2::export_abi_repr()),
            export_abi_arg_for(A3::export_abi_repr()), export_abi_arg_for(A4::export_abi_repr()),
            export_abi_arg_for(A5::export_abi_repr()), export_abi_arg_for(A6::export_abi_repr()),
            export_abi_arg_for(A7::export_abi_repr()), export_abi_arg_for(A8::export_abi_repr()),
        ];
        assert(r@ =~= Self::abi_args());
        r
    }

    fn into_args(self) -> (r: Vec<CArg>) {
        let (a1, a2, a3, a4, a5, a6, a7, a8) = self;
        vec![
            a1.into_c().into_arg(), a2.into_c().into_arg(), a3.into_c().into_arg(),
            a4.into_c().into_arg(), a5.into_c().into_arg(), a6.into_c().into_arg(),
            a7.into_c().into_arg(), a8.into_c().into_arg(),
        ]
    }
}

impl<
    A1: LeanModel, A2: LeanModel, A3: LeanModel, A4: LeanModel, A5: LeanModel, A6: LeanModel,
    A7: LeanModel, A8: LeanModel, A9: LeanModel,
> LeanModel for (A1, A2, A3, A4, A5, A6, A7, A8, A9) {
    type Model = (
        A1::Model, A2::Model, A3::Model, A4::Model, A5::Model, A6::Model, A7::Model, A8::Model,
        A9::Model,
    );

    open spec fn model(&self) -> Self::Model {
        (
            self.0.model(), self.1.model(), self.2.model(), self.3.model(), self.4.model(),
            self.5.model(), self.6.model(), self.7.model(), self.8.model(),
        )
    }
}

impl<
    A1, A2, A3, A4, A5, A6, A7, A8, A9,
> SealedArgs for (A1, A2, A3, A4, A5, A6, A7, A8, A9) {

}

impl<
    A1: LeanAbi, A2: LeanAbi, A3: LeanAbi, A4: LeanAbi, A5: LeanAbi, A6: LeanAbi, A7: LeanAbi,
    A8: LeanAbi, A9: LeanAbi,
> LeanArgs for (A1, A2, A3, A4, A5, A6, A7, A8, A9)
where
    A1::CRepr: CValue,
    A2::CRepr: CValue,
    A3::CRepr: CValue,
    A4::CRepr: CValue,
    A5::CRepr: CValue,
    A6::CRepr: CValue,
    A7::CRepr: CValue,
    A8::CRepr: CValue,
    A9::CRepr: CValue,
{
    open spec fn spec_arity() -> nat {
        9
    }

    open spec fn abi_args() -> Seq<LeanExportArgAbi> {
        seq![
            arg_abi(A1::c_repr()), arg_abi(A2::c_repr()), arg_abi(A3::c_repr()),
            arg_abi(A4::c_repr()), arg_abi(A5::c_repr()), arg_abi(A6::c_repr()),
            arg_abi(A7::c_repr()), arg_abi(A8::c_repr()), arg_abi(A9::c_repr()),
        ]
    }

    open spec fn passed(model: Self::Model, args: Seq<CArg>) -> bool {
        args.len() == 9
            && passes::<A1>(model.0, args[0])
            && passes::<A2>(model.1, args[1])
            && passes::<A3>(model.2, args[2])
            && passes::<A4>(model.3, args[3])
            && passes::<A5>(model.4, args[4])
            && passes::<A6>(model.5, args[5])
            && passes::<A7>(model.6, args[6])
            && passes::<A8>(model.7, args[7])
            && passes::<A9>(model.8, args[8])
    }

    fn arity() -> (r: usize) {
        9
    }

    fn export_abi_args() -> (r: Vec<LeanExportArgAbi>) {
        let r: Vec<LeanExportArgAbi> = vec![
            export_abi_arg_for(A1::export_abi_repr()), export_abi_arg_for(A2::export_abi_repr()),
            export_abi_arg_for(A3::export_abi_repr()), export_abi_arg_for(A4::export_abi_repr()),
            export_abi_arg_for(A5::export_abi_repr()), export_abi_arg_for(A6::export_abi_repr()),
            export_abi_arg_for(A7::export_abi_repr()), export_abi_arg_for(A8::export_abi_repr()),
            export_abi_arg_for(A9::export_abi_repr()),
        ];
        assert(r@ =~= Self::abi_args());
        r
    }

    fn into_args(self) -> (r: Vec<CArg>) {
        let (a1, a2, a3, a4, a5, a6, a7, a8, a9) = self;
        vec![
            a1.into_c().into_arg(), a2.into_c().into_arg(), a3.into_c().into_arg(),
            a4.into_c().into_arg(), a5.into_c().into_arg(), a6.into_c().into_arg(),
            a7.into_c().into_arg(), a8.into_c().into_arg(), a9.into_c().into_arg(),
        ]
    }
}

impl<
    A1: LeanModel, A2: LeanModel, A3: LeanModel, A4: LeanModel, A5: LeanModel, A6: LeanModel,
    A7: LeanModel, A8: LeanModel, A9: LeanModel, A10: LeanModel,
> LeanModel for (A1, A2, A3, A4, A5, A6, A7, A8, A9, A10) {
    type Model = (
        A1::Model, A2::Model, A3::Model, A4::Model, A5::Model, A6::Model, A7::Model, A8::Model,
        A9::Model, A10::Model,
    );

    open spec fn model(&self) -> Self::Model {
        (
            self.0.model(), self.1.model(), self.2.model(), self.3.model(), self.4.model(),
            self.5.model(), self.6.model(), self.7.model(), self.8.model(), self.9.model(),
        )
    }
}

impl<
    A1, A2, A3, A4, A5, A6, A7, A8, A9, A10,
> SealedArgs for (A1, A2, A3, A4, A5, A6, A7, A8, A9, A10) {

}

impl<
    A1: LeanAbi, A2: LeanAbi, A3: LeanAbi, A4: LeanAbi, A5: LeanAbi, A6: LeanAbi, A7: LeanAbi,
    A8: LeanAbi, A9: LeanAbi, A10: LeanAbi,
> LeanArgs for (A1, A2, A3, A4, A5, A6, A7, A8, A9, A10)
where
    A1::CRepr: CValue,
    A2::CRepr: CValue,
    A3::CRepr: CValue,
    A4::CRepr: CValue,
    A5::CRepr: CValue,
    A6::CRepr: CValue,
    A7::CRepr: CValue,
    A8::CRepr: CValue,
    A9::CRepr: CValue,
    A10::CRepr: CValue,
{
    open spec fn spec_arity() -> nat {
        10
    }

    open spec fn abi_args() -> Seq<LeanExportArgAbi> {
        seq![
            arg_abi(A1::c_repr()), arg_abi(A2::c_repr()), arg_abi(A3::c_repr()),
            arg_abi(A4::c_repr()), arg_abi(A5::c_repr()), arg_abi(A6::c_repr()),
            arg_abi(A7::c_repr()), arg_abi(A8::c_repr()), arg_abi(A9::c_repr()),
            arg_abi(A10::c_repr()),
        ]
    }

    open spec fn passed(model: Self::Model, args: Seq<CArg>) -> bool {
        args.len() == 10
            && passes::<A1>(model.0, args[0])
            && passes::<A2>(model.1, args[1])
            && passes::<A3>(model.2, args[2])
            && passes::<A4>(model.3, args[3])
            && passes::<A5>(model.4, args[4])
            && passes::<A6>(model.5, args[5])
            && passes::<A7>(model.6, args[6])
            && passes::<A8>(model.7, args[7])
            && passes::<A9>(model.8, args[8])
            && passes::<A10>(model.9, args[9])
    }

    fn arity() -> (r: usize) {
        10
    }

    fn export_abi_args() -> (r: Vec<LeanExportArgAbi>) {
        let r: Vec<LeanExportArgAbi> = vec![
            export_abi_arg_for(A1::export_abi_repr()), export_abi_arg_for(A2::export_abi_repr()),
            export_abi_arg_for(A3::export_abi_repr()), export_abi_arg_for(A4::export_abi_repr()),
            export_abi_arg_for(A5::export_abi_repr()), export_abi_arg_for(A6::export_abi_repr()),
            export_abi_arg_for(A7::export_abi_repr()), export_abi_arg_for(A8::export_abi_repr()),
            export_abi_arg_for(A9::export_abi_repr()), export_abi_arg_for(A10::export_abi_repr()),
        ];
        assert(r@ =~= Self::abi_args());
        r
    }

    fn into_args(self) -> (r: Vec<CArg>) {
        let (a1, a2, a3, a4, a5, a6, a7, a8, a9, a10) = self;
        vec![
            a1.into_c().into_arg(), a2.into_c().into_arg(), a3.into_c().into_arg(),
            a4.into_c().into_arg(), a5.into_c().into_arg(), a6.into_c().into_arg(),
            a7.into_c().into_arg(), a8.into_c().into_arg(), a9.into_c().into_arg(),
            a10.into_c().into_arg(),
        ]
    }
}

impl<
    A1: LeanModel, A2: LeanModel, A3: LeanModel, A4: LeanModel, A5: LeanModel, A6: LeanModel,
    A7: LeanModel, A8: LeanModel, A9: LeanModel, A10: LeanModel, A11: LeanModel,
> LeanModel for (A1, A2, A3, A4, A5, A6, A7, A8, A9, A10, A11) {
    type Model = (
        A1::Model, A2::Model, A3::Model, A4::Model, A5::Model, A6::Model, A7::Model, A8::Model,
        A9::Model, A10::Model, A11::Model,
    );

    open spec fn model(&self) -> Self::Model {
        (
            self.0.model(), self.1.model(), self.2.model(), self.3.model(), self.4.model(),
            self.5.model(), self.6.model(), self.7.model(), self.8.model(), self.9.model(),
            self.10.model(),
        )
    }
}

impl<
    A1, A2, A3, A4, A5, A6, A7, A8, A9, A10, A11,
> SealedArgs for (A1, A2, A3, A4, A5, A6, A7, A8, A9, A10, A11) {

}

impl<
    A1: LeanAbi, A2: LeanAbi, A3: LeanAbi, A4: LeanAbi, A5: LeanAbi, A6: LeanAbi, A7: LeanAbi,
    A8: LeanAbi, A9: LeanAbi, A10: LeanAbi, A11: LeanAbi,
> LeanArgs for (A1, A2, A3, A4, A5, A6, A7, A8, A9, A10, A11)
where
    A1::CRepr: CValue,
    A2::CRepr: CValue,
    A3::CRepr: CValue,
    A4::CRepr: CValue,
    A5::CRepr: CValue,
    A6::CRepr: CValue,
    A7::CRepr: CValue,
    A8::CRepr: CValue,
    A9::CRepr: CValue,
    A10::CRepr: CValue,
    A11::CRepr: CValue,
{
    open spec fn spec_arity() -> nat {
        11
    }

    open spec fn abi_args() -> Seq<LeanExportArgAbi> {
        seq![
            arg_abi(A1::c_repr()), arg_abi(A2::c_repr()), arg_abi(A3::c_repr()),
            arg_abi(A4::c_repr()), arg_abi(A5::c_repr()), arg_abi(A6::c_repr()),
            arg_abi(A7::c_repr()), arg_abi(A8::c_repr()), arg_abi(A9::c_repr()),
            arg_abi(A10::c_repr()), arg_abi(A11::c_repr()),
        ]
    }

    open spec fn passed(model: Self::Model, args: Seq<CArg>) -> bool {
        args.len() == 11
            && passes::<A1>(model.0, args[0])
            && passes::<A2>(model.1, args[1])
            && passes::<A3>(model.2, args[2])
            && passes::<A4>(model.3, args[3])
            && passes::<A5>(model.4, args[4])
            && passes::<A6>(model.5, args[5])
            && passes::<A7>(model.6, args[6])
            && passes::<A8>(model.7, args[7])
            && passes::<A9>(model.8, args[8])
            && passes::<A10>(model.9, args[9])
            && passes::<A11>(model.10, args[10])
    }

    fn arity() -> (r: usize) {
        11
    }

    fn export_abi_args() -> (r: Vec<LeanExportArgAbi>) {
        let r: Vec<LeanExportArgAbi> = vec![
            export_abi_arg_for(A1::export_abi_repr()), export_abi_arg_for(A2::export_abi_repr()),
            export_abi_arg_for(A3::export_abi_repr()), export_abi_arg_for(A4::export_abi_repr()),
            export_abi_arg_for(A5::export_abi_repr()), export_abi_arg_for(A6::export_abi_repr()),
            export_abi_arg_for(A7::export_abi_repr()), export_abi_arg_for(A8::export_abi_repr()),
            export_abi_arg_for(A9::export_abi_repr()), export_abi_arg_for(A10::export_abi_repr()),
            export_abi_arg_for(A11::export_abi_repr()),
        ];
        assert(r@ =~= Self::abi_args());
        r
    }

    fn into_args(self) -> (r: Vec<CArg>) {
        let (a1, a2, a3, a4, a5, a6, a7, a8, a9, a10, a11) = self;
        vec![
            a1.into_c().into_arg(), a2.into_c().into_arg(), a3.into_c().into_arg(),
            a4.into_c().into_arg(), a5.into_c().into_arg(), a6.into_c().into_arg(),
            a7.into_c().into_arg(), a8.into_c().into_arg(), a9.into_c().into_arg(),
            a10.into_c().into_arg(), a11.into_c().into_arg(),
        ]
    }
}

impl<
    A1: LeanModel, A2: LeanModel, A3: LeanModel, A4: LeanModel, A5: LeanModel, A6: LeanModel,
    A7: LeanModel, A8: LeanModel, A9: LeanModel, A10: LeanModel, A11: LeanModel, A12: LeanModel,
> LeanModel for (A1, A2, A3, A4, A5, A6, A7, A8, A9, A10, A11, A12) {
    type Model = (
        A1::Model, A2::Model, A3::Model, A4::Model, A5::Model, A6::Model, A7::Model, A8::Model,
        A9::Model, A10::Model, A11::Model, A12::Model,
    );

    open spec fn model(&self) -> Self::Model {
        (
            self.0.model(), self.1.model(), self.2.model(), self.3.model(), self.4.model(),
            self.5.model(), self.6.model(), self.7.model(), self.8.model(), self.9.model(),
            self.10.model(), self.11.model(),
        )
    }
}

impl<
    A1, A2, A3, A4, A5, A6, A7, A8, A9, A10, A11, A12,
> SealedArgs for (A1, A2, A3, A4, A5, A6, A7, A8, A9, A10, A11, A12) {

}

impl<
    A1: LeanAbi, A2: LeanAbi, A3: LeanAbi, A4: LeanAbi, A5: LeanAbi, A6: LeanAbi, A7: LeanAbi,
    A8: LeanAbi, A9: LeanAbi, A10: LeanAbi, A11: LeanAbi, A12: LeanAbi,
> LeanArgs for (A1, A2, A3, A4, A5, A6, A7, A8, A9, A10, A11, A12)
where
    A1::CRepr: CValue,
    A2::CRepr: CValue,
    A3::CRepr: CValue,
    A4::CRepr: CValue,
    A5::CRepr: CValue,
    A6::CRepr: CValue,
    A7::CRepr: CValue,
    A8::CRepr: CValue,
    A9::CRepr: CValue,
    A10::CRepr: CValue,
    A11::CRepr: CValue,
    A12::CRepr: CValue,
{
    open spec fn spec_arity() -> nat {
        12
    }

    open spec fn abi_args() -> Seq<LeanExportArgAbi> {
        seq![
            arg_abi(A1::c_repr()), arg_abi(A2::c_repr()), arg_abi(A3::c_repr()),
            arg_abi(A4::c_repr()), arg_abi(A5::c_repr()), arg_abi(A6::c_repr()),
            arg_abi(A7::c_repr()), arg_abi(A8::c_repr()), arg_abi(A9::c_repr()),
            arg_abi(A10::c_repr()), arg_abi(A11::c_repr()), arg_abi(A12::c_repr()),
        ]
    }

    open spec fn passed(model: Self::Model, args: Seq<CArg>) -> bool {
        args.len() == 12
            && passes::<A1>(model.0, args[0])
            && passes::<A2>(model.1, args[1])
            && passes::<A3>(model.2, args[2])
            && passes::<A4>(model.3, args[3])
            && passes::<A5>(model.4, args[4])
            && passes::<A6>(model.5, args[5])
            && passes::<A7>(model.6, args[6])
            && passes::<A8>(model.7, args[7])
            && passes::<A9>(model.8, args[8])
            && passes::<A10>(model.9, args[9])
            && passes::<A11>(model.10, args[10])
            && passes::<A12>(model.11, args[11])
    }

    fn arity() -> (r: usize) {
        12
    }

    fn export_abi_args() -> (r: Vec<LeanExportArgAbi>) {
        let r: Vec<LeanExportArgAbi> = vec![
            export_abi_arg_for(A1::export_abi_repr()), export_abi_arg_for(A2::export_abi_repr()),
            export_abi_arg_for(A3::export_abi_repr()), export_abi_arg_for(A4::export_abi_repr()),
            export_abi_arg_for(A5::export_abi_repr()), export_abi_arg_for(A6::export_abi_repr()),
            export_abi_arg_for(A7::export_abi_repr()), export_abi_arg_for(A8::export_abi_repr()),
            export_abi_arg_for(A9::export_abi_repr()), export_abi_arg_for(A10::export_abi_repr()),
            export_abi_arg_for(A11::export_abi_repr()),
            export_abi_arg_for(A12::export_abi_repr()),
        ];
        assert(r@ =~= Self::abi_args());
        r
    }

    fn into_args(self) -> (r: Vec<CArg>) {
        let (a1, a2, a3, a4, a5, a6, a7, a8, a9, a10, a11, a12) = self;
        vec![
            a1.into_c().into_arg(), a2.into_c().into_arg(), a3.into_c().into_arg(),
            a4.into_c().into_arg(), a5.into_c().into_arg(), a6.into_c().into_arg(),
            a7.into_c().into_arg(), a8.into_c().into_arg(), a9.into_c().into_arg(),
            a10.into_c().into_arg(), a11.into_c().into_arg(), a12.into_c().into_arg(),
        ]
    }
}

/// The representation that an argument has.
pub open spec fn representation(arg: CArg) -> LeanExportAbiRepr {
    match arg {
        CArg::U8(_) => LeanExportAbiRepr::U8,
        CArg::U16(_) => LeanExportAbiRepr::U16,
        CArg::U32(_) => LeanExportAbiRepr::U32,
        CArg::U64(_) => LeanExportAbiRepr::U64,
        CArg::Usize(_) => LeanExportAbiRepr::Usize,
        CArg::I8(_) => LeanExportAbiRepr::I8,
        CArg::I16(_) => LeanExportAbiRepr::I16,
        CArg::I32(_) => LeanExportAbiRepr::I32,
        CArg::I64(_) => LeanExportAbiRepr::I64,
        CArg::Isize(_) => LeanExportAbiRepr::Isize,
        CArg::Object(_) => LeanExportAbiRepr::LeanObject,
    }
}

/// What an argument has to be to represent a value.
pub open spec fn component<A: LeanAbi>(value: A) -> spec_fn(CArg) -> bool {
    |arg: CArg| passes::<A>(value.model(), arg)
}

/// Whether the argument at each position is what the component at that position
/// asks for, and no argument is missing or left over.
pub open spec fn stand_for(components: Seq<spec_fn(CArg) -> bool>, args: Seq<CArg>) -> bool {
    args.len() == components.len() && forall|i: int|
        0 <= i < args.len() ==> components[i](#[trigger] args[i])
}

/// The shapes of arguments of the given representations: an object is handed over
/// with its ownership, nothing else is owned.
pub open spec fn shapes(reprs: Seq<LeanExportAbiRepr>) -> Seq<LeanExportArgAbi> {
    Seq::new(
        reprs.len(),
        |i: int|
            LeanExportArgAbi {
                repr: reprs[i],
                ownership: if reprs[i] == LeanExportAbiRepr::LeanObject {
                    LeanExportOwnership::Owned
                } else {
                    LeanExportOwnership::Unowned
                },
            },
    )
}

/// Whether the argument at each position has the representation that the shape at that
/// position names.
pub open spec fn have_shapes(args: Seq<CArg>, shapes: Seq<LeanExportArgAbi>) -> bool {
    args.len() == shapes.len() && forall|i: int|
        0 <= i < args.len() ==> representation(#[trigger] args[i]) == shapes[i].repr
}

/// An argument that represents a value has the representation that the value's type
/// has in recorded shapes.
pub proof fn arguments_have_the_recorded_representation<A: LeanAbi>(value: A, arg: CArg)
    requires
        component(value)(arg),
    ensures
        representation(arg) == A::c_repr(),
{
    A::c_repr_is_that_of_the_type(arg);
}

/// A scalar is passed as an argument of its own type that holds it unchanged, a
/// truth value as a byte, a character as its code point, and an object as it is.
pub proof fn scalars_are_passed_unchanged(
    truth: bool,
    ch: char,
    unsigned: (u8, u16, u32, u64, usize),
    signed: (i8, i16, i32, i64, isize),
    object: Obj,
    arg: CArg,
)
    ensures
        component(truth)(arg) <==> arg == CArg::U8(
            if truth {
                1
            } else {
                0
            },
        ),
        component(ch)(arg) <==> (arg matches CArg::U32(code) && code == ch as int),
        component(unsigned.0)(arg) <==> arg == CArg::U8(unsigned.0),
        component(unsigned.1)(arg) <==> arg == CArg::U16(unsigned.1),
        component(unsigned.2)(arg) <==> arg == CArg::U32(unsigned.2),
        component(unsigned.3)(arg) <==> arg == CArg::U64(unsigned.3),
        component(unsigned.4)(arg) <==> arg == CArg::Usize(unsigned.4),
        component(signed.0)(arg) <==> arg == CArg::I8(signed.0),
        component(signed.1)(arg) <==> arg == CArg::I16(signed.1),
        component(signed.2)(arg) <==> arg == CArg::I32(signed.2),
        component(signed.3)(arg) <==> arg == CArg::I64(signed.3),
        component(signed.4)(arg) <==> arg == CArg::Isize(signed.4),
        component(object)(arg) <==> arg == CArg::Object(object),
        component(())(arg) <==> arg == CArg::Object(Obj::Scalar(0)),
{
    char_is_scalar(ch);
}

/// Text is passed as a Lean string of its UTF-8 bytes, whether it is owned or
/// borrowed.
pub proof fn text_is_passed_in_utf8(owned: String, borrowed: &str, arg: CArg)
    ensures
        component(owned)(arg) <==> (arg matches CArg::Object(Obj::Str(bytes)) && bytes@
            == encode_utf8(owned@)),
        component(borrowed)(arg) <==> (arg matches CArg::Object(Obj::Str(bytes)) && bytes@
            == encode_utf8(borrowed@)),
{
}

/// The call for the empty tuple has no arguments and records no shapes.
pub proof fn no_arguments_for_the_empty_tuple(args: Seq<CArg>)
    ensures
        <() as LeanArgs>::passed(().model(), args) <==> args.len() == 0,
        <() as LeanArgs>::abi_args().len() == 0,
        <() as LeanArgs>::spec_arity() == 0,
{
}

/// The call for a tuple of one has one argument: the one at each position
/// represents the component at that position, and the shape recorded at each
/// position names that component's representation, which the argument has.
pub proof fn arguments_of_one_go_by_position<A1: LeanAbi>(
    a1: A1,
    args: Seq<CArg>,
)
    ensures
        <(A1,) as LeanArgs>::passed(
            (a1,).model(),
            args,
        ) <==> stand_for(
            seq![component(a1)],
            args,
        ),
        <(A1,) as LeanArgs>::abi_args() == shapes(
            seq![A1::c_repr()],
        ),
        <(A1,) as LeanArgs>::spec_arity() == 1,
        <(A1,) as LeanArgs>::passed(
            (a1,).model(),
            args,
        ) ==> have_shapes(args, <(A1,) as LeanArgs>::abi_args()),
{
    let components = seq![component(a1)];
    let reprs = seq![A1::c_repr()];
    if args.len() == 1 {
        assert(components[0](args[0]) == passes::<A1>(a1.model(), args[0]));
        if <(A1,) as LeanArgs>::passed(
            (a1,).model(),
            args,
        ) {
            assert forall|i: int| 0 <= i < 1 implies components[i](#[trigger] args[i]) by {
                assert(i == 0);
            }
            A1::c_repr_is_that_of_the_type(args[0]);
        }
    }
    assert(<(A1,) as LeanArgs>::abi_args() =~= shapes(reprs));
}

/// The call for a tuple of two has two arguments: the one at each position
/// represents the component at that position, and the shape recorded at each
/// position names that component's representation, which the argument has.
pub proof fn arguments_of_two_go_by_position<A1: LeanAbi, A2: LeanAbi>(
    a1: A1,
    a2: A2,
    args: Seq<CArg>,
)
    ensures
        <(A1, A2) as LeanArgs>::passed(
            (a1, a2).model(),
            args,
        ) <==> stand_for(
            seq![component(a1), component(a2)],
            args,
        ),
        <(A1, A2) as LeanArgs>::abi_args() == shapes(
            seq![A1::c_repr(), A2::c_repr()],
        ),
        <(A1, A2) as LeanArgs>::spec_arity() == 2,
        <(A1, A2) as LeanArgs>::passed(
            (a1, a2).model(),
            args,
        ) ==> have_shapes(args, <(A1, A2) as LeanArgs>::abi_args()),
{
    let components = seq![component(a1), component(a2)];
    let reprs = seq![A1::c_repr(), A2::c_repr()];
    if args.len() == 2 {
        assert(components[0](args[0]) == passes::<A1>(a1.model(), args[0]));
        assert(components[1](args[1]) == passes::<A2>(a2.model(), args[1]));
        if <(A1, A2) as LeanArgs>::passed(
            (a1, a2).model(),
            args,
        ) {
            assert forall|i: int| 0 <= i < 2 implies components[i](#[trigger] args[i]) by {
                assert(i == 0 || i == 1);
            }
            A1::c_repr_is_that_of_the_type(args[0]);
            A2::c_repr_is_that_of_the_type(args[1]);
        }
    }
    assert(<(A1, A2) as LeanArgs>::abi_args() =~= shapes(reprs));
}

/// The call for a tuple of three has three arguments: the one at each position
/// represents the component at that position, and the shape recorded at each
/// position names that component's representation, which the argument has.
pub proof fn arguments_of_three_go_by_position<A1: LeanAbi, A2: LeanAbi, A3: LeanAbi>(
    a1: A1,
    a2: A2,
    a3: A3,
    args: Seq<CArg>,
)
    ensures
        <(A1, A2, A3) as LeanArgs>::passed(
            (a1, a2, a3).model(),
            args,
        ) <==> stand_for(
            seq![component(a1), component(a2), component(a3)],
            args,
        ),
        <(A1, A2, A3) as LeanArgs>::abi_args() == shapes(
            seq![A1::c_repr(), A2::c_repr(), A3::c_repr()],
        ),
        <(A1, A2, A3) as LeanArgs>::spec_arity() == 3,
        <(A1, A2, A3) as LeanArgs>::passed(
            (a1, a2, a3).model(),
            args,
        ) ==> have_shapes(args, <(A1, A2, A3) as LeanArgs>::abi_args()),
{
    let components = seq![component(a1), component(a2), component(a3)];
    let reprs = seq![A1::c_repr(), A2::c_repr(), A3::c_repr()];
    if args.len() == 3 {
        assert(components[0](args[0]) == passes::<A1>(a1.model(), args[0]));
        assert(components[1](args[1]) == passes::<A2>(a2.model(), args[1]));
        assert(components[2](args[2]) == passes::<A3>(a3.model(), args[2]));
        if <(A1, A2, A3) as LeanArgs>::passed(
            (a1, a2, a3).model(),
            args,
        ) {
            assert forall|i: int| 0 <= i < 3 implies components[i](#[trigger] args[i]) by {
                assert(i == 0 || i == 1 || i == 2);
            }
            A1::c_repr_is_that_of_the_type(args[0]);
            A2::c_repr_is_that_of_the_type(args[1]);
            A3::c_repr_is_that_of_the_type(args[2]);
        }
    }
    assert(<(A1, A2, A3) as LeanArgs>::abi_args() =~= shapes(reprs));
}

/// The call for a tuple of four has four arguments: the one at each position
/// represents the component at that position, and the shape recorded at each
/// position names that component's representation, which the argument has.
pub proof fn arguments_of_four_go_by_position<A1: LeanAbi, A2: LeanAbi, A3: LeanAbi, A4: LeanAbi>(
    a1: A1,
    a2: A2,
    a3: A3,
    a4: A4,
    args: Seq<CArg>,
)
    ensures
        <(A1, A2, A3, A4) as LeanArgs>::passed(
            (a1, a2, a3, a4).model(),
            args,
        ) <==> stand_for(
            seq![component(a1), component(a2), component(a3), component(a4)],
            args,
        ),
        <(A1, A2, A3, A4) as LeanArgs>::abi_args() == shapes(
            seq![A1::c_repr(), A2::c_repr(), A3::c_repr(), A4::c_repr()],
        ),
        <(A1, A2, A3, A4) as LeanArgs>::spec_arity() == 4,
        <(A1, A2, A3, A4) as LeanArgs>::passed(
            (a1, a2, a3, a4).model(),
            args,
        ) ==> have_shapes(args, <(A1, A2, A3, A4) as LeanArgs>::abi_args()),
{
    let components = seq![component(a1), component(a2), component(a3), component(a4)];
    let reprs = seq![A1::c_repr(), A2::c_repr(), A3::c_repr(), A4::c_repr()];
    if args.len() == 4 {
        assert(components[0](args[0]) == passes::<A1>(a1.model(), args[0]));
        assert(components[1](args[1]) == passes::<A2>(a2.model(), args[1]));
        assert(components[2](args[2]) == passes::<A3>(a3.model(), args[2]));
        assert(components[3](args[3]) == passes::<A4>(a4.model(), args[3]));
        if <(A1, A2, A3, A4) as LeanArgs>::passed(
            (a1, a2, a3, a4).model(),
            args,
        ) {
            assert forall|i: int| 0 <= i < 4 implies components[i](#[trigger] args[i]) by {
                assert(i == 0 || i == 1 || i == 2 || i == 3);
            }
            A1::c_repr_is_that_of_the_type(args[0]);
            A2::c_repr_is_that_of_the_type(args[1]);
            A3::c_repr_is_that_of_the_type(args[2]);
            A4::c_repr_is_that_of_the_type(args[3]);
        }
    }
    assert(<(A1, A2, A3, A4) as LeanArgs>::abi_args() =~= shapes(reprs));
}

/// The call for a tuple of five has five arguments: the one at each position
/// represents the component at that position, and the shape recorded at each
/// position names that component's representation, which the argument has.
pub proof fn arguments_of_five_go_by_position<
    A1: LeanAbi, A2: LeanAbi, A3: LeanAbi, A4: LeanAbi, A5: LeanAbi,
>(
    a1: A1,
    a2: A2,
    a3: A3,
    a4: A4,
    a5: A5,
    args: Seq<CArg>,
)
    ensures
        <(A1, A2, A3, A4, A5) as LeanArgs>::passed(
            (a1, a2, a3, a4, a5).model(),
            args,
        ) <==> stand_for(
            seq![component(a1), component(a2), component(a3), component(a4), component(a5)],
            args,
        ),
        <(A1, A2, A3, A4, A5) as LeanArgs>::abi_args() == shapes(
            seq![A1::c_repr(), A2::c_repr(), A3::c_repr(), A4::c_repr(), A5::c_repr()],
        ),
        <(A1, A2, A3, A4, A5) as LeanArgs>::spec_arity() == 5,
        <(A1, A2, A3, A4, A5) as LeanArgs>::passed(
            (a1, a2, a3, a4, a5).model(),
            args,
        ) ==> have_shapes(args, <(A1, A2, A3, A4, A5) as LeanArgs>::abi_args()),
{
    let components = seq![
        component(a1), component(a2), component(a3), component(a4), component(a5),
    ];
    let reprs = seq![A1::c_repr(), A2::c_repr(), A3::c_repr(), A4::c_repr(), A5::c_repr()];
    if args.len() == 5 {
        assert(components[0](args[0]) == passes::<A1>(a1.model(), args[0]));
        assert(components[1](args[1]) == passes::<A2>(a2.model(), args[1]));
        assert(components[2](args[2]) == passes::<A3>(a3.model(), args[2]));
        assert(components[3](args[3]) == passes::<A4>(a4.model(), args[3]));
        assert(components[4](args[4]) == passes::<A5>(a5.model(), args[4]));
        if <(A1, A2, A3, A4, A5) as LeanArgs>::passed(
            (a1, a2, a3, a4, a5).model(),
            args,
        ) {
            assert forall|i: int| 0 <= i < 5 implies components[i](#[trigger] args[i]) by {
                assert(i == 0 || i == 1 || i == 2 || i == 3 || i == 4);
            }
            A1::c_repr_is_that_of_the_type(args[0]);
            A2::c_repr_is_that_of_the_type(args[1]);
            A3::c_repr_is_that_of_the_type(args[2]);
            A4::c_repr_is_that_of_the_type(args[3]);
            A5::c_repr_is_that_of_the_type(args[4]);
        }
    }
    assert(<(A1, A2, A3, A4, A5) as LeanArgs>::abi_args() =~= shapes(reprs));
}

/// The call for a tuple of six has six arguments: the one at each position
/// represents the component at that position, and the shape recorded at each
/// position names that component's representation, which the argument has.
pub proof fn arguments_of_six_go_by_position<
    A1: LeanAbi, A2: LeanAbi, A3: LeanAbi, A4: LeanAbi, A5: LeanAbi, A6: LeanAbi,
>(
    a1: A1,
    a2: A2,
    a3: A3,
    a4: A4,
    a5: A5,
    a6: A6,
    args: Seq<CArg>,
)
    ensures
        <(A1, A2, A3, A4, A5, A6) as LeanArgs>::passed(
            (a1, a2, a3, a4, a5, a6).model(),
            args,
        ) <==> stand_for(
            seq![
                component(a1), component(a2), component(a3), component(a4), component(a5),
                component(a6),
            ],
            args,
        ),
        <(A1, A2, A3, A4, A5, A6) as LeanArgs>::abi_args() == shapes(
            seq![
                A1::c_repr(), A2::c_repr(), A3::c_repr(), A4::c_repr(), A5::c_repr(), A6::c_repr(),
            ],
        ),
        <(A1, A2, A3, A4, A5, A6) as LeanArgs>::spec_arity() == 6,
        <(A1, A2, A3, A4, A5, A6) as LeanArgs>::passed(
            (a1, a2, a3, a4, a5, a6).model(),
            args,
        ) ==> have_shapes(args, <(A1, A2, A3, A4, A5, A6) as LeanArgs>::abi_args()),
{
    let components = seq![
        component(a1), component(a2), component(a3), component(a4), component(a5), component(a6),
    ];
    let reprs = seq![
        A1::c_repr(), A2::c_repr(), A3::c_repr(), A4::c_repr(), A5::c_repr(), A6::c_repr(),
    ];
    if args.len() == 6 {
        assert(components[0](args[0]) == passes::<A1>(a1.model(), args[0]));
        assert(components[1](args[1]) == passes::<A2>(a2.model(), args[1]));
        assert(components[2](args[2]) == passes::<A3>(a3.model(), args[2]));
        assert(components[3](args[3]) == passes::<A4>(a4.model(), args[3]));
        assert(components[4](args[4]) == passes::<A5>(a5.model(), args[4]));
        assert(components[5](args[5]) == passes::<A6>(a6.model(), args[5]));
        if <(A1, A2, A3, A4, A5, A6) as LeanArgs>::passed(
            (a1, a2, a3, a4, a5, a6).model(),
            args,
        ) {
            assert forall|i: int| 0 <= i < 6 implies components[i](#[trigger] args[i]) by {
                assert(i == 0 || i == 1 || i == 2 || i == 3 || i == 4 || i == 5);
            }
            A1::c_repr_is_that_of_the_type(args[0]);
            A2::c_repr_is_that_of_the_type(args[1]);
            A3::c_repr_is_that_of_the_type(args[2]);
            A4::c_repr_is_that_of_the_type(args[3]);
            A5::c_repr_is_that_of_the_type(args[4]);
            A6::c_repr_is_that_of_the_type(args[5]);
        }
    }
    assert(<(A1, A2, A3, A4, A5, A6) as LeanArgs>::abi_args() =~= shapes(reprs));
}

/// The call for a tuple of seven has seven arguments: the one at each position
/// represents the component at that position, and the shape recorded at each
/// position names that component's representation, which the argument has.
pub proof fn arguments_of_seven_go_by_position<
    A1: LeanAbi, A2: LeanAbi, A3: LeanAbi, A4: LeanAbi, A5: LeanAbi, A6: LeanAbi, A7: LeanAbi,
>(
    a1: A1,
    a2: A2,
    a3: A3,
    a4: A4,
    a5: A5,
    a6: A6,
    a7: A7,
    args: Seq<CArg>,
)
    ensures
        <(A1, A2, A3, A4, A5, A6, A7) as LeanArgs>::passed(
            (a1, a2, a3, a4, a5, a6, a7).model(),
            args,
        ) <==> stand_for(
            seq![
                component(a1), component(a2), component(a3), component(a4), component(a5),
                component(a6), component(a7),
            ],
            args,
        ),
        <(A1, A2, A3, A4, A5, A6, A7) as LeanArgs>::abi_args() == shapes(
            seq![
                A1::c_repr(), A2::c_repr(), A3::c_repr(), A4::c_repr(), A5::c_repr(), A6::c_repr(),
                A7::c_repr(),
            ],
        ),
        <(A1, A2, A3, A4, A5, A6, A7) as LeanArgs>::spec_arity() == 7,
        <(A1, A2, A3, A4, A5, A6, A7) as LeanArgs>::passed(
            (a1, a2, a3, a4, a5, a6, a7).model(),
            args,
        ) ==> have_shapes(args, <(A1, A2, A3, A4, A5, A6, A7) as LeanArgs>::abi_args()),
{
    let components = seq![
        component(a1), component(a2), component(a3), component(a4), component(a5), component(a6),
        component(a7),
    ];
    let reprs = seq![
        A1::c_repr(), A2::c_repr(), A3::c_repr(), A4::c_repr(), A5::c_repr(), A6::c_repr(),
        A7::c_repr(),
    ];
    if args.len() == 7 {
        assert(components[0](args[0]) == passes::<A1>(a1.model(), args[0]));
        assert(components[1](args[1]) == passes::<A2>(a2.model(), args[1]));
        assert(components[2](args[2]) == passes::<A3>(a3.model(), args[2]));
        assert(components[3](args[3]) == passes::<A4>(a4.model(), args[3]));
        assert(components[4](args[4]) == passes::<A5>(a5.model(), args[4]));
        assert(components[5](args[5]) == passes::<A6>(a6.model(), args[5]));
        assert(components[6](args[6]) == passes::<A7>(a7.model(), args[6]));
        if <(A1, A2, A3, A4, A5, A6, A7) as LeanArgs>::passed(
            (a1, a2, a3, a4, a5, a6, a7).model(),
            args,
        ) {
            assert forall|i: int| 0 <= i < 7 implies components[i](#[trigger] args[i]) by {
                assert(i == 0 || i == 1 || i == 2 || i == 3 || i == 4 || i == 5 || i == 6);
            }
            A1::c_repr_is_that_of_the_type(args[0]);
            A2::c_repr_is_that_of_the_type(args[1]);
            A3::c_repr_is_that_of_the_type(args[2]);
            A4::c_repr_is_that_of_the_type(args[3]);
            A5::c_repr_is_that_of_the_type(args[4]);
            A6::c_repr_is_that_of_the_type(args[5]);
            A7::c_repr_is_that_of_the_type(args[6]);
        }
    }
    assert(<(A1, A2, A3, A4, A5, A6, A7) as LeanArgs>::abi_args() =~= shapes(reprs));
}

/// The call for a tuple of eight has eight arguments: the one at each position
/// represents the component at that position, and the shape recorded at each
/// position names that component's representation, which the argument has.
pub proof fn arguments_of_eight_go_by_position<
    A1: LeanAbi, A2: LeanAbi, A3: LeanAbi, A4: LeanAbi, A5: LeanAbi, A6: LeanAbi, A7: LeanAbi,
    A8: LeanAbi,
>(
    a1: A1,
    a2: A2,
    a3: A3,
    a4: A4,
    a5: A5,
    a6: A6,
    a7: A7,
    a8: A8,
    args: Seq<CArg>,
)
    ensures
        <(A1, A2, A3, A4, A5, A6, A7, A8) as LeanArgs>::passed(
            (a1, a2, a3, a4, a5, a6, a7, a8).model(),
            args,
        ) <==> stand_for(
            seq![
                component(a1), component(a2), component(a3), component(a4), component(a5),
                component(a6), component(a7), component(a8),
            ],
            args,
        ),
        <(A1, A2, A3, A4, A5, A6, A7, A8) as LeanArgs>::abi_args() == shapes(
            seq![
                A1::c_repr(), A2::c_repr(), A3::c_repr(), A4::c_repr(), A5::c_repr(), A6::c_repr(),
                A7::c_repr(), A8::c_repr(),
            ],
        ),
        <(A1, A2, A3, A4, A5, A6, A7, A8) as LeanArgs>::spec_arity() == 8,
        <(A1, A2, A3, A4, A5, A6, A7, A8) as LeanArgs>::passed(
            (a1, a2, a3, a4, a5, a6, a7, a8).model(),
            args,
        ) ==> have_shapes(args, <(A1, A2, A3, A4, A5, A6, A7, A8) as LeanArgs>::abi_args()),
{
    let components = seq![
        component(a1), component(a2), component(a3), component(a4), component(a5), component(a6),
        component(a7), component(a8),
    ];
    let reprs = seq![
        A1::c_repr(), A2::c_repr(), A3::c_repr(), A4::c_repr(), A5::c_repr(), A6::c_repr(),
        A7::c_repr(), A8::c_repr(),
    ];
    if args.len() == 8 {
        assert(components[0](args[0]) == passes::<A1>(a1.model(), args[0]));
        assert(components[1](args[1]) == passes::<A2>(a2.model(), args[1]));
        assert(components[2](args[2]) == passes::<A3>(a3.model(), args[2]));
        assert(components[3](args[3]) == passes::<A4>(a4.model(), args[3]));
        assert(components[4](args[4]) == passes::<A5>(a5.model(), args[4]));
        assert(components[5](args[5]) == passes::<A6>(a6.model(), args[5]));
        assert(components[6](args[6]) == passes::<A7>(a7.model(), args[6]));
        assert(components[7](args[7]) == passes::<A8>(a8.model(), args[7]));
        if <(A1, A2, A3, A4, A5, A6, A7, A8) as LeanArgs>::passed(
            (a1, a2, a3, a4, a5, a6, a7, a8).model(),
            args,
        ) {
            assert forall|i: int| 0 <= i < 8 implies components[i](#[trigger] args[i]) by {
                assert(i == 0 || i == 1 || i == 2 || i == 3 || i == 4
                    || i == 5 || i == 6 || i == 7);
            }
            A1::c_repr_is_that_of_the_type(args[0]);
            A2::c_repr_is_that_of_the_type(args[1]);
            A3::c_repr_is_that_of_the_type(args[2]);
            A4::c_repr_is_that_of_the_type(args[3]);
            A5::c_repr_is_that_of_the_type(args[4]);
            A6::c_repr_is_that_of_the_type(args[5]);
            A7::c_repr_is_that_of_the_type(args[6]);
            A8::c_repr_is_that_of_the_type(args[7]);
        }
    }
    assert(<(A1, A2, A3, A4, A5, A6, A7, A8) as LeanArgs>::abi_args() =~= shapes(reprs));
}

/// The call for a tuple of nine has nine arguments: the one at each position
/// represents the component at that position, and the shape recorded at each
/// position names that component's representation, which the argument has.
pub proof fn arguments_of_nine_go_by_position<
    A1: LeanAbi, A2: LeanAbi, A3: LeanAbi, A4: LeanAbi, A5: LeanAbi, A6: LeanAbi, A7: LeanAbi,
    A8: LeanAbi, A9: LeanAbi,
>(
    a1: A1,
    a2: A2,
    a3: A3,
    a4: A4,
    a5: A5,
    a6: A6,
    a7: A7,
    a8: A8,
    a9: A9,
    args: Seq<CArg>,
)
    ensures
        <(A1, A2, A3, A4, A5, A6, A7, A8, A9) as LeanArgs>::passed(
            (a1, a2, a3, a4, a5, a6, a7, a8, a9).model(),
            args,
        ) <==> stand_for(
            seq![
                component(a1), component(a2), component(a3), component(a4), component(a5),
                component(a6), component(a7), component(a8), component(a9),
            ],
            args,
        ),
        <(A1, A2, A3, A4, A5, A6, A7, A8, A9) as LeanArgs>::abi_args() == shapes(
            seq![
                A1::c_repr(), A2::c_repr(), A3::c_repr(), A4::c_repr(), A5::c_repr(), A6::c_repr(),
                A7::c_repr(), A8::c_repr(), A9::c_repr(),
            ],
        ),
        <(A1, A2, A3, A4, A5, A6, A7, A8, A9) as LeanArgs>::spec_arity() == 9,
        <(A1, A2, A3, A4, A5, A6, A7, A8, A9) as LeanArgs>::passed(
            (a1, a2, a3, a4, a5, a6, a7, a8, a9).model(),
            args,
        ) ==> have_shapes(args, <(A1, A2, A3, A4, A5, A6, A7, A8, A9) as LeanArgs>::abi_args()),
{
    let components = seq![
        component(a1), component(a2), component(a3), component(a4), component(a5), component(a6),
        component(a7), component(a8), component(a9),
    ];
    let reprs = seq![
        A1::c_repr(), A2::c_repr(), A3::c_repr(), A4::c_repr(), A5::c_repr(), A6::c_repr(),
        A7::c_repr(), A8::c_repr(), A9::c_repr(),
    ];
    if args.len() == 9 {
        assert(components[0](args[0]) == passes::<A1>(a1.model(), args[0]));
        assert(components[1](args[1]) == passes::<A2>(a2.model(), args[1]));
        assert(components[2](args[2]) == passes::<A3>(a3.model(), args[2]));
        assert(components[3](args[3]) == passes::<A4>(a4.model(), args[3]));
        assert(components[4](args[4]) == passes::<A5>(a5.model(), args[4]));
        assert(components[5](args[5]) == passes::<A6>(a6.model(), args[5]));
        assert(components[6](args[6]) == passes::<A7>(a7.model(), args[6]));
        assert(components[7](args[7]) == passes::<A8>(a8.model(), args[7]));
        assert(components[8](args[8]) == passes::<A9>(a9.model(), args[8]));
        if <(A1, A2, A3, A4, A5, A6, A7, A8, A9) as LeanArgs>::passed(
            (a1, a2, a3, a4, a5, a6, a7, a8, a9).model(),
            args,
        ) {
            assert forall|i: int| 0 <= i < 9 implies components[i](#[trigger] args[i]) by {
                assert(i == 0 || i == 1 || i == 2 || i == 3 || i == 4
                    || i == 5 || i == 6 || i == 7 || i == 8);
            }
            A1::c_repr_is_that_of_the_type(args[0]);
            A2::c_repr_is_that_of_the_type(args[1]);
            A3::c_repr_is_that_of_the_type(args[2]);
            A4::c_repr_is_that_of_the_type(args[3]);
            A5::c_repr_is_that_of_the_type(args[4]);
            A6::c_repr_is_that_of_the_type(args[5]);
            A7::c_repr_is_that_of_the_type(args[6]);
            A8::c_repr_is_that_of_the_type(args[7]);
            A9::c_repr_is_that_of_the_type(args[8]);
        }
    }
    assert(<(A1, A2, A3, A4, A5, A6, A7, A8, A9) as LeanArgs>::abi_args() =~= shapes(reprs));
}

/// The call for a tuple of ten has ten arguments: the one at each position
/// represents the component at that position, and the shape recorded at each
/// position names that component's representation, which the argument has.
pub proof fn arguments_of_ten_go_by_position<
    A1: LeanAbi, A2: LeanAbi, A3: LeanAbi, A4: LeanAbi, A5: LeanAbi, A6: LeanAbi, A7: LeanAbi,
    A8: LeanAbi, A9: LeanAbi, A10: LeanAbi,
>(
    a1: A1,
    a2: A2,
    a3: A3,
    a4: A4,
    a5: A5,
    a6: A6,
    a7: A7,
    a8: A8,
    a9: A9,
    a10: A10,
    args: Seq<CArg>,
)
    ensures
        <(A1, A2, A3, A4, A5, A6, A7, A8, A9, A10) as LeanArgs>::passed(
            (a1, a2, a3, a4, a5, a6, a7, a8, a9, a10).model(),
            args,
        ) <==> stand_for(
            seq![
                component(a1), component(a2), component(a3), component(a4), component(a5),
                component(a6), component(a7), component(a8), component(a9), component(a10),
            ],
            args,
        ),
        <(A1, A2, A3, A4, A5, A6, A7, A8, A9, A10) as LeanArgs>::abi_args() == shapes(
            seq![
                A1::c_repr(), A2::c_repr(), A3::c_repr(), A4::c_repr(), A5::c_repr(), A6::c_repr(),
                A7::c_repr(), A8::c_repr(), A9::c_repr(), A10::c_repr(),
            ],
        ),
        <(A1, A2, A3, A4, A5, A6, A7, A8, A9, A10) as LeanArgs>::spec_arity() == 10,
        <(A1, A2, A3, A4, A5, A6, A7, A8, A9, A10) as LeanArgs>::passed(
            (a1, a2, a3, a4, a5, a6, a7, a8, a9, a10).model(),
            args,
        ) ==> have_shapes(
            args,
            <(A1, A2, A3, A4, A5, A6, A7, A8, A9, A10) as LeanArgs>::abi_args(),
        ),
{
    let components = seq![
        component(a1), component(a2), component(a3), component(a4), component(a5), component(a6),
        component(a7), component(a8), component(a9), component(a10),
    ];
    let reprs = seq![
        A1::c_repr(), A2::c_repr(), A3::c_repr(), A4::c_repr(), A5::c_repr(), A6::c_repr(),
        A7::c_repr(), A8::c_repr(), A9::c_repr(), A10::c_repr(),
    ];
    if args.len() == 10 {
        assert(components[0](args[0]) == passes::<A1>(a1.model(), args[0]));
        assert(components[1](args[1]) == passes::<A2>(a2.model(), args[1]));
        assert(components[2](args[2]) == passes::<A3>(a3.model(), args[2]));
        assert(components[3](args[3]) == passes::<A4>(a4.model(), args[3]));
        assert(components[4](args[4]) == passes::<A5>(a5.model(), args[4]));
        assert(components[5](args[5]) == passes::<A6>(a6.model(), args[5]));
        assert(components[6](args[6]) == passes::<A7>(a7.model(), args[6]));
        assert(components[7](args[7]) == passes::<A8>(a8.model(), args[7]));
        assert(components[8](args[8]) == passes::<A9>(a9.model(), args[8]));
        assert(components[9](args[9]) == passes::<A10>(a10.model(), args[9]));
        if <(A1, A2, A3, A4, A5, A6, A7, A8, A9, A10) as LeanArgs>::passed(
            (a1, a2, a3, a4, a5, a6, a7, a8, a9, a10).model(),
            args,
        ) {
            assert forall|i: int| 0 <= i < 10 implies components[i](#[trigger] args[i]) by {
                assert(i == 0 || i == 1 || i == 2 || i == 3 || i == 4 || i == 5
                    || i == 6 || i == 7 || i == 8 || i == 9);
            }
            A1::c_repr_is_that_of_the_type(args[0]);
            A2::c_repr_is_that_of_the_type(args[1]);
            A3::c_repr_is_that_of_the_type(args[2]);
            A4::c_repr_is_that_of_the_type(args[3]);
            A5::c_repr_is_that_of_the_type(args[4]);
            A6::c_repr_is_that_of_the_type(args[5]);
            A7::c_repr_is_that_of_the_type(args[6]);
            A8::c_repr_is_that_of_the_type(args[7]);
            A9::c_repr_is_that_of_the_type(args[8]);
            A10::c_repr_is_that_of_the_type(args[9]);
        }
    }
    assert(<(A1, A2, A3, A4, A5, A6, A7, A8, A9, A10) as LeanArgs>::abi_args() =~= shapes(reprs));
}

/// The call for a tuple of eleven has eleven arguments: the one at each position
/// represents the component at that position, and the shape recorded at each
/// position names that component's representation, which the argument has.
pub proof fn arguments_of_eleven_go_by_position<
    A1: LeanAbi, A2: LeanAbi, A3: LeanAbi, A4: LeanAbi, A5: LeanAbi, A6: LeanAbi, A7: LeanAbi,
    A8: LeanAbi, A9: LeanAbi, A10: LeanAbi, A11: LeanAbi,
>(
    a1: A1,
    a2: A2,
    a3: A3,
    a4: A4,
    a5: A5,
    a6: A6,
    a7: A7,
    a8: A8,
    a9: A9,
    a10: A10,
    a11: A11,
    args: Seq<CArg>,
)
    ensures
        <(A1, A2, A3, A4, A5, A6, A7, A8, A9, A10, A11) as LeanArgs>::passed(
            (a1, a2, a3, a4, a5, a6, a7, a8, a9, a10, a11).model(),
            args,
        ) <==> stand_for(
            seq![
                component(a1), component(a2), component(a3), component(a4), component(a5),
                component(a6), component(a7), component(a8), component(a9), component(a10),
                component(a11),
            ],
            args,
        ),
        <(A1, A2, A3, A4, A5, A6, A7, A8, A9, A10, A11) as LeanArgs>::abi_args() == shapes(
            seq![
                A1::c_repr(), A2::c_repr(), A3::c_repr(), A4::c_repr(), A5::c_repr(), A6::c_repr(),
                A7::c_repr(), A8::c_repr(), A9::c_repr(), A10::c_repr(), A11::c_repr(),
            ],
        ),
        <(A1, A2, A3, A4, A5, A6, A7, A8, A9, A10, A11) as LeanArgs>::spec_arity() == 11,
        <(A1, A2, A3, A4, A5, A6, A7, A8, A9, A10, A11) as LeanArgs>::passed(
            (a1, a2, a3, a4, a5, a6, a7, a8, a9, a10, a11).model(),
            args,
        ) ==> have_shapes(
            args,
            <(A1, A2, A3, A4, A5, A6, A7, A8, A9, A10, A11) as LeanArgs>::abi_args(),
        ),
{
    let components = seq![
        component(a1), component(a2), component(a3), component(a4), component(a5), component(a6),
        component(a7), component(a8), component(a9), component(a10), component(a11),
    ];
    let reprs = seq![
        A1::c_repr(), A2::c_repr(), A3::c_repr(), A4::c_repr(), A5::c_repr(), A6::c_repr(),
        A7::c_repr(), A8::c_repr(), A9::c_repr(), A10::c_repr(), A11::c_repr(),
    ];
    if args.len() == 11 {
        assert(components[0](args[0]) == passes::<A1>(a1.model(), args[0]));
        assert(components[1](args[1]) == passes::<A2>(a2.model(), args[1]));
        assert(components[2](args[2]) == passes::<A3>(a3.model(), args[2]));
        assert(components[3](args[3]) == passes::<A4>(a4.model(), args[3]));
        assert(components[4](args[4]) == passes::<A5>(a5.model(), args[4]));
        assert(components[5](args[5]) == passes::<A6>(a6.model(), args[5]));
        assert(components[6](args[6]) == passes::<A7>(a7.model(), args[6]));
        assert(components[7](args[7]) == passes::<A8>(a8.model(), args[7]));
        assert(components[8](args[8]) == passes::<A9>(a9.model(), args[8]));
        assert(components[9](args[9]) == passes::<A10>(a10.model(), args[9]));
        assert(components[10](args[10]) == passes::<A11>(a11.model(), args[10]));
        if <(A1, A2, A3, A4, A5, A6, A7, A8, A9, A10, A11) as LeanArgs>::passed(
            (a1, a2, a3, a4, a5, a6, a7, a8, a9, a10, a11).model(),
            args,
        ) {
            assert forall|i: int| 0 <= i < 11 implies components[i](#[trigger] args[i]) by {
                assert(i == 0 || i == 1 || i == 2 || i == 3 || i == 4 || i == 5
                    || i == 6 || i == 7 || i == 8 || i == 9 || i == 10);
            }
            A1::c_repr_is_that_of_the_type(args[0]);
            A2::c_repr_is_that_of_the_type(args[1]);
            A3::c_repr_is_that_of_the_type(args[2]);
            A4::c_repr_is_that_of_the_type(args[3]);
            A5::c_repr_is_that_of_the_type(args[4]);
            A6::c_repr_is_that_of_the_type(args[5]);
            A7::c_repr_is_that_of_the_type(args[6]);
            A8::c_repr_is_that_of_the_type(args[7]);
            A9::c_repr_is_that_of_the_type(args[8]);
            A10::c_repr_is_that_of_the_type(args[9]);
            A11::c_repr_is_that_of_the_type(args[10]);
        }
    }
    assert(<(A1, A2, A3, A4, A5, A6, A7, A8, A9, A10, A11) as LeanArgs>::abi_args() =~= shapes(
        reprs,
    ));
}

/// The call for a tuple of twelve has twelve arguments: the one at each position
/// represents the component at that position, and the shape recorded at each
/// position names that component's representation, which the argument has.
pub proof fn arguments_of_twelve_go_by_position<
    A1: LeanAbi, A2: LeanAbi, A3: LeanAbi, A4: LeanAbi, A5: LeanAbi, A6: LeanAbi, A7: LeanAbi,
    A8: LeanAbi, A9: LeanAbi, A10: LeanAbi, A11: LeanAbi, A12: LeanAbi,
>(
    a1: A1,
    a2: A2,
    a3: A3,
    a4: A4,
    a5: A5,
    a6: A6,
    a7: A7,
    a8: A8,
    a9: A9,
    a10: A10,
    a11: A11,
    a12: A12,
    args: Seq<CArg>,
)
    ensures
        <(A1, A2, A3, A4, A5, A6, A7, A8, A9, A10, A11, A12) as LeanArgs>::passed(
            (a1, a2, a3, a4, a5, a6, a7, a8, a9, a10, a11, a12).model(),
            args,
        ) <==> stand_for(
            seq![
                component(a1), component(a2), component(a3), component(a4), component(a5),
                component(a6), component(a7), component(a8), component(a9), component(a10),
                component(a11), component(a12),
            ],
            args,
        ),
        <(A1, A2, A3, A4, A5, A6, A7, A8, A9, A10, A11, A12) as LeanArgs>::abi_args() == shapes(
            seq![
                A1::c_repr(), A2::c_repr(), A3::c_repr(), A4::c_repr(), A5::c_repr(), A6::c_repr(),
                A7::c_repr(), A8::c_repr(), A9::c_repr(), A10::c_repr(), A11::c_repr(),
                A12::c_repr(),
            ],
        ),
        <(A1, A2, A3, A4, A5, A6, A7, A8, A9, A10, A11, A12) as LeanArgs>::spec_arity() == 12,
        <(A1, A2, A3, A4, A5, A6, A7, A8, A9, A10, A11, A12) as LeanArgs>::passed(
            (a1, a2, a3, a4, a5, a6, a7, a8, a9, a10, a11, a12).model(),
            args,
        ) ==> have_shapes(
            args,
            <(A1, A2, A3, A4, A5, A6, A7, A8, A9, A10, A11, A12) as LeanArgs>::abi_args(),
        ),
{
    let components = seq![
        component(a1), component(a2), component(a3), component(a4), component(a5), component(a6),
        component(a7), component(a8), component(a9), component(a10), component(a11), component(a12),
    ];
    let reprs = seq![
        A1::c_repr(), A2::c_repr(), A3::c_repr(), A4::c_repr(), A5::c_repr(), A6::c_repr(),
        A7::c_repr(), A8::c_repr(), A9::c_repr(), A10::c_repr(), A11::c_repr(), A12::c_repr(),
    ];
    if args.len() == 12 {
        assert(components[0](args[0]) == passes::<A1>(a1.model(), args[0]));
        assert(components[1](args[1]) == passes::<A2>(a2.model(), args[1]));
        assert(components[2](args[2]) == passes::<A3>(a3.model(), args[2]));
        assert(components[3](args[3]) == passes::<A4>(a4.model(), args[3]));
        assert(components[4](args[4]) == passes::<A5>(a5.model(), args[4]));
        assert(components[5](args[5]) == passes::<A6>(a6.model(), args[5]));
        assert(components[6](args[6]) == passes::<A7>(a7.model(), args[6]));
        assert(components[7](args[7]) == passes::<A8>(a8.model(), args[7]));
        assert(components[8](args[8]) == passes::<A9>(a9.model(), args[8]));
        assert(components[9](args[9]) == passes::<A10>(a10.model(), args[9]));
        assert(components[10](args[10]) == passes::<A11>(a11.model(), args[10]));
        assert(components[11](args[11]) == passes::<A12>(a12.model(), args[11]));
        if <(A1, A2, A3, A4, A5, A6, A7, A8, A9, A10, A11, A12) as LeanArgs>::passed(
            (a1, a2, a3, a4, a5, a6, a7, a8, a9, a10, a11, a12).model(),
            args,
        ) {
            assert forall|i: int| 0 <= i < 12 implies components[i](#[trigger] args[i]) by {
                assert(i == 0 || i == 1 || i == 2 || i == 3 || i == 4 || i == 5 || i == 6
                    || i == 7 || i == 8 || i == 9 || i == 10 || i == 11);
            }
            A1::c_repr_is_that_of_the_type(args[0]);
            A2::c_repr_is_that_of_the_type(args[1]);
            A3::c_repr_is_that_of_the_type(args[2]);
            A4::c_repr_is_that_of_the_type(args[3]);
            A5::c_repr_is_that_of_the_type(args[4]);
            A6::c_repr_is_that_of_the_type(args[5]);
            A7::c_repr_is_that_of_the_type(args[6]);
            A8::c_repr_is_that_of_the_type(args[7]);
            A9::c_repr_is_that_of_the_type(args[8]);
            A10::c_repr_is_that_of_the_type(args[9]);
            A11::c_repr_is_that_of_the_type(args[10]);
            A12::c_repr_is_that_of_the_type(args[11]);
        }
    }
    assert(<(A1, A2, A3, A4, A5, A6, A7, A8, A9, A10, A11, A12) as LeanArgs>::abi_args() =~= shapes(
        reprs,
    ));
}

/// An argument represents a value exactly where it is what the value's component asks
/// for: it holds something of the representation's type that encodes the value.
pub proof fn arguments_hold_encodings<A: LeanAbi>(value: A, arg: CArg)
    ensures
        passes::<A>(value.model(), arg) <==> component(value)(arg),
        passes::<A>(value.model(), arg) <==> exists|c: A::CRepr|
            <A::CRepr as CValue>::held_by(arg) == Some(c) && #[trigger] A::c_encodes(
                value.model(),
                c,
            ),
{
    if let Some(c) = <A::CRepr as CValue>::held_by(arg) {
        assert(passes::<A>(value.model(), arg) == A::c_encodes(value.model(), c));
    }
}

} // verus!
