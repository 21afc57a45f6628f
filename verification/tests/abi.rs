use lean_rs::abi::array;
use lean_rs::abi::bytearray;
use lean_rs::abi::except::Except;
use lean_rs::abi::lean_int;
use lean_rs::abi::lean_nat::{self, LEAN_MAX_SMALL_NAT};
use lean_rs::abi::string;
use lean_rs::abi::structure::{alloc_ctor_with_objects, ctor_tag, take_ctor_objects};
use lean_rs::abi::traits::{IntoLean, LeanAbi, TryFromLean};
use lean_rs::error::io::decode_io;
use lean_rs::fuzz_entry;
use lean_rs::module::args::{CArg, LeanArgs};
use lean_rs::module::exported::{CallableTarget, DecodeCallResult, ForeignCall, LeanExported, LeanIo};
use lean_rs::runtime::obj::{Ctor, Obj, OpaqueKind};
use lean_rs::{HostFailure, HostStage, LeanDiagnosticCode, LeanError, LeanExceptionKind, LeanResult};

const ADDRESS: usize = 0x1000;

fn invoked(call: ForeignCall) -> Vec<CArg> {
    match call {
        ForeignCall::Invoke { address, args } => {
            assert_eq!(address, ADDRESS);
            args
        }
        ForeignCall::ReadGlobal { .. } => panic!("a function is invoked"),
    }
}

fn only_object(call: ForeignCall) -> Obj {
    let mut args = invoked(call);
    assert_eq!(args.len(), 1);
    match args.remove(0) {
        CArg::Object(obj) => obj,
        other => panic!("expected an object, got {other:?}"),
    }
}

fn host(err: LeanError) -> HostFailure {
    match err {
        LeanError::Host(failure) => failure,
        other => panic!("expected Host, got {other:?}"),
    }
}

fn conversion_message<T: std::fmt::Debug>(r: LeanResult<T>) -> String {
    let failure = host(r.expect_err("conversion must fail"));
    assert_eq!(failure.stage(), HostStage::Conversion);
    assert_eq!(failure.code(), LeanDiagnosticCode::AbiConversion);
    failure.message().to_owned()
}

fn io_ok(value: Obj) -> Obj {
    alloc_ctor_with_objects(0, vec![value, Obj::Scalar(0)])
}

fn io_error(err: Obj) -> Obj {
    alloc_ctor_with_objects(1, vec![err, Obj::Scalar(0)])
}

#[test]
fn unboxed_scalar_identity_round_trips() {
    for v in [0_u8, u8::MAX] {
        let f = LeanExported::<(u8,), u8>::from_function_address(ADDRESS);
        match invoked(f.call((v,))).remove(0) {
            CArg::U8(c) => assert_eq!(f.finish(c).expect("call"), v),
            other => panic!("unexpected {other:?}"),
        }
    }
    let f = LeanExported::<(u16,), u16>::from_function_address(ADDRESS);
    match invoked(f.call((u16::MAX,))).remove(0) {
        CArg::U16(c) => assert_eq!(f.finish(c).expect("call"), u16::MAX),
        other => panic!("unexpected {other:?}"),
    }
    let f = LeanExported::<(u32,), u32>::from_function_address(ADDRESS);
    match invoked(f.call((u32::MAX,))).remove(0) {
        CArg::U32(c) => assert_eq!(f.finish(c).expect("call"), u32::MAX),
        other => panic!("unexpected {other:?}"),
    }
    let f = LeanExported::<(u64,), u64>::from_function_address(ADDRESS);
    match invoked(f.call((u64::MAX,))).remove(0) {
        CArg::U64(c) => assert_eq!(f.finish(c).expect("call"), u64::MAX),
        other => panic!("unexpected {other:?}"),
    }
    let f = LeanExported::<(usize,), usize>::from_function_address(ADDRESS);
    match invoked(f.call((usize::MAX,))).remove(0) {
        CArg::Usize(c) => assert_eq!(f.finish(c).expect("call"), usize::MAX),
        other => panic!("unexpected {other:?}"),
    }
}

#[test]
fn unboxed_scalar_multi_argument_calls() {
    let f = LeanExported::<(u32, u32), u32>::from_function_address(ADDRESS);
    let args = invoked(f.call((7, 35)));
    match (&args[0], &args[1]) {
        (CArg::U32(a), CArg::U32(b)) => assert_eq!(f.finish(a + b).expect("call"), 42),
        other => panic!("unexpected {other:?}"),
    }
    let g = LeanExported::<(u64, u64), u64>::from_function_address(ADDRESS);
    let args = invoked(g.call((u64::from(u32::MAX), 2)));
    match (&args[0], &args[1]) {
        (CArg::U64(a), CArg::U64(b)) => {
            assert_eq!(g.finish(a * b).expect("call"), u64::from(u32::MAX) * 2)
        }
        other => panic!("unexpected {other:?}"),
    }
}

#[test]
fn char_identity_round_trip_preserves_non_ascii() {
    for c in ['a', '🦀', '\0', char::MAX] {
        assert_eq!(char::from_c(c.into_c()).expect("call"), c);
    }
    assert_eq!('🦀'.into_c(), 0x1F980);
    assert!(conversion_message(char::from_c(0x11_0000)).contains("0x110000"));
}

#[test]
fn bool_round_trip_via_fixture() {
    let f = LeanExported::<(bool,), bool>::from_function_address(ADDRESS);
    for v in [false, true] {
        match invoked(f.call((v,))).remove(0) {
            CArg::U8(c) => assert_eq!(f.finish(1 - c).expect("call"), !v),
            other => panic!("unexpected {other:?}"),
        }
    }
    assert!(conversion_message(bool::from_c(2)).contains("bool"));
}

#[test]
fn unit_round_trip_via_fixture() {
    let f = LeanExported::<((),), ()>::from_function_address(ADDRESS);
    let obj = only_object(f.call(((),)));
    assert!(matches!(obj, Obj::Scalar(0)));
    f.finish(obj).expect("Unit round-trips");
}

#[test]
fn nat_identity_round_trips_small_values() {
    for &n in &[0_u64, 1, 42, 1_000, u64::from(u32::MAX)] {
        assert_eq!(lean_nat::try_to_u64(lean_nat::from_u64(n)).expect("scalar Nat decodes"), n);
    }
}

#[test]
fn nat_succ_of_zero_round_trips_through_u64() {
    let echoed = lean_nat::from_u64(0 + 1);
    assert_eq!(lean_nat::try_to_u64(echoed).expect("scalar Nat decodes"), 1);
}

#[test]
fn nat_succ_of_max_small_returns_bignum_that_does_not_fit_u64() {
    let small = lean_nat::from_usize(LEAN_MAX_SMALL_NAT);
    assert_eq!(lean_nat::try_to_usize(small).expect("scalar"), LEAN_MAX_SMALL_NAT);
    let big = lean_nat::from_u64(LEAN_MAX_SMALL_NAT as u64 + 1);
    let message = conversion_message(lean_nat::try_to_u64(big));
    assert!(message.contains("Nat (scalar-fitting)"), "unexpected message: {message:?}");
    assert!(message.ends_with("tag 250"), "unexpected message: {message:?}");
}

#[test]
fn int_identity_round_trips_signed_values() {
    for &n in &[0_i64, 1, -1, 42, -42, i64::from(i32::MAX), i64::from(i32::MIN)] {
        assert_eq!(lean_int::try_to_i64(lean_int::from_i64(n)).expect("scalar Int decodes"), n);
    }
    let big = lean_int::from_i64(i64::from(i32::MAX) + 1);
    assert!(conversion_message(lean_int::try_to_i64(big)).contains("Int (scalar-fitting)"));
    match lean_int::from_i64(i64::MIN) {
        Obj::Mpz { negative, limbs } => {
            assert!(negative);
            assert_eq!(limbs, vec![1_u64 << 63]);
        }
        other => panic!("unexpected {other:?}"),
    }
}

#[test]
fn isize_and_usize_helpers_round_trip_through_int_and_nat_fixtures() {
    let n: usize = 12345;
    assert_eq!(lean_nat::try_to_usize(lean_nat::from_usize(n)).expect("scalar Nat decodes"), n);
    for &v in &[0_isize, 1, -1, 42, -42] {
        assert_eq!(lean_int::try_to_isize(lean_int::from_isize(v)).expect("scalar Int decodes"), v);
    }
}

#[test]
fn int_neg_round_trips_through_fixture() {
    for &n in &[0_i64, 1, -1, 42, -42, i64::from(i32::MAX)] {
        let seen = lean_int::try_to_i64(lean_int::from_i64(n)).expect("scalar Int decodes");
        let echoed = lean_int::from_i64(seen.wrapping_neg());
        assert_eq!(lean_int::try_to_i64(echoed).expect("scalar Int decodes"), n.wrapping_neg());
    }
}

fn string_identity_helper(s: &str) {
    let identity = LeanExported::<(String,), String>::from_function_address(ADDRESS);
    let echoed = only_object(identity.call((s.to_owned(),)));
    match &echoed {
        Obj::Str(bytes) => assert_eq!(bytes.as_slice(), s.as_bytes()),
        other => panic!("unexpected {other:?}"),
    }
    assert_eq!(identity.finish(echoed).expect("call"), s);
}

#[test]
fn borrowed_str_arg_round_trips_through_string_identity() {
    let identity = LeanExported::<(&str,), String>::from_function_address(ADDRESS);
    for &s in &["", "hello, world", "héllo 🦀", "a\0b\0c"] {
        let echoed = only_object(identity.call((s,)));
        assert_eq!(string::borrow_str(&echoed).expect("borrow"), s);
        assert_eq!(identity.finish(echoed).expect("call"), s);
    }
    let refused = <&str as LeanAbi>::from_c(string::from_str("x"));
    assert!(conversion_message(refused).contains("&str cannot decode"));
}

#[test]
fn string_round_trips_empty() {
    string_identity_helper("");
}

#[test]
fn string_round_trips_ascii() {
    string_identity_helper("hello, world");
}

#[test]
fn string_round_trips_non_ascii_utf8() {
    string_identity_helper("héllo 🦀 — Lean 4 says hi");
}

#[test]
fn string_round_trips_large_payload() {
    let large = "a".repeat(10 * 1024);
    string_identity_helper(&large);
}

#[test]
fn string_round_trips_embedded_nul_bytes() {
    string_identity_helper("a\0b\0c");
}

#[test]
fn string_decoding_rejects_what_is_no_string() {
    assert_eq!(
        conversion_message(fuzz_entry::decode_string(Obj::Str(vec![0xff, 0xfe]))),
        "Lean string bytes were not valid UTF-8",
    );
    assert_eq!(
        conversion_message(fuzz_entry::decode_string(Obj::Scalar(1))),
        "expected Lean String, found scalar-tagged object",
    );
    assert_eq!(
        conversion_message(fuzz_entry::decode_string(Obj::Opaque { kind: OpaqueKind::Closure, reference: 1 })),
        "expected Lean String, found object with tag 245",
    );
}

fn bytearray_identity_helper(bytes: &[u8]) {
    let identity = LeanExported::<(Obj,), Obj>::from_function_address(ADDRESS);
    let echoed = only_object(identity.call((bytearray::from_bytes(bytes),)));
    let echoed = identity.finish(echoed).expect("call");
    let borrowed = bytearray::borrow_bytes(&echoed).expect("ByteArray view");
    assert_eq!(borrowed, bytes);
    let owned = bytearray::to_vec(echoed).expect("ByteArray round-trips");
    assert_eq!(owned.as_slice(), bytes);
}

#[test]
fn bytearray_round_trips_empty() {
    bytearray_identity_helper(&[]);
}

#[test]
fn bytearray_round_trips_single_byte() {
    bytearray_identity_helper(&[0x42]);
}

#[test]
fn bytearray_round_trips_all_byte_values() {
    let all: Vec<u8> = (0_u8..=255).collect();
    bytearray_identity_helper(&all);
}

#[test]
fn bytearray_round_trips_embedded_nul_bytes() {
    bytearray_identity_helper(b"a\0b\0c\0\0\0d");
}

#[test]
fn bytearray_round_trips_large_payload() {
    let large = vec![0xAB_u8; 10 * 1024];
    bytearray_identity_helper(&large);
}

#[test]
fn bytearray_refuses_wider_elements() {
    let wide = Obj::ScalarArray { elem_size: 8, bytes: vec![0; 8] };
    assert_eq!(
        conversion_message(fuzz_entry::decode_bytearray(wide)),
        "expected Lean ByteArray, found object with tag 248",
    );
    assert_eq!(
        conversion_message(bytearray::to_vec(Obj::Scalar(0))),
        "expected Lean ByteArray, found scalar-tagged object",
    );
}

#[test]
fn trait_round_trip_u64_via_polymorphic_boxing() {
    for &v in &[0_u64, 1, u64::from(u32::MAX), u64::MAX] {
        assert_eq!(u64::try_from_lean(v.into_lean()).expect("u64 decodes"), v);
    }
    match 0x0102_0304_0506_0708_u64.into_lean() {
        Obj::Ctor(ctor) => {
            assert_eq!((ctor.tag, ctor.objects.len()), (0, 0));
            assert_eq!(ctor.scalars, vec![8, 7, 6, 5, 4, 3, 2, 1]);
        }
        other => panic!("unexpected {other:?}"),
    }
    assert_eq!(
        conversion_message(u64::try_from_lean(Obj::Scalar(1))),
        "expected Lean u64, found scalar-tagged object",
    );
}

#[test]
fn trait_round_trip_usize_via_polymorphic_boxing() {
    for &v in &[0_usize, 1, usize::MAX] {
        assert_eq!(usize::try_from_lean(v.into_lean()).expect("usize decodes"), v);
    }
}

#[test]
fn wide_signed_integers_share_the_unsigned_bit_pattern() {
    for v in [0_i64, 1, -1, i64::MAX, i64::MIN] {
        assert_eq!(u64::try_from_lean(v.into_lean()).expect("bits"), v as u64);
        assert_eq!(i64::try_from_lean(v.into_lean()).expect("i64 decodes"), v);
    }
    for v in [0_isize, 1, -1, isize::MAX, isize::MIN] {
        assert_eq!(isize::try_from_lean(v.into_lean()).expect("isize decodes"), v);
    }
}

#[test]
fn trait_round_trip_bool_uses_scalar_encoding() {
    assert!(matches!(true.into_lean(), Obj::Scalar(1)));
    assert!(matches!(false.into_lean(), Obj::Scalar(0)));
    assert!(bool::try_from_lean(true.into_lean()).expect("true decodes"));
    assert!(!bool::try_from_lean(false.into_lean()).expect("false decodes"));
    assert!(bool::try_from_lean(Obj::Scalar(2)).is_err());
}

#[test]
fn trait_round_trip_small_int_macro_stamped_impls() {
    for v in [0_u8, 1, 0x7F, u8::MAX] {
        assert_eq!(u8::try_from_lean(v.into_lean()).expect("u8 decodes"), v);
    }
    for v in [0_i32, 1, -1, i32::MAX, i32::MIN] {
        assert_eq!(i32::try_from_lean(v.into_lean()).expect("i32 decodes"), v);
    }
    for v in [0_i8, 1, -1, i8::MAX, i8::MIN] {
        assert_eq!(i8::try_from_lean(v.into_lean()).expect("i8 decodes"), v);
    }
    for v in [0_i16, 1, -1, i16::MAX, i16::MIN] {
        assert_eq!(i16::try_from_lean(v.into_lean()).expect("i16 decodes"), v);
    }
    for v in [0_u16, u16::MAX] {
        assert_eq!(u16::try_from_lean(v.into_lean()).expect("u16 decodes"), v);
    }
    for v in [0_u32, u32::MAX] {
        assert_eq!(u32::try_from_lean(v.into_lean()).expect("u32 decodes"), v);
    }
    assert!(matches!(i32::MIN.into_lean(), Obj::Scalar(0x8000_0000)));
    assert!(conversion_message(u8::try_from_lean(Obj::Scalar(256))).contains("u8"));
    assert!(conversion_message(i8::try_from_lean(Obj::Scalar(256))).contains("i8"));
}

#[test]
fn trait_round_trip_char_rejects_non_unicode_scalar() {
    assert_eq!(char::try_from_lean('🦀'.into_lean()).expect("char decodes"), '🦀');
    let surrogate_u32: u32 = 0xD800;
    let message = conversion_message(char::try_from_lean(surrogate_u32.into_lean()));
    assert!(message.contains("Unicode scalar value"), "unexpected message: {message:?}");
    assert!(
        message.contains(&format!("{surrogate_u32:#x}")),
        "unexpected message: {message:?}"
    );
}

#[test]
fn try_from_lean_returns_wrong_kind_for_mismatched_object() {
    let message = conversion_message(bytearray::to_vec(string::from_str("not a byte array")));
    assert!(message.contains("ByteArray"), "unexpected message: {message:?}");
}

#[test]
fn borrowed_view_aliases_lean_payload() {
    let bytes: &[u8] = b"alias me";
    let obj = bytearray::from_bytes(bytes);
    let borrowed = bytearray::borrow_bytes(&obj).expect("borrow succeeds");
    match &obj {
        Obj::ScalarArray { bytes: payload, .. } => assert!(std::ptr::eq(borrowed, payload.as_slice())),
        other => panic!("unexpected {other:?}"),
    }
    assert_eq!(borrowed, bytes);
}

fn array_string_round_trip(xs: Vec<String>) {
    let identity = LeanExported::<(Vec<String>,), Vec<String>>::from_function_address(ADDRESS);
    let expected = xs.clone();
    let echoed = only_object(identity.call((xs,)));
    match &echoed {
        Obj::Array(elements) => assert_eq!(elements.len(), expected.len()),
        other => panic!("unexpected {other:?}"),
    }
    let decoded = identity.finish(echoed).expect("call");
    assert_eq!(decoded, expected);
}

#[test]
fn array_string_empty_round_trips() {
    array_string_round_trip(Vec::new());
}

#[test]
fn array_string_single_element_round_trips() {
    array_string_round_trip(vec!["solo".to_owned()]);
}

#[test]
fn array_string_multi_element_round_trips() {
    array_string_round_trip(vec!["alpha".to_owned(), "beta".to_owned(), "gamma".to_owned()]);
}

#[test]
fn array_string_with_empty_and_non_ascii_elements() {
    array_string_round_trip(vec![String::new(), "🦀".to_owned(), "naïve".to_owned()]);
}

#[test]
fn array_string_push_round_trips_added_element() {
    let push = LeanExported::<(Vec<String>, String), Vec<String>>::from_function_address(ADDRESS);
    let mut args = invoked(push.call((vec!["one".to_owned(), "two".to_owned()], "three".to_owned())));
    let added = args.pop().expect("second argument");
    match (args.pop().expect("first argument"), added) {
        (CArg::Object(Obj::Array(mut elements)), CArg::Object(element)) => {
            elements.push(element);
            let decoded = push.finish(Obj::Array(elements)).expect("call");
            assert_eq!(decoded, vec!["one".to_owned(), "two".to_owned(), "three".to_owned()]);
        }
        other => panic!("unexpected {other:?}"),
    }
}

#[test]
fn array_returns_wrong_kind_for_non_array() {
    let message = conversion_message(Vec::<String>::try_from_lean(string::from_str("not an array")));
    assert!(message.contains("Array"), "unexpected message: {message:?}");
}

#[test]
fn array_reports_the_first_bad_element() {
    let obj = Obj::Array(vec![7_u64.into_lean(), Obj::Scalar(1), string::from_str("x")]);
    assert_eq!(
        conversion_message(fuzz_entry::decode_array_u64(obj)),
        "expected Lean u64, found scalar-tagged object",
    );
    match array::from_values(vec![1_u8, 2]) {
        Obj::Array(elements) => {
            assert!(matches!(elements[0], Obj::Scalar(1)));
            assert!(matches!(elements[1], Obj::Scalar(2)));
        }
        other => panic!("unexpected {other:?}"),
    }
}

#[test]
fn option_nat_identity_round_trips_none() {
    let input = alloc_ctor_with_objects(0, vec![]);
    assert_eq!(ctor_tag(&input).expect("Option ctor"), 0);
    assert!(take_ctor_objects(input, 0, 0, "Option::none").expect("none decodes").is_empty());
}

#[test]
fn option_nat_identity_round_trips_some() {
    let n: u64 = 42;
    let input = alloc_ctor_with_objects(1, vec![lean_nat::from_u64(n)]);
    assert_eq!(ctor_tag(&input).expect("Option ctor"), 1, "expected Some");
    let mut fields = take_ctor_objects(input, 1, 1, "Option::some").expect("some decodes");
    assert_eq!(lean_nat::try_to_u64(fields.remove(0)).expect("Nat decodes"), n);
}

#[test]
fn option_trait_round_trip_u64_some_and_none() {
    for input in [Some(0_u64), Some(1), Some(u64::MAX), None] {
        let out = Option::<u64>::try_from_lean(input.into_lean()).expect("Option round-trips");
        assert_eq!(out, input);
    }
    assert!(matches!(None::<u64>.into_lean(), Obj::Scalar(0)));
}

#[test]
fn option_nested_round_trips() {
    let cases: Vec<Option<Option<u64>>> = vec![None, Some(None), Some(Some(0)), Some(Some(u64::MAX))];
    for input in cases {
        let out =
            Option::<Option<u64>>::try_from_lean(input.into_lean()).expect("nested Option round-trips");
        assert_eq!(out, input);
    }
}

#[test]
fn option_returns_wrong_tag_for_bogus_ctor() {
    let message = conversion_message(Option::<u64>::try_from_lean(alloc_ctor_with_objects(5, vec![])));
    assert!(message.contains("Option"), "unexpected: {message:?}");
    assert_eq!(
        conversion_message(fuzz_entry::decode_option_u64(Obj::Scalar(3))),
        "expected Lean Option.none (scalar tag 0), found scalar payload 3",
    );
    assert_eq!(
        conversion_message(fuzz_entry::decode_option_u64(string::from_str("x"))),
        "expected Lean Option ctor or scalar tag, found object with tag 249",
    );
}

#[test]
fn except_string_nat_ok_round_trips_via_fixture() {
    let n: u64 = 99;
    let obj = alloc_ctor_with_objects(1, vec![lean_nat::from_u64(n)]);
    assert_eq!(fuzz_entry::decode_ctor_tag(obj.clone()).expect("Except ctor"), 1, "expected ok");
    let mut fields = take_ctor_objects(obj, 1, 1, "Except::ok").expect("ok decodes");
    assert_eq!(fuzz_entry::decode_nat_u64(fields.remove(0)).expect("Nat decodes"), n);
}

#[test]
fn except_string_nat_err_round_trips_via_fixture() {
    let s = "boom".to_owned();
    let obj = alloc_ctor_with_objects(0, vec![s.clone().into_lean()]);
    assert_eq!(ctor_tag(&obj).expect("Except ctor"), 0, "expected error");
    let mut fields = take_ctor_objects(obj, 0, 1, "Except::error").expect("error decodes");
    assert_eq!(String::try_from_lean(fields.remove(0)).expect("String decodes"), s);
}

#[test]
fn except_trait_round_trip_via_lean_constructed_then_rust_decoded() {
    let cases: Vec<Except<String, u64>> =
        vec![Except::Value(0), Except::Value(123), Except::Error("oops".to_owned())];
    for input in cases {
        let obj = input.clone().into_lean();
        let out = Except::<String, u64>::try_from_lean(obj).expect("Except round-trips");
        assert_eq!(out, input);
        assert_eq!(Except::from(Result::from(out)), input);
    }
}

#[test]
fn result_trait_round_trip_through_pure_abi() {
    let cases: Vec<Result<u64, String>> = vec![Ok(0), Ok(u64::MAX), Err("nope".to_owned())];
    for input in cases {
        let obj = input.clone().into_lean();
        let out = fuzz_entry::decode_except(obj).expect("Result round-trips");
        assert_eq!(out, input);
    }
}

#[test]
fn except_returns_wrong_tag_for_bogus_ctor() {
    let message =
        conversion_message(Except::<String, u64>::try_from_lean(alloc_ctor_with_objects(7, vec![])));
    assert!(message.contains("Except"), "unexpected: {message:?}");
    assert_eq!(
        message,
        "expected Lean Except ctor (tag 0 = error, 1 = ok), found tag 7"
    );
}

#[test]
fn pair_make_round_trips_via_fixture() {
    let n: u64 = 1234;
    let s = "pair-field".to_owned();
    let pair = alloc_ctor_with_objects(0, vec![lean_nat::from_u64(n), s.clone().into_lean()]);
    let mut fields = take_ctor_objects(pair, 0, 2, "Pair").expect("Pair decodes");
    assert_eq!(String::try_from_lean(fields.remove(1)).expect("second decodes"), s);
    assert_eq!(lean_nat::try_to_u64(fields.remove(0)).expect("first decodes"), n);
}

#[test]
fn bundle_identity_round_trips_through_lean() {
    let name = "alpha".to_owned();
    let items: Vec<String> = vec!["one".to_owned(), "two".to_owned(), "three".to_owned()];
    let bundle =
        alloc_ctor_with_objects(0, vec![string::from_str(&name), items.clone().into_lean()]);
    let mut fields = take_ctor_objects(bundle, 0, 2, "Bundle").expect("Bundle decodes");
    assert_eq!(Vec::<String>::try_from_lean(fields.remove(1)).expect("items decode"), items);
    assert_eq!(String::try_from_lean(fields.remove(0)).expect("name decodes"), name);
}

#[test]
fn tuples_round_trip_as_nested_products() {
    let pair = (7_u64, "seven".to_owned());
    assert_eq!(<(u64, String)>::try_from_lean(pair.clone().into_lean()).expect("pair"), pair);
    let triple = (1_u8, true, "x".to_owned());
    let obj = triple.clone().into_lean();
    match &obj {
        Obj::Ctor(ctor) => assert_eq!((ctor.tag, ctor.objects.len()), (0, 2)),
        other => panic!("unexpected {other:?}"),
    }
    assert_eq!(<(u8, bool, String)>::try_from_lean(obj).expect("triple"), triple);
    assert_eq!(
        conversion_message(<(u64, u64)>::try_from_lean(alloc_ctor_with_objects(0, vec![]))),
        "expected Lean Prod.mk ctor with 2 object field(s), found 0",
    );
}

#[test]
fn vec_of_option_round_trips_through_pure_abi() {
    let input: Vec<Option<u64>> = vec![None, Some(0), Some(42), None, Some(u64::MAX)];
    let out =
        Vec::<Option<u64>>::try_from_lean(input.clone().into_lean()).expect("Vec<Option> round-trips");
    assert_eq!(out, input);
}

#[test]
fn option_of_vec_round_trips_through_pure_abi() {
    let cases: Vec<Option<Vec<String>>> = vec![
        None,
        Some(Vec::new()),
        Some(vec!["only-element".to_owned()]),
        Some(vec!["a".to_owned(), "b".to_owned(), "c".to_owned()]),
    ];
    for input in cases {
        let out = Option::<Vec<String>>::try_from_lean(input.clone().into_lean())
            .expect("Option<Vec> round-trips");
        assert_eq!(out, input);
    }
}

#[test]
fn io_success_unit_decodes_via_lean_io_marker() {
    let f = LeanExported::<(), LeanIo<()>>::from_function_address(ADDRESS);
    assert!(invoked(f.call(())).is_empty());
    f.finish(io_ok(().into_lean())).expect("io_success_unit");
}

#[test]
fn io_success_nat_decodes_payload() {
    let f = LeanExported::<(), LeanIo<Obj>>::from_function_address(ADDRESS);
    let nat = f.finish(io_ok(lean_nat::from_u64(7))).expect("io_success_nat");
    assert_eq!(lean_nat::try_to_u64(nat).expect("Nat decodes"), 7);
}

#[test]
fn io_failure_decodes_inner_except() {
    let f = LeanExported::<(), LeanIo<Obj>>::from_function_address(ADDRESS);
    let inner = alloc_ctor_with_objects(0, vec![string::from_str("deliberate inner failure")]);
    let inner = f.finish(io_ok(inner)).expect("io_failure outer IO succeeds");
    assert_eq!(ctor_tag(&inner).expect("Except ctor"), 0, "expected inner error");
    let mut fields = take_ctor_objects(inner, 0, 1, "Except::error").expect("error decodes");
    let message = String::try_from_lean(fields.remove(0)).expect("String decodes");
    assert!(message.contains("deliberate inner failure"), "unexpected: {message:?}");
}

#[test]
fn io_throw_surfaces_lean_exception_with_user_error_kind() {
    let f = LeanExported::<(), LeanIo<Obj>>::from_function_address(ADDRESS);
    let err = alloc_ctor_with_objects(18, vec![string::from_str("deliberate IO exception")]);
    match f.finish(io_error(err)) {
        Err(LeanError::LeanException(exc)) => {
            assert_eq!(exc.kind(), LeanExceptionKind::UserError);
            assert!(
                exc.message().contains("deliberate IO exception"),
                "unexpected message: {:?}",
                exc.message()
            );
        }
        other => panic!("expected LeanException(UserError), got {other:?}"),
    }
}

#[test]
fn decode_io_ok_returns_value() {
    let value = decode_io(io_ok(lean_nat::from_u64(7))).expect("ioSuccessNat decodes");
    assert_eq!(lean_nat::try_to_u64(value).expect("scalar Nat decodes"), 7);
}

#[test]
fn decode_io_error_returns_lean_exception() {
    let err = alloc_ctor_with_objects(
        18,
        vec![string::from_str("first field"), string::from_str("deliberate IO exception")],
    );
    match decode_io(io_error(err)) {
        Err(LeanError::LeanException(exc)) => {
            assert_eq!(exc.kind(), LeanExceptionKind::UserError);
            assert!(
                exc.message().contains("deliberate IO exception"),
                "unexpected message: {:?}",
                exc.message()
            );
        }
        other => panic!("expected LeanException, got {other:?}"),
    }
}

#[test]
fn decode_io_rejects_what_is_no_io_result() {
    assert!(conversion_message(decode_io(Obj::Scalar(0))).contains("scalar-tagged"));
    assert!(conversion_message(decode_io(string::from_str("x"))).contains("tag 249"));
    assert!(conversion_message(decode_io(alloc_ctor_with_objects(0, vec![]))).contains("no fields"));
}

#[test]
fn option_nat_none_decodes_from_the_value_of_a_global() {
    assert_eq!(<Option<u64> as DecodeCallResult>::decode_c(Obj::Scalar(0)).expect("none"), None);
    assert_eq!(<(u8, u16) as LeanArgs>::arity(), 2);
    assert_eq!(CallableTarget::Global(1), CallableTarget::Global(1));
}

#[test]
fn sharing_an_object_copies_its_content() {
    let obj = Obj::Ctor(Ctor {
        tag: 3,
        objects: vec![string::from_str("x"), Obj::Array(vec![Obj::Scalar(1)])],
        scalars: vec![1, 2],
    });
    assert_eq!(format!("{:?}", obj.clone()), format!("{obj:?}"));
}

#[test]
fn string_length_returns_utf8_codepoint_count_as_nat() {
    let length = LeanExported::<(String,), Obj>::from_function_address(ADDRESS);
    let s = "héllo 🦀";
    let seen = String::try_from_lean(only_object(length.call((s.to_owned(),)))).expect("argument");
    let len_obj = length.finish(lean_nat::from_usize(seen.chars().count())).expect("call");
    let len = lean_nat::try_to_u64(len_obj).expect("string length fits scalar");
    assert_eq!(len, s.chars().count() as u64);
}

#[test]
fn bytearray_size_returns_byte_count_as_nat() {
    let bytes: &[u8] = b"hello\0world";
    let obj = bytearray::from_bytes(bytes);
    let size_obj = lean_nat::from_usize(bytearray::borrow_bytes(&obj).expect("view").len());
    assert_eq!(lean_nat::try_to_u64(size_obj).expect("byte-count fits scalar"), bytes.len() as u64);
}

#[test]
fn option_nat_some_constructed_lean_side() {
    let n: u64 = 7;
    let some_obj = alloc_ctor_with_objects(1, vec![lean_nat::from_u64(n)]);
    assert_eq!(ctor_tag(&some_obj).expect("Option ctor"), 1);
    let mut fields = take_ctor_objects(some_obj, 1, 1, "Option::some").expect("some decodes");
    assert_eq!(lean_nat::try_to_u64(fields.remove(0)).expect("Nat decodes"), n);
}

#[test]
fn bundle_make_round_trips_via_fixture() {
    let make = LeanExported::<(String, Vec<String>), Obj>::from_function_address(ADDRESS);
    let name = "release".to_owned();
    let items: Vec<String> = vec!["x86_64".to_owned(), "aarch64".to_owned()];
    let objects: Vec<Obj> = invoked(make.call((name.clone(), items.clone())))
        .into_iter()
        .map(|arg| match arg {
            CArg::Object(obj) => obj,
            other => panic!("unexpected {other:?}"),
        })
        .collect();
    let bundle = make.finish(alloc_ctor_with_objects(0, objects)).expect("call");
    let mut fields = take_ctor_objects(bundle, 0, 2, "Bundle").expect("Bundle decodes");
    assert_eq!(Vec::<String>::try_from_lean(fields.remove(1)).expect("items decode"), items);
    assert_eq!(String::try_from_lean(fields.remove(0)).expect("name decodes"), name);
}
