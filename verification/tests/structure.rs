use lean_rs::abi::string;
use lean_rs::abi::structure::{alloc_ctor_with_objects, ctor_tag, take_ctor_objects, view};
use lean_rs::runtime::obj::{Ctor, Obj};
use lean_rs::{LeanError, LeanResult};

fn scalar_obj(payload: usize) -> Obj {
    Obj::Scalar(payload)
}

fn ctor_with_scalar_tail() -> Obj {
    let mut scalars = vec![0_u8; 16];
    scalars[0] = 1;
    scalars[8..16].copy_from_slice(&0x0102_0304_0506_0708_u64.to_le_bytes());
    Obj::Ctor(Ctor { tag: 2, objects: vec![], scalars })
}

fn message<T>(r: LeanResult<T>) -> String {
    match r {
        Err(LeanError::Host(failure)) => failure.message().to_owned(),
        _ => panic!("expected a host failure"),
    }
}

#[test]
fn view_discriminates_scalar_and_constructor() {
    let scalar = scalar_obj(3);
    assert!(view(&scalar).is_scalar());
    assert_eq!(view(&scalar).scalar_payload("TestScalar").expect("scalar payload"), 3);
    assert_eq!(view(&scalar).sum_tag().expect("scalar sum tag"), 3);

    let ctor = alloc_ctor_with_objects(1, vec![]);
    let ctor_view = view(&ctor).ctor().expect("ctor view");
    assert!(!view(&ctor).is_scalar());
    assert_eq!(ctor_view.tag(), 1);
    assert_eq!(view(&ctor).sum_tag().expect("heap sum tag"), 1);
}

#[test]
fn constructor_shape_checks_tag_and_object_field_count() {
    let ctor = alloc_ctor_with_objects(4, vec![scalar_obj(9)]);
    let ctor_view = view(&ctor).ctor_shape(4, 1, "OneField").expect("expected ctor shape");
    assert_eq!(ctor_view.tag(), 4);

    assert!(view(&ctor).ctor_shape(5, 1, "OneField").is_err());
    assert!(view(&ctor).ctor_shape(4, 2, "OneField").is_err());
    assert_eq!(
        message(view(&ctor).ctor_shape(5, 1, "OneField")),
        "expected Lean OneField ctor (tag 5), found tag 4",
    );
    assert_eq!(
        message(view(&ctor).ctor_shape(4, 2, "OneField")),
        "expected Lean OneField ctor with 2 object field(s), found 1",
    );
}

#[test]
fn scalar_tail_reads_are_bounds_checked() {
    let ctor = ctor_with_scalar_tail();
    let ctor_view = view(&ctor).ctor_shape(2, 0, "ScalarTail").expect("expected ctor shape");

    assert!(ctor_view.bool(0, "ScalarTail.flag").expect("bool tail"));
    assert_eq!(
        ctor_view.uint64(8, "ScalarTail.count").expect("u64 tail"),
        0x0102_0304_0506_0708,
    );
    assert!(ctor_view.uint64(9, "ScalarTail.count").is_err());
    assert!(ctor_view.uint8(16, "ScalarTail.flag").is_err());
    assert_eq!(
        message(ctor_view.uint64(9, "ScalarTail.count")),
        "Lean ScalarTail.count scalar-tail read at offset 9 for 8 byte(s) exceeds scalar tail size 16",
    );
    assert_eq!(
        message(ctor_view.bool(8, "ScalarTail.flag")),
        "Lean ScalarTail.flag byte 8 is not in {0, 1}",
    );
}

#[test]
fn malformed_object_shape_errors_without_panicking() {
    let scalar = scalar_obj(0);
    assert!(view(&scalar).ctor().is_err());

    let wide_scalar = scalar_obj(usize::from(u8::MAX) + 1);
    assert!(view(&wide_scalar).sum_tag().is_err());
    assert_eq!(
        message(view(&wide_scalar).sum_tag()),
        "Lean scalar constructor tag 256 does not fit in u8",
    );

    let ctor = ctor_with_scalar_tail();
    assert!(view(&ctor).scalar_payload("ExpectedScalar").is_err());
    assert_eq!(
        message(view(&ctor).scalar_payload("ExpectedScalar")),
        "expected Lean ExpectedScalar scalar-tagged object, found heap object with tag 2",
    );
    assert_eq!(
        message(ctor_tag(&string::from_str("x"))),
        "expected Lean constructor, found object with tag 249",
    );
}

#[test]
fn take_ctor_objects_preserves_field_ownership() {
    let child = string::from_str("field");
    let witness = child.clone();
    let parent = alloc_ctor_with_objects(0, vec![child]);
    let mut fields = take_ctor_objects(parent, 0, 1, "Parent").expect("take field");
    let taken = fields.remove(0);
    assert!(fields.is_empty());
    assert_eq!(string::borrow_str(&taken).expect("taken"), "field");
    drop(taken);
    assert_eq!(string::borrow_str(&witness).expect("witness"), "field");
}

#[test]
fn take_ctor_objects_returns_the_fields_in_order() {
    let parent = alloc_ctor_with_objects(0, vec![string::from_str("field"), scalar_obj(7)]);
    let fields = take_ctor_objects(parent, 0, 2, "Parent").expect("take fields");
    assert_eq!(string::borrow_str(&fields[0]).expect("string"), "field");
    assert!(matches!(fields[1], Obj::Scalar(7)));
}
