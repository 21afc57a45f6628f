//! Constructor objects: reading their headers and scalar fields, building them
//! from object fields, and taking those fields out again.

use vstd::bytes::*;
use vstd::prelude::*;
use vstd::slice::*;
use vstd::string::*;

use crate::abi::scalar::{lemma_little_endian_read, little_endian};
use crate::abi::traits::{conversion_error, reads};
use crate::error::{LeanResult, abi_conversion_error};
use crate::runtime::obj::{Ctor, LEAN_MAX_CTOR_FIELDS, LEAN_MAX_CTOR_TAG, Obj};
use crate::text::{cat2, cat3, cat4, cat5, cat6, decimal, decimal_string};

verus! {

/// The payload of a scalar, or why there is none.
pub open spec fn scalar_payload_of(obj: Obj, label: Seq<char>) -> Result<usize, Seq<char>> {
    match obj {
        Obj::Scalar(payload) => Ok(payload),
        _ => Err(
            "expected Lean "@ + label + " scalar-tagged object, found heap object with tag "@
                + decimal(obj.spec_tag() as nat),
        ),
    }
}

/// The constructor that an object is, or why it is none.
pub open spec fn ctor_of(obj: Obj) -> Result<Ctor, Seq<char>> {
    match obj {
        Obj::Ctor(ctor) => Ok(ctor),
        Obj::Scalar(_) => Err("expected Lean constructor, found scalar-tagged object"@),
        _ => Err(
            "expected Lean constructor, found object with tag "@ + decimal(obj.spec_tag() as nat),
        ),
    }
}

/// The tag of a constructor, or why there is none.
pub open spec fn ctor_tag_of(obj: Obj) -> Result<u8, Seq<char>> {
    match ctor_of(obj) {
        Ok(ctor) => Ok(ctor.tag),
        Err(message) => Err(message),
    }
}

/// The tag of a constructor in either of its two forms: a scalar where it has
/// no fields, a heap constructor where it has some.
pub open spec fn sum_tag_of(obj: Obj) -> Result<u8, Seq<char>> {
    match obj {
        Obj::Scalar(payload) => if payload <= 0xff {
            Ok(payload as u8)
        } else {
            Err(
                "Lean scalar constructor tag "@ + decimal(payload as nat)
                    + " does not fit in u8"@,
            )
        },
        _ => ctor_tag_of(obj),
    }
}

/// `ctor` where it has the wanted tag, or why it has not.
pub open spec fn with_tag(ctor: Ctor, tag: u8, label: Seq<char>) -> Result<Ctor, Seq<char>> {
    if ctor.tag == tag {
        Ok(ctor)
    } else {
        Err(
            "expected Lean "@ + label + " ctor (tag "@ + decimal(tag as nat) + "), found tag "@
                + decimal(ctor.tag as nat),
        )
    }
}

/// `ctor` where it has the wanted tag and number of object fields, or why it
/// has not.
pub open spec fn with_shape(
    ctor: Ctor,
    tag: u8,
    num_objs: usize,
    label: Seq<char>,
) -> Result<Ctor, Seq<char>> {
    match with_tag(ctor, tag, label) {
        Ok(_) => if ctor.objects@.len() == num_objs {
            Ok(ctor)
        } else {
            Err(
                "expected Lean "@ + label + " ctor with "@ + decimal(num_objs as nat)
                    + " object field(s), found "@ + decimal(ctor.objects@.len()),
            )
        },
        Err(message) => Err(message),
    }
}

/// The constructor of the wanted shape that an object is, or why it is none.
pub open spec fn ctor_shape_of(
    obj: Obj,
    tag: u8,
    num_objs: usize,
    label: Seq<char>,
) -> Result<Ctor, Seq<char>> {
    match ctor_of(obj) {
        Ok(ctor) => with_shape(ctor, tag, num_objs, label),
        Err(message) => Err(message),
    }
}

/// Why `width` bytes cannot be read at `offset` of a scalar tail of `size`
/// bytes; `None` where they can.
pub open spec fn scalar_tail_error(
    size: nat,
    offset: u32,
    width: usize,
    label: Seq<char>,
) -> Option<Seq<char>> {
    if offset + width > usize::MAX {
        Some(
            "Lean "@ + label + " scalar-tail read at offset "@ + decimal(offset as nat)
                + " overflows usize"@,
        )
    } else if offset + width > size {
        Some(
            "Lean "@ + label + " scalar-tail read at offset "@ + decimal(offset as nat) + " for "@
                + decimal(width as nat) + " byte(s) exceeds scalar tail size "@ + decimal(size),
        )
    } else {
        None
    }
}

/// The byte at `offset` of a scalar tail, or why it cannot be read.
pub open spec fn uint8_of(scalars: Seq<u8>, offset: u32, label: Seq<char>) -> Result<
    u8,
    Seq<char>,
> {
    match scalar_tail_error(scalars.len(), offset, 1, label) {
        Some(message) => Err(message),
        None => Ok(scalars[offset as int]),
    }
}

/// The little-endian 64-bit number at `offset` of a scalar tail, or why it
/// cannot be read.
pub open spec fn uint64_of(scalars: Seq<u8>, offset: u32, label: Seq<char>) -> Result<
    u64,
    Seq<char>,
> {
    match scalar_tail_error(scalars.len(), offset, 8, label) {
        Some(message) => Err(message),
        None => Ok(spec_u64_from_le_bytes(scalars.subrange(offset as int, offset + 8))),
    }
}

/// The truth value at `offset` of a scalar tail, or why it cannot be read.
pub open spec fn bool_of(scalars: Seq<u8>, offset: u32, label: Seq<char>) -> Result<
    bool,
    Seq<char>,
> {
    match uint8_of(scalars, offset, label) {
        Ok(0) => Ok(false),
        Ok(1) => Ok(true),
        Ok(other) => Err("Lean "@ + label + " byte "@ + decimal(other as nat) + " is not in {0, 1}"@),
        Err(message) => Err(message),
    }
}

/// Borrowed view of a Lean object.
pub struct ObjView<'a> {
    obj: &'a Obj,
}

/// Borrowed view of a heap-allocated constructor.
#[derive(Copy, Clone)]
pub struct CtorView<'a> {
    ctor: &'a Ctor,
}

/// Views an object.
#[must_use]
pub fn view<'a>(obj: &'a Obj) -> (r: ObjView<'a>)
    ensures
        r.spec_obj() == *obj,
{
    ObjView { obj }
}

impl<'a> ObjView<'a> {
    /// The object under view.
    pub closed spec fn spec_obj(self) -> Obj {
        *self.obj
    }

    /// Whether the object is a scalar packed into a pointer.
    #[must_use]
    pub fn is_scalar(&self) -> (r: bool)
        ensures
            r == self.spec_obj().spec_is_scalar(),
    {
        self.obj.is_scalar()
    }

    /// Reads the payload of a scalar; `label` only enters the error message.
    pub fn scalar_payload(&self, label: &str) -> (r: LeanResult<usize>)
        ensures
            reads(r, scalar_payload_of(self.spec_obj(), label@)),
    {
        match self.obj {
            Obj::Scalar(payload) => Ok(*payload),
            _ => Err(
                conversion_error(
                    cat4(
                        "expected Lean ",
                        label,
                        " scalar-tagged object, found heap object with tag ",
                        decimal_string(self.obj.heap_tag() as u64).as_str(),
                    ),
                ),
            ),
        }
    }

    /// Reads the tag of a constructor in either of its two forms.
    pub fn sum_tag(&self) -> (r: LeanResult<u8>)
        ensures
            reads(r, sum_tag_of(self.spec_obj())),
    {
        match self.obj {
            Obj::Scalar(payload) => if *payload <= 0xff {
                Ok(*payload as u8)
            } else {
                Err(
                    conversion_error(
                        cat3(
                            "Lean scalar constructor tag ",
                            decimal_string(*payload as u64).as_str(),
                            " does not fit in u8",
                        ),
                    ),
                )
            },
            _ => match self.ctor() {
                Ok(ctor) => Ok(ctor.tag()),
                Err(err) => Err(err),
            },
        }
    }

    /// Narrows the view to a constructor.
    pub fn ctor(&self) -> (r: LeanResult<CtorView<'a>>)
        ensures
            match ctor_of(self.spec_obj()) {
                Ok(ctor) => r matches Ok(view) && view.spec_ctor() == ctor,
                Err(message) => r matches Err(err) && err@ == abi_conversion_error(message),
            },
    {
        CtorView::new(self.obj)
    }

    /// Narrows the view to a constructor of the wanted tag and number of
    /// object fields.
    pub fn ctor_shape(
        &self,
        expected_tag: u8,
        expected_num_object_fields: usize,
        label: &str,
    ) -> (r: LeanResult<CtorView<'a>>)
        ensures
            match ctor_shape_of(self.spec_obj(), expected_tag, expected_num_object_fields, label@) {
                Ok(ctor) => r matches Ok(view) && view.spec_ctor() == ctor,
                Err(message) => r matches Err(err) && err@ == abi_conversion_error(message),
            },
    {
        match self.ctor() {
            Ok(ctor) => ctor.require_shape(expected_tag, expected_num_object_fields, label),
            Err(err) => Err(err),
        }
    }
}

impl<'a> CtorView<'a> {
    /// The constructor under view.
    pub closed spec fn spec_ctor(self) -> Ctor {
        *self.ctor
    }

    fn new(obj: &'a Obj) -> (r: LeanResult<CtorView<'a>>)
        ensures
            match ctor_of(*obj) {
                Ok(ctor) => r matches Ok(view) && view.spec_ctor() == ctor,
                Err(message) => r matches Err(err) && err@ == abi_conversion_error(message),
            },
    {
        match obj {
            Obj::Ctor(ctor) => Ok(CtorView { ctor }),
            Obj::Scalar(_) => Err(
                conversion_error(
                    "expected Lean constructor, found scalar-tagged object".to_owned(),
                ),
            ),
            _ => Err(
                conversion_error(
                    cat2(
                        "expected Lean constructor, found object with tag ",
                        decimal_string(obj.heap_tag() as u64).as_str(),
                    ),
                ),
            ),
        }
    }

    /// Tag of the constructor.
    #[must_use]
    pub fn tag(&self) -> (r: u8)
        ensures
            r == self.spec_ctor().tag,
    {
        self.ctor.tag
    }

    fn require_tag(self, expected_tag: u8, label: &str) -> (r: LeanResult<CtorView<'a>>)
        ensures
            match with_tag(self.spec_ctor(), expected_tag, label@) {
                Ok(ctor) => r matches Ok(view) && view.spec_ctor() == ctor,
                Err(message) => r matches Err(err) && err@ == abi_conversion_error(message),
            },
    {
        if self.ctor.tag == expected_tag {
            Ok(self)
        } else {
            Err(
                conversion_error(
                    cat6(
                        "expected Lean ",
                        label,
                        " ctor (tag ",
                        decimal_string(expected_tag as u64).as_str(),
                        "), found tag ",
                        decimal_string(self.ctor.tag as u64).as_str(),
                    ),
                ),
            )
        }
    }

    fn require_shape(self, expected_tag: u8, expected_num_object_fields: usize, label: &str) -> (r:
        LeanResult<CtorView<'a>>)
        ensures
            match with_shape(self.spec_ctor(), expected_tag, expected_num_object_fields, label@) {
                Ok(ctor) => r matches Ok(view) && view.spec_ctor() == ctor,
                Err(message) => r matches Err(err) && err@ == abi_conversion_error(message),
            },
    {
        match self.require_tag(expected_tag, label) {
            Err(err) => Err(err),
            Ok(this) => if this.ctor.objects.len() == expected_num_object_fields {
                Ok(this)
            } else {
                Err(
                    conversion_error(
                        cat6(
                            "expected Lean ",
                            label,
                            " ctor with ",
                            decimal_string(expected_num_object_fields as u64).as_str(),
                            " object field(s), found ",
                            decimal_string(this.ctor.objects.len() as u64).as_str(),
                        ),
                    ),
                )
            },
        }
    }

    /// Reads the byte at `offset` of the scalar tail.
    pub fn uint8(&self, offset: u32, label: &str) -> (r: LeanResult<u8>)
        ensures
            reads(r, uint8_of(self.spec_ctor().scalars@, offset, label@)),
    {
        match self.require_scalar_tail(offset, 1, label) {
            Err(err) => Err(err),
            Ok(()) => Ok(self.ctor.scalars[offset as usize]),
        }
    }

    /// Reads the 64-bit number at `offset` of the scalar tail.
    pub fn uint64(&self, offset: u32, label: &str) -> (r: LeanResult<u64>)
        ensures
            reads(r, uint64_of(self.spec_ctor().scalars@, offset, label@)),
    {
        match self.require_scalar_tail(offset, 8, label) {
            Err(err) => Err(err),
            Ok(()) => {
                let start: usize = offset as usize;
                Ok(
                    u64_from_le_bytes(
                        slice_subrange(self.ctor.scalars.as_slice(), start, start + 8),
                    ),
                )
            },
        }
    }

    /// Reads the truth value at `offset` of the scalar tail.
    pub fn bool(&self, offset: u32, label: &str) -> (r: LeanResult<bool>)
        ensures
            reads(r, bool_of(self.spec_ctor().scalars@, offset, label@)),
    {
        match self.uint8(offset, label) {
            Err(err) => Err(err),
            Ok(0) => Ok(false),
            Ok(1) => Ok(true),
            Ok(other) => Err(
                conversion_error(
                    cat5(
                        "Lean ",
                        label,
                        " byte ",
                        decimal_string(other as u64).as_str(),
                        " is not in {0, 1}",
                    ),
                ),
            ),
        }
    }

    fn require_scalar_tail(&self, offset: u32, width: usize, label: &str) -> (r: LeanResult<()>)
        ensures
            match scalar_tail_error(self.spec_ctor().scalars@.len(), offset, width, label@) {
                None => r is Ok,
                Some(message) => r matches Err(err) && err@ == abi_conversion_error(message),
            },
    {
        let start: usize = offset as usize;
        let shown: String = decimal_string(offset as u64);
        let size: usize = self.ctor.scalars.len();
        match start.checked_add(width) {
            None => Err(
                conversion_error(
                    cat5(
                        "Lean ",
                        label,
                        " scalar-tail read at offset ",
                        shown.as_str(),
                        " overflows usize",
                    ),
                ),
            ),
            Some(end) => if end <= size {
                Ok(())
            } else {
                let head: String = cat5(
                    "Lean ",
                    label,
                    " scalar-tail read at offset ",
                    shown.as_str(),
                    " for ",
                );
                Err(
                    conversion_error(
                        cat4(
                            head.as_str(),
                            decimal_string(width as u64).as_str(),
                            " byte(s) exceeds scalar tail size ",
                            decimal_string(size as u64).as_str(),
                        ),
                    ),
                )
            },
        }
    }
}

/// Whether `obj` is the constructor with the given tag and object fields and
/// no scalar fields.
pub open spec fn is_plain_ctor(obj: Obj, tag: u8, objects: Seq<Obj>) -> bool {
    obj matches Obj::Ctor(ctor) && ctor.tag == tag && ctor.objects@ == objects
        && ctor.scalars@.len() == 0
}

/// Builds a constructor from its object fields.
pub fn alloc_ctor_with_objects(tag: u8, objects: Vec<Obj>) -> (r: Obj)
    requires
        tag <= LEAN_MAX_CTOR_TAG,
        objects@.len() <= LEAN_MAX_CTOR_FIELDS,
    ensures
        is_plain_ctor(r, tag, objects@),
{
    Obj::Ctor(Ctor { tag, objects, scalars: Vec::new() })
}

/// Takes the object fields out of a constructor of the wanted tag and number
/// of object fields; `label` only enters the error message.
pub fn take_ctor_objects(obj: Obj, expected_tag: u8, num_objs: usize, label: &str) -> (r:
    LeanResult<Vec<Obj>>)
    ensures
        match ctor_shape_of(obj, expected_tag, num_objs, label@) {
            Ok(ctor) => r matches Ok(objects) && objects@ == ctor.objects@ && objects@.len()
                == num_objs,
            Err(message) => r matches Err(err) && err@ == abi_conversion_error(message),
        },
{
    match require_ctor_shape(&obj, expected_tag, num_objs, label) {
        Err(err) => Err(err),
        Ok(()) => match obj {
            Obj::Ctor(ctor) => Ok(ctor.objects),
            _ => Ok(Vec::new()),
        },
    }
}

/// Reads the tag of a constructor.
pub fn ctor_tag(obj: &Obj) -> (r: LeanResult<u8>)
    ensures
        reads(r, ctor_tag_of(*obj)),
{
    match view(obj).ctor() {
        Ok(ctor) => Ok(ctor.tag()),
        Err(err) => Err(err),
    }
}

fn require_ctor_shape(obj: &Obj, expected_tag: u8, expected_num_objs: usize, label: &str) -> (r:
    LeanResult<()>)
    ensures
        match ctor_shape_of(*obj, expected_tag, expected_num_objs, label@) {
            Ok(_) => r is Ok,
            Err(message) => r matches Err(err) && err@ == abi_conversion_error(message),
        },
{
    match view(obj).ctor_shape(expected_tag, expected_num_objs, label) {
        Ok(_) => Ok(()),
        Err(err) => Err(err),
    }
}

/// Taking the fields of a constructor gives back the fields that it was built
/// from, whatever the label.
pub proof fn taking_fields_undoes_building(
    obj: Obj,
    tag: u8,
    objects: Seq<Obj>,
    num_objs: usize,
    label: Seq<char>,
)
    requires
        is_plain_ctor(obj, tag, objects),
        objects.len() == num_objs,
    ensures
        ctor_shape_of(obj, tag, num_objs, label) matches Ok(ctor) && ctor.objects@ == objects,
        ctor_tag_of(obj) == Ok::<u8, Seq<char>>(tag),
{
}

/// A constructor is recognised by its form, its tag by its header, and its shape by
/// tag and number of object fields: nothing else matters, and what is handed on is the
/// constructor itself.
pub proof fn constructors_go_by_tag_and_fields(
    obj: Obj,
    tag: u8,
    num_objs: usize,
    label: Seq<char>,
)
    ensures
        ctor_of(obj) is Ok <==> obj is Ctor,
        ctor_of(obj) matches Ok(ctor) ==> obj == Obj::Ctor(ctor),
        ctor_tag_of(obj) is Ok <==> obj is Ctor,
        ctor_tag_of(obj) matches Ok(found) ==> found == obj->Ctor_0.tag,
        ctor_shape_of(obj, tag, num_objs, label) is Ok <==> (obj matches Obj::Ctor(ctor)
            && ctor.tag == tag && ctor.objects@.len() == num_objs),
        ctor_shape_of(obj, tag, num_objs, label) matches Ok(ctor) ==> obj == Obj::Ctor(ctor),
        scalar_payload_of(obj, label) is Ok <==> obj is Scalar,
        scalar_payload_of(obj, label) matches Ok(payload) ==> obj == Obj::Scalar(payload),
{
}

/// The tag of a sum goes by the constructor in either form: a scalar is its own tag
/// where a byte can hold it, a heap constructor has the tag of its header.
pub proof fn sum_tags_have_two_forms(obj: Obj)
    ensures
        sum_tag_of(obj) is Ok <==> obj is Ctor || (obj matches Obj::Scalar(p) && p < 256),
        obj matches Obj::Scalar(p) ==> (sum_tag_of(obj) matches Ok(tag) ==> tag == p),
        obj matches Obj::Ctor(ctor) ==> (sum_tag_of(obj) matches Ok(tag) && tag == ctor.tag),
{
}

/// Scalar fields are read at their byte offsets: one byte as it is, eight with the
/// least significant first, a truth value as zero or one. A read is refused exactly
/// where it goes beyond the scalar fields, or where a truth value is neither.
pub proof fn scalar_fields_are_read_at_their_offsets(
    scalars: Seq<u8>,
    offset: u32,
    label: Seq<char>,
)
    requires
        scalars.len() <= usize::MAX,
    ensures
        uint8_of(scalars, offset, label) is Ok <==> offset + 1 <= scalars.len(),
        uint8_of(scalars, offset, label) matches Ok(byte) ==> byte == scalars[offset as int],
        uint64_of(scalars, offset, label) is Ok <==> offset + 8 <= scalars.len(),
        uint64_of(scalars, offset, label) matches Ok(n) ==> n == little_endian(
            scalars.subrange(offset as int, offset + 8),
        ),
        bool_of(scalars, offset, label) is Ok <==> offset + 1 <= scalars.len() && scalars[offset as int]
            <= 1,
        bool_of(scalars, offset, label) matches Ok(truth) ==> (truth <==> scalars[offset as int]
            == 1),
{
    if offset + 8 <= scalars.len() {
        lemma_little_endian_read(scalars.subrange(offset as int, offset + 8));
    }
}

/// A constructor that is built has the given tag, the given object fields in order,
/// and no scalar fields.
pub proof fn built_constructors_hold_their_fields(obj: Obj, tag: u8, objects: Seq<Obj>)
    ensures
        is_plain_ctor(obj, tag, objects) <==> (obj matches Obj::Ctor(ctor) && ctor.tag == tag
            && ctor.scalars@.len() == 0 && ctor.objects@.len() == objects.len() && forall|i: int|
            0 <= i < objects.len() ==> ctor.objects@[i] == #[trigger] objects[i]),
{
    if let Obj::Ctor(ctor) = obj {
        if ctor.objects@.len() == objects.len() && forall|i: int|
            0 <= i < objects.len() ==> ctor.objects@[i] == #[trigger] objects[i] {
            assert(ctor.objects@ =~= objects);
        }
    }
}

/// A refused shape is reported with the label and with what was expected and found.
pub proof fn refused_shapes_say_what_was_found(
    obj: Obj,
    ctor: Ctor,
    tag: u8,
    num_objs: usize,
    label: Seq<char>,
)
    ensures
        obj !is Scalar ==> scalar_payload_of(obj, label) == Err::<usize, Seq<char>>(
            "expected Lean "@ + label + " scalar-tagged object, found heap object with tag "@
                + decimal(obj.spec_tag() as nat),
        ),
        obj is Scalar ==> ctor_of(obj) == Err::<Ctor, Seq<char>>(
            "expected Lean constructor, found scalar-tagged object"@,
        ),
        obj !is Scalar && obj !is Ctor ==> ctor_of(obj) == Err::<Ctor, Seq<char>>(
            "expected Lean constructor, found object with tag "@ + decimal(obj.spec_tag() as nat),
        ),
        ctor.tag != tag ==> ctor_shape_of(Obj::Ctor(ctor), tag, num_objs, label) == Err::<
            Ctor,
            Seq<char>,
        >(
            "expected Lean "@ + label + " ctor (tag "@ + decimal(tag as nat) + "), found tag "@
                + decimal(ctor.tag as nat),
        ),
        ctor.tag == tag && ctor.objects@.len() != num_objs ==> ctor_shape_of(
            Obj::Ctor(ctor),
            tag,
            num_objs,
            label,
        ) == Err::<Ctor, Seq<char>>(
            "expected Lean "@ + label + " ctor with "@ + decimal(num_objs as nat)
                + " object field(s), found "@ + decimal(ctor.objects@.len()),
        ),
        obj matches Obj::Scalar(payload) ==> (payload >= 256 ==> sum_tag_of(obj) == Err::<
            u8,
            Seq<char>,
        >(
            "Lean scalar constructor tag "@ + decimal(payload as nat) + " does not fit in u8"@,
        )),
{
}

/// A refused read of scalar fields is reported with the label, the offset, the width and
/// the size, and a byte that is no truth value with itself.
pub proof fn refused_reads_say_where(scalars: Seq<u8>, offset: u32, label: Seq<char>)
    requires
        scalars.len() <= usize::MAX,
    ensures
        offset + 1 > scalars.len() && offset + 1 <= usize::MAX ==> uint8_of(scalars, offset, label)
            == Err::<u8, Seq<char>>(
            "Lean "@ + label + " scalar-tail read at offset "@ + decimal(offset as nat) + " for "@
                + decimal(1) + " byte(s) exceeds scalar tail size "@ + decimal(scalars.len()),
        ),
        offset + 8 > scalars.len() && offset + 8 <= usize::MAX ==> uint64_of(
            scalars,
            offset,
            label,
        ) == Err::<u64, Seq<char>>(
            "Lean "@ + label + " scalar-tail read at offset "@ + decimal(offset as nat) + " for "@
                + decimal(8) + " byte(s) exceeds scalar tail size "@ + decimal(scalars.len()),
        ),
        offset + 1 <= scalars.len() && scalars[offset as int] > 1 ==> bool_of(
            scalars,
            offset,
            label,
        ) == Err::<bool, Seq<char>>(
            "Lean "@ + label + " byte "@ + decimal(scalars[offset as int] as nat)
                + " is not in {0, 1}"@,
        ),
{
}

} // verus!
