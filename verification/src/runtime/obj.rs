//! Lean objects as plain values.
//!
//! A Lean value is either a scalar packed into a pointer or a heap object. An
//! [`Obj`] holds the content of either form: what a program can see of a Lean
//! object through its header and its payload. Of an object that only Lean code
//! looks into, it holds the reference by which that object is found again.
//! Ownership of an `Obj` stands for ownership of one reference to the object.

use vstd::prelude::*;
use vstd::slice::*;

verus! {

/// Header tag of object arrays.
pub const LEAN_ARRAY: u32 = 246;

/// Header tag of arrays of scalars.
pub const LEAN_SCALAR_ARRAY: u32 = 248;

/// Header tag of strings.
pub const LEAN_STRING: u32 = 249;

/// Header tag of arbitrary-precision numbers.
pub const LEAN_MPZ: u32 = 250;

/// Greatest tag of a constructor; the tags above it tell the other kinds of
/// heap objects apart.
pub const LEAN_MAX_CTOR_TAG: u8 = 244;

/// Greatest number of object fields of a constructor.
pub const LEAN_MAX_CTOR_FIELDS: usize = 255;

/// Kinds of heap objects that only Lean code looks into.
#[derive(Copy, Clone, Debug, PartialEq, Eq, Structural)]
pub enum OpaqueKind {
    /// A closure.
    Closure,
    /// An array of structures.
    StructArray,
    /// A lazily evaluated value.
    Thunk,
    /// A value computed by a task.
    Task,
    /// A mutable reference cell.
    Ref,
    /// A value owned by foreign code.
    External,
}

impl OpaqueKind {
    /// The header tag of the kind.
    pub open spec fn spec_tag(self) -> u32 {
        match self {
            OpaqueKind::Closure => 245,
            OpaqueKind::StructArray => 247,
            OpaqueKind::Thunk => 251,
            OpaqueKind::Task => 252,
            OpaqueKind::Ref => 253,
            OpaqueKind::External => 254,
        }
    }

    /// The header tag of the kind.
    pub fn tag(self) -> (r: u32)
        ensures
            r == self.spec_tag(),
    {
        match self {
            OpaqueKind::Closure => 245,
            OpaqueKind::StructArray => 247,
            OpaqueKind::Thunk => 251,
            OpaqueKind::Task => 252,
            OpaqueKind::Ref => 253,
            OpaqueKind::External => 254,
        }
    }
}

/// A heap-allocated constructor of an inductive type.
#[derive(Debug)]
pub struct Ctor {
    /// Index of the constructor in declaration order.
    pub tag: u8,
    /// The object fields.
    pub objects: Vec<Obj>,
    /// The bytes of the scalar fields behind the object fields.
    pub scalars: Vec<u8>,
}

/// A Lean object.
#[derive(Debug)]
pub enum Obj {
    /// A scalar packed into a pointer.
    Scalar(usize),
    /// A constructor with fields.
    Ctor(Ctor),
    /// An array of objects.
    Array(Vec<Obj>),
    /// An array of scalars of `elem_size` bytes each.
    ScalarArray { elem_size: u8, bytes: Vec<u8> },
    /// A string, by its bytes without the terminating NUL.
    Str(Vec<u8>),
    /// A number too large for a scalar, by its sign and its magnitude in
    /// 64-bit limbs, least significant first.
    Mpz { negative: bool, limbs: Vec<u64> },
    /// A heap object that only Lean code looks into, by its kind and the reference
    /// that stands for it. Two such objects with one reference are one object.
    Opaque { kind: OpaqueKind, reference: usize },
}

impl Obj {
    /// Whether the object is a scalar packed into a pointer.
    pub open spec fn spec_is_scalar(self) -> bool {
        self is Scalar
    }

    /// The tag in a heap object's header.
    pub open spec fn spec_tag(self) -> u32
        recommends
            !self.spec_is_scalar(),
    {
        match self {
            Obj::Scalar(_) => 0,
            Obj::Ctor(ctor) => ctor.tag as u32,
            Obj::Array(_) => LEAN_ARRAY,
            Obj::ScalarArray { .. } => LEAN_SCALAR_ARRAY,
            Obj::Str(_) => LEAN_STRING,
            Obj::Mpz { .. } => LEAN_MPZ,
            Obj::Opaque { kind, .. } => kind.spec_tag(),
        }
    }

    /// Whether the object is a scalar packed into a pointer.
    pub fn is_scalar(&self) -> (r: bool)
        ensures
            r == self.spec_is_scalar(),
    {
        match self {
            Obj::Scalar(_) => true,
            _ => false,
        }
    }

    /// The tag in a heap object's header.
    pub fn heap_tag(&self) -> (r: u32)
        ensures
            r == self.spec_tag(),
    {
        match self {
            Obj::Scalar(_) => 0,
            Obj::Ctor(ctor) => ctor.tag as u32,
            Obj::Array(_) => LEAN_ARRAY,
            Obj::ScalarArray { .. } => LEAN_SCALAR_ARRAY,
            Obj::Str(_) => LEAN_STRING,
            Obj::Mpz { .. } => LEAN_MPZ,
            Obj::Opaque { kind, .. } => kind.tag(),
        }
    }
}

/// The content of a Lean object, all the way down to the references of the objects
/// that only Lean code looks into.
pub enum ObjTree {
    Scalar(usize),
    Ctor { tag: u8, objects: Seq<ObjTree>, scalars: Seq<u8> },
    Array(Seq<ObjTree>),
    ScalarArray { elem_size: u8, bytes: Seq<u8> },
    Str(Seq<u8>),
    Mpz { negative: bool, limbs: Seq<u64> },
    Opaque { kind: OpaqueKind, reference: usize },
}

impl Obj {
    /// The content of the object.
    pub open spec fn tree(self) -> ObjTree
        decreases self, 0nat,
    {
        match self {
            Obj::Scalar(payload) => ObjTree::Scalar(payload),
            Obj::Ctor(ctor) => ObjTree::Ctor {
                tag: ctor.tag,
                objects: trees(ctor.objects@, ctor.objects@.len()),
                scalars: ctor.scalars@,
            },
            Obj::Array(elements) => ObjTree::Array(trees(elements@, elements@.len())),
            Obj::ScalarArray { elem_size, bytes } => ObjTree::ScalarArray {
                elem_size,
                bytes: bytes@,
            },
            Obj::Str(bytes) => ObjTree::Str(bytes@),
            Obj::Mpz { negative, limbs } => ObjTree::Mpz { negative, limbs: limbs@ },
            Obj::Opaque { kind, reference } => ObjTree::Opaque { kind, reference },
        }
    }

    /// Takes another reference to the object.
    pub fn share(&self) -> (r: Obj)
        ensures
            r.tree() == self.tree(),
        decreases *self, 0nat,
    {
        match self {
            Obj::Scalar(payload) => Obj::Scalar(*payload),
            Obj::Ctor(ctor) => {
                let objects: Vec<Obj> = share_all(&ctor.objects);
                Obj::Ctor(Ctor { tag: ctor.tag, objects, scalars: slice_to_vec(&ctor.scalars) })
            },
            Obj::Array(elements) => Obj::Array(share_all(elements)),
            Obj::ScalarArray { elem_size, bytes } => Obj::ScalarArray {
                elem_size: *elem_size,
                bytes: slice_to_vec(bytes),
            },
            Obj::Str(bytes) => Obj::Str(slice_to_vec(bytes)),
            Obj::Mpz { negative, limbs } => Obj::Mpz {
                negative: *negative,
                limbs: slice_to_vec(limbs),
            },
            Obj::Opaque { kind, reference } => Obj::Opaque {
                kind: *kind,
                reference: *reference,
            },
        }
    }
}

/// The contents of the first `n` objects of a sequence.
pub open spec fn trees(objects: Seq<Obj>, n: nat) -> Seq<ObjTree>
    decreases objects, n,
{
    if n == 0 || n > objects.len() {
        Seq::empty()
    } else {
        trees(objects, (n - 1) as nat).push(objects[n - 1].tree())
    }
}

proof fn lemma_trees(objects: Seq<Obj>, n: nat)
    requires
        n <= objects.len(),
    ensures
        trees(objects, n).len() == n,
        forall|i: int| 0 <= i < n ==> #[trigger] trees(objects, n)[i] == objects[i].tree(),
    decreases n,
{
    if n > 0 {
        lemma_trees(objects, (n - 1) as nat);
    }
}

fn share_all(objects: &Vec<Obj>) -> (r: Vec<Obj>)
    ensures
        trees(r@, r@.len()) == trees(objects@, objects@.len()),
    decreases *objects, 1nat,
{
    let mut r: Vec<Obj> = Vec::new();
    let mut i: usize = 0;
    while i < objects.len()
        invariant
            i <= objects@.len(),
            r@.len() == i,
            forall|j: int| 0 <= j < i ==> (#[trigger] r@[j]).tree() == objects@[j].tree(),
        decreases objects@.len() - i,
    {
        let object: &Obj = &objects[i];
        assert(decreases_to!(*objects => *object));
        r.push(object.share());
        i = i + 1;
    }
    proof {
        lemma_trees(r@, r@.len());
        lemma_trees(objects@, objects@.len());
        assert(trees(r@, r@.len()) =~= trees(objects@, objects@.len()));
    }
    r
}

/// Sharing keeps identity, wherever in an object a part lies that only Lean code
/// looks into: an object with the content of such a part is that part, and objects
/// with equal contents have equal parts.
pub proof fn equal_contents_share_references(a: Obj, b: Obj)
    requires
        a.tree() == b.tree(),
    ensures
        a is Opaque ==> a == b,
        a matches Obj::Ctor(x) ==> (b matches Obj::Ctor(y) && same_parts(x.objects@, y.objects@)),
        a matches Obj::Array(x) ==> (b matches Obj::Array(y) && same_parts(x@, y@)),
{
    match (a, b) {
        (Obj::Ctor(x), Obj::Ctor(y)) => {
            lemma_same_parts(x.objects@, y.objects@);
        },
        (Obj::Array(x), Obj::Array(y)) => {
            lemma_same_parts(x@, y@);
        },
        _ => {},
    }
}

/// Whether two sequences hold objects with equal contents.
pub open spec fn same_parts(a: Seq<Obj>, b: Seq<Obj>) -> bool {
    a.len() == b.len() && forall|i: int|
        0 <= i < a.len() ==> (#[trigger] a[i]).tree() == b[i].tree()
}

proof fn lemma_same_parts(a: Seq<Obj>, b: Seq<Obj>)
    requires
        trees(a, a.len()) == trees(b, b.len()),
    ensures
        same_parts(a, b),
{
    lemma_trees(a, a.len());
    lemma_trees(b, b.len());
    assert forall|i: int| 0 <= i < a.len() implies (#[trigger] a[i]).tree() == b[i].tree() by {
        assert(trees(a, a.len())[i] == a[i].tree());
        assert(trees(b, b.len())[i] == b[i].tree());
    }
}

impl Clone for Obj {
    fn clone(&self) -> (r: Obj)
        ensures
            r.tree() == self.tree(),
    {
        self.share()
    }
}

/// Objects of one content agree in everything a program can see of them: in their
/// form, in the payload of a scalar, in tag, scalar bytes and fields of a constructor,
/// in the elements of an array, in the bytes of a string, in sign and magnitude of a
/// number, and in kind and reference of an object that only Lean code looks into.
pub proof fn one_content_is_one_value(a: Obj, b: Obj)
    requires
        a.tree() == b.tree(),
    ensures
        a matches Obj::Scalar(p) ==> (b matches Obj::Scalar(q) && p == q),
        a matches Obj::Ctor(x) ==> (b matches Obj::Ctor(y) && x.tag == y.tag && x.scalars@
            == y.scalars@ && x.objects@.len() == y.objects@.len() && forall|i: int|
            0 <= i < x.objects@.len() ==> (#[trigger] x.objects@[i]).tree() == y.objects@[i].tree()),
        a matches Obj::Array(x) ==> (b matches Obj::Array(y) && x@.len() == y@.len() && forall|
            i: int,
        |
            0 <= i < x@.len() ==> (#[trigger] x@[i]).tree() == y@[i].tree()),
        a matches Obj::ScalarArray { elem_size: m, bytes: x } ==> (b matches Obj::ScalarArray {
            elem_size: n,
            bytes: y,
        } && m == n && x@ == y@),
        a matches Obj::Str(x) ==> (b matches Obj::Str(y) && x@ == y@),
        a matches Obj::Mpz { negative: m, limbs: x } ==> (b matches Obj::Mpz {
            negative: n,
            limbs: y,
        } && m == n && x@ == y@),
        a matches Obj::Opaque { kind: m, reference: x } ==> (b matches Obj::Opaque {
            kind: n,
            reference: y,
        } && m == n && x == y),
{
    match (a, b) {
        (Obj::Ctor(x), Obj::Ctor(y)) => {
            lemma_trees(x.objects@, x.objects@.len());
            lemma_trees(y.objects@, y.objects@.len());
            assert forall|i: int| 0 <= i < x.objects@.len() implies (
            #[trigger] x.objects@[i]).tree() == y.objects@[i].tree() by {
                assert(trees(x.objects@, x.objects@.len())[i] == x.objects@[i].tree());
                assert(trees(y.objects@, y.objects@.len())[i] == y.objects@[i].tree());
            }
        },
        (Obj::Array(x), Obj::Array(y)) => {
            lemma_trees(x@, x@.len());
            lemma_trees(y@, y@.len());
            assert forall|i: int| 0 <= i < x@.len() implies (#[trigger] x@[i]).tree()
                == y@[i].tree() by {
                assert(trees(x@, x@.len())[i] == x@[i].tree());
                assert(trees(y@, y@.len())[i] == y@[i].tree());
            }
        },
        _ => {},
    }
}

/// The tag in the header of a heap object is its constructor's where it has one, and
/// otherwise one of the ten above the greatest constructor tag, each form with its
/// own.
pub proof fn heap_tags_tell_forms_apart(obj: Obj)
    ensures
        obj.spec_is_scalar() <==> obj is Scalar,
        obj matches Obj::Ctor(ctor) ==> obj.spec_tag() == ctor.tag,
        obj matches Obj::Opaque { kind, .. } ==> obj.spec_tag() == match kind {
            OpaqueKind::Closure => 245u32,
            OpaqueKind::StructArray => 247,
            OpaqueKind::Thunk => 251,
            OpaqueKind::Task => 252,
            OpaqueKind::Ref => 253,
            OpaqueKind::External => 254,
        },
        obj is Array ==> obj.spec_tag() == 246,
        obj is ScalarArray ==> obj.spec_tag() == 248,
        obj is Str ==> obj.spec_tag() == 249,
        obj is Mpz ==> obj.spec_tag() == 250,
        LEAN_MAX_CTOR_TAG == 244,
        LEAN_MAX_CTOR_FIELDS == 255,
{
}

} // verus!
