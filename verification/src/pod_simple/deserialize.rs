//! Reading pods through the plain interface: a read of the wrong type gives
//! `None`, and every type met on the way must be one of [`SpaType`].

use vstd::prelude::*;
use crate::bytes::{pad_to_8, read_u32, read_u64, spec_le32, spec_le64};
use crate::spa_enum::SpaRawEnum;
use crate::spa_types::{SpaChoiceType, SpaFraction, SpaRectangle, SpaType};
use crate::pod_v2::format::{
    spec_padded, spec_pod_body, spec_pod_fits, spec_pod_rest, spec_pod_type, spec_valid_body,
    spec_valid_chunks,
    spec_valid_head, spec_valid_items, spec_valid_seq, TYPE_ARRAY, TYPE_BITMAP, TYPE_BOOL,
    TYPE_BYTES, TYPE_CHOICE, TYPE_DOUBLE, TYPE_FD, TYPE_FLOAT, TYPE_FRACTION, TYPE_ID, TYPE_INT,
    TYPE_LONG, TYPE_NONE, TYPE_OBJECT, TYPE_RECTANGLE, TYPE_STRING, TYPE_STRUCT,
};
use crate::pod_v2::deserialize::{
    spec_array_view, spec_choice_view, spec_cstr, spec_head_view, spec_item_pod, spec_item_rest,
    spec_nul_from, spec_object_view, lemma_nul_from_bounds, ArrayView, ChoiceView, ObjectView,
    PodView,
};

verus! {

/// `raw` is the value of a [`SpaType`].
pub open spec fn spec_known_type(raw: u32) -> bool {
    <SpaType as SpaRawEnum>::spec_from_raw(raw) is Some
}

/// `raw` is the value of a [`SpaChoiceType`].
pub open spec fn spec_known_choice(raw: u32) -> bool {
    <SpaChoiceType as SpaRawEnum>::spec_from_raw(raw) is Some
}

/// The types that reading a container pod of raw type `ty` and body `body`
/// meets in its header are known.
pub open spec fn spec_container_ok(ty: u32, body: Seq<u8>) -> bool {
    &&& ty == TYPE_ARRAY ==> spec_known_type(spec_le32(body, 4))
    &&& ty == TYPE_OBJECT ==> spec_known_type(spec_le32(body, 0))
    &&& ty == TYPE_CHOICE ==> spec_known_choice(spec_le32(body, 0)) && spec_known_type(
        spec_le32(body, 12),
    )
}

proof fn lemma_type_raw(ty: SpaType)
    ensures
        spec_known_type(ty.spec_to_raw()),
        <SpaType as SpaRawEnum>::spec_from_raw(ty.spec_to_raw()) == Some(ty),
{
    <SpaType as SpaRawEnum>::lemma_raw_roundtrip(ty);
}

proof fn lemma_known_raw(raw: u32)
    requires
        spec_known_type(raw),
    ensures
        <SpaType as SpaRawEnum>::spec_from_raw(raw).unwrap().spec_to_raw() == raw,
{
    <SpaType as SpaRawEnum>::lemma_raw_inverse(raw);
}

/// A pod: its type and its body.
#[derive(Clone, Copy)]
pub struct PodDeserializer<'a> {
    size: u32,
    ty: SpaType,
    body: &'a [u8],
}

impl<'a> PodDeserializer<'a> {
    #[verifier::type_invariant]
    spec fn inv(self) -> bool {
        self.body@.len() == self.size
    }

    /// The raw type and the body.
    pub closed spec fn view(self) -> PodView {
        PodView { ty: self.ty.spec_to_raw(), body: self.body@ }
    }

    /// Reading the pod as a pod of raw type `ty` stays within its body: a pod
    /// of another type, or one whose body is well formed for `ty`.
    pub open spec fn readable_as(self, ty: u32) -> bool {
        self.view().ty == ty ==> spec_valid_body(ty, self.view().body)
    }

    /// Read the pod at the start of `buff`; also return what follows it and
    /// its padding.
    pub fn new(buff: &'a [u8]) -> (r: (Self, &'a [u8]))
        requires
            spec_pod_fits(buff@),
            spec_known_type(spec_pod_type(buff@)),
        ensures
            r.0.view() == spec_head_view(buff@),
            r.1@ == spec_pod_rest(buff@),
    {
        let n = buff.len();
        let size = read_u32(buff, 0);
        let raw = read_u32(buff, 4);
        let ty = SpaType::from_raw(raw).unwrap();
        proof {
            lemma_known_raw(raw);
        }
        let body = &buff[8..n];
        assert(body@.subrange(0, size as int) == spec_pod_body(buff@));
        let r = Self::form_body(size, true, ty, body);
        assert(r.1@ == spec_pod_rest(buff@));
        r
    }

    /// The pod of the given size and type whose body starts `body`, and what
    /// follows it (after its padding when `padding` is set).
    fn form_body(size: u32, padding: bool, ty: SpaType, body: &'a [u8]) -> (r: (Self, &'a [u8]))
        requires
            size <= body@.len(),
            padding ==> spec_padded(size) <= u32::MAX && spec_padded(size) <= body@.len(),
        ensures
            r.0.view() == (PodView {
                ty: ty.spec_to_raw(),
                body: body@.subrange(0, size as int),
            }),
            r.1@ == body@.subrange(
                if padding {
                    spec_padded(size)
                } else {
                    size as int
                },
                body@.len() as int,
            ),
    {
        let n = body.len();
        let padded_size: usize = if padding {
            (size + pad_to_8(size)) as usize
        } else {
            size as usize
        };
        let pod = PodDeserializer { size, ty, body: &body[0..size as usize] };
        (pod, &body[padded_size..n])
    }

    /// The type of the pod.
    pub fn ty(&self) -> (r: SpaType)
        ensures
            r.spec_to_raw() == self.view().ty,
    {
        self.ty
    }

    /// The size of the body.
    pub fn size(&self) -> (r: u32)
        ensures
            r == self.view().body.len(),
    {
        proof {
            use_type_invariant(self);
        }
        self.size
    }

    /// The body bytes.
    pub fn body(&self) -> (r: &'a [u8])
        ensures
            r@ == self.view().body,
    {
        self.body
    }

    /// Is the pod of type `ty`?
    fn has_type(&self, ty: SpaType) -> (r: bool)
        ensures
            r == (self.view().ty == ty.spec_to_raw()),
    {
        proof {
            lemma_type_raw(self.ty);
            lemma_type_raw(ty);
        }
        self.ty == ty
    }

    /// The bytes of the body up to the first NUL byte.
    fn str_bytes(&self) -> (r: &'a [u8])
        ensures
            r@ == spec_cstr(self.view().body),
    {
        let n = self.body.len();
        let mut i: usize = 0;
        proof {
            lemma_nul_from_bounds(self.body@, 0);
        }
        while i < n && self.body[i] != 0
            invariant
                n == self.body@.len(),
                i <= n,
                spec_nul_from(self.body@, 0) == spec_nul_from(self.body@, i as int),
            decreases n - i,
        {
            i = i + 1;
        }
        &self.body[0..i]
    }

    /// The text of a `String` pod, up to its first NUL byte.
    pub fn as_string(&self) -> (r: Option<&'a [u8]>)
        ensures
            match r {
                Some(b) => self.view().ty == TYPE_STRING && b@ == spec_cstr(self.view().body),
                None => self.view().ty != TYPE_STRING,
            },
    {
        if self.has_type(SpaType::String) {
            Some(self.str_bytes())
        } else {
            None
        }
    }

    /// The fields of a `Struct` pod.
    pub fn as_struct(&self) -> (r: Option<PodStructDeserializer<'a>>)
        requires
            self.readable_as(TYPE_STRUCT),
        ensures
            match r {
                Some(s) => self.view().ty == TYPE_STRUCT && s.view() == self.view().body,
                None => self.view().ty != TYPE_STRUCT,
            },
    {
        proof {
            use_type_invariant(self);
        }
        if self.has_type(SpaType::Struct) {
            Some(PodStructDeserializer::new(self.size, self.ty, self.body))
        } else {
            None
        }
    }

    /// The children of an `Array` pod.
    pub fn as_array(&self) -> (r: Option<PodArrayDeserializer<'a>>)
        requires
            self.view().ty == TYPE_ARRAY ==> spec_known_type(spec_le32(self.view().body, 4)),
            self.readable_as(TYPE_ARRAY),
        ensures
            match r {
                Some(a) => self.view().ty == TYPE_ARRAY && a.view() == spec_array_view(
                    self.view().body,
                ),
                None => self.view().ty != TYPE_ARRAY,
            },
    {
        proof {
            use_type_invariant(self);
        }
        if self.has_type(SpaType::Array) {
            Some(PodArrayDeserializer::new(self.size, self.ty, self.body))
        } else {
            None
        }
    }

    /// The properties of an `Object` pod.
    pub fn as_object(&self) -> (r: Option<PodObjectDeserializer<'a>>)
        requires
            self.view().ty == TYPE_OBJECT ==> spec_known_type(spec_le32(self.view().body, 0)),
            self.readable_as(TYPE_OBJECT),
        ensures
            match r {
                Some(o) => self.view().ty == TYPE_OBJECT && o.view() == spec_object_view(
                    self.view().body,
                ),
                None => self.view().ty != TYPE_OBJECT,
            },
    {
        proof {
            use_type_invariant(self);
        }
        if self.has_type(SpaType::Object) {
            Some(PodObjectDeserializer::new(self.size, self.ty, self.body))
        } else {
            None
        }
    }

    /// The alternatives of a `Choice` pod.
    pub fn as_choice(&self) -> (r: Option<PodChoiceDeserializer<'a>>)
        requires
            self.view().ty == TYPE_CHOICE ==> spec_known_choice(spec_le32(self.view().body, 0))
                && spec_known_type(spec_le32(self.view().body, 12)),
            self.readable_as(TYPE_CHOICE),
        ensures
            match r {
                Some(c) => self.view().ty == TYPE_CHOICE && c.view() == spec_choice_view(
                    self.view().body,
                ),
                None => self.view().ty != TYPE_CHOICE,
            },
    {
        proof {
            use_type_invariant(self);
        }
        if self.has_type(SpaType::Choice) {
            Some(PodChoiceDeserializer::new(self.size, self.ty, self.body))
        } else {
            None
        }
    }

    /// The `u32` at `off` of the body.
    fn body_u32(&self, off: usize) -> (r: u32)
        requires
            off + 4 <= self.view().body.len(),
        ensures
            r == spec_le32(self.view().body, off as int),
    {
        read_u32(self.body, off)
    }

    /// The `u64` at the start of the body.
    fn body_u64(&self) -> (r: u64)
        requires
            8 <= self.view().body.len(),
        ensures
            r == spec_le64(self.view().body, 0),
    {
        read_u64(self.body, 0)
    }

    /// Classify the pod by its type and read its content.
    pub fn kind(&self) -> (r: PodDeserializerKind<'a>)
        requires
            spec_valid_body(self.view().ty, self.view().body),
            spec_container_ok(self.view().ty, self.view().body),
        ensures
            spec_simple_kind_of(self.view(), r),
    {
        proof {
            use_type_invariant(self);
            lemma_type_raw(self.ty);
        }
        match self.ty {
            SpaType::NoneType => PodDeserializerKind::NoneType,
            SpaType::Bool => PodDeserializerKind::Bool(self.body_u32(0) != 0),
            SpaType::Id => PodDeserializerKind::Id(self.body_u32(0)),
            SpaType::Int => PodDeserializerKind::Int(self.body_u32(0) as i32),
            SpaType::Long => PodDeserializerKind::Long(self.body_u64() as i64),
            SpaType::Float => PodDeserializerKind::Float(self.body_u32(0)),
            SpaType::Double => PodDeserializerKind::Double(self.body_u64()),
            SpaType::String => PodDeserializerKind::String(self.as_string().unwrap()),
            SpaType::Bytes => PodDeserializerKind::Bytes(self.body),
            SpaType::Rectangle => PodDeserializerKind::Rectangle(
                SpaRectangle { width: self.body_u32(0), height: self.body_u32(4) },
            ),
            SpaType::Fraction => PodDeserializerKind::Fraction(
                SpaFraction { num: self.body_u32(0), denom: self.body_u32(4) },
            ),
            SpaType::Bitmap => PodDeserializerKind::Bitmap(self.body),
            SpaType::Array => PodDeserializerKind::Array(self.as_array().unwrap()),
            SpaType::Struct => PodDeserializerKind::Struct(self.as_struct().unwrap()),
            SpaType::Object => PodDeserializerKind::Object(self.as_object().unwrap()),
            SpaType::Fd => PodDeserializerKind::Fd(self.body_u64() as i64),
            SpaType::Choice => PodDeserializerKind::Choice(self.as_choice().unwrap()),
            _ => PodDeserializerKind::Unknown(*self),
        }
    }
}

/// The content of a pod, by type. Floating-point values are given by their
/// bits; sequences, pointers and the object types are left unread.
pub enum PodDeserializerKind<'a> {
    NoneType,
    Bool(bool),
    Id(u32),
    Int(i32),
    Long(i64),
    Float(u32),
    Double(u64),
    String(&'a [u8]),
    Bytes(&'a [u8]),
    Rectangle(SpaRectangle),
    Fraction(SpaFraction),
    Bitmap(&'a [u8]),
    Array(PodArrayDeserializer<'a>),
    Struct(PodStructDeserializer<'a>),
    Object(PodObjectDeserializer<'a>),
    Fd(i64),
    Choice(PodChoiceDeserializer<'a>),
    Unknown(PodDeserializer<'a>),
}

/// `k` is the classification of a pod with content `v`.
pub open spec fn spec_simple_kind_of<'a>(v: PodView, k: PodDeserializerKind<'a>) -> bool {
    match k {
        PodDeserializerKind::NoneType => v.ty == TYPE_NONE,
        PodDeserializerKind::Bool(b) => v.ty == TYPE_BOOL && b == (spec_le32(v.body, 0) != 0),
        PodDeserializerKind::Id(x) => v.ty == TYPE_ID && x == spec_le32(v.body, 0),
        PodDeserializerKind::Int(x) => v.ty == TYPE_INT && x == spec_le32(v.body, 0) as i32,
        PodDeserializerKind::Long(x) => v.ty == TYPE_LONG && x == spec_le64(v.body, 0) as i64,
        PodDeserializerKind::Float(x) => v.ty == TYPE_FLOAT && x == spec_le32(v.body, 0),
        PodDeserializerKind::Double(x) => v.ty == TYPE_DOUBLE && x == spec_le64(v.body, 0),
        PodDeserializerKind::String(s) => v.ty == TYPE_STRING && s@ == spec_cstr(v.body),
        PodDeserializerKind::Bytes(s) => v.ty == TYPE_BYTES && s@ == v.body,
        PodDeserializerKind::Rectangle(r) => v.ty == TYPE_RECTANGLE && r == SpaRectangle {
            width: spec_le32(v.body, 0),
            height: spec_le32(v.body, 4),
        },
        PodDeserializerKind::Fraction(f) => v.ty == TYPE_FRACTION && f == SpaFraction {
            num: spec_le32(v.body, 0),
            denom: spec_le32(v.body, 4),
        },
        PodDeserializerKind::Bitmap(s) => v.ty == TYPE_BITMAP && s@ == v.body,
        PodDeserializerKind::Array(a) => v.ty == TYPE_ARRAY && a.view() == spec_array_view(
            v.body,
        ),
        PodDeserializerKind::Struct(s) => v.ty == TYPE_STRUCT && s.view() == v.body,
        PodDeserializerKind::Object(o) => v.ty == TYPE_OBJECT && o.view() == spec_object_view(
            v.body,
        ),
        PodDeserializerKind::Fd(x) => v.ty == TYPE_FD && x == spec_le64(v.body, 0) as i64,
        PodDeserializerKind::Choice(c) => v.ty == TYPE_CHOICE && c.view() == spec_choice_view(
            v.body,
        ),
        PodDeserializerKind::Unknown(p) => (v.ty < TYPE_NONE || v.ty > TYPE_CHOICE || v.ty == 16
            || v.ty == 17) && p.view() == v,
    }
}

/// A reader over the children of an array pod.
#[derive(Clone, Copy)]
pub struct PodArrayDeserializer<'a> {
    size: u32,
    ty: SpaType,
    child_size: u32,
    child_ty: SpaType,
    body: &'a [u8],
}

impl<'a> PodArrayDeserializer<'a> {
    #[verifier::type_invariant]
    spec fn inv(self) -> bool {
        spec_valid_chunks(self.child_size, self.child_ty.spec_to_raw(), self.body@)
    }

    /// The child size, raw child type and the remaining child bodies.
    pub closed spec fn view(self) -> ArrayView {
        ArrayView {
            child_size: self.child_size,
            child_ty: self.child_ty.spec_to_raw(),
            body: self.body@,
        }
    }

    fn new(size: u32, ty: SpaType, body: &'a [u8]) -> (r: Self)
        requires
            spec_valid_body(TYPE_ARRAY, body@),
            spec_known_type(spec_le32(body@, 4)),
        ensures
            r.view() == spec_array_view(body@),
    {
        let n = body.len();
        let child_size = read_u32(body, 0);
        let raw = read_u32(body, 4);
        let child_ty = SpaType::from_raw(raw).unwrap();
        proof {
            lemma_known_raw(raw);
        }
        PodArrayDeserializer { size, ty, child_size, child_ty, body: &body[8..n] }
    }

    /// Take the next child.
    pub fn pop_element(&mut self) -> (r: Option<PodDeserializer<'a>>)
        ensures
            old(self).view().body.len() == 0 ==> r is None && final(self).view() == old(
                self,
            ).view(),
            old(self).view().body.len() > 0 ==> (r matches Some(p) && p.view() == (PodView {
                ty: old(self).view().child_ty,
                body: old(self).view().body.subrange(0, old(self).view().child_size as int),
            }) && final(self).view() == (ArrayView {
                body: old(self).view().body.subrange(
                    old(self).view().child_size as int,
                    old(self).view().body.len() as int,
                ),
                ..old(self).view()
            })),
            old(self).view().body.len() > 0 ==> (r matches Some(p) && spec_valid_body(
                p.view().ty,
                p.view().body,
            )),
    {
        proof {
            use_type_invariant(&*self);
        }
        if self.body.len() == 0 {
            return None;
        }
        proof {
            if self.child_size == 0 {
                assert(self.body@.subrange(0, self.body@.len() as int) == self.body@);
            }
        }
        let (pod, remaining) = PodDeserializer::form_body(
            self.child_size,
            false,
            self.child_ty,
            self.body,
        );
        self.body = remaining;
        Some(pod)
    }
}

/// A reader over the fields of a struct pod.
#[derive(Clone, Copy)]
pub struct PodStructDeserializer<'a> {
    size: u32,
    ty: SpaType,
    body: &'a [u8],
}

impl<'a> PodStructDeserializer<'a> {
    #[verifier::type_invariant]
    spec fn inv(self) -> bool {
        spec_valid_seq(self.body@)
    }

    /// The remaining fields, as bytes.
    pub closed spec fn view(self) -> Seq<u8> {
        self.body@
    }

    fn new(size: u32, ty: SpaType, body: &'a [u8]) -> (r: Self)
        requires
            spec_valid_seq(body@),
        ensures
            r.view() == body@,
    {
        PodStructDeserializer { size, ty, body }
    }

    /// Take the next field.
    pub fn pop_field(&mut self) -> (r: Option<PodDeserializer<'a>>)
        requires
            old(self).view().len() > 0 ==> spec_known_type(spec_pod_type(old(self).view())),
        ensures
            old(self).view().len() == 0 ==> r is None && final(self).view() == old(self).view(),
            old(self).view().len() > 0 ==> (r matches Some(p) && p.view() == spec_head_view(
                old(self).view(),
            ) && final(self).view() == spec_pod_rest(old(self).view())),
            old(self).view().len() > 0 ==> (r matches Some(p) && spec_valid_body(
                p.view().ty,
                p.view().body,
            )),
    {
        proof {
            use_type_invariant(&*self);
        }
        if self.body.len() == 0 {
            return None;
        }
        let (pod, remaining) = PodDeserializer::new(self.body);
        self.body = remaining;
        Some(pod)
    }
}

/// A reader over the properties of an object pod.
#[derive(Clone, Copy)]
pub struct PodObjectDeserializer<'a> {
    size: u32,
    ty: SpaType,
    object_ty: SpaType,
    object_id: u32,
    body: &'a [u8],
}

/// One property of an object: key, flags and value.
#[derive(Clone, Copy)]
pub struct PobObjectPropertyDeserializer<'a> {
    pub key: u32,
    pub flags: u32,
    pub pod: PodDeserializer<'a>,
}

impl<'a> PodObjectDeserializer<'a> {
    #[verifier::type_invariant]
    spec fn inv(self) -> bool {
        spec_valid_items(self.body@)
    }

    /// Raw object type, object id and the remaining properties.
    pub closed spec fn view(self) -> ObjectView {
        ObjectView {
            object_ty: self.object_ty.spec_to_raw(),
            object_id: self.object_id,
            body: self.body@,
        }
    }

    fn new(size: u32, ty: SpaType, body: &'a [u8]) -> (r: Self)
        requires
            spec_valid_body(TYPE_OBJECT, body@),
            spec_known_type(spec_le32(body@, 0)),
        ensures
            r.view() == spec_object_view(body@),
    {
        let n = body.len();
        let raw = read_u32(body, 0);
        let object_ty = SpaType::from_raw(raw).unwrap();
        let object_id = read_u32(body, 4);
        proof {
            lemma_known_raw(raw);
        }
        PodObjectDeserializer { size, ty, object_ty, object_id, body: &body[8..n] }
    }

    /// The type of the object.
    pub fn object_ty(&self) -> (r: SpaType)
        ensures
            r.spec_to_raw() == self.view().object_ty,
    {
        self.object_ty
    }

    /// The id of the object.
    pub fn object_id(&self) -> (r: u32)
        ensures
            r == self.view().object_id,
    {
        self.object_id
    }

    /// Take the next property.
    pub fn pop_property(&mut self) -> (r: Option<PobObjectPropertyDeserializer<'a>>)
        requires
            old(self).view().body.len() > 0 ==> spec_known_type(
                spec_pod_type(spec_item_pod(old(self).view().body)),
            ),
        ensures
            old(self).view().body.len() == 0 ==> r is None && final(self).view() == old(
                self,
            ).view(),
            old(self).view().body.len() > 0 ==> (r matches Some(p) && p.key == spec_le32(
                old(self).view().body,
                0,
            ) && p.flags == spec_le32(old(self).view().body, 4) && p.pod.view()
                == spec_head_view(spec_item_pod(old(self).view().body)) && final(self).view()
                == (ObjectView { body: spec_item_rest(old(self).view().body), ..old(self).view() })),
            old(self).view().body.len() > 0 ==> (r matches Some(p) && spec_valid_body(
                p.pod.view().ty,
                p.pod.view().body,
            )),
    {
        proof {
            use_type_invariant(&*self);
        }
        let n = self.body.len();
        if n == 0 {
            return None;
        }
        let key = read_u32(self.body, 0);
        let flags = read_u32(self.body, 4);
        let (pod, remaining) = PodDeserializer::new(&self.body[8..n]);
        self.body = remaining;
        Some(PobObjectPropertyDeserializer { key, flags, pod })
    }
}

/// A reader over the alternatives of a choice pod.
#[derive(Clone, Copy)]
pub struct PodChoiceDeserializer<'a> {
    size: u32,
    ty: SpaType,
    choice_ty: SpaChoiceType,
    flags: u32,
    child_size: u32,
    child_ty: SpaType,
    body: &'a [u8],
}

impl<'a> PodChoiceDeserializer<'a> {
    #[verifier::type_invariant]
    spec fn inv(self) -> bool {
        spec_valid_chunks(self.child_size, self.child_ty.spec_to_raw(), self.body@)
    }

    /// Raw choice type, flags, child size, raw child type and the remaining
    /// alternatives.
    pub closed spec fn view(self) -> ChoiceView {
        ChoiceView {
            choice_ty: self.choice_ty.spec_to_raw(),
            flags: self.flags,
            child_size: self.child_size,
            child_ty: self.child_ty.spec_to_raw(),
            body: self.body@,
        }
    }

    fn new(size: u32, ty: SpaType, body: &'a [u8]) -> (r: Self)
        requires
            spec_valid_body(TYPE_CHOICE, body@),
            spec_known_choice(spec_le32(body@, 0)),
            spec_known_type(spec_le32(body@, 12)),
        ensures
            r.view() == spec_choice_view(body@),
    {
        let n = body.len();
        let choice_raw = read_u32(body, 0);
        let choice_ty = SpaChoiceType::from_raw(choice_raw).unwrap();
        let flags = read_u32(body, 4);
        let child_size = read_u32(body, 8);
        let child_raw = read_u32(body, 12);
        let child_ty = SpaType::from_raw(child_raw).unwrap();
        proof {
            lemma_known_raw(child_raw);
            <SpaChoiceType as SpaRawEnum>::lemma_raw_inverse(choice_raw);
        }
        PodChoiceDeserializer {
            size,
            ty,
            choice_ty,
            flags,
            child_size,
            child_ty,
            body: &body[16..n],
        }
    }

    /// The kind of choice.
    pub fn choice_ty(&self) -> (r: SpaChoiceType)
        ensures
            r.spec_to_raw() == self.view().choice_ty,
    {
        self.choice_ty
    }

    /// Take the next alternative.
    pub fn pop_element(&mut self) -> (r: Option<PodDeserializer<'a>>)
        ensures
            old(self).view().body.len() == 0 ==> r is None && final(self).view() == old(
                self,
            ).view(),
            old(self).view().body.len() > 0 ==> (r matches Some(p) && p.view() == (PodView {
                ty: old(self).view().child_ty,
                body: old(self).view().body.subrange(0, old(self).view().child_size as int),
            }) && final(self).view() == (ChoiceView {
                body: old(self).view().body.subrange(
                    old(self).view().child_size as int,
                    old(self).view().body.len() as int,
                ),
                ..old(self).view()
            })),
            old(self).view().body.len() > 0 ==> (r matches Some(p) && spec_valid_body(
                p.view().ty,
                p.view().body,
            )),
    {
        proof {
            use_type_invariant(&*self);
        }
        if self.body.len() == 0 {
            return None;
        }
        proof {
            if self.child_size == 0 {
                assert(self.body@.subrange(0, self.body@.len() as int) == self.body@);
            }
        }
        let (pod, remaining) = PodDeserializer::form_body(
            self.child_size,
            false,
            self.child_ty,
            self.body,
        );
        self.body = remaining;
        Some(pod)
    }
}

} // verus!
