//! Classifying a pod by its type.

use vstd::prelude::*;
use crate::bytes::{spec_le32, spec_le64};
use crate::spa_enum::{SpaEnum, spec_spa_enum_from_raw};
use crate::spa_types::{SpaFraction, SpaRectangle, SpaType};
use super::format::{
    TYPE_ARRAY, TYPE_BITMAP, TYPE_BOOL, TYPE_BYTES, TYPE_CHOICE, TYPE_DOUBLE, TYPE_FD, TYPE_FLOAT,
    TYPE_FRACTION, TYPE_ID, TYPE_INT, TYPE_LONG, TYPE_NONE, TYPE_OBJECT, TYPE_POINTER,
    TYPE_RECTANGLE, TYPE_SEQUENCE, TYPE_STRING, TYPE_STRUCT,
};
use super::deserialize::{
    spec_array_view, spec_choice_view, spec_cstr, spec_object_view, spec_sequence_view,
    PodArrayDeserializer, PodChoiceDeserializer, PodDeserializer, PodObjectDeserializer,
    PodSequenceDeserializer, PodStructDeserializer, PodView,
};

verus! {

/// The content of a pod, by type. Floating-point values are given by their
/// bits.
pub enum PodDeserializerKind<'a> {
    NoneType,
    Bool(bool),
    Id(u32),
    Int(i32),
    Long(i64),
    Float(u32),
    Double(u64),
    String(&'a [u8]),
    Bytes(&'a [u8]),
    Rectangle(SpaRectangle),
    Fraction(SpaFraction),
    Bitmap(&'a [u8]),
    Array(PodArrayDeserializer<'a>),
    Struct(PodStructDeserializer<'a>),
    Object(PodObjectDeserializer<'a>),
    Sequence(PodSequenceDeserializer<'a>),
    Pointer { ty: SpaEnum<SpaType> },
    Fd(i64),
    Choice(PodChoiceDeserializer<'a>),
    Unknown(PodDeserializer<'a>),
}

/// `k` is the classification of a pod with content `v`.
pub open spec fn spec_kind_of<'a>(v: PodView, k: PodDeserializerKind<'a>) -> bool {
    match k {
        PodDeserializerKind::NoneType => v.ty == TYPE_NONE,
        PodDeserializerKind::Bool(b) => v.ty == TYPE_BOOL && b == (spec_le32(v.body, 0) != 0),
        PodDeserializerKind::Id(x) => v.ty == TYPE_ID && x == spec_le32(v.body, 0),
        PodDeserializerKind::Int(x) => v.ty == TYPE_INT && x == spec_le32(v.body, 0) as i32,
        PodDeserializerKind::Long(x) => v.ty == TYPE_LONG && x == spec_le64(v.body, 0) as i64,
        PodDeserializerKind::Float(x) => v.ty == TYPE_FLOAT && x == spec_le32(v.body, 0),
        PodDeserializerKind::Double(x) => v.ty == TYPE_DOUBLE && x == spec_le64(v.body, 0),
        PodDeserializerKind::String(s) => v.ty == TYPE_STRING && s@ == spec_cstr(v.body),
        PodDeserializerKind::Bytes(s) => v.ty == TYPE_BYTES && s@ == v.body,
        PodDeserializerKind::Rectangle(r) => v.ty == TYPE_RECTANGLE && r == SpaRectangle {
            width: spec_le32(v.body, 0),
            height: spec_le32(v.body, 4),
        },
        PodDeserializerKind::Fraction(f) => v.ty == TYPE_FRACTION && f == SpaFraction {
            num: spec_le32(v.body, 0),
            denom: spec_le32(v.body, 4),
        },
        PodDeserializerKind::Bitmap(s) => v.ty == TYPE_BITMAP && s@ == v.body,
        PodDeserializerKind::Array(a) => v.ty == TYPE_ARRAY && a.view() == spec_array_view(
            v.body,
        ),
        PodDeserializerKind::Struct(s) => v.ty == TYPE_STRUCT && s.view() == v.body,
        PodDeserializerKind::Object(o) => v.ty == TYPE_OBJECT && o.view() == spec_object_view(
            v.body,
        ),
        PodDeserializerKind::Sequence(s) => v.ty == TYPE_SEQUENCE && s.view()
            == spec_sequence_view(v.body),
        PodDeserializerKind::Pointer { ty } => v.ty == TYPE_POINTER && ty
            == spec_spa_enum_from_raw::<SpaType>(spec_le32(v.body, 0)),
        PodDeserializerKind::Fd(x) => v.ty == TYPE_FD && x == spec_le64(v.body, 0) as i64,
        PodDeserializerKind::Choice(c) => v.ty == TYPE_CHOICE && c.view() == spec_choice_view(
            v.body,
        ),
        PodDeserializerKind::Unknown(p) => (v.ty < TYPE_NONE || v.ty > TYPE_CHOICE) && p.view()
            == v,
    }
}

impl<'a> PodDeserializer<'a> {
    /// Classify the pod by its type and read its content.
    pub fn kind(&self) -> (r: PodDeserializerKind<'a>)
        requires
            self.valid(),
        ensures
            spec_kind_of(self.view(), r),
    {
        let body = self.body();
        match self.ty() {
            SpaEnum::Value(ty) => match ty {
                SpaType::NoneType => PodDeserializerKind::NoneType,
                SpaType::Bool => PodDeserializerKind::Bool(self.as_bool().unwrap()),
                SpaType::Id => PodDeserializerKind::Id(self.as_id().unwrap()),
                SpaType::Int => PodDeserializerKind::Int(self.as_i32().unwrap()),
                SpaType::Long => PodDeserializerKind::Long(self.as_i64().unwrap()),
                SpaType::Float => PodDeserializerKind::Float(self.float_bits()),
                SpaType::Double => PodDeserializerKind::Double(self.double_bits()),
                SpaType::String => PodDeserializerKind::String(self.as_str().unwrap()),
                SpaType::Bytes => PodDeserializerKind::Bytes(body),
                SpaType::Rectangle => PodDeserializerKind::Rectangle(
                    self.as_rectangle().unwrap(),
                ),
                SpaType::Fraction => PodDeserializerKind::Fraction(self.as_fraction().unwrap()),
                SpaType::Bitmap => PodDeserializerKind::Bitmap(body),
                SpaType::Array => PodDeserializerKind::Array(self.as_array().unwrap()),
                SpaType::Struct => PodDeserializerKind::Struct(self.as_struct().unwrap()),
                SpaType::Object => PodDeserializerKind::Object(self.as_object().unwrap()),
                SpaType::Sequence => PodDeserializerKind::Sequence(self.as_sequence().unwrap()),
                SpaType::Pointer => PodDeserializerKind::Pointer {
                    ty: SpaEnum::from_raw(self.pointer_type()),
                },
                SpaType::Fd => PodDeserializerKind::Fd(self.as_fd().unwrap()),
                SpaType::Choice => PodDeserializerKind::Choice(self.as_choice().unwrap()),
                _ => PodDeserializerKind::Unknown(*self),
            },
            SpaEnum::Unknown(_) => PodDeserializerKind::Unknown(*self),
        }
    }
}

} // verus!
