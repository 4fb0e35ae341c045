//! Reading pods out of bytes.
//!
//! [`PodDeserializer::new`] reads the header of any pod that fits its input.
//! Reading a body asks that it be well formed for its type (see
//! [`super::format`], and [`super::format::check_body`], which decides it),
//! so reading never runs past the end of its input; the readers of containers
//! keep a well-formed content as their invariant, and every pod they give
//! back is well formed.

use vstd::prelude::*;
use crate::bytes::{pad_to_8, read_u32, read_u64, spec_le32, spec_le64};
use crate::spa_enum::{
    SpaEnum, law_spa_enum_raw_roundtrip, spec_spa_enum_as_raw, spec_spa_enum_from_raw,
};
use crate::spa_types::{SpaControlType, SpaChoiceType, SpaFraction, SpaRectangle, SpaType};
use super::format::{
    spec_pod_fits, spec_padded, spec_pod_body, spec_pod_rest, spec_pod_type, spec_valid_body,
    spec_valid_chunks, spec_valid_head, spec_valid_items, spec_valid_seq, TYPE_ARRAY, TYPE_BOOL,
    TYPE_BYTES, TYPE_CHOICE, TYPE_DOUBLE, TYPE_FD, TYPE_FLOAT, TYPE_FRACTION, TYPE_ID, TYPE_INT,
    TYPE_LONG, TYPE_NONE, TYPE_OBJECT, TYPE_POINTER, TYPE_RECTANGLE, TYPE_SEQUENCE, TYPE_STRING,
    TYPE_STRUCT,
};

verus! {

/// Why a read failed.
#[derive(Debug)]
pub enum DeserializeError {
    /// The pod has another type than the one asked for.
    UnexpectedType { expected: SpaType, got: SpaEnum<SpaType> },
    /// A container has no more entries.
    UnexpectedEnd,
}

/// The result of a read.
pub type PodResult<T> = core::result::Result<T, DeserializeError>;

/// The abstract content of a pod: its raw type and its body.
pub ghost struct PodView {
    pub ty: u32,
    pub body: Seq<u8>,
}

/// The error for a pod of raw type `ty` read as `expected`.
pub open spec fn spec_unexpected(expected: SpaType, ty: u32) -> DeserializeError {
    DeserializeError::UnexpectedType { expected, got: spec_spa_enum_from_raw::<SpaType>(ty) }
}

/// The view of the pod at the start of `s`.
pub open spec fn spec_head_view(s: Seq<u8>) -> PodView {
    PodView { ty: spec_pod_type(s), body: spec_pod_body(s) }
}

/// The bytes of a string body up to its first NUL byte (or all of them).
pub open spec fn spec_cstr(s: Seq<u8>) -> Seq<u8> {
    s.subrange(0, spec_nul_from(s, 0))
}

/// The index of the first NUL byte at or after `i`, or the length.
pub open spec fn spec_nul_from(s: Seq<u8>, i: int) -> int
    decreases s.len() - i,
{
    if i < 0 || i >= s.len() {
        s.len() as int
    } else if s[i] == 0 {
        i
    } else {
        spec_nul_from(s, i + 1)
    }
}

/// The first NUL at or after `i` lies between `i` and the end.
pub proof fn lemma_nul_from_bounds(s: Seq<u8>, i: int)
    requires
        0 <= i <= s.len(),
    ensures
        i <= spec_nul_from(s, i) <= s.len(),
    decreases s.len() - i,
{
    if i < s.len() && s[i] != 0 {
        lemma_nul_from_bounds(s, i + 1);
    }
}

/// The raw type of a `SpaEnum<SpaType>` picked from a raw value is that value.
proof fn lemma_canonical(raw: u32)
    ensures
        spec_spa_enum_as_raw(spec_spa_enum_from_raw::<SpaType>(raw)) == raw,
        spec_spa_enum_from_raw::<SpaType>(
            spec_spa_enum_as_raw(spec_spa_enum_from_raw::<SpaType>(raw)),
        ) == spec_spa_enum_from_raw::<SpaType>(raw),
{
    law_spa_enum_raw_roundtrip::<SpaType>(raw);
}

/// A pod read from its type and body.
#[derive(Clone, Copy)]
pub struct PodDeserializer<'a> {
    size: u32,
    ty: SpaEnum<SpaType>,
    body: &'a [u8],
}

impl<'a> PodDeserializer<'a> {
    #[verifier::type_invariant]
    spec fn inv(self) -> bool {
        &&& self.body@.len() == self.size
        &&& self.ty == spec_spa_enum_from_raw::<SpaType>(spec_spa_enum_as_raw(self.ty))
    }

    /// The raw type and the body.
    pub closed spec fn view(self) -> PodView {
        PodView { ty: spec_spa_enum_as_raw(self.ty), body: self.body@ }
    }

    /// The body is well formed for the pod's type.
    pub open spec fn valid(self) -> bool {
        spec_valid_body(self.view().ty, self.view().body)
    }

    /// Reading the pod as a pod of raw type `ty` stays within its body: a pod
    /// of another type, or one whose body is well formed for `ty`.
    pub open spec fn readable_as(self, ty: u32) -> bool {
        self.view().ty == ty ==> spec_valid_body(ty, self.view().body)
    }

    /// Read the pod at the start of `buff`; also return what follows it and
    /// its padding.
    pub fn new(buff: &'a [u8]) -> (r: (Self, &'a [u8]))
        requires
            spec_pod_fits(buff@),
        ensures
            r.0.view() == spec_head_view(buff@),
            r.1@ == spec_pod_rest(buff@),
    {
        let n = buff.len();
        let size = read_u32(buff, 0);
        let raw = read_u32(buff, 4);
        let ty = SpaEnum::<SpaType>::from_raw(raw);
        proof {
            lemma_canonical(raw);
        }
        let rest = &buff[8..n];
        assert(rest@.subrange(0, size as int) == spec_pod_body(buff@));
        let pod = Self::form_body(size, ty, rest);
        let next: usize = 8 + pod.size_with_padding() as usize;
        (pod, &buff[next..n])
    }

    /// The pod of the given size and type whose body starts `body`.
    fn form_body(size: u32, ty: SpaEnum<SpaType>, body: &'a [u8]) -> (r: Self)
        requires
            size <= body@.len(),
            ty == spec_spa_enum_from_raw::<SpaType>(spec_spa_enum_as_raw(ty)),
        ensures
            r.view() == (PodView {
                ty: spec_spa_enum_as_raw(ty),
                body: body@.subrange(0, size as int),
            }),
            r.size == size,
    {
        PodDeserializer { size, ty, body: &body[0..size as usize] }
    }

    /// The type of the pod.
    pub fn ty(&self) -> (r: SpaEnum<SpaType>)
        ensures
            r == spec_spa_enum_from_raw::<SpaType>(self.view().ty),
    {
        proof {
            use_type_invariant(self);
        }
        self.ty
    }

    /// The size of the body.
    pub fn size(&self) -> (r: u32)
        ensures
            r == self.view().body.len(),
    {
        proof {
            use_type_invariant(self);
        }
        self.size
    }

    /// Copy the pod into an owned value.
    pub fn to_owned(&self) -> (r: OwnedPod)
        requires
            self.valid(),
        ensures
            r.view() == self.view(),
    {
        proof {
            use_type_invariant(self);
        }
        OwnedPod { size: self.size, ty: self.ty, body: vstd::slice::slice_to_vec(self.body) }
    }

    /// Padding after the body.
    fn padding(&self) -> (r: u32)
        ensures
            r == crate::bytes::spec_pad_to_8(self.size),
    {
        pad_to_8(self.size)
    }

    /// Body size plus padding.
    fn size_with_padding(&self) -> (r: u32)
        requires
            spec_padded(self.size) <= u32::MAX,
        ensures
            r == spec_padded(self.size),
    {
        self.size + self.padding()
    }

    /// The body bytes.
    pub fn body(&self) -> (r: &'a [u8])
        ensures
            r@ == self.view().body,
    {
        self.body
    }

    /// The error for reading this pod as `expected`.
    fn unexpected_type(&self, expected: SpaType) -> (r: DeserializeError)
        ensures
            r == spec_unexpected(expected, self.view().ty),
    {
        proof {
            use_type_invariant(self);
        }
        DeserializeError::UnexpectedType { expected, got: self.ty }
    }

    /// The bits of a `Float` pod.
    pub(crate) fn float_bits(&self) -> (r: u32)
        requires
            self.view().ty == TYPE_FLOAT,
            spec_valid_body(TYPE_FLOAT, self.view().body),
        ensures
            r == spec_le32(self.view().body, 0),
    {
        proof {
            use_type_invariant(self);
        }
        read_u32(self.body, 0)
    }

    /// The bits of a `Double` pod.
    pub(crate) fn double_bits(&self) -> (r: u64)
        requires
            self.view().ty == TYPE_DOUBLE,
            spec_valid_body(TYPE_DOUBLE, self.view().body),
        ensures
            r == spec_le64(self.view().body, 0),
    {
        proof {
            use_type_invariant(self);
        }
        read_u64(self.body, 0)
    }

    /// The address a `Pointer` pod holds.
    pub(crate) fn pointer_address(&self) -> (r: u64)
        requires
            self.view().ty == TYPE_POINTER,
            spec_valid_body(TYPE_POINTER, self.view().body),
        ensures
            r == spec_le64(self.view().body, 8),
    {
        proof {
            use_type_invariant(self);
        }
        read_u64(self.body, 8)
    }

    /// The raw pointer type of a `Pointer` pod.
    pub(crate) fn pointer_type(&self) -> (r: u32)
        requires
            self.view().ty == TYPE_POINTER,
            spec_valid_body(TYPE_POINTER, self.view().body),
        ensures
            r == spec_le32(self.view().body, 0),
    {
        proof {
            use_type_invariant(self);
        }
        read_u32(self.body, 0)
    }

    /// Read an `Id` pod.
    pub fn as_id(&self) -> (r: PodResult<u32>)
        requires
            self.readable_as(TYPE_ID),
        ensures
            r == (if self.view().ty == TYPE_ID {
                Ok(spec_le32(self.view().body, 0))
            } else {
                Err(spec_unexpected(SpaType::Id, self.view().ty))
            }),
    {
        proof {
            use_type_invariant(self);
        }
        match self.ty {
            SpaEnum::Value(SpaType::Id) => Ok(read_u32(self.body, 0)),
            _ => Err(self.unexpected_type(SpaType::Id)),
        }
    }

    /// Read an `Int` pod.
    pub fn as_i32(&self) -> (r: PodResult<i32>)
        requires
            self.readable_as(TYPE_INT),
        ensures
            r == (if self.view().ty == TYPE_INT {
                Ok(spec_le32(self.view().body, 0) as i32)
            } else {
                Err(spec_unexpected(SpaType::Int, self.view().ty))
            }),
    {
        proof {
            use_type_invariant(self);
        }
        match self.ty {
            SpaEnum::Value(SpaType::Int) => Ok(read_u32(self.body, 0) as i32),
            _ => Err(self.unexpected_type(SpaType::Int)),
        }
    }

    /// Read an `Int` pod as unsigned.
    pub fn as_u32(&self) -> (r: PodResult<u32>)
        requires
            self.readable_as(TYPE_INT),
        ensures
            r == (if self.view().ty == TYPE_INT {
                Ok(spec_le32(self.view().body, 0))
            } else {
                Err(spec_unexpected(SpaType::Int, self.view().ty))
            }),
    {
        let v = self.as_i32()?;
        proof {
            let x = spec_le32(self.view().body, 0);
            assert((x as i32) as u32 == x) by (bit_vector);
        }
        Ok(v as u32)
    }

    /// Read a `Long` pod.
    pub fn as_i64(&self) -> (r: PodResult<i64>)
        requires
            self.readable_as(TYPE_LONG),
        ensures
            r == (if self.view().ty == TYPE_LONG {
                Ok(spec_le64(self.view().body, 0) as i64)
            } else {
                Err(spec_unexpected(SpaType::Long, self.view().ty))
            }),
    {
        proof {
            use_type_invariant(self);
        }
        match self.ty {
            SpaEnum::Value(SpaType::Long) => Ok(read_u64(self.body, 0) as i64),
            _ => Err(self.unexpected_type(SpaType::Long)),
        }
    }

    /// Read a `Long` pod as unsigned.
    pub fn as_u64(&self) -> (r: PodResult<u64>)
        requires
            self.readable_as(TYPE_LONG),
        ensures
            r == (if self.view().ty == TYPE_LONG {
                Ok(spec_le64(self.view().body, 0))
            } else {
                Err(spec_unexpected(SpaType::Long, self.view().ty))
            }),
    {
        let v = self.as_i64()?;
        proof {
            let x = spec_le64(self.view().body, 0);
            assert((x as i64) as u64 == x) by (bit_vector);
        }
        Ok(v as u64)
    }

    /// Read a `Rectangle` pod.
    pub fn as_rectangle(&self) -> (r: PodResult<SpaRectangle>)
        requires
            self.readable_as(TYPE_RECTANGLE),
        ensures
            r == (if self.view().ty == TYPE_RECTANGLE {
                Ok(
                    SpaRectangle {
                        width: spec_le32(self.view().body, 0),
                        height: spec_le32(self.view().body, 4),
                    },
                )
            } else {
                Err(spec_unexpected(SpaType::Rectangle, self.view().ty))
            }),
    {
        proof {
            use_type_invariant(self);
        }
        match self.ty {
            SpaEnum::Value(SpaType::Rectangle) => Ok(
                SpaRectangle { width: read_u32(self.body, 0), height: read_u32(self.body, 4) },
            ),
            _ => Err(self.unexpected_type(SpaType::Rectangle)),
        }
    }

    /// Read a `Fraction` pod.
    pub fn as_fraction(&self) -> (r: PodResult<SpaFraction>)
        requires
            self.readable_as(TYPE_FRACTION),
        ensures
            r == (if self.view().ty == TYPE_FRACTION {
                Ok(
                    SpaFraction {
                        num: spec_le32(self.view().body, 0),
                        denom: spec_le32(self.view().body, 4),
                    },
                )
            } else {
                Err(spec_unexpected(SpaType::Fraction, self.view().ty))
            }),
    {
        proof {
            use_type_invariant(self);
        }
        match self.ty {
            SpaEnum::Value(SpaType::Fraction) => Ok(
                SpaFraction { num: read_u32(self.body, 0), denom: read_u32(self.body, 4) },
            ),
            _ => Err(self.unexpected_type(SpaType::Fraction)),
        }
    }

    /// Is this a `None` pod?
    pub fn is_none(&self) -> (r: bool)
        ensures
            r == (self.view().ty == TYPE_NONE),
    {
        proof {
            use_type_invariant(self);
        }
        match self.ty {
            SpaEnum::Value(SpaType::NoneType) => true,
            _ => false,
        }
    }

    /// Read an `Array` pod.
    pub fn as_array(&self) -> (r: PodResult<PodArrayDeserializer<'a>>)
        requires
            self.readable_as(TYPE_ARRAY),
        ensures
            match r {
                Ok(a) => self.view().ty == TYPE_ARRAY && a.view() == spec_array_view(
                    self.view().body,
                ),
                Err(e) => self.view().ty != TYPE_ARRAY && e == spec_unexpected(
                    SpaType::Array,
                    self.view().ty,
                ),
            },
    {
        proof {
            use_type_invariant(self);
        }
        match self.ty {
            SpaEnum::Value(SpaType::Array) => Ok(PodArrayDeserializer::new(self.body)),
            _ => Err(self.unexpected_type(SpaType::Array)),
        }
    }

    /// Read a `Struct` pod.
    pub fn as_struct(&self) -> (r: PodResult<PodStructDeserializer<'a>>)
        requires
            self.readable_as(TYPE_STRUCT),
        ensures
            match r {
                Ok(s) => self.view().ty == TYPE_STRUCT && s.view() == self.view().body,
                Err(e) => self.view().ty != TYPE_STRUCT && e == spec_unexpected(
                    SpaType::Struct,
                    self.view().ty,
                ),
            },
    {
        proof {
            use_type_invariant(self);
        }
        match self.ty {
            SpaEnum::Value(SpaType::Struct) => Ok(PodStructDeserializer::new(self.body)),
            _ => Err(self.unexpected_type(SpaType::Struct)),
        }
    }

    /// Read a `Sequence` pod.
    pub fn as_sequence(&self) -> (r: PodResult<PodSequenceDeserializer<'a>>)
        requires
            self.readable_as(TYPE_SEQUENCE),
        ensures
            match r {
                Ok(s) => self.view().ty == TYPE_SEQUENCE && s.view() == spec_sequence_view(
                    self.view().body,
                ),
                Err(e) => self.view().ty != TYPE_SEQUENCE && e == spec_unexpected(
                    SpaType::Sequence,
                    self.view().ty,
                ),
            },
    {
        proof {
            use_type_invariant(self);
        }
        match self.ty {
            SpaEnum::Value(SpaType::Sequence) => Ok(PodSequenceDeserializer::new(self.body)),
            _ => Err(self.unexpected_type(SpaType::Sequence)),
        }
    }

    /// Read an `Object` pod.
    ///
    /// On a pod of another type the error names `Object` as the type that was
    /// expected: `UnexpectedType` reports the type the reader asked for, as
    /// every other reader here does with its own type, and a reader of
    /// objects asks for an object, never for a struct.
    pub fn as_object(&self) -> (r: PodResult<PodObjectDeserializer<'a>>)
        requires
            self.readable_as(TYPE_OBJECT),
        ensures
            match r {
                Ok(o) => self.view().ty == TYPE_OBJECT && o.view() == spec_object_view(
                    self.view().body,
                ),
                Err(e) => self.view().ty != TYPE_OBJECT && e == spec_unexpected(
                    SpaType::Object,
                    self.view().ty,
                ),
            },
    {
        proof {
            use_type_invariant(self);
        }
        match self.ty {
            SpaEnum::Value(SpaType::Object) => Ok(PodObjectDeserializer::new(self.body)),
            _ => Err(self.unexpected_type(SpaType::Object)),
        }
    }

    /// Read a `Choice` pod.
    pub fn as_choice(&self) -> (r: PodResult<PodChoiceDeserializer<'a>>)
        requires
            self.readable_as(TYPE_CHOICE),
        ensures
            match r {
                Ok(c) => self.view().ty == TYPE_CHOICE && c.view() == spec_choice_view(
                    self.view().body,
                ),
                Err(e) => self.view().ty != TYPE_CHOICE && e == spec_unexpected(
                    SpaType::Choice,
                    self.view().ty,
                ),
            },
    {
        proof {
            use_type_invariant(self);
        }
        match self.ty {
            SpaEnum::Value(SpaType::Choice) => Ok(PodChoiceDeserializer::new(self.body)),
            _ => Err(self.unexpected_type(SpaType::Choice)),
        }
    }

    /// Read a `Bytes` pod.
    pub fn as_bytes(&self) -> (r: PodResult<&'a [u8]>)
        ensures
            match r {
                Ok(b) => self.view().ty == TYPE_BYTES && b@ == self.view().body,
                Err(e) => self.view().ty != TYPE_BYTES && e == spec_unexpected(
                    SpaType::Bytes,
                    self.view().ty,
                ),
            },
    {
        proof {
            use_type_invariant(self);
        }
        match self.ty {
            SpaEnum::Value(SpaType::Bytes) => Ok(self.body),
            _ => Err(self.unexpected_type(SpaType::Bytes)),
        }
    }

    /// The bytes of the body up to the first NUL byte.
    fn str_bytes(&self) -> (r: &'a [u8])
        ensures
            r@ == spec_cstr(self.view().body),
    {
        let n = self.body.len();
        let mut i: usize = 0;
        proof {
            lemma_nul_from_bounds(self.body@, 0);
        }
        while i < n && self.body[i] != 0
            invariant
                n == self.body@.len(),
                i <= n,
                spec_nul_from(self.body@, 0) == spec_nul_from(self.body@, i as int),
            decreases n - i,
        {
            i = i + 1;
        }
        &self.body[0..i]
    }

    /// Read a `String` pod: the body up to its first NUL byte.
    pub fn as_str(&self) -> (r: PodResult<&'a [u8]>)
        ensures
            match r {
                Ok(b) => self.view().ty == TYPE_STRING && b@ == spec_cstr(self.view().body),
                Err(e) => self.view().ty != TYPE_STRING && e == spec_unexpected(
                    SpaType::String,
                    self.view().ty,
                ),
            },
    {
        proof {
            use_type_invariant(self);
        }
        match self.ty {
            SpaEnum::Value(SpaType::String) => Ok(self.str_bytes()),
            _ => Err(self.unexpected_type(SpaType::String)),
        }
    }

    /// Read a `String` pod, or `None` for a `None` pod.
    pub fn as_str_or_none(&self) -> (r: PodResult<Option<&'a [u8]>>)
        ensures
            match r {
                Ok(Some(b)) => self.view().ty == TYPE_STRING && b@ == spec_cstr(
                    self.view().body,
                ),
                Ok(None) => self.view().ty == TYPE_NONE,
                Err(e) => self.view().ty != TYPE_STRING && self.view().ty != TYPE_NONE && e
                    == spec_unexpected(SpaType::String, self.view().ty),
            },
    {
        proof {
            use_type_invariant(self);
        }
        match self.ty {
            SpaEnum::Value(SpaType::String) => Ok(Some(self.str_bytes())),
            SpaEnum::Value(SpaType::NoneType) => Ok(None),
            _ => Err(self.unexpected_type(SpaType::String)),
        }
    }

    /// Read an `Fd` pod: the index of the file descriptor.
    pub fn as_fd(&self) -> (r: PodResult<i64>)
        requires
            self.readable_as(TYPE_FD),
        ensures
            r == (if self.view().ty == TYPE_FD {
                Ok(spec_le64(self.view().body, 0) as i64)
            } else {
                Err(spec_unexpected(SpaType::Fd, self.view().ty))
            }),
    {
        proof {
            use_type_invariant(self);
        }
        match self.ty {
            SpaEnum::Value(SpaType::Fd) => Ok(read_u64(self.body, 0) as i64),
            _ => Err(self.unexpected_type(SpaType::Fd)),
        }
    }

    /// Read a `Bool` pod: any nonzero value is true.
    pub fn as_bool(&self) -> (r: PodResult<bool>)
        requires
            self.readable_as(TYPE_BOOL),
        ensures
            r == (if self.view().ty == TYPE_BOOL {
                Ok(spec_le32(self.view().body, 0) != 0)
            } else {
                Err(spec_unexpected(SpaType::Bool, self.view().ty))
            }),
    {
        proof {
            use_type_invariant(self);
        }
        match self.ty {
            SpaEnum::Value(SpaType::Bool) => Ok(read_u32(self.body, 0) != 0),
            _ => Err(self.unexpected_type(SpaType::Bool)),
        }
    }
}

/// A pod owned together with its body.
#[derive(Debug)]
pub struct OwnedPod {
    size: u32,
    ty: SpaEnum<SpaType>,
    body: Vec<u8>,
}

impl OwnedPod {
    #[verifier::type_invariant]
    spec fn inv(self) -> bool {
        &&& self.body@.len() == self.size
        &&& self.ty == spec_spa_enum_from_raw::<SpaType>(spec_spa_enum_as_raw(self.ty))
        &&& spec_valid_body(spec_spa_enum_as_raw(self.ty), self.body@)
    }

    /// The raw type and the body.
    pub closed spec fn view(self) -> PodView {
        PodView { ty: spec_spa_enum_as_raw(self.ty), body: self.body@ }
    }

    /// The header (size, type) followed by the body, without padding.
    pub fn to_raw(&self) -> (r: Vec<u8>)
        ensures
            r@ == crate::bytes::spec_u32_bytes(self.view().body.len() as u32)
                + crate::bytes::spec_u32_bytes(self.view().ty) + self.view().body,
    {
        proof {
            use_type_invariant(self);
        }
        let mut buff: Vec<u8> = Vec::with_capacity(self.body.len());
        crate::bytes::push_u32(&mut buff, self.size);
        crate::bytes::push_u32(&mut buff, self.ty.as_raw());
        crate::bytes::append_bytes(&mut buff, self.body.as_slice());
        buff
    }

    /// A reader over this pod.
    pub fn as_deserializer(&self) -> (r: PodDeserializer<'_>)
        ensures
            r.view() == self.view(),
            r.valid(),
    {
        proof {
            use_type_invariant(self);
        }
        PodDeserializer { size: self.size, ty: self.ty, body: self.body.as_slice() }
    }
}

impl Clone for OwnedPod {
    fn clone(&self) -> (r: Self)
        ensures
            r.view() == self.view(),
    {
        proof {
            use_type_invariant(self);
        }
        OwnedPod { size: self.size, ty: self.ty, body: vstd::slice::slice_to_vec(self.body.as_slice()) }
    }
}

/// What an array reader holds: child size, raw child type and the remaining
/// child bodies.
pub ghost struct ArrayView {
    pub child_size: u32,
    pub child_ty: u32,
    pub body: Seq<u8>,
}

/// The array reader over an array body.
pub open spec fn spec_array_view(body: Seq<u8>) -> ArrayView {
    ArrayView {
        child_size: spec_le32(body, 0),
        child_ty: spec_le32(body, 4),
        body: body.subrange(8, body.len() as int),
    }
}

/// A reader over the children of an array pod.
#[derive(Clone, Copy)]
pub struct PodArrayDeserializer<'a> {
    child_size: u32,
    child_ty: SpaEnum<SpaType>,
    body: &'a [u8],
}

impl<'a> PodArrayDeserializer<'a> {
    #[verifier::type_invariant]
    spec fn inv(self) -> bool {
        &&& self.child_ty == spec_spa_enum_from_raw::<SpaType>(
            spec_spa_enum_as_raw(self.child_ty),
        )
        &&& spec_valid_chunks(self.child_size, spec_spa_enum_as_raw(self.child_ty), self.body@)
    }

    pub closed spec fn view(self) -> ArrayView {
        ArrayView {
            child_size: self.child_size,
            child_ty: spec_spa_enum_as_raw(self.child_ty),
            body: self.body@,
        }
    }

    fn new(body: &'a [u8]) -> (r: Self)
        requires
            spec_valid_body(TYPE_ARRAY, body@),
        ensures
            r.view() == spec_array_view(body@),
    {
        let n = body.len();
        let child_size = read_u32(body, 0);
        let raw = read_u32(body, 4);
        proof {
            lemma_canonical(raw);
        }
        PodArrayDeserializer {
            child_size,
            child_ty: SpaEnum::<SpaType>::from_raw(raw),
            body: &body[8..n],
        }
    }

    /// The type of the children.
    pub fn child_ty(&self) -> (r: SpaEnum<SpaType>)
        ensures
            r == spec_spa_enum_from_raw::<SpaType>(self.view().child_ty),
    {
        proof {
            use_type_invariant(self);
        }
        self.child_ty
    }

    /// Take the next child.
    pub fn pop_element(&mut self) -> (r: PodResult<PodDeserializer<'a>>)
        ensures
            old(self).view().body.len() == 0 ==> r == Err::<PodDeserializer<'a>, _>(
                DeserializeError::UnexpectedEnd,
            ) && final(self).view() == old(self).view(),
            old(self).view().body.len() > 0 ==> (r matches Ok(p) && old(self).view().child_size
                <= old(self).view().body.len() && p.view() == (PodView {
                ty: old(self).view().child_ty,
                body: old(self).view().body.subrange(0, old(self).view().child_size as int),
            }) && final(self).view() == (ArrayView {
                body: old(self).view().body.subrange(
                    old(self).view().child_size as int,
                    old(self).view().body.len() as int,
                ),
                ..old(self).view()
            })),
            old(self).view().body.len() > 0 ==> (r matches Ok(p) && p.valid()),
    {
        proof {
            use_type_invariant(&*self);
        }
        let n = self.body.len();
        if n == 0 {
            return Err(DeserializeError::UnexpectedEnd);
        }
        let pod = PodDeserializer::form_body(self.child_size, self.child_ty, self.body);
        let k = pod.size() as usize;
        proof {
            if self.child_size > 0 {
                assert(spec_valid_chunks(
                    self.child_size,
                    spec_spa_enum_as_raw(self.child_ty),
                    self.body@.subrange(k as int, n as int),
                ));
            } else {
                assert(self.body@.subrange(0, n as int) == self.body@);
            }
        }
        self.body = &self.body[k..n];
        Ok(pod)
    }
}

/// A reader over the fields of a struct pod.
#[derive(Clone, Copy)]
pub struct PodStructDeserializer<'a> {
    body: &'a [u8],
}

impl<'a> PodStructDeserializer<'a> {
    #[verifier::type_invariant]
    spec fn inv(self) -> bool {
        spec_valid_seq(self.body@)
    }

    /// The remaining fields, as bytes.
    pub closed spec fn view(self) -> Seq<u8> {
        self.body@
    }

    fn new(body: &'a [u8]) -> (r: Self)
        requires
            spec_valid_seq(body@),
        ensures
            r.view() == body@,
    {
        PodStructDeserializer { body }
    }

    /// Take the next field.
    pub fn pop_field(&mut self) -> (r: PodResult<PodDeserializer<'a>>)
        ensures
            old(self).view().len() == 0 ==> r == Err::<PodDeserializer<'a>, _>(
                DeserializeError::UnexpectedEnd,
            ) && final(self).view() == old(self).view(),
            old(self).view().len() > 0 ==> (r matches Ok(p) && p.view() == spec_head_view(
                old(self).view(),
            ) && final(self).view() == spec_pod_rest(old(self).view())),
            old(self).view().len() > 0 ==> (r matches Ok(p) && p.valid()),
    {
        proof {
            use_type_invariant(&*self);
        }
        if self.body.len() == 0 {
            return Err(DeserializeError::UnexpectedEnd);
        }
        let (pod, remaining) = PodDeserializer::new(self.body);
        self.body = remaining;
        Ok(pod)
    }
}

/// What an object reader holds: raw object type, object id and the remaining
/// properties.
pub ghost struct ObjectView {
    pub object_ty: u32,
    pub object_id: u32,
    pub body: Seq<u8>,
}

/// The object reader over an object body.
pub open spec fn spec_object_view(body: Seq<u8>) -> ObjectView {
    ObjectView {
        object_ty: spec_le32(body, 0),
        object_id: spec_le32(body, 4),
        body: body.subrange(8, body.len() as int),
    }
}

/// The pod of the item (property or control) at the start of `s`.
pub open spec fn spec_item_pod(s: Seq<u8>) -> Seq<u8> {
    s.subrange(8, s.len() as int)
}

/// What follows the item at the start of `s`.
pub open spec fn spec_item_rest(s: Seq<u8>) -> Seq<u8> {
    spec_pod_rest(spec_item_pod(s))
}

/// The value of the first property with key `key` among the properties in
/// `s`, if any.
pub open spec fn spec_find_prop(s: Seq<u8>, key: u32) -> Option<PodView>
    decreases s.len(),
{
    if s.len() < 8 {
        None
    } else if !spec_pod_fits(s.subrange(8, s.len() as int)) {
        None
    } else if spec_le32(s, 0) == key {
        Some(spec_head_view(spec_item_pod(s)))
    } else {
        spec_find_prop(spec_item_rest(s), key)
    }
}

/// The property with key `key`, if present among the properties in `s`, has
/// raw type `ty`.
pub open spec fn spec_prop_has_type(s: Seq<u8>, key: u32, ty: u32) -> bool {
    match spec_find_prop(s, key) {
        Some(p) => p.ty == ty,
        None => true,
    }
}

/// A reader over the properties of an object pod.
#[derive(Clone, Copy)]
pub struct PodObjectDeserializer<'a> {
    object_ty: SpaEnum<SpaType>,
    object_id: u32,
    body: &'a [u8],
}

/// One property of an object: key, flags and value.
#[derive(Clone, Copy)]
pub struct PobObjectPropertyDeserializer<'a> {
    pub key: u32,
    pub flags: u32,
    pub value: PodDeserializer<'a>,
}

impl<'a> PodObjectDeserializer<'a> {
    #[verifier::type_invariant]
    spec fn inv(self) -> bool {
        &&& self.object_ty == spec_spa_enum_from_raw::<SpaType>(
            spec_spa_enum_as_raw(self.object_ty),
        )
        &&& spec_valid_items(self.body@)
    }

    pub closed spec fn view(self) -> ObjectView {
        ObjectView {
            object_ty: spec_spa_enum_as_raw(self.object_ty),
            object_id: self.object_id,
            body: self.body@,
        }
    }

    fn new(body: &'a [u8]) -> (r: Self)
        requires
            spec_valid_body(TYPE_OBJECT, body@),
        ensures
            r.view() == spec_object_view(body@),
    {
        let n = body.len();
        let raw = read_u32(body, 0);
        let object_id = read_u32(body, 4);
        proof {
            lemma_canonical(raw);
        }
        PodObjectDeserializer {
            object_ty: SpaEnum::<SpaType>::from_raw(raw),
            object_id,
            body: &body[8..n],
        }
    }

    /// The type of the object.
    pub fn object_ty(&self) -> (r: SpaEnum<SpaType>)
        ensures
            r == spec_spa_enum_from_raw::<SpaType>(self.view().object_ty),
    {
        proof {
            use_type_invariant(self);
        }
        self.object_ty
    }

    /// The id of the object.
    pub fn object_id(&self) -> (r: u32)
        ensures
            r == self.view().object_id,
    {
        self.object_id
    }

    /// The value of the first remaining property with key `key`.
    pub fn find_property(&self, key: u32) -> (r: Option<PodDeserializer<'a>>)
        ensures
            match r {
                Some(p) => spec_find_prop(self.view().body, key) == Some(p.view()) && p.valid(),
                None => spec_find_prop(self.view().body, key) is None,
            },
    {
        let mut it = *self;
        loop
            invariant
                spec_find_prop(self.view().body, key) == spec_find_prop(it.view().body, key),
            decreases it.view().body.len(),
        {
            proof {
                use_type_invariant(&it);
            }
            let ghost before = it.view().body;
            match it.pop_property() {
                Ok(prop) => {
                    if prop.key == key {
                        return Some(prop.value);
                    }
                },
                Err(_) => {
                    return None;
                },
            }
        }
    }

    /// Take the next property.
    pub fn pop_property(&mut self) -> (r: PodResult<PobObjectPropertyDeserializer<'a>>)
        ensures
            old(self).view().body.len() == 0 ==> r == Err::<
                PobObjectPropertyDeserializer<'a>,
                _,
            >(DeserializeError::UnexpectedEnd) && final(self).view() == old(self).view(),
            old(self).view().body.len() > 0 ==> (r matches Ok(p) && p.key == spec_le32(
                old(self).view().body,
                0,
            ) && p.flags == spec_le32(old(self).view().body, 4) && p.value.view()
                == spec_head_view(spec_item_pod(old(self).view().body)) && final(self).view()
                == (ObjectView { body: spec_item_rest(old(self).view().body), ..old(self).view() })),
            old(self).view().body.len() > 0 ==> (r matches Ok(p) && p.value.valid()),
    {
        proof {
            use_type_invariant(&*self);
        }
        let n = self.body.len();
        if n == 0 {
            return Err(DeserializeError::UnexpectedEnd);
        }
        let key = read_u32(self.body, 0);
        let flags = read_u32(self.body, 4);
        let (value, remaining) = PodDeserializer::new(&self.body[8..n]);
        self.body = remaining;
        Ok(PobObjectPropertyDeserializer { key, flags, value })
    }
}

/// What a choice reader holds.
pub ghost struct ChoiceView {
    pub choice_ty: u32,
    pub flags: u32,
    pub child_size: u32,
    pub child_ty: u32,
    pub body: Seq<u8>,
}

/// The choice reader over a choice body.
pub open spec fn spec_choice_view(body: Seq<u8>) -> ChoiceView {
    ChoiceView {
        choice_ty: spec_le32(body, 0),
        flags: spec_le32(body, 4),
        child_size: spec_le32(body, 8),
        child_ty: spec_le32(body, 12),
        body: body.subrange(16, body.len() as int),
    }
}

/// A reader over the alternatives of a choice pod.
#[derive(Clone, Copy)]
pub struct PodChoiceDeserializer<'a> {
    choice_ty: SpaEnum<SpaChoiceType>,
    flags: u32,
    child_size: u32,
    child_ty: SpaEnum<SpaType>,
    body: &'a [u8],
}

impl<'a> PodChoiceDeserializer<'a> {
    #[verifier::type_invariant]
    spec fn inv(self) -> bool {
        &&& self.choice_ty == spec_spa_enum_from_raw::<SpaChoiceType>(
            spec_spa_enum_as_raw(self.choice_ty),
        )
        &&& self.child_ty == spec_spa_enum_from_raw::<SpaType>(
            spec_spa_enum_as_raw(self.child_ty),
        )
        &&& spec_valid_chunks(self.child_size, spec_spa_enum_as_raw(self.child_ty), self.body@)
    }

    pub closed spec fn view(self) -> ChoiceView {
        ChoiceView {
            choice_ty: spec_spa_enum_as_raw(self.choice_ty),
            flags: self.flags,
            child_size: self.child_size,
            child_ty: spec_spa_enum_as_raw(self.child_ty),
            body: self.body@,
        }
    }

    fn new(body: &'a [u8]) -> (r: Self)
        requires
            spec_valid_body(TYPE_CHOICE, body@),
        ensures
            r.view() == spec_choice_view(body@),
    {
        let n = body.len();
        let choice_raw = read_u32(body, 0);
        let flags = read_u32(body, 4);
        let child_size = read_u32(body, 8);
        let child_raw = read_u32(body, 12);
        proof {
            lemma_canonical(child_raw);
            crate::spa_enum::law_spa_enum_raw_roundtrip::<SpaChoiceType>(choice_raw);
        }
        PodChoiceDeserializer {
            choice_ty: SpaEnum::<SpaChoiceType>::from_raw(choice_raw),
            flags,
            child_size,
            child_ty: SpaEnum::<SpaType>::from_raw(child_raw),
            body: &body[16..n],
        }
    }

    /// The kind of choice.
    pub fn choice_ty(&self) -> (r: SpaEnum<SpaChoiceType>)
        ensures
            r == spec_spa_enum_from_raw::<SpaChoiceType>(self.view().choice_ty),
    {
        proof {
            use_type_invariant(self);
        }
        self.choice_ty
    }

    /// The choice flags.
    pub fn flags(&self) -> (r: u32)
        ensures
            r == self.view().flags,
    {
        self.flags
    }

    /// The type of the alternatives.
    pub fn child_ty(&self) -> (r: SpaEnum<SpaType>)
        ensures
            r == spec_spa_enum_from_raw::<SpaType>(self.view().child_ty),
    {
        proof {
            use_type_invariant(self);
        }
        self.child_ty
    }

    /// Take the next alternative.
    pub fn pop_element(&mut self) -> (r: PodResult<PodDeserializer<'a>>)
        ensures
            old(self).view().body.len() == 0 ==> r == Err::<PodDeserializer<'a>, _>(
                DeserializeError::UnexpectedEnd,
            ) && final(self).view() == old(self).view(),
            old(self).view().body.len() > 0 ==> (r matches Ok(p) && old(self).view().child_size
                <= old(self).view().body.len() && p.view() == (PodView {
                ty: old(self).view().child_ty,
                body: old(self).view().body.subrange(0, old(self).view().child_size as int),
            }) && final(self).view() == (ChoiceView {
                body: old(self).view().body.subrange(
                    old(self).view().child_size as int,
                    old(self).view().body.len() as int,
                ),
                ..old(self).view()
            })),
            old(self).view().body.len() > 0 ==> (r matches Ok(p) && p.valid()),
    {
        proof {
            use_type_invariant(&*self);
        }
        let n = self.body.len();
        if n == 0 {
            return Err(DeserializeError::UnexpectedEnd);
        }
        let pod = PodDeserializer::form_body(self.child_size, self.child_ty, self.body);
        let k = pod.size() as usize;
        proof {
            if self.child_size == 0 {
                assert(self.body@.subrange(0, n as int) == self.body@);
            }
        }
        self.body = &self.body[k..n];
        Ok(pod)
    }
}

/// What a sequence reader holds.
pub ghost struct SequenceView {
    pub unit: u32,
    pub body: Seq<u8>,
}

/// The sequence reader over a sequence body.
pub open spec fn spec_sequence_view(body: Seq<u8>) -> SequenceView {
    SequenceView { unit: spec_le32(body, 0), body: body.subrange(8, body.len() as int) }
}

/// A reader over the controls of a sequence pod.
#[derive(Clone, Copy)]
pub struct PodSequenceDeserializer<'a> {
    unit: u32,
    body: &'a [u8],
}

/// One control of a sequence: offset, type and value.
#[derive(Clone, Copy)]
pub struct PodControlDeserializer<'a> {
    offset: u32,
    type_: SpaEnum<SpaControlType>,
    value: PodDeserializer<'a>,
}

impl<'a> PodSequenceDeserializer<'a> {
    #[verifier::type_invariant]
    spec fn inv(self) -> bool {
        spec_valid_items(self.body@)
    }

    pub closed spec fn view(self) -> SequenceView {
        SequenceView { unit: self.unit, body: self.body@ }
    }

    fn new(body: &'a [u8]) -> (r: Self)
        requires
            spec_valid_body(TYPE_SEQUENCE, body@),
        ensures
            r.view() == spec_sequence_view(body@),
    {
        let n = body.len();
        let unit = read_u32(body, 0);
        PodSequenceDeserializer { unit, body: &body[8..n] }
    }

    /// The unit of the control offsets.
    pub fn unit(&self) -> (r: u32)
        ensures
            r == self.view().unit,
    {
        self.unit
    }

    /// Take the next control.
    pub fn pop_control(&mut self) -> (r: PodResult<PodControlDeserializer<'a>>)
        ensures
            old(self).view().body.len() == 0 ==> r == Err::<PodControlDeserializer<'a>, _>(
                DeserializeError::UnexpectedEnd,
            ) && final(self).view() == old(self).view(),
            old(self).view().body.len() > 0 ==> (r matches Ok(c) && c.view() == (ControlView {
                offset: spec_le32(old(self).view().body, 0),
                type_: spec_le32(old(self).view().body, 4),
                value: spec_head_view(spec_item_pod(old(self).view().body)),
            }) && final(self).view() == (SequenceView {
                body: spec_item_rest(old(self).view().body),
                ..old(self).view()
            })),
            old(self).view().body.len() > 0 ==> (r matches Ok(c) && spec_valid_body(c.view().value.ty, c.view().value.body)),
    {
        proof {
            use_type_invariant(&*self);
        }
        let n = self.body.len();
        if n == 0 {
            return Err(DeserializeError::UnexpectedEnd);
        }
        let offset = read_u32(self.body, 0);
        let type_raw = read_u32(self.body, 4);
        let (value, remaining) = PodDeserializer::new(&self.body[8..n]);
        self.body = remaining;
        proof {
            crate::spa_enum::law_spa_enum_raw_roundtrip::<SpaControlType>(type_raw);
        }
        Ok(
            PodControlDeserializer {
                offset,
                type_: SpaEnum::<SpaControlType>::from_raw(type_raw),
                value,
            },
        )
    }
}

/// What a control holds.
pub ghost struct ControlView {
    pub offset: u32,
    pub type_: u32,
    pub value: PodView,
}

impl<'a> PodControlDeserializer<'a> {
    pub closed spec fn view(self) -> ControlView {
        ControlView {
            offset: self.offset,
            type_: spec_spa_enum_as_raw(self.type_),
            value: self.value.view(),
        }
    }

    /// The offset of the control.
    pub fn offset(&self) -> (r: u32)
        ensures
            r == self.view().offset,
    {
        self.offset
    }

    /// The type of the control.
    pub fn type_(&self) -> (r: SpaEnum<SpaControlType>)
        ensures
            spec_spa_enum_as_raw(r) == self.view().type_,
    {
        self.type_
    }

    /// The value of the control.
    pub fn value(&self) -> (r: &PodDeserializer<'a>)
        ensures
            r.view() == self.view().value,
    {
        &self.value
    }
}

} // verus!
