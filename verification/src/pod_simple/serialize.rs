//! Writing primitive pods, arrays of primitives and structs.

use vstd::prelude::*;
use vstd::string::StringSliceAdditionalSpecFns;
use crate::bytes::{
    append_bytes, pad_to_8, patch_u32, push_u32, push_zeros, spec_pad_to_8, spec_u32_bytes,
    spec_zeros,
};
use crate::spa_enum::SpaRawEnum;
use crate::spa_types::{SpaFraction, SpaRectangle, SpaType};
use crate::pod_v2::laws::spec_encode;
use crate::pod_v2::serialize::{spec_close, spec_extends};

verus! {

/// A value that can be written as the body of a pod.
pub trait PodWrite {
    /// The body bytes of the value.
    spec fn spec_body(&self) -> Seq<u8>;

    /// The value can be written: its body fits a pod.
    spec fn spec_writable(&self) -> bool;

    /// The size of the body.
    fn size(&self) -> (r: u32)
        requires
            self.spec_writable(),
        ensures
            r == self.spec_body().len(),
    ;

    /// Append the body to `w`.
    fn write(&self, w: &mut Vec<u8>)
        requires
            self.spec_writable(),
        ensures
            final(w)@ == old(w)@ + self.spec_body(),
    ;
}

/// A value with a fixed pod type.
pub trait TypedPod {
    spec fn spec_spa_type() -> SpaType;

    /// The pod type of the value.
    fn spa_type() -> (r: SpaType)
        ensures
            r == Self::spec_spa_type(),
    ;
}

/// A value that is written as a pod of its own type.
pub trait Primitive: TypedPod + PodWrite {

}

impl<T: PodWrite + TypedPod> Primitive for T {

}

/// The body of a `Bitmap` pod.
pub struct SpaBitmap<'a>(pub &'a [u8]);

impl TypedPod for () {
    open spec fn spec_spa_type() -> SpaType {
        SpaType::NoneType
    }

    fn spa_type() -> (r: SpaType) {
        SpaType::NoneType
    }
}

impl PodWrite for () {
    open spec fn spec_body(&self) -> Seq<u8> {
        Seq::empty()
    }

    open spec fn spec_writable(&self) -> bool {
        true
    }

    fn size(&self) -> (r: u32) {
        0
    }

    fn write(&self, w: &mut Vec<u8>) {
        assert(w@ + Seq::<u8>::empty() =~= w@);
    }
}

impl TypedPod for bool {
    open spec fn spec_spa_type() -> SpaType {
        SpaType::Bool
    }

    fn spa_type() -> (r: SpaType) {
        SpaType::Bool
    }
}

impl PodWrite for bool {
    open spec fn spec_body(&self) -> Seq<u8> {
        spec_u32_bytes(if *self { 1 } else { 0 })
    }

    open spec fn spec_writable(&self) -> bool {
        true
    }

    fn size(&self) -> (r: u32) {
        proof {
            crate::bytes::lemma_u32_bytes(if *self { 1 } else { 0 });
        }
        4
    }

    fn write(&self, w: &mut Vec<u8>) {
        let v: u32 = if *self { 1 } else { 0 };
        push_u32(w, v);
    }
}

impl TypedPod for i32 {
    open spec fn spec_spa_type() -> SpaType {
        SpaType::Int
    }

    fn spa_type() -> (r: SpaType) {
        SpaType::Int
    }
}

impl PodWrite for i32 {
    open spec fn spec_body(&self) -> Seq<u8> {
        spec_u32_bytes(*self as u32)
    }

    open spec fn spec_writable(&self) -> bool {
        true
    }

    fn size(&self) -> (r: u32) {
        proof {
            crate::bytes::lemma_u32_bytes(*self as u32);
        }
        4
    }

    fn write(&self, w: &mut Vec<u8>) {
        push_u32(w, *self as u32);
    }
}

impl TypedPod for i64 {
    open spec fn spec_spa_type() -> SpaType {
        SpaType::Long
    }

    fn spa_type() -> (r: SpaType) {
        SpaType::Long
    }
}

impl PodWrite for i64 {
    open spec fn spec_body(&self) -> Seq<u8> {
        crate::bytes::spec_u64_bytes(*self as u64)
    }

    open spec fn spec_writable(&self) -> bool {
        true
    }

    fn size(&self) -> (r: u32) {
        proof {
            crate::bytes::lemma_u64_bytes(*self as u64);
        }
        8
    }

    fn write(&self, w: &mut Vec<u8>) {
        crate::bytes::push_u64(w, *self as u64);
    }
}

impl<'s> TypedPod for &'s str {
    open spec fn spec_spa_type() -> SpaType {
        SpaType::String
    }

    fn spa_type() -> (r: SpaType) {
        SpaType::String
    }
}

impl<'s> PodWrite for &'s str {
    /// The UTF-8 bytes and a terminating NUL.
    open spec fn spec_body(&self) -> Seq<u8> {
        (**self).spec_bytes().push(0u8)
    }

    /// The text holds no NUL byte and fits a pod.
    open spec fn spec_writable(&self) -> bool {
        &&& (**self).spec_bytes().len() < u32::MAX
        &&& forall|i: int|
            0 <= i < (**self).spec_bytes().len() ==> #[trigger] (**self).spec_bytes()[i] != 0
    }

    fn size(&self) -> (r: u32) {
        let b = (**self).as_bytes();
        (b.len() + 1) as u32
    }

    fn write(&self, w: &mut Vec<u8>) {
        let b = (**self).as_bytes();
        append_bytes(w, b);
        w.push(0u8);
    }
}

impl<'s> TypedPod for &'s [u8] {
    open spec fn spec_spa_type() -> SpaType {
        SpaType::Bytes
    }

    fn spa_type() -> (r: SpaType) {
        SpaType::Bytes
    }
}

impl<'s> PodWrite for &'s [u8] {
    open spec fn spec_body(&self) -> Seq<u8> {
        (**self)@
    }

    open spec fn spec_writable(&self) -> bool {
        (**self)@.len() <= u32::MAX
    }

    fn size(&self) -> (r: u32) {
        (**self).len() as u32
    }

    fn write(&self, w: &mut Vec<u8>) {
        append_bytes(w, *self);
    }
}

impl TypedPod for SpaRectangle {
    open spec fn spec_spa_type() -> SpaType {
        SpaType::Rectangle
    }

    fn spa_type() -> (r: SpaType) {
        SpaType::Rectangle
    }
}

impl PodWrite for SpaRectangle {
    open spec fn spec_body(&self) -> Seq<u8> {
        spec_u32_bytes(self.width) + spec_u32_bytes(self.height)
    }

    open spec fn spec_writable(&self) -> bool {
        true
    }

    fn size(&self) -> (r: u32) {
        proof {
            crate::bytes::lemma_u32_bytes(self.width);
            crate::bytes::lemma_u32_bytes(self.height);
        }
        8
    }

    fn write(&self, w: &mut Vec<u8>) {
        let ghost w0 = w@;
        push_u32(w, self.width);
        push_u32(w, self.height);
        assert(w@ =~= w0 + (spec_u32_bytes(self.width) + spec_u32_bytes(self.height)));
    }
}

impl TypedPod for SpaFraction {
    open spec fn spec_spa_type() -> SpaType {
        SpaType::Fraction
    }

    fn spa_type() -> (r: SpaType) {
        SpaType::Fraction
    }
}

impl PodWrite for SpaFraction {
    open spec fn spec_body(&self) -> Seq<u8> {
        spec_u32_bytes(self.num) + spec_u32_bytes(self.denom)
    }

    open spec fn spec_writable(&self) -> bool {
        true
    }

    fn size(&self) -> (r: u32) {
        proof {
            crate::bytes::lemma_u32_bytes(self.num);
            crate::bytes::lemma_u32_bytes(self.denom);
        }
        8
    }

    fn write(&self, w: &mut Vec<u8>) {
        let ghost w0 = w@;
        push_u32(w, self.num);
        push_u32(w, self.denom);
        assert(w@ =~= w0 + (spec_u32_bytes(self.num) + spec_u32_bytes(self.denom)));
    }
}

impl<'s> TypedPod for SpaBitmap<'s> {
    open spec fn spec_spa_type() -> SpaType {
        SpaType::Bitmap
    }

    fn spa_type() -> (r: SpaType) {
        SpaType::Bitmap
    }
}

impl<'s> PodWrite for SpaBitmap<'s> {
    open spec fn spec_body(&self) -> Seq<u8> {
        self.0@
    }

    open spec fn spec_writable(&self) -> bool {
        self.0@.len() <= u32::MAX
    }

    fn size(&self) -> (r: u32) {
        self.0.len() as u32
    }

    fn write(&self, w: &mut Vec<u8>) {
        append_bytes(w, self.0);
    }
}

/// A pod writer over a growing byte buffer.
pub struct Builder {
    buff: Vec<u8>,
}

/// An open struct; [`StructBuilder::done`] closes it.
pub struct StructBuilder {
    header_start: usize,
}

/// An open array of primitives; [`ArrayBuilder::done`] closes it.
pub struct ArrayBuilder {
    header_start: usize,
}

impl Builder {
    /// The bytes written so far.
    pub closed spec fn view(self) -> Seq<u8> {
        self.buff@
    }

    /// An empty builder.
    pub fn new() -> (r: Self)
        ensures
            r.view() == Seq::<u8>::empty(),
    {
        Builder { buff: Vec::new() }
    }

    /// The bytes written.
    pub fn into_inner(self) -> (r: Vec<u8>)
        ensures
            r@ == self.view(),
    {
        self.buff
    }

    fn push_header(&mut self, size: u32, ty: SpaType)
        ensures
            final(self).view() == old(self).view() + spec_u32_bytes(size) + spec_u32_bytes(
                ty.spec_to_raw(),
            ),
    {
        push_u32(&mut self.buff, size);
        push_u32(&mut self.buff, ty.to_raw_value());
    }

    fn push_padding(&mut self, padding: u32)
        ensures
            final(self).view() == old(self).view() + spec_zeros(padding as nat),
    {
        push_zeros(&mut self.buff, padding);
    }

    /// Write `value` as a pod of its type, padded.
    pub fn push<P: Primitive>(&mut self, value: P) -> (r: &mut Self)
        requires
            value.spec_writable(),
        ensures
            r.view() == old(self).view() + spec_encode(
                P::spec_spa_type().spec_to_raw(),
                value.spec_body(),
            ),
            *final(self) == *final(r),
    {
        let size = value.size();
        let ty = P::spa_type();
        let ghost v0 = self.buff@;
        self.push_header(size, ty);
        value.write(&mut self.buff);
        self.push_padding(pad_to_8(size));
        assert(self.buff@ =~= v0 + spec_encode(ty.spec_to_raw(), value.spec_body()));
        self
    }

    /// Open an array whose children have the given size and type; the
    /// children are written by [`ArrayBuilder::push`].
    pub fn push_array(&mut self, child_size: u32, child_type: SpaType) -> (r: ArrayBuilder)
        ensures
            final(self).view() == old(self).view() + spec_u32_bytes(0) + spec_u32_bytes(
                SpaType::Array.spec_to_raw(),
            ) + spec_u32_bytes(child_size) + spec_u32_bytes(child_type.spec_to_raw()),
            r.start() == old(self).view().len(),
    {
        let header_start = self.buff.len();
        self.push_header(0, SpaType::Array);
        self.push_header(child_size, child_type);
        ArrayBuilder { header_start }
    }

    /// Write an array whose children `cb` writes: the array's header and
    /// child header, the children's bodies `cb` appended, then padding.
    pub fn push_array_with<F: FnOnce(&mut Builder, &mut ArrayBuilder)>(
        &mut self,
        child_size: u32,
        child_type: SpaType,
        cb: F,
    ) -> (r: &mut Self)
        requires
            forall|b: &mut Builder, a: &mut ArrayBuilder| call_requires(cb, (b, a)),
            forall|b: &mut Builder, a: &mut ArrayBuilder|
                #[trigger] call_ensures(cb, (b, a), ()) ==> spec_extends(b.view(), final(b).view())
                    && final(a).start() == a.start(),
        ensures
            exists|b: &mut Builder, a: &mut ArrayBuilder|
                #[trigger] call_ensures(cb, (b, a), ()) && b.view() == old(self).view()
                    + spec_u32_bytes(0) + spec_u32_bytes(SpaType::Array.spec_to_raw())
                    + spec_u32_bytes(child_size) + spec_u32_bytes(child_type.spec_to_raw())
                    && a.start() == old(self).view().len() && r.view() == spec_close(
                    final(b).view(),
                    old(self).view().len() as int,
                ) + spec_zeros(
                    spec_pad_to_8((final(b).view().len() - old(self).view().len() - 8) as u32)
                        as nat,
                ),
            *final(self) == *final(r),
    {
        let mut builder = self.push_array(child_size, child_type);
        proof {
            crate::bytes::lemma_u32_bytes(0);
            crate::bytes::lemma_u32_bytes(SpaType::Array.spec_to_raw());
            crate::bytes::lemma_u32_bytes(child_size);
            crate::bytes::lemma_u32_bytes(child_type.spec_to_raw());
        }
        let ghost v1 = self.view();
        let ghost s1 = builder.start();
        cb(self, &mut builder);
        proof {
            Builder::lemma_array_callback(cb, v1, self.view(), s1, builder.start());
        }
        builder.done(self);
        self
    }

    /// A callback that only appends, called on a builder holding `before`
    /// that ended holding `after`, appended to `before`; the open array stays.
    proof fn lemma_array_callback<F: FnOnce(&mut Builder, &mut ArrayBuilder)>(
        cb: F,
        before: Seq<u8>,
        after: Seq<u8>,
        start: nat,
        start_after: nat,
    )
        requires
            forall|b: &mut Builder, a: &mut ArrayBuilder|
                #[trigger] call_ensures(cb, (b, a), ()) ==> spec_extends(b.view(), final(b).view())
                    && final(a).start() == a.start(),
            exists|b: &mut Builder, a: &mut ArrayBuilder|
                #[trigger] call_ensures(cb, (b, a), ()) && b.view() == before && final(b).view()
                    == after && a.start() == start && final(a).start() == start_after,
        ensures
            spec_extends(before, after),
            start_after == start,
    {
        let (b, a) = choose|b: &mut Builder, a: &mut ArrayBuilder|
            #[trigger] call_ensures(cb, (b, a), ()) && b.view() == before && final(b).view()
                == after && a.start() == start && final(a).start() == start_after;
    }

    /// A callback that only appends, called on a builder holding `before`
    /// that ended holding `after`, appended to `before`.
    proof fn lemma_struct_callback<F: FnOnce(&mut Builder)>(cb: F, before: Seq<u8>, after: Seq<u8>)
        requires
            forall|b: &mut Builder|
                #[trigger] call_ensures(cb, (b,), ()) ==> spec_extends(b.view(), final(b).view()),
            exists|b: &mut Builder|
                #[trigger] call_ensures(cb, (b,), ()) && b.view() == before && final(b).view()
                    == after,
        ensures
            spec_extends(before, after),
    {
        let b = choose|b: &mut Builder|
            #[trigger] call_ensures(cb, (b,), ()) && b.view() == before && final(b).view()
                == after;
    }

    /// Open a struct; its fields are the pods written until
    /// [`StructBuilder::done`].
    pub fn push_struct(&mut self) -> (r: StructBuilder)
        ensures
            final(self).view() == old(self).view() + spec_u32_bytes(0) + spec_u32_bytes(
                SpaType::Struct.spec_to_raw(),
            ),
            r.start() == old(self).view().len(),
    {
        let header_start = self.buff.len();
        self.push_header(0, SpaType::Struct);
        StructBuilder { header_start }
    }

    /// Write a struct whose fields `cb` writes: the struct's header, sized to
    /// what `cb` appended, then those bytes.
    pub fn push_struct_with<F: FnOnce(&mut Builder)>(&mut self, cb: F) -> (r: &mut Self)
        requires
            forall|b: &mut Builder| call_requires(cb, (b,)),
            forall|b: &mut Builder|
                #[trigger] call_ensures(cb, (b,), ()) ==> spec_extends(b.view(), final(b).view()),
        ensures
            exists|b: &mut Builder|
                #[trigger] call_ensures(cb, (b,), ()) && b.view() == old(self).view()
                    + spec_u32_bytes(0) + spec_u32_bytes(SpaType::Struct.spec_to_raw())
                    && r.view() == spec_close(final(b).view(), old(self).view().len() as int),
            *final(self) == *final(r),
    {
        let builder = self.push_struct();
        proof {
            crate::bytes::lemma_u32_bytes(0);
            crate::bytes::lemma_u32_bytes(SpaType::Struct.spec_to_raw());
        }
        let ghost v1 = self.view();
        cb(self);
        proof {
            Builder::lemma_struct_callback(cb, v1, self.view());
        }
        builder.done(self);
        self
    }
}

impl StructBuilder {
    /// Where the struct's header starts.
    pub closed spec fn start(self) -> nat {
        self.header_start as nat
    }

    /// Close the struct: patch the size of its fields into its header.
    pub fn done(self, builder: &mut Builder)
        requires
            self.start() + 8 <= old(builder).view().len(),
        ensures
            final(builder).view() == spec_close(old(builder).view(), self.start() as int),
    {
        let pos = builder.buff.len();
        let size = (pos - self.header_start - 8) as u32;
        patch_u32(&mut builder.buff, self.header_start, size);
    }
}

impl ArrayBuilder {
    /// Where the array's header starts.
    pub closed spec fn start(self) -> nat {
        self.header_start as nat
    }

    /// Write the body of one child.
    pub fn push<P: Primitive>(&mut self, builder: &mut Builder, value: P) -> (r: &mut Self)
        requires
            value.spec_writable(),
        ensures
            final(builder).view() == old(builder).view() + value.spec_body(),
            *final(self) == *final(r),
            r.start() == old(self).start(),
    {
        value.write(&mut builder.buff);
        self
    }

    /// Close the array: patch its size into its header and pad.
    pub fn done(self, builder: &mut Builder)
        requires
            self.start() + 8 <= old(builder).view().len(),
        ensures
            final(builder).view() == spec_close(old(builder).view(), self.start() as int)
                + spec_zeros(
                spec_pad_to_8((old(builder).view().len() - self.start() - 8) as u32) as nat,
            ),
    {
        let pos = builder.buff.len();
        let size = (pos - self.header_start - 8) as u32;
        patch_u32(&mut builder.buff, self.header_start, size);
        builder.push_padding(pad_to_8(size));
    }
}

} // verus!
