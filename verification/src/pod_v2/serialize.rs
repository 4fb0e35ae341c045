//! Writing pods into a byte buffer.
//!
//! The builder appends to its buffer. Containers are written by opening them
//! (which writes a header with a zero size), writing their content, and
//! closing them, which patches the size into the header. Inside an array the
//! first child writes the child header and later children write only their
//! bodies, without padding.

use vstd::prelude::*;
use crate::bytes::{
    append_bytes, pad_to_8, patch_u32, push_u32, push_zeros, spec_pad_to_8, spec_u32_bytes,
    spec_u64_bytes, spec_zeros,
};
use super::deserialize::OwnedPod;
use super::format::{
    TYPE_ARRAY, TYPE_BITMAP, TYPE_BOOL, TYPE_BYTES, TYPE_FD, TYPE_FLOAT, TYPE_FRACTION, TYPE_ID,
    TYPE_INT, TYPE_LONG, TYPE_NONE, TYPE_OBJECT, TYPE_RECTANGLE, TYPE_STRING, TYPE_STRUCT,
};

verus! {

/// The state of a builder: bytes written so far, and whether the innermost
/// open container is an array and still waits for its first child.
pub ghost struct BuilderView {
    pub bytes: Seq<u8>,
    pub array_mode: bool,
    pub is_first: bool,
}

/// Write a header unless inside an array after its first child.
pub open spec fn spec_header(v: BuilderView, size: u32, ty: u32) -> BuilderView {
    if !v.array_mode || v.is_first {
        BuilderView {
            bytes: v.bytes + spec_u32_bytes(size) + spec_u32_bytes(ty),
            is_first: false,
            ..v
        }
    } else {
        v
    }
}

/// Write padding unless inside an array.
pub open spec fn spec_padding(v: BuilderView, padding: u32) -> BuilderView {
    if v.array_mode {
        v
    } else {
        BuilderView { bytes: v.bytes + spec_zeros(padding as nat), ..v }
    }
}

/// `after` is `before` with bytes appended.
pub open spec fn spec_extends(before: Seq<u8>, after: Seq<u8>) -> bool {
    before.len() <= after.len() && after.subrange(0, before.len() as int) == before
}

/// Append raw bytes.
pub open spec fn spec_append(v: BuilderView, s: Seq<u8>) -> BuilderView {
    BuilderView { bytes: v.bytes + s, ..v }
}

/// Write a pod of the given size and type with the given body.
pub open spec fn spec_primitive(v: BuilderView, size: u32, ty: u32, body: Seq<u8>) -> BuilderView {
    spec_padding(spec_append(spec_header(v, size, ty), body), spec_pad_to_8(size))
}

/// The bytes of `s` with the four bytes at `at` replaced by the size of what
/// follows the header starting there.
pub open spec fn spec_close(s: Seq<u8>, at: int) -> Seq<u8> {
    s.subrange(0, at) + spec_u32_bytes((s.len() - at - 8) as u32) + s.subrange(at + 4, s.len() as int)
}

#[derive(Clone, Copy)]
struct BuilderFrame {
    array_mode: bool,
    is_first: bool,
}

/// A pod writer over a growing byte buffer.
pub struct Builder {
    buff: Vec<u8>,
    frame: BuilderFrame,
}

/// An open struct; [`StructBuilder::done`] closes it.
pub struct StructBuilder {
    header_start: usize,
    parent_frame: BuilderFrame,
}

/// An open array; [`ArrayBuilder::done`] closes it.
pub struct ArrayBuilder {
    header_start: usize,
    parent_frame: BuilderFrame,
}

/// An open object; [`ObjectBuilder::done`] closes it.
pub struct ObjectBuilder {
    header_start: usize,
    parent_frame: BuilderFrame,
}

impl Builder {
    pub closed spec fn view(self) -> BuilderView {
        BuilderView {
            bytes: self.buff@,
            array_mode: self.frame.array_mode,
            is_first: self.frame.is_first,
        }
    }

    /// An empty builder at the top level.
    pub fn new() -> (r: Self)
        ensures
            r.view() == (BuilderView { bytes: Seq::empty(), array_mode: false, is_first: true }),
    {
        Builder { buff: Vec::new(), frame: BuilderFrame { array_mode: false, is_first: true } }
    }

    /// The bytes written.
    pub fn into_inner(self) -> (r: Vec<u8>)
        ensures
            r@ == self.view().bytes,
    {
        self.buff
    }

    fn write_header(&mut self, size: u32, ty: u32)
        ensures
            final(self).view() == spec_header(old(self).view(), size, ty),
    {
        if !self.frame.array_mode || self.frame.is_first {
            push_u32(&mut self.buff, size);
            push_u32(&mut self.buff, ty);
            self.frame.is_first = false;
        }
    }

    fn write_padding(&mut self, padding: u32)
        ensures
            final(self).view() == spec_padding(old(self).view(), padding),
    {
        if self.frame.array_mode {
            return;
        }
        push_zeros(&mut self.buff, padding);
    }

    fn write_raw(&mut self, s: &[u8])
        ensures
            final(self).view() == spec_append(old(self).view(), s@),
    {
        append_bytes(&mut self.buff, s);
    }

    pub(crate) fn write_primitive(&mut self, size: u32, ty: u32, v: &[u8])
        ensures
            final(self).view() == spec_primitive(old(self).view(), size, ty, v@),
    {
        self.write_header(size, ty);
        self.write_raw(v);
        self.write_padding(pad_to_8(size));
    }

    /// Write a `None` pod.
    pub fn write_none(&mut self) -> (r: &mut Self)
        ensures
            r.view() == spec_header(old(self).view(), 0, TYPE_NONE),
            *final(self) == *final(r),
    {
        self.write_header(0, TYPE_NONE);
        self
    }

    /// Write a `Bool` pod (1 or 0).
    pub fn write_bool(&mut self, v: bool) -> (r: &mut Self)
        ensures
            r.view() == spec_primitive(
                old(self).view(),
                4,
                TYPE_BOOL,
                spec_u32_bytes(if v { 1 } else { 0 }),
            ),
            *final(self) == *final(r),
    {
        let raw: u32 = if v { 1 } else { 0 };
        let bytes = vstd::bytes::u32_to_le_bytes(raw);
        self.write_primitive(4, TYPE_BOOL, bytes.as_slice());
        self
    }

    /// Write an `Id` pod.
    pub fn write_id(&mut self, v: u32) -> (r: &mut Self)
        ensures
            r.view() == spec_primitive(old(self).view(), 4, TYPE_ID, spec_u32_bytes(v)),
            *final(self) == *final(r),
    {
        let bytes = vstd::bytes::u32_to_le_bytes(v);
        self.write_primitive(4, TYPE_ID, bytes.as_slice());
        self
    }

    /// Write an `Int` pod.
    pub fn write_int(&mut self, v: i32) -> (r: &mut Self)
        ensures
            r.view() == spec_primitive(old(self).view(), 4, TYPE_INT, spec_u32_bytes(v as u32)),
            *final(self) == *final(r),
    {
        let bytes = vstd::bytes::u32_to_le_bytes(v as u32);
        self.write_primitive(4, TYPE_INT, bytes.as_slice());
        self
    }

    /// Write an `Int` pod.
    pub fn write_i32(&mut self, v: i32) -> (r: &mut Self)
        ensures
            r.view() == spec_primitive(old(self).view(), 4, TYPE_INT, spec_u32_bytes(v as u32)),
            *final(self) == *final(r),
    {
        self.write_int(v);
        self
    }

    /// Write an `Int` pod holding the bits of `v`.
    pub fn write_u32(&mut self, v: u32) -> (r: &mut Self)
        ensures
            r.view() == spec_primitive(old(self).view(), 4, TYPE_INT, spec_u32_bytes(v)),
            *final(self) == *final(r),
    {
        proof {
            assert((v as i32) as u32 == v) by (bit_vector);
        }
        self.write_int(v as i32);
        self
    }

    /// Write a `Float` pod whose body is the IEEE 754 bits `bits`.
    pub fn write_float_bits(&mut self, bits: u32) -> (r: &mut Self)
        ensures
            r.view() == spec_primitive(old(self).view(), 4, TYPE_FLOAT, spec_u32_bytes(bits)),
            *final(self) == *final(r),
    {
        let bytes = vstd::bytes::u32_to_le_bytes(bits);
        self.write_primitive(4, TYPE_FLOAT, bytes.as_slice());
        self
    }

    /// Write a `Long` pod.
    pub fn write_long(&mut self, v: i64) -> (r: &mut Self)
        ensures
            r.view() == spec_primitive(old(self).view(), 8, TYPE_LONG, spec_u64_bytes(v as u64)),
            *final(self) == *final(r),
    {
        let bytes = vstd::bytes::u64_to_le_bytes(v as u64);
        self.write_primitive(8, TYPE_LONG, bytes.as_slice());
        self
    }

    /// Write a `Long` pod holding the bits of `v`.
    pub fn write_u64(&mut self, v: u64) -> (r: &mut Self)
        ensures
            r.view() == spec_primitive(old(self).view(), 8, TYPE_LONG, spec_u64_bytes(v)),
            *final(self) == *final(r),
    {
        proof {
            assert((v as i64) as u64 == v) by (bit_vector);
        }
        self.write_long(v as i64);
        self
    }

    /// Write an `Fd` pod holding the index of a file descriptor.
    pub fn write_fd(&mut self, v: u64) -> (r: &mut Self)
        ensures
            r.view() == spec_primitive(old(self).view(), 8, TYPE_FD, spec_u64_bytes(v)),
            *final(self) == *final(r),
    {
        let bytes = vstd::bytes::u64_to_le_bytes(v);
        self.write_primitive(8, TYPE_FD, bytes.as_slice());
        self
    }

    /// Write a `String` pod: the bytes and a terminating NUL.
    pub fn write_str(&mut self, v: &[u8]) -> (r: &mut Self)
        requires
            v@.len() < u32::MAX,
        ensures
            r.view() == spec_primitive(
                old(self).view(),
                (v@.len() + 1) as u32,
                TYPE_STRING,
                v@.push(0u8),
            ),
            *final(self) == *final(r),
    {
        let size = v.len() as u32 + 1;
        self.write_header(size, TYPE_STRING);
        self.write_raw(v);
        let nul: [u8; 1] = [0u8];
        self.write_raw(nul.as_slice());
        assert(nul@ == seq![0u8]);
        self.write_padding(pad_to_8(size));
        assert(spec_append(spec_append(spec_header(old(self).view(), size, TYPE_STRING), v@), seq![0u8]).bytes
            == spec_append(spec_header(old(self).view(), size, TYPE_STRING), v@.push(0u8)).bytes);
        self
    }

    /// Write a `Bytes` pod.
    pub fn write_bytes(&mut self, v: &[u8]) -> (r: &mut Self)
        requires
            v@.len() <= u32::MAX,
        ensures
            r.view() == spec_primitive(old(self).view(), v@.len() as u32, TYPE_BYTES, v@),
            *final(self) == *final(r),
    {
        self.write_primitive(v.len() as u32, TYPE_BYTES, v);
        self
    }

    /// Write a `Rectangle` pod.
    pub fn write_rectangle(&mut self, width: u32, height: u32) -> (r: &mut Self)
        ensures
            r.view() == spec_append(
                spec_header(old(self).view(), 8, TYPE_RECTANGLE),
                spec_u32_bytes(width) + spec_u32_bytes(height),
            ),
            *final(self) == *final(r),
    {
        self.write_header(8, TYPE_RECTANGLE);
        let ghost mid = self.buff@;
        push_u32(&mut self.buff, width);
        push_u32(&mut self.buff, height);
        assert(self.buff@ =~= mid + (spec_u32_bytes(width) + spec_u32_bytes(height)));
        self
    }

    /// Write a `Fraction` pod.
    pub fn write_fraction(&mut self, num: u32, denom: u32) -> (r: &mut Self)
        ensures
            r.view() == spec_append(
                spec_header(old(self).view(), 8, TYPE_FRACTION),
                spec_u32_bytes(num) + spec_u32_bytes(denom),
            ),
            *final(self) == *final(r),
    {
        self.write_header(8, TYPE_FRACTION);
        let ghost mid = self.buff@;
        push_u32(&mut self.buff, num);
        push_u32(&mut self.buff, denom);
        assert(self.buff@ =~= mid + (spec_u32_bytes(num) + spec_u32_bytes(denom)));
        self
    }

    /// Write a `Bitmap` pod.
    pub fn write_bitmap(&mut self, v: &[u8]) -> (r: &mut Self)
        requires
            v@.len() <= u32::MAX,
        ensures
            r.view() == spec_primitive(old(self).view(), v@.len() as u32, TYPE_BITMAP, v@),
            *final(self) == *final(r),
    {
        self.write_primitive(v.len() as u32, TYPE_BITMAP, v);
        self
    }

    /// Write a pod held in an [`OwnedPod`].
    pub fn write_pod(&mut self, pod: &OwnedPod) -> (r: &mut Self)
        ensures
            r.view() == spec_primitive(
                old(self).view(),
                pod.view().body.len() as u32,
                pod.view().ty,
                pod.view().body,
            ),
            *final(self) == *final(r),
    {
        let de = pod.as_deserializer();
        self.write_primitive(de.size(), de.ty().as_raw(), de.body());
        self
    }

    /// Open a struct.
    pub fn push_struct(&mut self) -> (r: StructBuilder)
        requires
            !old(self).view().array_mode,
        ensures
            final(self).view() == (BuilderView {
                bytes: old(self).view().bytes + spec_u32_bytes(0) + spec_u32_bytes(TYPE_STRUCT),
                array_mode: false,
                is_first: true,
            }),
            r.start() == old(self).view().bytes.len(),
            r.parent() == (false, false),
    {
        let header_start = self.buff.len();
        self.write_header(0, TYPE_STRUCT);
        let parent_frame = self.frame;
        self.frame = BuilderFrame { array_mode: false, is_first: true };
        StructBuilder { header_start, parent_frame }
    }

    /// Open an array; its first child writes the child size and type.
    pub fn push_array(&mut self) -> (r: ArrayBuilder)
        requires
            !old(self).view().array_mode,
        ensures
            final(self).view() == (BuilderView {
                bytes: old(self).view().bytes + spec_u32_bytes(0) + spec_u32_bytes(TYPE_ARRAY),
                array_mode: true,
                is_first: true,
            }),
            r.start() == old(self).view().bytes.len(),
            r.parent() == (false, false),
    {
        let header_start = self.buff.len();
        self.write_header(0, TYPE_ARRAY);
        let parent_frame = self.frame;
        self.frame = BuilderFrame { array_mode: true, is_first: true };
        ArrayBuilder { header_start, parent_frame }
    }

    /// Open an object of type `object_ty` and id `object_id`.
    pub fn push_object(&mut self, object_ty: u32, object_id: u32) -> (r: ObjectBuilder)
        requires
            !old(self).view().array_mode,
        ensures
            final(self).view() == (BuilderView {
                bytes: old(self).view().bytes + spec_u32_bytes(0) + spec_u32_bytes(TYPE_OBJECT)
                    + spec_u32_bytes(object_ty) + spec_u32_bytes(object_id),
                array_mode: false,
                is_first: true,
            }),
            r.start() == old(self).view().bytes.len(),
            r.parent() == (false, false),
    {
        let header_start = self.buff.len();
        self.write_header(0, TYPE_OBJECT);
        push_u32(&mut self.buff, object_ty);
        push_u32(&mut self.buff, object_id);
        let parent_frame = self.frame;
        self.frame = BuilderFrame { array_mode: false, is_first: true };
        ObjectBuilder { header_start, parent_frame }
    }

    /// Start a property of an open object; the next pod written is its value.
    pub fn write_property(&mut self, key: u32, flags: u32) -> (r: &mut Self)
        ensures
            r.view() == spec_append(old(self).view(), spec_u32_bytes(key) + spec_u32_bytes(flags)),
            *final(self) == *final(r),
    {
        let ghost mid = self.buff@;
        push_u32(&mut self.buff, key);
        push_u32(&mut self.buff, flags);
        assert(self.buff@ =~= mid + (spec_u32_bytes(key) + spec_u32_bytes(flags)));
        self
    }

    /// A callback that only appends, called on a builder in state `before`
    /// that ended in state `after`, appended to `before`'s bytes.
    proof fn lemma_callback_extends<F: FnOnce(&mut Builder)>(cb: F, before: BuilderView, after: BuilderView)
        requires
            forall|b: &mut Builder|
                #[trigger] call_ensures(cb, (b,), ()) ==> spec_extends(
                    b.view().bytes,
                    final(b).view().bytes,
                ),
            exists|b: &mut Builder|
                #[trigger] call_ensures(cb, (b,), ()) && b.view() == before && final(b).view() == after,
        ensures
            spec_extends(before.bytes, after.bytes),
    {
        let b = choose|b: &mut Builder|
            #[trigger] call_ensures(cb, (b,), ()) && b.view() == before && final(b).view() == after;
    }

    /// Write a struct whose fields `cb` writes: the struct's header, sized to
    /// what `cb` appended, then those bytes.
    pub fn push_struct_with<F: FnOnce(&mut Builder)>(&mut self, cb: F) -> (r: &mut Self)
        requires
            !old(self).view().array_mode,
            forall|b: &mut Builder| call_requires(cb, (b,)),
            forall|b: &mut Builder|
                #[trigger] call_ensures(cb, (b,), ()) ==> spec_extends(
                    b.view().bytes,
                    final(b).view().bytes,
                ),
        ensures
            exists|b: &mut Builder|
                #[trigger] call_ensures(cb, (b,), ()) && b.view() == (BuilderView {
                    bytes: old(self).view().bytes + spec_u32_bytes(0) + spec_u32_bytes(TYPE_STRUCT),
                    array_mode: false,
                    is_first: true,
                }) && r.view() == (BuilderView {
                    bytes: spec_close(final(b).view().bytes, old(self).view().bytes.len() as int),
                    array_mode: false,
                    is_first: false,
                }),
            *final(self) == *final(r),
    {
        let builder = self.push_struct();
        proof {
            crate::bytes::lemma_u32_bytes(0);
            crate::bytes::lemma_u32_bytes(TYPE_STRUCT);
        }
        let ghost v1 = self.view();
        cb(self);
        proof {
            Builder::lemma_callback_extends(cb, v1, self.view());
        }
        builder.done(self);
        self
    }

    /// Write an array whose children `cb` writes: the array's header, sized
    /// to what `cb` appended, those bytes, then padding.
    pub fn write_array_with<F: FnOnce(&mut Builder)>(&mut self, cb: F) -> (r: &mut Self)
        requires
            !old(self).view().array_mode,
            forall|b: &mut Builder| call_requires(cb, (b,)),
            forall|b: &mut Builder|
                #[trigger] call_ensures(cb, (b,), ()) ==> spec_extends(
                    b.view().bytes,
                    final(b).view().bytes,
                ),
        ensures
            exists|b: &mut Builder|
                #[trigger] call_ensures(cb, (b,), ()) && b.view() == (BuilderView {
                    bytes: old(self).view().bytes + spec_u32_bytes(0) + spec_u32_bytes(TYPE_ARRAY),
                    array_mode: true,
                    is_first: true,
                }) && r.view() == (BuilderView {
                    bytes: spec_close(final(b).view().bytes, old(self).view().bytes.len() as int)
                        + spec_zeros(
                        spec_pad_to_8(
                            (final(b).view().bytes.len() - old(self).view().bytes.len() - 8) as u32,
                        ) as nat,
                    ),
                    array_mode: false,
                    is_first: false,
                }),
            *final(self) == *final(r),
    {
        let builder = self.push_array();
        proof {
            crate::bytes::lemma_u32_bytes(0);
            crate::bytes::lemma_u32_bytes(TYPE_ARRAY);
        }
        let ghost v1 = self.view();
        cb(self);
        proof {
            Builder::lemma_callback_extends(cb, v1, self.view());
        }
        builder.done(self);
        self
    }
}

impl StructBuilder {
    /// Where the struct's header starts.
    pub closed spec fn start(self) -> nat {
        self.header_start as nat
    }

    /// The enclosing frame, restored on close.
    pub closed spec fn parent(self) -> (bool, bool) {
        (self.parent_frame.array_mode, self.parent_frame.is_first)
    }

    /// Close the struct: patch its size and return to the enclosing frame.
    pub fn done(self, builder: &mut Builder)
        requires
            self.start() + 8 <= old(builder).view().bytes.len(),
        ensures
            final(builder).view() == (BuilderView {
                bytes: spec_close(old(builder).view().bytes, self.start() as int),
                array_mode: self.parent().0,
                is_first: self.parent().1,
            }),
    {
        let pos = builder.buff.len();
        let size = (pos - self.header_start - 8) as u32;
        patch_u32(&mut builder.buff, self.header_start, size);
        builder.frame = self.parent_frame;
    }
}

impl ArrayBuilder {
    /// Where the array's header starts.
    pub closed spec fn start(self) -> nat {
        self.header_start as nat
    }

    /// The enclosing frame, restored on close.
    pub closed spec fn parent(self) -> (bool, bool) {
        (self.parent_frame.array_mode, self.parent_frame.is_first)
    }

    /// Close the array: patch its size, return to the enclosing frame and pad.
    pub fn done(self, builder: &mut Builder)
        requires
            self.start() + 8 <= old(builder).view().bytes.len(),
        ensures
            final(builder).view() == spec_padding(
                BuilderView {
                    bytes: spec_close(old(builder).view().bytes, self.start() as int),
                    array_mode: self.parent().0,
                    is_first: self.parent().1,
                },
                spec_pad_to_8(
                    (old(builder).view().bytes.len() - self.start() - 8) as u32,
                ),
            ),
    {
        let pos = builder.buff.len();
        let size = (pos - self.header_start - 8) as u32;
        patch_u32(&mut builder.buff, self.header_start, size);
        builder.frame = self.parent_frame;
        builder.write_padding(pad_to_8(size));
    }
}

impl ObjectBuilder {
    /// Where the object's header starts.
    pub closed spec fn start(self) -> nat {
        self.header_start as nat
    }

    /// The enclosing frame, restored on close.
    pub closed spec fn parent(self) -> (bool, bool) {
        (self.parent_frame.array_mode, self.parent_frame.is_first)
    }

    /// Close the object: patch its size and return to the enclosing frame.
    pub fn done(self, builder: &mut Builder)
        requires
            self.start() + 8 <= old(builder).view().bytes.len(),
        ensures
            final(builder).view() == (BuilderView {
                bytes: spec_close(old(builder).view().bytes, self.start() as int),
                array_mode: self.parent().0,
                is_first: self.parent().1,
            }),
    {
        let pos = builder.buff.len();
        let size = (pos - self.header_start - 8) as u32;
        patch_u32(&mut builder.buff, self.header_start, size);
        builder.frame = self.parent_frame;
    }
}

} // verus!
