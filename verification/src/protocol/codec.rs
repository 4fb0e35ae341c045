//! The fields of protocol messages.
//!
//! Every message travels as a struct pod whose fields are pods. A message is
//! described by its fields ([`Field`]); [`spec_fields_bytes`] says how they
//! are written and [`spec_parse_fields`] how a run of fields of given kinds
//! is read back.

use vstd::prelude::*;

use vstd::utf8::{decode_utf8, encode_utf8, valid_utf8};
use crate::bytes::{spec_le32, spec_le64, spec_u32_bytes, spec_u64_bytes, spec_zeros};

use crate::spa_types::SpaType;
use crate::pod_v2::format::{
    spec_pod_rest, TYPE_ARRAY, TYPE_BOOL, TYPE_FD, TYPE_ID, TYPE_INT, TYPE_LONG, TYPE_NONE,
    TYPE_STRING, TYPE_STRUCT,
};
use crate::pod_v2::deserialize::{
    spec_cstr, spec_head_view, spec_unexpected, DeserializeError, OwnedPod, PodResult,
    PodStructDeserializer, PodView,
};
use crate::pod_v2::laws::{
    law_builder_writes_pod, law_close_struct, law_decode_encode, spec_encode, spec_fits_u32,
};
use crate::pod_v2::serialize::{Builder, BuilderView, StructBuilder};
use super::{
    parse_dict, parse_params, spec_dict_view, spec_params_canonical, spec_params_view, ParamInfo,
    PwDictionary,
};

verus! {

/// The text that `bytes` reads as: UTF-8, with each invalid sequence replaced
/// by U+FFFD.
pub uninterp spec fn spec_bstr_to_string(bytes: Seq<u8>) -> Seq<char>;

/// Calls `bstr::BStr::to_string` (through its `Display` impl): the bytes read
/// as UTF-8, lossily. The contract names the result, and states the one fact
/// the crate's source plainly shows: valid UTF-8 is decoded unchanged.
#[verifier::external_body]
pub(crate) fn bstr_to_string(bytes: &[u8]) -> (r: String)
    ensures
        r@ == spec_bstr_to_string(bytes@),
        valid_utf8(bytes@) ==> r@ == decode_utf8(bytes@),
{
    bstr::BStr::new(bytes).to_string()
}

/// One field of a message, as it travels.
pub ghost enum Field {
    /// An `Int` pod, by its bits.
    Int(u32),
    /// A `Long` pod, by its bits.
    Long(u64),
    Id(u32),
    Bool(bool),
    /// An `Fd` pod: the index of a file descriptor sent along.
    Fd(i64),
    /// A `String` pod.
    Str(Seq<char>),
    /// A `String` pod, or a `None` pod.
    OptStr(Option<Seq<char>>),
    /// Any pod.
    Pod(PodView),
    /// A struct of a count and that many key and value strings.
    Dict(Seq<(Seq<char>, Seq<char>)>),
    /// A struct of a count and that many `Id` and `Int` pairs.
    Params(Seq<(u32, u32)>),
    /// A struct of a count and that many pairs of `Int`s (an id and
    /// permission bits); read back, pairs with a negative id are left out.
    Perms(Seq<(u32, u32)>),
    /// An array of `Id`s.
    Ids(Seq<u32>),
}

/// The kind of a field, as a reader expects it.
pub ghost enum FieldKind {
    Int,
    Long,
    Id,
    Bool,
    Fd,
    Str,
    OptStr,
    Pod,
    Dict,
    Params,
    Perms,
    Ids,
}

// ---------------------------------------------------------------------------
// Writing

/// The bytes of a `String` pod of `s`.
pub open spec fn spec_str_bytes(s: Seq<char>) -> Seq<u8> {
    spec_encode(TYPE_STRING, encode_utf8(s).push(0u8))
}

/// The key and value strings of `d`, one after the other.
pub open spec fn spec_pairs_bytes(d: Seq<(Seq<char>, Seq<char>)>) -> Seq<u8>
    decreases d.len(),
{
    if d.len() == 0 {
        Seq::empty()
    } else {
        spec_pairs_bytes(d.drop_last()) + spec_str_bytes(d.last().0) + spec_str_bytes(
            d.last().1,
        )
    }
}

/// The `Id` and `Int` pods of `p`, one after the other.
pub open spec fn spec_params_bytes(p: Seq<(u32, u32)>) -> Seq<u8>
    decreases p.len(),
{
    if p.len() == 0 {
        Seq::empty()
    } else {
        spec_params_bytes(p.drop_last()) + spec_encode(TYPE_ID, spec_u32_bytes(p.last().0))
            + spec_encode(TYPE_INT, spec_u32_bytes(p.last().1))
    }
}

/// The bytes of one field.
pub open spec fn spec_field_bytes(f: Field) -> Seq<u8> {
    match f {
        Field::Int(x) => spec_encode(TYPE_INT, spec_u32_bytes(x)),
        Field::Long(x) => spec_encode(TYPE_LONG, spec_u64_bytes(x)),
        Field::Id(x) => spec_encode(TYPE_ID, spec_u32_bytes(x)),
        Field::Bool(b) => spec_encode(TYPE_BOOL, spec_u32_bytes(if b { 1 } else { 0 })),
        Field::Fd(x) => spec_encode(TYPE_FD, spec_u64_bytes(x as u64)),
        Field::Str(s) => spec_str_bytes(s),
        Field::OptStr(o) => match o {
            Some(s) => spec_str_bytes(s),
            None => spec_encode(TYPE_NONE, Seq::empty()),
        },
        Field::Pod(v) => spec_encode(v.ty, v.body),
        Field::Dict(d) => spec_encode(
            TYPE_STRUCT,
            spec_encode(TYPE_INT, spec_u32_bytes(d.len() as u32)) + spec_pairs_bytes(d),
        ),
        Field::Params(p) => spec_encode(
            TYPE_STRUCT,
            spec_encode(TYPE_INT, spec_u32_bytes(p.len() as u32)) + spec_params_bytes(p),
        ),
        Field::Perms(p) => spec_encode(
            TYPE_STRUCT,
            spec_encode(TYPE_INT, spec_u32_bytes(p.len() as u32)) + spec_int_pairs_bytes(p),
        ),
        Field::Ids(ids) => spec_encode(TYPE_ARRAY, spec_ids_body(ids)),
    }
}

/// The `Int` pods of the pairs of `p`, one after the other.
pub open spec fn spec_int_pairs_bytes(p: Seq<(u32, u32)>) -> Seq<u8>
    decreases p.len(),
{
    if p.len() == 0 {
        Seq::empty()
    } else {
        spec_int_pairs_bytes(p.drop_last()) + spec_encode(TYPE_INT, spec_u32_bytes(p.last().0))
            + spec_encode(TYPE_INT, spec_u32_bytes(p.last().1))
    }
}

/// The values of `ids`, one after the other.
pub open spec fn spec_ids_values(ids: Seq<u32>) -> Seq<u8>
    decreases ids.len(),
{
    if ids.len() == 0 {
        Seq::empty()
    } else {
        spec_ids_values(ids.drop_last()) + spec_u32_bytes(ids.last())
    }
}

/// The body of an array of `Id`s: the child size and type, then the values;
/// nothing for no value.
pub open spec fn spec_ids_body(ids: Seq<u32>) -> Seq<u8> {
    if ids.len() == 0 {
        Seq::empty()
    } else {
        spec_u32_bytes(4) + spec_u32_bytes(TYPE_ID) + spec_ids_values(ids)
    }
}

/// The fields, one after the other.
pub open spec fn spec_fields_bytes(fs: Seq<Field>) -> Seq<u8>
    decreases fs.len(),
{
    if fs.len() == 0 {
        Seq::empty()
    } else {
        spec_fields_bytes(fs.drop_last()) + spec_field_bytes(fs.last())
    }
}

/// The most bytes a string may have to be written.
pub open spec fn spec_str_ok(s: Seq<char>) -> bool {
    encode_utf8(s).len() + 16 <= u32::MAX
}

/// Every string of `d` can be written.
pub open spec fn spec_pairs_ok(d: Seq<(Seq<char>, Seq<char>)>) -> bool {
    forall|i: int| 0 <= i < d.len() ==> #[trigger] spec_pair_ok(d[i])
}

/// Both strings of a pair can be written.
pub open spec fn spec_pair_ok(p: (Seq<char>, Seq<char>)) -> bool {
    spec_str_ok(p.0) && spec_str_ok(p.1)
}

/// A field can be written: its strings and nested structs fit their size
/// headers.
pub open spec fn spec_field_ok(f: Field) -> bool {
    match f {
        Field::Str(s) => spec_str_ok(s),
        Field::OptStr(o) => match o {
            Some(s) => spec_str_ok(s),
            None => true,
        },
        Field::Pod(v) => spec_fits_u32(v.body),
        Field::Dict(d) => spec_pairs_ok(d) && spec_pairs_bytes(d).len() + 24 <= u32::MAX,
        Field::Params(p) => spec_params_bytes(p).len() + 24 <= u32::MAX,
        Field::Perms(p) => spec_int_pairs_bytes(p).len() + 24 <= u32::MAX,
        Field::Ids(ids) => 4 * ids.len() + 24 <= u32::MAX,
        _ => true,
    }
}

/// A message of these fields can be written.
pub open spec fn spec_fields_ok(fs: Seq<Field>) -> bool {
    &&& forall|i: int| 0 <= i < fs.len() ==> spec_field_ok(#[trigger] fs[i])
    &&& spec_fields_bytes(fs).len() + 8 <= u32::MAX
}

/// The bytes of a message of fields `fs`.
pub open spec fn spec_message_bytes(fs: Seq<Field>) -> Seq<u8> {
    spec_encode(TYPE_STRUCT, spec_fields_bytes(fs))
}

pub(crate) proof fn lemma_encode_len(ty: u32, body: Seq<u8>)
    requires
        spec_fits_u32(body),
    ensures
        spec_encode(ty, body).len() % 8 == 0,
        spec_encode(ty, body).len() >= body.len() + 8,
        spec_encode(ty, body).len() == 8 + body.len() + crate::bytes::spec_pad_to_8(
            body.len() as u32,
        ),
{
    law_decode_encode(ty, body, Seq::empty());
    crate::bytes::lemma_u32_bytes(body.len() as u32);
    crate::bytes::lemma_u32_bytes(ty);
    assert(spec_zeros(crate::bytes::spec_pad_to_8(body.len() as u32) as nat).len()
        == crate::bytes::spec_pad_to_8(body.len() as u32));
}

#[verifier::rlimit(60)]
pub(crate) proof fn lemma_pairs_len(d: Seq<(Seq<char>, Seq<char>)>)
    requires
        spec_pairs_ok(d),
    ensures
        spec_pairs_bytes(d).len() % 8 == 0,
    decreases d.len(),
{
    if d.len() > 0 {
        let t = d.drop_last();
        assert forall|i: int| 0 <= i < t.len() implies #[trigger] spec_pair_ok(t[i]) by {
            assert(t[i] == d[i]);
            assert(spec_pair_ok(d[i]));
        }
        lemma_pairs_len(t);
        let k = d.len() - 1;
        assert(spec_pair_ok(d[k]));
        let x = d[k];
        lemma_encode_len(TYPE_STRING, encode_utf8(x.0).push(0u8));
        lemma_encode_len(TYPE_STRING, encode_utf8(x.1).push(0u8));
    }
}

pub(crate) proof fn lemma_params_len(p: Seq<(u32, u32)>)
    ensures
        spec_params_bytes(p).len() % 8 == 0,
    decreases p.len(),
{
    if p.len() > 0 {
        lemma_params_len(p.drop_last());
        crate::bytes::lemma_u32_bytes(p.last().0);
        crate::bytes::lemma_u32_bytes(p.last().1);
        lemma_encode_len(TYPE_ID, spec_u32_bytes(p.last().0));
        lemma_encode_len(TYPE_INT, spec_u32_bytes(p.last().1));
    }
}

/// A field that can be written takes a multiple of 8 bytes.
pub(crate) proof fn lemma_field_len(f: Field)
    requires
        spec_field_ok(f),
    ensures
        spec_field_bytes(f).len() % 8 == 0,
{
    match f {
        Field::Int(x) => {
            crate::bytes::lemma_u32_bytes(x);
            lemma_encode_len(TYPE_INT, spec_u32_bytes(x));
        },
        Field::Long(x) => {
            crate::bytes::lemma_u64_bytes(x);
            lemma_encode_len(TYPE_LONG, spec_u64_bytes(x));
        },
        Field::Id(x) => {
            crate::bytes::lemma_u32_bytes(x);
            lemma_encode_len(TYPE_ID, spec_u32_bytes(x));
        },
        Field::Bool(b) => {
            crate::bytes::lemma_u32_bytes(if b { 1 } else { 0 });
            lemma_encode_len(TYPE_BOOL, spec_u32_bytes(if b { 1 } else { 0 }));
        },
        Field::Fd(x) => {
            crate::bytes::lemma_u64_bytes(x as u64);
            lemma_encode_len(TYPE_FD, spec_u64_bytes(x as u64));
        },
        Field::Str(t) => {
            lemma_encode_len(TYPE_STRING, encode_utf8(t).push(0u8));
        },
        Field::OptStr(o) => {
            match o {
                Some(t) => {
                    lemma_encode_len(TYPE_STRING, encode_utf8(t).push(0u8));
                },
                None => {
                    lemma_encode_len(TYPE_NONE, Seq::empty());
                },
            }
        },
        Field::Pod(v) => {
            lemma_encode_len(v.ty, v.body);
        },
        Field::Dict(d) => {
            let n = d.len() as u32;
            crate::bytes::lemma_u32_bytes(n);
            lemma_encode_len(TYPE_INT, spec_u32_bytes(n));
            lemma_pairs_len(d);
            lemma_encode_len(TYPE_STRUCT, spec_encode(TYPE_INT, spec_u32_bytes(n)) + spec_pairs_bytes(d));
        },
        Field::Params(p) => {
            let n = p.len() as u32;
            crate::bytes::lemma_u32_bytes(n);
            lemma_encode_len(TYPE_INT, spec_u32_bytes(n));
            lemma_params_len(p);
            lemma_encode_len(TYPE_STRUCT, spec_encode(TYPE_INT, spec_u32_bytes(n)) + spec_params_bytes(p));
        },
        Field::Perms(p) => {
            let n = p.len() as u32;
            crate::bytes::lemma_u32_bytes(n);
            lemma_encode_len(TYPE_INT, spec_u32_bytes(n));
            lemma_int_pairs_len(p);
            lemma_encode_len(TYPE_STRUCT, spec_encode(TYPE_INT, spec_u32_bytes(n)) + spec_int_pairs_bytes(p));
        },
        Field::Ids(ids) => {
            lemma_ids_len(ids);
            lemma_encode_len(TYPE_ARRAY, spec_ids_body(ids));
        },
    }
}

pub(crate) proof fn lemma_int_pairs_len(p: Seq<(u32, u32)>)
    ensures
        spec_int_pairs_bytes(p).len() % 8 == 0,
    decreases p.len(),
{
    if p.len() > 0 {
        lemma_int_pairs_len(p.drop_last());
        crate::bytes::lemma_u32_bytes(p.last().0);
        crate::bytes::lemma_u32_bytes(p.last().1);
        lemma_encode_len(TYPE_INT, spec_u32_bytes(p.last().0));
        lemma_encode_len(TYPE_INT, spec_u32_bytes(p.last().1));
    }
}

/// Fields that can be written take a multiple of 8 bytes.
#[verifier::spinoff_prover]
#[verifier::rlimit(30)]
pub(crate) proof fn lemma_fields_len(fs: Seq<Field>)
    requires
        forall|i: int| 0 <= i < fs.len() ==> spec_field_ok(#[trigger] fs[i]),
    ensures
        spec_fields_bytes(fs).len() % 8 == 0,
    decreases fs.len(),
{
    if fs.len() > 0 {
        let t = fs.drop_last();
        assert forall|i: int| 0 <= i < t.len() implies spec_field_ok(#[trigger] t[i]) by {
            assert(t[i] == fs[i]);
        }
        lemma_fields_len(t);
        assert(spec_field_ok(fs[fs.len() - 1]));
        lemma_field_len(fs.last());
    }
}

/// A field of fixed size: an `Int`, `Long`, `Id`, `Bool` or `Fd`.
pub open spec fn spec_fixed(f: Field) -> bool {
    f is Int || f is Long || f is Id || f is Bool || f is Fd
}

/// Fields of fixed size take 16 bytes each, and a few of them can be
/// written.
pub proof fn lemma_fixed_fields_ok(fs: Seq<Field>)
    requires
        forall|i: int| 0 <= i < fs.len() ==> spec_fixed(#[trigger] fs[i]),
        fs.len() <= 1024,
    ensures
        spec_fields_bytes(fs).len() == 16 * fs.len(),
        spec_fields_ok(fs),
    decreases fs.len(),
{
    if fs.len() > 0 {
        let t = fs.drop_last();
        assert forall|i: int| 0 <= i < t.len() implies spec_fixed(#[trigger] t[i]) by {
            assert(t[i] == fs[i]);
        }
        lemma_fixed_fields_ok(t);
        let f = fs.last();
        assert(spec_fixed(fs[fs.len() - 1]));
        match f {
            Field::Int(x) => {
                crate::bytes::lemma_u32_bytes(x);
                lemma_encode_len(TYPE_INT, spec_u32_bytes(x));
            },
            Field::Long(x) => {
                crate::bytes::lemma_u64_bytes(x);
                lemma_encode_len(TYPE_LONG, spec_u64_bytes(x));
            },
            Field::Id(x) => {
                crate::bytes::lemma_u32_bytes(x);
                lemma_encode_len(TYPE_ID, spec_u32_bytes(x));
            },
            Field::Bool(b) => {
                crate::bytes::lemma_u32_bytes(if b { 1 } else { 0 });
                lemma_encode_len(TYPE_BOOL, spec_u32_bytes(if b { 1 } else { 0 }));
            },
            Field::Fd(x) => {
                crate::bytes::lemma_u64_bytes(x as u64);
                lemma_encode_len(TYPE_FD, spec_u64_bytes(x as u64));
            },
            _ => {},
        }
        assert forall|i: int| 0 <= i < fs.len() implies spec_field_ok(#[trigger] fs[i]) by {
            assert(spec_fixed(fs[i]));
        }
    }
}

/// The values of ids.
pub open spec fn spec_ids_view(ids: Seq<crate::pod_v2::Id>) -> Seq<u32> {
    ids.map_values(|i: crate::pod_v2::Id| i.0)
}

proof fn lemma_ids_len(ids: Seq<u32>)
    ensures
        spec_ids_values(ids).len() == 4 * ids.len(),
        spec_ids_body(ids).len() == if ids.len() == 0 {
            0
        } else {
            8 + 4 * ids.len()
        },
    decreases ids.len(),
{
    if ids.len() > 0 {
        lemma_ids_len(ids.drop_last());
        crate::bytes::lemma_u32_bytes(ids.last());
        crate::bytes::lemma_u32_bytes(4);
        crate::bytes::lemma_u32_bytes(TYPE_ID);
    }
}

/// Closing an array whose content is `body` writes exactly an array pod
/// around it.
proof fn law_close_array(prefix: Seq<u8>, body: Seq<u8>)
    requires
        body.len() + 16 <= u32::MAX,
    ensures
        crate::pod_v2::serialize::spec_close(
            prefix + spec_u32_bytes(0) + spec_u32_bytes(TYPE_ARRAY) + body,
            prefix.len() as int,
        ) + spec_zeros(crate::bytes::spec_pad_to_8(body.len() as u32) as nat) == prefix
            + spec_encode(TYPE_ARRAY, body),
{
    let s = prefix + spec_u32_bytes(0) + spec_u32_bytes(TYPE_ARRAY) + body;
    crate::bytes::lemma_u32_bytes(0);
    crate::bytes::lemma_u32_bytes(TYPE_ARRAY);
    assert(crate::pod_v2::serialize::spec_close(s, prefix.len() as int) + spec_zeros(
        crate::bytes::spec_pad_to_8(body.len() as u32) as nat,
    ) =~= prefix + spec_encode(TYPE_ARRAY, body));
}

/// A writer of the fields of one message: a builder holding an open struct.
pub struct FieldWriter {
    b: Builder,
    s: StructBuilder,
    fields: Ghost<Seq<Field>>,
}

impl FieldWriter {
    /// The builder holds the open struct and exactly the fields written.
    pub closed spec fn wf(self) -> bool {
        &&& self.b.view().bytes == spec_u32_bytes(0) + spec_u32_bytes(TYPE_STRUCT)
            + spec_fields_bytes(self.fields@)
        &&& !self.b.view().array_mode
        &&& self.s.start() == 0
        &&& self.s.parent() == (false, false)
        &&& spec_fields_bytes(self.fields@).len() % 8 == 0
    }

    /// The fields written so far.
    pub closed spec fn fields(self) -> Seq<Field> {
        self.fields@
    }

    /// A writer with no field yet.
    pub fn new() -> (r: Self)
        ensures
            r.wf(),
            r.fields() == Seq::<Field>::empty(),
    {
        let mut b = Builder::new();
        let s = b.push_struct();
        assert(b.view().bytes =~= spec_u32_bytes(0) + spec_u32_bytes(TYPE_STRUCT)
            + spec_fields_bytes(Seq::<Field>::empty()));
        FieldWriter { b, s, fields: Ghost(Seq::empty()) }
    }

    proof fn lemma_push(fs: Seq<Field>, f: Field)
        ensures
            spec_fields_bytes(fs.push(f)) == spec_fields_bytes(fs) + spec_field_bytes(f),
    {
        assert(fs.push(f).drop_last() =~= fs);
    }

    /// The builder writes the pod of `body` and type `ty` as field `f`.
    proof fn lemma_wrote(
        v0: BuilderView,
        v1: BuilderView,
        fs: Seq<Field>,
        f: Field,
        ty: u32,
        body: Seq<u8>,
    )
        requires
            !v0.array_mode,
            v0.bytes == spec_u32_bytes(0) + spec_u32_bytes(TYPE_STRUCT) + spec_fields_bytes(fs),
            spec_fields_bytes(fs).len() % 8 == 0,
            spec_fits_u32(body),
            v1 == crate::pod_v2::serialize::spec_primitive(v0, body.len() as u32, ty, body),
            spec_field_bytes(f) == spec_encode(ty, body),
        ensures
            !v1.array_mode,
            v1.bytes == spec_u32_bytes(0) + spec_u32_bytes(TYPE_STRUCT) + spec_fields_bytes(
                fs.push(f),
            ),
            spec_fields_bytes(fs.push(f)).len() % 8 == 0,
    {
        law_builder_writes_pod(v0, ty, body);
        FieldWriter::lemma_push(fs, f);
        lemma_encode_len(ty, body);
        assert(v1.bytes =~= spec_u32_bytes(0) + spec_u32_bytes(TYPE_STRUCT) + spec_fields_bytes(
            fs.push(f),
        ));
    }

    /// Write an `Int` field holding the bits of `v`.
    pub fn write_u32(&mut self, v: u32)
        requires
            old(self).wf(),
        ensures
            final(self).wf(),
            final(self).fields() == old(self).fields().push(Field::Int(v)),
    {
        proof {
            crate::bytes::lemma_u32_bytes(v);
        }
        let ghost v0 = self.b.view();
        self.b.write_u32(v);
        proof {
            FieldWriter::lemma_wrote(
                v0,
                self.b.view(),
                self.fields@,
                Field::Int(v),
                TYPE_INT,
                spec_u32_bytes(v),
            );
            self.fields@ = self.fields@.push(Field::Int(v));
        }
    }

    /// Write a `Long` field holding the bits of `v`.
    pub fn write_u64(&mut self, v: u64)
        requires
            old(self).wf(),
        ensures
            final(self).wf(),
            final(self).fields() == old(self).fields().push(Field::Long(v)),
    {
        proof {
            crate::bytes::lemma_u64_bytes(v);
        }
        let ghost v0 = self.b.view();
        self.b.write_u64(v);
        proof {
            FieldWriter::lemma_wrote(
                v0,
                self.b.view(),
                self.fields@,
                Field::Long(v),
                TYPE_LONG,
                spec_u64_bytes(v),
            );
            self.fields@ = self.fields@.push(Field::Long(v));
        }
    }

    /// Write an `Id` field.
    pub fn write_id(&mut self, v: u32)
        requires
            old(self).wf(),
        ensures
            final(self).wf(),
            final(self).fields() == old(self).fields().push(Field::Id(v)),
    {
        proof {
            crate::bytes::lemma_u32_bytes(v);
        }
        let ghost v0 = self.b.view();
        self.b.write_id(v);
        proof {
            FieldWriter::lemma_wrote(
                v0,
                self.b.view(),
                self.fields@,
                Field::Id(v),
                TYPE_ID,
                spec_u32_bytes(v),
            );
            self.fields@ = self.fields@.push(Field::Id(v));
        }
    }

    /// Write a `Bool` field.
    pub fn write_bool(&mut self, v: bool)
        requires
            old(self).wf(),
        ensures
            final(self).wf(),
            final(self).fields() == old(self).fields().push(Field::Bool(v)),
    {
        proof {
            crate::bytes::lemma_u32_bytes(if v { 1 } else { 0 });
        }
        let ghost v0 = self.b.view();
        self.b.write_bool(v);
        proof {
            FieldWriter::lemma_wrote(
                v0,
                self.b.view(),
                self.fields@,
                Field::Bool(v),
                TYPE_BOOL,
                spec_u32_bytes(if v { 1 } else { 0 }),
            );
            self.fields@ = self.fields@.push(Field::Bool(v));
        }
    }

    /// Write an `Fd` field holding the index `v`.
    pub fn write_fd(&mut self, v: i64)
        requires
            old(self).wf(),
        ensures
            final(self).wf(),
            final(self).fields() == old(self).fields().push(Field::Fd(v)),
    {
        proof {
            crate::bytes::lemma_u64_bytes(v as u64);
        }
        let ghost v0 = self.b.view();
        self.b.write_fd(v as u64);
        proof {
            FieldWriter::lemma_wrote(
                v0,
                self.b.view(),
                self.fields@,
                Field::Fd(v),
                TYPE_FD,
                spec_u64_bytes(v as u64),
            );
            self.fields@ = self.fields@.push(Field::Fd(v));
        }
    }

    /// Write a `String` field of the UTF-8 bytes of `s`.
    pub fn write_str(&mut self, s: &String)
        requires
            old(self).wf(),
            spec_str_ok(s@),
        ensures
            final(self).wf(),
            final(self).fields() == old(self).fields().push(Field::Str(s@)),
    {
        let bytes = s.as_str().as_bytes();
        let ghost v0 = self.b.view();
        self.b.write_str(bytes);
        proof {
            FieldWriter::lemma_wrote(
                v0,
                self.b.view(),
                self.fields@,
                Field::Str(s@),
                TYPE_STRING,
                encode_utf8(s@).push(0u8),
            );
            self.fields@ = self.fields@.push(Field::Str(s@));
        }
    }

    /// Write a `String` field, or a `None` field.
    pub fn write_opt_str(&mut self, s: &Option<String>)
        requires
            old(self).wf(),
            s matches Some(t) ==> spec_str_ok(t@),
        ensures
            final(self).wf(),
            final(self).fields() == old(self).fields().push(
                Field::OptStr(
                    match s {
                        Some(t) => Some(t@),
                        None => None,
                    },
                ),
            ),
    {
        let ghost v0 = self.b.view();
        match s {
            Some(t) => {
                let bytes = t.as_str().as_bytes();
                self.b.write_str(bytes);
                proof {
                    FieldWriter::lemma_wrote(
                        v0,
                        self.b.view(),
                        self.fields@,
                        Field::OptStr(Some(t@)),
                        TYPE_STRING,
                        encode_utf8(t@).push(0u8),
                    );
                    self.fields@ = self.fields@.push(Field::OptStr(Some(t@)));
                }
            },
            None => {
                self.b.write_none();
                proof {
                    crate::bytes::lemma_u32_bytes(0);
                    assert(crate::pod_v2::serialize::spec_primitive(
                        v0,
                        0,
                        TYPE_NONE,
                        Seq::empty(),
                    ).bytes =~= self.b.view().bytes);
                    FieldWriter::lemma_wrote(
                        v0,
                        crate::pod_v2::serialize::spec_primitive(v0, 0, TYPE_NONE, Seq::empty()),
                        self.fields@,
                        Field::OptStr(None),
                        TYPE_NONE,
                        Seq::empty(),
                    );
                    self.fields@ = self.fields@.push(Field::OptStr(None));
                }
            },
        }
    }

    /// Write a field that is the pod `pod`.
    pub fn write_pod(&mut self, pod: &OwnedPod)
        requires
            old(self).wf(),
            spec_fits_u32(pod.view().body),
        ensures
            final(self).wf(),
            final(self).fields() == old(self).fields().push(Field::Pod(pod.view())),
    {
        let ghost v0 = self.b.view();
        self.b.write_pod(pod);
        proof {
            FieldWriter::lemma_wrote(
                v0,
                self.b.view(),
                self.fields@,
                Field::Pod(pod.view()),
                pod.view().ty,
                pod.view().body,
            );
            self.fields@ = self.fields@.push(Field::Pod(pod.view()));
        }
    }

    /// Write a `None` field.
    pub fn write_none(&mut self)
        requires
            old(self).wf(),
        ensures
            final(self).wf(),
            final(self).fields() == old(self).fields().push(spec_none_field()),
    {
        let empty: Vec<u8> = Vec::new();
        let ghost v0 = self.b.view();
        self.b.write_primitive(0, TYPE_NONE, empty.as_slice());
        proof {
            FieldWriter::lemma_wrote(
                v0,
                self.b.view(),
                self.fields@,
                spec_none_field(),
                TYPE_NONE,
                Seq::empty(),
            );
            self.fields@ = self.fields@.push(spec_none_field());
        }
    }

    /// Write a `Struct` field holding the fields `inner` wrote.
    pub fn write_struct(&mut self, inner: FieldWriter)
        requires
            old(self).wf(),
            inner.wf(),
            spec_fits_u32(spec_fields_bytes(inner.fields())),
        ensures
            final(self).wf(),
            final(self).fields() == old(self).fields().push(spec_struct_field(inner.fields())),
    {
        let FieldWriter { b, s: _, fields } = inner;
        let bytes = b.into_inner();
        proof {
            crate::bytes::lemma_u32_bytes(0);
            crate::bytes::lemma_u32_bytes(TYPE_STRUCT);
        }
        let content = vstd::slice::slice_subrange(bytes.as_slice(), 8, bytes.len());
        assert(content@ =~= spec_fields_bytes(fields@));
        let ghost v0 = self.b.view();
        self.b.write_primitive(content.len() as u32, TYPE_STRUCT, content);
        proof {
            FieldWriter::lemma_wrote(
                v0,
                self.b.view(),
                self.fields@,
                spec_struct_field(fields@),
                TYPE_STRUCT,
                content@,
            );
            self.fields@ = self.fields@.push(spec_struct_field(fields@));
        }
    }

    /// Write a `Struct` field holding a dictionary: its size, then each key
    /// and value.
    #[verifier::spinoff_prover]
    #[verifier::rlimit(40)]
    pub fn write_dict(&mut self, d: &PwDictionary)
        requires
            old(self).wf(),
            spec_field_ok(Field::Dict(spec_dict_view(d@))),
        ensures
            final(self).wf(),
            final(self).fields() == old(self).fields().push(Field::Dict(spec_dict_view(d@))),
    {
        let ghost v0 = self.b.view();
        let ghost dv = spec_dict_view(d@);
        let n = d.len();
        let inner = self.b.push_struct();
        let ghost v1 = self.b.view();
        self.b.write_u32(n as u32);
        proof {
            crate::bytes::lemma_u32_bytes(0);
            crate::bytes::lemma_u32_bytes(TYPE_STRUCT);
            crate::bytes::lemma_u32_bytes(n as u32);
            law_builder_writes_pod(v1, TYPE_INT, spec_u32_bytes(n as u32));
            assert(dv.subrange(0, 0) =~= Seq::<(Seq<char>, Seq<char>)>::empty());
            assert(self.b.view().bytes =~= v0.bytes + spec_u32_bytes(0) + spec_u32_bytes(
                TYPE_STRUCT,
            ) + spec_encode(TYPE_INT, spec_u32_bytes(n as u32)) + spec_pairs_bytes(
                dv.subrange(0, 0),
            ));
        }
        let mut i: usize = 0;
        while i < n
            invariant
                n == d@.len(),
                dv == spec_dict_view(d@),
                old(self).wf(),
                v0 == old(self).b.view(),
                self.s == old(self).s,
                self.fields == old(self).fields,
                inner.start() == v0.bytes.len(),
                inner.parent() == (false, false),
                dv.len() == n,
                i <= n,
                spec_pairs_ok(dv),
                !self.b.view().array_mode,
                self.b.view().bytes == v0.bytes + spec_u32_bytes(0) + spec_u32_bytes(TYPE_STRUCT)
                    + spec_encode(TYPE_INT, spec_u32_bytes(n as u32)) + spec_pairs_bytes(
                    dv.subrange(0, i as int),
                ),
            decreases n - i,
        {
            let ghost before = self.b.view();
            let key = &d[i].0;
            let value = &d[i].1;
            assert(dv[i as int] == (key@, value@));
            assert(spec_pair_ok(dv[i as int]));
            self.b.write_str(key.as_str().as_bytes());
            let ghost mid = self.b.view();
            self.b.write_str(value.as_str().as_bytes());
            proof {
                law_builder_writes_pod(before, TYPE_STRING, encode_utf8(key@).push(0u8));
                law_builder_writes_pod(mid, TYPE_STRING, encode_utf8(value@).push(0u8));
                assert(dv.subrange(0, i + 1).drop_last() =~= dv.subrange(0, i as int));
                assert(self.b.view().bytes =~= v0.bytes + spec_u32_bytes(0) + spec_u32_bytes(
                    TYPE_STRUCT,
                ) + spec_encode(TYPE_INT, spec_u32_bytes(n as u32)) + spec_pairs_bytes(
                    dv.subrange(0, i + 1),
                ));
            }
            i = i + 1;
        }
        let ghost content = spec_encode(TYPE_INT, spec_u32_bytes(n as u32)) + spec_pairs_bytes(dv);
        proof {
            assert(dv.subrange(0, n as int) =~= dv);
            lemma_encode_len(TYPE_INT, spec_u32_bytes(n as u32));
            lemma_pairs_len(dv);
            assert(self.b.view().bytes =~= v0.bytes + spec_u32_bytes(0) + spec_u32_bytes(TYPE_STRUCT)
                + content);
        }
        inner.done(&mut self.b);
        proof {
            law_close_struct(v0.bytes, content);
            lemma_encode_len(TYPE_STRUCT, content);
            FieldWriter::lemma_push(self.fields@, Field::Dict(dv));
            assert(self.b.view().bytes =~= spec_u32_bytes(0) + spec_u32_bytes(TYPE_STRUCT)
                + spec_fields_bytes(self.fields@.push(Field::Dict(dv))));
            self.fields@ = self.fields@.push(Field::Dict(dv));
        }
    }

    /// Write a `Struct` field holding parameter infos: their number, then each
    /// id and flags.
    pub fn write_params(&mut self, p: &Vec<ParamInfo>)
        requires
            old(self).wf(),
            spec_field_ok(Field::Params(spec_params_view(p@))),
        ensures
            final(self).wf(),
            final(self).fields() == old(self).fields().push(
                Field::Params(spec_params_view(p@)),
            ),
    {
        let ghost v0 = self.b.view();
        let ghost pv = spec_params_view(p@);
        let n = p.len();
        let inner = self.b.push_struct();
        let ghost v1 = self.b.view();
        self.b.write_u32(n as u32);
        proof {
            crate::bytes::lemma_u32_bytes(0);
            crate::bytes::lemma_u32_bytes(TYPE_STRUCT);
            crate::bytes::lemma_u32_bytes(n as u32);
            law_builder_writes_pod(v1, TYPE_INT, spec_u32_bytes(n as u32));
            assert(pv.subrange(0, 0) =~= Seq::<(u32, u32)>::empty());
            assert(self.b.view().bytes =~= v0.bytes + spec_u32_bytes(0) + spec_u32_bytes(
                TYPE_STRUCT,
            ) + spec_encode(TYPE_INT, spec_u32_bytes(n as u32)) + spec_params_bytes(
                pv.subrange(0, 0),
            ));
        }
        let mut i: usize = 0;
        while i < n
            invariant
                n == p@.len(),
                pv == spec_params_view(p@),
                old(self).wf(),
                v0 == old(self).b.view(),
                self.s == old(self).s,
                self.fields == old(self).fields,
                inner.start() == v0.bytes.len(),
                inner.parent() == (false, false),
                pv.len() == n,
                i <= n,
                !self.b.view().array_mode,
                self.b.view().bytes == v0.bytes + spec_u32_bytes(0) + spec_u32_bytes(TYPE_STRUCT)
                    + spec_encode(TYPE_INT, spec_u32_bytes(n as u32)) + spec_params_bytes(
                    pv.subrange(0, i as int),
                ),
            decreases n - i,
        {
            let ghost before = self.b.view();
            let id = p[i].id.as_raw();
            let flags = p[i].flags.bits();
            assert(pv[i as int] == (id, flags));
            self.b.write_id(id);
            let ghost mid = self.b.view();
            self.b.write_u32(flags);
            proof {
                crate::bytes::lemma_u32_bytes(id);
                crate::bytes::lemma_u32_bytes(flags);
                law_builder_writes_pod(before, TYPE_ID, spec_u32_bytes(id));
                law_builder_writes_pod(mid, TYPE_INT, spec_u32_bytes(flags));
                assert(pv.subrange(0, i + 1).drop_last() =~= pv.subrange(0, i as int));
                assert(self.b.view().bytes =~= v0.bytes + spec_u32_bytes(0) + spec_u32_bytes(
                    TYPE_STRUCT,
                ) + spec_encode(TYPE_INT, spec_u32_bytes(n as u32)) + spec_params_bytes(
                    pv.subrange(0, i + 1),
                ));
            }
            i = i + 1;
        }
        let ghost content = spec_encode(TYPE_INT, spec_u32_bytes(n as u32)) + spec_params_bytes(pv);
        proof {
            assert(pv.subrange(0, n as int) =~= pv);
            lemma_encode_len(TYPE_INT, spec_u32_bytes(n as u32));
            lemma_params_len(pv);
            assert(self.b.view().bytes =~= v0.bytes + spec_u32_bytes(0) + spec_u32_bytes(TYPE_STRUCT)
                + content);
        }
        inner.done(&mut self.b);
        proof {
            law_close_struct(v0.bytes, content);
            lemma_encode_len(TYPE_STRUCT, content);
            FieldWriter::lemma_push(self.fields@, Field::Params(pv));
            assert(self.b.view().bytes =~= spec_u32_bytes(0) + spec_u32_bytes(TYPE_STRUCT)
                + spec_fields_bytes(self.fields@.push(Field::Params(pv))));
            self.fields@ = self.fields@.push(Field::Params(pv));
        }
    }

    /// Write an `Array` field of `Id`s.
    pub fn write_id_array(&mut self, ids: &Vec<crate::pod_v2::Id>)
        requires
            old(self).wf(),
            spec_field_ok(Field::Ids(spec_ids_view(ids@))),
        ensures
            final(self).wf(),
            final(self).fields() == old(self).fields().push(Field::Ids(spec_ids_view(ids@))),
    {
        let ghost v0 = self.b.view();
        let ghost iv = spec_ids_view(ids@);
        let n = ids.len();
        let arr = self.b.push_array();
        proof {
            crate::bytes::lemma_u32_bytes(0);
            crate::bytes::lemma_u32_bytes(TYPE_ARRAY);
            assert(iv.subrange(0, 0) =~= Seq::<u32>::empty());
            assert(self.b.view().bytes =~= v0.bytes + spec_u32_bytes(0) + spec_u32_bytes(TYPE_ARRAY)
                + spec_ids_body(iv.subrange(0, 0)));
        }
        let mut i: usize = 0;
        while i < n
            invariant
                n == ids@.len(),
                iv == spec_ids_view(ids@),
                iv.len() == n,
                i <= n,
                4 * n + 24 <= u32::MAX,
                old(self).wf(),
                v0 == old(self).b.view(),
                self.s == old(self).s,
                self.fields == old(self).fields,
                arr.start() == v0.bytes.len(),
                arr.parent() == (false, false),
                self.b.view().array_mode,
                self.b.view().is_first == (i == 0),
                self.b.view().bytes == v0.bytes + spec_u32_bytes(0) + spec_u32_bytes(TYPE_ARRAY)
                    + spec_ids_body(iv.subrange(0, i as int)),
            decreases n - i,
        {
            let ghost before = self.b.view();
            let id = ids[i].0;
            assert(iv[i as int] == id);
            self.b.write_id(id);
            proof {
                crate::bytes::lemma_u32_bytes(id);
                crate::bytes::lemma_u32_bytes(4);
                crate::bytes::lemma_u32_bytes(TYPE_ID);
                assert(iv.subrange(0, i + 1).drop_last() =~= iv.subrange(0, i as int));
                assert(spec_ids_values(seq![id]) =~= spec_ids_values(Seq::<u32>::empty())
                    + spec_u32_bytes(id)) by {
                    assert(seq![id].drop_last() =~= Seq::<u32>::empty());
                }
                assert(self.b.view().bytes =~= v0.bytes + spec_u32_bytes(0) + spec_u32_bytes(
                    TYPE_ARRAY,
                ) + spec_ids_body(iv.subrange(0, i + 1)));
            }
            i = i + 1;
        }
        let ghost body = spec_ids_body(iv);
        proof {
            assert(iv.subrange(0, n as int) =~= iv);
            lemma_ids_len(iv);
            assert(self.b.view().bytes =~= v0.bytes + spec_u32_bytes(0) + spec_u32_bytes(TYPE_ARRAY)
                + body);
        }
        arr.done(&mut self.b);
        proof {
            law_close_array(v0.bytes, body);
            lemma_encode_len(TYPE_ARRAY, body);
            FieldWriter::lemma_push(self.fields@, Field::Ids(iv));
            assert(self.b.view().bytes =~= spec_u32_bytes(0) + spec_u32_bytes(TYPE_STRUCT)
                + spec_fields_bytes(self.fields@.push(Field::Ids(iv))));
            self.fields@ = self.fields@.push(Field::Ids(iv));
        }
    }

    /// The bytes of the message.
    pub fn finish(self) -> (r: Vec<u8>)
        requires
            self.wf(),
            spec_fields_bytes(self.fields()).len() + 8 <= u32::MAX,
        ensures
            r@ == spec_message_bytes(self.fields()),
    {
        let FieldWriter { mut b, s, fields } = self;
        let ghost content = spec_fields_bytes(fields@);
        proof {
            crate::bytes::lemma_u32_bytes(0);
            crate::bytes::lemma_u32_bytes(TYPE_STRUCT);
        }
        s.done(&mut b);
        proof {
            law_close_struct(Seq::empty(), content);
            assert(Seq::<u8>::empty() + spec_u32_bytes(0) + spec_u32_bytes(TYPE_STRUCT) + content
                =~= spec_u32_bytes(0) + spec_u32_bytes(TYPE_STRUCT) + content);
            assert(Seq::<u8>::empty() + spec_encode(TYPE_STRUCT, content) =~= spec_encode(
                TYPE_STRUCT,
                content,
            ));
        }
        b.into_inner()
    }
}

// ---------------------------------------------------------------------------
// Reading

/// The text of a `String` body.
pub open spec fn spec_text(body: Seq<u8>) -> Seq<char> {
    spec_bstr_to_string(spec_cstr(body))
}

/// The next field of the remaining fields `s`.
pub open spec fn spec_next(s: Seq<u8>) -> PodResult<PodView> {
    if s.len() == 0 {
        Err(DeserializeError::UnexpectedEnd)
    } else {
        Ok(spec_head_view(s))
    }
}

/// Read one field of a kind that holds no struct.
pub open spec fn spec_read_plain(k: FieldKind, s: Seq<u8>) -> PodResult<(Field, Seq<u8>)> {
    match spec_next(s) {
        Err(e) => Err(e),
        Ok(h) => {
            let rest = spec_pod_rest(s);
            match k {
                FieldKind::Int => if h.ty == TYPE_INT {
                    Ok((Field::Int(spec_le32(h.body, 0)), rest))
                } else {
                    Err(spec_unexpected(SpaType::Int, h.ty))
                },
                FieldKind::Long => if h.ty == TYPE_LONG {
                    Ok((Field::Long(spec_le64(h.body, 0)), rest))
                } else {
                    Err(spec_unexpected(SpaType::Long, h.ty))
                },
                FieldKind::Id => if h.ty == TYPE_ID {
                    Ok((Field::Id(spec_le32(h.body, 0)), rest))
                } else {
                    Err(spec_unexpected(SpaType::Id, h.ty))
                },
                FieldKind::Bool => if h.ty == TYPE_BOOL {
                    Ok((Field::Bool(spec_le32(h.body, 0) != 0), rest))
                } else {
                    Err(spec_unexpected(SpaType::Bool, h.ty))
                },
                FieldKind::Fd => if h.ty == TYPE_FD {
                    Ok((Field::Fd(spec_le64(h.body, 0) as i64), rest))
                } else {
                    Err(spec_unexpected(SpaType::Fd, h.ty))
                },
                FieldKind::Str => if h.ty == TYPE_STRING {
                    Ok((Field::Str(spec_text(h.body)), rest))
                } else {
                    Err(spec_unexpected(SpaType::String, h.ty))
                },
                FieldKind::OptStr => if h.ty == TYPE_STRING {
                    Ok((Field::OptStr(Some(spec_text(h.body))), rest))
                } else if h.ty == TYPE_NONE {
                    Ok((Field::OptStr(None), rest))
                } else {
                    Err(spec_unexpected(SpaType::String, h.ty))
                },
                FieldKind::Pod => Ok((Field::Pod(h), rest)),
                _ => if h.ty == TYPE_STRUCT {
                    Ok((Field::Pod(h), rest))
                } else {
                    Err(spec_unexpected(SpaType::Struct, h.ty))
                },
            }
        },
    }
}

/// `prefix` in front of what a read of the rest gives.
pub open spec fn spec_then<T>(prefix: Seq<T>, r: PodResult<(Seq<T>, Seq<u8>)>) -> PodResult<
    (Seq<T>, Seq<u8>),
> {
    match r {
        Ok((t, rest)) => Ok((prefix + t, rest)),
        Err(e) => Err(e),
    }
}

/// Read `n` key and value strings; also give what follows them.
pub open spec fn spec_read_pairs(s: Seq<u8>, n: int) -> PodResult<
    (Seq<(Seq<char>, Seq<char>)>, Seq<u8>),
>
    decreases n,
{
    if n <= 0 {
        Ok((Seq::empty(), s))
    } else {
        match spec_read_plain(FieldKind::Str, s) {
            Ok((Field::Str(k), s1)) => match spec_read_plain(FieldKind::Str, s1) {
                Ok((Field::Str(v), s2)) => spec_then(seq![(k, v)], spec_read_pairs(s2, n - 1)),
                Ok(_) => Err(DeserializeError::UnexpectedEnd),
                Err(e) => Err(e),
            },
            Ok(_) => Err(DeserializeError::UnexpectedEnd),
            Err(e) => Err(e),
        }
    }
}

/// `d` with the value of key `k` set to `v`: the first entry with key `k` is
/// replaced, or the entry is added at the end.
pub open spec fn spec_dict_insert(
    d: Seq<(Seq<char>, Seq<char>)>,
    k: Seq<char>,
    v: Seq<char>,
) -> Seq<(Seq<char>, Seq<char>)>
    decreases d.len(),
{
    if d.len() == 0 {
        seq![(k, v)]
    } else if d[0].0 == k {
        d.update(0, (k, v))
    } else {
        seq![d[0]] + spec_dict_insert(d.drop_first(), k, v)
    }
}

/// The dictionary of the pairs, set one after the other.
pub open spec fn spec_dict_from(pairs: Seq<(Seq<char>, Seq<char>)>) -> Seq<
    (Seq<char>, Seq<char>),
>
    decreases pairs.len(),
{
    if pairs.len() == 0 {
        Seq::empty()
    } else {
        spec_dict_insert(spec_dict_from(pairs.drop_last()), pairs.last().0, pairs.last().1)
    }
}

/// Read a dictionary: a count, then that many key and value strings (none
/// for a negative count); also give what follows.
pub open spec fn spec_parse_dict(s: Seq<u8>) -> PodResult<(Seq<(Seq<char>, Seq<char>)>, Seq<u8>)> {
    match spec_read_plain(FieldKind::Int, s) {
        Ok((Field::Int(c), s1)) => match spec_read_pairs(s1, c as i32 as int) {
            Ok((pairs, rest)) => Ok((spec_dict_from(pairs), rest)),
            Err(e) => Err(e),
        },
        Ok(_) => Err(DeserializeError::UnexpectedEnd),
        Err(e) => Err(e),
    }
}

/// Read `n` `Id` and `Int` pairs; also give what follows them.
pub open spec fn spec_read_params(s: Seq<u8>, n: int) -> PodResult<(Seq<(u32, u32)>, Seq<u8>)>
    decreases n,
{
    if n <= 0 {
        Ok((Seq::empty(), s))
    } else {
        match spec_read_plain(FieldKind::Id, s) {
            Ok((Field::Id(id), s1)) => match spec_read_plain(FieldKind::Int, s1) {
                Ok((Field::Int(flags), s2)) => spec_then(
                    seq![(id, flags)],
                    spec_read_params(s2, n - 1),
                ),
                Ok(_) => Err(DeserializeError::UnexpectedEnd),
                Err(e) => Err(e),
            },
            Ok(_) => Err(DeserializeError::UnexpectedEnd),
            Err(e) => Err(e),
        }
    }
}

/// Read parameter infos: a count, then that many pairs (none for a count that
/// is not positive); also give what follows.
pub open spec fn spec_parse_params(s: Seq<u8>) -> PodResult<(Seq<(u32, u32)>, Seq<u8>)> {
    match spec_read_plain(FieldKind::Int, s) {
        Ok((Field::Int(c), s1)) => if c as i32 <= 0 {
            Ok((Seq::empty(), s1))
        } else {
            spec_read_params(s1, c as i32 as int)
        },
        Ok(_) => Err(DeserializeError::UnexpectedEnd),
        Err(e) => Err(e),
    }
}

/// Read `n` pairs of `Int`s, leaving out those whose first is negative; also
/// give what follows them.
pub open spec fn spec_read_perms(s: Seq<u8>, n: int) -> PodResult<(Seq<(u32, u32)>, Seq<u8>)>
    decreases n,
{
    if n <= 0 {
        Ok((Seq::empty(), s))
    } else {
        match spec_read_plain(FieldKind::Int, s) {
            Ok((Field::Int(id), s1)) => match spec_read_plain(FieldKind::Int, s1) {
                Ok((Field::Int(perms), s2)) => spec_then(
                    if id as i32 >= 0 {
                        seq![(id, perms)]
                    } else {
                        Seq::empty()
                    },
                    spec_read_perms(s2, n - 1),
                ),
                Ok(_) => Err(DeserializeError::UnexpectedEnd),
                Err(e) => Err(e),
            },
            Ok(_) => Err(DeserializeError::UnexpectedEnd),
            Err(e) => Err(e),
        }
    }
}

/// Read permissions: a count, then that many pairs; also give what follows.
pub open spec fn spec_parse_perms(s: Seq<u8>) -> PodResult<(Seq<(u32, u32)>, Seq<u8>)> {
    match spec_read_plain(FieldKind::Int, s) {
        Ok((Field::Int(c), s1)) => spec_read_perms(s1, c as int),
        Ok(_) => Err(DeserializeError::UnexpectedEnd),
        Err(e) => Err(e),
    }
}

/// Read one field of kind `k` from the remaining fields `s`.
pub open spec fn spec_read_field(k: FieldKind, s: Seq<u8>) -> PodResult<(Field, Seq<u8>)> {
    match k {
        FieldKind::Dict => match spec_read_plain(k, s) {
            Ok((Field::Pod(h), rest)) => match spec_parse_dict(h.body) {
                Ok((d, _)) => Ok((Field::Dict(d), rest)),
                Err(e) => Err(e),
            },
            Ok(_) => Err(DeserializeError::UnexpectedEnd),
            Err(e) => Err(e),
        },
        FieldKind::Params => match spec_read_plain(k, s) {
            Ok((Field::Pod(h), rest)) => match spec_parse_params(h.body) {
                Ok((p, _)) => Ok((Field::Params(p), rest)),
                Err(e) => Err(e),
            },
            Ok(_) => Err(DeserializeError::UnexpectedEnd),
            Err(e) => Err(e),
        },
        FieldKind::Perms => match spec_read_plain(k, s) {
            Ok((Field::Pod(h), rest)) => match spec_parse_perms(h.body) {
                Ok((p, _)) => Ok((Field::Perms(p), rest)),
                Err(e) => Err(e),
            },
            Ok(_) => Err(DeserializeError::UnexpectedEnd),
            Err(e) => Err(e),
        },
        _ => spec_read_plain(k, s),
    }
}

/// Read fields of the kinds `ks`, in order, from the remaining fields `s`.
pub open spec fn spec_parse_fields(ks: Seq<FieldKind>, s: Seq<u8>) -> PodResult<Seq<Field>>
    decreases ks.len(),
{
    if ks.len() == 0 {
        Ok(Seq::empty())
    } else {
        match spec_read_field(ks[0], s) {
            Ok((f, rest)) => match spec_parse_fields(ks.drop_first(), rest) {
                Ok(fs) => Ok(seq![f] + fs),
                Err(e) => Err(e),
            },
            Err(e) => Err(e),
        }
    }
}

/// Read a message of fields of kinds `ks` from the pod `p`.
pub open spec fn spec_parse_message(ks: Seq<FieldKind>, p: PodView) -> PodResult<Seq<Field>> {
    if p.ty != TYPE_STRUCT {
        Err(spec_unexpected(SpaType::Struct, p.ty))
    } else {
        spec_parse_fields(ks, p.body)
    }
}

// ---------------------------------------------------------------------------
// Readers of single fields

/// Read an `Int` field as unsigned.
pub fn read_u32<'a>(pod: &mut PodStructDeserializer<'a>) -> (r: PodResult<u32>)
    ensures
        match spec_read_plain(FieldKind::Int, old(pod).view()) {
            Ok((f, rest)) => r matches Ok(x) && f == Field::Int(x) && final(pod).view() == rest,
            Err(e) => r == Err::<u32, DeserializeError>(e),
        },
{
    let f = pod.pop_field()?;
    f.as_u32()
}

/// Read an `Int` field.
pub fn read_i32<'a>(pod: &mut PodStructDeserializer<'a>) -> (r: PodResult<i32>)
    ensures
        match spec_read_plain(FieldKind::Int, old(pod).view()) {
            Ok((f, rest)) => r matches Ok(x) && f == Field::Int(x as u32) && final(pod).view()
                == rest,
            Err(e) => r == Err::<i32, DeserializeError>(e),
        },
{
    let f = pod.pop_field()?;
    let x = f.as_i32()?;
    proof {
        let b = spec_le32(f.view().body, 0);
        assert((b as i32) as u32 == b) by (bit_vector);
    }
    Ok(x)
}

/// Read a `Long` field as unsigned.
pub fn read_u64<'a>(pod: &mut PodStructDeserializer<'a>) -> (r: PodResult<u64>)
    ensures
        match spec_read_plain(FieldKind::Long, old(pod).view()) {
            Ok((f, rest)) => r matches Ok(x) && f == Field::Long(x) && final(pod).view() == rest,
            Err(e) => r == Err::<u64, DeserializeError>(e),
        },
{
    let f = pod.pop_field()?;
    f.as_u64()
}

/// Read an `Id` field.
pub fn read_id<'a>(pod: &mut PodStructDeserializer<'a>) -> (r: PodResult<u32>)
    ensures
        match spec_read_plain(FieldKind::Id, old(pod).view()) {
            Ok((f, rest)) => r matches Ok(x) && f == Field::Id(x) && final(pod).view() == rest,
            Err(e) => r == Err::<u32, DeserializeError>(e),
        },
{
    let f = pod.pop_field()?;
    f.as_id()
}

/// Read a `Bool` field.
pub fn read_bool<'a>(pod: &mut PodStructDeserializer<'a>) -> (r: PodResult<bool>)
    ensures
        match spec_read_plain(FieldKind::Bool, old(pod).view()) {
            Ok((f, rest)) => r matches Ok(x) && f == Field::Bool(x) && final(pod).view() == rest,
            Err(e) => r == Err::<bool, DeserializeError>(e),
        },
{
    let f = pod.pop_field()?;
    f.as_bool()
}

/// Read an `Fd` field: the index of a file descriptor.
pub fn read_fd<'a>(pod: &mut PodStructDeserializer<'a>) -> (r: PodResult<i64>)
    ensures
        match spec_read_plain(FieldKind::Fd, old(pod).view()) {
            Ok((f, rest)) => r matches Ok(x) && f == Field::Fd(x) && final(pod).view() == rest,
            Err(e) => r == Err::<i64, DeserializeError>(e),
        },
{
    let f = pod.pop_field()?;
    f.as_fd()
}

/// Read a `String` field.
pub fn read_str<'a>(pod: &mut PodStructDeserializer<'a>) -> (r: PodResult<String>)
    ensures
        match spec_read_plain(FieldKind::Str, old(pod).view()) {
            Ok((f, rest)) => r matches Ok(x) && f == Field::Str(x@) && final(pod).view() == rest,
            Err(e) => r == Err::<String, DeserializeError>(e),
        },
{
    let f = pod.pop_field()?;
    let b = f.as_str()?;
    Ok(bstr_to_string(b))
}

/// Read a `String` field, or a `None` field.
pub fn read_opt_str<'a>(pod: &mut PodStructDeserializer<'a>) -> (r: PodResult<Option<String>>)
    ensures
        match spec_read_plain(FieldKind::OptStr, old(pod).view()) {
            Ok((f, rest)) => r matches Ok(x) && f == Field::OptStr(
                match x {
                    Some(t) => Some(t@),
                    None => None,
                },
            ) && final(pod).view() == rest,
            Err(e) => r == Err::<Option<String>, DeserializeError>(e),
        },
{
    let f = pod.pop_field()?;
    match f.as_str_or_none()? {
        Some(b) => Ok(Some(bstr_to_string(b))),
        None => Ok(None),
    }
}

/// Read any field, as an owned pod.
pub fn read_pod<'a>(pod: &mut PodStructDeserializer<'a>) -> (r: PodResult<OwnedPod>)
    ensures
        match spec_read_plain(FieldKind::Pod, old(pod).view()) {
            Ok((f, rest)) => r matches Ok(x) && f == Field::Pod(x.view()) && final(pod).view()
                == rest,
            Err(e) => r == Err::<OwnedPod, DeserializeError>(e),
        },
{
    let f = pod.pop_field()?;
    Ok(f.to_owned())
}

/// Read a `Struct` field: a reader over its fields.
pub fn read_struct<'a>(pod: &mut PodStructDeserializer<'a>) -> (r: PodResult<
    PodStructDeserializer<'a>,
>)
    ensures
        match spec_read_plain(FieldKind::Dict, old(pod).view()) {
            Ok((f, rest)) => r matches Ok(x) && f == Field::Pod(
                PodView { ty: TYPE_STRUCT, body: x.view() },
            ) && final(pod).view() == rest,
            Err(e) => r == Err::<PodStructDeserializer<'a>, DeserializeError>(e),
        },
{
    let f = pod.pop_field()?;
    f.as_struct()
}

/// Read a `Struct` field holding a dictionary.
pub fn read_dict<'a>(pod: &mut PodStructDeserializer<'a>) -> (r: PodResult<PwDictionary>)
    ensures
        match spec_read_field(FieldKind::Dict, old(pod).view()) {
            Ok((f, rest)) => r matches Ok(x) && f == Field::Dict(spec_dict_view(x@))
                && final(pod).view() == rest,
            Err(e) => r == Err::<PwDictionary, DeserializeError>(e),
        },
{
    let mut s = read_struct(pod)?;
    parse_dict(&mut s)
}

/// Read a `Struct` field holding parameter infos.
pub fn read_params<'a>(pod: &mut PodStructDeserializer<'a>) -> (r: PodResult<Vec<ParamInfo>>)
    ensures
        match spec_read_field(FieldKind::Params, old(pod).view()) {
            Ok((f, rest)) => r matches Ok(x) && f == Field::Params(spec_params_view(x@))
                && final(pod).view() == rest && spec_params_canonical(x@),
            Err(e) => r == Err::<Vec<ParamInfo>, DeserializeError>(e),
        },
{
    let mut s = read_struct(pod)?;
    parse_params(&mut s)
}


// ---------------------------------------------------------------------------
// Reading plain values

/// Read an `Int` field; also give what follows it.
pub open spec fn spec_read_int(s: Seq<u8>) -> PodResult<(u32, Seq<u8>)> {
    match spec_read_plain(FieldKind::Int, s) {
        Ok((Field::Int(x), rest)) => Ok((x, rest)),
        Ok(_) => Err(DeserializeError::UnexpectedEnd),
        Err(e) => Err(e),
    }
}

/// Read an `Id` field; also give what follows it.
pub open spec fn spec_read_id(s: Seq<u8>) -> PodResult<(u32, Seq<u8>)> {
    match spec_read_plain(FieldKind::Id, s) {
        Ok((Field::Id(x), rest)) => Ok((x, rest)),
        Ok(_) => Err(DeserializeError::UnexpectedEnd),
        Err(e) => Err(e),
    }
}

/// Read a `Long` field; also give what follows it.
pub open spec fn spec_read_long(s: Seq<u8>) -> PodResult<(u64, Seq<u8>)> {
    match spec_read_plain(FieldKind::Long, s) {
        Ok((Field::Long(x), rest)) => Ok((x, rest)),
        Ok(_) => Err(DeserializeError::UnexpectedEnd),
        Err(e) => Err(e),
    }
}

/// `prefix` in front of what a read gives, after `x` was put in front of it.
pub proof fn lemma_then_push<T>(prefix: Seq<T>, x: T, r: PodResult<(Seq<T>, Seq<u8>)>)
    ensures
        spec_then(prefix, spec_then(seq![x], r)) == spec_then(prefix.push(x), r),
{
    match r {
        Ok((t, rest)) => {
            assert(prefix + (seq![x] + t) =~= prefix.push(x) + t);
        },
        Err(_) => {},
    }
}

/// A read put behind nothing is unchanged.
pub proof fn lemma_then_empty<T>(r: PodResult<(Seq<T>, Seq<u8>)>)
    ensures
        spec_then(Seq::<T>::empty(), r) == r,
{
    match r {
        Ok((t, rest)) => {
            assert(Seq::<T>::empty() + t =~= t);
        },
        Err(_) => {},
    }
}

/// Read an `Int` field, as [`spec_read_int`] says.
pub fn read_int<'a>(pod: &mut PodStructDeserializer<'a>) -> (r: PodResult<u32>)
    ensures
        match spec_read_int(old(pod).view()) {
            Ok((x, rest)) => r == Ok::<u32, DeserializeError>(x) && final(pod).view() == rest,
            Err(e) => r == Err::<u32, DeserializeError>(e),
        },
{
    read_u32(pod)
}

/// Read an `Id` field, as [`spec_read_id`] says.
pub fn read_id_field<'a>(pod: &mut PodStructDeserializer<'a>) -> (r: PodResult<u32>)
    ensures
        match spec_read_id(old(pod).view()) {
            Ok((x, rest)) => r == Ok::<u32, DeserializeError>(x) && final(pod).view() == rest,
            Err(e) => r == Err::<u32, DeserializeError>(e),
        },
{
    read_id(pod)
}


/// Read a `Long` field as unsigned.
pub fn read_long<'a>(pod: &mut PodStructDeserializer<'a>) -> (r: PodResult<u64>)
    ensures
        match spec_read_long(old(pod).view()) {
            Ok((x, rest)) => r == Ok::<u64, DeserializeError>(x) && final(pod).view() == rest,
            Err(e) => r == Err::<u64, DeserializeError>(e),
        },
{
    read_u64(pod)
}


/// A `None` field.
pub open spec fn spec_none_field() -> Field {
    Field::Pod(PodView { ty: TYPE_NONE, body: Seq::empty() })
}

/// A `Struct` field holding the fields `fs`.
pub open spec fn spec_struct_field(fs: Seq<Field>) -> Field {
    Field::Pod(PodView { ty: TYPE_STRUCT, body: spec_fields_bytes(fs) })
}

proof fn lemma_encode_min(ty: u32, body: Seq<u8>)
    ensures
        spec_encode(ty, body).len() >= 8 + body.len(),
{
    crate::bytes::lemma_u32_bytes(body.len() as u32);
    crate::bytes::lemma_u32_bytes(ty);
}

proof fn lemma_field_min(f: Field)
    ensures
        spec_field_bytes(f).len() >= 8,
        f matches Field::Str(s) ==> spec_field_bytes(f).len() >= 9 + encode_utf8(s).len(),
{
    match f {
        Field::Int(x) => lemma_encode_min(TYPE_INT, spec_u32_bytes(x)),
        Field::Long(x) => lemma_encode_min(TYPE_LONG, spec_u64_bytes(x)),
        Field::Id(x) => lemma_encode_min(TYPE_ID, spec_u32_bytes(x)),
        Field::Bool(b) => lemma_encode_min(TYPE_BOOL, spec_u32_bytes(if b { 1 } else { 0 })),
        Field::Fd(x) => lemma_encode_min(TYPE_FD, spec_u64_bytes(x as u64)),
        Field::Str(s) => lemma_encode_min(TYPE_STRING, encode_utf8(s).push(0u8)),
        Field::OptStr(o) => match o {
            Some(s) => lemma_encode_min(TYPE_STRING, encode_utf8(s).push(0u8)),
            None => lemma_encode_min(TYPE_NONE, Seq::empty()),
        },
        Field::Pod(v) => lemma_encode_min(v.ty, v.body),
        Field::Dict(d) => lemma_encode_min(
            TYPE_STRUCT,
            spec_encode(TYPE_INT, spec_u32_bytes(d.len() as u32)) + spec_pairs_bytes(d),
        ),
        Field::Params(p) => lemma_encode_min(
            TYPE_STRUCT,
            spec_encode(TYPE_INT, spec_u32_bytes(p.len() as u32)) + spec_params_bytes(p),
        ),
        Field::Perms(p) => lemma_encode_min(
            TYPE_STRUCT,
            spec_encode(TYPE_INT, spec_u32_bytes(p.len() as u32)) + spec_int_pairs_bytes(p),
        ),
        Field::Ids(ids) => lemma_encode_min(TYPE_ARRAY, spec_ids_body(ids)),
    }
}

proof fn lemma_fields_min(fs: Seq<Field>)
    ensures
        spec_fields_bytes(fs).len() >= 8 * fs.len(),
    decreases fs.len(),
{
    if fs.len() > 0 {
        lemma_fields_min(fs.drop_last());
        lemma_field_min(fs.last());
    }
}

proof fn lemma_field_within(fs: Seq<Field>, i: int)
    requires
        0 <= i < fs.len(),
    ensures
        spec_fields_bytes(fs).len() >= spec_field_bytes(fs[i]).len() + 8 * i,
    decreases fs.len(),
{
    if i == fs.len() - 1 {
        lemma_fields_min(fs.drop_last());
    } else {
        lemma_field_within(fs.drop_last(), i);
        assert(fs.drop_last()[i] == fs[i]);
    }
}

/// A string field after the first of fields whose bytes fit a size header
/// can be written.
pub proof fn lemma_str_within_ok(fs: Seq<Field>, i: int)
    requires
        1 <= i < fs.len(),
        fs[i] is Str,
        spec_fields_bytes(fs).len() <= u32::MAX,
    ensures
        spec_str_ok(fs[i]->Str_0),
{
    lemma_field_within(fs, i);
    lemma_field_min(fs[i]);
}

} // verus!
