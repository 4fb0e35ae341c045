//! What a reader of messages gives back of what the writer of messages wrote.
//!
//! Strings come back through the lossy UTF-8 reading of their bytes
//! ([`spec_text_of`]); dictionaries come back with their keys made unique;
//! permissions come back without those of a negative id.

use vstd::prelude::*;
use vstd::utf8::encode_utf8;
use crate::bytes::{
    lemma_u32_bytes, lemma_u64_bytes, spec_le32, spec_le64, spec_u32_bytes, spec_u64_bytes,
};
use crate::pod_v2::format::{
    spec_pod_rest, TYPE_BOOL, TYPE_FD, TYPE_ID, TYPE_INT, TYPE_LONG, TYPE_NONE, TYPE_STRING,
    TYPE_STRUCT,
};
use crate::pod_v2::deserialize::{spec_head_view, PodView};
use crate::pod_v2::laws::{law_decode_encode, law_str_roundtrip, spec_encode, spec_fits_u32};
use crate::connection::{law_header_roundtrip, spec_header_at, spec_header_bytes, Header};
use super::codec::{
    spec_bstr_to_string, spec_dict_from, spec_field_bytes, spec_field_ok, spec_fields_bytes,
    spec_fields_ok, spec_int_pairs_bytes, spec_message_bytes, spec_pairs_bytes, spec_params_bytes,
    spec_parse_fields, spec_parse_message, spec_read_field, spec_read_pairs, spec_read_params,
    spec_read_perms, spec_read_plain, spec_str_bytes, spec_str_ok, Field, FieldKind,
};
use super::spec_msg_bytes;

verus! {

/// The text a `String` pod of `s` reads back as.
pub open spec fn spec_text_of(s: Seq<char>) -> Seq<char> {
    spec_bstr_to_string(encode_utf8(s))
}

/// The UTF-8 bytes of `s` hold no NUL byte.
pub open spec fn spec_no_nul(s: Seq<char>) -> bool {
    forall|i: int| 0 <= i < encode_utf8(s).len() ==> #[trigger] encode_utf8(s)[i] != 0
}

/// The kind a reader expects for the field `f`.
pub open spec fn spec_kind_of(f: Field) -> FieldKind {
    match f {
        Field::Int(_) => FieldKind::Int,
        Field::Long(_) => FieldKind::Long,
        Field::Id(_) => FieldKind::Id,
        Field::Bool(_) => FieldKind::Bool,
        Field::Fd(_) => FieldKind::Fd,
        Field::Str(_) => FieldKind::Str,
        Field::OptStr(_) => FieldKind::OptStr,
        Field::Pod(_) => FieldKind::Pod,
        Field::Dict(_) => FieldKind::Dict,
        Field::Params(_) => FieldKind::Params,
        Field::Perms(_) => FieldKind::Perms,
        Field::Ids(_) => FieldKind::Ids,
    }
}

/// The pairs of `d`, each string as it reads back.
pub open spec fn spec_text_pairs(d: Seq<(Seq<char>, Seq<char>)>) -> Seq<(Seq<char>, Seq<char>)> {
    d.map_values(|p: (Seq<char>, Seq<char>)| (spec_text_of(p.0), spec_text_of(p.1)))
}

/// The pairs of `p` whose first, read as signed, is not negative.
pub open spec fn spec_keep_perms(p: Seq<(u32, u32)>) -> Seq<(u32, u32)>
    decreases p.len(),
{
    if p.len() == 0 {
        Seq::empty()
    } else if p[0].0 as i32 >= 0 {
        seq![p[0]] + spec_keep_perms(p.drop_first())
    } else {
        spec_keep_perms(p.drop_first())
    }
}

/// What the field `f` reads back as.
pub open spec fn spec_read_back(f: Field) -> Field {
    match f {
        Field::Str(s) => Field::Str(spec_text_of(s)),
        Field::OptStr(o) => Field::OptStr(
            match o {
                Some(s) => Some(spec_text_of(s)),
                None => None,
            },
        ),
        Field::Dict(d) => Field::Dict(spec_dict_from(spec_text_pairs(d))),
        Field::Perms(p) => Field::Perms(spec_keep_perms(p)),
        _ => f,
    }
}

/// The field `f` can be read back: its strings hold no NUL byte, its counts
/// fit their signed fields, and it is not an array of ids (which nothing
/// reads).
pub open spec fn spec_readable(f: Field) -> bool {
    match f {
        Field::Str(s) => spec_no_nul(s),
        Field::OptStr(o) => match o {
            Some(s) => spec_no_nul(s),
            None => true,
        },
        Field::Dict(d) => d.len() <= i32::MAX && forall|i: int|
            0 <= i < d.len() ==> spec_no_nul(#[trigger] d[i].0) && spec_no_nul(d[i].1),
        Field::Params(p) => p.len() <= i32::MAX,
        Field::Perms(p) => p.len() <= u32::MAX,
        Field::Ids(_) => false,
        _ => true,
    }
}

pub(crate) proof fn lemma_pod_read(ty: u32, body: Seq<u8>, rest: Seq<u8>)
    requires
        spec_fits_u32(body),
    ensures
        spec_encode(ty, body).len() > 0,
        (spec_encode(ty, body) + rest).len() > 0,
        spec_head_view(spec_encode(ty, body) + rest) == (PodView { ty, body }),
        spec_pod_rest(spec_encode(ty, body) + rest) == rest,
{
    law_decode_encode(ty, body, rest);
    lemma_u32_bytes(body.len() as u32);
}

proof fn lemma_u32_body(x: u32)
    ensures
        spec_fits_u32(spec_u32_bytes(x)),
        spec_le32(spec_u32_bytes(x), 0) == x,
{
    lemma_u32_bytes(x);
    assert(spec_u32_bytes(x).subrange(0, 4) =~= spec_u32_bytes(x));
}

proof fn lemma_u64_body(x: u64)
    ensures
        spec_fits_u32(spec_u64_bytes(x)),
        spec_le64(spec_u64_bytes(x), 0) == x,
{
    lemma_u64_bytes(x);
    assert(spec_u64_bytes(x).subrange(0, 8) =~= spec_u64_bytes(x));
}

proof fn lemma_str_read(s: Seq<char>, rest: Seq<u8>)
    requires
        spec_str_ok(s),
        spec_no_nul(s),
    ensures
        spec_read_plain(FieldKind::Str, spec_str_bytes(s) + rest) == Ok::<(Field, Seq<u8>), crate::pod_v2::deserialize::DeserializeError>(
            (Field::Str(spec_text_of(s)), rest),
        ),
        spec_read_plain(FieldKind::OptStr, spec_str_bytes(s) + rest) == Ok::<(Field, Seq<u8>), crate::pod_v2::deserialize::DeserializeError>(
            (Field::OptStr(Some(spec_text_of(s))), rest),
        ),
{
    let b = encode_utf8(s);
    lemma_pod_read(TYPE_STRING, b.push(0u8), rest);
    assert forall|j: int| 0 <= j < b.len() implies b[j] != 0 by {
        assert(encode_utf8(s)[j] != 0);
    }
    law_str_roundtrip(b);
}

/// The key and value strings of `seq![x] + d`.
proof fn lemma_pairs_front(x: (Seq<char>, Seq<char>), d: Seq<(Seq<char>, Seq<char>)>)
    ensures
        spec_pairs_bytes(seq![x] + d) == spec_str_bytes(x.0) + spec_str_bytes(x.1)
            + spec_pairs_bytes(d),
    decreases d.len(),
{
    if d.len() == 0 {
        let e = (seq![x] + d).drop_last();
        assert(e =~= Seq::<(Seq<char>, Seq<char>)>::empty());
        assert(spec_pairs_bytes(e) == Seq::<u8>::empty());
        assert(spec_pairs_bytes(d) == Seq::<u8>::empty());
        assert(spec_pairs_bytes(seq![x] + d) =~= spec_str_bytes(x.0) + spec_str_bytes(x.1)
            + spec_pairs_bytes(d));
    } else {
        lemma_pairs_front(x, d.drop_last());
        assert((seq![x] + d).drop_last() =~= seq![x] + d.drop_last());
        assert(spec_pairs_bytes(seq![x] + d) =~= spec_str_bytes(x.0) + spec_str_bytes(x.1)
            + spec_pairs_bytes(d));
    }
}

#[verifier::rlimit(50)]
pub(crate) proof fn lemma_pairs_read(d: Seq<(Seq<char>, Seq<char>)>, rest: Seq<u8>)
    requires
        forall|i: int|
            0 <= i < d.len() ==> spec_no_nul(#[trigger] d[i].0) && spec_no_nul(d[i].1)
                && spec_str_ok(d[i].0) && spec_str_ok(d[i].1),
    ensures
        spec_read_pairs(spec_pairs_bytes(d) + rest, d.len() as int) == Ok::<
            (Seq<(Seq<char>, Seq<char>)>, Seq<u8>),
            crate::pod_v2::deserialize::DeserializeError,
        >((spec_text_pairs(d), rest)),
    decreases d.len(),
{
    if d.len() == 0 {
        assert(spec_text_pairs(d) =~= Seq::<(Seq<char>, Seq<char>)>::empty());
        assert(spec_pairs_bytes(d) + rest =~= rest);
    } else {
        let x = d[0];
        let t = d.drop_first();
        assert(d =~= seq![x] + t);
        lemma_pairs_front(x, t);
        assert forall|i: int|
            0 <= i < t.len() implies spec_no_nul(#[trigger] t[i].0) && spec_no_nul(t[i].1)
            && spec_str_ok(t[i].0) && spec_str_ok(t[i].1) by {
            assert(t[i] == d[i + 1]);
        }
        lemma_pairs_read(t, rest);
        assert(spec_no_nul(d[0].0) && spec_str_ok(d[0].0));
        let s = spec_pairs_bytes(d) + rest;
        assert(s =~= spec_str_bytes(x.0) + (spec_str_bytes(x.1) + (spec_pairs_bytes(t) + rest)));
        lemma_str_read(x.0, spec_str_bytes(x.1) + (spec_pairs_bytes(t) + rest));
        lemma_str_read(x.1, spec_pairs_bytes(t) + rest);
        assert(spec_text_pairs(d) =~= seq![(spec_text_of(x.0), spec_text_of(x.1))]
            + spec_text_pairs(t));
    }
}

proof fn lemma_params_front(x: (u32, u32), p: Seq<(u32, u32)>)
    ensures
        spec_params_bytes(seq![x] + p) == spec_encode(TYPE_ID, spec_u32_bytes(x.0)) + spec_encode(
            TYPE_INT,
            spec_u32_bytes(x.1),
        ) + spec_params_bytes(p),
    decreases p.len(),
{
    if p.len() == 0 {
        let e = (seq![x] + p).drop_last();
        assert(e =~= Seq::<(u32, u32)>::empty());
        assert(spec_params_bytes(e) == Seq::<u8>::empty());
        assert(spec_params_bytes(p) == Seq::<u8>::empty());
        assert(spec_params_bytes(seq![x] + p) =~= spec_encode(TYPE_ID, spec_u32_bytes(x.0))
            + spec_encode(TYPE_INT, spec_u32_bytes(x.1)) + spec_params_bytes(p));
    } else {
        lemma_params_front(x, p.drop_last());
        assert((seq![x] + p).drop_last() =~= seq![x] + p.drop_last());
        assert(spec_params_bytes(seq![x] + p) =~= spec_encode(TYPE_ID, spec_u32_bytes(x.0))
            + spec_encode(TYPE_INT, spec_u32_bytes(x.1)) + spec_params_bytes(p));
    }
}

#[verifier::rlimit(50)]
pub(crate) proof fn lemma_params_read(p: Seq<(u32, u32)>, rest: Seq<u8>)
    ensures
        spec_read_params(spec_params_bytes(p) + rest, p.len() as int) == Ok::<
            (Seq<(u32, u32)>, Seq<u8>),
            crate::pod_v2::deserialize::DeserializeError,
        >((p, rest)),
    decreases p.len(),
{
    if p.len() == 0 {
        assert(p =~= Seq::<(u32, u32)>::empty());
        assert(spec_params_bytes(p) + rest =~= rest);
    } else {
        let x = p[0];
        let t = p.drop_first();
        assert(p =~= seq![x] + t);
        lemma_params_front(x, t);
        lemma_params_read(t, rest);
        lemma_u32_body(x.0);
        lemma_u32_body(x.1);
        let r2 = spec_params_bytes(t) + rest;
        lemma_pod_read(TYPE_INT, spec_u32_bytes(x.1), r2);
        let s1 = spec_encode(TYPE_INT, spec_u32_bytes(x.1)) + r2;
        lemma_pod_read(TYPE_ID, spec_u32_bytes(x.0), s1);
        let s0 = spec_params_bytes(p) + rest;
        assert(s0 =~= spec_encode(TYPE_ID, spec_u32_bytes(x.0)) + s1);
        assert(spec_read_plain(FieldKind::Id, s0) == Ok::<
            (Field, Seq<u8>),
            crate::pod_v2::deserialize::DeserializeError,
        >((Field::Id(x.0), s1)));
        assert(spec_read_plain(FieldKind::Int, s1) == Ok::<
            (Field, Seq<u8>),
            crate::pod_v2::deserialize::DeserializeError,
        >((Field::Int(x.1), r2)));
        assert(seq![(x.0, x.1)] + t =~= p);
    }
}

proof fn lemma_int_pairs_front(x: (u32, u32), p: Seq<(u32, u32)>)
    ensures
        spec_int_pairs_bytes(seq![x] + p) == spec_encode(TYPE_INT, spec_u32_bytes(x.0))
            + spec_encode(TYPE_INT, spec_u32_bytes(x.1)) + spec_int_pairs_bytes(p),
    decreases p.len(),
{
    if p.len() == 0 {
        let e = (seq![x] + p).drop_last();
        assert(e =~= Seq::<(u32, u32)>::empty());
        assert(spec_int_pairs_bytes(e) == Seq::<u8>::empty());
        assert(spec_int_pairs_bytes(p) == Seq::<u8>::empty());
        assert(spec_int_pairs_bytes(seq![x] + p) =~= spec_encode(TYPE_INT, spec_u32_bytes(x.0))
            + spec_encode(TYPE_INT, spec_u32_bytes(x.1)) + spec_int_pairs_bytes(p));
    } else {
        lemma_int_pairs_front(x, p.drop_last());
        assert((seq![x] + p).drop_last() =~= seq![x] + p.drop_last());
        assert(spec_int_pairs_bytes(seq![x] + p) =~= spec_encode(TYPE_INT, spec_u32_bytes(x.0))
            + spec_encode(TYPE_INT, spec_u32_bytes(x.1)) + spec_int_pairs_bytes(p));
    }
}

#[verifier::rlimit(50)]
proof fn lemma_perms_read(p: Seq<(u32, u32)>, rest: Seq<u8>)
    ensures
        spec_read_perms(spec_int_pairs_bytes(p) + rest, p.len() as int) == Ok::<
            (Seq<(u32, u32)>, Seq<u8>),
            crate::pod_v2::deserialize::DeserializeError,
        >((spec_keep_perms(p), rest)),
    decreases p.len(),
{
    if p.len() == 0 {
        assert(spec_int_pairs_bytes(p) + rest =~= rest);
    } else {
        let x = p[0];
        let t = p.drop_first();
        assert(p =~= seq![x] + t);
        lemma_int_pairs_front(x, t);
        lemma_perms_read(t, rest);
        lemma_u32_body(x.0);
        lemma_u32_body(x.1);
        let r2 = spec_int_pairs_bytes(t) + rest;
        lemma_pod_read(TYPE_INT, spec_u32_bytes(x.1), r2);
        lemma_pod_read(TYPE_INT, spec_u32_bytes(x.0), spec_encode(TYPE_INT, spec_u32_bytes(x.1)) + r2);
        assert(spec_int_pairs_bytes(p) + rest =~= spec_encode(TYPE_INT, spec_u32_bytes(x.0)) + (
        spec_encode(TYPE_INT, spec_u32_bytes(x.1)) + r2));
        if x.0 as i32 >= 0 {
            assert(seq![x] + spec_keep_perms(t) =~= spec_keep_perms(p));
        } else {
            assert(Seq::<(u32, u32)>::empty() + spec_keep_perms(t) =~= spec_keep_perms(p));
        }
    }
}

/// One field, written, reads back as [`spec_read_back`] of it, and what
/// follows it is left over.
pub proof fn law_field_read_back(f: Field, rest: Seq<u8>)
    requires
        spec_field_ok(f),
        spec_readable(f),
    ensures
        spec_read_field(spec_kind_of(f), spec_field_bytes(f) + rest) == Ok::<
            (Field, Seq<u8>),
            crate::pod_v2::deserialize::DeserializeError,
        >((spec_read_back(f), rest)),
{
    match f {
        Field::Int(x) => {
            lemma_u32_body(x);
            lemma_pod_read(TYPE_INT, spec_u32_bytes(x), rest);
        },
        Field::Long(x) => {
            lemma_u64_body(x);
            lemma_pod_read(TYPE_LONG, spec_u64_bytes(x), rest);
        },
        Field::Id(x) => {
            lemma_u32_body(x);
            lemma_pod_read(TYPE_ID, spec_u32_bytes(x), rest);
        },
        Field::Bool(b) => {
            lemma_u32_body(if b { 1 } else { 0 });
            lemma_pod_read(TYPE_BOOL, spec_u32_bytes(if b { 1 } else { 0 }), rest);
        },
        Field::Fd(x) => {
            lemma_u64_body(x as u64);
            lemma_pod_read(TYPE_FD, spec_u64_bytes(x as u64), rest);
            assert(((x as u64) as i64) == x) by (bit_vector);
        },
        Field::Str(s) => {
            lemma_str_read(s, rest);
        },
        Field::OptStr(o) => {
            match o {
                Some(s) => {
                    lemma_str_read(s, rest);
                },
                None => {
                    lemma_pod_read(TYPE_NONE, Seq::empty(), rest);
                },
            }
        },
        Field::Pod(v) => {
            lemma_pod_read(v.ty, v.body, rest);
        },
        Field::Dict(d) => {
            let n = d.len() as u32;
            lemma_u32_body(n);
            let content = spec_encode(TYPE_INT, spec_u32_bytes(n)) + spec_pairs_bytes(d);
            assert(spec_fits_u32(content)) by {
                crate::bytes::lemma_u32_bytes(n);
                law_decode_encode(TYPE_INT, spec_u32_bytes(n), Seq::empty());
                lemma_pairs_len_ok(d);
            }
            lemma_pod_read(TYPE_STRUCT, content, rest);
            lemma_pod_read(TYPE_INT, spec_u32_bytes(n), spec_pairs_bytes(d));
            assert(spec_pairs_bytes(d) + Seq::<u8>::empty() =~= spec_pairs_bytes(d));
            assert forall|i: int|
                0 <= i < d.len() implies spec_no_nul(#[trigger] d[i].0) && spec_no_nul(d[i].1)
                && spec_str_ok(d[i].0) && spec_str_ok(d[i].1) by {
                assert(super::codec::spec_pairs_ok(d));
                assert(super::codec::spec_pair_ok(d[i]));
                assert(spec_no_nul(d[i].0));
            }
            lemma_pairs_read(d, Seq::empty());
            assert((n as i32) as int == d.len());
        },
        Field::Params(p) => {
            let n = p.len() as u32;
            lemma_u32_body(n);
            let content = spec_encode(TYPE_INT, spec_u32_bytes(n)) + spec_params_bytes(p);
            assert(spec_fits_u32(content)) by {
                crate::bytes::lemma_u32_bytes(n);
                law_decode_encode(TYPE_INT, spec_u32_bytes(n), Seq::empty());
                lemma_params_len_ok(p);
            }
            lemma_pod_read(TYPE_STRUCT, content, rest);
            lemma_pod_read(TYPE_INT, spec_u32_bytes(n), spec_params_bytes(p));
            assert(spec_params_bytes(p) + Seq::<u8>::empty() =~= spec_params_bytes(p));
            lemma_params_read(p, Seq::empty());
            if p.len() == 0 {
                assert(p =~= Seq::<(u32, u32)>::empty());
            }
        },
        Field::Perms(p) => {
            let n = p.len() as u32;
            lemma_u32_body(n);
            let content = spec_encode(TYPE_INT, spec_u32_bytes(n)) + spec_int_pairs_bytes(p);
            assert(spec_fits_u32(content)) by {
                crate::bytes::lemma_u32_bytes(n);
                law_decode_encode(TYPE_INT, spec_u32_bytes(n), Seq::empty());
                lemma_int_pairs_len_ok(p);
            }
            lemma_pod_read(TYPE_STRUCT, content, rest);
            lemma_pod_read(TYPE_INT, spec_u32_bytes(n), spec_int_pairs_bytes(p));
            assert(spec_int_pairs_bytes(p) + Seq::<u8>::empty() =~= spec_int_pairs_bytes(p));
            lemma_perms_read(p, Seq::empty());
        },
        Field::Ids(_) => {},
    }
}

proof fn lemma_pairs_len_ok(d: Seq<(Seq<char>, Seq<char>)>)
    requires
        spec_field_ok(Field::Dict(d)),
    ensures
        spec_pairs_bytes(d).len() % 8 == 0,
{
    super::codec::lemma_pairs_len(d);
}

proof fn lemma_params_len_ok(p: Seq<(u32, u32)>)
    ensures
        spec_params_bytes(p).len() % 8 == 0,
{
    super::codec::lemma_params_len(p);
}

proof fn lemma_int_pairs_len_ok(p: Seq<(u32, u32)>)
    ensures
        spec_int_pairs_bytes(p).len() % 8 == 0,
{
    super::codec::lemma_int_pairs_len(p);
}

/// The fields of `seq![f] + fs`, written.
proof fn lemma_fields_front(f: Field, fs: Seq<Field>)
    ensures
        spec_fields_bytes(seq![f] + fs) == spec_field_bytes(f) + spec_fields_bytes(fs),
    decreases fs.len(),
{
    if fs.len() == 0 {
        let e = (seq![f] + fs).drop_last();
        assert(e =~= Seq::<Field>::empty());
        assert(spec_fields_bytes(e) == Seq::<u8>::empty());
        assert(spec_fields_bytes(fs) == Seq::<u8>::empty());
        assert(spec_fields_bytes(seq![f] + fs) =~= spec_field_bytes(f) + spec_fields_bytes(fs));
    } else {
        lemma_fields_front(f, fs.drop_last());
        assert((seq![f] + fs).drop_last() =~= seq![f] + fs.drop_last());
        assert(spec_fields_bytes(seq![f] + fs) =~= spec_field_bytes(f) + spec_fields_bytes(fs));
    }
}

/// The kinds of fields.
pub open spec fn spec_kinds_of(fs: Seq<Field>) -> Seq<FieldKind> {
    fs.map_values(|f: Field| spec_kind_of(f))
}

/// What fields read back as.
pub open spec fn spec_all_read_back(fs: Seq<Field>) -> Seq<Field> {
    fs.map_values(|f: Field| spec_read_back(f))
}

/// Fields written one after the other are read back, in order, as
/// [`spec_read_back`] of each, whatever follows them.
pub proof fn law_fields_read_back(fs: Seq<Field>, rest: Seq<u8>)
    requires
        forall|i: int| 0 <= i < fs.len() ==> spec_field_ok(#[trigger] fs[i]) && spec_readable(
            fs[i],
        ),
    ensures
        spec_parse_fields(spec_kinds_of(fs), spec_fields_bytes(fs) + rest) == Ok::<
            Seq<Field>,
            crate::pod_v2::deserialize::DeserializeError,
        >(spec_all_read_back(fs)),
    decreases fs.len(),
{
    if fs.len() == 0 {
        assert(spec_kinds_of(fs) =~= Seq::<FieldKind>::empty());
        assert(spec_all_read_back(fs) =~= Seq::<Field>::empty());
    } else {
        let f = fs[0];
        let t = fs.drop_first();
        assert(fs =~= seq![f] + t);
        lemma_fields_front(f, t);
        assert forall|i: int| 0 <= i < t.len() implies spec_field_ok(#[trigger] t[i])
            && spec_readable(t[i]) by {
            assert(t[i] == fs[i + 1]);
        }
        law_fields_read_back(t, rest);
        assert(spec_field_ok(fs[0]) && spec_readable(fs[0]));
        law_field_read_back(f, spec_fields_bytes(t) + rest);
        assert(spec_fields_bytes(fs) + rest =~= spec_field_bytes(f) + (spec_fields_bytes(t)
            + rest));
        assert(spec_kinds_of(fs)[0] == spec_kind_of(f));
        assert(spec_kinds_of(fs).drop_first() =~= spec_kinds_of(t));
        assert(spec_all_read_back(fs) =~= seq![spec_read_back(f)] + spec_all_read_back(t));
    }
}

/// A request sent to an object is read back from its message: the header
/// names the object, the opcode and the length of the body, and the body's
/// struct holds the request's fields as they read back. (The length must fit
/// the 24 bits of the header.)
pub proof fn law_request_read_back(object_id: u32, opcode: u8, fs: Seq<Field>)
    requires
        spec_fields_ok(fs),
        forall|i: int| 0 <= i < fs.len() ==> #[trigger] spec_readable(fs[i]),
        spec_message_bytes(fs).len() <= 0x00ffffff,
    ensures
        ({
            let m = spec_msg_bytes(object_id, opcode, fs);
            let h = spec_header_at(m);
            &&& h == (Header {
                object_id,
                opcode,
                len: spec_message_bytes(fs).len() as u32,
                seq: 0,
                n_fds: 0,
            })
            &&& m.subrange(16, 16 + h.len) == spec_message_bytes(fs)
            &&& spec_parse_message(spec_kinds_of(fs), spec_head_view(m.subrange(16, 16 + h.len)))
                == Ok::<Seq<Field>, crate::pod_v2::deserialize::DeserializeError>(
                spec_all_read_back(fs),
            )
        }),
{
    let body = spec_message_bytes(fs);
    let h = Header { object_id, opcode, len: body.len() as u32, seq: 0, n_fds: 0 };
    law_header_roundtrip(h, body);
    let m = spec_msg_bytes(object_id, opcode, fs);
    assert(m == spec_header_bytes(h) + body);
    assert(m.subrange(16, m.len() as int) == body);
    assert(m.subrange(16, 16 + h.len) =~= body);
    let content = spec_fields_bytes(fs);
    assert(spec_fits_u32(content)) by {
        super::codec::lemma_fields_len(fs);
    }
    lemma_pod_read(TYPE_STRUCT, content, Seq::empty());
    assert(spec_encode(TYPE_STRUCT, content) + Seq::<u8>::empty() =~= spec_encode(
        TYPE_STRUCT,
        content,
    ));
    assert forall|i: int| 0 <= i < fs.len() implies spec_field_ok(#[trigger] fs[i])
        && spec_readable(fs[i]) by {
        assert(spec_readable(fs[i]));
    }
    law_fields_read_back(fs, Seq::empty());
    assert(content + Seq::<u8>::empty() =~= content);
}

} // verus!
