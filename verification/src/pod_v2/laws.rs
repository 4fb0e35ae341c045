//! What a reader gives back of what a builder wrote.

use vstd::prelude::*;
use crate::bytes::{
    lemma_le32_at, lemma_u32_bytes, lemma_u64_bytes, spec_le32, spec_le64, spec_pad_to_8,
    spec_u32_bytes, spec_u64_bytes, spec_zeros,
};
use super::format::{
    spec_padded, spec_pod_body, spec_pod_fits, spec_pod_rest, spec_pod_size, spec_valid_body,
    spec_valid_head, spec_valid_pod, spec_valid_seq, TYPE_BOOL, TYPE_ID, TYPE_INT, TYPE_LONG,
    TYPE_STRING, TYPE_STRUCT,
};
use super::deserialize::{spec_cstr, spec_head_view, spec_nul_from, PodView};
use super::serialize::{spec_close, spec_primitive, BuilderView};

verus! {

/// The bytes of one pod of type `ty` with the given body, padded.
pub open spec fn spec_encode(ty: u32, body: Seq<u8>) -> Seq<u8> {
    spec_u32_bytes(body.len() as u32) + spec_u32_bytes(ty) + body + spec_zeros(
        spec_pad_to_8(body.len() as u32) as nat,
    )
}

/// The pods of `pods` (type and body each), one after the other.
pub open spec fn spec_encode_all(pods: Seq<(u32, Seq<u8>)>) -> Seq<u8>
    decreases pods.len(),
{
    if pods.len() == 0 {
        Seq::empty()
    } else {
        spec_encode(pods[0].0, pods[0].1) + spec_encode_all(pods.subrange(1, pods.len() as int))
    }
}

/// A body short enough for its size and padding to fit a `u32`.
pub open spec fn spec_fits_u32(body: Seq<u8>) -> bool {
    body.len() <= u32::MAX && spec_padded(body.len() as u32) <= u32::MAX
}

/// A pod followed by anything is read back as that pod, and what follows is
/// left over.
pub proof fn law_decode_encode(ty: u32, body: Seq<u8>, rest: Seq<u8>)
    requires
        spec_fits_u32(body),
    ensures
        spec_pod_fits(spec_encode(ty, body) + rest),
        spec_pod_size(spec_encode(ty, body) + rest) == body.len(),
        spec_head_view(spec_encode(ty, body) + rest) == (PodView { ty, body }),
        spec_pod_rest(spec_encode(ty, body) + rest) == rest,
        spec_encode(ty, body).len() % 8 == 0,
{
    let size = body.len() as u32;
    let s = spec_encode(ty, body) + rest;
    lemma_u32_bytes(size);
    lemma_u32_bytes(ty);
    assert(s.subrange(0, 4) =~= spec_u32_bytes(size));
    assert(s.subrange(4, 8) =~= spec_u32_bytes(ty));
    lemma_le32_at(s, 0, size);
    lemma_le32_at(s, 4, ty);
    assert(spec_pod_body(s) =~= body);
    assert(spec_pod_rest(s) =~= rest);
}

/// A well-formed body, written as a pod, is a well-formed pod and is read
/// back unchanged.
pub proof fn law_written_pod_is_read_back(ty: u32, body: Seq<u8>, rest: Seq<u8>)
    requires
        spec_fits_u32(body),
        spec_valid_body(ty, body),
    ensures
        spec_valid_head(spec_encode(ty, body) + rest),
        spec_head_view(spec_encode(ty, body) + rest) == (PodView { ty, body }),
        spec_pod_rest(spec_encode(ty, body) + rest) == rest,
        spec_valid_seq(spec_encode(ty, body) + rest) == spec_valid_seq(rest),
        spec_valid_pod(spec_encode(ty, body)),
{
    law_decode_encode(ty, body, rest);
    law_decode_encode(ty, body, Seq::empty());
    assert(spec_encode(ty, body) + Seq::<u8>::empty() =~= spec_encode(ty, body));
}

/// Outside an array, a builder appends exactly the encoded pod.
pub proof fn law_builder_writes_pod(v: BuilderView, ty: u32, body: Seq<u8>)
    requires
        !v.array_mode,
        spec_fits_u32(body),
    ensures
        spec_primitive(v, body.len() as u32, ty, body) == (BuilderView {
            bytes: v.bytes + spec_encode(ty, body),
            array_mode: false,
            is_first: false,
        }),
{
    assert(spec_primitive(v, body.len() as u32, ty, body).bytes =~= v.bytes + spec_encode(
        ty,
        body,
    ));
}

/// Pods written one after another form a run of well-formed pods whose
/// length is a multiple of 8.
pub proof fn law_encode_all_valid(pods: Seq<(u32, Seq<u8>)>)
    requires
        forall|i: int|
            0 <= i < pods.len() ==> spec_fits_u32(#[trigger] pods[i].1) && spec_valid_body(
                pods[i].0,
                pods[i].1,
            ),
    ensures
        spec_valid_seq(spec_encode_all(pods)),
        spec_encode_all(pods).len() % 8 == 0,
    decreases pods.len(),
{
    if pods.len() > 0 {
        let tail = pods.subrange(1, pods.len() as int);
        assert forall|i: int| 0 <= i < tail.len() implies spec_fits_u32(#[trigger] tail[i].1)
            && spec_valid_body(tail[i].0, tail[i].1) by {
            assert(tail[i] == pods[i + 1]);
        }
        law_encode_all_valid(tail);
        assert(spec_fits_u32(pods[0].1));
        law_written_pod_is_read_back(pods[0].0, pods[0].1, spec_encode_all(tail));
        law_decode_encode(pods[0].0, pods[0].1, spec_encode_all(tail));
    }
}

/// Closing a struct whose content is a run of padded pods writes exactly a
/// struct pod around that content.
pub proof fn law_close_struct(prefix: Seq<u8>, content: Seq<u8>)
    requires
        content.len() % 8 == 0,
        content.len() <= u32::MAX - 8,
    ensures
        spec_close(
            prefix + spec_u32_bytes(0) + spec_u32_bytes(TYPE_STRUCT) + content,
            prefix.len() as int,
        ) == prefix + spec_encode(TYPE_STRUCT, content),
{
    let s = prefix + spec_u32_bytes(0) + spec_u32_bytes(TYPE_STRUCT) + content;
    lemma_u32_bytes(0);
    lemma_u32_bytes(TYPE_STRUCT);
    assert(spec_pad_to_8(content.len() as u32) == 0);
    assert(spec_zeros(0) =~= Seq::<u8>::empty());
    assert(spec_close(s, prefix.len() as int) =~= prefix + spec_encode(TYPE_STRUCT, content));
}

/// A struct of pods written one after another is a well-formed pod whose
/// fields are those pods.
pub proof fn law_struct_is_read_back(pods: Seq<(u32, Seq<u8>)>)
    requires
        forall|i: int|
            0 <= i < pods.len() ==> spec_fits_u32(#[trigger] pods[i].1) && spec_valid_body(
                pods[i].0,
                pods[i].1,
            ),
        spec_encode_all(pods).len() <= u32::MAX - 8,
    ensures
        spec_valid_pod(spec_encode(TYPE_STRUCT, spec_encode_all(pods))),
        spec_head_view(spec_encode(TYPE_STRUCT, spec_encode_all(pods))) == (PodView {
            ty: TYPE_STRUCT,
            body: spec_encode_all(pods),
        }),
{
    law_encode_all_valid(pods);
    let content = spec_encode_all(pods);
    assert(spec_pad_to_8(content.len() as u32) == 0);
    law_written_pod_is_read_back(TYPE_STRUCT, content, Seq::empty());
    assert(spec_encode(TYPE_STRUCT, content) + Seq::<u8>::empty() =~= spec_encode(
        TYPE_STRUCT,
        content,
    ));
}

/// The `Int` pod of `v` reads back as `v`.
pub proof fn law_int_roundtrip(v: i32)
    ensures
        spec_valid_body(TYPE_INT, spec_u32_bytes(v as u32)),
        spec_le32(spec_u32_bytes(v as u32), 0) as i32 == v,
{
    lemma_u32_bytes(v as u32);
    assert(spec_u32_bytes(v as u32).subrange(0, 4) =~= spec_u32_bytes(v as u32));
    assert(((v as u32) as i32) == v) by (bit_vector);
}

/// The `Int` pod of the bits of `v` reads back as `v` when read unsigned.
pub proof fn law_u32_roundtrip(v: u32)
    ensures
        spec_valid_body(TYPE_INT, spec_u32_bytes(v)),
        spec_valid_body(TYPE_ID, spec_u32_bytes(v)),
        spec_le32(spec_u32_bytes(v), 0) == v,
{
    lemma_u32_bytes(v);
    assert(spec_u32_bytes(v).subrange(0, 4) =~= spec_u32_bytes(v));
}

/// The `Long` pod of `v` reads back as `v`.
pub proof fn law_long_roundtrip(v: i64)
    ensures
        spec_valid_body(TYPE_LONG, spec_u64_bytes(v as u64)),
        spec_le64(spec_u64_bytes(v as u64), 0) as i64 == v,
{
    lemma_u64_bytes(v as u64);
    assert(spec_u64_bytes(v as u64).subrange(0, 8) =~= spec_u64_bytes(v as u64));
    assert(((v as u64) as i64) == v) by (bit_vector);
}

/// The `Bool` pod of `v` reads back as `v`.
pub proof fn law_bool_roundtrip(v: bool)
    ensures
        spec_valid_body(TYPE_BOOL, spec_u32_bytes(if v { 1 } else { 0 })),
        (spec_le32(spec_u32_bytes(if v { 1 } else { 0 }), 0) != 0) == v,
{
    let x: u32 = if v { 1 } else { 0 };
    lemma_u32_bytes(x);
    assert(spec_u32_bytes(x).subrange(0, 4) =~= spec_u32_bytes(x));
}

proof fn lemma_nul_after(s: Seq<u8>, i: int)
    requires
        0 <= i <= s.len(),
        forall|j: int| 0 <= j < s.len() ==> s[j] != 0,
    ensures
        spec_nul_from(s.push(0u8), i) == s.len(),
    decreases s.len() - i,
{
    if i < s.len() {
        lemma_nul_after(s, i + 1);
    }
}

/// The `String` pod of text without NUL bytes reads back as that text.
pub proof fn law_str_roundtrip(s: Seq<u8>)
    requires
        forall|j: int| 0 <= j < s.len() ==> s[j] != 0,
    ensures
        spec_valid_body(TYPE_STRING, s.push(0u8)),
        spec_cstr(s.push(0u8)) == s,
{
    lemma_nul_after(s, 0);
    assert(s.push(0u8).subrange(0, s.len() as int) =~= s);
}

/// The pods a struct reader yields from the fields `s`, one `pop_field` after
/// the other, until the fields run out or the next one does not fit.
pub open spec fn spec_struct_fields(s: Seq<u8>) -> Seq<PodView>
    decreases s.len(),
{
    if s.len() == 0 || !spec_pod_fits(s) {
        Seq::empty()
    } else {
        seq![spec_head_view(s)] + spec_struct_fields(spec_pod_rest(s))
    }
}

/// The child bodies an array reader yields from `s`, one `pop_element` after
/// the other, each `size` bytes long.
pub open spec fn spec_array_children(size: u32, ty: u32, s: Seq<u8>) -> Seq<PodView>
    decreases s.len(),
{
    if s.len() == 0 || size == 0 || size > s.len() {
        Seq::empty()
    } else {
        seq![PodView { ty, body: s.subrange(0, size as int) }] + spec_array_children(
            size,
            ty,
            s.subrange(size as int, s.len() as int),
        )
    }
}

/// The views of pods given by type and body.
pub open spec fn spec_pod_views(pods: Seq<(u32, Seq<u8>)>) -> Seq<PodView> {
    pods.map_values(|p: (u32, Seq<u8>)| PodView { ty: p.0, body: p.1 })
}

/// A struct reader over pods written one after another yields exactly those
/// pods, in order.
pub proof fn law_struct_reader_yields_pods(pods: Seq<(u32, Seq<u8>)>)
    requires
        forall|i: int| 0 <= i < pods.len() ==> spec_fits_u32(#[trigger] pods[i].1),
    ensures
        spec_struct_fields(spec_encode_all(pods)) == spec_pod_views(pods),
    decreases pods.len(),
{
    if pods.len() == 0 {
        assert(spec_pod_views(pods) =~= Seq::<PodView>::empty());
    } else {
        let tail = pods.subrange(1, pods.len() as int);
        assert forall|i: int| 0 <= i < tail.len() implies spec_fits_u32(#[trigger] tail[i].1) by {
            assert(tail[i] == pods[i + 1]);
        }
        law_struct_reader_yields_pods(tail);
        assert(spec_fits_u32(pods[0].1));
        law_decode_encode(pods[0].0, pods[0].1, spec_encode_all(tail));
        let s = spec_encode_all(pods);
        assert(s.len() > 0) by {
            assert(spec_encode(pods[0].0, pods[0].1).len() >= 8) by {
                lemma_u32_bytes(pods[0].1.len() as u32);
                lemma_u32_bytes(pods[0].0);
            }
        }
        assert(spec_pod_views(pods) =~= seq![PodView { ty: pods[0].0, body: pods[0].1 }]
            + spec_pod_views(tail));
    }
}

/// An array reader over child bodies of `size` bytes each, written one after
/// another, yields exactly those bodies as pods of the child type, in order.
pub proof fn law_array_reader_yields_children(size: u32, ty: u32, bodies: Seq<Seq<u8>>)
    requires
        size > 0,
        forall|i: int| 0 <= i < bodies.len() ==> (#[trigger] bodies[i]).len() == size,
    ensures
        spec_array_children(size, ty, bodies.fold_left(Seq::<u8>::empty(), |acc: Seq<u8>, b: Seq<u8>| acc + b))
            == bodies.map_values(|b: Seq<u8>| PodView { ty, body: b }),
    decreases bodies.len(),
{
    let all = bodies.fold_left(Seq::<u8>::empty(), |acc: Seq<u8>, b: Seq<u8>| acc + b);
    if bodies.len() == 0 {
        assert(bodies.map_values(|b: Seq<u8>| PodView { ty, body: b }) =~= Seq::<PodView>::empty());
    } else {
        let tail = bodies.drop_first();
        assert forall|i: int| 0 <= i < tail.len() implies (#[trigger] tail[i]).len() == size by {
            assert(tail[i] == bodies[i + 1]);
        }
        law_array_reader_yields_children(size, ty, tail);
        let rest = tail.fold_left(Seq::<u8>::empty(), |acc: Seq<u8>, b: Seq<u8>| acc + b);
        lemma_concat_front(bodies);
        assert(all == bodies[0] + rest);
        assert(bodies[0].len() == size);
        assert(all.subrange(0, size as int) =~= bodies[0]);
        assert(all.subrange(size as int, all.len() as int) =~= rest);
        assert(bodies.map_values(|b: Seq<u8>| PodView { ty, body: b }) =~= seq![
            PodView { ty, body: bodies[0] },
        ] + tail.map_values(|b: Seq<u8>| PodView { ty, body: b }));
    }
}

/// Byte runs joined one after another: the first, then the others joined.
proof fn lemma_concat_front(bodies: Seq<Seq<u8>>)
    requires
        bodies.len() > 0,
    ensures
        bodies.fold_left(Seq::<u8>::empty(), |acc: Seq<u8>, b: Seq<u8>| acc + b) == bodies[0]
            + bodies.drop_first().fold_left(Seq::<u8>::empty(), |acc: Seq<u8>, b: Seq<u8>| acc + b),
    decreases bodies.len(),
{
    let f = |acc: Seq<u8>, b: Seq<u8>| acc + b;
    if bodies.len() == 1 {
        assert(bodies.drop_first() =~= Seq::<Seq<u8>>::empty());
        assert(bodies.drop_last() =~= Seq::<Seq<u8>>::empty());
        assert(Seq::<u8>::empty() + bodies[0] =~= bodies[0]);
        assert(bodies[0] + Seq::<u8>::empty() =~= bodies[0]);
    } else {
        lemma_concat_front(bodies.drop_last());
        assert(bodies.drop_last().drop_first() =~= bodies.drop_first().drop_last());
        assert(bodies.drop_last()[0] == bodies[0]);
        assert(bodies.drop_first().last() == bodies.last());
        let a = bodies.drop_first().drop_last().fold_left(Seq::<u8>::empty(), f);
        assert(bodies[0] + a + bodies.last() =~= bodies[0] + (a + bodies.last()));
    }
}


} // verus!
