//! A structured dump of a pod tree: one line per value, container opening
//! and container closing, each with its nesting depth. Rendering the lines as
//! text is left to the caller.

use vstd::prelude::*;
use crate::bytes::{pad_to_8, read_u32, spec_le32, spec_le64};
use crate::spa_enum::SpaRawEnum;
use crate::spa_types::{SpaChoiceType, SpaFormat, SpaFraction, SpaRectangle, SpaType};
use crate::pod_v2::format::{
    spec_pod_body, spec_pod_fits, spec_pod_rest, spec_pod_type, spec_valid_body, spec_valid_pod,
    TYPE_ARRAY,
    TYPE_BITMAP, TYPE_BOOL, TYPE_BYTES, TYPE_CHOICE, TYPE_DOUBLE, TYPE_FD, TYPE_FLOAT,
    TYPE_FRACTION, TYPE_ID, TYPE_INT, TYPE_LONG, TYPE_NONE, TYPE_OBJECT, TYPE_RECTANGLE,
    TYPE_STRING, TYPE_STRUCT, check_head, pod_fits,
};
use crate::pod_v2::deserialize::spec_cstr;
use super::deserialize::{spec_container_ok, spec_known_type, PodDeserializer, PodDeserializerKind};

verus! {

/// The raw type of format objects, whose keys are shown as [`SpaFormat`]s.
pub const OBJECT_FORMAT_RAW: u32 = 262147;

/// What precedes a value on its line: nothing, or the key of the object
/// property it is the value of.
#[derive(Debug, Clone, Copy, PartialEq, Eq, Structural)]
pub enum DbgKey {
    NoKey,
    Format(SpaFormat),
    Key(u32),
}

/// What a line shows.
pub enum DbgItem<'a> {
    NoneType,
    Bool(bool),
    Id(u32),
    Int(i32),
    Long(i64),
    /// The bits of a `Float`.
    Float(u32),
    /// The bits of a `Double`.
    Double(u64),
    Rectangle(SpaRectangle),
    Fraction(SpaFraction),
    Bitmap(&'a [u8]),
    ArrayOpen,
    StructOpen,
    ObjectOpen(SpaType),
    ChoiceOpen(SpaChoiceType),
    Fd(i64),
    Bytes(&'a [u8]),
    String(&'a [u8]),
    Unknown(SpaType),
    /// The end of an array or a choice.
    CloseBracket,
    /// The end of a struct or an object.
    CloseBrace,
}

/// One line of the dump.
pub struct DbgLine<'a> {
    pub nest: usize,
    pub key: DbgKey,
    pub item: DbgItem<'a>,
}

/// The abstract content of a [`DbgItem`].
pub ghost enum DbgValue {
    NoneType,
    Bool(bool),
    Id(u32),
    Int(i32),
    Long(i64),
    Float(u32),
    Double(u64),
    Rectangle(SpaRectangle),
    Fraction(SpaFraction),
    Bitmap(Seq<u8>),
    ArrayOpen,
    StructOpen,
    ObjectOpen(SpaType),
    ChoiceOpen(SpaChoiceType),
    Fd(i64),
    Bytes(Seq<u8>),
    String(Seq<u8>),
    Unknown(SpaType),
    CloseBracket,
    CloseBrace,
}

/// The abstract content of a [`DbgLine`].
pub ghost struct DbgLineView {
    pub nest: nat,
    pub key: DbgKey,
    pub item: DbgValue,
}

impl<'a> DbgItem<'a> {
    pub open spec fn view(&self) -> DbgValue {
        match *self {
            DbgItem::NoneType => DbgValue::NoneType,
            DbgItem::Bool(b) => DbgValue::Bool(b),
            DbgItem::Id(x) => DbgValue::Id(x),
            DbgItem::Int(x) => DbgValue::Int(x),
            DbgItem::Long(x) => DbgValue::Long(x),
            DbgItem::Float(x) => DbgValue::Float(x),
            DbgItem::Double(x) => DbgValue::Double(x),
            DbgItem::Rectangle(x) => DbgValue::Rectangle(x),
            DbgItem::Fraction(x) => DbgValue::Fraction(x),
            DbgItem::Bitmap(s) => DbgValue::Bitmap(s@),
            DbgItem::ArrayOpen => DbgValue::ArrayOpen,
            DbgItem::StructOpen => DbgValue::StructOpen,
            DbgItem::ObjectOpen(t) => DbgValue::ObjectOpen(t),
            DbgItem::ChoiceOpen(t) => DbgValue::ChoiceOpen(t),
            DbgItem::Fd(x) => DbgValue::Fd(x),
            DbgItem::Bytes(s) => DbgValue::Bytes(s@),
            DbgItem::String(s) => DbgValue::String(s@),
            DbgItem::Unknown(t) => DbgValue::Unknown(t),
            DbgItem::CloseBracket => DbgValue::CloseBracket,
            DbgItem::CloseBrace => DbgValue::CloseBrace,
        }
    }
}

impl<'a> DbgLine<'a> {
    pub open spec fn view(&self) -> DbgLineView {
        DbgLineView { nest: self.nest as nat, key: self.key, item: self.item.view() }
    }
}

/// The abstract content of a run of lines.
pub open spec fn spec_lines<'a>(v: Seq<DbgLine<'a>>) -> Seq<DbgLineView> {
    v.map_values(|l: DbgLine<'a>| l.view())
}

/// A line.
pub open spec fn spec_line(nest: nat, key: DbgKey, item: DbgValue) -> DbgLineView {
    DbgLineView { nest, key, item }
}

/// The key shown for a property with key `k` of an object of raw type
/// `object_ty`.
pub open spec fn spec_prop_key(object_ty: u32, k: u32) -> DbgKey {
    if object_ty == OBJECT_FORMAT_RAW {
        DbgKey::Format(<SpaFormat as SpaRawEnum>::spec_from_raw(k).unwrap())
    } else {
        DbgKey::Key(k)
    }
}

/// The type named by a raw value.
pub open spec fn spec_type_of(raw: u32) -> SpaType {
    <SpaType as SpaRawEnum>::spec_from_raw(raw).unwrap()
}

/// A pod of raw type `ty` and body `body` can be dumped: every type and
/// property key met is known, and no array or choice repeats an empty child
/// forever.
pub open spec fn spec_printable(ty: u32, body: Seq<u8>) -> bool
    decreases body.len(), 3nat,
{
    &&& spec_known_type(ty)
    &&& spec_container_ok(ty, body)
    &&& if ty == TYPE_ARRAY {
        body.len() >= 8 && spec_printable_chunks(
            spec_le32(body, 0),
            spec_le32(body, 4),
            body.subrange(8, body.len() as int),
        )
    } else if ty == TYPE_STRUCT {
        spec_printable_seq(body)
    } else if ty == TYPE_OBJECT {
        body.len() >= 8 && spec_printable_props(
            spec_le32(body, 0),
            body.subrange(8, body.len() as int),
        )
    } else if ty == TYPE_CHOICE {
        body.len() >= 16 && spec_printable_chunks(
            spec_le32(body, 8),
            spec_le32(body, 12),
            body.subrange(16, body.len() as int),
        )
    } else {
        true
    }
}

/// A run of pods that can be dumped.
pub open spec fn spec_printable_seq(s: Seq<u8>) -> bool
    decreases s.len(), 2nat,
{
    s.len() == 0 || (spec_pod_fits(s) && spec_printable(spec_pod_type(s), spec_pod_body(s))
        && spec_printable_seq(spec_pod_rest(s)))
}

/// A run of properties of an object of raw type `object_ty` that can be
/// dumped.
pub open spec fn spec_printable_props(object_ty: u32, s: Seq<u8>) -> bool
    decreases s.len(), 2nat,
{
    s.len() == 0 || (s.len() >= 8 && spec_pod_fits(s.subrange(8, s.len() as int)) && (
    object_ty == OBJECT_FORMAT_RAW ==> <SpaFormat as SpaRawEnum>::spec_from_raw(
        spec_le32(s, 0),
    ) is Some) && spec_printable(
        spec_pod_type(s.subrange(8, s.len() as int)),
        spec_pod_body(s.subrange(8, s.len() as int)),
    ) && spec_printable_props(object_ty, spec_pod_rest(s.subrange(8, s.len() as int))))
}

/// A run of array or choice children that can be dumped.
pub open spec fn spec_printable_chunks(size: u32, ty: u32, s: Seq<u8>) -> bool
    decreases s.len(), 4nat,
{
    s.len() == 0 || (0 < size <= s.len() && spec_printable(ty, s.subrange(0, size as int))
        && spec_printable_chunks(size, ty, s.subrange(size as int, s.len() as int)))
}

/// The lines of the pod of raw type `ty` and body `body` at depth `nest`,
/// the first one after `key`.
pub open spec fn spec_dbg_pod(nest: nat, key: DbgKey, ty: u32, body: Seq<u8>) -> Seq<
    DbgLineView,
>
    decreases body.len(), 3nat,
{
    if ty == TYPE_NONE {
        seq![spec_line(nest, key, DbgValue::NoneType)]
    } else if ty == TYPE_BOOL {
        seq![spec_line(nest, key, DbgValue::Bool(spec_le32(body, 0) != 0))]
    } else if ty == TYPE_ID {
        seq![spec_line(nest, key, DbgValue::Id(spec_le32(body, 0)))]
    } else if ty == TYPE_INT {
        seq![spec_line(nest, key, DbgValue::Int(spec_le32(body, 0) as i32))]
    } else if ty == TYPE_LONG {
        seq![spec_line(nest, key, DbgValue::Long(spec_le64(body, 0) as i64))]
    } else if ty == TYPE_FLOAT {
        seq![spec_line(nest, key, DbgValue::Float(spec_le32(body, 0)))]
    } else if ty == TYPE_DOUBLE {
        seq![spec_line(nest, key, DbgValue::Double(spec_le64(body, 0)))]
    } else if ty == TYPE_STRING {
        seq![spec_line(nest, key, DbgValue::String(spec_cstr(body)))]
    } else if ty == TYPE_BYTES {
        seq![spec_line(nest, key, DbgValue::Bytes(body))]
    } else if ty == TYPE_RECTANGLE {
        seq![
            spec_line(
                nest,
                key,
                DbgValue::Rectangle(
                    SpaRectangle { width: spec_le32(body, 0), height: spec_le32(body, 4) },
                ),
            ),
        ]
    } else if ty == TYPE_FRACTION {
        seq![
            spec_line(
                nest,
                key,
                DbgValue::Fraction(
                    SpaFraction { num: spec_le32(body, 0), denom: spec_le32(body, 4) },
                ),
            ),
        ]
    } else if ty == TYPE_BITMAP {
        seq![spec_line(nest, key, DbgValue::Bitmap(body))]
    } else if ty == TYPE_FD {
        seq![spec_line(nest, key, DbgValue::Fd(spec_le64(body, 0) as i64))]
    } else if ty == TYPE_ARRAY && body.len() >= 8 {
        seq![spec_line(nest, key, DbgValue::ArrayOpen)] + spec_dbg_chunks(
            nest + 1,
            spec_le32(body, 0),
            spec_le32(body, 4),
            body.subrange(8, body.len() as int),
        ) + seq![spec_line(nest, DbgKey::NoKey, DbgValue::CloseBracket)]
    } else if ty == TYPE_STRUCT {
        seq![spec_line(nest, key, DbgValue::StructOpen)] + spec_dbg_seq(nest + 1, body) + seq![
            spec_line(nest, DbgKey::NoKey, DbgValue::CloseBrace),
        ]
    } else if ty == TYPE_OBJECT && body.len() >= 8 {
        seq![spec_line(nest, key, DbgValue::ObjectOpen(spec_type_of(spec_le32(body, 0))))]
            + spec_dbg_props(nest + 1, spec_le32(body, 0), body.subrange(8, body.len() as int))
            + seq![spec_line(nest, DbgKey::NoKey, DbgValue::CloseBrace)]
    } else if ty == TYPE_CHOICE && body.len() >= 16 {
        seq![
            spec_line(
                nest,
                key,
                DbgValue::ChoiceOpen(
                    <SpaChoiceType as SpaRawEnum>::spec_from_raw(spec_le32(body, 0)).unwrap(),
                ),
            ),
        ] + spec_dbg_chunks(
            nest + 1,
            spec_le32(body, 8),
            spec_le32(body, 12),
            body.subrange(16, body.len() as int),
        ) + seq![spec_line(nest, DbgKey::NoKey, DbgValue::CloseBracket)]
    } else {
        seq![spec_line(nest, key, DbgValue::Unknown(spec_type_of(ty)))]
    }
}

/// The lines of a run of pods.
pub open spec fn spec_dbg_seq(nest: nat, s: Seq<u8>) -> Seq<DbgLineView>
    decreases s.len(), 2nat,
{
    if s.len() == 0 || !spec_pod_fits(s) {
        Seq::empty()
    } else {
        spec_dbg_pod(nest, DbgKey::NoKey, spec_pod_type(s), spec_pod_body(s)) + spec_dbg_seq(
            nest,
            spec_pod_rest(s),
        )
    }
}

/// The lines of a run of properties of an object of raw type `object_ty`.
pub open spec fn spec_dbg_props(nest: nat, object_ty: u32, s: Seq<u8>) -> Seq<DbgLineView>
    decreases s.len(), 2nat,
{
    if s.len() < 8 || !spec_pod_fits(s.subrange(8, s.len() as int)) {
        Seq::empty()
    } else {
        let p = s.subrange(8, s.len() as int);
        spec_dbg_pod(
            nest,
            spec_prop_key(object_ty, spec_le32(s, 0)),
            spec_pod_type(p),
            spec_pod_body(p),
        ) + spec_dbg_props(nest, object_ty, spec_pod_rest(p))
    }
}

/// The lines of a run of array or choice children.
pub open spec fn spec_dbg_chunks(nest: nat, size: u32, ty: u32, s: Seq<u8>) -> Seq<
    DbgLineView,
>
    decreases s.len(), 4nat,
{
    if s.len() == 0 || size == 0 || size > s.len() {
        Seq::empty()
    } else {
        spec_dbg_pod(nest, DbgKey::NoKey, ty, s.subrange(0, size as int)) + spec_dbg_chunks(
            nest,
            size,
            ty,
            s.subrange(size as int, s.len() as int),
        )
    }
}

proof fn lemma_printable_known(ty: u32, body: Seq<u8>)
    requires
        spec_printable(ty, body),
    ensures
        spec_known_type(ty),
        spec_container_ok(ty, body),
{
}

proof fn lemma_seq_head(s: Seq<u8>)
    requires
        spec_printable_seq(s),
        s.len() > 0,
    ensures
        spec_pod_fits(s),
        spec_printable(spec_pod_type(s), spec_pod_body(s)),
        spec_printable_seq(spec_pod_rest(s)),
        spec_known_type(spec_pod_type(s)),
{
    lemma_printable_known(spec_pod_type(s), spec_pod_body(s));
}

proof fn lemma_props_head(object_ty: u32, s: Seq<u8>)
    requires
        spec_printable_props(object_ty, s),
        s.len() > 0,
    ensures
        s.len() >= 8,
        spec_pod_fits(s.subrange(8, s.len() as int)),
        object_ty == OBJECT_FORMAT_RAW ==> <SpaFormat as SpaRawEnum>::spec_from_raw(
            spec_le32(s, 0),
        ) is Some,
        spec_printable(
            spec_pod_type(s.subrange(8, s.len() as int)),
            spec_pod_body(s.subrange(8, s.len() as int)),
        ),
        spec_known_type(spec_pod_type(s.subrange(8, s.len() as int))),
        spec_printable_props(object_ty, spec_pod_rest(s.subrange(8, s.len() as int))),
{
    lemma_printable_known(
        spec_pod_type(s.subrange(8, s.len() as int)),
        spec_pod_body(s.subrange(8, s.len() as int)),
    );
}

proof fn lemma_chunks_head(size: u32, ty: u32, s: Seq<u8>)
    requires
        spec_printable_chunks(size, ty, s),
        s.len() > 0,
    ensures
        0 < size <= s.len(),
        spec_printable(ty, s.subrange(0, size as int)),
        spec_printable_chunks(size, ty, s.subrange(size as int, s.len() as int)),
{
}

fn push_line<'a>(out: &mut Vec<DbgLine<'a>>, line: DbgLine<'a>)
    ensures
        spec_lines(final(out)@) == spec_lines(old(out)@).push(line.view()),
{
    let ghost l = line.view();
    out.push(line);
    assert(spec_lines(out@) =~= spec_lines(old(out)@).push(l));
}

/// The lines of `pod` at depth `nest`, the first one after `key`.
fn dbg_pod<'a>(nest: usize, key: DbgKey, pod: PodDeserializer<'a>, out: &mut Vec<DbgLine<'a>>)
    requires
        nest + pod.view().body.len() < usize::MAX,
        spec_printable(pod.view().ty, pod.view().body),
        spec_valid_body(pod.view().ty, pod.view().body),
    ensures
        spec_lines(final(out)@) == spec_lines(old(out)@) + spec_dbg_pod(
            nest as nat,
            key,
            pod.view().ty,
            pod.view().body,
        ),
    decreases pod.view().body.len(),
{
    let ghost v = pod.view();
    let ghost start = spec_lines(out@);
    match pod.kind() {
        PodDeserializerKind::NoneType => {
            push_line(out, DbgLine { nest, key, item: DbgItem::NoneType });
        },
        PodDeserializerKind::Bool(b) => {
            push_line(out, DbgLine { nest, key, item: DbgItem::Bool(b) });
        },
        PodDeserializerKind::Id(x) => {
            push_line(out, DbgLine { nest, key, item: DbgItem::Id(x) });
        },
        PodDeserializerKind::Int(x) => {
            push_line(out, DbgLine { nest, key, item: DbgItem::Int(x) });
        },
        PodDeserializerKind::Long(x) => {
            push_line(out, DbgLine { nest, key, item: DbgItem::Long(x) });
        },
        PodDeserializerKind::Float(x) => {
            push_line(out, DbgLine { nest, key, item: DbgItem::Float(x) });
        },
        PodDeserializerKind::Double(x) => {
            push_line(out, DbgLine { nest, key, item: DbgItem::Double(x) });
        },
        PodDeserializerKind::Rectangle(x) => {
            push_line(out, DbgLine { nest, key, item: DbgItem::Rectangle(x) });
        },
        PodDeserializerKind::Fraction(x) => {
            push_line(out, DbgLine { nest, key, item: DbgItem::Fraction(x) });
        },
        PodDeserializerKind::Bitmap(s) => {
            push_line(out, DbgLine { nest, key, item: DbgItem::Bitmap(s) });
        },
        PodDeserializerKind::Array(mut a) => {
            push_line(out, DbgLine { nest, key, item: DbgItem::ArrayOpen });
            let ghost body = v.body.subrange(8, v.body.len() as int);
            let ghost size = spec_le32(v.body, 0);
            let ghost ty = spec_le32(v.body, 4);
            let ghost head = start.push(spec_line(nest as nat, key, DbgValue::ArrayOpen));
            loop
                invariant
                    v == pod.view(),
                    a.view().child_size == size,
                    a.view().child_ty == ty,
                    a.view().body.len() <= body.len(),
                    body.len() < v.body.len(),
                    nest + v.body.len() < usize::MAX,
                    spec_printable_chunks(size, ty, a.view().body),
                    spec_lines(out@) + spec_dbg_chunks((nest + 1) as nat, size, ty, a.view().body)
                        == head + spec_dbg_chunks((nest + 1) as nat, size, ty, body),
                ensures
                    spec_lines(out@) == head + spec_dbg_chunks((nest + 1) as nat, size, ty, body),
                decreases a.view().body.len(),
            {
                let ghost before = a.view().body;
                match a.pop_element() {
                    Some(child) => {
                        proof {
                            lemma_chunks_head(size, ty, before);
                        }
                        let ghost mid = spec_lines(out@);
                        dbg_pod(nest + 1, DbgKey::NoKey, child, out);
                        assert(spec_dbg_chunks((nest + 1) as nat, size, ty, before) == spec_dbg_pod(
                            (nest + 1) as nat,
                            DbgKey::NoKey,
                            ty,
                            before.subrange(0, size as int),
                        ) + spec_dbg_chunks((nest + 1) as nat, size, ty, a.view().body));
                        assert(mid + spec_dbg_chunks((nest + 1) as nat, size, ty, before)
                            =~= spec_lines(out@) + spec_dbg_chunks(
                            (nest + 1) as nat,
                            size,
                            ty,
                            a.view().body,
                        ));
                    },
                    None => {
                        assert(spec_lines(out@) =~= spec_lines(out@) + spec_dbg_chunks(
                            (nest + 1) as nat,
                            size,
                            ty,
                            a.view().body,
                        ));
                        break ;
                    },
                }
            }
            push_line(out, DbgLine { nest, key: DbgKey::NoKey, item: DbgItem::CloseBracket });
            assert(spec_lines(out@) =~= start + spec_dbg_pod(nest as nat, key, v.ty, v.body));
        },
        PodDeserializerKind::Struct(mut s) => {
            push_line(out, DbgLine { nest, key, item: DbgItem::StructOpen });
            let ghost head = start.push(spec_line(nest as nat, key, DbgValue::StructOpen));
            loop
                invariant
                    v == pod.view(),
                    s.view().len() <= v.body.len(),
                    nest + v.body.len() < usize::MAX,
                    spec_printable_seq(s.view()),
                    spec_lines(out@) + spec_dbg_seq((nest + 1) as nat, s.view()) == head
                        + spec_dbg_seq((nest + 1) as nat, v.body),
                ensures
                    spec_lines(out@) == head + spec_dbg_seq((nest + 1) as nat, v.body),
                decreases s.view().len(),
            {
                let ghost before = s.view();
                proof {
                    if before.len() > 0 {
                        lemma_seq_head(before);
                    }
                }
                match s.pop_field() {
                    Some(field) => {
                        let ghost mid = spec_lines(out@);
                        dbg_pod(nest + 1, DbgKey::NoKey, field, out);
                        assert(mid + spec_dbg_seq((nest + 1) as nat, before) =~= spec_lines(out@)
                            + spec_dbg_seq((nest + 1) as nat, s.view()));
                    },
                    None => {
                        assert(spec_lines(out@) =~= spec_lines(out@) + spec_dbg_seq(
                            (nest + 1) as nat,
                            s.view(),
                        ));
                        break ;
                    },
                }
            }
            push_line(out, DbgLine { nest, key: DbgKey::NoKey, item: DbgItem::CloseBrace });
            assert(spec_lines(out@) =~= start + spec_dbg_pod(nest as nat, key, v.ty, v.body));
        },
        PodDeserializerKind::Object(mut o) => {
            let object_ty = o.object_ty();
            proof {
                <SpaType as SpaRawEnum>::lemma_raw_roundtrip(object_ty);
                <SpaType as SpaRawEnum>::lemma_raw_roundtrip(SpaType::ObjectFormat);
            }
            push_line(out, DbgLine { nest, key, item: DbgItem::ObjectOpen(object_ty) });
            let ghost raw = spec_le32(v.body, 0);
            let ghost body = v.body.subrange(8, v.body.len() as int);
            let ghost head = start.push(
                spec_line(nest as nat, key, DbgValue::ObjectOpen(spec_type_of(raw))),
            );
            let is_format = object_ty == SpaType::ObjectFormat;
            loop
                invariant
                    v == pod.view(),
                    o.view().object_ty == raw,
                    is_format == (raw == OBJECT_FORMAT_RAW),
                    o.view().body.len() <= body.len(),
                    body.len() < v.body.len(),
                    nest + v.body.len() < usize::MAX,
                    spec_printable_props(raw, o.view().body),
                    spec_lines(out@) + spec_dbg_props((nest + 1) as nat, raw, o.view().body)
                        == head + spec_dbg_props((nest + 1) as nat, raw, body),
                ensures
                    spec_lines(out@) == head + spec_dbg_props((nest + 1) as nat, raw, body),
                decreases o.view().body.len(),
            {
                let ghost before = o.view().body;
                proof {
                    if before.len() > 0 {
                        lemma_props_head(raw, before);
                    }
                }
                match o.pop_property() {
                    Some(prop) => {
                        let k = if is_format {
                            DbgKey::Format(SpaFormat::from_raw(prop.key).unwrap())
                        } else {
                            DbgKey::Key(prop.key)
                        };
                        let ghost mid = spec_lines(out@);
                        dbg_pod(nest + 1, k, prop.pod, out);
                        assert(mid + spec_dbg_props((nest + 1) as nat, raw, before)
                            =~= spec_lines(out@) + spec_dbg_props(
                            (nest + 1) as nat,
                            raw,
                            o.view().body,
                        ));
                    },
                    None => {
                        assert(spec_lines(out@) =~= spec_lines(out@) + spec_dbg_props(
                            (nest + 1) as nat,
                            raw,
                            o.view().body,
                        ));
                        break ;
                    },
                }
            }
            push_line(out, DbgLine { nest, key: DbgKey::NoKey, item: DbgItem::CloseBrace });
            assert(spec_lines(out@) =~= start + spec_dbg_pod(nest as nat, key, v.ty, v.body));
        },
        PodDeserializerKind::Fd(x) => {
            push_line(out, DbgLine { nest, key, item: DbgItem::Fd(x) });
        },
        PodDeserializerKind::Choice(mut c) => {
            let choice_ty = c.choice_ty();
            proof {
                <SpaChoiceType as SpaRawEnum>::lemma_raw_roundtrip(choice_ty);
            }
            push_line(out, DbgLine { nest, key, item: DbgItem::ChoiceOpen(choice_ty) });
            let ghost body = v.body.subrange(16, v.body.len() as int);
            let ghost size = spec_le32(v.body, 8);
            let ghost ty = spec_le32(v.body, 12);
            let ghost head = start.push(
                spec_line(
                    nest as nat,
                    key,
                    DbgValue::ChoiceOpen(
                        <SpaChoiceType as SpaRawEnum>::spec_from_raw(spec_le32(v.body, 0)).unwrap(),
                    ),
                ),
            );
            loop
                invariant
                    v == pod.view(),
                    c.view().child_size == size,
                    c.view().child_ty == ty,
                    c.view().body.len() <= body.len(),
                    body.len() < v.body.len(),
                    nest + v.body.len() < usize::MAX,
                    spec_printable_chunks(size, ty, c.view().body),
                    spec_lines(out@) + spec_dbg_chunks((nest + 1) as nat, size, ty, c.view().body)
                        == head + spec_dbg_chunks((nest + 1) as nat, size, ty, body),
                ensures
                    spec_lines(out@) == head + spec_dbg_chunks((nest + 1) as nat, size, ty, body),
                decreases c.view().body.len(),
            {
                let ghost before = c.view().body;
                match c.pop_element() {
                    Some(child) => {
                        proof {
                            lemma_chunks_head(size, ty, before);
                        }
                        let ghost mid = spec_lines(out@);
                        dbg_pod(nest + 1, DbgKey::NoKey, child, out);
                        assert(spec_dbg_chunks((nest + 1) as nat, size, ty, before) == spec_dbg_pod(
                            (nest + 1) as nat,
                            DbgKey::NoKey,
                            ty,
                            before.subrange(0, size as int),
                        ) + spec_dbg_chunks((nest + 1) as nat, size, ty, c.view().body));
                        assert(mid + spec_dbg_chunks((nest + 1) as nat, size, ty, before)
                            =~= spec_lines(out@) + spec_dbg_chunks(
                            (nest + 1) as nat,
                            size,
                            ty,
                            c.view().body,
                        ));
                    },
                    None => {
                        assert(spec_lines(out@) =~= spec_lines(out@) + spec_dbg_chunks(
                            (nest + 1) as nat,
                            size,
                            ty,
                            c.view().body,
                        ));
                        break ;
                    },
                }
            }
            push_line(out, DbgLine { nest, key: DbgKey::NoKey, item: DbgItem::CloseBracket });
            assert(spec_lines(out@) =~= start + spec_dbg_pod(nest as nat, key, v.ty, v.body));
        },
        PodDeserializerKind::Bytes(s) => {
            push_line(out, DbgLine { nest, key, item: DbgItem::Bytes(s) });
        },
        PodDeserializerKind::String(s) => {
            push_line(out, DbgLine { nest, key, item: DbgItem::String(s) });
        },
        PodDeserializerKind::Unknown(_p) => {
            let ty = pod.ty();
            proof {
                <SpaType as SpaRawEnum>::lemma_raw_roundtrip(ty);
            }
            push_line(out, DbgLine { nest, key, item: DbgItem::Unknown(ty) });
        },
    }
}

/// The dump of the pod that `bytes` holds, line by line.
pub fn dbg_print<'a>(bytes: &'a [u8]) -> (r: Vec<DbgLine<'a>>)
    requires
        spec_valid_pod(bytes@),
        spec_printable(spec_pod_type(bytes@), spec_pod_body(bytes@)),
    ensures
        spec_lines(r@) == spec_dbg_pod(
            0,
            DbgKey::NoKey,
            spec_pod_type(bytes@),
            spec_pod_body(bytes@),
        ),
{
    let (pod, _rest) = PodDeserializer::new(bytes);
    let mut out: Vec<DbgLine<'a>> = Vec::new();
    assert(spec_lines(out@) =~= Seq::<DbgLineView>::empty());
    dbg_pod(0, DbgKey::NoKey, pod, &mut out);
    assert(spec_lines(out@) =~= spec_dbg_pod(
        0,
        DbgKey::NoKey,
        spec_pod_type(bytes@),
        spec_pod_body(bytes@),
    ));
    out
}


fn known_type(raw: u32) -> (r: bool)
    ensures
        r == spec_known_type(raw),
{
    <SpaType as SpaRawEnum>::from_raw_value(raw).is_some()
}

fn known_choice(raw: u32) -> (r: bool)
    ensures
        r == super::deserialize::spec_known_choice(raw),
{
    <SpaChoiceType as SpaRawEnum>::from_raw_value(raw).is_some()
}

/// Decide whether a pod of raw type `ty` and body `body` can be dumped.
pub fn check_printable(ty: u32, body: &[u8]) -> (r: bool)
    ensures
        r == spec_printable(ty, body@),
    decreases body@.len(), 3nat,
{
    let n = body.len();
    if !known_type(ty) {
        return false;
    }
    if ty == TYPE_ARRAY {
        if n < 8 {
            return false;
        }
        let size = read_u32(body, 0);
        let child = read_u32(body, 4);
        known_type(child) && check_printable_chunks(size, child, &body[8..n])
    } else if ty == TYPE_STRUCT {
        check_printable_seq(body)
    } else if ty == TYPE_OBJECT {
        if n < 8 {
            return false;
        }
        let object_ty = read_u32(body, 0);
        known_type(object_ty) && check_printable_props(object_ty, &body[8..n])
    } else if ty == TYPE_CHOICE {
        if n < 16 {
            return false;
        }
        let choice = read_u32(body, 0);
        let size = read_u32(body, 8);
        let child = read_u32(body, 12);
        known_choice(choice) && known_type(child) && check_printable_chunks(
            size,
            child,
            &body[16..n],
        )
    } else {
        true
    }
}

/// Decide whether a run of pods can be dumped.
pub fn check_printable_seq(s: &[u8]) -> (r: bool)
    ensures
        r == spec_printable_seq(s@),
    decreases s@.len(), 2nat,
{
    let n = s.len();
    if n == 0 {
        return true;
    }
    if !pod_fits(s) {
        return false;
    }
    let size = read_u32(s, 0);
    let ty = read_u32(s, 4);
    let end: usize = 8 + size as usize;
    let next: usize = end + pad_to_8(size) as usize;
    check_printable(ty, &s[8..end]) && check_printable_seq(&s[next..n])
}

/// Decide whether a run of properties of an object of raw type `object_ty`
/// can be dumped.
pub fn check_printable_props(object_ty: u32, s: &[u8]) -> (r: bool)
    ensures
        r == spec_printable_props(object_ty, s@),
    decreases s@.len(), 2nat,
{
    let n = s.len();
    if n == 0 {
        return true;
    }
    if n < 8 {
        return false;
    }
    let p = &s[8..n];
    if !pod_fits(p) {
        return false;
    }
    if object_ty == OBJECT_FORMAT_RAW {
        let key = read_u32(s, 0);
        if <SpaFormat as SpaRawEnum>::from_raw_value(key).is_none() {
            return false;
        }
    }
    let m = p.len();
    let size = read_u32(p, 0);
    let ty = read_u32(p, 4);
    let end: usize = 8 + size as usize;
    let next: usize = end + pad_to_8(size) as usize;
    check_printable(ty, &p[8..end]) && check_printable_props(object_ty, &p[next..m])
}

/// Decide whether a run of array or choice children can be dumped.
pub fn check_printable_chunks(size: u32, ty: u32, s: &[u8]) -> (r: bool)
    ensures
        r == spec_printable_chunks(size, ty, s@),
    decreases s@.len(), 4nat,
{
    let n = s.len();
    if n == 0 {
        return true;
    }
    if size == 0 || size as u64 > n as u64 {
        return false;
    }
    let k = size as usize;
    check_printable(ty, &s[0..k]) && check_printable_chunks(size, ty, &s[k..n])
}

/// Decide whether `bytes` is exactly one pod that [`dbg_print`] can dump.
pub fn check_dump(bytes: &[u8]) -> (r: bool)
    ensures
        r == (spec_valid_pod(bytes@) && spec_printable(
            spec_pod_type(bytes@),
            spec_pod_body(bytes@),
        )),
{
    if !check_head(bytes) {
        return false;
    }
    let n = bytes.len();
    let size = read_u32(bytes, 0);
    let ty = read_u32(bytes, 4);
    let end: usize = 8 + size as usize;
    let padded: u64 = size as u64 + pad_to_8(size) as u64;
    8 + padded == n as u64 && check_printable(ty, &bytes[8..end])
}

} // verus!
