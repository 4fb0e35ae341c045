//! What the object code generator writes for an object description: one
//! getter per property whose value has a type, named after the property's
//! name with the object's name stripped, reading the property's key. The
//! case conversion of the names and the writing of the code are the
//! generator's own.

use vstd::prelude::*;
use crate::pod_v2::keys::{property_key, spec_property_key, PropertyKey};
use crate::spa_enum::{SpaEnum, SpaRawEnum};
use crate::spa_types::SpaType;

verus! {

/// The bytes of `type`.
pub open spec fn spec_type_word() -> Seq<u8> {
    seq![116u8, 121u8, 112u8, 101u8]
}

/// The bytes of `ty`, the name a getter for `type` gets.
pub open spec fn spec_ty_word() -> Seq<u8> {
    seq![116u8, 121u8]
}

/// `field` with `parent` and the separator after it stripped, if `field`
/// starts with `parent` and has more than a separator after it.
pub open spec fn spec_strip_parent_name(parent: Seq<u8>, field: Seq<u8>) -> Option<Seq<u8>> {
    if parent.len() + 1 < field.len() && field.subrange(0, parent.len() as int) == parent {
        Some(field.subrange(parent.len() + 1int, field.len() as int))
    } else {
        None
    }
}

/// The separator after `parent` in `field`, where `field` starts with
/// `parent`, is one byte: a character of its own.
pub open spec fn spec_separator_ascii(parent: Seq<u8>, field: Seq<u8>) -> bool {
    parent.len() < field.len() && field.subrange(0, parent.len() as int) == parent
        ==> field[parent.len() as int] < 0x80
}

/// The name of the getter of property `field` of object `parent`, before
/// case conversion.
pub open spec fn spec_getter_name(parent: Seq<u8>, field: Seq<u8>) -> Option<Seq<u8>> {
    match spec_strip_parent_name(parent, field) {
        Some(s) => Some(
            if s == spec_type_word() {
                spec_ty_word()
            } else {
                s
            },
        ),
        None => None,
    }
}

/// One getter of an object's generated code.
#[derive(Debug)]
pub struct GetterPlan {
    /// Its name, before case conversion.
    pub name: Vec<u8>,
    /// The key it reads, by the key enumeration of the object's type.
    pub key: PropertyKey,
    /// The type of the value it reads.
    pub parent: SpaType,
}

/// The abstract content of a [`GetterPlan`].
pub ghost struct GetterPlanView {
    pub name: Seq<u8>,
    pub key: PropertyKey,
    pub parent: SpaType,
}

impl GetterPlan {
    pub open spec fn view(&self) -> GetterPlanView {
        GetterPlanView { name: self.name@, key: self.key, parent: self.parent }
    }
}

/// The properties of an object description: key, raw type of the value and
/// full name.
pub open spec fn spec_infos_view(p: Seq<(u32, u32, Vec<u8>)>) -> Seq<(u32, u32, Seq<u8>)> {
    p.map_values(|e: (u32, u32, Vec<u8>)| (e.0, e.1, e.2@))
}

/// The abstract contents of getters.
pub open spec fn spec_plans_view(p: Seq<GetterPlan>) -> Seq<GetterPlanView> {
    p.map_values(|g: GetterPlan| g.view())
}

/// Every property's value type is known, and every name that starts with
/// the object's name has a one-byte separator after it.
pub open spec fn spec_describable(entry_name: Seq<u8>, props: Seq<(u32, u32, Seq<u8>)>) -> bool {
    forall|i: int|
        0 <= i < props.len() ==> SpaType::spec_from_raw((#[trigger] props[i]).1) is Some
            && spec_separator_ascii(entry_name, props[i].2)
}

/// The getters of object `entry_name` of type `object_ty` with properties
/// `props`, in order: one for each property whose value type is not `None`
/// and whose name strips.
pub open spec fn spec_getter_plan(
    entry_name: Seq<u8>,
    object_ty: SpaType,
    props: Seq<(u32, u32, Seq<u8>)>,
) -> Seq<GetterPlanView>
    decreases props.len(),
{
    if props.len() == 0 {
        Seq::empty()
    } else {
        let pre = spec_getter_plan(entry_name, object_ty, props.drop_last());
        let p = props.last();
        match SpaType::spec_from_raw(p.1) {
            Some(t) => if t == SpaType::NoneType {
                pre
            } else {
                match spec_getter_name(entry_name, p.2) {
                    Some(n) => pre.push(
                        GetterPlanView {
                            name: n,
                            key: spec_property_key(SpaEnum::Value(object_ty), p.0),
                            parent: t,
                        },
                    ),
                    None => pre,
                }
            },
            None => pre,
        }
    }
}

/// `field` starts with `parent`.
fn starts_with(parent: &[u8], field: &[u8]) -> (r: bool)
    ensures
        r == (parent@.len() <= field@.len() && field@.subrange(0, parent@.len() as int)
            == parent@),
{
    if parent.len() > field.len() {
        return false;
    }
    let mut i: usize = 0;
    while i < parent.len()
        invariant
            parent@.len() <= field@.len(),
            i <= parent@.len(),
            forall|j: int| 0 <= j < i ==> field@[j] == parent@[j],
        decreases parent.len() - i,
    {
        if field[i] != parent[i] {
            assert(field@.subrange(0, parent@.len() as int)[i as int] != parent@[i as int]);
            return false;
        }
        i = i + 1;
    }
    assert(field@.subrange(0, parent@.len() as int) =~= parent@);
    true
}

/// The name of the getter of property `field` of object `parent`, before
/// case conversion.
pub fn getter_name(parent: &[u8], field: &[u8]) -> (r: Option<Vec<u8>>)
    ensures
        match spec_getter_name(parent@, field@) {
            Some(n) => r matches Some(v) && v@ == n,
            None => r is None,
        },
{
    if parent.len() >= field.len() || field.len() - parent.len() < 2 || !starts_with(parent, field) {
        return None;
    }
    let start = parent.len() + 1;
    let mut out: Vec<u8> = Vec::new();
    let mut i: usize = start;
    while i < field.len()
        invariant
            start <= i <= field@.len(),
            out@ == field@.subrange(start as int, i as int),
        decreases field.len() - i,
    {
        out.push(field[i]);
        assert(out@ =~= field@.subrange(start as int, i + 1));
        i = i + 1;
    }
    if out.len() == 4 && out[0] == 116u8 && out[1] == 121u8 && out[2] == 112u8 && out[3] == 101u8 {
        assert(out@ =~= spec_type_word());
        let ty: Vec<u8> = vec![116u8, 121u8];
        assert(ty@ =~= spec_ty_word());
        return Some(ty);
    }
    proof {
        if out@ == spec_type_word() {
            assert(out@[0] == 116u8 && out@[1] == 121u8 && out@[2] == 112u8 && out@[3] == 101u8);
        }
    }
    Some(out)
}

/// The getters the generator writes for object `entry_name` of raw type
/// `object_ty` with properties `props` (key, raw value type, full name), in
/// order: one for each property whose value type is not `None` and whose
/// name is the object's name, a separator and more.
pub fn getter_plan(entry_name: &[u8], object_ty: u32, props: &Vec<(u32, u32, Vec<u8>)>) -> (r: Vec<
    GetterPlan,
>)
    requires
        SpaType::spec_from_raw(object_ty) is Some,
        spec_describable(entry_name@, spec_infos_view(props@)),
    ensures
        spec_plans_view(r@) == spec_getter_plan(
            entry_name@,
            SpaType::spec_from_raw(object_ty)->0,
            spec_infos_view(props@),
        ),
{
    let obj = match SpaType::from_raw_value(object_ty) {
        Some(t) => t,
        None => vstd::pervasive::unreached(),
    };
    let ghost ps = spec_infos_view(props@);
    let mut out: Vec<GetterPlan> = Vec::new();
    let mut i: usize = 0;
    assert(spec_plans_view(out@) =~= Seq::<GetterPlanView>::empty());
    while i < props.len()
        invariant
            i <= props@.len(),
            ps == spec_infos_view(props@),
            ps.len() == props@.len(),
            spec_describable(entry_name@, ps),
            spec_plans_view(out@) == spec_getter_plan(entry_name@, obj, ps.take(i as int)),
        decreases props.len() - i,
    {
        let ghost prev = out@;
        let p = &props[i];
        proof {
            assert(ps.take(i + 1).drop_last() =~= ps.take(i as int));
            assert(ps.take(i + 1).last() == ps[i as int]);
            assert(ps[i as int] == (p.0, p.1, p.2@));
        }
        match SpaType::from_raw_value(p.1) {
            Some(SpaType::NoneType) => {},
            Some(t) => {
                match getter_name(entry_name, p.2.as_slice()) {
                    Some(n) => {
                        let key = property_key(SpaEnum::Value(obj), p.0);
                        out.push(GetterPlan { name: n, key, parent: t });
                        proof {
                            assert(spec_plans_view(out@) =~= spec_plans_view(prev).push(
                                out@[out@.len() - 1].view(),
                            ));
                        }
                    },
                    None => {},
                }
            },
            None => {},
        }
        i = i + 1;
    }
    assert(ps.take(props@.len() as int) =~= ps);
    out
}

} // verus!
