//! Events of the interface.

use vstd::prelude::*;
use crate::spa_types::SpaParamType;
use crate::spa_enum::{SpaEnum, spec_spa_enum_as_raw, spec_spa_enum_from_raw};
use crate::pod_v2::Id;
use crate::pod_v2::deserialize::{OwnedPod, PodDeserializer, PodResult};
use crate::protocol::codec::{
    read_dict, read_i32, read_id, read_params, read_pod, read_u32, read_u64, spec_parse_fields,
    Field, FieldKind,
};
use crate::protocol::{
    spec_dict_view, spec_params_canonical, spec_params_view, EventDeserialize, ParamInfo,
    PwDictionary,
};

verus! {
/// What changed in a device info.
#[derive(Debug, Clone, Copy, PartialEq, Eq, Structural)]
pub struct ChangeMask {
    bits: u64,
}

impl ChangeMask {
    pub const PROPS: u64 = 1;

    pub const PARAMS: u64 = 2;

    /// The raw bits.
    pub closed spec fn spec_bits(self) -> u64 {
        self.bits
    }

    /// The raw bits.
    pub fn bits(&self) -> (r: u64)
        ensures
            r == self.spec_bits(),
    {
        self.bits
    }

    /// The flags with exactly the given bits, known or not.
    pub fn from_bits_retain(bits: u64) -> (r: Self)
        ensures
            r.spec_bits() == bits,
    {
        ChangeMask { bits }
    }

    /// No flag.
    pub fn empty() -> (r: Self)
        ensures
            r.spec_bits() == 0,
    {
        ChangeMask { bits: 0 }
    }

    /// The flags of both.
    pub fn union(self, other: Self) -> (r: Self)
        ensures
            r.spec_bits() == self.spec_bits() | other.spec_bits(),
    {
        ChangeMask { bits: self.bits | other.bits }
    }

    /// Every flag of `other` is set.
    pub fn contains(&self, other: Self) -> (r: bool)
        ensures
            r == (self.spec_bits() & other.spec_bits() == other.spec_bits()),
    {
        self.bits & other.bits == other.bits
    }
}

/// The info of the device.
#[derive(Debug, Clone)]
pub struct Info {
    pub id: u32,
    pub change_mask: ChangeMask,
    pub props: PwDictionary,
    pub params: Vec<ParamInfo>,
}

impl EventDeserialize for Info {
    const OPCODE: u8 = 0;

    open spec fn spec_kinds() -> Seq<FieldKind> {
        seq![FieldKind::Int, FieldKind::Long, FieldKind::Dict, FieldKind::Params]
    }

    open spec fn spec_fields(&self) -> Seq<Field> {
        seq![Field::Int(self.id), Field::Long(self.change_mask.spec_bits()), Field::Dict(spec_dict_view(self.props@)), Field::Params(spec_params_view(self.params@))]
    }

    open spec fn spec_resolved(&self, fds: Seq<i32>) -> bool {
        spec_params_canonical(self.params@)
    }

    fn deserialize(pod: &mut PodDeserializer, fds: &[i32]) -> (r: PodResult<Self>) {
        proof {
            reveal_with_fuel(spec_parse_fields, 5);
        }
        let mut s = pod.as_struct()?;
        let v0 = read_u32(&mut s)?;
        let v1 = read_u64(&mut s)?;
        let v2 = read_dict(&mut s)?;
        let v3 = read_params(&mut s)?;
        let r = Info {
            id: v0,
            change_mask: ChangeMask::from_bits_retain(v1),
            props: v2,
            params: v3,
        };
        proof {

            assert(r.spec_fields() =~= seq![Field::Int(r.id), Field::Long(r.change_mask.spec_bits()), Field::Dict(spec_dict_view(r.props@)), Field::Params(spec_params_view(r.params@))]);
        }
        Ok(r)
    }
}

/// A parameter, sent in reply to a request for parameters.
#[derive(Debug, Clone)]
pub struct Param {
    pub seq: i32,
    pub id: SpaEnum<SpaParamType>,
    pub index: u32,
    pub next: u32,
    pub params: OwnedPod,
}

impl EventDeserialize for Param {
    const OPCODE: u8 = 1;

    open spec fn spec_kinds() -> Seq<FieldKind> {
        seq![FieldKind::Int, FieldKind::Id, FieldKind::Int, FieldKind::Int, FieldKind::Pod]
    }

    open spec fn spec_fields(&self) -> Seq<Field> {
        seq![Field::Int(self.seq as u32), Field::Id(spec_spa_enum_as_raw(self.id)), Field::Int(self.index), Field::Int(self.next), Field::Pod(self.params.view())]
    }

    open spec fn spec_resolved(&self, fds: Seq<i32>) -> bool {
        self.id == spec_spa_enum_from_raw::<SpaParamType>(spec_spa_enum_as_raw(self.id))
    }

    fn deserialize(pod: &mut PodDeserializer, fds: &[i32]) -> (r: PodResult<Self>) {
        proof {
            reveal_with_fuel(spec_parse_fields, 6);
        }
        let mut s = pod.as_struct()?;
        let v0 = read_i32(&mut s)?;
        let v1 = read_id(&mut s)?;
        let v2 = read_u32(&mut s)?;
        let v3 = read_u32(&mut s)?;
        let v4 = read_pod(&mut s)?;
        let r = Param {
            seq: v0,
            id: SpaEnum::<SpaParamType>::from_raw(v1),
            index: v2,
            next: v3,
            params: v4,
        };
        proof {
            crate::spa_enum::law_spa_enum_raw_roundtrip::<SpaParamType>(v1);
            assert(r.spec_fields() =~= seq![Field::Int(r.seq as u32), Field::Id(spec_spa_enum_as_raw(r.id)), Field::Int(r.index), Field::Int(r.next), Field::Pod(r.params.view())]);
        }
        Ok(r)
    }
}


/// Reading `Info` takes its fields on the wire in this order: `id`, `change_mask`, `props`, `params`.
pub proof fn law_info_wire_order(x: Info)
    ensures
        x.spec_fields().len() == 4,
        x.spec_fields()[0] == Field::Int(x.id),
        x.spec_fields()[1] == Field::Long(x.change_mask.spec_bits()),
        x.spec_fields()[2] == Field::Dict(spec_dict_view(x.props@)),
        x.spec_fields()[3] == Field::Params(spec_params_view(x.params@)),
{
}

/// Reading `Param` takes its fields on the wire in this order: `seq`, `id`, `index`, `next`, `params`.
pub proof fn law_param_wire_order(x: Param)
    ensures
        x.spec_fields().len() == 5,
        x.spec_fields()[0] == Field::Int(x.seq as u32),
        x.spec_fields()[1] == Field::Id(spec_spa_enum_as_raw(x.id)),
        x.spec_fields()[2] == Field::Int(x.index),
        x.spec_fields()[3] == Field::Int(x.next),
        x.spec_fields()[4] == Field::Pod(x.params.view()),
{
}

} // verus!
