//! Events of the interface.

use vstd::prelude::*;
use crate::spa_types::{PwNodeState, SpaParamType};
use crate::spa_enum::{
    SpaEnum, SpaRawEnumI32, spec_spa_enum_as_i32, spec_spa_enum_as_raw, spec_spa_enum_from_raw,
};
use crate::pod_v2::Id;
use crate::pod_v2::deserialize::{OwnedPod, PodDeserializer, PodResult};
use crate::protocol::codec::{
    read_dict, read_i32, read_id, read_opt_str, read_params, read_pod, read_u32, read_u64,
    spec_parse_fields, Field, FieldKind,
};
use crate::protocol::{
    spec_dict_view, spec_opt_view, spec_params_canonical, spec_params_view, EventDeserialize, ParamInfo, PwDictionary,
};

verus! {
/// What changed in a node info.
#[derive(Debug, Clone, Copy, PartialEq, Eq, Structural)]
pub struct ChangeMask {
    bits: u64,
}

impl ChangeMask {
    pub const INPUT_PORTS: u64 = 1;

    pub const OUTPUT_PORTS: u64 = 2;

    pub const STATE: u64 = 4;

    pub const PROPS: u64 = 8;

    pub const PARAMS: u64 = 16;

    /// The raw bits.
    pub closed spec fn spec_bits(self) -> u64 {
        self.bits
    }

    /// The raw bits.
    pub fn bits(&self) -> (r: u64)
        ensures
            r == self.spec_bits(),
    {
        self.bits
    }

    /// The flags with exactly the given bits, known or not.
    pub fn from_bits_retain(bits: u64) -> (r: Self)
        ensures
            r.spec_bits() == bits,
    {
        ChangeMask { bits }
    }

    /// No flag.
    pub fn empty() -> (r: Self)
        ensures
            r.spec_bits() == 0,
    {
        ChangeMask { bits: 0 }
    }

    /// The flags of both.
    pub fn union(self, other: Self) -> (r: Self)
        ensures
            r.spec_bits() == self.spec_bits() | other.spec_bits(),
    {
        ChangeMask { bits: self.bits | other.bits }
    }

    /// Every flag of `other` is set.
    pub fn contains(&self, other: Self) -> (r: bool)
        ensures
            r == (self.spec_bits() & other.spec_bits() == other.spec_bits()),
    {
        self.bits & other.bits == other.bits
    }
}

/// The info of the node.
#[derive(Debug, Clone)]
pub struct Info {
    pub id: u32,
    pub max_input_ports: u32,
    pub max_output_ports: u32,
    pub change_mask: ChangeMask,
    pub n_input_ports: u32,
    pub n_output_ports: u32,
    pub state: SpaEnum<PwNodeState, i32>,
    pub error: Option<String>,
    pub props: PwDictionary,
    pub params: Vec<ParamInfo>,
}

impl EventDeserialize for Info {
    const OPCODE: u8 = 0;

    open spec fn spec_kinds() -> Seq<FieldKind> {
        seq![FieldKind::Int, FieldKind::Int, FieldKind::Int, FieldKind::Long, FieldKind::Int, FieldKind::Int, FieldKind::Id, FieldKind::OptStr, FieldKind::Dict, FieldKind::Params]
    }

    open spec fn spec_fields(&self) -> Seq<Field> {
        seq![Field::Int(self.id), Field::Int(self.max_input_ports), Field::Int(self.max_output_ports), Field::Long(self.change_mask.spec_bits()), Field::Int(self.n_input_ports), Field::Int(self.n_output_ports), Field::Id(spec_spa_enum_as_i32(self.state) as u32), Field::OptStr(spec_opt_view(self.error)), Field::Dict(spec_dict_view(self.props@)), Field::Params(spec_params_view(self.params@))]
    }

    open spec fn spec_resolved(&self, fds: Seq<i32>) -> bool {
        spec_params_canonical(self.params@)
    }

    #[verifier::rlimit(60)]
    fn deserialize(pod: &mut PodDeserializer, fds: &[i32]) -> (r: PodResult<Self>) {
        proof {
            reveal_with_fuel(spec_parse_fields, 11);
        }
        let mut s = pod.as_struct()?;
        let v0 = read_u32(&mut s)?;
        let v1 = read_u32(&mut s)?;
        let v2 = read_u32(&mut s)?;
        let v3 = read_u64(&mut s)?;
        let v4 = read_u32(&mut s)?;
        let v5 = read_u32(&mut s)?;
        let v6 = read_id(&mut s)?;
        let v7 = read_opt_str(&mut s)?;
        let v8 = read_dict(&mut s)?;
        let v9 = read_params(&mut s)?;
        let r = Info {
            id: v0,
            max_input_ports: v1,
            max_output_ports: v2,
            change_mask: ChangeMask::from_bits_retain(v3),
            n_input_ports: v4,
            n_output_ports: v5,
            state: SpaEnum::<PwNodeState, i32>::from_i32(v6 as i32),
            error: v7,
            props: v8,
            params: v9,
        };
        proof {
            <PwNodeState as SpaRawEnumI32>::lemma_raw_inverse(v6 as i32); assert(((v6 as i32) as u32) == v6) by (bit_vector);
            assert(r.spec_fields() =~= seq![Field::Int(r.id), Field::Int(r.max_input_ports), Field::Int(r.max_output_ports), Field::Long(r.change_mask.spec_bits()), Field::Int(r.n_input_ports), Field::Int(r.n_output_ports), Field::Id(spec_spa_enum_as_i32(r.state) as u32), Field::OptStr(spec_opt_view(r.error)), Field::Dict(spec_dict_view(r.props@)), Field::Params(spec_params_view(r.params@))]);
        }
        Ok(r)
    }
}

/// A parameter, sent in reply to a request for parameters.
#[derive(Debug, Clone)]
pub struct Param {
    pub seq: i32,
    pub id: SpaEnum<SpaParamType>,
    pub index: u32,
    pub next: u32,
    pub params: OwnedPod,
}

impl EventDeserialize for Param {
    const OPCODE: u8 = 1;

    open spec fn spec_kinds() -> Seq<FieldKind> {
        seq![FieldKind::Int, FieldKind::Id, FieldKind::Int, FieldKind::Int, FieldKind::Pod]
    }

    open spec fn spec_fields(&self) -> Seq<Field> {
        seq![Field::Int(self.seq as u32), Field::Id(spec_spa_enum_as_raw(self.id)), Field::Int(self.index), Field::Int(self.next), Field::Pod(self.params.view())]
    }

    open spec fn spec_resolved(&self, fds: Seq<i32>) -> bool {
        self.id == spec_spa_enum_from_raw::<SpaParamType>(spec_spa_enum_as_raw(self.id))
    }

    fn deserialize(pod: &mut PodDeserializer, fds: &[i32]) -> (r: PodResult<Self>) {
        proof {
            reveal_with_fuel(spec_parse_fields, 6);
        }
        let mut s = pod.as_struct()?;
        let v0 = read_i32(&mut s)?;
        let v1 = read_id(&mut s)?;
        let v2 = read_u32(&mut s)?;
        let v3 = read_u32(&mut s)?;
        let v4 = read_pod(&mut s)?;
        let r = Param {
            seq: v0,
            id: SpaEnum::<SpaParamType>::from_raw(v1),
            index: v2,
            next: v3,
            params: v4,
        };
        proof {
            crate::spa_enum::law_spa_enum_raw_roundtrip::<SpaParamType>(v1);
            assert(r.spec_fields() =~= seq![Field::Int(r.seq as u32), Field::Id(spec_spa_enum_as_raw(r.id)), Field::Int(r.index), Field::Int(r.next), Field::Pod(r.params.view())]);
        }
        Ok(r)
    }
}


/// Reading `Info` takes its fields on the wire in this order: `id`, `max_input_ports`, `max_output_ports`, `change_mask`, `n_input_ports`, `n_output_ports`, `state`, `error`, `props`, `params`.
pub proof fn law_info_wire_order(x: Info)
    ensures
        x.spec_fields().len() == 10,
        x.spec_fields()[0] == Field::Int(x.id),
        x.spec_fields()[1] == Field::Int(x.max_input_ports),
        x.spec_fields()[2] == Field::Int(x.max_output_ports),
        x.spec_fields()[3] == Field::Long(x.change_mask.spec_bits()),
        x.spec_fields()[4] == Field::Int(x.n_input_ports),
        x.spec_fields()[5] == Field::Int(x.n_output_ports),
        x.spec_fields()[6] == Field::Id(spec_spa_enum_as_i32(x.state) as u32),
        x.spec_fields()[7] == Field::OptStr(spec_opt_view(x.error)),
        x.spec_fields()[8] == Field::Dict(spec_dict_view(x.props@)),
        x.spec_fields()[9] == Field::Params(spec_params_view(x.params@)),
{
}

/// Reading `Param` takes its fields on the wire in this order: `seq`, `id`, `index`, `next`, `params`.
pub proof fn law_param_wire_order(x: Param)
    ensures
        x.spec_fields().len() == 5,
        x.spec_fields()[0] == Field::Int(x.seq as u32),
        x.spec_fields()[1] == Field::Id(spec_spa_enum_as_raw(x.id)),
        x.spec_fields()[2] == Field::Int(x.index),
        x.spec_fields()[3] == Field::Int(x.next),
        x.spec_fields()[4] == Field::Pod(x.params.view()),
{
}

} // verus!
