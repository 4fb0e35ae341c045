//! Events of the interface.

use vstd::prelude::*;
use crate::spa_types::PwLinkState;
use crate::spa_enum::{SpaEnum, SpaRawEnumI32, spec_spa_enum_as_i32};

use crate::pod_v2::deserialize::{OwnedPod, PodDeserializer, PodResult};
use crate::protocol::codec::{
    read_dict, read_i32, read_opt_str, read_pod, read_u32, read_u64, spec_parse_fields, Field,
    FieldKind,
};
use crate::protocol::{spec_dict_view, spec_opt_view, EventDeserialize, PwDictionary};

verus! {
/// What changed in a link info.
#[derive(Debug, Clone, Copy, PartialEq, Eq, Structural)]
pub struct ChangeMask {
    bits: u64,
}

impl ChangeMask {
    pub const STATE: u64 = 1;

    pub const FORMAT: u64 = 2;

    pub const PROPS: u64 = 8;

    /// The raw bits.
    pub closed spec fn spec_bits(self) -> u64 {
        self.bits
    }

    /// The raw bits.
    pub fn bits(&self) -> (r: u64)
        ensures
            r == self.spec_bits(),
    {
        self.bits
    }

    /// The flags with exactly the given bits, known or not.
    pub fn from_bits_retain(bits: u64) -> (r: Self)
        ensures
            r.spec_bits() == bits,
    {
        ChangeMask { bits }
    }

    /// No flag.
    pub fn empty() -> (r: Self)
        ensures
            r.spec_bits() == 0,
    {
        ChangeMask { bits: 0 }
    }

    /// The flags of both.
    pub fn union(self, other: Self) -> (r: Self)
        ensures
            r.spec_bits() == self.spec_bits() | other.spec_bits(),
    {
        ChangeMask { bits: self.bits | other.bits }
    }

    /// Every flag of `other` is set.
    pub fn contains(&self, other: Self) -> (r: bool)
        ensures
            r == (self.spec_bits() & other.spec_bits() == other.spec_bits()),
    {
        self.bits & other.bits == other.bits
    }
}

/// The info of the link.
#[derive(Debug, Clone)]
pub struct Info {
    pub id: u32,
    pub output_node_id: u32,
    pub output_port_id: u32,
    pub input_node_id: u32,
    pub input_port_id: u32,
    pub change_mask: ChangeMask,
    pub state: SpaEnum<PwLinkState, i32>,
    pub error: Option<String>,
    pub format: OwnedPod,
    pub props: PwDictionary,
}

impl EventDeserialize for Info {
    const OPCODE: u8 = 0;

    open spec fn spec_kinds() -> Seq<FieldKind> {
        seq![FieldKind::Int, FieldKind::Int, FieldKind::Int, FieldKind::Int, FieldKind::Int, FieldKind::Long, FieldKind::Int, FieldKind::OptStr, FieldKind::Pod, FieldKind::Dict]
    }

    open spec fn spec_fields(&self) -> Seq<Field> {
        seq![Field::Int(self.id), Field::Int(self.output_node_id), Field::Int(self.output_port_id), Field::Int(self.input_node_id), Field::Int(self.input_port_id), Field::Long(self.change_mask.spec_bits()), Field::Int(spec_spa_enum_as_i32(self.state) as u32), Field::OptStr(spec_opt_view(self.error)), Field::Pod(self.format.view()), Field::Dict(spec_dict_view(self.props@))]
    }

    open spec fn spec_resolved(&self, fds: Seq<i32>) -> bool {
        true
    }

    #[verifier::rlimit(60)]
    fn deserialize(pod: &mut PodDeserializer, fds: &[i32]) -> (r: PodResult<Self>) {
        proof {
            reveal_with_fuel(spec_parse_fields, 11);
        }
        let mut s = pod.as_struct()?;
        let v0 = read_u32(&mut s)?;
        let v1 = read_u32(&mut s)?;
        let v2 = read_u32(&mut s)?;
        let v3 = read_u32(&mut s)?;
        let v4 = read_u32(&mut s)?;
        let v5 = read_u64(&mut s)?;
        let v6 = read_i32(&mut s)?;
        let v7 = read_opt_str(&mut s)?;
        let v8 = read_pod(&mut s)?;
        let v9 = read_dict(&mut s)?;
        let r = Info {
            id: v0,
            output_node_id: v1,
            output_port_id: v2,
            input_node_id: v3,
            input_port_id: v4,
            change_mask: ChangeMask::from_bits_retain(v5),
            state: SpaEnum::<PwLinkState, i32>::from_i32(v6),
            error: v7,
            format: v8,
            props: v9,
        };
        proof {
            <PwLinkState as SpaRawEnumI32>::lemma_raw_inverse(v6);
            assert(r.spec_fields() =~= seq![Field::Int(r.id), Field::Int(r.output_node_id), Field::Int(r.output_port_id), Field::Int(r.input_node_id), Field::Int(r.input_port_id), Field::Long(r.change_mask.spec_bits()), Field::Int(spec_spa_enum_as_i32(r.state) as u32), Field::OptStr(spec_opt_view(r.error)), Field::Pod(r.format.view()), Field::Dict(spec_dict_view(r.props@))]);
        }
        Ok(r)
    }
}


/// Reading `Info` takes its fields on the wire in this order: `id`, `output_node_id`, `output_port_id`, `input_node_id`, `input_port_id`, `change_mask`, `state`, `error`, `format`, `props`.
pub proof fn law_info_wire_order(x: Info)
    ensures
        x.spec_fields().len() == 10,
        x.spec_fields()[0] == Field::Int(x.id),
        x.spec_fields()[1] == Field::Int(x.output_node_id),
        x.spec_fields()[2] == Field::Int(x.output_port_id),
        x.spec_fields()[3] == Field::Int(x.input_node_id),
        x.spec_fields()[4] == Field::Int(x.input_port_id),
        x.spec_fields()[5] == Field::Long(x.change_mask.spec_bits()),
        x.spec_fields()[6] == Field::Int(spec_spa_enum_as_i32(x.state) as u32),
        x.spec_fields()[7] == Field::OptStr(spec_opt_view(x.error)),
        x.spec_fields()[8] == Field::Pod(x.format.view()),
        x.spec_fields()[9] == Field::Dict(spec_dict_view(x.props@)),
{
}

} // verus!
