//! Events of the interface.

use vstd::prelude::*;

use crate::pod_v2::deserialize::{PodDeserializer, PodResult};
use crate::protocol::codec::{
    read_dict, read_str, read_u32, read_u64, spec_parse_fields, Field, FieldKind,
};
use crate::protocol::{spec_dict_view, EventDeserialize, PwDictionary};

verus! {
/// What changed in a factory info.
#[derive(Debug, Clone, Copy, PartialEq, Eq, Structural)]
pub struct ChangeMask {
    bits: u64,
}

impl ChangeMask {
    pub const PROPS: u64 = 1;

    /// The raw bits.
    pub closed spec fn spec_bits(self) -> u64 {
        self.bits
    }

    /// The raw bits.
    pub fn bits(&self) -> (r: u64)
        ensures
            r == self.spec_bits(),
    {
        self.bits
    }

    /// The flags with exactly the given bits, known or not.
    pub fn from_bits_retain(bits: u64) -> (r: Self)
        ensures
            r.spec_bits() == bits,
    {
        ChangeMask { bits }
    }

    /// No flag.
    pub fn empty() -> (r: Self)
        ensures
            r.spec_bits() == 0,
    {
        ChangeMask { bits: 0 }
    }

    /// The flags of both.
    pub fn union(self, other: Self) -> (r: Self)
        ensures
            r.spec_bits() == self.spec_bits() | other.spec_bits(),
    {
        ChangeMask { bits: self.bits | other.bits }
    }

    /// Every flag of `other` is set.
    pub fn contains(&self, other: Self) -> (r: bool)
        ensures
            r == (self.spec_bits() & other.spec_bits() == other.spec_bits()),
    {
        self.bits & other.bits == other.bits
    }
}

/// The info of the factory.
#[derive(Debug, Clone)]
pub struct Info {
    pub id: u32,
    pub name: String,
    pub interface: String,
    pub version: u32,
    pub change_mask: ChangeMask,
    pub props: PwDictionary,
}

impl EventDeserialize for Info {
    const OPCODE: u8 = 0;

    open spec fn spec_kinds() -> Seq<FieldKind> {
        seq![FieldKind::Int, FieldKind::Str, FieldKind::Str, FieldKind::Int, FieldKind::Long, FieldKind::Dict]
    }

    open spec fn spec_fields(&self) -> Seq<Field> {
        seq![Field::Int(self.id), Field::Str(self.name@), Field::Str(self.interface@), Field::Int(self.version), Field::Long(self.change_mask.spec_bits()), Field::Dict(spec_dict_view(self.props@))]
    }

    open spec fn spec_resolved(&self, fds: Seq<i32>) -> bool {
        true
    }

    fn deserialize(pod: &mut PodDeserializer, fds: &[i32]) -> (r: PodResult<Self>) {
        proof {
            reveal_with_fuel(spec_parse_fields, 7);
        }
        let mut s = pod.as_struct()?;
        let v0 = read_u32(&mut s)?;
        let v1 = read_str(&mut s)?;
        let v2 = read_str(&mut s)?;
        let v3 = read_u32(&mut s)?;
        let v4 = read_u64(&mut s)?;
        let v5 = read_dict(&mut s)?;
        let r = Info {
            id: v0,
            name: v1,
            interface: v2,
            version: v3,
            change_mask: ChangeMask::from_bits_retain(v4),
            props: v5,
        };
        proof {

            assert(r.spec_fields() =~= seq![Field::Int(r.id), Field::Str(r.name@), Field::Str(r.interface@), Field::Int(r.version), Field::Long(r.change_mask.spec_bits()), Field::Dict(spec_dict_view(r.props@))]);
        }
        Ok(r)
    }
}


/// Reading `Info` takes its fields on the wire in this order: `id`, `name`, `interface`, `version`, `change_mask`, `props`.
pub proof fn law_info_wire_order(x: Info)
    ensures
        x.spec_fields().len() == 6,
        x.spec_fields()[0] == Field::Int(x.id),
        x.spec_fields()[1] == Field::Str(x.name@),
        x.spec_fields()[2] == Field::Str(x.interface@),
        x.spec_fields()[3] == Field::Int(x.version),
        x.spec_fields()[4] == Field::Long(x.change_mask.spec_bits()),
        x.spec_fields()[5] == Field::Dict(spec_dict_view(x.props@)),
{
}

} // verus!
