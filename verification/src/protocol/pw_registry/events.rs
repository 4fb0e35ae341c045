//! Events of the interface.

use vstd::prelude::*;

use crate::pod_v2::deserialize::{PodDeserializer, PodResult};
use crate::protocol::codec::{read_dict, read_str, read_u32, spec_parse_fields, Field, FieldKind};
use crate::protocol::{spec_dict_view, EventDeserialize, PwDictionary};

verus! {
/// A global object appeared.
#[derive(Debug, Clone)]
pub struct Global {
    pub id: u32,
    pub permissions: u32,
    pub interface: String,
    pub version: u32,
    pub properties: PwDictionary,
}

impl EventDeserialize for Global {
    const OPCODE: u8 = 0;

    open spec fn spec_kinds() -> Seq<FieldKind> {
        seq![FieldKind::Int, FieldKind::Int, FieldKind::Str, FieldKind::Int, FieldKind::Dict]
    }

    open spec fn spec_fields(&self) -> Seq<Field> {
        seq![Field::Int(self.id), Field::Int(self.permissions), Field::Str(self.interface@), Field::Int(self.version), Field::Dict(spec_dict_view(self.properties@))]
    }

    open spec fn spec_resolved(&self, fds: Seq<i32>) -> bool {
        true
    }

    fn deserialize(pod: &mut PodDeserializer, fds: &[i32]) -> (r: PodResult<Self>) {
        proof {
            reveal_with_fuel(spec_parse_fields, 6);
        }
        let mut s = pod.as_struct()?;
        let v0 = read_u32(&mut s)?;
        let v1 = read_u32(&mut s)?;
        let v2 = read_str(&mut s)?;
        let v3 = read_u32(&mut s)?;
        let v4 = read_dict(&mut s)?;
        let r = Global {
            id: v0,
            permissions: v1,
            interface: v2,
            version: v3,
            properties: v4,
        };
        proof {

            assert(r.spec_fields() =~= seq![Field::Int(r.id), Field::Int(r.permissions), Field::Str(r.interface@), Field::Int(r.version), Field::Dict(spec_dict_view(r.properties@))]);
        }
        Ok(r)
    }
}

/// The global object `id` was removed.
#[derive(Debug, Clone)]
pub struct GlobalRemove {
    pub id: u32,
}

impl EventDeserialize for GlobalRemove {
    const OPCODE: u8 = 1;

    open spec fn spec_kinds() -> Seq<FieldKind> {
        seq![FieldKind::Int]
    }

    open spec fn spec_fields(&self) -> Seq<Field> {
        seq![Field::Int(self.id)]
    }

    open spec fn spec_resolved(&self, fds: Seq<i32>) -> bool {
        true
    }

    fn deserialize(pod: &mut PodDeserializer, fds: &[i32]) -> (r: PodResult<Self>) {
        proof {
            reveal_with_fuel(spec_parse_fields, 2);
        }
        let mut s = pod.as_struct()?;
        let v0 = read_u32(&mut s)?;
        let r = GlobalRemove {
            id: v0,
        };
        proof {

            assert(r.spec_fields() =~= seq![Field::Int(r.id)]);
        }
        Ok(r)
    }
}


/// Reading `Global` takes its fields on the wire in this order: `id`, `permissions`, `interface`, `version`, `properties`.
pub proof fn law_global_wire_order(x: Global)
    ensures
        x.spec_fields().len() == 5,
        x.spec_fields()[0] == Field::Int(x.id),
        x.spec_fields()[1] == Field::Int(x.permissions),
        x.spec_fields()[2] == Field::Str(x.interface@),
        x.spec_fields()[3] == Field::Int(x.version),
        x.spec_fields()[4] == Field::Dict(spec_dict_view(x.properties@)),
{
}

/// Reading `GlobalRemove` takes its fields on the wire in this order: `id`.
pub proof fn law_global_remove_wire_order(x: GlobalRemove)
    ensures
        x.spec_fields().len() == 1,
        x.spec_fields()[0] == Field::Int(x.id),
{
}

} // verus!
