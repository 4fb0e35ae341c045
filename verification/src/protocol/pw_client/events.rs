//! Events of the interface.

use vstd::prelude::*;

use crate::pod_v2::deserialize::{PodDeserializer, PodResult};
use crate::protocol::codec::{
    read_dict, read_i32, read_u32, read_u64, spec_parse_fields, Field, FieldKind,
};
use crate::protocol::{spec_dict_view, EventDeserialize, PwDictionary};

use crate::protocol::pw_client::{spec_perms_view, Permission, PermissionFlags};
use crate::protocol::codec::{spec_parse_perms, spec_read_field, spec_read_perms, spec_then};
use crate::pod_v2::deserialize::{DeserializeError, PodStructDeserializer};
use crate::spa_types::SpaType;

verus! {
/// What changed in a client info.
#[derive(Debug, Clone, Copy, PartialEq, Eq, Structural)]
pub struct ChangeMask {
    bits: u64,
}

impl ChangeMask {
    pub const PROPS: u64 = 1;

    /// The raw bits.
    pub closed spec fn spec_bits(self) -> u64 {
        self.bits
    }

    /// The raw bits.
    pub fn bits(&self) -> (r: u64)
        ensures
            r == self.spec_bits(),
    {
        self.bits
    }

    /// The flags with exactly the given bits, known or not.
    pub fn from_bits_retain(bits: u64) -> (r: Self)
        ensures
            r.spec_bits() == bits,
    {
        ChangeMask { bits }
    }

    /// No flag.
    pub fn empty() -> (r: Self)
        ensures
            r.spec_bits() == 0,
    {
        ChangeMask { bits: 0 }
    }

    /// The flags of both.
    pub fn union(self, other: Self) -> (r: Self)
        ensures
            r.spec_bits() == self.spec_bits() | other.spec_bits(),
    {
        ChangeMask { bits: self.bits | other.bits }
    }

    /// Every flag of `other` is set.
    pub fn contains(&self, other: Self) -> (r: bool)
        ensures
            r == (self.spec_bits() & other.spec_bits() == other.spec_bits()),
    {
        self.bits & other.bits == other.bits
    }
}

/// Read permissions from a `Struct` pod: their number, then each id and
/// permission bits; those with a negative id are left out.
fn parse_permissions(deserializer: &mut PodDeserializer) -> (r: PodResult<Vec<Permission>>)
    requires
        old(deserializer).valid(),
    ensures
        match (if old(deserializer).view().ty != crate::pod_v2::format::TYPE_STRUCT {
            Err(crate::pod_v2::deserialize::spec_unexpected(
                SpaType::Struct,
                old(deserializer).view().ty,
            ))
        } else {
            spec_parse_perms(old(deserializer).view().body)
        }) {
            Ok((p, _)) => r matches Ok(x) && spec_perms_view(x@) == p,
            Err(e) => r == Err::<Vec<Permission>, DeserializeError>(e),
        },
{
    let mut pod = deserializer.as_struct()?;
    let len = read_u32(&mut pod)?;
    let ghost s0 = pod.view();
    let mut list: Vec<Permission> = Vec::new();
    let mut i: u32 = 0;
    assert(spec_perms_view(list@) =~= Seq::<(u32, u32)>::empty());
    assert(spec_then(spec_perms_view(list@), spec_read_perms(s0, len as int)) == spec_read_perms(
        s0,
        len as int,
    )) by {
        match spec_read_perms(s0, len as int) {
            Ok((t, rest)) => {
                assert(spec_perms_view(list@) + t =~= t);
            },
            Err(_) => {},
        }
    }
    while i < len
        invariant
            i <= len,
            spec_parse_perms(old(deserializer).view().body) == spec_read_perms(s0, len as int),
            old(deserializer).view().ty == crate::pod_v2::format::TYPE_STRUCT,
            spec_read_perms(s0, len as int) == spec_then(
                spec_perms_view(list@),
                spec_read_perms(pod.view(), len - i),
            ),
        decreases len - i,
    {
        let id = read_i32(&mut pod)?;
        let permissions = read_u32(&mut pod)?;
        let ghost prev = spec_perms_view(list@);
        let ghost item: Seq<(u32, u32)> = if id >= 0 {
            seq![(id as u32, permissions)]
        } else {
            Seq::empty()
        };
        proof {
            let next = spec_read_perms(pod.view(), len - i - 1);
            assert((id as u32) as i32 == id) by (bit_vector);
            assert(spec_then(prev, spec_then(item, next)) == spec_then(prev + item, next)) by {
                match next {
                    Ok((t, rest)) => {
                        assert(prev + (item + t) =~= (prev + item) + t);
                    },
                    Err(_) => {},
                }
            }
        }
        if id >= 0 {
            let ghost before = list@;
            list.push(Permission { id: id as u32, permissions: PermissionFlags::from_bits_retain(permissions) });
            proof {
                assert(spec_perms_view(list@) =~= spec_perms_view(before) + item);
            }
        } else {
            assert(spec_perms_view(list@) =~= prev + item);
        }
        i = i + 1;
    }
    proof {
        assert(spec_perms_view(list@) + Seq::<(u32, u32)>::empty() =~= spec_perms_view(list@));
    }
    Ok(list)
}

/// Read a `Struct` field holding permissions.
fn read_perms(pod: &mut PodStructDeserializer) -> (r: PodResult<Vec<Permission>>)
    ensures
        match spec_read_field(FieldKind::Perms, old(pod).view()) {
            Ok((f, rest)) => r matches Ok(x) && f == Field::Perms(spec_perms_view(x@))
                && final(pod).view() == rest,
            Err(e) => r == Err::<Vec<Permission>, DeserializeError>(e),
        },
{
    let mut field = pod.pop_field()?;
    parse_permissions(&mut field)
}

/// The info of the client.
#[derive(Debug, Clone)]
pub struct Info {
    pub id: u32,
    pub change_mask: ChangeMask,
    pub properties: PwDictionary,
}

impl EventDeserialize for Info {
    const OPCODE: u8 = 0;

    open spec fn spec_kinds() -> Seq<FieldKind> {
        seq![FieldKind::Int, FieldKind::Long, FieldKind::Dict]
    }

    open spec fn spec_fields(&self) -> Seq<Field> {
        seq![Field::Int(self.id), Field::Long(self.change_mask.spec_bits()), Field::Dict(spec_dict_view(self.properties@))]
    }

    open spec fn spec_resolved(&self, fds: Seq<i32>) -> bool {
        true
    }

    fn deserialize(pod: &mut PodDeserializer, fds: &[i32]) -> (r: PodResult<Self>) {
        proof {
            reveal_with_fuel(spec_parse_fields, 4);
        }
        let mut s = pod.as_struct()?;
        let v0 = read_u32(&mut s)?;
        let v1 = read_u64(&mut s)?;
        let v2 = read_dict(&mut s)?;
        let r = Info {
            id: v0,
            change_mask: ChangeMask::from_bits_retain(v1),
            properties: v2,
        };
        proof {

            assert(r.spec_fields() =~= seq![Field::Int(r.id), Field::Long(r.change_mask.spec_bits()), Field::Dict(spec_dict_view(r.properties@))]);
        }
        Ok(r)
    }
}

/// Permissions of the client, from `index`.
#[derive(Debug, Clone)]
pub struct Permissions {
    pub index: u32,
    pub permissions: Vec<Permission>,
}

impl EventDeserialize for Permissions {
    const OPCODE: u8 = 1;

    open spec fn spec_kinds() -> Seq<FieldKind> {
        seq![FieldKind::Int, FieldKind::Perms]
    }

    open spec fn spec_fields(&self) -> Seq<Field> {
        seq![Field::Int(self.index), Field::Perms(spec_perms_view(self.permissions@))]
    }

    open spec fn spec_resolved(&self, fds: Seq<i32>) -> bool {
        true
    }

    fn deserialize(pod: &mut PodDeserializer, fds: &[i32]) -> (r: PodResult<Self>) {
        proof {
            reveal_with_fuel(spec_parse_fields, 3);
        }
        let mut s = pod.as_struct()?;
        let v0 = read_u32(&mut s)?;
        let v1 = read_perms(&mut s)?;
        let r = Permissions {
            index: v0,
            permissions: v1,
        };
        proof {

            assert(r.spec_fields() =~= seq![Field::Int(r.index), Field::Perms(spec_perms_view(r.permissions@))]);
        }
        Ok(r)
    }
}


/// Reading `Info` takes its fields on the wire in this order: `id`, `change_mask`, `properties`.
pub proof fn law_info_wire_order(x: Info)
    ensures
        x.spec_fields().len() == 3,
        x.spec_fields()[0] == Field::Int(x.id),
        x.spec_fields()[1] == Field::Long(x.change_mask.spec_bits()),
        x.spec_fields()[2] == Field::Dict(spec_dict_view(x.properties@)),
{
}

/// Reading `Permissions` takes its fields on the wire in this order: `index`, `permissions`.
pub proof fn law_permissions_wire_order(x: Permissions)
    ensures
        x.spec_fields().len() == 2,
        x.spec_fields()[0] == Field::Int(x.index),
        x.spec_fields()[1] == Field::Perms(spec_perms_view(x.permissions@)),
{
}

} // verus!
