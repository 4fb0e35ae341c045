//! Events of the interface.

use vstd::prelude::*;
use crate::spa_types::SpaDataType;
use crate::spa_enum::{SpaEnum, spec_spa_enum_as_raw};
use crate::pod_v2::Id;
use crate::pod::value::Fd;
use crate::protocol::{fd_at, spec_fd_at};
use crate::pod_v2::deserialize::{PodDeserializer, PodResult};
use crate::protocol::codec::{
    read_dict, read_fd, read_i32, read_id, read_str, read_u32, read_u64, spec_parse_fields, Field,
    FieldKind,
};
use crate::protocol::{spec_dict_view, EventDeserialize, PwDictionary};

verus! {
/// What changed in a core info.
#[derive(Debug, Clone, Copy, PartialEq, Eq, Structural)]
pub struct ChangeMask {
    bits: u64,
}

impl ChangeMask {
    pub const PROPS: u64 = 1;

    /// The raw bits.
    pub closed spec fn spec_bits(self) -> u64 {
        self.bits
    }

    /// The raw bits.
    pub fn bits(&self) -> (r: u64)
        ensures
            r == self.spec_bits(),
    {
        self.bits
    }

    /// The flags with exactly the given bits, known or not.
    pub fn from_bits_retain(bits: u64) -> (r: Self)
        ensures
            r.spec_bits() == bits,
    {
        ChangeMask { bits }
    }

    /// No flag.
    pub fn empty() -> (r: Self)
        ensures
            r.spec_bits() == 0,
    {
        ChangeMask { bits: 0 }
    }

    /// The flags of both.
    pub fn union(self, other: Self) -> (r: Self)
        ensures
            r.spec_bits() == self.spec_bits() | other.spec_bits(),
    {
        ChangeMask { bits: self.bits | other.bits }
    }

    /// Every flag of `other` is set.
    pub fn contains(&self, other: Self) -> (r: bool)
        ensures
            r == (self.spec_bits() & other.spec_bits() == other.spec_bits()),
    {
        self.bits & other.bits == other.bits
    }
}

/// Flags of a memory block.
#[derive(Debug, Clone, Copy, PartialEq, Eq, Structural)]
pub struct MemblockFlags {
    bits: u32,
}

impl MemblockFlags {
    /// memory is readable
    pub const READABLE: u32 = 1;

    /// memory is writable
    pub const WRITABLE: u32 = 2;

    /// seal the fd
    pub const SEAL: u32 = 4;

    /// mmap the fd
    pub const MAP: u32 = 8;

    /// don't close fd
    pub const DONT_CLOSE: u32 = 16;

    /// don't notify events
    pub const DONT_NOTIFY: u32 = 32;

    /// the fd can not be mmapped
    pub const UNMAPPABLE: u32 = 64;

    pub const READWRITE: u32 = 3;

    /// The raw bits.
    pub closed spec fn spec_bits(self) -> u32 {
        self.bits
    }

    /// The raw bits.
    pub fn bits(&self) -> (r: u32)
        ensures
            r == self.spec_bits(),
    {
        self.bits
    }

    /// The flags with exactly the given bits, known or not.
    pub fn from_bits_retain(bits: u32) -> (r: Self)
        ensures
            r.spec_bits() == bits,
    {
        MemblockFlags { bits }
    }

    /// No flag.
    pub fn empty() -> (r: Self)
        ensures
            r.spec_bits() == 0,
    {
        MemblockFlags { bits: 0 }
    }

    /// The flags of both.
    pub fn union(self, other: Self) -> (r: Self)
        ensures
            r.spec_bits() == self.spec_bits() | other.spec_bits(),
    {
        MemblockFlags { bits: self.bits | other.bits }
    }

    /// Every flag of `other` is set.
    pub fn contains(&self, other: Self) -> (r: bool)
        ensures
            r == (self.spec_bits() & other.spec_bits() == other.spec_bits()),
    {
        self.bits & other.bits == other.bits
    }
}

/// Emitted when first bound to the core or when the hello method is called.
#[derive(Debug, Clone)]
pub struct Info {
    pub id: u32,
    pub cookie: u32,
    pub user_name: String,
    pub host_name: String,
    pub version: String,
    pub name: String,
    pub change_mask: ChangeMask,
    pub properties: PwDictionary,
}

impl EventDeserialize for Info {
    const OPCODE: u8 = 0;

    open spec fn spec_kinds() -> Seq<FieldKind> {
        seq![FieldKind::Int, FieldKind::Int, FieldKind::Str, FieldKind::Str, FieldKind::Str, FieldKind::Str, FieldKind::Long, FieldKind::Dict]
    }

    open spec fn spec_fields(&self) -> Seq<Field> {
        seq![Field::Int(self.id), Field::Int(self.cookie), Field::Str(self.user_name@), Field::Str(self.host_name@), Field::Str(self.version@), Field::Str(self.name@), Field::Long(self.change_mask.spec_bits()), Field::Dict(spec_dict_view(self.properties@))]
    }

    open spec fn spec_resolved(&self, fds: Seq<i32>) -> bool {
        true
    }

    #[verifier::rlimit(60)]
    fn deserialize(pod: &mut PodDeserializer, fds: &[i32]) -> (r: PodResult<Self>) {
        proof {
            reveal_with_fuel(spec_parse_fields, 9);
        }
        let mut s = pod.as_struct()?;
        let v0 = read_u32(&mut s)?;
        let v1 = read_u32(&mut s)?;
        let v2 = read_str(&mut s)?;
        let v3 = read_str(&mut s)?;
        let v4 = read_str(&mut s)?;
        let v5 = read_str(&mut s)?;
        let v6 = read_u64(&mut s)?;
        let v7 = read_dict(&mut s)?;
        let r = Info {
            id: v0,
            cookie: v1,
            user_name: v2,
            host_name: v3,
            version: v4,
            name: v5,
            change_mask: ChangeMask::from_bits_retain(v6),
            properties: v7,
        };
        proof {

            assert(r.spec_fields() =~= seq![Field::Int(r.id), Field::Int(r.cookie), Field::Str(r.user_name@), Field::Str(r.host_name@), Field::Str(r.version@), Field::Str(r.name@), Field::Long(r.change_mask.spec_bits()), Field::Dict(spec_dict_view(r.properties@))]);
        }
        Ok(r)
    }
}

/// Emitted as a result of a sync method with the same seq number.
#[derive(Debug, Clone)]
pub struct Done {
    /// `None` for SPA_ID_INVALID
    pub id: Option<u32>,
    pub seq: i32,
}

impl EventDeserialize for Done {
    const OPCODE: u8 = 1;

    open spec fn spec_kinds() -> Seq<FieldKind> {
        seq![FieldKind::Int, FieldKind::Int]
    }

    open spec fn spec_fields(&self) -> Seq<Field> {
        seq![Field::Int(match self.id { Some(x) => x, None => u32::MAX }), Field::Int(self.seq as u32)]
    }

    open spec fn spec_resolved(&self, fds: Seq<i32>) -> bool {
        true
    }

    fn deserialize(pod: &mut PodDeserializer, fds: &[i32]) -> (r: PodResult<Self>) {
        proof {
            reveal_with_fuel(spec_parse_fields, 3);
        }
        let mut s = pod.as_struct()?;
        let v0 = read_u32(&mut s)?;
        let v1 = read_i32(&mut s)?;
        let r = Done {
            id: if v0 == u32::MAX { None } else { Some(v0) },
            seq: v1,
        };
        proof {

            assert(r.spec_fields() =~= seq![Field::Int(match r.id { Some(x) => x, None => u32::MAX }), Field::Int(r.seq as u32)]);
        }
        Ok(r)
    }
}

/// The client should reply with a pong with the same seq number.
#[derive(Debug, Clone)]
pub struct Ping {
    pub id: u32,
    pub seq: u32,
}

impl EventDeserialize for Ping {
    const OPCODE: u8 = 2;

    open spec fn spec_kinds() -> Seq<FieldKind> {
        seq![FieldKind::Int, FieldKind::Int]
    }

    open spec fn spec_fields(&self) -> Seq<Field> {
        seq![Field::Int(self.id), Field::Int(self.seq)]
    }

    open spec fn spec_resolved(&self, fds: Seq<i32>) -> bool {
        true
    }

    fn deserialize(pod: &mut PodDeserializer, fds: &[i32]) -> (r: PodResult<Self>) {
        proof {
            reveal_with_fuel(spec_parse_fields, 3);
        }
        let mut s = pod.as_struct()?;
        let v0 = read_u32(&mut s)?;
        let v1 = read_u32(&mut s)?;
        let r = Ping {
            id: v0,
            seq: v1,
        };
        proof {

            assert(r.spec_fields() =~= seq![Field::Int(r.id), Field::Int(r.seq)]);
        }
        Ok(r)
    }
}

/// A fatal (non-recoverable) error occurred in the object `id`.
#[derive(Debug, Clone)]
pub struct Error {
    pub id: u32,
    pub seq: i32,
    pub res: i32,
    pub message: String,
}

impl EventDeserialize for Error {
    const OPCODE: u8 = 3;

    open spec fn spec_kinds() -> Seq<FieldKind> {
        seq![FieldKind::Int, FieldKind::Int, FieldKind::Int, FieldKind::Str]
    }

    open spec fn spec_fields(&self) -> Seq<Field> {
        seq![Field::Int(self.id), Field::Int(self.seq as u32), Field::Int(self.res as u32), Field::Str(self.message@)]
    }

    open spec fn spec_resolved(&self, fds: Seq<i32>) -> bool {
        true
    }

    fn deserialize(pod: &mut PodDeserializer, fds: &[i32]) -> (r: PodResult<Self>) {
        proof {
            reveal_with_fuel(spec_parse_fields, 5);
        }
        let mut s = pod.as_struct()?;
        let v0 = read_u32(&mut s)?;
        let v1 = read_i32(&mut s)?;
        let v2 = read_i32(&mut s)?;
        let v3 = read_str(&mut s)?;
        let r = Error {
            id: v0,
            seq: v1,
            res: v2,
            message: v3,
        };
        proof {

            assert(r.spec_fields() =~= seq![Field::Int(r.id), Field::Int(r.seq as u32), Field::Int(r.res as u32), Field::Str(r.message@)]);
        }
        Ok(r)
    }
}

/// The server has seen the deletion of the object `id`; its id can be reused.
#[derive(Debug, Clone)]
pub struct RemoveId {
    pub id: u32,
}

impl EventDeserialize for RemoveId {
    const OPCODE: u8 = 4;

    open spec fn spec_kinds() -> Seq<FieldKind> {
        seq![FieldKind::Int]
    }

    open spec fn spec_fields(&self) -> Seq<Field> {
        seq![Field::Int(self.id)]
    }

    open spec fn spec_resolved(&self, fds: Seq<i32>) -> bool {
        true
    }

    fn deserialize(pod: &mut PodDeserializer, fds: &[i32]) -> (r: PodResult<Self>) {
        proof {
            reveal_with_fuel(spec_parse_fields, 2);
        }
        let mut s = pod.as_struct()?;
        let v0 = read_u32(&mut s)?;
        let r = RemoveId {
            id: v0,
        };
        proof {

            assert(r.spec_fields() =~= seq![Field::Int(r.id)]);
        }
        Ok(r)
    }
}

/// A local object id is bound to a global id.
#[derive(Debug, Clone)]
pub struct BoundId {
    pub id: u32,
    pub global_id: u32,
}

impl EventDeserialize for BoundId {
    const OPCODE: u8 = 5;

    open spec fn spec_kinds() -> Seq<FieldKind> {
        seq![FieldKind::Int, FieldKind::Int]
    }

    open spec fn spec_fields(&self) -> Seq<Field> {
        seq![Field::Int(self.id), Field::Int(self.global_id)]
    }

    open spec fn spec_resolved(&self, fds: Seq<i32>) -> bool {
        true
    }

    fn deserialize(pod: &mut PodDeserializer, fds: &[i32]) -> (r: PodResult<Self>) {
        proof {
            reveal_with_fuel(spec_parse_fields, 3);
        }
        let mut s = pod.as_struct()?;
        let v0 = read_u32(&mut s)?;
        let v1 = read_u32(&mut s)?;
        let r = BoundId {
            id: v0,
            global_id: v1,
        };
        proof {

            assert(r.spec_fields() =~= seq![Field::Int(r.id), Field::Int(r.global_id)]);
        }
        Ok(r)
    }
}

/// Memory given to the client as a file descriptor of a certain type.
#[derive(Debug, Clone)]
pub struct AddMem {
    pub id: u32,
    pub ty: SpaEnum<SpaDataType>,
    /// The file descriptor: its index among those sent with the message, and
    /// the descriptor at that index
    pub fd: Fd,
    pub flags: MemblockFlags,
}

impl EventDeserialize for AddMem {
    const OPCODE: u8 = 6;

    open spec fn spec_kinds() -> Seq<FieldKind> {
        seq![FieldKind::Int, FieldKind::Id, FieldKind::Fd, FieldKind::Int]
    }

    open spec fn spec_fields(&self) -> Seq<Field> {
        seq![Field::Int(self.id), Field::Id(spec_spa_enum_as_raw(self.ty)), Field::Fd(self.fd.id), Field::Int(self.flags.spec_bits())]
    }

    open spec fn spec_resolved(&self, fds: Seq<i32>) -> bool {
        self.fd.fd == spec_fd_at(fds, self.fd.id)
    }

    fn deserialize(pod: &mut PodDeserializer, fds: &[i32]) -> (r: PodResult<Self>) {
        proof {
            reveal_with_fuel(spec_parse_fields, 5);
        }
        let mut s = pod.as_struct()?;
        let v0 = read_u32(&mut s)?;
        let v1 = read_id(&mut s)?;
        let v2 = read_fd(&mut s)?;
        let v3 = read_u32(&mut s)?;
        let r = AddMem {
            id: v0,
            ty: SpaEnum::<SpaDataType>::from_raw(v1),
            fd: Fd { id: v2, fd: fd_at(fds, v2) },
            flags: MemblockFlags::from_bits_retain(v3),
        };
        proof {
            crate::spa_enum::law_spa_enum_raw_roundtrip::<SpaDataType>(v1);
            assert(r.spec_fields() =~= seq![Field::Int(r.id), Field::Id(spec_spa_enum_as_raw(r.ty)), Field::Fd(r.fd.id), Field::Int(r.flags.spec_bits())]);
        }
        Ok(r)
    }
}

/// Remove memory for a client.
#[derive(Debug, Clone)]
pub struct RemoveMem {
    pub id: u32,
}

impl EventDeserialize for RemoveMem {
    const OPCODE: u8 = 7;

    open spec fn spec_kinds() -> Seq<FieldKind> {
        seq![FieldKind::Int]
    }

    open spec fn spec_fields(&self) -> Seq<Field> {
        seq![Field::Int(self.id)]
    }

    open spec fn spec_resolved(&self, fds: Seq<i32>) -> bool {
        true
    }

    fn deserialize(pod: &mut PodDeserializer, fds: &[i32]) -> (r: PodResult<Self>) {
        proof {
            reveal_with_fuel(spec_parse_fields, 2);
        }
        let mut s = pod.as_struct()?;
        let v0 = read_u32(&mut s)?;
        let r = RemoveMem {
            id: v0,
        };
        proof {

            assert(r.spec_fields() =~= seq![Field::Int(r.id)]);
        }
        Ok(r)
    }
}

/// A local object id is bound to a global id, with the properties of the global.
#[derive(Debug, Clone)]
pub struct BoundProps {
    /// Proxy id
    pub id: u32,
    /// The global_id as it will appear in the registry.
    pub global_id: u32,
    /// The properties of the global
    pub properties: PwDictionary,
}

impl EventDeserialize for BoundProps {
    const OPCODE: u8 = 8;

    open spec fn spec_kinds() -> Seq<FieldKind> {
        seq![FieldKind::Int, FieldKind::Int, FieldKind::Dict]
    }

    open spec fn spec_fields(&self) -> Seq<Field> {
        seq![Field::Int(self.id), Field::Int(self.global_id), Field::Dict(spec_dict_view(self.properties@))]
    }

    open spec fn spec_resolved(&self, fds: Seq<i32>) -> bool {
        true
    }

    fn deserialize(pod: &mut PodDeserializer, fds: &[i32]) -> (r: PodResult<Self>) {
        proof {
            reveal_with_fuel(spec_parse_fields, 4);
        }
        let mut s = pod.as_struct()?;
        let v0 = read_u32(&mut s)?;
        let v1 = read_u32(&mut s)?;
        let v2 = read_dict(&mut s)?;
        let r = BoundProps {
            id: v0,
            global_id: v1,
            properties: v2,
        };
        proof {

            assert(r.spec_fields() =~= seq![Field::Int(r.id), Field::Int(r.global_id), Field::Dict(spec_dict_view(r.properties@))]);
        }
        Ok(r)
    }
}


/// Reading `Info` takes its fields on the wire in this order: `id`, `cookie`, `user_name`, `host_name`, `version`, `name`, `change_mask`, `properties`.
pub proof fn law_info_wire_order(x: Info)
    ensures
        x.spec_fields().len() == 8,
        x.spec_fields()[0] == Field::Int(x.id),
        x.spec_fields()[1] == Field::Int(x.cookie),
        x.spec_fields()[2] == Field::Str(x.user_name@),
        x.spec_fields()[3] == Field::Str(x.host_name@),
        x.spec_fields()[4] == Field::Str(x.version@),
        x.spec_fields()[5] == Field::Str(x.name@),
        x.spec_fields()[6] == Field::Long(x.change_mask.spec_bits()),
        x.spec_fields()[7] == Field::Dict(spec_dict_view(x.properties@)),
{
}

/// Reading `Done` takes its fields on the wire in this order: `id`, `seq`.
pub proof fn law_done_wire_order(x: Done)
    ensures
        x.spec_fields().len() == 2,
        x.spec_fields()[0] == Field::Int(match x.id { Some(x) => x, None => u32::MAX }),
        x.spec_fields()[1] == Field::Int(x.seq as u32),
{
}

/// Reading `Ping` takes its fields on the wire in this order: `id`, `seq`.
pub proof fn law_ping_wire_order(x: Ping)
    ensures
        x.spec_fields().len() == 2,
        x.spec_fields()[0] == Field::Int(x.id),
        x.spec_fields()[1] == Field::Int(x.seq),
{
}

/// Reading `Error` takes its fields on the wire in this order: `id`, `seq`, `res`, `message`.
pub proof fn law_error_wire_order(x: Error)
    ensures
        x.spec_fields().len() == 4,
        x.spec_fields()[0] == Field::Int(x.id),
        x.spec_fields()[1] == Field::Int(x.seq as u32),
        x.spec_fields()[2] == Field::Int(x.res as u32),
        x.spec_fields()[3] == Field::Str(x.message@),
{
}

/// Reading `RemoveId` takes its fields on the wire in this order: `id`.
pub proof fn law_remove_id_wire_order(x: RemoveId)
    ensures
        x.spec_fields().len() == 1,
        x.spec_fields()[0] == Field::Int(x.id),
{
}

/// Reading `BoundId` takes its fields on the wire in this order: `id`, `global_id`.
pub proof fn law_bound_id_wire_order(x: BoundId)
    ensures
        x.spec_fields().len() == 2,
        x.spec_fields()[0] == Field::Int(x.id),
        x.spec_fields()[1] == Field::Int(x.global_id),
{
}

/// Reading `AddMem` takes its fields on the wire in this order: `id`, `ty`, `fd`, `flags`.
pub proof fn law_add_mem_wire_order(x: AddMem)
    ensures
        x.spec_fields().len() == 4,
        x.spec_fields()[0] == Field::Int(x.id),
        x.spec_fields()[1] == Field::Id(spec_spa_enum_as_raw(x.ty)),
        x.spec_fields()[2] == Field::Fd(x.fd.id),
        x.spec_fields()[3] == Field::Int(x.flags.spec_bits()),
{
}

/// Reading `RemoveMem` takes its fields on the wire in this order: `id`.
pub proof fn law_remove_mem_wire_order(x: RemoveMem)
    ensures
        x.spec_fields().len() == 1,
        x.spec_fields()[0] == Field::Int(x.id),
{
}

/// Reading `BoundProps` takes its fields on the wire in this order: `id`, `global_id`, `properties`.
pub proof fn law_bound_props_wire_order(x: BoundProps)
    ensures
        x.spec_fields().len() == 3,
        x.spec_fields()[0] == Field::Int(x.id),
        x.spec_fields()[1] == Field::Int(x.global_id),
        x.spec_fields()[2] == Field::Dict(spec_dict_view(x.properties@)),
{
}

} // verus!
