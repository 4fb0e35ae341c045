//! Events of the interface.

use vstd::prelude::*;
use crate::spa_types::{SpaDataType, SpaDirection, SpaIoType, SpaMetaType, SpaParamType, SpaType};
use crate::spa_enum::{SpaEnum, spec_spa_enum_as_raw};
use crate::pod_v2::Id;
use crate::pod::value::Fd;
use crate::protocol::{fd_at, spec_fd_at};
use crate::pod_v2::deserialize::{
    spec_unexpected, DeserializeError, OwnedPod, PodDeserializer, PodResult, PodStructDeserializer,
    PodView,
};
use crate::pod_v2::format::TYPE_STRUCT;
use crate::protocol::codec::{
    read_dict, read_fd, read_id, read_id_field, read_int, read_pod, read_u32, spec_parse_fields,
    spec_read_id, spec_read_int, spec_then, lemma_then_empty, lemma_then_push, Field, FieldKind,
};
use crate::protocol::{spec_dict_view, EventDeserialize, PwDictionary};

verus! {
/// The transport of the node: descriptors to signal and the memory of its activation.
#[derive(Debug, Clone)]
pub struct Transport {
    /// The index of the descriptor to read from.
    pub readfd: Fd,
    /// The index of the descriptor to write to.
    pub writefd: Fd,
    /// The memory block of the activation.
    pub memid: u32,
    /// The offset in the memory block.
    pub offset: u32,
    /// The size in the memory block.
    pub size: u32,
}

impl EventDeserialize for Transport {
    const OPCODE: u8 = 0;

    open spec fn spec_kinds() -> Seq<FieldKind> {
        seq![FieldKind::Fd, FieldKind::Fd, FieldKind::Int, FieldKind::Int, FieldKind::Int]
    }

    open spec fn spec_fields(&self) -> Seq<Field> {
        seq![Field::Fd(self.readfd.id), Field::Fd(self.writefd.id), Field::Int(self.memid), Field::Int(self.offset), Field::Int(self.size)]
    }

    open spec fn spec_resolved(&self, fds: Seq<i32>) -> bool {
        self.readfd.fd == spec_fd_at(fds, self.readfd.id) && self.writefd.fd == spec_fd_at(
            fds,
            self.writefd.id,
        )
    }

    #[verifier::rlimit(60)]
    fn deserialize(pod: &mut PodDeserializer, fds: &[i32]) -> (r: PodResult<Self>) {
        proof {
            reveal_with_fuel(spec_parse_fields, 6);
        }
        let mut s = pod.as_struct()?;
        let v0 = read_fd(&mut s)?;
        let v1 = read_fd(&mut s)?;
        let v2 = read_u32(&mut s)?;
        let v3 = read_u32(&mut s)?;
        let v4 = read_u32(&mut s)?;
        let r = Transport {
            readfd: Fd { id: v0, fd: fd_at(fds, v0) },
            writefd: Fd { id: v1, fd: fd_at(fds, v1) },
            memid: v2,
            offset: v3,
            size: v4,
        };
        proof {

            assert(r.spec_fields() =~= seq![Field::Fd(r.readfd.id), Field::Fd(r.writefd.id), Field::Int(r.memid), Field::Int(r.offset), Field::Int(r.size)]);
        }
        Ok(r)
    }
}

/// Set a parameter on the node.
#[derive(Debug, Clone)]
pub struct SetParam {
    pub id: SpaEnum<SpaParamType>,
    pub flags: u32,
    pub param: OwnedPod,
}

impl EventDeserialize for SetParam {
    const OPCODE: u8 = 1;

    open spec fn spec_kinds() -> Seq<FieldKind> {
        seq![FieldKind::Id, FieldKind::Int, FieldKind::Pod]
    }

    open spec fn spec_fields(&self) -> Seq<Field> {
        seq![Field::Id(spec_spa_enum_as_raw(self.id)), Field::Int(self.flags), Field::Pod(self.param.view())]
    }

    open spec fn spec_resolved(&self, fds: Seq<i32>) -> bool {
        true
    }

    #[verifier::rlimit(60)]
    fn deserialize(pod: &mut PodDeserializer, fds: &[i32]) -> (r: PodResult<Self>) {
        proof {
            reveal_with_fuel(spec_parse_fields, 4);
        }
        let mut s = pod.as_struct()?;
        let v0 = read_id(&mut s)?;
        let v1 = read_u32(&mut s)?;
        let v2 = read_pod(&mut s)?;
        let r = SetParam {
            id: SpaEnum::<SpaParamType>::from_raw(v0),
            flags: v1,
            param: v2,
        };
        proof {
            crate::spa_enum::law_spa_enum_raw_roundtrip::<SpaParamType>(v0);
            assert(r.spec_fields() =~= seq![Field::Id(spec_spa_enum_as_raw(r.id)), Field::Int(r.flags), Field::Pod(r.param.view())]);
        }
        Ok(r)
    }
}

/// Set an area of the node to a memory block.
#[derive(Debug, Clone)]
pub struct SetIo {
    pub id: u32,
    pub memid: u32,
    pub offset: u32,
    pub size: u32,
}

impl EventDeserialize for SetIo {
    const OPCODE: u8 = 2;

    open spec fn spec_kinds() -> Seq<FieldKind> {
        seq![FieldKind::Id, FieldKind::Int, FieldKind::Int, FieldKind::Int]
    }

    open spec fn spec_fields(&self) -> Seq<Field> {
        seq![Field::Id(self.id), Field::Int(self.memid), Field::Int(self.offset), Field::Int(self.size)]
    }

    open spec fn spec_resolved(&self, fds: Seq<i32>) -> bool {
        true
    }

    #[verifier::rlimit(60)]
    fn deserialize(pod: &mut PodDeserializer, fds: &[i32]) -> (r: PodResult<Self>) {
        proof {
            reveal_with_fuel(spec_parse_fields, 5);
        }
        let mut s = pod.as_struct()?;
        let v0 = read_id(&mut s)?;
        let v1 = read_u32(&mut s)?;
        let v2 = read_u32(&mut s)?;
        let v3 = read_u32(&mut s)?;
        let r = SetIo {
            id: v0,
            memid: v1,
            offset: v2,
            size: v3,
        };
        proof {

            assert(r.spec_fields() =~= seq![Field::Id(r.id), Field::Int(r.memid), Field::Int(r.offset), Field::Int(r.size)]);
        }
        Ok(r)
    }
}

/// An event for the node.
#[derive(Debug, Clone)]
pub struct Event {
    pub event: OwnedPod,
}

impl EventDeserialize for Event {
    const OPCODE: u8 = 3;

    open spec fn spec_kinds() -> Seq<FieldKind> {
        seq![FieldKind::Pod]
    }

    open spec fn spec_fields(&self) -> Seq<Field> {
        seq![Field::Pod(self.event.view())]
    }

    open spec fn spec_resolved(&self, fds: Seq<i32>) -> bool {
        true
    }

    #[verifier::rlimit(60)]
    fn deserialize(pod: &mut PodDeserializer, fds: &[i32]) -> (r: PodResult<Self>) {
        proof {
            reveal_with_fuel(spec_parse_fields, 2);
        }
        let mut s = pod.as_struct()?;
        let v0 = read_pod(&mut s)?;
        let r = Event {
            event: v0,
        };
        proof {

            assert(r.spec_fields() =~= seq![Field::Pod(r.event.view())]);
        }
        Ok(r)
    }
}

/// A command for the node.
#[derive(Debug, Clone)]
pub struct Command {
    pub command: OwnedPod,
}

impl EventDeserialize for Command {
    const OPCODE: u8 = 4;

    open spec fn spec_kinds() -> Seq<FieldKind> {
        seq![FieldKind::Pod]
    }

    open spec fn spec_fields(&self) -> Seq<Field> {
        seq![Field::Pod(self.command.view())]
    }

    open spec fn spec_resolved(&self, fds: Seq<i32>) -> bool {
        true
    }

    #[verifier::rlimit(60)]
    fn deserialize(pod: &mut PodDeserializer, fds: &[i32]) -> (r: PodResult<Self>) {
        proof {
            reveal_with_fuel(spec_parse_fields, 2);
        }
        let mut s = pod.as_struct()?;
        let v0 = read_pod(&mut s)?;
        let r = Command {
            command: v0,
        };
        proof {

            assert(r.spec_fields() =~= seq![Field::Pod(r.command.view())]);
        }
        Ok(r)
    }
}

/// Add a port to the node.
#[derive(Debug, Clone)]
pub struct AddPort {
    pub direction: SpaEnum<SpaDirection>,
    pub port_id: u32,
    pub props: PwDictionary,
}

impl EventDeserialize for AddPort {
    const OPCODE: u8 = 5;

    open spec fn spec_kinds() -> Seq<FieldKind> {
        seq![FieldKind::Int, FieldKind::Int, FieldKind::Dict]
    }

    open spec fn spec_fields(&self) -> Seq<Field> {
        seq![Field::Int(spec_spa_enum_as_raw(self.direction)), Field::Int(self.port_id), Field::Dict(spec_dict_view(self.props@))]
    }

    open spec fn spec_resolved(&self, fds: Seq<i32>) -> bool {
        true
    }

    #[verifier::rlimit(60)]
    fn deserialize(pod: &mut PodDeserializer, fds: &[i32]) -> (r: PodResult<Self>) {
        proof {
            reveal_with_fuel(spec_parse_fields, 4);
        }
        let mut s = pod.as_struct()?;
        let v0 = read_u32(&mut s)?;
        let v1 = read_u32(&mut s)?;
        let v2 = read_dict(&mut s)?;
        let r = AddPort {
            direction: SpaEnum::<SpaDirection>::from_raw(v0),
            port_id: v1,
            props: v2,
        };
        proof {
            crate::spa_enum::law_spa_enum_raw_roundtrip::<SpaDirection>(v0);
            assert(r.spec_fields() =~= seq![Field::Int(spec_spa_enum_as_raw(r.direction)), Field::Int(r.port_id), Field::Dict(spec_dict_view(r.props@))]);
        }
        Ok(r)
    }
}

/// Remove a port of the node.
#[derive(Debug, Clone)]
pub struct RemovePort {
    pub direction: SpaEnum<SpaDirection>,
    pub port_id: u32,
}

impl EventDeserialize for RemovePort {
    const OPCODE: u8 = 6;

    open spec fn spec_kinds() -> Seq<FieldKind> {
        seq![FieldKind::Int, FieldKind::Int]
    }

    open spec fn spec_fields(&self) -> Seq<Field> {
        seq![Field::Int(spec_spa_enum_as_raw(self.direction)), Field::Int(self.port_id)]
    }

    open spec fn spec_resolved(&self, fds: Seq<i32>) -> bool {
        true
    }

    #[verifier::rlimit(60)]
    fn deserialize(pod: &mut PodDeserializer, fds: &[i32]) -> (r: PodResult<Self>) {
        proof {
            reveal_with_fuel(spec_parse_fields, 3);
        }
        let mut s = pod.as_struct()?;
        let v0 = read_u32(&mut s)?;
        let v1 = read_u32(&mut s)?;
        let r = RemovePort {
            direction: SpaEnum::<SpaDirection>::from_raw(v0),
            port_id: v1,
        };
        proof {
            crate::spa_enum::law_spa_enum_raw_roundtrip::<SpaDirection>(v0);
            assert(r.spec_fields() =~= seq![Field::Int(spec_spa_enum_as_raw(r.direction)), Field::Int(r.port_id)]);
        }
        Ok(r)
    }
}

/// Set a parameter on a port.
#[derive(Debug, Clone)]
pub struct PortSetParam {
    pub direction: SpaEnum<SpaDirection>,
    pub port_id: u32,
    pub id: SpaEnum<SpaParamType>,
    pub flags: u32,
    pub param: OwnedPod,
}

impl EventDeserialize for PortSetParam {
    const OPCODE: u8 = 7;

    open spec fn spec_kinds() -> Seq<FieldKind> {
        seq![FieldKind::Int, FieldKind::Int, FieldKind::Id, FieldKind::Int, FieldKind::Pod]
    }

    open spec fn spec_fields(&self) -> Seq<Field> {
        seq![Field::Int(spec_spa_enum_as_raw(self.direction)), Field::Int(self.port_id), Field::Id(spec_spa_enum_as_raw(self.id)), Field::Int(self.flags), Field::Pod(self.param.view())]
    }

    open spec fn spec_resolved(&self, fds: Seq<i32>) -> bool {
        true
    }

    #[verifier::rlimit(60)]
    fn deserialize(pod: &mut PodDeserializer, fds: &[i32]) -> (r: PodResult<Self>) {
        proof {
            reveal_with_fuel(spec_parse_fields, 6);
        }
        let mut s = pod.as_struct()?;
        let v0 = read_u32(&mut s)?;
        let v1 = read_u32(&mut s)?;
        let v2 = read_id(&mut s)?;
        let v3 = read_u32(&mut s)?;
        let v4 = read_pod(&mut s)?;
        let r = PortSetParam {
            direction: SpaEnum::<SpaDirection>::from_raw(v0),
            port_id: v1,
            id: SpaEnum::<SpaParamType>::from_raw(v2),
            flags: v3,
            param: v4,
        };
        proof {
            crate::spa_enum::law_spa_enum_raw_roundtrip::<SpaDirection>(v0);
            crate::spa_enum::law_spa_enum_raw_roundtrip::<SpaParamType>(v2);
            assert(r.spec_fields() =~= seq![Field::Int(spec_spa_enum_as_raw(r.direction)), Field::Int(r.port_id), Field::Id(spec_spa_enum_as_raw(r.id)), Field::Int(r.flags), Field::Pod(r.param.view())]);
        }
        Ok(r)
    }
}

/// Set an area of a port to a memory block.
#[derive(Debug, Clone)]
pub struct PortSetIo {
    pub direction: SpaEnum<SpaDirection>,
    pub port_id: u32,
    pub mix_id: u32,
    pub id: SpaEnum<SpaIoType>,
    pub memid: u32,
    pub offset: u32,
    pub size: u32,
}

impl EventDeserialize for PortSetIo {
    const OPCODE: u8 = 9;

    open spec fn spec_kinds() -> Seq<FieldKind> {
        seq![FieldKind::Int, FieldKind::Int, FieldKind::Int, FieldKind::Id, FieldKind::Int, FieldKind::Int, FieldKind::Int]
    }

    open spec fn spec_fields(&self) -> Seq<Field> {
        seq![Field::Int(spec_spa_enum_as_raw(self.direction)), Field::Int(self.port_id), Field::Int(self.mix_id), Field::Id(spec_spa_enum_as_raw(self.id)), Field::Int(self.memid), Field::Int(self.offset), Field::Int(self.size)]
    }

    open spec fn spec_resolved(&self, fds: Seq<i32>) -> bool {
        true
    }

    #[verifier::rlimit(60)]
    fn deserialize(pod: &mut PodDeserializer, fds: &[i32]) -> (r: PodResult<Self>) {
        proof {
            reveal_with_fuel(spec_parse_fields, 8);
        }
        let mut s = pod.as_struct()?;
        let v0 = read_u32(&mut s)?;
        let v1 = read_u32(&mut s)?;
        let v2 = read_u32(&mut s)?;
        let v3 = read_id(&mut s)?;
        let v4 = read_u32(&mut s)?;
        let v5 = read_u32(&mut s)?;
        let v6 = read_u32(&mut s)?;
        let r = PortSetIo {
            direction: SpaEnum::<SpaDirection>::from_raw(v0),
            port_id: v1,
            mix_id: v2,
            id: SpaEnum::<SpaIoType>::from_raw(v3),
            memid: v4,
            offset: v5,
            size: v6,
        };
        proof {
            crate::spa_enum::law_spa_enum_raw_roundtrip::<SpaDirection>(v0);
            crate::spa_enum::law_spa_enum_raw_roundtrip::<SpaIoType>(v3);
            assert(r.spec_fields() =~= seq![Field::Int(spec_spa_enum_as_raw(r.direction)), Field::Int(r.port_id), Field::Int(r.mix_id), Field::Id(spec_spa_enum_as_raw(r.id)), Field::Int(r.memid), Field::Int(r.offset), Field::Int(r.size)]);
        }
        Ok(r)
    }
}

/// The activation of a peer node.
#[derive(Debug, Clone)]
pub struct SetActivation {
    pub node_id: u32,
    pub signalfd: Fd,
    pub memid: u32,
    pub offset: u32,
    pub size: u32,
}

impl EventDeserialize for SetActivation {
    const OPCODE: u8 = 10;

    open spec fn spec_kinds() -> Seq<FieldKind> {
        seq![FieldKind::Int, FieldKind::Fd, FieldKind::Int, FieldKind::Int, FieldKind::Int]
    }

    open spec fn spec_fields(&self) -> Seq<Field> {
        seq![Field::Int(self.node_id), Field::Fd(self.signalfd.id), Field::Int(self.memid), Field::Int(self.offset), Field::Int(self.size)]
    }

    open spec fn spec_resolved(&self, fds: Seq<i32>) -> bool {
        self.signalfd.fd == spec_fd_at(fds, self.signalfd.id)
    }

    #[verifier::rlimit(60)]
    fn deserialize(pod: &mut PodDeserializer, fds: &[i32]) -> (r: PodResult<Self>) {
        proof {
            reveal_with_fuel(spec_parse_fields, 6);
        }
        let mut s = pod.as_struct()?;
        let v0 = read_u32(&mut s)?;
        let v1 = read_fd(&mut s)?;
        let v2 = read_u32(&mut s)?;
        let v3 = read_u32(&mut s)?;
        let v4 = read_u32(&mut s)?;
        let r = SetActivation {
            node_id: v0,
            signalfd: Fd { id: v1, fd: fd_at(fds, v1) },
            memid: v2,
            offset: v3,
            size: v4,
        };
        proof {

            assert(r.spec_fields() =~= seq![Field::Int(r.node_id), Field::Fd(r.signalfd.id), Field::Int(r.memid), Field::Int(r.offset), Field::Int(r.size)]);
        }
        Ok(r)
    }
}

/// The mix of a port and the peer it links to.
#[derive(Debug, Clone)]
pub struct PortSetMixInfo {
    pub direction: SpaEnum<SpaDirection>,
    pub port_id: u32,
    pub mix_id: u32,
    pub peer_id: u32,
    pub props: PwDictionary,
}

impl EventDeserialize for PortSetMixInfo {
    const OPCODE: u8 = 11;

    open spec fn spec_kinds() -> Seq<FieldKind> {
        seq![FieldKind::Int, FieldKind::Int, FieldKind::Int, FieldKind::Int, FieldKind::Dict]
    }

    open spec fn spec_fields(&self) -> Seq<Field> {
        seq![Field::Int(spec_spa_enum_as_raw(self.direction)), Field::Int(self.port_id), Field::Int(self.mix_id), Field::Int(self.peer_id), Field::Dict(spec_dict_view(self.props@))]
    }

    open spec fn spec_resolved(&self, fds: Seq<i32>) -> bool {
        true
    }

    #[verifier::rlimit(60)]
    fn deserialize(pod: &mut PodDeserializer, fds: &[i32]) -> (r: PodResult<Self>) {
        proof {
            reveal_with_fuel(spec_parse_fields, 6);
        }
        let mut s = pod.as_struct()?;
        let v0 = read_u32(&mut s)?;
        let v1 = read_u32(&mut s)?;
        let v2 = read_u32(&mut s)?;
        let v3 = read_u32(&mut s)?;
        let v4 = read_dict(&mut s)?;
        let r = PortSetMixInfo {
            direction: SpaEnum::<SpaDirection>::from_raw(v0),
            port_id: v1,
            mix_id: v2,
            peer_id: v3,
            props: v4,
        };
        proof {
            crate::spa_enum::law_spa_enum_raw_roundtrip::<SpaDirection>(v0);
            assert(r.spec_fields() =~= seq![Field::Int(spec_spa_enum_as_raw(r.direction)), Field::Int(r.port_id), Field::Int(r.mix_id), Field::Int(r.peer_id), Field::Dict(spec_dict_view(r.props@))]);
        }
        Ok(r)
    }
}


// ---------------------------------------------------------------------------
// Buffers handed to a port

/// Read `n` metadata entries, each a type and a size; also give what follows.
pub open spec fn spec_read_metas(s: Seq<u8>, n: int) -> PodResult<(Seq<(u32, u32)>, Seq<u8>)>
    decreases n,
{
    if n <= 0 {
        Ok((Seq::empty(), s))
    } else {
        match spec_read_int(s) {
            Ok((ty, s1)) => match spec_read_int(s1) {
                Ok((size, s2)) => spec_then(seq![(ty, size)], spec_read_metas(s2, n - 1)),
                Err(e) => Err(e),
            },
            Err(e) => Err(e),
        }
    }
}

/// Read one data block: an `Id` type, then data, flags, offset and size.
pub open spec fn spec_read_block(s: Seq<u8>) -> PodResult<((u32, u32, u32, u32, u32), Seq<u8>)> {
    match spec_read_id(s) {
        Ok((ty, s1)) => match spec_read_int(s1) {
            Ok((data, s2)) => match spec_read_int(s2) {
                Ok((flags, s3)) => match spec_read_int(s3) {
                    Ok((mapoffset, s4)) => match spec_read_int(s4) {
                        Ok((maxsize, s5)) => Ok(((ty, data, flags, mapoffset, maxsize), s5)),
                        Err(e) => Err(e),
                    },
                    Err(e) => Err(e),
                },
                Err(e) => Err(e),
            },
            Err(e) => Err(e),
        },
        Err(e) => Err(e),
    }
}

/// Read `n` data blocks; also give what follows.
pub open spec fn spec_read_blocks(s: Seq<u8>, n: int) -> PodResult<
    (Seq<(u32, u32, u32, u32, u32)>, Seq<u8>),
>
    decreases n,
{
    if n <= 0 {
        Ok((Seq::empty(), s))
    } else {
        match spec_read_block(s) {
            Ok((b, s1)) => spec_then(seq![b], spec_read_blocks(s1, n - 1)),
            Err(e) => Err(e),
        }
    }
}

/// What a buffer holds, as plain values.
pub struct PortBufferView {
    pub mem_id: u32,
    pub offset: u32,
    pub size: u32,
    /// The type and size of each metadata part.
    pub metas: Seq<(u32, u32)>,
    /// The raw type, data, flags, offset and size of each data block.
    pub blocks: Seq<(u32, u32, u32, u32, u32)>,
}

/// Read one buffer: memory id, offset and size, a count of metadata parts and
/// the parts, then a count of data blocks and the blocks.
pub open spec fn spec_read_buffer(s: Seq<u8>) -> PodResult<(PortBufferView, Seq<u8>)> {
    match spec_read_int(s) {
        Ok((mem_id, s1)) => match spec_read_int(s1) {
            Ok((offset, s2)) => match spec_read_int(s2) {
                Ok((size, s3)) => match spec_read_int(s3) {
                    Ok((n_metas, s4)) => match spec_read_metas(s4, n_metas as int) {
                        Ok((metas, s5)) => match spec_read_int(s5) {
                            Ok((n_blocks, s6)) => match spec_read_blocks(s6, n_blocks as int) {
                                Ok((blocks, s7)) => Ok(
                                    (PortBufferView { mem_id, offset, size, metas, blocks }, s7),
                                ),
                                Err(e) => Err(e),
                            },
                            Err(e) => Err(e),
                        },
                        Err(e) => Err(e),
                    },
                    Err(e) => Err(e),
                },
                Err(e) => Err(e),
            },
            Err(e) => Err(e),
        },
        Err(e) => Err(e),
    }
}

/// Read `n` buffers; also give what follows.
pub open spec fn spec_read_buffers(s: Seq<u8>, n: int) -> PodResult<(Seq<PortBufferView>, Seq<u8>)>
    decreases n,
{
    if n <= 0 {
        Ok((Seq::empty(), s))
    } else {
        match spec_read_buffer(s) {
            Ok((b, s1)) => spec_then(seq![b], spec_read_buffers(s1, n - 1)),
            Err(e) => Err(e),
        }
    }
}

/// What the event that hands buffers to a port holds, as plain values.
pub struct PortUseBuffersView {
    pub direction: u32,
    pub port_id: u32,
    pub mix_id: u32,
    pub flags: u32,
    pub buffers: Seq<PortBufferView>,
}

/// Read the event that hands buffers to a port from the pod `p`: a struct of
/// the direction, port, mix and flags, a count of buffers and the buffers.
pub open spec fn spec_parse_use_buffers(p: PodView) -> PodResult<PortUseBuffersView> {
    if p.ty != TYPE_STRUCT {
        Err(spec_unexpected(SpaType::Struct, p.ty))
    } else {
        match spec_read_int(p.body) {
            Ok((direction, s1)) => match spec_read_int(s1) {
                Ok((port_id, s2)) => match spec_read_int(s2) {
                    Ok((mix_id, s3)) => match spec_read_int(s3) {
                        Ok((flags, s4)) => match spec_read_int(s4) {
                            Ok((n, s5)) => match spec_read_buffers(s5, n as int) {
                                Ok((buffers, _)) => Ok(
                                    PortUseBuffersView { direction, port_id, mix_id, flags, buffers },
                                ),
                                Err(e) => Err(e),
                            },
                            Err(e) => Err(e),
                        },
                        Err(e) => Err(e),
                    },
                    Err(e) => Err(e),
                },
                Err(e) => Err(e),
            },
            Err(e) => Err(e),
        }
    }
}


/// A data block of a buffer.
#[derive(Debug, Clone)]
pub struct PortBufferData {
    /// The data type: a memory block the server shared, or an offset in the
    /// memory of the buffer.
    pub type_: SpaEnum<SpaDataType>,
    /// The memory block, or the offset in it.
    pub data: u32,
    /// Extra flags for the data.
    pub flags: u32,
    /// The offset in the memory block.
    pub mapoffset: u32,
    /// The size of the memory.
    pub maxsize: u32,
}

impl PortBufferData {
    /// The raw type, data, flags, offset and size.
    pub open spec fn view(self) -> (u32, u32, u32, u32, u32) {
        (spec_spa_enum_as_raw(self.type_), self.data, self.flags, self.mapoffset, self.maxsize)
    }

    fn deserialize<'a>(pod: &mut PodStructDeserializer<'a>) -> (r: PodResult<Self>)
        ensures
            match spec_read_block(old(pod).view()) {
                Ok((b, rest)) => r matches Ok(x) && x.view() == b && final(pod).view() == rest,
                Err(e) => r == Err::<Self, DeserializeError>(e),
            },
    {
        let ty = read_id_field(pod)?;
        let data = read_int(pod)?;
        let flags = read_int(pod)?;
        let mapoffset = read_int(pod)?;
        let maxsize = read_int(pod)?;
        proof {
            crate::spa_enum::law_spa_enum_raw_roundtrip::<SpaDataType>(ty);
        }
        Ok(PortBufferData { type_: SpaEnum::<SpaDataType>::from_raw(ty), data, flags, mapoffset, maxsize })
    }
}

/// The raw type and size of each metadata part.
pub open spec fn spec_metas_view(m: Seq<(SpaEnum<SpaMetaType>, u32)>) -> Seq<(u32, u32)> {
    m.map_values(|e: (SpaEnum<SpaMetaType>, u32)| (spec_spa_enum_as_raw(e.0), e.1))
}

/// The plain values of each data block.
pub open spec fn spec_blocks_view(b: Seq<PortBufferData>) -> Seq<(u32, u32, u32, u32, u32)> {
    b.map_values(|d: PortBufferData| d.view())
}

/// A buffer handed to a port.
#[derive(Debug, Clone)]
pub struct PortBuffer {
    /// The memory block of the buffer's metadata and data.
    pub mem_id: u32,
    /// The offset of the buffer in the memory block.
    pub offset: u32,
    /// The size of the buffer.
    pub size: u32,
    /// The type and size of each metadata part, which come first in the
    /// buffer's memory.
    pub metas: Vec<(SpaEnum<SpaMetaType>, u32)>,
    /// The data blocks.
    pub data_blocks: Vec<PortBufferData>,
}

impl PortBuffer {
    /// The buffer as plain values.
    pub open spec fn view(self) -> PortBufferView {
        PortBufferView {
            mem_id: self.mem_id,
            offset: self.offset,
            size: self.size,
            metas: spec_metas_view(self.metas@),
            blocks: spec_blocks_view(self.data_blocks@),
        }
    }

    fn deserialize<'a>(pod: &mut PodStructDeserializer<'a>) -> (r: PodResult<Self>)
        ensures
            match spec_read_buffer(old(pod).view()) {
                Ok((b, rest)) => r matches Ok(x) && x.view() == b && final(pod).view() == rest,
                Err(e) => r == Err::<Self, DeserializeError>(e),
            },
    {
        let mem_id = read_int(pod)?;
        let offset = read_int(pod)?;
        let size = read_int(pod)?;
        let n_metas = read_int(pod)?;
        let metas = read_metas(pod, n_metas)?;
        let n_blocks = read_int(pod)?;
        let data_blocks = read_blocks(pod, n_blocks)?;
        Ok(PortBuffer { mem_id, offset, size, metas, data_blocks })
    }
}

fn read_metas<'a>(pod: &mut PodStructDeserializer<'a>, n: u32) -> (r: PodResult<
    Vec<(SpaEnum<SpaMetaType>, u32)>,
>)
    ensures
        match spec_read_metas(old(pod).view(), n as int) {
            Ok((m, rest)) => r matches Ok(x) && spec_metas_view(x@) == m && final(pod).view()
                == rest,
            Err(e) => r == Err::<Vec<(SpaEnum<SpaMetaType>, u32)>, DeserializeError>(e),
        },
{
    let ghost s0 = pod.view();
    let mut v: Vec<(SpaEnum<SpaMetaType>, u32)> = Vec::new();
    let mut i: u32 = 0;
    proof {
        lemma_then_empty(spec_read_metas(s0, n as int));
        assert(spec_metas_view(v@) =~= Seq::<(u32, u32)>::empty());
    }
    while i < n
        invariant
            i <= n,
            s0 == old(pod).view(),
            spec_read_metas(s0, n as int) == spec_then(
                spec_metas_view(v@),
                spec_read_metas(pod.view(), n - i),
            ),
        decreases n - i,
    {
        let ty = read_int(pod)?;
        let size = read_int(pod)?;
        let ghost prev = spec_metas_view(v@);
        v.push((SpaEnum::<SpaMetaType>::from_raw(ty), size));
        proof {
            crate::spa_enum::law_spa_enum_raw_roundtrip::<SpaMetaType>(ty);
            lemma_then_push(prev, (ty, size), spec_read_metas(pod.view(), n - i - 1));
            assert(spec_metas_view(v@) =~= prev.push((ty, size)));
        }
        i = i + 1;
    }
    proof {
        assert(spec_metas_view(v@) + Seq::<(u32, u32)>::empty() =~= spec_metas_view(v@));
    }
    Ok(v)
}

fn read_blocks<'a>(pod: &mut PodStructDeserializer<'a>, n: u32) -> (r: PodResult<
    Vec<PortBufferData>,
>)
    ensures
        match spec_read_blocks(old(pod).view(), n as int) {
            Ok((b, rest)) => r matches Ok(x) && spec_blocks_view(x@) == b && final(pod).view()
                == rest,
            Err(e) => r == Err::<Vec<PortBufferData>, DeserializeError>(e),
        },
{
    let ghost s0 = pod.view();
    let mut v: Vec<PortBufferData> = Vec::new();
    let mut i: u32 = 0;
    proof {
        lemma_then_empty(spec_read_blocks(s0, n as int));
        assert(spec_blocks_view(v@) =~= Seq::<(u32, u32, u32, u32, u32)>::empty());
    }
    while i < n
        invariant
            i <= n,
            s0 == old(pod).view(),
            spec_read_blocks(s0, n as int) == spec_then(
                spec_blocks_view(v@),
                spec_read_blocks(pod.view(), n - i),
            ),
        decreases n - i,
    {
        let b = PortBufferData::deserialize(pod)?;
        let ghost prev = spec_blocks_view(v@);
        let ghost bv = b.view();
        v.push(b);
        proof {
            lemma_then_push(prev, bv, spec_read_blocks(pod.view(), n - i - 1));
            assert(spec_blocks_view(v@) =~= prev.push(bv));
        }
        i = i + 1;
    }
    proof {
        assert(spec_blocks_view(v@) + Seq::<(u32, u32, u32, u32, u32)>::empty() =~= spec_blocks_view(
            v@,
        ));
    }
    Ok(v)
}

fn read_buffers<'a>(pod: &mut PodStructDeserializer<'a>, n: u32) -> (r: PodResult<
    Vec<PortBuffer>,
>)
    ensures
        match spec_read_buffers(old(pod).view(), n as int) {
            Ok((b, rest)) => r matches Ok(x) && x@.map_values(|p: PortBuffer| p.view()) == b
                && final(pod).view() == rest,
            Err(e) => r == Err::<Vec<PortBuffer>, DeserializeError>(e),
        },
{
    let ghost s0 = pod.view();
    let mut v: Vec<PortBuffer> = Vec::new();
    let mut i: u32 = 0;
    proof {
        lemma_then_empty(spec_read_buffers(s0, n as int));
        assert(v@.map_values(|p: PortBuffer| p.view()) =~= Seq::<PortBufferView>::empty());
    }
    while i < n
        invariant
            i <= n,
            s0 == old(pod).view(),
            spec_read_buffers(s0, n as int) == spec_then(
                v@.map_values(|p: PortBuffer| p.view()),
                spec_read_buffers(pod.view(), n - i),
            ),
        decreases n - i,
    {
        let b = PortBuffer::deserialize(pod)?;
        let ghost prev = v@.map_values(|p: PortBuffer| p.view());
        let ghost bv = b.view();
        v.push(b);
        proof {
            lemma_then_push(prev, bv, spec_read_buffers(pod.view(), n - i - 1));
            assert(v@.map_values(|p: PortBuffer| p.view()) =~= prev.push(bv));
        }
        i = i + 1;
    }
    proof {
        let m = v@.map_values(|p: PortBuffer| p.view());
        assert(m + Seq::<PortBufferView>::empty() =~= m);
    }
    Ok(v)
}

/// Use a set of buffers on the mixer port.
#[derive(Debug, Clone)]
pub struct PortUseBuffers {
    /// The direction of the port.
    pub direction: SpaEnum<SpaDirection>,
    /// The port.
    pub port_id: u32,
    /// The mixer of the port.
    pub mix_id: u32,
    /// Extra flags.
    pub flags: u32,
    /// The buffers.
    pub buffers: Vec<PortBuffer>,
}

impl PortUseBuffers {
    pub const OPCODE: u8 = 8;

    /// The event as plain values.
    pub open spec fn view(self) -> PortUseBuffersView {
        PortUseBuffersView {
            direction: spec_spa_enum_as_raw(self.direction),
            port_id: self.port_id,
            mix_id: self.mix_id,
            flags: self.flags,
            buffers: self.buffers@.map_values(|p: PortBuffer| p.view()),
        }
    }

    /// Read the event from its pod. It names no file descriptor.
    pub fn deserialize(pod: &mut PodDeserializer<'_>, _fds: &[i32]) -> (r: PodResult<Self>)
        requires
            old(pod).valid(),
        ensures
            match spec_parse_use_buffers(old(pod).view()) {
                Ok(v) => r matches Ok(x) && x.view() == v,
                Err(e) => r == Err::<Self, DeserializeError>(e),
            },
    {
        let mut s = pod.as_struct()?;
        let direction = read_int(&mut s)?;
        let port_id = read_int(&mut s)?;
        let mix_id = read_int(&mut s)?;
        let flags = read_int(&mut s)?;
        let n = read_int(&mut s)?;
        let buffers = read_buffers(&mut s, n)?;
        proof {
            crate::spa_enum::law_spa_enum_raw_roundtrip::<SpaDirection>(direction);
        }
        Ok(PortUseBuffers {
            direction: SpaEnum::<SpaDirection>::from_raw(direction),
            port_id,
            mix_id,
            flags,
            buffers,
        })
    }
}


/// Reading `Transport` takes its fields on the wire in this order: `readfd`, `writefd`, `memid`, `offset`, `size`.
pub proof fn law_transport_wire_order(x: Transport)
    ensures
        x.spec_fields().len() == 5,
        x.spec_fields()[0] == Field::Fd(x.readfd.id),
        x.spec_fields()[1] == Field::Fd(x.writefd.id),
        x.spec_fields()[2] == Field::Int(x.memid),
        x.spec_fields()[3] == Field::Int(x.offset),
        x.spec_fields()[4] == Field::Int(x.size),
{
}

/// Reading `SetParam` takes its fields on the wire in this order: `id`, `flags`, `param`.
pub proof fn law_set_param_wire_order(x: SetParam)
    ensures
        x.spec_fields().len() == 3,
        x.spec_fields()[0] == Field::Id(spec_spa_enum_as_raw(x.id)),
        x.spec_fields()[1] == Field::Int(x.flags),
        x.spec_fields()[2] == Field::Pod(x.param.view()),
{
}

/// Reading `SetIo` takes its fields on the wire in this order: `id`, `memid`, `offset`, `size`.
pub proof fn law_set_io_wire_order(x: SetIo)
    ensures
        x.spec_fields().len() == 4,
        x.spec_fields()[0] == Field::Id(x.id),
        x.spec_fields()[1] == Field::Int(x.memid),
        x.spec_fields()[2] == Field::Int(x.offset),
        x.spec_fields()[3] == Field::Int(x.size),
{
}

/// Reading `Event` takes its fields on the wire in this order: `event`.
pub proof fn law_event_wire_order(x: Event)
    ensures
        x.spec_fields().len() == 1,
        x.spec_fields()[0] == Field::Pod(x.event.view()),
{
}

/// Reading `Command` takes its fields on the wire in this order: `command`.
pub proof fn law_command_wire_order(x: Command)
    ensures
        x.spec_fields().len() == 1,
        x.spec_fields()[0] == Field::Pod(x.command.view()),
{
}

/// Reading `AddPort` takes its fields on the wire in this order: `direction`, `port_id`, `props`.
pub proof fn law_add_port_wire_order(x: AddPort)
    ensures
        x.spec_fields().len() == 3,
        x.spec_fields()[0] == Field::Int(spec_spa_enum_as_raw(x.direction)),
        x.spec_fields()[1] == Field::Int(x.port_id),
        x.spec_fields()[2] == Field::Dict(spec_dict_view(x.props@)),
{
}

/// Reading `RemovePort` takes its fields on the wire in this order: `direction`, `port_id`.
pub proof fn law_remove_port_wire_order(x: RemovePort)
    ensures
        x.spec_fields().len() == 2,
        x.spec_fields()[0] == Field::Int(spec_spa_enum_as_raw(x.direction)),
        x.spec_fields()[1] == Field::Int(x.port_id),
{
}

/// Reading `PortSetParam` takes its fields on the wire in this order: `direction`, `port_id`, `id`, `flags`, `param`.
pub proof fn law_port_set_param_wire_order(x: PortSetParam)
    ensures
        x.spec_fields().len() == 5,
        x.spec_fields()[0] == Field::Int(spec_spa_enum_as_raw(x.direction)),
        x.spec_fields()[1] == Field::Int(x.port_id),
        x.spec_fields()[2] == Field::Id(spec_spa_enum_as_raw(x.id)),
        x.spec_fields()[3] == Field::Int(x.flags),
        x.spec_fields()[4] == Field::Pod(x.param.view()),
{
}

/// Reading `PortSetIo` takes its fields on the wire in this order: `direction`, `port_id`, `mix_id`, `id`, `memid`, `offset`, `size`.
pub proof fn law_port_set_io_wire_order(x: PortSetIo)
    ensures
        x.spec_fields().len() == 7,
        x.spec_fields()[0] == Field::Int(spec_spa_enum_as_raw(x.direction)),
        x.spec_fields()[1] == Field::Int(x.port_id),
        x.spec_fields()[2] == Field::Int(x.mix_id),
        x.spec_fields()[3] == Field::Id(spec_spa_enum_as_raw(x.id)),
        x.spec_fields()[4] == Field::Int(x.memid),
        x.spec_fields()[5] == Field::Int(x.offset),
        x.spec_fields()[6] == Field::Int(x.size),
{
}

/// Reading `SetActivation` takes its fields on the wire in this order: `node_id`, `signalfd`, `memid`, `offset`, `size`.
pub proof fn law_set_activation_wire_order(x: SetActivation)
    ensures
        x.spec_fields().len() == 5,
        x.spec_fields()[0] == Field::Int(x.node_id),
        x.spec_fields()[1] == Field::Fd(x.signalfd.id),
        x.spec_fields()[2] == Field::Int(x.memid),
        x.spec_fields()[3] == Field::Int(x.offset),
        x.spec_fields()[4] == Field::Int(x.size),
{
}

/// Reading `PortSetMixInfo` takes its fields on the wire in this order: `direction`, `port_id`, `mix_id`, `peer_id`, `props`.
pub proof fn law_port_set_mix_info_wire_order(x: PortSetMixInfo)
    ensures
        x.spec_fields().len() == 5,
        x.spec_fields()[0] == Field::Int(spec_spa_enum_as_raw(x.direction)),
        x.spec_fields()[1] == Field::Int(x.port_id),
        x.spec_fields()[2] == Field::Int(x.mix_id),
        x.spec_fields()[3] == Field::Int(x.peer_id),
        x.spec_fields()[4] == Field::Dict(spec_dict_view(x.props@)),
{
}

} // verus!
