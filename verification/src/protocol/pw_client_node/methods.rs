//! Requests of the interface.
use vstd::prelude::*;

use crate::pod_v2::deserialize::{
    spec_unexpected, DeserializeError, OwnedPod, PodDeserializer, PodResult, PodStructDeserializer,
    PodView,
};
use crate::pod_v2::format::{TYPE_NONE, TYPE_STRUCT};
use crate::protocol::codec::{
    lemma_str_within_ok, lemma_then_empty, lemma_then_push, read_i32, read_int, read_long,
    read_pod, spec_field_ok, spec_fields_bytes, spec_none_field, spec_pair_ok, spec_pairs_ok,
    spec_parse_dict, spec_parse_params, spec_read_int, spec_read_long, spec_read_plain,
    spec_fields_ok, spec_message_bytes, spec_struct_field, spec_then, Field, FieldKind,
    FieldWriter,
};
use crate::pod_v2::laws::spec_fits_u32;
use crate::protocol::{
    parse_dict, parse_params, spec_dict_view, spec_params_view, HasOpCode, MethodSerialize,
    ParamInfo, PwDictionary,
};
use crate::spa_enum::{SpaEnum, spec_spa_enum_as_raw};
use crate::spa_types::{SpaDataType, SpaDirection, SpaType};
use crate::connection::{spec_header_bytes, Header};

verus! {
/// Listen to the events of the object; only a local request, never sent.
#[derive(Debug, Clone)]
pub struct AddListener {}

impl HasOpCode for AddListener {
    const OPCODE: u8 = 0;
}

/// Bind the server side node object of the client node.
#[derive(Debug, Clone)]
pub struct GetNode {
    /// The node version to bind as.
    pub version: u32,
    /// The proxy id.
    pub new_id: u32,
}

impl MethodSerialize for GetNode {
    const OPCODE: u8 = 1;

    open spec fn spec_fields(&self) -> Seq<Field> {
        seq![Field::Int(self.version), Field::Int(self.new_id)]
    }

    fn serialize(&self) -> (r: Vec<u8>) {
        let mut w = FieldWriter::new();
        w.write_u32(self.version);
        w.write_u32(self.new_id);
        assert(w.fields() =~= self.spec_fields());
        w.finish()
    }
}

/// Activate or deactivate the node.
#[derive(Debug, Clone)]
pub struct SetActive {
    /// The new state of the node.
    pub active: bool,
}

impl MethodSerialize for SetActive {
    const OPCODE: u8 = 4;

    open spec fn spec_fields(&self) -> Seq<Field> {
        seq![Field::Bool(self.active)]
    }

    fn serialize(&self) -> (r: Vec<u8>) {
        let mut w = FieldWriter::new();
        w.write_bool(self.active);
        assert(w.fields() =~= self.spec_fields());
        w.finish()
    }
}

/// Emit an event on the node.
#[derive(Debug, Clone)]
pub struct Event {
    /// The event to emit.
    pub event: OwnedPod,
}

impl MethodSerialize for Event {
    const OPCODE: u8 = 5;

    open spec fn spec_fields(&self) -> Seq<Field> {
        seq![Field::Pod(self.event.view())]
    }

    fn serialize(&self) -> (r: Vec<u8>) {
        let mut w = FieldWriter::new();
        w.write_pod(&self.event);
        assert(w.fields() =~= self.spec_fields());
        w.finish()
    }
}

/// Which parts of a node info changed.
#[derive(Debug, Clone, Copy, PartialEq, Eq, Structural)]
pub struct NodeInfoChangeMask {
    bits: u64,
}

impl NodeInfoChangeMask {
    pub const FLAGS: u64 = 1;

    pub const PROPS: u64 = 2;

    pub const PARAMS: u64 = 4;

    /// The raw bits.
    pub closed spec fn spec_bits(self) -> u64 {
        self.bits
    }

    /// The raw bits.
    pub fn bits(&self) -> (r: u64)
        ensures
            r == self.spec_bits(),
    {
        self.bits
    }

    /// The flags with exactly the given bits, known or not.
    pub fn from_bits_retain(bits: u64) -> (r: Self)
        ensures
            r.spec_bits() == bits,
    {
        NodeInfoChangeMask { bits }
    }

    /// No flag.
    pub fn empty() -> (r: Self)
        ensures
            r.spec_bits() == 0,
    {
        NodeInfoChangeMask { bits: 0 }
    }
}

/// What a node can do.
#[derive(Debug, Clone, Copy, PartialEq, Eq, Structural)]
pub struct NodeFlags {
    bits: u64,
}

impl NodeFlags {
    /// The node can do real-time processing.
    pub const RT: u64 = 1;

    /// Input ports can be added and removed.
    pub const IN_DYNAMIC_PORTS: u64 = 2;

    /// Output ports can be added and removed.
    pub const OUT_DYNAMIC_PORTS: u64 = 4;

    /// Input ports can be reconfigured with a port configuration.
    pub const IN_PORT_CONFIG: u64 = 8;

    /// Output ports can be reconfigured with a port configuration.
    pub const OUT_PORT_CONFIG: u64 = 16;

    /// The node needs configuration before it can be started.
    pub const NEED_CONFIGURE: u64 = 32;

    /// The processing may not produce or consume data at once, but hand the work to a worker.
    pub const ASYNC: u64 = 64;

    /// The raw bits.
    pub closed spec fn spec_bits(self) -> u64 {
        self.bits
    }

    /// The raw bits.
    pub fn bits(&self) -> (r: u64)
        ensures
            r == self.spec_bits(),
    {
        self.bits
    }

    /// The flags with exactly the given bits, known or not.
    pub fn from_bits_retain(bits: u64) -> (r: Self)
        ensures
            r.spec_bits() == bits,
    {
        NodeFlags { bits }
    }

    /// No flag.
    pub fn empty() -> (r: Self)
        ensures
            r.spec_bits() == 0,
    {
        NodeFlags { bits: 0 }
    }
}

/// Which parts of the node an update changes.
#[derive(Debug, Clone, Copy, PartialEq, Eq, Structural)]
pub struct UpdateChangeMask {
    bits: u32,
}

impl UpdateChangeMask {
    pub const PARAMS: u32 = 1;

    pub const INFO: u32 = 2;

    /// The raw bits.
    pub closed spec fn spec_bits(self) -> u32 {
        self.bits
    }

    /// The raw bits.
    pub fn bits(&self) -> (r: u32)
        ensures
            r == self.spec_bits(),
    {
        self.bits
    }

    /// The flags with exactly the given bits, known or not.
    pub fn from_bits_retain(bits: u32) -> (r: Self)
        ensures
            r.spec_bits() == bits,
    {
        UpdateChangeMask { bits }
    }

    /// No flag.
    pub fn empty() -> (r: Self)
        ensures
            r.spec_bits() == 0,
    {
        UpdateChangeMask { bits: 0 }
    }
}

/// Which parts of a port info changed.
#[derive(Debug, Clone, Copy, PartialEq, Eq, Structural)]
pub struct PortInfoChangeMask {
    bits: u64,
}

impl PortInfoChangeMask {
    pub const FLAGS: u64 = 1;

    pub const RATE: u64 = 2;

    pub const PROPS: u64 = 4;

    pub const PARAMS: u64 = 8;

    /// The raw bits.
    pub closed spec fn spec_bits(self) -> u64 {
        self.bits
    }

    /// The raw bits.
    pub fn bits(&self) -> (r: u64)
        ensures
            r == self.spec_bits(),
    {
        self.bits
    }

    /// The flags with exactly the given bits, known or not.
    pub fn from_bits_retain(bits: u64) -> (r: Self)
        ensures
            r.spec_bits() == bits,
    {
        PortInfoChangeMask { bits }
    }

    /// No flag.
    pub fn empty() -> (r: Self)
        ensures
            r.spec_bits() == 0,
    {
        PortInfoChangeMask { bits: 0 }
    }
}

/// What a port can do.
#[derive(Debug, Clone, Copy, PartialEq, Eq, Structural)]
pub struct PortFlags {
    bits: u64,
}

impl PortFlags {
    /// The port can be removed.
    pub const SPA_PORT_FLAG_REMOVABLE: u64 = 1;

    /// Processing on the port is optional.
    pub const SPA_PORT_FLAG_OPTIONAL: u64 = 2;

    /// The port can allocate buffer data.
    pub const SPA_PORT_FLAG_CAN_ALLOC_BUFFERS: u64 = 4;

    /// The port can process data in place and needs a writable input buffer.
    pub const SPA_PORT_FLAG_IN_PLACE: u64 = 8;

    /// The port keeps no reference on the buffer: it consumes the input buffer whole.
    pub const SPA_PORT_FLAG_NO_REF: u64 = 16;

    /// Output buffers are timestamped against a live clock.
    pub const SPA_PORT_FLAG_LIVE: u64 = 32;

    /// The port connects to some device.
    pub const SPA_PORT_FLAG_PHYSICAL: u64 = 64;

    /// The data was not created here, or goes no further.
    pub const SPA_PORT_FLAG_TERMINAL: u64 = 128;

    /// The data pointer of dynamic buffer data can change.
    pub const SPA_PORT_FLAG_DYNAMIC_DATA: u64 = 256;

    /// The raw bits.
    pub closed spec fn spec_bits(self) -> u64 {
        self.bits
    }

    /// The raw bits.
    pub fn bits(&self) -> (r: u64)
        ensures
            r == self.spec_bits(),
    {
        self.bits
    }

    /// The flags with exactly the given bits, known or not.
    pub fn from_bits_retain(bits: u64) -> (r: Self)
        ensures
            r.spec_bits() == bits,
    {
        PortFlags { bits }
    }

    /// No flag.
    pub fn empty() -> (r: Self)
        ensures
            r.spec_bits() == 0,
    {
        PortFlags { bits: 0 }
    }
}

/// Which parts of the port an update changes.
#[derive(Debug, Clone, Copy, PartialEq, Eq, Structural)]
pub struct PortUpdateChangeMask {
    bits: u32,
}

impl PortUpdateChangeMask {
    pub const PARAMS: u32 = 1;

    pub const INFO: u32 = 2;

    /// The raw bits.
    pub closed spec fn spec_bits(self) -> u32 {
        self.bits
    }

    /// The raw bits.
    pub fn bits(&self) -> (r: u32)
        ensures
            r == self.spec_bits(),
    {
        self.bits
    }

    /// The flags with exactly the given bits, known or not.
    pub fn from_bits_retain(bits: u32) -> (r: Self)
        ensures
            r.spec_bits() == bits,
    {
        PortUpdateChangeMask { bits }
    }

    /// No flag.
    pub fn empty() -> (r: Self)
        ensures
            r.spec_bits() == 0,
    {
        PortUpdateChangeMask { bits: 0 }
    }
}

/// What a node info holds, as plain values.
pub struct NodeInfoView {
    pub max_input_ports: u32,
    pub max_output_ports: u32,
    pub change_mask: u64,
    pub flags: u64,
    pub props: Seq<(Seq<char>, Seq<char>)>,
    pub params: Seq<(u32, u32)>,
}

/// Read the fields of a node info: the most input and output ports, the
/// change mask and flags, a dictionary and parameter infos; also give what
/// follows.
pub open spec fn spec_read_node_info(s: Seq<u8>) -> PodResult<(NodeInfoView, Seq<u8>)> {
    match spec_read_int(s) {
        Ok((max_input_ports, s1)) => match spec_read_int(s1) {
            Ok((max_output_ports, s2)) => match spec_read_long(s2) {
                Ok((change_mask, s3)) => match spec_read_long(s3) {
                    Ok((flags, s4)) => match spec_parse_dict(s4) {
                        Ok((props, s5)) => match spec_parse_params(s5) {
                            Ok((params, s6)) => Ok(
                                (
                                    NodeInfoView {
                                        max_input_ports,
                                        max_output_ports,
                                        change_mask,
                                        flags,
                                        props,
                                        params,
                                    },
                                    s6,
                                ),
                            ),
                            Err(e) => Err(e),
                        },
                        Err(e) => Err(e),
                    },
                    Err(e) => Err(e),
                },
                Err(e) => Err(e),
            },
            Err(e) => Err(e),
        },
        Err(e) => Err(e),
    }
}

/// The info of a node.
#[derive(Debug, Clone)]
pub struct NodeInfo {
    pub max_input_ports: u32,
    pub max_output_ports: u32,
    pub change_mask: NodeInfoChangeMask,
    pub flags: NodeFlags,
    pub props: PwDictionary,
    pub params: Vec<ParamInfo>,
}

impl NodeInfo {
    /// The info as plain values.
    pub open spec fn view(self) -> NodeInfoView {
        NodeInfoView {
            max_input_ports: self.max_input_ports,
            max_output_ports: self.max_output_ports,
            change_mask: self.change_mask.spec_bits(),
            flags: self.flags.spec_bits(),
            props: spec_dict_view(self.props@),
            params: spec_params_view(self.params@),
        }
    }

    fn deserialize<'a>(pod: &mut PodStructDeserializer<'a>) -> (r: PodResult<Self>)
        ensures
            match spec_read_node_info(old(pod).view()) {
                Ok((v, rest)) => r matches Ok(x) && x.view() == v && final(pod).view() == rest,
                Err(e) => r == Err::<Self, DeserializeError>(e),
            },
    {
        let max_input_ports = read_int(pod)?;
        let max_output_ports = read_int(pod)?;
        let change_mask = read_long(pod)?;
        let flags = read_long(pod)?;
        let props = parse_dict(pod)?;
        let params = parse_params(pod)?;
        Ok(NodeInfo {
            max_input_ports,
            max_output_ports,
            change_mask: NodeInfoChangeMask::from_bits_retain(change_mask),
            flags: NodeFlags::from_bits_retain(flags),
            props,
            params,
        })
    }
}

/// Read `n` pods of any type; also give what follows.
pub open spec fn spec_read_pods(s: Seq<u8>, n: int) -> PodResult<(Seq<PodView>, Seq<u8>)>
    decreases n,
{
    if n <= 0 {
        Ok((Seq::empty(), s))
    } else {
        match spec_read_plain(FieldKind::Pod, s) {
            Ok((Field::Pod(h), s1)) => spec_then(seq![h], spec_read_pods(s1, n - 1)),
            Ok(_) => Err(DeserializeError::UnexpectedEnd),
            Err(e) => Err(e),
        }
    }
}

/// The plain values of owned pods.
pub open spec fn spec_pods_view(p: Seq<OwnedPod>) -> Seq<PodView> {
    p.map_values(|x: OwnedPod| x.view())
}

fn read_pods<'a>(pod: &mut PodStructDeserializer<'a>, n: i32) -> (r: PodResult<Vec<OwnedPod>>)
    ensures
        match spec_read_pods(old(pod).view(), n as int) {
            Ok((ps, rest)) => r matches Ok(x) && spec_pods_view(x@) == ps && final(pod).view()
                == rest,
            Err(e) => r == Err::<Vec<OwnedPod>, DeserializeError>(e),
        },
{
    let ghost s0 = pod.view();
    let mut v: Vec<OwnedPod> = Vec::new();
    if n <= 0 {
        assert(spec_pods_view(v@) =~= Seq::<PodView>::empty());
        return Ok(v);
    }
    let mut i: i32 = 0;
    proof {
        lemma_then_empty(spec_read_pods(s0, n as int));
        assert(spec_pods_view(v@) =~= Seq::<PodView>::empty());
    }
    while i < n
        invariant
            0 <= i <= n,
            s0 == old(pod).view(),
            spec_read_pods(s0, n as int) == spec_then(
                spec_pods_view(v@),
                spec_read_pods(pod.view(), n - i),
            ),
        decreases n - i,
    {
        let p = read_pod(pod)?;
        let ghost prev = spec_pods_view(v@);
        let ghost pv = p.view();
        v.push(p);
        proof {
            lemma_then_push(prev, pv, spec_read_pods(pod.view(), n - i - 1));
            assert(spec_pods_view(v@) =~= prev.push(pv));
        }
        i = i + 1;
    }
    proof {
        assert(spec_pods_view(v@) + Seq::<PodView>::empty() =~= spec_pods_view(v@));
    }
    Ok(v)
}

/// What an update of the node holds, as plain values.
pub struct UpdateView {
    pub change_mask: u32,
    pub params: Seq<PodView>,
    pub info: Option<NodeInfoView>,
}

/// Read an update of the node from the pod `p`: a struct of the change mask,
/// a count of parameters (none for a negative count) and the parameters,
/// then a `None` or a struct with the node info.
pub open spec fn spec_parse_update(p: PodView) -> PodResult<UpdateView> {
    if p.ty != TYPE_STRUCT {
        Err(spec_unexpected(SpaType::Struct, p.ty))
    } else {
        match spec_read_int(p.body) {
            Ok((change_mask, s1)) => match spec_read_int(s1) {
                Ok((n, s2)) => match spec_read_pods(s2, n as i32 as int) {
                    Ok((params, s3)) => match spec_read_plain(FieldKind::Pod, s3) {
                        Ok((Field::Pod(h), _)) => if h.ty == TYPE_NONE {
                            Ok(UpdateView { change_mask, params, info: None })
                        } else if h.ty != TYPE_STRUCT {
                            Err(spec_unexpected(SpaType::Struct, h.ty))
                        } else {
                            match spec_read_node_info(h.body) {
                                Ok((info, _)) => Ok(
                                    UpdateView { change_mask, params, info: Some(info) },
                                ),
                                Err(e) => Err(e),
                            }
                        },
                        Ok(_) => Err(DeserializeError::UnexpectedEnd),
                        Err(e) => Err(e),
                    },
                    Err(e) => Err(e),
                },
                Err(e) => Err(e),
            },
            Err(e) => Err(e),
        }
    }
}

/// Update the parameters and info of the node.
#[derive(Debug, Clone)]
pub struct Update {
    /// Which parts change.
    pub change_mask: UpdateChangeMask,
    /// The updated parameters.
    pub params: Vec<OwnedPod>,
    /// The updated info.
    pub info: Option<NodeInfo>,
}

impl Update {
    /// The update as plain values.
    pub open spec fn view(self) -> UpdateView {
        UpdateView {
            change_mask: self.change_mask.spec_bits(),
            params: spec_pods_view(self.params@),
            info: match self.info {
                Some(i) => Some(i.view()),
                None => None,
            },
        }
    }

    /// Read an update from its pod.
    pub fn deserialize(pod: &mut PodDeserializer<'_>) -> (r: PodResult<Self>)
        requires
            old(pod).valid(),
        ensures
            match spec_parse_update(old(pod).view()) {
                Ok(v) => r matches Ok(x) && x.view() == v,
                Err(e) => r == Err::<Self, DeserializeError>(e),
            },
    {
        let mut s = pod.as_struct()?;
        let change_mask = read_int(&mut s)?;
        let n = read_i32(&mut s)?;
        proof {
            assert((n as u32) as i32 == n) by (bit_vector);
        }
        let params = read_pods(&mut s, n)?;
        let field = s.pop_field()?;
        let info = if field.is_none() {
            None
        } else {
            let mut f = field.as_struct()?;
            Some(NodeInfo::deserialize(&mut f)?)
        };
        Ok(Update { change_mask: UpdateChangeMask::from_bits_retain(change_mask), params, info })
    }
}

/// What a port info holds, as plain values.
pub struct PortInfoView {
    pub change_mask: u64,
    pub flags: u64,
    pub rate_num: u32,
    pub rate_denom: u32,
    pub items: Seq<(Seq<char>, Seq<char>)>,
    pub params: Seq<(u32, u32)>,
}

/// Read the fields of a port info: the change mask and flags, the rate, a
/// dictionary and parameter infos; also give what follows.
pub open spec fn spec_read_port_info(s: Seq<u8>) -> PodResult<(PortInfoView, Seq<u8>)> {
    match spec_read_long(s) {
        Ok((change_mask, s1)) => match spec_read_long(s1) {
            Ok((flags, s2)) => match spec_read_int(s2) {
                Ok((rate_num, s3)) => match spec_read_int(s3) {
                    Ok((rate_denom, s4)) => match spec_parse_dict(s4) {
                        Ok((items, s5)) => match spec_parse_params(s5) {
                            Ok((params, s6)) => Ok(
                                (
                                    PortInfoView {
                                        change_mask,
                                        flags,
                                        rate_num,
                                        rate_denom,
                                        items,
                                        params,
                                    },
                                    s6,
                                ),
                            ),
                            Err(e) => Err(e),
                        },
                        Err(e) => Err(e),
                    },
                    Err(e) => Err(e),
                },
                Err(e) => Err(e),
            },
            Err(e) => Err(e),
        },
        Err(e) => Err(e),
    }
}

/// The info of a port, part of a port update.
#[derive(Debug, Clone)]
pub struct PortInfo {
    /// Which parts changed.
    pub change_mask: PortInfoChangeMask,
    /// The flags, when the change mask has them.
    pub flags: PortFlags,
    /// The rate numerator.
    pub rate_num: u32,
    /// The rate denominator, when the change mask has the rate.
    pub rate_denom: u32,
    /// The properties, when the change mask has them.
    pub items: PwDictionary,
    /// The parameter infos, when the change mask has them.
    pub params: Vec<ParamInfo>,
}

impl PortInfo {
    /// The info as plain values.
    pub open spec fn view(self) -> PortInfoView {
        PortInfoView {
            change_mask: self.change_mask.spec_bits(),
            flags: self.flags.spec_bits(),
            rate_num: self.rate_num,
            rate_denom: self.rate_denom,
            items: spec_dict_view(self.items@),
            params: spec_params_view(self.params@),
        }
    }

    /// Read a port info from the fields of a struct.
    pub fn deserialize<'a>(pod: &mut PodStructDeserializer<'a>) -> (r: PodResult<Self>)
        ensures
            match spec_read_port_info(old(pod).view()) {
                Ok((v, rest)) => r matches Ok(x) && x.view() == v && final(pod).view() == rest,
                Err(e) => r == Err::<Self, DeserializeError>(e),
            },
    {
        let change_mask = read_long(pod)?;
        let flags = read_long(pod)?;
        let rate_num = read_int(pod)?;
        let rate_denom = read_int(pod)?;
        let items = parse_dict(pod)?;
        let params = parse_params(pod)?;
        Ok(PortInfo {
            change_mask: PortInfoChangeMask::from_bits_retain(change_mask),
            flags: PortFlags::from_bits_retain(flags),
            rate_num,
            rate_denom,
            items,
            params,
        })
    }
}

/// What a port update holds, as plain values.
pub struct PortUpdateView {
    pub direction: u32,
    pub port_id: u32,
    pub change_mask: u32,
    pub params: Seq<PodView>,
    pub info: Option<PortInfoView>,
}

/// Read a port update from the pod `p`: a struct of the direction, the port,
/// the change mask, a count of parameters (none for a negative count) and the
/// parameters, then a `None` or a struct with the port info.
pub open spec fn spec_parse_port_update(p: PodView) -> PodResult<PortUpdateView> {
    if p.ty != TYPE_STRUCT {
        Err(spec_unexpected(SpaType::Struct, p.ty))
    } else {
        match spec_read_int(p.body) {
            Ok((direction, s0)) => match spec_read_int(s0) {
                Ok((port_id, s1)) => match spec_read_int(s1) {
                    Ok((change_mask, s2)) => match spec_read_int(s2) {
                        Ok((n, s3)) => match spec_read_pods(s3, n as i32 as int) {
                            Ok((params, s4)) => match spec_read_plain(FieldKind::Pod, s4) {
                                Ok((Field::Pod(h), _)) => if h.ty == TYPE_NONE {
                                    Ok(
                                        PortUpdateView {
                                            direction,
                                            port_id,
                                            change_mask,
                                            params,
                                            info: None,
                                        },
                                    )
                                } else if h.ty != TYPE_STRUCT {
                                    Err(spec_unexpected(SpaType::Struct, h.ty))
                                } else {
                                    match spec_read_port_info(h.body) {
                                        Ok((info, _)) => Ok(
                                            PortUpdateView {
                                                direction,
                                                port_id,
                                                change_mask,
                                                params,
                                                info: Some(info),
                                            },
                                        ),
                                        Err(e) => Err(e),
                                    }
                                },
                                Ok(_) => Err(DeserializeError::UnexpectedEnd),
                                Err(e) => Err(e),
                            },
                            Err(e) => Err(e),
                        },
                        Err(e) => Err(e),
                    },
                    Err(e) => Err(e),
                },
                Err(e) => Err(e),
            },
            Err(e) => Err(e),
        }
    }
}

/// Create, update or destroy a port of the node: a port the server does not
/// know is created; one without info is destroyed; otherwise its info is
/// updated.
#[derive(Debug, Clone)]
pub struct PortUpdate {
    /// The direction of the port.
    pub direction: SpaEnum<SpaDirection>,
    /// The port.
    pub port_id: u32,
    /// Which parts change.
    pub change_mask: PortUpdateChangeMask,
    /// The updated parameters.
    pub params: Vec<OwnedPod>,
    /// The updated info, when the change mask has it.
    pub info: Option<PortInfo>,
}

impl PortUpdate {
    /// The update as plain values.
    pub open spec fn view(self) -> PortUpdateView {
        PortUpdateView {
            direction: spec_spa_enum_as_raw(self.direction),
            port_id: self.port_id,
            change_mask: self.change_mask.spec_bits(),
            params: spec_pods_view(self.params@),
            info: match self.info {
                Some(i) => Some(i.view()),
                None => None,
            },
        }
    }

    /// Read a port update from its pod.
    pub fn deserialize(pod: &mut PodDeserializer<'_>) -> (r: PodResult<Self>)
        requires
            old(pod).valid(),
        ensures
            match spec_parse_port_update(old(pod).view()) {
                Ok(v) => r matches Ok(x) && x.view() == v,
                Err(e) => r == Err::<Self, DeserializeError>(e),
            },
    {
        let mut s = pod.as_struct()?;
        let direction = read_int(&mut s)?;
        let port_id = read_int(&mut s)?;
        let change_mask = read_int(&mut s)?;
        let n = read_i32(&mut s)?;
        proof {
            assert((n as u32) as i32 == n) by (bit_vector);
            crate::spa_enum::law_spa_enum_raw_roundtrip::<SpaDirection>(direction);
        }
        let params = read_pods(&mut s, n)?;
        let field = s.pop_field()?;
        let info = if field.is_none() {
            None
        } else {
            let mut f = field.as_struct()?;
            Some(PortInfo::deserialize(&mut f)?)
        };
        Ok(PortUpdate {
            direction: SpaEnum::<SpaDirection>::from_raw(direction),
            port_id,
            change_mask: PortUpdateChangeMask::from_bits_retain(change_mask),
            params,
            info,
        })
    }
}


/// The fields of the pairs of `d`: each key and value string.
pub open spec fn spec_pairs_fields(d: Seq<(Seq<char>, Seq<char>)>) -> Seq<Field>
    decreases d.len(),
{
    if d.len() == 0 {
        Seq::empty()
    } else {
        spec_pairs_fields(d.drop_last()) + seq![Field::Str(d.last().0), Field::Str(d.last().1)]
    }
}

/// The fields of parameter infos: each id and flags.
pub open spec fn spec_param_fields(p: Seq<(u32, u32)>) -> Seq<Field>
    decreases p.len(),
{
    if p.len() == 0 {
        Seq::empty()
    } else {
        spec_param_fields(p.drop_last()) + seq![Field::Id(p.last().0), Field::Int(p.last().1)]
    }
}

/// The fields a node info is written as.
pub open spec fn spec_node_info_fields(i: NodeInfoView) -> Seq<Field> {
    seq![
        Field::Int(i.max_input_ports),
        Field::Int(i.max_output_ports),
        Field::Long(i.change_mask),
        Field::Long(i.flags),
        Field::Int(i.props.len() as u32),
    ] + spec_pairs_fields(i.props) + seq![Field::Int(i.params.len() as u32)] + spec_param_fields(
        i.params,
    )
}

/// The fields a port info is written as.
pub open spec fn spec_port_info_fields(i: PortInfoView) -> Seq<Field> {
    seq![
        Field::Long(i.change_mask),
        Field::Long(i.flags),
        Field::Int(i.rate_num),
        Field::Int(i.rate_denom),
        Field::Int(i.items.len() as u32),
    ] + spec_pairs_fields(i.items) + seq![Field::Int(i.params.len() as u32)] + spec_param_fields(
        i.params,
    )
}

/// The fields of pods.
pub open spec fn spec_pod_fields(p: Seq<OwnedPod>) -> Seq<Field> {
    p.map_values(|x: OwnedPod| Field::Pod(x.view()))
}

proof fn lemma_pairs_fields_index(d: Seq<(Seq<char>, Seq<char>)>, j: int)
    requires
        0 <= j < d.len(),
    ensures
        spec_pairs_fields(d).len() == 2 * d.len(),
        spec_pairs_fields(d)[2 * j] == Field::Str(d[j].0),
        spec_pairs_fields(d)[2 * j + 1] == Field::Str(d[j].1),
    decreases d.len(),
{
    lemma_pairs_fields_len(d);
    if j < d.len() - 1 {
        lemma_pairs_fields_index(d.drop_last(), j);
    }
}

pub(crate) proof fn lemma_pairs_fields_len(d: Seq<(Seq<char>, Seq<char>)>)
    ensures
        spec_pairs_fields(d).len() == 2 * d.len(),
    decreases d.len(),
{
    if d.len() > 0 {
        lemma_pairs_fields_len(d.drop_last());
    }
}

/// The strings of the pairs at `at` in fields whose bytes fit a size header
/// can be written.
pub(crate) proof fn lemma_pairs_within_ok(fs: Seq<Field>, at: int, d: Seq<(Seq<char>, Seq<char>)>)
    requires
        1 <= at,
        at + 2 * d.len() <= fs.len(),
        forall|k: int| 0 <= k < 2 * d.len() ==> fs[at + k] == #[trigger] spec_pairs_fields(d)[k],
        spec_fields_bytes(fs).len() <= u32::MAX,
    ensures
        spec_pairs_ok(d),
{
    assert forall|j: int| 0 <= j < d.len() implies #[trigger] spec_pair_ok(d[j]) by {
        lemma_pairs_fields_index(d, j);
        assert(fs[at + 2 * j] == spec_pairs_fields(d)[2 * j]);
        assert(fs[at + 2 * j + 1] == spec_pairs_fields(d)[2 * j + 1]);
        lemma_str_within_ok(fs, at + 2 * j);
        lemma_str_within_ok(fs, at + 2 * j + 1);
    }
}

fn write_pairs(w: &mut FieldWriter, d: &PwDictionary)
    requires
        old(w).wf(),
        spec_pairs_ok(spec_dict_view(d@)),
    ensures
        final(w).wf(),
        final(w).fields() == old(w).fields() + spec_pairs_fields(spec_dict_view(d@)),
{
    let ghost f0 = w.fields();
    let ghost dv = spec_dict_view(d@);
    let mut i: usize = 0;
    assert(dv.take(0) =~= Seq::<(Seq<char>, Seq<char>)>::empty());
    assert(f0 + spec_pairs_fields(dv.take(0)) =~= f0);
    while i < d.len()
        invariant
            i <= d.len(),
            w.wf(),
            dv == spec_dict_view(d@),
            spec_pairs_ok(dv),
            w.fields() == f0 + spec_pairs_fields(dv.take(i as int)),
        decreases d.len() - i,
    {
        assert(spec_pair_ok(dv[i as int]));
        w.write_str(&d[i].0);
        w.write_str(&d[i].1);
        proof {
            assert(dv.take(i + 1).drop_last() =~= dv.take(i as int));
            assert(f0 + spec_pairs_fields(dv.take(i + 1)) =~= f0 + spec_pairs_fields(
                dv.take(i as int),
            ) + seq![Field::Str(dv[i as int].0), Field::Str(dv[i as int].1)]);
        }
        i = i + 1;
    }
    assert(dv.take(d.len() as int) =~= dv);
}

fn write_param_infos(w: &mut FieldWriter, p: &Vec<ParamInfo>)
    requires
        old(w).wf(),
    ensures
        final(w).wf(),
        final(w).fields() == old(w).fields() + spec_param_fields(spec_params_view(p@)),
{
    let ghost f0 = w.fields();
    let ghost pv = spec_params_view(p@);
    let mut i: usize = 0;
    assert(pv.take(0) =~= Seq::<(u32, u32)>::empty());
    assert(f0 + spec_param_fields(pv.take(0)) =~= f0);
    while i < p.len()
        invariant
            i <= p.len(),
            w.wf(),
            pv == spec_params_view(p@),
            w.fields() == f0 + spec_param_fields(pv.take(i as int)),
        decreases p.len() - i,
    {
        w.write_id(p[i].id.as_raw());
        w.write_u32(p[i].flags.bits());
        proof {
            assert(pv.take(i + 1).drop_last() =~= pv.take(i as int));
            assert(f0 + spec_param_fields(pv.take(i + 1)) =~= f0 + spec_param_fields(
                pv.take(i as int),
            ) + seq![Field::Id(pv[i as int].0), Field::Int(pv[i as int].1)]);
        }
        i = i + 1;
    }
    assert(pv.take(p.len() as int) =~= pv);
}

impl NodeInfo {
    /// Write the info as a `Struct` field.
    pub fn serialize2(&self, w: &mut FieldWriter)
        requires
            old(w).wf(),
            spec_fits_u32(spec_fields_bytes(spec_node_info_fields(self.view()))),
        ensures
            final(w).wf(),
            final(w).fields() == old(w).fields().push(
                spec_struct_field(spec_node_info_fields(self.view())),
            ),
    {
        let ghost fs = spec_node_info_fields(self.view());
        proof {
            lemma_pairs_fields_len(self.view().props);
            lemma_pairs_within_ok(fs, 5, self.view().props);
        }
        let mut inner = FieldWriter::new();
        inner.write_u32(self.max_input_ports);
        inner.write_u32(self.max_output_ports);
        inner.write_u64(self.change_mask.bits());
        inner.write_u64(self.flags.bits());
        inner.write_u32(self.props.len() as u32);
        write_pairs(&mut inner, &self.props);
        inner.write_u32(self.params.len() as u32);
        write_param_infos(&mut inner, &self.params);
        assert(inner.fields() =~= fs);
        w.write_struct(inner);
    }
}

impl PortInfo {
    /// Write the info as a `Struct` field.
    pub fn serialize2(&self, w: &mut FieldWriter)
        requires
            old(w).wf(),
            spec_fits_u32(spec_fields_bytes(spec_port_info_fields(self.view()))),
        ensures
            final(w).wf(),
            final(w).fields() == old(w).fields().push(
                spec_struct_field(spec_port_info_fields(self.view())),
            ),
    {
        let ghost fs = spec_port_info_fields(self.view());
        proof {
            lemma_pairs_fields_len(self.view().items);
            lemma_pairs_within_ok(fs, 5, self.view().items);
        }
        let mut inner = FieldWriter::new();
        inner.write_u64(self.change_mask.bits());
        inner.write_u64(self.flags.bits());
        inner.write_u32(self.rate_num);
        inner.write_u32(self.rate_denom);
        inner.write_u32(self.items.len() as u32);
        write_pairs(&mut inner, &self.items);
        inner.write_u32(self.params.len() as u32);
        write_param_infos(&mut inner, &self.params);
        assert(inner.fields() =~= fs);
        w.write_struct(inner);
    }
}

/// Write the pods `ps` as fields, given that the message they belong to can
/// be written with them at `at`.
fn write_pods(w: &mut FieldWriter, ps: &Vec<OwnedPod>, Ghost(all): Ghost<Seq<Field>>, Ghost(at): Ghost<int>)
    requires
        old(w).wf(),
        0 <= at,
        at + ps.len() <= all.len(),
        forall|k: int| 0 <= k < ps.len() ==> all[at + k] == #[trigger] spec_pod_fields(ps@)[k],
        forall|i: int| 0 <= i < all.len() ==> spec_field_ok(#[trigger] all[i]),
    ensures
        final(w).wf(),
        final(w).fields() == old(w).fields() + spec_pod_fields(ps@),
{
    let ghost f0 = w.fields();
    let mut i: usize = 0;
    assert(f0 + spec_pod_fields(ps@).take(0) =~= f0);
    while i < ps.len()
        invariant
            i <= ps.len(),
            w.wf(),
            0 <= at,
            at + ps.len() <= all.len(),
            forall|k: int| 0 <= k < ps.len() ==> all[at + k] == #[trigger] spec_pod_fields(ps@)[k],
            forall|i: int| 0 <= i < all.len() ==> spec_field_ok(#[trigger] all[i]),
            w.fields() == f0 + spec_pod_fields(ps@).take(i as int),
        decreases ps.len() - i,
    {
        assert(all[at + i] == spec_pod_fields(ps@)[i as int]);
        assert(spec_field_ok(all[at + i]));
        w.write_pod(&ps[i]);
        assert(f0 + spec_pod_fields(ps@).take(i + 1) =~= (f0 + spec_pod_fields(ps@).take(
            i as int,
        )).push(Field::Pod(ps@[i as int].view())));
        i = i + 1;
    }
    assert(spec_pod_fields(ps@).take(ps.len() as int) =~= spec_pod_fields(ps@));
}

impl MethodSerialize for Update {
    const OPCODE: u8 = 2;

    open spec fn spec_fields(&self) -> Seq<Field> {
        seq![Field::Int(self.change_mask.spec_bits()), Field::Int(self.params.len() as u32)]
            + spec_pod_fields(self.params@) + seq![
            match self.info {
                Some(i) => spec_struct_field(spec_node_info_fields(i.view())),
                None => spec_none_field(),
            },
        ]
    }

    fn serialize(&self) -> (r: Vec<u8>) {
        let ghost all = self.spec_fields();
        let mut w = FieldWriter::new();
        w.write_u32(self.change_mask.bits());
        w.write_u32(self.params.len() as u32);
        write_pods(&mut w, &self.params, Ghost(all), Ghost(2));
        let ghost last = all.len() - 1;
        assert(spec_field_ok(all[last]));
        match &self.info {
            Some(info) => info.serialize2(&mut w),
            None => w.write_none(),
        }
        assert(w.fields() =~= all);
        w.finish()
    }
}

impl MethodSerialize for PortUpdate {
    const OPCODE: u8 = 3;

    open spec fn spec_fields(&self) -> Seq<Field> {
        seq![
            Field::Int(spec_spa_enum_as_raw(self.direction)),
            Field::Int(self.port_id),
            Field::Int(self.change_mask.spec_bits()),
            Field::Int(self.params.len() as u32),
        ] + spec_pod_fields(self.params@) + seq![
            match self.info {
                Some(i) => spec_struct_field(spec_port_info_fields(i.view())),
                None => spec_none_field(),
            },
        ]
    }

    fn serialize(&self) -> (r: Vec<u8>) {
        let ghost all = self.spec_fields();
        let mut w = FieldWriter::new();
        w.write_u32(self.direction.as_raw());
        w.write_u32(self.port_id);
        w.write_u32(self.change_mask.bits());
        w.write_u32(self.params.len() as u32);
        write_pods(&mut w, &self.params, Ghost(all), Ghost(4));
        let ghost last = all.len() - 1;
        assert(spec_field_ok(all[last]));
        match &self.info {
            Some(info) => info.serialize2(&mut w),
            None => w.write_none(),
        }
        assert(w.fields() =~= all);
        w.finish()
    }
}


/// A plane of a buffer the client allocated.
#[derive(Debug, Clone)]
pub struct PortBufferDataPlane {
    /// The memory type: a memory block shared by the server, or an offset in
    /// the buffer's memory.
    pub type_: SpaEnum<SpaDataType>,
    /// The file descriptor of the plane's memory.
    pub memfd: i32,
    /// Extra flags for the data.
    pub flags: u32,
    /// The offset where the buffer memory starts.
    pub mapoffset: u32,
    /// The most bytes of memory.
    pub maxsize: u32,
}

/// The planes of all buffers, one buffer after the other.
pub open spec fn spec_planes(b: Seq<Vec<PortBufferDataPlane>>) -> Seq<PortBufferDataPlane>
    decreases b.len(),
{
    if b.len() == 0 {
        Seq::empty()
    } else {
        spec_planes(b.drop_last()) + b.last()@
    }
}

/// The fields of planes: of each its type, the index of its descriptor among
/// those sent (the planes' order), flags, offset and size.
pub open spec fn spec_plane_fields(p: Seq<PortBufferDataPlane>) -> Seq<Field>
    decreases p.len(),
{
    if p.len() == 0 {
        Seq::empty()
    } else {
        spec_plane_fields(p.drop_last()) + seq![
            Field::Id(spec_spa_enum_as_raw(p.last().type_)),
            Field::Fd((p.len() - 1) as i64),
            Field::Int(p.last().flags),
            Field::Int(p.last().mapoffset),
            Field::Int(p.last().maxsize),
        ]
    }
}

/// Tell the server about the buffers the client allocated for a port, after
/// it was asked to use buffers.
#[derive(Debug, Clone)]
pub struct PortBuffers {
    /// The direction of the port.
    pub direction: SpaEnum<SpaDirection>,
    /// The port.
    pub port_id: u32,
    /// The mix of the port.
    pub mix_id: u32,
    /// The planes of each buffer.
    pub buffers: Vec<Vec<PortBufferDataPlane>>,
}

impl PortBuffers {
    pub const OPCODE: u8 = 6;

    /// The fields of the request: the direction, port, mix and number of
    /// buffers, then the planes of all buffers one after the other.
    pub open spec fn spec_fields(&self) -> Seq<Field> {
        seq![
            Field::Int(spec_spa_enum_as_raw(self.direction)),
            Field::Int(self.port_id),
            Field::Int(self.mix_id),
            Field::Int(self.buffers.len() as u32),
        ] + spec_plane_fields(spec_planes(self.buffers@))
    }

    /// The descriptors sent with the request: that of each plane, in order.
    pub open spec fn spec_fds(&self) -> Seq<i32> {
        spec_planes(self.buffers@).map_values(|p: PortBufferDataPlane| p.memfd)
    }

    /// The bytes of the request's struct, and the descriptors to send with it.
    pub fn serialize(&self) -> (r: (Vec<u8>, Vec<i32>))
        requires
            spec_fields_ok(self.spec_fields()),
        ensures
            r.0@ == spec_message_bytes(self.spec_fields()),
            r.1@ == self.spec_fds(),
    {
        let mut w = FieldWriter::new();
        let mut fds: Vec<i32> = Vec::new();
        w.write_u32(self.direction.as_raw());
        w.write_u32(self.port_id);
        w.write_u32(self.mix_id);
        w.write_u32(self.buffers.len() as u32);
        let ghost f0 = w.fields();
        let ghost b = self.buffers@;
        let mut i: usize = 0;
        proof {
            assert(b.take(0) =~= Seq::<Vec<PortBufferDataPlane>>::empty());
            assert(f0 + spec_plane_fields(spec_planes(b.take(0))) =~= f0);
            assert(fds@ =~= spec_planes(b.take(0)).map_values(|p: PortBufferDataPlane| p.memfd));
        }
        while i < self.buffers.len()
            invariant
                i <= self.buffers.len(),
                b == self.buffers@,
                w.wf(),
                w.fields() == f0 + spec_plane_fields(spec_planes(b.take(i as int))),
                fds@ == spec_planes(b.take(i as int)).map_values(
                    |p: PortBufferDataPlane| p.memfd,
                ),
                fds@.len() == spec_planes(b.take(i as int)).len(),
            decreases self.buffers.len() - i,
        {
            let planes = &self.buffers[i];
            let ghost done = spec_planes(b.take(i as int));
            let mut j: usize = 0;
            proof {
                assert(planes@.take(0) =~= Seq::<PortBufferDataPlane>::empty());
                assert(done + planes@.take(0) =~= done);
            }
            while j < planes.len()
                invariant
                    j <= planes.len(),
                    w.wf(),
                    w.fields() == f0 + spec_plane_fields(done + planes@.take(j as int)),
                    fds@ == (done + planes@.take(j as int)).map_values(
                        |p: PortBufferDataPlane| p.memfd,
                    ),
                    fds@.len() == (done + planes@.take(j as int)).len(),
                decreases planes.len() - j,
            {
                let p = &planes[j];
                let ghost before = done + planes@.take(j as int);
                w.write_id(p.type_.as_raw());
                let fd_id = fds.len() as i64;
                fds.push(p.memfd);
                w.write_fd(fd_id);
                w.write_u32(p.flags);
                w.write_u32(p.mapoffset);
                w.write_u32(p.maxsize);
                proof {
                    let after = done + planes@.take(j + 1);
                    assert(after =~= before.push(*p));
                    assert(after.drop_last() =~= before);
                    assert(w.fields() =~= f0 + spec_plane_fields(after));
                    assert(fds@ =~= after.map_values(|q: PortBufferDataPlane| q.memfd));
                }
                j = j + 1;
            }
            proof {
                assert(planes@.take(planes.len() as int) =~= planes@);
                assert(b.take(i + 1).drop_last() =~= b.take(i as int));
                assert(b.take(i + 1).last() == b[i as int]);
            }
            i = i + 1;
        }
        proof {
            assert(b.take(b.len() as int) =~= b);
            assert(w.fields() =~= self.spec_fields());
        }
        (w.finish(), fds)
    }

    /// The bytes of the message that sends the request to object
    /// `object_id`, and the descriptors to send with it.
    pub fn create_msg(&self, object_id: u32) -> (r: (Vec<u8>, Vec<i32>))
        requires
            spec_fields_ok(self.spec_fields()),
        ensures
            r.0@ == spec_header_bytes(
                Header {
                    object_id,
                    opcode: PortBuffers::OPCODE,
                    len: spec_message_bytes(self.spec_fields()).len() as u32,
                    seq: 0,
                    n_fds: self.spec_fds().len() as u32,
                },
            ) + spec_message_bytes(self.spec_fields()),
            r.1@ == self.spec_fds(),
    {
        let (mut pod, fds) = self.serialize();
        let header = Header {
            object_id,
            opcode: PortBuffers::OPCODE,
            len: pod.len() as u32,
            seq: 0,
            n_fds: fds.len() as u32,
        };
        let h = header.serialize();
        let mut msg = vstd::slice::slice_to_vec(h.as_slice());
        msg.append(&mut pod);
        (msg, fds)
    }
}


/// The opcodes of the interface's methods, as numbers.
pub proof fn lemma_opcodes()
    ensures
        <GetNode as MethodSerialize>::OPCODE == 1,
        <SetActive as MethodSerialize>::OPCODE == 4,
        <Event as MethodSerialize>::OPCODE == 5,
        <Update as MethodSerialize>::OPCODE == 2,
        <PortUpdate as MethodSerialize>::OPCODE == 3,
{
}


/// Writing `GetNode` puts its fields on the wire in this order: `version`, `new_id`.
pub proof fn law_get_node_wire_order(x: GetNode)
    ensures
        x.spec_fields().len() == 2,
        x.spec_fields()[0] == Field::Int(x.version),
        x.spec_fields()[1] == Field::Int(x.new_id),
{
}

/// Writing `SetActive` puts its fields on the wire in this order: `active`.
pub proof fn law_set_active_wire_order(x: SetActive)
    ensures
        x.spec_fields().len() == 1,
        x.spec_fields()[0] == Field::Bool(x.active),
{
}

/// Writing `Event` puts its fields on the wire in this order: `event`.
pub proof fn law_event_wire_order(x: Event)
    ensures
        x.spec_fields().len() == 1,
        x.spec_fields()[0] == Field::Pod(x.event.view()),
{
}

/// Writing `Update` puts its fields on the wire in this order: `change_mask`,
/// the number of `params`, each of `params`, then `info` (a struct, or none).
pub proof fn law_update_wire_order(x: Update)
    ensures
        x.spec_fields().len() == x.params@.len() + 3,
        x.spec_fields()[0] == Field::Int(x.change_mask.spec_bits()),
        x.spec_fields()[1] == Field::Int(x.params.len() as u32),
        forall|i: int| 0 <= i < x.params@.len() ==> x.spec_fields()[i + 2] == Field::Pod(
            (#[trigger] x.params@[i]).view(),
        ),
        x.spec_fields()[x.params@.len() + 2int] == (match x.info {
            Some(i) => spec_struct_field(spec_node_info_fields(i.view())),
            None => spec_none_field(),
        }),
{
}

/// Writing `PortUpdate` puts its fields on the wire in this order:
/// `direction`, `port_id`, `change_mask`, the number of `params`, each of
/// `params`, then `info` (a struct, or none).
pub proof fn law_port_update_wire_order(x: PortUpdate)
    ensures
        x.spec_fields().len() == x.params@.len() + 5,
        x.spec_fields()[0] == Field::Int(spec_spa_enum_as_raw(x.direction)),
        x.spec_fields()[1] == Field::Int(x.port_id),
        x.spec_fields()[2] == Field::Int(x.change_mask.spec_bits()),
        x.spec_fields()[3] == Field::Int(x.params.len() as u32),
        forall|i: int| 0 <= i < x.params@.len() ==> x.spec_fields()[i + 4] == Field::Pod(
            (#[trigger] x.params@[i]).view(),
        ),
        x.spec_fields()[x.params@.len() + 4int] == (match x.info {
            Some(i) => spec_struct_field(spec_port_info_fields(i.view())),
            None => spec_none_field(),
        }),
{
}

} // verus!
