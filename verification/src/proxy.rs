//! Proxies: the client's handles on server objects. Each request a proxy
//! makes is queued in the [`Context`] as the message for its object.

use vstd::prelude::*;
use crate::bytes::{lemma_le32_at, spec_u32_bytes};
use crate::context::{Context, ContextView};
use crate::spa_enum::SpaRawEnum;
use crate::spa_types::{SpaDirection, SpaParamType};
use crate::spa_enum::{spec_spa_enum_as_raw, SpaEnum};
use crate::pod_v2::Id;
use crate::pod_v2::deserialize::{OwnedPod, PodDeserializer, PodView};
use crate::pod_v2::format::{TYPE_NONE, TYPE_OBJECT};
use crate::pod_v2::laws::spec_fits_u32;
use crate::pod_v2::serialize::Builder;
use crate::protocol::codec::{
    lemma_fixed_fields_ok, spec_field_bytes, spec_field_ok, spec_fields_bytes, spec_fields_ok,
    Field,
};
use crate::protocol::{
    pw_client, pw_client_node, pw_core, pw_device, pw_link, pw_node, pw_port, pw_registry,
    spec_msg_bytes, MethodSerialize, PwDictionary,
};

verus! {

/// The id of an object of the connection.
#[derive(Debug, Clone, Copy, PartialEq, Eq, Structural)]
pub struct ObjectId {
    object_id: u32,
}

impl ObjectId {
    /// The id on the wire.
    pub closed spec fn spec_protocol_id(self) -> u32 {
        self.object_id
    }

    /// The object id with the given id on the wire.
    pub closed spec fn spec_new(object_id: u32) -> ObjectId {
        ObjectId { object_id }
    }

    pub fn new(object_id: u32) -> (r: Self)
        ensures
            r == ObjectId::spec_new(object_id),
            r.spec_protocol_id() == object_id,
    {
        ObjectId { object_id }
    }

    /// The id on the wire.
    pub fn protocol_id(&self) -> (r: u32)
        ensures
            r == self.spec_protocol_id(),
    {
        self.object_id
    }
}

/// A handle on a server object of some interface.
pub trait Proxy: Sized {
    /// The events of the interface.
    type Event;

    /// The id of the object on the wire.
    spec fn spec_proxy_id(&self) -> u32;

    fn from_id(id: ObjectId) -> (r: Self)
        ensures
            r.spec_proxy_id() == id.spec_protocol_id(),
    ;

    fn id(&self) -> (r: ObjectId)
        ensures
            r.spec_protocol_id() == self.spec_proxy_id(),
    ;
}

/// The context after queueing the message for `fs` with opcode `opcode` to
/// object `id`.
pub open spec fn spec_sent(c: ContextView, id: u32, opcode: u8, fs: Seq<Field>) -> ContextView {
    ContextView { outgoing: c.outgoing.push((spec_msg_bytes(id, opcode, fs), Seq::empty())), ..c }
}

/// Queue the message that sends `message` to object `object_id`.
fn send_to<M: MethodSerialize>(object_id: u32, context: &mut Context, message: M)
    requires
        spec_fields_ok(message.spec_fields()),
    ensures
        final(context).view() == spec_sent(
            old(context).view(),
            object_id,
            M::OPCODE,
            message.spec_fields(),
        ),
{
    let (msg, fds) = crate::protocol::create_msg_with_fds(object_id, &message);
    context.send_msg(msg.as_slice(), fds.as_slice());
}

/// Fields of fixed size can be sent.
proof fn lemma_fixed(fs: Seq<Field>)
    requires
        forall|i: int| 0 <= i < fs.len() ==> crate::protocol::codec::spec_fixed(#[trigger] fs[i]),
        fs.len() <= 8,
    ensures
        spec_fields_ok(fs),
{
    lemma_fixed_fields_ok(fs);
}

/// Fields of fixed size followed by a pod can be sent, when the pod leaves
/// room for them.
proof fn lemma_fixed_then_pod(fs: Seq<Field>, v: PodView)
    requires
        forall|i: int| 0 <= i < fs.len() ==> crate::protocol::codec::spec_fixed(#[trigger] fs[i]),
        fs.len() <= 8,
        v.body.len() + 256 <= u32::MAX,
    ensures
        spec_fields_ok(fs.push(Field::Pod(v))),
{
    lemma_fixed_fields_ok(fs);
    let all = fs.push(Field::Pod(v));
    assert(all.drop_last() =~= fs);
    assert(spec_fits_u32(v.body));
    crate::bytes::lemma_u32_bytes(v.body.len() as u32);
    crate::bytes::lemma_u32_bytes(v.ty);
    assert(spec_field_bytes(Field::Pod(v)).len() <= v.body.len() + 16);
    assert forall|i: int| 0 <= i < all.len() implies spec_field_ok(#[trigger] all[i]) by {
        if i < fs.len() {
            assert(all[i] == fs[i]);
            assert(crate::protocol::codec::spec_fixed(fs[i]));
        }
    }
}

/// The pod of a `None` value.
fn none_pod() -> (r: OwnedPod)
    ensures
        r.view() == (PodView { ty: TYPE_NONE, body: Seq::empty() }),
{
    let mut b = Builder::new();
    b.write_none();
    let bytes = b.into_inner();
    proof {
        crate::bytes::lemma_u32_bytes(0);
        crate::bytes::lemma_u32_bytes(TYPE_NONE);
        assert(bytes@.subrange(0, 4) =~= spec_u32_bytes(0));
        assert(bytes@.subrange(4, 8) =~= spec_u32_bytes(TYPE_NONE));
        lemma_le32_at(bytes@, 0, 0);
        lemma_le32_at(bytes@, 4, TYPE_NONE);
        assert(bytes@.subrange(8, 8) =~= Seq::<u8>::empty());
    }
    let (pod, _rest) = PodDeserializer::new(bytes.as_slice());
    pod.to_owned()
}

/// The core object.
#[derive(Debug, Clone)]
pub struct PwCore {
    object_id: ObjectId,
}

impl PwCore {
    /// The id of the object on the wire.
    pub open spec fn spec_id(&self) -> u32 {
        self.spec_proxy_id()
    }

    pub fn new(object_id: u32) -> (r: Self)
        ensures
            r.spec_id() == object_id,
    {
        PwCore { object_id: ObjectId::new(object_id) }
    }

    pub fn id(&self) -> (r: ObjectId)
        ensures
            r.spec_protocol_id() == self.spec_id(),
    {
        self.object_id
    }

    /// Send `message` to the core.
    pub fn send<M: MethodSerialize>(&self, context: &mut Context, message: M)
        requires
            spec_fields_ok(message.spec_fields()),
        ensures
            final(context).view() == spec_sent(
                old(context).view(),
                self.spec_id(),
                M::OPCODE,
                message.spec_fields(),
            ),
    {
        send_to(self.object_id.protocol_id(), context, message);
    }

    /// Start the conversation, with version 3 of the protocol.
    pub fn hello(&self, context: &mut Context)
        ensures
            final(context).view() == spec_sent(
                old(context).view(),
                self.spec_id(),
                <pw_core::methods::Hello as MethodSerialize>::OPCODE,
                seq![Field::Int(3)],
            ),
    {
        let m = pw_core::methods::Hello { version: 3 };
        proof {
            lemma_fixed(m.spec_fields());
            assert(m.spec_fields() == m.spec_fields());
        }
        self.send(context, m);
    }

    /// Ask for the done event with `id` and `seq`.
    pub fn sync(&self, context: &mut Context, id: u32, seq: u32)
        ensures
            final(context).view() == spec_sent(
                old(context).view(),
                self.spec_id(),
                <pw_core::methods::Sync as MethodSerialize>::OPCODE,
                seq![Field::Int(id), Field::Int(seq)],
            ),
    {
        let m = pw_core::methods::Sync { id, seq };
        proof {
            lemma_fixed(m.spec_fields());
            assert(m.spec_fields() == m.spec_fields());
        }
        self.send(context, m);
    }

    /// Answer a ping with its `id` and `seq`.
    pub fn pong(&self, context: &mut Context, id: u32, seq: u32)
        ensures
            final(context).view() == spec_sent(
                old(context).view(),
                self.spec_id(),
                <pw_core::methods::Pong as MethodSerialize>::OPCODE,
                seq![Field::Int(id), Field::Int(seq)],
            ),
    {
        let m = pw_core::methods::Pong { id, seq };
        proof {
            lemma_fixed(m.spec_fields());
            assert(m.spec_fields() == m.spec_fields());
        }
        self.send(context, m);
    }

    /// Bind the registry, as a new object.
    pub fn get_registry(&self, context: &mut Context) -> (r: PwRegistry)
        requires
            old(context).view().next_id < u32::MAX,
        ensures
            r.spec_id() == old(context).view().next_id,
            final(context).view() == spec_sent(
                ContextView { next_id: (old(context).view().next_id + 1) as u32, ..old(context).view() },
                self.spec_id(),
                <pw_core::methods::GetRegistry as MethodSerialize>::OPCODE,
                seq![Field::Int(3), Field::Int(old(context).view().next_id)],
            ),
    {
        let new_id = context.new_object().protocol_id();
        let m = pw_core::methods::GetRegistry { version: 3, new_id };
        proof {
            lemma_fixed(m.spec_fields());
            assert(m.spec_fields() == m.spec_fields());
        }
        self.send(context, m);
        PwRegistry::new(new_id)
    }

    /// Destroy the object `object_id`.
    pub fn destroy_object(&self, context: &mut Context, object_id: ObjectId)
        ensures
            final(context).view() == spec_sent(
                old(context).view(),
                self.spec_id(),
                <pw_core::methods::Destroy as MethodSerialize>::OPCODE,
                seq![Field::Int(object_id.spec_protocol_id())],
            ),
    {
        let m = pw_core::methods::Destroy { id: object_id.protocol_id() };
        proof {
            lemma_fixed(m.spec_fields());
            assert(m.spec_fields() == m.spec_fields());
        }
        self.send(context, m);
    }

    /// Create an object from a factory, as a new object of the interface of
    /// `I`: `data` is sent with the new object's id.
    pub fn create_object<I: Proxy>(
        &self,
        context: &mut Context,
        data: pw_core::methods::CreateObject,
    ) -> (r: I)
        requires
            old(context).view().next_id < u32::MAX,
            spec_fields_ok(data.spec_fields()),
        ensures
            r.spec_proxy_id() == old(context).view().next_id,
            final(context).view() == spec_sent(
                ContextView { next_id: (old(context).view().next_id + 1) as u32, ..old(context).view() },
                self.spec_id(),
                <pw_core::methods::CreateObject as MethodSerialize>::OPCODE,
                (pw_core::methods::CreateObject {
                    new_id: old(context).view().next_id,
                    ..data
                }).spec_fields(),
            ),
    {
        let new_id = context.new_object();
        let ghost data0 = data;
        let mut data = data;
        data.new_id = new_id.protocol_id();
        proof {
            lemma_new_id_len(data0, data);
        }
        self.send(context, data);
        I::from_id(new_id)
    }
}

proof fn lemma_new_id_len(a: pw_core::methods::CreateObject, b: pw_core::methods::CreateObject)
    requires
        a.factory_name == b.factory_name,
        a.interface == b.interface,
        a.version == b.version,
        a.properties == b.properties,
    ensures
        spec_fields_bytes(a.spec_fields()).len() == spec_fields_bytes(b.spec_fields()).len(),
        spec_fields_ok(a.spec_fields()) ==> spec_fields_ok(b.spec_fields()),
{
    reveal_with_fuel(spec_fields_bytes, 6);
    crate::bytes::lemma_u32_bytes(a.new_id);
    crate::bytes::lemma_u32_bytes(b.new_id);
    let fa = a.spec_fields();
    let fb = b.spec_fields();
    assert(fa.drop_last() =~= fb.drop_last());
    if spec_fields_ok(fa) {
        assert forall|i: int| 0 <= i < fb.len() implies spec_field_ok(#[trigger] fb[i]) by {
            assert(spec_field_ok(fa[i]));
        }
    }
}

impl Proxy for PwCore {
    type Event = pw_core::Event;

    closed spec fn spec_proxy_id(&self) -> u32 {
        self.object_id.spec_protocol_id()
    }

    fn from_id(object_id: ObjectId) -> (r: Self) {
        PwCore { object_id }
    }

    fn id(&self) -> (r: ObjectId) {
        self.object_id
    }
}

/// The client object.
#[derive(Debug, Clone)]
pub struct PwClient {
    object_id: ObjectId,
}

impl PwClient {
    /// The id of the object on the wire.
    pub open spec fn spec_id(&self) -> u32 {
        self.spec_proxy_id()
    }

    pub fn new(object_id: u32) -> (r: Self)
        ensures
            r.spec_id() == object_id,
    {
        PwClient { object_id: ObjectId::new(object_id) }
    }

    pub fn id(&self) -> (r: ObjectId)
        ensures
            r.spec_protocol_id() == self.spec_id(),
    {
        self.object_id
    }

    /// Send `message` to the client object.
    pub fn send<M: MethodSerialize>(&self, context: &mut Context, message: M)
        requires
            spec_fields_ok(message.spec_fields()),
        ensures
            final(context).view() == spec_sent(
                old(context).view(),
                self.spec_id(),
                M::OPCODE,
                message.spec_fields(),
            ),
    {
        send_to(self.object_id.protocol_id(), context, message);
    }

    /// Update the properties of the client.
    pub fn update_properties(&self, context: &mut Context, properties: PwDictionary)
        requires
            spec_fields_ok(
                seq![Field::Dict(crate::protocol::spec_dict_view(properties@))],
            ),
        ensures
            final(context).view() == spec_sent(
                old(context).view(),
                self.spec_id(),
                <pw_client::methods::UpdateProperties as MethodSerialize>::OPCODE,
                seq![Field::Dict(crate::protocol::spec_dict_view(properties@))],
            ),
    {
        self.send(context, pw_client::methods::UpdateProperties { properties });
    }

    /// Ask for the permissions of the client, from `index`, at most `num` of
    /// them.
    pub fn get_permissions(&self, context: &mut Context, index: u32, num: u32)
        ensures
            final(context).view() == spec_sent(
                old(context).view(),
                self.spec_id(),
                <pw_client::methods::GetPermissions as MethodSerialize>::OPCODE,
                seq![Field::Int(index), Field::Int(num)],
            ),
    {
        let m = pw_client::methods::GetPermissions { index, num };
        proof {
            lemma_fixed(m.spec_fields());
            assert(m.spec_fields() == m.spec_fields());
        }
        self.send(context, m);
    }
}

impl Proxy for PwClient {
    type Event = pw_client::Event;

    closed spec fn spec_proxy_id(&self) -> u32 {
        self.object_id.spec_protocol_id()
    }

    fn from_id(object_id: ObjectId) -> (r: Self) {
        PwClient { object_id }
    }

    fn id(&self) -> (r: ObjectId) {
        self.object_id
    }
}

/// The registry object.
#[derive(Debug, Clone)]
pub struct PwRegistry {
    object_id: ObjectId,
}

impl PwRegistry {
    /// The id of the object on the wire.
    pub open spec fn spec_id(&self) -> u32 {
        self.spec_proxy_id()
    }

    pub fn new(object_id: u32) -> (r: Self)
        ensures
            r.spec_id() == object_id,
    {
        PwRegistry { object_id: ObjectId::new(object_id) }
    }

    pub fn id(&self) -> (r: ObjectId)
        ensures
            r.spec_protocol_id() == self.spec_id(),
    {
        self.object_id
    }

    /// Send `message` to the registry.
    pub fn send<M: MethodSerialize>(&self, context: &mut Context, message: M)
        requires
            spec_fields_ok(message.spec_fields()),
        ensures
            final(context).view() == spec_sent(
                old(context).view(),
                self.spec_id(),
                M::OPCODE,
                message.spec_fields(),
            ),
    {
        send_to(self.object_id.protocol_id(), context, message);
    }

    /// Bind the global object `global`, as a new object.
    pub fn bind<I: Proxy>(&self, context: &mut Context, global: &pw_registry::events::Global) -> (r: I)
        requires
            old(context).view().next_id < u32::MAX,
            spec_fields_ok(
                seq![
                    Field::Int(global.id),
                    Field::Str(global.interface@),
                    Field::Int(global.version),
                    Field::Int(old(context).view().next_id),
                ],
            ),
        ensures
            r.spec_proxy_id() == old(context).view().next_id,
            final(context).view() == spec_sent(
                ContextView { next_id: (old(context).view().next_id + 1) as u32, ..old(context).view() },
                self.spec_id(),
                <pw_registry::methods::Bind as MethodSerialize>::OPCODE,
                seq![
                    Field::Int(global.id),
                    Field::Str(global.interface@),
                    Field::Int(global.version),
                    Field::Int(old(context).view().next_id),
                ],
            ),
    {
        let new_id = context.new_object().protocol_id();
        let m = pw_registry::methods::Bind {
            id: global.id,
            interface: global.interface.clone(),
            version: global.version,
            new_id,
        };
        assert(m.spec_fields() =~= seq![
            Field::Int(global.id),
            Field::Str(global.interface@),
            Field::Int(global.version),
            Field::Int(new_id),
        ]);
        self.send(context, m);
        I::from_id(ObjectId::new(new_id))
    }

    /// Destroy the global object `global`.
    pub fn destroy_global(&self, context: &mut Context, global: u32)
        ensures
            final(context).view() == spec_sent(
                old(context).view(),
                self.spec_id(),
                <pw_registry::methods::Destroy as MethodSerialize>::OPCODE,
                seq![Field::Int(global)],
            ),
    {
        let m = pw_registry::methods::Destroy { id: global };
        proof {
            lemma_fixed(m.spec_fields());
            assert(m.spec_fields() == m.spec_fields());
        }
        self.send(context, m);
    }
}

impl Proxy for PwRegistry {
    type Event = pw_registry::Event;

    closed spec fn spec_proxy_id(&self) -> u32 {
        self.object_id.spec_protocol_id()
    }

    fn from_id(object_id: ObjectId) -> (r: Self) {
        PwRegistry { object_id }
    }

    fn id(&self) -> (r: ObjectId) {
        self.object_id
    }
}

/// The id of the object in `param`, which must be an object pod.
fn param_object_id(param: &OwnedPod) -> (r: u32)
    requires
        param.view().ty == TYPE_OBJECT,
    ensures
        r == crate::bytes::spec_le32(param.view().body, 4),
{
    let de = param.as_deserializer();
    let obj = de.as_object().unwrap();
    obj.object_id()
}

/// A device object.
#[derive(Debug, Clone)]
pub struct PwDevice {
    object_id: ObjectId,
}

impl Proxy for PwDevice {
    type Event = pw_device::Event;

    closed spec fn spec_proxy_id(&self) -> u32 {
        self.object_id.spec_protocol_id()
    }

    fn from_id(object_id: ObjectId) -> (r: Self) {
        PwDevice { object_id }
    }

    fn id(&self) -> (r: ObjectId) {
        self.object_id
    }
}

impl PwDevice {
    /// The id of the object on the wire.
    pub open spec fn spec_id(&self) -> u32 {
        self.spec_proxy_id()
    }

    pub fn id(&self) -> (r: ObjectId)
        ensures
            r.spec_protocol_id() == self.spec_id(),
    {
        self.object_id
    }

    /// Send `message` to the device.
    pub fn send<M: MethodSerialize>(&self, context: &mut Context, message: M)
        requires
            spec_fields_ok(message.spec_fields()),
        ensures
            final(context).view() == spec_sent(
                old(context).view(),
                self.spec_id(),
                M::OPCODE,
                message.spec_fields(),
            ),
    {
        send_to(self.object_id.protocol_id(), context, message);
    }

    /// Ask for every parameter with id `id`, with no filter.
    pub fn enum_param(&self, context: &mut Context, id: SpaParamType)
        ensures
            final(context).view() == spec_sent(
                old(context).view(),
                self.spec_id(),
                <pw_device::methods::EnumParams as MethodSerialize>::OPCODE,
                seq![
                    Field::Int(0),
                    Field::Id(id.spec_to_raw()),
                    Field::Int(0),
                    Field::Int(0),
                    Field::Pod(PodView { ty: TYPE_NONE, body: Seq::empty() }),
                ],
            ),
    {
        let m = pw_device::methods::EnumParams {
            seq: 0,
            id: Id(id.to_raw_value()),
            index: 0,
            num: 0,
            filter: none_pod(),
        };
        proof {
            let fs = seq![Field::Int(0), Field::Id(id.spec_to_raw()), Field::Int(0), Field::Int(0)];
            lemma_fixed_then_pod(fs, m.filter.view());
            assert(fs.push(Field::Pod(m.filter.view())) =~= m.spec_fields());
        }
        self.send(context, m);
    }

    /// Set the parameter `param`, an object pod, under the id of its object.
    pub fn set_param(&self, context: &mut Context, param: OwnedPod)
        requires
            param.view().ty == TYPE_OBJECT,
            param.view().body.len() + 256 <= u32::MAX,
        ensures
            final(context).view() == spec_sent(
                old(context).view(),
                self.spec_id(),
                <pw_device::methods::SetParam as MethodSerialize>::OPCODE,
                seq![
                    Field::Id(crate::bytes::spec_le32(param.view().body, 4)),
                    Field::Int(0),
                    Field::Pod(param.view()),
                ],
            ),
    {
        let id = param_object_id(&param);
        let m = pw_device::methods::SetParam { id: Id(id), flags: 0, param };
        proof {
            let fs = seq![Field::Id(id), Field::Int(0)];
            lemma_fixed_then_pod(fs, m.param.view());
            assert(fs.push(Field::Pod(m.param.view())) =~= m.spec_fields());
        }
        self.send(context, m);
    }
}

/// A node object.
#[derive(Debug, Clone)]
pub struct PwNode {
    object_id: ObjectId,
}

impl Proxy for PwNode {
    type Event = pw_node::Event;

    closed spec fn spec_proxy_id(&self) -> u32 {
        self.object_id.spec_protocol_id()
    }

    fn from_id(object_id: ObjectId) -> (r: Self) {
        PwNode { object_id }
    }

    fn id(&self) -> (r: ObjectId) {
        self.object_id
    }
}

impl PwNode {
    /// The id of the object on the wire.
    pub open spec fn spec_id(&self) -> u32 {
        self.spec_proxy_id()
    }

    pub fn id(&self) -> (r: ObjectId)
        ensures
            r.spec_protocol_id() == self.spec_id(),
    {
        self.object_id
    }

    /// Send `message` to the node.
    pub fn send<M: MethodSerialize>(&self, context: &mut Context, message: M)
        requires
            spec_fields_ok(message.spec_fields()),
        ensures
            final(context).view() == spec_sent(
                old(context).view(),
                self.spec_id(),
                M::OPCODE,
                message.spec_fields(),
            ),
    {
        send_to(self.object_id.protocol_id(), context, message);
    }

    /// Ask for every parameter with id `id`, with no filter.
    pub fn enum_param(&self, context: &mut Context, id: SpaParamType)
        ensures
            final(context).view() == spec_sent(
                old(context).view(),
                self.spec_id(),
                <pw_node::methods::EnumParams as MethodSerialize>::OPCODE,
                seq![
                    Field::Int(0),
                    Field::Id(id.spec_to_raw()),
                    Field::Int(0),
                    Field::Int(0),
                    Field::Pod(PodView { ty: TYPE_NONE, body: Seq::empty() }),
                ],
            ),
    {
        let m = pw_node::methods::EnumParams {
            seq: 0,
            id: Id(id.to_raw_value()),
            index: 0,
            num: 0,
            filter: none_pod(),
        };
        proof {
            let fs = seq![Field::Int(0), Field::Id(id.spec_to_raw()), Field::Int(0), Field::Int(0)];
            lemma_fixed_then_pod(fs, m.filter.view());
            assert(fs.push(Field::Pod(m.filter.view())) =~= m.spec_fields());
        }
        self.send(context, m);
    }

    /// Set the parameter `param`, an object pod, under the id of its object.
    pub fn set_param(&self, context: &mut Context, param: OwnedPod)
        requires
            param.view().ty == TYPE_OBJECT,
            param.view().body.len() + 256 <= u32::MAX,
        ensures
            final(context).view() == spec_sent(
                old(context).view(),
                self.spec_id(),
                <pw_node::methods::SetParam as MethodSerialize>::OPCODE,
                seq![
                    Field::Id(crate::bytes::spec_le32(param.view().body, 4)),
                    Field::Int(0),
                    Field::Pod(param.view()),
                ],
            ),
    {
        let id = param_object_id(&param);
        let m = pw_node::methods::SetParam { id: Id(id), flags: 0, param };
        proof {
            let fs = seq![Field::Id(id), Field::Int(0)];
            lemma_fixed_then_pod(fs, m.param.view());
            assert(fs.push(Field::Pod(m.param.view())) =~= m.spec_fields());
        }
        self.send(context, m);
    }
}

/// A client node object: a node whose processing the client does.
#[derive(Debug, Clone)]
pub struct PwClientNode {
    object_id: ObjectId,
}

impl Proxy for PwClientNode {
    type Event = pw_client_node::Event;

    closed spec fn spec_proxy_id(&self) -> u32 {
        self.object_id.spec_protocol_id()
    }

    fn from_id(object_id: ObjectId) -> (r: Self) {
        PwClientNode { object_id }
    }

    fn id(&self) -> (r: ObjectId) {
        self.object_id
    }
}

impl PwClientNode {
    /// The id of the object on the wire.
    pub open spec fn spec_id(&self) -> u32 {
        self.spec_proxy_id()
    }

    pub fn id(&self) -> (r: ObjectId)
        ensures
            r.spec_protocol_id() == self.spec_id(),
    {
        self.object_id
    }

    /// Send `message` to the client node.
    pub fn send<M: MethodSerialize>(&self, context: &mut Context, message: M)
        requires
            spec_fields_ok(message.spec_fields()),
        ensures
            final(context).view() == spec_sent(
                old(context).view(),
                self.spec_id(),
                M::OPCODE,
                message.spec_fields(),
            ),
    {
        send_to(self.object_id.protocol_id(), context, message);
    }

    /// Tell the server that the port allocated no buffers.
    pub fn port_buffers(&self, context: &mut Context, direction: SpaDirection, port_id: u32, mix_id: u32)
        ensures
            final(context).view() == spec_sent(
                old(context).view(),
                self.spec_id(),
                pw_client_node::methods::PortBuffers::OPCODE,
                seq![
                    Field::Int(spec_spa_enum_as_raw(SpaEnum::<SpaDirection>::Value(direction))),
                    Field::Int(port_id),
                    Field::Int(mix_id),
                    Field::Int(0),
                ],
            ),
    {
        let msg = pw_client_node::methods::PortBuffers {
            direction: SpaEnum::Value(direction),
            port_id,
            mix_id,
            buffers: Vec::new(),
        };
        let ghost fs = seq![
            Field::Int(spec_spa_enum_as_raw(SpaEnum::<SpaDirection>::Value(direction))),
            Field::Int(port_id),
            Field::Int(mix_id),
            Field::Int(0),
        ];
        proof {
            assert(msg.spec_fields() =~= fs);
            assert(msg.spec_fds() =~= Seq::<i32>::empty());
            lemma_fixed(fs);
        }
        let (bytes, fds) = msg.create_msg(self.object_id.protocol_id());
        context.send_msg(bytes.as_slice(), fds.as_slice());
    }
}

/// A link object.
#[derive(Debug, Clone)]
pub struct PwLink {
    object_id: ObjectId,
}

impl Proxy for PwLink {
    type Event = pw_link::Event;

    closed spec fn spec_proxy_id(&self) -> u32 {
        self.object_id.spec_protocol_id()
    }

    fn from_id(object_id: ObjectId) -> (r: Self) {
        PwLink { object_id }
    }

    fn id(&self) -> (r: ObjectId) {
        self.object_id
    }
}

impl PwLink {
    /// The id of the object on the wire.
    pub open spec fn spec_id(&self) -> u32 {
        self.spec_proxy_id()
    }

    pub fn id(&self) -> (r: ObjectId)
        ensures
            r.spec_protocol_id() == self.spec_id(),
    {
        self.object_id
    }
}

/// A port object.
#[derive(Debug, Clone)]
pub struct PwPort {
    object_id: ObjectId,
}

impl Proxy for PwPort {
    type Event = pw_port::Event;

    closed spec fn spec_proxy_id(&self) -> u32 {
        self.object_id.spec_protocol_id()
    }

    fn from_id(object_id: ObjectId) -> (r: Self) {
        PwPort { object_id }
    }

    fn id(&self) -> (r: ObjectId) {
        self.object_id
    }
}

impl PwPort {
    /// The id of the object on the wire.
    pub open spec fn spec_id(&self) -> u32 {
        self.spec_proxy_id()
    }

    pub fn id(&self) -> (r: ObjectId)
        ensures
            r.spec_protocol_id() == self.spec_id(),
    {
        self.object_id
    }

    /// Send `message` to the port.
    pub fn send<M: MethodSerialize>(&self, context: &mut Context, message: M)
        requires
            spec_fields_ok(message.spec_fields()),
        ensures
            final(context).view() == spec_sent(
                old(context).view(),
                self.spec_id(),
                M::OPCODE,
                message.spec_fields(),
            ),
    {
        send_to(self.object_id.protocol_id(), context, message);
    }

    /// Ask for every parameter with id `id`, with no filter.
    pub fn enum_params(&self, context: &mut Context, id: SpaParamType)
        ensures
            final(context).view() == spec_sent(
                old(context).view(),
                self.spec_id(),
                <pw_device::methods::EnumParams as MethodSerialize>::OPCODE,
                seq![
                    Field::Int(0),
                    Field::Id(id.spec_to_raw()),
                    Field::Int(0),
                    Field::Int(0),
                    Field::Pod(PodView { ty: TYPE_NONE, body: Seq::empty() }),
                ],
            ),
    {
        let m = pw_device::methods::EnumParams {
            seq: 0,
            id: Id(id.to_raw_value()),
            index: 0,
            num: 0,
            filter: none_pod(),
        };
        proof {
            let fs = seq![Field::Int(0), Field::Id(id.spec_to_raw()), Field::Int(0), Field::Int(0)];
            lemma_fixed_then_pod(fs, m.filter.view());
            assert(fs.push(Field::Pod(m.filter.view())) =~= m.spec_fields());
        }
        self.send(context, m);
    }
}

} // verus!
