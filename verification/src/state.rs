//! What a client decides in answer to the server's events: which globals to
//! bind once the registry has listed them, which parameters to ask for, and
//! which pings to answer. Every decision is a request queued in the
//! [`Context`]; the caller does the reading and writing on the socket.

use vstd::prelude::*;
use crate::bytes::spec_u32_bytes;
use crate::context::{Context, ContextView};
use crate::pod_v2::deserialize::{spec_head_view, OwnedPod, PodDeserializer, PodView};
use crate::pod_v2::format::{
    spec_pod_body, spec_pod_type, spec_valid_body, spec_valid_items, TYPE_BOOL, TYPE_FLOAT,
    TYPE_INT, TYPE_OBJECT,
};
use crate::pod_v2::laws::{law_decode_encode, spec_encode, spec_fits_u32};
use crate::pod_v2::serialize::Builder;
use crate::protocol::codec::{
    spec_field_bytes, spec_field_ok, spec_fields_bytes, spec_fields_ok, spec_str_bytes, Field,
};
use crate::connection::Message;
use crate::pod_v2::deserialize::DeserializeError;
use crate::protocol::codec::{spec_parse_fields, spec_parse_message};
use crate::protocol::{
    pw_client, pw_core, pw_device, pw_node, pw_registry, spec_params_canonical, spec_params_view,
    EventDeserialize, EventDeserializeError, HasInterface, MethodSerialize, ParamInfo,
    PwDictionary,
};
use crate::protocol::pw_registry::events::Global;
use crate::proxy::{spec_sent, PwClient, PwDevice, PwNode, PwRegistry};
use crate::spa_enum::{spec_spa_enum_as_raw, spec_spa_enum_from_raw, SpaEnum, SpaRawEnum};
use crate::spa_types::SpaParamType;
use vstd::string::StringSliceAdditionalSpecFns;
use vstd::utf8::encode_utf8;

verus! {

/// The interfaces a global object can have.
#[derive(Debug, Clone, Copy, PartialEq, Eq, Structural)]
pub enum ObjectType {
    Core,
    Client,
    Registry,
    Node,
    Device,
    Port,
    Link,
    Module,
    Factory,
    ClientNode,
    Other,
}

/// The interface that an interface name denotes.
pub open spec fn spec_object_type(name: Seq<char>) -> ObjectType {
    if name == "PipeWire:Interface:Core"@ {
        ObjectType::Core
    } else if name == "PipeWire:Interface:Client"@ {
        ObjectType::Client
    } else if name == "PipeWire:Interface:Registry"@ {
        ObjectType::Registry
    } else if name == "PipeWire:Interface:Node"@ {
        ObjectType::Node
    } else if name == "PipeWire:Interface:Device"@ {
        ObjectType::Device
    } else if name == "PipeWire:Interface:Port"@ {
        ObjectType::Port
    } else if name == "PipeWire:Interface:Link"@ {
        ObjectType::Link
    } else if name == "PipeWire:Interface:Module"@ {
        ObjectType::Module
    } else if name == "PipeWire:Interface:Factory"@ {
        ObjectType::Factory
    } else if name == "PipeWire:Interface:ClientNode"@ {
        ObjectType::ClientNode
    } else {
        ObjectType::Other
    }
}

/// `name` is the string `lit`.
fn is_named(name: &String, lit: &str) -> (r: bool)
    ensures
        r == (name@ == lit@),
{
    let l = String::from_str(lit);
    *name == l
}

/// The interface that an interface name denotes.
pub fn object_type_of(name: &String) -> (r: ObjectType)
    ensures
        r == spec_object_type(name@),
{
    if is_named(name, "PipeWire:Interface:Core") {
        ObjectType::Core
    } else if is_named(name, "PipeWire:Interface:Client") {
        ObjectType::Client
    } else if is_named(name, "PipeWire:Interface:Registry") {
        ObjectType::Registry
    } else if is_named(name, "PipeWire:Interface:Node") {
        ObjectType::Node
    } else if is_named(name, "PipeWire:Interface:Device") {
        ObjectType::Device
    } else if is_named(name, "PipeWire:Interface:Port") {
        ObjectType::Port
    } else if is_named(name, "PipeWire:Interface:Link") {
        ObjectType::Link
    } else if is_named(name, "PipeWire:Interface:Module") {
        ObjectType::Module
    } else if is_named(name, "PipeWire:Interface:Factory") {
        ObjectType::Factory
    } else if is_named(name, "PipeWire:Interface:ClientNode") {
        ObjectType::ClientNode
    } else {
        ObjectType::Other
    }
}

/// A property: its key, its flags, and its value pod.
pub open spec fn spec_property(key: u32, ty: u32, body: Seq<u8>) -> Seq<u8> {
    spec_u32_bytes(key) + spec_u32_bytes(0) + spec_encode(ty, body)
}

/// The body of the `Props` object that sets mute and volume (as float bits).
pub open spec fn spec_volume_props_body(mute: bool, volume_bits: u32) -> Seq<u8> {
    spec_u32_bytes(262146) + spec_u32_bytes(13) + spec_property(
        65540,
        TYPE_BOOL,
        spec_u32_bytes(if mute { 1 } else { 0 }),
    ) + spec_property(65539, TYPE_FLOAT, spec_u32_bytes(volume_bits))
}

/// The body of the `Route` parameter object that routes `index` to `device`
/// with the given mute and volume.
pub open spec fn spec_route_body(index: u32, device: u32, mute: bool, volume_bits: u32) -> Seq<u8> {
    spec_u32_bytes(262153) + spec_u32_bytes(13) + spec_property(1, TYPE_INT, spec_u32_bytes(index))
        + spec_property(3, TYPE_INT, spec_u32_bytes(device)) + spec_property(
        10,
        TYPE_OBJECT,
        spec_volume_props_body(mute, volume_bits),
    )
}

/// A property followed by more properties is well formed when its value and
/// the rest are.
proof fn lemma_item(key: u32, ty: u32, body: Seq<u8>, rest: Seq<u8>)
    requires
        spec_fits_u32(body),
    ensures
        spec_valid_items(spec_property(key, ty, body) + rest) == (spec_valid_body(ty, body)
            && spec_valid_items(rest)),
{
    crate::bytes::lemma_u32_bytes(key);
    crate::bytes::lemma_u32_bytes(0);
    let s = spec_property(key, ty, body) + rest;
    let p = s.subrange(8, s.len() as int);
    assert(p =~= spec_encode(ty, body) + rest);
    law_decode_encode(ty, body, rest);
    assert(spec_head_view(p) == (PodView { ty, body }));
    assert(spec_pod_type(p) == ty);
    assert(spec_pod_body(p) == body);
}

/// Closing an object whose content ends on an 8-byte boundary writes exactly
/// an object pod around that content.
proof fn lemma_close_object(prefix: Seq<u8>, content: Seq<u8>)
    requires
        content.len() % 8 == 0,
        content.len() <= u32::MAX - 8,
    ensures
        crate::pod_v2::serialize::spec_close(
            prefix + spec_u32_bytes(0) + spec_u32_bytes(TYPE_OBJECT) + content,
            prefix.len() as int,
        ) == prefix + spec_encode(TYPE_OBJECT, content),
{
    let s = prefix + spec_u32_bytes(0) + spec_u32_bytes(TYPE_OBJECT) + content;
    crate::bytes::lemma_u32_bytes(0);
    crate::bytes::lemma_u32_bytes(TYPE_OBJECT);
    assert(crate::bytes::spec_pad_to_8(content.len() as u32) == 0);
    assert(crate::bytes::spec_zeros(0) =~= Seq::<u8>::empty());
    assert(crate::pod_v2::serialize::spec_close(s, prefix.len() as int) =~= prefix + spec_encode(
        TYPE_OBJECT,
        content,
    ));
}

/// Four-byte values are short enough for a pod.
proof fn lemma_word_fits(x: u32)
    ensures
        spec_u32_bytes(x).len() == 4,
        spec_fits_u32(spec_u32_bytes(x)),
        forall|ty: u32| #[trigger] spec_encode(ty, spec_u32_bytes(x)).len() == 16,
{
    crate::bytes::lemma_u32_bytes(x);
    assert(crate::bytes::spec_pad_to_8(4) == 4);
    assert forall|ty: u32| #[trigger] spec_encode(ty, spec_u32_bytes(x)).len() == 16 by {
        crate::bytes::lemma_u32_bytes(ty);
        crate::bytes::lemma_u32_bytes(4);
    }
}

/// The `Route` parameter that routes `index` to `device` with the given mute
/// and volume (the volume as the bits of an `f32`).
#[verifier::spinoff_prover]
#[verifier::rlimit(50)]
pub fn route_param(index: u32, device: u32, mute: bool, volume_bits: u32) -> (r: OwnedPod)
    ensures
        r.view() == (PodView {
            ty: TYPE_OBJECT,
            body: spec_route_body(index, device, mute, volume_bits),
        }),
{
    let mut b = Builder::new();
    let outer = b.push_object(262153, 13);
    let ghost s0 = b.view().bytes;
    b.write_property(1, 0);
    proof {
        lemma_word_fits(index);
        crate::pod_v2::laws::law_builder_writes_pod(b.view(), TYPE_INT, spec_u32_bytes(index));
    }
    b.write_u32(index);
    b.write_property(3, 0);
    proof {
        lemma_word_fits(device);
        crate::pod_v2::laws::law_builder_writes_pod(b.view(), TYPE_INT, spec_u32_bytes(device));
    }
    b.write_u32(device);
    b.write_property(10, 0);
    let ghost s1 = b.view().bytes;
    let inner = b.push_object(262146, 13);
    b.write_property(65540, 0);
    let ghost mute_bits: u32 = if mute { 1 } else { 0 };
    proof {
        lemma_word_fits(mute_bits);
        crate::pod_v2::laws::law_builder_writes_pod(b.view(), TYPE_BOOL, spec_u32_bytes(mute_bits));
    }
    b.write_bool(mute);
    b.write_property(65539, 0);
    proof {
        lemma_word_fits(volume_bits);
        crate::pod_v2::laws::law_builder_writes_pod(
            b.view(),
            TYPE_FLOAT,
            spec_u32_bytes(volume_bits),
        );
    }
    b.write_float_bits(volume_bits);
    let ghost props = spec_volume_props_body(mute, volume_bits);
    proof {
        lemma_word_fits(262146);
        lemma_word_fits(13);
        lemma_word_fits(65540);
        lemma_word_fits(65539);
        lemma_word_fits(0);
        lemma_word_fits(TYPE_OBJECT);
        assert(b.view().bytes =~= s1 + spec_u32_bytes(0) + spec_u32_bytes(TYPE_OBJECT) + props);
        assert(props.len() == 56);
        lemma_close_object(s1, props);
    }
    inner.done(&mut b);
    let ghost body = spec_route_body(index, device, mute, volume_bits);
    proof {
        lemma_word_fits(262153);
        lemma_word_fits(1);
        lemma_word_fits(3);
        lemma_word_fits(10);
        assert(b.view().bytes =~= Seq::<u8>::empty() + spec_u32_bytes(0) + spec_u32_bytes(
            TYPE_OBJECT,
        ) + body);
        crate::bytes::lemma_u32_bytes(56);
        assert(crate::bytes::spec_pad_to_8(56) == 0);
        assert(spec_encode(TYPE_OBJECT, props).len() == 64);
        assert(body.len() == 128);
        lemma_close_object(Seq::<u8>::empty(), body);
    }
    outer.done(&mut b);
    let bytes = b.into_inner();
    proof {
        assert(bytes@ =~= spec_encode(TYPE_OBJECT, body));
        assert(spec_fits_u32(props));
        assert(spec_fits_u32(body));
        let inner_items = props.subrange(8, props.len() as int);
        let p_vol = spec_property(65539, TYPE_FLOAT, spec_u32_bytes(volume_bits));
        lemma_item(65539, TYPE_FLOAT, spec_u32_bytes(volume_bits), Seq::empty());
        assert(p_vol + Seq::<u8>::empty() =~= p_vol);
        lemma_item(65540, TYPE_BOOL, spec_u32_bytes(mute_bits), p_vol);
        assert(inner_items =~= spec_property(65540, TYPE_BOOL, spec_u32_bytes(mute_bits)) + p_vol);
        assert(spec_valid_body(TYPE_OBJECT, props));
        let p_props = spec_property(10, TYPE_OBJECT, props);
        lemma_item(10, TYPE_OBJECT, props, Seq::empty());
        assert(p_props + Seq::<u8>::empty() =~= p_props);
        let p_dev = spec_property(3, TYPE_INT, spec_u32_bytes(device));
        lemma_item(3, TYPE_INT, spec_u32_bytes(device), p_props);
        lemma_item(1, TYPE_INT, spec_u32_bytes(index), p_dev + p_props);
        assert(body.subrange(8, body.len() as int) =~= spec_property(
            1,
            TYPE_INT,
            spec_u32_bytes(index),
        ) + (p_dev + p_props));
        assert(spec_valid_body(TYPE_OBJECT, body));
        crate::pod_v2::laws::law_written_pod_is_read_back(TYPE_OBJECT, body, Seq::empty());
        assert(spec_encode(TYPE_OBJECT, body) + Seq::<u8>::empty() =~= spec_encode(
            TYPE_OBJECT,
            body,
        ));
    }
    let (pod, _rest) = PodDeserializer::new(bytes.as_slice());
    pod.to_owned()
}

/// The value of the first entry of `d` with key `k`.
pub open spec fn spec_dict_get(d: Seq<(Seq<char>, Seq<char>)>, k: Seq<char>) -> Option<Seq<char>>
    decreases d.len(),
{
    if d.len() == 0 {
        None
    } else if d[0].0 == k {
        Some(d[0].1)
    } else {
        spec_dict_get(d.drop_first(), k)
    }
}

/// Looking up past entries with other keys.
proof fn lemma_dict_get_skip(d: Seq<(Seq<char>, Seq<char>)>, i: int, k: Seq<char>)
    requires
        0 <= i <= d.len(),
        forall|j: int| 0 <= j < i ==> (#[trigger] d[j]).0 != k,
    ensures
        spec_dict_get(d, k) == spec_dict_get(d.subrange(i, d.len() as int), k),
    decreases i,
{
    if i == 0 {
        assert(d.subrange(0, d.len() as int) =~= d);
    } else {
        let t = d.drop_first();
        assert forall|j: int| 0 <= j < i - 1 implies (#[trigger] t[j]).0 != k by {
            assert(t[j] == d[j + 1]);
        }
        lemma_dict_get_skip(t, i - 1, k);
        assert(d[0].0 != k);
        assert(t.subrange(i - 1, t.len() as int) =~= d.subrange(i, d.len() as int));
    }
}

/// The value of the first entry of `d` with key `k`.
pub fn dict_get<'a>(d: &'a PwDictionary, k: &str) -> (r: Option<&'a String>)
    ensures
        match r {
            Some(v) => spec_dict_get(crate::protocol::spec_dict_view(d@), k@) == Some(v@),
            None => spec_dict_get(crate::protocol::spec_dict_view(d@), k@) is None,
        },
{
    let key = String::from_str(k);
    let ghost dv = crate::protocol::spec_dict_view(d@);
    let n = d.len();
    let mut i: usize = 0;
    while i < n
        invariant
            n == d@.len(),
            dv == crate::protocol::spec_dict_view(d@),
            dv.len() == n,
            i <= n,
            key@ == k@,
            forall|j: int| 0 <= j < i ==> (#[trigger] dv[j]).0 != k@,
        decreases n - i,
    {
        if d[i].0 == key {
            proof {
                lemma_dict_get_skip(dv, i as int, k@);
                assert(dv.subrange(i as int, n as int)[0] == dv[i as int]);
            }
            return Some(&d[i].1);
        }
        i = i + 1;
    }
    proof {
        lemma_dict_get_skip(dv, n as int, k@);
    }
    None
}

/// The id of a global, from its fields.
pub open spec fn spec_global_id(g: Seq<Field>) -> u32 {
    match g[0] {
        Field::Int(v) => v,
        _ => 0,
    }
}

/// The interface name of a global, from its fields.
pub open spec fn spec_global_interface(g: Seq<Field>) -> Seq<char> {
    match g[2] {
        Field::Str(s) => s,
        _ => Seq::empty(),
    }
}

/// The interface version of a global, from its fields.
pub open spec fn spec_global_version(g: Seq<Field>) -> u32 {
    match g[3] {
        Field::Int(v) => v,
        _ => 0,
    }
}

/// The properties of a global, from its fields.
pub open spec fn spec_global_props(g: Seq<Field>) -> Seq<(Seq<char>, Seq<char>)> {
    match g[4] {
        Field::Dict(d) => d,
        _ => Seq::empty(),
    }
}

/// The interface of a global, from its fields.
pub open spec fn spec_global_type(g: Seq<Field>) -> ObjectType {
    spec_object_type(spec_global_interface(g))
}

/// The longest interface name, in bytes, that a bind request carries.
pub const MAX_INTERFACE_BYTES: u64 = 0xffff_0000;

/// A global can be bound from context `c`: an id is left to give out and its
/// interface name fits in a message.
pub open spec fn spec_bindable(g: Seq<Field>, c: ContextView) -> bool {
    &&& c.next_id < u32::MAX
    &&& encode_utf8(spec_global_interface(g)).len() <= MAX_INTERFACE_BYTES
}

/// The fields of the request that binds `g` as object `new_id`.
pub open spec fn spec_bind_fields(g: Seq<Field>, new_id: u32) -> Seq<Field> {
    seq![
        Field::Int(spec_global_id(g)),
        Field::Str(spec_global_interface(g)),
        Field::Int(spec_global_version(g)),
        Field::Int(new_id),
    ]
}

/// The context after the registry `registry` binds `g` as the next object.
pub open spec fn spec_bound(c: ContextView, registry: u32, g: Seq<Field>) -> ContextView {
    spec_sent(
        ContextView { next_id: (c.next_id + 1) as u32, ..c },
        registry,
        <pw_registry::methods::Bind as MethodSerialize>::OPCODE,
        spec_bind_fields(g, c.next_id),
    )
}

/// Bind every node of `gs`, in order, and handle the events of each.
pub open spec fn spec_bind_nodes(
    h: Seq<(u32, ObjectType)>,
    c: ContextView,
    registry: u32,
    gs: Seq<Seq<Field>>,
) -> (Seq<(u32, ObjectType)>, ContextView)
    decreases gs.len(),
{
    if gs.len() == 0 {
        (h, c)
    } else {
        let (h1, c1) = spec_bind_nodes(h, c, registry, gs.drop_last());
        let g = gs.last();
        if spec_global_type(g) == ObjectType::Node && spec_bindable(g, c1) {
            (h1.push((c1.next_id, ObjectType::Node)), spec_bound(c1, registry, g))
        } else {
            (h1, c1)
        }
    }
}

/// How many globals of `gs` have interface `t`.
pub open spec fn spec_count_type(gs: Seq<Seq<Field>>, t: ObjectType) -> nat
    decreases gs.len(),
{
    if gs.len() == 0 {
        0
    } else {
        spec_count_type(gs.drop_last(), t) + if spec_global_type(gs.last()) == t {
            1nat
        } else {
            0nat
        }
    }
}

/// `i` is the index of global number `n` (counting from 0) of interface `t`.
pub open spec fn spec_is_nth(gs: Seq<Seq<Field>>, t: ObjectType, n: nat, i: int) -> bool {
    &&& 0 <= i < gs.len()
    &&& spec_global_type(gs[i]) == t
    &&& spec_count_type(gs.take(i), t) == n
}

/// The index of global number `n` (counting from 0) of interface `t`.
pub open spec fn spec_nth_of_type(gs: Seq<Seq<Field>>, t: ObjectType, n: nat) -> Option<int> {
    if exists|i: int| spec_is_nth(gs, t, n, i) {
        Some(choose|i: int| spec_is_nth(gs, t, n, i))
    } else {
        None
    }
}

/// The device that the client configures: its name.
pub open spec fn spec_is_target_device(g: Seq<Field>) -> bool {
    &&& spec_global_type(g) == ObjectType::Device
    &&& spec_dict_get(spec_global_props(g), "device.name"@) == Some(
        "alsa_card.pci-0000_0b_00.6"@,
    )
}

/// The index of the first global that is the device to configure.
pub open spec fn spec_target_device(gs: Seq<Seq<Field>>) -> Option<int> {
    if exists|i: int| 0 <= i < gs.len() && spec_is_target_device(#[trigger] gs[i]) {
        Some(
            choose|i: int|
                0 <= i < gs.len() && spec_is_target_device(#[trigger] gs[i]) && forall|j: int|
                    0 <= j < i ==> !spec_is_target_device(#[trigger] gs[j]),
        )
    } else {
        None
    }
}

/// The route that the client sets on its device: route 4 to device 4,
/// unmuted, at volume 0.1.
pub open spec fn spec_device_route() -> PodView {
    PodView { ty: TYPE_OBJECT, body: spec_route_body(4, 4, false, 0x3dcc_cccd) }
}

/// What the client's state holds: its registry, the globals announced, the
/// objects whose events it handles, and the memory the server shared.
pub ghost struct StateView {
    pub registry: u32,
    pub globals: Seq<Seq<Field>>,
    pub handlers: Seq<(u32, ObjectType)>,
    pub mems: Seq<Seq<Field>>,
}

/// Bind the second client, if there is one, and ask for its first 50
/// permissions.
pub open spec fn spec_client_step(c: ContextView, registry: u32, gs: Seq<Seq<Field>>) -> ContextView {
    match spec_nth_of_type(gs, ObjectType::Client, 1) {
        Some(i) => if spec_bindable(gs[i], c) {
            spec_sent(
                spec_bound(c, registry, gs[i]),
                c.next_id,
                <pw_client::methods::GetPermissions as MethodSerialize>::OPCODE,
                seq![Field::Int(0), Field::Int(50)],
            )
        } else {
            c
        },
        None => c,
    }
}

/// Bind the device to configure, if there is one, set its route and handle
/// its events.
pub open spec fn spec_device_step(
    h: Seq<(u32, ObjectType)>,
    c: ContextView,
    registry: u32,
    gs: Seq<Seq<Field>>,
) -> (Seq<(u32, ObjectType)>, ContextView) {
    match spec_target_device(gs) {
        Some(i) => if spec_bindable(gs[i], c) {
            (
                h.push((c.next_id, ObjectType::Device)),
                spec_sent(
                    spec_bound(c, registry, gs[i]),
                    c.next_id,
                    <pw_device::methods::SetParam as MethodSerialize>::OPCODE,
                    seq![
                        Field::Id(SpaParamType::Route.spec_to_raw()),
                        Field::Int(0),
                        Field::Pod(spec_device_route()),
                    ],
                ),
            )
        } else {
            (h, c)
        },
        None => (h, c),
    }
}

/// Once the first round trip is done: bind every node and handle its events;
/// bind the second client and ask for its first 50 permissions; bind the
/// device to configure, set its route and handle its events.
pub open spec fn spec_done(s: StateView, c: ContextView) -> (StateView, ContextView) {
    let (h1, c1) = spec_bind_nodes(s.handlers, c, s.registry, s.globals);
    let c2 = spec_client_step(c1, s.registry, s.globals);
    let (h3, c3) = spec_device_step(h1, c2, s.registry, s.globals);
    (StateView { handlers: h3, ..s }, c3)
}

/// What a session that only configures the device does once the first round
/// trip is done: the device step alone.
pub open spec fn spec_done_device_only(s: StateView, c: ContextView) -> (StateView, ContextView) {
    let (h, c1) = spec_device_step(s.handlers, c, s.registry, s.globals);
    (StateView { handlers: h, ..s }, c1)
}

/// The number in an `Int` or `Id` field.
pub open spec fn spec_field_u32(f: Field) -> u32 {
    match f {
        Field::Int(v) => v,
        Field::Id(v) => v,
        _ => 0,
    }
}

/// The parameter infos in a `Params` field.
pub open spec fn spec_field_params(f: Field) -> Seq<(u32, u32)> {
    match f {
        Field::Params(p) => p,
        _ => Seq::empty(),
    }
}

/// The pod in a `Pod` field.
pub open spec fn spec_field_pod(f: Field) -> PodView {
    match f {
        Field::Pod(v) => v,
        _ => PodView { ty: 0, body: Seq::empty() },
    }
}

/// The fields of a request for every parameter with raw id `raw`, with no
/// filter.
pub open spec fn spec_enum_fields(raw: u32) -> Seq<Field> {
    seq![
        Field::Int(0),
        Field::Id(raw),
        Field::Int(0),
        Field::Int(0),
        Field::Pod(PodView { ty: crate::pod_v2::format::TYPE_NONE, body: Seq::empty() }),
    ]
}

/// Ask object `object_id` (with its parameter enumeration opcode `opcode`)
/// for every parameter of `ps` whose id names a known parameter type, in
/// order.
pub open spec fn spec_ask_params(
    c: ContextView,
    object_id: u32,
    opcode: u8,
    ps: Seq<(u32, u32)>,
) -> ContextView
    decreases ps.len(),
{
    if ps.len() == 0 {
        c
    } else {
        let c1 = spec_ask_params(c, object_id, opcode, ps.drop_last());
        let raw = ps.last().0;
        if SpaParamType::spec_from_raw(raw) is Some {
            spec_sent(c1, object_id, opcode, spec_enum_fields(raw))
        } else {
            c1
        }
    }
}

/// The parameter types whose objects a node reads.
pub open spec fn spec_node_reads(t: SpaParamType) -> bool {
    t is Format || t is EnumFormat || t is Route || t is EnumRoute || t is Profile
        || t is EnumProfile || t is Tag || t is PropInfo || t is Props || t is Io || t is PortConfig
        || t is EnumPortConfig || t is Latency || t is ProcessLatency
}

/// The parameter types whose objects a device reads.
pub open spec fn spec_device_reads(t: SpaParamType) -> bool {
    t is Route || t is EnumRoute || t is Profile || t is EnumProfile
}

/// A node `Param` event (of fields `fs`) is one a node handles: its type is
/// unknown, or it is a type a node reads and the parameter is an object.
pub open spec fn spec_node_param_ok(fs: Seq<Field>) -> bool {
    match SpaParamType::spec_from_raw(spec_field_u32(fs[1])) {
        Some(t) => spec_node_reads(t) && spec_field_pod(fs[4]).ty == TYPE_OBJECT,
        None => true,
    }
}

/// A device `Param` event (of fields `fs`) is one a device handles.
pub open spec fn spec_device_param_ok(fs: Seq<Field>) -> bool {
    match SpaParamType::spec_from_raw(spec_field_u32(fs[1])) {
        Some(t) => spec_device_reads(t) && spec_field_pod(fs[4]).ty == TYPE_OBJECT,
        None => true,
    }
}

/// A node event: its info makes the client ask for each known parameter; a
/// parameter changes nothing.
pub open spec fn spec_node_event(c: ContextView, node: u32, opcode: u8, fs: Seq<Field>) -> ContextView {
    if opcode == 0 {
        spec_ask_params(
            c,
            node,
            <pw_node::methods::EnumParams as MethodSerialize>::OPCODE,
            spec_field_params(fs[9]),
        )
    } else {
        c
    }
}

/// A device event: its info makes the client ask for each known parameter; a
/// parameter changes nothing.
pub open spec fn spec_device_event(
    c: ContextView,
    device: u32,
    opcode: u8,
    fs: Seq<Field>,
) -> ContextView {
    if opcode == 0 {
        spec_ask_params(
            c,
            device,
            <pw_device::methods::EnumParams as MethodSerialize>::OPCODE,
            spec_field_params(fs[3]),
        )
    } else {
        c
    }
}

/// Ask object `object_id` (with its parameter enumeration opcode `opcode`)
/// for every parameter of `ps` whose id is a known parameter type, in order;
/// an id kept as unknown is passed over.
pub open spec fn spec_ask_param_infos(
    c: ContextView,
    object_id: u32,
    opcode: u8,
    ps: Seq<ParamInfo>,
) -> ContextView
    decreases ps.len(),
{
    if ps.len() == 0 {
        c
    } else {
        let c1 = spec_ask_param_infos(c, object_id, opcode, ps.drop_last());
        match ps.last().id {
            SpaEnum::Value(t) => spec_sent(c1, object_id, opcode, spec_enum_fields(t.spec_to_raw())),
            SpaEnum::Unknown(_) => c1,
        }
    }
}

/// A node `Param` event a node handles: its id is kept as unknown, or it is a
/// type a node reads and the parameter is an object.
pub open spec fn spec_node_param_handled(m: pw_node::events::Param) -> bool {
    match m.id {
        SpaEnum::Value(t) => spec_node_reads(t) && m.params.view().ty == TYPE_OBJECT,
        SpaEnum::Unknown(_) => true,
    }
}

/// A device `Param` event a device handles: its id is kept as unknown, or it
/// is a type a device reads and the parameter is an object.
pub open spec fn spec_device_param_handled(m: pw_device::events::Param) -> bool {
    match m.id {
        SpaEnum::Value(t) => spec_device_reads(t) && m.params.view().ty == TYPE_OBJECT,
        SpaEnum::Unknown(_) => true,
    }
}

/// What a node event asks of object `node`: its info makes the client ask for
/// each parameter of a known type; a parameter asks nothing.
pub open spec fn spec_node_event_of(c: ContextView, node: u32, e: pw_node::Event) -> ContextView {
    match e {
        pw_node::Event::Info(info) => spec_ask_param_infos(
            c,
            node,
            <pw_node::methods::EnumParams as MethodSerialize>::OPCODE,
            info.params@,
        ),
        pw_node::Event::Param(_) => c,
    }
}

/// What a device event asks of object `device`: its info makes the client ask
/// for each parameter of a known type; a parameter asks nothing.
pub open spec fn spec_device_event_of(c: ContextView, device: u32, e: pw_device::Event) -> ContextView {
    match e {
        pw_device::Event::Info(info) => spec_ask_param_infos(
            c,
            device,
            <pw_device::methods::EnumParams as MethodSerialize>::OPCODE,
            info.params@,
        ),
        pw_device::Event::Param(_) => c,
    }
}

/// Where each id is the one its raw value denotes, asking by the ids is
/// asking by their raw values.
proof fn lemma_ask_param_infos_raw(c: ContextView, object_id: u32, opcode: u8, ps: Seq<ParamInfo>)
    requires
        spec_params_canonical(ps),
    ensures
        spec_ask_param_infos(c, object_id, opcode, ps) == spec_ask_params(
            c,
            object_id,
            opcode,
            spec_params_view(ps),
        ),
    decreases ps.len(),
{
    if ps.len() > 0 {
        let pre = ps.drop_last();
        assert forall|i: int| 0 <= i < pre.len() implies (#[trigger] pre[i]).id
            == spec_spa_enum_from_raw::<SpaParamType>(spec_spa_enum_as_raw(pre[i].id)) by {
            assert(pre[i] == ps[i]);
        }
        lemma_ask_param_infos_raw(c, object_id, opcode, pre);
        assert(spec_params_view(ps).drop_last() =~= spec_params_view(pre));
        let last = ps[ps.len() - 1];
        assert(ps.last() == last);
        assert(spec_params_view(ps).last() == last.view());
        let raw = spec_spa_enum_as_raw(last.id);
        SpaParamType::lemma_raw_inverse(raw);
        assert(last.id == spec_spa_enum_from_raw::<SpaParamType>(raw));
    }
}

/// Where a node event's ids are those their raw values denote, the event
/// asks what its raw fields ask, and a parameter is handled when its raw
/// fields are.
proof fn lemma_node_event_raw(c: ContextView, node: u32, e: pw_node::Event, fds: Seq<i32>)
    requires
        e.spec_resolved(fds),
    ensures
        spec_node_event_of(c, node, e) == spec_node_event(c, node, e.spec_opcode(), e.spec_fields()),
        e matches pw_node::Event::Param(m) ==> (spec_node_param_handled(m) == spec_node_param_ok(
            e.spec_fields(),
        )),
{
    match e {
        pw_node::Event::Info(info) => {
            lemma_ask_param_infos_raw(
                c,
                node,
                <pw_node::methods::EnumParams as MethodSerialize>::OPCODE,
                info.params@,
            );
        },
        pw_node::Event::Param(m) => {
            SpaParamType::lemma_raw_inverse(spec_spa_enum_as_raw(m.id));
        },
    }
}

/// Where a device event's ids are those their raw values denote, the event
/// asks what its raw fields ask, and a parameter is handled when its raw
/// fields are.
proof fn lemma_device_event_raw(c: ContextView, device: u32, e: pw_device::Event, fds: Seq<i32>)
    requires
        e.spec_resolved(fds),
    ensures
        spec_device_event_of(c, device, e) == spec_device_event(
            c,
            device,
            e.spec_opcode(),
            e.spec_fields(),
        ),
        e matches pw_device::Event::Param(m) ==> (spec_device_param_handled(m)
            == spec_device_param_ok(e.spec_fields())),
{
    match e {
        pw_device::Event::Info(info) => {
            lemma_ask_param_infos_raw(
                c,
                device,
                <pw_device::methods::EnumParams as MethodSerialize>::OPCODE,
                info.params@,
            );
        },
        pw_device::Event::Param(m) => {
            SpaParamType::lemma_raw_inverse(spec_spa_enum_as_raw(m.id));
        },
    }
}

/// The memory blocks of `m` but those with id `id`.
pub open spec fn spec_without_mem(m: Seq<Seq<Field>>, id: u32) -> Seq<Seq<Field>>
    decreases m.len(),
{
    if m.len() == 0 {
        m
    } else if spec_field_u32(m.last()[0]) == id {
        spec_without_mem(m.drop_last(), id)
    } else {
        spec_without_mem(m.drop_last(), id).push(m.last())
    }
}

/// A core event: the end of the first round trip (`Done` with id 0 and
/// sequence 0) triggers [`spec_done`]; a ping is answered by a pong with the
/// same id and sequence; memory blocks are recorded and forgotten.
pub open spec fn spec_core_event(s: StateView, c: ContextView, opcode: u8, fs: Seq<Field>) -> (
    StateView,
    ContextView,
) {
    if opcode == 1 && fs[0] == Field::Int(0) && fs[1] == Field::Int(0) {
        spec_done(s, c)
    } else if opcode == 2 {
        (s, spec_sent(c, 0, <crate::protocol::pw_core::methods::Pong as MethodSerialize>::OPCODE, fs))
    } else if opcode == 6 {
        (StateView { mems: s.mems.push(fs), ..s }, c)
    } else if opcode == 7 {
        (StateView { mems: spec_without_mem(s.mems, spec_field_u32(fs[0])), ..s }, c)
    } else {
        (s, c)
    }
}

/// A registry event: a new global is recorded; a removal changes nothing.
pub open spec fn spec_registry_event(s: StateView, opcode: u8, fs: Seq<Field>) -> StateView {
    if opcode == 0 {
        StateView { globals: s.globals.push(fs), ..s }
    } else {
        s
    }
}

/// Why a message could not be handled.
#[derive(Debug)]
pub enum DispatchError {
    /// The object's interface has no event with this opcode.
    UnknownOpcode { object_id: u32, opcode: u8 },
    /// The event's fields could not be read.
    Deserialize(EventDeserializeError),
    /// A parameter the object's handler does not read, or one that is not an
    /// object.
    UnexpectedParam { object_id: u32, param: u32 },
}

/// The interface whose events are handled for object `id`: the first entry
/// of `h` for it.
pub open spec fn spec_handler(h: Seq<(u32, ObjectType)>, id: u32) -> Option<ObjectType>
    decreases h.len(),
{
    if h.len() == 0 {
        None
    } else if h[0].0 == id {
        Some(h[0].1)
    } else {
        spec_handler(h.drop_first(), id)
    }
}

/// The error for an event whose fields could not be read.
pub open spec fn spec_read_error(
    interface: &'static str,
    event: &'static str,
    error: DeserializeError,
) -> DispatchError {
    DispatchError::Deserialize(EventDeserializeError { interface, event, error })
}

/// What handling a message to object `id` with opcode `opcode` and body
/// `body` does: the new state and context, or why it was refused. Messages to
/// objects without a handler are dropped.
pub open spec fn spec_dispatch(s: StateView, c: ContextView, id: u32, opcode: u8, body: PodView) -> Result<
    (StateView, ContextView),
    DispatchError,
> {
    match spec_handler(s.handlers, id) {
        Some(ObjectType::Core) => if opcode >= 9 {
            Err(DispatchError::UnknownOpcode { object_id: id, opcode })
        } else {
            match spec_parse_message(pw_core::Event::spec_kinds(opcode), body) {
                Ok(fs) => Ok(spec_core_event(s, c, opcode, fs)),
                Err(e) => Err(
                    spec_read_error(
                        <pw_core::Event as HasInterface>::INTERFACE,
                        pw_core::Event::spec_name(opcode),
                        e,
                    ),
                ),
            }
        },
        Some(ObjectType::Client) => if opcode >= 2 {
            Err(DispatchError::UnknownOpcode { object_id: id, opcode })
        } else {
            match spec_parse_message(pw_client::Event::spec_kinds(opcode), body) {
                Ok(fs) => Ok((s, c)),
                Err(e) => Err(
                    spec_read_error(
                        <pw_client::Event as HasInterface>::INTERFACE,
                        pw_client::Event::spec_name(opcode),
                        e,
                    ),
                ),
            }
        },
        Some(ObjectType::Registry) => if opcode >= 2 {
            Err(DispatchError::UnknownOpcode { object_id: id, opcode })
        } else {
            match spec_parse_message(pw_registry::Event::spec_kinds(opcode), body) {
                Ok(fs) => Ok((spec_registry_event(s, opcode, fs), c)),
                Err(e) => Err(
                    spec_read_error(
                        <pw_registry::Event as HasInterface>::INTERFACE,
                        pw_registry::Event::spec_name(opcode),
                        e,
                    ),
                ),
            }
        },
        Some(ObjectType::Node) => if opcode >= 2 {
            Err(DispatchError::UnknownOpcode { object_id: id, opcode })
        } else {
            match spec_parse_message(pw_node::Event::spec_kinds(opcode), body) {
                Ok(fs) => if opcode == 1 && !spec_node_param_ok(fs) {
                    Err(DispatchError::UnexpectedParam { object_id: id, param: spec_field_u32(fs[1]) })
                } else {
                    Ok((s, spec_node_event(c, id, opcode, fs)))
                },
                Err(e) => Err(
                    spec_read_error(
                        <pw_node::Event as HasInterface>::INTERFACE,
                        pw_node::Event::spec_name(opcode),
                        e,
                    ),
                ),
            }
        },
        Some(ObjectType::Device) => if opcode >= 2 {
            Err(DispatchError::UnknownOpcode { object_id: id, opcode })
        } else {
            match spec_parse_message(pw_device::Event::spec_kinds(opcode), body) {
                Ok(fs) => if opcode == 1 && !spec_device_param_ok(fs) {
                    Err(DispatchError::UnexpectedParam { object_id: id, param: spec_field_u32(fs[1]) })
                } else {
                    Ok((s, spec_device_event(c, id, opcode, fs)))
                },
                Err(e) => Err(
                    spec_read_error(
                        <pw_device::Event as HasInterface>::INTERFACE,
                        pw_device::Event::spec_name(opcode),
                        e,
                    ),
                ),
            }
        },
        _ => Ok((s, c)),
    }
}

/// The properties the client announces, with the host name, user name and
/// process id it runs under.
pub open spec fn spec_client_properties(host: Seq<char>, user: Seq<char>, pid: Seq<char>) -> Seq<
    (Seq<char>, Seq<char>),
> {
    seq![
        ("log.level"@, "0"@),
        ("cpu.max-align"@, "32"@),
        ("default.clock.rate"@, "48000"@),
        ("default.clock.quantum"@, "1024"@),
        ("default.clock.min-quantum"@, "32"@),
        ("default.clock.max-quantum"@, "2048"@),
        ("default.clock.quantum-limit"@, "8192"@),
        ("default.video.width"@, "640"@),
        ("default.video.height"@, "480"@),
        ("default.video.rate.num"@, "25"@),
        ("default.video.rate.denom"@, "1"@),
        ("clock.power-of-two-quantum"@, "true"@),
        ("link.max-buffers"@, "64"@),
        ("mem.warn-mlock"@, "false"@),
        ("mem.allow-mlock"@, "true"@),
        ("settings.check-quantum"@, "false"@),
        ("settings.check-rate"@, "false"@),
        ("application.name"@, "ripewire"@),
        ("application.process.binary"@, "ripewire"@),
        ("application.language"@, "en_US.UTF-8"@),
        ("application.process.id"@, pid),
        ("application.process.user"@, user),
        ("application.process.host"@, host),
        ("window.x11.display"@, ":0"@),
        ("core.version"@, "0.3.58"@),
        ("core.name"@, "pipewire-poly-185501"@),
    ]
}

/// The memory block with id `id` is among `m`.
pub open spec fn spec_has_mem(m: Seq<Seq<Field>>, id: u32) -> bool {
    exists|i: int| 0 <= i < m.len() && spec_field_u32(#[trigger] m[i][0]) == id
}

/// A bind request for a short interface name can be written.
proof fn lemma_bind_fields_ok(g: Seq<Field>, new_id: u32)
    requires
        encode_utf8(spec_global_interface(g)).len() <= MAX_INTERFACE_BYTES,
    ensures
        spec_fields_ok(spec_bind_fields(g, new_id)),
{
    let fs = spec_bind_fields(g, new_id);
    let s = spec_global_interface(g);
    let body = encode_utf8(s).push(0u8);
    lemma_word_fits(spec_global_id(g));
    lemma_word_fits(spec_global_version(g));
    lemma_word_fits(new_id);
    crate::bytes::lemma_u32_bytes(body.len() as u32);
    crate::bytes::lemma_u32_bytes(crate::pod_v2::format::TYPE_STRING);
    assert(crate::bytes::spec_pad_to_8(body.len() as u32) < 8);
    assert(spec_str_bytes(s).len() < body.len() + 16);
    let f1 = fs.take(1);
    let f2 = fs.take(2);
    let f3 = fs.take(3);
    assert(f1.drop_last() =~= Seq::<Field>::empty());
    assert(f2.drop_last() =~= f1);
    assert(f3.drop_last() =~= f2);
    assert(fs.drop_last() =~= f3);
    assert(spec_field_bytes(fs[0]).len() == 16);
    assert(spec_fields_bytes(f1.drop_last()) =~= Seq::<u8>::empty());
    assert(f1.last() == fs[0]);
    assert(f2.last() == fs[1]);
    assert(f3.last() == fs[2]);
    assert(spec_fields_bytes(f1).len() == 16);
    assert(spec_fields_bytes(f2).len() < body.len() + 32);
    assert(spec_field_bytes(fs[2]).len() == 16);
    assert(spec_fields_bytes(f3).len() < body.len() + 48);
    assert(spec_field_bytes(fs[3]).len() == 16);
    assert(spec_fields_bytes(fs).len() < body.len() + 64);
    assert forall|i: int| 0 <= i < fs.len() implies spec_field_ok(#[trigger] fs[i]) by {}
}

/// How many globals of interface `t` a longer prefix holds.
proof fn lemma_count_step(gs: Seq<Seq<Field>>, t: ObjectType, i: int)
    requires
        0 <= i < gs.len(),
    ensures
        spec_count_type(gs.take(i + 1), t) == spec_count_type(gs.take(i), t) + if spec_global_type(
            gs[i],
        ) == t {
            1nat
        } else {
            0nat
        },
{
    assert(gs.take(i + 1).drop_last() =~= gs.take(i));
}

/// Counts of a prefix grow with the prefix.
proof fn lemma_count_grows(gs: Seq<Seq<Field>>, t: ObjectType, i: int, j: int)
    requires
        0 <= i < j <= gs.len(),
        spec_global_type(gs[i]) == t,
    ensures
        spec_count_type(gs.take(j), t) >= spec_count_type(gs.take(i), t) + 1,
    decreases j - i,
{
    if j == i + 1 {
        lemma_count_step(gs, t, i);
    } else {
        lemma_count_grows(gs, t, i, j - 1);
        lemma_count_step(gs, t, j - 1);
    }
}

/// Global number `n` of interface `t` is at the only index where it can be.
proof fn lemma_nth_unique(gs: Seq<Seq<Field>>, t: ObjectType, n: nat, i: int)
    requires
        spec_is_nth(gs, t, n, i),
    ensures
        spec_nth_of_type(gs, t, n) == Some(i),
{
    let k = choose|k: int| spec_is_nth(gs, t, n, k);
    if k < i {
        lemma_count_grows(gs, t, k, i);
    } else if i < k {
        lemma_count_grows(gs, t, i, k);
    }
}

/// The index of global number `n` (counting from 0) of interface `t`.
fn nth_of_type(gs: &[Global], t: ObjectType, n: usize) -> (r: Option<usize>)
    ensures
        match r {
            Some(i) => i < gs@.len() && spec_nth_of_type(
                crate::global_list::spec_globals_view(gs@),
                t,
                n as nat,
            ) == Some(i as int),
            None => spec_nth_of_type(crate::global_list::spec_globals_view(gs@), t, n as nat)
                is None,
        },
{
    let ghost v = crate::global_list::spec_globals_view(gs@);
    let len = gs.len();
    let mut i: usize = 0;
    let mut count: usize = 0;
    while i < len
        invariant
            len == gs@.len(),
            v == crate::global_list::spec_globals_view(gs@),
            v.len() == len,
            i <= len,
            count == spec_count_type(v.take(i as int), t),
            count <= n,
            forall|j: int| 0 <= j < i ==> !spec_is_nth(v, t, n as nat, j),
        decreases len - i,
    {
        proof {
            lemma_count_step(v, t, i as int);
            assert(v[i as int] == gs@[i as int].spec_fields());
        }
        if object_type_of(&gs[i].interface) == t {
            if count == n {
                proof {
                    assert(spec_is_nth(v, t, n as nat, i as int));
                    lemma_nth_unique(v, t, n as nat, i as int);
                }
                return Some(i);
            }
            count = count + 1;
        }
        i = i + 1;
    }
    None
}

/// The index of the first global that is the device to configure.
fn target_device(gs: &[Global]) -> (r: Option<usize>)
    ensures
        match r {
            Some(i) => i < gs@.len() && spec_target_device(crate::global_list::spec_globals_view(gs@))
                == Some(i as int),
            None => spec_target_device(crate::global_list::spec_globals_view(gs@)) is None,
        },
{
    let ghost v = crate::global_list::spec_globals_view(gs@);
    let len = gs.len();
    let mut i: usize = 0;
    let wanted = String::from_str("alsa_card.pci-0000_0b_00.6");
    while i < len
        invariant
            len == gs@.len(),
            v == crate::global_list::spec_globals_view(gs@),
            v.len() == len,
            i <= len,
            wanted@ == "alsa_card.pci-0000_0b_00.6"@,
            forall|j: int| 0 <= j < i ==> !spec_is_target_device(#[trigger] v[j]),
        decreases len - i,
    {
        let g = &gs[i];
        assert(v[i as int] == g.spec_fields());
        let mut hit = false;
        if object_type_of(&g.interface) == ObjectType::Device {
            match dict_get(&g.properties, "device.name") {
                Some(name) => {
                    hit = *name == wanted;
                },
                None => {},
            }
        }
        if hit {
            proof {
                assert(spec_is_target_device(v[i as int]));
                let k = choose|k: int|
                    0 <= k < v.len() && spec_is_target_device(#[trigger] v[k]) && forall|j: int|
                        0 <= j < k ==> !spec_is_target_device(#[trigger] v[j]);
                assert(0 <= i < v.len() && spec_is_target_device(v[i as int]) && forall|j: int|
                    0 <= j < i ==> !spec_is_target_device(#[trigger] v[j]));
                if k < i {
                } else if i < k {
                    assert(!spec_is_target_device(v[i as int]));
                }
            }
            return Some(i);
        }
        assert(!spec_is_target_device(v[i as int]));
        i = i + 1;
    }
    None
}

/// The interface name of `g` fits in a bind request.
fn interface_fits(g: &Global) -> (r: bool)
    ensures
        r == (encode_utf8(g.interface@).len() <= MAX_INTERFACE_BYTES),
{
    let bytes = g.interface.as_str().as_bytes();
    (bytes.len() as u64) <= MAX_INTERFACE_BYTES
}

/// The route the client sets is an object of 128 bytes whose id is `Route`.
proof fn lemma_device_route()
    ensures
        spec_device_route().body.len() == 128,
        crate::bytes::spec_le32(spec_device_route().body, 4) == SpaParamType::Route.spec_to_raw(),
{
    let body = spec_route_body(4, 4, false, 0x3dcc_cccd);
    crate::bytes::lemma_u32_bytes(262153);
    crate::bytes::lemma_u32_bytes(13);
    lemma_word_fits(4);
    lemma_word_fits(0);
    lemma_word_fits(1);
    lemma_word_fits(3);
    lemma_word_fits(10);
    lemma_word_fits(0x3dcc_cccd);
    lemma_word_fits(262146);
    lemma_word_fits(65540);
    lemma_word_fits(65539);
    assert(body.subrange(4, 8) =~= spec_u32_bytes(13));
    crate::bytes::lemma_le32_at(body, 4, 13);
    let props = spec_volume_props_body(false, 0x3dcc_cccd);
    assert(props.len() == 56);
    crate::bytes::lemma_u32_bytes(56);
    crate::bytes::lemma_u32_bytes(TYPE_OBJECT);
    assert(crate::bytes::spec_pad_to_8(56) == 0);
    assert(spec_encode(TYPE_OBJECT, props).len() == 64);
    assert(body.len() == 128);
}

/// Bind every node of `gs`, in order, and handle the events of each.
fn bind_nodes(
    registry: &PwRegistry,
    gs: &[Global],
    handlers: &mut Vec<(u32, ObjectType)>,
    ctx: &mut Context,
)
    ensures
        (final(handlers)@, final(ctx).view()) == spec_bind_nodes(
            old(handlers)@,
            old(ctx).view(),
            registry.spec_id(),
            crate::global_list::spec_globals_view(gs@),
        ),
{
    let ghost h0 = handlers@;
    let ghost c0 = ctx.view();
    let ghost v = crate::global_list::spec_globals_view(gs@);
    let n = gs.len();
    let mut i: usize = 0;
    while i < n
        invariant
            n == gs@.len(),
            v == crate::global_list::spec_globals_view(gs@),
            v.len() == n,
            i <= n,
            (handlers@, ctx.view()) == spec_bind_nodes(h0, c0, registry.spec_id(), v.take(i as int)),
        decreases n - i,
    {
        let g = &gs[i];
        proof {
            assert(v.take(i + 1).drop_last() =~= v.take(i as int));
            assert(v.take(i + 1).last() == v[i as int]);
            assert(v[i as int] == g.spec_fields());
        }
        if object_type_of(&g.interface) == ObjectType::Node && ctx.next_object_id() < u32::MAX
            && interface_fits(g) {
            proof {
                lemma_bind_fields_ok(v[i as int], ctx.view().next_id);
            }
            let node: PwNode = registry.bind(ctx, g);
            let id = node.id().protocol_id();
            handlers.push((id, ObjectType::Node));
        }
        i = i + 1;
    }
    proof {
        assert(v.take(n as int) =~= v);
    }
}

/// Bind the second client, if there is one, and ask for its first 50
/// permissions.
fn bind_second_client(registry: &PwRegistry, gs: &[Global], ctx: &mut Context)
    ensures
        final(ctx).view() == spec_client_step(
            old(ctx).view(),
            registry.spec_id(),
            crate::global_list::spec_globals_view(gs@),
        ),
{
    let ghost v = crate::global_list::spec_globals_view(gs@);
    match nth_of_type(gs, ObjectType::Client, 1) {
        Some(k) => {
            let g = &gs[k];
            assert(v[k as int] == g.spec_fields());
            if ctx.next_object_id() < u32::MAX && interface_fits(g) {
                proof {
                    lemma_bind_fields_ok(v[k as int], ctx.view().next_id);
                }
                let client: PwClient = registry.bind(ctx, g);
                client.get_permissions(ctx, 0, 50);
            }
        },
        None => {},
    }
}

/// Bind the device to configure, if there is one, set its route and handle
/// its events.
#[verifier::spinoff_prover]
#[verifier::rlimit(50)]
fn configure_device(
    registry: &PwRegistry,
    gs: &[Global],
    handlers: &mut Vec<(u32, ObjectType)>,
    ctx: &mut Context,
)
    ensures
        (final(handlers)@, final(ctx).view()) == spec_device_step(
            old(handlers)@,
            old(ctx).view(),
            registry.spec_id(),
            crate::global_list::spec_globals_view(gs@),
        ),
{
    let ghost v = crate::global_list::spec_globals_view(gs@);
    match target_device(gs) {
        Some(k) => {
            let g = &gs[k];
            assert(v[k as int] == g.spec_fields());
            if ctx.next_object_id() < u32::MAX && interface_fits(g) {
                proof {
                    lemma_bind_fields_ok(v[k as int], ctx.view().next_id);
                }
                let device: PwDevice = registry.bind(ctx, g);
                let route = route_param(4, 4, false, 0x3dcc_cccd);
                proof {
                    lemma_device_route();
                }
                device.set_param(ctx, route);
                let id = device.id().protocol_id();
                handlers.push((id, ObjectType::Device));
            }
        },
        None => {},
    }
}

/// The parameter types whose objects a node reads.
fn node_reads(t: SpaParamType) -> (r: bool)
    ensures
        r == spec_node_reads(t),
{
    match t {
        SpaParamType::Format | SpaParamType::EnumFormat | SpaParamType::Route
        | SpaParamType::EnumRoute | SpaParamType::Profile | SpaParamType::EnumProfile
        | SpaParamType::Tag | SpaParamType::PropInfo | SpaParamType::Props | SpaParamType::Io
        | SpaParamType::PortConfig | SpaParamType::EnumPortConfig | SpaParamType::Latency
        | SpaParamType::ProcessLatency => true,
        _ => false,
    }
}

/// The parameter types whose objects a device reads.
fn device_reads(t: SpaParamType) -> (r: bool)
    ensures
        r == spec_device_reads(t),
{
    match t {
        SpaParamType::Route | SpaParamType::EnumRoute | SpaParamType::Profile
        | SpaParamType::EnumProfile => true,
        _ => false,
    }
}

/// Ask `node` for every parameter of `params` whose id is a known parameter
/// type, in order.
fn ask_node_params(node: &PwNode, params: &Vec<ParamInfo>, ctx: &mut Context)
    ensures
        final(ctx).view() == spec_ask_param_infos(
            old(ctx).view(),
            node.spec_id(),
            <pw_node::methods::EnumParams as MethodSerialize>::OPCODE,
            params@,
        ),
{
    let ghost c0 = ctx.view();
    let n = params.len();
    let mut i: usize = 0;
    while i < n
        invariant
            n == params@.len(),
            i <= n,
            ctx.view() == spec_ask_param_infos(
                c0,
                node.spec_id(),
                <pw_node::methods::EnumParams as MethodSerialize>::OPCODE,
                params@.take(i as int),
            ),
        decreases n - i,
    {
        proof {
            assert(params@.take(i + 1).drop_last() =~= params@.take(i as int));
            assert(params@.take(i + 1).last() == params@[i as int]);
        }
        match params[i].id {
            SpaEnum::Value(id) => node.enum_param(ctx, id),
            SpaEnum::Unknown(_) => {},
        }
        i = i + 1;
    }
    proof {
        assert(params@.take(n as int) =~= params@);
    }
}

/// Ask `device` for every parameter of `params` whose id is a known parameter
/// type, in order.
fn ask_device_params(device: &PwDevice, params: &Vec<ParamInfo>, ctx: &mut Context)
    ensures
        final(ctx).view() == spec_ask_param_infos(
            old(ctx).view(),
            device.spec_id(),
            <pw_device::methods::EnumParams as MethodSerialize>::OPCODE,
            params@,
        ),
{
    let ghost c0 = ctx.view();
    let n = params.len();
    let mut i: usize = 0;
    while i < n
        invariant
            n == params@.len(),
            i <= n,
            ctx.view() == spec_ask_param_infos(
                c0,
                device.spec_id(),
                <pw_device::methods::EnumParams as MethodSerialize>::OPCODE,
                params@.take(i as int),
            ),
        decreases n - i,
    {
        proof {
            assert(params@.take(i + 1).drop_last() =~= params@.take(i as int));
            assert(params@.take(i + 1).last() == params@[i as int]);
        }
        match params[i].id {
            SpaEnum::Value(id) => device.enum_param(ctx, id),
            SpaEnum::Unknown(_) => {},
        }
        i = i + 1;
    }
    proof {
        assert(params@.take(n as int) =~= params@);
    }
}

/// A node `Param` event is one a node handles.
fn node_param_ok(msg: &pw_node::events::Param) -> (r: bool)
    ensures
        r == spec_node_param_handled(*msg),
{
    match msg.id {
        SpaEnum::Value(t) => node_reads(t) && msg.params.as_deserializer().as_object().is_ok(),
        SpaEnum::Unknown(_) => true,
    }
}

/// A device `Param` event is one a device handles.
fn device_param_ok(msg: &pw_device::events::Param) -> (r: bool)
    ensures
        r == spec_device_param_handled(*msg),
{
    match msg.id {
        SpaEnum::Value(t) => device_reads(t) && msg.params.as_deserializer().as_object().is_ok(),
        SpaEnum::Unknown(_) => true,
    }
}

/// The bytes a string takes in a message, or `None` when it is too long to
/// be written.
fn str_len_in_message(s: &String) -> (r: Option<u64>)
    ensures
        match r {
            Some(n) => crate::protocol::codec::spec_str_ok(s@) && n == spec_str_bytes(s@).len() && n
                <= u32::MAX,
            None => !crate::protocol::codec::spec_str_ok(s@),
        },
{
    let l = s.as_str().as_bytes().len() as u64;
    if l > 0xffff_ffef {
        return None;
    }
    let body_len = (l + 1) as u32;
    let pad = crate::bytes::pad_to_8(body_len);
    proof {
        let body = encode_utf8(s@).push(0u8);
        assert(body.len() == body_len);
        crate::protocol::codec::lemma_encode_len(crate::pod_v2::format::TYPE_STRING, body);
    }
    Some(8 + body_len as u64 + pad as u64)
}

/// A prefix of a dictionary takes no more bytes than the whole.
proof fn lemma_pairs_prefix(d: Seq<(Seq<char>, Seq<char>)>, i: int)
    requires
        0 <= i <= d.len(),
    ensures
        crate::protocol::codec::spec_pairs_bytes(d.take(i)).len()
            <= crate::protocol::codec::spec_pairs_bytes(d).len(),
    decreases d.len(),
{
    if i < d.len() {
        assert(d.drop_last().take(i) =~= d.take(i));
        lemma_pairs_prefix(d.drop_last(), i);
    } else {
        assert(d.take(i) =~= d);
    }
}

/// Dictionary `d` can be sent as the only field of a message.
pub fn dict_fits(d: &PwDictionary) -> (r: bool)
    ensures
        r == spec_fields_ok(seq![Field::Dict(crate::protocol::spec_dict_view(d@))]),
{
    let ghost dv = crate::protocol::spec_dict_view(d@);
    let ghost fs = seq![Field::Dict(dv)];
    let n = d.len();
    let mut total: u64 = 0;
    let mut i: usize = 0;
    assert(dv.take(0) =~= Seq::<(Seq<char>, Seq<char>)>::empty());
    while i < n
        invariant
            n == d@.len(),
            dv == crate::protocol::spec_dict_view(d@),
            fs == seq![Field::Dict(dv)],
            dv.len() == n,
            i <= n,
            crate::protocol::codec::spec_pairs_ok(dv.take(i as int)),
            total == crate::protocol::codec::spec_pairs_bytes(dv.take(i as int)).len(),
            total + 32 <= u32::MAX,
        decreases n - i,
    {
        let a = str_len_in_message(&d[i].0);
        let b = str_len_in_message(&d[i].1);
        proof {
            assert(dv[i as int] == (d@[i as int].0@, d@[i as int].1@));
            assert(dv.take(i + 1).drop_last() =~= dv.take(i as int));
            assert(dv.take(i + 1).last() == dv[i as int]);
        }
        match (a, b) {
            (Some(x), Some(y)) => {
                if total + x + y + 32 > 0xffff_ffff {
                    proof {
                        lemma_pairs_prefix(dv, i + 1);
                        assert(dv.take(n as int) =~= dv);
                        lemma_word_fits(n as u32);
                        crate::bytes::lemma_u32_bytes(
                            (16 + crate::protocol::codec::spec_pairs_bytes(dv).len()) as u32,
                        );
                        crate::bytes::lemma_u32_bytes(crate::pod_v2::format::TYPE_STRUCT);
                        assert(fs.drop_last() =~= Seq::<Field>::empty());
                        assert(fs.last() == Field::Dict(dv));
                        assert(spec_fields_bytes(fs) == spec_fields_bytes(fs.drop_last())
                            + spec_field_bytes(fs.last()));
                    }
                    return false;
                }
                total = total + x + y;
                proof {
                    assert forall|j: int| 0 <= j < i + 1 implies #[trigger]
                        crate::protocol::codec::spec_pair_ok(dv.take(i + 1)[j]) by {
                        if j < i {
                            assert(dv.take(i + 1)[j] == dv.take(i as int)[j]);
                        }
                    }
                }
            },
            _ => {
                proof {
                    assert(!crate::protocol::codec::spec_pair_ok(dv[i as int]));
                    assert(!spec_field_ok(fs[0]));
                }
                return false;
            },
        }
        i = i + 1;
    }
    proof {
        assert(dv.take(n as int) =~= dv);
        crate::protocol::codec::lemma_pairs_len(dv);
        lemma_word_fits(n as u32);
        let body = spec_encode(TYPE_INT, spec_u32_bytes(dv.len() as u32))
            + crate::protocol::codec::spec_pairs_bytes(dv);
        crate::protocol::codec::lemma_encode_len(crate::pod_v2::format::TYPE_STRUCT, body);
        assert(fs.drop_last() =~= Seq::<Field>::empty());
        assert(fs.last() == Field::Dict(dv));
        assert(spec_fields_bytes(fs) == spec_fields_bytes(fs.drop_last()) + spec_field_bytes(
            fs.last(),
        ));
        assert(spec_fields_bytes(fs) =~= spec_field_bytes(fs[0]));
        assert forall|j: int| 0 <= j < fs.len() implies spec_field_ok(#[trigger] fs[j]) by {}
    }
    true
}

/// The properties the client announces, with the host name, user name and
/// process id it runs under.
pub fn properties(host: &str, user: &str, pid: &str) -> (r: PwDictionary)
    ensures
        crate::protocol::spec_dict_view(r@) == spec_client_properties(host@, user@, pid@),
{
    let mut d: PwDictionary = Vec::new();
    d.push((String::from_str("log.level"), String::from_str("0")));
    d.push((String::from_str("cpu.max-align"), String::from_str("32")));
    d.push((String::from_str("default.clock.rate"), String::from_str("48000")));
    d.push((String::from_str("default.clock.quantum"), String::from_str("1024")));
    d.push((String::from_str("default.clock.min-quantum"), String::from_str("32")));
    d.push((String::from_str("default.clock.max-quantum"), String::from_str("2048")));
    d.push((String::from_str("default.clock.quantum-limit"), String::from_str("8192")));
    d.push((String::from_str("default.video.width"), String::from_str("640")));
    d.push((String::from_str("default.video.height"), String::from_str("480")));
    d.push((String::from_str("default.video.rate.num"), String::from_str("25")));
    d.push((String::from_str("default.video.rate.denom"), String::from_str("1")));
    d.push((String::from_str("clock.power-of-two-quantum"), String::from_str("true")));
    d.push((String::from_str("link.max-buffers"), String::from_str("64")));
    d.push((String::from_str("mem.warn-mlock"), String::from_str("false")));
    d.push((String::from_str("mem.allow-mlock"), String::from_str("true")));
    d.push((String::from_str("settings.check-quantum"), String::from_str("false")));
    d.push((String::from_str("settings.check-rate"), String::from_str("false")));
    d.push((String::from_str("application.name"), String::from_str("ripewire")));
    d.push((String::from_str("application.process.binary"), String::from_str("ripewire")));
    d.push((String::from_str("application.language"), String::from_str("en_US.UTF-8")));
    d.push((String::from_str("application.process.id"), String::from_str(pid)));
    d.push((String::from_str("application.process.user"), String::from_str(user)));
    d.push((String::from_str("application.process.host"), String::from_str(host)));
    d.push((String::from_str("window.x11.display"), String::from_str(":0")));
    d.push((String::from_str("core.version"), String::from_str("0.3.58")));
    d.push((String::from_str("core.name"), String::from_str("pipewire-poly-185501")));
    assert(crate::protocol::spec_dict_view(d@) =~= spec_client_properties(host@, user@, pid@));
    d
}

/// The requests that open a session from context `c`: hello, the client's
/// properties, a registry as the next object, and a sync with id 0 and
/// sequence 0.
pub open spec fn spec_start(c: ContextView, props: Seq<(Seq<char>, Seq<char>)>) -> ContextView {
    let c1 = spec_sent(c, 0, <pw_core::methods::Hello as MethodSerialize>::OPCODE, seq![Field::Int(3)]);
    let c2 = spec_sent(
        c1,
        1,
        <pw_client::methods::UpdateProperties as MethodSerialize>::OPCODE,
        seq![Field::Dict(props)],
    );
    let c3 = spec_sent(
        ContextView { next_id: (c2.next_id + 1) as u32, ..c2 },
        0,
        <pw_core::methods::GetRegistry as MethodSerialize>::OPCODE,
        seq![Field::Int(3), Field::Int(c2.next_id)],
    );
    spec_sent(c3, 0, <pw_core::methods::Sync as MethodSerialize>::OPCODE, seq![Field::Int(0), Field::Int(0)])
}

/// The fields of the memory blocks.
pub open spec fn spec_mems_view(m: Seq<crate::protocol::pw_core::events::AddMem>) -> Seq<Seq<Field>> {
    m.map_values(|a: crate::protocol::pw_core::events::AddMem| a.spec_fields())
}

/// The client's state: its registry, the globals announced, the objects whose
/// events it handles, and the memory blocks the server shared.
pub struct PipewireState {
    registry: PwRegistry,
    globals: crate::global_list::GlobalList,
    handlers: Vec<(u32, ObjectType)>,
    mems: Vec<crate::protocol::pw_core::events::AddMem>,
}

impl PipewireState {
    pub closed spec fn view(self) -> StateView {
        StateView {
            registry: self.registry.spec_id(),
            globals: self.globals.view(),
            handlers: self.handlers@,
            mems: spec_mems_view(self.mems@),
        }
    }

    /// The state of a new connection whose registry is `registry`: no global
    /// is known yet, and the events of the core (object 0), the client
    /// (object 1) and the registry are handled.
    pub fn new(registry: PwRegistry) -> (r: Self)
        ensures
            r.view() == (StateView {
                registry: registry.spec_id(),
                globals: Seq::empty(),
                handlers: seq![
                    (0u32, ObjectType::Core),
                    (1u32, ObjectType::Client),
                    (registry.spec_id(), ObjectType::Registry),
                ],
                mems: Seq::empty(),
            }),
    {
        let reg_id = registry.id().protocol_id();
        let mut handlers: Vec<(u32, ObjectType)> = Vec::new();
        handlers.push((0, ObjectType::Core));
        handlers.push((1, ObjectType::Client));
        handlers.push((reg_id, ObjectType::Registry));
        let r = PipewireState {
            registry,
            globals: crate::global_list::GlobalList::default(),
            handlers,
            mems: Vec::new(),
        };
        assert(r.view().handlers =~= seq![
            (0u32, ObjectType::Core),
            (1u32, ObjectType::Client),
            (registry.spec_id(), ObjectType::Registry),
        ]);
        assert(r.view().mems =~= Seq::<Seq<Field>>::empty());
        r
    }

    /// Record a memory block the server shared.
    fn add_mem(&mut self, mem: crate::protocol::pw_core::events::AddMem)
        ensures
            final(self).view() == (StateView {
                mems: old(self).view().mems.push(mem.spec_fields()),
                ..old(self).view()
            }),
    {
        let ghost m0 = self.mems@;
        self.mems.push(mem);
        assert(spec_mems_view(self.mems@) =~= spec_mems_view(m0).push(mem.spec_fields()));
    }

    /// Forget the memory blocks with id `id`.
    fn remove_mem(&mut self, id: u32)
        ensures
            final(self).view() == (StateView {
                mems: spec_without_mem(old(self).view().mems, id),
                ..old(self).view()
            }),
    {
        let ghost orig = spec_mems_view(self.mems@);
        let mut i: usize = 0;
        let ghost mut j: int = 0;
        while i < self.mems.len()
            invariant
                0 <= i <= j <= orig.len(),
                spec_mems_view(self.mems@).take(i as int) == spec_without_mem(orig.take(j), id),
                spec_mems_view(self.mems@).skip(i as int) == orig.skip(j),
                self.mems@.len() - i == orig.len() - j,
                self.registry == old(self).registry,
                self.globals == old(self).globals,
                self.handlers == old(self).handlers,
                orig == spec_mems_view(old(self).mems@),
            decreases orig.len() - j,
        {
            let ghost before = spec_mems_view(self.mems@);
            proof {
                assert(orig.skip(j)[0] == before[i as int]);
                assert(orig.take(j + 1).drop_last() =~= orig.take(j));
                assert(orig.take(j + 1).last() == orig[j]);
                assert(orig[j] == orig.skip(j)[0]);
                assert(before[i as int] == self.mems@[i as int].spec_fields());
            }
            if self.mems[i].id == id {
                self.mems.remove(i);
                proof {
                    let after = spec_mems_view(self.mems@);
                    assert(after.take(i as int) =~= before.take(i as int));
                    assert(after.skip(i as int) =~= before.skip(i + 1));
                    assert(before.skip(i + 1) =~= before.skip(i as int).skip(1));
                    assert(orig.skip(j + 1) =~= orig.skip(j).skip(1));
                }
            } else {
                proof {
                    assert(before.take(i + 1) =~= before.take(i as int).push(before[i as int]));
                    assert(before.skip(i + 1) =~= before.skip(i as int).skip(1));
                    assert(orig.skip(j + 1) =~= orig.skip(j).skip(1));
                }
                i = i + 1;
            }
            proof {
                j = j + 1;
            }
        }
        proof {
            assert(spec_mems_view(self.mems@).skip(i as int).len() == 0);
            assert(orig.skip(j).len() == 0);
            assert(orig.take(j) =~= orig);
            assert(spec_mems_view(self.mems@).take(i as int) =~= spec_mems_view(self.mems@));
        }
    }

    /// Handle an event of the core: the end of the first round trip (`Done`
    /// with id 0 and sequence 0) runs [`PipewireState::done`]; a ping is
    /// answered by a pong; memory blocks are recorded and forgotten.
    pub fn core_event(&mut self, ctx: &mut Context, event: crate::protocol::pw_core::Event)
        ensures
            (final(self).view(), final(ctx).view()) == spec_core_event(
                old(self).view(),
                old(ctx).view(),
                event.spec_opcode(),
                event.spec_fields(),
            ),
    {
        match event {
            crate::protocol::pw_core::Event::Done(done) => {
                let first = match done.id {
                    Some(id) => id == 0,
                    None => false,
                };
                let seq: i32 = done.seq;
                proof {
                    assert((seq as u32 == 0) == (seq == 0)) by (bit_vector);
                }
                if first && done.seq == 0 {
                    self.done(ctx);
                }
            },
            crate::protocol::pw_core::Event::Ping(ping) => {
                let core = ctx.core_proxy();
                core.pong(ctx, ping.id, ping.seq);
            },
            crate::protocol::pw_core::Event::AddMem(mem) => {
                self.add_mem(mem);
            },
            crate::protocol::pw_core::Event::RemoveMem(mem) => {
                self.remove_mem(mem.id);
            },
            _ => {},
        }
    }

    /// The first memory block with id `id`, if any.
    pub fn mem(&self, id: u32) -> (r: Option<&crate::protocol::pw_core::events::AddMem>)
        ensures
            match r {
                Some(m) => spec_has_mem(self.view().mems, id) && m.id == id,
                None => !spec_has_mem(self.view().mems, id),
            },
    {
        let n = self.mems.len();
        let mut i: usize = 0;
        while i < n
            invariant
                n == self.mems@.len(),
                i <= n,
                forall|j: int| 0 <= j < i ==> (#[trigger] self.mems@[j]).id != id,
            decreases n - i,
        {
            if self.mems[i].id == id {
                proof {
                    assert(spec_mems_view(self.mems@)[i as int] == self.mems@[i as int].spec_fields());
                }
                return Some(&self.mems[i]);
            }
            i = i + 1;
        }
        proof {
            assert forall|j: int| 0 <= j < n implies spec_field_u32(
                #[trigger] spec_mems_view(self.mems@)[j][0],
            ) != id by {
                assert(spec_mems_view(self.mems@)[j] == self.mems@[j].spec_fields());
            }
        }
        None
    }

    /// Handle an event of a client node: its transport must name a memory
    /// block the server shared; nothing changes.
    pub fn client_node_event(&mut self, event: &crate::protocol::pw_client_node::Event)
        requires
            event.spec_opcode() == 0 ==> spec_has_mem(
                old(self).view().mems,
                spec_field_u32(event.spec_fields()[2]),
            ),
        ensures
            final(self).view() == old(self).view(),
    {
    }

    /// Handle an event of the client: nothing changes.
    pub fn client_event(&mut self, event: &pw_client::Event)
        ensures
            final(self).view() == old(self).view(),
    {
    }

    /// Handle an event of the registry: record each new global.
    pub fn registry_event(&mut self, event: &pw_registry::Event)
        ensures
            final(self).view() == spec_registry_event(
                old(self).view(),
                event.spec_opcode(),
                event.spec_fields(),
            ),
    {
        self.globals.handle_event(event);
    }

    /// Handle an event of a node: on its info, ask for each of its parameters
    /// whose type is known; a parameter of a known type must be one a node
    /// reads, as an object.
    pub fn node_event(&mut self, ctx: &mut Context, node: &PwNode, event: &pw_node::Event)
        requires
            *event matches pw_node::Event::Param(m) ==> spec_node_param_handled(m),
        ensures
            final(self).view() == old(self).view(),
            final(ctx).view() == spec_node_event_of(old(ctx).view(), node.spec_id(), *event),
    {
        match event {
            pw_node::Event::Info(info) => ask_node_params(node, &info.params, ctx),
            pw_node::Event::Param(_) => {},
        }
    }

    /// Handle an event of a device: on its info, ask for each of its
    /// parameters whose type is known; a parameter of a known type must be
    /// one a device reads, as an object.
    pub fn device_event(&mut self, ctx: &mut Context, device: &PwDevice, event: &pw_device::Event)
        requires
            *event matches pw_device::Event::Param(m) ==> spec_device_param_handled(m),
        ensures
            final(self).view() == old(self).view(),
            final(ctx).view() == spec_device_event_of(old(ctx).view(), device.spec_id(), *event),
    {
        match event {
            pw_device::Event::Info(info) => ask_device_params(device, &info.params, ctx),
            pw_device::Event::Param(_) => {},
        }
    }

    /// Open a session: say hello, announce the client's properties, get the
    /// registry and sync, so that the server answers `Done` with id 0 and
    /// sequence 0 once it has announced its globals.
    pub fn start(ctx: &mut Context, properties: PwDictionary) -> (r: Self)
        requires
            old(ctx).view().next_id < u32::MAX,
            spec_fields_ok(seq![Field::Dict(crate::protocol::spec_dict_view(properties@))]),
        ensures
            final(ctx).view() == spec_start(old(ctx).view(), crate::protocol::spec_dict_view(properties@)),
            r.view() == (StateView {
                registry: old(ctx).view().next_id,
                globals: Seq::empty(),
                handlers: seq![
                    (0u32, ObjectType::Core),
                    (1u32, ObjectType::Client),
                    (old(ctx).view().next_id, ObjectType::Registry),
                ],
                mems: Seq::empty(),
            }),
    {
        let core = ctx.core_proxy();
        let client = ctx.client_proxy();
        core.hello(ctx);
        client.update_properties(ctx, properties);
        let registry = core.get_registry(ctx);
        core.sync(ctx, 0, 0);
        PipewireState::new(registry)
    }

    /// The interface whose events are handled for object `object_id`, if any.
    pub fn handler_of(&self, object_id: u32) -> (r: Option<ObjectType>)
        ensures
            r == spec_handler(self.view().handlers, object_id),
    {
        let ghost h = self.handlers@;
        let n = self.handlers.len();
        let mut i: usize = 0;
        assert(h.subrange(0, n as int) =~= h);
        while i < n
            invariant
                n == h.len(),
                h == self.handlers@,
                i <= n,
                spec_handler(h, object_id) == spec_handler(h.subrange(i as int, n as int), object_id),
            decreases n - i,
        {
            proof {
                let t = h.subrange(i as int, n as int);
                assert(t[0] == h[i as int]);
                assert(t.drop_first() =~= h.subrange(i + 1, n as int));
            }
            if self.handlers[i].0 == object_id {
                return Some(self.handlers[i].1);
            }
            i = i + 1;
        }
        None
    }

    /// Handle a message: read the event of the interface whose events are
    /// handled for its object and handle it. Messages to other objects are
    /// dropped.
    pub fn dispatch(&mut self, ctx: &mut Context, msg: &Message) -> (r: Result<(), DispatchError>)
        requires
            msg.body.valid(),
        ensures
            match spec_dispatch(
                old(self).view(),
                old(ctx).view(),
                msg.header.object_id,
                msg.header.opcode,
                msg.body.view(),
            ) {
                Ok((s1, c1)) => r is Ok && final(self).view() == s1 && final(ctx).view() == c1,
                Err(e) => r == Err::<(), DispatchError>(e) && final(self).view() == old(
                    self,
                ).view() && final(ctx).view() == old(ctx).view(),
            },
    {
        let object_id = msg.header.object_id;
        let opcode = msg.header.opcode;
        let mut pod = msg.body;
        let fds = msg.fds.as_slice();
        match self.handler_of(object_id) {
            Some(ObjectType::Core) => {
                if opcode >= 9 {
                    return Err(DispatchError::UnknownOpcode { object_id, opcode });
                }
                match pw_core::Event::deserialize(opcode, &mut pod, fds) {
                    Ok(e) => {
                        self.core_event(ctx, e);
                        Ok(())
                    },
                    Err(e) => Err(DispatchError::Deserialize(e)),
                }
            },
            Some(ObjectType::Client) => {
                if opcode >= 2 {
                    return Err(DispatchError::UnknownOpcode { object_id, opcode });
                }
                match pw_client::Event::deserialize(opcode, &mut pod, fds) {
                    Ok(e) => {
                        self.client_event(&e);
                        Ok(())
                    },
                    Err(e) => Err(DispatchError::Deserialize(e)),
                }
            },
            Some(ObjectType::Registry) => {
                if opcode >= 2 {
                    return Err(DispatchError::UnknownOpcode { object_id, opcode });
                }
                match pw_registry::Event::deserialize(opcode, &mut pod, fds) {
                    Ok(e) => {
                        self.registry_event(&e);
                        Ok(())
                    },
                    Err(e) => Err(DispatchError::Deserialize(e)),
                }
            },
            Some(ObjectType::Node) => {
                if opcode >= 2 {
                    return Err(DispatchError::UnknownOpcode { object_id, opcode });
                }
                match pw_node::Event::deserialize(opcode, &mut pod, fds) {
                    Ok(e) => {
                        proof {
                            lemma_node_event_raw(ctx.view(), object_id, e, fds@);
                        }
                        if let pw_node::Event::Param(p) = &e {
                            if !node_param_ok(p) {
                                return Err(
                                    DispatchError::UnexpectedParam {
                                        object_id,
                                        param: p.id.as_raw(),
                                    },
                                );
                            }
                        }
                        let node = <PwNode as crate::proxy::Proxy>::from_id(
                            crate::proxy::ObjectId::new(object_id),
                        );
                        self.node_event(ctx, &node, &e);
                        Ok(())
                    },
                    Err(e) => Err(DispatchError::Deserialize(e)),
                }
            },
            Some(ObjectType::Device) => {
                if opcode >= 2 {
                    return Err(DispatchError::UnknownOpcode { object_id, opcode });
                }
                match pw_device::Event::deserialize(opcode, &mut pod, fds) {
                    Ok(e) => {
                        proof {
                            lemma_device_event_raw(ctx.view(), object_id, e, fds@);
                        }
                        if let pw_device::Event::Param(p) = &e {
                            if !device_param_ok(p) {
                                return Err(
                                    DispatchError::UnexpectedParam {
                                        object_id,
                                        param: p.id.as_raw(),
                                    },
                                );
                            }
                        }
                        let device = <PwDevice as crate::proxy::Proxy>::from_id(
                            crate::proxy::ObjectId::new(object_id),
                        );
                        self.device_event(ctx, &device, &e);
                        Ok(())
                    },
                    Err(e) => Err(DispatchError::Deserialize(e)),
                }
            },
            _ => Ok(()),
        }
    }

    /// Once the first round trip is done: bind every node and handle its
    /// events; bind the second client and ask for its first 50 permissions;
    /// bind the device to configure, set its route and handle its events.
    pub fn done(&mut self, ctx: &mut Context)
        ensures
            (final(self).view(), final(ctx).view()) == spec_done(old(self).view(), old(ctx).view()),
    {
        let gs = self.globals.iter();
        bind_nodes(&self.registry, gs, &mut self.handlers, ctx);
        bind_second_client(&self.registry, gs, ctx);
        configure_device(&self.registry, gs, &mut self.handlers, ctx);
    }

    /// Once the first round trip is done, in a session that only configures
    /// the device: bind it, if there is one, set its route and handle its
    /// events.
    pub fn done_device_only(&mut self, ctx: &mut Context)
        ensures
            (final(self).view(), final(ctx).view()) == spec_done_device_only(
                old(self).view(),
                old(ctx).view(),
            ),
    {
        let gs = self.globals.iter();
        configure_device(&self.registry, gs, &mut self.handlers, ctx);
    }
}

/// The handlers of `h1` extend those of `h`, and those added are for ids from
/// `lo` on and below `hi`.
pub open spec fn spec_fresh_handlers(
    h: Seq<(u32, ObjectType)>,
    h1: Seq<(u32, ObjectType)>,
    lo: u32,
    hi: u32,
) -> bool {
    &&& h.len() <= h1.len()
    &&& h1.subrange(0, h.len() as int) == h
    &&& forall|i: int| h.len() <= i < h1.len() ==> lo <= (#[trigger] h1[i]).0 < hi
}

proof fn lemma_bind_nodes_fresh(
    h: Seq<(u32, ObjectType)>,
    c: ContextView,
    registry: u32,
    gs: Seq<Seq<Field>>,
)
    ensures
        c.next_id <= spec_bind_nodes(h, c, registry, gs).1.next_id,
        spec_fresh_handlers(
            h,
            spec_bind_nodes(h, c, registry, gs).0,
            c.next_id,
            spec_bind_nodes(h, c, registry, gs).1.next_id,
        ),
    decreases gs.len(),
{
    if gs.len() == 0 {
        assert(h.subrange(0, h.len() as int) =~= h);
    } else {
        lemma_bind_nodes_fresh(h, c, registry, gs.drop_last());
        let (h1, c1) = spec_bind_nodes(h, c, registry, gs.drop_last());
        let g = gs.last();
        if spec_global_type(g) == ObjectType::Node && spec_bindable(g, c1) {
            let h2 = h1.push((c1.next_id, ObjectType::Node));
            assert(h2.subrange(0, h.len() as int) =~= h1.subrange(0, h.len() as int));
            assert forall|i: int| h.len() <= i < h2.len() implies c.next_id <= (#[trigger] h2[i]).0
                < c1.next_id + 1 by {
                if i < h1.len() {
                    assert(h2[i] == h1[i]);
                }
            }
        }
    }
}

proof fn lemma_ask_params_keeps_id(c: ContextView, object_id: u32, opcode: u8, ps: Seq<(u32, u32)>)
    ensures
        spec_ask_params(c, object_id, opcode, ps).next_id == c.next_id,
    decreases ps.len(),
{
    if ps.len() > 0 {
        lemma_ask_params_keeps_id(c, object_id, opcode, ps.drop_last());
    }
}

/// Handling a message never drops or changes a handler: it may add handlers,
/// and only for objects it creates, whose ids are new (from the context's
/// next id on). The registry stays the same and no id is given out twice.
pub proof fn law_dispatch_adds_only_fresh_handlers(
    s: StateView,
    c: ContextView,
    id: u32,
    opcode: u8,
    body: PodView,
)
    ensures
        match spec_dispatch(s, c, id, opcode, body) {
            Ok((s1, c1)) => {
                &&& s1.registry == s.registry
                &&& c.next_id <= c1.next_id
                &&& spec_fresh_handlers(s.handlers, s1.handlers, c.next_id, c1.next_id)
            },
            Err(_) => true,
        },
{
    assert(s.handlers.subrange(0, s.handlers.len() as int) =~= s.handlers);
    if spec_handler(s.handlers, id) == Some(ObjectType::Core) && opcode < 9 {
        match spec_parse_message(pw_core::Event::spec_kinds(opcode), body) {
            Ok(fs) => {
                if opcode == 1 && fs[0] == Field::Int(0) && fs[1] == Field::Int(0) {
                    lemma_bind_nodes_fresh(s.handlers, c, s.registry, s.globals);
                    let (h1, c1) = spec_bind_nodes(s.handlers, c, s.registry, s.globals);
                    let c2 = spec_client_step(c1, s.registry, s.globals);
                    assert(c1.next_id <= c2.next_id);
                    let (h3, c3) = spec_device_step(h1, c2, s.registry, s.globals);
                    assert(c2.next_id <= c3.next_id);
                    assert(h3.subrange(0, s.handlers.len() as int) =~= h1.subrange(
                        0,
                        s.handlers.len() as int,
                    ));
                    assert forall|i: int| s.handlers.len() <= i < h3.len() implies c.next_id
                        <= (#[trigger] h3[i]).0 < c3.next_id by {
                        if i < h1.len() {
                            assert(h3[i] == h1[i]);
                        }
                    }
                }
            },
            Err(_) => {},
        }
    } else if spec_handler(s.handlers, id) == Some(ObjectType::Node) && opcode < 2 {
        match spec_parse_message(pw_node::Event::spec_kinds(opcode), body) {
            Ok(fs) => lemma_ask_params_keeps_id(
                c,
                id,
                <pw_node::methods::EnumParams as MethodSerialize>::OPCODE,
                spec_field_params(fs[9]),
            ),
            Err(_) => {},
        }
    } else if spec_handler(s.handlers, id) == Some(ObjectType::Device) && opcode < 2 {
        match spec_parse_message(pw_device::Event::spec_kinds(opcode), body) {
            Ok(fs) => lemma_ask_params_keeps_id(
                c,
                id,
                <pw_device::methods::EnumParams as MethodSerialize>::OPCODE,
                spec_field_params(fs[3]),
            ),
            Err(_) => {},
        }
    }
}

/// Every ping the core sends is answered by one pong with the same id and
/// sequence number, and nothing else changes.
pub proof fn law_ping_is_answered(
    s: StateView,
    c: ContextView,
    ping_id: u32,
    ping_seq: u32,
    body: PodView,
)
    requires
        spec_handler(s.handlers, 0) == Some(ObjectType::Core),
        spec_parse_message(pw_core::Event::spec_kinds(2), body) == Ok::<Seq<Field>, DeserializeError>(
            seq![Field::Int(ping_id), Field::Int(ping_seq)],
        ),
    ensures
        spec_dispatch(s, c, 0, 2, body) == Ok::<(StateView, ContextView), DispatchError>(
            (
                s,
                spec_sent(
                    c,
                    0,
                    <pw_core::methods::Pong as MethodSerialize>::OPCODE,
                    seq![Field::Int(ping_id), Field::Int(ping_seq)],
                ),
            ),
        ),
{
}


/// The parameter types a node's parameters are read as objects of: format,
/// route, profile and port configuration with their enumerations, tag, prop
/// info, props, io, latency and process latency.
pub open spec fn spec_node_object_param(t: SpaParamType) -> bool {
    ||| t == SpaParamType::Format
    ||| t == SpaParamType::EnumFormat
    ||| t == SpaParamType::Route
    ||| t == SpaParamType::EnumRoute
    ||| t == SpaParamType::Profile
    ||| t == SpaParamType::EnumProfile
    ||| t == SpaParamType::Tag
    ||| t == SpaParamType::PropInfo
    ||| t == SpaParamType::Props
    ||| t == SpaParamType::Io
    ||| t == SpaParamType::PortConfig
    ||| t == SpaParamType::EnumPortConfig
    ||| t == SpaParamType::Latency
    ||| t == SpaParamType::ProcessLatency
}

/// A node's answer with a parameter: one whose id no known type has is
/// passed over; one of a type a node reads, as an object, is handled; both
/// change neither the state nor the queue. Any other is refused, naming its
/// raw id.
pub proof fn law_node_param_answers(
    s: StateView,
    c: ContextView,
    id: u32,
    body: PodView,
    fs: Seq<Field>,
)
    requires
        spec_handler(s.handlers, id) == Some(ObjectType::Node),
        spec_parse_message(pw_node::Event::spec_kinds(1), body) == Ok::<Seq<Field>, DeserializeError>(fs),
    ensures
        ({
            let raw = spec_field_u32(fs[1]);
            let handled = match SpaParamType::spec_from_raw(raw) {
                None => true,
                Some(t) => spec_node_object_param(t) && spec_field_pod(fs[4]).ty == TYPE_OBJECT,
            };
            &&& handled ==> spec_dispatch(s, c, id, 1, body) == Ok::<(StateView, ContextView), DispatchError>((s, c))
            &&& !handled ==> spec_dispatch(s, c, id, 1, body) == Err::<(StateView, ContextView), DispatchError>(
                DispatchError::UnexpectedParam { object_id: id, param: raw },
            )
        }),
{
}

/// A device's answer with a parameter: one whose id no known type has is
/// passed over; a route or profile (or their enumerations), as an object, is
/// handled; both change neither the state nor the queue. Any other is
/// refused, naming its raw id.
pub proof fn law_device_param_answers(
    s: StateView,
    c: ContextView,
    id: u32,
    body: PodView,
    fs: Seq<Field>,
)
    requires
        spec_handler(s.handlers, id) == Some(ObjectType::Device),
        spec_parse_message(pw_device::Event::spec_kinds(1), body) == Ok::<Seq<Field>, DeserializeError>(fs),
    ensures
        ({
            let raw = spec_field_u32(fs[1]);
            let handled = match SpaParamType::spec_from_raw(raw) {
                None => true,
                Some(t) => (t == SpaParamType::Route || t == SpaParamType::EnumRoute || t
                    == SpaParamType::Profile || t == SpaParamType::EnumProfile) && spec_field_pod(
                    fs[4],
                ).ty == TYPE_OBJECT,
            };
            &&& handled ==> spec_dispatch(s, c, id, 1, body) == Ok::<(StateView, ContextView), DispatchError>((s, c))
            &&& !handled ==> spec_dispatch(s, c, id, 1, body) == Err::<(StateView, ContextView), DispatchError>(
                DispatchError::UnexpectedParam { object_id: id, param: raw },
            )
        }),
{
}


/// The fields read for kinds `ks` are as many as the kinds.
proof fn lemma_parse_fields_len(ks: Seq<crate::protocol::codec::FieldKind>, b: Seq<u8>)
    ensures
        spec_parse_fields(ks, b) matches Ok(fs) ==> fs.len() == ks.len(),
    decreases ks.len(),
{
    if ks.len() > 0 {
        match crate::protocol::codec::spec_read_field(ks[0], b) {
            Ok((f, rest)) => lemma_parse_fields_len(ks.drop_first(), rest),
            Err(_) => {},
        }
    }
}

/// A ping to the core is answered with a pong to the core (object 0) that
/// carries the ping's id and sequence number, in that order; nothing else
/// changes.
pub proof fn law_ping_answered_with_pong(
    s: StateView,
    c: ContextView,
    core: u32,
    body: PodView,
    fs: Seq<Field>,
)
    requires
        spec_handler(s.handlers, core) == Some(ObjectType::Core),
        spec_parse_message(pw_core::Event::spec_kinds(2), body) == Ok::<Seq<Field>, DeserializeError>(fs),
    ensures
        fs.len() == 2,
        spec_dispatch(s, c, core, 2, body) == Ok::<(StateView, ContextView), DispatchError>(
            (s, spec_sent(c, 0, 3, seq![fs[0], fs[1]])),
        ),
{
    lemma_parse_fields_len(pw_core::Event::spec_kinds(2), body.body);
    crate::protocol::pw_core::methods::lemma_opcodes();
    assert(fs =~= seq![fs[0], fs[1]]);
}

} // verus!
