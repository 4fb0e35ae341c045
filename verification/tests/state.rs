use std::collections::VecDeque;

use ripewire::connection::{read_msg, Header};
use ripewire::context::Context;
use ripewire::pod_v2::serialize::Builder;
use ripewire::protocol::{create_msg, pw_client, pw_core, pw_device, pw_node, pw_registry};
use ripewire::state::{
    dict_fits, dict_get, object_type_of, properties, route_param, DispatchError, ObjectType,
    PipewireState,
};
use ripewire::proxy::{ObjectId, Proxy, PwDevice, PwNode};
use ripewire::spa_enum::SpaEnum;
use ripewire::spa_types::SpaParamType;

fn message(object_id: u32, opcode: u8, body: &[u8]) -> Vec<u8> {
    let header = Header { object_id, opcode, len: body.len() as u32, seq: 7, n_fds: 0 };
    let mut out = header.serialize().to_vec();
    out.extend_from_slice(body);
    out
}

fn global_body(id: u32, interface: &str, props: &[(&str, &str)]) -> Vec<u8> {
    let mut b = Builder::new();
    let s = b.push_struct();
    b.write_u32(id);
    b.write_u32(0x1c8);
    b.write_str(interface.as_bytes());
    b.write_u32(3);
    let d = b.push_struct();
    b.write_u32(props.len() as u32);
    for (k, v) in props {
        b.write_str(k.as_bytes());
        b.write_str(v.as_bytes());
    }
    d.done(&mut b);
    s.done(&mut b);
    b.into_inner()
}

fn two_ints(a: u32, b2: u32) -> Vec<u8> {
    let mut b = Builder::new();
    let s = b.push_struct();
    b.write_u32(a);
    b.write_u32(b2);
    s.done(&mut b);
    b.into_inner()
}

fn dispatch(state: &mut PipewireState, ctx: &mut Context, bytes: &[u8]) -> Result<(), DispatchError> {
    let mut fds = VecDeque::new();
    let (_, msg) = read_msg(bytes, &mut fds).unwrap();
    state.dispatch(ctx, &msg)
}

fn started() -> (Context, PipewireState) {
    let mut ctx = Context::new();
    let props = properties("host", "user", "42");
    assert!(dict_fits(&props));
    let state = PipewireState::start(&mut ctx, props);
    (ctx, state)
}

#[test]
fn properties_carry_host_user_and_pid() {
    let p = properties("myhost", "me", "1234");
    assert_eq!(p.len(), 26);
    assert_eq!(dict_get(&p, "application.process.id").unwrap(), "1234");
    assert_eq!(dict_get(&p, "application.process.user").unwrap(), "me");
    assert_eq!(dict_get(&p, "application.process.host").unwrap(), "myhost");
    assert_eq!(dict_get(&p, "default.clock.rate").unwrap(), "48000");
    assert_eq!(dict_get(&p, "core.name").unwrap(), "pipewire-poly-185501");
    assert!(dict_get(&p, "no.such.key").is_none());
    assert_eq!(p[0].0, "log.level");
    assert_eq!(p[25].0, "core.name");
}

#[test]
fn dict_get_returns_first_match() {
    let d = vec![
        ("a".to_string(), "1".to_string()),
        ("b".to_string(), "2".to_string()),
        ("a".to_string(), "3".to_string()),
    ];
    assert_eq!(dict_get(&d, "a").unwrap(), "1");
    assert_eq!(dict_get(&d, "b").unwrap(), "2");
    assert!(dict_get(&d, "c").is_none());
}

#[test]
fn dict_fits_small_dictionaries() {
    assert!(dict_fits(&Vec::new()));
    assert!(dict_fits(&properties("h", "u", "1")));
}

#[test]
fn interface_names_map_to_types() {
    assert_eq!(object_type_of(&"PipeWire:Interface:Node".to_string()), ObjectType::Node);
    assert_eq!(object_type_of(&"PipeWire:Interface:Device".to_string()), ObjectType::Device);
    assert_eq!(object_type_of(&"PipeWire:Interface:Client".to_string()), ObjectType::Client);
    assert_eq!(object_type_of(&"PipeWire:Interface:Core".to_string()), ObjectType::Core);
    assert_eq!(object_type_of(&"PipeWire:Interface:Registry".to_string()), ObjectType::Registry);
    assert_eq!(object_type_of(&"PipeWire:Interface:Port".to_string()), ObjectType::Port);
    assert_eq!(object_type_of(&"PipeWire:Interface:Link".to_string()), ObjectType::Link);
    assert_eq!(object_type_of(&"PipeWire:Interface:Module".to_string()), ObjectType::Module);
    assert_eq!(object_type_of(&"PipeWire:Interface:Factory".to_string()), ObjectType::Factory);
    assert_eq!(
        object_type_of(&"PipeWire:Interface:ClientNode".to_string()),
        ObjectType::ClientNode
    );
    assert_eq!(object_type_of(&"PipeWire:Interface:Nodes".to_string()), ObjectType::Other);
    assert_eq!(object_type_of(&String::new()), ObjectType::Other);
}

#[test]
fn start_sends_hello_properties_registry_and_sync() {
    let (mut ctx, state) = started();
    assert_eq!(state.handler_of(0), Some(ObjectType::Core));
    assert_eq!(state.handler_of(1), Some(ObjectType::Client));
    assert_eq!(state.handler_of(2), Some(ObjectType::Registry));
    assert_eq!(state.handler_of(3), None);
    assert_eq!(ctx.next_object_id(), 3);
    let out = ctx.take_outgoing();
    assert_eq!(out.len(), 4);
    assert_eq!(out[0].0, create_msg(0, &pw_core::methods::Hello { version: 3 }));
    assert_eq!(
        out[1].0,
        create_msg(
            1,
            &pw_client::methods::UpdateProperties { properties: properties("host", "user", "42") }
        )
    );
    assert_eq!(
        out[2].0,
        create_msg(0, &pw_core::methods::GetRegistry { version: 3, new_id: 2 })
    );
    assert_eq!(out[3].0, create_msg(0, &pw_core::methods::Sync { id: 0, seq: 0 }));
    assert!(out.iter().all(|m| m.1.is_empty()));
}

#[test]
fn ping_is_answered_with_pong() {
    let (mut ctx, mut state) = started();
    ctx.take_outgoing();
    dispatch(&mut state, &mut ctx, &message(0, 2, &two_ints(17, 99))).unwrap();
    let out = ctx.take_outgoing();
    assert_eq!(out.len(), 1);
    assert_eq!(out[0].0, create_msg(0, &pw_core::methods::Pong { id: 17, seq: 99 }));
}

#[test]
fn done_binds_nodes_second_client_and_the_device() {
    let (mut ctx, mut state) = started();
    ctx.take_outgoing();
    let globals: Vec<(u32, &str, Vec<(&str, &str)>)> = vec![
        (30, "PipeWire:Interface:Client", vec![]),
        (31, "PipeWire:Interface:Node", vec![("node.name", "a")]),
        (32, "PipeWire:Interface:Client", vec![]),
        (33, "PipeWire:Interface:Port", vec![]),
        (34, "PipeWire:Interface:Device", vec![("device.name", "other")]),
        (35, "PipeWire:Interface:Device", vec![("device.name", "alsa_card.pci-0000_0b_00.6")]),
        (36, "PipeWire:Interface:Node", vec![]),
    ];
    for (id, iface, props) in &globals {
        dispatch(&mut state, &mut ctx, &message(2, 0, &global_body(*id, iface, props))).unwrap();
    }
    assert!(ctx.take_outgoing().is_empty());
    // A done for another sync changes nothing.
    dispatch(&mut state, &mut ctx, &message(0, 1, &two_ints(0, 1))).unwrap();
    assert!(ctx.take_outgoing().is_empty());
    dispatch(&mut state, &mut ctx, &message(0, 1, &two_ints(0, 0))).unwrap();
    let out = ctx.take_outgoing();
    let bind = |id: u32, iface: &str, new_id: u32| {
        create_msg(
            2,
            &pw_registry::methods::Bind {
                id,
                interface: iface.to_string(),
                version: 3,
                new_id,
            },
        )
    };
    assert_eq!(out.len(), 6);
    assert_eq!(out[0].0, bind(31, "PipeWire:Interface:Node", 3));
    assert_eq!(out[1].0, bind(36, "PipeWire:Interface:Node", 4));
    assert_eq!(out[2].0, bind(32, "PipeWire:Interface:Client", 5));
    assert_eq!(
        out[3].0,
        create_msg(5, &pw_client::methods::GetPermissions { index: 0, num: 50 })
    );
    assert_eq!(out[4].0, bind(35, "PipeWire:Interface:Device", 6));
    let route = route_param(4, 4, false, 0.1f32.to_bits());
    assert_eq!(
        out[5].0,
        create_msg(
            6,
            &pw_device::methods::SetParam { id: ripewire::pod_v2::Id(13), flags: 0, param: route }
        )
    );
    assert_eq!(state.handler_of(3), Some(ObjectType::Node));
    assert_eq!(state.handler_of(4), Some(ObjectType::Node));
    assert_eq!(state.handler_of(5), None);
    assert_eq!(state.handler_of(6), Some(ObjectType::Device));
    assert_eq!(ctx.next_object_id(), 7);
}

#[test]
fn node_info_asks_for_known_params() {
    let (mut ctx, mut state) = started();
    dispatch(&mut state, &mut ctx, &message(2, 0, &global_body(40, "PipeWire:Interface:Node", &[])))
        .unwrap();
    dispatch(&mut state, &mut ctx, &message(0, 1, &two_ints(0, 0))).unwrap();
    let node_id = 3u32;
    assert_eq!(state.handler_of(node_id), Some(ObjectType::Node));
    ctx.take_outgoing();

    let mut b = Builder::new();
    let s = b.push_struct();
    for v in [40u32, 0, 0] {
        b.write_u32(v);
    }
    b.write_u64(0);
    b.write_u32(0);
    b.write_u32(0);
    b.write_id(0);
    b.write_none();
    let d = b.push_struct();
    b.write_u32(0);
    d.done(&mut b);
    let p = b.push_struct();
    b.write_u32(3);
    b.write_id(4); // Format
    b.write_u32(2);
    b.write_id(1000); // unknown
    b.write_u32(2);
    b.write_id(2); // Props
    b.write_u32(6);
    p.done(&mut b);
    s.done(&mut b);
    let body = b.into_inner();
    dispatch(&mut state, &mut ctx, &message(node_id, 0, &body)).unwrap();
    let out = ctx.take_outgoing();
    assert_eq!(out.len(), 2);
    let none = || {
        let mut nb = Builder::new();
        nb.write_none();
        let bytes = nb.into_inner();
        ripewire::pod_v2::deserialize::PodDeserializer::new(&bytes).0.to_owned()
    };
    for (msg, id) in out.iter().zip([4u32, 2]) {
        let expected = create_msg(
            node_id,
            &pw_node::methods::EnumParams {
                seq: 0,
                id: ripewire::pod_v2::Id(id),
                index: 0,
                num: 0,
                filter: none(),
            },
        );
        assert_eq!(msg.0, expected);
    }
}

#[test]
fn unknown_opcode_and_unhandled_objects() {
    let (mut ctx, mut state) = started();
    ctx.take_outgoing();
    match dispatch(&mut state, &mut ctx, &message(0, 9, &two_ints(0, 0))) {
        Err(DispatchError::UnknownOpcode { object_id: 0, opcode: 9 }) => {}
        other => panic!("{:?}", other),
    }
    // Events of objects without a handler are dropped.
    assert!(dispatch(&mut state, &mut ctx, &message(77, 0, &two_ints(0, 0))).is_ok());
    assert!(ctx.take_outgoing().is_empty());
}

#[test]
fn unreadable_event_is_reported() {
    let (mut ctx, mut state) = started();
    ctx.take_outgoing();
    // A ping needs two ints; one is not enough.
    let mut b = Builder::new();
    let s = b.push_struct();
    b.write_u32(1);
    s.done(&mut b);
    match dispatch(&mut state, &mut ctx, &message(0, 2, &b.into_inner())) {
        Err(DispatchError::Deserialize(e)) => {
            assert_eq!(e.interface, "Core");
            assert_eq!(e.event, "Ping");
        }
        other => panic!("{:?}", other),
    }
    assert!(ctx.take_outgoing().is_empty());
}

#[test]
fn route_param_is_an_object_with_route_id() {
    let pod = route_param(4, 4, false, 0.1f32.to_bits());
    let de = pod.as_deserializer();
    let obj = de.as_object().unwrap();
    assert_eq!(obj.object_id(), 13);
    assert_eq!(obj.object_ty().as_raw(), 262153);
    assert_eq!(obj.find_property(1).unwrap().as_i32().unwrap(), 4);
    assert_eq!(obj.find_property(3).unwrap().as_i32().unwrap(), 4);
    let props = obj.find_property(10).unwrap().as_object().unwrap();
    assert_eq!(props.find_property(65540).unwrap().as_bool().unwrap(), false);
    assert_eq!(pod.to_raw().len(), 136);
}

#[test]
fn memory_blocks_are_recorded_and_forgotten() {
    let (mut ctx, mut state) = started();
    ctx.take_outgoing();
    let add_mem = |id: u32| {
        let mut b = Builder::new();
        let s = b.push_struct();
        b.write_u32(id);
        b.write_id(2);
        b.write_fd(0);
        b.write_u32(1);
        s.done(&mut b);
        b.into_inner()
    };
    dispatch(&mut state, &mut ctx, &message(0, 6, &add_mem(5))).unwrap();
    dispatch(&mut state, &mut ctx, &message(0, 6, &add_mem(6))).unwrap();
    assert_eq!(state.mem(5).unwrap().id, 5);
    assert_eq!(state.mem(6).unwrap().id, 6);
    assert!(state.mem(7).is_none());
    let mut b = Builder::new();
    let s = b.push_struct();
    b.write_u32(5);
    s.done(&mut b);
    dispatch(&mut state, &mut ctx, &message(0, 7, &b.into_inner())).unwrap();
    assert!(state.mem(5).is_none());
    assert_eq!(state.mem(6).unwrap().id, 6);
    assert!(ctx.take_outgoing().is_empty());
}

#[test]
fn new_handlers_get_fresh_ids() {
    let (mut ctx, mut state) = started();
    ctx.take_outgoing();
    let before = ctx.next_object_id();
    for (id, iface) in [(50u32, "PipeWire:Interface:Node"), (51, "PipeWire:Interface:Node")] {
        dispatch(&mut state, &mut ctx, &message(2, 0, &global_body(id, iface, &[]))).unwrap();
    }
    dispatch(&mut state, &mut ctx, &message(0, 1, &two_ints(0, 0))).unwrap();
    let after = ctx.next_object_id();
    assert_eq!(after, before + 2);
    for id in before..after {
        assert_eq!(state.handler_of(id), Some(ObjectType::Node));
    }
    assert_eq!(state.handler_of(0), Some(ObjectType::Core));
    assert_eq!(state.handler_of(2), Some(ObjectType::Registry));
}

#[test]
fn unexpected_node_param_is_refused() {
    let (mut ctx, mut state) = started();
    dispatch(&mut state, &mut ctx, &message(2, 0, &global_body(40, "PipeWire:Interface:Node", &[])))
        .unwrap();
    dispatch(&mut state, &mut ctx, &message(0, 1, &two_ints(0, 0))).unwrap();
    ctx.take_outgoing();
    // A `Buffers` parameter is not one a node reads.
    let mut b = Builder::new();
    let s = b.push_struct();
    b.write_u32(0);
    b.write_id(5);
    b.write_u32(0);
    b.write_u32(1);
    let o = b.push_object(262148, 5);
    o.done(&mut b);
    s.done(&mut b);
    match dispatch(&mut state, &mut ctx, &message(3, 1, &b.into_inner())) {
        Err(DispatchError::UnexpectedParam { object_id: 3, param: 5 }) => {}
        other => panic!("{:?}", other),
    }
    // A `Props` parameter that is an object is accepted and changes nothing.
    let mut b = Builder::new();
    let s = b.push_struct();
    b.write_u32(0);
    b.write_id(2);
    b.write_u32(0);
    b.write_u32(1);
    let o = b.push_object(262146, 2);
    o.done(&mut b);
    s.done(&mut b);
    dispatch(&mut state, &mut ctx, &message(3, 1, &b.into_inner())).unwrap();
    assert!(ctx.take_outgoing().is_empty());
}

fn none_pod() -> ripewire::pod_v2::deserialize::OwnedPod {
    let mut nb = Builder::new();
    nb.write_none();
    let bytes = nb.into_inner();
    ripewire::pod_v2::deserialize::PodDeserializer::new(&bytes).0.to_owned()
}

fn param_info(
    id: ripewire::spa_enum::SpaEnum<ripewire::spa_types::SpaParamType>,
) -> ripewire::protocol::ParamInfo {
    ripewire::protocol::ParamInfo { id, flags: ripewire::protocol::ParamFlags::from_bits_retain(6) }
}

#[test]
fn node_info_passes_over_ids_kept_as_unknown() {
    let (mut ctx, mut state) = started();
    ctx.take_outgoing();
    let node = <PwNode as Proxy>::from_id(ObjectId::new(3));
    let info = pw_node::events::Info {
        id: 40,
        max_input_ports: 0,
        max_output_ports: 0,
        change_mask: pw_node::ChangeMask::empty(),
        n_input_ports: 0,
        n_output_ports: 0,
        state: SpaEnum::Unknown(0),
        error: None,
        props: Vec::new(),
        // Raw value 2 names `Props`, but the id was kept as unknown.
        params: vec![param_info(SpaEnum::Unknown(2)), param_info(SpaEnum::Value(SpaParamType::Format))],
    };
    state.node_event(&mut ctx, &node, &pw_node::Event::Info(info));
    let out = ctx.take_outgoing();
    assert_eq!(out.len(), 1);
    let expected = create_msg(
        3,
        &pw_node::methods::EnumParams {
            seq: 0,
            id: ripewire::pod_v2::Id(4),
            index: 0,
            num: 0,
            filter: none_pod(),
        },
    );
    assert_eq!(out[0].0, expected);
}

#[test]
fn device_param_kept_as_unknown_is_passed_over() {
    let (mut ctx, mut state) = started();
    ctx.take_outgoing();
    let device = <PwDevice as Proxy>::from_id(ObjectId::new(6));
    // Raw value 13 names `Route`; kept as unknown, a parameter that is no
    // object is passed over.
    let param = pw_device::events::Param {
        seq: 0,
        id: SpaEnum::Unknown(13),
        index: 0,
        next: 1,
        params: none_pod(),
    };
    state.device_event(&mut ctx, &device, &pw_device::Event::Param(param));
    assert!(ctx.take_outgoing().is_empty());
}

#[test]
fn device_only_session_binds_just_the_device() {
    let (mut ctx, mut state) = started();
    ctx.take_outgoing();
    let globals: Vec<(u32, &str, Vec<(&str, &str)>)> = vec![
        (31, "PipeWire:Interface:Node", vec![("node.name", "a")]),
        (35, "PipeWire:Interface:Device", vec![("device.name", "alsa_card.pci-0000_0b_00.6")]),
    ];
    for (id, iface, props) in &globals {
        dispatch(&mut state, &mut ctx, &message(2, 0, &global_body(*id, iface, props))).unwrap();
    }
    ctx.take_outgoing();
    state.done_device_only(&mut ctx);
    let out = ctx.take_outgoing();
    assert_eq!(out.len(), 2);
    assert_eq!(
        out[0].0,
        create_msg(
            2,
            &pw_registry::methods::Bind {
                id: 35,
                interface: "PipeWire:Interface:Device".to_string(),
                version: 3,
                new_id: 3,
            },
        )
    );
    let route = route_param(4, 4, false, 0.1f32.to_bits());
    assert_eq!(
        out[1].0,
        create_msg(
            3,
            &pw_device::methods::SetParam { id: ripewire::pod_v2::Id(13), flags: 0, param: route }
        )
    );
    assert_eq!(state.handler_of(3), Some(ObjectType::Device));
    assert_eq!(ctx.next_object_id(), 4);
}
