use ripewire::context::Context;
use ripewire::pod_v2::deserialize::{DeserializeError, PodDeserializer};
use ripewire::pod_v2::serialize::Builder;
use ripewire::protocol::{create_msg, pw_client_node, ParamFlags, ParamInfo};
use ripewire::protocol::pw_client_node::methods::{
    NodeFlags, NodeInfo, NodeInfoChangeMask, PortBufferDataPlane, PortBuffers, PortFlags, PortInfo,
    PortInfoChangeMask, PortUpdate,
    PortUpdateChangeMask, Update, UpdateChangeMask,
};
use ripewire::proxy::{ObjectId, Proxy, PwClientNode};
use ripewire::spa_enum::SpaEnum;
use ripewire::spa_types::{SpaDirection, SpaType};

#[test]
fn get_node_request() {
    let msg = create_msg(4, &pw_client_node::methods::GetNode { version: 3, new_id: 9 });
    assert_eq!(&msg[0..4], &[4, 0, 0, 0]);
    assert_eq!(msg[7], 1);
    assert_eq!(msg.len(), 16 + 8 + 32);
}

#[test]
fn set_active_through_proxy() {
    let mut ctx = Context::new();
    let node = PwClientNode::from_id(ObjectId::new(4));
    node.send(&mut ctx, pw_client_node::methods::SetActive { active: true });
    let out = ctx.take_outgoing();
    assert_eq!(out.len(), 1);
    assert_eq!(out[0].0, create_msg(4, &pw_client_node::methods::SetActive { active: true }));
    assert_eq!(out[0].0[7], 4);
}

#[test]
fn transport_and_add_port_events() {
    let mut b = Builder::new();
    let s = b.push_struct();
    b.write_fd(0);
    b.write_fd(1);
    b.write_u32(3);
    b.write_u32(0);
    b.write_u32(4096);
    s.done(&mut b);
    let body = b.into_inner();
    let (mut pod, _) = PodDeserializer::new(&body);
    match pw_client_node::Event::deserialize(0, &mut pod, &[10, 11]).unwrap() {
        pw_client_node::Event::Transport(t) => {
            assert_eq!((t.readfd.id, t.readfd.fd), (0, Some(10)));
            assert_eq!((t.writefd.id, t.writefd.fd), (1, Some(11)));
            assert_eq!((t.memid, t.offset, t.size), (3, 0, 4096));
        }
        _ => panic!("not a transport"),
    }

    let mut b = Builder::new();
    let s = b.push_struct();
    b.write_u32(1);
    b.write_u32(7);
    let d = b.push_struct();
    b.write_u32(1);
    b.write_str(b"port.name");
    b.write_str(b"out");
    d.done(&mut b);
    s.done(&mut b);
    let body = b.into_inner();
    let (mut pod, _) = PodDeserializer::new(&body);
    match pw_client_node::Event::deserialize(5, &mut pod, &[]).unwrap() {
        pw_client_node::Event::AddPort(p) => {
            assert!(matches!(p.direction, SpaEnum::Value(SpaDirection::Output)));
            assert_eq!(p.port_id, 7);
            assert_eq!(p.props, vec![("port.name".to_string(), "out".to_string())]);
        }
        _ => panic!("not an added port"),
    }
}

#[test]
fn fd_index_out_of_range_is_unresolved() {
    let mut b = Builder::new();
    let s = b.push_struct();
    b.write_u32(1);
    b.write_fd(5);
    b.write_u32(2);
    b.write_u32(0);
    b.write_u32(64);
    s.done(&mut b);
    let body = b.into_inner();
    let (mut pod, _) = PodDeserializer::new(&body);
    match pw_client_node::Event::deserialize(10, &mut pod, &[3]).unwrap() {
        pw_client_node::Event::SetActivation(a) => {
            assert_eq!(a.signalfd.id, 5);
            assert_eq!(a.signalfd.fd, None);
            assert_eq!(a.node_id, 1);
        }
        _ => panic!("not an activation"),
    }
}

#[test]
fn port_use_buffers_event() {
    let mut b = Builder::new();
    let s = b.push_struct();
    b.write_u32(0);
    b.write_u32(2);
    b.write_u32(5);
    b.write_u32(0);
    b.write_u32(2);
    // first buffer: one metadata part, one data block
    b.write_u32(7);
    b.write_u32(0);
    b.write_u32(256);
    b.write_u32(1);
    b.write_u32(1);
    b.write_u32(16);
    b.write_u32(1);
    b.write_id(3);
    b.write_u32(9);
    b.write_u32(1);
    b.write_u32(64);
    b.write_u32(128);
    // second buffer: nothing in it
    b.write_u32(8);
    b.write_u32(256);
    b.write_u32(0);
    b.write_u32(0);
    b.write_u32(0);
    s.done(&mut b);
    let body = b.into_inner();
    let (mut pod, _) = PodDeserializer::new(&body);
    match pw_client_node::Event::deserialize(8, &mut pod, &[]).unwrap() {
        pw_client_node::Event::PortUseBuffers(u) => {
            assert!(matches!(u.direction, SpaEnum::Value(SpaDirection::Input)));
            assert_eq!((u.port_id, u.mix_id, u.flags), (2, 5, 0));
            assert_eq!(u.buffers.len(), 2);
            let first = &u.buffers[0];
            assert_eq!((first.mem_id, first.offset, first.size), (7, 0, 256));
            assert_eq!(first.metas.len(), 1);
            assert_eq!(first.metas[0].0.as_raw(), 1);
            assert_eq!(first.metas[0].1, 16);
            assert_eq!(first.data_blocks.len(), 1);
            let d = &first.data_blocks[0];
            assert_eq!(d.type_.as_raw(), 3);
            assert_eq!((d.data, d.flags, d.mapoffset, d.maxsize), (9, 1, 64, 128));
            let second = &u.buffers[1];
            assert_eq!((second.mem_id, second.offset, second.size), (8, 256, 0));
            assert!(second.metas.is_empty());
            assert!(second.data_blocks.is_empty());
        }
        _ => panic!("not buffers"),
    }
}

#[test]
fn port_use_buffers_too_few_fields() {
    let mut b = Builder::new();
    let s = b.push_struct();
    b.write_u32(0);
    b.write_u32(2);
    b.write_u32(5);
    b.write_u32(0);
    b.write_u32(1);
    b.write_u32(7);
    s.done(&mut b);
    let body = b.into_inner();
    let (mut pod, _) = PodDeserializer::new(&body);
    let err = pw_client_node::Event::deserialize(8, &mut pod, &[]).unwrap_err();
    assert_eq!(err.event, "PortUseBuffers");
}

fn node_info() -> NodeInfo {
    NodeInfo {
        max_input_ports: u32::MAX,
        max_output_ports: u32::MAX,
        change_mask: NodeInfoChangeMask::from_bits_retain(
            NodeInfoChangeMask::FLAGS | NodeInfoChangeMask::PROPS | NodeInfoChangeMask::PARAMS,
        ),
        flags: NodeFlags::from_bits_retain(NodeFlags::RT),
        props: vec![
            ("media.type".to_string(), "Midi".to_string()),
            ("node.name".to_string(), "ripewire".to_string()),
        ],
        params: vec![
            ParamInfo { id: SpaEnum::from_raw(1), flags: ParamFlags::empty() },
            ParamInfo { id: SpaEnum::from_raw(2), flags: ParamFlags::from_bits_retain(4) },
        ],
    }
}

#[test]
fn update_is_read_back() {
    let update = Update {
        change_mask: UpdateChangeMask::from_bits_retain(UpdateChangeMask::PARAMS | UpdateChangeMask::INFO),
        params: vec![],
        info: Some(node_info()),
    };
    let msg = create_msg(7, &update);
    assert_eq!(msg[7], 2);
    let (mut pod, _) = PodDeserializer::new(&msg[16..]);
    let back = Update::deserialize(&mut pod).unwrap();
    assert_eq!(back.change_mask.bits(), 3);
    assert!(back.params.is_empty());
    let info = back.info.unwrap();
    assert_eq!((info.max_input_ports, info.max_output_ports), (u32::MAX, u32::MAX));
    assert_eq!(info.change_mask.bits(), 7);
    assert_eq!(info.flags.bits(), 1);
    assert_eq!(info.props, node_info().props);
    assert_eq!(info.params.len(), 2);
    assert_eq!(info.params[1].id.as_raw(), 2);
    assert_eq!(info.params[1].flags.bits(), 4);
}

#[test]
fn update_without_info_writes_none() {
    let update = Update { change_mask: UpdateChangeMask::empty(), params: vec![], info: None };
    let msg = create_msg(7, &update);
    // header, struct header, two ints and a none pod
    assert_eq!(msg.len(), 16 + 8 + 16 + 16 + 8);
    assert_eq!(&msg[msg.len() - 8..], &[0, 0, 0, 0, 1, 0, 0, 0]);
    let (mut pod, _) = PodDeserializer::new(&msg[16..]);
    let back = Update::deserialize(&mut pod).unwrap();
    assert!(back.info.is_none());
}

#[test]
fn port_update_is_read_back() {
    let mut b = Builder::new();
    b.write_u32(8);
    let raw = b.into_inner();
    let (param, _) = PodDeserializer::new(&raw);
    let update = PortUpdate {
        direction: SpaEnum::Value(SpaDirection::Output),
        port_id: 0,
        change_mask: PortUpdateChangeMask::from_bits_retain(
            PortUpdateChangeMask::PARAMS | PortUpdateChangeMask::INFO,
        ),
        params: vec![param.to_owned()],
        info: Some(PortInfo {
            change_mask: PortInfoChangeMask::from_bits_retain(PortInfoChangeMask::RATE),
            flags: PortFlags::empty(),
            rate_num: 0,
            rate_denom: 1,
            items: vec![("port.name".to_string(), "output".to_string())],
            params: vec![],
        }),
    };
    let msg = create_msg(7, &update);
    assert_eq!(msg[7], 3);
    let (mut pod, _) = PodDeserializer::new(&msg[16..]);
    let back = PortUpdate::deserialize(&mut pod).unwrap();
    assert!(matches!(back.direction, SpaEnum::Value(SpaDirection::Output)));
    assert_eq!((back.port_id, back.change_mask.bits()), (0, 3));
    assert_eq!(back.params.len(), 1);
    assert_eq!(back.params[0].as_deserializer().as_u32().unwrap(), 8);
    let info = back.info.unwrap();
    assert_eq!((info.change_mask.bits(), info.flags.bits()), (2, 0));
    assert_eq!((info.rate_num, info.rate_denom), (0, 1));
    assert_eq!(info.items, vec![("port.name".to_string(), "output".to_string())]);
    assert!(info.params.is_empty());
}

#[test]
fn update_with_negative_count_has_no_params() {
    let mut b = Builder::new();
    let s = b.push_struct();
    b.write_u32(1);
    b.write_int(-1);
    b.write_none();
    s.done(&mut b);
    let body = b.into_inner();
    let (mut pod, _) = PodDeserializer::new(&body);
    let back = pw_client_node::methods::Update::deserialize(&mut pod).unwrap();
    assert!(back.params.is_empty());
    assert!(back.info.is_none());
}

#[test]
fn update_info_must_be_struct() {
    let mut b = Builder::new();
    let s = b.push_struct();
    b.write_u32(1);
    b.write_u32(0);
    b.write_u32(5);
    s.done(&mut b);
    let body = b.into_inner();
    let (mut pod, _) = PodDeserializer::new(&body);
    let err = pw_client_node::methods::Update::deserialize(&mut pod).unwrap_err();
    assert!(matches!(err, DeserializeError::UnexpectedType { expected: SpaType::Struct, .. }));
}

#[test]
fn port_buffers_through_proxy() {
    let mut ctx = Context::new();
    let node = PwClientNode::from_id(ObjectId::new(4));
    node.port_buffers(&mut ctx, SpaDirection::Output, 0, 1);
    let out = ctx.take_outgoing();
    assert_eq!(out.len(), 1);
    let (msg, fds) = &out[0];
    assert!(fds.is_empty());
    assert_eq!(msg[7], 6);
    assert_eq!(msg.len(), 16 + 8 + 4 * 16);
    let (pod, _) = PodDeserializer::new(&msg[16..]);
    let mut s = pod.as_struct().unwrap();
    assert_eq!(s.pop_field().unwrap().as_u32().unwrap(), 1);
    assert_eq!(s.pop_field().unwrap().as_u32().unwrap(), 0);
    assert_eq!(s.pop_field().unwrap().as_u32().unwrap(), 1);
    assert_eq!(s.pop_field().unwrap().as_u32().unwrap(), 0);
}

#[test]
fn port_buffers_send_each_plane_descriptor() {
    let plane = |fd: i32, size: u32| PortBufferDataPlane {
        type_: SpaEnum::from_raw(2),
        memfd: fd,
        flags: 0,
        mapoffset: 0,
        maxsize: size,
    };
    let msg = PortBuffers {
        direction: SpaEnum::Value(SpaDirection::Input),
        port_id: 3,
        mix_id: 0,
        buffers: vec![vec![plane(20, 64), plane(21, 128)], vec![plane(22, 256)]],
    };
    let (bytes, fds) = msg.create_msg(9);
    assert_eq!(fds, vec![20, 21, 22]);
    // the header counts the descriptors
    assert_eq!(&bytes[12..16], &[3, 0, 0, 0]);
    let (pod, _) = PodDeserializer::new(&bytes[16..]);
    let mut s = pod.as_struct().unwrap();
    assert_eq!(s.pop_field().unwrap().as_u32().unwrap(), 0);
    assert_eq!(s.pop_field().unwrap().as_u32().unwrap(), 3);
    assert_eq!(s.pop_field().unwrap().as_u32().unwrap(), 0);
    assert_eq!(s.pop_field().unwrap().as_u32().unwrap(), 2);
    for (k, size) in [(0i64, 64u32), (1, 128), (2, 256)] {
        assert_eq!(s.pop_field().unwrap().as_id().unwrap(), 2);
        assert_eq!(s.pop_field().unwrap().as_fd().unwrap(), k);
        assert_eq!(s.pop_field().unwrap().as_u32().unwrap(), 0);
        assert_eq!(s.pop_field().unwrap().as_u32().unwrap(), 0);
        assert_eq!(s.pop_field().unwrap().as_u32().unwrap(), size);
    }
}
