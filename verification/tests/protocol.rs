use std::collections::VecDeque;

use ripewire::connection::{read_header, read_msg, Header, MessageBuffer, BUFFER_SIZE};
use ripewire::context::Context;
use ripewire::pod_v2::serialize::Builder;
use ripewire::protocol::{
    create_msg, dict_insert, pw_client, pw_core, pw_node, pw_registry, MethodSerialize, ParamFlags,
};
use ripewire::proxy::Proxy;
use ripewire::spa_enum::SpaEnum;
use ripewire::spa_types::SpaParamType;

#[test]
fn hello_message_bytes() {
    let msg = create_msg(0, &pw_core::methods::Hello { version: 3 });
    let expected: Vec<u8> = vec![
        0, 0, 0, 0, // object id
        24, 0, 0, 1, // length 24, opcode 1
        0, 0, 0, 0, // seq
        0, 0, 0, 0, // fds
        16, 0, 0, 0, 14, 0, 0, 0, // struct of 16 bytes
        4, 0, 0, 0, 4, 0, 0, 0, 3, 0, 0, 0, 0, 0, 0, 0, // Int 3
    ];
    assert_eq!(msg, expected);
}

#[test]
fn header_roundtrip() {
    let h = Header { object_id: 5, opcode: 200, len: 0x00abcdef, seq: 9, n_fds: 2 };
    let bytes = h.serialize();
    let words: Vec<u32> =
        bytes.chunks(4).map(|c| u32::from_le_bytes([c[0], c[1], c[2], c[3]])).collect();
    assert_eq!(Header::deserialize(&words), h);
    let (rest, back) = read_header(&bytes).unwrap();
    assert!(rest.is_empty());
    assert_eq!(back, h);
    assert!(read_header(&bytes[..15]).is_none());
}

#[test]
fn request_is_read_back_as_message() {
    let bind = pw_registry::methods::Bind {
        id: 31,
        interface: "PipeWire:Interface:Node".to_string(),
        version: 3,
        new_id: 4,
    };
    let bytes = create_msg(2, &bind);
    let mut fds = VecDeque::new();
    let (rest, msg) = read_msg(&bytes, &mut fds).unwrap();
    assert!(rest.is_empty());
    assert_eq!(msg.header.object_id, 2);
    assert_eq!(msg.header.opcode, 1);
    assert_eq!(msg.header.len as usize, bytes.len() - 16);
    let mut s = msg.body.as_struct().unwrap();
    assert_eq!(s.pop_field().unwrap().as_i32().unwrap(), 31);
    assert_eq!(s.pop_field().unwrap().as_str().unwrap(), b"PipeWire:Interface:Node");
    assert_eq!(s.pop_field().unwrap().as_i32().unwrap(), 3);
    assert_eq!(s.pop_field().unwrap().as_i32().unwrap(), 4);
    assert!(s.pop_field().is_err());
}

#[test]
fn global_event_is_deserialized() {
    let mut b = Builder::new();
    let s = b.push_struct();
    b.write_u32(40);
    b.write_u32(0x1c8);
    b.write_str(b"PipeWire:Interface:Device");
    b.write_u32(3);
    let d = b.push_struct();
    b.write_u32(2);
    b.write_str(b"device.name");
    b.write_str(b"card");
    b.write_str(b"device.name");
    b.write_str(b"card2");
    d.done(&mut b);
    s.done(&mut b);
    let body = b.into_inner();
    let (mut pod, _) = ripewire::pod_v2::deserialize::PodDeserializer::new(&body);
    match pw_registry::Event::deserialize(0, &mut pod, &[]).unwrap() {
        pw_registry::Event::Global(g) => {
            assert_eq!(g.id, 40);
            assert_eq!(g.permissions, 0x1c8);
            assert_eq!(g.interface, "PipeWire:Interface:Device");
            assert_eq!(g.version, 3);
            // A repeated key keeps its last value, in the first key's place.
            assert_eq!(g.properties, vec![("device.name".to_string(), "card2".to_string())]);
        }
        _ => panic!("not a global"),
    }
}

#[test]
fn short_event_is_an_error() {
    let mut b = Builder::new();
    let s = b.push_struct();
    b.write_u32(1);
    s.done(&mut b);
    let body = b.into_inner();
    let (mut pod, _) = ripewire::pod_v2::deserialize::PodDeserializer::new(&body);
    let err = pw_core::Event::deserialize(1, &mut pod, &[]).unwrap_err();
    assert_eq!(err.interface, "Core");
    assert_eq!(err.event, "Done");
}

#[test]
fn dict_insert_replaces_or_appends() {
    let mut d = Vec::new();
    dict_insert(&mut d, "a".to_string(), "1".to_string());
    dict_insert(&mut d, "b".to_string(), "2".to_string());
    dict_insert(&mut d, "a".to_string(), "3".to_string());
    assert_eq!(
        d,
        vec![("a".to_string(), "3".to_string()), ("b".to_string(), "2".to_string())]
    );
}

#[test]
fn param_flags_bits() {
    let rw = ParamFlags::from_bits_retain(ParamFlags::READ).union(ParamFlags::from_bits_retain(
        ParamFlags::WRITE,
    ));
    assert_eq!(rw.bits(), ParamFlags::READWRITE);
    assert!(rw.contains(ParamFlags::from_bits_retain(ParamFlags::READ)));
    assert!(!rw.contains(ParamFlags::from_bits_retain(ParamFlags::SERIAL)));
    assert_eq!(ParamFlags::empty().bits(), 0);
}

#[test]
fn node_enum_param_request() {
    let mut ctx = Context::new();
    let core = ctx.core_proxy();
    let registry = core.get_registry(&mut ctx);
    assert_eq!(registry.id().protocol_id(), 2);
    let node = ripewire::proxy::PwNode::from_id(ripewire::proxy::ObjectId::new(7));
    node.enum_param(&mut ctx, SpaParamType::Props);
    let out = ctx.take_outgoing();
    assert_eq!(out.len(), 2);
    let mut fds = VecDeque::new();
    let (_, msg) = read_msg(&out[1].0, &mut fds).unwrap();
    assert_eq!(msg.header.object_id, 7);
    assert_eq!(msg.header.opcode, 2);
    let mut s = msg.body.as_struct().unwrap();
    assert_eq!(s.pop_field().unwrap().as_i32().unwrap(), 0);
    assert_eq!(s.pop_field().unwrap().as_id().unwrap(), 2);
    assert_eq!(msg.header.opcode, <pw_node::methods::EnumParams as MethodSerialize>::OPCODE);
    assert!(matches!(SpaEnum::<SpaParamType>::from_raw(2), SpaEnum::Value(SpaParamType::Props)));
}

#[test]
fn client_permissions_request() {
    let mut ctx = Context::new();
    let client = ctx.client_proxy();
    client.get_permissions(&mut ctx, 0, 50);
    let out = ctx.take_outgoing();
    assert_eq!(out[0].0, create_msg(1, &pw_client::methods::GetPermissions { index: 0, num: 50 }));
}

#[test]
fn message_buffer_gathers_a_message() {
    let msg = create_msg(0, &pw_core::methods::Sync { id: 1, seq: 2 });
    let mut buf = MessageBuffer::new();
    assert!(buf.is_drained());
    buf.receive(&msg[..10], &[]);
    assert_eq!(buf.stage(16), 6);
    assert_eq!(buf.staged().len(), 10);
    assert!(buf.is_drained());
    buf.receive(&msg[10..], &[]);
    assert_eq!(buf.stage(6), 0);
    assert_eq!(buf.staged().len(), 16);
    let (_, header) = read_header(buf.staged()).unwrap();
    buf.clear_staging();
    assert_eq!(buf.stage(header.len as usize), 0);
    let m = buf.take_message(&header);
    assert_eq!(m.header, header);
    let mut s = m.body.as_struct().unwrap();
    assert_eq!(s.pop_field().unwrap().as_i32().unwrap(), 1);
    assert_eq!(s.pop_field().unwrap().as_i32().unwrap(), 2);
    assert!(BUFFER_SIZE >= 16);
}
