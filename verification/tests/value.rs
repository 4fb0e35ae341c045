use ripewire::pod::dictionary::Dictionary;
use ripewire::pod::value::Struct;
use ripewire::pod::permissions::{Permission, Permissions};
use ripewire::pod_v2::deserialize::DeserializeError;
use ripewire::protocol::pw_client::PermissionFlags;
use ripewire::pod::params::{FormatParamBuilder, IoParamBuilder, PropsBuilder};
use ripewire::pod::value::{
    ChoiceEnum, ChoiceValue, Fd, FloatBits, Object, Property, Value, ValueArray,
};
use ripewire::pod_v2::deserialize::PodDeserializer;
use ripewire::pod_v2::format::check_head;
use ripewire::pod_v2::serialize::Builder;
use ripewire::pod_v2::Id;
use ripewire::spa_types::{SpaIoType, SpaMediaSubtype, SpaMediaType, SpaType};

fn value_of(bytes: &[u8]) -> Value {
    assert!(check_head(bytes));
    let (mut pod, _) = PodDeserializer::new(bytes);
    Value::deserialize_v2(&mut pod)
}

fn words(ws: &[u32]) -> Vec<u8> {
    ws.iter().flat_map(|w| w.to_le_bytes()).collect()
}

#[test]
fn primitive_values() {
    let mut b = Builder::new();
    b.write_int(-3);
    assert_eq!(value_of(&b.into_inner()), Value::Int(-3));
    let mut b = Builder::new();
    b.write_bool(true);
    assert_eq!(value_of(&b.into_inner()), Value::Bool(true));
    let mut b = Builder::new();
    b.write_id(9);
    assert_eq!(value_of(&b.into_inner()), Value::Id(Id(9)));
    let mut b = Builder::new();
    b.write_float_bits(1.5f32.to_bits());
    assert_eq!(value_of(&b.into_inner()), Value::Float(FloatBits(1.5f32.to_bits())));
    let mut b = Builder::new();
    b.write_str(b"hello");
    assert_eq!(value_of(&b.into_inner()), Value::String("hello".to_string()));
    let mut b = Builder::new();
    b.write_fd(2);
    assert_eq!(value_of(&b.into_inner()), Value::Fd(Fd { id: 2, fd: None }));
    let mut b = Builder::new();
    b.write_none();
    assert_eq!(value_of(&b.into_inner()), Value::NoneType);
}

#[test]
fn struct_and_array_values() {
    let mut b = Builder::new();
    let s = b.push_struct();
    b.write_int(1);
    b.write_str(b"x");
    let a = b.push_array();
    b.write_int(5);
    b.write_int(6);
    a.done(&mut b);
    s.done(&mut b);
    let v = value_of(&b.into_inner());
    assert_eq!(
        v,
        Value::Struct(vec![
            Value::Int(1),
            Value::String("x".to_string()),
            Value::ValueArray(ValueArray::Int(vec![5, 6])),
        ])
    );
}

#[test]
fn object_value_keeps_keys_flags_and_values() {
    let mut b = Builder::new();
    let o = b.push_object(262146, 2);
    b.write_property(65540, 1);
    b.write_bool(true);
    b.write_property(65539, 0);
    b.write_float_bits(0.25f32.to_bits());
    o.done(&mut b);
    match value_of(&b.into_inner()) {
        Value::Object(Object { type_, id, properties }) => {
            assert_eq!(type_, SpaType::ObjectProps);
            assert_eq!(id, 2);
            assert_eq!(properties.len(), 2);
            let Property { key, flags, value } = &properties[0];
            assert_eq!((*key, flags.bits()), (65540, 1));
            assert_eq!(*value, Value::Bool(true));
            assert_eq!(properties[1].key, 65539);
            assert_eq!(properties[1].value, Value::Float(FloatBits(0.25f32.to_bits())));
        }
        other => panic!("{:?}", other),
    }
}

#[test]
fn choice_values_by_kind() {
    // A range of ints: default 48000, min 1, max 384000.
    let mut bytes = words(&[28, 19, 1, 0, 4, 4, 48000, 1, 384000]);
    bytes.extend_from_slice(&[0, 0, 0, 0]);
    match value_of(&bytes) {
        Value::Choice(ChoiceValue::Int(c)) => {
            assert_eq!(c.0.bits(), 0);
            assert_eq!(c.1, ChoiceEnum::Range { default: 48000, min: 1, max: 384000 });
        }
        other => panic!("{:?}", other),
    }
    // An enum of ids: default 2, alternatives 2 and 3.
    let mut bytes = words(&[28, 19, 3, 0, 4, 3, 2, 2, 3]);
    bytes.extend_from_slice(&[0, 0, 0, 0]);
    match value_of(&bytes) {
        Value::Choice(ChoiceValue::Id(c)) => {
            assert_eq!(c.1, ChoiceEnum::Enum { default: Id(2), alternatives: vec![Id(2), Id(3)] });
        }
        other => panic!("{:?}", other),
    }
    // A choice of no choice holds its one value.
    let bytes = words(&[20, 19, 0, 0, 4, 2, 1, 0]);
    match value_of(&bytes) {
        Value::Choice(ChoiceValue::Bool(c)) => assert_eq!(c.1, ChoiceEnum::NoneChoice(true)),
        other => panic!("{:?}", other),
    }
}

#[test]
fn format_builder_adds_media_properties() {
    let obj = FormatParamBuilder::enum_format()
        .media_type(SpaMediaType::Audio)
        .media_subtype(SpaMediaSubtype::Raw)
        .build();
    assert_eq!(obj.type_, SpaType::ObjectFormat);
    assert_eq!(obj.id, 3);
    assert_eq!(obj.properties.len(), 2);
    assert_eq!(obj.properties[0].key, 1);
    assert_eq!(obj.properties[0].value, Value::Id(Id(1)));
    assert_eq!(obj.properties[1].key, 2);
    assert_eq!(obj.properties[1].value, Value::Id(Id(1)));
    assert_eq!(obj.properties[1].flags.bits(), 0);
    assert_eq!(FormatParamBuilder::format().build().id, 4);
}

#[test]
fn io_and_props_builders() {
    let io = IoParamBuilder::io().id(SpaIoType::Buffers).size(8).build();
    assert_eq!(io.type_, SpaType::ObjectParamIo);
    assert_eq!(io.id, 7);
    assert_eq!(io.properties[0].value, Value::Id(Id(1)));
    assert_eq!(io.properties[1].value, Value::Int(8));

    let props = PropsBuilder::new().mute(true).volume(0.5f32.to_bits()).soft_mute(false).build();
    assert_eq!(props.type_, SpaType::ObjectProps);
    assert_eq!(props.id, 0);
    let keys: Vec<u32> = props.properties.iter().map(|p| p.key).collect();
    assert_eq!(keys, vec![65540, 65539, 65551]);
    assert_eq!(props.properties[1].value, Value::Float(FloatBits(0.5f32.to_bits())));
}

#[test]
fn permissions_round_trip() {
    let perms = Permissions(vec![
        Permission { id: Some(3), permissions: PermissionFlags::from_bits_retain(0o700) },
        Permission { id: None, permissions: PermissionFlags::from_bits_retain(0o400) },
    ]);
    let bytes = perms.serialize();
    // struct header, then five ints.
    assert_eq!(bytes.len(), 8 + 5 * 16);
    assert_eq!(&bytes[8 + 16 + 8..8 + 16 + 12], &[3, 0, 0, 0]);
    assert_eq!(&bytes[8 + 32 + 8..8 + 32 + 12], &[0o700u32 as u8, 1, 0, 0]);
    assert_eq!(&bytes[8 + 48 + 8..8 + 48 + 12], &[0xff, 0xff, 0xff, 0xff]);
    let (pod, _) = PodDeserializer::new(&bytes);
    let back = Permissions::deserialize(&pod).unwrap();
    assert_eq!(back.0.len(), 2);
    assert_eq!(back.0[0].id, Some(3));
    assert_eq!(back.0[0].permissions.bits(), 0o700);
    assert_eq!(back.0[1].id, None);
    assert_eq!(back.0[1].permissions.bits(), 0o400);
}

#[test]
fn permissions_of_wrong_type_are_an_error() {
    let mut b = Builder::new();
    b.write_int(1);
    let bytes = b.into_inner();
    let (pod, _) = PodDeserializer::new(&bytes);
    assert!(matches!(
        Permissions::deserialize(&pod),
        Err(DeserializeError::UnexpectedType { expected: SpaType::Struct, .. })
    ));
}

#[test]
fn dictionary_from_pairs_and_bytes() {
    let d = Dictionary::from(vec![
        ("a".to_string(), "1".to_string()),
        ("b".to_string(), "2".to_string()),
        ("a".to_string(), "3".to_string()),
    ]);
    assert_eq!(
        d.0,
        vec![("a".to_string(), "3".to_string()), ("b".to_string(), "2".to_string())]
    );
    let mut b = Builder::new();
    let s = b.push_struct();
    b.write_u32(2);
    b.write_str(b"a");
    b.write_str(b"3");
    b.write_str(b"b");
    b.write_str(b"2");
    s.done(&mut b);
    assert_eq!(d.serialize(), b.into_inner());
}

#[test]
fn struct_of_values() {
    let mut b = Builder::new();
    let s = b.push_struct();
    b.write_long(-2);
    b.write_bool(false);
    s.done(&mut b);
    let bytes = b.into_inner();
    let (pod, _) = PodDeserializer::new(&bytes);
    let st = Struct::deserialize(&pod).unwrap();
    assert_eq!(st.0, vec![Value::Long(-2), Value::Bool(false)]);
    let mut b = Builder::new();
    b.write_int(1);
    let bytes = b.into_inner();
    let (pod, _) = PodDeserializer::new(&bytes);
    assert!(Struct::deserialize(&pod).is_err());
}
