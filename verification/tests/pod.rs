use ripewire::pod_v2::deserialize::{DeserializeError, PodDeserializer};
use ripewire::pod_v2::format::check_head;
use ripewire::pod_v2::kind::PodDeserializerKind;
use ripewire::pod_v2::obj_gen::Route;
use ripewire::pod_v2::serialize::Builder;
use ripewire::spa_enum::SpaEnum;
use ripewire::spa_types::{SpaDirection, SpaFormat, SpaType};
use ripewire::pod_v2::keys::{property_key, KeyTable, PropertyKey};
use ripewire::pod_v2::obj_gen::{PropValue, Props};

fn built(f: impl FnOnce(&mut Builder)) -> Vec<u8> {
    let mut b = Builder::new();
    f(&mut b);
    b.into_inner()
}

#[test]
fn int_pod_bytes() {
    let bytes = built(|b| {
        b.write_u32(0x01020304);
    });
    assert_eq!(bytes, vec![4, 0, 0, 0, 4, 0, 0, 0, 4, 3, 2, 1, 0, 0, 0, 0]);
}

#[test]
fn string_pod_is_nul_terminated_and_padded() {
    let bytes = built(|b| {
        b.write_str(b"abc");
    });
    assert_eq!(bytes, vec![4, 0, 0, 0, 8, 0, 0, 0, b'a', b'b', b'c', 0, 0, 0, 0, 0]);
    let (pod, rest) = PodDeserializer::new(&bytes);
    assert!(rest.is_empty());
    assert_eq!(pod.as_str().unwrap(), b"abc");
}

#[test]
fn primitives_read_back() {
    let bytes = built(|b| {
        b.write_int(-5);
    });
    assert!(check_head(&bytes));
    let (pod, _) = PodDeserializer::new(&bytes);
    assert_eq!(pod.as_i32().unwrap(), -5);
    assert_eq!(pod.size(), 4);
    assert_eq!(pod.ty().as_raw(), 4);

    let bytes = built(|b| {
        b.write_long(-1234567890123);
    });
    let (pod, _) = PodDeserializer::new(&bytes);
    assert_eq!(pod.as_i64().unwrap(), -1234567890123);

    let bytes = built(|b| {
        b.write_bool(true);
    });
    let (pod, _) = PodDeserializer::new(&bytes);
    assert!(pod.as_bool().unwrap());

    let bytes = built(|b| {
        b.write_id(77);
    });
    let (pod, _) = PodDeserializer::new(&bytes);
    assert_eq!(pod.as_id().unwrap(), 77);

    let bytes = built(|b| {
        b.write_fd(3);
    });
    let (pod, _) = PodDeserializer::new(&bytes);
    assert_eq!(pod.as_fd().unwrap(), 3);

    let bytes = built(|b| {
        b.write_rectangle(640, 480);
    });
    let (pod, _) = PodDeserializer::new(&bytes);
    let r = pod.as_rectangle().unwrap();
    assert_eq!((r.width, r.height), (640, 480));

    let bytes = built(|b| {
        b.write_fraction(25, 1);
    });
    let (pod, _) = PodDeserializer::new(&bytes);
    let f = pod.as_fraction().unwrap();
    assert_eq!((f.num, f.denom), (25, 1));

    let bytes = built(|b| {
        b.write_none();
    });
    let (pod, _) = PodDeserializer::new(&bytes);
    assert!(pod.is_none());
}

#[test]
fn wrong_type_is_reported() {
    let bytes = built(|b| {
        b.write_int(1);
    });
    let (pod, _) = PodDeserializer::new(&bytes);
    match pod.as_bool() {
        Err(DeserializeError::UnexpectedType { expected: SpaType::Bool, got }) => {
            assert!(matches!(got, SpaEnum::Value(SpaType::Int)));
        }
        other => panic!("{:?}", other),
    }
    assert!(pod.as_str().is_err());
    assert!(pod.as_struct().is_err());
}

#[test]
fn struct_fields_in_order_then_end() {
    let bytes = built(|b| {
        let s = b.push_struct();
        b.write_int(1);
        b.write_str(b"two");
        b.write_long(3);
        s.done(b);
    });
    assert!(check_head(&bytes));
    let (pod, _) = PodDeserializer::new(&bytes);
    let mut s = pod.as_struct().unwrap();
    assert_eq!(s.pop_field().unwrap().as_i32().unwrap(), 1);
    assert_eq!(s.pop_field().unwrap().as_str().unwrap(), b"two");
    assert_eq!(s.pop_field().unwrap().as_i64().unwrap(), 3);
    assert!(matches!(s.pop_field(), Err(DeserializeError::UnexpectedEnd)));
}

#[test]
fn array_elements_share_one_header() {
    let bytes = built(|b| {
        let a = b.push_array();
        b.write_int(10);
        b.write_int(20);
        b.write_int(30);
        a.done(b);
    });
    // header (8) + child header (8) + three 4-byte bodies, padded to 8.
    assert_eq!(bytes.len(), 8 + 8 + 12 + 4);
    let (pod, _) = PodDeserializer::new(&bytes);
    let mut a = pod.as_array().unwrap();
    assert_eq!(a.child_ty().as_raw(), 4);
    let mut got = Vec::new();
    while let Ok(e) = a.pop_element() {
        got.push(e.as_i32().unwrap());
    }
    assert_eq!(got, vec![10, 20, 30]);
}

#[test]
fn object_properties_are_found_by_key() {
    let bytes = built(|b| {
        let o = b.push_object(262153, 13);
        b.write_property(1, 0);
        b.write_int(7);
        b.write_property(2, 0);
        b.write_id(1);
        b.write_property(4, 0);
        b.write_str(b"analog-output");
        o.done(b);
    });
    let (pod, _) = PodDeserializer::new(&bytes);
    let obj = pod.as_object().unwrap();
    assert_eq!(obj.object_id(), 13);
    assert!(matches!(obj.object_ty(), SpaEnum::Value(SpaType::ObjectParamRoute)));
    assert!(obj.find_property(99).is_none());
    let route = Route(obj);
    assert_eq!(route.index(), Some(7));
    assert!(matches!(route.direction(), Some(SpaEnum::Value(SpaDirection::Output))));
    assert_eq!(route.name(), Some(&b"analog-output"[..]));
    assert!(route.get(3).is_none());

    let mut props = pod.as_object().unwrap();
    let first = props.pop_property().unwrap();
    assert_eq!(first.key, 1);
    assert_eq!(first.value.as_i32().unwrap(), 7);
}

#[test]
fn kind_classifies_pods() {
    let bytes = built(|b| {
        b.write_float_bits(0.5f32.to_bits());
    });
    let (pod, _) = PodDeserializer::new(&bytes);
    match pod.kind() {
        PodDeserializerKind::Float(bits) => assert_eq!(f32::from_bits(bits), 0.5),
        _ => panic!("not a float"),
    }
    let bytes = built(|b| {
        b.write_str(b"x");
    });
    let (pod, _) = PodDeserializer::new(&bytes);
    assert!(matches!(pod.kind(), PodDeserializerKind::String(s) if s == b"x"));
    let bytes = built(|b| {
        b.write_none();
    });
    let (pod, _) = PodDeserializer::new(&bytes);
    assert!(matches!(pod.kind(), PodDeserializerKind::NoneType));
}

#[test]
fn malformed_heads_are_rejected() {
    assert!(!check_head(&[]));
    assert!(!check_head(&[4, 0, 0, 0, 4, 0, 0, 0, 1, 0]));
    // An int whose body is too short for its type.
    assert!(!check_head(&[2, 0, 0, 0, 4, 0, 0, 0, 1, 0, 0, 0, 0, 0, 0, 0]));
    assert!(check_head(&[4, 0, 0, 0, 4, 0, 0, 0, 1, 0, 0, 0, 0, 0, 0, 0]));
}

#[test]
fn owned_pod_to_raw_has_header_and_body() {
    let bytes = built(|b| {
        b.write_int(9);
    });
    let (pod, _) = PodDeserializer::new(&bytes);
    let owned = pod.to_owned();
    assert_eq!(owned.to_raw(), vec![4, 0, 0, 0, 4, 0, 0, 0, 9, 0, 0, 0]);
    assert_eq!(owned.as_deserializer().as_i32().unwrap(), 9);
}

#[test]
fn as_object_names_object_as_expected() {
    let bytes = built(|b| {
        b.write_int(1);
    });
    let (pod, _) = PodDeserializer::new(&bytes);
    match pod.as_object() {
        Err(DeserializeError::UnexpectedType { expected: SpaType::Object, got }) => {
            assert!(matches!(got, SpaEnum::Value(SpaType::Int)));
        }
        _ => panic!("not the expected error"),
    }
}

#[test]
fn struct_with_callback_exact_bytes() {
    let bytes = built(|b| {
        b.push_struct_with(|s| {
            s.write_int(1);
            s.write_none();
        });
    });
    assert_eq!(
        bytes,
        vec![24, 0, 0, 0, 14, 0, 0, 0, 4, 0, 0, 0, 4, 0, 0, 0, 1, 0, 0, 0, 0, 0, 0, 0, 0, 0, 0, 0, 1, 0, 0, 0]
    );
}

#[test]
fn array_with_callback_exact_bytes() {
    let bytes = built(|b| {
        b.write_array_with(|a| {
            a.write_int(1).write_int(2).write_int(3);
        });
        b.write_int(4);
    });
    assert_eq!(
        bytes[..32].to_vec(),
        vec![20, 0, 0, 0, 13, 0, 0, 0, 4, 0, 0, 0, 4, 0, 0, 0, 1, 0, 0, 0, 2, 0, 0, 0, 3, 0, 0, 0, 0, 0, 0, 0]
    );
    // a later write gets its full header again
    assert_eq!(bytes[32..].to_vec(), vec![4, 0, 0, 0, 4, 0, 0, 0, 4, 0, 0, 0, 0, 0, 0, 0]);
}

#[test]
fn property_keys_follow_object_type() {
    match property_key(SpaEnum::Value(SpaType::ObjectFormat), 1) {
        PropertyKey::Format(SpaEnum::Value(SpaFormat::MediaType)) => {}
        other => panic!("{:?}", other),
    }
    match property_key(SpaEnum::Value(SpaType::ObjectParamBuffers), 2) {
        PropertyKey::Named(KeyTable::ParamBuffers, 2) => {}
        other => panic!("{:?}", other),
    }
    match property_key(SpaEnum::Value(SpaType::Struct), 7) {
        PropertyKey::Plain(7) => {}
        other => panic!("{:?}", other),
    }
    match property_key(SpaEnum::Unknown(99), 7) {
        PropertyKey::Plain(7) => {}
        other => panic!("{:?}", other),
    }
}

#[test]
fn short_bodies_still_give_a_reader() {
    // an Int pod whose body is empty: a reader over it, of size 0
    let bytes: [u8; 8] = [0, 0, 0, 0, 4, 0, 0, 0];
    let (pod, rest) = PodDeserializer::new(&bytes);
    assert_eq!(pod.size(), 0);
    assert!(matches!(pod.ty(), SpaEnum::Value(SpaType::Int)));
    assert!(rest.is_empty());
    assert!(!check_head(&bytes));
}

#[test]
fn props_debug_fields_skip_floats_and_absent_keys() {
    let bytes = built(|b| {
        let o = b.push_object(262146, 2);
        b.write_property(65540, 0); // mute
        b.write_bool(true);
        b.write_property(257, 0); // device
        b.write_str(b"hw:0");
        b.write_property(65539, 0); // volume, a float
        b.write_float_bits(0.5f32.to_bits());
        b.write_property(65550, 0); // latencyOffsetNsec
        b.write_long(-3);
        o.done(b);
    });
    let (pod, _) = PodDeserializer::new(&bytes);
    let props = Props(pod.as_object().unwrap());
    let fields = props.debug_fields();
    let names: Vec<&str> = fields.iter().map(|(n, _)| *n).collect();
    assert_eq!(names, vec!["device", "mute", "latency_offset_nsec"]);
    assert!(matches!(fields[0].1, PropValue::Str(s) if s == b"hw:0"));
    assert!(matches!(fields[1].1, PropValue::Bool(true)));
    assert!(matches!(fields[2].1, PropValue::Long(-3)));
}
