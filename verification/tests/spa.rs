use ripewire::pod::value::Value;
use ripewire::pod_v2::deserialize::PodDeserializer;
use ripewire::pod_v2::serialize::Builder;
use ripewire::spa_enum::SpaEnum;
use ripewire::spa_types::{SpaChoiceType, SpaDirection, SpaParamType, SpaType};

#[test]
fn raw_values_round_trip() {
    for raw in [0u32, 1, 13, 17, 18, 1000] {
        let e = SpaEnum::<SpaParamType>::from_raw(raw);
        assert_eq!(e.as_raw(), raw);
    }
    assert!(matches!(SpaEnum::<SpaParamType>::from_raw(13), SpaEnum::Value(SpaParamType::Route)));
    assert!(matches!(SpaEnum::<SpaParamType>::from_raw(18), SpaEnum::Unknown(18)));
    assert!(matches!(SpaEnum::<SpaType>::from_raw(19), SpaEnum::Value(SpaType::Choice)));
    assert!(matches!(
        SpaEnum::<SpaChoiceType>::from_raw(0),
        SpaEnum::Value(SpaChoiceType::NoneChoice)
    ));
}

#[test]
fn ok_and_unwrap() {
    assert_eq!(SpaEnum::<SpaDirection>::from_raw(1).ok(), Some(SpaDirection::Output));
    assert_eq!(SpaEnum::<SpaDirection>::from_raw(7).ok(), None);
    assert_eq!(SpaEnum::<SpaDirection>::from_raw(0).unwrap(), SpaDirection::Input);
    assert_eq!(SpaType::from_raw(4), Some(SpaType::Int));
    assert_eq!(SpaType::from_raw(0x0012_3456), None);
}

#[test]
fn invalid_utf8_string_is_read_lossily() {
    let mut b = Builder::new();
    b.write_str(&[b'a', 0xff, b'b']);
    let bytes = b.into_inner();
    let (mut pod, _) = PodDeserializer::new(&bytes);
    assert_eq!(Value::deserialize_v2(&mut pod), Value::String("a\u{fffd}b".to_string()));
}
