use ripewire::getter_plan::{getter_name, getter_plan};
use ripewire::pod_v2::keys::{KeyTable, PropertyKey};
use ripewire::spa_enum::SpaEnum;
use ripewire::spa_types::{SpaParamRoute, SpaType};

fn info(key: u32, parent: u32, name: &str) -> (u32, u32, Vec<u8>) {
    (key, parent, name.as_bytes().to_vec())
}

#[test]
fn getter_names_strip_the_object_name() {
    let parent = b"Spa:Pod:Object:Param:Route";
    assert_eq!(getter_name(parent, b"Spa:Pod:Object:Param:Route:index"), Some(b"index".to_vec()));
    assert_eq!(getter_name(parent, b"Spa:Pod:Object:Param:Route:type"), Some(b"ty".to_vec()));
    assert_eq!(getter_name(parent, b"Spa:Pod:Object:Param:Route:types"), Some(b"types".to_vec()));
    // Nothing, or only a separator, after the object's name.
    assert_eq!(getter_name(parent, b"Spa:Pod:Object:Param:Route"), None);
    assert_eq!(getter_name(parent, b"Spa:Pod:Object:Param:Route:"), None);
    assert_eq!(getter_name(parent, b"Spa:Pod:Object:Param:Props:mute"), None);
}

#[test]
fn getter_plan_skips_untyped_and_foreign_properties() {
    let entry = b"Spa:Pod:Object:Param:Route";
    let props = vec![
        info(1, 4, "Spa:Pod:Object:Param:Route:index"),
        info(2, 3, "Spa:Pod:Object:Param:Route:direction"),
        info(9, 1, "Spa:Pod:Object:Param:Route:nothing"),
        info(7, 8, "Spa:Pod:Object:Param:Route:type"),
        info(5, 4, "Spa:Pod:Object:Param:Other:name"),
    ];
    let plan = getter_plan(entry, 262153, &props);
    assert_eq!(plan.len(), 3);
    assert_eq!(plan[0].name, b"index".to_vec());
    assert!(matches!(plan[0].key, PropertyKey::ParamRoute(SpaEnum::Value(SpaParamRoute::Index))));
    assert_eq!(plan[0].parent, SpaType::Int);
    assert_eq!(plan[1].name, b"direction".to_vec());
    assert!(matches!(plan[1].key, PropertyKey::ParamRoute(SpaEnum::Value(SpaParamRoute::Direction))));
    assert_eq!(plan[1].parent, SpaType::Id);
    assert_eq!(plan[2].name, b"ty".to_vec());
    assert_eq!(plan[2].parent, SpaType::String);
}

#[test]
fn getter_plan_keeps_keys_of_tables_kept_raw() {
    let entry = b"Spa:Pod:Object:Param:Buffers";
    let props = vec![info(2, 4, "Spa:Pod:Object:Param:Buffers:blocks")];
    // 262148 is the type of buffer parameters.
    let plan = getter_plan(entry, 262148, &props);
    assert_eq!(plan.len(), 1);
    assert!(matches!(plan[0].key, PropertyKey::Named(KeyTable::ParamBuffers, 2)));
}
