//! Which enumeration names the key of an object's property: it depends on
//! the object's type.

use vstd::prelude::*;
use crate::spa_enum::{spec_spa_enum_from_raw, SpaEnum};
use crate::spa_types::{SpaFormat, SpaParamIo, SpaParamRoute, SpaProp, SpaType};

verus! {

/// The key enumerations of object types whose keys are kept raw here.
#[derive(Debug, Clone, Copy, PartialEq, Eq, Structural)]
pub enum KeyTable {
    PropInfo,
    ParamBuffers,
    ParamMeta,
    ParamProfile,
    ParamPortConfig,
    Profiler,
    ParamLatency,
    ParamProcessLatency,
    ParamTag,
}

/// The key of a property, read by the enumeration of its object's type.
#[derive(Debug, Clone, Copy)]
pub enum PropertyKey {
    /// A key of a `Props` object.
    Prop(SpaEnum<SpaProp>),
    /// A key of a `Format` object.
    Format(SpaEnum<SpaFormat>),
    /// A key of an `Io` parameter.
    ParamIo(SpaEnum<SpaParamIo>),
    /// A key of a `Route` parameter.
    ParamRoute(SpaEnum<SpaParamRoute>),
    /// A key of an object type with a key enumeration of its own, by number.
    Named(KeyTable, u32),
    /// A key of an object of any other type.
    Plain(u32),
}

/// The key `key` of a property of an object of type `object_ty`.
pub open spec fn spec_property_key(object_ty: SpaEnum<SpaType>, key: u32) -> PropertyKey {
    match object_ty {
        SpaEnum::Value(SpaType::ObjectPropInfo) => PropertyKey::Named(KeyTable::PropInfo, key),
        SpaEnum::Value(SpaType::ObjectProps) => PropertyKey::Prop(
            spec_spa_enum_from_raw::<SpaProp>(key),
        ),
        SpaEnum::Value(SpaType::ObjectFormat) => PropertyKey::Format(
            spec_spa_enum_from_raw::<SpaFormat>(key),
        ),
        SpaEnum::Value(SpaType::ObjectParamBuffers) => PropertyKey::Named(
            KeyTable::ParamBuffers,
            key,
        ),
        SpaEnum::Value(SpaType::ObjectParamMeta) => PropertyKey::Named(KeyTable::ParamMeta, key),
        SpaEnum::Value(SpaType::ObjectParamIo) => PropertyKey::ParamIo(
            spec_spa_enum_from_raw::<SpaParamIo>(key),
        ),
        SpaEnum::Value(SpaType::ObjectParamProfile) => PropertyKey::Named(
            KeyTable::ParamProfile,
            key,
        ),
        SpaEnum::Value(SpaType::ObjectParamPortConfig) => PropertyKey::Named(
            KeyTable::ParamPortConfig,
            key,
        ),
        SpaEnum::Value(SpaType::ObjectParamRoute) => PropertyKey::ParamRoute(
            spec_spa_enum_from_raw::<SpaParamRoute>(key),
        ),
        SpaEnum::Value(SpaType::ObjectProfiler) => PropertyKey::Named(KeyTable::Profiler, key),
        SpaEnum::Value(SpaType::ObjectParamLatency) => PropertyKey::Named(
            KeyTable::ParamLatency,
            key,
        ),
        SpaEnum::Value(SpaType::ObjectParamProcessLatency) => PropertyKey::Named(
            KeyTable::ParamProcessLatency,
            key,
        ),
        SpaEnum::Value(SpaType::ObjectParamParamTag) => PropertyKey::Named(KeyTable::ParamTag, key),
        _ => PropertyKey::Plain(key),
    }
}

/// The key `key` of a property of an object of type `object_ty`.
pub fn property_key(object_ty: SpaEnum<SpaType>, key: u32) -> (r: PropertyKey)
    ensures
        r == spec_property_key(object_ty, key),
{
    match object_ty {
        SpaEnum::Value(SpaType::ObjectPropInfo) => PropertyKey::Named(KeyTable::PropInfo, key),
        SpaEnum::Value(SpaType::ObjectProps) => PropertyKey::Prop(SpaEnum::from_raw(key)),
        SpaEnum::Value(SpaType::ObjectFormat) => PropertyKey::Format(SpaEnum::from_raw(key)),
        SpaEnum::Value(SpaType::ObjectParamBuffers) => PropertyKey::Named(
            KeyTable::ParamBuffers,
            key,
        ),
        SpaEnum::Value(SpaType::ObjectParamMeta) => PropertyKey::Named(KeyTable::ParamMeta, key),
        SpaEnum::Value(SpaType::ObjectParamIo) => PropertyKey::ParamIo(SpaEnum::from_raw(key)),
        SpaEnum::Value(SpaType::ObjectParamProfile) => PropertyKey::Named(
            KeyTable::ParamProfile,
            key,
        ),
        SpaEnum::Value(SpaType::ObjectParamPortConfig) => PropertyKey::Named(
            KeyTable::ParamPortConfig,
            key,
        ),
        SpaEnum::Value(SpaType::ObjectParamRoute) => PropertyKey::ParamRoute(SpaEnum::from_raw(key)),
        SpaEnum::Value(SpaType::ObjectProfiler) => PropertyKey::Named(KeyTable::Profiler, key),
        SpaEnum::Value(SpaType::ObjectParamLatency) => PropertyKey::Named(
            KeyTable::ParamLatency,
            key,
        ),
        SpaEnum::Value(SpaType::ObjectParamProcessLatency) => PropertyKey::Named(
            KeyTable::ParamProcessLatency,
            key,
        ),
        SpaEnum::Value(SpaType::ObjectParamParamTag) => PropertyKey::Named(KeyTable::ParamTag, key),
        _ => PropertyKey::Plain(key),
    }
}

} // verus!
