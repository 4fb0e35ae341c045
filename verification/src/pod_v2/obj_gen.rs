//! Typed views of the SPA parameter objects: each getter reads the property
//! with a fixed key. A property of the wrong type is a broken object, which
//! the getters do not accept.

use vstd::prelude::*;
use crate::bytes::{spec_le32, spec_le64};
use crate::spa_enum::{SpaEnum, SpaRawEnum, spec_spa_enum_from_raw};
use crate::spa_types::{
    SpaDirection, SpaFraction, SpaMediaSubtype, SpaMediaType, SpaProp, SpaRectangle,
};
use super::deserialize::{
    ArrayView, ObjectView, PodArrayDeserializer, PodDeserializer, PodObjectDeserializer,
    PodStructDeserializer, spec_array_view, spec_cstr, spec_find_prop, spec_object_view,
    spec_prop_has_type,
};
use super::format::{
    TYPE_ARRAY, TYPE_BOOL, TYPE_FD, TYPE_FRACTION, TYPE_ID, TYPE_INT, TYPE_LONG, TYPE_OBJECT,
    TYPE_RECTANGLE, TYPE_STRING, TYPE_STRUCT,
};

verus! {

/// The `Id` value of the property `key` among the properties `s`.
pub open spec fn spec_prop_id(s: Seq<u8>, key: u32) -> Option<u32> {
    match spec_find_prop(s, key) {
        Some(p) => Some(spec_le32(p.body, 0)),
        None => None,
    }
}

/// The `Id` value of the property `key`, as an enumerated value.
pub open spec fn spec_prop_enum<T: SpaRawEnum>(s: Seq<u8>, key: u32) -> Option<SpaEnum<T>> {
    match spec_find_prop(s, key) {
        Some(p) => Some(spec_spa_enum_from_raw::<T>(spec_le32(p.body, 0))),
        None => None,
    }
}

/// The `Int` value of the property `key`.
pub open spec fn spec_prop_int(s: Seq<u8>, key: u32) -> Option<i32> {
    match spec_find_prop(s, key) {
        Some(p) => Some(spec_le32(p.body, 0) as i32),
        None => None,
    }
}

/// The `Long` value of the property `key`.
pub open spec fn spec_prop_long(s: Seq<u8>, key: u32) -> Option<i64> {
    match spec_find_prop(s, key) {
        Some(p) => Some(spec_le64(p.body, 0) as i64),
        None => None,
    }
}

/// The `Fd` value (a file descriptor index) of the property `key`.
pub open spec fn spec_prop_fd(s: Seq<u8>, key: u32) -> Option<i64> {
    spec_prop_long(s, key)
}

/// The `Bool` value of the property `key`.
pub open spec fn spec_prop_bool(s: Seq<u8>, key: u32) -> Option<bool> {
    match spec_find_prop(s, key) {
        Some(p) => Some(spec_le32(p.body, 0) != 0),
        None => None,
    }
}

/// The `Rectangle` value of the property `key`.
pub open spec fn spec_prop_rectangle(s: Seq<u8>, key: u32) -> Option<SpaRectangle> {
    match spec_find_prop(s, key) {
        Some(p) => Some(SpaRectangle { width: spec_le32(p.body, 0), height: spec_le32(p.body, 4) }),
        None => None,
    }
}

/// The `Fraction` value of the property `key`.
pub open spec fn spec_prop_fraction(s: Seq<u8>, key: u32) -> Option<SpaFraction> {
    match spec_find_prop(s, key) {
        Some(p) => Some(SpaFraction { num: spec_le32(p.body, 0), denom: spec_le32(p.body, 4) }),
        None => None,
    }
}

/// The `String` value of the property `key`, without its terminating NUL.
pub open spec fn spec_prop_str(s: Seq<u8>, key: u32) -> Option<Seq<u8>> {
    match spec_find_prop(s, key) {
        Some(p) => Some(spec_cstr(p.body)),
        None => None,
    }
}

/// The body of the property `key` (the fields of a `Struct`).
pub open spec fn spec_prop_body(s: Seq<u8>, key: u32) -> Option<Seq<u8>> {
    match spec_find_prop(s, key) {
        Some(p) => Some(p.body),
        None => None,
    }
}

/// The `Array` reader over the property `key`.
pub open spec fn spec_prop_array(s: Seq<u8>, key: u32) -> Option<ArrayView> {
    match spec_find_prop(s, key) {
        Some(p) => Some(spec_array_view(p.body)),
        None => None,
    }
}

/// The `Object` reader over the property `key`.
pub open spec fn spec_prop_object(s: Seq<u8>, key: u32) -> Option<ObjectView> {
    match spec_find_prop(s, key) {
        Some(p) => Some(spec_object_view(p.body)),
        None => None,
    }
}

/// Spa:Pod:Object:Param:PropInfo
pub struct PropInfo<'a>(pub PodObjectDeserializer<'a>);

impl<'a> PropInfo<'a> {
    /// The value of the property with key `id`, if present.
    pub fn get(&self, id: u32) -> (r: Option<PodDeserializer<'a>>)
        ensures
            match r {
                Some(p) => spec_find_prop(self.0.view().body, id) == Some(p.view()) && p.valid(),
                None => spec_find_prop(self.0.view().body, id) is None,
            },
    {
        self.0.find_property(id)
    }

    /// Spa:Pod:Object:Param:PropInfo:id
    pub fn id(&self) -> (r: Option<SpaEnum<SpaProp>>)
        requires
            spec_prop_has_type(self.0.view().body, 1, TYPE_ID),
        ensures
            r == spec_prop_enum::<SpaProp>(self.0.view().body, 1),
    {
        match self.get(1) {
            Some(p) => match p.as_id() {
                Ok(v) => Some(SpaEnum::<SpaProp>::from_raw(v)),
                Err(_) => vstd::pervasive::unreached(),
            },
            None => None,
        }
    }

    /// Spa:Pod:Object:Param:PropInfo:name
    pub fn name(&self) -> (r: Option<&'a [u8]>)
        requires
            spec_prop_has_type(self.0.view().body, 2, TYPE_STRING),
        ensures
            match r {
                Some(v) => spec_prop_str(self.0.view().body, 2) == Some(v@),
                None => spec_prop_str(self.0.view().body, 2) is None,
            },
    {
        match self.get(2) {
            Some(p) => match p.as_str() {
                Ok(v) => Some(v),
                Err(_) => vstd::pervasive::unreached(),
            },
            None => None,
        }
    }

    /// Spa:Pod:Object:Param:PropInfo:type
    /// parent: Pod
    pub fn ty(&self) -> (r: Option<PodDeserializer<'a>>)
        ensures
            match r {
                Some(p) => spec_find_prop(self.0.view().body, 3) == Some(p.view()),
                None => spec_find_prop(self.0.view().body, 3) is None,
            },
    {
        self.get(3)
    }

    /// Spa:Pod:Object:Param:PropInfo:labels
    pub fn labels(&self) -> (r: Option<PodStructDeserializer<'a>>)
        requires
            spec_prop_has_type(self.0.view().body, 4, TYPE_STRUCT),
        ensures
            match r {
                Some(v) => spec_prop_body(self.0.view().body, 4) == Some(v.view()),
                None => spec_prop_body(self.0.view().body, 4) is None,
            },
    {
        match self.get(4) {
            Some(p) => match p.as_struct() {
                Ok(v) => Some(v),
                Err(_) => vstd::pervasive::unreached(),
            },
            None => None,
        }
    }

    /// Spa:Pod:Object:Param:PropInfo:container
    pub fn container(&self) -> (r: Option<u32>)
        requires
            spec_prop_has_type(self.0.view().body, 5, TYPE_ID),
        ensures
            r == spec_prop_id(self.0.view().body, 5),
    {
        match self.get(5) {
            Some(p) => match p.as_id() {
                Ok(v) => Some(v),
                Err(_) => vstd::pervasive::unreached(),
            },
            None => None,
        }
    }

    /// Spa:Pod:Object:Param:PropInfo:params
    pub fn params(&self) -> (r: Option<bool>)
        requires
            spec_prop_has_type(self.0.view().body, 6, TYPE_BOOL),
        ensures
            r == spec_prop_bool(self.0.view().body, 6),
    {
        match self.get(6) {
            Some(p) => match p.as_bool() {
                Ok(v) => Some(v),
                Err(_) => vstd::pervasive::unreached(),
            },
            None => None,
        }
    }

    /// Spa:Pod:Object:Param:PropInfo:description
    pub fn description(&self) -> (r: Option<&'a [u8]>)
        requires
            spec_prop_has_type(self.0.view().body, 7, TYPE_STRING),
        ensures
            match r {
                Some(v) => spec_prop_str(self.0.view().body, 7) == Some(v@),
                None => spec_prop_str(self.0.view().body, 7) is None,
            },
    {
        match self.get(7) {
            Some(p) => match p.as_str() {
                Ok(v) => Some(v),
                Err(_) => vstd::pervasive::unreached(),
            },
            None => None,
        }
    }

}

/// Spa:Pod:Object:Param:Props
pub struct Props<'a>(pub PodObjectDeserializer<'a>);

impl<'a> Props<'a> {
    /// The value of the property with key `id`, if present.
    pub fn get(&self, id: u32) -> (r: Option<PodDeserializer<'a>>)
        ensures
            match r {
                Some(p) => spec_find_prop(self.0.view().body, id) == Some(p.view()) && p.valid(),
                None => spec_find_prop(self.0.view().body, id) is None,
            },
    {
        self.0.find_property(id)
    }

    /// Spa:Pod:Object:Param:Props:device
    pub fn device(&self) -> (r: Option<&'a [u8]>)
        requires
            spec_prop_has_type(self.0.view().body, 257, TYPE_STRING),
        ensures
            match r {
                Some(v) => spec_prop_str(self.0.view().body, 257) == Some(v@),
                None => spec_prop_str(self.0.view().body, 257) is None,
            },
    {
        match self.get(257) {
            Some(p) => match p.as_str() {
                Ok(v) => Some(v),
                Err(_) => vstd::pervasive::unreached(),
            },
            None => None,
        }
    }

    /// Spa:Pod:Object:Param:Props:deviceName
    pub fn device_name(&self) -> (r: Option<&'a [u8]>)
        requires
            spec_prop_has_type(self.0.view().body, 258, TYPE_STRING),
        ensures
            match r {
                Some(v) => spec_prop_str(self.0.view().body, 258) == Some(v@),
                None => spec_prop_str(self.0.view().body, 258) is None,
            },
    {
        match self.get(258) {
            Some(p) => match p.as_str() {
                Ok(v) => Some(v),
                Err(_) => vstd::pervasive::unreached(),
            },
            None => None,
        }
    }

    /// Spa:Pod:Object:Param:Props:deviceFd
    pub fn device_fd(&self) -> (r: Option<i64>)
        requires
            spec_prop_has_type(self.0.view().body, 259, TYPE_FD),
        ensures
            r == spec_prop_fd(self.0.view().body, 259),
    {
        match self.get(259) {
            Some(p) => match p.as_fd() {
                Ok(v) => Some(v),
                Err(_) => vstd::pervasive::unreached(),
            },
            None => None,
        }
    }

    /// Spa:Pod:Object:Param:Props:card
    pub fn card(&self) -> (r: Option<&'a [u8]>)
        requires
            spec_prop_has_type(self.0.view().body, 260, TYPE_STRING),
        ensures
            match r {
                Some(v) => spec_prop_str(self.0.view().body, 260) == Some(v@),
                None => spec_prop_str(self.0.view().body, 260) is None,
            },
    {
        match self.get(260) {
            Some(p) => match p.as_str() {
                Ok(v) => Some(v),
                Err(_) => vstd::pervasive::unreached(),
            },
            None => None,
        }
    }

    /// Spa:Pod:Object:Param:Props:cardName
    pub fn card_name(&self) -> (r: Option<&'a [u8]>)
        requires
            spec_prop_has_type(self.0.view().body, 261, TYPE_STRING),
        ensures
            match r {
                Some(v) => spec_prop_str(self.0.view().body, 261) == Some(v@),
                None => spec_prop_str(self.0.view().body, 261) is None,
            },
    {
        match self.get(261) {
            Some(p) => match p.as_str() {
                Ok(v) => Some(v),
                Err(_) => vstd::pervasive::unreached(),
            },
            None => None,
        }
    }

    /// Spa:Pod:Object:Param:Props:minLatency
    pub fn min_latency(&self) -> (r: Option<i32>)
        requires
            spec_prop_has_type(self.0.view().body, 262, TYPE_INT),
        ensures
            r == spec_prop_int(self.0.view().body, 262),
    {
        match self.get(262) {
            Some(p) => match p.as_i32() {
                Ok(v) => Some(v),
                Err(_) => vstd::pervasive::unreached(),
            },
            None => None,
        }
    }

    /// Spa:Pod:Object:Param:Props:maxLatency
    pub fn max_latency(&self) -> (r: Option<i32>)
        requires
            spec_prop_has_type(self.0.view().body, 263, TYPE_INT),
        ensures
            r == spec_prop_int(self.0.view().body, 263),
    {
        match self.get(263) {
            Some(p) => match p.as_i32() {
                Ok(v) => Some(v),
                Err(_) => vstd::pervasive::unreached(),
            },
            None => None,
        }
    }

    /// Spa:Pod:Object:Param:Props:periods
    pub fn periods(&self) -> (r: Option<i32>)
        requires
            spec_prop_has_type(self.0.view().body, 264, TYPE_INT),
        ensures
            r == spec_prop_int(self.0.view().body, 264),
    {
        match self.get(264) {
            Some(p) => match p.as_i32() {
                Ok(v) => Some(v),
                Err(_) => vstd::pervasive::unreached(),
            },
            None => None,
        }
    }

    /// Spa:Pod:Object:Param:Props:periodSize
    pub fn period_size(&self) -> (r: Option<i32>)
        requires
            spec_prop_has_type(self.0.view().body, 265, TYPE_INT),
        ensures
            r == spec_prop_int(self.0.view().body, 265),
    {
        match self.get(265) {
            Some(p) => match p.as_i32() {
                Ok(v) => Some(v),
                Err(_) => vstd::pervasive::unreached(),
            },
            None => None,
        }
    }

    /// Spa:Pod:Object:Param:Props:periodEvent
    pub fn period_event(&self) -> (r: Option<bool>)
        requires
            spec_prop_has_type(self.0.view().body, 266, TYPE_BOOL),
        ensures
            r == spec_prop_bool(self.0.view().body, 266),
    {
        match self.get(266) {
            Some(p) => match p.as_bool() {
                Ok(v) => Some(v),
                Err(_) => vstd::pervasive::unreached(),
            },
            None => None,
        }
    }

    /// Spa:Pod:Object:Param:Props:live
    pub fn live(&self) -> (r: Option<bool>)
        requires
            spec_prop_has_type(self.0.view().body, 267, TYPE_BOOL),
        ensures
            r == spec_prop_bool(self.0.view().body, 267),
    {
        match self.get(267) {
            Some(p) => match p.as_bool() {
                Ok(v) => Some(v),
                Err(_) => vstd::pervasive::unreached(),
            },
            None => None,
        }
    }

    /// Spa:Pod:Object:Param:Props:quality
    pub fn quality(&self) -> (r: Option<i32>)
        requires
            spec_prop_has_type(self.0.view().body, 269, TYPE_INT),
        ensures
            r == spec_prop_int(self.0.view().body, 269),
    {
        match self.get(269) {
            Some(p) => match p.as_i32() {
                Ok(v) => Some(v),
                Err(_) => vstd::pervasive::unreached(),
            },
            None => None,
        }
    }

    /// Spa:Pod:Object:Param:Props:bluetoothAudioCodec
    ///
    /// The raw `SpaBluetoothAudioCodec` value.
    pub fn bluetooth_audio_codec(&self) -> (r: Option<u32>)
        requires
            spec_prop_has_type(self.0.view().body, 270, TYPE_ID),
        ensures
            r == spec_prop_id(self.0.view().body, 270),
    {
        match self.get(270) {
            Some(p) => match p.as_id() {
                Ok(v) => Some(v),
                Err(_) => vstd::pervasive::unreached(),
            },
            None => None,
        }
    }

    /// Spa:Pod:Object:Param:Props:bluetoothOffloadActive
    pub fn bluetooth_offload_active(&self) -> (r: Option<bool>)
        requires
            spec_prop_has_type(self.0.view().body, 271, TYPE_BOOL),
        ensures
            r == spec_prop_bool(self.0.view().body, 271),
    {
        match self.get(271) {
            Some(p) => match p.as_bool() {
                Ok(v) => Some(v),
                Err(_) => vstd::pervasive::unreached(),
            },
            None => None,
        }
    }

    /// Spa:Pod:Object:Param:Props:waveType
    pub fn wave_type(&self) -> (r: Option<u32>)
        requires
            spec_prop_has_type(self.0.view().body, 65537, TYPE_ID),
        ensures
            r == spec_prop_id(self.0.view().body, 65537),
    {
        match self.get(65537) {
            Some(p) => match p.as_id() {
                Ok(v) => Some(v),
                Err(_) => vstd::pervasive::unreached(),
            },
            None => None,
        }
    }

    /// Spa:Pod:Object:Param:Props:frequency
    pub fn frequency(&self) -> (r: Option<i32>)
        requires
            spec_prop_has_type(self.0.view().body, 65538, TYPE_INT),
        ensures
            r == spec_prop_int(self.0.view().body, 65538),
    {
        match self.get(65538) {
            Some(p) => match p.as_i32() {
                Ok(v) => Some(v),
                Err(_) => vstd::pervasive::unreached(),
            },
            None => None,
        }
    }

    /// Spa:Pod:Object:Param:Props:mute
    pub fn mute(&self) -> (r: Option<bool>)
        requires
            spec_prop_has_type(self.0.view().body, 65540, TYPE_BOOL),
        ensures
            r == spec_prop_bool(self.0.view().body, 65540),
    {
        match self.get(65540) {
            Some(p) => match p.as_bool() {
                Ok(v) => Some(v),
                Err(_) => vstd::pervasive::unreached(),
            },
            None => None,
        }
    }

    /// Spa:Pod:Object:Param:Props:patternType
    pub fn pattern_type(&self) -> (r: Option<u32>)
        requires
            spec_prop_has_type(self.0.view().body, 65541, TYPE_ID),
        ensures
            r == spec_prop_id(self.0.view().body, 65541),
    {
        match self.get(65541) {
            Some(p) => match p.as_id() {
                Ok(v) => Some(v),
                Err(_) => vstd::pervasive::unreached(),
            },
            None => None,
        }
    }

    /// Spa:Pod:Object:Param:Props:ditherType
    pub fn dither_type(&self) -> (r: Option<u32>)
        requires
            spec_prop_has_type(self.0.view().body, 65542, TYPE_ID),
        ensures
            r == spec_prop_id(self.0.view().body, 65542),
    {
        match self.get(65542) {
            Some(p) => match p.as_id() {
                Ok(v) => Some(v),
                Err(_) => vstd::pervasive::unreached(),
            },
            None => None,
        }
    }

    /// Spa:Pod:Object:Param:Props:truncate
    pub fn truncate(&self) -> (r: Option<bool>)
        requires
            spec_prop_has_type(self.0.view().body, 65543, TYPE_BOOL),
        ensures
            r == spec_prop_bool(self.0.view().body, 65543),
    {
        match self.get(65543) {
            Some(p) => match p.as_bool() {
                Ok(v) => Some(v),
                Err(_) => vstd::pervasive::unreached(),
            },
            None => None,
        }
    }

    /// Spa:Pod:Object:Param:Props:channelVolumes
    /// parent: Array<Spa:floatArray>
    pub fn channel_volumes(&self) -> (r: Option<PodArrayDeserializer<'a>>)
        requires
            spec_prop_has_type(self.0.view().body, 65544, TYPE_ARRAY),
        ensures
            match r {
                Some(v) => spec_prop_array(self.0.view().body, 65544) == Some(v.view()),
                None => spec_prop_array(self.0.view().body, 65544) is None,
            },
    {
        match self.get(65544) {
            Some(p) => match p.as_array() {
                Ok(v) => Some(v),
                Err(_) => vstd::pervasive::unreached(),
            },
            None => None,
        }
    }

    /// Spa:Pod:Object:Param:Props:channelMap
    /// parent: Array<Spa:channelMap>
    pub fn channel_map(&self) -> (r: Option<PodArrayDeserializer<'a>>)
        requires
            spec_prop_has_type(self.0.view().body, 65547, TYPE_ARRAY),
        ensures
            match r {
                Some(v) => spec_prop_array(self.0.view().body, 65547) == Some(v.view()),
                None => spec_prop_array(self.0.view().body, 65547) is None,
            },
    {
        match self.get(65547) {
            Some(p) => match p.as_array() {
                Ok(v) => Some(v),
                Err(_) => vstd::pervasive::unreached(),
            },
            None => None,
        }
    }

    /// Spa:Pod:Object:Param:Props:monitorMute
    pub fn monitor_mute(&self) -> (r: Option<bool>)
        requires
            spec_prop_has_type(self.0.view().body, 65548, TYPE_BOOL),
        ensures
            r == spec_prop_bool(self.0.view().body, 65548),
    {
        match self.get(65548) {
            Some(p) => match p.as_bool() {
                Ok(v) => Some(v),
                Err(_) => vstd::pervasive::unreached(),
            },
            None => None,
        }
    }

    /// Spa:Pod:Object:Param:Props:monitorVolumes
    /// parent: Array<Spa:floatArray>
    pub fn monitor_volumes(&self) -> (r: Option<PodArrayDeserializer<'a>>)
        requires
            spec_prop_has_type(self.0.view().body, 65549, TYPE_ARRAY),
        ensures
            match r {
                Some(v) => spec_prop_array(self.0.view().body, 65549) == Some(v.view()),
                None => spec_prop_array(self.0.view().body, 65549) is None,
            },
    {
        match self.get(65549) {
            Some(p) => match p.as_array() {
                Ok(v) => Some(v),
                Err(_) => vstd::pervasive::unreached(),
            },
            None => None,
        }
    }

    /// Spa:Pod:Object:Param:Props:latencyOffsetNsec
    pub fn latency_offset_nsec(&self) -> (r: Option<i64>)
        requires
            spec_prop_has_type(self.0.view().body, 65550, TYPE_LONG),
        ensures
            r == spec_prop_long(self.0.view().body, 65550),
    {
        match self.get(65550) {
            Some(p) => match p.as_i64() {
                Ok(v) => Some(v),
                Err(_) => vstd::pervasive::unreached(),
            },
            None => None,
        }
    }

    /// Spa:Pod:Object:Param:Props:softMute
    pub fn soft_mute(&self) -> (r: Option<bool>)
        requires
            spec_prop_has_type(self.0.view().body, 65551, TYPE_BOOL),
        ensures
            r == spec_prop_bool(self.0.view().body, 65551),
    {
        match self.get(65551) {
            Some(p) => match p.as_bool() {
                Ok(v) => Some(v),
                Err(_) => vstd::pervasive::unreached(),
            },
            None => None,
        }
    }

    /// Spa:Pod:Object:Param:Props:softVolumes
    /// parent: Array<Spa:floatArray>
    pub fn soft_volumes(&self) -> (r: Option<PodArrayDeserializer<'a>>)
        requires
            spec_prop_has_type(self.0.view().body, 65552, TYPE_ARRAY),
        ensures
            match r {
                Some(v) => spec_prop_array(self.0.view().body, 65552) == Some(v.view()),
                None => spec_prop_array(self.0.view().body, 65552) is None,
            },
    {
        match self.get(65552) {
            Some(p) => match p.as_array() {
                Ok(v) => Some(v),
                Err(_) => vstd::pervasive::unreached(),
            },
            None => None,
        }
    }

    /// Spa:Pod:Object:Param:Props:iec958Codecs
    /// parent: Array<Spa:iec958Codec>
    pub fn iec958_codecs(&self) -> (r: Option<PodArrayDeserializer<'a>>)
        requires
            spec_prop_has_type(self.0.view().body, 65553, TYPE_ARRAY),
        ensures
            match r {
                Some(v) => spec_prop_array(self.0.view().body, 65553) == Some(v.view()),
                None => spec_prop_array(self.0.view().body, 65553) is None,
            },
    {
        match self.get(65553) {
            Some(p) => match p.as_array() {
                Ok(v) => Some(v),
                Err(_) => vstd::pervasive::unreached(),
            },
            None => None,
        }
    }

    /// Spa:Pod:Object:Param:Props:volumeRampSamples
    pub fn volume_ramp_samples(&self) -> (r: Option<i32>)
        requires
            spec_prop_has_type(self.0.view().body, 65554, TYPE_INT),
        ensures
            r == spec_prop_int(self.0.view().body, 65554),
    {
        match self.get(65554) {
            Some(p) => match p.as_i32() {
                Ok(v) => Some(v),
                Err(_) => vstd::pervasive::unreached(),
            },
            None => None,
        }
    }

    /// Spa:Pod:Object:Param:Props:volumeRampStepSamples
    pub fn volume_ramp_step_samples(&self) -> (r: Option<i32>)
        requires
            spec_prop_has_type(self.0.view().body, 65555, TYPE_INT),
        ensures
            r == spec_prop_int(self.0.view().body, 65555),
    {
        match self.get(65555) {
            Some(p) => match p.as_i32() {
                Ok(v) => Some(v),
                Err(_) => vstd::pervasive::unreached(),
            },
            None => None,
        }
    }

    /// Spa:Pod:Object:Param:Props:volumeRampTime
    pub fn volume_ramp_time(&self) -> (r: Option<i32>)
        requires
            spec_prop_has_type(self.0.view().body, 65556, TYPE_INT),
        ensures
            r == spec_prop_int(self.0.view().body, 65556),
    {
        match self.get(65556) {
            Some(p) => match p.as_i32() {
                Ok(v) => Some(v),
                Err(_) => vstd::pervasive::unreached(),
            },
            None => None,
        }
    }

    /// Spa:Pod:Object:Param:Props:volumeRampStepTime
    pub fn volume_ramp_step_time(&self) -> (r: Option<i32>)
        requires
            spec_prop_has_type(self.0.view().body, 65557, TYPE_INT),
        ensures
            r == spec_prop_int(self.0.view().body, 65557),
    {
        match self.get(65557) {
            Some(p) => match p.as_i32() {
                Ok(v) => Some(v),
                Err(_) => vstd::pervasive::unreached(),
            },
            None => None,
        }
    }

    /// Spa:Pod:Object:Param:Props:volumeRampScale
    pub fn volume_ramp_scale(&self) -> (r: Option<u32>)
        requires
            spec_prop_has_type(self.0.view().body, 65558, TYPE_ID),
        ensures
            r == spec_prop_id(self.0.view().body, 65558),
    {
        match self.get(65558) {
            Some(p) => match p.as_id() {
                Ok(v) => Some(v),
                Err(_) => vstd::pervasive::unreached(),
            },
            None => None,
        }
    }

    /// Spa:Pod:Object:Param:Props:hue
    pub fn hue(&self) -> (r: Option<i32>)
        requires
            spec_prop_has_type(self.0.view().body, 131076, TYPE_INT),
        ensures
            r == spec_prop_int(self.0.view().body, 131076),
    {
        match self.get(131076) {
            Some(p) => match p.as_i32() {
                Ok(v) => Some(v),
                Err(_) => vstd::pervasive::unreached(),
            },
            None => None,
        }
    }

    /// Spa:Pod:Object:Param:Props:gamma
    pub fn gamma(&self) -> (r: Option<i32>)
        requires
            spec_prop_has_type(self.0.view().body, 131077, TYPE_INT),
        ensures
            r == spec_prop_int(self.0.view().body, 131077),
    {
        match self.get(131077) {
            Some(p) => match p.as_i32() {
                Ok(v) => Some(v),
                Err(_) => vstd::pervasive::unreached(),
            },
            None => None,
        }
    }

    /// Spa:Pod:Object:Param:Props:exposure
    pub fn exposure(&self) -> (r: Option<i32>)
        requires
            spec_prop_has_type(self.0.view().body, 131078, TYPE_INT),
        ensures
            r == spec_prop_int(self.0.view().body, 131078),
    {
        match self.get(131078) {
            Some(p) => match p.as_i32() {
                Ok(v) => Some(v),
                Err(_) => vstd::pervasive::unreached(),
            },
            None => None,
        }
    }

    /// Spa:Pod:Object:Param:Props:params
    pub fn params(&self) -> (r: Option<PodStructDeserializer<'a>>)
        requires
            spec_prop_has_type(self.0.view().body, 524289, TYPE_STRUCT),
        ensures
            match r {
                Some(v) => spec_prop_body(self.0.view().body, 524289) == Some(v.view()),
                None => spec_prop_body(self.0.view().body, 524289) is None,
            },
    {
        match self.get(524289) {
            Some(p) => match p.as_struct() {
                Ok(v) => Some(v),
                Err(_) => vstd::pervasive::unreached(),
            },
            None => None,
        }
    }

}

/// Spa:Pod:Object:Param:Format
pub struct Format<'a>(pub PodObjectDeserializer<'a>);

impl<'a> Format<'a> {
    /// The value of the property with key `id`, if present.
    pub fn get(&self, id: u32) -> (r: Option<PodDeserializer<'a>>)
        ensures
            match r {
                Some(p) => spec_find_prop(self.0.view().body, id) == Some(p.view()) && p.valid(),
                None => spec_find_prop(self.0.view().body, id) is None,
            },
    {
        self.0.find_property(id)
    }

    /// Spa:Pod:Object:Param:Format:mediaType
    pub fn media_type(&self) -> (r: Option<SpaEnum<SpaMediaType>>)
        requires
            spec_prop_has_type(self.0.view().body, 1, TYPE_ID),
        ensures
            r == spec_prop_enum::<SpaMediaType>(self.0.view().body, 1),
    {
        match self.get(1) {
            Some(p) => match p.as_id() {
                Ok(v) => Some(SpaEnum::<SpaMediaType>::from_raw(v)),
                Err(_) => vstd::pervasive::unreached(),
            },
            None => None,
        }
    }

    /// Spa:Pod:Object:Param:Format:mediaSubtype
    pub fn media_subtype(&self) -> (r: Option<SpaEnum<SpaMediaSubtype>>)
        requires
            spec_prop_has_type(self.0.view().body, 2, TYPE_ID),
        ensures
            r == spec_prop_enum::<SpaMediaSubtype>(self.0.view().body, 2),
    {
        match self.get(2) {
            Some(p) => match p.as_id() {
                Ok(v) => Some(SpaEnum::<SpaMediaSubtype>::from_raw(v)),
                Err(_) => vstd::pervasive::unreached(),
            },
            None => None,
        }
    }

    /// Spa:Pod:Object:Param:Format:Audio:format
    ///
    /// The raw `SpaAudioFormat` value.
    pub fn audio_format(&self) -> (r: Option<u32>)
        requires
            spec_prop_has_type(self.0.view().body, 65537, TYPE_ID),
        ensures
            r == spec_prop_id(self.0.view().body, 65537),
    {
        match self.get(65537) {
            Some(p) => match p.as_id() {
                Ok(v) => Some(v),
                Err(_) => vstd::pervasive::unreached(),
            },
            None => None,
        }
    }

    /// Spa:Pod:Object:Param:Format:Audio:flags
    /// enum: Spa:Flags:AudioFlags
    /// value-0: "Spa:Flags:AudioFlags:none"
    /// value-1: "Spa:Flags:AudioFlags:unpositioned"
    pub fn audio_flags(&self) -> (r: Option<u32>)
        requires
            spec_prop_has_type(self.0.view().body, 65538, TYPE_ID),
        ensures
            r == spec_prop_id(self.0.view().body, 65538),
    {
        match self.get(65538) {
            Some(p) => match p.as_id() {
                Ok(v) => Some(v),
                Err(_) => vstd::pervasive::unreached(),
            },
            None => None,
        }
    }

    /// Spa:Pod:Object:Param:Format:Audio:rate
    pub fn audio_rate(&self) -> (r: Option<i32>)
        requires
            spec_prop_has_type(self.0.view().body, 65539, TYPE_INT),
        ensures
            r == spec_prop_int(self.0.view().body, 65539),
    {
        match self.get(65539) {
            Some(p) => match p.as_i32() {
                Ok(v) => Some(v),
                Err(_) => vstd::pervasive::unreached(),
            },
            None => None,
        }
    }

    /// Spa:Pod:Object:Param:Format:Audio:channels
    pub fn audio_channels(&self) -> (r: Option<i32>)
        requires
            spec_prop_has_type(self.0.view().body, 65540, TYPE_INT),
        ensures
            r == spec_prop_int(self.0.view().body, 65540),
    {
        match self.get(65540) {
            Some(p) => match p.as_i32() {
                Ok(v) => Some(v),
                Err(_) => vstd::pervasive::unreached(),
            },
            None => None,
        }
    }

    /// Spa:Pod:Object:Param:Format:Audio:position
    /// parent: Array<Spa:channelMap>
    pub fn audio_position(&self) -> (r: Option<PodArrayDeserializer<'a>>)
        requires
            spec_prop_has_type(self.0.view().body, 65541, TYPE_ARRAY),
        ensures
            match r {
                Some(v) => spec_prop_array(self.0.view().body, 65541) == Some(v.view()),
                None => spec_prop_array(self.0.view().body, 65541) is None,
            },
    {
        match self.get(65541) {
            Some(p) => match p.as_array() {
                Ok(v) => Some(v),
                Err(_) => vstd::pervasive::unreached(),
            },
            None => None,
        }
    }

    /// Spa:Pod:Object:Param:Format:Audio:iec958Codec
    ///
    /// The raw `SpaAudioIec958Codec` value.
    pub fn audio_iec958_codec(&self) -> (r: Option<u32>)
        requires
            spec_prop_has_type(self.0.view().body, 65542, TYPE_ID),
        ensures
            r == spec_prop_id(self.0.view().body, 65542),
    {
        match self.get(65542) {
            Some(p) => match p.as_id() {
                Ok(v) => Some(v),
                Err(_) => vstd::pervasive::unreached(),
            },
            None => None,
        }
    }

    /// Spa:Pod:Object:Param:Format:Audio:bitorder
    ///
    /// The raw `SpaParamBitorder` value.
    pub fn audio_bitorder(&self) -> (r: Option<u32>)
        requires
            spec_prop_has_type(self.0.view().body, 65543, TYPE_ID),
        ensures
            r == spec_prop_id(self.0.view().body, 65543),
    {
        match self.get(65543) {
            Some(p) => match p.as_id() {
                Ok(v) => Some(v),
                Err(_) => vstd::pervasive::unreached(),
            },
            None => None,
        }
    }

    /// Spa:Pod:Object:Param:Format:Audio:interleave
    pub fn audio_interleave(&self) -> (r: Option<i32>)
        requires
            spec_prop_has_type(self.0.view().body, 65544, TYPE_INT),
        ensures
            r == spec_prop_int(self.0.view().body, 65544),
    {
        match self.get(65544) {
            Some(p) => match p.as_i32() {
                Ok(v) => Some(v),
                Err(_) => vstd::pervasive::unreached(),
            },
            None => None,
        }
    }

    /// Spa:Pod:Object:Param:Format:Audio:bitrate
    pub fn audio_bitrate(&self) -> (r: Option<i32>)
        requires
            spec_prop_has_type(self.0.view().body, 65545, TYPE_INT),
        ensures
            r == spec_prop_int(self.0.view().body, 65545),
    {
        match self.get(65545) {
            Some(p) => match p.as_i32() {
                Ok(v) => Some(v),
                Err(_) => vstd::pervasive::unreached(),
            },
            None => None,
        }
    }

    /// Spa:Pod:Object:Param:Format:Audio:blockAlign
    pub fn audio_block_align(&self) -> (r: Option<i32>)
        requires
            spec_prop_has_type(self.0.view().body, 65546, TYPE_INT),
        ensures
            r == spec_prop_int(self.0.view().body, 65546),
    {
        match self.get(65546) {
            Some(p) => match p.as_i32() {
                Ok(v) => Some(v),
                Err(_) => vstd::pervasive::unreached(),
            },
            None => None,
        }
    }

    /// Spa:Pod:Object:Param:Format:Audio:AAC:streamFormat
    ///
    /// The raw `SpaAudioAacStreamFormat` value.
    pub fn audio_aac_stream_format(&self) -> (r: Option<u32>)
        requires
            spec_prop_has_type(self.0.view().body, 65547, TYPE_ID),
        ensures
            r == spec_prop_id(self.0.view().body, 65547),
    {
        match self.get(65547) {
            Some(p) => match p.as_id() {
                Ok(v) => Some(v),
                Err(_) => vstd::pervasive::unreached(),
            },
            None => None,
        }
    }

    /// Spa:Pod:Object:Param:Format:Audio:WMA:profile
    ///
    /// The raw `SpaAudioWmaProfile` value.
    pub fn audio_wma_profile(&self) -> (r: Option<u32>)
        requires
            spec_prop_has_type(self.0.view().body, 65548, TYPE_ID),
        ensures
            r == spec_prop_id(self.0.view().body, 65548),
    {
        match self.get(65548) {
            Some(p) => match p.as_id() {
                Ok(v) => Some(v),
                Err(_) => vstd::pervasive::unreached(),
            },
            None => None,
        }
    }

    /// Spa:Pod:Object:Param:Format:Audio:AMR:bandMode
    ///
    /// The raw `SpaAudioAmrBandMode` value.
    pub fn audio_amr_band_mode(&self) -> (r: Option<u32>)
        requires
            spec_prop_has_type(self.0.view().body, 65549, TYPE_ID),
        ensures
            r == spec_prop_id(self.0.view().body, 65549),
    {
        match self.get(65549) {
            Some(p) => match p.as_id() {
                Ok(v) => Some(v),
                Err(_) => vstd::pervasive::unreached(),
            },
            None => None,
        }
    }

    /// Spa:Pod:Object:Param:Format:Video:format
    ///
    /// The raw `SpaVideoFormat` value.
    pub fn video_format(&self) -> (r: Option<u32>)
        requires
            spec_prop_has_type(self.0.view().body, 131073, TYPE_ID),
        ensures
            r == spec_prop_id(self.0.view().body, 131073),
    {
        match self.get(131073) {
            Some(p) => match p.as_id() {
                Ok(v) => Some(v),
                Err(_) => vstd::pervasive::unreached(),
            },
            None => None,
        }
    }

    /// Spa:Pod:Object:Param:Format:Video:modifier
    pub fn video_modifier(&self) -> (r: Option<i64>)
        requires
            spec_prop_has_type(self.0.view().body, 131074, TYPE_LONG),
        ensures
            r == spec_prop_long(self.0.view().body, 131074),
    {
        match self.get(131074) {
            Some(p) => match p.as_i64() {
                Ok(v) => Some(v),
                Err(_) => vstd::pervasive::unreached(),
            },
            None => None,
        }
    }

    /// Spa:Pod:Object:Param:Format:Video:size
    pub fn video_size(&self) -> (r: Option<SpaRectangle>)
        requires
            spec_prop_has_type(self.0.view().body, 131075, TYPE_RECTANGLE),
        ensures
            r == spec_prop_rectangle(self.0.view().body, 131075),
    {
        match self.get(131075) {
            Some(p) => match p.as_rectangle() {
                Ok(v) => Some(v),
                Err(_) => vstd::pervasive::unreached(),
            },
            None => None,
        }
    }

    /// Spa:Pod:Object:Param:Format:Video:framerate
    pub fn video_framerate(&self) -> (r: Option<SpaFraction>)
        requires
            spec_prop_has_type(self.0.view().body, 131076, TYPE_FRACTION),
        ensures
            r == spec_prop_fraction(self.0.view().body, 131076),
    {
        match self.get(131076) {
            Some(p) => match p.as_fraction() {
                Ok(v) => Some(v),
                Err(_) => vstd::pervasive::unreached(),
            },
            None => None,
        }
    }

    /// Spa:Pod:Object:Param:Format:Video:maxFramerate
    pub fn video_max_framerate(&self) -> (r: Option<SpaFraction>)
        requires
            spec_prop_has_type(self.0.view().body, 131077, TYPE_FRACTION),
        ensures
            r == spec_prop_fraction(self.0.view().body, 131077),
    {
        match self.get(131077) {
            Some(p) => match p.as_fraction() {
                Ok(v) => Some(v),
                Err(_) => vstd::pervasive::unreached(),
            },
            None => None,
        }
    }

    /// Spa:Pod:Object:Param:Format:Video:views
    pub fn video_views(&self) -> (r: Option<i32>)
        requires
            spec_prop_has_type(self.0.view().body, 131078, TYPE_INT),
        ensures
            r == spec_prop_int(self.0.view().body, 131078),
    {
        match self.get(131078) {
            Some(p) => match p.as_i32() {
                Ok(v) => Some(v),
                Err(_) => vstd::pervasive::unreached(),
            },
            None => None,
        }
    }

    /// Spa:Pod:Object:Param:Format:Video:interlaceMode
    ///
    /// The raw `SpaVideoInterlaceMode` value.
    pub fn video_interlace_mode(&self) -> (r: Option<u32>)
        requires
            spec_prop_has_type(self.0.view().body, 131079, TYPE_ID),
        ensures
            r == spec_prop_id(self.0.view().body, 131079),
    {
        match self.get(131079) {
            Some(p) => match p.as_id() {
                Ok(v) => Some(v),
                Err(_) => vstd::pervasive::unreached(),
            },
            None => None,
        }
    }

    /// Spa:Pod:Object:Param:Format:Video:pixelAspectRatio
    pub fn video_pixel_aspect_ratio(&self) -> (r: Option<SpaFraction>)
        requires
            spec_prop_has_type(self.0.view().body, 131080, TYPE_FRACTION),
        ensures
            r == spec_prop_fraction(self.0.view().body, 131080),
    {
        match self.get(131080) {
            Some(p) => match p.as_fraction() {
                Ok(v) => Some(v),
                Err(_) => vstd::pervasive::unreached(),
            },
            None => None,
        }
    }

    /// Spa:Pod:Object:Param:Format:Video:multiviewMode
    ///
    /// The raw `SpaVideoMultiviewMode` value.
    pub fn video_multiview_mode(&self) -> (r: Option<u32>)
        requires
            spec_prop_has_type(self.0.view().body, 131081, TYPE_ID),
        ensures
            r == spec_prop_id(self.0.view().body, 131081),
    {
        match self.get(131081) {
            Some(p) => match p.as_id() {
                Ok(v) => Some(v),
                Err(_) => vstd::pervasive::unreached(),
            },
            None => None,
        }
    }

    /// Spa:Pod:Object:Param:Format:Video:multiviewFlags
    ///
    /// The raw `SpaVideoMultiviewFlags` value.
    pub fn video_multiview_flags(&self) -> (r: Option<u32>)
        requires
            spec_prop_has_type(self.0.view().body, 131082, TYPE_ID),
        ensures
            r == spec_prop_id(self.0.view().body, 131082),
    {
        match self.get(131082) {
            Some(p) => match p.as_id() {
                Ok(v) => Some(v),
                Err(_) => vstd::pervasive::unreached(),
            },
            None => None,
        }
    }

    /// Spa:Pod:Object:Param:Format:Video:chromaSite
    pub fn video_chroma_site(&self) -> (r: Option<u32>)
        requires
            spec_prop_has_type(self.0.view().body, 131083, TYPE_ID),
        ensures
            r == spec_prop_id(self.0.view().body, 131083),
    {
        match self.get(131083) {
            Some(p) => match p.as_id() {
                Ok(v) => Some(v),
                Err(_) => vstd::pervasive::unreached(),
            },
            None => None,
        }
    }

    /// Spa:Pod:Object:Param:Format:Video:colorRange
    pub fn video_color_range(&self) -> (r: Option<u32>)
        requires
            spec_prop_has_type(self.0.view().body, 131084, TYPE_ID),
        ensures
            r == spec_prop_id(self.0.view().body, 131084),
    {
        match self.get(131084) {
            Some(p) => match p.as_id() {
                Ok(v) => Some(v),
                Err(_) => vstd::pervasive::unreached(),
            },
            None => None,
        }
    }

    /// Spa:Pod:Object:Param:Format:Video:colorMatrix
    pub fn video_color_matrix(&self) -> (r: Option<u32>)
        requires
            spec_prop_has_type(self.0.view().body, 131085, TYPE_ID),
        ensures
            r == spec_prop_id(self.0.view().body, 131085),
    {
        match self.get(131085) {
            Some(p) => match p.as_id() {
                Ok(v) => Some(v),
                Err(_) => vstd::pervasive::unreached(),
            },
            None => None,
        }
    }

    /// Spa:Pod:Object:Param:Format:Video:transferFunction
    pub fn video_transfer_function(&self) -> (r: Option<u32>)
        requires
            spec_prop_has_type(self.0.view().body, 131086, TYPE_ID),
        ensures
            r == spec_prop_id(self.0.view().body, 131086),
    {
        match self.get(131086) {
            Some(p) => match p.as_id() {
                Ok(v) => Some(v),
                Err(_) => vstd::pervasive::unreached(),
            },
            None => None,
        }
    }

    /// Spa:Pod:Object:Param:Format:Video:colorPrimaries
    pub fn video_color_primaries(&self) -> (r: Option<u32>)
        requires
            spec_prop_has_type(self.0.view().body, 131087, TYPE_ID),
        ensures
            r == spec_prop_id(self.0.view().body, 131087),
    {
        match self.get(131087) {
            Some(p) => match p.as_id() {
                Ok(v) => Some(v),
                Err(_) => vstd::pervasive::unreached(),
            },
            None => None,
        }
    }

    /// Spa:Pod:Object:Param:Format:Video:profile
    pub fn video_profile(&self) -> (r: Option<i32>)
        requires
            spec_prop_has_type(self.0.view().body, 131088, TYPE_INT),
        ensures
            r == spec_prop_int(self.0.view().body, 131088),
    {
        match self.get(131088) {
            Some(p) => match p.as_i32() {
                Ok(v) => Some(v),
                Err(_) => vstd::pervasive::unreached(),
            },
            None => None,
        }
    }

    /// Spa:Pod:Object:Param:Format:Video:level
    pub fn video_level(&self) -> (r: Option<i32>)
        requires
            spec_prop_has_type(self.0.view().body, 131089, TYPE_INT),
        ensures
            r == spec_prop_int(self.0.view().body, 131089),
    {
        match self.get(131089) {
            Some(p) => match p.as_i32() {
                Ok(v) => Some(v),
                Err(_) => vstd::pervasive::unreached(),
            },
            None => None,
        }
    }

    /// Spa:Pod:Object:Param:Format:Video:H264:streamFormat
    pub fn video_h264_stream_format(&self) -> (r: Option<u32>)
        requires
            spec_prop_has_type(self.0.view().body, 131090, TYPE_ID),
        ensures
            r == spec_prop_id(self.0.view().body, 131090),
    {
        match self.get(131090) {
            Some(p) => match p.as_id() {
                Ok(v) => Some(v),
                Err(_) => vstd::pervasive::unreached(),
            },
            None => None,
        }
    }

    /// Spa:Pod:Object:Param:Format:Video:H264:alignment
    pub fn video_h264_alignment(&self) -> (r: Option<u32>)
        requires
            spec_prop_has_type(self.0.view().body, 131091, TYPE_ID),
        ensures
            r == spec_prop_id(self.0.view().body, 131091),
    {
        match self.get(131091) {
            Some(p) => match p.as_id() {
                Ok(v) => Some(v),
                Err(_) => vstd::pervasive::unreached(),
            },
            None => None,
        }
    }

}

/// Spa:Pod:Object:Param:Buffers
pub struct Buffers<'a>(pub PodObjectDeserializer<'a>);

impl<'a> Buffers<'a> {
    /// The value of the property with key `id`, if present.
    pub fn get(&self, id: u32) -> (r: Option<PodDeserializer<'a>>)
        ensures
            match r {
                Some(p) => spec_find_prop(self.0.view().body, id) == Some(p.view()) && p.valid(),
                None => spec_find_prop(self.0.view().body, id) is None,
            },
    {
        self.0.find_property(id)
    }

    /// Spa:Pod:Object:Param:Buffers:buffers
    pub fn buffers(&self) -> (r: Option<i32>)
        requires
            spec_prop_has_type(self.0.view().body, 1, TYPE_INT),
        ensures
            r == spec_prop_int(self.0.view().body, 1),
    {
        match self.get(1) {
            Some(p) => match p.as_i32() {
                Ok(v) => Some(v),
                Err(_) => vstd::pervasive::unreached(),
            },
            None => None,
        }
    }

    /// Spa:Pod:Object:Param:Buffers:blocks
    pub fn blocks(&self) -> (r: Option<i32>)
        requires
            spec_prop_has_type(self.0.view().body, 2, TYPE_INT),
        ensures
            r == spec_prop_int(self.0.view().body, 2),
    {
        match self.get(2) {
            Some(p) => match p.as_i32() {
                Ok(v) => Some(v),
                Err(_) => vstd::pervasive::unreached(),
            },
            None => None,
        }
    }

    /// Spa:Pod:Object:Param:Buffers:BlockInfo:size
    pub fn block_info_size(&self) -> (r: Option<i32>)
        requires
            spec_prop_has_type(self.0.view().body, 3, TYPE_INT),
        ensures
            r == spec_prop_int(self.0.view().body, 3),
    {
        match self.get(3) {
            Some(p) => match p.as_i32() {
                Ok(v) => Some(v),
                Err(_) => vstd::pervasive::unreached(),
            },
            None => None,
        }
    }

    /// Spa:Pod:Object:Param:Buffers:BlockInfo:stride
    pub fn block_info_stride(&self) -> (r: Option<i32>)
        requires
            spec_prop_has_type(self.0.view().body, 4, TYPE_INT),
        ensures
            r == spec_prop_int(self.0.view().body, 4),
    {
        match self.get(4) {
            Some(p) => match p.as_i32() {
                Ok(v) => Some(v),
                Err(_) => vstd::pervasive::unreached(),
            },
            None => None,
        }
    }

    /// Spa:Pod:Object:Param:Buffers:BlockInfo:align
    pub fn block_info_align(&self) -> (r: Option<i32>)
        requires
            spec_prop_has_type(self.0.view().body, 5, TYPE_INT),
        ensures
            r == spec_prop_int(self.0.view().body, 5),
    {
        match self.get(5) {
            Some(p) => match p.as_i32() {
                Ok(v) => Some(v),
                Err(_) => vstd::pervasive::unreached(),
            },
            None => None,
        }
    }

    /// Spa:Pod:Object:Param:Buffers:BlockInfo:dataType
    pub fn block_info_data_type(&self) -> (r: Option<i32>)
        requires
            spec_prop_has_type(self.0.view().body, 6, TYPE_INT),
        ensures
            r == spec_prop_int(self.0.view().body, 6),
    {
        match self.get(6) {
            Some(p) => match p.as_i32() {
                Ok(v) => Some(v),
                Err(_) => vstd::pervasive::unreached(),
            },
            None => None,
        }
    }

    /// Spa:Pod:Object:Param:Buffers:BlockInfo:metaType
    pub fn block_info_meta_type(&self) -> (r: Option<i32>)
        requires
            spec_prop_has_type(self.0.view().body, 7, TYPE_INT),
        ensures
            r == spec_prop_int(self.0.view().body, 7),
    {
        match self.get(7) {
            Some(p) => match p.as_i32() {
                Ok(v) => Some(v),
                Err(_) => vstd::pervasive::unreached(),
            },
            None => None,
        }
    }

}

/// Spa:Pod:Object:Param:Meta
pub struct Meta<'a>(pub PodObjectDeserializer<'a>);

impl<'a> Meta<'a> {
    /// The value of the property with key `id`, if present.
    pub fn get(&self, id: u32) -> (r: Option<PodDeserializer<'a>>)
        ensures
            match r {
                Some(p) => spec_find_prop(self.0.view().body, id) == Some(p.view()) && p.valid(),
                None => spec_find_prop(self.0.view().body, id) is None,
            },
    {
        self.0.find_property(id)
    }

    /// Spa:Pod:Object:Param:Meta:type
    /// enum: Spa:Pointer:Meta
    /// value-0: "Spa:Pointer:Meta:Invalid"
    /// value-1: "Spa:Pointer:Meta:Header"
    /// value-2: "Spa:Pointer:Meta:Region:VideoCrop"
    /// value-3: "Spa:Pointer:Meta:Array:Region:VideoDamage"
    /// value-4: "Spa:Pointer:Meta:Bitmap"
    /// value-5: "Spa:Pointer:Meta:Cursor"
    /// value-6: "Spa:Pointer:Meta:Control"
    /// value-7: "Spa:Pointer:Meta:Busy"
    /// value-8: "Spa:Pointer:Meta:VideoTransform"
    /// value-9: "Spa:Pointer:Meta:SyncTimeline"
    pub fn ty(&self) -> (r: Option<u32>)
        requires
            spec_prop_has_type(self.0.view().body, 1, TYPE_ID),
        ensures
            r == spec_prop_id(self.0.view().body, 1),
    {
        match self.get(1) {
            Some(p) => match p.as_id() {
                Ok(v) => Some(v),
                Err(_) => vstd::pervasive::unreached(),
            },
            None => None,
        }
    }

    /// Spa:Pod:Object:Param:Meta:size
    pub fn size(&self) -> (r: Option<i32>)
        requires
            spec_prop_has_type(self.0.view().body, 2, TYPE_INT),
        ensures
            r == spec_prop_int(self.0.view().body, 2),
    {
        match self.get(2) {
            Some(p) => match p.as_i32() {
                Ok(v) => Some(v),
                Err(_) => vstd::pervasive::unreached(),
            },
            None => None,
        }
    }

}

/// Spa:Pod:Object:Param:IO
pub struct Io<'a>(pub PodObjectDeserializer<'a>);

impl<'a> Io<'a> {
    /// The value of the property with key `id`, if present.
    pub fn get(&self, id: u32) -> (r: Option<PodDeserializer<'a>>)
        ensures
            match r {
                Some(p) => spec_find_prop(self.0.view().body, id) == Some(p.view()) && p.valid(),
                None => spec_find_prop(self.0.view().body, id) is None,
            },
    {
        self.0.find_property(id)
    }

    /// Spa:Pod:Object:Param:IO:id
    /// enum: Spa:Enum:IO
    /// value-0: "Spa:Enum:IO:Invalid"
    /// value-1: "Spa:Enum:IO:Buffers"
    /// value-2: "Spa:Enum:IO:Range"
    /// value-3: "Spa:Enum:IO:Clock"
    /// value-4: "Spa:Enum:IO:Latency"
    /// value-5: "Spa:Enum:IO:Control"
    /// value-6: "Spa:Enum:IO:Notify"
    /// value-7: "Spa:Enum:IO:Position"
    /// value-8: "Spa:Enum:IO:RateMatch"
    /// value-9: "Spa:Enum:IO:Memory"
    /// value-10: "Spa:Enum:IO:AsyncBuffers"
    pub fn id(&self) -> (r: Option<u32>)
        requires
            spec_prop_has_type(self.0.view().body, 1, TYPE_ID),
        ensures
            r == spec_prop_id(self.0.view().body, 1),
    {
        match self.get(1) {
            Some(p) => match p.as_id() {
                Ok(v) => Some(v),
                Err(_) => vstd::pervasive::unreached(),
            },
            None => None,
        }
    }

    /// Spa:Pod:Object:Param:IO:size
    pub fn size(&self) -> (r: Option<i32>)
        requires
            spec_prop_has_type(self.0.view().body, 2, TYPE_INT),
        ensures
            r == spec_prop_int(self.0.view().body, 2),
    {
        match self.get(2) {
            Some(p) => match p.as_i32() {
                Ok(v) => Some(v),
                Err(_) => vstd::pervasive::unreached(),
            },
            None => None,
        }
    }

}

/// Spa:Pod:Object:Param:Profile
pub struct Profile<'a>(pub PodObjectDeserializer<'a>);

impl<'a> Profile<'a> {
    /// The value of the property with key `id`, if present.
    pub fn get(&self, id: u32) -> (r: Option<PodDeserializer<'a>>)
        ensures
            match r {
                Some(p) => spec_find_prop(self.0.view().body, id) == Some(p.view()) && p.valid(),
                None => spec_find_prop(self.0.view().body, id) is None,
            },
    {
        self.0.find_property(id)
    }

    /// Spa:Pod:Object:Param:Profile:index
    pub fn index(&self) -> (r: Option<i32>)
        requires
            spec_prop_has_type(self.0.view().body, 1, TYPE_INT),
        ensures
            r == spec_prop_int(self.0.view().body, 1),
    {
        match self.get(1) {
            Some(p) => match p.as_i32() {
                Ok(v) => Some(v),
                Err(_) => vstd::pervasive::unreached(),
            },
            None => None,
        }
    }

    /// Spa:Pod:Object:Param:Profile:name
    pub fn name(&self) -> (r: Option<&'a [u8]>)
        requires
            spec_prop_has_type(self.0.view().body, 2, TYPE_STRING),
        ensures
            match r {
                Some(v) => spec_prop_str(self.0.view().body, 2) == Some(v@),
                None => spec_prop_str(self.0.view().body, 2) is None,
            },
    {
        match self.get(2) {
            Some(p) => match p.as_str() {
                Ok(v) => Some(v),
                Err(_) => vstd::pervasive::unreached(),
            },
            None => None,
        }
    }

    /// Spa:Pod:Object:Param:Profile:description
    pub fn description(&self) -> (r: Option<&'a [u8]>)
        requires
            spec_prop_has_type(self.0.view().body, 3, TYPE_STRING),
        ensures
            match r {
                Some(v) => spec_prop_str(self.0.view().body, 3) == Some(v@),
                None => spec_prop_str(self.0.view().body, 3) is None,
            },
    {
        match self.get(3) {
            Some(p) => match p.as_str() {
                Ok(v) => Some(v),
                Err(_) => vstd::pervasive::unreached(),
            },
            None => None,
        }
    }

    /// Spa:Pod:Object:Param:Profile:priority
    pub fn priority(&self) -> (r: Option<i32>)
        requires
            spec_prop_has_type(self.0.view().body, 4, TYPE_INT),
        ensures
            r == spec_prop_int(self.0.view().body, 4),
    {
        match self.get(4) {
            Some(p) => match p.as_i32() {
                Ok(v) => Some(v),
                Err(_) => vstd::pervasive::unreached(),
            },
            None => None,
        }
    }

    /// Spa:Pod:Object:Param:Profile:available
    /// enum: Spa:Enum:ParamAvailability
    /// value-0: "Spa:Enum:ParamAvailability:unknown"
    /// value-1: "Spa:Enum:ParamAvailability:no"
    /// value-2: "Spa:Enum:ParamAvailability:yes"
    pub fn available(&self) -> (r: Option<u32>)
        requires
            spec_prop_has_type(self.0.view().body, 5, TYPE_ID),
        ensures
            r == spec_prop_id(self.0.view().body, 5),
    {
        match self.get(5) {
            Some(p) => match p.as_id() {
                Ok(v) => Some(v),
                Err(_) => vstd::pervasive::unreached(),
            },
            None => None,
        }
    }

    /// Spa:Pod:Object:Param:Profile:info
    pub fn info(&self) -> (r: Option<PodStructDeserializer<'a>>)
        requires
            spec_prop_has_type(self.0.view().body, 6, TYPE_STRUCT),
        ensures
            match r {
                Some(v) => spec_prop_body(self.0.view().body, 6) == Some(v.view()),
                None => spec_prop_body(self.0.view().body, 6) is None,
            },
    {
        match self.get(6) {
            Some(p) => match p.as_struct() {
                Ok(v) => Some(v),
                Err(_) => vstd::pervasive::unreached(),
            },
            None => None,
        }
    }

    /// Spa:Pod:Object:Param:Profile:classes
    pub fn classes(&self) -> (r: Option<PodStructDeserializer<'a>>)
        requires
            spec_prop_has_type(self.0.view().body, 7, TYPE_STRUCT),
        ensures
            match r {
                Some(v) => spec_prop_body(self.0.view().body, 7) == Some(v.view()),
                None => spec_prop_body(self.0.view().body, 7) is None,
            },
    {
        match self.get(7) {
            Some(p) => match p.as_struct() {
                Ok(v) => Some(v),
                Err(_) => vstd::pervasive::unreached(),
            },
            None => None,
        }
    }

    /// Spa:Pod:Object:Param:Profile:save
    pub fn save(&self) -> (r: Option<bool>)
        requires
            spec_prop_has_type(self.0.view().body, 8, TYPE_BOOL),
        ensures
            r == spec_prop_bool(self.0.view().body, 8),
    {
        match self.get(8) {
            Some(p) => match p.as_bool() {
                Ok(v) => Some(v),
                Err(_) => vstd::pervasive::unreached(),
            },
            None => None,
        }
    }

}

/// Spa:Pod:Object:Param:PortConfig
pub struct PortConfig<'a>(pub PodObjectDeserializer<'a>);

impl<'a> PortConfig<'a> {
    /// The value of the property with key `id`, if present.
    pub fn get(&self, id: u32) -> (r: Option<PodDeserializer<'a>>)
        ensures
            match r {
                Some(p) => spec_find_prop(self.0.view().body, id) == Some(p.view()) && p.valid(),
                None => spec_find_prop(self.0.view().body, id) is None,
            },
    {
        self.0.find_property(id)
    }

    /// Spa:Pod:Object:Param:PortConfig:direction
    pub fn direction(&self) -> (r: Option<SpaEnum<SpaDirection>>)
        requires
            spec_prop_has_type(self.0.view().body, 1, TYPE_ID),
        ensures
            r == spec_prop_enum::<SpaDirection>(self.0.view().body, 1),
    {
        match self.get(1) {
            Some(p) => match p.as_id() {
                Ok(v) => Some(SpaEnum::<SpaDirection>::from_raw(v)),
                Err(_) => vstd::pervasive::unreached(),
            },
            None => None,
        }
    }

    /// Spa:Pod:Object:Param:PortConfig:mode
    ///
    /// The raw `SpaParamPortConfigMode` value.
    pub fn mode(&self) -> (r: Option<u32>)
        requires
            spec_prop_has_type(self.0.view().body, 2, TYPE_ID),
        ensures
            r == spec_prop_id(self.0.view().body, 2),
    {
        match self.get(2) {
            Some(p) => match p.as_id() {
                Ok(v) => Some(v),
                Err(_) => vstd::pervasive::unreached(),
            },
            None => None,
        }
    }

    /// Spa:Pod:Object:Param:PortConfig:monitor
    pub fn monitor(&self) -> (r: Option<bool>)
        requires
            spec_prop_has_type(self.0.view().body, 3, TYPE_BOOL),
        ensures
            r == spec_prop_bool(self.0.view().body, 3),
    {
        match self.get(3) {
            Some(p) => match p.as_bool() {
                Ok(v) => Some(v),
                Err(_) => vstd::pervasive::unreached(),
            },
            None => None,
        }
    }

    /// Spa:Pod:Object:Param:PortConfig:control
    pub fn control(&self) -> (r: Option<bool>)
        requires
            spec_prop_has_type(self.0.view().body, 4, TYPE_BOOL),
        ensures
            r == spec_prop_bool(self.0.view().body, 4),
    {
        match self.get(4) {
            Some(p) => match p.as_bool() {
                Ok(v) => Some(v),
                Err(_) => vstd::pervasive::unreached(),
            },
            None => None,
        }
    }

    /// Spa:Pod:Object:Param:PortConfig:format
    pub fn format(&self) -> (r: Option<Format<'a>>)
        requires
            spec_prop_has_type(self.0.view().body, 5, TYPE_OBJECT),
        ensures
            match r {
                Some(v) => spec_prop_object(self.0.view().body, 5) == Some(v.0.view()),
                None => spec_prop_object(self.0.view().body, 5) is None,
            },
    {
        match self.get(5) {
            Some(p) => match p.as_object() {
                Ok(v) => Some(Format(v)),
                Err(_) => vstd::pervasive::unreached(),
            },
            None => None,
        }
    }

}

/// Spa:Pod:Object:Param:Route
pub struct Route<'a>(pub PodObjectDeserializer<'a>);

impl<'a> Route<'a> {
    /// The value of the property with key `id`, if present.
    pub fn get(&self, id: u32) -> (r: Option<PodDeserializer<'a>>)
        ensures
            match r {
                Some(p) => spec_find_prop(self.0.view().body, id) == Some(p.view()) && p.valid(),
                None => spec_find_prop(self.0.view().body, id) is None,
            },
    {
        self.0.find_property(id)
    }

    /// Spa:Pod:Object:Param:Route:index
    pub fn index(&self) -> (r: Option<i32>)
        requires
            spec_prop_has_type(self.0.view().body, 1, TYPE_INT),
        ensures
            r == spec_prop_int(self.0.view().body, 1),
    {
        match self.get(1) {
            Some(p) => match p.as_i32() {
                Ok(v) => Some(v),
                Err(_) => vstd::pervasive::unreached(),
            },
            None => None,
        }
    }

    /// Spa:Pod:Object:Param:Route:direction
    pub fn direction(&self) -> (r: Option<SpaEnum<SpaDirection>>)
        requires
            spec_prop_has_type(self.0.view().body, 2, TYPE_ID),
        ensures
            r == spec_prop_enum::<SpaDirection>(self.0.view().body, 2),
    {
        match self.get(2) {
            Some(p) => match p.as_id() {
                Ok(v) => Some(SpaEnum::<SpaDirection>::from_raw(v)),
                Err(_) => vstd::pervasive::unreached(),
            },
            None => None,
        }
    }

    /// Spa:Pod:Object:Param:Route:device
    pub fn device(&self) -> (r: Option<i32>)
        requires
            spec_prop_has_type(self.0.view().body, 3, TYPE_INT),
        ensures
            r == spec_prop_int(self.0.view().body, 3),
    {
        match self.get(3) {
            Some(p) => match p.as_i32() {
                Ok(v) => Some(v),
                Err(_) => vstd::pervasive::unreached(),
            },
            None => None,
        }
    }

    /// Spa:Pod:Object:Param:Route:name
    pub fn name(&self) -> (r: Option<&'a [u8]>)
        requires
            spec_prop_has_type(self.0.view().body, 4, TYPE_STRING),
        ensures
            match r {
                Some(v) => spec_prop_str(self.0.view().body, 4) == Some(v@),
                None => spec_prop_str(self.0.view().body, 4) is None,
            },
    {
        match self.get(4) {
            Some(p) => match p.as_str() {
                Ok(v) => Some(v),
                Err(_) => vstd::pervasive::unreached(),
            },
            None => None,
        }
    }

    /// Spa:Pod:Object:Param:Route:description
    pub fn description(&self) -> (r: Option<&'a [u8]>)
        requires
            spec_prop_has_type(self.0.view().body, 5, TYPE_STRING),
        ensures
            match r {
                Some(v) => spec_prop_str(self.0.view().body, 5) == Some(v@),
                None => spec_prop_str(self.0.view().body, 5) is None,
            },
    {
        match self.get(5) {
            Some(p) => match p.as_str() {
                Ok(v) => Some(v),
                Err(_) => vstd::pervasive::unreached(),
            },
            None => None,
        }
    }

    /// Spa:Pod:Object:Param:Route:priority
    pub fn priority(&self) -> (r: Option<i32>)
        requires
            spec_prop_has_type(self.0.view().body, 6, TYPE_INT),
        ensures
            r == spec_prop_int(self.0.view().body, 6),
    {
        match self.get(6) {
            Some(p) => match p.as_i32() {
                Ok(v) => Some(v),
                Err(_) => vstd::pervasive::unreached(),
            },
            None => None,
        }
    }

    /// Spa:Pod:Object:Param:Route:available
    /// enum: Spa:Enum:ParamAvailability
    /// value-0: "Spa:Enum:ParamAvailability:unknown"
    /// value-1: "Spa:Enum:ParamAvailability:no"
    /// value-2: "Spa:Enum:ParamAvailability:yes"
    pub fn available(&self) -> (r: Option<u32>)
        requires
            spec_prop_has_type(self.0.view().body, 7, TYPE_ID),
        ensures
            r == spec_prop_id(self.0.view().body, 7),
    {
        match self.get(7) {
            Some(p) => match p.as_id() {
                Ok(v) => Some(v),
                Err(_) => vstd::pervasive::unreached(),
            },
            None => None,
        }
    }

    /// Spa:Pod:Object:Param:Route:info
    pub fn info(&self) -> (r: Option<PodStructDeserializer<'a>>)
        requires
            spec_prop_has_type(self.0.view().body, 8, TYPE_STRUCT),
        ensures
            match r {
                Some(v) => spec_prop_body(self.0.view().body, 8) == Some(v.view()),
                None => spec_prop_body(self.0.view().body, 8) is None,
            },
    {
        match self.get(8) {
            Some(p) => match p.as_struct() {
                Ok(v) => Some(v),
                Err(_) => vstd::pervasive::unreached(),
            },
            None => None,
        }
    }

    /// Spa:Pod:Object:Param:Route:profiles
    /// parent: Array<Spa:intArray>
    pub fn profiles(&self) -> (r: Option<PodArrayDeserializer<'a>>)
        requires
            spec_prop_has_type(self.0.view().body, 9, TYPE_ARRAY),
        ensures
            match r {
                Some(v) => spec_prop_array(self.0.view().body, 9) == Some(v.view()),
                None => spec_prop_array(self.0.view().body, 9) is None,
            },
    {
        match self.get(9) {
            Some(p) => match p.as_array() {
                Ok(v) => Some(v),
                Err(_) => vstd::pervasive::unreached(),
            },
            None => None,
        }
    }

    /// Spa:Pod:Object:Param:Route:props
    pub fn props(&self) -> (r: Option<Props<'a>>)
        requires
            spec_prop_has_type(self.0.view().body, 10, TYPE_OBJECT),
        ensures
            match r {
                Some(v) => spec_prop_object(self.0.view().body, 10) == Some(v.0.view()),
                None => spec_prop_object(self.0.view().body, 10) is None,
            },
    {
        match self.get(10) {
            Some(p) => match p.as_object() {
                Ok(v) => Some(Props(v)),
                Err(_) => vstd::pervasive::unreached(),
            },
            None => None,
        }
    }

    /// Spa:Pod:Object:Param:Route:devices
    /// parent: Array<Spa:intArray>
    pub fn devices(&self) -> (r: Option<PodArrayDeserializer<'a>>)
        requires
            spec_prop_has_type(self.0.view().body, 11, TYPE_ARRAY),
        ensures
            match r {
                Some(v) => spec_prop_array(self.0.view().body, 11) == Some(v.view()),
                None => spec_prop_array(self.0.view().body, 11) is None,
            },
    {
        match self.get(11) {
            Some(p) => match p.as_array() {
                Ok(v) => Some(v),
                Err(_) => vstd::pervasive::unreached(),
            },
            None => None,
        }
    }

    /// Spa:Pod:Object:Param:Route:profile
    pub fn profile(&self) -> (r: Option<i32>)
        requires
            spec_prop_has_type(self.0.view().body, 12, TYPE_INT),
        ensures
            r == spec_prop_int(self.0.view().body, 12),
    {
        match self.get(12) {
            Some(p) => match p.as_i32() {
                Ok(v) => Some(v),
                Err(_) => vstd::pervasive::unreached(),
            },
            None => None,
        }
    }

    /// Spa:Pod:Object:Param:Route:save
    pub fn save(&self) -> (r: Option<bool>)
        requires
            spec_prop_has_type(self.0.view().body, 13, TYPE_BOOL),
        ensures
            r == spec_prop_bool(self.0.view().body, 13),
    {
        match self.get(13) {
            Some(p) => match p.as_bool() {
                Ok(v) => Some(v),
                Err(_) => vstd::pervasive::unreached(),
            },
            None => None,
        }
    }

}

/// Spa:Pod:Object:Profiler
pub struct Profiler<'a>(pub PodObjectDeserializer<'a>);

impl<'a> Profiler<'a> {
    /// The value of the property with key `id`, if present.
    pub fn get(&self, id: u32) -> (r: Option<PodDeserializer<'a>>)
        ensures
            match r {
                Some(p) => spec_find_prop(self.0.view().body, id) == Some(p.view()) && p.valid(),
                None => spec_find_prop(self.0.view().body, id) is None,
            },
    {
        self.0.find_property(id)
    }

    /// Spa:Pod:Object:Profiler:info
    pub fn info(&self) -> (r: Option<PodStructDeserializer<'a>>)
        requires
            spec_prop_has_type(self.0.view().body, 65537, TYPE_STRUCT),
        ensures
            match r {
                Some(v) => spec_prop_body(self.0.view().body, 65537) == Some(v.view()),
                None => spec_prop_body(self.0.view().body, 65537) is None,
            },
    {
        match self.get(65537) {
            Some(p) => match p.as_struct() {
                Ok(v) => Some(v),
                Err(_) => vstd::pervasive::unreached(),
            },
            None => None,
        }
    }

    /// Spa:Pod:Object:Profiler:clock
    pub fn clock(&self) -> (r: Option<PodStructDeserializer<'a>>)
        requires
            spec_prop_has_type(self.0.view().body, 65538, TYPE_STRUCT),
        ensures
            match r {
                Some(v) => spec_prop_body(self.0.view().body, 65538) == Some(v.view()),
                None => spec_prop_body(self.0.view().body, 65538) is None,
            },
    {
        match self.get(65538) {
            Some(p) => match p.as_struct() {
                Ok(v) => Some(v),
                Err(_) => vstd::pervasive::unreached(),
            },
            None => None,
        }
    }

    /// Spa:Pod:Object:Profiler:driverBlock
    pub fn driver_block(&self) -> (r: Option<PodStructDeserializer<'a>>)
        requires
            spec_prop_has_type(self.0.view().body, 65539, TYPE_STRUCT),
        ensures
            match r {
                Some(v) => spec_prop_body(self.0.view().body, 65539) == Some(v.view()),
                None => spec_prop_body(self.0.view().body, 65539) is None,
            },
    {
        match self.get(65539) {
            Some(p) => match p.as_struct() {
                Ok(v) => Some(v),
                Err(_) => vstd::pervasive::unreached(),
            },
            None => None,
        }
    }

    /// Spa:Pod:Object:Profiler:followerBlock
    pub fn follower_block(&self) -> (r: Option<PodStructDeserializer<'a>>)
        requires
            spec_prop_has_type(self.0.view().body, 131073, TYPE_STRUCT),
        ensures
            match r {
                Some(v) => spec_prop_body(self.0.view().body, 131073) == Some(v.view()),
                None => spec_prop_body(self.0.view().body, 131073) is None,
            },
    {
        match self.get(131073) {
            Some(p) => match p.as_struct() {
                Ok(v) => Some(v),
                Err(_) => vstd::pervasive::unreached(),
            },
            None => None,
        }
    }

    /// Spa:Pod:Object:Profiler:followerClock
    pub fn follower_clock(&self) -> (r: Option<PodStructDeserializer<'a>>)
        requires
            spec_prop_has_type(self.0.view().body, 131074, TYPE_STRUCT),
        ensures
            match r {
                Some(v) => spec_prop_body(self.0.view().body, 131074) == Some(v.view()),
                None => spec_prop_body(self.0.view().body, 131074) is None,
            },
    {
        match self.get(131074) {
            Some(p) => match p.as_struct() {
                Ok(v) => Some(v),
                Err(_) => vstd::pervasive::unreached(),
            },
            None => None,
        }
    }

}

/// Spa:Pod:Object:Param:Latency
pub struct Latency<'a>(pub PodObjectDeserializer<'a>);

impl<'a> Latency<'a> {
    /// The value of the property with key `id`, if present.
    pub fn get(&self, id: u32) -> (r: Option<PodDeserializer<'a>>)
        ensures
            match r {
                Some(p) => spec_find_prop(self.0.view().body, id) == Some(p.view()) && p.valid(),
                None => spec_find_prop(self.0.view().body, id) is None,
            },
    {
        self.0.find_property(id)
    }

    /// Spa:Pod:Object:Param:Latency:direction
    pub fn direction(&self) -> (r: Option<SpaEnum<SpaDirection>>)
        requires
            spec_prop_has_type(self.0.view().body, 1, TYPE_ID),
        ensures
            r == spec_prop_enum::<SpaDirection>(self.0.view().body, 1),
    {
        match self.get(1) {
            Some(p) => match p.as_id() {
                Ok(v) => Some(SpaEnum::<SpaDirection>::from_raw(v)),
                Err(_) => vstd::pervasive::unreached(),
            },
            None => None,
        }
    }

    /// Spa:Pod:Object:Param:Latency:minRate
    pub fn min_rate(&self) -> (r: Option<i32>)
        requires
            spec_prop_has_type(self.0.view().body, 4, TYPE_INT),
        ensures
            r == spec_prop_int(self.0.view().body, 4),
    {
        match self.get(4) {
            Some(p) => match p.as_i32() {
                Ok(v) => Some(v),
                Err(_) => vstd::pervasive::unreached(),
            },
            None => None,
        }
    }

    /// Spa:Pod:Object:Param:Latency:maxRate
    pub fn max_rate(&self) -> (r: Option<i32>)
        requires
            spec_prop_has_type(self.0.view().body, 5, TYPE_INT),
        ensures
            r == spec_prop_int(self.0.view().body, 5),
    {
        match self.get(5) {
            Some(p) => match p.as_i32() {
                Ok(v) => Some(v),
                Err(_) => vstd::pervasive::unreached(),
            },
            None => None,
        }
    }

    /// Spa:Pod:Object:Param:Latency:minNs
    pub fn min_ns(&self) -> (r: Option<i64>)
        requires
            spec_prop_has_type(self.0.view().body, 6, TYPE_LONG),
        ensures
            r == spec_prop_long(self.0.view().body, 6),
    {
        match self.get(6) {
            Some(p) => match p.as_i64() {
                Ok(v) => Some(v),
                Err(_) => vstd::pervasive::unreached(),
            },
            None => None,
        }
    }

    /// Spa:Pod:Object:Param:Latency:maxNs
    pub fn max_ns(&self) -> (r: Option<i64>)
        requires
            spec_prop_has_type(self.0.view().body, 7, TYPE_LONG),
        ensures
            r == spec_prop_long(self.0.view().body, 7),
    {
        match self.get(7) {
            Some(p) => match p.as_i64() {
                Ok(v) => Some(v),
                Err(_) => vstd::pervasive::unreached(),
            },
            None => None,
        }
    }

}

/// Spa:Pod:Object:Param:ProcessLatency
pub struct ProcessLatency<'a>(pub PodObjectDeserializer<'a>);

impl<'a> ProcessLatency<'a> {
    /// The value of the property with key `id`, if present.
    pub fn get(&self, id: u32) -> (r: Option<PodDeserializer<'a>>)
        ensures
            match r {
                Some(p) => spec_find_prop(self.0.view().body, id) == Some(p.view()) && p.valid(),
                None => spec_find_prop(self.0.view().body, id) is None,
            },
    {
        self.0.find_property(id)
    }

    /// Spa:Pod:Object:Param:ProcessLatency:rate
    pub fn rate(&self) -> (r: Option<i32>)
        requires
            spec_prop_has_type(self.0.view().body, 2, TYPE_INT),
        ensures
            r == spec_prop_int(self.0.view().body, 2),
    {
        match self.get(2) {
            Some(p) => match p.as_i32() {
                Ok(v) => Some(v),
                Err(_) => vstd::pervasive::unreached(),
            },
            None => None,
        }
    }

    /// Spa:Pod:Object:Param:ProcessLatency:ns
    pub fn ns(&self) -> (r: Option<i64>)
        requires
            spec_prop_has_type(self.0.view().body, 3, TYPE_LONG),
        ensures
            r == spec_prop_long(self.0.view().body, 3),
    {
        match self.get(3) {
            Some(p) => match p.as_i64() {
                Ok(v) => Some(v),
                Err(_) => vstd::pervasive::unreached(),
            },
            None => None,
        }
    }

}

/// Spa:Pod:Object:Param:Tag
pub struct Tag<'a>(pub PodObjectDeserializer<'a>);

impl<'a> Tag<'a> {
    /// The value of the property with key `id`, if present.
    pub fn get(&self, id: u32) -> (r: Option<PodDeserializer<'a>>)
        ensures
            match r {
                Some(p) => spec_find_prop(self.0.view().body, id) == Some(p.view()) && p.valid(),
                None => spec_find_prop(self.0.view().body, id) is None,
            },
    {
        self.0.find_property(id)
    }

    /// Spa:Pod:Object:Param:Tag:direction
    pub fn direction(&self) -> (r: Option<SpaEnum<SpaDirection>>)
        requires
            spec_prop_has_type(self.0.view().body, 1, TYPE_ID),
        ensures
            r == spec_prop_enum::<SpaDirection>(self.0.view().body, 1),
    {
        match self.get(1) {
            Some(p) => match p.as_id() {
                Ok(v) => Some(SpaEnum::<SpaDirection>::from_raw(v)),
                Err(_) => vstd::pervasive::unreached(),
            },
            None => None,
        }
    }

    /// Spa:Pod:Object:Param:Tag:info
    pub fn info(&self) -> (r: Option<PodStructDeserializer<'a>>)
        requires
            spec_prop_has_type(self.0.view().body, 2, TYPE_STRUCT),
        ensures
            match r {
                Some(v) => spec_prop_body(self.0.view().body, 2) == Some(v.view()),
                None => spec_prop_body(self.0.view().body, 2) is None,
            },
    {
        match self.get(2) {
            Some(p) => match p.as_struct() {
                Ok(v) => Some(v),
                Err(_) => vstd::pervasive::unreached(),
            },
            None => None,
        }
    }

}



/// The value of a property of a [`Props`] object, as its getter gives it.
pub enum PropValue<'a> {
    Str(&'a [u8]),
    Fd(i64),
    Int(i32),
    Long(i64),
    Bool(bool),
    Id(u32),
    Array(PodArrayDeserializer<'a>),
    Struct(PodStructDeserializer<'a>),
}

/// The abstract content of a [`PropValue`].
pub ghost enum PropValueView {
    Str(Seq<u8>),
    Fd(i64),
    Int(i32),
    Long(i64),
    Bool(bool),
    Id(u32),
    Array(ArrayView),
    Struct(Seq<u8>),
}

impl<'a> PropValue<'a> {
    pub open spec fn view(self) -> PropValueView {
        match self {
            PropValue::Str(v) => PropValueView::Str(v@),
            PropValue::Fd(v) => PropValueView::Fd(v),
            PropValue::Int(v) => PropValueView::Int(v),
            PropValue::Long(v) => PropValueView::Long(v),
            PropValue::Bool(v) => PropValueView::Bool(v),
            PropValue::Id(v) => PropValueView::Id(v),
            PropValue::Array(v) => PropValueView::Array(v.view()),
            PropValue::Struct(v) => PropValueView::Struct(v.view()),
        }
    }
}

/// The names and abstract values of named property values.
pub open spec fn spec_named_values(v: Seq<(&'static str, PropValue)>) -> Seq<
    (Seq<char>, PropValueView),
> {
    v.map_values(|e: (&'static str, PropValue)| (e.0@, e.1.view()))
}

/// The entry `name` with value `v`, if there is one.
pub open spec fn spec_named(name: Seq<char>, v: Option<PropValueView>) -> Seq<
    (Seq<char>, PropValueView),
> {
    match v {
        Some(x) => seq![(name, x)],
        None => Seq::empty(),
    }
}

/// A `Str` value, if there is one.
pub open spec fn spec_opt_str(v: Option<Seq<u8>>) -> Option<PropValueView> {
    match v {
        Some(x) => Some(PropValueView::Str(x)),
        None => None,
    }
}

/// Append the entry `name` with the value of `v`, if there is one.
fn push_str_field<'a>(out: &mut Vec<(&'static str, PropValue<'a>)>, name: &'static str, v: Option<&'a [u8]>)
    ensures
        spec_named_values(final(out)@) == spec_named_values(old(out)@) + spec_named(
            name@,
            spec_opt_str(match v { Some(x) => Some(x@), None => None::<Seq<u8>> }),
        ),
{
    let ghost prev = out@;
    match v {
        Some(x) => {
            out.push((name, PropValue::Str(x)));
            proof {
                assert(spec_named_values(out@) =~= spec_named_values(prev) + seq![
                    (name@, PropValueView::Str(x@)),
                ]);
            }
        },
        None => {
            proof {
                assert(spec_named_values(out@) =~= spec_named_values(prev) + Seq::empty());
            }
        },
    }
}

/// A `Fd` value, if there is one.
pub open spec fn spec_opt_fd(v: Option<i64>) -> Option<PropValueView> {
    match v {
        Some(x) => Some(PropValueView::Fd(x)),
        None => None,
    }
}

/// Append the entry `name` with the value of `v`, if there is one.
fn push_fd_field<'a>(out: &mut Vec<(&'static str, PropValue<'a>)>, name: &'static str, v: Option<i64>)
    ensures
        spec_named_values(final(out)@) == spec_named_values(old(out)@) + spec_named(
            name@,
            spec_opt_fd(v),
        ),
{
    let ghost prev = out@;
    match v {
        Some(x) => {
            out.push((name, PropValue::Fd(x)));
            proof {
                assert(spec_named_values(out@) =~= spec_named_values(prev) + seq![
                    (name@, PropValueView::Fd(x)),
                ]);
            }
        },
        None => {
            proof {
                assert(spec_named_values(out@) =~= spec_named_values(prev) + Seq::empty());
            }
        },
    }
}

/// A `Int` value, if there is one.
pub open spec fn spec_opt_int(v: Option<i32>) -> Option<PropValueView> {
    match v {
        Some(x) => Some(PropValueView::Int(x)),
        None => None,
    }
}

/// Append the entry `name` with the value of `v`, if there is one.
fn push_int_field<'a>(out: &mut Vec<(&'static str, PropValue<'a>)>, name: &'static str, v: Option<i32>)
    ensures
        spec_named_values(final(out)@) == spec_named_values(old(out)@) + spec_named(
            name@,
            spec_opt_int(v),
        ),
{
    let ghost prev = out@;
    match v {
        Some(x) => {
            out.push((name, PropValue::Int(x)));
            proof {
                assert(spec_named_values(out@) =~= spec_named_values(prev) + seq![
                    (name@, PropValueView::Int(x)),
                ]);
            }
        },
        None => {
            proof {
                assert(spec_named_values(out@) =~= spec_named_values(prev) + Seq::empty());
            }
        },
    }
}

/// A `Long` value, if there is one.
pub open spec fn spec_opt_long(v: Option<i64>) -> Option<PropValueView> {
    match v {
        Some(x) => Some(PropValueView::Long(x)),
        None => None,
    }
}

/// Append the entry `name` with the value of `v`, if there is one.
fn push_long_field<'a>(out: &mut Vec<(&'static str, PropValue<'a>)>, name: &'static str, v: Option<i64>)
    ensures
        spec_named_values(final(out)@) == spec_named_values(old(out)@) + spec_named(
            name@,
            spec_opt_long(v),
        ),
{
    let ghost prev = out@;
    match v {
        Some(x) => {
            out.push((name, PropValue::Long(x)));
            proof {
                assert(spec_named_values(out@) =~= spec_named_values(prev) + seq![
                    (name@, PropValueView::Long(x)),
                ]);
            }
        },
        None => {
            proof {
                assert(spec_named_values(out@) =~= spec_named_values(prev) + Seq::empty());
            }
        },
    }
}

/// A `Bool` value, if there is one.
pub open spec fn spec_opt_bool(v: Option<bool>) -> Option<PropValueView> {
    match v {
        Some(x) => Some(PropValueView::Bool(x)),
        None => None,
    }
}

/// Append the entry `name` with the value of `v`, if there is one.
fn push_bool_field<'a>(out: &mut Vec<(&'static str, PropValue<'a>)>, name: &'static str, v: Option<bool>)
    ensures
        spec_named_values(final(out)@) == spec_named_values(old(out)@) + spec_named(
            name@,
            spec_opt_bool(v),
        ),
{
    let ghost prev = out@;
    match v {
        Some(x) => {
            out.push((name, PropValue::Bool(x)));
            proof {
                assert(spec_named_values(out@) =~= spec_named_values(prev) + seq![
                    (name@, PropValueView::Bool(x)),
                ]);
            }
        },
        None => {
            proof {
                assert(spec_named_values(out@) =~= spec_named_values(prev) + Seq::empty());
            }
        },
    }
}

/// A `Id` value, if there is one.
pub open spec fn spec_opt_id(v: Option<u32>) -> Option<PropValueView> {
    match v {
        Some(x) => Some(PropValueView::Id(x)),
        None => None,
    }
}

/// Append the entry `name` with the value of `v`, if there is one.
fn push_id_field<'a>(out: &mut Vec<(&'static str, PropValue<'a>)>, name: &'static str, v: Option<u32>)
    ensures
        spec_named_values(final(out)@) == spec_named_values(old(out)@) + spec_named(
            name@,
            spec_opt_id(v),
        ),
{
    let ghost prev = out@;
    match v {
        Some(x) => {
            out.push((name, PropValue::Id(x)));
            proof {
                assert(spec_named_values(out@) =~= spec_named_values(prev) + seq![
                    (name@, PropValueView::Id(x)),
                ]);
            }
        },
        None => {
            proof {
                assert(spec_named_values(out@) =~= spec_named_values(prev) + Seq::empty());
            }
        },
    }
}

/// A `Array` value, if there is one.
pub open spec fn spec_opt_array(v: Option<ArrayView>) -> Option<PropValueView> {
    match v {
        Some(x) => Some(PropValueView::Array(x)),
        None => None,
    }
}

/// Append the entry `name` with the value of `v`, if there is one.
fn push_array_field<'a>(out: &mut Vec<(&'static str, PropValue<'a>)>, name: &'static str, v: Option<PodArrayDeserializer<'a>>)
    ensures
        spec_named_values(final(out)@) == spec_named_values(old(out)@) + spec_named(
            name@,
            spec_opt_array(match v { Some(x) => Some(x.view()), None => None::<ArrayView> }),
        ),
{
    let ghost prev = out@;
    match v {
        Some(x) => {
            out.push((name, PropValue::Array(x)));
            proof {
                assert(spec_named_values(out@) =~= spec_named_values(prev) + seq![
                    (name@, PropValueView::Array(x.view())),
                ]);
            }
        },
        None => {
            proof {
                assert(spec_named_values(out@) =~= spec_named_values(prev) + Seq::empty());
            }
        },
    }
}

/// A `Struct` value, if there is one.
pub open spec fn spec_opt_struct(v: Option<Seq<u8>>) -> Option<PropValueView> {
    match v {
        Some(x) => Some(PropValueView::Struct(x)),
        None => None,
    }
}

/// Append the entry `name` with the value of `v`, if there is one.
fn push_struct_field<'a>(out: &mut Vec<(&'static str, PropValue<'a>)>, name: &'static str, v: Option<PodStructDeserializer<'a>>)
    ensures
        spec_named_values(final(out)@) == spec_named_values(old(out)@) + spec_named(
            name@,
            spec_opt_struct(match v { Some(x) => Some(x.view()), None => None::<Seq<u8>> }),
        ),
{
    let ghost prev = out@;
    match v {
        Some(x) => {
            out.push((name, PropValue::Struct(x)));
            proof {
                assert(spec_named_values(out@) =~= spec_named_values(prev) + seq![
                    (name@, PropValueView::Struct(x.view())),
                ]);
            }
        },
        None => {
            proof {
                assert(spec_named_values(out@) =~= spec_named_values(prev) + Seq::empty());
            }
        },
    }
}

/// Every property a [`Props`] getter reads has the type the getter reads.
pub open spec fn spec_props_typed(b: Seq<u8>) -> bool {
    &&& spec_prop_has_type(b, 257, TYPE_STRING)
    &&& spec_prop_has_type(b, 258, TYPE_STRING)
    &&& spec_prop_has_type(b, 259, TYPE_FD)
    &&& spec_prop_has_type(b, 260, TYPE_STRING)
    &&& spec_prop_has_type(b, 261, TYPE_STRING)
    &&& spec_prop_has_type(b, 262, TYPE_INT)
    &&& spec_prop_has_type(b, 263, TYPE_INT)
    &&& spec_prop_has_type(b, 264, TYPE_INT)
    &&& spec_prop_has_type(b, 265, TYPE_INT)
    &&& spec_prop_has_type(b, 266, TYPE_BOOL)
    &&& spec_prop_has_type(b, 267, TYPE_BOOL)
    &&& spec_prop_has_type(b, 269, TYPE_INT)
    &&& spec_prop_has_type(b, 270, TYPE_ID)
    &&& spec_prop_has_type(b, 271, TYPE_BOOL)
    &&& spec_prop_has_type(b, 65537, TYPE_ID)
    &&& spec_prop_has_type(b, 65538, TYPE_INT)
    &&& spec_prop_has_type(b, 65540, TYPE_BOOL)
    &&& spec_prop_has_type(b, 65541, TYPE_ID)
    &&& spec_prop_has_type(b, 65542, TYPE_ID)
    &&& spec_prop_has_type(b, 65543, TYPE_BOOL)
    &&& spec_prop_has_type(b, 65544, TYPE_ARRAY)
    &&& spec_prop_has_type(b, 65547, TYPE_ARRAY)
    &&& spec_prop_has_type(b, 65548, TYPE_BOOL)
    &&& spec_prop_has_type(b, 65549, TYPE_ARRAY)
    &&& spec_prop_has_type(b, 65550, TYPE_LONG)
    &&& spec_prop_has_type(b, 65551, TYPE_BOOL)
    &&& spec_prop_has_type(b, 65552, TYPE_ARRAY)
    &&& spec_prop_has_type(b, 65553, TYPE_ARRAY)
    &&& spec_prop_has_type(b, 65554, TYPE_INT)
    &&& spec_prop_has_type(b, 65555, TYPE_INT)
    &&& spec_prop_has_type(b, 65556, TYPE_INT)
    &&& spec_prop_has_type(b, 65557, TYPE_INT)
    &&& spec_prop_has_type(b, 65558, TYPE_ID)
    &&& spec_prop_has_type(b, 131076, TYPE_INT)
    &&& spec_prop_has_type(b, 131077, TYPE_INT)
    &&& spec_prop_has_type(b, 131078, TYPE_INT)
    &&& spec_prop_has_type(b, 524289, TYPE_STRUCT)
}

/// `prefix`, then the properties of part 1 of a [`Props`] object's debug
/// text.
pub open spec fn spec_props_debug_part1(prefix: Seq<(Seq<char>, PropValueView)>, b: Seq<u8>) -> Seq<
    (Seq<char>, PropValueView),
> {
    prefix
        + spec_named("device"@, spec_opt_str(spec_prop_str(b, 257)))
        + spec_named("device_name"@, spec_opt_str(spec_prop_str(b, 258)))
        + spec_named("device_fd"@, spec_opt_fd(spec_prop_fd(b, 259)))
        + spec_named("card"@, spec_opt_str(spec_prop_str(b, 260)))
        + spec_named("card_name"@, spec_opt_str(spec_prop_str(b, 261)))
        + spec_named("min_latency"@, spec_opt_int(spec_prop_int(b, 262)))
        + spec_named("max_latency"@, spec_opt_int(spec_prop_int(b, 263)))
        + spec_named("periods"@, spec_opt_int(spec_prop_int(b, 264)))
        + spec_named("period_size"@, spec_opt_int(spec_prop_int(b, 265)))
        + spec_named("period_event"@, spec_opt_bool(spec_prop_bool(b, 266)))
}

/// `prefix`, then the properties of part 2 of a [`Props`] object's debug
/// text.
pub open spec fn spec_props_debug_part2(prefix: Seq<(Seq<char>, PropValueView)>, b: Seq<u8>) -> Seq<
    (Seq<char>, PropValueView),
> {
    prefix
        + spec_named("live"@, spec_opt_bool(spec_prop_bool(b, 267)))
        + spec_named("quality"@, spec_opt_int(spec_prop_int(b, 269)))
        + spec_named("bluetooth_audio_codec"@, spec_opt_id(spec_prop_id(b, 270)))
        + spec_named("bluetooth_offload_active"@, spec_opt_bool(spec_prop_bool(b, 271)))
        + spec_named("wave_type"@, spec_opt_id(spec_prop_id(b, 65537)))
        + spec_named("frequency"@, spec_opt_int(spec_prop_int(b, 65538)))
        + spec_named("mute"@, spec_opt_bool(spec_prop_bool(b, 65540)))
        + spec_named("pattern_type"@, spec_opt_id(spec_prop_id(b, 65541)))
        + spec_named("dither_type"@, spec_opt_id(spec_prop_id(b, 65542)))
        + spec_named("truncate"@, spec_opt_bool(spec_prop_bool(b, 65543)))
}

/// `prefix`, then the properties of part 3 of a [`Props`] object's debug
/// text.
pub open spec fn spec_props_debug_part3(prefix: Seq<(Seq<char>, PropValueView)>, b: Seq<u8>) -> Seq<
    (Seq<char>, PropValueView),
> {
    prefix
        + spec_named("channel_volumes"@, spec_opt_array(spec_prop_array(b, 65544)))
        + spec_named("channel_map"@, spec_opt_array(spec_prop_array(b, 65547)))
        + spec_named("monitor_mute"@, spec_opt_bool(spec_prop_bool(b, 65548)))
        + spec_named("monitor_volumes"@, spec_opt_array(spec_prop_array(b, 65549)))
        + spec_named("latency_offset_nsec"@, spec_opt_long(spec_prop_long(b, 65550)))
        + spec_named("soft_mute"@, spec_opt_bool(spec_prop_bool(b, 65551)))
        + spec_named("soft_volumes"@, spec_opt_array(spec_prop_array(b, 65552)))
        + spec_named("iec958_codecs"@, spec_opt_array(spec_prop_array(b, 65553)))
        + spec_named("volume_ramp_samples"@, spec_opt_int(spec_prop_int(b, 65554)))
}

/// `prefix`, then the properties of part 4 of a [`Props`] object's debug
/// text.
pub open spec fn spec_props_debug_part4(prefix: Seq<(Seq<char>, PropValueView)>, b: Seq<u8>) -> Seq<
    (Seq<char>, PropValueView),
> {
    prefix
        + spec_named("volume_ramp_step_samples"@, spec_opt_int(spec_prop_int(b, 65555)))
        + spec_named("volume_ramp_time"@, spec_opt_int(spec_prop_int(b, 65556)))
        + spec_named("volume_ramp_step_time"@, spec_opt_int(spec_prop_int(b, 65557)))
        + spec_named("volume_ramp_scale"@, spec_opt_id(spec_prop_id(b, 65558)))
        + spec_named("hue"@, spec_opt_int(spec_prop_int(b, 131076)))
        + spec_named("gamma"@, spec_opt_int(spec_prop_int(b, 131077)))
        + spec_named("exposure"@, spec_opt_int(spec_prop_int(b, 131078)))
        + spec_named("params"@, spec_opt_struct(spec_prop_body(b, 524289)))
}

/// The properties a [`Props`] object's debug text lists, in order, each by
/// its getter's name: those present, of those whose values are not
/// floating-point.
pub open spec fn spec_props_debug_fields(b: Seq<u8>) -> Seq<(Seq<char>, PropValueView)> {
    spec_props_debug_part4(
        spec_props_debug_part3(
            spec_props_debug_part2(spec_props_debug_part1(Seq::empty(), b), b),
            b,
        ),
        b,
    )
}

impl<'a> Props<'a> {

    /// Append the properties of part 1 of the object's debug text.
    fn push_debug_part1(&self, out: &mut Vec<(&'static str, PropValue<'a>)>)
        requires
            spec_props_typed(self.0.view().body),
        ensures
            spec_named_values(final(out)@) == spec_props_debug_part1(
                spec_named_values(old(out)@),
                self.0.view().body,
            ),
    {
        push_str_field(out, "device", self.device());
        push_str_field(out, "device_name", self.device_name());
        push_fd_field(out, "device_fd", self.device_fd());
        push_str_field(out, "card", self.card());
        push_str_field(out, "card_name", self.card_name());
        push_int_field(out, "min_latency", self.min_latency());
        push_int_field(out, "max_latency", self.max_latency());
        push_int_field(out, "periods", self.periods());
        push_int_field(out, "period_size", self.period_size());
        push_bool_field(out, "period_event", self.period_event());
    }

    /// Append the properties of part 2 of the object's debug text.
    fn push_debug_part2(&self, out: &mut Vec<(&'static str, PropValue<'a>)>)
        requires
            spec_props_typed(self.0.view().body),
        ensures
            spec_named_values(final(out)@) == spec_props_debug_part2(
                spec_named_values(old(out)@),
                self.0.view().body,
            ),
    {
        push_bool_field(out, "live", self.live());
        push_int_field(out, "quality", self.quality());
        push_id_field(out, "bluetooth_audio_codec", self.bluetooth_audio_codec());
        push_bool_field(out, "bluetooth_offload_active", self.bluetooth_offload_active());
        push_id_field(out, "wave_type", self.wave_type());
        push_int_field(out, "frequency", self.frequency());
        push_bool_field(out, "mute", self.mute());
        push_id_field(out, "pattern_type", self.pattern_type());
        push_id_field(out, "dither_type", self.dither_type());
        push_bool_field(out, "truncate", self.truncate());
    }

    /// Append the properties of part 3 of the object's debug text.
    fn push_debug_part3(&self, out: &mut Vec<(&'static str, PropValue<'a>)>)
        requires
            spec_props_typed(self.0.view().body),
        ensures
            spec_named_values(final(out)@) == spec_props_debug_part3(
                spec_named_values(old(out)@),
                self.0.view().body,
            ),
    {
        push_array_field(out, "channel_volumes", self.channel_volumes());
        push_array_field(out, "channel_map", self.channel_map());
        push_bool_field(out, "monitor_mute", self.monitor_mute());
        push_array_field(out, "monitor_volumes", self.monitor_volumes());
        push_long_field(out, "latency_offset_nsec", self.latency_offset_nsec());
        push_bool_field(out, "soft_mute", self.soft_mute());
        push_array_field(out, "soft_volumes", self.soft_volumes());
        push_array_field(out, "iec958_codecs", self.iec958_codecs());
        push_int_field(out, "volume_ramp_samples", self.volume_ramp_samples());
    }

    /// Append the properties of part 4 of the object's debug text.
    fn push_debug_part4(&self, out: &mut Vec<(&'static str, PropValue<'a>)>)
        requires
            spec_props_typed(self.0.view().body),
        ensures
            spec_named_values(final(out)@) == spec_props_debug_part4(
                spec_named_values(old(out)@),
                self.0.view().body,
            ),
    {
        push_int_field(out, "volume_ramp_step_samples", self.volume_ramp_step_samples());
        push_int_field(out, "volume_ramp_time", self.volume_ramp_time());
        push_int_field(out, "volume_ramp_step_time", self.volume_ramp_step_time());
        push_id_field(out, "volume_ramp_scale", self.volume_ramp_scale());
        push_int_field(out, "hue", self.hue());
        push_int_field(out, "gamma", self.gamma());
        push_int_field(out, "exposure", self.exposure());
        push_struct_field(out, "params", self.params());
    }

    /// The properties the object's debug text lists, in order, each by its
    /// getter's name: those present, but for those of floating-point values.
    pub fn debug_fields(&self) -> (r: Vec<(&'static str, PropValue<'a>)>)
        requires
            spec_props_typed(self.0.view().body),
        ensures
            spec_named_values(r@) == spec_props_debug_fields(self.0.view().body),
    {
        let mut out: Vec<(&'static str, PropValue<'a>)> = Vec::new();
        proof {
            assert(spec_named_values(out@) =~= Seq::<(Seq<char>, PropValueView)>::empty());
        }
        self.push_debug_part1(&mut out);
        self.push_debug_part2(&mut out);
        self.push_debug_part3(&mut out);
        self.push_debug_part4(&mut out);
        out
    }
}

} // verus!
