//! SPA enumerations and plain structures that pods and protocol messages carry.

use vstd::prelude::*;
use crate::spa_enum::{SpaRawEnum, SpaRawEnumI32};

verus! {

/// Type identifiers of SPA pods and objects.
#[derive(Debug, Clone, Copy, PartialEq, Eq, Structural)]
pub enum SpaType {
    NoneType,
    Bool,
    Id,
    Int,
    Long,
    Float,
    Double,
    String,
    Bytes,
    Rectangle,
    Fraction,
    Bitmap,
    Array,
    Struct,
    Object,
    Sequence,
    Pointer,
    Fd,
    Choice,
    Pod,
    PointerBuffer,
    PointerMeta,
    PointerDict,
    EventDevice,
    EventNode,
    CommandDevice,
    CommandNode,
    ObjectPropInfo,
    ObjectProps,
    ObjectFormat,
    ObjectParamBuffers,
    ObjectParamMeta,
    ObjectParamIo,
    ObjectParamProfile,
    ObjectParamPortConfig,
    ObjectParamRoute,
    ObjectProfiler,
    ObjectParamLatency,
    ObjectParamProcessLatency,
    ObjectParamParamTag,
    VendorPipeWire,
    VendorOther,
}

impl SpaRawEnum for SpaType {
    open spec fn spec_from_raw(raw: u32) -> Option<Self> {
        match raw {
            1u32 => Some(SpaType::NoneType),
            2u32 => Some(SpaType::Bool),
            3u32 => Some(SpaType::Id),
            4u32 => Some(SpaType::Int),
            5u32 => Some(SpaType::Long),
            6u32 => Some(SpaType::Float),
            7u32 => Some(SpaType::Double),
            8u32 => Some(SpaType::String),
            9u32 => Some(SpaType::Bytes),
            10u32 => Some(SpaType::Rectangle),
            11u32 => Some(SpaType::Fraction),
            12u32 => Some(SpaType::Bitmap),
            13u32 => Some(SpaType::Array),
            14u32 => Some(SpaType::Struct),
            15u32 => Some(SpaType::Object),
            16u32 => Some(SpaType::Sequence),
            17u32 => Some(SpaType::Pointer),
            18u32 => Some(SpaType::Fd),
            19u32 => Some(SpaType::Choice),
            20u32 => Some(SpaType::Pod),
            65537u32 => Some(SpaType::PointerBuffer),
            65538u32 => Some(SpaType::PointerMeta),
            65539u32 => Some(SpaType::PointerDict),
            131073u32 => Some(SpaType::EventDevice),
            131074u32 => Some(SpaType::EventNode),
            196609u32 => Some(SpaType::CommandDevice),
            196610u32 => Some(SpaType::CommandNode),
            262145u32 => Some(SpaType::ObjectPropInfo),
            262146u32 => Some(SpaType::ObjectProps),
            262147u32 => Some(SpaType::ObjectFormat),
            262148u32 => Some(SpaType::ObjectParamBuffers),
            262149u32 => Some(SpaType::ObjectParamMeta),
            262150u32 => Some(SpaType::ObjectParamIo),
            262151u32 => Some(SpaType::ObjectParamProfile),
            262152u32 => Some(SpaType::ObjectParamPortConfig),
            262153u32 => Some(SpaType::ObjectParamRoute),
            262154u32 => Some(SpaType::ObjectProfiler),
            262155u32 => Some(SpaType::ObjectParamLatency),
            262156u32 => Some(SpaType::ObjectParamProcessLatency),
            262157u32 => Some(SpaType::ObjectParamParamTag),
            33554432u32 => Some(SpaType::VendorPipeWire),
            2130706432u32 => Some(SpaType::VendorOther),
            _ => None,
        }
    }

    open spec fn spec_to_raw(self) -> u32 {
        match self {
            SpaType::NoneType => 1u32,
            SpaType::Bool => 2u32,
            SpaType::Id => 3u32,
            SpaType::Int => 4u32,
            SpaType::Long => 5u32,
            SpaType::Float => 6u32,
            SpaType::Double => 7u32,
            SpaType::String => 8u32,
            SpaType::Bytes => 9u32,
            SpaType::Rectangle => 10u32,
            SpaType::Fraction => 11u32,
            SpaType::Bitmap => 12u32,
            SpaType::Array => 13u32,
            SpaType::Struct => 14u32,
            SpaType::Object => 15u32,
            SpaType::Sequence => 16u32,
            SpaType::Pointer => 17u32,
            SpaType::Fd => 18u32,
            SpaType::Choice => 19u32,
            SpaType::Pod => 20u32,
            SpaType::PointerBuffer => 65537u32,
            SpaType::PointerMeta => 65538u32,
            SpaType::PointerDict => 65539u32,
            SpaType::EventDevice => 131073u32,
            SpaType::EventNode => 131074u32,
            SpaType::CommandDevice => 196609u32,
            SpaType::CommandNode => 196610u32,
            SpaType::ObjectPropInfo => 262145u32,
            SpaType::ObjectProps => 262146u32,
            SpaType::ObjectFormat => 262147u32,
            SpaType::ObjectParamBuffers => 262148u32,
            SpaType::ObjectParamMeta => 262149u32,
            SpaType::ObjectParamIo => 262150u32,
            SpaType::ObjectParamProfile => 262151u32,
            SpaType::ObjectParamPortConfig => 262152u32,
            SpaType::ObjectParamRoute => 262153u32,
            SpaType::ObjectProfiler => 262154u32,
            SpaType::ObjectParamLatency => 262155u32,
            SpaType::ObjectParamProcessLatency => 262156u32,
            SpaType::ObjectParamParamTag => 262157u32,
            SpaType::VendorPipeWire => 33554432u32,
            SpaType::VendorOther => 2130706432u32,
        }
    }

    fn from_raw_value(raw: u32) -> (r: Option<Self>) {
        match raw {
            1u32 => Some(SpaType::NoneType),
            2u32 => Some(SpaType::Bool),
            3u32 => Some(SpaType::Id),
            4u32 => Some(SpaType::Int),
            5u32 => Some(SpaType::Long),
            6u32 => Some(SpaType::Float),
            7u32 => Some(SpaType::Double),
            8u32 => Some(SpaType::String),
            9u32 => Some(SpaType::Bytes),
            10u32 => Some(SpaType::Rectangle),
            11u32 => Some(SpaType::Fraction),
            12u32 => Some(SpaType::Bitmap),
            13u32 => Some(SpaType::Array),
            14u32 => Some(SpaType::Struct),
            15u32 => Some(SpaType::Object),
            16u32 => Some(SpaType::Sequence),
            17u32 => Some(SpaType::Pointer),
            18u32 => Some(SpaType::Fd),
            19u32 => Some(SpaType::Choice),
            20u32 => Some(SpaType::Pod),
            65537u32 => Some(SpaType::PointerBuffer),
            65538u32 => Some(SpaType::PointerMeta),
            65539u32 => Some(SpaType::PointerDict),
            131073u32 => Some(SpaType::EventDevice),
            131074u32 => Some(SpaType::EventNode),
            196609u32 => Some(SpaType::CommandDevice),
            196610u32 => Some(SpaType::CommandNode),
            262145u32 => Some(SpaType::ObjectPropInfo),
            262146u32 => Some(SpaType::ObjectProps),
            262147u32 => Some(SpaType::ObjectFormat),
            262148u32 => Some(SpaType::ObjectParamBuffers),
            262149u32 => Some(SpaType::ObjectParamMeta),
            262150u32 => Some(SpaType::ObjectParamIo),
            262151u32 => Some(SpaType::ObjectParamProfile),
            262152u32 => Some(SpaType::ObjectParamPortConfig),
            262153u32 => Some(SpaType::ObjectParamRoute),
            262154u32 => Some(SpaType::ObjectProfiler),
            262155u32 => Some(SpaType::ObjectParamLatency),
            262156u32 => Some(SpaType::ObjectParamProcessLatency),
            262157u32 => Some(SpaType::ObjectParamParamTag),
            33554432u32 => Some(SpaType::VendorPipeWire),
            2130706432u32 => Some(SpaType::VendorOther),
            _ => None,
        }
    }

    fn to_raw_value(&self) -> (r: u32) {
        match self {
            SpaType::NoneType => 1u32,
            SpaType::Bool => 2u32,
            SpaType::Id => 3u32,
            SpaType::Int => 4u32,
            SpaType::Long => 5u32,
            SpaType::Float => 6u32,
            SpaType::Double => 7u32,
            SpaType::String => 8u32,
            SpaType::Bytes => 9u32,
            SpaType::Rectangle => 10u32,
            SpaType::Fraction => 11u32,
            SpaType::Bitmap => 12u32,
            SpaType::Array => 13u32,
            SpaType::Struct => 14u32,
            SpaType::Object => 15u32,
            SpaType::Sequence => 16u32,
            SpaType::Pointer => 17u32,
            SpaType::Fd => 18u32,
            SpaType::Choice => 19u32,
            SpaType::Pod => 20u32,
            SpaType::PointerBuffer => 65537u32,
            SpaType::PointerMeta => 65538u32,
            SpaType::PointerDict => 65539u32,
            SpaType::EventDevice => 131073u32,
            SpaType::EventNode => 131074u32,
            SpaType::CommandDevice => 196609u32,
            SpaType::CommandNode => 196610u32,
            SpaType::ObjectPropInfo => 262145u32,
            SpaType::ObjectProps => 262146u32,
            SpaType::ObjectFormat => 262147u32,
            SpaType::ObjectParamBuffers => 262148u32,
            SpaType::ObjectParamMeta => 262149u32,
            SpaType::ObjectParamIo => 262150u32,
            SpaType::ObjectParamProfile => 262151u32,
            SpaType::ObjectParamPortConfig => 262152u32,
            SpaType::ObjectParamRoute => 262153u32,
            SpaType::ObjectProfiler => 262154u32,
            SpaType::ObjectParamLatency => 262155u32,
            SpaType::ObjectParamProcessLatency => 262156u32,
            SpaType::ObjectParamParamTag => 262157u32,
            SpaType::VendorPipeWire => 33554432u32,
            SpaType::VendorOther => 2130706432u32,
        }
    }

    proof fn lemma_raw_roundtrip(v: Self) {}

    proof fn lemma_raw_inverse(raw: u32) {}
}

/// Kinds of pointers a pointer pod can carry.
#[derive(Debug, Clone, Copy, PartialEq, Eq, Structural)]
pub enum SpaPointerType {
    Buffer,
    Meta,
    Dict,
}

impl SpaRawEnum for SpaPointerType {
    open spec fn spec_from_raw(raw: u32) -> Option<Self> {
        match raw {
            65537u32 => Some(SpaPointerType::Buffer),
            65538u32 => Some(SpaPointerType::Meta),
            65539u32 => Some(SpaPointerType::Dict),
            _ => None,
        }
    }

    open spec fn spec_to_raw(self) -> u32 {
        match self {
            SpaPointerType::Buffer => 65537u32,
            SpaPointerType::Meta => 65538u32,
            SpaPointerType::Dict => 65539u32,
        }
    }

    fn from_raw_value(raw: u32) -> (r: Option<Self>) {
        match raw {
            65537u32 => Some(SpaPointerType::Buffer),
            65538u32 => Some(SpaPointerType::Meta),
            65539u32 => Some(SpaPointerType::Dict),
            _ => None,
        }
    }

    fn to_raw_value(&self) -> (r: u32) {
        match self {
            SpaPointerType::Buffer => 65537u32,
            SpaPointerType::Meta => 65538u32,
            SpaPointerType::Dict => 65539u32,
        }
    }

    proof fn lemma_raw_roundtrip(v: Self) {}

    proof fn lemma_raw_inverse(raw: u32) {}
}

/// Kinds of control entries in a sequence pod.
#[derive(Debug, Clone, Copy, PartialEq, Eq, Structural)]
pub enum SpaControlType {
    Invalid,
    Properties,
    Midi,
    Osc,
}

impl SpaRawEnum for SpaControlType {
    open spec fn spec_from_raw(raw: u32) -> Option<Self> {
        match raw {
            0u32 => Some(SpaControlType::Invalid),
            1u32 => Some(SpaControlType::Properties),
            2u32 => Some(SpaControlType::Midi),
            3u32 => Some(SpaControlType::Osc),
            _ => None,
        }
    }

    open spec fn spec_to_raw(self) -> u32 {
        match self {
            SpaControlType::Invalid => 0u32,
            SpaControlType::Properties => 1u32,
            SpaControlType::Midi => 2u32,
            SpaControlType::Osc => 3u32,
        }
    }

    fn from_raw_value(raw: u32) -> (r: Option<Self>) {
        match raw {
            0u32 => Some(SpaControlType::Invalid),
            1u32 => Some(SpaControlType::Properties),
            2u32 => Some(SpaControlType::Midi),
            3u32 => Some(SpaControlType::Osc),
            _ => None,
        }
    }

    fn to_raw_value(&self) -> (r: u32) {
        match self {
            SpaControlType::Invalid => 0u32,
            SpaControlType::Properties => 1u32,
            SpaControlType::Midi => 2u32,
            SpaControlType::Osc => 3u32,
        }
    }

    proof fn lemma_raw_roundtrip(v: Self) {}

    proof fn lemma_raw_inverse(raw: u32) {}
}

/// Kinds of buffer metadata.
#[derive(Debug, Clone, Copy, PartialEq, Eq, Structural)]
pub enum SpaMetaType {
    Invalid,
    Header,
    VideoCrop,
    VideoDamage,
    Bitmap,
    Cursor,
    Control,
    Busy,
    VideoTransform,
}

impl SpaRawEnum for SpaMetaType {
    open spec fn spec_from_raw(raw: u32) -> Option<Self> {
        match raw {
            0u32 => Some(SpaMetaType::Invalid),
            1u32 => Some(SpaMetaType::Header),
            2u32 => Some(SpaMetaType::VideoCrop),
            3u32 => Some(SpaMetaType::VideoDamage),
            4u32 => Some(SpaMetaType::Bitmap),
            5u32 => Some(SpaMetaType::Cursor),
            6u32 => Some(SpaMetaType::Control),
            7u32 => Some(SpaMetaType::Busy),
            8u32 => Some(SpaMetaType::VideoTransform),
            _ => None,
        }
    }

    open spec fn spec_to_raw(self) -> u32 {
        match self {
            SpaMetaType::Invalid => 0u32,
            SpaMetaType::Header => 1u32,
            SpaMetaType::VideoCrop => 2u32,
            SpaMetaType::VideoDamage => 3u32,
            SpaMetaType::Bitmap => 4u32,
            SpaMetaType::Cursor => 5u32,
            SpaMetaType::Control => 6u32,
            SpaMetaType::Busy => 7u32,
            SpaMetaType::VideoTransform => 8u32,
        }
    }

    fn from_raw_value(raw: u32) -> (r: Option<Self>) {
        match raw {
            0u32 => Some(SpaMetaType::Invalid),
            1u32 => Some(SpaMetaType::Header),
            2u32 => Some(SpaMetaType::VideoCrop),
            3u32 => Some(SpaMetaType::VideoDamage),
            4u32 => Some(SpaMetaType::Bitmap),
            5u32 => Some(SpaMetaType::Cursor),
            6u32 => Some(SpaMetaType::Control),
            7u32 => Some(SpaMetaType::Busy),
            8u32 => Some(SpaMetaType::VideoTransform),
            _ => None,
        }
    }

    fn to_raw_value(&self) -> (r: u32) {
        match self {
            SpaMetaType::Invalid => 0u32,
            SpaMetaType::Header => 1u32,
            SpaMetaType::VideoCrop => 2u32,
            SpaMetaType::VideoDamage => 3u32,
            SpaMetaType::Bitmap => 4u32,
            SpaMetaType::Cursor => 5u32,
            SpaMetaType::Control => 6u32,
            SpaMetaType::Busy => 7u32,
            SpaMetaType::VideoTransform => 8u32,
        }
    }

    proof fn lemma_raw_roundtrip(v: Self) {}

    proof fn lemma_raw_inverse(raw: u32) {}
}

/// Direction of a port.
#[derive(Debug, Clone, Copy, PartialEq, Eq, Structural)]
pub enum SpaDirection {
    Input,
    Output,
}

impl SpaRawEnum for SpaDirection {
    open spec fn spec_from_raw(raw: u32) -> Option<Self> {
        match raw {
            0u32 => Some(SpaDirection::Input),
            1u32 => Some(SpaDirection::Output),
            _ => None,
        }
    }

    open spec fn spec_to_raw(self) -> u32 {
        match self {
            SpaDirection::Input => 0u32,
            SpaDirection::Output => 1u32,
        }
    }

    fn from_raw_value(raw: u32) -> (r: Option<Self>) {
        match raw {
            0u32 => Some(SpaDirection::Input),
            1u32 => Some(SpaDirection::Output),
            _ => None,
        }
    }

    fn to_raw_value(&self) -> (r: u32) {
        match self {
            SpaDirection::Input => 0u32,
            SpaDirection::Output => 1u32,
        }
    }

    proof fn lemma_raw_roundtrip(v: Self) {}

    proof fn lemma_raw_inverse(raw: u32) {}
}

/// Kinds of choice pods.
#[derive(Debug, Clone, Copy, PartialEq, Eq, Structural)]
pub enum SpaChoiceType {
    /// no choice, first value is current
    NoneChoice,
    /// range: default, min, max
    Range,
    /// range with step: default, min, max, step
    Step,
    /// list: default, alternative,...
    Enum,
    /// flags: default, possible flags,...
    Flags,
}

impl SpaRawEnum for SpaChoiceType {
    open spec fn spec_from_raw(raw: u32) -> Option<Self> {
        match raw {
            0u32 => Some(SpaChoiceType::NoneChoice),
            1u32 => Some(SpaChoiceType::Range),
            2u32 => Some(SpaChoiceType::Step),
            3u32 => Some(SpaChoiceType::Enum),
            4u32 => Some(SpaChoiceType::Flags),
            _ => None,
        }
    }

    open spec fn spec_to_raw(self) -> u32 {
        match self {
            SpaChoiceType::NoneChoice => 0u32,
            SpaChoiceType::Range => 1u32,
            SpaChoiceType::Step => 2u32,
            SpaChoiceType::Enum => 3u32,
            SpaChoiceType::Flags => 4u32,
        }
    }

    fn from_raw_value(raw: u32) -> (r: Option<Self>) {
        match raw {
            0u32 => Some(SpaChoiceType::NoneChoice),
            1u32 => Some(SpaChoiceType::Range),
            2u32 => Some(SpaChoiceType::Step),
            3u32 => Some(SpaChoiceType::Enum),
            4u32 => Some(SpaChoiceType::Flags),
            _ => None,
        }
    }

    fn to_raw_value(&self) -> (r: u32) {
        match self {
            SpaChoiceType::NoneChoice => 0u32,
            SpaChoiceType::Range => 1u32,
            SpaChoiceType::Step => 2u32,
            SpaChoiceType::Enum => 3u32,
            SpaChoiceType::Flags => 4u32,
        }
    }

    proof fn lemma_raw_roundtrip(v: Self) {}

    proof fn lemma_raw_inverse(raw: u32) {}
}

/// Memory types of buffer data.
#[derive(Debug, Clone, Copy, PartialEq, Eq, Structural)]
pub enum SpaDataType {
    Invalid,
    /// pointer to memory, the data field in   struct spa_data is set.
    MemPtr,
    /// generic fd, mmap to get to memory
    MemFd,
    /// fd to dmabuf memory
    DmaBuf,
    /// memory is identified with an id
    MemId,
}

impl SpaRawEnum for SpaDataType {
    open spec fn spec_from_raw(raw: u32) -> Option<Self> {
        match raw {
            0u32 => Some(SpaDataType::Invalid),
            1u32 => Some(SpaDataType::MemPtr),
            2u32 => Some(SpaDataType::MemFd),
            3u32 => Some(SpaDataType::DmaBuf),
            4u32 => Some(SpaDataType::MemId),
            _ => None,
        }
    }

    open spec fn spec_to_raw(self) -> u32 {
        match self {
            SpaDataType::Invalid => 0u32,
            SpaDataType::MemPtr => 1u32,
            SpaDataType::MemFd => 2u32,
            SpaDataType::DmaBuf => 3u32,
            SpaDataType::MemId => 4u32,
        }
    }

    fn from_raw_value(raw: u32) -> (r: Option<Self>) {
        match raw {
            0u32 => Some(SpaDataType::Invalid),
            1u32 => Some(SpaDataType::MemPtr),
            2u32 => Some(SpaDataType::MemFd),
            3u32 => Some(SpaDataType::DmaBuf),
            4u32 => Some(SpaDataType::MemId),
            _ => None,
        }
    }

    fn to_raw_value(&self) -> (r: u32) {
        match self {
            SpaDataType::Invalid => 0u32,
            SpaDataType::MemPtr => 1u32,
            SpaDataType::MemFd => 2u32,
            SpaDataType::DmaBuf => 3u32,
            SpaDataType::MemId => 4u32,
        }
    }

    proof fn lemma_raw_roundtrip(v: Self) {}

    proof fn lemma_raw_inverse(raw: u32) {}
}

/// Kinds of IO areas.
#[derive(Debug, Clone, Copy, PartialEq, Eq, Structural)]
pub enum SpaIoType {
    Invalid,
    /// area to exchange buffers, struct spa_io_buffers
    Buffers,
    /// expected byte range, struct spa_io_range
    Range,
    /// area to update clock information, struct spa_io_clock
    Clock,
    /// latency reporting, struct spa_io_latency
    Latency,
    /// area for control messages, struct spa_io_sequence
    Control,
    /// area for notify messages, struct spa_io_sequence
    Notify,
    /// position information in the graph, struct spa_io_position
    Position,
    /// rate matching between nodes, struct spa_io_rate_match
    RateMatch,
    /// memory pointer, struct spa_io_memory
    Memory,
}

impl SpaRawEnum for SpaIoType {
    open spec fn spec_from_raw(raw: u32) -> Option<Self> {
        match raw {
            0u32 => Some(SpaIoType::Invalid),
            1u32 => Some(SpaIoType::Buffers),
            2u32 => Some(SpaIoType::Range),
            3u32 => Some(SpaIoType::Clock),
            4u32 => Some(SpaIoType::Latency),
            5u32 => Some(SpaIoType::Control),
            6u32 => Some(SpaIoType::Notify),
            7u32 => Some(SpaIoType::Position),
            8u32 => Some(SpaIoType::RateMatch),
            9u32 => Some(SpaIoType::Memory),
            _ => None,
        }
    }

    open spec fn spec_to_raw(self) -> u32 {
        match self {
            SpaIoType::Invalid => 0u32,
            SpaIoType::Buffers => 1u32,
            SpaIoType::Range => 2u32,
            SpaIoType::Clock => 3u32,
            SpaIoType::Latency => 4u32,
            SpaIoType::Control => 5u32,
            SpaIoType::Notify => 6u32,
            SpaIoType::Position => 7u32,
            SpaIoType::RateMatch => 8u32,
            SpaIoType::Memory => 9u32,
        }
    }

    fn from_raw_value(raw: u32) -> (r: Option<Self>) {
        match raw {
            0u32 => Some(SpaIoType::Invalid),
            1u32 => Some(SpaIoType::Buffers),
            2u32 => Some(SpaIoType::Range),
            3u32 => Some(SpaIoType::Clock),
            4u32 => Some(SpaIoType::Latency),
            5u32 => Some(SpaIoType::Control),
            6u32 => Some(SpaIoType::Notify),
            7u32 => Some(SpaIoType::Position),
            8u32 => Some(SpaIoType::RateMatch),
            9u32 => Some(SpaIoType::Memory),
            _ => None,
        }
    }

    fn to_raw_value(&self) -> (r: u32) {
        match self {
            SpaIoType::Invalid => 0u32,
            SpaIoType::Buffers => 1u32,
            SpaIoType::Range => 2u32,
            SpaIoType::Clock => 3u32,
            SpaIoType::Latency => 4u32,
            SpaIoType::Control => 5u32,
            SpaIoType::Notify => 6u32,
            SpaIoType::Position => 7u32,
            SpaIoType::RateMatch => 8u32,
            SpaIoType::Memory => 9u32,
        }
    }

    proof fn lemma_raw_roundtrip(v: Self) {}

    proof fn lemma_raw_inverse(raw: u32) {}
}

/// Parameter types that can be queried.
#[derive(Debug, Clone, Copy, PartialEq, Eq, Structural)]
pub enum SpaParamType {
    /// invalid
    Invalid,
    /// property information as SPA_TYPE_OBJECT_PropInfo
    PropInfo,
    /// properties as SPA_TYPE_OBJECT_Props
    Props,
    /// available formats as SPA_TYPE_OBJECT_Format
    EnumFormat,
    /// configured format as SPA_TYPE_OBJECT_Format
    Format,
    /// buffer configurations as SPA_TYPE_OBJECT_ParamBuffers
    Buffers,
    /// allowed metadata for buffers as SPA_TYPE_OBJECT_ParamMeta
    Meta,
    /// configurable IO areas as SPA_TYPE_OBJECT_ParamIO
    Io,
    /// profile enumeration as SPA_TYPE_OBJECT_ParamProfile
    EnumProfile,
    /// profile configuration as SPA_TYPE_OBJECT_ParamProfile
    Profile,
    /// port configuration enumeration as SPA_TYPE_OBJECT_ParamPortConfig
    EnumPortConfig,
    /// port configuration as SPA_TYPE_OBJECT_ParamPortConfig
    PortConfig,
    /// routing enumeration as SPA_TYPE_OBJECT_ParamRoute
    EnumRoute,
    /// routing configuration as SPA_TYPE_OBJECT_ParamRoute
    Route,
    /// Control parameter, a SPA_TYPE_Sequence
    Control,
    /// latency reporting, a SPA_TYPE_OBJECT_ParamLatency
    Latency,
    /// processing latency, a SPA_TYPE_OBJECT_ParamProcessLatency
    ProcessLatency,
    /// tag reporting, a SPA_TYPE_OBJECT_ParamTag. Since 0.3.79
    Tag,
}

impl SpaRawEnum for SpaParamType {
    open spec fn spec_from_raw(raw: u32) -> Option<Self> {
        match raw {
            0u32 => Some(SpaParamType::Invalid),
            1u32 => Some(SpaParamType::PropInfo),
            2u32 => Some(SpaParamType::Props),
            3u32 => Some(SpaParamType::EnumFormat),
            4u32 => Some(SpaParamType::Format),
            5u32 => Some(SpaParamType::Buffers),
            6u32 => Some(SpaParamType::Meta),
            7u32 => Some(SpaParamType::Io),
            8u32 => Some(SpaParamType::EnumProfile),
            9u32 => Some(SpaParamType::Profile),
            10u32 => Some(SpaParamType::EnumPortConfig),
            11u32 => Some(SpaParamType::PortConfig),
            12u32 => Some(SpaParamType::EnumRoute),
            13u32 => Some(SpaParamType::Route),
            14u32 => Some(SpaParamType::Control),
            15u32 => Some(SpaParamType::Latency),
            16u32 => Some(SpaParamType::ProcessLatency),
            17u32 => Some(SpaParamType::Tag),
            _ => None,
        }
    }

    open spec fn spec_to_raw(self) -> u32 {
        match self {
            SpaParamType::Invalid => 0u32,
            SpaParamType::PropInfo => 1u32,
            SpaParamType::Props => 2u32,
            SpaParamType::EnumFormat => 3u32,
            SpaParamType::Format => 4u32,
            SpaParamType::Buffers => 5u32,
            SpaParamType::Meta => 6u32,
            SpaParamType::Io => 7u32,
            SpaParamType::EnumProfile => 8u32,
            SpaParamType::Profile => 9u32,
            SpaParamType::EnumPortConfig => 10u32,
            SpaParamType::PortConfig => 11u32,
            SpaParamType::EnumRoute => 12u32,
            SpaParamType::Route => 13u32,
            SpaParamType::Control => 14u32,
            SpaParamType::Latency => 15u32,
            SpaParamType::ProcessLatency => 16u32,
            SpaParamType::Tag => 17u32,
        }
    }

    fn from_raw_value(raw: u32) -> (r: Option<Self>) {
        match raw {
            0u32 => Some(SpaParamType::Invalid),
            1u32 => Some(SpaParamType::PropInfo),
            2u32 => Some(SpaParamType::Props),
            3u32 => Some(SpaParamType::EnumFormat),
            4u32 => Some(SpaParamType::Format),
            5u32 => Some(SpaParamType::Buffers),
            6u32 => Some(SpaParamType::Meta),
            7u32 => Some(SpaParamType::Io),
            8u32 => Some(SpaParamType::EnumProfile),
            9u32 => Some(SpaParamType::Profile),
            10u32 => Some(SpaParamType::EnumPortConfig),
            11u32 => Some(SpaParamType::PortConfig),
            12u32 => Some(SpaParamType::EnumRoute),
            13u32 => Some(SpaParamType::Route),
            14u32 => Some(SpaParamType::Control),
            15u32 => Some(SpaParamType::Latency),
            16u32 => Some(SpaParamType::ProcessLatency),
            17u32 => Some(SpaParamType::Tag),
            _ => None,
        }
    }

    fn to_raw_value(&self) -> (r: u32) {
        match self {
            SpaParamType::Invalid => 0u32,
            SpaParamType::PropInfo => 1u32,
            SpaParamType::Props => 2u32,
            SpaParamType::EnumFormat => 3u32,
            SpaParamType::Format => 4u32,
            SpaParamType::Buffers => 5u32,
            SpaParamType::Meta => 6u32,
            SpaParamType::Io => 7u32,
            SpaParamType::EnumProfile => 8u32,
            SpaParamType::Profile => 9u32,
            SpaParamType::EnumPortConfig => 10u32,
            SpaParamType::PortConfig => 11u32,
            SpaParamType::EnumRoute => 12u32,
            SpaParamType::Route => 13u32,
            SpaParamType::Control => 14u32,
            SpaParamType::Latency => 15u32,
            SpaParamType::ProcessLatency => 16u32,
            SpaParamType::Tag => 17u32,
        }
    }

    proof fn lemma_raw_roundtrip(v: Self) {}

    proof fn lemma_raw_inverse(raw: u32) {}
}

/// Availability of a profile or route.
#[derive(Debug, Clone, Copy, PartialEq, Eq, Structural)]
pub enum SpaParamAvailability {
    /// unknown availability
    Unknown,
    /// not available
    No,
    /// available
    Yes,
}

impl SpaRawEnum for SpaParamAvailability {
    open spec fn spec_from_raw(raw: u32) -> Option<Self> {
        match raw {
            0u32 => Some(SpaParamAvailability::Unknown),
            1u32 => Some(SpaParamAvailability::No),
            2u32 => Some(SpaParamAvailability::Yes),
            _ => None,
        }
    }

    open spec fn spec_to_raw(self) -> u32 {
        match self {
            SpaParamAvailability::Unknown => 0u32,
            SpaParamAvailability::No => 1u32,
            SpaParamAvailability::Yes => 2u32,
        }
    }

    fn from_raw_value(raw: u32) -> (r: Option<Self>) {
        match raw {
            0u32 => Some(SpaParamAvailability::Unknown),
            1u32 => Some(SpaParamAvailability::No),
            2u32 => Some(SpaParamAvailability::Yes),
            _ => None,
        }
    }

    fn to_raw_value(&self) -> (r: u32) {
        match self {
            SpaParamAvailability::Unknown => 0u32,
            SpaParamAvailability::No => 1u32,
            SpaParamAvailability::Yes => 2u32,
        }
    }

    proof fn lemma_raw_roundtrip(v: Self) {}

    proof fn lemma_raw_inverse(raw: u32) {}
}

/// Property keys of an IO parameter object.
#[derive(Debug, Clone, Copy, PartialEq, Eq, Structural)]
pub enum SpaParamIo {
    Start,
    /// type ID, uniquely identifies the io area (Id enum spa_io_type)
    Id,
    /// size of the io area (Int)
    Size,
}

impl SpaRawEnum for SpaParamIo {
    open spec fn spec_from_raw(raw: u32) -> Option<Self> {
        match raw {
            0u32 => Some(SpaParamIo::Start),
            1u32 => Some(SpaParamIo::Id),
            2u32 => Some(SpaParamIo::Size),
            _ => None,
        }
    }

    open spec fn spec_to_raw(self) -> u32 {
        match self {
            SpaParamIo::Start => 0u32,
            SpaParamIo::Id => 1u32,
            SpaParamIo::Size => 2u32,
        }
    }

    fn from_raw_value(raw: u32) -> (r: Option<Self>) {
        match raw {
            0u32 => Some(SpaParamIo::Start),
            1u32 => Some(SpaParamIo::Id),
            2u32 => Some(SpaParamIo::Size),
            _ => None,
        }
    }

    fn to_raw_value(&self) -> (r: u32) {
        match self {
            SpaParamIo::Start => 0u32,
            SpaParamIo::Id => 1u32,
            SpaParamIo::Size => 2u32,
        }
    }

    proof fn lemma_raw_roundtrip(v: Self) {}

    proof fn lemma_raw_inverse(raw: u32) {}
}

/// Property keys of a route parameter object.
#[derive(Debug, Clone, Copy, PartialEq, Eq, Structural)]
pub enum SpaParamRoute {
    Start,
    /// index of the routing destination (Int)
    Index,
    /// direction, input/output (Id enum spa_direction)
    Direction,
    /// device id (Int)
    Device,
    /// name of the routing destination (String)
    Name,
    /// description of the destination (String)
    Description,
    /// priority of the destination (Int)
    Priority,
    /// availability of the destination   (Id enum spa_param_availability)
    Available,
    /// info (Struct( \t\t  Int : n_items, \t\t  (String : key, \t\t   String : value)*))
    Info,
    /// associated profile indexes (Array of Int)
    Profiles,
    /// properties SPA_TYPE_OBJECT_Props
    Props,
    /// associated device indexes (Array of Int)
    Devices,
    /// profile id (Int)
    Profile,
    /// If route should be saved (Bool)
    Save,
}

impl SpaRawEnum for SpaParamRoute {
    open spec fn spec_from_raw(raw: u32) -> Option<Self> {
        match raw {
            0u32 => Some(SpaParamRoute::Start),
            1u32 => Some(SpaParamRoute::Index),
            2u32 => Some(SpaParamRoute::Direction),
            3u32 => Some(SpaParamRoute::Device),
            4u32 => Some(SpaParamRoute::Name),
            5u32 => Some(SpaParamRoute::Description),
            6u32 => Some(SpaParamRoute::Priority),
            7u32 => Some(SpaParamRoute::Available),
            8u32 => Some(SpaParamRoute::Info),
            9u32 => Some(SpaParamRoute::Profiles),
            10u32 => Some(SpaParamRoute::Props),
            11u32 => Some(SpaParamRoute::Devices),
            12u32 => Some(SpaParamRoute::Profile),
            13u32 => Some(SpaParamRoute::Save),
            _ => None,
        }
    }

    open spec fn spec_to_raw(self) -> u32 {
        match self {
            SpaParamRoute::Start => 0u32,
            SpaParamRoute::Index => 1u32,
            SpaParamRoute::Direction => 2u32,
            SpaParamRoute::Device => 3u32,
            SpaParamRoute::Name => 4u32,
            SpaParamRoute::Description => 5u32,
            SpaParamRoute::Priority => 6u32,
            SpaParamRoute::Available => 7u32,
            SpaParamRoute::Info => 8u32,
            SpaParamRoute::Profiles => 9u32,
            SpaParamRoute::Props => 10u32,
            SpaParamRoute::Devices => 11u32,
            SpaParamRoute::Profile => 12u32,
            SpaParamRoute::Save => 13u32,
        }
    }

    fn from_raw_value(raw: u32) -> (r: Option<Self>) {
        match raw {
            0u32 => Some(SpaParamRoute::Start),
            1u32 => Some(SpaParamRoute::Index),
            2u32 => Some(SpaParamRoute::Direction),
            3u32 => Some(SpaParamRoute::Device),
            4u32 => Some(SpaParamRoute::Name),
            5u32 => Some(SpaParamRoute::Description),
            6u32 => Some(SpaParamRoute::Priority),
            7u32 => Some(SpaParamRoute::Available),
            8u32 => Some(SpaParamRoute::Info),
            9u32 => Some(SpaParamRoute::Profiles),
            10u32 => Some(SpaParamRoute::Props),
            11u32 => Some(SpaParamRoute::Devices),
            12u32 => Some(SpaParamRoute::Profile),
            13u32 => Some(SpaParamRoute::Save),
            _ => None,
        }
    }

    fn to_raw_value(&self) -> (r: u32) {
        match self {
            SpaParamRoute::Start => 0u32,
            SpaParamRoute::Index => 1u32,
            SpaParamRoute::Direction => 2u32,
            SpaParamRoute::Device => 3u32,
            SpaParamRoute::Name => 4u32,
            SpaParamRoute::Description => 5u32,
            SpaParamRoute::Priority => 6u32,
            SpaParamRoute::Available => 7u32,
            SpaParamRoute::Info => 8u32,
            SpaParamRoute::Profiles => 9u32,
            SpaParamRoute::Props => 10u32,
            SpaParamRoute::Devices => 11u32,
            SpaParamRoute::Profile => 12u32,
            SpaParamRoute::Save => 13u32,
        }
    }

    proof fn lemma_raw_roundtrip(v: Self) {}

    proof fn lemma_raw_inverse(raw: u32) {}
}

/// Property keys of a props object.
#[derive(Debug, Clone, Copy, PartialEq, Eq, Structural)]
pub enum SpaProp {
    /// an unknown property
    Unknown,
    Device,
    DeviceName,
    DeviceFd,
    Card,
    CardName,
    MinLatency,
    MaxLatency,
    Periods,
    PeriodSize,
    PeriodEvent,
    Live,
    Rate,
    Quality,
    BluetoothAudioCodec,
    BluetoothOffloadActive,
    WaveType,
    Frequency,
    /// a volume (Float), 0.0 silence, 1.0 no attenutation
    Volume,
    /// mute (Bool)
    Mute,
    PatternType,
    DitherType,
    Truncate,
    /// a volume array, one (linear) volume per channel  (Array of Float). 0.0 is silence, 1.0 is   without attenuation. This is the effective   volume that is applied. It can result   in a hardware volume and software volume   (see softVolumes)
    ChannelVolumes,
    /// a volume base (Float)
    VolumeBase,
    /// a volume step (Float)
    VolumeStep,
    /// a channelmap array  (Array (Id enum spa_audio_channel))
    ChannelMap,
    /// mute (Bool)
    MonitorMute,
    /// a volume array, one (linear) volume per   channel (Array of Float)
    MonitorVolumes,
    /// delay adjustment
    LatencyOffsetNsec,
    /// mute (Bool) applied in software
    SoftMute,
    /// a volume array, one (linear) volume per channel  (Array of Float). 0.0 is silence, 1.0 is without  attenuation. This is the volume applied in  software, there might be a part applied in  hardware.
    SoftVolumes,
    /// enabled IEC958 (S/PDIF) codecs,   (Array (Id enum spa_audio_iec958_codec)
    Iec958Codecs,
    /// Samples to ramp the volume over
    VolumeRampSamples,
    /// Step or incremental Samples to ramp   the volume over
    VolumeRampStepSamples,
    /// Time in millisec to ramp the volume over
    VolumeRampTime,
    /// Step or incremental Time in nano seconds   to ramp the
    VolumeRampStepTime,
    /// the scale or graph to used to ramp the   volume
    VolumeRampScale,
    Brightness,
    Contrast,
    Saturation,
    Hue,
    Gamma,
    Exposure,
    Gain,
    Sharpness,
    /// simple control params     (Struct( \t  (String : key, \t   Pod    : value)*))
    Params,
}

impl SpaRawEnum for SpaProp {
    open spec fn spec_from_raw(raw: u32) -> Option<Self> {
        match raw {
            1u32 => Some(SpaProp::Unknown),
            257u32 => Some(SpaProp::Device),
            258u32 => Some(SpaProp::DeviceName),
            259u32 => Some(SpaProp::DeviceFd),
            260u32 => Some(SpaProp::Card),
            261u32 => Some(SpaProp::CardName),
            262u32 => Some(SpaProp::MinLatency),
            263u32 => Some(SpaProp::MaxLatency),
            264u32 => Some(SpaProp::Periods),
            265u32 => Some(SpaProp::PeriodSize),
            266u32 => Some(SpaProp::PeriodEvent),
            267u32 => Some(SpaProp::Live),
            268u32 => Some(SpaProp::Rate),
            269u32 => Some(SpaProp::Quality),
            270u32 => Some(SpaProp::BluetoothAudioCodec),
            271u32 => Some(SpaProp::BluetoothOffloadActive),
            65537u32 => Some(SpaProp::WaveType),
            65538u32 => Some(SpaProp::Frequency),
            65539u32 => Some(SpaProp::Volume),
            65540u32 => Some(SpaProp::Mute),
            65541u32 => Some(SpaProp::PatternType),
            65542u32 => Some(SpaProp::DitherType),
            65543u32 => Some(SpaProp::Truncate),
            65544u32 => Some(SpaProp::ChannelVolumes),
            65545u32 => Some(SpaProp::VolumeBase),
            65546u32 => Some(SpaProp::VolumeStep),
            65547u32 => Some(SpaProp::ChannelMap),
            65548u32 => Some(SpaProp::MonitorMute),
            65549u32 => Some(SpaProp::MonitorVolumes),
            65550u32 => Some(SpaProp::LatencyOffsetNsec),
            65551u32 => Some(SpaProp::SoftMute),
            65552u32 => Some(SpaProp::SoftVolumes),
            65553u32 => Some(SpaProp::Iec958Codecs),
            65554u32 => Some(SpaProp::VolumeRampSamples),
            65555u32 => Some(SpaProp::VolumeRampStepSamples),
            65556u32 => Some(SpaProp::VolumeRampTime),
            65557u32 => Some(SpaProp::VolumeRampStepTime),
            65558u32 => Some(SpaProp::VolumeRampScale),
            131073u32 => Some(SpaProp::Brightness),
            131074u32 => Some(SpaProp::Contrast),
            131075u32 => Some(SpaProp::Saturation),
            131076u32 => Some(SpaProp::Hue),
            131077u32 => Some(SpaProp::Gamma),
            131078u32 => Some(SpaProp::Exposure),
            131079u32 => Some(SpaProp::Gain),
            131080u32 => Some(SpaProp::Sharpness),
            524289u32 => Some(SpaProp::Params),
            _ => None,
        }
    }

    open spec fn spec_to_raw(self) -> u32 {
        match self {
            SpaProp::Unknown => 1u32,
            SpaProp::Device => 257u32,
            SpaProp::DeviceName => 258u32,
            SpaProp::DeviceFd => 259u32,
            SpaProp::Card => 260u32,
            SpaProp::CardName => 261u32,
            SpaProp::MinLatency => 262u32,
            SpaProp::MaxLatency => 263u32,
            SpaProp::Periods => 264u32,
            SpaProp::PeriodSize => 265u32,
            SpaProp::PeriodEvent => 266u32,
            SpaProp::Live => 267u32,
            SpaProp::Rate => 268u32,
            SpaProp::Quality => 269u32,
            SpaProp::BluetoothAudioCodec => 270u32,
            SpaProp::BluetoothOffloadActive => 271u32,
            SpaProp::WaveType => 65537u32,
            SpaProp::Frequency => 65538u32,
            SpaProp::Volume => 65539u32,
            SpaProp::Mute => 65540u32,
            SpaProp::PatternType => 65541u32,
            SpaProp::DitherType => 65542u32,
            SpaProp::Truncate => 65543u32,
            SpaProp::ChannelVolumes => 65544u32,
            SpaProp::VolumeBase => 65545u32,
            SpaProp::VolumeStep => 65546u32,
            SpaProp::ChannelMap => 65547u32,
            SpaProp::MonitorMute => 65548u32,
            SpaProp::MonitorVolumes => 65549u32,
            SpaProp::LatencyOffsetNsec => 65550u32,
            SpaProp::SoftMute => 65551u32,
            SpaProp::SoftVolumes => 65552u32,
            SpaProp::Iec958Codecs => 65553u32,
            SpaProp::VolumeRampSamples => 65554u32,
            SpaProp::VolumeRampStepSamples => 65555u32,
            SpaProp::VolumeRampTime => 65556u32,
            SpaProp::VolumeRampStepTime => 65557u32,
            SpaProp::VolumeRampScale => 65558u32,
            SpaProp::Brightness => 131073u32,
            SpaProp::Contrast => 131074u32,
            SpaProp::Saturation => 131075u32,
            SpaProp::Hue => 131076u32,
            SpaProp::Gamma => 131077u32,
            SpaProp::Exposure => 131078u32,
            SpaProp::Gain => 131079u32,
            SpaProp::Sharpness => 131080u32,
            SpaProp::Params => 524289u32,
        }
    }

    fn from_raw_value(raw: u32) -> (r: Option<Self>) {
        match raw {
            1u32 => Some(SpaProp::Unknown),
            257u32 => Some(SpaProp::Device),
            258u32 => Some(SpaProp::DeviceName),
            259u32 => Some(SpaProp::DeviceFd),
            260u32 => Some(SpaProp::Card),
            261u32 => Some(SpaProp::CardName),
            262u32 => Some(SpaProp::MinLatency),
            263u32 => Some(SpaProp::MaxLatency),
            264u32 => Some(SpaProp::Periods),
            265u32 => Some(SpaProp::PeriodSize),
            266u32 => Some(SpaProp::PeriodEvent),
            267u32 => Some(SpaProp::Live),
            268u32 => Some(SpaProp::Rate),
            269u32 => Some(SpaProp::Quality),
            270u32 => Some(SpaProp::BluetoothAudioCodec),
            271u32 => Some(SpaProp::BluetoothOffloadActive),
            65537u32 => Some(SpaProp::WaveType),
            65538u32 => Some(SpaProp::Frequency),
            65539u32 => Some(SpaProp::Volume),
            65540u32 => Some(SpaProp::Mute),
            65541u32 => Some(SpaProp::PatternType),
            65542u32 => Some(SpaProp::DitherType),
            65543u32 => Some(SpaProp::Truncate),
            65544u32 => Some(SpaProp::ChannelVolumes),
            65545u32 => Some(SpaProp::VolumeBase),
            65546u32 => Some(SpaProp::VolumeStep),
            65547u32 => Some(SpaProp::ChannelMap),
            65548u32 => Some(SpaProp::MonitorMute),
            65549u32 => Some(SpaProp::MonitorVolumes),
            65550u32 => Some(SpaProp::LatencyOffsetNsec),
            65551u32 => Some(SpaProp::SoftMute),
            65552u32 => Some(SpaProp::SoftVolumes),
            65553u32 => Some(SpaProp::Iec958Codecs),
            65554u32 => Some(SpaProp::VolumeRampSamples),
            65555u32 => Some(SpaProp::VolumeRampStepSamples),
            65556u32 => Some(SpaProp::VolumeRampTime),
            65557u32 => Some(SpaProp::VolumeRampStepTime),
            65558u32 => Some(SpaProp::VolumeRampScale),
            131073u32 => Some(SpaProp::Brightness),
            131074u32 => Some(SpaProp::Contrast),
            131075u32 => Some(SpaProp::Saturation),
            131076u32 => Some(SpaProp::Hue),
            131077u32 => Some(SpaProp::Gamma),
            131078u32 => Some(SpaProp::Exposure),
            131079u32 => Some(SpaProp::Gain),
            131080u32 => Some(SpaProp::Sharpness),
            524289u32 => Some(SpaProp::Params),
            _ => None,
        }
    }

    fn to_raw_value(&self) -> (r: u32) {
        match self {
            SpaProp::Unknown => 1u32,
            SpaProp::Device => 257u32,
            SpaProp::DeviceName => 258u32,
            SpaProp::DeviceFd => 259u32,
            SpaProp::Card => 260u32,
            SpaProp::CardName => 261u32,
            SpaProp::MinLatency => 262u32,
            SpaProp::MaxLatency => 263u32,
            SpaProp::Periods => 264u32,
            SpaProp::PeriodSize => 265u32,
            SpaProp::PeriodEvent => 266u32,
            SpaProp::Live => 267u32,
            SpaProp::Rate => 268u32,
            SpaProp::Quality => 269u32,
            SpaProp::BluetoothAudioCodec => 270u32,
            SpaProp::BluetoothOffloadActive => 271u32,
            SpaProp::WaveType => 65537u32,
            SpaProp::Frequency => 65538u32,
            SpaProp::Volume => 65539u32,
            SpaProp::Mute => 65540u32,
            SpaProp::PatternType => 65541u32,
            SpaProp::DitherType => 65542u32,
            SpaProp::Truncate => 65543u32,
            SpaProp::ChannelVolumes => 65544u32,
            SpaProp::VolumeBase => 65545u32,
            SpaProp::VolumeStep => 65546u32,
            SpaProp::ChannelMap => 65547u32,
            SpaProp::MonitorMute => 65548u32,
            SpaProp::MonitorVolumes => 65549u32,
            SpaProp::LatencyOffsetNsec => 65550u32,
            SpaProp::SoftMute => 65551u32,
            SpaProp::SoftVolumes => 65552u32,
            SpaProp::Iec958Codecs => 65553u32,
            SpaProp::VolumeRampSamples => 65554u32,
            SpaProp::VolumeRampStepSamples => 65555u32,
            SpaProp::VolumeRampTime => 65556u32,
            SpaProp::VolumeRampStepTime => 65557u32,
            SpaProp::VolumeRampScale => 65558u32,
            SpaProp::Brightness => 131073u32,
            SpaProp::Contrast => 131074u32,
            SpaProp::Saturation => 131075u32,
            SpaProp::Hue => 131076u32,
            SpaProp::Gamma => 131077u32,
            SpaProp::Exposure => 131078u32,
            SpaProp::Gain => 131079u32,
            SpaProp::Sharpness => 131080u32,
            SpaProp::Params => 524289u32,
        }
    }

    proof fn lemma_raw_roundtrip(v: Self) {}

    proof fn lemma_raw_inverse(raw: u32) {}
}

/// Media types.
#[derive(Debug, Clone, Copy, PartialEq, Eq, Structural)]
pub enum SpaMediaType {
    Unknown,
    Audio,
    Video,
    Image,
    Binary,
    Stream,
    Application,
}

impl SpaRawEnum for SpaMediaType {
    open spec fn spec_from_raw(raw: u32) -> Option<Self> {
        match raw {
            0u32 => Some(SpaMediaType::Unknown),
            1u32 => Some(SpaMediaType::Audio),
            2u32 => Some(SpaMediaType::Video),
            3u32 => Some(SpaMediaType::Image),
            4u32 => Some(SpaMediaType::Binary),
            5u32 => Some(SpaMediaType::Stream),
            6u32 => Some(SpaMediaType::Application),
            _ => None,
        }
    }

    open spec fn spec_to_raw(self) -> u32 {
        match self {
            SpaMediaType::Unknown => 0u32,
            SpaMediaType::Audio => 1u32,
            SpaMediaType::Video => 2u32,
            SpaMediaType::Image => 3u32,
            SpaMediaType::Binary => 4u32,
            SpaMediaType::Stream => 5u32,
            SpaMediaType::Application => 6u32,
        }
    }

    fn from_raw_value(raw: u32) -> (r: Option<Self>) {
        match raw {
            0u32 => Some(SpaMediaType::Unknown),
            1u32 => Some(SpaMediaType::Audio),
            2u32 => Some(SpaMediaType::Video),
            3u32 => Some(SpaMediaType::Image),
            4u32 => Some(SpaMediaType::Binary),
            5u32 => Some(SpaMediaType::Stream),
            6u32 => Some(SpaMediaType::Application),
            _ => None,
        }
    }

    fn to_raw_value(&self) -> (r: u32) {
        match self {
            SpaMediaType::Unknown => 0u32,
            SpaMediaType::Audio => 1u32,
            SpaMediaType::Video => 2u32,
            SpaMediaType::Image => 3u32,
            SpaMediaType::Binary => 4u32,
            SpaMediaType::Stream => 5u32,
            SpaMediaType::Application => 6u32,
        }
    }

    proof fn lemma_raw_roundtrip(v: Self) {}

    proof fn lemma_raw_inverse(raw: u32) {}
}

/// Media subtypes.
#[derive(Debug, Clone, Copy, PartialEq, Eq, Structural)]
pub enum SpaMediaSubtype {
    Unknown,
    Raw,
    Dsp,
    Iec958,
    /// S/PDIF
    Dsd,
    /// S/PDIF
    StartAudio,
    /// S/PDIF
    Mp3,
    /// S/PDIF
    Aac,
    /// S/PDIF
    Vorbis,
    /// S/PDIF
    Wma,
    /// S/PDIF
    Ra,
    /// S/PDIF
    Sbc,
    /// S/PDIF
    Adpcm,
    /// S/PDIF
    G723,
    /// S/PDIF
    G726,
    /// S/PDIF
    G729,
    /// S/PDIF
    Amr,
    /// S/PDIF
    Gsm,
    /// S/PDIF
    Alac,
    /// since 0.3.65
    Flac,
    /// since 0.3.65
    Ape,
    /// since 0.3.65
    Opus,
    /// since 0.3.68
    StartVideo,
    /// since 0.3.68
    H264,
    /// since 0.3.68
    Mjpg,
    /// since 0.3.68
    Dv,
    /// since 0.3.68
    Mpegts,
    /// since 0.3.68
    H263,
    /// since 0.3.68
    Mpeg1,
    /// since 0.3.68
    Mpeg2,
    /// since 0.3.68
    Mpeg4,
    /// since 0.3.68
    Xvid,
    /// since 0.3.68
    Vc1,
    /// since 0.3.68
    Vp8,
    /// since 0.3.68
    Vp9,
    /// since 0.3.68
    Bayer,
    /// since 0.3.68
    StartImage,
    /// since 0.3.68
    Jpeg,
    /// since 0.3.68
    StartBinary,
    /// since 0.3.68
    StartStream,
    /// since 0.3.68
    Midi,
    /// since 0.3.68
    StartApplication,
    /// control stream, data contains   spa_pod_sequence with control info.
    Control,
}

impl SpaRawEnum for SpaMediaSubtype {
    open spec fn spec_from_raw(raw: u32) -> Option<Self> {
        match raw {
            0u32 => Some(SpaMediaSubtype::Unknown),
            1u32 => Some(SpaMediaSubtype::Raw),
            2u32 => Some(SpaMediaSubtype::Dsp),
            3u32 => Some(SpaMediaSubtype::Iec958),
            4u32 => Some(SpaMediaSubtype::Dsd),
            65536u32 => Some(SpaMediaSubtype::StartAudio),
            65537u32 => Some(SpaMediaSubtype::Mp3),
            65538u32 => Some(SpaMediaSubtype::Aac),
            65539u32 => Some(SpaMediaSubtype::Vorbis),
            65540u32 => Some(SpaMediaSubtype::Wma),
            65541u32 => Some(SpaMediaSubtype::Ra),
            65542u32 => Some(SpaMediaSubtype::Sbc),
            65543u32 => Some(SpaMediaSubtype::Adpcm),
            65544u32 => Some(SpaMediaSubtype::G723),
            65545u32 => Some(SpaMediaSubtype::G726),
            65546u32 => Some(SpaMediaSubtype::G729),
            65547u32 => Some(SpaMediaSubtype::Amr),
            65548u32 => Some(SpaMediaSubtype::Gsm),
            65549u32 => Some(SpaMediaSubtype::Alac),
            65550u32 => Some(SpaMediaSubtype::Flac),
            65551u32 => Some(SpaMediaSubtype::Ape),
            65552u32 => Some(SpaMediaSubtype::Opus),
            131072u32 => Some(SpaMediaSubtype::StartVideo),
            131073u32 => Some(SpaMediaSubtype::H264),
            131074u32 => Some(SpaMediaSubtype::Mjpg),
            131075u32 => Some(SpaMediaSubtype::Dv),
            131076u32 => Some(SpaMediaSubtype::Mpegts),
            131077u32 => Some(SpaMediaSubtype::H263),
            131078u32 => Some(SpaMediaSubtype::Mpeg1),
            131079u32 => Some(SpaMediaSubtype::Mpeg2),
            131080u32 => Some(SpaMediaSubtype::Mpeg4),
            131081u32 => Some(SpaMediaSubtype::Xvid),
            131082u32 => Some(SpaMediaSubtype::Vc1),
            131083u32 => Some(SpaMediaSubtype::Vp8),
            131084u32 => Some(SpaMediaSubtype::Vp9),
            131085u32 => Some(SpaMediaSubtype::Bayer),
            196608u32 => Some(SpaMediaSubtype::StartImage),
            196609u32 => Some(SpaMediaSubtype::Jpeg),
            262144u32 => Some(SpaMediaSubtype::StartBinary),
            327680u32 => Some(SpaMediaSubtype::StartStream),
            327681u32 => Some(SpaMediaSubtype::Midi),
            393216u32 => Some(SpaMediaSubtype::StartApplication),
            393217u32 => Some(SpaMediaSubtype::Control),
            _ => None,
        }
    }

    open spec fn spec_to_raw(self) -> u32 {
        match self {
            SpaMediaSubtype::Unknown => 0u32,
            SpaMediaSubtype::Raw => 1u32,
            SpaMediaSubtype::Dsp => 2u32,
            SpaMediaSubtype::Iec958 => 3u32,
            SpaMediaSubtype::Dsd => 4u32,
            SpaMediaSubtype::StartAudio => 65536u32,
            SpaMediaSubtype::Mp3 => 65537u32,
            SpaMediaSubtype::Aac => 65538u32,
            SpaMediaSubtype::Vorbis => 65539u32,
            SpaMediaSubtype::Wma => 65540u32,
            SpaMediaSubtype::Ra => 65541u32,
            SpaMediaSubtype::Sbc => 65542u32,
            SpaMediaSubtype::Adpcm => 65543u32,
            SpaMediaSubtype::G723 => 65544u32,
            SpaMediaSubtype::G726 => 65545u32,
            SpaMediaSubtype::G729 => 65546u32,
            SpaMediaSubtype::Amr => 65547u32,
            SpaMediaSubtype::Gsm => 65548u32,
            SpaMediaSubtype::Alac => 65549u32,
            SpaMediaSubtype::Flac => 65550u32,
            SpaMediaSubtype::Ape => 65551u32,
            SpaMediaSubtype::Opus => 65552u32,
            SpaMediaSubtype::StartVideo => 131072u32,
            SpaMediaSubtype::H264 => 131073u32,
            SpaMediaSubtype::Mjpg => 131074u32,
            SpaMediaSubtype::Dv => 131075u32,
            SpaMediaSubtype::Mpegts => 131076u32,
            SpaMediaSubtype::H263 => 131077u32,
            SpaMediaSubtype::Mpeg1 => 131078u32,
            SpaMediaSubtype::Mpeg2 => 131079u32,
            SpaMediaSubtype::Mpeg4 => 131080u32,
            SpaMediaSubtype::Xvid => 131081u32,
            SpaMediaSubtype::Vc1 => 131082u32,
            SpaMediaSubtype::Vp8 => 131083u32,
            SpaMediaSubtype::Vp9 => 131084u32,
            SpaMediaSubtype::Bayer => 131085u32,
            SpaMediaSubtype::StartImage => 196608u32,
            SpaMediaSubtype::Jpeg => 196609u32,
            SpaMediaSubtype::StartBinary => 262144u32,
            SpaMediaSubtype::StartStream => 327680u32,
            SpaMediaSubtype::Midi => 327681u32,
            SpaMediaSubtype::StartApplication => 393216u32,
            SpaMediaSubtype::Control => 393217u32,
        }
    }

    fn from_raw_value(raw: u32) -> (r: Option<Self>) {
        match raw {
            0u32 => Some(SpaMediaSubtype::Unknown),
            1u32 => Some(SpaMediaSubtype::Raw),
            2u32 => Some(SpaMediaSubtype::Dsp),
            3u32 => Some(SpaMediaSubtype::Iec958),
            4u32 => Some(SpaMediaSubtype::Dsd),
            65536u32 => Some(SpaMediaSubtype::StartAudio),
            65537u32 => Some(SpaMediaSubtype::Mp3),
            65538u32 => Some(SpaMediaSubtype::Aac),
            65539u32 => Some(SpaMediaSubtype::Vorbis),
            65540u32 => Some(SpaMediaSubtype::Wma),
            65541u32 => Some(SpaMediaSubtype::Ra),
            65542u32 => Some(SpaMediaSubtype::Sbc),
            65543u32 => Some(SpaMediaSubtype::Adpcm),
            65544u32 => Some(SpaMediaSubtype::G723),
            65545u32 => Some(SpaMediaSubtype::G726),
            65546u32 => Some(SpaMediaSubtype::G729),
            65547u32 => Some(SpaMediaSubtype::Amr),
            65548u32 => Some(SpaMediaSubtype::Gsm),
            65549u32 => Some(SpaMediaSubtype::Alac),
            65550u32 => Some(SpaMediaSubtype::Flac),
            65551u32 => Some(SpaMediaSubtype::Ape),
            65552u32 => Some(SpaMediaSubtype::Opus),
            131072u32 => Some(SpaMediaSubtype::StartVideo),
            131073u32 => Some(SpaMediaSubtype::H264),
            131074u32 => Some(SpaMediaSubtype::Mjpg),
            131075u32 => Some(SpaMediaSubtype::Dv),
            131076u32 => Some(SpaMediaSubtype::Mpegts),
            131077u32 => Some(SpaMediaSubtype::H263),
            131078u32 => Some(SpaMediaSubtype::Mpeg1),
            131079u32 => Some(SpaMediaSubtype::Mpeg2),
            131080u32 => Some(SpaMediaSubtype::Mpeg4),
            131081u32 => Some(SpaMediaSubtype::Xvid),
            131082u32 => Some(SpaMediaSubtype::Vc1),
            131083u32 => Some(SpaMediaSubtype::Vp8),
            131084u32 => Some(SpaMediaSubtype::Vp9),
            131085u32 => Some(SpaMediaSubtype::Bayer),
            196608u32 => Some(SpaMediaSubtype::StartImage),
            196609u32 => Some(SpaMediaSubtype::Jpeg),
            262144u32 => Some(SpaMediaSubtype::StartBinary),
            327680u32 => Some(SpaMediaSubtype::StartStream),
            327681u32 => Some(SpaMediaSubtype::Midi),
            393216u32 => Some(SpaMediaSubtype::StartApplication),
            393217u32 => Some(SpaMediaSubtype::Control),
            _ => None,
        }
    }

    fn to_raw_value(&self) -> (r: u32) {
        match self {
            SpaMediaSubtype::Unknown => 0u32,
            SpaMediaSubtype::Raw => 1u32,
            SpaMediaSubtype::Dsp => 2u32,
            SpaMediaSubtype::Iec958 => 3u32,
            SpaMediaSubtype::Dsd => 4u32,
            SpaMediaSubtype::StartAudio => 65536u32,
            SpaMediaSubtype::Mp3 => 65537u32,
            SpaMediaSubtype::Aac => 65538u32,
            SpaMediaSubtype::Vorbis => 65539u32,
            SpaMediaSubtype::Wma => 65540u32,
            SpaMediaSubtype::Ra => 65541u32,
            SpaMediaSubtype::Sbc => 65542u32,
            SpaMediaSubtype::Adpcm => 65543u32,
            SpaMediaSubtype::G723 => 65544u32,
            SpaMediaSubtype::G726 => 65545u32,
            SpaMediaSubtype::G729 => 65546u32,
            SpaMediaSubtype::Amr => 65547u32,
            SpaMediaSubtype::Gsm => 65548u32,
            SpaMediaSubtype::Alac => 65549u32,
            SpaMediaSubtype::Flac => 65550u32,
            SpaMediaSubtype::Ape => 65551u32,
            SpaMediaSubtype::Opus => 65552u32,
            SpaMediaSubtype::StartVideo => 131072u32,
            SpaMediaSubtype::H264 => 131073u32,
            SpaMediaSubtype::Mjpg => 131074u32,
            SpaMediaSubtype::Dv => 131075u32,
            SpaMediaSubtype::Mpegts => 131076u32,
            SpaMediaSubtype::H263 => 131077u32,
            SpaMediaSubtype::Mpeg1 => 131078u32,
            SpaMediaSubtype::Mpeg2 => 131079u32,
            SpaMediaSubtype::Mpeg4 => 131080u32,
            SpaMediaSubtype::Xvid => 131081u32,
            SpaMediaSubtype::Vc1 => 131082u32,
            SpaMediaSubtype::Vp8 => 131083u32,
            SpaMediaSubtype::Vp9 => 131084u32,
            SpaMediaSubtype::Bayer => 131085u32,
            SpaMediaSubtype::StartImage => 196608u32,
            SpaMediaSubtype::Jpeg => 196609u32,
            SpaMediaSubtype::StartBinary => 262144u32,
            SpaMediaSubtype::StartStream => 327680u32,
            SpaMediaSubtype::Midi => 327681u32,
            SpaMediaSubtype::StartApplication => 393216u32,
            SpaMediaSubtype::Control => 393217u32,
        }
    }

    proof fn lemma_raw_roundtrip(v: Self) {}

    proof fn lemma_raw_inverse(raw: u32) {}
}

/// Property keys of a format object.
#[derive(Debug, Clone, Copy, PartialEq, Eq, Structural)]
pub enum SpaFormat {
    Start,
    /// media type (Id enum spa_media_type)
    MediaType,
    /// media subtype (Id enum spa_media_subtype)
    MediaSubtype,
    StartAudio,
    /// audio format, (Id enum spa_audio_format)
    AudioFormat,
    /// optional flags (Int)
    AudioFlags,
    /// sample rate (Int)
    AudioRate,
    /// number of audio channels (Int)
    AudioChannels,
    /// channel positions (Id enum spa_audio_position)
    AudioPosition,
    /// codec used (IEC958) (Id enum spa_audio_iec958_codec)
    AudioIec958Codec,
    /// bit order (Id enum spa_param_bitorder)
    AudioBitorder,
    /// Interleave bytes (Int)
    AudioInterleave,
    /// bit rate (Int)
    AudioBitrate,
    /// audio data block alignment (Int)
    AudioBlockAlign,
    /// AAC stream format, (Id enum spa_audio_aac_stream_format)
    AudioAacStreamFormat,
    /// WMA profile (Id enum spa_audio_wma_profile)
    AudioWmaProfile,
    /// AMR band mode (Id enum spa_audio_amr_band_mode)
    AudioAmrBandMode,
    StartVideo,
    /// video format (Id enum spa_video_format)
    VideoFormat,
    /// format modifier (Long)  use only with DMA-BUF and omit for other buffer types
    VideoModifier,
    /// size (Rectangle)
    VideoSize,
    /// frame rate (Fraction)
    VideoFramerate,
    /// maximum frame rate (Fraction)
    VideoMaxFramerate,
    /// number of views (Int)
    VideoViews,
    /// (Id enum spa_video_interlace_mode)
    VideoInterlaceMode,
    /// (Rectangle)
    VideoPixelAspectRatio,
    /// (Id enum spa_video_multiview_mode)
    VideoMultiviewMode,
    /// (Id enum spa_video_multiview_flags)
    VideoMultiviewFlags,
    /// /Id enum spa_video_chroma_site)
    VideoChromaSite,
    /// /Id enum spa_video_color_range)
    VideoColorRange,
    /// /Id enum spa_video_color_matrix)
    VideoColorMatrix,
    /// /Id enum spa_video_transfer_function)
    VideoTransferFunction,
    /// /Id enum spa_video_color_primaries)
    VideoColorPrimaries,
    /// (Int)
    VideoProfile,
    /// (Int)
    VideoLevel,
    /// (Id enum spa_h264_stream_format)
    VideoH264StreamFormat,
    /// (Id enum spa_h264_alignment)
    VideoH264Alignment,
    StartImage,
    StartBinary,
    StartStream,
    StartApplication,
}

impl SpaRawEnum for SpaFormat {
    open spec fn spec_from_raw(raw: u32) -> Option<Self> {
        match raw {
            0u32 => Some(SpaFormat::Start),
            1u32 => Some(SpaFormat::MediaType),
            2u32 => Some(SpaFormat::MediaSubtype),
            65536u32 => Some(SpaFormat::StartAudio),
            65537u32 => Some(SpaFormat::AudioFormat),
            65538u32 => Some(SpaFormat::AudioFlags),
            65539u32 => Some(SpaFormat::AudioRate),
            65540u32 => Some(SpaFormat::AudioChannels),
            65541u32 => Some(SpaFormat::AudioPosition),
            65542u32 => Some(SpaFormat::AudioIec958Codec),
            65543u32 => Some(SpaFormat::AudioBitorder),
            65544u32 => Some(SpaFormat::AudioInterleave),
            65545u32 => Some(SpaFormat::AudioBitrate),
            65546u32 => Some(SpaFormat::AudioBlockAlign),
            65547u32 => Some(SpaFormat::AudioAacStreamFormat),
            65548u32 => Some(SpaFormat::AudioWmaProfile),
            65549u32 => Some(SpaFormat::AudioAmrBandMode),
            131072u32 => Some(SpaFormat::StartVideo),
            131073u32 => Some(SpaFormat::VideoFormat),
            131074u32 => Some(SpaFormat::VideoModifier),
            131075u32 => Some(SpaFormat::VideoSize),
            131076u32 => Some(SpaFormat::VideoFramerate),
            131077u32 => Some(SpaFormat::VideoMaxFramerate),
            131078u32 => Some(SpaFormat::VideoViews),
            131079u32 => Some(SpaFormat::VideoInterlaceMode),
            131080u32 => Some(SpaFormat::VideoPixelAspectRatio),
            131081u32 => Some(SpaFormat::VideoMultiviewMode),
            131082u32 => Some(SpaFormat::VideoMultiviewFlags),
            131083u32 => Some(SpaFormat::VideoChromaSite),
            131084u32 => Some(SpaFormat::VideoColorRange),
            131085u32 => Some(SpaFormat::VideoColorMatrix),
            131086u32 => Some(SpaFormat::VideoTransferFunction),
            131087u32 => Some(SpaFormat::VideoColorPrimaries),
            131088u32 => Some(SpaFormat::VideoProfile),
            131089u32 => Some(SpaFormat::VideoLevel),
            131090u32 => Some(SpaFormat::VideoH264StreamFormat),
            131091u32 => Some(SpaFormat::VideoH264Alignment),
            196608u32 => Some(SpaFormat::StartImage),
            262144u32 => Some(SpaFormat::StartBinary),
            327680u32 => Some(SpaFormat::StartStream),
            393216u32 => Some(SpaFormat::StartApplication),
            _ => None,
        }
    }

    open spec fn spec_to_raw(self) -> u32 {
        match self {
            SpaFormat::Start => 0u32,
            SpaFormat::MediaType => 1u32,
            SpaFormat::MediaSubtype => 2u32,
            SpaFormat::StartAudio => 65536u32,
            SpaFormat::AudioFormat => 65537u32,
            SpaFormat::AudioFlags => 65538u32,
            SpaFormat::AudioRate => 65539u32,
            SpaFormat::AudioChannels => 65540u32,
            SpaFormat::AudioPosition => 65541u32,
            SpaFormat::AudioIec958Codec => 65542u32,
            SpaFormat::AudioBitorder => 65543u32,
            SpaFormat::AudioInterleave => 65544u32,
            SpaFormat::AudioBitrate => 65545u32,
            SpaFormat::AudioBlockAlign => 65546u32,
            SpaFormat::AudioAacStreamFormat => 65547u32,
            SpaFormat::AudioWmaProfile => 65548u32,
            SpaFormat::AudioAmrBandMode => 65549u32,
            SpaFormat::StartVideo => 131072u32,
            SpaFormat::VideoFormat => 131073u32,
            SpaFormat::VideoModifier => 131074u32,
            SpaFormat::VideoSize => 131075u32,
            SpaFormat::VideoFramerate => 131076u32,
            SpaFormat::VideoMaxFramerate => 131077u32,
            SpaFormat::VideoViews => 131078u32,
            SpaFormat::VideoInterlaceMode => 131079u32,
            SpaFormat::VideoPixelAspectRatio => 131080u32,
            SpaFormat::VideoMultiviewMode => 131081u32,
            SpaFormat::VideoMultiviewFlags => 131082u32,
            SpaFormat::VideoChromaSite => 131083u32,
            SpaFormat::VideoColorRange => 131084u32,
            SpaFormat::VideoColorMatrix => 131085u32,
            SpaFormat::VideoTransferFunction => 131086u32,
            SpaFormat::VideoColorPrimaries => 131087u32,
            SpaFormat::VideoProfile => 131088u32,
            SpaFormat::VideoLevel => 131089u32,
            SpaFormat::VideoH264StreamFormat => 131090u32,
            SpaFormat::VideoH264Alignment => 131091u32,
            SpaFormat::StartImage => 196608u32,
            SpaFormat::StartBinary => 262144u32,
            SpaFormat::StartStream => 327680u32,
            SpaFormat::StartApplication => 393216u32,
        }
    }

    fn from_raw_value(raw: u32) -> (r: Option<Self>) {
        match raw {
            0u32 => Some(SpaFormat::Start),
            1u32 => Some(SpaFormat::MediaType),
            2u32 => Some(SpaFormat::MediaSubtype),
            65536u32 => Some(SpaFormat::StartAudio),
            65537u32 => Some(SpaFormat::AudioFormat),
            65538u32 => Some(SpaFormat::AudioFlags),
            65539u32 => Some(SpaFormat::AudioRate),
            65540u32 => Some(SpaFormat::AudioChannels),
            65541u32 => Some(SpaFormat::AudioPosition),
            65542u32 => Some(SpaFormat::AudioIec958Codec),
            65543u32 => Some(SpaFormat::AudioBitorder),
            65544u32 => Some(SpaFormat::AudioInterleave),
            65545u32 => Some(SpaFormat::AudioBitrate),
            65546u32 => Some(SpaFormat::AudioBlockAlign),
            65547u32 => Some(SpaFormat::AudioAacStreamFormat),
            65548u32 => Some(SpaFormat::AudioWmaProfile),
            65549u32 => Some(SpaFormat::AudioAmrBandMode),
            131072u32 => Some(SpaFormat::StartVideo),
            131073u32 => Some(SpaFormat::VideoFormat),
            131074u32 => Some(SpaFormat::VideoModifier),
            131075u32 => Some(SpaFormat::VideoSize),
            131076u32 => Some(SpaFormat::VideoFramerate),
            131077u32 => Some(SpaFormat::VideoMaxFramerate),
            131078u32 => Some(SpaFormat::VideoViews),
            131079u32 => Some(SpaFormat::VideoInterlaceMode),
            131080u32 => Some(SpaFormat::VideoPixelAspectRatio),
            131081u32 => Some(SpaFormat::VideoMultiviewMode),
            131082u32 => Some(SpaFormat::VideoMultiviewFlags),
            131083u32 => Some(SpaFormat::VideoChromaSite),
            131084u32 => Some(SpaFormat::VideoColorRange),
            131085u32 => Some(SpaFormat::VideoColorMatrix),
            131086u32 => Some(SpaFormat::VideoTransferFunction),
            131087u32 => Some(SpaFormat::VideoColorPrimaries),
            131088u32 => Some(SpaFormat::VideoProfile),
            131089u32 => Some(SpaFormat::VideoLevel),
            131090u32 => Some(SpaFormat::VideoH264StreamFormat),
            131091u32 => Some(SpaFormat::VideoH264Alignment),
            196608u32 => Some(SpaFormat::StartImage),
            262144u32 => Some(SpaFormat::StartBinary),
            327680u32 => Some(SpaFormat::StartStream),
            393216u32 => Some(SpaFormat::StartApplication),
            _ => None,
        }
    }

    fn to_raw_value(&self) -> (r: u32) {
        match self {
            SpaFormat::Start => 0u32,
            SpaFormat::MediaType => 1u32,
            SpaFormat::MediaSubtype => 2u32,
            SpaFormat::StartAudio => 65536u32,
            SpaFormat::AudioFormat => 65537u32,
            SpaFormat::AudioFlags => 65538u32,
            SpaFormat::AudioRate => 65539u32,
            SpaFormat::AudioChannels => 65540u32,
            SpaFormat::AudioPosition => 65541u32,
            SpaFormat::AudioIec958Codec => 65542u32,
            SpaFormat::AudioBitorder => 65543u32,
            SpaFormat::AudioInterleave => 65544u32,
            SpaFormat::AudioBitrate => 65545u32,
            SpaFormat::AudioBlockAlign => 65546u32,
            SpaFormat::AudioAacStreamFormat => 65547u32,
            SpaFormat::AudioWmaProfile => 65548u32,
            SpaFormat::AudioAmrBandMode => 65549u32,
            SpaFormat::StartVideo => 131072u32,
            SpaFormat::VideoFormat => 131073u32,
            SpaFormat::VideoModifier => 131074u32,
            SpaFormat::VideoSize => 131075u32,
            SpaFormat::VideoFramerate => 131076u32,
            SpaFormat::VideoMaxFramerate => 131077u32,
            SpaFormat::VideoViews => 131078u32,
            SpaFormat::VideoInterlaceMode => 131079u32,
            SpaFormat::VideoPixelAspectRatio => 131080u32,
            SpaFormat::VideoMultiviewMode => 131081u32,
            SpaFormat::VideoMultiviewFlags => 131082u32,
            SpaFormat::VideoChromaSite => 131083u32,
            SpaFormat::VideoColorRange => 131084u32,
            SpaFormat::VideoColorMatrix => 131085u32,
            SpaFormat::VideoTransferFunction => 131086u32,
            SpaFormat::VideoColorPrimaries => 131087u32,
            SpaFormat::VideoProfile => 131088u32,
            SpaFormat::VideoLevel => 131089u32,
            SpaFormat::VideoH264StreamFormat => 131090u32,
            SpaFormat::VideoH264Alignment => 131091u32,
            SpaFormat::StartImage => 196608u32,
            SpaFormat::StartBinary => 262144u32,
            SpaFormat::StartStream => 327680u32,
            SpaFormat::StartApplication => 393216u32,
        }
    }

    proof fn lemma_raw_roundtrip(v: Self) {}

    proof fn lemma_raw_inverse(raw: u32) {}
}

/// States of a node.
#[derive(Debug, Clone, Copy, PartialEq, Eq, Structural)]
pub enum PwNodeState {
    Error,
    Creating,
    Suspended,
    Idle,
    Running,
}

impl SpaRawEnumI32 for PwNodeState {
    open spec fn spec_from_raw(raw: i32) -> Option<Self> {
        match raw {
            -1i32 => Some(PwNodeState::Error),
            0i32 => Some(PwNodeState::Creating),
            1i32 => Some(PwNodeState::Suspended),
            2i32 => Some(PwNodeState::Idle),
            3i32 => Some(PwNodeState::Running),
            _ => None,
        }
    }

    open spec fn spec_to_raw(self) -> i32 {
        match self {
            PwNodeState::Error => -1i32,
            PwNodeState::Creating => 0i32,
            PwNodeState::Suspended => 1i32,
            PwNodeState::Idle => 2i32,
            PwNodeState::Running => 3i32,
        }
    }

    fn from_raw_value(raw: i32) -> (r: Option<Self>) {
        match raw {
            -1i32 => Some(PwNodeState::Error),
            0i32 => Some(PwNodeState::Creating),
            1i32 => Some(PwNodeState::Suspended),
            2i32 => Some(PwNodeState::Idle),
            3i32 => Some(PwNodeState::Running),
            _ => None,
        }
    }

    fn to_raw_value(&self) -> (r: i32) {
        match self {
            PwNodeState::Error => -1i32,
            PwNodeState::Creating => 0i32,
            PwNodeState::Suspended => 1i32,
            PwNodeState::Idle => 2i32,
            PwNodeState::Running => 3i32,
        }
    }

    proof fn lemma_raw_roundtrip(v: Self) {}

    proof fn lemma_raw_inverse(raw: i32) {}
}

/// States of a link.
#[derive(Debug, Clone, Copy, PartialEq, Eq, Structural)]
pub enum PwLinkState {
    Error,
    Unlinked,
    Init,
    Negotiating,
    Allocating,
    Paused,
    Active,
}

impl SpaRawEnumI32 for PwLinkState {
    open spec fn spec_from_raw(raw: i32) -> Option<Self> {
        match raw {
            -2i32 => Some(PwLinkState::Error),
            -1i32 => Some(PwLinkState::Unlinked),
            0i32 => Some(PwLinkState::Init),
            1i32 => Some(PwLinkState::Negotiating),
            2i32 => Some(PwLinkState::Allocating),
            3i32 => Some(PwLinkState::Paused),
            4i32 => Some(PwLinkState::Active),
            _ => None,
        }
    }

    open spec fn spec_to_raw(self) -> i32 {
        match self {
            PwLinkState::Error => -2i32,
            PwLinkState::Unlinked => -1i32,
            PwLinkState::Init => 0i32,
            PwLinkState::Negotiating => 1i32,
            PwLinkState::Allocating => 2i32,
            PwLinkState::Paused => 3i32,
            PwLinkState::Active => 4i32,
        }
    }

    fn from_raw_value(raw: i32) -> (r: Option<Self>) {
        match raw {
            -2i32 => Some(PwLinkState::Error),
            -1i32 => Some(PwLinkState::Unlinked),
            0i32 => Some(PwLinkState::Init),
            1i32 => Some(PwLinkState::Negotiating),
            2i32 => Some(PwLinkState::Allocating),
            3i32 => Some(PwLinkState::Paused),
            4i32 => Some(PwLinkState::Active),
            _ => None,
        }
    }

    fn to_raw_value(&self) -> (r: i32) {
        match self {
            PwLinkState::Error => -2i32,
            PwLinkState::Unlinked => -1i32,
            PwLinkState::Init => 0i32,
            PwLinkState::Negotiating => 1i32,
            PwLinkState::Allocating => 2i32,
            PwLinkState::Paused => 3i32,
            PwLinkState::Active => 4i32,
        }
    }

    proof fn lemma_raw_roundtrip(v: Self) {}

    proof fn lemma_raw_inverse(raw: i32) {}
}

/// A width and height pair.
#[derive(Debug, Clone, Copy, PartialEq, Eq, Structural)]
pub struct SpaRectangle {
    pub width: u32,
    pub height: u32,
}

/// A numerator and denominator pair.
#[derive(Debug, Clone, Copy, PartialEq, Eq, Structural)]
pub struct SpaFraction {
    pub num: u32,
    pub denom: u32,
}

/// The header of a pod: body size and type.
#[derive(Debug, Clone, Copy, PartialEq, Eq, Structural)]
pub struct SpaPod {
    pub size: u32,
    pub type_: u32,
}

impl SpaType {
    /// The variant with raw value `v`, if any.
    pub fn from_raw(v: u32) -> (r: Option<Self>)
        ensures
            r == <SpaType as SpaRawEnum>::spec_from_raw(v),
    {
        <SpaType as SpaRawEnum>::from_raw_value(v)
    }
}

impl SpaFormat {
    /// The variant with raw value `v`, if any.
    pub fn from_raw(v: u32) -> (r: Option<Self>)
        ensures
            r == <SpaFormat as SpaRawEnum>::spec_from_raw(v),
    {
        <SpaFormat as SpaRawEnum>::from_raw_value(v)
    }
}

impl SpaPointerType {
    /// The variant with raw value `v`, if any.
    pub fn from_raw(v: u32) -> (r: Option<Self>)
        ensures
            r == <SpaPointerType as SpaRawEnum>::spec_from_raw(v),
    {
        <SpaPointerType as SpaRawEnum>::from_raw_value(v)
    }
}

impl SpaDataType {
    /// The variant with raw value `v`, if any.
    pub fn from_raw(v: u32) -> (r: Option<Self>)
        ensures
            r == <SpaDataType as SpaRawEnum>::spec_from_raw(v),
    {
        <SpaDataType as SpaRawEnum>::from_raw_value(v)
    }
}

impl SpaChoiceType {
    /// The variant with raw value `v`, if any.
    pub fn from_raw(v: u32) -> (r: Option<Self>)
        ensures
            r == <SpaChoiceType as SpaRawEnum>::spec_from_raw(v),
    {
        <SpaChoiceType as SpaRawEnum>::from_raw_value(v)
    }
}

impl SpaParamType {
    /// The variant with raw value `v`, if any.
    pub fn from_raw(v: u32) -> (r: Option<Self>)
        ensures
            r == <SpaParamType as SpaRawEnum>::spec_from_raw(v),
    {
        <SpaParamType as SpaRawEnum>::from_raw_value(v)
    }
}

} // verus!
