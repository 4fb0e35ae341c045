//! Builders of parameter objects: each adds properties, in the order of the
//! calls, to an object of a fixed type.

use vstd::prelude::*;
use crate::pod_v2::Id;
use crate::spa_enum::SpaRawEnum;
use crate::spa_types::{
    SpaFormat, SpaIoType, SpaMediaSubtype, SpaMediaType, SpaParamIo, SpaParamType, SpaProp, SpaType,
};
use super::value::{
    spec_props_view, FloatBits, Object, Property, PropertyFlags, PropertyView, Value, ValueView,
};

verus! {

/// The property with key `key`, no flag and value `value`.
pub open spec fn spec_plain_property(key: u32, value: ValueView) -> PropertyView {
    PropertyView { key, flags: 0, value }
}

/// Add the property with key `key`, no flag and value `value`.
fn push_property(properties: &mut Vec<Property>, key: u32, value: Value)
    ensures
        spec_props_view(final(properties)@) == spec_props_view(old(properties)@).push(
            spec_plain_property(key, value.view()),
        ),
{
    let ghost before = properties@;
    properties.push(Property { key, flags: PropertyFlags::empty(), value });
    assert(properties@.drop_last() =~= before);
}

/// A builder of a `Format` object.
pub struct FormatParamBuilder {
    id: SpaParamType,
    properties: Vec<Property>,
}

impl FormatParamBuilder {
    /// The parameter id and the properties added so far.
    pub closed spec fn view(self) -> (SpaParamType, Seq<PropertyView>) {
        (self.id, spec_props_view(self.properties@))
    }

    /// A builder of the configured format.
    pub fn format() -> (r: Self)
        ensures
            r.view() == (SpaParamType::Format, Seq::<PropertyView>::empty()),
    {
        FormatParamBuilder { id: SpaParamType::Format, properties: Vec::new() }
    }

    /// A builder of one of the available formats.
    pub fn enum_format() -> (r: Self)
        ensures
            r.view() == (SpaParamType::EnumFormat, Seq::<PropertyView>::empty()),
    {
        FormatParamBuilder { id: SpaParamType::EnumFormat, properties: Vec::new() }
    }

    /// Add the media type.
    pub fn media_type(self, id: SpaMediaType) -> (r: Self)
        ensures
            r.view() == (self.view().0, self.view().1.push(
                spec_plain_property(
                    SpaFormat::MediaType.spec_to_raw(),
                    ValueView::Id(id.spec_to_raw()),
                ),
            )),
    {
        let mut b = self;
        push_property(
            &mut b.properties,
            SpaFormat::MediaType.to_raw_value(),
            Value::Id(Id(id.to_raw_value())),
        );
        b
    }

    /// Add the media subtype.
    pub fn media_subtype(self, id: SpaMediaSubtype) -> (r: Self)
        ensures
            r.view() == (self.view().0, self.view().1.push(
                spec_plain_property(
                    SpaFormat::MediaSubtype.spec_to_raw(),
                    ValueView::Id(id.spec_to_raw()),
                ),
            )),
    {
        let mut b = self;
        push_property(
            &mut b.properties,
            SpaFormat::MediaSubtype.to_raw_value(),
            Value::Id(Id(id.to_raw_value())),
        );
        b
    }

    /// The `Format` object with the properties added.
    pub fn build(self) -> (r: Object)
        ensures
            r.type_ == SpaType::ObjectFormat,
            r.id == self.view().0.spec_to_raw(),
            spec_props_view(r.properties@) == self.view().1,
    {
        Object { type_: SpaType::ObjectFormat, id: self.id.to_raw_value(), properties: self.properties }
    }
}

/// A builder of an `Io` parameter object.
pub struct IoParamBuilder {
    id: SpaParamType,
    properties: Vec<Property>,
}

impl IoParamBuilder {
    /// The parameter id and the properties added so far.
    pub closed spec fn view(self) -> (SpaParamType, Seq<PropertyView>) {
        (self.id, spec_props_view(self.properties@))
    }

    /// A builder of an `Io` parameter.
    pub fn io() -> (r: Self)
        ensures
            r.view() == (SpaParamType::Io, Seq::<PropertyView>::empty()),
    {
        IoParamBuilder { id: SpaParamType::Io, properties: Vec::new() }
    }

    /// Add the type of the area.
    pub fn id(self, id: SpaIoType) -> (r: Self)
        ensures
            r.view() == (self.view().0, self.view().1.push(
                spec_plain_property(SpaParamIo::Id.spec_to_raw(), ValueView::Id(id.spec_to_raw())),
            )),
    {
        let mut b = self;
        push_property(&mut b.properties, SpaParamIo::Id.to_raw_value(), Value::Id(Id(id.to_raw_value())));
        b
    }

    /// Add the size of the area.
    pub fn size(self, size: u32) -> (r: Self)
        ensures
            r.view() == (self.view().0, self.view().1.push(
                spec_plain_property(SpaParamIo::Size.spec_to_raw(), ValueView::Int(size as i32)),
            )),
    {
        let mut b = self;
        push_property(&mut b.properties, SpaParamIo::Size.to_raw_value(), Value::Int(size as i32));
        b
    }

    /// The `ParamIo` object with the properties added.
    pub fn build(self) -> (r: Object)
        ensures
            r.type_ == SpaType::ObjectParamIo,
            r.id == self.view().0.spec_to_raw(),
            spec_props_view(r.properties@) == self.view().1,
    {
        Object { type_: SpaType::ObjectParamIo, id: self.id.to_raw_value(), properties: self.properties }
    }
}

/// A builder of a `Props` object.
pub struct PropsBuilder {
    id: SpaParamType,
    properties: Vec<Property>,
}

impl PropsBuilder {
    /// The parameter id and the properties added so far.
    pub closed spec fn view(self) -> (SpaParamType, Seq<PropertyView>) {
        (self.id, spec_props_view(self.properties@))
    }

    /// A builder with no property, of parameter id `Invalid`.
    pub fn new() -> (r: Self)
        ensures
            r.view() == (SpaParamType::Invalid, Seq::<PropertyView>::empty()),
    {
        PropsBuilder { id: SpaParamType::Invalid, properties: Vec::new() }
    }

    fn push(self, key: SpaProp, value: Value) -> (r: Self)
        ensures
            r.view() == (self.view().0, self.view().1.push(
                spec_plain_property(key.spec_to_raw(), value.view()),
            )),
    {
        let mut b = self;
        push_property(&mut b.properties, key.to_raw_value(), value);
        b
    }

    /// Add the volume, as the bits of an `f32`.
    pub fn volume(self, volume_bits: u32) -> (r: Self)
        ensures
            r.view() == (self.view().0, self.view().1.push(
                spec_plain_property(SpaProp::Volume.spec_to_raw(), ValueView::Float(volume_bits)),
            )),
    {
        self.push(SpaProp::Volume, Value::Float(FloatBits(volume_bits)))
    }

    /// Add the mute switch.
    pub fn mute(self, mute: bool) -> (r: Self)
        ensures
            r.view() == (self.view().0, self.view().1.push(
                spec_plain_property(SpaProp::Mute.spec_to_raw(), ValueView::Bool(mute)),
            )),
    {
        self.push(SpaProp::Mute, Value::Bool(mute))
    }

    /// Add the soft mute switch.
    pub fn soft_mute(self, mute: bool) -> (r: Self)
        ensures
            r.view() == (self.view().0, self.view().1.push(
                spec_plain_property(SpaProp::SoftMute.spec_to_raw(), ValueView::Bool(mute)),
            )),
    {
        self.push(SpaProp::SoftMute, Value::Bool(mute))
    }

    /// The `Props` object with the properties added.
    pub fn build(self) -> (r: Object)
        ensures
            r.type_ == SpaType::ObjectProps,
            r.id == self.view().0.spec_to_raw(),
            spec_props_view(r.properties@) == self.view().1,
    {
        Object { type_: SpaType::ObjectProps, id: self.id.to_raw_value(), properties: self.properties }
    }
}

} // verus!
