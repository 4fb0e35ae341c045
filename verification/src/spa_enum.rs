//! The `SpaEnum` wrapper that keeps unknown raw values of SPA enumerations, and
//! the raw-value traits that the SPA enumerations implement.

use vstd::prelude::*;

verus! {

/// An SPA enumeration whose values travel as `u32` on the wire.
pub trait SpaRawEnum: Sized + Copy {
    /// The variant that carries the raw value, if any.
    spec fn spec_from_raw(raw: u32) -> Option<Self>;

    /// The raw value of a variant.
    spec fn spec_to_raw(self) -> u32;

    fn from_raw_value(raw: u32) -> (r: Option<Self>)
        ensures
            r == Self::spec_from_raw(raw),
    ;

    fn to_raw_value(&self) -> (r: u32)
        ensures
            r == self.spec_to_raw(),
    ;

    /// The raw value of a variant maps back to that variant.
    proof fn lemma_raw_roundtrip(v: Self)
        ensures
            Self::spec_from_raw(v.spec_to_raw()) == Some(v),
    ;

    /// A raw value that names a variant is that variant's raw value.
    proof fn lemma_raw_inverse(raw: u32)
        ensures
            Self::spec_from_raw(raw) matches Some(v) ==> v.spec_to_raw() == raw,
    ;
}

/// An SPA enumeration whose values travel as `i32` on the wire.
pub trait SpaRawEnumI32: Sized + Copy {
    spec fn spec_from_raw(raw: i32) -> Option<Self>;

    spec fn spec_to_raw(self) -> i32;

    fn from_raw_value(raw: i32) -> (r: Option<Self>)
        ensures
            r == Self::spec_from_raw(raw),
    ;

    fn to_raw_value(&self) -> (r: i32)
        ensures
            r == self.spec_to_raw(),
    ;

    proof fn lemma_raw_roundtrip(v: Self)
        ensures
            Self::spec_from_raw(v.spec_to_raw()) == Some(v),
    ;

    proof fn lemma_raw_inverse(raw: i32)
        ensures
            Self::spec_from_raw(raw) matches Some(v) ==> v.spec_to_raw() == raw,
    ;
}

/// Wrapper type for enums that handles unknown variants gracefully.
#[derive(Debug, Clone, Copy)]
pub enum SpaEnum<T, RAW = u32> {
    Value(T),
    Unknown(RAW),
}

impl<T, RAW> SpaEnum<T, RAW> {
    /// The known value, if this is one.
    pub fn ok(self) -> (r: Option<T>)
        ensures
            r == (match self {
                SpaEnum::Value(v) => Some(v),
                SpaEnum::Unknown(_) => None::<T>,
            }),
    {
        match self {
            SpaEnum::Value(v) => Some(v),
            SpaEnum::Unknown(_) => None,
        }
    }

    /// The known value; an unknown raw value is a caller error.
    pub fn unwrap(self) -> (r: T)
        requires
            self is Value,
        ensures
            self == SpaEnum::<T, RAW>::Value(r),
    {
        match self {
            SpaEnum::Value(v) => v,
            SpaEnum::Unknown(_) => vstd::pervasive::unreached(),
        }
    }
}

/// The `SpaEnum` that a raw `u32` denotes.
pub open spec fn spec_spa_enum_from_raw<T: SpaRawEnum>(raw: u32) -> SpaEnum<T, u32> {
    match T::spec_from_raw(raw) {
        Some(v) => SpaEnum::Value(v),
        None => SpaEnum::Unknown(raw),
    }
}

/// The raw `u32` of a `SpaEnum`.
pub open spec fn spec_spa_enum_as_raw<T: SpaRawEnum>(e: SpaEnum<T, u32>) -> u32 {
    match e {
        SpaEnum::Value(v) => v.spec_to_raw(),
        SpaEnum::Unknown(raw) => raw,
    }
}

/// The `SpaEnum` that a raw `i32` denotes.
pub open spec fn spec_spa_enum_from_i32<T: SpaRawEnumI32>(raw: i32) -> SpaEnum<T, i32> {
    match T::spec_from_raw(raw) {
        Some(v) => SpaEnum::Value(v),
        None => SpaEnum::Unknown(raw),
    }
}

/// The raw `i32` of a `SpaEnum`.
pub open spec fn spec_spa_enum_as_i32<T: SpaRawEnumI32>(e: SpaEnum<T, i32>) -> i32 {
    match e {
        SpaEnum::Value(v) => v.spec_to_raw(),
        SpaEnum::Unknown(raw) => raw,
    }
}

impl<T: SpaRawEnum> SpaEnum<T, u32> {
    /// Classify a raw value: a known variant, or kept as unknown.
    pub fn from_raw(raw: u32) -> (r: Self)
        ensures
            r == spec_spa_enum_from_raw::<T>(raw),
    {
        match T::from_raw_value(raw) {
            Some(v) => SpaEnum::Value(v),
            None => SpaEnum::Unknown(raw),
        }
    }

    /// The raw value this stands for.
    pub fn as_raw(&self) -> (r: u32)
        ensures
            r == spec_spa_enum_as_raw(*self),
    {
        match self {
            SpaEnum::Value(v) => v.to_raw_value(),
            SpaEnum::Unknown(v) => *v,
        }
    }
}

impl<T: SpaRawEnumI32> SpaEnum<T, i32> {
    /// Classify a raw value: a known variant, or kept as unknown.
    pub fn from_i32(raw: i32) -> (r: Self)
        ensures
            r == spec_spa_enum_from_i32::<T>(raw),
    {
        match T::from_raw_value(raw) {
            Some(v) => SpaEnum::Value(v),
            None => SpaEnum::Unknown(raw),
        }
    }

    /// The raw value this stands for.
    pub fn as_raw(&self) -> (r: i32)
        ensures
            r == spec_spa_enum_as_i32(*self),
    {
        match self {
            SpaEnum::Value(v) => v.to_raw_value(),
            SpaEnum::Unknown(v) => *v,
        }
    }
}

/// Classifying a raw value and taking its raw value back gives the same raw
/// value, whether or not it names a known variant.
pub proof fn law_spa_enum_raw_roundtrip<T: SpaRawEnum>(raw: u32)
    ensures
        spec_spa_enum_as_raw(spec_spa_enum_from_raw::<T>(raw)) == raw,
{
    T::lemma_raw_inverse(raw);
}

/// A known variant survives the trip through its raw value.
pub proof fn law_spa_enum_value_roundtrip<T: SpaRawEnum>(v: T)
    ensures
        spec_spa_enum_from_raw::<T>(spec_spa_enum_as_raw(SpaEnum::<T, u32>::Value(v)))
            == SpaEnum::<T, u32>::Value(v),
{
    T::lemma_raw_roundtrip(v);
}

/// An unknown raw value survives the trip when no variant claims it.
pub proof fn law_spa_enum_unknown_roundtrip<T: SpaRawEnum>(raw: u32)
    requires
        T::spec_from_raw(raw) is None,
    ensures
        spec_spa_enum_from_raw::<T>(spec_spa_enum_as_raw(SpaEnum::<T, u32>::Unknown(raw)))
            == SpaEnum::<T, u32>::Unknown(raw),
{
}

/// The same two round trips for enumerations carried as `i32`.
pub proof fn law_spa_enum_i32_roundtrip<T: SpaRawEnumI32>(raw: i32, v: T)
    ensures
        spec_spa_enum_as_i32(spec_spa_enum_from_i32::<T>(raw)) == raw,
        spec_spa_enum_from_i32::<T>(spec_spa_enum_as_i32(SpaEnum::<T, i32>::Value(v)))
            == SpaEnum::<T, i32>::Value(v),
{
    T::lemma_raw_inverse(raw);
    T::lemma_raw_roundtrip(v);
}

} // verus!
