//! SPA pods: reading them from bytes and writing them into bytes.

pub mod format;
pub mod deserialize;
pub mod serialize;
pub mod laws;
pub mod kind;
pub mod obj_gen;
pub mod keys;

use vstd::prelude::*;

verus! {

/// An enumerated value in a pod.
#[derive(Debug, Clone, Copy, PartialEq, Eq, Structural)]
pub struct Id(pub u32);

impl From<u32> for Id {
    fn from(value: u32) -> (r: Self) {
        Id(value)
    }
}

impl vstd::std_specs::convert::FromSpecImpl<u32> for Id {
    open spec fn obeys_from_spec() -> bool {
        true
    }

    open spec fn from_spec(v: u32) -> Id {
        Id(v)
    }
}

impl<'a> From<&'a Id> for Id {
    fn from(value: &'a Id) -> (r: Self) {
        *value
    }
}

impl<'a> vstd::std_specs::convert::FromSpecImpl<&'a Id> for Id {
    open spec fn obeys_from_spec() -> bool {
        true
    }

    open spec fn from_spec(v: &'a Id) -> Id {
        *v
    }
}

} // verus!
