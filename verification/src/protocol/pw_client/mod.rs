//! The client object represents a client connect to the PipeWire server. Permissions of the client can be managed.
//!
//! The currently connected client always has the Client object with proxy id 1.

pub mod methods;
pub mod events;

use vstd::prelude::*;
use crate::pod_v2::deserialize::PodDeserializer;
use crate::protocol::codec::{spec_parse_message, Field, FieldKind};
use crate::protocol::{EventDeserialize, EventDeserializeError, HasInterface};
pub use events::ChangeMask;

verus! {

/// The id of the object.
pub const OBJECT_ID: u32 = 1;

/// Permissions of a client on an object.
#[derive(Debug, Clone, Copy, PartialEq, Eq, Structural)]
pub struct PermissionFlags {
    bits: u32,
}

impl PermissionFlags {
    pub const R: u32 = 256;

    pub const W: u32 = 128;

    pub const X: u32 = 64;

    pub const M: u32 = 8;

    pub const L: u32 = 16;

    /// The raw bits.
    pub closed spec fn spec_bits(self) -> u32 {
        self.bits
    }

    /// The raw bits.
    pub fn bits(&self) -> (r: u32)
        ensures
            r == self.spec_bits(),
    {
        self.bits
    }

    /// The flags with exactly the given bits, known or not.
    pub fn from_bits_retain(bits: u32) -> (r: Self)
        ensures
            r.spec_bits() == bits,
    {
        PermissionFlags { bits }
    }

    /// No flag.
    pub fn empty() -> (r: Self)
        ensures
            r.spec_bits() == 0,
    {
        PermissionFlags { bits: 0 }
    }

    /// The flags of both.
    pub fn union(self, other: Self) -> (r: Self)
        ensures
            r.spec_bits() == self.spec_bits() | other.spec_bits(),
    {
        PermissionFlags { bits: self.bits | other.bits }
    }

    /// Every flag of `other` is set.
    pub fn contains(&self, other: Self) -> (r: bool)
        ensures
            r == (self.spec_bits() & other.spec_bits() == other.spec_bits()),
    {
        self.bits & other.bits == other.bits
    }
}

/// A permission of the client on an object.
#[derive(Debug, Clone, Copy)]
pub struct Permission {
    pub id: u32,
    pub permissions: PermissionFlags,
}

impl Permission {
    /// The id and the permission bits.
    pub open spec fn view(self) -> (u32, u32) {
        (self.id, self.permissions.spec_bits())
    }
}

/// The ids and permission bits of permissions.
pub open spec fn spec_perms_view(p: Seq<Permission>) -> Seq<(u32, u32)> {
    p.map_values(|x: Permission| x.view())
}

/// The events of the interface.
#[derive(Debug, Clone)]
pub enum Event {
    Info(events::Info),
    Permissions(events::Permissions),
}

impl HasInterface for Event {
    const INTERFACE: &'static str = "Client";
}

impl Event {
    /// The opcode of the event.
    pub open spec fn spec_opcode(&self) -> u8 {
        match self {
            Event::Info(_) => 0,
            Event::Permissions(_) => 1,
        }
    }

    /// The fields of the event.
    pub open spec fn spec_fields(&self) -> Seq<Field> {
        match self {
            Event::Info(x) => x.spec_fields(),
            Event::Permissions(x) => x.spec_fields(),
        }
    }

    /// The kinds of the fields of the event with opcode `opcode`.
    pub open spec fn spec_kinds(opcode: u8) -> Seq<FieldKind> {
        match opcode {
            0 => <events::Info as EventDeserialize>::spec_kinds(),
            1 => <events::Permissions as EventDeserialize>::spec_kinds(),
            _ => Seq::empty(),
        }
    }

    /// The name of the event with opcode `opcode`.
    pub open spec fn spec_name(opcode: u8) -> &'static str {
        match opcode {
            0 => "Info",
            1 => "Permissions",
            _ => "",
        }
    }

    /// Read the event with opcode `opcode` from its pod.
    pub fn deserialize(opcode: u8, pod: &mut PodDeserializer, fds: &[i32]) -> (r: Result<
        Self,
        EventDeserializeError,
    >)
        requires
            old(pod).valid(),
            opcode < 2,
        ensures
            match spec_parse_message(Event::spec_kinds(opcode), old(pod).view()) {
                Ok(fs) => r matches Ok(e) && e.spec_opcode() == opcode && e.spec_fields() == fs,
                Err(error) => r == Err::<Event, EventDeserializeError>(
                    EventDeserializeError {
                        interface: Event::INTERFACE,
                        event: Event::spec_name(opcode),
                        error,
                    },
                ),
            },
    {
        match opcode {
            0 => match events::Info::deserialize(pod, fds) {
                Ok(x) => Ok(Event::Info(x)),
                Err(error) => Err(
                    EventDeserializeError { interface: Event::INTERFACE, event: "Info", error },
                ),
            },
            1 => match events::Permissions::deserialize(pod, fds) {
                Ok(x) => Ok(Event::Permissions(x)),
                Err(error) => Err(
                    EventDeserializeError { interface: Event::INTERFACE, event: "Permissions", error },
                ),
            },
            _ => vstd::pervasive::unreached(),
        }
    }
}
} // verus!
