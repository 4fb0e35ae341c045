//! The core object: the connection to the server, always with id 0.

pub mod methods;
pub mod events;

use vstd::prelude::*;
use crate::pod_v2::deserialize::PodDeserializer;
use crate::protocol::codec::{spec_parse_message, Field, FieldKind};
use crate::protocol::{EventDeserialize, EventDeserializeError, HasInterface};
pub use events::{ChangeMask, MemblockFlags};

verus! {

/// The id of the object.
pub const OBJECT_ID: u32 = 0;

/// The events of the interface.
#[derive(Debug, Clone)]
pub enum Event {
    Info(events::Info),
    Done(events::Done),
    Ping(events::Ping),
    Error(events::Error),
    RemoveId(events::RemoveId),
    BoundId(events::BoundId),
    AddMem(events::AddMem),
    RemoveMem(events::RemoveMem),
    BoundProps(events::BoundProps),
}

impl HasInterface for Event {
    const INTERFACE: &'static str = "Core";
}

impl Event {
    /// The opcode of the event.
    pub open spec fn spec_opcode(&self) -> u8 {
        match self {
            Event::Info(_) => 0,
            Event::Done(_) => 1,
            Event::Ping(_) => 2,
            Event::Error(_) => 3,
            Event::RemoveId(_) => 4,
            Event::BoundId(_) => 5,
            Event::AddMem(_) => 6,
            Event::RemoveMem(_) => 7,
            Event::BoundProps(_) => 8,
        }
    }

    /// The fields of the event.
    pub open spec fn spec_fields(&self) -> Seq<Field> {
        match self {
            Event::Info(x) => x.spec_fields(),
            Event::Done(x) => x.spec_fields(),
            Event::Ping(x) => x.spec_fields(),
            Event::Error(x) => x.spec_fields(),
            Event::RemoveId(x) => x.spec_fields(),
            Event::BoundId(x) => x.spec_fields(),
            Event::AddMem(x) => x.spec_fields(),
            Event::RemoveMem(x) => x.spec_fields(),
            Event::BoundProps(x) => x.spec_fields(),
        }
    }

    /// The file descriptors the event names are those at their indices in
    /// `fds`.
    pub open spec fn spec_resolved(&self, fds: Seq<i32>) -> bool {
        match self {
            Event::AddMem(x) => x.spec_resolved(fds),
            _ => true,
        }
    }

    /// The kinds of the fields of the event with opcode `opcode`.
    pub open spec fn spec_kinds(opcode: u8) -> Seq<FieldKind> {
        match opcode {
            0 => <events::Info as EventDeserialize>::spec_kinds(),
            1 => <events::Done as EventDeserialize>::spec_kinds(),
            2 => <events::Ping as EventDeserialize>::spec_kinds(),
            3 => <events::Error as EventDeserialize>::spec_kinds(),
            4 => <events::RemoveId as EventDeserialize>::spec_kinds(),
            5 => <events::BoundId as EventDeserialize>::spec_kinds(),
            6 => <events::AddMem as EventDeserialize>::spec_kinds(),
            7 => <events::RemoveMem as EventDeserialize>::spec_kinds(),
            8 => <events::BoundProps as EventDeserialize>::spec_kinds(),
            _ => Seq::empty(),
        }
    }

    /// The name of the event with opcode `opcode`.
    pub open spec fn spec_name(opcode: u8) -> &'static str {
        match opcode {
            0 => "Info",
            1 => "Done",
            2 => "Ping",
            3 => "Error",
            4 => "RemoveId",
            5 => "BoundId",
            6 => "AddMem",
            7 => "RemoveMem",
            8 => "BoundProps",
            _ => "",
        }
    }

    /// Read the event with opcode `opcode` from its pod.
    pub fn deserialize(opcode: u8, pod: &mut PodDeserializer, fds: &[i32]) -> (r: Result<
        Self,
        EventDeserializeError,
    >)
        requires
            old(pod).valid(),
            opcode < 9,
        ensures
            match spec_parse_message(Event::spec_kinds(opcode), old(pod).view()) {
                Ok(fs) => r matches Ok(e) && e.spec_opcode() == opcode && e.spec_fields() == fs
                    && e.spec_resolved(fds@),
                Err(error) => r == Err::<Event, EventDeserializeError>(
                    EventDeserializeError {
                        interface: Event::INTERFACE,
                        event: Event::spec_name(opcode),
                        error,
                    },
                ),
            },
    {
        match opcode {
            0 => match events::Info::deserialize(pod, fds) {
                Ok(x) => Ok(Event::Info(x)),
                Err(error) => Err(
                    EventDeserializeError { interface: Event::INTERFACE, event: "Info", error },
                ),
            },
            1 => match events::Done::deserialize(pod, fds) {
                Ok(x) => Ok(Event::Done(x)),
                Err(error) => Err(
                    EventDeserializeError { interface: Event::INTERFACE, event: "Done", error },
                ),
            },
            2 => match events::Ping::deserialize(pod, fds) {
                Ok(x) => Ok(Event::Ping(x)),
                Err(error) => Err(
                    EventDeserializeError { interface: Event::INTERFACE, event: "Ping", error },
                ),
            },
            3 => match events::Error::deserialize(pod, fds) {
                Ok(x) => Ok(Event::Error(x)),
                Err(error) => Err(
                    EventDeserializeError { interface: Event::INTERFACE, event: "Error", error },
                ),
            },
            4 => match events::RemoveId::deserialize(pod, fds) {
                Ok(x) => Ok(Event::RemoveId(x)),
                Err(error) => Err(
                    EventDeserializeError { interface: Event::INTERFACE, event: "RemoveId", error },
                ),
            },
            5 => match events::BoundId::deserialize(pod, fds) {
                Ok(x) => Ok(Event::BoundId(x)),
                Err(error) => Err(
                    EventDeserializeError { interface: Event::INTERFACE, event: "BoundId", error },
                ),
            },
            6 => match events::AddMem::deserialize(pod, fds) {
                Ok(x) => Ok(Event::AddMem(x)),
                Err(error) => Err(
                    EventDeserializeError { interface: Event::INTERFACE, event: "AddMem", error },
                ),
            },
            7 => match events::RemoveMem::deserialize(pod, fds) {
                Ok(x) => Ok(Event::RemoveMem(x)),
                Err(error) => Err(
                    EventDeserializeError { interface: Event::INTERFACE, event: "RemoveMem", error },
                ),
            },
            8 => match events::BoundProps::deserialize(pod, fds) {
                Ok(x) => Ok(Event::BoundProps(x)),
                Err(error) => Err(
                    EventDeserializeError { interface: Event::INTERFACE, event: "BoundProps", error },
                ),
            },
            _ => vstd::pervasive::unreached(),
        }
    }
}
} // verus!
