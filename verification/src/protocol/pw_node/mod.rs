//! A node: a processing element of the graph, with ports and parameters.

pub mod methods;
pub mod events;

use vstd::prelude::*;
use crate::pod_v2::deserialize::PodDeserializer;
use crate::protocol::codec::{spec_parse_message, Field, FieldKind};
use crate::protocol::{EventDeserialize, EventDeserializeError, HasInterface};
pub use events::ChangeMask;

verus! {

/// The events of the interface.
#[derive(Debug, Clone)]
pub enum Event {
    Info(events::Info),
    Param(events::Param),
}

impl HasInterface for Event {
    const INTERFACE: &'static str = "Node";
}

impl Event {
    /// The opcode of the event.
    pub open spec fn spec_opcode(&self) -> u8 {
        match self {
            Event::Info(_) => 0,
            Event::Param(_) => 1,
        }
    }

    /// The fields of the event.
    pub open spec fn spec_fields(&self) -> Seq<Field> {
        match self {
            Event::Info(x) => x.spec_fields(),
            Event::Param(x) => x.spec_fields(),
        }
    }

    /// Each parameter id of the event is the one its raw value denotes.
    pub open spec fn spec_resolved(&self, fds: Seq<i32>) -> bool {
        match self {
            Event::Info(x) => x.spec_resolved(fds),
            Event::Param(x) => x.spec_resolved(fds),
        }
    }

    /// The kinds of the fields of the event with opcode `opcode`.
    pub open spec fn spec_kinds(opcode: u8) -> Seq<FieldKind> {
        match opcode {
            0 => <events::Info as EventDeserialize>::spec_kinds(),
            1 => <events::Param as EventDeserialize>::spec_kinds(),
            _ => Seq::empty(),
        }
    }

    /// The name of the event with opcode `opcode`.
    pub open spec fn spec_name(opcode: u8) -> &'static str {
        match opcode {
            0 => "Info",
            1 => "Param",
            _ => "",
        }
    }

    /// Read the event with opcode `opcode` from its pod.
    pub fn deserialize(opcode: u8, pod: &mut PodDeserializer, fds: &[i32]) -> (r: Result<
        Self,
        EventDeserializeError,
    >)
        requires
            old(pod).valid(),
            opcode < 2,
        ensures
            match spec_parse_message(Event::spec_kinds(opcode), old(pod).view()) {
                Ok(fs) => r matches Ok(e) && e.spec_opcode() == opcode && e.spec_fields() == fs
                    && e.spec_resolved(fds@),
                Err(error) => r == Err::<Event, EventDeserializeError>(
                    EventDeserializeError {
                        interface: Event::INTERFACE,
                        event: Event::spec_name(opcode),
                        error,
                    },
                ),
            },
    {
        match opcode {
            0 => match events::Info::deserialize(pod, fds) {
                Ok(x) => Ok(Event::Info(x)),
                Err(error) => Err(
                    EventDeserializeError { interface: Event::INTERFACE, event: "Info", error },
                ),
            },
            1 => match events::Param::deserialize(pod, fds) {
                Ok(x) => Ok(Event::Param(x)),
                Err(error) => Err(
                    EventDeserializeError { interface: Event::INTERFACE, event: "Param", error },
                ),
            },
            _ => vstd::pervasive::unreached(),
        }
    }
}
} // verus!
