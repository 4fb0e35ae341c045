//! A link between an output port and an input port.

pub mod methods;
pub mod events;

use vstd::prelude::*;
use crate::pod_v2::deserialize::PodDeserializer;
use crate::protocol::codec::{spec_parse_message, Field, FieldKind};
use crate::protocol::{EventDeserialize, EventDeserializeError, HasInterface};
pub use events::ChangeMask;

verus! {

/// The events of the interface.
#[derive(Debug, Clone)]
pub enum Event {
    Info(events::Info),
}

impl HasInterface for Event {
    const INTERFACE: &'static str = "Link";
}

impl Event {
    /// The opcode of the event.
    pub open spec fn spec_opcode(&self) -> u8 {
        match self {
            Event::Info(_) => 0,
        }
    }

    /// The fields of the event.
    pub open spec fn spec_fields(&self) -> Seq<Field> {
        match self {
            Event::Info(x) => x.spec_fields(),
        }
    }

    /// The kinds of the fields of the event with opcode `opcode`.
    pub open spec fn spec_kinds(opcode: u8) -> Seq<FieldKind> {
        match opcode {
            0 => <events::Info as EventDeserialize>::spec_kinds(),
            _ => Seq::empty(),
        }
    }

    /// The name of the event with opcode `opcode`.
    pub open spec fn spec_name(opcode: u8) -> &'static str {
        match opcode {
            0 => "Info",
            _ => "",
        }
    }

    /// Read the event with opcode `opcode` from its pod.
    pub fn deserialize(opcode: u8, pod: &mut PodDeserializer, fds: &[i32]) -> (r: Result<
        Self,
        EventDeserializeError,
    >)
        requires
            old(pod).valid(),
            opcode < 1,
        ensures
            match spec_parse_message(Event::spec_kinds(opcode), old(pod).view()) {
                Ok(fs) => r matches Ok(e) && e.spec_opcode() == opcode && e.spec_fields() == fs,
                Err(error) => r == Err::<Event, EventDeserializeError>(
                    EventDeserializeError {
                        interface: Event::INTERFACE,
                        event: Event::spec_name(opcode),
                        error,
                    },
                ),
            },
    {
        match opcode {
            0 => match events::Info::deserialize(pod, fds) {
                Ok(x) => Ok(Event::Info(x)),
                Err(error) => Err(
                    EventDeserializeError { interface: Event::INTERFACE, event: "Info", error },
                ),
            },
            _ => vstd::pervasive::unreached(),
        }
    }
}
} // verus!
