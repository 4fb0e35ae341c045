//! A client node: a node whose processing the client does.

pub mod laws;
pub mod methods;
pub mod events;

use vstd::prelude::*;
use crate::pod_v2::deserialize::PodDeserializer;
use crate::protocol::codec::{spec_parse_message, Field, FieldKind};
use crate::protocol::{EventDeserialize, EventDeserializeError, HasInterface};

verus! {

/// The events of the interface.
#[derive(Debug, Clone)]
pub enum Event {
    Transport(events::Transport),
    SetParam(events::SetParam),
    SetIo(events::SetIo),
    Event(events::Event),
    Command(events::Command),
    AddPort(events::AddPort),
    RemovePort(events::RemovePort),
    PortSetParam(events::PortSetParam),
    PortUseBuffers(events::PortUseBuffers),
    PortSetIo(events::PortSetIo),
    SetActivation(events::SetActivation),
    PortSetMixInfo(events::PortSetMixInfo),
}

impl HasInterface for Event {
    const INTERFACE: &'static str = "ClientNode";
}

impl Event {
    /// The opcode of the event.
    pub open spec fn spec_opcode(&self) -> u8 {
        match self {
            Event::Transport(_) => 0,
            Event::SetParam(_) => 1,
            Event::SetIo(_) => 2,
            Event::Event(_) => 3,
            Event::Command(_) => 4,
            Event::AddPort(_) => 5,
            Event::RemovePort(_) => 6,
            Event::PortSetParam(_) => 7,
            Event::PortUseBuffers(_) => 8,
            Event::PortSetIo(_) => 9,
            Event::SetActivation(_) => 10,
            Event::PortSetMixInfo(_) => 11,
        }
    }

    /// The fields of the event; the event that hands buffers to a port is
    /// read by its own view and has none here.
    pub open spec fn spec_fields(&self) -> Seq<Field> {
        match self {
            Event::Transport(x) => x.spec_fields(),
            Event::SetParam(x) => x.spec_fields(),
            Event::SetIo(x) => x.spec_fields(),
            Event::Event(x) => x.spec_fields(),
            Event::Command(x) => x.spec_fields(),
            Event::AddPort(x) => x.spec_fields(),
            Event::RemovePort(x) => x.spec_fields(),
            Event::PortSetParam(x) => x.spec_fields(),
            Event::PortUseBuffers(_) => Seq::empty(),
            Event::PortSetIo(x) => x.spec_fields(),
            Event::SetActivation(x) => x.spec_fields(),
            Event::PortSetMixInfo(x) => x.spec_fields(),
        }
    }

    /// The file descriptors the event names are those at their indices in
    /// `fds`.
    pub open spec fn spec_resolved(&self, fds: Seq<i32>) -> bool {
        match self {
            Event::Transport(x) => x.spec_resolved(fds),
            Event::SetActivation(x) => x.spec_resolved(fds),
            _ => true,
        }
    }

    /// The kinds of the fields of the event with opcode `opcode`.
    pub open spec fn spec_kinds(opcode: u8) -> Seq<FieldKind> {
        match opcode {
            0 => <events::Transport as EventDeserialize>::spec_kinds(),
            1 => <events::SetParam as EventDeserialize>::spec_kinds(),
            2 => <events::SetIo as EventDeserialize>::spec_kinds(),
            3 => <events::Event as EventDeserialize>::spec_kinds(),
            4 => <events::Command as EventDeserialize>::spec_kinds(),
            5 => <events::AddPort as EventDeserialize>::spec_kinds(),
            6 => <events::RemovePort as EventDeserialize>::spec_kinds(),
            7 => <events::PortSetParam as EventDeserialize>::spec_kinds(),
            9 => <events::PortSetIo as EventDeserialize>::spec_kinds(),
            10 => <events::SetActivation as EventDeserialize>::spec_kinds(),
            11 => <events::PortSetMixInfo as EventDeserialize>::spec_kinds(),
            _ => Seq::empty(),
        }
    }

    /// The name of the event with opcode `opcode`.
    pub open spec fn spec_name(opcode: u8) -> &'static str {
        match opcode {
            0 => "Transport",
            1 => "SetParam",
            2 => "SetIo",
            3 => "Event",
            4 => "Command",
            5 => "AddPort",
            6 => "RemovePort",
            7 => "PortSetParam",
            8 => "PortUseBuffers",
            9 => "PortSetIo",
            10 => "SetActivation",
            11 => "PortSetMixInfo",
            _ => "",
        }
    }

    /// Read the event with opcode `opcode` from its pod.
    pub fn deserialize(opcode: u8, pod: &mut PodDeserializer, fds: &[i32]) -> (r: Result<
        Self,
        EventDeserializeError,
    >)
        requires
            old(pod).valid(),
            opcode < 12,
        ensures
            opcode == 8 ==> match events::spec_parse_use_buffers(old(pod).view()) {
                Ok(v) => r matches Ok(Event::PortUseBuffers(x)) && x.view() == v,
                Err(error) => r == Err::<Event, EventDeserializeError>(
                    EventDeserializeError {
                        interface: Event::INTERFACE,
                        event: Event::spec_name(opcode),
                        error,
                    },
                ),
            },
            opcode != 8 ==> match spec_parse_message(Event::spec_kinds(opcode), old(pod).view()) {
                Ok(fs) => r matches Ok(e) && e.spec_opcode() == opcode && e.spec_fields() == fs
                    && e.spec_resolved(fds@),
                Err(error) => r == Err::<Event, EventDeserializeError>(
                    EventDeserializeError {
                        interface: Event::INTERFACE,
                        event: Event::spec_name(opcode),
                        error,
                    },
                ),
            },
    {
        match opcode {
            0 => match events::Transport::deserialize(pod, fds) {
                Ok(x) => Ok(Event::Transport(x)),
                Err(error) => Err(
                    EventDeserializeError { interface: Event::INTERFACE, event: "Transport", error },
                ),
            },
            1 => match events::SetParam::deserialize(pod, fds) {
                Ok(x) => Ok(Event::SetParam(x)),
                Err(error) => Err(
                    EventDeserializeError { interface: Event::INTERFACE, event: "SetParam", error },
                ),
            },
            2 => match events::SetIo::deserialize(pod, fds) {
                Ok(x) => Ok(Event::SetIo(x)),
                Err(error) => Err(
                    EventDeserializeError { interface: Event::INTERFACE, event: "SetIo", error },
                ),
            },
            3 => match events::Event::deserialize(pod, fds) {
                Ok(x) => Ok(Event::Event(x)),
                Err(error) => Err(
                    EventDeserializeError { interface: Event::INTERFACE, event: "Event", error },
                ),
            },
            4 => match events::Command::deserialize(pod, fds) {
                Ok(x) => Ok(Event::Command(x)),
                Err(error) => Err(
                    EventDeserializeError { interface: Event::INTERFACE, event: "Command", error },
                ),
            },
            5 => match events::AddPort::deserialize(pod, fds) {
                Ok(x) => Ok(Event::AddPort(x)),
                Err(error) => Err(
                    EventDeserializeError { interface: Event::INTERFACE, event: "AddPort", error },
                ),
            },
            6 => match events::RemovePort::deserialize(pod, fds) {
                Ok(x) => Ok(Event::RemovePort(x)),
                Err(error) => Err(
                    EventDeserializeError { interface: Event::INTERFACE, event: "RemovePort", error },
                ),
            },
            7 => match events::PortSetParam::deserialize(pod, fds) {
                Ok(x) => Ok(Event::PortSetParam(x)),
                Err(error) => Err(
                    EventDeserializeError { interface: Event::INTERFACE, event: "PortSetParam", error },
                ),
            },
            8 => match events::PortUseBuffers::deserialize(pod, fds) {
                Ok(x) => Ok(Event::PortUseBuffers(x)),
                Err(error) => Err(
                    EventDeserializeError { interface: Event::INTERFACE, event: "PortUseBuffers", error },
                ),
            },
            9 => match events::PortSetIo::deserialize(pod, fds) {
                Ok(x) => Ok(Event::PortSetIo(x)),
                Err(error) => Err(
                    EventDeserializeError { interface: Event::INTERFACE, event: "PortSetIo", error },
                ),
            },
            10 => match events::SetActivation::deserialize(pod, fds) {
                Ok(x) => Ok(Event::SetActivation(x)),
                Err(error) => Err(
                    EventDeserializeError { interface: Event::INTERFACE, event: "SetActivation", error },
                ),
            },
            11 => match events::PortSetMixInfo::deserialize(pod, fds) {
                Ok(x) => Ok(Event::PortSetMixInfo(x)),
                Err(error) => Err(
                    EventDeserializeError { interface: Event::INTERFACE, event: "PortSetMixInfo", error },
                ),
            },
            _ => vstd::pervasive::unreached(),
        }
    }
}
} // verus!
