//! Verified model of the SPA POD wire format and the PipeWire native protocol
//! messages built on top of it.

pub mod bytes;
pub mod spa_enum;
pub mod spa_types;
pub mod pod_v2;
pub mod pod_simple;
pub mod protocol;
pub mod connection;
pub mod context;
pub mod proxy;
pub mod global_list;
pub mod state;
pub mod pod;
pub mod getter_plan;
