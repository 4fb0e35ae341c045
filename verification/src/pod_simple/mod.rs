//! The plain pod interface: readers that answer `None` for a pod of another
//! type, a builder of primitive pods, and a structured dump of a pod tree.

pub mod deserialize;
pub mod serialize;
pub mod dbg_print;
pub mod render;
