//! Pods as trees of values: a value read from a pod holds every nested pod
//! as a value of its own, and parameter objects are built as such trees.

pub mod value;
pub mod params;
pub mod permissions;
pub mod dictionary;
