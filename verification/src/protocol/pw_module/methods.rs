//! Requests of the interface.
use vstd::prelude::*;

use crate::protocol::HasOpCode;

verus! {
/// Listen to the events of the object; only a local request, never sent.
#[derive(Debug, Clone)]
pub struct AddListener {}

impl HasOpCode for AddListener {
    const OPCODE: u8 = 0;
}

} // verus!
