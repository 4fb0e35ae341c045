//! Requests of the interface.
use vstd::prelude::*;

use crate::protocol::codec::{Field, FieldWriter};
use crate::protocol::{HasOpCode, MethodSerialize};

verus! {
/// Listen to the events of the object; only a local request, never sent.
#[derive(Debug, Clone)]
pub struct AddListener {}

impl HasOpCode for AddListener {
    const OPCODE: u8 = 0;
}

/// Bind to the global object `id`, as the new proxy `new_id`.
#[derive(Debug, Clone)]
pub struct Bind {
    /// The global id to bind to
    pub id: u32,
    /// The interface to bind with
    pub interface: String,
    pub version: u32,
    /// The id of the new proxy
    pub new_id: u32,
}

impl MethodSerialize for Bind {
    const OPCODE: u8 = 1;

    open spec fn spec_fields(&self) -> Seq<Field> {
        seq![Field::Int(self.id), Field::Str(self.interface@), Field::Int(self.version), Field::Int(self.new_id)]
    }

    fn serialize(&self) -> (r: Vec<u8>) {
        let mut w = FieldWriter::new();
        w.write_u32(self.id);
        w.write_str(&self.interface);
        w.write_u32(self.version);
        w.write_u32(self.new_id);
        assert(w.fields() =~= self.spec_fields());
        w.finish()
    }
}

/// Destroy the global object `id`.
#[derive(Debug, Clone)]
pub struct Destroy {
    pub id: u32,
}

impl MethodSerialize for Destroy {
    const OPCODE: u8 = 2;

    open spec fn spec_fields(&self) -> Seq<Field> {
        seq![Field::Int(self.id)]
    }

    fn serialize(&self) -> (r: Vec<u8>) {
        let mut w = FieldWriter::new();
        w.write_u32(self.id);
        assert(w.fields() =~= self.spec_fields());
        w.finish()
    }
}


/// The opcodes of the interface's methods, as numbers.
pub proof fn lemma_opcodes()
    ensures
        <Bind as MethodSerialize>::OPCODE == 1,
        <Destroy as MethodSerialize>::OPCODE == 2,
{
}


/// Writing `Bind` puts its fields on the wire in this order: `id`, `interface`, `version`, `new_id`.
pub proof fn law_bind_wire_order(x: Bind)
    ensures
        x.spec_fields().len() == 4,
        x.spec_fields()[0] == Field::Int(x.id),
        x.spec_fields()[1] == Field::Str(x.interface@),
        x.spec_fields()[2] == Field::Int(x.version),
        x.spec_fields()[3] == Field::Int(x.new_id),
{
}

/// Writing `Destroy` puts its fields on the wire in this order: `id`.
pub proof fn law_destroy_wire_order(x: Destroy)
    ensures
        x.spec_fields().len() == 1,
        x.spec_fields()[0] == Field::Int(x.id),
{
}

} // verus!
