//! Requests of the interface.
use vstd::prelude::*;

use crate::protocol::codec::{Field, FieldWriter};
use crate::protocol::{spec_dict_view, HasOpCode, MethodSerialize, PwDictionary};

verus! {
/// Listen to the events of the core; only a local request, never sent.
#[derive(Debug, Clone)]
pub struct AddListener {}

impl HasOpCode for AddListener {
    const OPCODE: u8 = 0;
}

/// Start a conversation with the server. This will send
/// the core info and will destroy all resources for the client
/// (except the core and client resource).
#[derive(Debug, Clone)]
pub struct Hello {
    pub version: u32,
}

impl MethodSerialize for Hello {
    const OPCODE: u8 = 1;

    open spec fn spec_fields(&self) -> Seq<Field> {
        seq![Field::Int(self.version)]
    }

    fn serialize(&self) -> (r: Vec<u8>) {
        let mut w = FieldWriter::new();
        w.write_u32(self.version);
        assert(w.fields() =~= self.spec_fields());
        w.finish()
    }
}

/// Do server roundtrip: ask the server to emit the done event with `seq`.
///
/// Since methods are handled in-order and events are delivered
/// in-order, this can be used as a barrier to ensure all previous
/// methods and the resulting events have been handled.
#[derive(Debug, Clone)]
pub struct Sync {
    pub id: u32,
    pub seq: u32,
}

impl MethodSerialize for Sync {
    const OPCODE: u8 = 2;

    open spec fn spec_fields(&self) -> Seq<Field> {
        seq![Field::Int(self.id), Field::Int(self.seq)]
    }

    fn serialize(&self) -> (r: Vec<u8>) {
        let mut w = FieldWriter::new();
        w.write_u32(self.id);
        w.write_u32(self.seq);
        assert(w.fields() =~= self.spec_fields());
        w.finish()
    }
}

/// Reply to a server ping event, with the id and seq of the ping.
#[derive(Debug, Clone)]
pub struct Pong {
    pub id: u32,
    /// The seq number received in the ping event
    pub seq: u32,
}

impl MethodSerialize for Pong {
    const OPCODE: u8 = 3;

    open spec fn spec_fields(&self) -> Seq<Field> {
        seq![Field::Int(self.id), Field::Int(self.seq)]
    }

    fn serialize(&self) -> (r: Vec<u8>) {
        let mut w = FieldWriter::new();
        w.write_u32(self.id);
        w.write_u32(self.seq);
        assert(w.fields() =~= self.spec_fields());
        w.finish()
    }
}

/// An error occurred in an object on the client.
#[derive(Debug, Clone)]
pub struct Error {
    /// The id of the proxy that is in error.
    pub id: u32,
    /// A seq number from the failing request (if any)
    pub seq: u32,
    /// A negative errno style error code
    pub res: u32,
    /// An error message
    pub message: String,
}

impl MethodSerialize for Error {
    const OPCODE: u8 = 4;

    open spec fn spec_fields(&self) -> Seq<Field> {
        seq![Field::Int(self.id), Field::Int(self.seq), Field::Int(self.res), Field::Str(self.message@)]
    }

    fn serialize(&self) -> (r: Vec<u8>) {
        let mut w = FieldWriter::new();
        w.write_u32(self.id);
        w.write_u32(self.seq);
        w.write_u32(self.res);
        w.write_str(&self.message);
        assert(w.fields() =~= self.spec_fields());
        w.finish()
    }
}

/// Bind to the registry object and list the available objects on the server.
#[derive(Debug, Clone)]
pub struct GetRegistry {
    /// The version of the registry interface used on the client
    pub version: u32,
    /// The id of the new proxy with the registry interface
    pub new_id: u32,
}

impl MethodSerialize for GetRegistry {
    const OPCODE: u8 = 5;

    open spec fn spec_fields(&self) -> Seq<Field> {
        seq![Field::Int(self.version), Field::Int(self.new_id)]
    }

    fn serialize(&self) -> (r: Vec<u8>) {
        let mut w = FieldWriter::new();
        w.write_u32(self.version);
        w.write_u32(self.new_id);
        assert(w.fields() =~= self.spec_fields());
        w.finish()
    }
}

/// Create a new object on the PipeWire server from a factory.
#[derive(Debug, Clone)]
pub struct CreateObject {
    pub factory_name: String,
    pub interface: String,
    pub version: u32,
    pub properties: PwDictionary,
    pub new_id: u32,
}

impl MethodSerialize for CreateObject {
    const OPCODE: u8 = 6;

    open spec fn spec_fields(&self) -> Seq<Field> {
        seq![Field::Str(self.factory_name@), Field::Str(self.interface@), Field::Int(self.version), Field::Dict(spec_dict_view(self.properties@)), Field::Int(self.new_id)]
    }

    fn serialize(&self) -> (r: Vec<u8>) {
        let mut w = FieldWriter::new();
        w.write_str(&self.factory_name);
        w.write_str(&self.interface);
        w.write_u32(self.version);
        w.write_dict(&self.properties);
        w.write_u32(self.new_id);
        assert(w.fields() =~= self.spec_fields());
        w.finish()
    }
}

/// Destroy the server resource with id `id`.
#[derive(Debug, Clone)]
pub struct Destroy {
    pub id: u32,
}

impl MethodSerialize for Destroy {
    const OPCODE: u8 = 7;

    open spec fn spec_fields(&self) -> Seq<Field> {
        seq![Field::Int(self.id)]
    }

    fn serialize(&self) -> (r: Vec<u8>) {
        let mut w = FieldWriter::new();
        w.write_u32(self.id);
        assert(w.fields() =~= self.spec_fields());
        w.finish()
    }
}


/// The opcodes of the interface's methods, as numbers.
pub proof fn lemma_opcodes()
    ensures
        <Hello as MethodSerialize>::OPCODE == 1,
        <Sync as MethodSerialize>::OPCODE == 2,
        <Pong as MethodSerialize>::OPCODE == 3,
        <Error as MethodSerialize>::OPCODE == 4,
        <GetRegistry as MethodSerialize>::OPCODE == 5,
        <CreateObject as MethodSerialize>::OPCODE == 6,
        <Destroy as MethodSerialize>::OPCODE == 7,
{
}


/// Writing `Hello` puts its fields on the wire in this order: `version`.
pub proof fn law_hello_wire_order(x: Hello)
    ensures
        x.spec_fields().len() == 1,
        x.spec_fields()[0] == Field::Int(x.version),
{
}

/// Writing `Sync` puts its fields on the wire in this order: `id`, `seq`.
pub proof fn law_sync_wire_order(x: Sync)
    ensures
        x.spec_fields().len() == 2,
        x.spec_fields()[0] == Field::Int(x.id),
        x.spec_fields()[1] == Field::Int(x.seq),
{
}

/// Writing `Pong` puts its fields on the wire in this order: `id`, `seq`.
pub proof fn law_pong_wire_order(x: Pong)
    ensures
        x.spec_fields().len() == 2,
        x.spec_fields()[0] == Field::Int(x.id),
        x.spec_fields()[1] == Field::Int(x.seq),
{
}

/// Writing `Error` puts its fields on the wire in this order: `id`, `seq`, `res`, `message`.
pub proof fn law_error_wire_order(x: Error)
    ensures
        x.spec_fields().len() == 4,
        x.spec_fields()[0] == Field::Int(x.id),
        x.spec_fields()[1] == Field::Int(x.seq),
        x.spec_fields()[2] == Field::Int(x.res),
        x.spec_fields()[3] == Field::Str(x.message@),
{
}

/// Writing `GetRegistry` puts its fields on the wire in this order: `version`, `new_id`.
pub proof fn law_get_registry_wire_order(x: GetRegistry)
    ensures
        x.spec_fields().len() == 2,
        x.spec_fields()[0] == Field::Int(x.version),
        x.spec_fields()[1] == Field::Int(x.new_id),
{
}

/// Writing `CreateObject` puts its fields on the wire in this order: `factory_name`, `interface`, `version`, `properties`, `new_id`.
pub proof fn law_create_object_wire_order(x: CreateObject)
    ensures
        x.spec_fields().len() == 5,
        x.spec_fields()[0] == Field::Str(x.factory_name@),
        x.spec_fields()[1] == Field::Str(x.interface@),
        x.spec_fields()[2] == Field::Int(x.version),
        x.spec_fields()[3] == Field::Dict(spec_dict_view(x.properties@)),
        x.spec_fields()[4] == Field::Int(x.new_id),
{
}

/// Writing `Destroy` puts its fields on the wire in this order: `id`.
pub proof fn law_destroy_wire_order(x: Destroy)
    ensures
        x.spec_fields().len() == 1,
        x.spec_fields()[0] == Field::Int(x.id),
{
}

} // verus!
