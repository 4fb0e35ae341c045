//! Requests of the interface.
use vstd::prelude::*;

use crate::pod_v2::Id;
use crate::pod_v2::deserialize::OwnedPod;
use crate::protocol::codec::{Field, FieldWriter};
use crate::protocol::{HasOpCode, MethodSerialize};
use crate::protocol::codec::spec_ids_view;

verus! {
/// Listen to the events of the object; only a local request, never sent.
#[derive(Debug, Clone)]
pub struct AddListener {}

impl HasOpCode for AddListener {
    const OPCODE: u8 = 0;
}

/// Subscribe to the parameters with the given ids.
#[derive(Debug, Clone)]
pub struct SubscribeParams {
    pub ids: Vec<Id>,
}

impl MethodSerialize for SubscribeParams {
    const OPCODE: u8 = 1;

    open spec fn spec_fields(&self) -> Seq<Field> {
        seq![Field::Ids(spec_ids_view(self.ids@))]
    }

    fn serialize(&self) -> (r: Vec<u8>) {
        let mut w = FieldWriter::new();
        w.write_id_array(&self.ids);
        assert(w.fields() =~= self.spec_fields());
        w.finish()
    }
}

/// Enumerate the parameters with id `id`, from `index`, at most `num` of them, that match `filter`.
#[derive(Debug, Clone)]
pub struct EnumParams {
    pub seq: i32,
    pub id: Id,
    pub index: u32,
    pub num: u32,
    pub filter: OwnedPod,
}

impl MethodSerialize for EnumParams {
    const OPCODE: u8 = 2;

    open spec fn spec_fields(&self) -> Seq<Field> {
        seq![Field::Int(self.seq as u32), Field::Id(self.id.0), Field::Int(self.index), Field::Int(self.num), Field::Pod(self.filter.view())]
    }

    fn serialize(&self) -> (r: Vec<u8>) {
        let mut w = FieldWriter::new();
        w.write_u32(self.seq as u32);
        w.write_id(self.id.0);
        w.write_u32(self.index);
        w.write_u32(self.num);
        w.write_pod(&self.filter);
        assert(w.fields() =~= self.spec_fields());
        w.finish()
    }
}

/// Set the parameter with id `id`.
#[derive(Debug, Clone)]
pub struct SetParam {
    pub id: Id,
    pub flags: u32,
    pub param: OwnedPod,
}

impl MethodSerialize for SetParam {
    const OPCODE: u8 = 3;

    open spec fn spec_fields(&self) -> Seq<Field> {
        seq![Field::Id(self.id.0), Field::Int(self.flags), Field::Pod(self.param.view())]
    }

    fn serialize(&self) -> (r: Vec<u8>) {
        let mut w = FieldWriter::new();
        w.write_id(self.id.0);
        w.write_u32(self.flags);
        w.write_pod(&self.param);
        assert(w.fields() =~= self.spec_fields());
        w.finish()
    }
}

/// Send a command to the node.
#[derive(Debug, Clone)]
pub struct SendCommand {
    pub command: OwnedPod,
}

impl MethodSerialize for SendCommand {
    const OPCODE: u8 = 4;

    open spec fn spec_fields(&self) -> Seq<Field> {
        seq![Field::Pod(self.command.view())]
    }

    fn serialize(&self) -> (r: Vec<u8>) {
        let mut w = FieldWriter::new();
        w.write_pod(&self.command);
        assert(w.fields() =~= self.spec_fields());
        w.finish()
    }
}


/// The opcodes of the interface's methods, as numbers.
pub proof fn lemma_opcodes()
    ensures
        <SubscribeParams as MethodSerialize>::OPCODE == 1,
        <EnumParams as MethodSerialize>::OPCODE == 2,
        <SetParam as MethodSerialize>::OPCODE == 3,
        <SendCommand as MethodSerialize>::OPCODE == 4,
{
}


/// Writing `SubscribeParams` puts its fields on the wire in this order: `ids`.
pub proof fn law_subscribe_params_wire_order(x: SubscribeParams)
    ensures
        x.spec_fields().len() == 1,
        x.spec_fields()[0] == Field::Ids(spec_ids_view(x.ids@)),
{
}

/// Writing `EnumParams` puts its fields on the wire in this order: `seq`, `id`, `index`, `num`, `filter`.
pub proof fn law_enum_params_wire_order(x: EnumParams)
    ensures
        x.spec_fields().len() == 5,
        x.spec_fields()[0] == Field::Int(x.seq as u32),
        x.spec_fields()[1] == Field::Id(x.id.0),
        x.spec_fields()[2] == Field::Int(x.index),
        x.spec_fields()[3] == Field::Int(x.num),
        x.spec_fields()[4] == Field::Pod(x.filter.view()),
{
}

/// Writing `SetParam` puts its fields on the wire in this order: `id`, `flags`, `param`.
pub proof fn law_set_param_wire_order(x: SetParam)
    ensures
        x.spec_fields().len() == 3,
        x.spec_fields()[0] == Field::Id(x.id.0),
        x.spec_fields()[1] == Field::Int(x.flags),
        x.spec_fields()[2] == Field::Pod(x.param.view()),
{
}

/// Writing `SendCommand` puts its fields on the wire in this order: `command`.
pub proof fn law_send_command_wire_order(x: SendCommand)
    ensures
        x.spec_fields().len() == 1,
        x.spec_fields()[0] == Field::Pod(x.command.view()),
{
}

} // verus!
