//! Requests of the interface.
use vstd::prelude::*;

use crate::protocol::codec::{Field, FieldWriter};
use crate::protocol::{spec_dict_view, HasOpCode, MethodSerialize, PwDictionary};

use crate::protocol::pw_client::{spec_perms_view, Permission};

verus! {
/// Listen to the events of the object; only a local request, never sent.
#[derive(Debug, Clone)]
pub struct AddListener {}

impl HasOpCode for AddListener {
    const OPCODE: u8 = 0;
}

/// Send an error to the client.
#[derive(Debug, Clone)]
pub struct Error {
    pub id: u32,
    pub res: u32,
    pub error: String,
}

impl MethodSerialize for Error {
    const OPCODE: u8 = 1;

    open spec fn spec_fields(&self) -> Seq<Field> {
        seq![Field::Int(self.id), Field::Int(self.res), Field::Str(self.error@)]
    }

    fn serialize(&self) -> (r: Vec<u8>) {
        let mut w = FieldWriter::new();
        w.write_u32(self.id);
        w.write_u32(self.res);
        w.write_str(&self.error);
        assert(w.fields() =~= self.spec_fields());
        w.finish()
    }
}

/// Update the properties of the client.
#[derive(Debug, Clone)]
pub struct UpdateProperties {
    pub properties: PwDictionary,
}

impl MethodSerialize for UpdateProperties {
    const OPCODE: u8 = 2;

    open spec fn spec_fields(&self) -> Seq<Field> {
        seq![Field::Dict(spec_dict_view(self.properties@))]
    }

    fn serialize(&self) -> (r: Vec<u8>) {
        let mut w = FieldWriter::new();
        w.write_dict(&self.properties);
        assert(w.fields() =~= self.spec_fields());
        w.finish()
    }
}

/// Ask for the permissions of the client, from `index`, at most `num` of them.
#[derive(Debug, Clone)]
pub struct GetPermissions {
    pub index: u32,
    pub num: u32,
}

impl MethodSerialize for GetPermissions {
    const OPCODE: u8 = 3;

    open spec fn spec_fields(&self) -> Seq<Field> {
        seq![Field::Int(self.index), Field::Int(self.num)]
    }

    fn serialize(&self) -> (r: Vec<u8>) {
        let mut w = FieldWriter::new();
        w.write_u32(self.index);
        w.write_u32(self.num);
        assert(w.fields() =~= self.spec_fields());
        w.finish()
    }
}

/// The fields of a list of permissions: each id and its bits.
pub open spec fn spec_perm_fields(p: Seq<(u32, u32)>) -> Seq<Field>
    decreases p.len(),
{
    if p.len() == 0 {
        Seq::empty()
    } else {
        spec_perm_fields(p.drop_last()) + seq![Field::Int(p.last().0), Field::Int(p.last().1)]
    }
}

/// Update the permissions of the client on objects.
#[derive(Debug, Clone)]
pub struct UpdatePermissions(pub Vec<Permission>);

impl MethodSerialize for UpdatePermissions {
    const OPCODE: u8 = 4;

    open spec fn spec_fields(&self) -> Seq<Field> {
        seq![Field::Int(self.0@.len() as u32)] + spec_perm_fields(spec_perms_view(self.0@))
    }

    fn serialize(&self) -> (r: Vec<u8>) {
        let mut w = FieldWriter::new();
        let n = self.0.len();
        w.write_u32(n as u32);
        let ghost pv = spec_perms_view(self.0@);
        let mut i: usize = 0;
        assert(pv.subrange(0, 0) =~= Seq::<(u32, u32)>::empty());
        assert(w.fields() =~= seq![Field::Int(n as u32)] + spec_perm_fields(pv.subrange(0, 0)));
        while i < n
            invariant
                w.wf(),
                n == self.0@.len(),
                i <= n,
                pv == spec_perms_view(self.0@),
                w.fields() == seq![Field::Int(n as u32)] + spec_perm_fields(
                    pv.subrange(0, i as int),
                ),
            decreases n - i,
        {
            let p = self.0[i];
            w.write_u32(p.id);
            w.write_u32(p.permissions.bits());
            proof {
                assert(pv[i as int] == (p.id, p.permissions.spec_bits()));
                assert(pv.subrange(0, i + 1).drop_last() =~= pv.subrange(0, i as int));
                assert(w.fields() =~= seq![Field::Int(n as u32)] + spec_perm_fields(
                    pv.subrange(0, i + 1),
                ));
            }
            i = i + 1;
        }
        proof {
            assert(pv.subrange(0, n as int) =~= pv);
            assert(w.fields() =~= self.spec_fields());
        }
        w.finish()
    }
}


/// The opcodes of the interface's methods, as numbers.
pub proof fn lemma_opcodes()
    ensures
        <Error as MethodSerialize>::OPCODE == 1,
        <UpdateProperties as MethodSerialize>::OPCODE == 2,
        <GetPermissions as MethodSerialize>::OPCODE == 3,
        <UpdatePermissions as MethodSerialize>::OPCODE == 4,
{
}


/// Writing `Error` puts its fields on the wire in this order: `id`, `res`, `error`.
pub proof fn law_error_wire_order(x: Error)
    ensures
        x.spec_fields().len() == 3,
        x.spec_fields()[0] == Field::Int(x.id),
        x.spec_fields()[1] == Field::Int(x.res),
        x.spec_fields()[2] == Field::Str(x.error@),
{
}

/// Writing `UpdateProperties` puts its fields on the wire in this order: `properties`.
pub proof fn law_update_properties_wire_order(x: UpdateProperties)
    ensures
        x.spec_fields().len() == 1,
        x.spec_fields()[0] == Field::Dict(spec_dict_view(x.properties@)),
{
}

/// Writing `GetPermissions` puts its fields on the wire in this order: `index`, `num`.
pub proof fn law_get_permissions_wire_order(x: GetPermissions)
    ensures
        x.spec_fields().len() == 2,
        x.spec_fields()[0] == Field::Int(x.index),
        x.spec_fields()[1] == Field::Int(x.num),
{
}


/// Writing `UpdatePermissions` puts on the wire the number of permissions,
/// then for each, in order, its id and its bits.
pub proof fn law_update_permissions_wire_order(x: UpdatePermissions)
    ensures
        x.spec_fields().len() == 1 + 2 * x.0@.len(),
        x.spec_fields()[0] == Field::Int(x.0@.len() as u32),
        forall|j: int|
            0 <= j < x.0@.len() ==> x.spec_fields()[1 + 2 * j] == Field::Int(
                (#[trigger] spec_perms_view(x.0@)[j]).0,
            ) && x.spec_fields()[2 + 2 * j] == Field::Int(spec_perms_view(x.0@)[j].1),
{
    let pv = spec_perms_view(x.0@);
    lemma_perm_fields_len(pv);
    assert forall|j: int| 0 <= j < x.0@.len() implies x.spec_fields()[1 + 2 * j] == Field::Int(
        (#[trigger] spec_perms_view(x.0@)[j]).0,
    ) && x.spec_fields()[2 + 2 * j] == Field::Int(spec_perms_view(x.0@)[j].1) by {
        lemma_perm_fields_index(pv, j);
    }
}

proof fn lemma_perm_fields_index(p: Seq<(u32, u32)>, j: int)
    requires
        0 <= j < p.len(),
    ensures
        spec_perm_fields(p).len() == 2 * p.len(),
        spec_perm_fields(p)[2 * j] == Field::Int(p[j].0),
        spec_perm_fields(p)[2 * j + 1] == Field::Int(p[j].1),
    decreases p.len(),
{
    lemma_perm_fields_len(p.drop_last());
    if j < p.len() - 1 {
        lemma_perm_fields_index(p.drop_last(), j);
    }
}

proof fn lemma_perm_fields_len(p: Seq<(u32, u32)>)
    ensures
        spec_perm_fields(p).len() == 2 * p.len(),
    decreases p.len(),
{
    if p.len() > 0 {
        lemma_perm_fields_len(p.drop_last());
    }
}
} // verus!
