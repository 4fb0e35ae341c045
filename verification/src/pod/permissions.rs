//! Permissions of a client on global objects, as a struct pod: their number,
//! then for each the global id (-1 for none) and the permission bits.

use vstd::prelude::*;
use crate::pod_v2::deserialize::{DeserializeError, PodDeserializer, PodResult};
use crate::pod_v2::format::TYPE_STRUCT;
use crate::protocol::codec::{
    read_i32, read_u32, spec_fields_bytes, spec_message_bytes, spec_read_plain, spec_then, Field,
    FieldKind, FieldWriter,
};
use crate::protocol::pw_client::PermissionFlags;
use crate::spa_types::SpaType;

verus! {

/// A permission: the global id it is about, if any, and the permission bits.
#[derive(Debug, Clone, Copy)]
pub struct Permission {
    pub id: Option<u32>,
    pub permissions: PermissionFlags,
}

impl Permission {
    /// The id and the permission bits.
    pub open spec fn view(self) -> (Option<u32>, u32) {
        (self.id, self.permissions.spec_bits())
    }
}

/// A list of permissions.
#[derive(Debug, Clone)]
pub struct Permissions(pub Vec<Permission>);

/// The ids and bits of permissions.
pub open spec fn spec_permissions_view(p: Seq<Permission>) -> Seq<(Option<u32>, u32)> {
    p.map_values(|x: Permission| x.view())
}

/// The raw id of a permission: the global id, or -1 for none.
pub open spec fn spec_raw_id(id: Option<u32>) -> u32 {
    match id {
        Some(x) => x,
        None => u32::MAX,
    }
}

/// The fields that hold permissions: each raw id, then its bits.
pub open spec fn spec_permission_fields(p: Seq<(Option<u32>, u32)>) -> Seq<Field>
    decreases p.len(),
{
    if p.len() == 0 {
        Seq::empty()
    } else {
        spec_permission_fields(p.drop_last()) + seq![
            Field::Int(spec_raw_id(p.last().0)),
            Field::Int(p.last().1),
        ]
    }
}

/// The fields of a list of permissions: their number, then each.
pub open spec fn spec_permissions_fields(p: Seq<(Option<u32>, u32)>) -> Seq<Field> {
    seq![Field::Int(p.len() as u32)] + spec_permission_fields(p)
}

/// Fields that are all `Int`s take 16 bytes each.
proof fn lemma_ints_len(fs: Seq<Field>)
    requires
        forall|i: int| 0 <= i < fs.len() ==> (#[trigger] fs[i]) is Int,
    ensures
        spec_fields_bytes(fs).len() == 16 * fs.len(),
    decreases fs.len(),
{
    if fs.len() > 0 {
        let t = fs.drop_last();
        assert forall|i: int| 0 <= i < t.len() implies (#[trigger] t[i]) is Int by {
            assert(t[i] == fs[i]);
        }
        lemma_ints_len(t);
        let x = fs.last();
        assert(fs[fs.len() - 1] is Int);
        match x {
            Field::Int(v) => {
                crate::bytes::lemma_u32_bytes(v);
                crate::bytes::lemma_u32_bytes(4);
                crate::bytes::lemma_u32_bytes(crate::pod_v2::format::TYPE_INT);
                assert(crate::bytes::spec_pad_to_8(4) == 4);
            },
            _ => {},
        }
    }
}

/// The fields of permissions are all `Int`s, two for each.
proof fn lemma_permission_fields(p: Seq<(Option<u32>, u32)>)
    ensures
        spec_permission_fields(p).len() == 2 * p.len(),
        forall|i: int|
            0 <= i < spec_permission_fields(p).len() ==> (#[trigger] spec_permission_fields(p)[i]) is Int,
    decreases p.len(),
{
    if p.len() > 0 {
        lemma_permission_fields(p.drop_last());
    }
}

/// Read `n` permissions: each a raw id (negative for none) and its bits;
/// also give what follows them.
pub open spec fn spec_read_permissions(s: Seq<u8>, n: int) -> PodResult<
    (Seq<(Option<u32>, u32)>, Seq<u8>),
>
    decreases n,
{
    if n <= 0 {
        Ok((Seq::empty(), s))
    } else {
        match spec_read_plain(FieldKind::Int, s) {
            Ok((Field::Int(id), s1)) => match spec_read_plain(FieldKind::Int, s1) {
                Ok((Field::Int(bits), s2)) => spec_then(
                    seq![(if (id as i32) < 0 { None } else { Some(id) }, bits)],
                    spec_read_permissions(s2, n - 1),
                ),
                Ok(_) => Err(DeserializeError::UnexpectedEnd),
                Err(e) => Err(e),
            },
            Ok(_) => Err(DeserializeError::UnexpectedEnd),
            Err(e) => Err(e),
        }
    }
}

/// The permissions a pod holds: a struct of their number, then each.
pub open spec fn spec_parse_permissions(v: crate::pod_v2::deserialize::PodView) -> PodResult<
    Seq<(Option<u32>, u32)>,
> {
    if v.ty != TYPE_STRUCT {
        Err(crate::pod_v2::deserialize::spec_unexpected(SpaType::Struct, v.ty))
    } else {
        match spec_read_plain(FieldKind::Int, v.body) {
            Ok((Field::Int(n), s1)) => match spec_read_permissions(s1, n as int) {
                Ok((p, _)) => Ok(p),
                Err(e) => Err(e),
            },
            Ok(_) => Err(DeserializeError::UnexpectedEnd),
            Err(e) => Err(e),
        }
    }
}

impl Permissions {
    /// The bytes of the struct pod of the permissions.
    pub fn serialize(&self) -> (r: Vec<u8>)
        requires
            32 * self.0@.len() + 24 <= u32::MAX,
        ensures
            r@ == spec_message_bytes(spec_permissions_fields(spec_permissions_view(self.0@))),
    {
        let ghost pv = spec_permissions_view(self.0@);
        let mut w = FieldWriter::new();
        let n = self.0.len();
        w.write_u32(n as u32);
        let mut i: usize = 0;
        assert(pv.subrange(0, 0) =~= Seq::<(Option<u32>, u32)>::empty());
        assert(w.fields() =~= seq![Field::Int(n as u32)] + spec_permission_fields(pv.subrange(0, 0)));
        while i < n
            invariant
                n == self.0@.len(),
                pv == spec_permissions_view(self.0@),
                i <= n,
                w.wf(),
                w.fields() == seq![Field::Int(n as u32)] + spec_permission_fields(
                    pv.subrange(0, i as int),
                ),
            decreases n - i,
        {
            let p = self.0[i];
            let raw: u32 = match p.id {
                Some(x) => x,
                None => u32::MAX,
            };
            w.write_u32(raw);
            w.write_u32(p.permissions.bits());
            proof {
                assert(pv.subrange(0, i + 1).drop_last() =~= pv.subrange(0, i as int));
                assert(pv.subrange(0, i + 1).last() == pv[i as int]);
                assert(w.fields() =~= seq![Field::Int(n as u32)] + spec_permission_fields(
                    pv.subrange(0, i + 1),
                ));
            }
            i = i + 1;
        }
        proof {
            assert(pv.subrange(0, n as int) =~= pv);
            lemma_permission_fields(pv);
            let fs = w.fields();
            assert forall|j: int| 0 <= j < fs.len() implies (#[trigger] fs[j]) is Int by {
                if j > 0 {
                    assert(fs[j] == spec_permission_fields(pv)[j - 1]);
                }
            }
            lemma_ints_len(fs);
        }
        w.finish()
    }

    /// Read the permissions a struct pod holds. The struct must hold every
    /// permission its count announces.
    pub fn deserialize(deserializer: &PodDeserializer) -> (r: PodResult<Self>)
        requires
            deserializer.readable_as(TYPE_STRUCT),
            spec_parse_permissions(deserializer.view()) != Err::<Seq<(Option<u32>, u32)>, DeserializeError>(
                DeserializeError::UnexpectedEnd,
            ),
        ensures
            match spec_parse_permissions(deserializer.view()) {
                Ok(p) => r matches Ok(x) && spec_permissions_view(x.0@) == p,
                Err(e) => r matches Err(x) && x == e,
            },
    {
        let mut pod = deserializer.as_struct()?;
        let len = read_u32(&mut pod)?;
        let ghost s0 = pod.view();
        let mut list: Vec<Permission> = Vec::new();
        let mut i: u32 = 0;
        assert(spec_permissions_view(list@) =~= Seq::<(Option<u32>, u32)>::empty());
        assert(spec_then(spec_permissions_view(list@), spec_read_permissions(s0, len as int))
            == spec_read_permissions(s0, len as int)) by {
            match spec_read_permissions(s0, len as int) {
                Ok((t, rest)) => {
                    assert(spec_permissions_view(list@) + t =~= t);
                },
                Err(_) => {},
            }
        }
        while i < len
            invariant
                i <= len,
                deserializer.view().ty == TYPE_STRUCT,
                spec_read_plain(FieldKind::Int, deserializer.view().body) matches Ok(
                    (Field::Int(n), s1),
                ) && n == len && s1 == s0,
                spec_read_permissions(s0, len as int) == spec_then(
                    spec_permissions_view(list@),
                    spec_read_permissions(pod.view(), len - i),
                ),
                spec_parse_permissions(deserializer.view()) != Err::<
                    Seq<(Option<u32>, u32)>,
                    DeserializeError,
                >(DeserializeError::UnexpectedEnd),
            decreases len - i,
        {
            let id = read_i32(&mut pod)?;
            let bits = read_u32(&mut pod)?;
            let ghost prev = spec_permissions_view(list@);
            let entry: Option<u32> = if id < 0 {
                None
            } else {
                Some(id as u32)
            };
            let ghost item = seq![(entry, bits)];
            proof {
                let next = spec_read_permissions(pod.view(), len - i - 1);
                assert((id as u32) as i32 == id) by (bit_vector);
                assert(spec_then(prev, spec_then(item, next)) == spec_then(prev + item, next)) by {
                    match next {
                        Ok((t, rest)) => {
                            assert(prev + (item + t) =~= (prev + item) + t);
                        },
                        Err(_) => {},
                    }
                }
            }
            list.push(Permission { id: entry, permissions: PermissionFlags::from_bits_retain(bits) });
            proof {
                assert(spec_permissions_view(list@) =~= prev + item);
            }
            i = i + 1;
        }
        proof {
            assert(spec_permissions_view(list@) + Seq::<(Option<u32>, u32)>::empty()
                =~= spec_permissions_view(list@));
        }
        Ok(Permissions(list))
    }
}

} // verus!
