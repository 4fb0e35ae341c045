//! The PipeWire native protocol: messages are structs of pods.

pub mod codec;
pub mod laws;
pub mod pw_client;
pub mod pw_client_node;
pub mod pw_core;
pub mod pw_device;
pub mod pw_factory;
pub mod pw_link;
pub mod pw_module;
pub mod pw_node;
pub mod pw_port;
pub mod pw_registry;

use vstd::prelude::*;
use crate::spa_enum::{SpaEnum, spec_spa_enum_as_raw, spec_spa_enum_from_raw};
use crate::spa_types::SpaParamType;
use crate::connection::{spec_header_bytes, Header};
use crate::pod_v2::deserialize::{
    DeserializeError, PodDeserializer, PodResult, PodStructDeserializer,
};
use codec::{
    read_i32, read_id, read_str, read_u32, spec_dict_from, spec_dict_insert, spec_fields_ok,
    spec_message_bytes, spec_parse_dict, spec_parse_message, spec_parse_params, spec_read_pairs,
    spec_read_params, spec_read_plain, spec_then, Field, FieldKind,
};

verus! {

/// A request with an opcode.
pub trait HasOpCode {
    const OPCODE: u8;
}

/// The events of an interface, with its name.
pub trait HasInterface {
    const INTERFACE: &'static str;
}

/// A request a client sends: its opcode and its fields.
pub trait MethodSerialize {
    const OPCODE: u8;

    /// The fields of the request.
    spec fn spec_fields(&self) -> Seq<Field>;

    /// The bytes of the request's struct.
    fn serialize(&self) -> (r: Vec<u8>)
        requires
            spec_fields_ok(self.spec_fields()),
        ensures
            r@ == spec_message_bytes(self.spec_fields()),
    ;
}

/// The file descriptor at index `id` of `fds`, if there is one.
pub open spec fn spec_fd_at(fds: Seq<i32>, id: i64) -> Option<i32> {
    if 0 <= id < fds.len() {
        Some(fds[id as int])
    } else {
        None
    }
}

/// The file descriptor at index `id` of `fds`, if there is one.
pub fn fd_at(fds: &[i32], id: i64) -> (r: Option<i32>)
    ensures
        r == spec_fd_at(fds@, id),
{
    if 0 <= id && (id as u64) < (fds.len() as u64) {
        Some(fds[id as usize])
    } else {
        None
    }
}

/// An event a client receives: its opcode and the kinds of its fields.
pub trait EventDeserialize: Sized {
    const OPCODE: u8;

    /// The kinds of the fields of the event.
    spec fn spec_kinds() -> Seq<FieldKind>;

    /// The fields of the event.
    spec fn spec_fields(&self) -> Seq<Field>;

    /// What the raw fields alone do not say of a read event: the file
    /// descriptors it names are those at their indices in `fds` (none when an
    /// index is out of range), and each enumeration it holds is the one its
    /// raw value denotes.
    spec fn spec_resolved(&self, fds: Seq<i32>) -> bool;

    /// Read the event from its pod; the file descriptors sent with the
    /// message are at hand for the fields that name one.
    fn deserialize(pod: &mut PodDeserializer<'_>, fds: &[i32]) -> (r: PodResult<Self>)
        requires
            old(pod).valid(),
        ensures
            match spec_parse_message(Self::spec_kinds(), old(pod).view()) {
                Ok(fs) => r matches Ok(x) && x.spec_fields() == fs && x.spec_resolved(fds@),
                Err(e) => r == Err::<Self, DeserializeError>(e),
            },
    ;
}

/// An event that could not be read: the interface, the event and why.
#[derive(Debug)]
pub struct EventDeserializeError {
    pub interface: &'static str,
    pub event: &'static str,
    pub error: DeserializeError,
}

/// The bytes of a message to object `object_id`: the header, then the
/// request's struct.
pub open spec fn spec_msg_bytes(object_id: u32, opcode: u8, fs: Seq<Field>) -> Seq<u8> {
    spec_header_bytes(
        Header {
            object_id,
            opcode,
            len: spec_message_bytes(fs).len() as u32,
            seq: 0,
            n_fds: 0,
        },
    ) + spec_message_bytes(fs)
}

/// The bytes of the message that sends `value` to object `object_id`.
pub fn create_msg<MSG: MethodSerialize>(object_id: u32, value: &MSG) -> (r: Vec<u8>)
    requires
        spec_fields_ok(value.spec_fields()),
    ensures
        r@ == spec_msg_bytes(object_id, MSG::OPCODE, value.spec_fields()),
{
    create_msg_with_fds(object_id, value).0
}

/// The bytes of the message that sends `value` to object `object_id`, and the
/// file descriptors to send with it (the requests here send none).
pub fn create_msg_with_fds<MSG: MethodSerialize>(object_id: u32, value: &MSG) -> (r: (
    Vec<u8>,
    Vec<i32>,
))
    requires
        spec_fields_ok(value.spec_fields()),
    ensures
        r.0@ == spec_msg_bytes(object_id, MSG::OPCODE, value.spec_fields()),
        r.1@ == Seq::<i32>::empty(),
{
    let fds: Vec<i32> = Vec::new();
    let mut pod = value.serialize();
    let header = Header {
        object_id,
        opcode: MSG::OPCODE,
        len: pod.len() as u32,
        seq: 0,
        n_fds: fds.len() as u32,
    };
    let h = header.serialize();
    let mut msg = vstd::slice::slice_to_vec(h.as_slice());
    msg.append(&mut pod);
    (msg, fds)
}

/// The text of an optional string.
pub open spec fn spec_opt_view(o: Option<String>) -> Option<Seq<char>> {
    match o {
        Some(t) => Some(t@),
        None => None,
    }
}

/// A dictionary of string properties: keys are unique, in the order they
/// were first set.
pub type PwDictionary = Vec<(String, String)>;

/// The keys and values of a dictionary.
pub open spec fn spec_dict_view(d: Seq<(String, String)>) -> Seq<(Seq<char>, Seq<char>)> {
    d.map_values(|p: (String, String)| (p.0@, p.1@))
}

/// Access flags of a parameter. The flag constants are raw bits.
#[derive(Debug, Clone, Copy, PartialEq, Eq, Structural)]
pub struct ParamFlags {
    bits: u32,
}

impl ParamFlags {
    /// Signal an update even when the read and write flags do not change.
    pub const SERIAL: u32 = 1;

    pub const READ: u32 = 2;

    pub const WRITE: u32 = 4;

    pub const READWRITE: u32 = 6;

    /// The raw bits.
    pub closed spec fn spec_bits(self) -> u32 {
        self.bits
    }

    /// The raw bits.
    pub fn bits(&self) -> (r: u32)
        ensures
            r == self.spec_bits(),
    {
        self.bits
    }

    /// The flags with exactly the given bits, known or not.
    pub fn from_bits_retain(bits: u32) -> (r: Self)
        ensures
            r.spec_bits() == bits,
    {
        ParamFlags { bits }
    }

    /// No flag.
    pub fn empty() -> (r: Self)
        ensures
            r.spec_bits() == 0,
    {
        ParamFlags { bits: 0 }
    }

    /// The flags of both.
    pub fn union(self, other: Self) -> (r: Self)
        ensures
            r.spec_bits() == self.spec_bits() | other.spec_bits(),
    {
        ParamFlags { bits: self.bits | other.bits }
    }

    /// Every flag of `other` is set.
    pub fn contains(&self, other: Self) -> (r: bool)
        ensures
            r == (self.spec_bits() & other.spec_bits() == other.spec_bits()),
    {
        self.bits & other.bits == other.bits
    }
}

/// A parameter a node or port offers, with its access flags.
#[derive(Debug, Clone, Copy)]
pub struct ParamInfo {
    pub id: SpaEnum<SpaParamType>,
    pub flags: ParamFlags,
}

impl ParamInfo {
    /// The raw id and flags.
    pub open spec fn view(self) -> (u32, u32) {
        (spec_spa_enum_as_raw(self.id), self.flags.spec_bits())
    }
}

/// The raw ids and flags of parameter infos.
pub open spec fn spec_params_view(p: Seq<ParamInfo>) -> Seq<(u32, u32)> {
    p.map_values(|x: ParamInfo| x.view())
}

/// Each id of `p` is the one its raw value denotes: an id of a known
/// parameter type is never kept as unknown.
pub open spec fn spec_params_canonical(p: Seq<ParamInfo>) -> bool {
    forall|i: int|
        0 <= i < p.len() ==> (#[trigger] p[i]).id == spec_spa_enum_from_raw::<SpaParamType>(
            spec_spa_enum_as_raw(p[i].id),
        )
}

/// No key occurs twice in `d`.
pub open spec fn spec_dict_keys_unique(d: Seq<(Seq<char>, Seq<char>)>) -> bool {
    forall|i: int, j: int| 0 <= i < j < d.len() ==> (#[trigger] d[i]).0 != (#[trigger] d[j]).0
}

/// `key` is a key of `d`.
pub open spec fn spec_dict_has_key(d: Seq<(Seq<char>, Seq<char>)>, key: Seq<char>) -> bool {
    exists|i: int| 0 <= i < d.len() && (#[trigger] d[i]).0 == key
}

/// Setting a key adds no key but it.
proof fn lemma_dict_insert_keys(d: Seq<(Seq<char>, Seq<char>)>, k: Seq<char>, v: Seq<char>)
    ensures
        forall|key: Seq<char>|
            #[trigger] spec_dict_has_key(spec_dict_insert(d, k, v), key) ==> key == k
                || spec_dict_has_key(d, key),
    decreases d.len(),
{
    let r = spec_dict_insert(d, k, v);
    if d.len() == 0 {
        assert forall|key: Seq<char>| #[trigger] spec_dict_has_key(r, key) implies key == k
            || spec_dict_has_key(d, key) by {
            let i = choose|i: int| 0 <= i < r.len() && (#[trigger] r[i]).0 == key;
            assert(r[i] == (k, v));
        }
    } else if d[0].0 == k {
        assert forall|key: Seq<char>| #[trigger] spec_dict_has_key(r, key) implies key == k
            || spec_dict_has_key(d, key) by {
            let i = choose|i: int| 0 <= i < r.len() && (#[trigger] r[i]).0 == key;
            if i != 0 {
                assert(r[i] == d[i]);
            }
        }
    } else {
        let t = d.drop_first();
        lemma_dict_insert_keys(t, k, v);
        let rt = spec_dict_insert(t, k, v);
        assert(r == seq![d[0]] + rt);
        assert forall|key: Seq<char>| #[trigger] spec_dict_has_key(r, key) implies key == k
            || spec_dict_has_key(d, key) by {
            let i = choose|i: int| 0 <= i < r.len() && (#[trigger] r[i]).0 == key;
            if i == 0 {
                assert(d[0].0 == key);
            } else {
                assert(r[i] == rt[i - 1]);
                assert(spec_dict_has_key(rt, key));
                if key != k {
                    let j = choose|j: int| 0 <= j < t.len() && (#[trigger] t[j]).0 == key;
                    assert(d[j + 1] == t[j]);
                }
            }
        }
    }
}

/// Setting a key keeps the keys of a dictionary unique.
pub proof fn law_dict_insert_keeps_keys_unique(
    d: Seq<(Seq<char>, Seq<char>)>,
    k: Seq<char>,
    v: Seq<char>,
)
    requires
        spec_dict_keys_unique(d),
    ensures
        spec_dict_keys_unique(spec_dict_insert(d, k, v)),
    decreases d.len(),
{
    let r = spec_dict_insert(d, k, v);
    if d.len() == 0 {
    } else if d[0].0 == k {
        assert forall|i: int, j: int| 0 <= i < j < r.len() implies (#[trigger] r[i]).0
            != (#[trigger] r[j]).0 by {
            assert(d[i].0 != d[j].0);
        }
    } else {
        let t = d.drop_first();
        assert forall|i: int, j: int| 0 <= i < j < t.len() implies (#[trigger] t[i]).0
            != (#[trigger] t[j]).0 by {
            assert(t[i] == d[i + 1] && t[j] == d[j + 1]);
        }
        law_dict_insert_keeps_keys_unique(t, k, v);
        lemma_dict_insert_keys(t, k, v);
        let rt = spec_dict_insert(t, k, v);
        assert(r == seq![d[0]] + rt);
        assert forall|i: int, j: int| 0 <= i < j < r.len() implies (#[trigger] r[i]).0
            != (#[trigger] r[j]).0 by {
            if i == 0 {
                assert(r[j] == rt[j - 1]);
                if d[0].0 == rt[j - 1].0 {
                    assert(spec_dict_has_key(rt, d[0].0));
                    let m = choose|m: int| 0 <= m < t.len() && (#[trigger] t[m]).0 == d[0].0;
                    assert(d[m + 1] == t[m]);
                    assert(d[0].0 != d[m + 1].0);
                }
            } else {
                assert(r[i] == rt[i - 1] && r[j] == rt[j - 1]);
            }
        }
    }
}

/// A dictionary read from pairs, each set after the other, never holds a
/// key twice.
pub proof fn law_dict_from_keys_unique(pairs: Seq<(Seq<char>, Seq<char>)>)
    ensures
        spec_dict_keys_unique(spec_dict_from(pairs)),
    decreases pairs.len(),
{
    if pairs.len() > 0 {
        law_dict_from_keys_unique(pairs.drop_last());
        law_dict_insert_keeps_keys_unique(
            spec_dict_from(pairs.drop_last()),
            pairs.last().0,
            pairs.last().1,
        );
    }
}

proof fn lemma_insert_split(d: Seq<(Seq<char>, Seq<char>)>, i: int, k: Seq<char>, v: Seq<char>)
    requires
        0 <= i <= d.len(),
        forall|j: int| 0 <= j < i ==> (#[trigger] d[j]).0 != k,
    ensures
        spec_dict_insert(d, k, v) == d.subrange(0, i) + spec_dict_insert(
            d.subrange(i, d.len() as int),
            k,
            v,
        ),
    decreases i,
{
    if i == 0 {
        assert(d.subrange(0, d.len() as int) =~= d);
        assert(d.subrange(0, 0) + spec_dict_insert(d, k, v) =~= spec_dict_insert(d, k, v));
    } else {
        let t = d.drop_first();
        assert forall|j: int| 0 <= j < i - 1 implies (#[trigger] t[j]).0 != k by {
            assert(t[j] == d[j + 1]);
        }
        lemma_insert_split(t, i - 1, k, v);
        assert(d[0].0 != k);
        assert(t.subrange(i - 1, t.len() as int) =~= d.subrange(i, d.len() as int));
        assert(seq![d[0]] + (t.subrange(0, i - 1) + spec_dict_insert(
            d.subrange(i, d.len() as int),
            k,
            v,
        )) =~= d.subrange(0, i) + spec_dict_insert(d.subrange(i, d.len() as int), k, v));
    }
}

/// Set the value of `k` in `d`.
pub fn dict_insert(d: &mut PwDictionary, k: String, v: String)
    ensures
        spec_dict_view(final(d)@) == spec_dict_insert(spec_dict_view(old(d)@), k@, v@),
{
    let n = d.len();
    let mut i: usize = 0;
    let ghost d0 = spec_dict_view(d@);
    while i < n
        invariant
            n == d@.len(),
            i <= n,
            d@ == old(d)@,
            d0 == spec_dict_view(d@),
            d0.len() == n,
            forall|j: int| 0 <= j < i ==> (#[trigger] d0[j]).0 != k@,
        decreases n - i,
    {
        if d[i].0 == k {
            proof {
                lemma_insert_split(d0, i as int, k@, v@);
                let tail = d0.subrange(i as int, n as int);
                assert(tail[0] == d0[i as int]);
                assert(d0.subrange(0, i as int) + tail.update(0, (k@, v@)) =~= d0.update(
                    i as int,
                    (k@, v@),
                ));
            }
            d.set(i, (k, v));
            proof {
                assert(spec_dict_view(d@) =~= d0.update(i as int, (k@, v@)));
            }
            return;
        }
        i = i + 1;
    }
    let ghost kv = (k@, v@);
    d.push((k, v));
    proof {
        lemma_insert_split(d0, n as int, k@, v@);
        assert(d0.subrange(n as int, n as int) =~= Seq::<(Seq<char>, Seq<char>)>::empty());
        assert(d0.subrange(0, n as int) =~= d0);
        assert(spec_dict_view(d@) =~= d0 + seq![kv]);
    }
}

/// Read a dictionary from the fields of a struct: a count, then that many
/// key and value strings.
pub fn parse_dict<'a>(pod: &mut PodStructDeserializer<'a>) -> (r: PodResult<PwDictionary>)
    ensures
        match spec_parse_dict(old(pod).view()) {
            Ok((d, rest)) => r matches Ok(x) && spec_dict_view(x@) == d && final(pod).view()
                == rest && spec_dict_keys_unique(d),
            Err(e) => r == Err::<PwDictionary, DeserializeError>(e),
        },
{
    let count = read_i32(pod)?;
    proof {
        assert(((count as u32) as i32) == count) by (bit_vector);
    }
    let ghost s0 = pod.view();
    let mut map: PwDictionary = Vec::new();
    let ghost mut pairs: Seq<(Seq<char>, Seq<char>)> = Seq::empty();
    let mut i: i32 = 0;
    assert(spec_dict_view(map@) =~= spec_dict_from(pairs));
    assert(spec_then(pairs, spec_read_pairs(s0, count as int)) == spec_read_pairs(s0, count as int)) by {
        match spec_read_pairs(s0, count as int) {
            Ok((t, rest)) => {
                assert(pairs + t =~= t);
            },
            Err(_) => {},
        }
    }
    while i < count
        invariant
            0 <= i,
            count >= 0 ==> i <= count,
            (count as u32) as i32 == count,
            spec_read_plain(FieldKind::Int, old(pod).view()) == Ok::<(Field, Seq<u8>), DeserializeError>(
                (Field::Int(count as u32), s0),
            ),
            spec_dict_view(map@) == spec_dict_from(pairs),
            spec_read_pairs(s0, count as int) == spec_then(
                pairs,
                spec_read_pairs(pod.view(), count - i),
            ),
        decreases count - i,
    {
        let ghost before = pod.view();
        let key = read_str(pod)?;
        let value = read_str(pod)?;
        proof {
            let next = spec_read_pairs(pod.view(), count - i - 1);
            assert(spec_then(pairs, spec_then(seq![(key@, value@)], next)) == spec_then(
                pairs.push((key@, value@)),
                next,
            )) by {
                match next {
                    Ok((t, rest)) => {
                        assert(pairs + (seq![(key@, value@)] + t) =~= pairs.push((key@, value@))
                            + t);
                    },
                    Err(_) => {},
                }
            }
            assert(pairs.push((key@, value@)).drop_last() =~= pairs);
            pairs = pairs.push((key@, value@));
        }
        dict_insert(&mut map, key, value);
        i = i + 1;
    }
    proof {
        assert(pairs + Seq::<(Seq<char>, Seq<char>)>::empty() =~= pairs);
        law_dict_from_keys_unique(pairs);
    }
    Ok(map)
}

/// Read parameter infos from the fields of a struct: a count, then that many
/// `Id` and `Int` pairs; a count that is not positive means none.
pub fn parse_params<'a>(pod: &mut PodStructDeserializer<'a>) -> (r: PodResult<Vec<ParamInfo>>)
    ensures
        match spec_parse_params(old(pod).view()) {
            Ok((p, rest)) => r matches Ok(x) && spec_params_view(x@) == p && final(pod).view()
                == rest && spec_params_canonical(x@),
            Err(e) => r == Err::<Vec<ParamInfo>, DeserializeError>(e),
        },
{
    let len = read_i32(pod)?;
    proof {
        assert(((len as u32) as i32) == len) by (bit_vector);
    }
    if len <= 0 {
        let v: Vec<ParamInfo> = Vec::new();
        assert(spec_params_view(v@) =~= Seq::<(u32, u32)>::empty());
        return Ok(v);
    }
    let len = len as u32;
    let ghost s0 = pod.view();
    let mut params: Vec<ParamInfo> = Vec::new();
    let mut i: u32 = 0;
    assert(spec_params_view(params@) =~= Seq::<(u32, u32)>::empty());
    assert(spec_then(spec_params_view(params@), spec_read_params(s0, len as int))
        == spec_read_params(s0, len as int)) by {
        match spec_read_params(s0, len as int) {
            Ok((t, rest)) => {
                assert(spec_params_view(params@) + t =~= t);
            },
            Err(_) => {},
        }
    }
    while i < len
        invariant
            i <= len,
            0 < len <= i32::MAX,
            len as i32 as u32 == len,
            spec_read_plain(FieldKind::Int, old(pod).view()) == Ok::<(Field, Seq<u8>), DeserializeError>(
                (Field::Int(len), s0),
            ),
            spec_read_params(s0, len as int) == spec_then(
                spec_params_view(params@),
                spec_read_params(pod.view(), len - i),
            ),
            spec_params_canonical(params@),
        decreases len - i,
    {
        let id = read_id(pod)?;
        let flags = read_u32(pod)?;
        let info = ParamInfo { id: SpaEnum::from_raw(id), flags: ParamFlags::from_bits_retain(flags) };
        proof {
            crate::spa_enum::law_spa_enum_raw_roundtrip::<SpaParamType>(id);
            let prev = spec_params_view(params@);
            let next = spec_read_params(pod.view(), len - i - 1);
            assert(spec_then(prev, spec_then(seq![(id, flags)], next)) == spec_then(
                prev.push((id, flags)),
                next,
            )) by {
                match next {
                    Ok((t, rest)) => {
                        assert(prev + (seq![(id, flags)] + t) =~= prev.push((id, flags)) + t);
                    },
                    Err(_) => {},
                }
            }
        }
        let ghost prev = params@;
        params.push(info);
        proof {
            assert(spec_params_view(params@) =~= spec_params_view(prev).push((id, flags)));
            assert(params@[params@.len() - 1] == info);
            assert forall|j: int| 0 <= j < params@.len() implies (#[trigger] params@[j]).id
                == spec_spa_enum_from_raw::<SpaParamType>(spec_spa_enum_as_raw(params@[j].id)) by {
                if j < prev.len() {
                    assert(params@[j] == prev[j]);
                }
            }
        }
        i = i + 1;
    }
    proof {
        assert(spec_params_view(params@) + Seq::<(u32, u32)>::empty() =~= spec_params_view(params@));
    }
    Ok(params)
}

} // verus!
