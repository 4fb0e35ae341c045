//! A dictionary of strings, as a struct pod: the number of entries, then each
//! key and value.

use vstd::prelude::*;
use vstd::string::StringSliceAdditionalSpecFns;
use vstd::utf8::encode_utf8;
use crate::bytes::spec_u32_bytes;
use crate::pod_v2::format::{TYPE_INT, TYPE_STRING, TYPE_STRUCT};
use crate::pod_v2::laws::{law_builder_writes_pod, law_close_struct, spec_encode};
use crate::pod_v2::serialize::Builder;
use crate::protocol::codec::{
    lemma_encode_len, lemma_pairs_len, spec_dict_from, spec_field_bytes, spec_field_ok,
    spec_pair_ok, spec_pairs_bytes, spec_pairs_ok, Field,
};
use crate::protocol::{dict_insert, spec_dict_view, PwDictionary};

verus! {

/// A dictionary of strings; a key is there at most once.
#[derive(Debug, Clone)]
pub struct Dictionary(pub PwDictionary);

impl Dictionary {
    /// The entries, in their order.
    pub open spec fn view(self) -> Seq<(Seq<char>, Seq<char>)> {
        spec_dict_view(self.0@)
    }

    /// The dictionary of the pairs, set one after the other: a later pair
    /// with the same key replaces the value of an earlier one.
    pub fn from(pairs: Vec<(String, String)>) -> (r: Self)
        ensures
            r.view() == spec_dict_from(spec_dict_view(pairs@)),
    {
        let ghost pv = spec_dict_view(pairs@);
        let mut d: PwDictionary = Vec::new();
        let mut rest = pairs;
        let ghost taken: int = 0;
        let n = rest.len();
        let mut i: usize = 0;
        assert(pv.subrange(0, 0) =~= Seq::<(Seq<char>, Seq<char>)>::empty());
        assert(spec_dict_view(d@) =~= Seq::<(Seq<char>, Seq<char>)>::empty());
        while i < n
            invariant
                n == pv.len(),
                i <= n,
                rest@.len() == n,
                spec_dict_view(rest@) == pv,
                spec_dict_view(d@) == spec_dict_from(pv.subrange(0, i as int)),
            decreases n - i,
        {
            let k = rest[i].0.clone();
            let v = rest[i].1.clone();
            proof {
                assert(pv[i as int] == (rest@[i as int].0@, rest@[i as int].1@));
                assert(pv.subrange(0, i + 1).drop_last() =~= pv.subrange(0, i as int));
                assert(pv.subrange(0, i + 1).last() == pv[i as int]);
            }
            dict_insert(&mut d, k, v);
            i = i + 1;
        }
        assert(pv.subrange(0, n as int) =~= pv);
        Dictionary(d)
    }

    /// The bytes of the struct pod of the dictionary.
    pub fn serialize(&self) -> (r: Vec<u8>)
        requires
            spec_field_ok(Field::Dict(self.view())),
        ensures
            r@ == spec_field_bytes(Field::Dict(self.view())),
    {
        let d = &self.0;
        let ghost dv = spec_dict_view(d@);
        let n = d.len();
        let mut b = Builder::new();
        let inner = b.push_struct();
        let ghost v1 = b.view();
        b.write_u32(n as u32);
        proof {
            crate::bytes::lemma_u32_bytes(0);
            crate::bytes::lemma_u32_bytes(TYPE_STRUCT);
            crate::bytes::lemma_u32_bytes(n as u32);
            law_builder_writes_pod(v1, TYPE_INT, spec_u32_bytes(n as u32));
            assert(dv.subrange(0, 0) =~= Seq::<(Seq<char>, Seq<char>)>::empty());
            assert(b.view().bytes =~= Seq::<u8>::empty() + spec_u32_bytes(0) + spec_u32_bytes(
                TYPE_STRUCT,
            ) + spec_encode(TYPE_INT, spec_u32_bytes(n as u32)) + spec_pairs_bytes(
                dv.subrange(0, 0),
            ));
        }
        let mut i: usize = 0;
        while i < n
            invariant
                n == d@.len(),
                dv == spec_dict_view(d@),
                inner.start() == 0,
                dv.len() == n,
                i <= n,
                spec_pairs_ok(dv),
                !b.view().array_mode,
                b.view().bytes == Seq::<u8>::empty() + spec_u32_bytes(0) + spec_u32_bytes(
                    TYPE_STRUCT,
                ) + spec_encode(TYPE_INT, spec_u32_bytes(n as u32)) + spec_pairs_bytes(
                    dv.subrange(0, i as int),
                ),
            decreases n - i,
        {
            let ghost before = b.view();
            let key = &d[i].0;
            let value = &d[i].1;
            assert(dv[i as int] == (key@, value@));
            assert(spec_pair_ok(dv[i as int]));
            b.write_str(key.as_str().as_bytes());
            let ghost mid = b.view();
            b.write_str(value.as_str().as_bytes());
            proof {
                law_builder_writes_pod(before, TYPE_STRING, encode_utf8(key@).push(0u8));
                law_builder_writes_pod(mid, TYPE_STRING, encode_utf8(value@).push(0u8));
                assert(dv.subrange(0, i + 1).drop_last() =~= dv.subrange(0, i as int));
                assert(b.view().bytes =~= Seq::<u8>::empty() + spec_u32_bytes(0) + spec_u32_bytes(
                    TYPE_STRUCT,
                ) + spec_encode(TYPE_INT, spec_u32_bytes(n as u32)) + spec_pairs_bytes(
                    dv.subrange(0, i + 1),
                ));
            }
            i = i + 1;
        }
        let ghost content = spec_encode(TYPE_INT, spec_u32_bytes(n as u32)) + spec_pairs_bytes(dv);
        proof {
            assert(dv.subrange(0, n as int) =~= dv);
            lemma_encode_len(TYPE_INT, spec_u32_bytes(n as u32));
            lemma_pairs_len(dv);
            assert(b.view().bytes =~= Seq::<u8>::empty() + spec_u32_bytes(0) + spec_u32_bytes(
                TYPE_STRUCT,
            ) + content);
        }
        inner.done(&mut b);
        proof {
            law_close_struct(Seq::<u8>::empty(), content);
            assert(Seq::<u8>::empty() + spec_encode(TYPE_STRUCT, content) =~= spec_encode(
                TYPE_STRUCT,
                content,
            ));
        }
        b.into_inner()
    }
}

} // verus!
