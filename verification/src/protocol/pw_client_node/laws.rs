//! What a reader of the node and port updates gives back of what was written.
//!
//! Strings come back through the lossy UTF-8 reading of their bytes and
//! dictionaries with their keys made unique, as for the other requests.

use vstd::prelude::*;
use crate::pod_v2::deserialize::{spec_head_view, PodView};
use crate::pod_v2::format::TYPE_STRUCT;
use crate::pod_v2::laws::{spec_encode, spec_fits_u32};
use crate::protocol::codec::{
    lemma_fields_len, spec_dict_from, spec_field_bytes, spec_field_ok, spec_fields_bytes,
    spec_fields_ok, spec_message_bytes, spec_pairs_bytes, spec_pairs_ok,
    spec_params_bytes, spec_read_int, spec_read_long, spec_str_bytes, spec_str_ok,
    Field,
};
use crate::protocol::laws::{
    lemma_pairs_read, lemma_params_read, lemma_pod_read, law_field_read_back, spec_no_nul,
    spec_text_pairs,
};
use crate::protocol::MethodSerialize;
use super::methods::{
    lemma_pairs_fields_len, lemma_pairs_within_ok, spec_node_info_fields, spec_pairs_fields,
    spec_param_fields, spec_parse_port_update, spec_parse_update, spec_pod_fields,
    spec_pods_view, spec_port_info_fields, spec_read_node_info, spec_read_pods,
    spec_read_port_info, NodeInfoView, PortInfoView, PortUpdate, PortUpdateView, Update,
    UpdateView,
};

verus! {

/// The strings of the pairs hold no NUL byte, and there are few enough of
/// them for a signed count.
pub open spec fn spec_pairs_readable(d: Seq<(Seq<char>, Seq<char>)>) -> bool {
    &&& d.len() <= i32::MAX
    &&& forall|k: int| 0 <= k < d.len() ==> spec_no_nul(#[trigger] d[k].0) && spec_no_nul(d[k].1)
}

/// What a node info reads back as.
pub open spec fn spec_node_info_read_back(i: NodeInfoView) -> NodeInfoView {
    NodeInfoView { props: spec_dict_from(spec_text_pairs(i.props)), ..i }
}

/// What a port info reads back as.
pub open spec fn spec_port_info_read_back(i: PortInfoView) -> PortInfoView {
    PortInfoView { items: spec_dict_from(spec_text_pairs(i.items)), ..i }
}

proof fn lemma_fields_concat(a: Seq<Field>, b: Seq<Field>)
    ensures
        spec_fields_bytes(a + b) == spec_fields_bytes(a) + spec_fields_bytes(b),
    decreases b.len(),
{
    if b.len() == 0 {
        assert(a + b =~= a);
        assert(spec_fields_bytes(a) + spec_fields_bytes(b) =~= spec_fields_bytes(a));
    } else {
        lemma_fields_concat(a, b.drop_last());
        assert((a + b).drop_last() =~= a + b.drop_last());
        assert(spec_fields_bytes(a + b) =~= spec_fields_bytes(a) + spec_fields_bytes(b));
    }
}

proof fn lemma_one_field(x: Field)
    ensures
        spec_fields_bytes(seq![x]) == spec_field_bytes(x),
{
    let e = seq![x].drop_last();
    assert(e =~= Seq::<Field>::empty());
    assert(spec_fields_bytes(e) == Seq::<u8>::empty());
    assert(seq![x].last() == x);
    assert(spec_fields_bytes(seq![x]) =~= spec_fields_bytes(e) + spec_field_bytes(x));
    assert(Seq::<u8>::empty() + spec_field_bytes(x) =~= spec_field_bytes(x));
}

proof fn lemma_two_fields(x: Field, y: Field)
    ensures
        spec_fields_bytes(seq![x, y]) == spec_field_bytes(x) + spec_field_bytes(y),
{
    assert(seq![x, y].drop_last() =~= seq![x]);
    assert(seq![x, y].last() == y);
    lemma_one_field(x);
}

proof fn lemma_pairs_fields_bytes(d: Seq<(Seq<char>, Seq<char>)>)
    ensures
        spec_fields_bytes(spec_pairs_fields(d)) == spec_pairs_bytes(d),
    decreases d.len(),
{
    if d.len() > 0 {
        lemma_pairs_fields_bytes(d.drop_last());
        let x = d.last();
        lemma_fields_concat(
            spec_pairs_fields(d.drop_last()),
            seq![Field::Str(x.0), Field::Str(x.1)],
        );
        lemma_two_fields(Field::Str(x.0), Field::Str(x.1));
        assert(spec_pairs_bytes(d) =~= spec_pairs_bytes(d.drop_last()) + (spec_str_bytes(x.0)
            + spec_str_bytes(x.1)));
    }
}

proof fn lemma_param_fields_bytes(p: Seq<(u32, u32)>)
    ensures
        spec_fields_bytes(spec_param_fields(p)) == spec_params_bytes(p),
    decreases p.len(),
{
    if p.len() > 0 {
        lemma_param_fields_bytes(p.drop_last());
        let x = p.last();
        lemma_fields_concat(spec_param_fields(p.drop_last()), seq![Field::Id(x.0), Field::Int(x.1)]);
        lemma_two_fields(Field::Id(x.0), Field::Int(x.1));
        assert(spec_params_bytes(p) =~= spec_params_bytes(p.drop_last()) + (spec_field_bytes(
            Field::Id(x.0),
        ) + spec_field_bytes(Field::Int(x.1))));
    }
}

proof fn lemma_int_back(x: u32, rest: Seq<u8>)
    ensures
        spec_read_int(spec_field_bytes(Field::Int(x)) + rest) == Ok::<
            (u32, Seq<u8>),
            crate::pod_v2::deserialize::DeserializeError,
        >((x, rest)),
{
    law_field_read_back(Field::Int(x), rest);
}

proof fn lemma_long_back(x: u64, rest: Seq<u8>)
    ensures
        spec_read_long(spec_field_bytes(Field::Long(x)) + rest) == Ok::<
            (u64, Seq<u8>),
            crate::pod_v2::deserialize::DeserializeError,
        >((x, rest)),
{
    law_field_read_back(Field::Long(x), rest);
}

proof fn lemma_pods_back(ps: Seq<crate::pod_v2::deserialize::OwnedPod>, rest: Seq<u8>)
    requires
        forall|k: int| 0 <= k < ps.len() ==> spec_fits_u32(#[trigger] ps[k].view().body),
    ensures
        spec_read_pods(spec_fields_bytes(spec_pod_fields(ps)) + rest, ps.len() as int) == Ok::<
            (Seq<PodView>, Seq<u8>),
            crate::pod_v2::deserialize::DeserializeError,
        >((spec_pods_view(ps), rest)),
    decreases ps.len(),
{
    if ps.len() == 0 {
        assert(spec_pod_fields(ps) =~= Seq::<Field>::empty());
        assert(spec_pods_view(ps) =~= Seq::<PodView>::empty());
        assert(spec_fields_bytes(spec_pod_fields(ps)) + rest =~= rest);
    } else {
        let t = ps.drop_first();
        let f = Field::Pod(ps[0].view());
        assert forall|k: int| 0 <= k < t.len() implies spec_fits_u32(#[trigger] t[k].view().body) by {
            assert(t[k] == ps[k + 1]);
        }
        lemma_pods_back(t, rest);
        assert(spec_pod_fields(ps) =~= seq![f] + spec_pod_fields(t));
        lemma_fields_concat(seq![f], spec_pod_fields(t));
        lemma_one_field(f);
        assert(spec_fits_u32(ps[0].view().body));
        law_field_read_back(f, spec_fields_bytes(spec_pod_fields(t)) + rest);
        assert(spec_fields_bytes(spec_pod_fields(ps)) + rest =~= spec_field_bytes(f) + (
        spec_fields_bytes(spec_pod_fields(t)) + rest));
        assert(spec_pods_view(ps) =~= seq![ps[0].view()] + spec_pods_view(t));
    }
}

proof fn lemma_dict_back(d: Seq<(Seq<char>, Seq<char>)>, after: Seq<u8>)
    requires
        spec_pairs_ok(d),
        spec_pairs_readable(d),
    ensures
        crate::protocol::codec::spec_parse_dict(
            spec_fields_bytes(seq![Field::Int(d.len() as u32)] + spec_pairs_fields(d)) + after,
        ) == Ok::<(Seq<(Seq<char>, Seq<char>)>, Seq<u8>), crate::pod_v2::deserialize::DeserializeError>(
            (spec_dict_from(spec_text_pairs(d)), after),
        ),
{
    let n = Field::Int(d.len() as u32);
    lemma_pairs_fields_bytes(d);
    lemma_fields_concat(seq![n], spec_pairs_fields(d));
    lemma_one_field(n);
    law_field_read_back(n, spec_pairs_bytes(d) + after);
    assert forall|i: int|
        0 <= i < d.len() implies spec_no_nul(#[trigger] d[i].0) && spec_no_nul(d[i].1)
        && spec_str_ok(d[i].0) && spec_str_ok(d[i].1) by {
        assert(crate::protocol::codec::spec_pair_ok(d[i]));
    }
    lemma_pairs_read(d, after);
    assert((d.len() as u32) as i32 as int == d.len());
    assert(spec_fields_bytes(seq![n] + spec_pairs_fields(d)) + after =~= spec_field_bytes(n) + (
    spec_pairs_bytes(d) + after));
}

proof fn lemma_params_back(p: Seq<(u32, u32)>, rest: Seq<u8>)
    requires
        p.len() <= i32::MAX,
    ensures
        crate::protocol::codec::spec_parse_params(
            spec_fields_bytes(seq![Field::Int(p.len() as u32)] + spec_param_fields(p)) + rest,
        ) == Ok::<(Seq<(u32, u32)>, Seq<u8>), crate::pod_v2::deserialize::DeserializeError>(
            (p, rest),
        ),
{
    let m = Field::Int(p.len() as u32);
    lemma_param_fields_bytes(p);
    lemma_fields_concat(seq![m], spec_param_fields(p));
    lemma_one_field(m);
    law_field_read_back(m, spec_params_bytes(p) + rest);
    assert(spec_fields_bytes(seq![m] + spec_param_fields(p)) + rest =~= spec_field_bytes(m) + (
    spec_params_bytes(p) + rest));
    lemma_params_read(p, rest);
    assert((p.len() as u32) as i32 as int == p.len());
    if p.len() == 0 {
        assert(p =~= Seq::<(u32, u32)>::empty());
        assert(spec_params_bytes(p) + rest =~= rest);
    }
}

/// The dictionary and parameter infos that end a node or port info, written,
/// read back.
proof fn lemma_dict_params_back(d: Seq<(Seq<char>, Seq<char>)>, p: Seq<(u32, u32)>, rest: Seq<u8>)
    requires
        spec_pairs_ok(d),
        spec_pairs_readable(d),
        p.len() <= i32::MAX,
    ensures
        ({
            let s = spec_fields_bytes(
                seq![Field::Int(d.len() as u32)] + spec_pairs_fields(d) + seq![
                    Field::Int(p.len() as u32),
                ] + spec_param_fields(p),
            ) + rest;
            &&& crate::protocol::codec::spec_parse_dict(s) == Ok::<
                (Seq<(Seq<char>, Seq<char>)>, Seq<u8>),
                crate::pod_v2::deserialize::DeserializeError,
            >(
                (
                    spec_dict_from(spec_text_pairs(d)),
                    spec_fields_bytes(seq![Field::Int(p.len() as u32)] + spec_param_fields(p))
                        + rest,
                ),
            )
            &&& crate::protocol::codec::spec_parse_params(
                spec_fields_bytes(seq![Field::Int(p.len() as u32)] + spec_param_fields(p)) + rest,
            ) == Ok::<(Seq<(u32, u32)>, Seq<u8>), crate::pod_v2::deserialize::DeserializeError>(
                (p, rest),
            )
        }),
{
    let head = seq![Field::Int(d.len() as u32)] + spec_pairs_fields(d);
    let tail = seq![Field::Int(p.len() as u32)] + spec_param_fields(p);
    assert(head + tail =~= seq![Field::Int(d.len() as u32)] + spec_pairs_fields(d) + seq![
        Field::Int(p.len() as u32),
    ] + spec_param_fields(p));
    lemma_fields_concat(head, tail);
    assert(spec_fields_bytes(head + tail) + rest =~= spec_fields_bytes(head) + (spec_fields_bytes(
        tail,
    ) + rest));
    lemma_dict_back(d, spec_fields_bytes(tail) + rest);
    lemma_params_back(p, rest);
}

proof fn lemma_four_fields(a: Field, b: Field, c: Field, d: Field, rest: Seq<u8>)
    ensures
        spec_fields_bytes(seq![a, b, c, d]) + rest == spec_field_bytes(a) + (spec_field_bytes(b)
            + (spec_field_bytes(c) + (spec_field_bytes(d) + rest))),
{
    assert(seq![a, b, c, d].drop_last() =~= seq![a, b, c]);
    assert(seq![a, b, c, d].last() == d);
    assert(seq![a, b, c].drop_last() =~= seq![a, b]);
    assert(seq![a, b, c].last() == c);
    lemma_two_fields(a, b);
    assert(spec_fields_bytes(seq![a, b, c]) == spec_fields_bytes(seq![a, b]) + spec_field_bytes(c));
    assert(spec_fields_bytes(seq![a, b, c, d]) == spec_fields_bytes(seq![a, b, c])
        + spec_field_bytes(d));
    assert(spec_fields_bytes(seq![a, b, c, d]) + rest =~= spec_field_bytes(a) + (spec_field_bytes(
        b,
    ) + (spec_field_bytes(c) + (spec_field_bytes(d) + rest))));
}

proof fn lemma_node_info_back(i: NodeInfoView, rest: Seq<u8>)
    requires
        spec_pairs_ok(i.props),
        spec_pairs_readable(i.props),
        i.params.len() <= i32::MAX,
    ensures
        spec_read_node_info(spec_fields_bytes(spec_node_info_fields(i)) + rest) == Ok::<
            (NodeInfoView, Seq<u8>),
            crate::pod_v2::deserialize::DeserializeError,
        >((spec_node_info_read_back(i), rest)),
{
    let a = Field::Int(i.max_input_ports);
    let b = Field::Int(i.max_output_ports);
    let c = Field::Long(i.change_mask);
    let d = Field::Long(i.flags);
    let tail = seq![Field::Int(i.props.len() as u32)] + spec_pairs_fields(i.props) + seq![
        Field::Int(i.params.len() as u32),
    ] + spec_param_fields(i.params);
    assert(spec_node_info_fields(i) =~= seq![a, b, c, d] + tail);
    lemma_fields_concat(seq![a, b, c, d], tail);
    let t = spec_fields_bytes(tail) + rest;
    lemma_four_fields(a, b, c, d, t);
    assert(spec_fields_bytes(spec_node_info_fields(i)) + rest =~= spec_fields_bytes(
        seq![a, b, c, d],
    ) + t);
    lemma_int_back(i.max_input_ports, spec_field_bytes(b) + (spec_field_bytes(c) + (
    spec_field_bytes(d) + t)));
    lemma_int_back(i.max_output_ports, spec_field_bytes(c) + (spec_field_bytes(d) + t));
    lemma_long_back(i.change_mask, spec_field_bytes(d) + t);
    lemma_long_back(i.flags, t);
    lemma_dict_params_back(i.props, i.params, rest);
}

proof fn lemma_port_info_back(i: PortInfoView, rest: Seq<u8>)
    requires
        spec_pairs_ok(i.items),
        spec_pairs_readable(i.items),
        i.params.len() <= i32::MAX,
    ensures
        spec_read_port_info(spec_fields_bytes(spec_port_info_fields(i)) + rest) == Ok::<
            (PortInfoView, Seq<u8>),
            crate::pod_v2::deserialize::DeserializeError,
        >((spec_port_info_read_back(i), rest)),
{
    let a = Field::Long(i.change_mask);
    let b = Field::Long(i.flags);
    let c = Field::Int(i.rate_num);
    let d = Field::Int(i.rate_denom);
    let tail = seq![Field::Int(i.items.len() as u32)] + spec_pairs_fields(i.items) + seq![
        Field::Int(i.params.len() as u32),
    ] + spec_param_fields(i.params);
    assert(spec_port_info_fields(i) =~= seq![a, b, c, d] + tail);
    lemma_fields_concat(seq![a, b, c, d], tail);
    let t = spec_fields_bytes(tail) + rest;
    lemma_four_fields(a, b, c, d, t);
    assert(spec_fields_bytes(spec_port_info_fields(i)) + rest =~= spec_fields_bytes(
        seq![a, b, c, d],
    ) + t);
    lemma_long_back(i.change_mask, spec_field_bytes(b) + (spec_field_bytes(c) + (
    spec_field_bytes(d) + t)));
    lemma_long_back(i.flags, spec_field_bytes(c) + (spec_field_bytes(d) + t));
    lemma_int_back(i.rate_num, spec_field_bytes(d) + t);
    lemma_int_back(i.rate_denom, t);
    lemma_dict_params_back(i.items, i.params, rest);
}

/// The struct of a message whose fields can be written is read back as a
/// struct of their bytes.
proof fn lemma_message_head(fs: Seq<Field>)
    requires
        spec_fields_ok(fs),
    ensures
        spec_head_view(spec_message_bytes(fs)) == (PodView {
            ty: TYPE_STRUCT,
            body: spec_fields_bytes(fs),
        }),
{
    let content = spec_fields_bytes(fs);
    lemma_fields_len(fs);
    lemma_pod_read(TYPE_STRUCT, content, Seq::empty());
    assert(spec_encode(TYPE_STRUCT, content) + Seq::<u8>::empty() =~= spec_encode(
        TYPE_STRUCT,
        content,
    ));
}

/// An update of the node, written, is read back: its change mask and
/// parameters as they are, its info with the strings as they read back and
/// the dictionary's keys made unique.
#[verifier::rlimit(60)]
pub proof fn law_update_read_back(u: Update)
    requires
        spec_fields_ok(u.spec_fields()),
        u.params.len() <= i32::MAX,
        u.info matches Some(i) ==> spec_pairs_readable(i.view().props) && i.view().params.len()
            <= i32::MAX,
    ensures
        spec_parse_update(spec_head_view(spec_message_bytes(u.spec_fields()))) == Ok::<
            UpdateView,
            crate::pod_v2::deserialize::DeserializeError,
        >(
            UpdateView {
                change_mask: u.view().change_mask,
                params: u.view().params,
                info: match u.view().info {
                    Some(i) => Some(spec_node_info_read_back(i)),
                    None => None,
                },
            },
        ),
{
    let fs = u.spec_fields();
    lemma_message_head(fs);
    let a = Field::Int(u.change_mask.spec_bits());
    let b = Field::Int(u.params.len() as u32);
    let ps = spec_pod_fields(u.params@);
    let last = fs[fs.len() - 1];
    assert(fs =~= seq![a, b] + ps + seq![last]);
    lemma_fields_concat(seq![a, b] + ps, seq![last]);
    lemma_fields_concat(seq![a, b], ps);
    lemma_two_fields(a, b);
    lemma_one_field(last);
    let tl = spec_field_bytes(last);
    assert(spec_fields_bytes(fs) =~= spec_field_bytes(a) + (spec_field_bytes(b) + (
    spec_fields_bytes(ps) + tl)));
    lemma_int_back(u.change_mask.spec_bits(), spec_field_bytes(b) + (spec_fields_bytes(ps) + tl));
    lemma_int_back(u.params.len() as u32, spec_fields_bytes(ps) + tl);
    assert((u.params.len() as u32) as i32 as int == u.params.len());
    assert forall|k: int| 0 <= k < u.params@.len() implies spec_fits_u32(
        #[trigger] u.params@[k].view().body,
    ) by {
        assert(fs[2 + k] == Field::Pod(u.params@[k].view()));
        assert(spec_field_ok(fs[2 + k]));
    }
    lemma_pods_back(u.params@, tl);
    assert(spec_field_ok(fs[fs.len() - 1]));
    law_field_read_back(last, Seq::empty());
    assert(tl + Seq::<u8>::empty() =~= tl);
    match u.info {
        Some(i) => {
            let ifs = spec_node_info_fields(i.view());
            lemma_pairs_fields_len(i.view().props);
            lemma_pairs_within_ok(ifs, 5, i.view().props);
            lemma_node_info_back(i.view(), Seq::empty());
            assert(spec_fields_bytes(ifs) + Seq::<u8>::empty() =~= spec_fields_bytes(ifs));
        },
        None => {},
    }
}

/// A port update, written, is read back: its direction, port, change mask
/// and parameters as they are, its info with the strings as they read back
/// and the dictionary's keys made unique.
#[verifier::rlimit(60)]
pub proof fn law_port_update_read_back(u: PortUpdate)
    requires
        spec_fields_ok(u.spec_fields()),
        u.params.len() <= i32::MAX,
        u.info matches Some(i) ==> spec_pairs_readable(i.view().items) && i.view().params.len()
            <= i32::MAX,
    ensures
        spec_parse_port_update(spec_head_view(spec_message_bytes(u.spec_fields()))) == Ok::<
            PortUpdateView,
            crate::pod_v2::deserialize::DeserializeError,
        >(
            PortUpdateView {
                direction: u.view().direction,
                port_id: u.view().port_id,
                change_mask: u.view().change_mask,
                params: u.view().params,
                info: match u.view().info {
                    Some(i) => Some(spec_port_info_read_back(i)),
                    None => None,
                },
            },
        ),
{
    let fs = u.spec_fields();
    lemma_message_head(fs);
    let a = Field::Int(crate::spa_enum::spec_spa_enum_as_raw(u.direction));
    let b = Field::Int(u.port_id);
    let c = Field::Int(u.change_mask.spec_bits());
    let d = Field::Int(u.params.len() as u32);
    let ps = spec_pod_fields(u.params@);
    let last = fs[fs.len() - 1];
    assert(fs =~= seq![a, b, c, d] + ps + seq![last]);
    lemma_fields_concat(seq![a, b, c, d] + ps, seq![last]);
    lemma_fields_concat(seq![a, b, c, d], ps);
    lemma_one_field(last);
    let tl = spec_field_bytes(last);
    let t = spec_fields_bytes(ps) + tl;
    lemma_four_fields(a, b, c, d, t);
    assert(spec_fields_bytes(fs) =~= spec_fields_bytes(seq![a, b, c, d]) + t);
    lemma_int_back(crate::spa_enum::spec_spa_enum_as_raw(u.direction), spec_field_bytes(b) + (
    spec_field_bytes(c) + (spec_field_bytes(d) + t)));
    lemma_int_back(u.port_id, spec_field_bytes(c) + (spec_field_bytes(d) + t));
    lemma_int_back(u.change_mask.spec_bits(), spec_field_bytes(d) + t);
    lemma_int_back(u.params.len() as u32, t);
    assert((u.params.len() as u32) as i32 as int == u.params.len());
    assert forall|k: int| 0 <= k < u.params@.len() implies spec_fits_u32(
        #[trigger] u.params@[k].view().body,
    ) by {
        assert(fs[4 + k] == Field::Pod(u.params@[k].view()));
        assert(spec_field_ok(fs[4 + k]));
    }
    lemma_pods_back(u.params@, tl);
    assert(spec_field_ok(fs[fs.len() - 1]));
    law_field_read_back(last, Seq::empty());
    assert(tl + Seq::<u8>::empty() =~= tl);
    match u.info {
        Some(i) => {
            let ifs = spec_port_info_fields(i.view());
            lemma_pairs_fields_len(i.view().items);
            lemma_pairs_within_ok(ifs, 5, i.view().items);
            lemma_port_info_back(i.view(), Seq::empty());
            assert(spec_fields_bytes(ifs) + Seq::<u8>::empty() =~= spec_fields_bytes(ifs));
        },
        None => {},
    }
}

} // verus!
