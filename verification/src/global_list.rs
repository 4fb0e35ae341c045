//! The global objects the registry announced, in the order it announced them.

use vstd::prelude::*;
use crate::protocol::{spec_dict_view, EventDeserialize, PwDictionary};
use crate::protocol::codec::Field;
use crate::protocol::pw_registry;
use crate::protocol::pw_registry::events::Global;

verus! {

/// The fields of each global.
pub open spec fn spec_globals_view(gs: Seq<Global>) -> Seq<Seq<Field>> {
    gs.map_values(|g: Global| g.spec_fields())
}

/// The globals after one registry event: a new global is added at the end; a
/// removal leaves them as they are.
pub open spec fn spec_step(v: Seq<Seq<Field>>, e: pw_registry::Event) -> Seq<Seq<Field>> {
    match e {
        pw_registry::Event::Global(g) => v.push(g.spec_fields()),
        pw_registry::Event::GlobalRemove(_) => v,
    }
}

/// The globals after a run of registry events, one after the other.
pub open spec fn spec_run(v: Seq<Seq<Field>>, evs: Seq<pw_registry::Event>) -> Seq<Seq<Field>>
    decreases evs.len(),
{
    if evs.len() == 0 {
        v
    } else {
        spec_step(spec_run(v, evs.drop_last()), evs.last())
    }
}

/// The number of new globals among the events.
pub open spec fn spec_global_count(evs: Seq<pw_registry::Event>) -> nat
    decreases evs.len(),
{
    if evs.len() == 0 {
        0
    } else {
        spec_global_count(evs.drop_last()) + if evs.last() is Global {
            1nat
        } else {
            0nat
        }
    }
}

/// The fields of the new globals among the events, in their order.
pub open spec fn spec_announced(evs: Seq<pw_registry::Event>) -> Seq<Seq<Field>>
    decreases evs.len(),
{
    if evs.len() == 0 {
        Seq::empty()
    } else {
        match evs.last() {
            pw_registry::Event::Global(g) => spec_announced(evs.drop_last()).push(g.spec_fields()),
            pw_registry::Event::GlobalRemove(_) => spec_announced(evs.drop_last()),
        }
    }
}

/// After a run of events the list holds one more global for each new global
/// announced; removals never change the count.
pub proof fn law_global_count(v: Seq<Seq<Field>>, evs: Seq<pw_registry::Event>)
    ensures
        spec_run(v, evs).len() == v.len() + spec_global_count(evs),
    decreases evs.len(),
{
    if evs.len() > 0 {
        law_global_count(v, evs.drop_last());
    }
}

/// After a run of events the list holds what it held, then the globals
/// announced, in the order they were announced.
pub proof fn law_globals_in_order(v: Seq<Seq<Field>>, evs: Seq<pw_registry::Event>)
    ensures
        spec_run(v, evs) == v + spec_announced(evs),
    decreases evs.len(),
{
    if evs.len() == 0 {
        assert(v + Seq::<Seq<Field>>::empty() =~= v);
    } else {
        law_globals_in_order(v, evs.drop_last());
        match evs.last() {
            pw_registry::Event::Global(g) => {
                assert(v + spec_announced(evs.drop_last()).push(g.spec_fields()) =~= (v
                    + spec_announced(evs.drop_last())).push(g.spec_fields()));
            },
            pw_registry::Event::GlobalRemove(_) => {},
        }
    }
}

/// A copy of a dictionary.
fn clone_dict(d: &PwDictionary) -> (r: PwDictionary)
    ensures
        spec_dict_view(r@) == spec_dict_view(d@),
{
    let mut r: PwDictionary = Vec::new();
    let n = d.len();
    let mut i: usize = 0;
    while i < n
        invariant
            n == d@.len(),
            i <= n,
            spec_dict_view(r@) == spec_dict_view(d@).subrange(0, i as int),
        decreases n - i,
    {
        let k = d[i].0.clone();
        let v = d[i].1.clone();
        assert(k@ == d@[i as int].0@);
        assert(v@ == d@[i as int].1@);
        let ghost before = r@;
        let ghost kv = (k@, v@);
        r.push((k, v));
        assert(spec_dict_view(r@) =~= spec_dict_view(before).push(kv));
        assert(spec_dict_view(d@).subrange(0, i + 1) =~= spec_dict_view(d@).subrange(0, i as int).push(
            kv,
        ));
        i = i + 1;
    }
    assert(spec_dict_view(d@).subrange(0, n as int) =~= spec_dict_view(d@));
    r
}

/// A copy of a global.
fn clone_global(g: &Global) -> (r: Global)
    ensures
        r.spec_fields() == g.spec_fields(),
{
    Global {
        id: g.id,
        permissions: g.permissions,
        interface: g.interface.clone(),
        version: g.version,
        properties: clone_dict(&g.properties),
    }
}

/// The globals the registry announced.
#[derive(Debug)]
pub struct GlobalList {
    globals: Vec<Global>,
}

impl GlobalList {
    /// The fields of each global, in the order they were announced.
    pub closed spec fn view(self) -> Seq<Seq<Field>> {
        spec_globals_view(self.globals@)
    }

    /// Take a registry event into account: a new global is added at the end;
    /// a removal leaves the list as it is.
    pub fn handle_event(&mut self, event: &pw_registry::Event)
        ensures
            match event {
                pw_registry::Event::Global(g) => final(self).view() == old(self).view().push(
                    g.spec_fields(),
                ),
                pw_registry::Event::GlobalRemove(_) => final(self).view() == old(self).view(),
            },
            final(self).view() == spec_step(old(self).view(), *event),
    {
        match event {
            pw_registry::Event::Global(global) => {
                let g = clone_global(global);
                let ghost before = self.globals@;
                self.globals.push(g);
                assert(spec_globals_view(self.globals@) =~= spec_globals_view(before).push(
                    global.spec_fields(),
                ));
            },
            pw_registry::Event::GlobalRemove(_) => {},
        }
    }

    /// The number of globals.
    pub fn len(&self) -> (r: usize)
        ensures
            r == self.view().len(),
    {
        self.globals.len()
    }

    /// There is no global.
    pub fn is_empty(&self) -> (r: bool)
        ensures
            r == (self.view().len() == 0),
    {
        self.globals.len() == 0
    }

    /// The globals, in the order they were announced.
    pub fn iter(&self) -> (r: &[Global])
        ensures
            spec_globals_view(r@) == self.view(),
    {
        self.globals.as_slice()
    }
}

impl Default for GlobalList {
    fn default() -> (r: Self)
        ensures
            r.view() == Seq::<Seq<Field>>::empty(),
    {
        let r = GlobalList { globals: Vec::new() };
        assert(r.view() =~= Seq::<Seq<Field>>::empty());
        r
    }
}

} // verus!
