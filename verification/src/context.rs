//! The client's side of a connection: the messages waiting to be sent, in
//! order, and the ids of the objects the client creates.

use vstd::prelude::*;
use crate::proxy::{ObjectId, PwClient, PwCore};

verus! {

/// A message to send: its bytes and the file descriptors to send with it.
pub type OutgoingMessage = (Vec<u8>, Vec<i32>);

/// What a context holds: the messages to send, and the next id to give out.
pub ghost struct ContextView {
    pub outgoing: Seq<(Seq<u8>, Seq<i32>)>,
    pub next_id: u32,
}

/// The client's side of a connection.
pub struct Context {
    outgoing: Vec<OutgoingMessage>,
    next_id: u32,
}

/// The contents of a queue of messages.
pub open spec fn spec_outgoing_view(q: Seq<OutgoingMessage>) -> Seq<(Seq<u8>, Seq<i32>)> {
    q.map_values(|m: OutgoingMessage| (m.0@, m.1@))
}

impl Context {
    pub closed spec fn view(self) -> ContextView {
        ContextView { outgoing: spec_outgoing_view(self.outgoing@), next_id: self.next_id }
    }

    /// A context with nothing to send; the core and the client objects have
    /// ids 0 and 1, so new objects start at 2.
    pub fn new() -> (r: Self)
        ensures
            r.view() == (ContextView { outgoing: Seq::empty(), next_id: 2 }),
    {
        let r = Context { outgoing: Vec::new(), next_id: 2 };
        assert(r.view().outgoing =~= Seq::<(Seq<u8>, Seq<i32>)>::empty());
        r
    }

    /// The core object.
    pub fn core_proxy(&self) -> (r: PwCore)
        ensures
            r.spec_id() == 0,
    {
        PwCore::new(0)
    }

    /// The client object.
    pub fn client_proxy(&self) -> (r: PwClient)
        ensures
            r.spec_id() == 1,
    {
        PwClient::new(1)
    }

    /// Queue a message.
    pub fn send_msg(&mut self, msg: &[u8], fds: &[i32])
        ensures
            final(self).view() == (ContextView {
                outgoing: old(self).view().outgoing.push((msg@, fds@)),
                ..old(self).view()
            }),
    {
        let m = (vstd::slice::slice_to_vec(msg), vstd::slice::slice_to_vec(fds));
        let ghost q = self.outgoing@;
        self.outgoing.push(m);
        assert(spec_outgoing_view(self.outgoing@) =~= spec_outgoing_view(q).push((msg@, fds@)));
    }

    /// Give out the id of a new object.
    pub fn new_object(&mut self) -> (r: ObjectId)
        requires
            old(self).view().next_id < u32::MAX,
        ensures
            r == ObjectId::spec_new(old(self).view().next_id),
            final(self).view() == (ContextView {
                next_id: (old(self).view().next_id + 1) as u32,
                ..old(self).view()
            }),
    {
        let id = self.next_id;
        self.next_id = id + 1;
        ObjectId::new(id)
    }

    /// The id the next new object gets.
    pub fn next_object_id(&self) -> (r: u32)
        ensures
            r == self.view().next_id,
    {
        self.next_id
    }

    /// Take the messages to send, in order.
    pub fn take_outgoing(&mut self) -> (r: Vec<OutgoingMessage>)
        ensures
            spec_outgoing_view(r@) == old(self).view().outgoing,
            final(self).view() == (ContextView { outgoing: Seq::empty(), ..old(self).view() }),
    {
        let mut q: Vec<OutgoingMessage> = Vec::new();
        std::mem::swap(&mut q, &mut self.outgoing);
        assert(spec_outgoing_view(self.outgoing@) =~= Seq::<(Seq<u8>, Seq<i32>)>::empty());
        q
    }
}

} // verus!
