//! Framing of protocol messages: the 16-byte header, the body pod with its
//! optional footer pod, and the file descriptors sent along. The socket
//! itself is driven by the caller, which hands received bytes to a
//! [`MessageBuffer`].

use vstd::prelude::*;
use std::collections::VecDeque;
use crate::bytes::{read_u32, spec_le32, spec_u32_bytes};
use crate::pod_v2::deserialize::{spec_head_view, PodDeserializer};
use crate::pod_v2::format::{check_head, spec_pod_rest, spec_valid_head};

verus! {

/// The most file descriptors sent with one message.
pub const MAX_FDS_OUT: usize = 28;

/// The bytes the receive buffer holds at most.
pub const BUFFER_SIZE: usize = 4096;

/// The header of a message.
#[derive(Debug, Clone, Copy, PartialEq, Eq, Structural)]
pub struct Header {
    pub object_id: u32,
    pub opcode: u8,
    pub len: u32,
    pub seq: u32,
    pub n_fds: u32,
}

/// The header that four words hold: the opcode is the top byte of the second
/// word and the length its low 24 bits.
pub open spec fn spec_header_of_words(w0: u32, w1: u32, w2: u32, w3: u32) -> Header {
    Header { object_id: w0, opcode: (w1 >> 24u32) as u8, len: w1 & 0x00ffffffu32, seq: w2, n_fds: w3 }
}

/// The second word of a header.
pub open spec fn spec_opcode_len_word(opcode: u8, len: u32) -> u32 {
    ((opcode as u32) << 24u32) | (len & 0x00ffffffu32)
}

/// The 16 bytes of a header.
pub open spec fn spec_header_bytes(h: Header) -> Seq<u8> {
    spec_u32_bytes(h.object_id) + spec_u32_bytes(spec_opcode_len_word(h.opcode, h.len))
        + spec_u32_bytes(h.seq) + spec_u32_bytes(h.n_fds)
}

/// The header at the start of `s`.
pub open spec fn spec_header_at(s: Seq<u8>) -> Header {
    spec_header_of_words(spec_le32(s, 0), spec_le32(s, 4), spec_le32(s, 8), spec_le32(s, 12))
}

impl Header {
    /// The header held by the first four words of `bytes`.
    pub fn deserialize(bytes: &[u32]) -> (r: Self)
        requires
            bytes@.len() >= 4,
        ensures
            r == spec_header_of_words(bytes@[0], bytes@[1], bytes@[2], bytes@[3]),
    {
        let object_id = bytes[0];
        let w1 = bytes[1];
        let opcode = w1 >> 24u32;
        let len = w1 & 0x00ffffffu32;
        let seq = bytes[2];
        let n_fds = bytes[3];
        proof {
            assert(opcode < 256) by (bit_vector)
                requires
                    opcode == w1 >> 24u32,
            ;
        }
        Header { object_id, opcode: opcode as u8, len, seq, n_fds }
    }

    /// The 16 bytes of the header.
    pub fn serialize(&self) -> (r: [u8; 16])
        ensures
            r@ == spec_header_bytes(*self),
    {
        let opcode = self.opcode as u32;
        let w1 = (opcode << 24u32) | (self.len & 0x00ffffffu32);
        let a = vstd::bytes::u32_to_le_bytes(self.object_id);
        let b = vstd::bytes::u32_to_le_bytes(w1);
        let c = vstd::bytes::u32_to_le_bytes(self.seq);
        let d = vstd::bytes::u32_to_le_bytes(self.n_fds);
        let r: [u8; 16] = [
            a[0],
            a[1],
            a[2],
            a[3],
            b[0],
            b[1],
            b[2],
            b[3],
            c[0],
            c[1],
            c[2],
            c[3],
            d[0],
            d[1],
            d[2],
            d[3],
        ];
        assert(r@ =~= spec_header_bytes(*self));
        r
    }
}

/// A header whose length fits its 24 bits is read back unchanged from its
/// bytes.
pub proof fn law_header_roundtrip(h: Header, rest: Seq<u8>)
    requires
        h.len <= 0x00ffffff,
    ensures
        spec_header_bytes(h).len() == 16,
        spec_header_at(spec_header_bytes(h) + rest) == h,
        (spec_header_bytes(h) + rest).subrange(16, (spec_header_bytes(h) + rest).len() as int)
            == rest,
{
    let s = spec_header_bytes(h) + rest;
    let w1 = spec_opcode_len_word(h.opcode, h.len);
    crate::bytes::lemma_u32_bytes(h.object_id);
    crate::bytes::lemma_u32_bytes(w1);
    crate::bytes::lemma_u32_bytes(h.seq);
    crate::bytes::lemma_u32_bytes(h.n_fds);
    assert(s.subrange(0, 4) =~= spec_u32_bytes(h.object_id));
    assert(s.subrange(4, 8) =~= spec_u32_bytes(w1));
    assert(s.subrange(8, 12) =~= spec_u32_bytes(h.seq));
    assert(s.subrange(12, 16) =~= spec_u32_bytes(h.n_fds));
    let op = h.opcode;
    let len = h.len;
    assert((((op as u32) << 24u32) | (len & 0x00ffffffu32)) >> 24u32 == op as u32) by (bit_vector);
    assert((((op as u32) << 24u32) | (len & 0x00ffffffu32)) & 0x00ffffffu32 == len) by (bit_vector)
        requires
            len <= 0x00ffffff,
    ;
    assert(s.subrange(16, s.len() as int) =~= rest);
}

/// `s` starts with the first message of an old version of the protocol,
/// which is not supported.
pub open spec fn spec_old_hello(s: Seq<u8>) -> bool {
    let h = spec_header_at(s);
    h.object_id == 0 && h.opcode == 1 && h.n_fds >= 4
}

/// Read the header at the start of `buff`; also give what follows it.
pub fn read_header(buff: &[u8]) -> (r: Option<(&[u8], Header)>)
    requires
        buff@.len() >= 16 ==> !spec_old_hello(buff@),
    ensures
        buff@.len() < 16 ==> r is None,
        buff@.len() >= 16 ==> (r matches Some((rest, h)) && h == spec_header_at(buff@) && rest@
            == buff@.subrange(16, buff@.len() as int)),
{
    let n = buff.len();
    if n < 16 {
        return None;
    }
    let words: [u32; 4] = [
        read_u32(buff, 0),
        read_u32(buff, 4),
        read_u32(buff, 8),
        read_u32(buff, 12),
    ];
    let header = Header::deserialize(words.as_slice());
    Some((&buff[16..n], header))
}

/// The body of a message and its footer, when the body's bytes hold a second
/// pod.
pub open spec fn spec_footer_ok(body: Seq<u8>) -> bool {
    spec_valid_head(body) && (spec_pod_rest(body).len() > 0 ==> spec_valid_head(
        spec_pod_rest(body),
    ))
}

/// `body` is a well-formed pod, followed by nothing or by a well-formed
/// footer pod.
pub fn check_footer(body: &[u8]) -> (r: bool)
    ensures
        r == spec_footer_ok(body@),
{
    if !check_head(body) {
        return false;
    }
    let (_pod, rest) = PodDeserializer::new(body);
    rest.len() == 0 || check_head(rest)
}

/// Read the body pod of a message of length `header.len` at the start of
/// `buff`, and the footer pod that may follow it; also give what follows.
fn read_body_and_footer<'a>(buff: &'a [u8], header: &Header) -> (r: Option<
    (&'a [u8], PodDeserializer<'a>, Option<PodDeserializer<'a>>),
>)
    requires
        header.len <= buff@.len(),
        spec_footer_ok(buff@.subrange(0, header.len as int)),
    ensures
        r matches Some((rest, body, footer)) && rest@ == buff@.subrange(
            header.len as int,
            buff@.len() as int,
        ) && body.view() == spec_head_view(buff@.subrange(0, header.len as int)) && match footer {
            Some(f) => spec_pod_rest(buff@.subrange(0, header.len as int)).len() > 0 && f.view()
                == spec_head_view(spec_pod_rest(buff@.subrange(0, header.len as int))),
            None => spec_pod_rest(buff@.subrange(0, header.len as int)).len() == 0,
        } && body.valid() && (footer matches Some(f) ==> f.valid()),
{
    let n = buff.len();
    let len = header.len as usize;
    let bytes = &buff[0..len];
    let (body, footer) = PodDeserializer::new(bytes);
    let footer = if footer.len() == 0 {
        None
    } else {
        let (footer, _rest) = PodDeserializer::new(footer);
        Some(footer)
    };
    Some((&buff[len..n], body, footer))
}

/// Take the file descriptors of a message from the front of `fds`.
fn read_fds(fds: &mut VecDeque<i32>, header: &Header) -> (r: Vec<i32>)
    requires
        old(fds)@.len() >= header.n_fds,
    ensures
        r@ == old(fds)@.subrange(0, header.n_fds as int),
        final(fds)@ == old(fds)@.subrange(header.n_fds as int, old(fds)@.len() as int),
{
    let mut msg_fds: Vec<i32> = Vec::new();
    let mut i: u32 = 0;
    while i < header.n_fds
        invariant
            i <= header.n_fds,
            old(fds)@.len() >= header.n_fds,
            msg_fds@ == old(fds)@.subrange(0, i as int),
            fds@ == old(fds)@.subrange(i as int, old(fds)@.len() as int),
        decreases header.n_fds - i,
    {
        match fds.pop_front() {
            Some(fd) => {
                msg_fds.push(fd);
                assert(msg_fds@ =~= old(fds)@.subrange(0, i + 1));
                assert(fds@ =~= old(fds)@.subrange(i + 1, old(fds)@.len() as int));
            },
            None => {
                assert(false);
            },
        }
        i = i + 1;
    }
    msg_fds
}

/// A message: its header, body and footer pods, and the file descriptors
/// sent with it.
#[derive(Clone)]
pub struct Message<'a> {
    pub header: Header,
    pub body: PodDeserializer<'a>,
    pub footer: Option<PodDeserializer<'a>>,
    pub fds: Vec<i32>,
}

/// The message at the start of `buff`, what follows it, and its file
/// descriptors taken from the front of `fds`; `None` when `buff` holds less
/// than a header.
pub fn read_msg<'a>(buff: &'a [u8], fds: &mut VecDeque<i32>) -> (r: Option<(&'a [u8], Message<'a>)>)
    requires
        buff@.len() >= 16 ==> !spec_old_hello(buff@),
        buff@.len() >= 16 ==> spec_header_at(buff@).len + 16 <= buff@.len() && spec_footer_ok(
            buff@.subrange(16, 16 + spec_header_at(buff@).len),
        ) && old(fds)@.len() >= spec_header_at(buff@).n_fds,
    ensures
        buff@.len() < 16 ==> r is None && final(fds)@ == old(fds)@,
        buff@.len() >= 16 ==> (r matches Some((rest, msg)) && msg.header == spec_header_at(buff@)
            && msg.body.view() == spec_head_view(buff@.subrange(16, 16 + msg.header.len))
            && msg.body.valid() && rest@ == buff@.subrange(16 + msg.header.len, buff@.len() as int) && msg.fds@
            == old(fds)@.subrange(0, msg.header.n_fds as int) && final(fds)@ == old(fds)@.subrange(
            msg.header.n_fds as int,
            old(fds)@.len() as int,
        )),
{
    let (buff2, header) = match read_header(buff) {
        Some(x) => x,
        None => {
            return None;
        },
    };
    proof {
        assert(buff2@.subrange(0, header.len as int) =~= buff@.subrange(16, 16 + header.len));
    }
    let (rest, body, footer) = match read_body_and_footer(buff2, &header) {
        Some(x) => x,
        None => {
            return None;
        },
    };
    let msg_fds = read_fds(fds, &header);
    proof {
        assert(rest@ =~= buff@.subrange(16 + header.len, buff@.len() as int));
    }
    Some((rest, Message { header, body, footer, fds: msg_fds }))
}

/// What a receive buffer holds: the received bytes not yet taken, the file
/// descriptors received, and the bytes of the message being gathered.
pub ghost struct MessageBufferView {
    pub pending: Seq<u8>,
    pub fds: Seq<i32>,
    pub staging: Seq<u8>,
}

/// A buffer that gathers messages from the bytes received on a socket.
pub struct MessageBuffer {
    buffer: Vec<u8>,
    fds: VecDeque<i32>,
    start: usize,
    end: usize,
    staging_buffer: Vec<u8>,
}

impl Default for MessageBuffer {
    fn default() -> (r: Self)
        ensures
            r.wf(),
            r.view() == (MessageBufferView {
                pending: Seq::empty(),
                fds: Seq::empty(),
                staging: Seq::empty(),
            }),
    {
        MessageBuffer::new()
    }
}

impl MessageBuffer {
    /// The received bytes lie within the buffer.
    pub closed spec fn wf(self) -> bool {
        &&& self.buffer@.len() == BUFFER_SIZE
        &&& self.start <= self.end <= self.buffer@.len()
    }

    pub closed spec fn view(self) -> MessageBufferView {
        MessageBufferView {
            pending: self.buffer@.subrange(self.start as int, self.end as int),
            fds: self.fds@,
            staging: self.staging_buffer@,
        }
    }

    /// An empty buffer.
    pub fn new() -> (r: Self)
        ensures
            r.wf(),
            r.view() == (MessageBufferView {
                pending: Seq::empty(),
                fds: Seq::empty(),
                staging: Seq::empty(),
            }),
    {
        let buffer = vec![0u8; BUFFER_SIZE];
        let r = MessageBuffer {
            buffer,
            fds: VecDeque::new(),
            start: 0,
            end: 0,
            staging_buffer: Vec::new(),
        };
        assert(r.view().pending =~= Seq::<u8>::empty());
        r
    }

    /// The number of received bytes not yet taken.
    fn len(&self) -> (r: usize)
        requires
            self.wf(),
        ensures
            r == self.view().pending.len(),
    {
        self.end - self.start
    }

    /// The number of file descriptors received and not yet taken.
    pub fn fd_count(&self) -> (r: usize)
        ensures
            r == self.view().fds.len(),
    {
        self.fds.len()
    }

    /// Every received byte has been taken.
    pub fn is_drained(&self) -> (r: bool)
        requires
            self.wf(),
        ensures
            r == (self.view().pending.len() == 0),
    {
        self.start == self.end
    }

    /// Hand over what one receive gave: `data` (at most [`BUFFER_SIZE`]
    /// bytes) and the file descriptors sent with it. Every earlier byte must
    /// have been taken.
    pub fn receive(&mut self, data: &[u8], fds: &[i32])
        requires
            old(self).wf(),
            old(self).view().pending.len() == 0,
            data@.len() <= BUFFER_SIZE,
        ensures
            final(self).wf(),
            final(self).view() == (MessageBufferView {
                pending: data@,
                fds: old(self).view().fds + fds@,
                staging: old(self).view().staging,
            }),
    {
        let n = data.len();
        let mut i: usize = 0;
        while i < n
            invariant
                n == data@.len(),
                n <= BUFFER_SIZE,
                i <= n,
                self.buffer@.len() == BUFFER_SIZE,
                self.buffer@.subrange(0, i as int) == data@.subrange(0, i as int),
                self.fds@ == old(self).fds@,
                self.staging_buffer@ == old(self).staging_buffer@,
            decreases n - i,
        {
            self.buffer.set(i, data[i]);
            assert(self.buffer@.subrange(0, i + 1) =~= data@.subrange(0, i + 1));
            i = i + 1;
        }
        self.start = 0;
        self.end = n;
        let m = fds.len();
        let mut j: usize = 0;
        let ghost fds0 = self.fds@;
        while j < m
            invariant
                m == fds@.len(),
                j <= m,
                self.fds@ == fds0 + fds@.subrange(0, j as int),
                n == data@.len(),
                n <= BUFFER_SIZE,
                self.buffer@.len() == BUFFER_SIZE,
                self.buffer@.subrange(0, n as int) == data@.subrange(0, n as int),
                self.start == 0,
                self.end == n,
                self.staging_buffer@ == old(self).staging_buffer@,
                fds0 == old(self).fds@,
            decreases m - j,
        {
            self.fds.push_back(fds[j]);
            assert(self.fds@ =~= fds0 + fds@.subrange(0, j + 1));
            j = j + 1;
        }
        assert(fds@.subrange(0, m as int) =~= fds@);
        assert(data@.subrange(0, n as int) =~= data@);
    }

    /// Start gathering a new message.
    pub fn clear_staging(&mut self)
        requires
            old(self).wf(),
        ensures
            final(self).wf(),
            final(self).view() == (MessageBufferView {
                staging: Seq::empty(),
                ..old(self).view()
            }),
    {
        self.staging_buffer.clear();
    }

    /// Move up to `needed` received bytes to the message being gathered;
    /// give how many are still needed.
    pub fn stage(&mut self, needed: usize) -> (r: usize)
        requires
            old(self).wf(),
        ensures
            final(self).wf(),
            ({
                let k = if needed < old(self).view().pending.len() {
                    needed as int
                } else {
                    old(self).view().pending.len() as int
                };
                &&& r == needed - k
                &&& final(self).view() == (MessageBufferView {
                    pending: old(self).view().pending.subrange(
                        k,
                        old(self).view().pending.len() as int,
                    ),
                    fds: old(self).view().fds,
                    staging: old(self).view().staging + old(self).view().pending.subrange(0, k),
                })
            }),
    {
        let len = self.len();
        let read = if needed < len {
            needed
        } else {
            len
        };
        let start = self.start;
        let mut i: usize = 0;
        let ghost staging0 = self.staging_buffer@;
        while i < read
            invariant
                i <= read,
                read <= len,
                len == self.end - self.start,
                start == self.start,
                self.buffer@.len() == BUFFER_SIZE,
                self.buffer@ == old(self).buffer@,
                self.fds@ == old(self).fds@,
                self.end == old(self).end,
                self.start == old(self).start,
                staging0 == old(self).staging_buffer@,
                self.start <= self.end <= self.buffer@.len(),
                self.staging_buffer@ == staging0 + self.buffer@.subrange(
                    start as int,
                    start + i,
                ),
            decreases read - i,
        {
            let b = self.buffer[start + i];
            self.staging_buffer.push(b);
            assert(self.staging_buffer@ =~= staging0 + self.buffer@.subrange(
                start as int,
                start + i + 1,
            ));
            i = i + 1;
        }
        self.start = start + read;
        assert(self.buffer@.subrange(start as int, self.end as int).subrange(read as int, len as int)
            =~= self.buffer@.subrange(self.start as int, self.end as int));
        assert(self.buffer@.subrange(start as int, self.end as int).subrange(0, read as int)
            =~= self.buffer@.subrange(start as int, start + read));
        needed - read
    }

    /// The bytes of the message gathered so far.
    pub fn staged(&self) -> (r: &[u8])
        ensures
            r@ == self.view().staging,
    {
        self.staging_buffer.as_slice()
    }

    /// The message gathered in full: its body and footer pods read from the
    /// gathered bytes, with its file descriptors taken.
    pub fn take_message<'a>(&'a mut self, header: &Header) -> (r: Message<'a>)
        requires
            old(self).wf(),
            header.len <= old(self).view().staging.len(),
            spec_footer_ok(old(self).view().staging.subrange(0, header.len as int)),
            old(self).view().fds.len() >= header.n_fds,
        ensures
            r.header == *header,
            r.body.view() == spec_head_view(old(self).view().staging.subrange(0, header.len as int)),
            r.fds@ == old(self).view().fds.subrange(0, header.n_fds as int),
    {
        let fds = read_fds(&mut self.fds, header);
        let this: &'a MessageBuffer = self;
        let (_rest, body, footer) = read_body_and_footer(this.staging_buffer.as_slice(), header).unwrap();
        Message { header: *header, body, footer, fds }
    }

    /// Take the file descriptors of a message.
    pub fn take_fds(&mut self, header: &Header) -> (r: Vec<i32>)
        requires
            old(self).wf(),
            old(self).view().fds.len() >= header.n_fds,
        ensures
            final(self).wf(),
            r@ == old(self).view().fds.subrange(0, header.n_fds as int),
            final(self).view() == (MessageBufferView {
                fds: old(self).view().fds.subrange(
                    header.n_fds as int,
                    old(self).view().fds.len() as int,
                ),
                ..old(self).view()
            }),
    {
        read_fds(&mut self.fds, header)
    }
}

} // verus!
