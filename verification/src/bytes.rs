//! Byte-level helpers shared by the POD readers and writers: 8-byte padding and
//! little-endian integer encoding.

use vstd::prelude::*;
use vstd::bytes::*;

verus! {

/// Number of zero bytes that follow a body of `size` bytes so that the next
/// item starts on an 8-byte boundary.
pub open spec fn spec_pad_to_8(size: u32) -> u32 {
    if size % 8 == 0 {
        0
    } else {
        (8 - (size % 8)) as u32
    }
}

/// Padding needed after `size` bytes to reach the next multiple of 8.
pub fn pad_to_8(size: u32) -> (r: u32)
    ensures
        r == spec_pad_to_8(size),
        r < 8,
        (size as int + r as int) % 8 == 0,
{
    if size % 8 == 0 {
        0
    } else {
        8 - (size % 8)
    }
}

} // verus!

verus! {

/// The `u32` stored little-endian at offset `i` of `s`.
pub open spec fn spec_le32(s: Seq<u8>, i: int) -> u32 {
    spec_u32_from_le_bytes(s.subrange(i, i + 4))
}

/// The `u64` stored little-endian at offset `i` of `s`.
pub open spec fn spec_le64(s: Seq<u8>, i: int) -> u64 {
    spec_u64_from_le_bytes(s.subrange(i, i + 8))
}

/// The four bytes that encode `x`.
pub open spec fn spec_u32_bytes(x: u32) -> Seq<u8> {
    spec_u32_to_le_bytes(x)
}

/// The eight bytes that encode `x`.
pub open spec fn spec_u64_bytes(x: u64) -> Seq<u8> {
    spec_u64_to_le_bytes(x)
}

/// `n` zero bytes.
pub open spec fn spec_zeros(n: nat) -> Seq<u8> {
    Seq::new(n, |i: int| 0u8)
}

/// Encoding a `u32` gives four bytes that decode back to it.
pub proof fn lemma_u32_bytes(x: u32)
    ensures
        spec_u32_bytes(x).len() == 4,
        spec_u32_from_le_bytes(spec_u32_bytes(x)) == x,
{
    lemma_auto_spec_u32_to_from_le_bytes();
    assert(spec_u32_to_le_bytes(x).len() == 4);
}

/// Encoding a `u64` gives eight bytes that decode back to it.
pub proof fn lemma_u64_bytes(x: u64)
    ensures
        spec_u64_bytes(x).len() == 8,
        spec_u64_from_le_bytes(spec_u64_bytes(x)) == x,
{
    lemma_auto_spec_u64_to_from_le_bytes();
    assert(spec_u64_to_le_bytes(x).len() == 8);
}

/// Reading back a `u32` that sits at offset `i` of a longer sequence.
pub proof fn lemma_le32_at(s: Seq<u8>, i: int, x: u32)
    requires
        0 <= i,
        i + 4 <= s.len(),
        s.subrange(i, i + 4) == spec_u32_bytes(x),
    ensures
        spec_le32(s, i) == x,
{
    lemma_u32_bytes(x);
}

/// Reading back a `u64` that sits at offset `i` of a longer sequence.
pub proof fn lemma_le64_at(s: Seq<u8>, i: int, x: u64)
    requires
        0 <= i,
        i + 8 <= s.len(),
        s.subrange(i, i + 8) == spec_u64_bytes(x),
    ensures
        spec_le64(s, i) == x,
{
    lemma_u64_bytes(x);
}

/// Read the little-endian `u32` at `off`.
pub fn read_u32(s: &[u8], off: usize) -> (r: u32)
    requires
        off + 4 <= s@.len(),
    ensures
        r == spec_le32(s@, off as int),
{
    let _n = s.len();
    u32_from_le_bytes(&s[off..off + 4])
}

/// Read the little-endian `u64` at `off`.
pub fn read_u64(s: &[u8], off: usize) -> (r: u64)
    requires
        off + 8 <= s@.len(),
    ensures
        r == spec_le64(s@, off as int),
{
    let _n = s.len();
    u64_from_le_bytes(&s[off..off + 8])
}

/// Append the bytes of `s` to `v`.
pub fn append_bytes(v: &mut Vec<u8>, s: &[u8])
    ensures
        final(v)@ == old(v)@ + s@,
{
    let mut i: usize = 0;
    while i < s.len()
        invariant
            i <= s@.len(),
            v@ == old(v)@ + s@.subrange(0, i as int),
        decreases s@.len() - i,
    {
        v.push(s[i]);
        i = i + 1;
        assert(s@.subrange(0, i as int) == s@.subrange(0, i - 1).push(s@[i - 1]));
    }
    assert(s@.subrange(0, s@.len() as int) == s@);
}

/// Append the little-endian encoding of `x`.
pub fn push_u32(v: &mut Vec<u8>, x: u32)
    ensures
        final(v)@ == old(v)@ + spec_u32_bytes(x),
{
    let b = u32_to_le_bytes(x);
    append_bytes(v, b.as_slice());
}

/// Append the little-endian encoding of `x`.
pub fn push_u64(v: &mut Vec<u8>, x: u64)
    ensures
        final(v)@ == old(v)@ + spec_u64_bytes(x),
{
    let b = u64_to_le_bytes(x);
    append_bytes(v, b.as_slice());
}

/// Append `n` zero bytes.
pub fn push_zeros(v: &mut Vec<u8>, n: u32)
    ensures
        final(v)@ == old(v)@ + spec_zeros(n as nat),
{
    let mut i: u32 = 0;
    while i < n
        invariant
            i <= n,
            v@ == old(v)@ + spec_zeros(i as nat),
        decreases n - i,
    {
        v.push(0u8);
        i = i + 1;
        assert(spec_zeros(i as nat) == spec_zeros((i - 1) as nat).push(0u8));
    }
}

/// Overwrite the four bytes at `off` with the encoding of `x`.
pub fn patch_u32(v: &mut Vec<u8>, off: usize, x: u32)
    requires
        off + 4 <= old(v)@.len(),
    ensures
        final(v)@.len() == old(v)@.len(),
        final(v)@ == old(v)@.subrange(0, off as int) + spec_u32_bytes(x) + old(v)@.subrange(
            off + 4,
            old(v)@.len() as int,
        ),
{
    let _n = v.len();
    let b = u32_to_le_bytes(x);
    proof { lemma_u32_bytes(x); }
    let ghost v0 = v@;
    v.set(off, b[0]);
    v.set(off + 1, b[1]);
    v.set(off + 2, b[2]);
    v.set(off + 3, b[3]);
    assert(v@ == v0.subrange(0, off as int) + spec_u32_bytes(x) + v0.subrange(
        off + 4,
        v0.len() as int,
    ));
}

} // verus!
