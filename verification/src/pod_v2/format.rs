//! The layout of a pod on the wire, and when a byte sequence is a well-formed pod.
//!
//! A pod is an 8-byte header (body size, type) followed by the body and zero
//! padding up to the next multiple of 8. Containers hold further pods:
//! a struct is a run of pods, an object is a run of (key, flags, pod)
//! properties, a sequence is a run of (offset, type, pod) controls, and arrays
//! and choices are runs of bodies of one child size and type.

use vstd::prelude::*;
use crate::bytes::{pad_to_8, read_u32, spec_le32, spec_pad_to_8};

verus! {

pub const TYPE_NONE: u32 = 1;
pub const TYPE_BOOL: u32 = 2;
pub const TYPE_ID: u32 = 3;
pub const TYPE_INT: u32 = 4;
pub const TYPE_LONG: u32 = 5;
pub const TYPE_FLOAT: u32 = 6;
pub const TYPE_DOUBLE: u32 = 7;
pub const TYPE_STRING: u32 = 8;
pub const TYPE_BYTES: u32 = 9;
pub const TYPE_RECTANGLE: u32 = 10;
pub const TYPE_FRACTION: u32 = 11;
pub const TYPE_BITMAP: u32 = 12;
pub const TYPE_ARRAY: u32 = 13;
pub const TYPE_STRUCT: u32 = 14;
pub const TYPE_OBJECT: u32 = 15;
pub const TYPE_SEQUENCE: u32 = 16;
pub const TYPE_POINTER: u32 = 17;
pub const TYPE_FD: u32 = 18;
pub const TYPE_CHOICE: u32 = 19;

/// Body size plus padding.
pub open spec fn spec_padded(size: u32) -> int {
    size + spec_pad_to_8(size)
}

/// The body size in the header at the start of `s`.
pub open spec fn spec_pod_size(s: Seq<u8>) -> u32 {
    spec_le32(s, 0)
}

/// The type in the header at the start of `s`.
pub open spec fn spec_pod_type(s: Seq<u8>) -> u32 {
    spec_le32(s, 4)
}

/// `s` starts with a header whose body and padding lie within `s`.
pub open spec fn spec_pod_fits(s: Seq<u8>) -> bool {
    &&& s.len() >= 8
    &&& spec_padded(spec_pod_size(s)) <= u32::MAX
    &&& 8 + spec_padded(spec_pod_size(s)) <= s.len()
}

/// The body of the pod at the start of `s`.
pub open spec fn spec_pod_body(s: Seq<u8>) -> Seq<u8> {
    s.subrange(8, 8 + spec_pod_size(s))
}

/// What follows the pod (and its padding) at the start of `s`.
pub open spec fn spec_pod_rest(s: Seq<u8>) -> Seq<u8> {
    s.subrange(8 + spec_padded(spec_pod_size(s)), s.len() as int)
}

/// A body of type `ty` is well formed: it is long enough for the fixed
/// fields its type reads, and the pods it contains are well formed.
pub open spec fn spec_valid_body(ty: u32, body: Seq<u8>) -> bool
    decreases body.len(), 1nat,
{
    if ty == TYPE_BOOL || ty == TYPE_ID || ty == TYPE_INT || ty == TYPE_FLOAT {
        body.len() >= 4
    } else if ty == TYPE_LONG || ty == TYPE_DOUBLE || ty == TYPE_FD || ty == TYPE_RECTANGLE
        || ty == TYPE_FRACTION {
        body.len() >= 8
    } else if ty == TYPE_POINTER {
        body.len() >= 16
    } else if ty == TYPE_ARRAY {
        if body.len() < 8 {
            false
        } else {
            spec_valid_chunks(
                spec_le32(body, 0),
                spec_le32(body, 4),
                body.subrange(8, body.len() as int),
            )
        }
    } else if ty == TYPE_STRUCT {
        spec_valid_seq(body)
    } else if ty == TYPE_OBJECT {
        if body.len() < 8 {
            false
        } else {
            spec_valid_items(body.subrange(8, body.len() as int))
        }
    } else if ty == TYPE_SEQUENCE {
        if body.len() < 8 {
            false
        } else {
            spec_le32(body, 4) == 0 && spec_valid_items(body.subrange(8, body.len() as int))
        }
    } else if ty == TYPE_CHOICE {
        if body.len() < 16 {
            false
        } else {
            spec_valid_chunks(
                spec_le32(body, 8),
                spec_le32(body, 12),
                body.subrange(16, body.len() as int),
            )
        }
    } else {
        true
    }
}

/// A run of complete, well-formed pods.
pub open spec fn spec_valid_seq(s: Seq<u8>) -> bool
    decreases s.len(), 0nat,
{
    if s.len() == 0 {
        true
    } else if !spec_pod_fits(s) {
        false
    } else {
        spec_valid_body(spec_pod_type(s), spec_pod_body(s)) && spec_valid_seq(spec_pod_rest(s))
    }
}

/// A run of 8-byte prefixes (key and flags, or offset and type), each followed
/// by a complete, well-formed pod.
pub open spec fn spec_valid_items(s: Seq<u8>) -> bool
    decreases s.len(), 0nat,
{
    if s.len() == 0 {
        true
    } else if s.len() < 8 {
        false
    } else if !spec_pod_fits(s.subrange(8, s.len() as int)) {
        false
    } else {
        let p = s.subrange(8, s.len() as int);
        spec_valid_body(spec_pod_type(p), spec_pod_body(p)) && spec_valid_items(spec_pod_rest(p))
    }
}

/// A run of bodies of `size` bytes and type `ty`.
pub open spec fn spec_valid_chunks(size: u32, ty: u32, s: Seq<u8>) -> bool
    decreases s.len(), 2nat,
{
    if s.len() == 0 {
        true
    } else if size > s.len() {
        false
    } else if size == 0 {
        spec_valid_body(ty, s.subrange(0, 0))
    } else {
        spec_valid_body(ty, s.subrange(0, size as int)) && spec_valid_chunks(
            size,
            ty,
            s.subrange(size as int, s.len() as int),
        )
    }
}

/// `s` starts with a complete, well-formed pod.
pub open spec fn spec_valid_head(s: Seq<u8>) -> bool {
    spec_pod_fits(s) && spec_valid_body(spec_pod_type(s), spec_pod_body(s))
}

/// `s` is exactly one well-formed pod with its padding.
pub open spec fn spec_valid_pod(s: Seq<u8>) -> bool {
    spec_valid_head(s) && spec_pod_rest(s).len() == 0
}

/// Read the size of the header at `s` and check that the pod fits.
pub fn pod_fits(s: &[u8]) -> (r: bool)
    ensures
        r == spec_pod_fits(s@),
{
    let n = s.len();
    if n < 8 {
        return false;
    }
    let size = read_u32(s, 0);
    let pad = pad_to_8(size);
    let padded: u64 = size as u64 + pad as u64;
    if padded > u32::MAX as u64 {
        return false;
    }
    8u64 + padded <= n as u64
}

/// Decide whether a body of type `ty` is well formed.
pub fn check_body(ty: u32, body: &[u8]) -> (r: bool)
    ensures
        r == spec_valid_body(ty, body@),
    decreases body@.len(), 1nat,
{
    let n = body.len();
    if ty == TYPE_BOOL || ty == TYPE_ID || ty == TYPE_INT || ty == TYPE_FLOAT {
        n >= 4
    } else if ty == TYPE_LONG || ty == TYPE_DOUBLE || ty == TYPE_FD || ty == TYPE_RECTANGLE
        || ty == TYPE_FRACTION {
        n >= 8
    } else if ty == TYPE_POINTER {
        n >= 16
    } else if ty == TYPE_ARRAY {
        if n < 8 {
            false
        } else {
            let size = read_u32(body, 0);
            let child = read_u32(body, 4);
            check_chunks(size, child, &body[8..n])
        }
    } else if ty == TYPE_STRUCT {
        check_seq(body)
    } else if ty == TYPE_OBJECT {
        if n < 8 {
            false
        } else {
            check_items(&body[8..n])
        }
    } else if ty == TYPE_SEQUENCE {
        if n < 8 {
            false
        } else {
            read_u32(body, 4) == 0 && check_items(&body[8..n])
        }
    } else if ty == TYPE_CHOICE {
        if n < 16 {
            false
        } else {
            let size = read_u32(body, 8);
            let child = read_u32(body, 12);
            check_chunks(size, child, &body[16..n])
        }
    } else {
        true
    }
}

/// Decide whether `s` is a run of well-formed pods.
pub fn check_seq(s: &[u8]) -> (r: bool)
    ensures
        r == spec_valid_seq(s@),
    decreases s@.len(), 0nat,
{
    let n = s.len();
    if n == 0 {
        return true;
    }
    if !pod_fits(s) {
        return false;
    }
    let size = read_u32(s, 0);
    let ty = read_u32(s, 4);
    let end: usize = 8 + size as usize;
    let next: usize = end + pad_to_8(size) as usize;
    check_body(ty, &s[8..end]) && check_seq(&s[next..n])
}

/// Decide whether `s` is a run of well-formed properties or controls.
pub fn check_items(s: &[u8]) -> (r: bool)
    ensures
        r == spec_valid_items(s@),
    decreases s@.len(), 0nat,
{
    let n = s.len();
    if n == 0 {
        return true;
    }
    if n < 8 {
        return false;
    }
    let p = &s[8..n];
    if !pod_fits(p) {
        return false;
    }
    let m = p.len();
    let size = read_u32(p, 0);
    let ty = read_u32(p, 4);
    let end: usize = 8 + size as usize;
    let next: usize = end + pad_to_8(size) as usize;
    check_body(ty, &p[8..end]) && check_items(&p[next..m])
}

/// Decide whether `s` is a run of well-formed bodies of one size and type.
pub fn check_chunks(size: u32, ty: u32, s: &[u8]) -> (r: bool)
    ensures
        r == spec_valid_chunks(size, ty, s@),
    decreases s@.len(), 2nat,
{
    let n = s.len();
    if n == 0 {
        return true;
    }
    if size as u64 > n as u64 {
        return false;
    }
    let k = size as usize;
    if k == 0 {
        check_body(ty, &s[0..0])
    } else {
        check_body(ty, &s[0..k]) && check_chunks(size, ty, &s[k..n])
    }
}

/// Decide whether `s` starts with a complete, well-formed pod.
pub fn check_head(s: &[u8]) -> (r: bool)
    ensures
        r == spec_valid_head(s@),
{
    if !pod_fits(s) {
        return false;
    }
    let _n = s.len();
    let size = read_u32(s, 0);
    let ty = read_u32(s, 4);
    let end: usize = 8 + size as usize;
    check_body(ty, &s[8..end])
}

} // verus!
