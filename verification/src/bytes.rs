//! Little-endian integer fields and byte-string comparison.
//!
//! The record's fixed layouts are sequences of 8-byte little-endian
//! unsigned integers and 32-byte opaque identifiers; this module holds the
//! primitives the codecs are built from.

use vstd::prelude::*;

verus! {

/// The value of the 8-byte little-endian field at offset `o` of `s`.
pub open spec fn le64_at(s: Seq<u8>, o: int) -> int {
    s[o] + 0x100 * s[o + 1] + 0x1_0000 * s[o + 2] + 0x100_0000 * s[o + 3]
        + 0x1_0000_0000 * s[o + 4] + 0x100_0000_0000 * s[o + 5]
        + 0x1_0000_0000_0000 * s[o + 6] + 0x100_0000_0000_0000 * s[o + 7]
}

/// Reads the 8-byte little-endian field at offset `o` of `data`.
pub fn read_u64_le(data: &[u8], o: usize) -> (r: u64)
    requires
        o + 8 <= data@.len(),
    ensures
        r == le64_at(data@, o as int),
{
    (data[o] as u64)
        + (data[o + 1] as u64) * 0x100
        + (data[o + 2] as u64) * 0x1_0000
        + (data[o + 3] as u64) * 0x100_0000
        + (data[o + 4] as u64) * 0x1_0000_0000
        + (data[o + 5] as u64) * 0x100_0000_0000
        + (data[o + 6] as u64) * 0x1_0000_0000_0000
        + (data[o + 7] as u64) * 0x100_0000_0000_0000
}

/// Appends the 8-byte little-endian form of `x` to `out`.
pub fn push_u64_le(out: &mut Vec<u8>, x: u64)
    ensures
        final(out)@.len() == old(out)@.len() + 8,
        forall|j: int| 0 <= j < old(out)@.len() ==> final(out)@[j] == old(out)@[j],
        le64_at(final(out)@, old(out)@.len() as int) == x,
{
    let b0: u8 = (x % 0x100) as u8;
    let x1: u64 = x / 0x100;
    let b1: u8 = (x1 % 0x100) as u8;
    let x2: u64 = x1 / 0x100;
    let b2: u8 = (x2 % 0x100) as u8;
    let x3: u64 = x2 / 0x100;
    let b3: u8 = (x3 % 0x100) as u8;
    let x4: u64 = x3 / 0x100;
    let b4: u8 = (x4 % 0x100) as u8;
    let x5: u64 = x4 / 0x100;
    let b5: u8 = (x5 % 0x100) as u8;
    let x6: u64 = x5 / 0x100;
    let b6: u8 = (x6 % 0x100) as u8;
    let x7: u64 = x6 / 0x100;
    let b7: u8 = (x7 % 0x100) as u8;
    out.push(b0);
    out.push(b1);
    out.push(b2);
    out.push(b3);
    out.push(b4);
    out.push(b5);
    out.push(b6);
    out.push(b7);
}

/// Appends a copy of `src` to `out`.
pub fn push_bytes(out: &mut Vec<u8>, src: &[u8])
    ensures
        final(out)@.len() == old(out)@.len() + src@.len(),
        forall|j: int| 0 <= j < old(out)@.len() ==> final(out)@[j] == old(out)@[j],
        forall|j: int|
            0 <= j < src@.len() ==> final(out)@[old(out)@.len() + j] == src@[j],
{
    let n = src.len();
    let mut i: usize = 0;
    while i < n
        invariant
            n == src@.len(),
            0 <= i <= n,
            out@.len() == old(out)@.len() + i,
            forall|j: int| 0 <= j < old(out)@.len() ==> out@[j] == old(out)@[j],
            forall|j: int| 0 <= j < i ==> out@[old(out)@.len() + j] == src@[j],
        decreases n - i,
    {
        out.push(src[i]);
        i = i + 1;
    }
}

/// Whether two byte strings hold the same bytes.
pub fn bytes_eq(a: &[u8], b: &[u8]) -> (r: bool)
    ensures
        r <==> a@ == b@,
{
    if a.len() != b.len() {
        proof {
            assert(a@.len() != b@.len());
        }
        return false;
    }
    let n = a.len();
    let mut i: usize = 0;
    while i < n
        invariant
            n == a@.len() == b@.len(),
            0 <= i <= n,
            forall|j: int| 0 <= j < i ==> a@[j] == b@[j],
        decreases n - i,
    {
        if a[i] != b[i] {
            return false;
        }
        i = i + 1;
    }
    proof {
        assert(a@ =~= b@);
    }
    true
}

} // verus!
