use vstd::prelude::*;
use vstd::slice::slice_subrange;

verus! {

/// The big-endian 16-bit value held by the two bytes of `s` starting at `i`.
pub open spec fn spec_be_u16(s: Seq<u8>, i: int) -> u16
    recommends
        0 <= i,
        i + 2 <= s.len(),
{
    ((s[i] as int) * 256 + (s[i + 1] as int)) as u16
}

/// The big-endian 32-bit value held by the four bytes of `s` starting at `i`.
pub open spec fn spec_be_u32(s: Seq<u8>, i: int) -> u32
    recommends
        0 <= i,
        i + 4 <= s.len(),
{
    ((s[i] as int) * 0x1000000 + (s[i + 1] as int) * 0x10000 + (s[i + 2] as int) * 0x100 + (
    s[i + 3] as int)) as u32
}

pub fn read_be_u16(s: &[u8], i: usize) -> (r: u16)
    requires
        i + 2 <= s@.len(),
    ensures
        r == spec_be_u16(s@, i as int),
{
    (s[i] as u16) * 256 + (s[i + 1] as u16)
}

pub fn read_be_u32(s: &[u8], i: usize) -> (r: u32)
    requires
        i + 4 <= s@.len(),
    ensures
        r == spec_be_u32(s@, i as int),
{
    (s[i] as u32) * 0x1000000 + (s[i + 1] as u32) * 0x10000 + (s[i + 2] as u32) * 0x100 + (s[i
        + 3] as u32)
}

pub fn read_array_4(s: &[u8], i: usize) -> (r: [u8; 4])
    requires
        i + 4 <= s@.len(),
    ensures
        r@ == s@.subrange(i as int, i + 4),
{
    let r: [u8; 4] = [s[i], s[i + 1], s[i + 2], s[i + 3]];
    proof {
        assert(r@ =~= s@.subrange(i as int, i + 4));
    }
    r
}

pub fn read_array_6(s: &[u8], i: usize) -> (r: [u8; 6])
    requires
        i + 6 <= s@.len(),
    ensures
        r@ == s@.subrange(i as int, i + 6),
{
    let r: [u8; 6] = [s[i], s[i + 1], s[i + 2], s[i + 3], s[i + 4], s[i + 5]];
    proof {
        assert(r@ =~= s@.subrange(i as int, i + 6));
    }
    r
}

pub fn read_array_16(s: &[u8], i: usize) -> (r: [u8; 16])
    requires
        i + 16 <= s@.len(),
    ensures
        r@ == s@.subrange(i as int, i + 16),
{
    let r: [u8; 16] = [
        s[i],
        s[i + 1],
        s[i + 2],
        s[i + 3],
        s[i + 4],
        s[i + 5],
        s[i + 6],
        s[i + 7],
        s[i + 8],
        s[i + 9],
        s[i + 10],
        s[i + 11],
        s[i + 12],
        s[i + 13],
        s[i + 14],
        s[i + 15],
    ];
    proof {
        assert(r@ =~= s@.subrange(i as int, i + 16));
    }
    r
}

/// Returns the suffix of `s` that starts at `i`, as a view into the same
/// backing memory.
pub fn tail_from(s: &[u8], i: usize) -> (r: &[u8])
    requires
        i <= s@.len(),
    ensures
        r@ == s@.skip(i as int),
{
    let r = slice_subrange(s, i, s.len());
    proof {
        assert(r@ =~= s@.skip(i as int));
    }
    r
}

} // verus!
