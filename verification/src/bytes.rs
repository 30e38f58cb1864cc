use vstd::prelude::*;

verus! {

/// The big-endian number held by the four bytes of `s` that start at `at`.
pub open spec fn be_u32(s: Seq<u8>, at: int) -> int {
    s[at] as int * 0x100_0000 + s[at + 1] as int * 0x1_0000 + s[at + 2] as int * 0x100 + s[at
        + 3] as int
}

/// Reads four bytes at `at` as a big-endian number.
pub fn read_u32(data: &[u8], at: usize) -> (r: u32)
    requires
        at + 4 <= data@.len(),
    ensures
        r as int == be_u32(data@, at as int),
{
    let b0: u32 = data[at] as u32;
    let b1: u32 = data[at + 1] as u32;
    let b2: u32 = data[at + 2] as u32;
    let b3: u32 = data[at + 3] as u32;
    b0 * 0x100_0000 + b1 * 0x1_0000 + b2 * 0x100 + b3
}

/// An entry of a table of `count` entries of `size` bytes lies wholly inside the table.
pub proof fn lemma_entry_within(index: int, count: int, size: int)
    requires
        0 <= index < count,
        0 <= size,
    ensures
        0 <= index * size,
        index * size + size <= count * size,
{
    assert(0 <= index * size && index * size + size <= count * size) by (nonlinear_arith)
        requires
            0 <= index < count,
            0 <= size,
    ;
}

/// The offset of entry `index` in a table of `count` entries of `size` bytes
/// that starts at `base` and lies inside `len` bytes.
pub fn entry_offset(base: usize, index: usize, size: usize, count: usize, len: usize) -> (r: usize)
    requires
        index < count,
        base + count * size <= len,
    ensures
        r == base + index * size,
        r + size <= len,
{
    proof {
        lemma_entry_within(index as int, count as int, size as int);
    }
    base + index * size
}

} // verus!
