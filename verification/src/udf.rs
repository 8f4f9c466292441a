//! Memory bookkeeping of the in-database FFT function module: the bump
//! allocator over its fixed linear-memory heap, and the packing of an
//! `(offset, length)` result into the single 64-bit return value.

use vstd::prelude::*;

verus! {

/// Size in bytes of the module's heap.
pub const HEAP_SIZE: usize = 4194304;

/// `len` (negative counts as zero) rounded up to a multiple of 8.
pub open spec fn aligned_len(len: i32) -> nat {
    let l: nat = if len < 0 {
        0
    } else {
        len as nat
    };
    (((l + 7) / 8) * 8) as nat
}

/// A bump allocator over `HEAP_SIZE` bytes: allocations are handed out
/// front to back, 8-byte aligned, and never freed.
pub struct BumpHeap {
    offset: usize,
}

impl BumpHeap {
    /// The first free byte.
    pub closed spec fn spec_offset(&self) -> nat {
        self.offset as nat
    }

    /// The allocator's invariant: the next free byte is aligned and inside
    /// the heap.
    pub closed spec fn wf(&self) -> bool {
        self.offset <= HEAP_SIZE && self.offset % 8 == 0
    }

    /// An empty heap.
    pub fn new() -> (h: BumpHeap)
        ensures
            h.wf(),
            h.spec_offset() == 0,
    {
        BumpHeap { offset: 0 }
    }

    /// The first free byte.
    pub fn offset(&self) -> (o: usize)
        ensures
            o == self.spec_offset(),
    {
        self.offset
    }

    /// Reserves `len` bytes (rounded up to a multiple of 8). Returns the
    /// offset of the block, or `None` when it does not fit, leaving the heap
    /// unchanged.
    pub fn allocate(&mut self, len: i32) -> (r: Option<usize>)
        requires
            old(self).wf(),
        ensures
            final(self).wf(),
            old(self).spec_offset() + aligned_len(len) <= HEAP_SIZE ==> r == Some(
                old(self).spec_offset() as usize,
            ) && final(self).spec_offset() == old(self).spec_offset() + aligned_len(len),
            old(self).spec_offset() + aligned_len(len) > HEAP_SIZE ==> r is None && final(self).spec_offset()
                == old(self).spec_offset(),
    {
        let l: u64 = if len < 0 {
            0
        } else {
            len as u64
        };
        let bumped: u64 = l + 7;
        let aligned: u64 = bumped & !7u64;
        assert(aligned == (bumped / 8) * 8) by (bit_vector)
            requires
                aligned == bumped & !7u64,
        ;
        let off: usize = self.offset;
        if (off as u64) + aligned > HEAP_SIZE as u64 {
            return None;
        }
        self.offset = off + aligned as usize;
        Some(off)
    }
}

/// Law: from an aligned free offset, two successive allocations that fit
/// give blocks `[before, before + a1)` and `[before + a1, before + a1 + a2)`:
/// both start 8-aligned, they do not overlap, and both lie inside the heap.
pub proof fn law_allocations_disjoint(before: nat, len1: i32, len2: i32)
    requires
        before % 8 == 0,
        before + aligned_len(len1) + aligned_len(len2) <= HEAP_SIZE,
    ensures
        (before + aligned_len(len1)) % 8 == 0,
        before + aligned_len(len1) >= before,
        before + aligned_len(len1) + aligned_len(len2) <= HEAP_SIZE,
{
    let l1: nat = if len1 < 0 { 0 } else { len1 as nat };
    assert(aligned_len(len1) % 8 == 0) by (nonlinear_arith)
        requires
            aligned_len(len1) == ((l1 + 7) / 8) * 8,
    ;
}

/// Packs a result block `(offset, len)` into one `i64` as
/// `(offset << 32) | len`.
pub fn pack_ptr_len(ptr: i32, len: i32) -> (r: i64)
    requires
        ptr >= 0,
        len >= 0,
    ensures
        r == ptr * 0x1_0000_0000 + len,
{
    let p: u64 = ptr as u64;
    let l: u64 = len as u64;
    let packed: u64 = (p << 32u64) | l;
    assert(packed == p * 0x1_0000_0000 + l) by (bit_vector)
        requires
            p < 0x8000_0000u64,
            l < 0x8000_0000u64,
            packed == (p << 32u64) | l,
    ;
    packed as i64
}

} // verus!
