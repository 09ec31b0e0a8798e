//! Layout of the register blocks: a register block is a sequence of slots, each slot a run of
//! registers of one size, laid out one after the other from the block's address.

use vstd::prelude::*;

verus! {

/// A run of `count` registers of `size` bytes each.
#[derive(Clone, Copy, Debug, PartialEq, Eq, Structural)]
pub struct Slot {
    /// Size in bytes of each register of the run
    pub size: u32,
    /// Number of registers in the run
    pub count: u32,
}

/// The bytes a slot takes.
pub open spec fn slot_bytes(slot: Slot) -> int {
    slot.size * slot.count
}

/// Offset of slot `k`: the bytes of the slots before it.
pub open spec fn spec_offset(slots: Seq<Slot>, k: int) -> int
    decreases k,
{
    if k <= 0 {
        0
    } else {
        spec_offset(slots, k - 1) + slot_bytes(slots[k - 1])
    }
}

/// A layout of at most 64 slots, each of at most 1024 registers of at most 64 bytes.
pub open spec fn layout_wf(slots: Seq<Slot>) -> bool {
    &&& slots.len() <= 64
    &&& forall|i: int| 0 <= i < slots.len() ==> #[trigger] slots[i].size <= 64 && slots[i].count <= 1024
}

proof fn lemma_slot_bytes_bound(slot: Slot)
    requires
        slot.size <= 64,
        slot.count <= 1024,
    ensures
        0 <= slot_bytes(slot) <= 65536,
{
    vstd::arithmetic::mul::lemma_mul_upper_bound(slot.size as int, 64, slot.count as int, 1024);
}

/// The offset of a slot grows by at most 2^16 per slot before it.
pub proof fn lemma_offset_bound(slots: Seq<Slot>, k: int)
    requires
        layout_wf(slots),
        0 <= k <= slots.len(),
    ensures
        0 <= spec_offset(slots, k) <= k * 65536,
    decreases k,
{
    if k > 0 {
        lemma_offset_bound(slots, k - 1);
        lemma_slot_bytes_bound(slots[k - 1]);
    }
}

/// The address of register `index` of slot `k`, `inner` bytes into it, in a block at `base`.
pub fn register_address(base: u32, slots: &[Slot], k: usize, index: u32, inner: u32) -> (r: u32)
    requires
        layout_wf(slots@),
        k < slots@.len(),
        index < slots@[k as int].count,
        inner < slots@[k as int].size,
        base <= 0xF000_0000,
    ensures
        r == base + spec_offset(slots@, k as int) + index * slots@[k as int].size + inner,
{
    let mut offset: u32 = 0;
    let mut i: usize = 0;
    while i < k
        invariant
            i <= k,
            k < slots@.len(),
            layout_wf(slots@),
            offset == spec_offset(slots@, i as int),
        decreases k - i,
    {
        proof {
            lemma_offset_bound(slots@, i as int + 1);
            lemma_slot_bytes_bound(slots@[i as int]);
        }
        offset = offset + slots[i].size * slots[i].count;
        i = i + 1;
    }
    proof {
        lemma_offset_bound(slots@, k as int);
        vstd::arithmetic::mul::lemma_mul_upper_bound(index as int, 1024, slots@[k as int].size as int, 64);
    }
    base + offset + index * slots[k].size + inner
}

} // verus!
