use vstd::prelude::*;

verus! {

/// A CPU handle and the matching GPU handle of one descriptor slot.
#[derive(Clone, Copy, Debug, PartialEq, Eq, Structural)]
pub struct DualHandle {
    pub cpu: u64,
    pub gpu: u64,
}

/// The native description of a descriptor heap to create.
#[derive(Clone, Copy, Debug, PartialEq, Eq, Structural)]
pub struct DescriptorHeapDesc {
    pub heap_type: u32,
    pub num_descriptors: u32,
    pub shader_visible: bool,
    pub node_mask: u32,
}

/// A fixed-capacity pool of descriptor slots with a bump cursor. Slots are
/// never given back; they live as long as the heap.
#[derive(Clone, Copy, Debug, PartialEq, Eq, Structural)]
pub struct DescriptorHeap {
    pub handle_size: u64,
    pub total_handles: u64,
    pub start: DualHandle,
    pub cursor: u64,
}

impl DescriptorHeap {
    /// The cursor stays within capacity, and every slot's handles are addressable.
    pub open spec fn wf(&self) -> bool {
        &&& self.cursor <= self.total_handles
        &&& self.start.cpu + self.total_handles * self.handle_size <= u64::MAX
        &&& self.start.gpu + self.total_handles * self.handle_size <= u64::MAX
    }

    /// Handles of slot `index`.
    pub open spec fn handle_at(&self, index: int) -> DualHandle {
        DualHandle {
            cpu: (self.start.cpu + index * self.handle_size) as u64,
            gpu: (self.start.gpu + index * self.handle_size) as u64,
        }
    }

    /// The heap after `count` more slots are handed out.
    pub open spec fn advanced(&self, count: u64) -> DescriptorHeap {
        DescriptorHeap { cursor: (self.cursor + count) as u64, ..*self }
    }

    /// Hands out `count` consecutive slots and returns the handles of the
    /// first; the cursor moves past them.
    pub fn alloc_handles(&mut self, count: u64) -> (r: DualHandle)
        requires
            old(self).wf(),
            old(self).cursor + count <= old(self).total_handles,
        ensures
            *final(self) == old(self).advanced(count),
            final(self).wf(),
            r == old(self).handle_at(old(self).cursor as int),
    {
        let index = self.cursor;
        proof {
            lemma_slot_in_range(*self, index as int);
        }
        let r = DualHandle {
            cpu: self.start.cpu + index * self.handle_size,
            gpu: self.start.gpu + index * self.handle_size,
        };
        self.cursor = self.cursor + count;
        r
    }
}

/// Every slot up to the capacity has handles that fit in 64 bits.
pub proof fn lemma_slot_in_range(h: DescriptorHeap, index: int)
    requires
        h.wf(),
        0 <= index <= h.total_handles,
    ensures
        h.start.cpu + index * h.handle_size <= u64::MAX,
        h.start.gpu + index * h.handle_size <= u64::MAX,
        0 <= index * h.handle_size,
{
    assert(index * h.handle_size <= h.total_handles * h.handle_size) by (nonlinear_arith)
        requires 0 <= index <= h.total_handles, 0 <= h.handle_size;
    assert(0 <= index * h.handle_size) by (nonlinear_arith)
        requires 0 <= index, 0 <= h.handle_size;
}

/// Two consecutive allocations of `n` and then `m` slots hand out the
/// contiguous, non-overlapping slot ranges `[c, c + n)` and `[c + n, c + n + m)`,
/// where `c` is the cursor before the first, and the second range's handles
/// start `n` slots after the first's.
pub proof fn lemma_alloc_contiguous(h: DescriptorHeap, n: u64, m: u64)
    requires
        h.wf(),
        h.cursor + n + m <= h.total_handles,
    ensures
        h.advanced(n).wf(),
        h.advanced(n).cursor + m <= h.total_handles,
        h.advanced(n).advanced(m).cursor == h.cursor + n + m,
        h.advanced(n).cursor == h.cursor + n,
        h.advanced(n).handle_at(h.advanced(n).cursor as int).cpu
            == h.handle_at(h.cursor as int).cpu + n * h.handle_size,
        h.advanced(n).handle_at(h.advanced(n).cursor as int).gpu
            == h.handle_at(h.cursor as int).gpu + n * h.handle_size,
{
    let c = h.cursor as int;
    lemma_slot_in_range(h, c);
    lemma_slot_in_range(h, c + n);
    assert((c + n) * h.handle_size == c * h.handle_size + n * h.handle_size) by (nonlinear_arith);
}

/// Two single-slot allocations in a row, as two views or two samplers take
/// them, get adjacent slots: the second handle is one slot past the first.
pub proof fn lemma_single_slots_adjacent(h: DescriptorHeap)
    requires
        h.wf(),
        h.cursor + 2 <= h.total_handles,
    ensures
        h.advanced(1).wf(),
        h.advanced(1).handle_at(h.advanced(1).cursor as int).cpu == h.handle_at(h.cursor as int).cpu + h.handle_size,
        h.advanced(1).handle_at(h.advanced(1).cursor as int).gpu == h.handle_at(h.cursor as int).gpu + h.handle_size,
{
    lemma_alloc_contiguous(h, 1, 1);
}

/// The native description of a heap of `capacity` descriptors of `heap_type`.
pub fn descriptor_heap_desc(heap_type: u32, shader_visible: bool, capacity: usize) -> (r: DescriptorHeapDesc)
    requires
        capacity <= u32::MAX,
    ensures
        r == (DescriptorHeapDesc {
            heap_type,
            num_descriptors: capacity as u32,
            shader_visible,
            node_mask: 0,
        }),
{
    DescriptorHeapDesc { heap_type, num_descriptors: capacity as u32, shader_visible, node_mask: 0 }
}

} // verus!
