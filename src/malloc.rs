//! The allocator adapter's routing: which kernel heap path serves a request.
//! The caller performs the chosen kernel call; addresses are plain integers
//! here, zero standing for the null pointer.
use vstd::prelude::*;

verus! {

/// Alignment that the kernel's plain allocation path always provides.
pub const NATURAL_ALIGN: usize = 8;

/// Does a request with this alignment need the kernel's aligned path?
pub open spec fn needs_aligned(align: usize) -> bool {
    align > NATURAL_ALIGN
}

/// How an allocation request is served.
#[derive(Debug, Clone, Copy, PartialEq, Eq, Structural)]
pub enum AllocStep {
    /// Answer null without calling the kernel.
    Null,
    /// Call the kernel's plain allocator for `size` bytes.
    Plain { size: usize },
    /// Call the kernel's aligned allocator.
    Aligned { size: usize, align: usize },
}

/// How a block is given back.
#[derive(Debug, Clone, Copy, PartialEq, Eq, Structural)]
pub enum FreeStep {
    /// Nothing to free: the address is null.
    Nothing,
    /// Call the kernel's plain free on the address.
    Plain { ptr: usize },
    /// Call the kernel's aligned free on the address.
    Aligned { ptr: usize },
}

/// How a reallocation is served.
#[derive(Debug, Clone, Copy, PartialEq, Eq, Structural)]
pub enum ReallocStep {
    /// The new size is zero: free the block, answer null.
    Free(FreeStep),
    /// The old address is null: allocate afresh.
    Alloc(AllocStep),
    /// Aligned block: allocate `size` bytes at `align`, copy `copy_len` bytes
    /// over, free the old block with the aligned free. If the new allocation
    /// fails, answer null and keep the old block.
    Move { ptr: usize, size: usize, align: usize, copy_len: usize },
    /// Plain block: the kernel's realloc resizes it to `size` bytes.
    Resize { ptr: usize, size: usize },
}

/// The allocation route for `size` bytes at alignment `align`.
pub open spec fn alloc_step(size: usize, align: usize) -> AllocStep {
    if size == 0 {
        AllocStep::Null
    } else if needs_aligned(align) {
        AllocStep::Aligned { size, align }
    } else {
        AllocStep::Plain { size }
    }
}

/// The free route for a block at `ptr` allocated with alignment `align`.
pub open spec fn free_step(ptr: usize, align: usize) -> FreeStep {
    if ptr == 0 {
        FreeStep::Nothing
    } else if needs_aligned(align) {
        FreeStep::Aligned { ptr }
    } else {
        FreeStep::Plain { ptr }
    }
}

/// The reallocation route for a block of `old_size` bytes at `ptr`, allocated
/// with alignment `align`, to `new_size` bytes.
pub open spec fn realloc_step(ptr: usize, old_size: usize, align: usize, new_size: usize) -> ReallocStep {
    if new_size == 0 {
        ReallocStep::Free(free_step(ptr, align))
    } else if ptr == 0 {
        ReallocStep::Alloc(alloc_step(new_size, align))
    } else if needs_aligned(align) {
        ReallocStep::Move {
            ptr,
            size: new_size,
            align,
            copy_len: if old_size < new_size { old_size } else { new_size },
        }
    } else {
        ReallocStep::Resize { ptr, size: new_size }
    }
}

/// The global allocator that routes through the kernel heap.
pub struct RttAlloc;

impl RttAlloc {
    /// Route of an allocation: zero bytes answer null at once; alignments
    /// above the natural one take the aligned path, the others the plain one.
    pub fn allocate(&self, size: usize, align: usize) -> (r: AllocStep)
        ensures
            r == alloc_step(size, align),
    {
        if size == 0 {
            AllocStep::Null
        } else if align > NATURAL_ALIGN {
            AllocStep::Aligned { size, align }
        } else {
            AllocStep::Plain { size }
        }
    }

    /// Route of a deallocation, by the alignment the block was allocated with.
    pub fn dealloc(&self, ptr: usize, align: usize) -> (r: FreeStep)
        ensures
            r == free_step(ptr, align),
    {
        if ptr == 0 {
            FreeStep::Nothing
        } else if align > NATURAL_ALIGN {
            FreeStep::Aligned { ptr }
        } else {
            FreeStep::Plain { ptr }
        }
    }

    /// Route of a reallocation. Aligned blocks are moved by hand, since the
    /// kernel's realloc does not keep alignment.
    pub fn realloc(&self, ptr: usize, old_size: usize, align: usize, new_size: usize) -> (r: ReallocStep)
        ensures
            r == realloc_step(ptr, old_size, align, new_size),
    {
        if new_size == 0 {
            return ReallocStep::Free(self.dealloc(ptr, align));
        }
        if ptr == 0 {
            return ReallocStep::Alloc(self.allocate(new_size, align));
        }
        if align > NATURAL_ALIGN {
            let copy_len = if old_size < new_size { old_size } else { new_size };
            ReallocStep::Move { ptr, size: new_size, align, copy_len }
        } else {
            ReallocStep::Resize { ptr, size: new_size }
        }
    }
}

/// An address from the kernel, `None` when it is null.
pub fn non_null(raw: usize) -> (r: Option<usize>)
    ensures
        r == (if raw == 0 { None::<usize> } else { Some(raw) }),
{
    if raw == 0 {
        None
    } else {
        Some(raw)
    }
}

/// Whether a checked allocation of `size` bytes calls the kernel at all: a
/// request for zero bytes is answered `None` without a call.
pub fn malloc_needed(size: usize) -> (r: bool)
    ensures
        r == (size != 0),
{
    size != 0
}

/// Outcome of a checked allocation of `size` bytes, given the address that the
/// kernel returned (ignored when no call was needed).
pub fn rt_safe_malloc(size: usize, raw: usize) -> (r: Option<usize>)
    ensures
        r == (if size == 0 || raw == 0 { None::<usize> } else { Some(raw) }),
{
    if !malloc_needed(size) {
        None
    } else {
        non_null(raw)
    }
}

/// Whether a checked free calls the kernel: only on a non-null address.
pub fn rt_safe_free(ptr: usize) -> (r: bool)
    ensures
        r == (ptr != 0),
{
    ptr != 0
}

} // verus!
