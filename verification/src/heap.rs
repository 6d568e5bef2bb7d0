//! What a heap asks of mimalloc for each kind of allocation, and what it
//! hands back for mimalloc's reply.
use vstd::prelude::*;

use crate::layout::AllocLayout;
use vstd::string::StringSliceAdditionalSpecFns;

verus! {

/// The largest size, in bytes, that mimalloc's `_small` allocation
/// functions accept: 128 pointers' worth.
pub open spec fn small_size_max() -> nat {
    128 * vstd::layout::size_of::<usize>()
}

/// Reads `libmimalloc_sys::MI_SMALL_SIZE_MAX`, defined in that crate as
/// `128 * size_of::<*mut c_void>()`; the contract states it over the size
/// of `usize`, which equals that of a pointer on every target Rust supports.
#[verifier::external_body]
fn mi_small_size_max() -> (r: usize)
    ensures
        r == small_size_max(),
{
    libmimalloc_sys::MI_SMALL_SIZE_MAX
}

/// A block that mimalloc handed out: its start address, never null, and the
/// number of bytes the caller may use from there.
#[derive(Debug, Clone, Copy)]
pub struct Block {
    addr: usize,
    len: usize,
}

impl Block {
    #[verifier::type_invariant]
    spec fn inv(self) -> bool {
        self.addr != 0
    }

    pub closed spec fn spec_addr(&self) -> usize {
        self.addr
    }

    pub closed spec fn spec_len(&self) -> usize {
        self.len
    }

    /// The block's start address.
    #[verifier::when_used_as_spec(spec_addr)]
    pub fn addr(&self) -> (r: usize)
        ensures
            r == self.spec_addr(),
            r != 0,
    {
        proof {
            use_type_invariant(self);
        }
        self.addr
    }

    /// The block's length in bytes.
    #[verifier::when_used_as_spec(spec_len)]
    pub fn len(&self) -> (r: usize)
        ensures
            r == self.spec_len(),
    {
        self.len
    }

    /// The block that starts at `addr` and spans `len` bytes, or `None`
    /// where `addr` is null, as `NonNull::new` and
    /// `NonNull::slice_from_raw_parts` build it.
    pub fn from_raw(addr: usize, len: usize) -> (r: Option<Block>)
        ensures
            r is None <==> addr == 0,
            r matches Some(b) ==> b.spec_addr() == addr && b.spec_len() == len,
    {
        if addr == 0 {
            None
        } else {
            Some(Block { addr, len })
        }
    }
}

/// One call into mimalloc on a heap, with its arguments. Addresses of
/// earlier blocks are passed as integers.
#[derive(Debug, Clone, Copy, PartialEq, Eq, Structural)]
pub enum HeapCall {
    /// `mi_heap_malloc_aligned(heap, size, align)`
    MallocAligned { size: usize, align: usize },
    /// `mi_heap_zalloc_aligned(heap, size, align)`
    ZallocAligned { size: usize, align: usize },
    /// `mi_heap_calloc_aligned(heap, count, size, align)`
    CallocAligned { count: usize, size: usize, align: usize },
    /// `mi_heap_malloc_small(heap, size)`
    MallocSmall { size: usize },
    /// `mi_heap_realloc_aligned(heap, addr, new_size, align)`
    ReallocAligned { addr: usize, new_size: usize, align: usize },
    /// `mi_heap_rezalloc_aligned(heap, addr, new_size, align)`
    RezallocAligned { addr: usize, new_size: usize, align: usize },
    /// `mi_heap_recalloc_aligned(heap, addr, new_count, size, align)`
    RecallocAligned { addr: usize, new_count: usize, size: usize, align: usize },
    /// `mi_heap_strndup(heap, s, len)` on a string of `len` bytes
    Strndup { len: usize },
}

impl HeapCall {
    /// The length of the block that a successful call hands back: the size
    /// of one element for the counted calls, not the whole array.
    pub open spec fn spec_block_len(&self) -> usize {
        match *self {
            HeapCall::MallocAligned { size, .. } => size,
            HeapCall::ZallocAligned { size, .. } => size,
            HeapCall::CallocAligned { size, .. } => size,
            HeapCall::MallocSmall { size } => size,
            HeapCall::ReallocAligned { new_size, .. } => new_size,
            HeapCall::RezallocAligned { new_size, .. } => new_size,
            HeapCall::RecallocAligned { size, .. } => size,
            HeapCall::Strndup { len } => len,
        }
    }

    /// See `spec_block_len`.
    #[verifier::when_used_as_spec(spec_block_len)]
    pub fn block_len(&self) -> (r: usize)
        ensures
            r == self.spec_block_len(),
    {
        match *self {
            HeapCall::MallocAligned { size, .. } => size,
            HeapCall::ZallocAligned { size, .. } => size,
            HeapCall::CallocAligned { size, .. } => size,
            HeapCall::MallocSmall { size } => size,
            HeapCall::ReallocAligned { new_size, .. } => new_size,
            HeapCall::RezallocAligned { new_size, .. } => new_size,
            HeapCall::RecallocAligned { size, .. } => size,
            HeapCall::Strndup { len } => len,
        }
    }

    /// What the heap hands back for the address `returned` by this call:
    /// nothing for a null address, else the block at that address.
    pub fn finish(&self, returned: usize) -> (r: Option<Block>)
        ensures
            r is None <==> returned == 0,
            r matches Some(b) ==> b.spec_addr() == returned && b.spec_len() == self.spec_block_len(),
    {
        Block::from_raw(returned, self.block_len())
    }

    /// `Heap::malloc`: an aligned allocation of `layout`.
    pub fn malloc(layout: &AllocLayout) -> (r: HeapCall)
        ensures
            r == (HeapCall::MallocAligned { size: layout.spec_size(), align: layout.spec_align() }),
    {
        HeapCall::MallocAligned { size: layout.size(), align: layout.align() }
    }

    /// `Heap::zalloc`: a zero-filled aligned allocation of `layout`.
    pub fn zalloc(layout: &AllocLayout) -> (r: HeapCall)
        ensures
            r == (HeapCall::ZallocAligned { size: layout.spec_size(), align: layout.spec_align() }),
    {
        HeapCall::ZallocAligned { size: layout.size(), align: layout.align() }
    }

    /// `Heap::calloc`: `count` zero-filled elements of `layout`.
    pub fn calloc(count: usize, layout: &AllocLayout) -> (r: HeapCall)
        ensures
            r == (HeapCall::CallocAligned {
                count,
                size: layout.spec_size(),
                align: layout.spec_align(),
            }),
    {
        HeapCall::CallocAligned { count, size: layout.size(), align: layout.align() }
    }

    /// `Heap::malloc_small`: an allocation from the small-object pages,
    /// which mimalloc offers only below `MI_SMALL_SIZE_MAX` bytes; for a
    /// larger `layout` no call is made. The alignment is not passed on.
    pub fn malloc_small(layout: &AllocLayout) -> (r: Option<HeapCall>)
        ensures
            r is None <==> layout.spec_size() >= small_size_max(),
            r is None <==> layout.spec_size() >= 128 * vstd::layout::size_of::<usize>(),
            r matches Some(c) ==> c == (HeapCall::MallocSmall { size: layout.spec_size() }),
    {
        let size = layout.size();
        if size >= mi_small_size_max() {
            None
        } else {
            Some(HeapCall::MallocSmall { size })
        }
    }

    /// `Heap::realloc`: moves the block at `addr` to a block of
    /// `new_layout`.
    pub fn realloc(addr: usize, new_layout: &AllocLayout) -> (r: HeapCall)
        requires
            addr != 0,
        ensures
            r == (HeapCall::ReallocAligned {
                addr,
                new_size: new_layout.spec_size(),
                align: new_layout.spec_align(),
            }),
    {
        HeapCall::ReallocAligned { addr, new_size: new_layout.size(), align: new_layout.align() }
    }

    /// `Heap::rezalloc`: as `realloc`, with the grown part zero-filled.
    pub fn rezalloc(addr: usize, new_layout: &AllocLayout) -> (r: HeapCall)
        requires
            addr != 0,
        ensures
            r == (HeapCall::RezallocAligned {
                addr,
                new_size: new_layout.spec_size(),
                align: new_layout.spec_align(),
            }),
    {
        HeapCall::RezallocAligned { addr, new_size: new_layout.size(), align: new_layout.align() }
    }

    /// `Heap::recalloc`: moves the block at `addr` to `new_count`
    /// zero-filled elements of `layout`.
    pub fn recalloc(addr: usize, new_count: usize, layout: &AllocLayout) -> (r: HeapCall)
        requires
            addr != 0,
        ensures
            r == (HeapCall::RecallocAligned {
                addr,
                new_count,
                size: layout.spec_size(),
                align: layout.spec_align(),
            }),
    {
        HeapCall::RecallocAligned {
            addr,
            new_count,
            size: layout.size(),
            align: layout.align(),
        }
    }

    /// `Heap::strdup`: a copy of `s` in the heap. A C string cannot hold a
    /// NUL byte, so for a string that does no call is made.
    pub fn strdup(s: &str) -> (r: Option<HeapCall>)
        ensures
            r is None <==> s.spec_bytes().contains(0u8),
            r matches Some(c) ==> c == (HeapCall::Strndup { len: s.spec_bytes().len() as usize }),
    {
        let bytes = s.as_bytes();
        let mut i: usize = 0;
        while i < bytes.len()
            invariant
                bytes@ == s.spec_bytes(),
                i <= bytes@.len(),
                forall|j: int| 0 <= j < i ==> bytes@[j] != 0u8,
            decreases bytes@.len() - i,
        {
            if bytes[i] == 0u8 {
                assert(s.spec_bytes()[i as int] == 0u8);
                return None;
            }
            i = i + 1;
        }
        Some(HeapCall::Strndup { len: s.len() })
    }
}

/// Every block that a heap hands back is as long as the layout that was
/// asked for: for the counted calls (`calloc`, `recalloc`) one element's
/// size, whatever the count; for a string copy, the string's length in bytes.
pub proof fn lemma_block_spans_requested_size(layout: AllocLayout, count: usize, addr: usize, len: usize)
    ensures
        (HeapCall::MallocAligned {
            size: layout.spec_size(),
            align: layout.spec_align(),
        }).spec_block_len() == layout.spec_size(),
        (HeapCall::ZallocAligned {
            size: layout.spec_size(),
            align: layout.spec_align(),
        }).spec_block_len() == layout.spec_size(),
        (HeapCall::CallocAligned {
            count,
            size: layout.spec_size(),
            align: layout.spec_align(),
        }).spec_block_len() == layout.spec_size(),
        (HeapCall::MallocSmall { size: layout.spec_size() }).spec_block_len() == layout.spec_size(),
        (HeapCall::ReallocAligned {
            addr,
            new_size: layout.spec_size(),
            align: layout.spec_align(),
        }).spec_block_len() == layout.spec_size(),
        (HeapCall::RezallocAligned {
            addr,
            new_size: layout.spec_size(),
            align: layout.spec_align(),
        }).spec_block_len() == layout.spec_size(),
        (HeapCall::RecallocAligned {
            addr,
            new_count: count,
            size: layout.spec_size(),
            align: layout.spec_align(),
        }).spec_block_len() == layout.spec_size(),
        (HeapCall::Strndup { len }).spec_block_len() == len,
{
}

} // verus!
