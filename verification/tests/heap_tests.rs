use mimalloc_arena::heap::{Block, HeapCall};
use mimalloc_arena::layout::AllocLayout;

fn layout(size: usize, align: usize) -> AllocLayout {
    AllocLayout::from_size_align(size, align).unwrap()
}

#[test]
fn layout_keeps_size_and_align() {
    let l = layout(8, 8);
    assert_eq!(l.size(), 8);
    assert_eq!(l.align(), 8);
}

#[test]
fn layout_rejects_zero_alignment() {
    assert!(AllocLayout::from_size_align(8, 0).is_none());
}

#[test]
fn layout_rejects_non_power_of_two_alignment() {
    assert!(AllocLayout::from_size_align(8, 3).is_none());
    assert!(AllocLayout::from_size_align(8, 12).is_none());
}

#[test]
fn layout_accepts_alignment_one() {
    assert_eq!(layout(0, 1).align(), 1);
}

#[test]
fn layout_rejects_size_past_isize_max() {
    let max = isize::MAX as usize;
    assert!(AllocLayout::from_size_align(max, 1).is_some());
    assert!(AllocLayout::from_size_align(max + 1, 1).is_none());
    // rounded up to 16, max - 14 would pass isize::MAX
    assert!(AllocLayout::from_size_align(max - 15, 16).is_some());
    assert!(AllocLayout::from_size_align(max - 14, 16).is_none());
}

#[test]
fn layout_agrees_with_core_layout() {
    for (size, align) in [(0, 1), (1, 2), (24, 8), (100, 64), (5, 6), (3, 0), (usize::MAX, 1)] {
        assert_eq!(
            AllocLayout::from_size_align(size, align).is_some(),
            core::alloc::Layout::from_size_align(size, align).is_ok()
        );
    }
}

#[test]
fn null_reply_gives_nothing() {
    let call = HeapCall::malloc(&layout(16, 8));
    assert!(call.finish(0).is_none());
    assert!(Block::from_raw(0, 16).is_none());
}

#[test]
fn malloc_asks_for_size_and_align() {
    let call = HeapCall::malloc(&layout(24, 8));
    assert_eq!(call, HeapCall::MallocAligned { size: 24, align: 8 });
    let b = call.finish(0x1000).unwrap();
    assert_eq!(b.addr(), 0x1000);
    assert_eq!(b.len(), 24);
}

#[test]
fn zalloc_asks_for_size_and_align() {
    let call = HeapCall::zalloc(&layout(32, 16));
    assert_eq!(call, HeapCall::ZallocAligned { size: 32, align: 16 });
    assert_eq!(call.finish(0x2000).unwrap().len(), 32);
}

#[test]
fn calloc_block_spans_one_element() {
    let call = HeapCall::calloc(10, &layout(4, 4));
    assert_eq!(call, HeapCall::CallocAligned { count: 10, size: 4, align: 4 });
    assert_eq!(call.block_len(), 4);
    assert_eq!(call.finish(0x3000).unwrap().len(), 4);
}

#[test]
fn malloc_small_below_limit() {
    let call = HeapCall::malloc_small(&layout(100, 64)).unwrap();
    assert_eq!(call, HeapCall::MallocSmall { size: 100 });
    assert_eq!(call.finish(0x4000).unwrap().len(), 100);
}

#[test]
fn malloc_small_limit_is_128_words() {
    let limit = 128 * core::mem::size_of::<usize>();
    assert_eq!(limit, libmimalloc_sys::MI_SMALL_SIZE_MAX);
    assert!(HeapCall::malloc_small(&layout(limit - 1, 1)).is_some());
    assert!(HeapCall::malloc_small(&layout(limit, 1)).is_none());
    assert!(HeapCall::malloc_small(&layout(limit + 1, 1)).is_none());
}

#[test]
fn realloc_moves_to_new_layout() {
    let call = HeapCall::realloc(0x5000, &layout(64, 8));
    assert_eq!(call, HeapCall::ReallocAligned { addr: 0x5000, new_size: 64, align: 8 });
    let b = call.finish(0x6000).unwrap();
    assert_eq!((b.addr(), b.len()), (0x6000, 64));
}

#[test]
fn rezalloc_moves_to_new_layout() {
    let call = HeapCall::rezalloc(0x5000, &layout(128, 16));
    assert_eq!(call, HeapCall::RezallocAligned { addr: 0x5000, new_size: 128, align: 16 });
    assert_eq!(call.finish(0x5000).unwrap().len(), 128);
}

#[test]
fn recalloc_block_spans_one_element() {
    let call = HeapCall::recalloc(0x7000, 3, &layout(40, 8));
    assert_eq!(
        call,
        HeapCall::RecallocAligned { addr: 0x7000, new_count: 3, size: 40, align: 8 }
    );
    assert_eq!(call.finish(0x8000).unwrap().len(), 40);
}

#[test]
fn strdup_copies_the_bytes() {
    let call = HeapCall::strdup("hello").unwrap();
    assert_eq!(call, HeapCall::Strndup { len: 5 });
    assert_eq!(call.finish(0x9000).unwrap().len(), 5);
}

#[test]
fn strdup_counts_bytes_not_chars() {
    assert_eq!(HeapCall::strdup("héllo"), Some(HeapCall::Strndup { len: 6 }));
}

#[test]
fn strdup_of_empty_string() {
    assert_eq!(HeapCall::strdup(""), Some(HeapCall::Strndup { len: 0 }));
}

#[test]
fn strdup_refuses_nul_bytes() {
    assert!(HeapCall::strdup("a\0b").is_none());
    assert!(HeapCall::strdup("\0").is_none());
    assert!(HeapCall::strdup("end\0").is_none());
}
