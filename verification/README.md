# mimalloc_arena

mimalloc arenas and heaps for Rust, with the decisions around each
allocator call proved in Verus.

- `src/` is the verified library: `layout` (size and alignment of a request),
  `arena` (what an arena reservation asks for, and when it stands), `heap`
  (which mimalloc call each heap operation makes, and what block comes back).
- `app/` makes the calls into `libmimalloc-sys` (all of them `unsafe`), and
  holds `Heap`, `ScopedHeap`, `MiMalloc` and the arena constructors.
- `tests/` runs the library on concrete values.
