# buf_redux

Buffered I/O with more direct control than `std::io`'s buffered types, as a
Verus-verified library.

- `src/` is the verified library.
  - `buffer/`: `StdBuf`, a byte buffer with a read and a write cursor over a
    block of storage (`RawBuf`), and the `BufImpl` trait that backing buffers
    implement.
  - `buffered.rs`: `Buffer`, the deque-like byte buffer used by the readers
    and writers.
  - `reader.rs`, `writer.rs`: the state and decisions of `BufReader`,
    `Unbuffer`, `BufWriter` and `LineWriter`.  Their I/O is performed by the
    caller, who reports each outcome back; `step.rs` holds that vocabulary
    and `copy_buf`.
  - `policy.rs`, `strategy.rs`: when to read, move data and flush.
  - `raw.rs`: a growable block of bytes.
  - `laws.rs`: properties spanning several operations.
  - `outside.rs`: the calls into `memchr`, `safemem` and std's mutable
    slicing, with the contracts they are trusted to meet.
- `app/` implements `Read`, `BufRead`, `Write` and `Seek` for the readers and
  writers, runs their I/O loops, and flushes writers on drop.
- `tests/` exercises the library on concrete values.
