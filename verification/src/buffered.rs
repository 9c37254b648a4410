//! `Buffer`: a deque-like run of bytes that is filled at its tail and drained
//! at its head, over a `StdBuf`.

use vstd::prelude::*;

use crate::buffer::{min_nat, repeat, zeros, StdBuf};
use crate::outside::write_bytes;
use crate::step::{write_step, IoOutcome, LoopStep};

verus! {

/// The capacity of buffers created without one.
pub const DEFAULT_BUF_SIZE: usize = 8 * 1024;

/// Zeroes `buf` before a reader is handed it.
fn init_buffer(buf: &mut [u8])
    ensures
        final(buf)@ == zeros(old(buf)@.len()),
{
    write_bytes(buf, 0);
    proof {
        assert(final(buf)@ =~= zeros(old(buf)@.len()));
    }
}

/// A deque-like datastructure for managing bytes.
///
/// Bytes are added at the tail (`push_bytes`, `copy_from_slice`, or a read
/// into `write_buf` recorded by `read_from`) and removed from the head
/// (`consume`, `copy_to_slice`, or a write recorded by `write_to`).
#[derive(Debug)]
pub struct Buffer {
    buf: StdBuf,
    zeroed: usize,
}

impl View for Buffer {
    type V = Seq<u8>;

    /// The bytes currently in the buffer.
    open spec fn view(&self) -> Seq<u8> {
        self.spec_std()@
    }
}

impl Buffer {
    /// The backing storage with its cursors.
    pub closed spec fn spec_std(&self) -> StdBuf {
        self.buf
    }

    /// How many bytes of storage have been zeroed since it was last allocated
    /// afresh; reads zero the free space once after each such allocation.
    pub closed spec fn spec_zeroed(&self) -> nat {
        self.zeroed as nat
    }

    /// The buffer is consistent: the invariant every `Buffer` keeps.
    #[verifier::type_invariant]
    pub open spec fn wf(&self) -> bool {
        self.spec_std().wf()
    }

    /// The total capacity.
    pub open spec fn spec_cap(&self) -> nat {
        self.spec_std().spec_cap()
    }

    /// The room after the tail.
    pub open spec fn spec_usable(&self) -> nat {
        self.spec_std().spec_usable()
    }

    /// The head: where the buffered bytes start in the storage.
    pub open spec fn spec_head(&self) -> nat {
        self.spec_std().spec_head()
    }

    /// The tail: where the buffered bytes end in the storage.
    pub open spec fn spec_tail(&self) -> nat {
        self.spec_std().spec_tail()
    }

    /// All free room, including what was consumed from the head.
    pub open spec fn spec_free(&self) -> nat {
        (self.spec_cap() - self@.len()) as nat
    }

    /// The bytes stored after the tail.
    pub open spec fn spec_spare(&self) -> Seq<u8> {
        self.spec_std().spec_storage().subrange(
            self.spec_std().spec_tail() as int,
            self.spec_cap() as int,
        )
    }

    /// The capacity `reserve(additional)` leaves.
    pub open spec fn reserved_cap(&self, additional: nat) -> nat {
        self.spec_std().reserved_cap(additional)
    }

    /// Whether `reserve(additional)` stays within the largest possible
    /// allocation.
    pub open spec fn can_reserve(&self, additional: nat) -> bool {
        self.reserved_cap(additional) <= isize::MAX
    }

    /// `self` is `old` with `reserve(additional)` applied: same bytes, room
    /// for `additional` more after the tail, the capacity `reserved_cap`.
    pub open spec fn reserved_from(&self, old: &Buffer, additional: nat) -> bool {
        &&& self@ == old@
        &&& self.spec_cap() == old.reserved_cap(additional)
        &&& self.spec_usable() >= additional
    }

    /// Create a new buffer with a default capacity.
    pub fn new() -> (res: Self)
        ensures
            res.wf(),
            res@ == Seq::<u8>::empty(),
            res.spec_cap() == DEFAULT_BUF_SIZE,
            res.spec_usable() == DEFAULT_BUF_SIZE,
    {
        Self::with_capacity(DEFAULT_BUF_SIZE)
    }

    /// Create a new buffer with the given capacity.
    pub fn with_capacity(cap: usize) -> (res: Self)
        requires
            cap <= isize::MAX,
        ensures
            res.wf(),
            res@ == Seq::<u8>::empty(),
            res.spec_cap() == cap,
            res.spec_usable() == cap,
            res.spec_zeroed() == 0,
    {
        Buffer { buf: StdBuf::with_capacity(cap), zeroed: 0 }
    }

    /// Return the number of bytes currently in this buffer.
    ///
    /// Equivalent to `self.buf().len()`.
    pub fn len(&self) -> (res: usize)
        ensures
            res == self@.len(),
    {
        proof {
            use_type_invariant(&*self);
        }
        self.buf.len()
    }

    /// Return the number of bytes that can be read into this buffer before it needs
    /// to grow or the data in the buffer needs to be moved.
    ///
    /// This may not constitute all free space in the buffer if bytes have been consumed
    /// from the head. Use `free_space()` to determine the total free space in the buffer.
    pub fn usable_space(&self) -> (res: usize)
        ensures
            res == self.spec_usable(),
            res <= self.spec_free(),
    {
        proof {
            use_type_invariant(&*self);
        }
        self.buf.usable_space()
    }

    /// Returns the total amount of free space in the buffer, including bytes
    /// already consumed from the head.
    ///
    /// This will be greater than or equal to `usable_space()`.
    pub fn free_space(&self) -> (res: usize)
        ensures
            res == self.spec_free(),
            res >= self.spec_usable(),
    {
        proof {
            use_type_invariant(&*self);
        }
        self.capacity() - self.len()
    }

    /// Return the total capacity of this buffer.
    pub fn capacity(&self) -> (res: usize)
        ensures
            res == self.spec_cap(),
    {
        proof {
            use_type_invariant(&*self);
        }
        self.buf.capacity()
    }

    /// Returns `true` if there are no bytes in the buffer, false otherwise.
    pub fn is_empty(&self) -> (res: bool)
        ensures
            res == (self@.len() == 0),
    {
        proof {
            use_type_invariant(&*self);
        }
        self.len() == 0
    }

    /// Move bytes down in the buffer to maximize usable space.
    ///
    /// Afterwards all free space lies after the tail.
    pub fn make_room(&mut self)
        ensures
            final(self).wf(),
            final(self)@ == old(self)@,
            final(self).spec_cap() == old(self).spec_cap(),
            final(self).spec_usable() == final(self).spec_free(),
            final(self).spec_head() == 0,
            final(self).spec_zeroed() == old(self).spec_zeroed(),
    {
        proof {
            use_type_invariant(&*self);
        }
        let mut buf = self.take_std();
        buf.make_room();
        self.buf = buf;
    }

    /// Takes the storage out for changing, leaving an empty one in its place.
    fn take_std(&mut self) -> (res: StdBuf)
        ensures
            res == old(self).spec_std(),
            final(self).spec_zeroed() == old(self).spec_zeroed(),
    {
        let mut buf = StdBuf::with_capacity(0);
        std::mem::swap(&mut buf, &mut self.buf);
        buf
    }

    /// Ensure space for at least `additional` more bytes in the buffer.
    ///
    /// This is a no-op if `usable_space() >= additional`. Note that this will reallocate
    /// even if there is enough free space at the head of the buffer for `additional` bytes.
    /// If you prefer copying data down in the buffer before attempting to reallocate you may wish
    /// to call `.make_room()` first.
    ///
    /// The capacity after the call is `reserved_cap(additional)`, which must not
    /// exceed `isize::MAX`, the largest possible allocation.
    pub fn reserve(&mut self, additional: usize)
        requires
            old(self).can_reserve(additional as nat),
        ensures
            final(self).wf(),
            final(self).reserved_from(old(self), additional as nat),
            final(self).spec_head() == old(self).spec_head(),
            final(self).spec_tail() == old(self).spec_tail(),
            old(self).spec_usable() >= additional ==> final(self).spec_cap() == old(self).spec_cap(),
            final(self).spec_zeroed() == if old(self).spec_usable() < additional {
                0
            } else {
                old(self).spec_zeroed()
            },
    {
        proof {
            use_type_invariant(&*self);
        }
        // `true` when the storage was allocated afresh and must be zeroed again
        let mut buf = self.take_std();
        let moved = buf.reserve(additional);
        self.buf = buf;
        if moved {
            self.zeroed = 0;
        }
    }

    /// Whether `reserve(additional)` stays within the largest possible
    /// allocation, `isize::MAX` bytes.
    pub fn reserve_fits(&self, additional: usize) -> (res: bool)
        ensures
            res == self.can_reserve(additional as nat),
    {
        proof {
            use_type_invariant(&*self);
        }
        let usable = self.usable_space();
        let limit: usize = isize::MAX as usize;
        if usable >= additional {
            true
        } else if self.len() == 0 {
            additional <= limit - self.capacity()
        } else {
            additional - usable <= limit - self.capacity()
        }
    }

    /// Get an immutable slice of the available bytes in this buffer.
    ///
    /// Call `.consume()` to remove bytes from the beginning of this slice.
    pub fn buf(&self) -> (res: &[u8])
        ensures
            res@ == self@,
    {
        proof {
            use_type_invariant(&*self);
        }
        self.buf.buf()
    }

    /// Get a mutable slice representing the available bytes in this buffer.
    ///
    /// Call `.consume()` to remove bytes from the beginning of this slice.
    pub fn buf_mut(&mut self) -> (res: &mut [u8])
        ensures
            res@ == old(self)@,
            final(self).wf(),
            final(self)@ == final(res)@,
            final(self).spec_cap() == old(self).spec_cap(),
            final(self).spec_usable() == old(self).spec_usable(),
            final(self).spec_head() == old(self).spec_head(),
            final(self).spec_zeroed() == old(self).spec_zeroed(),
    {
        proof {
            use_type_invariant(&*self);
        }
        self.buf.buf_mut()
    }

    /// Get ready to read into the buffer: the first part of reading from a
    /// reader.
    ///
    /// Returns `false` when there is no room after the tail, in which case the
    /// read is skipped and counts as reading 0 bytes.  Otherwise the free space
    /// after the tail is zeroed if it has not been since the storage was
    /// allocated, and `true` is returned: the reader may then be handed
    /// `write_buf()`, and the count it returns passed to `read_from`.
    pub fn prepare_read(&mut self) -> (ready: bool)
        ensures
            final(self).wf(),
            ready == (old(self).spec_usable() > 0),
            final(self)@ == old(self)@,
            final(self).spec_cap() == old(self).spec_cap(),
            final(self).spec_usable() == old(self).spec_usable(),
            final(self).spec_head() == old(self).spec_head(),
            ready && old(self).spec_zeroed() < old(self).spec_cap() ==> {
                &&& final(self).spec_spare() == zeros(old(self).spec_usable())
                &&& final(self).spec_zeroed() == old(self).spec_cap()
            },
            !(ready && old(self).spec_zeroed() < old(self).spec_cap()) ==> {
                &&& final(self).spec_spare() == old(self).spec_spare()
                &&& final(self).spec_zeroed() == old(self).spec_zeroed()
            },
    {
        proof {
            use_type_invariant(&*self);
        }
        if self.usable_space() == 0 {
            return false;
        }
        let cap = self.capacity();
        if self.zeroed < cap {
            let mut buf = self.take_std();
            init_buffer(buf.write_buf());
            self.buf = buf;
            self.zeroed = cap;
        }
        true
    }

    /// The free bytes after the tail, for a reader to fill.  Writing there
    /// changes none of the buffer's bytes until `read_from` takes them in.
    pub fn write_buf(&mut self) -> (res: &mut [u8])
        ensures
            res@ == old(self).spec_spare(),
            final(self).wf(),
            final(self)@ == old(self)@,
            final(self).spec_cap() == old(self).spec_cap(),
            final(self).spec_usable() == old(self).spec_usable(),
            final(self).spec_head() == old(self).spec_head(),
            final(self).spec_spare() == final(res)@,
            final(self).spec_zeroed() == old(self).spec_zeroed(),
    {
        proof {
            use_type_invariant(&*self);
        }
        let r = self.buf.write_buf();
        r
    }

    /// Record a read into `write_buf()` that returned `read`: the first `read`
    /// bytes after the tail join the buffer.  Returns `read`.
    ///
    /// A count larger than the room after the tail would overrun the tail
    /// cursor; it is refused, and a caller must panic on it instead.
    pub fn read_from(&mut self, read: usize) -> (res: usize)
        requires
            read <= old(self).spec_usable(),
        ensures
            final(self).wf(),
            res == read,
            final(self)@ == old(self)@ + old(self).spec_spare().take(read as int),
            final(self).spec_cap() == old(self).spec_cap(),
            final(self).spec_head() == old(self).spec_head(),
            final(self).spec_tail() == old(self).spec_tail() + read,
            final(self).spec_zeroed() == old(self).spec_zeroed(),
    {
        proof {
            use_type_invariant(&*self);
        }
        let mut buf = self.take_std();
        buf.bytes_written(read);
        self.buf = buf;
        proof {
            assert(old(self).spec_spare().take(read as int) =~= old(
                self,
            ).spec_std().spec_storage().subrange(
                old(self).spec_std().spec_tail() as int,
                old(self).spec_std().spec_tail() + read,
            ));
        }
        read
    }

    /// Copy from `src` to the tail of this buffer. Returns the number of bytes copied.
    ///
    /// This will **not** grow the buffer if `src` is larger than `self.usable_space()`; instead,
    /// it will fill the usable space and return the number of bytes copied. If there is no usable
    /// space, this returns 0.
    pub fn copy_from_slice(&mut self, src: &[u8]) -> (copied: usize)
        ensures
            final(self).wf(),
            copied == min_nat(old(self).spec_usable(), src@.len()),
            final(self)@ == old(self)@ + src@.take(copied as int),
            final(self).spec_cap() == old(self).spec_cap(),
            final(self).spec_usable() == old(self).spec_usable() - copied,
            final(self).spec_head() == old(self).spec_head(),
            final(self).spec_zeroed() == old(self).spec_zeroed(),
    {
        proof {
            use_type_invariant(&*self);
        }
        let ghost before = self@;
        let mut buf = self.take_std();
        let region = buf.write_buf();
        let len = if region.len() <= src.len() {
            region.len()
        } else {
            src.len()
        };
        let mut i: usize = 0;
        while i < len
            invariant
                len <= region@.len(),
                len <= src@.len(),
                i <= len,
                region@.len() == old(self).spec_spare().len(),
                forall|k: int| 0 <= k < i ==> #[trigger] region@[k] == src@[k],
            decreases len - i,
        {
            region[i] = src[i];
            i = i + 1;
        }
        buf.bytes_written(len);
        self.buf = buf;
        proof {
            assert(self@ =~= before + src@.take(len as int));
        }
        len
    }

    /// Record a write of this buffer's bytes that returned `written`: that
    /// many bytes leave the head.  Returns `written`.
    ///
    /// To write to a writer: if the buffer is empty the result is 0 and the
    /// writer is not called; otherwise the writer is handed `buf()` and the
    /// count it returns is recorded here.  A count beyond the buffered bytes
    /// would pass the tail cursor; it is refused, and a caller must panic on it
    /// instead.
    pub fn write_to(&mut self, written: usize) -> (res: usize)
        requires
            written <= old(self)@.len(),
        ensures
            final(self).wf(),
            res == written,
            final(self)@ == old(self)@.skip(written as int),
            final(self).spec_cap() == old(self).spec_cap(),
            final(self).spec_zeroed() == old(self).spec_zeroed(),
            final(self)@.len() > 0 ==> final(self).spec_tail() == old(self).spec_tail(),
    {
        proof {
            use_type_invariant(&*self);
        }
        self.consume(written);
        written
    }

    /// How many of the buffer's first bytes the next write of `write_max`
    /// offers the writer: all of them, but no more than `max`; `None` when the
    /// buffer is empty or `max` is 0, which ends the loop successfully.
    pub fn write_max_len(&self, max: usize) -> (res: Option<usize>)
        ensures
            self@.len() == 0 || max == 0 ==> res is None,
            self@.len() > 0 && max > 0 ==> res == Some(min_nat(self@.len(), max as nat) as usize),
    {
        proof {
            use_type_invariant(&*self);
        }
        let len = self.len();
        if len > 0 && max > 0 {
            Some(if len <= max { len } else { max })
        } else {
            None
        }
    }

    /// Write, at most, the given number of bytes from this buffer to a
    /// writer, continuing to write and ignoring interrupts, until the number is
    /// reached or the buffer is empty: what the loop does with the outcome of
    /// one write of `buf()[..n]` (`n` from `write_max_len(max)`).
    ///
    /// Returns the loop's next step and the number of bytes still allowed.
    /// A write of `n` bytes consumes them and lowers the allowance by `n`,
    /// stopping at 0.  A count beyond the buffered bytes would pass the tail
    /// cursor; it is refused, and a caller must panic on it instead.
    pub fn write_max(&mut self, max: usize, outcome: IoOutcome) -> (res: (LoopStep, usize))
        requires
            outcome matches IoOutcome::Done(n) ==> n <= old(self)@.len(),
        ensures
            final(self).wf(),
            res.0 == write_step(outcome),
            final(self).spec_cap() == old(self).spec_cap(),
            final(self).spec_zeroed() == old(self).spec_zeroed(),
            final(self)@.len() > 0 ==> final(self).spec_tail() == old(self).spec_tail(),
            match outcome {
                IoOutcome::Done(n) => {
                    &&& final(self)@ == old(self)@.skip(n as int)
                    &&& res.1 == if n <= max {
                        max - n
                    } else {
                        0
                    }
                },
                _ => final(self)@ == old(self)@ && res.1 == max,
            },
    {
        proof {
            use_type_invariant(&*self);
        }
        match outcome {
            IoOutcome::Done(n) => {
                if n == 0 {
                    proof {
                        assert(old(self)@.skip(0) =~= old(self)@);
                    }
                    (LoopStep::WriteZero, max)
                } else {
                    self.consume(n);
                    (LoopStep::Continue, max.saturating_sub(n))
                }
            },
            IoOutcome::Interrupted => (LoopStep::Continue, max),
            IoOutcome::Failed => (LoopStep::Fail, max),
        }
    }

    /// Write all bytes in this buffer, ignoring interrupts: what the loop does
    /// with the outcome of one `write_to`.  The loop runs while the buffer is
    /// not empty; a write of zero bytes ends it with `WriteZero`, an
    /// interruption or a write of some bytes goes round again, and any other
    /// error ends it.
    pub fn write_all(&self, outcome: IoOutcome) -> (res: LoopStep)
        ensures
            res == write_step(outcome),
    {
        match outcome {
            IoOutcome::Done(0) => LoopStep::WriteZero,
            IoOutcome::Done(_) => LoopStep::Continue,
            IoOutcome::Interrupted => LoopStep::Continue,
            IoOutcome::Failed => LoopStep::Fail,
        }
    }

    /// Copy bytes to `out` from this buffer, returning the number of bytes written.
    ///
    /// The copied bytes are consumed.
    pub fn copy_to_slice(&mut self, out: &mut [u8]) -> (copied: usize)
        ensures
            final(self).wf(),
            copied == min_nat(old(self)@.len(), old(out)@.len()),
            final(out)@ == old(self)@.take(copied as int) + old(out)@.skip(copied as int),
            final(self)@ == old(self)@.skip(copied as int),
            final(self).spec_cap() == old(self).spec_cap(),
            final(self).spec_zeroed() == old(self).spec_zeroed(),
            final(self)@.len() > 0 ==> final(self).spec_tail() == old(self).spec_tail(),
    {
        proof {
            use_type_invariant(&*self);
        }
        let len = {
            let buf = self.buf.buf();
            let len = if buf.len() <= out.len() {
                buf.len()
            } else {
                out.len()
            };
            let mut i: usize = 0;
            while i < len
                invariant
                    len <= buf@.len(),
                    len <= out@.len(),
                    i <= len,
                    out@.len() == old(out)@.len(),
                    forall|k: int| 0 <= k < i ==> #[trigger] out@[k] == buf@[k],
                    forall|k: int| len <= k < out@.len() ==> #[trigger] out@[k] == old(out)@[k],
                decreases len - i,
            {
                out[i] = buf[i];
                i = i + 1;
            }
            proof {
                assert(out@ =~= old(self)@.take(len as int) + old(out)@.skip(len as int));
            }
            len
        };
        self.consume(len);
        len
    }

    /// Push `bytes` to the end of the buffer, growing it if necessary.
    ///
    /// When the room after the tail is too small the buffer first reserves
    /// room for twice `bytes.len()`.  If you prefer moving bytes down in the
    /// buffer to reallocating, you may wish to call `.make_room()` first.
    pub fn push_bytes(&mut self, bytes: &[u8])
        requires
            old(self).spec_usable() < bytes@.len() ==> old(self).can_reserve(2 * bytes@.len()),
        ensures
            final(self).wf(),
            final(self)@ == old(self)@ + bytes@,
            final(self).spec_head() == old(self).spec_head(),
            final(self).spec_tail() == old(self).spec_tail() + bytes@.len(),
            final(self).spec_cap() == if old(self).spec_usable() < bytes@.len() {
                old(self).reserved_cap(2 * bytes@.len())
            } else {
                old(self).spec_cap()
            },
    {
        proof {
            use_type_invariant(&*self);
        }
        let s_len = bytes.len();
        if self.usable_space() < s_len {
            self.reserve(s_len * 2);
        }
        let copied = self.copy_from_slice(bytes);
        proof {
            assert(bytes@.take(copied as int) =~= bytes@);
        }
    }

    /// Consume `amt` bytes from the head of this buffer (all of them, if there
    /// are fewer).
    pub fn consume(&mut self, amt: usize)
        ensures
            final(self).wf(),
            final(self)@ == old(self)@.skip(min_nat(amt as nat, old(self)@.len()) as int),
            final(self).spec_cap() == old(self).spec_cap(),
            final(self).spec_zeroed() == old(self).spec_zeroed(),
            final(self)@.len() > 0 ==> final(self).spec_tail() == old(self).spec_tail(),
            final(self)@.len() == 0 ==> final(self).spec_usable() == final(self).spec_cap(),
    {
        proof {
            use_type_invariant(&*self);
        }
        let mut buf = self.take_std();
        buf.consume(amt);
        self.buf = buf;
    }

    /// Empty this buffer by consuming all bytes.
    pub fn clear(&mut self)
        ensures
            final(self).wf(),
            final(self)@ == Seq::<u8>::empty(),
            final(self).spec_cap() == old(self).spec_cap(),
            final(self).spec_usable() == final(self).spec_cap(),
            final(self).spec_zeroed() == old(self).spec_zeroed(),
    {
        proof {
            use_type_invariant(&*self);
        }
        let buf_len = self.len();
        self.consume(buf_len);
    }

    /// Keep only the first `len` bytes of the buffer (all of them if there
    /// are fewer).
    pub fn truncate(&mut self, len: usize)
        ensures
            final(self).wf(),
            final(self)@ == old(self)@.take(min_nat(len as nat, old(self)@.len()) as int),
            final(self).spec_cap() == old(self).spec_cap(),
            final(self).spec_zeroed() == old(self).spec_zeroed(),
            final(self)@.len() > 0 ==> final(self).spec_head() == old(self).spec_head(),
    {
        proof {
            use_type_invariant(&*self);
        }
        let mut buf = self.take_std();
        buf.truncate(len);
        self.buf = buf;
    }

    /// Make the buffer hold exactly `new_len` bytes: keep its first `new_len`
    /// bytes when it holds at least that many, otherwise reserve room and
    /// append copies of `value`.
    pub fn resize(&mut self, new_len: usize, value: u8)
        requires
            new_len > old(self)@.len() ==> old(self).can_reserve(
                (new_len - old(self)@.len()) as nat,
            ),
        ensures
            final(self).wf(),
            new_len <= old(self)@.len() ==> {
                &&& final(self)@ == old(self)@.take(new_len as int)
                &&& final(self).spec_cap() == old(self).spec_cap()
                &&& final(self).spec_head() == if new_len > 0 {
                    old(self).spec_head()
                } else {
                    0
                }
            },
            new_len > old(self)@.len() ==> {
                &&& final(self)@ == old(self)@ + repeat(value, (new_len - old(self)@.len()) as nat)
                &&& final(self).spec_cap() == old(self).reserved_cap(
                    (new_len - old(self)@.len()) as nat,
                )
                &&& final(self).spec_head() == old(self).spec_head()
                &&& final(self).spec_tail() == old(self).spec_tail() + (new_len - old(self)@.len())
            },
    {
        proof {
            use_type_invariant(&*self);
        }
        // storage allocated afresh must be zeroed again before a read
        let mut buf = self.take_std();
        let moved = buf.resize(new_len, value);
        self.buf = buf;
        if moved {
            self.zeroed = 0;
        }
    }
}

} // verus!
