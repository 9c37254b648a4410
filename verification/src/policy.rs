//! Types which can be used to tune the behavior of `BufReader` and `BufWriter`.
//!
//! Some simple policies are provided for your convenience. You may prefer to create your own
//! types and implement the traits for them instead.

use vstd::prelude::*;

use crate::outside::memrchr;
use crate::Buffer;

verus! {

/// The newline byte, `b'\n'`.
pub const NEWLINE: u8 = 0x0a;

/// True when `byte` occurs somewhere in `haystack`.
pub open spec fn contains_byte(haystack: Seq<u8>, byte: u8) -> bool {
    exists|i: int| 0 <= i < haystack.len() && haystack[i] == byte
}

/// Flag for `ReaderPolicy` methods to signal whether or not `BufReader` should read into the buffer.
#[derive(Copy, Clone, Debug)]
pub struct DoRead(pub bool);

/// Both a `ReaderPolicy` and a `WriterPolicy` that reproduces the behaviors for `std::io::BufReader`
/// and `std::io::BufWriter`, respectively.
#[derive(Debug, Default)]
pub struct StdPolicy;

/// Trait that governs `BufReader`'s behavior.
pub trait ReaderPolicy: Sized {
    /// Whether `before_read` can run on `buffer` without exceeding the largest
    /// possible allocation.  Policies that never grow the buffer admit every
    /// buffer.
    open spec fn admits(&self, buffer: &Buffer) -> bool {
        true
    }

    /// Tests `admits`: whether `before_read` can run on `buffer`.
    fn admits_buffer(&self, buffer: &Buffer) -> (res: bool)
        ensures
            res == self.admits(buffer),
    ;

    /// Consulted before attempting to read into the buffer.
    ///
    /// Return `DoRead(true)` to issue a read into the buffer
    /// before reading data out of it, or `DoRead(false)` to read from the buffer as it is,
    /// even if it's empty.
    ///
    /// If there is no room in the buffer after this method is called,
    /// the buffer will not be read into (so if the buffer is full but you want more data
    /// you should call `.make_room()` or reserve more space). If there *is* room, `BufReader` will
    /// attempt to read into the buffer. If successful (`Ok(x)` where `x > 0` is returned), this
    /// method will be consulted again for another read attempt.
    ///
    /// `StdPolicy` implements `std::io::BufReader`'s behavior: only read into the buffer if
    /// it is empty.
    ///
    /// ### Note
    /// If the read will ignore the buffer entirely (if the buffer is empty and the amount to be
    /// read matches or exceeds its capacity) or if `BufReader::read_into_buf()` was called to force
    /// a read into the buffer manually, this method will not be called.
    ///
    /// What it does is described by `before_read_does`.
    fn before_read(&mut self, buffer: &mut Buffer) -> (res: DoRead)
        requires
            old(self).admits(old(buffer)),
        ensures
            old(self).before_read_does(*old(buffer), res.0, *final(buffer)),
            *final(self) == old(self).after_before_read(*old(buffer)),
    ;

    /// The policy as `before_read` leaves it, consulted with the buffer
    /// `buffer`.  By default it is unchanged.
    open spec fn after_before_read(&self, buffer: Buffer) -> Self {
        *self
    }

    /// What `before_read` does: consulted with the buffer `buffer`, the policy
    /// answers `read` and leaves the buffer as `after`.
    ///
    /// `std::io::BufReader`'s behavior, which `StdPolicy` has: read only if
    /// the buffer is empty, and leave it as it is.
    open spec fn before_read_does(&self, buffer: Buffer, read: bool, after: Buffer) -> bool {
        &&& read == (buffer@.len() == 0)
        &&& after == buffer
    }

    /// Called after bytes are consumed from the buffer.
    ///
    /// Supplies the true amount consumed if the amount passed to `BufReader::consume`
    /// was in excess.  What it does is described by `after_consume_does`.
    fn after_consume(&mut self, buffer: &mut Buffer, amt: usize)
        ensures
            old(self).after_consume_does(*old(buffer), amt, *final(buffer)),
            *final(self) == old(self).after_after_consume(*old(buffer), amt),
    ;

    /// The policy as `after_consume` leaves it, told that `amt` bytes were
    /// consumed from the buffer `buffer`.  By default it is unchanged.
    open spec fn after_after_consume(&self, buffer: Buffer, amt: usize) -> Self {
        *self
    }

    /// What `after_consume` does: told that `amt` bytes were consumed, it
    /// leaves the buffer `buffer` as `after`.
    ///
    /// By default it leaves the buffer as it is.
    open spec fn after_consume_does(&self, buffer: Buffer, amt: usize, after: Buffer) -> bool {
        after == buffer
    }
}

/// Behavior of `std::io::BufReader`: the buffer will only be read into if it is empty.
impl ReaderPolicy for StdPolicy {
    /// Every buffer is admitted: the buffer is never grown.
    fn admits_buffer(&self, buffer: &Buffer) -> (res: bool) {
        true
    }

    /// Asks for a read only when the buffer is empty.
    fn before_read(&mut self, buffer: &mut Buffer) -> (res: DoRead) {
        DoRead(buffer.len() == 0)
    }

    /// Does nothing.
    fn after_consume(&mut self, buffer: &mut Buffer, amt: usize) {
    }
}

/// A `ReaderPolicy` which ensures there are at least this many bytes in the buffer,
/// failing this only if the reader is at EOF.
///
/// If the minimum buffer length is greater than the buffer capacity, it will be resized.
#[derive(Debug)]
pub struct MinBuffered(pub usize);

impl MinBuffered {
    /// Set the number of bytes to ensure are in the buffer.
    pub fn set_min(&mut self, min: usize)
        ensures
            final(self).0 == min,
    {
        self.0 = min;
    }
}

impl ReaderPolicy for MinBuffered {
    /// Growing the buffer to the minimum must stay within the largest
    /// possible allocation.
    open spec fn admits(&self, buffer: &Buffer) -> bool {
        self.0 <= isize::MAX
    }

    /// Makes room for the minimum, then asks for a read while fewer than the
    /// minimum bytes are buffered.
    ///
    /// When the free space, counting what was consumed from the head, holds
    /// the minimum but the room after the tail does not, the buffered bytes
    /// are moved down.  Otherwise, when the capacity is below the minimum,
    /// the buffer is resized: its bytes are moved down and the capacity grows
    /// to exactly the minimum.  Otherwise, when too few bytes are buffered and the
    /// room after the tail cannot take the rest of the minimum, the bytes are
    /// moved down.  In every other case the buffer is left as it is.
    open spec fn before_read_does(&self, buffer: Buffer, read: bool, after: Buffer) -> bool {
        let min = self.0 as nat;
        let len = buffer@.len();
        let room_at_head = buffer.spec_usable() < min && buffer.spec_free() >= min;
        let moves_down = !room_at_head && buffer.spec_cap() >= min && len < min
            && buffer.spec_usable() < min - len;
        &&& read == (len < min)
        &&& after@ == buffer@
        &&& room_at_head || moves_down ==> {
            &&& after.spec_cap() == buffer.spec_cap()
            &&& after.spec_head() == 0
        }
        &&& !room_at_head && buffer.spec_cap() < min ==> {
            &&& after.spec_cap() == min
            &&& after.spec_head() == 0
        }
        &&& !room_at_head && buffer.spec_cap() >= min && !moves_down ==> after == buffer
    }

    fn admits_buffer(&self, buffer: &Buffer) -> (res: bool) {
        let limit: usize = isize::MAX as usize;
        self.0 <= limit
    }

    fn before_read(&mut self, buffer: &mut Buffer) -> (res: DoRead)
        ensures
            *final(self) == *old(self),
    {
        proof {
            use_type_invariant(&*buffer);
        }
        let min = self.0;
        let cap = buffer.capacity();
        let len = buffer.len();
        if buffer.usable_space() < min && buffer.free_space() >= min {
            // there's enough room but some of it's stuck before the head
            buffer.make_room();
        } else if cap < min {
            // the minimum doesn't fit: grow the capacity to the minimum,
            // allocating an empty buffer afresh and moving the bytes of any
            // other down first
            if len == 0 {
                *buffer = Buffer::with_capacity(min);
                assert(buffer@ =~= old(buffer)@);
            } else {
                buffer.make_room();
                buffer.reserve(min - len);
            }
        } else if len < min && buffer.usable_space() < min - len {
            // the rest of the minimum only fits once the bytes are moved down
            buffer.make_room();
        }
        DoRead(buffer.len() < min)
    }

    /// Does nothing.
    fn after_consume(&mut self, buffer: &mut Buffer, amt: usize) {
    }
}

/// A trait which tells `BufWriter` when to flush.
pub trait WriterPolicy: Sized {
    /// Return `true` if the buffer should be flushed before reading into it.
    ///
    /// The buffer is provided, as well as `incoming` which is
    /// the size of the buffer that will be written to the `BufWriter`.
    ///
    /// What it does is described by `flush_before_does`.
    fn flush_before(&mut self, buf: &mut Buffer, incoming: usize) -> (res: bool)
        ensures
            old(self).flush_before_does(*old(buf), incoming, res, *final(buf)),
            *final(self) == old(self).after_flush_before(*old(buf), incoming),
    ;

    /// The policy as `flush_before` leaves it, consulted with the buffer
    /// `buf` and the size `incoming` of a write.  By default it is unchanged.
    open spec fn after_flush_before(&self, buf: Buffer, incoming: usize) -> Self {
        *self
    }

    /// What `flush_before` does: consulted with the buffer `buf` and the size
    /// `incoming` of a write, the policy answers `flush` and leaves the buffer
    /// as `after`.
    ///
    /// By default, flushes the buffer if the usable space is smaller than the
    /// incoming write, and leaves the buffer as it is.
    open spec fn flush_before_does(&self, buf: Buffer, incoming: usize, flush: bool, after: Buffer) -> bool {
        &&& flush == (buf.spec_usable() < incoming)
        &&& after == buf
    }

    /// Return `true` if the buffer should be flushed after reading into it.
    ///
    /// `buf` references the updated buffer after the read.  What it does is
    /// described by `flush_after_does`.
    fn flush_after(&mut self, buf: &Buffer) -> (res: bool)
        ensures
            old(self).flush_after_does(*buf, res),
            *final(self) == old(self).after_flush_after(*buf),
    ;

    /// The policy as `flush_after` leaves it, consulted with the buffer
    /// `buf`.  By default it is unchanged.
    open spec fn after_flush_after(&self, buf: Buffer) -> Self {
        *self
    }

    /// What `flush_after` does: consulted with the buffer `buf`, the policy
    /// answers `flush`.
    ///
    /// By default it never asks for a flush.
    open spec fn flush_after_does(&self, buf: Buffer, flush: bool) -> bool {
        !flush
    }
}

/// Flushes before a write when the usable space is smaller than it: the
/// behavior that `WriterPolicy::flush_before_does` describes by default.
fn flush_if_write_does_not_fit(buf: &Buffer, incoming: usize) -> (res: bool)
    ensures
        res == (buf.spec_usable() < incoming),
{
    buf.usable_space() < incoming
}

/// Default behavior of `std::io::BufWriter`: flush before a read into the buffer
/// only if the incoming data is larger than the buffer's writable space.
impl WriterPolicy for StdPolicy {
    /// Flushes when the write does not fit after the tail.
    fn flush_before(&mut self, buf: &mut Buffer, incoming: usize) -> (res: bool) {
        flush_if_write_does_not_fit(buf, incoming)
    }

    /// Never flushes after a write.
    fn flush_after(&mut self, buf: &Buffer) -> (res: bool) {
        false
    }
}

/// Flush the buffer if it contains at least the given number of bytes.
#[derive(Debug, Default)]
pub struct FlushAtLeast(pub usize);

impl WriterPolicy for FlushAtLeast {
    /// Flushes when the write does not fit after the tail.
    fn flush_before(&mut self, buf: &mut Buffer, incoming: usize) -> (res: bool) {
        flush_if_write_does_not_fit(buf, incoming)
    }

    /// `true` when the buffer holds at least the given number of bytes.
    open spec fn flush_after_does(&self, buf: Buffer, flush: bool) -> bool {
        flush == (buf@.len() >= self.0)
    }

    fn flush_after(&mut self, buf: &Buffer) -> (res: bool) {
        buf.len() >= self.0
    }
}

/// Flush the buffer if it contains the given byte.
///
/// Only scans the buffer after reading. Searches from the end first.
#[derive(Debug, Default)]
pub struct FlushOn(pub u8);

impl FlushOn {
    /// Whether this policy flushes `buf` after a write.
    pub open spec fn flushes(&self, buf: &Buffer) -> bool {
        contains_byte(buf@, self.0)
    }
}

impl WriterPolicy for FlushOn {
    /// Flushes when the write does not fit after the tail.
    fn flush_before(&mut self, buf: &mut Buffer, incoming: usize) -> (res: bool) {
        flush_if_write_does_not_fit(buf, incoming)
    }

    /// `true` when the buffer holds the byte.
    open spec fn flush_after_does(&self, buf: Buffer, flush: bool) -> bool {
        flush == self.flushes(&buf)
    }

    fn flush_after(&mut self, buf: &Buffer) -> (res: bool) {
        memrchr(self.0, buf.buf()).is_some()
    }
}

/// Flush the buffer if it contains a newline (`\n`).
///
/// Equivalent to `FlushOn(b'\n')`.
#[derive(Debug, Default)]
pub struct FlushOnNewline;

impl FlushOnNewline {
    /// Whether this policy flushes `buf` after a write.
    pub open spec fn flushes(&self, buf: &Buffer) -> bool {
        contains_byte(buf@, NEWLINE)
    }
}

impl WriterPolicy for FlushOnNewline {
    /// Flushes when the write does not fit after the tail.
    fn flush_before(&mut self, buf: &mut Buffer, incoming: usize) -> (res: bool) {
        flush_if_write_does_not_fit(buf, incoming)
    }

    /// `true` when the buffer holds a newline.
    open spec fn flush_after_does(&self, buf: Buffer, flush: bool) -> bool {
        flush == self.flushes(&buf)
    }

    fn flush_after(&mut self, buf: &Buffer) -> (res: bool) {
        memrchr(NEWLINE, buf.buf()).is_some()
    }
}

/// `FlushOnNewline` flushes exactly the buffers that `FlushOn(b'\n')` flushes.
pub proof fn flush_on_newline_is_flush_on_newline_byte(buf: &Buffer)
    ensures
        FlushOnNewline.flushes(buf) == FlushOn(NEWLINE).flushes(buf),
{
}

} // verus!
