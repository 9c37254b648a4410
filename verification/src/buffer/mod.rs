//! Backing storage for `Buffer`, and the operations any backing storage must
//! offer.

use vstd::prelude::*;

mod std_buf;

pub use self::std_buf::{min_nat, repeat, zeros, RawBuf, StdBuf};
pub(crate) use self::std_buf::{extend_zeros, zeroed_vec};

verus! {

/// Operations needed from a backing-buffer implementation.
///
/// The buffer is assumed to operate like a double-ended queue of bytes: bytes
/// enter at the tail (through `write_buf` and `bytes_written`) and leave at
/// the head (through `consume`).
pub trait BufImpl: Sized {
    /// The buffer's own consistency condition.
    spec fn buf_wf(&self) -> bool;

    /// The bytes the buffer currently holds.
    spec fn contents(&self) -> Seq<u8>;

    /// The number of bytes the buffer can hold in total.
    spec fn total_capacity(&self) -> nat;

    /// The capacity `reserve(additional)` leaves.
    spec fn reserved_capacity(&self, additional: nat) -> nat;

    /// The room available for writing after the held bytes.
    spec fn room(&self) -> nat;

    /// What the room after the held bytes currently holds: the bytes
    /// `write_buf()` hands out, which `bytes_written` then takes in.
    spec fn spare(&self) -> Seq<u8>;

    /// Allocate a new backing-buffer with the given capacity.
    ///
    /// The buffer is allowed to overallocate if it prefers but it should make this capacity
    /// available.
    fn with_capacity(cap: usize) -> (res: Self)
        requires
            cap <= isize::MAX,
        ensures
            res.buf_wf(),
            res.contents() == Seq::<u8>::empty(),
            res.total_capacity() >= cap,
            res.room() >= cap,
    ;

    /// Return the number of bytes this buffer can hold in total.
    fn capacity(&self) -> (res: usize)
        requires
            self.buf_wf(),
        ensures
            res == self.total_capacity(),
    ;

    /// Return the number of bytes this buffer currently holds.
    ///
    /// **Must** be equivalent to `self.buf().len()`.
    fn len(&self) -> (res: usize)
        requires
            self.buf_wf(),
        ensures
            res == self.contents().len(),
    ;

    /// Return the amount of space available for writing into the buffer.
    ///
    /// **Must** be equivalent to `self.write_buf().len()`.
    fn usable_space(&self) -> (res: usize)
        requires
            self.buf_wf(),
        ensures
            res == self.room(),
    ;

    /// Increase the buffer's size enough to accommodate an additional number of bytes.
    ///
    /// Return `true` if the buffer had to reallocate in a different memory location,
    /// false if the reallocation occurred in-place.
    fn reserve(&mut self, additional: usize) -> (moved: bool)
        requires
            old(self).buf_wf(),
            old(self).reserved_capacity(additional as nat) <= isize::MAX,
        ensures
            final(self).buf_wf(),
            final(self).contents() == old(self).contents(),
            final(self).room() >= additional,
            final(self).total_capacity() == old(self).reserved_capacity(additional as nat),
    ;

    /// If supported, increase the buffer's size enough to accommodate an additional number of bytes
    /// without moving the allocation.
    ///
    /// If successful, return `true`; if a moving reallocation needs to be done or this operation
    /// is not supported, return `false`.
    fn reserve_in_place(&mut self, additional: usize) -> (res: bool)
        requires
            old(self).buf_wf(),
        ensures
            final(self).buf_wf(),
            final(self).contents() == old(self).contents(),
            res ==> final(self).room() >= additional,
        default_ensures
            !res,
            *final(self) == *old(self),
    {
        false
    }

    /// Do any sort of cleanup/moving necessary to regain wasted space in the buffer.
    fn make_room(&mut self)
        requires
            old(self).buf_wf(),
        ensures
            final(self).buf_wf(),
            final(self).contents() == old(self).contents(),
            final(self).total_capacity() == old(self).total_capacity(),
            final(self).room() == final(self).total_capacity() - final(self).contents().len(),
    ;

    /// Return a view into the occupied portion of the buffer.
    fn buf(&self) -> (res: &[u8])
        requires
            self.buf_wf(),
        ensures
            res@ == self.contents(),
    ;

    /// Return a mutable view into the occupied portion of the buffer.
    fn buf_mut(&mut self) -> (res: &mut [u8])
        requires
            old(self).buf_wf(),
        ensures
            res@ == old(self).contents(),
            final(self).buf_wf(),
            final(self).contents() == final(res)@,
            final(self).room() == old(self).room(),
    ;

    /// Return a mutable view into the unoccupied portion of the buffer.
    ///
    /// Consumers should only write to this slice; what it holds before that is
    /// unspecified.
    fn write_buf(&mut self) -> (res: &mut [u8])
        requires
            old(self).buf_wf(),
        ensures
            res@.len() == old(self).room(),
            res@ == old(self).spare(),
            final(self).buf_wf(),
            final(self).contents() == old(self).contents(),
            final(self).room() == old(self).room(),
            final(self).spare() == final(res)@,
    ;

    /// Extend the tail of the safe/occupied portion of the buffer by this many bytes.
    ///
    /// Called after data is written into the buffer returned by `write_buf()`.
    ///
    /// As a sanity check, the number of additional bytes must not exceed the
    /// room in the buffer.  The bytes taken in are the first `add` bytes of
    /// the room, as written through `write_buf()`.
    fn bytes_written(&mut self, add: usize)
        requires
            old(self).buf_wf(),
            add <= old(self).room(),
        ensures
            final(self).buf_wf(),
            final(self).contents() == old(self).contents() + old(self).spare().take(add as int),
            final(self).room() == old(self).room() - add,
    ;

    /// Consume/drop the given number of bytes from the head of the buffer.
    ///
    /// Clamps the amount to `self.len()`.
    fn consume(&mut self, amt: usize)
        requires
            old(self).buf_wf(),
        ensures
            final(self).buf_wf(),
            final(self).contents() == old(self).contents().skip(
                min_nat(amt as nat, old(self).contents().len()) as int,
            ),
    ;
}

impl BufImpl for StdBuf {
    open spec fn buf_wf(&self) -> bool {
        self.wf()
    }

    open spec fn contents(&self) -> Seq<u8> {
        self@
    }

    open spec fn total_capacity(&self) -> nat {
        self.spec_cap()
    }

    open spec fn reserved_capacity(&self, additional: nat) -> nat {
        self.reserved_cap(additional)
    }

    open spec fn room(&self) -> nat {
        self.spec_usable()
    }

    open spec fn spare(&self) -> Seq<u8> {
        self.spec_storage().subrange(self.spec_tail() as int, self.spec_cap() as int)
    }

    fn with_capacity(cap: usize) -> (res: Self) {
        StdBuf::with_capacity(cap)
    }

    fn capacity(&self) -> (res: usize) {
        StdBuf::capacity(self)
    }

    fn len(&self) -> (res: usize) {
        StdBuf::len(self)
    }

    fn usable_space(&self) -> (res: usize) {
        StdBuf::usable_space(self)
    }

    fn reserve(&mut self, additional: usize) -> (moved: bool) {
        StdBuf::reserve(self, additional)
    }

    fn make_room(&mut self) {
        StdBuf::make_room(self)
    }

    fn buf(&self) -> (res: &[u8]) {
        StdBuf::buf(self)
    }

    fn buf_mut(&mut self) -> (res: &mut [u8]) {
        StdBuf::buf_mut(self)
    }

    fn write_buf(&mut self) -> (res: &mut [u8]) {
        StdBuf::write_buf(self)
    }

    fn bytes_written(&mut self, add: usize) {
        StdBuf::bytes_written(self, add);
        proof {
            let tail = old(self).spec_tail() as int;
            assert(old(self).spare().take(add as int) =~= old(self).spec_storage().subrange(
                tail,
                tail + add,
            ));
        }
    }

    fn consume(&mut self, amt: usize) {
        StdBuf::consume(self, amt)
    }
}

} // verus!
