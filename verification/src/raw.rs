//! `RawBuf`: a block of initialised bytes whose length is its capacity, with
//! in-place growth.

use vstd::prelude::*;

use crate::buffer::{extend_zeros, zeroed_vec, zeros};
use crate::outside::subslice_mut;

verus! {

/// A block of bytes whose length is its capacity.
#[derive(Debug)]
pub struct RawBuf {
    buf: Vec<u8>,
}

impl View for RawBuf {
    type V = Seq<u8>;

    closed spec fn view(&self) -> Seq<u8> {
        self.buf@
    }
}

impl RawBuf {
    /// Allocates `capacity` zeroed bytes.
    pub fn with_capacity(capacity: usize) -> (res: Self)
        requires
            capacity <= isize::MAX,
        ensures
            res@ == zeros(capacity as nat),
    {
        RawBuf { buf: zeroed_vec(capacity) }
    }

    /// The capacity: the number of bytes held.
    pub fn len(&self) -> (res: usize)
        ensures
            res == self@.len(),
    {
        self.buf.len()
    }

    /// All bytes.
    pub fn get(&self) -> (res: &[u8])
        ensures
            res@ == self@,
    {
        self.buf.as_slice()
    }

    /// All bytes, for writing.
    pub fn get_mut(&mut self) -> (res: &mut [u8])
        ensures
            res@ == old(self)@,
            final(self)@ == final(res)@,
            final(res)@.len() == res@.len(),
    {
        let len = self.buf.len();
        let r = subslice_mut(&mut self.buf, 0, len);
        proof {
            assert(old(self)@.subrange(0, 0) =~= Seq::<u8>::empty());
        }
        r
    }

    /// The bytes in `start..end`.
    pub fn slice(&self, start: usize, end: usize) -> (res: &[u8])
        requires
            start <= end <= self@.len(),
        ensures
            res@ == self@.subrange(start as int, end as int),
    {
        vstd::slice::slice_subrange(self.buf.as_slice(), start, end)
    }

    /// The bytes in `start..end`, for writing; the rest stays as it is.
    pub fn slice_mut(&mut self, start: usize, end: usize) -> (res: &mut [u8])
        requires
            start <= end <= old(self)@.len(),
        ensures
            res@ == old(self)@.subrange(start as int, end as int),
            final(res)@.len() == res@.len(),
            final(self)@ == old(self)@.subrange(0, start as int) + final(res)@ + old(
                self,
            )@.subrange(end as int, old(self)@.len() as int),
    {
        subslice_mut(&mut self.buf, start, end)
    }

    /// Grows the block by `additional` bytes, given that the first `used`
    /// bytes are in use.
    ///
    /// When none are in use the old bytes are irrelevant: the block is
    /// replaced by `capacity + additional` fresh zeroed bytes and `false` is
    /// returned.  Otherwise the block keeps its bytes and gains `additional`
    /// zeroed ones; the result is `true` only when it certainly kept its
    /// place, that is when it did not grow.
    pub fn resize(&mut self, used: usize, additional: usize) -> (in_place: bool)
        requires
            used <= old(self)@.len(),
            old(self)@.len() + additional <= isize::MAX,
        ensures
            used == 0 ==> final(self)@ == zeros((old(self)@.len() + additional) as nat) && !in_place,
            used > 0 ==> final(self)@ == old(self)@ + zeros(additional as nat) && in_place == (
            additional == 0),
    {
        let cap = self.buf.len();
        if used == 0 {
            *self = RawBuf::with_capacity(cap + additional);
            return false;
        }
        extend_zeros(&mut self.buf, additional);
        additional == 0
    }

    /// The bytes, as a vector.
    pub fn into_vec(self) -> (res: Vec<u8>)
        ensures
            res@ == self@,
    {
        self.buf
    }
}

} // verus!
