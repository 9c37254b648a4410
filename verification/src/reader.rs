//! `BufReader` and `Unbuffer`: the state and the decisions of a buffered
//! reader.  Reading from the inner reader is left to the caller, who asks the
//! methods here what to do and reports what the reads returned.

use vstd::prelude::*;

use crate::buffer::min_nat;
use crate::policy::{ReaderPolicy, StdPolicy};
use crate::{Buffer, DEFAULT_BUF_SIZE};

verus! {

/// A drop-in replacement for `std::io::BufReader` with more functionality.
///
/// Holds the inner reader, the buffer and the `ReaderPolicy`.  To read:
/// when `bypasses_buffer(out.len())` holds, read from the inner reader
/// directly; otherwise fill the buffer (while `fill_step()` holds, read into
/// the buffer through `inner_and_buffer_mut()`, stopping early on a read of 0
/// bytes), then `read_buffered(out)`.
pub struct BufReader<R, P: ReaderPolicy = StdPolicy> {
    // First field for null pointer optimization.
    buf: Buffer,
    inner: R,
    policy: P,
}

/// A position to seek to, as in `std::io::SeekFrom`.
#[derive(Clone, Copy, Debug, PartialEq, Eq)]
pub enum SeekPos {
    /// An offset from the start.
    Start(u64),
    /// An offset from the end.
    End(i64),
    /// An offset from the current position.
    Current(i64),
}

/// The seeks to perform on the inner reader for one seek of a `BufReader`.
#[derive(Clone, Copy, Debug, PartialEq, Eq)]
pub enum SeekPlan {
    /// One seek; on success the buffer is discarded.
    Once(SeekPos),
    /// Two seeks; the buffer is discarded after each one that succeeds.
    Twice(SeekPos, SeekPos),
}

/// How far the seeks of a plan move from the current position in total,
/// counting the relative seeks only.
pub open spec fn plan_net_offset(plan: SeekPlan) -> int {
    let offset = |pos: SeekPos|
        match pos {
            SeekPos::Current(n) => n as int,
            _ => 0,
        };
    match plan {
        SeekPlan::Once(a) => offset(a),
        SeekPlan::Twice(a, b) => offset(a) + offset(b),
    }
}

/// `drained` is `buffer` with its first `amt` bytes (all of them, if there
/// are fewer) consumed.
pub open spec fn drained_by(buffer: Buffer, amt: usize, drained: Buffer) -> bool {
    &&& drained.wf()
    &&& drained@ == buffer@.skip(min_nat(amt as nat, buffer@.len()) as int)
    &&& drained.spec_cap() == buffer.spec_cap()
    &&& drained.spec_zeroed() == buffer.spec_zeroed()
}

impl<R> BufReader<R, StdPolicy> {
    /// Create a new `BufReader` wrapping `inner`, with a buffer of a
    /// default capacity and the default `ReadPolicy`.
    pub fn new(inner: R) -> (res: Self)
        ensures
            res.wf(),
            res.spec_buffer()@ == Seq::<u8>::empty(),
            res.spec_buffer().spec_cap() == DEFAULT_BUF_SIZE,
            res.spec_inner() == inner,
    {
        Self::with_capacity(DEFAULT_BUF_SIZE, inner)
    }

    /// Create a new `BufReader` wrapping `inner` with a capacity
    /// of *at least* `cap` bytes and the default `ReadPolicy`.
    pub fn with_capacity(cap: usize, inner: R) -> (res: Self)
        requires
            cap <= isize::MAX,
        ensures
            res.wf(),
            res.spec_buffer()@ == Seq::<u8>::empty(),
            res.spec_buffer().spec_cap() == cap,
            res.spec_inner() == inner,
    {
        Self::with_buffer(Buffer::with_capacity(cap), inner)
    }

    /// Re-use an existing buffer with a new reader.
    ///
    /// ### Note
    /// Does **not** clear the buffer first! If there is data already in the buffer
    /// then it will be returned in `read()` and `fill_buf()`.
    pub fn with_buffer(buf: Buffer, inner: R) -> (res: Self)
        ensures
            res.spec_buffer() == buf,
            res.spec_inner() == inner,
    {
        BufReader { buf, inner, policy: StdPolicy }
    }
}

impl<R, P: ReaderPolicy> BufReader<R, P> {
    /// The buffer.
    pub closed spec fn spec_buffer(&self) -> Buffer {
        self.buf
    }

    /// The inner reader.
    pub closed spec fn spec_inner(&self) -> R {
        self.inner
    }

    /// The policy.
    pub closed spec fn spec_policy(&self) -> P {
        self.policy
    }

    /// The buffer is consistent.
    pub open spec fn wf(&self) -> bool {
        self.spec_buffer().wf()
    }

    /// Apply a new `ReaderPolicy` to this `BufReader`, returning the transformed type.
    pub fn set_policy<P2: ReaderPolicy>(self, policy: P2) -> (res: BufReader<R, P2>)
        ensures
            res.spec_buffer() == self.spec_buffer(),
            res.spec_inner() == self.spec_inner(),
            res.spec_policy() == policy,
    {
        BufReader { inner: self.inner, buf: self.buf, policy }
    }

    /// Accessor for updating the `ReaderPolicy` in-place.
    ///
    /// If you want to change the type, use `.set_policy()`.
    pub fn policy_mut(&mut self) -> (res: &mut P)
        ensures
            *res == old(self).spec_policy(),
            final(self).spec_policy() == *final(res),
            final(self).spec_buffer() == old(self).spec_buffer(),
            final(self).spec_inner() == old(self).spec_inner(),
    {
        &mut self.policy
    }

    /// Move data to the start of the buffer, making room at the end for more
    /// reading.
    pub fn make_room(&mut self)
        ensures
            final(self).wf(),
            final(self).spec_buffer()@ == old(self).spec_buffer()@,
            final(self).spec_buffer().spec_cap() == old(self).spec_buffer().spec_cap(),
            final(self).spec_buffer().spec_usable() == final(self).spec_buffer().spec_free(),
            final(self).spec_inner() == old(self).spec_inner(),
            final(self).spec_policy() == old(self).spec_policy(),
    {
        proof {
            use_type_invariant(&self.buf);
        }
        self.buf.make_room();
    }

    /// Ensure room in the buffer for *at least* `additional` bytes.
    pub fn reserve(&mut self, additional: usize)
        requires
            old(self).spec_buffer().can_reserve(additional as nat),
        ensures
            final(self).wf(),
            final(self).spec_buffer().reserved_from(&old(self).spec_buffer(), additional as nat),
            final(self).spec_inner() == old(self).spec_inner(),
            final(self).spec_policy() == old(self).spec_policy(),
    {
        proof {
            use_type_invariant(&self.buf);
        }
        self.buf.reserve(additional);
    }

    /// Get the section of the buffer containing valid data; may be empty.
    ///
    /// Call `.consume()` to remove bytes from the beginning of this section.
    pub fn buffer(&self) -> (res: &[u8])
        ensures
            res@ == self.spec_buffer()@,
    {
        proof {
            use_type_invariant(&self.buf);
        }
        self.buf.buf()
    }

    /// Get the current number of bytes available in the buffer.
    pub fn buf_len(&self) -> (res: usize)
        ensures
            res == self.spec_buffer()@.len(),
    {
        proof {
            use_type_invariant(&self.buf);
        }
        self.buf.len()
    }

    /// Get the total buffer capacity.
    pub fn capacity(&self) -> (res: usize)
        ensures
            res == self.spec_buffer().spec_cap(),
    {
        proof {
            use_type_invariant(&self.buf);
        }
        self.buf.capacity()
    }

    /// Get an immutable reference to the underlying reader.
    pub fn get_ref(&self) -> (res: &R)
        ensures
            *res == self.spec_inner(),
    {
        &self.inner
    }

    /// Get a mutable reference to the underlying reader.
    ///
    /// ## Note
    /// Reading directly from the underlying reader is not recommended, as some
    /// data has likely already been moved into the buffer.
    pub fn get_mut(&mut self) -> (res: &mut R)
        ensures
            *res == old(self).spec_inner(),
            final(self).spec_inner() == *final(res),
            final(self).spec_buffer() == old(self).spec_buffer(),
            final(self).spec_policy() == old(self).spec_policy(),
    {
        &mut self.inner
    }

    /// The underlying reader and the buffer together, for a read into the
    /// buffer (`Buffer::prepare_read`, `Buffer::write_buf`,
    /// `Buffer::read_from`).
    pub fn inner_and_buffer_mut(&mut self) -> (res: (&mut R, &mut Buffer))
        ensures
            *res.0 == old(self).spec_inner(),
            *res.1 == old(self).spec_buffer(),
            final(self).spec_inner() == *final(res.0),
            final(self).spec_buffer() == *final(res.1),
            final(self).spec_policy() == old(self).spec_policy(),
    {
        (&mut self.inner, &mut self.buf)
    }

    /// Consume `self` and return the inner reader only.
    pub fn into_inner(self) -> (res: R)
        ensures
            res == self.spec_inner(),
    {
        self.inner
    }

    /// Consume `self` and return both the underlying reader and the buffer.
    ///
    /// See also: `BufReader::unbuffer()`
    pub fn into_inner_with_buffer(self) -> (res: (R, Buffer))
        ensures
            res.0 == self.spec_inner(),
            res.1 == self.spec_buffer(),
    {
        (self.inner, self.buf)
    }

    /// Replace the inner reader by `f` applied to it, keeping the buffer and
    /// the policy; used to box the inner reader without losing data.
    pub fn map_inner<R2, F: FnOnce(R) -> R2>(self, f: F) -> (res: BufReader<R2, P>)
        requires
            call_requires(f, (self.spec_inner(),)),
        ensures
            call_ensures(f, (self.spec_inner(),), res.spec_inner()),
            res.spec_buffer() == self.spec_buffer(),
            res.spec_policy() == self.spec_policy(),
    {
        BufReader { inner: f(self.inner), buf: self.buf, policy: self.policy }
    }

    /// Consume `self` and return an adapter which implements `Read` and will
    /// empty the buffer before reading directly from the underlying reader.
    pub fn unbuffer(self) -> (res: Unbuffer<R>)
        ensures
            res.spec_inner() == self.spec_inner(),
            res.spec_buffer() == Some(self.spec_buffer()),
    {
        Unbuffer { inner: self.inner, buf: Some(self.buf) }
    }

    /// Asks the policy whether to read into the buffer: the answer, and the
    /// buffer afterwards, are what the policy's `before_read` gives on the
    /// buffer.
    pub fn should_read(&mut self) -> (res: bool)
        requires
            old(self).spec_policy().admits(&old(self).spec_buffer()),
        ensures
            final(self).wf(),
            final(self).spec_inner() == old(self).spec_inner(),
            old(self).spec_policy().before_read_does(
                old(self).spec_buffer(),
                res,
                final(self).spec_buffer(),
            ),
            final(self).spec_policy() == old(self).spec_policy().after_before_read(
                old(self).spec_buffer(),
            ),
    {
        proof {
            use_type_invariant(&self.buf);
        }
        let read = self.policy.before_read(&mut self.buf).0;
        proof {
            use_type_invariant(&self.buf);
        }
        read
    }

    /// Whether the policy admits the buffer, so that `should_read` and
    /// `fill_step` may run: tests the policy's `admits`.
    pub fn policy_admits(&self) -> (res: bool)
        ensures
            res == self.spec_policy().admits(&self.spec_buffer()),
    {
        proof {
            use_type_invariant(&self.buf);
        }
        self.policy.admits_buffer(&self.buf)
    }

    /// One test of the loop that fills the buffer: asks the policy whether to
    /// read, and reads only if it says so and there is room after the tail.
    pub fn fill_step(&mut self) -> (res: bool)
        requires
            old(self).spec_policy().admits(&old(self).spec_buffer()),
        ensures
            final(self).wf(),
            final(self).spec_inner() == old(self).spec_inner(),
            exists|read: bool|
                {
                    &&& #[trigger] old(self).spec_policy().before_read_does(
                        old(self).spec_buffer(),
                        read,
                        final(self).spec_buffer(),
                    )
                    &&& res == (read && final(self).spec_buffer().spec_usable() > 0)
                },
            final(self).spec_policy() == old(self).spec_policy().after_before_read(
                old(self).spec_buffer(),
            ),
    {
        proof {
            use_type_invariant(&self.buf);
        }
        let do_read = self.should_read();
        self.fill_decision(do_read)
    }

    /// The test that follows a read of `read` bytes into the buffer in the
    /// loop that fills it: a read of 0 bytes ends the loop and changes
    /// nothing; after a read of some bytes the policy is consulted again,
    /// exactly as in `fill_step`.
    pub fn fill_again(&mut self, read: usize) -> (res: bool)
        requires
            read > 0 ==> old(self).spec_policy().admits(&old(self).spec_buffer()),
        ensures
            final(self).wf(),
            final(self).spec_inner() == old(self).spec_inner(),
            read == 0 ==> !res && *final(self) == *old(self),
            read > 0 ==> exists|do_read: bool|
                {
                    &&& #[trigger] old(self).spec_policy().before_read_does(
                        old(self).spec_buffer(),
                        do_read,
                        final(self).spec_buffer(),
                    )
                    &&& res == (do_read && final(self).spec_buffer().spec_usable() > 0)
                },
            read > 0 ==> final(self).spec_policy() == old(self).spec_policy().after_before_read(
                old(self).spec_buffer(),
            ),
    {
        proof {
            use_type_invariant(&self.buf);
        }
        if read == 0 {
            false
        } else {
            self.fill_step()
        }
    }

    /// Whether the fill loop reads, given the policy's answer: only if the
    /// policy asks for a read and there is room after the tail.
    pub fn fill_decision(&self, do_read: bool) -> (res: bool)
        ensures
            res == (do_read && self.spec_buffer().spec_usable() > 0),
    {
        proof {
            use_type_invariant(&self.buf);
        }
        do_read && self.buf.usable_space() > 0
    }

    /// Whether a read into `out` skips the buffer and goes to the inner
    /// reader directly: when nothing is buffered and the read matches or
    /// exceeds the buffer's capacity.
    pub fn bypasses_buffer(&self, out_len: usize) -> (res: bool)
        ensures
            res == (self.spec_buffer()@.len() == 0 && out_len >= self.spec_buffer().spec_cap()),
    {
        proof {
            use_type_invariant(&self.buf);
        }
        self.buf.is_empty() && out_len >= self.buf.capacity()
    }

    /// The last part of a read that goes through the buffer: copies as many
    /// buffered bytes as fit into `out` and consumes them (through
    /// `consume`, so the policy sees them go).  Returns the count.
    pub fn read_buffered(&mut self, out: &mut [u8]) -> (nread: usize)
        ensures
            final(self).wf(),
            nread == min_nat(old(self).spec_buffer()@.len(), old(out)@.len()),
            final(out)@ == old(self).spec_buffer()@.take(nread as int) + old(out)@.skip(
                nread as int,
            ),
            final(self).spec_inner() == old(self).spec_inner(),
            exists|drained: Buffer|
                {
                    &&& #[trigger] drained_by(old(self).spec_buffer(), nread, drained)
                    &&& old(self).spec_policy().after_consume_does(
                        drained,
                        nread,
                        final(self).spec_buffer(),
                    )
                    &&& final(self).spec_policy() == old(self).spec_policy().after_after_consume(
                        drained,
                        nread,
                    )
                },
    {
        proof {
            use_type_invariant(&self.buf);
        }
        let nread = {
            let data = self.buf.buf();
            let len = if data.len() <= out.len() {
                data.len()
            } else {
                out.len()
            };
            let mut i: usize = 0;
            while i < len
                invariant
                    len <= data@.len(),
                    len <= out@.len(),
                    i <= len,
                    out@.len() == old(out)@.len(),
                    forall|k: int| 0 <= k < i ==> #[trigger] out@[k] == data@[k],
                    forall|k: int| len <= k < out@.len() ==> #[trigger] out@[k] == old(out)@[k],
                decreases len - i,
            {
                out[i] = data[i];
                i = i + 1;
            }
            proof {
                assert(out@ =~= old(self).spec_buffer()@.take(len as int) + old(out)@.skip(
                    len as int,
                ));
            }
            len
        };
        self.consume(nread);
        proof {
            assert(min_nat(nread as nat, old(self).spec_buffer()@.len()) as usize == nread);
        }
        nread
    }

    /// Consume at most `amt` buffered bytes (all of them, if fewer are
    /// buffered), then tell the policy how many went: the buffer afterwards
    /// is what the policy's `after_consume`, told that count, leaves of the
    /// buffer without those bytes.
    pub fn consume(&mut self, amt: usize)
        ensures
            final(self).wf(),
            final(self).spec_inner() == old(self).spec_inner(),
            exists|drained: Buffer|
                {
                    &&& #[trigger] drained_by(old(self).spec_buffer(), amt, drained)
                    &&& old(self).spec_policy().after_consume_does(
                        drained,
                        min_nat(amt as nat, old(self).spec_buffer()@.len()) as usize,
                        final(self).spec_buffer(),
                    )
                    &&& final(self).spec_policy() == old(self).spec_policy().after_after_consume(
                        drained,
                        min_nat(amt as nat, old(self).spec_buffer()@.len()) as usize,
                    )
                },
    {
        proof {
            use_type_invariant(&self.buf);
        }
        let n = self.consume_amount(amt);
        self.buf.consume(n);
        let ghost drained = self.buf;
        assert(drained_by(old(self).spec_buffer(), amt, drained));
        assert(n == min_nat(amt as nat, old(self).spec_buffer()@.len()) as usize);
        self.policy.after_consume(&mut self.buf, n);
        proof {
            use_type_invariant(&self.buf);
        }
        assert(old(self).spec_policy().after_consume_does(drained, n, self.spec_buffer()));
    }

    /// The number of bytes `consume(amt)` drops from the buffer and reports
    /// to the policy: `amt`, but no more than are buffered.
    pub fn consume_amount(&self, amt: usize) -> (res: usize)
        ensures
            res == min_nat(amt as nat, self.spec_buffer()@.len()),
    {
        proof {
            use_type_invariant(&self.buf);
        }
        if amt <= self.buf_len() {
            amt
        } else {
            self.buf_len()
        }
    }

    /// The seeks that make the inner reader's position the one it would have
    /// had without the buffer, moved by `pos`.
    ///
    /// A seek from the start or the end is passed on as it is.  A seek from
    /// the current position is corrected by the buffered length `len`: one
    /// seek by `n - len` when that fits in an `i64`, otherwise one seek back
    /// by `len` followed by one by `n`.  The buffer is discarded after each
    /// seek that succeeds: the caller reports each success to
    /// `seek_succeeded`.
    pub fn seek(&self, pos: SeekPos) -> (plan: SeekPlan)
        ensures
            match pos {
                SeekPos::Current(n) => {
                    let len = self.spec_buffer()@.len() as int;
                    if n - len >= i64::MIN {
                        plan == SeekPlan::Once(SeekPos::Current((n - len) as i64))
                    } else {
                        plan == SeekPlan::Twice(
                            SeekPos::Current((-len) as i64),
                            SeekPos::Current(n),
                        )
                    }
                },
                _ => plan == SeekPlan::Once(pos),
            },
            pos matches SeekPos::Current(n) ==> plan_net_offset(plan) == n - self.spec_buffer()@.len(),
    {
        proof {
            use_type_invariant(&self.buf);
        }
        match pos {
            SeekPos::Current(n) => {
                // the buffered length is at most `isize::MAX`, so it fits an i64
                let remainder = self.buf_len() as i64;
                match n.checked_sub(remainder) {
                    Some(offset) => SeekPlan::Once(SeekPos::Current(offset)),
                    None => SeekPlan::Twice(SeekPos::Current(-remainder), SeekPos::Current(n)),
                }
            },
            _ => SeekPlan::Once(pos),
        }
    }

    /// Record that a seek of the inner reader succeeded: seeking always
    /// discards the buffer, even if the new position would fall within it.
    /// The capacity is kept.
    pub fn seek_succeeded(&mut self)
        ensures
            final(self).wf(),
            final(self).spec_buffer()@ == Seq::<u8>::empty(),
            final(self).spec_buffer().spec_cap() == old(self).spec_buffer().spec_cap(),
            final(self).spec_buffer().spec_usable() == old(self).spec_buffer().spec_cap(),
            final(self).spec_inner() == old(self).spec_inner(),
            final(self).spec_policy() == old(self).spec_policy(),
    {
        proof {
            use_type_invariant(&self.buf);
        }
        self.buf.clear();
    }

    /// The policy.
    pub fn policy(&self) -> (res: &P)
        ensures
            *res == self.spec_policy(),
    {
        &self.policy
    }
}

/// A `Read` adapter for a consumed `BufReader` which will empty bytes from the buffer before reading from
/// `inner` directly. Frees the buffer when it has been emptied.
pub struct Unbuffer<R> {
    inner: R,
    buf: Option<Buffer>,
}

impl<R> Unbuffer<R> {
    /// The inner reader.
    pub closed spec fn spec_inner(&self) -> R {
        self.inner
    }

    /// The buffer, until it is released.
    pub closed spec fn spec_buffer(&self) -> Option<Buffer> {
        self.buf
    }

    /// The buffered bytes still to be returned.
    pub open spec fn spec_buffered(&self) -> Seq<u8> {
        match self.spec_buffer() {
            Some(b) => b@,
            None => Seq::<u8>::empty(),
        }
    }

    /// A buffer still held is consistent.
    pub open spec fn wf(&self) -> bool {
        self.spec_buffer() matches Some(b) ==> b.wf()
    }

    /// Returns `true` if the buffer still has some bytes left, `false` otherwise.
    pub fn is_buf_empty(&self) -> (res: bool)
        ensures
            res == (self.spec_buffered().len() > 0),
    {
        match &self.buf {
            Some(b) => b.len() > 0,
            None => false,
        }
    }

    /// Returns the number of bytes remaining in the buffer.
    pub fn buf_len(&self) -> (res: usize)
        ensures
            res == self.spec_buffered().len(),
    {
        match &self.buf {
            Some(b) => b.len(),
            None => 0,
        }
    }

    /// Get a slice over the available bytes in the buffer.
    pub fn buf(&self) -> (res: &[u8])
        ensures
            res@ == self.spec_buffered(),
    {
        match &self.buf {
            Some(b) => b.buf(),
            None => &[],
        }
    }

    /// The underlying reader.
    pub fn get_ref(&self) -> (res: &R)
        ensures
            *res == self.spec_inner(),
    {
        &self.inner
    }

    /// The underlying reader, for the reads the buffer no longer serves.
    pub fn get_mut(&mut self) -> (res: &mut R)
        ensures
            *res == old(self).spec_inner(),
            final(self).spec_inner() == *final(res),
            final(self).spec_buffer() == old(self).spec_buffer(),
    {
        &mut self.inner
    }

    /// Return the underlying reader, releasing the buffer.
    pub fn into_inner(self) -> (res: R)
        ensures
            res == self.spec_inner(),
    {
        self.inner
    }

    /// The part of a read that the buffer serves.
    ///
    /// While bytes are buffered, as many as fit are copied into `out` and
    /// consumed, and their count returned (0 for an empty `out`, which leaves
    /// them buffered).  Once the buffer has been emptied it is released and
    /// `None` returned: the read then goes to the inner reader.
    pub fn read_buffered(&mut self, out: &mut [u8]) -> (res: Option<usize>)
        ensures
            final(self).wf(),
            final(self).spec_inner() == old(self).spec_inner(),
            ({
                let buffered = old(self).spec_buffered();
                let n = min_nat(buffered.len(), old(out)@.len());
                if buffered.len() > 0 {
                    &&& res == Some(n as usize)
                    &&& final(out)@ == buffered.take(n as int) + old(out)@.skip(n as int)
                    &&& final(self).spec_buffered() == buffered.skip(n as int)
                    &&& final(self).spec_buffer() is Some
                } else {
                    &&& res is None
                    &&& final(out)@ == old(out)@
                    &&& final(self).spec_buffer() is None
                }
            }),
    {
        match &mut self.buf {
            Some(buf) => {
                if !buf.is_empty() {
                    return Some(buf.copy_to_slice(out));
                }
            },
            None => {},
        }
        self.buf = None;
        None
    }
}

} // verus!
