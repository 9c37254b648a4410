//! `BufWriter` and `LineWriter`: the state and the decisions of a buffered
//! writer.  Writing to the inner writer is left to the caller, who asks the
//! methods here what to do and reports what the writes returned.

use vstd::prelude::*;

use crate::buffer::min_nat;
use crate::policy::{FlushOnNewline, StdPolicy, WriterPolicy};
use crate::step::{write_step, IoOutcome, LoopStep};
use crate::{Buffer, DEFAULT_BUF_SIZE};

verus! {

/// A type wrapping `Option` which provides more convenient access when the `Some` case is more
/// common.
pub struct AssertSome<T>(Option<T>);

impl<T> AssertSome<T> {
    /// The wrapped value, until it is taken.
    pub closed spec fn spec_value(&self) -> Option<T> {
        self.0
    }

    /// Wraps `val`.
    pub fn new(val: T) -> (res: Self)
        ensures
            res.spec_value() == Some(val),
    {
        AssertSome(Some(val))
    }

    /// Takes the value out, leaving nothing; it must not have been taken
    /// before.
    pub fn take(this: &mut Self) -> (res: T)
        requires
            old(this).spec_value() is Some,
        ensures
            old(this).spec_value() == Some(res),
            final(this).spec_value() is None,
    {
        match this.0.take() {
            Some(v) => v,
            None => vstd::pervasive::unreached(),
        }
    }

    /// Moves the value (or its absence) into a new wrapper, leaving nothing.
    pub fn take_self(this: &mut Self) -> (res: Self)
        ensures
            res.spec_value() == old(this).spec_value(),
            final(this).spec_value() is None,
    {
        AssertSome(this.0.take())
    }

    /// Whether the value is still there.
    pub fn is_some(this: &Self) -> (res: bool)
        ensures
            res == this.spec_value() is Some,
    {
        this.0.is_some()
    }

    /// The value, which must still be there.
    pub fn get(&self) -> (res: &T)
        requires
            self.spec_value() is Some,
        ensures
            Some(*res) == self.spec_value(),
    {
        match &self.0 {
            Some(v) => v,
            None => vstd::pervasive::unreached(),
        }
    }

    /// The value, which must still be there, for changing.
    pub fn get_mut(&mut self) -> (res: &mut T)
        requires
            old(self).spec_value() is Some,
        ensures
            Some(*res) == old(self).spec_value(),
            final(self).spec_value() == Some(*final(res)),
    {
        match &mut self.0 {
            Some(v) => v,
            None => vstd::pervasive::unreached(),
        }
    }
}

/// Which part of a write through a `BufWriter` is under way.
#[derive(Clone, Copy, Debug, PartialEq, Eq)]
pub enum WritePhase {
    /// Flushing the buffer before the data is taken.
    FlushBefore,
    /// Writing the data to the inner writer directly, past the buffer.
    WriteData,
    /// Flushing the buffer after the data was taken.
    FlushAfter,
    /// The write is over.
    Finished,
}

/// What the caller of a write through a `BufWriter` does next.
#[derive(Clone, Copy, Debug, PartialEq, Eq)]
pub enum WriteAction {
    /// Write the first `len` buffered bytes to the inner writer and report
    /// the outcome to `write_event`.
    WriteBuffered(usize),
    /// Write all of the data to the inner writer and report the outcome to
    /// `write_event`.
    WriteData,
    /// The write is over: it returns `Ok` with this many bytes of the data
    /// taken.
    Return(usize),
    /// The write is over: it returns the error of the last call into the
    /// inner writer.
    Fail,
    /// The write is over: it returns an `ErrorKind::WriteZero` error, the
    /// inner writer having accepted nothing.
    FailWriteZero,
}

/// The state of one write of some data through a `BufWriter`, from
/// `begin_write` until an action ends it.
pub struct WriteRun {
    phase: WritePhase,
    left: usize,
    written: usize,
    start: Ghost<Seq<u8>>,
    sent: Ghost<Seq<u8>>,
}

impl WriteRun {
    /// The part of the write under way.
    pub closed spec fn spec_phase(&self) -> WritePhase {
        self.phase
    }

    /// How many more bytes the flush under way may write.
    pub closed spec fn spec_left(&self) -> nat {
        self.left as nat
    }

    /// How many bytes of the data the write has taken.
    pub closed spec fn spec_written(&self) -> nat {
        self.written as nat
    }

    /// The bytes buffered when the write began, once the policy had been
    /// consulted about flushing.
    pub closed spec fn spec_start(&self) -> Seq<u8> {
        self.start@
    }

    /// The bytes the inner writer has accepted during the write, in order.
    pub closed spec fn spec_sent(&self) -> Seq<u8> {
        self.sent@
    }

    /// No byte is lost, duplicated or reordered: the bytes the inner writer
    /// has accepted, followed by the bytes buffered now, are the bytes
    /// buffered when the write began followed by the part of `data` taken.
    pub open spec fn conserves(&self, buffered: Seq<u8>, data: Seq<u8>) -> bool {
        &&& self.spec_written() <= data.len()
        &&& self.spec_sent() + buffered == self.spec_start() + data.take(
            self.spec_written() as int,
        )
    }
}

/// How many bytes a write into the inner writer that came back with
/// `outcome` moved: its count when it succeeded, none otherwise.
pub open spec fn flushed_count(outcome: IoOutcome) -> nat {
    match outcome {
        IoOutcome::Done(n) => n as nat,
        _ => 0,
    }
}

/// The amount a flush may still write after a write into the inner writer
/// that came back with `outcome`, when it could write `left` before: lowered
/// by the count written, stopping at 0.
pub open spec fn left_after(left: nat, outcome: IoOutcome) -> nat {
    match outcome {
        IoOutcome::Done(n) => if n <= left {
            (left - n) as nat
        } else {
            0
        },
        _ => left,
    }
}

/// A drop-in replacement for `std::io::BufWriter` with more functionality.
///
/// Holds the inner writer, the buffer and the `WriterPolicy`.  A write of
/// `data` runs: flush `flush_before_write(data.len())` bytes; then, when
/// `write_direct(data.len())` holds, write `data` to the inner writer directly
/// and call `end_inner_write()`, otherwise `write_buffered(data)`; then flush
/// `flush_after_write()` bytes, ignoring errors.  Flushing `amt` bytes: when
/// `flush_buf(amt)` holds, run the `Buffer::write_max` loop on the inner writer
/// (through `inner_and_buffer_mut()`) and call `end_inner_write()`.
pub struct BufWriter<W, P: WriterPolicy = StdPolicy> {
    buf: Buffer,
    inner: AssertSome<W>,
    policy: P,
    panicked: bool,
}

impl<W> BufWriter<W, StdPolicy> {
    /// Wrap `inner` with the default buffer capacity and flush strategy.
    pub fn new(inner: W) -> (res: Self)
        ensures
            res.wf(),
            res.spec_buffer()@ == Seq::<u8>::empty(),
            res.spec_buffer().spec_cap() == DEFAULT_BUF_SIZE,
            res.spec_inner() == inner,
            !res.spec_panicked(),
    {
        Self::with_capacity(DEFAULT_BUF_SIZE, inner)
    }

    /// Wrap `inner` with the given buffer capacity and the default flush strategy.
    pub fn with_capacity(cap: usize, inner: W) -> (res: Self)
        requires
            cap <= isize::MAX,
        ensures
            res.wf(),
            res.spec_buffer()@ == Seq::<u8>::empty(),
            res.spec_buffer().spec_cap() == cap,
            res.spec_inner() == inner,
            !res.spec_panicked(),
    {
        BufWriter {
            buf: Buffer::with_capacity(cap),
            inner: AssertSome::new(inner),
            policy: StdPolicy,
            panicked: false,
        }
    }
}

impl<W, P: WriterPolicy> BufWriter<W, P> {
    /// The buffer.
    pub closed spec fn spec_buffer(&self) -> Buffer {
        self.buf
    }

    /// The inner writer.
    pub closed spec fn spec_inner(&self) -> W {
        self.inner.spec_value()->0
    }

    /// The policy.
    pub closed spec fn spec_policy(&self) -> P {
        self.policy
    }

    /// Whether a call into the inner writer is under way (so that a panic in
    /// it leaves this flag set, and dropping must not write again).
    pub closed spec fn spec_panicked(&self) -> bool {
        self.panicked
    }

    /// Whether the inner writer is still held.
    pub closed spec fn spec_has_inner(&self) -> bool {
        self.inner.spec_value() is Some
    }

    /// The buffer is consistent and the inner writer is present.
    pub open spec fn wf(&self) -> bool {
        &&& self.spec_buffer().wf()
        &&& self.spec_has_inner()
    }

    /// Set a new `WriterPolicy`, returning the transformed type.
    pub fn set_policy<P2: WriterPolicy>(self, policy: P2) -> (res: BufWriter<W, P2>)
        requires
            self.wf(),
        ensures
            res.wf(),
            res.spec_buffer() == self.spec_buffer(),
            res.spec_inner() == self.spec_inner(),
            res.spec_policy() == policy,
            res.spec_panicked() == self.spec_panicked(),
    {
        BufWriter { inner: self.inner, buf: self.buf, policy, panicked: self.panicked }
    }

    /// Mutate the current `WriterPolicy`.
    pub fn policy_mut(&mut self) -> (res: &mut P)
        requires
            old(self).wf(),
        ensures
            *res == old(self).spec_policy(),
            final(self).spec_policy() == *final(res),
            final(self).wf(),
            final(self).spec_buffer() == old(self).spec_buffer(),
            final(self).spec_inner() == old(self).spec_inner(),
            final(self).spec_panicked() == old(self).spec_panicked(),
    {
        &mut self.policy
    }

    /// The current `WriterPolicy`.
    pub fn policy(&self) -> (res: &P)
        ensures
            *res == self.spec_policy(),
    {
        &self.policy
    }

    /// Get a reference to the inner writer.
    pub fn get_ref(&self) -> (res: &W)
        requires
            self.wf(),
        ensures
            *res == self.spec_inner(),
    {
        self.inner.get()
    }

    /// Get a mutable reference to the inner writer.
    ///
    /// ### Note
    /// If the buffer has not been flushed, writing directly to the inner type will cause
    /// data inconsistency.
    pub fn get_mut(&mut self) -> (res: &mut W)
        requires
            old(self).wf(),
        ensures
            *res == old(self).spec_inner(),
            final(self).spec_inner() == *final(res),
            final(self).wf(),
            final(self).spec_buffer() == old(self).spec_buffer(),
            final(self).spec_policy() == old(self).spec_policy(),
            final(self).spec_panicked() == old(self).spec_panicked(),
    {
        self.inner.get_mut()
    }

    /// The inner writer and the buffer together, for flushing the buffer into
    /// the writer.
    pub fn inner_and_buffer_mut(&mut self) -> (res: (&mut W, &mut Buffer))
        requires
            old(self).wf(),
        ensures
            *res.0 == old(self).spec_inner(),
            *res.1 == old(self).spec_buffer(),
            final(self).spec_inner() == *final(res.0),
            final(self).spec_buffer() == *final(res.1),
            final(self).spec_buffer().wf() ==> final(self).wf(),
            final(self).spec_policy() == old(self).spec_policy(),
            final(self).spec_panicked() == old(self).spec_panicked(),
    {
        (self.inner.get_mut(), &mut self.buf)
    }

    /// Get the capacty of the inner buffer.
    pub fn capacity(&self) -> (res: usize)
        requires
            self.wf(),
        ensures
            res == self.spec_buffer().spec_cap(),
    {
        self.buf.capacity()
    }

    /// Get the number of bytes currently in the buffer.
    pub fn buf_len(&self) -> (res: usize)
        requires
            self.wf(),
        ensures
            res == self.spec_buffer()@.len(),
    {
        self.buf.len()
    }

    /// Reserve space in the buffer for at least `additional` bytes.
    pub fn reserve(&mut self, additional: usize)
        requires
            old(self).wf(),
            old(self).spec_buffer().can_reserve(additional as nat),
        ensures
            final(self).wf(),
            final(self).spec_buffer().reserved_from(&old(self).spec_buffer(), additional as nat),
            final(self).spec_inner() == old(self).spec_inner(),
            final(self).spec_policy() == old(self).spec_policy(),
            final(self).spec_panicked() == old(self).spec_panicked(),
    {
        self.buf.reserve(additional);
    }

    /// Unwrap after flushing, given how the flush (of the whole buffer, then
    /// of the inner writer) ended: the inner writer on success, or `self`
    /// together with the error.
    pub fn into_inner(self, flushed: Result<(), std::io::Error>) -> (res: Result<
        W,
        IntoInnerError<Self>,
    >)
        requires
            self.wf(),
        ensures
            match flushed {
                Ok(()) => res == Ok::<W, IntoInnerError<Self>>(self.spec_inner()),
                Err(e) => res matches Err(err) && err.0 == self && err.1 == e,
            },
    {
        let mut this = self;
        match flushed {
            Err(e) => Err(IntoInnerError(this, e)),
            Ok(()) => Ok(AssertSome::take(&mut this.inner)),
        }
    }

    /// Unwrap after flushing, given the error the flush ended with, if any:
    /// the inner writer and that error.
    pub fn into_inner_with_err(self, err: Option<std::io::Error>) -> (res: (W, Option<std::io::Error>))
        requires
            self.wf(),
        ensures
            res.0 == self.spec_inner(),
            res.1 == err,
    {
        let mut this = self;
        (AssertSome::take(&mut this.inner), err)
    }

    /// Consume `self` and return both the underlying writer and the buffer.
    pub fn into_inner_with_buffer(self) -> (res: (W, Buffer))
        requires
            self.wf(),
        ensures
            res.0 == self.spec_inner(),
            res.1 == self.spec_buffer(),
    {
        let mut this = self;
        (AssertSome::take(&mut this.inner), this.buf)
    }

    /// Whether flushing `amt` bytes calls the inner writer: only when `amt`
    /// is neither 0 nor more than the buffered bytes.  When it does, the
    /// call is marked as under way until `end_inner_write`.
    pub fn flush_buf(&mut self, amt: usize) -> (res: bool)
        requires
            old(self).wf(),
        ensures
            final(self).wf(),
            res == (amt != 0 && amt <= old(self).spec_buffer()@.len()),
            final(self).spec_panicked() == (res || old(self).spec_panicked()),
            final(self).spec_buffer() == old(self).spec_buffer(),
            final(self).spec_inner() == old(self).spec_inner(),
            final(self).spec_policy() == old(self).spec_policy(),
    {
        if amt == 0 || amt > self.buf.len() {
            return false;
        }
        self.panicked = true;
        true
    }

    /// Marks the call into the inner writer as finished.
    pub fn end_inner_write(&mut self)
        requires
            old(self).wf(),
        ensures
            final(self).wf(),
            !final(self).spec_panicked(),
            final(self).spec_buffer() == old(self).spec_buffer(),
            final(self).spec_inner() == old(self).spec_inner(),
            final(self).spec_policy() == old(self).spec_policy(),
    {
        self.panicked = false;
    }

    /// How many bytes to flush before a write of `incoming` bytes: all
    /// buffered bytes when the policy asks for a flush, none otherwise.
    pub fn flush_before_write(&mut self, incoming: usize) -> (amt: usize)
        requires
            old(self).wf(),
        ensures
            final(self).wf(),
            exists|flush: bool|
                {
                    &&& #[trigger] old(self).spec_policy().flush_before_does(
                        old(self).spec_buffer(),
                        incoming,
                        flush,
                        final(self).spec_buffer(),
                    )
                    &&& amt == if flush {
                        final(self).spec_buffer()@.len()
                    } else {
                        0
                    }
                },
            final(self).spec_inner() == old(self).spec_inner(),
            final(self).spec_panicked() == old(self).spec_panicked(),
            final(self).spec_policy() == old(self).spec_policy().after_flush_before(
                old(self).spec_buffer(),
                incoming,
            ),
    {
        let flush = self.policy.flush_before(&mut self.buf, incoming);
        proof {
            use_type_invariant(&self.buf);
        }
        let amt = self.flush_amount(flush);
        assert(old(self).spec_policy().flush_before_does(
            old(self).spec_buffer(),
            incoming,
            flush,
            self.spec_buffer(),
        ));
        amt
    }

    /// The number of bytes to flush given the policy's answer: all buffered
    /// bytes when it asks for a flush, none otherwise.
    pub fn flush_amount(&self, flush: bool) -> (amt: usize)
        requires
            self.wf(),
        ensures
            amt == if flush {
                self.spec_buffer()@.len()
            } else {
                0
            },
    {
        if flush {
            self.buf.len()
        } else {
            0
        }
    }

    /// Whether a write of `incoming` bytes skips the buffer and goes to the
    /// inner writer directly: when nothing is buffered and the write matches
    /// or exceeds the buffer's capacity.  When it does, the call is marked as
    /// under way until `end_inner_write`.
    pub fn write_direct(&mut self, incoming: usize) -> (res: bool)
        requires
            old(self).wf(),
        ensures
            final(self).wf(),
            res == (old(self).spec_buffer()@.len() == 0 && incoming >= old(
                self,
            ).spec_buffer().spec_cap()),
            final(self).spec_panicked() == (res || old(self).spec_panicked()),
            final(self).spec_buffer() == old(self).spec_buffer(),
            final(self).spec_inner() == old(self).spec_inner(),
            final(self).spec_policy() == old(self).spec_policy(),
    {
        if self.buf.is_empty() && incoming >= self.buf.capacity() {
            self.panicked = true;
            true
        } else {
            false
        }
    }

    /// A write that goes through the buffer: copies as much of `data` as the
    /// room after the tail takes, and returns the count.
    pub fn write_buffered(&mut self, data: &[u8]) -> (written: usize)
        requires
            old(self).wf(),
        ensures
            final(self).wf(),
            written == min_nat(old(self).spec_buffer().spec_usable(), data@.len()),
            final(self).spec_buffer()@ == old(self).spec_buffer()@ + data@.take(written as int),
            final(self).spec_buffer().spec_cap() == old(self).spec_buffer().spec_cap(),
            final(self).spec_inner() == old(self).spec_inner(),
            final(self).spec_policy() == old(self).spec_policy(),
            final(self).spec_panicked() == old(self).spec_panicked(),
    {
        self.buf.copy_from_slice(data)
    }

    /// How many bytes to flush after a write: all buffered bytes when the
    /// policy asks for a flush, none otherwise.
    pub fn flush_after_write(&mut self) -> (amt: usize)
        requires
            old(self).wf(),
        ensures
            final(self).wf(),
            exists|flush: bool|
                {
                    &&& #[trigger] old(self).spec_policy().flush_after_does(
                        old(self).spec_buffer(),
                        flush,
                    )
                    &&& amt == if flush {
                        old(self).spec_buffer()@.len()
                    } else {
                        0
                    }
                },
            final(self).spec_buffer() == old(self).spec_buffer(),
            final(self).spec_inner() == old(self).spec_inner(),
            final(self).spec_panicked() == old(self).spec_panicked(),
            final(self).spec_policy() == old(self).spec_policy().after_flush_after(
                old(self).spec_buffer(),
            ),
    {
        let flush = self.policy.flush_after(&self.buf);
        let amt = self.flush_amount(flush);
        assert(old(self).spec_policy().flush_after_does(old(self).spec_buffer(), flush));
        amt
    }

    /// Where a write of `data` stands after one of its steps, when the step
    /// answered `action`: the bytes are conserved, nothing of the data is
    /// taken while flushing before it, and the action fits the phase (a
    /// flush offers the buffered bytes up to the amount it may still write, a
    /// direct write comes only with an empty buffer and data that fills it,
    /// and the write is over once it returns).  While a call into the inner
    /// writer is pending it is marked as under way.
    pub open spec fn write_stands(&self, run: WriteRun, action: WriteAction, data: Seq<u8>) -> bool {
        &&& self.wf()
        &&& run.conserves(self.spec_buffer()@, data)
        &&& run.spec_phase() == WritePhase::FlushBefore ==> run.spec_written() == 0
        &&& match action {
            WriteAction::WriteBuffered(len) => {
                &&& run.spec_phase() == WritePhase::FlushBefore || run.spec_phase()
                    == WritePhase::FlushAfter
                &&& run.spec_left() > 0
                &&& 0 < len <= self.spec_buffer()@.len()
                &&& len == min_nat(self.spec_buffer()@.len(), run.spec_left())
                &&& self.spec_panicked()
            },
            WriteAction::WriteData => {
                &&& run.spec_phase() == WritePhase::WriteData
                &&& run.spec_written() == 0
                &&& self.spec_buffer()@.len() == 0
                &&& data.len() >= self.spec_buffer().spec_cap()
                &&& self.spec_panicked()
            },
            WriteAction::Return(n) => run.spec_phase() == WritePhase::Finished && n
                == run.spec_written(),
            _ => run.spec_phase() == WritePhase::Finished && run.spec_written() == 0,
        }
    }

    /// How a write ends once the data was taken and the buffer is `after`:
    /// `policy` is asked whether to flush, and the write flushes all buffered
    /// bytes when it says so and there are some, or else returns the count
    /// taken.
    pub open spec fn flushes_after(policy: P, after: Buffer, run: WriteRun, action: WriteAction) -> bool {
        exists|flush: bool|
            {
                &&& #[trigger] policy.flush_after_does(after, flush)
                &&& flush && after@.len() > 0 ==> {
                    &&& action == WriteAction::WriteBuffered(after@.len() as usize)
                    &&& run.spec_phase() == WritePhase::FlushAfter
                }
                &&& !(flush && after@.len() > 0) ==> {
                    &&& action == WriteAction::Return(run.spec_written() as usize)
                    &&& run.spec_phase() == WritePhase::Finished
                }
            }
    }

    /// How a write of `data` takes the data into a writer holding `before`
    /// in a buffer of capacity `cap` with `usable` bytes of room after the
    /// tail, once nothing more is flushed before it, leaving the buffer
    /// `after` and the policy `after_policy`: directly, when the buffer is
    /// empty and the data fills it; otherwise by copying as much as the room
    /// after the tail takes, after which `policy` decides on a flush
    /// (`flushes_after`).
    pub open spec fn takes_data(
        policy: P,
        before: Seq<u8>,
        cap: nat,
        usable: nat,
        data: Seq<u8>,
        run: WriteRun,
        action: WriteAction,
        after: Buffer,
        after_policy: P,
    ) -> bool {
        if before.len() == 0 && data.len() >= cap {
            &&& action == WriteAction::WriteData
            &&& after@ == before
            &&& after_policy == policy
        } else {
            let w = min_nat(usable, data.len());
            &&& run.spec_written() == w
            &&& after@ == before + data.take(w as int)
            &&& Self::flushes_after(policy, after, run, action)
            &&& after_policy == policy.after_flush_after(after)
        }
    }

    /// Start a write of `data`: `Write::write` runs as the sequence of
    /// actions that `begin_write` and then `write_event` answer.
    ///
    /// The policy is asked whether to flush first; if it asks to and bytes
    /// are buffered, they are flushed.  Otherwise the data is taken: written
    /// to the inner writer directly when the buffer is empty and the data
    /// fills it, or else copied into the room after the tail, after which the
    /// policy is asked whether to flush again.
    pub fn begin_write(&mut self, data: &[u8]) -> (res: (WriteRun, WriteAction))
        requires
            old(self).wf(),
        ensures
            final(self).write_stands(res.0, res.1, data@),
            final(self).spec_inner() == old(self).spec_inner(),
            res.0.spec_sent() == Seq::<u8>::empty(),
            res.0.spec_phase() == WritePhase::Finished ==> final(self).spec_panicked() == old(
                self,
            ).spec_panicked(),
            exists|flush: bool, hooked: Buffer|
                {
                    &&& #[trigger] old(self).spec_policy().flush_before_does(
                        old(self).spec_buffer(),
                        data@.len() as usize,
                        flush,
                        hooked,
                    )
                    &&& hooked@ == res.0.spec_start()
                    &&& flush && hooked@.len() > 0 ==> {
                        &&& res.1 == WriteAction::WriteBuffered(hooked@.len() as usize)
                        &&& res.0.spec_phase() == WritePhase::FlushBefore
                        &&& final(self).spec_buffer() == hooked
                    }
                    &&& !(flush && hooked@.len() > 0) ==> Self::takes_data(
                        old(self).spec_policy().after_flush_before(
                            old(self).spec_buffer(),
                            data@.len() as usize,
                        ),
                        hooked@,
                        hooked.spec_cap(),
                        hooked.spec_usable(),
                        data@,
                        res.0,
                        res.1,
                        final(self).spec_buffer(),
                        final(self).spec_policy(),
                    )
                    &&& flush && hooked@.len() > 0 ==> final(self).spec_policy()
                        == old(self).spec_policy().after_flush_before(
                        old(self).spec_buffer(),
                        data@.len() as usize,
                    )
                },
    {
        let amt = self.flush_before_write(data.len());
        let ghost hooked = self.spec_buffer();
        let ghost flush = choose|f: bool|
            {
                &&& #[trigger] old(self).spec_policy().flush_before_does(
                    old(self).spec_buffer(),
                    data.len(),
                    f,
                    hooked,
                )
                &&& amt == if f {
                    hooked@.len()
                } else {
                    0
                }
            };
        let run = WriteRun {
            phase: WritePhase::FlushBefore,
            left: amt,
            written: 0,
            start: Ghost(self.buf@),
            sent: Ghost(Seq::empty()),
        };
        proof {
            assert(run.spec_sent() + self.spec_buffer()@ =~= run.spec_start() + data@.take(0));
        }
        let res = if self.flush_buf(amt) {
            (run, WriteAction::WriteBuffered(amt))
        } else {
            self.take_data(run, data)
        };
        assert(old(self).spec_policy().flush_before_does(
            old(self).spec_buffer(),
            data@.len() as usize,
            flush,
            hooked,
        ));
        res
    }

    /// Takes the data in, once nothing more is flushed before it.
    fn take_data(&mut self, run: WriteRun, data: &[u8]) -> (res: (WriteRun, WriteAction))
        requires
            old(self).wf(),
            run.conserves(old(self).spec_buffer()@, data@),
            run.spec_written() == 0,
        ensures
            final(self).write_stands(res.0, res.1, data@),
            final(self).spec_inner() == old(self).spec_inner(),
            res.0.spec_sent() == run.spec_sent(),
            res.0.spec_start() == run.spec_start(),
            res.0.spec_phase() == WritePhase::Finished ==> final(self).spec_panicked() == old(
                self,
            ).spec_panicked(),
            Self::takes_data(
                old(self).spec_policy(),
                old(self).spec_buffer()@,
                old(self).spec_buffer().spec_cap(),
                old(self).spec_buffer().spec_usable(),
                data@,
                res.0,
                res.1,
                final(self).spec_buffer(),
                final(self).spec_policy(),
            ),
    {
        let mut run = run;
        if self.write_direct(data.len()) {
            run.phase = WritePhase::WriteData;
            (run, WriteAction::WriteData)
        } else {
            let ghost before = self.spec_buffer()@;
            let written = self.write_buffered(data);
            run.written = written;
            proof {
                assert(data@.take(0) =~= Seq::<u8>::empty());
                assert(run.spec_sent() + before =~= run.spec_start());
                assert(run.spec_sent() + self.spec_buffer()@ =~= run.spec_start() + data@.take(
                    written as int,
                ));
            }
            self.flush_after_data(run, data)
        }
    }

    /// Asks the policy whether to flush after the data was taken, and starts
    /// that flush, or ends the write.
    fn flush_after_data(&mut self, run: WriteRun, data: &[u8]) -> (res: (WriteRun, WriteAction))
        requires
            old(self).wf(),
            run.conserves(old(self).spec_buffer()@, data@),
        ensures
            final(self).write_stands(res.0, res.1, data@),
            final(self).spec_inner() == old(self).spec_inner(),
            final(self).spec_buffer() == old(self).spec_buffer(),
            res.0.spec_sent() == run.spec_sent(),
            res.0.spec_start() == run.spec_start(),
            res.0.spec_written() == run.spec_written(),
            res.0.spec_phase() == WritePhase::Finished ==> final(self).spec_panicked() == old(
                self,
            ).spec_panicked(),
            Self::flushes_after(old(self).spec_policy(), old(self).spec_buffer(), res.0, res.1),
            final(self).spec_policy() == old(self).spec_policy().after_flush_after(
                old(self).spec_buffer(),
            ),
    {
        let mut run = run;
        let amt = self.flush_after_write();
        let ghost flush = choose|f: bool|
            {
                &&& #[trigger] old(self).spec_policy().flush_after_does(old(self).spec_buffer(), f)
                &&& amt == if f {
                    old(self).spec_buffer()@.len()
                } else {
                    0
                }
            };
        let res = if self.flush_buf(amt) {
            run.phase = WritePhase::FlushAfter;
            run.left = amt;
            (run, WriteAction::WriteBuffered(amt))
        } else {
            run.phase = WritePhase::Finished;
            let n = run.written;
            (run, WriteAction::Return(n))
        };
        assert(old(self).spec_policy().flush_after_does(old(self).spec_buffer(), flush));
        res
    }

    /// The next step of a write of `data`, given the outcome of the call into
    /// the inner writer that the last action asked for.
    ///
    /// While flushing, the accepted bytes leave the buffer as in
    /// `Buffer::write_max`, and the flush goes on, offering the buffered
    /// bytes up to the amount it may still write, until that amount is
    /// written or the buffer is empty.  A flush before the data that
    /// completes goes on to take the data as `begin_write` does; one that
    /// fails ends the write with that failure.  A flush after the data ends
    /// the write with the count taken, whether it completes or fails.  A
    /// direct write takes as many bytes as the inner writer accepted, after
    /// which the policy is asked whether to flush, or ends the write with
    /// its error.
    pub fn write_event(&mut self, run: WriteRun, data: &[u8], outcome: IoOutcome) -> (res: (
        WriteRun,
        WriteAction,
    ))
        requires
            old(self).wf(),
            run.conserves(old(self).spec_buffer()@, data@),
            run.spec_phase() != WritePhase::Finished,
            old(self).spec_panicked(),
            run.spec_phase() == WritePhase::FlushBefore ==> run.spec_written() == 0,
            run.spec_phase() == WritePhase::WriteData ==> run.spec_written() == 0
                && old(self).spec_buffer()@.len() == 0,
            outcome matches IoOutcome::Done(n) ==> n <= if run.spec_phase()
                == WritePhase::WriteData {
                data@.len()
            } else {
                old(self).spec_buffer()@.len()
            },
        ensures
            final(self).write_stands(res.0, res.1, data@),
            final(self).spec_inner() == old(self).spec_inner(),
            res.0.spec_start() == run.spec_start(),
            res.0.spec_phase() == WritePhase::Finished ==> !final(self).spec_panicked(),
            run.spec_phase() == WritePhase::WriteData ==> match outcome {
                IoOutcome::Done(n) => {
                    &&& res.0.spec_written() == n
                    &&& res.0.spec_sent() == run.spec_sent() + data@.take(n as int)
                    &&& final(self).spec_buffer() == old(self).spec_buffer()
                    &&& Self::flushes_after(
                        old(self).spec_policy(),
                        old(self).spec_buffer(),
                        res.0,
                        res.1,
                    )
                    &&& final(self).spec_policy() == old(self).spec_policy().after_flush_after(
                        old(self).spec_buffer(),
                    )
                },
                _ => res.1 == WriteAction::Fail,
            },
            run.spec_phase() != WritePhase::WriteData ==> {
                let rest = old(self).spec_buffer()@.skip(flushed_count(outcome) as int);
                let left = left_after(run.spec_left(), outcome);
                let usable = if rest.len() > 0 {
                    old(self).spec_buffer().spec_usable()
                } else {
                    old(self).spec_buffer().spec_cap()
                };
                &&& res.0.spec_sent() == run.spec_sent() + old(self).spec_buffer()@.take(
                    flushed_count(outcome) as int,
                )
                &&& write_step(outcome) == LoopStep::Continue && rest.len() > 0 && left > 0 ==> {
                    &&& res.1 == WriteAction::WriteBuffered(min_nat(rest.len(), left) as usize)
                    &&& res.0.spec_phase() == run.spec_phase()
                    &&& res.0.spec_left() == left
                    &&& final(self).spec_buffer()@ == rest
                }
                &&& write_step(outcome) == LoopStep::Continue && !(rest.len() > 0 && left > 0)
                    && run.spec_phase() == WritePhase::FlushBefore ==> Self::takes_data(
                    old(self).spec_policy(),
                    rest,
                    old(self).spec_buffer().spec_cap(),
                    usable,
                    data@,
                    res.0,
                    res.1,
                    final(self).spec_buffer(),
                    final(self).spec_policy(),
                )
                &&& !(write_step(outcome) == LoopStep::Continue && !(rest.len() > 0 && left > 0)
                    && run.spec_phase() == WritePhase::FlushBefore) ==> final(self).spec_policy()
                    == old(self).spec_policy()
                &&& write_step(outcome) != LoopStep::Continue && run.spec_phase()
                    == WritePhase::FlushBefore ==> res.1 == if write_step(outcome)
                    == LoopStep::WriteZero {
                    WriteAction::FailWriteZero
                } else {
                    WriteAction::Fail
                }
                &&& run.spec_phase() == WritePhase::FlushAfter && !(write_step(outcome)
                    == LoopStep::Continue && rest.len() > 0 && left > 0) ==> {
                    &&& res.1 == WriteAction::Return(run.spec_written() as usize)
                    &&& final(self).spec_buffer()@ == rest
                }
                &&& run.spec_phase() == WritePhase::FlushAfter ==> res.0.spec_written()
                    == run.spec_written()
            },
    {
        let mut run = run;
        match run.phase {
            WritePhase::WriteData => {
                self.end_inner_write();
                match outcome {
                    IoOutcome::Done(n) => {
                        run.written = n;
                        run.sent = Ghost(run.sent@ + data@.take(n as int));
                        proof {
                            assert(run.spec_sent() + self.spec_buffer()@ =~= run.spec_start()
                                + data@.take(n as int));
                        }
                        self.flush_after_data(run, data)
                    },
                    _ => {
                        run.phase = WritePhase::Finished;
                        (run, WriteAction::Fail)
                    },
                }
            },
            _ => {
                let ghost before = self.spec_buffer()@;
                let (step, left) = self.buf.write_max(run.left, outcome);
                if let IoOutcome::Done(n) = outcome {
                    run.sent = Ghost(run.sent@ + before.take(n as int));
                    proof {
                        assert(before.take(n as int) + before.skip(n as int) =~= before);
                        assert(run.spec_sent() + self.spec_buffer()@ =~= run.spec_start()
                            + data@.take(run.written as int));
                    }
                } else {
                    proof {
                        assert(before.skip(0) =~= before);
                        assert(before.take(0) =~= Seq::<u8>::empty());
                        assert(run.spec_sent() + before.take(0) =~= run.spec_sent());
                    }
                }
                proof {
                    use_type_invariant(&self.buf);
                }
                run.left = left;
                let before_data = match run.phase {
                    WritePhase::FlushBefore => true,
                    _ => false,
                };
                match step {
                    LoopStep::Continue => {
                        match self.buf.write_max_len(left) {
                            Some(len) => (run, WriteAction::WriteBuffered(len)),
                            None => {
                                self.end_inner_write();
                                if before_data {
                                    self.take_data(run, data)
                                } else {
                                    run.phase = WritePhase::Finished;
                                    let n = run.written;
                                    (run, WriteAction::Return(n))
                                }
                            },
                        }
                    },
                    _ => {
                        self.end_inner_write();
                        run.phase = WritePhase::Finished;
                        if before_data {
                            match step {
                                LoopStep::WriteZero => (run, WriteAction::FailWriteZero),
                                _ => (run, WriteAction::Fail),
                            }
                        } else {
                            let n = run.written;
                            (run, WriteAction::Return(n))
                        }
                    },
                }
            },
        }
    }

    /// Whether dropping the writer flushes it: when the inner writer is still
    /// there and no call into it was interrupted by a panic.
    pub fn flushes_on_drop(&self) -> (res: bool)
        ensures
            res == (self.spec_has_inner() && !self.spec_panicked()),
    {
        AssertSome::is_some(&self.inner) && !self.panicked
    }
}

/// A drop-in replacement for `std::io::LineWriter` with more functionality:
/// a `BufWriter` that flushes whenever the buffer holds a newline.
pub struct LineWriter<W>(pub BufWriter<W, FlushOnNewline>);

impl<W> LineWriter<W> {
    /// The writer is consistent.
    pub open spec fn wf(&self) -> bool {
        self.0.wf()
    }

    /// Wrap `inner` with the default buffer capacity.
    pub fn new(inner: W) -> (res: Self)
        ensures
            res.wf(),
            res.0.spec_buffer()@ == Seq::<u8>::empty(),
            res.0.spec_buffer().spec_cap() == DEFAULT_BUF_SIZE,
            res.0.spec_inner() == inner,
    {
        LineWriter(BufWriter::new(inner).set_policy(FlushOnNewline))
    }

    /// Wrap `inner` with the given buffer capacity.
    pub fn with_capacity(capacity: usize, inner: W) -> (res: Self)
        requires
            capacity <= isize::MAX,
        ensures
            res.wf(),
            res.0.spec_buffer()@ == Seq::<u8>::empty(),
            res.0.spec_buffer().spec_cap() == capacity,
            res.0.spec_inner() == inner,
    {
        LineWriter(BufWriter::with_capacity(capacity, inner).set_policy(FlushOnNewline))
    }

    /// Get a reference to the inner writer.
    pub fn get_ref(&self) -> (res: &W)
        requires
            self.wf(),
        ensures
            *res == self.0.spec_inner(),
    {
        self.0.get_ref()
    }

    /// Get a mutable reference to the inner writer.
    ///
    /// ###Note
    /// If the buffer has not been flushed, writing directly to the inner type will cause
    /// data inconsistency.
    pub fn get_mut(&mut self) -> (res: &mut W)
        requires
            old(self).wf(),
        ensures
            *res == old(self).0.spec_inner(),
            final(self).0.spec_inner() == *final(res),
            final(self).wf(),
            final(self).0.spec_buffer() == old(self).0.spec_buffer(),
    {
        self.0.get_mut()
    }

    /// Get the capacty of the inner buffer.
    pub fn capacity(&self) -> (res: usize)
        requires
            self.wf(),
        ensures
            res == self.0.spec_buffer().spec_cap(),
    {
        self.0.capacity()
    }

    /// Get the number of bytes currently in the buffer.
    pub fn buf_len(&self) -> (res: usize)
        requires
            self.wf(),
        ensures
            res == self.0.spec_buffer()@.len(),
    {
        self.0.buf_len()
    }

    /// Ensure enough space in the buffer for *at least* `additional` bytes.
    pub fn reserve(&mut self, additional: usize)
        requires
            old(self).wf(),
            old(self).0.spec_buffer().can_reserve(additional as nat),
        ensures
            final(self).wf(),
            final(self).0.spec_buffer().reserved_from(&old(self).0.spec_buffer(), additional as nat),
            final(self).0.spec_inner() == old(self).0.spec_inner(),
    {
        self.0.reserve(additional);
    }

    /// Unwrap after flushing, given how the flush ended: the inner writer on
    /// success, or `self` together with the error.
    pub fn into_inner(self, flushed: Result<(), std::io::Error>) -> (res: Result<
        W,
        IntoInnerError<Self>,
    >)
        requires
            self.wf(),
        ensures
            match flushed {
                Ok(()) => res == Ok::<W, IntoInnerError<Self>>(self.0.spec_inner()),
                Err(e) => res matches Err(err) && err.0 == self && err.1 == e,
            },
    {
        match self.0.into_inner(flushed) {
            Ok(w) => Ok(w),
            Err(IntoInnerError(inner, e)) => Err(IntoInnerError(LineWriter(inner), e)),
        }
    }

    /// Unwrap after flushing, given the error the flush ended with, if any:
    /// the inner writer and that error.
    pub fn into_inner_with_err(self, err: Option<std::io::Error>) -> (res: (W, Option<std::io::Error>))
        requires
            self.wf(),
        ensures
            res.0 == self.0.spec_inner(),
            res.1 == err,
    {
        self.0.into_inner_with_err(err)
    }

    /// Consume `self` and return both the underlying writer and the buffer.
    pub fn into_inner_with_buf(self) -> (res: (W, Buffer))
        requires
            self.wf(),
        ensures
            res.0 == self.0.spec_inner(),
            res.1 == self.0.spec_buffer(),
    {
        self.0.into_inner_with_buffer()
    }
}

/// The error type for `BufWriter::into_inner()`,
/// contains the `BufWriter` as well as the error that occurred.
pub struct IntoInnerError<W>(pub W, pub std::io::Error);

impl<W> IntoInnerError<W> {
    /// Get the error
    pub fn error(&self) -> (res: &std::io::Error)
        ensures
            *res == self.1,
    {
        &self.1
    }

    /// Take the writer.
    pub fn into_inner(self) -> (res: W)
        ensures
            res == self.0,
    {
        self.0
    }
}

impl<W> vstd::std_specs::convert::IntoSpecImpl<std::io::Error> for IntoInnerError<W> {
    open spec fn obeys_into_spec() -> bool {
        true
    }

    open spec fn into_spec(self) -> std::io::Error {
        self.1
    }
}

impl<W> Into<std::io::Error> for IntoInnerError<W> {
    /// The error, without the writer.
    fn into(self) -> std::io::Error {
        self.1
    }
}

} // verus!
