//! The vocabulary shared by the I/O loops of this crate.  The loops themselves
//! perform reads and writes, which this library leaves to its caller; each
//! turn of a loop hands the library the outcome of the last call, and the
//! library answers with what to do next.

use vstd::prelude::*;

verus! {

/// What one `read` or `write` call on an I/O object came back with.
#[derive(Clone, Copy, Debug, PartialEq, Eq)]
pub enum IoOutcome {
    /// The call succeeded and moved this many bytes.
    Done(usize),
    /// The call failed with `ErrorKind::Interrupted`; it may be retried.
    Interrupted,
    /// The call failed with any other error, which is to be passed on.
    Failed,
}

/// What a writing loop does after one write.
#[derive(Clone, Copy, Debug, PartialEq, Eq)]
pub enum LoopStep {
    /// Go round again.
    Continue,
    /// Stop with an `ErrorKind::WriteZero` error: the writer accepted nothing.
    WriteZero,
    /// Stop and pass on the error the call returned.
    Fail,
}

/// The step every writing loop takes after a write: a write of zero bytes
/// ends the loop with `WriteZero`, an interruption or a write of some bytes
/// goes round again, and any other error ends the loop.
pub open spec fn write_step(outcome: IoOutcome) -> LoopStep {
    match outcome {
        IoOutcome::Done(n) => if n == 0 {
            LoopStep::WriteZero
        } else {
            LoopStep::Continue
        },
        IoOutcome::Interrupted => LoopStep::Continue,
        IoOutcome::Failed => LoopStep::Fail,
    }
}

/// What `copy_buf` does after one round of filling the reader's buffer and
/// writing it out.
#[derive(Clone, Copy, Debug, PartialEq, Eq)]
pub enum CopyStep {
    /// The round was interrupted: go round again.
    Retry,
    /// `amt` bytes were written: consume them from the reader's buffer and go
    /// round again; `total` bytes have now been copied.
    Consume { amt: usize, total: u64 },
    /// Nothing more was written: stop, having copied the total so far.
    Finish,
    /// Stop and pass on the error the round returned.
    Fail,
}

/// Copy data between a `BufRead` and a `Write` without an intermediate buffer,
/// retrying on interrupts: what the copy loop does with the outcome of one
/// round (`fill_buf` followed by a write of what it returned), having copied
/// `total` bytes so far.
///
/// A total that no longer fits in a `u64` is refused; a caller must panic on
/// that overflow instead.
pub fn copy_buf(total: u64, outcome: IoOutcome) -> (step: CopyStep)
    requires
        outcome matches IoOutcome::Done(n) ==> total + n <= u64::MAX,
    ensures
        step == match outcome {
            IoOutcome::Interrupted => CopyStep::Retry,
            IoOutcome::Failed => CopyStep::Fail,
            IoOutcome::Done(n) => if n == 0 {
                CopyStep::Finish
            } else {
                CopyStep::Consume { amt: n, total: (total + n) as u64 }
            },
        },
{
    match outcome {
        IoOutcome::Interrupted => CopyStep::Retry,
        IoOutcome::Failed => CopyStep::Fail,
        IoOutcome::Done(copied) => {
            if copied == 0 {
                CopyStep::Finish
            } else {
                CopyStep::Consume { amt: copied, total: total + copied as u64 }
            }
        },
    }
}

} // verus!
