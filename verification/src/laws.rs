//! Properties of the buffer that span several operations, stated over the
//! views and spec functions that the operations' contracts use.

use vstd::prelude::*;

use crate::buffer::{min_nat, zeros, RawBuf};
use crate::policy::{
    FlushAtLeast, FlushOn, FlushOnNewline, MinBuffered, ReaderPolicy, StdPolicy, WriterPolicy,
};
use crate::strategy::at_end_less_than;
use crate::{BufWriter, Buffer, WriteAction, WriteRun};

verus! {

/// First in, first out: after bytes are added at the tail of a buffer
/// (`push_bytes`, `copy_from_slice` of all of them, or a recorded read), consuming
/// as many bytes as the buffer held before leaves exactly the added bytes.
pub proof fn law_added_bytes_come_out_in_order(
    before: Buffer,
    filled: Buffer,
    drained: Buffer,
    added: Seq<u8>,
)
    requires
        filled@ == before@ + added,
        drained@ == filled@.skip(min_nat(before@.len(), filled@.len()) as int),
    ensures
        drained@ == added,
{
    assert(drained@ =~= added);
}

/// Consuming `a` bytes and then `b` bytes is consuming `a + b` bytes; both
/// stop at the end of the buffer.
pub proof fn law_consume_adds_up(first: Buffer, second: Buffer, third: Buffer, a: nat, b: nat)
    requires
        second@ == first@.skip(min_nat(a, first@.len()) as int),
        third@ == second@.skip(min_nat(b, second@.len()) as int),
    ensures
        third@ == first@.skip(min_nat(a + b, first@.len()) as int),
{
    assert(third@ =~= first@.skip(min_nat(a + b, first@.len()) as int));
}

/// No byte is lost or duplicated by `copy_to_slice`: the bytes copied out,
/// followed by the bytes left in the buffer, are the bytes it held.
pub proof fn law_copy_out_loses_nothing(
    before: Buffer,
    after: Buffer,
    out_before: Seq<u8>,
    out_after: Seq<u8>,
    copied: nat,
)
    requires
        copied == min_nat(before@.len(), out_before.len()),
        out_after == before@.take(copied as int) + out_before.skip(copied as int),
        after@ == before@.skip(copied as int),
    ensures
        out_after.take(copied as int) + after@ == before@,
{
    assert(out_after.take(copied as int) =~= before@.take(copied as int));
    assert(before@.take(copied as int) + before@.skip(copied as int) =~= before@);
}

/// Reserving never shrinks a buffer, and grows it by no more than was asked.
pub proof fn law_reserve_never_shrinks(buffer: Buffer, additional: nat)
    requires
        buffer.wf(),
    ensures
        buffer.spec_cap() <= buffer.reserved_cap(additional) <= buffer.spec_cap() + additional,
{
    buffer.spec_std().lemma_reserved_cap_bound(additional);
}

/// After `resize(new_len, value)` the buffer holds exactly `new_len` bytes,
/// and the bytes it held that fit are still its first bytes.
pub proof fn law_resize_sets_length(before: Buffer, after: Buffer, new_len: nat, value: u8)
    requires
        new_len <= before@.len() ==> after@ == before@.take(new_len as int),
        new_len > before@.len() ==> after@ == before@ + crate::buffer::repeat(
            value,
            (new_len - before@.len()) as nat,
        ),
    ensures
        after@.len() == new_len,
        after@.take(min_nat(new_len, before@.len()) as int) == before@.take(
            min_nat(new_len, before@.len()) as int,
        ),
{
    assert(after@.take(min_nat(new_len, before@.len()) as int) =~= before@.take(
        min_nat(new_len, before@.len()) as int,
    ));
}

/// `write_max` spends its allowance exactly: with a writer that accepts no
/// more bytes than it is offered (`write_max_len`), each write of `n` bytes
/// consumes `n` bytes and lowers the allowance by `n`, so the bytes consumed
/// plus the allowance left always equal the allowance given.
pub proof fn law_write_max_spends_allowance(
    before: Buffer,
    after: Buffer,
    max: nat,
    n: nat,
    max_left: nat,
)
    requires
        n <= min_nat(before@.len(), max),
        after@ == before@.skip(n as int),
        max_left == if n <= max {
            max - n
        } else {
            0
        },
    ensures
        (before@.len() - after@.len()) + max_left == max,
{
}

/// `MinBuffered` makes room for its minimum: after `before_read` the
/// capacity is at least the minimum, and whenever it asks for a read the
/// bytes buffered plus the room after the tail reach the minimum, so reads
/// can fill the buffer up to it unless the reader runs dry.
pub proof fn law_min_buffered_makes_room_for_min(
    policy: MinBuffered,
    before: Buffer,
    read: bool,
    after: Buffer,
)
    requires
        before.wf(),
        after.wf(),
        policy.before_read_does(before, read, after),
    ensures
        after.spec_cap() >= policy.0,
        read ==> after@.len() + after.spec_usable() >= policy.0,
{
}

/// `after` is `before` extended by some number of zero bytes, possibly
/// none: what each `RawBuf::reserve` and `RawBuf::reserve_in_place` does to
/// a block.
pub open spec fn extended_by_zeros(before: Seq<u8>, after: Seq<u8>) -> bool {
    exists|k: nat| after == before + zeros(k)
}

/// A `RawBuf` never shrinks: along any sequence of blocks in which each is
/// the one before extended by zero bytes, as `reserve` and
/// `reserve_in_place` leave it, the capacity never falls below the first
/// block's and the first block's bytes stay at the start.
pub proof fn law_raw_buf_never_shrinks(history: Seq<RawBuf>)
    requires
        history.len() > 0,
        forall|i: int|
            0 < i < history.len() ==> extended_by_zeros(history[i - 1]@, #[trigger] history[i]@),
    ensures
        history.last()@.len() >= history[0]@.len(),
        history.last()@.take(history[0]@.len() as int) == history[0]@,
    decreases history.len(),
{
    if history.len() > 1 {
        let earlier = history.drop_last();
        assert forall|i: int| 0 < i < earlier.len() implies extended_by_zeros(
            earlier[i - 1]@,
            #[trigger] earlier[i]@,
        ) by {
            assert(earlier[i] == history[i]);
            assert(earlier[i - 1] == history[i - 1]);
        }
        law_raw_buf_never_shrinks(earlier);
        let n = history.len() - 1;
        assert(extended_by_zeros(history[n - 1]@, history[n]@));
        let first = history[0]@;
        assert(earlier.last() == history[n - 1]);
        assert(history[n]@.take(first.len() as int) =~= history[n - 1]@.take(
            first.len() as int,
        ));
    }
}

/// A write through a `BufWriter` loses, duplicates and reorders no byte:
/// when it returns `n`, the bytes the inner writer accepted during it,
/// followed by the bytes left in the buffer, are the bytes buffered when it
/// began (as the policy's `flush_before` left them) followed by the first `n`
/// bytes of the data.
pub proof fn law_write_conserves_bytes<W, P: WriterPolicy>(
    writer: BufWriter<W, P>,
    run: WriteRun,
    data: Seq<u8>,
    n: usize,
)
    requires
        writer.write_stands(run, WriteAction::Return(n), data),
    ensures
        n <= data.len(),
        run.spec_sent() + writer.spec_buffer()@ == run.spec_start() + data.take(n as int),
{
}

/// An empty buffer has all of its capacity after the tail: running empty
/// resets the cursors, so no room is left stranded before the head.
pub proof fn law_empty_buffer_has_all_room(buffer: Buffer)
    requires
        buffer.wf(),
        buffer@.len() == 0,
    ensures
        buffer.spec_usable() == buffer.spec_cap(),
        buffer.spec_free() == buffer.spec_cap(),
{
}

/// `FlushOnNewline` flushes after a write exactly when some buffered byte,
/// wherever it stands (the first one included), is a newline: a blank line
/// is flushed at once.
pub proof fn law_newline_policy_flushes_on_any_newline(buf: Buffer, flush: bool)
    requires
        FlushOnNewline.flush_after_does(buf, flush),
    ensures
        flush == exists|i: int| 0 <= i < buf@.len() && buf@[i] == 0x0au8,
        buf@.len() > 0 && buf@[0] == 0x0au8 ==> flush,
{
    if buf@.len() > 0 && buf@[0] == 0x0au8 {
        assert(0 <= 0 < buf@.len() && buf@[0] == 0x0au8);
    }
}

/// `FlushOn(byte)` flushes after a write exactly when some buffered byte,
/// wherever it stands (the first one included), is `byte`.
pub proof fn law_flush_on_flushes_on_any_occurrence(byte: u8, buf: Buffer, flush: bool)
    requires
        FlushOn(byte).flush_after_does(buf, flush),
    ensures
        flush == exists|i: int| 0 <= i < buf@.len() && buf@[i] == byte,
        buf@.len() > 0 && buf@[0] == byte ==> flush,
{
    if buf@.len() > 0 && buf@[0] == byte {
        assert(0 <= 0 < buf@.len() && buf@[0] == byte);
    }
}

/// The provided writer policies flush before a write exactly when it is
/// longer than the room between the tail and the end of the storage,
/// however long it is, and they leave the buffer as it is.
pub proof fn law_writer_policies_flush_before_a_write_that_does_not_fit(
    buf: Buffer,
    incoming: usize,
    flush: bool,
    after: Buffer,
    at_least: usize,
    byte: u8,
)
    requires
        buf.wf(),
    ensures
        StdPolicy.flush_before_does(buf, incoming, flush, after) ==> {
            &&& flush == (incoming > buf.spec_cap() - buf.spec_tail())
            &&& after == buf
        },
        FlushAtLeast(at_least).flush_before_does(buf, incoming, flush, after) ==> {
            &&& flush == (incoming > buf.spec_cap() - buf.spec_tail())
            &&& after == buf
        },
        FlushOn(byte).flush_before_does(buf, incoming, flush, after) ==> {
            &&& flush == (incoming > buf.spec_cap() - buf.spec_tail())
            &&& after == buf
        },
        FlushOnNewline.flush_before_does(buf, incoming, flush, after) ==> {
            &&& flush == (incoming > buf.spec_cap() - buf.spec_tail())
            &&& after == buf
        },
{
}

/// `FlushAtLeast(n)` flushes after a write exactly when at least `n` bytes
/// are buffered; so two buffers holding the same bytes get the same answer,
/// however much was consumed before their heads.
pub proof fn law_flush_at_least_counts_buffered_bytes(
    n: usize,
    buf: Buffer,
    flush: bool,
    other: Buffer,
    other_flush: bool,
)
    requires
        FlushAtLeast(n).flush_after_does(buf, flush),
        FlushAtLeast(n).flush_after_does(other, other_flush),
        other@ == buf@,
    ensures
        flush == (buf@.len() >= n),
        other_flush == flush,
{
}

/// The `AtEndLessThan` strategies move data exactly when the tail has reached
/// the end of the storage and fewer bytes than the limit are buffered,
/// however much room was consumed before the head.
pub proof fn law_at_end_moves_when_the_tail_reaches_the_end(buffer: Buffer, limit: nat)
    requires
        buffer.wf(),
    ensures
        at_end_less_than(&buffer, limit) == (buffer.spec_tail() == buffer.spec_cap()
            && buffer@.len() < limit),
{
}

/// `MinBuffered(min)` asks for a read exactly when fewer than `min` bytes are
/// buffered, whether or not it had to move or grow the buffer; the bytes it
/// leaves buffered are the same.
pub proof fn law_min_buffered_reads_below_the_minimum(
    policy: MinBuffered,
    before: Buffer,
    read: bool,
    after: Buffer,
)
    requires
        before.wf(),
        policy.before_read_does(before, read, after),
    ensures
        read == (before@.len() < policy.0),
        read == (after@.len() < policy.0),
{
}

/// `StdPolicy` behaves as `std::io::BufReader` and `std::io::BufWriter`:
/// it asks for a read exactly when nothing is buffered, never changes the
/// buffer when consulted or told of a consumption, and never asks for a
/// flush after a write.
pub proof fn law_std_policy_is_std_behavior(
    buf: Buffer,
    read: bool,
    after: Buffer,
    amt: usize,
    flush: bool,
)
    ensures
        StdPolicy.before_read_does(buf, read, after) ==> read == (buf@.len() == 0) && after
            == buf,
        StdPolicy.after_consume_does(buf, amt, after) ==> after == buf,
        StdPolicy.flush_after_does(buf, flush) ==> !flush,
{
}

} // verus!
