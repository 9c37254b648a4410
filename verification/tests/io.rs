use std::io::{Cursor, Read, Write};

use buf_redux::policy::{MinBuffered, StdPolicy};
use buf_redux::step::{CopyStep, IoOutcome};
use buf_redux::{
    copy_buf, BufReader, BufWriter, Buffer, LineWriter, SeekPlan, SeekPos, WriteAction, WritePhase,
};

/// Fills the reader's buffer the way `fill_buf` does.
fn fill<R: Read, P: buf_redux::policy::ReaderPolicy>(reader: &mut BufReader<R, P>) {
    assert!(reader.policy_admits());
    let mut again = reader.fill_step();
    while again {
        let (inner, buffer) = reader.inner_and_buffer_mut();
        let n = if buffer.prepare_read() {
            let n = inner.read(buffer.write_buf()).unwrap();
            buffer.read_from(n)
        } else {
            0
        };
        if n > 0 {
            assert!(reader.policy_admits());
        }
        again = reader.fill_again(n);
    }
}

#[test]
fn buf_reader_reads_through_the_buffer() {
    let mut reader = BufReader::with_capacity(4, Cursor::new(vec![1u8, 2, 3, 4, 5, 6]));
    let mut out = [0u8; 3];
    assert!(!reader.bypasses_buffer(out.len()));
    fill(&mut reader);
    assert_eq!(reader.buffer(), &[1, 2, 3, 4]);
    assert_eq!(reader.read_buffered(&mut out), 3);
    assert_eq!(out, [1, 2, 3]);
    assert_eq!(reader.buf_len(), 1);
    reader.consume(10);
    assert_eq!(reader.buf_len(), 0);
    assert!(reader.bypasses_buffer(4));
    assert!(!reader.bypasses_buffer(3));
}

#[test]
fn buf_reader_with_buffer_keeps_data() {
    let mut buffer = Buffer::with_capacity(4);
    buffer.push_bytes(&[9, 8]);
    let reader = BufReader::with_buffer(buffer, Cursor::new(vec![1u8]));
    assert_eq!(reader.buffer(), &[9, 8]);
    let (inner, buffer) = reader.into_inner_with_buffer();
    assert_eq!(buffer.buf(), &[9, 8]);
    assert_eq!(inner.into_inner(), vec![1u8]);
}

#[test]
fn buf_reader_policy_min_buffered() {
    let reader = BufReader::with_capacity(2, Cursor::new(vec![1u8, 2, 3, 4, 5]));
    let mut reader = reader.set_policy(MinBuffered(4));
    fill(&mut reader);
    assert_eq!(reader.capacity(), 4);
    assert_eq!(reader.buffer(), &[1, 2, 3, 4]);
    assert!(reader.policy_admits());
    reader.policy_mut().set_min(1);
    assert_eq!(reader.policy().0, 1);
    assert!(!reader.should_read());
}

#[test]
fn buf_reader_accessors() {
    let mut reader = BufReader::new(Cursor::new(vec![1u8]));
    assert_eq!(reader.capacity(), 8192);
    reader.reserve(8193);
    assert_eq!(reader.capacity(), 8192 + 8193);
    reader.make_room();
    assert_eq!(reader.get_ref().position(), 0);
    reader.get_mut().set_position(1);
    assert_eq!(reader.into_inner().position(), 1);
}

#[test]
fn seek_plans() {
    let mut reader = BufReader::with_capacity(8, Cursor::new(vec![0u8; 10]));
    fill(&mut reader);
    assert_eq!(reader.buf_len(), 8);
    assert_eq!(reader.seek(SeekPos::Start(3)), SeekPlan::Once(SeekPos::Start(3)));
    assert_eq!(reader.seek(SeekPos::End(-1)), SeekPlan::Once(SeekPos::End(-1)));
    assert_eq!(reader.seek(SeekPos::Current(2)), SeekPlan::Once(SeekPos::Current(-6)));
    assert_eq!(
        reader.seek(SeekPos::Current(i64::MIN)),
        SeekPlan::Twice(SeekPos::Current(-8), SeekPos::Current(i64::MIN))
    );
}

#[test]
fn seek_succeeded_discards_the_buffer() {
    let mut reader = BufReader::with_capacity(8, Cursor::new(vec![0u8; 10]));
    fill(&mut reader);
    assert_eq!(reader.buf_len(), 8);
    reader.seek_succeeded();
    assert_eq!(reader.buf_len(), 0);
    assert_eq!(reader.capacity(), 8);
    assert_eq!(reader.seek(SeekPos::Current(2)), SeekPlan::Once(SeekPos::Current(2)));
}

#[test]
fn unbuffer_empties_buffer_first() {
    let mut buffer = Buffer::with_capacity(4);
    buffer.push_bytes(&[1, 2, 3]);
    let reader = BufReader::with_buffer(buffer, Cursor::new(vec![7u8]));
    let mut unbuffer = reader.unbuffer();
    assert!(unbuffer.is_buf_empty());
    assert_eq!(unbuffer.buf_len(), 3);
    assert_eq!(unbuffer.buf(), &[1, 2, 3]);
    let mut out = [0u8; 2];
    assert_eq!(unbuffer.read_buffered(&mut out), Some(2));
    assert_eq!(out, [1, 2]);
    assert_eq!(unbuffer.read_buffered(&mut out), Some(1));
    assert_eq!(out[0], 3);
    assert_eq!(unbuffer.read_buffered(&mut out), None);
    assert!(!unbuffer.is_buf_empty());
    assert_eq!(unbuffer.buf_len(), 0);
    assert_eq!(unbuffer.buf(), &[]);
    assert_eq!(unbuffer.into_inner().into_inner(), vec![7u8]);
}

#[test]
fn unbuffer_with_empty_out_keeps_buffer() {
    let mut buffer = Buffer::with_capacity(4);
    buffer.push_bytes(&[1]);
    let mut unbuffer = BufReader::with_buffer(buffer, ()).unbuffer();
    let mut out = [0u8; 0];
    assert_eq!(unbuffer.read_buffered(&mut out), Some(0));
    assert_eq!(unbuffer.buf_len(), 1);
    let mut one = [0u8; 1];
    assert_eq!(unbuffer.read_buffered(&mut one), Some(1));
    assert_eq!(one, [1]);
    assert_eq!(unbuffer.read_buffered(&mut one), None);
}

#[test]
fn copy_buf_steps() {
    assert_eq!(copy_buf(5, IoOutcome::Interrupted), CopyStep::Retry);
    assert_eq!(copy_buf(5, IoOutcome::Failed), CopyStep::Fail);
    assert_eq!(copy_buf(5, IoOutcome::Done(0)), CopyStep::Finish);
    assert_eq!(copy_buf(5, IoOutcome::Done(3)), CopyStep::Consume { amt: 3, total: 8 });
}

/// Flushes `amt` bytes of the writer's buffer into its inner writer.
fn flush_amt<W: Write, P: buf_redux::policy::WriterPolicy>(writer: &mut BufWriter<W, P>, amt: usize) {
    if writer.flush_buf(amt) {
        let (inner, buffer) = writer.inner_and_buffer_mut();
        let mut max = amt;
        while let Some(len) = buffer.write_max_len(max) {
            let n = inner.write(&buffer.buf()[..len]).unwrap();
            max = buffer.write_max(max, IoOutcome::Done(n)).1;
        }
        writer.end_inner_write();
    }
}

fn write_all<W: Write, P: buf_redux::policy::WriterPolicy>(writer: &mut BufWriter<W, P>, data: &[u8]) -> usize {
    let amt = writer.flush_before_write(data.len());
    flush_amt(writer, amt);
    let written = if writer.write_direct(data.len()) {
        let n = writer.get_mut().write(data).unwrap();
        writer.end_inner_write();
        n
    } else {
        writer.write_buffered(data)
    };
    let amt = writer.flush_after_write();
    flush_amt(writer, amt);
    written
}

#[test]
fn buf_writer_buffers_then_flushes() {
    let mut writer = BufWriter::with_capacity(4, Vec::new());
    assert_eq!(write_all(&mut writer, &[1, 2]), 2);
    assert_eq!(writer.buf_len(), 2);
    assert!(writer.get_ref().is_empty());
    assert_eq!(write_all(&mut writer, &[3, 4, 5]), 3);
    assert_eq!(writer.get_ref(), &vec![1, 2]);
    assert_eq!(writer.buf_len(), 3);
    assert!(writer.flushes_on_drop());
    let (inner, buffer) = writer.into_inner_with_buffer();
    assert_eq!(inner, vec![1, 2]);
    assert_eq!(buffer.buf(), &[3, 4, 5]);
}

#[test]
fn buf_writer_bypasses_buffer_for_large_writes() {
    let mut writer = BufWriter::with_capacity(2, Vec::new());
    assert_eq!(write_all(&mut writer, &[1, 2, 3]), 3);
    assert_eq!(writer.get_ref(), &vec![1, 2, 3]);
    assert_eq!(writer.buf_len(), 0);
    assert!(writer.flush_buf(0) == false);
    assert!(writer.flushes_on_drop());
    assert!(writer.write_direct(2));
    assert!(!writer.flushes_on_drop());
    writer.end_inner_write();
    assert!(writer.flushes_on_drop());
}

#[test]
fn buf_writer_into_inner_results() {
    let mut writer = BufWriter::new(Vec::<u8>::new());
    assert_eq!(writer.capacity(), 8192);
    writer.reserve(8193);
    assert_eq!(writer.capacity(), 8192 + 8193);
    let inner = writer.into_inner(Ok(())).ok().unwrap();
    assert!(inner.is_empty());

    let writer = BufWriter::new(vec![1u8]);
    let err = std::io::Error::new(std::io::ErrorKind::Other, "flush failed");
    let failed = writer.into_inner(Err(err)).err().unwrap();
    assert_eq!(failed.error().kind(), std::io::ErrorKind::Other);
    let back: std::io::Error = buf_redux::IntoInnerError(Vec::<u8>::new(), std::io::Error::new(std::io::ErrorKind::Interrupted, "x")).into();
    assert_eq!(back.kind(), std::io::ErrorKind::Interrupted);
    let writer = failed.into_inner();
    assert_eq!(writer.get_ref(), &vec![1u8]);
    let (inner, err) = writer.into_inner_with_err(None);
    assert_eq!(inner, vec![1u8]);
    assert!(err.is_none());
}

#[test]
fn line_writer_flushes_on_newline() {
    let mut line = LineWriter::with_capacity(16, Vec::new());
    assert_eq!(write_all(&mut line.0, b"ab"), 2);
    assert_eq!(line.buf_len(), 2);
    assert_eq!(write_all(&mut line.0, b"c\nd"), 3);
    assert_eq!(line.get_ref(), &b"abc\nd".to_vec());
    assert_eq!(line.buf_len(), 0);
    assert_eq!(line.capacity(), 16);
    line.reserve(17);
    line.get_mut().push(b'!');
    let (inner, buffer) = line.into_inner_with_buf();
    assert_eq!(inner, b"abc\nd!".to_vec());
    assert!(buffer.is_empty());
    let line = LineWriter::new(Vec::<u8>::new());
    assert_eq!(line.capacity(), 8192);
    let (inner, err) = line.into_inner_with_err(None);
    assert!(inner.is_empty() && err.is_none());
    let line = LineWriter::new(Vec::<u8>::new());
    assert!(line.into_inner(Ok(())).is_ok());
}

#[test]
fn buf_writer_set_policy_keeps_state() {
    let mut writer = BufWriter::with_capacity(4, Vec::new());
    write_all(&mut writer, &[1]);
    let mut writer = writer.set_policy(buf_redux::policy::FlushAtLeast(1));
    assert_eq!(writer.buf_len(), 1);
    assert_eq!(write_all(&mut writer, &[2]), 1);
    assert_eq!(writer.get_ref(), &vec![1, 2]);
    let _: &mut buf_redux::policy::FlushAtLeast = writer.policy_mut();
    let _unused: Option<StdPolicy> = None;
}

#[test]
fn decisions_given_policy_answers() {
    let mut buffer = Buffer::with_capacity(2);
    buffer.push_bytes(&[1]);
    let reader = BufReader::with_buffer(buffer, ());
    assert!(reader.fill_decision(true));
    assert!(!reader.fill_decision(false));
    assert_eq!(reader.consume_amount(5), 1);
    assert_eq!(reader.consume_amount(0), 0);
    let mut full = Buffer::with_capacity(1);
    full.push_bytes(&[1]);
    assert!(!BufReader::with_buffer(full, ()).fill_decision(true));

    let mut writer = BufWriter::with_capacity(4, Vec::new());
    write_all(&mut writer, &[1, 2]);
    assert_eq!(writer.flush_amount(true), 2);
    assert_eq!(writer.flush_amount(false), 0);
}

fn io_outcome(res: &std::io::Result<usize>) -> IoOutcome {
    match res {
        Ok(n) => IoOutcome::Done(*n),
        Err(e) if e.kind() == std::io::ErrorKind::Interrupted => IoOutcome::Interrupted,
        Err(_) => IoOutcome::Failed,
    }
}

/// Runs one write of `data` through the writer's steps, as `Write::write`
/// does; the final action tells how it ended.
fn write_through<W: Write, P: buf_redux::policy::WriterPolicy>(
    writer: &mut BufWriter<W, P>,
    data: &[u8],
) -> WriteAction {
    let (mut run, mut action) = writer.begin_write(data);
    loop {
        let res = match action {
            WriteAction::WriteBuffered(len) => {
                let (inner, buffer) = writer.inner_and_buffer_mut();
                inner.write(&buffer.buf()[..len])
            }
            WriteAction::WriteData => writer.get_mut().write(data),
            _ => return action,
        };
        let (next, next_action) = writer.write_event(run, data, io_outcome(&res));
        run = next;
        action = next_action;
    }
}

/// Accepts at most `limit` bytes per write and fails once `fail_after`
/// writes were made.
struct Stingy {
    data: Vec<u8>,
    limit: usize,
    writes: usize,
    fail_after: usize,
}

impl Write for Stingy {
    fn write(&mut self, buf: &[u8]) -> std::io::Result<usize> {
        if self.writes == self.fail_after {
            return Err(std::io::Error::new(std::io::ErrorKind::Other, "full"));
        }
        self.writes += 1;
        let n = buf.len().min(self.limit);
        self.data.extend_from_slice(&buf[..n]);
        Ok(n)
    }

    fn flush(&mut self) -> std::io::Result<()> {
        Ok(())
    }
}

fn stingy(limit: usize, fail_after: usize) -> Stingy {
    Stingy { data: Vec::new(), limit, writes: 0, fail_after }
}

#[test]
fn write_steps_buffer_then_flush_before() {
    let mut writer = BufWriter::with_capacity(4, stingy(1, 100));
    assert_eq!(write_through(&mut writer, &[1, 2, 3]), WriteAction::Return(3));
    assert!(writer.get_ref().data.is_empty());
    // the next write does not fit: the buffer is flushed first, one byte a time
    let (run, action) = writer.begin_write(&[4, 5]);
    assert_eq!(action, WriteAction::WriteBuffered(3));
    let (run, action) = writer.write_event(run, &[4, 5], IoOutcome::Done(1));
    assert_eq!(action, WriteAction::WriteBuffered(2));
    let (run, action) = writer.write_event(run, &[4, 5], IoOutcome::Interrupted);
    assert_eq!(action, WriteAction::WriteBuffered(2));
    let (run, action) = writer.write_event(run, &[4, 5], IoOutcome::Done(1));
    assert_eq!(action, WriteAction::WriteBuffered(1));
    let (run, action) = writer.write_event(run, &[4, 5], IoOutcome::Done(1));
    assert_eq!(action, WriteAction::Return(2));
    drop(run);
    assert_eq!(writer.buf_len(), 2);
    assert!(writer.flushes_on_drop());
}

#[test]
fn write_steps_keep_every_byte_in_order() {
    let mut writer = BufWriter::with_capacity(4, stingy(2, 100));
    let mut taken = Vec::new();
    for chunk in [&[1u8, 2, 3][..], &[4, 5], &[6, 7, 8, 9, 10], &[11]] {
        match write_through(&mut writer, chunk) {
            WriteAction::Return(n) => taken.extend_from_slice(&chunk[..n]),
            other => panic!("unexpected {:?}", other),
        }
    }
    let mut all = writer.get_ref().data.clone();
    all.extend_from_slice(writer.inner_and_buffer_mut().1.buf());
    assert_eq!(all, taken);
    // the direct write of the third chunk took only two of its bytes
    assert_eq!(taken, vec![1, 2, 3, 4, 5, 6, 7, 11]);
}

#[test]
fn write_steps_write_large_data_directly() {
    let mut writer = BufWriter::with_capacity(2, stingy(10, 100));
    let (run, action) = writer.begin_write(&[1, 2, 3]);
    assert_eq!(action, WriteAction::WriteData);
    assert!(!writer.flushes_on_drop());
    let (_, action) = writer.write_event(run, &[1, 2, 3], IoOutcome::Done(2));
    assert_eq!(action, WriteAction::Return(2));
    assert!(writer.flushes_on_drop());
    let (run, action) = writer.begin_write(&[1, 2, 3]);
    assert_eq!(action, WriteAction::WriteData);
    let (_, action) = writer.write_event(run, &[1, 2, 3], IoOutcome::Interrupted);
    assert_eq!(action, WriteAction::Fail);
}

#[test]
fn write_steps_pass_on_flush_before_errors_only() {
    // a failing flush before the data ends the write with the error
    let mut writer = BufWriter::with_capacity(2, stingy(2, 0));
    assert_eq!(write_through(&mut writer, &[1]), WriteAction::Return(1));
    assert_eq!(write_through(&mut writer, &[2, 3]), WriteAction::Fail);
    assert_eq!(writer.buf_len(), 1);
    let (run, action) = writer.begin_write(&[2, 3]);
    assert_eq!(action, WriteAction::WriteBuffered(1));
    let (_, action) = writer.write_event(run, &[2, 3], IoOutcome::Done(0));
    assert_eq!(action, WriteAction::FailWriteZero);
    // a failing flush after the data is ignored
    let mut line = LineWriter::with_capacity(8, stingy(8, 0));
    assert_eq!(write_through(&mut line.0, b"a\n"), WriteAction::Return(2));
    assert_eq!(line.buf_len(), 2);
    let _ = WritePhase::Finished;
}

#[test]
fn fill_again_stops_after_an_empty_read() {
    let mut reader = BufReader::with_capacity(4, Cursor::new(vec![1u8, 2]));
    assert!(reader.fill_step());
    assert!(!reader.fill_again(0));
    assert_eq!(reader.buf_len(), 0);
    // after a read of some bytes the policy is asked again: the buffer is no
    // longer empty, so the default policy reads no more
    let (inner, buffer) = reader.inner_and_buffer_mut();
    assert!(buffer.prepare_read());
    let n = inner.read(buffer.write_buf()).unwrap();
    assert_eq!(buffer.read_from(n), 2);
    assert!(!reader.fill_again(n));
    assert_eq!(reader.buffer(), &[1, 2]);
}

#[test]
fn write_steps_flush_after_when_the_policy_asks() {
    let mut line = LineWriter::with_capacity(8, stingy(8, 100));
    assert_eq!(write_through(&mut line.0, b"ab"), WriteAction::Return(2));
    assert_eq!(line.buf_len(), 2);
    let (run, action) = line.0.begin_write(b"c\nd");
    // the data is copied, then the newline makes the policy ask for a flush
    assert_eq!(action, WriteAction::WriteBuffered(5));
    let n = {
        let (inner, buffer) = line.0.inner_and_buffer_mut();
        inner.write(&buffer.buf()[..5]).unwrap()
    };
    assert_eq!(n, 5);
    let (_, action) = line.0.write_event(run, b"c\nd", IoOutcome::Done(n));
    assert_eq!(action, WriteAction::Return(3));
    assert_eq!(line.get_ref().data, b"abc\nd".to_vec());
    assert_eq!(line.buf_len(), 0);
    let mut at_least = BufWriter::with_capacity(8, stingy(8, 100))
        .set_policy(buf_redux::policy::FlushAtLeast(3));
    assert_eq!(write_through(&mut at_least, &[1, 2]), WriteAction::Return(2));
    assert_eq!(write_through(&mut at_least, &[3]), WriteAction::Return(1));
    assert_eq!(at_least.get_ref().data, vec![1, 2, 3]);
}
