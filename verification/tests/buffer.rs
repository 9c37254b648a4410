use std::io::{Cursor, Read, Write};

use buf_redux::step::{IoOutcome, LoopStep};
use buf_redux::Buffer;

/// Reads once from `rdr` into `buffer`, the way a buffered reader does.
fn read_from<R: Read>(buffer: &mut Buffer, rdr: &mut R) -> std::io::Result<usize> {
    if !buffer.prepare_read() {
        return Ok(0);
    }
    let read = rdr.read(buffer.write_buf())?;
    assert!(read <= buffer.usable_space());
    Ok(buffer.read_from(read))
}

#[test]
fn std_buf_read_into_full() {
    let mut buffer = Buffer::with_capacity(1);

    assert_eq!(buffer.capacity(), 1);

    let mut bytes = &[1u8, 2][..];

    // Result<usize, io::Error> does not impl PartialEq
    assert_eq!(read_from(&mut buffer, &mut bytes).unwrap(), 1);
    assert_eq!(read_from(&mut buffer, &mut bytes).unwrap(), 0);
}

#[test]
fn tests_read_into_full() {
    let mut buffer = Buffer::with_capacity(1);

    assert_eq!(buffer.capacity(), 1);

    let mut bytes = Cursor::new([1u8, 2]);

    // Result<usize, io::Error> does not impl PartialEq
    assert_eq!(read_from(&mut buffer, &mut bytes).unwrap(), 1);
    assert_eq!(read_from(&mut buffer, &mut bytes).unwrap(), 0);
}

#[test]
fn test_truncate() {
    let mut buffer = Buffer::with_capacity(32);

    buffer.truncate(5);
    assert_eq!(buffer.len(), 0);

    buffer.push_bytes(&[1, 2, 3, 4, 5, 6, 7]);
    assert_eq!(buffer.len(), 7);

    buffer.truncate(10);
    assert_eq!(buffer.len(), 7);

    buffer.truncate(7);
    assert_eq!(buffer.len(), 7);

    buffer.truncate(5);
    assert_eq!(buffer.len(), 5);
    assert_eq!(buffer.buf(), &[1, 2, 3, 4, 5]);

    buffer.consume(1);
    buffer.truncate(3);
    assert_eq!(buffer.len(), 3);
    assert_eq!(buffer.buf(), &[2, 3, 4]);

    buffer.truncate(0);
    assert_eq!(buffer.len(), 0);
}

#[test]
fn test_resize() {
    let mut buffer = Buffer::with_capacity(10);

    buffer.resize(10, 0);
    assert_eq!(buffer.len(), 10);
    assert_eq!(buffer.capacity(), 10);
    assert_eq!(buffer.buf(), &[0, 0, 0, 0, 0, 0, 0, 0, 0, 0]);

    buffer.resize(11, 1);
    assert_eq!(buffer.len(), 11);
    assert_eq!(buffer.capacity(), 11);
    assert_eq!(buffer.buf(), &[0, 0, 0, 0, 0, 0, 0, 0, 0, 0, 1]);

    buffer.resize(5, 2);
    assert_eq!(buffer.len(), 5);
    assert_eq!(buffer.capacity(), 11);
    assert_eq!(buffer.buf(), &[0, 0, 0, 0, 0]);

    buffer.resize(7, 3);
    assert_eq!(buffer.len(), 7);
    assert_eq!(buffer.capacity(), 11);
    assert_eq!(buffer.buf(), &[0, 0, 0, 0, 0, 3, 3]);
    assert_eq!(buffer.usable_space(), 4);
    assert_eq!(buffer.free_space(), 4);

    buffer.consume(2);
    buffer.resize(7, 4);
    assert_eq!(buffer.len(), 7);
    assert_eq!(buffer.capacity(), 11);
    assert_eq!(buffer.buf(), &[0, 0, 0, 3, 3, 4, 4]);
    assert_eq!(buffer.usable_space(), 2);
    assert_eq!(buffer.free_space(), 4);

    buffer.resize(11, 5);
    assert_eq!(buffer.len(), 11);
    assert_eq!(buffer.capacity(), 13);
    assert_eq!(buffer.buf(), &[0, 0, 0, 3, 3, 4, 4, 5, 5, 5, 5]);
    assert_eq!(buffer.usable_space(), 0);
    assert_eq!(buffer.free_space(), 2);

    buffer.make_room();
    assert_eq!(buffer.usable_space(), 2);
    assert_eq!(buffer.free_space(), 2);

    buffer.resize(13, 6);
    assert_eq!(buffer.len(), 13);
    assert_eq!(buffer.capacity(), 13);
    assert_eq!(buffer.buf(), &[0, 0, 0, 3, 3, 4, 4, 5, 5, 5, 5, 6, 6]);
    assert_eq!(buffer.usable_space(), 0);
    assert_eq!(buffer.free_space(), 0);

    buffer.resize(0, 7);
    assert_eq!(buffer.len(), 0);
    assert_eq!(buffer.capacity(), 13);
    assert_eq!(buffer.buf(), &[]);
    assert_eq!(buffer.usable_space(), 13);
    assert_eq!(buffer.free_space(), 13);
}

#[test]
fn new_buffer_has_default_capacity() {
    let buffer = Buffer::new();
    assert_eq!(buffer.capacity(), buf_redux::DEFAULT_BUF_SIZE);
    assert_eq!(buffer.capacity(), 8192);
    assert_eq!(buffer.len(), 0);
    assert!(buffer.is_empty());
    assert_eq!(buffer.usable_space(), 8192);
    assert_eq!(buffer.free_space(), 8192);
}

#[test]
fn pushed_bytes_come_out_in_order() {
    let mut buffer = Buffer::with_capacity(4);
    buffer.push_bytes(&[1, 2]);
    buffer.push_bytes(&[3, 4, 5]);
    // the second push did not fit: room for twice its length was reserved
    assert_eq!(buffer.capacity(), 4 + 6 - 2);
    assert_eq!(buffer.buf(), &[1, 2, 3, 4, 5]);
    buffer.consume(2);
    assert_eq!(buffer.buf(), &[3, 4, 5]);
}

#[test]
fn consume_adds_up_and_saturates() {
    let mut buffer = Buffer::with_capacity(8);
    buffer.push_bytes(&[1, 2, 3, 4, 5]);
    buffer.consume(1);
    buffer.consume(2);
    assert_eq!(buffer.buf(), &[4, 5]);
    buffer.consume(100);
    assert_eq!(buffer.len(), 0);
    // an emptied buffer has all its room after the tail again
    assert_eq!(buffer.usable_space(), 8);
}

#[test]
fn copy_from_slice_fills_only_usable_space() {
    let mut buffer = Buffer::with_capacity(4);
    assert_eq!(buffer.copy_from_slice(&[9, 8, 7, 6, 5, 4]), 4);
    assert_eq!(buffer.buf(), &[9, 8, 7, 6]);
    assert_eq!(buffer.capacity(), 4);
    assert_eq!(buffer.copy_from_slice(&[1]), 0);
}

#[test]
fn copy_to_slice_loses_nothing() {
    let mut buffer = Buffer::with_capacity(8);
    buffer.push_bytes(&[1, 2, 3, 4, 5]);
    let mut out = [0u8; 3];
    assert_eq!(buffer.copy_to_slice(&mut out), 3);
    assert_eq!(out, [1, 2, 3]);
    assert_eq!(buffer.buf(), &[4, 5]);
    let mut big = [7u8; 4];
    assert_eq!(buffer.copy_to_slice(&mut big), 2);
    assert_eq!(big, [4, 5, 7, 7]);
    assert!(buffer.is_empty());
}

#[test]
fn make_room_moves_bytes_down() {
    let mut buffer = Buffer::with_capacity(6);
    buffer.push_bytes(&[1, 2, 3, 4, 5, 6]);
    buffer.consume(4);
    assert_eq!(buffer.usable_space(), 0);
    assert_eq!(buffer.free_space(), 4);
    buffer.make_room();
    assert_eq!(buffer.buf(), &[5, 6]);
    assert_eq!(buffer.usable_space(), 4);
    assert_eq!(buffer.free_space(), 4);
    buffer.push_bytes(&[7, 8, 9, 10]);
    assert_eq!(buffer.buf(), &[5, 6, 7, 8, 9, 10]);
    assert_eq!(buffer.capacity(), 6);
}

#[test]
fn reserve_is_a_no_op_when_room_suffices() {
    let mut buffer = Buffer::with_capacity(10);
    buffer.push_bytes(&[1, 2, 3]);
    buffer.reserve(7);
    assert_eq!(buffer.capacity(), 10);
    // reallocates even though consumed room at the head would suffice
    buffer.consume(2);
    buffer.reserve(8);
    assert_eq!(buffer.capacity(), 11);
    assert_eq!(buffer.buf(), &[3]);
    assert!(buffer.usable_space() >= 8);
}

#[test]
fn reserve_on_an_empty_buffer_adds_the_whole_amount() {
    let mut buffer = Buffer::with_capacity(4);
    buffer.reserve(6);
    assert_eq!(buffer.capacity(), 10);
    assert_eq!(buffer.usable_space(), 10);
}

#[test]
fn clear_empties() {
    let mut buffer = Buffer::with_capacity(4);
    buffer.push_bytes(&[1, 2, 3]);
    buffer.clear();
    assert!(buffer.is_empty());
    assert_eq!(buffer.usable_space(), 4);
}

#[test]
fn buf_mut_changes_buffered_bytes() {
    let mut buffer = Buffer::with_capacity(4);
    buffer.push_bytes(&[1, 2, 3]);
    buffer.consume(1);
    buffer.buf_mut()[0] = 9;
    assert_eq!(buffer.buf(), &[9, 3]);
}

#[test]
fn first_read_sees_zeroed_room() {
    let mut buffer = Buffer::with_capacity(4);
    // fill the spare bytes through write_buf without taking them in
    buffer.write_buf().copy_from_slice(&[5, 5, 5, 5]);
    assert!(buffer.prepare_read());
    assert_eq!(buffer.write_buf(), &[0, 0, 0, 0]);
    // once zeroed, the room is not zeroed again
    buffer.write_buf()[0] = 6;
    assert!(buffer.prepare_read());
    assert_eq!(buffer.write_buf()[0], 6);
    assert_eq!(buffer.read_from(1), 1);
    assert_eq!(buffer.buf(), &[6]);
}

#[test]
fn prepare_read_refuses_a_full_buffer() {
    let mut buffer = Buffer::with_capacity(2);
    buffer.push_bytes(&[1, 2]);
    assert!(!buffer.prepare_read());
}

#[test]
fn write_to_consumes_what_was_written() {
    let mut buffer = Buffer::with_capacity(8);
    buffer.push_bytes(&[1, 2, 3, 4]);
    let mut sink: Vec<u8> = Vec::new();
    let n = sink.write(&buffer.buf()[..3]).unwrap();
    assert_eq!(buffer.write_to(n), 3);
    assert_eq!(sink, vec![1, 2, 3]);
    assert_eq!(buffer.buf(), &[4]);
}

#[test]
fn write_max_steps() {
    let mut buffer = Buffer::with_capacity(8);
    buffer.push_bytes(&[1, 2, 3, 4, 5]);
    assert_eq!(buffer.write_max_len(3), Some(3));
    assert_eq!(buffer.write_max_len(0), None);
    assert_eq!(buffer.write_max(3, IoOutcome::Done(2)), (LoopStep::Continue, 1));
    assert_eq!(buffer.buf(), &[3, 4, 5]);
    assert_eq!(buffer.write_max_len(1), Some(1));
    assert_eq!(buffer.write_max(1, IoOutcome::Interrupted), (LoopStep::Continue, 1));
    assert_eq!(buffer.write_max(1, IoOutcome::Done(0)), (LoopStep::WriteZero, 1));
    assert_eq!(buffer.write_max(1, IoOutcome::Failed), (LoopStep::Fail, 1));
    assert_eq!(buffer.write_max(1, IoOutcome::Done(1)), (LoopStep::Continue, 0));
    assert_eq!(buffer.buf(), &[4, 5]);
    assert_eq!(buffer.write_max_len(0), None);
    // a writer may take more than the allowance; it runs out at 0
    assert_eq!(buffer.write_max(1, IoOutcome::Done(2)), (LoopStep::Continue, 0));
    assert!(buffer.is_empty());
}

#[test]
fn write_all_steps() {
    let buffer = Buffer::with_capacity(1);
    assert_eq!(buffer.write_all(IoOutcome::Done(0)), LoopStep::WriteZero);
    assert_eq!(buffer.write_all(IoOutcome::Done(3)), LoopStep::Continue);
    assert_eq!(buffer.write_all(IoOutcome::Interrupted), LoopStep::Continue);
    assert_eq!(buffer.write_all(IoOutcome::Failed), LoopStep::Fail);
}

#[test]
fn resize_sets_length() {
    let mut buffer = Buffer::with_capacity(2);
    buffer.push_bytes(&[1, 2]);
    buffer.resize(4, 9);
    assert_eq!(buffer.buf(), &[1, 2, 9, 9]);
    buffer.resize(1, 0);
    assert_eq!(buffer.buf(), &[1]);
}

#[test]
fn reserve_fits_matches_the_reservation_limit() {
    let limit = isize::MAX as usize;
    let mut buffer = Buffer::with_capacity(4);
    // an empty buffer is reallocated with its capacity plus the amount
    assert!(buffer.reserve_fits(4));
    assert!(buffer.reserve_fits(limit - 4));
    assert!(!buffer.reserve_fits(limit - 3));
    buffer.push_bytes(&[1, 2]);
    // otherwise only the shortfall after the tail is added
    assert!(buffer.reserve_fits(2));
    assert!(buffer.reserve_fits(limit - 2));
    assert!(!buffer.reserve_fits(limit - 1));
    assert!(!buffer.reserve_fits(usize::MAX));
}

#[test]
fn consume_keeps_the_room_after_the_tail() {
    let mut buffer = Buffer::with_capacity(8);
    buffer.push_bytes(&[1, 2, 3, 4, 5]);
    buffer.consume(2);
    assert_eq!(buffer.usable_space(), 3);
    assert_eq!(buffer.free_space(), 5);
    buffer.truncate(2);
    assert_eq!(buffer.buf(), &[3, 4]);
    assert_eq!(buffer.usable_space(), 4);
    buffer.consume(2);
    assert_eq!(buffer.usable_space(), 8);
}
