use buf_redux::policy::{
    DoRead, FlushAtLeast, FlushOn, FlushOnNewline, MinBuffered, ReaderPolicy, StdPolicy,
    WriterPolicy,
};
use buf_redux::strategy::{
    AtEndLessThan, AtEndLessThan1k, FlushAtLeast8k, FlushStrategy, IfEmpty, LessThan,
    MoveStrategy, NeverMove, ReadStrategy, WhenFull,
};
use buf_redux::Buffer;

fn buffer_with(cap: usize, bytes: &[u8]) -> Buffer {
    let mut buffer = Buffer::with_capacity(cap);
    buffer.push_bytes(bytes);
    buffer
}

#[test]
fn std_policy_reads_only_when_empty() {
    let mut policy = StdPolicy;
    let mut empty = Buffer::with_capacity(4);
    let DoRead(read) = policy.before_read(&mut empty);
    assert!(read);
    let mut full = buffer_with(4, &[1]);
    assert!(!policy.before_read(&mut full).0);
    policy.after_consume(&mut full, 1);
    assert_eq!(full.buf(), &[1]);
}

#[test]
fn std_policy_flushes_before_when_write_does_not_fit() {
    let mut policy = StdPolicy;
    let mut buffer = buffer_with(4, &[1, 2]);
    assert!(!policy.flush_before(&mut buffer, 2));
    assert!(policy.flush_before(&mut buffer, 3));
    assert!(!policy.flush_after(&buffer));
}

#[test]
fn min_buffered_makes_room_when_free_space_suffices() {
    let mut policy = MinBuffered(4);
    let mut buffer = buffer_with(6, &[1, 2, 3, 4, 5, 6]);
    buffer.consume(4);
    assert!(policy.before_read(&mut buffer).0);
    assert_eq!(buffer.usable_space(), 4);
    assert_eq!(buffer.capacity(), 6);
    assert_eq!(buffer.buf(), &[5, 6]);
}

#[test]
fn min_buffered_reserves_when_capacity_is_short() {
    let mut policy = MinBuffered(10);
    let mut buffer = buffer_with(4, &[1, 2]);
    buffer.consume(1);
    assert!(policy.before_read(&mut buffer).0);
    assert_eq!(buffer.capacity(), 10);
    assert_eq!(buffer.usable_space(), 9);
    assert_eq!(buffer.buf(), &[2]);
    policy.set_min(2);
    assert_eq!(policy.0, 2);
    let mut enough = buffer_with(4, &[1, 2]);
    assert!(!policy.before_read(&mut enough).0);
    assert_eq!(enough.capacity(), 4);
}

#[test]
fn min_buffered_resizes_an_empty_buffer_to_the_minimum() {
    let mut policy = MinBuffered(12);
    let mut buffer = Buffer::with_capacity(10);
    assert!(policy.before_read(&mut buffer).0);
    assert_eq!(buffer.capacity(), 12);
    assert_eq!(buffer.len(), 0);
    assert_eq!(buffer.usable_space(), 12);
    let mut small = Buffer::with_capacity(2);
    assert!(MinBuffered(10).before_read(&mut small).0);
    assert_eq!(small.capacity(), 10);
}

#[test]
fn min_buffered_moves_bytes_down_for_the_rest_of_the_minimum() {
    // the free space is below the minimum, but the capacity holds it
    let mut policy = MinBuffered(8);
    let mut buffer = buffer_with(10, &[1, 2, 3, 4, 5, 6, 7, 8, 9]);
    buffer.consume(4);
    assert_eq!(buffer.usable_space(), 1);
    assert!(policy.before_read(&mut buffer).0);
    assert_eq!(buffer.capacity(), 10);
    assert_eq!(buffer.usable_space(), 5);
    assert_eq!(buffer.buf(), &[5, 6, 7, 8, 9]);
}

#[test]
fn flush_at_least_counts_bytes() {
    let mut policy = FlushAtLeast(3);
    assert!(!policy.flush_after(&buffer_with(4, &[1, 2])));
    assert!(policy.flush_after(&buffer_with(4, &[1, 2, 3])));
    assert!(policy.flush_after(&buffer_with(4, &[1, 2, 3, 4])));
}

#[test]
fn flush_on_finds_the_byte() {
    let mut policy = FlushOn(7);
    assert!(policy.flush_after(&buffer_with(8, &[1, 7, 2])));
    assert!(!policy.flush_after(&buffer_with(8, &[1, 2, 3])));
    assert!(!policy.flush_after(&Buffer::with_capacity(1)));
}

#[test]
fn flush_on_newline_matches_flush_on_newline_byte() {
    let mut newline = FlushOnNewline;
    let mut on = FlushOn(b'\n');
    let with = buffer_with(8, b"ab\ncd");
    let without = buffer_with(8, b"abcd");
    assert!(newline.flush_after(&with));
    assert_eq!(newline.flush_after(&with), on.flush_after(&with));
    assert!(!newline.flush_after(&without));
    assert_eq!(newline.flush_after(&without), on.flush_after(&without));
}

#[test]
fn read_strategies() {
    let empty = Buffer::with_capacity(4);
    let two = buffer_with(4, &[1, 2]);
    assert!(IfEmpty.should_read(&empty));
    assert!(!IfEmpty.should_read(&two));
    assert!(LessThan(3).should_read(&two));
    assert!(!LessThan(2).should_read(&two));
}

#[test]
fn move_strategies() {
    let full = buffer_with(4, &[1, 2, 3, 4]);
    let roomy = buffer_with(8, &[1]);
    assert!(AtEndLessThan1k.should_move(&full));
    assert!(!AtEndLessThan1k.should_move(&roomy));
    assert!(AtEndLessThan(5).should_move(&full));
    assert!(!AtEndLessThan(4).should_move(&full));
    assert_eq!(AtEndLessThan(1024).should_move(&full), AtEndLessThan1k.should_move(&full));
    assert!(!NeverMove.should_move(&full));
}

#[test]
fn flush_strategies() {
    let two = buffer_with(4, &[1, 2]);
    assert!(WhenFull.should_flush(&two, 3));
    assert!(!WhenFull.should_flush(&two, 2));
    assert!(buf_redux::strategy::FlushAtLeast(2).should_flush(&two, 0));
    assert!(!buf_redux::strategy::FlushAtLeast(3).should_flush(&two, 0));
    assert!(!FlushAtLeast8k.should_flush(&two, 0));
    let mut big = Buffer::with_capacity(8193);
    big.resize(8191, 0);
    assert!(!FlushAtLeast8k.should_flush(&big, 0));
    big.resize(8192, 0);
    assert!(FlushAtLeast8k.should_flush(&big, 0));
}

#[test]
fn policies_admit_buffers_they_can_grow() {
    let limit = isize::MAX as usize;
    let empty = Buffer::with_capacity(4);
    let two = buffer_with(4, &[1, 2]);
    assert!(StdPolicy.admits_buffer(&empty));
    assert!(MinBuffered(10).admits_buffer(&empty));
    assert!(MinBuffered(limit).admits_buffer(&empty));
    assert!(!MinBuffered(limit + 1).admits_buffer(&empty));
    assert!(MinBuffered(limit).admits_buffer(&two));
    assert!(!MinBuffered(limit + 1).admits_buffer(&two));
}
