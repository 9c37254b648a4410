//! Types which can be used to tune the behavior of `BufReader`.
//!
//! Some simple strategies are provided for your convenience. You may prefer to create your own
//! types and implement the traits for them instead.

use vstd::prelude::*;

use crate::Buffer;

verus! {

/// The default `ReadStrategy` for this crate.
pub type DefaultReadStrategy = IfEmpty;

/// The default `MoveStrategy` for this crate.
pub type DefaultMoveStrategy = AtEndLessThan1k;

/// The default `FlushStrategy` for this crate.
pub type DefaultFlushStrategy = WhenFull;

/// Trait for types which `BufReader` can consult to determine when it should read more data into the
/// buffer.
pub trait ReadStrategy: Default {
    /// Returns `true` if the buffer should read more data, `false` otherwise.
    fn should_read(&self, buffer: &Buffer) -> bool
    ;
}

/// A `ReadStrategy` which tells the buffer to read more data only when empty.
///
/// Default behavior of `std::io::BufReader`.
#[derive(Debug, Default)]
pub struct IfEmpty;

impl ReadStrategy for IfEmpty {
    /// `true` when the buffer is empty.
    fn should_read(&self, buffer: &Buffer) -> (res: bool)
        ensures
            res == (buffer@.len() == 0),
    {
        buffer.len() == 0
    }
}

/// A `ReadStrategy` which returns `true` if there is fewer bytes in the buffer
/// than the provided value.
#[derive(Debug, Default)]
pub struct LessThan(pub usize);

impl ReadStrategy for LessThan {
    /// `true` when the buffer holds fewer bytes than the given value.
    fn should_read(&self, buffer: &Buffer) -> (res: bool)
        ensures
            res == (buffer@.len() < self.0),
    {
        buffer.len() < self.0
    }
}

/// Trait for types which `BufReader` can consult to determine when it should move data
/// to the beginning of the buffer.
///
/// **Note**: If the buffer is empty, the next read will start at the beginning of the buffer
/// regardless of the provided strategy.
pub trait MoveStrategy: Default {
    /// Returns `true` if the buffer should move the data down to the beginning,
    /// `false` otherwise.
    fn should_move(&self, buffer: &Buffer) -> bool
    ;
}

/// Whether a buffer has no room left after its tail and holds fewer than
/// `limit` bytes: the condition under which the `AtEndLessThan` strategies
/// move data.
pub open spec fn at_end_less_than(buffer: &Buffer, limit: nat) -> bool {
    buffer.spec_usable() == 0 && buffer@.len() < limit
}

/// A `MoveStrategy` which tells the buffer to move data if there is no more room at the tail
/// of the buffer, *and* if there is less than **1 KiB** of valid data in the buffer.
///
/// This avoids excessively large copies while still making room for more reads when appropriate.
///
/// Use the `AtEndLessThan` type to set a different threshold.
#[derive(Debug, Default)]
pub struct AtEndLessThan1k;

impl MoveStrategy for AtEndLessThan1k {
    /// `true` when there is no room after the tail and fewer than 1024 bytes
    /// are buffered.
    fn should_move(&self, buffer: &Buffer) -> (res: bool)
        ensures
            res == at_end_less_than(buffer, 1024),
    {
        buffer.usable_space() == 0 && buffer.len() < 1024
    }
}

/// A `MoveStrategy` which triggers if there is no more room at the tail at the end of the buffer,
/// *and* there are fewer valid bytes in the buffer than the provided value.
///
/// `AtEndLessThan(1)` is equivalent to `AtEnd`.
/// `AtEndLessThan(1024)` is equivalent to `AtEndLessThan1k`.
#[derive(Debug, Default)]
pub struct AtEndLessThan(pub usize);

impl MoveStrategy for AtEndLessThan {
    /// `true` when there is no room after the tail and fewer bytes than the
    /// given value are buffered.
    fn should_move(&self, buffer: &Buffer) -> (res: bool)
        ensures
            res == at_end_less_than(buffer, self.0 as nat),
    {
        buffer.usable_space() == 0 && buffer.len() < self.0
    }
}

/// A `MoveStrategy` which always returns `false`. Use this to get the behavior of
/// `std::io::BufReader`.
#[derive(Debug, Default)]
pub struct NeverMove;

impl MoveStrategy for NeverMove {
    /// Always `false`.
    fn should_move(&self, _buffer: &Buffer) -> (res: bool)
        ensures
            !res,
    {
        false
    }
}

/// A trait which tells `BufWriter` when to flush.
pub trait FlushStrategy: Default {
    /// Return `true` if the buffer should be flused.
    fn should_flush(&self, buf: &Buffer, incoming: usize) -> bool
    ;
}

/// Flush the buffer if there is no more headroom. Equivalent to the behavior or
/// `std::io::BufWriter`.
#[derive(Debug, Default)]
pub struct WhenFull;

impl FlushStrategy for WhenFull {
    /// `true` when the room after the tail is smaller than the incoming write.
    fn should_flush(&self, buf: &Buffer, incoming: usize) -> (res: bool)
        ensures
            res == (buf.spec_usable() < incoming),
    {
        buf.usable_space() < incoming
    }
}

/// Flush the buffer if it contains at least the given number of bytes.
#[derive(Debug, Default)]
pub struct FlushAtLeast(pub usize);

impl FlushStrategy for FlushAtLeast {
    /// `true` when the buffer holds at least the given number of bytes.
    fn should_flush(&self, buf: &Buffer, _incoming: usize) -> (res: bool)
        ensures
            res == (buf@.len() >= self.0),
    {
        buf.len() >= self.0
    }
}

/// Flush the buffer if it contains at least `8Kb (8192b)`.
#[derive(Debug, Default)]
pub struct FlushAtLeast8k;

impl FlushStrategy for FlushAtLeast8k {
    /// `true` when the buffer holds at least 8192 bytes.
    fn should_flush(&self, buf: &Buffer, _incoming: usize) -> (res: bool)
        ensures
            res == (buf@.len() >= 8192),
    {
        buf.len() >= 8192
    }
}

/// `AtEndLessThan(1024)` moves data exactly when `AtEndLessThan1k` does.
pub proof fn at_end_less_than_1024_is_at_end_less_than_1k(buffer: &Buffer)
    ensures
        at_end_less_than(buffer, AtEndLessThan(1024).0 as nat) == at_end_less_than(buffer, 1024),
{
}

} // verus!
