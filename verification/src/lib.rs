//! Buffered I/O with more direct control than `std::io`'s buffered types.
//!
//! The heart of the crate is `Buffer`, a deque-like run of bytes filled at
//! its tail and drained at its head, over the cursor-based storage of the
//! `buffer` module.  `BufReader`, `BufWriter`, `LineWriter` and `Unbuffer`
//! hold the state of buffered readers and writers and make their decisions;
//! the reading and writing itself is done by their caller, who reports each
//! outcome back (see the `step` module).  The `policy` and `strategy`
//! modules tune when reads and flushes happen.

pub mod buffer;
mod buffered;
pub mod laws;
mod outside;
pub mod policy;
pub mod raw;
mod reader;
pub mod step;
pub mod strategy;
mod writer;

pub use buffer::{BufImpl, StdBuf};
pub use buffered::{Buffer, DEFAULT_BUF_SIZE};
pub use reader::{plan_net_offset, BufReader, SeekPlan, SeekPos, Unbuffer};
pub use step::copy_buf;
pub use writer::{BufWriter, IntoInnerError, LineWriter, WriteAction, WritePhase, WriteRun};
