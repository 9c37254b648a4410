//! `StdBuf`: a byte buffer over one contiguous allocation with a read cursor
//! (`pos`) and a write cursor (`end`).  The occupied bytes are those between
//! the two cursors; bytes before `pos` were consumed, bytes after `end` are
//! free for writing.

use vstd::prelude::*;

use crate::outside::{copy_over, reserve_exact, subslice_mut};

verus! {

/// `n` zero bytes.
pub open spec fn zeros(n: nat) -> Seq<u8> {
    Seq::new(n, |i: int| 0u8)
}

/// `n` copies of `value`.
pub open spec fn repeat(value: u8, n: nat) -> Seq<u8> {
    Seq::new(n, |i: int| value)
}

/// The smaller of two naturals.
pub open spec fn min_nat(a: nat, b: nat) -> nat {
    if a <= b {
        a
    } else {
        b
    }
}

/// A fixed block of initialised bytes; its length is the capacity.
#[derive(Debug)]
pub struct RawBuf {
    buf: Vec<u8>,
}

impl View for RawBuf {
    type V = Seq<u8>;

    closed spec fn view(&self) -> Seq<u8> {
        self.buf@
    }
}

/// `n` zero bytes in a vector, built one byte at a time.
pub(crate) fn zeroed_vec(n: usize) -> (v: Vec<u8>)
    ensures
        v@ == zeros(n as nat),
{
    let mut v: Vec<u8> = Vec::with_capacity(n);
    let mut i: usize = 0;
    while i < n
        invariant
            i <= n,
            v@ == zeros(i as nat),
        decreases n - i,
    {
        v.push(0u8);
        i = i + 1;
        assert(v@ =~= zeros(i as nat));
    }
    v
}

/// Appends `n` zero bytes to `v`, allocating exactly the room they need.
pub(crate) fn extend_zeros(v: &mut Vec<u8>, n: usize)
    requires
        old(v)@.len() + n <= isize::MAX,
    ensures
        final(v)@ == old(v)@ + zeros(n as nat),
{
    reserve_exact(v, n);
    let ghost start = v@;
    let mut i: usize = 0;
    while i < n
        invariant
            i <= n,
            v@ == start + zeros(i as nat),
        decreases n - i,
    {
        v.push(0u8);
        i = i + 1;
        assert(v@ =~= start + zeros(i as nat));
    }
}

impl RawBuf {
    /// Allocates `capacity` zeroed bytes.
    pub fn with_capacity(capacity: usize) -> (res: Self)
        requires
            capacity <= isize::MAX,
        ensures
            res@ == zeros(capacity as nat),
    {
        RawBuf { buf: zeroed_vec(capacity) }
    }

    /// The number of bytes held.
    pub fn capacity(&self) -> (res: usize)
        ensures
            res == self@.len(),
    {
        self.buf.len()
    }

    /// Grows the block by exactly `additional` zero bytes, keeping its
    /// contents.  Returns `true` when the block grew: growing may move the
    /// allocation, so callers must treat grown storage as freshly allocated.
    pub fn reserve(&mut self, additional: usize) -> (moved: bool)
        requires
            old(self)@.len() + additional <= isize::MAX,
        ensures
            final(self)@ == old(self)@ + zeros(additional as nat),
            moved == (additional > 0),
    {
        extend_zeros(&mut self.buf, additional);
        additional > 0
    }

    /// Growing without moving the allocation is not supported by this block:
    /// always `false`, and nothing changes.
    pub fn reserve_in_place(&mut self, additional: usize) -> (res: bool)
        ensures
            !res,
            final(self)@ == old(self)@,
    {
        false
    }

    /// All bytes of the block.
    pub fn as_slice(&self) -> (res: &[u8])
        ensures
            res@ == self@,
    {
        self.buf.as_slice()
    }

    /// All bytes of the block, for writing.
    pub fn as_mut_slice(&mut self) -> (res: &mut [u8])
        ensures
            res@ == old(self)@,
            final(self)@ == final(res)@,
            final(res)@.len() == res@.len(),
    {
        let len = self.buf.len();
        let r = subslice_mut(&mut self.buf, 0, len);
        proof {
            assert(old(self)@.subrange(0, 0) =~= Seq::<u8>::empty());
        }
        r
    }
}

} // verus!

verus! {

/// A byte buffer with a read cursor and a write cursor over a `RawBuf`.
///
/// The occupied bytes (the view) lie between the cursors; consuming moves the
/// read cursor forward, writing moves the write cursor forward, and whenever
/// the two meet both are reset to the start of the storage.
#[derive(Debug)]
pub struct StdBuf {
    buf: RawBuf,
    pos: usize,
    end: usize,
}

impl View for StdBuf {
    type V = Seq<u8>;

    /// The occupied bytes.
    open spec fn view(&self) -> Seq<u8> {
        self.spec_storage().subrange(self.spec_head() as int, self.spec_tail() as int)
    }
}

impl StdBuf {
    /// Every byte of the storage, occupied or not.
    pub closed spec fn spec_storage(&self) -> Seq<u8> {
        self.buf@
    }

    /// The read cursor.
    pub closed spec fn spec_head(&self) -> nat {
        self.pos as nat
    }

    /// The write cursor.
    pub closed spec fn spec_tail(&self) -> nat {
        self.end as nat
    }

    /// The capacity: the size of the storage.
    pub open spec fn spec_cap(&self) -> nat {
        self.spec_storage().len()
    }

    /// Room left after the write cursor.
    pub open spec fn spec_usable(&self) -> nat {
        (self.spec_cap() - self.spec_tail()) as nat
    }

    /// The cursors are ordered and lie within storage no larger than
    /// `isize::MAX` bytes.
    pub open spec fn cursors_ordered(&self) -> bool {
        &&& self.spec_head() <= self.spec_tail() <= self.spec_cap()
        &&& self.spec_cap() <= isize::MAX
    }

    /// The cursors are ordered and lie within storage no larger than
    /// `isize::MAX` bytes (the most any allocation can hold), and an empty
    /// buffer has both cursors at the start.
    pub open spec fn wf(&self) -> bool {
        &&& self.spec_head() <= self.spec_tail() <= self.spec_cap()
        &&& self.spec_cap() <= isize::MAX
        &&& self.spec_head() == self.spec_tail() ==> self.spec_tail() == 0
    }

    /// The cursors after `check_cursors`: both reset to 0 when they meet.
    pub open spec fn cursors_settled(&self, old: &StdBuf) -> bool {
        if old.spec_head() == old.spec_tail() {
            self.spec_head() == 0 && self.spec_tail() == 0
        } else {
            self.spec_head() == old.spec_head() && self.spec_tail() == old.spec_tail()
        }
    }

    /// The capacity `reserve(additional)` leaves: unchanged when the room
    /// after the write cursor already suffices; the old capacity plus
    /// `additional` for an empty buffer, which is reallocated fresh;
    /// otherwise just enough more for `additional` bytes after the cursor.
    pub open spec fn reserved_cap(&self, additional: nat) -> nat {
        if self.spec_usable() >= additional {
            self.spec_cap()
        } else if self.spec_head() == self.spec_tail() {
            self.spec_cap() + additional
        } else {
            self.spec_cap() + (additional - self.spec_usable()) as nat
        }
    }

    /// `reserve(additional)` never leaves more than the old capacity plus
    /// `additional`.
    pub proof fn lemma_reserved_cap_bound(&self, additional: nat)
        requires
            self.wf(),
        ensures
            self.spec_cap() <= self.reserved_cap(additional) <= self.spec_cap() + additional,
    {
    }

    /// An empty buffer of `cap` zeroed bytes.
    pub fn with_capacity(cap: usize) -> (res: Self)
        requires
            cap <= isize::MAX,
        ensures
            res.wf(),
            res.spec_storage() == zeros(cap as nat),
            res.spec_head() == 0,
            res.spec_tail() == 0,
    {
        StdBuf { buf: RawBuf::with_capacity(cap), pos: 0, end: 0 }
    }

    /// The total number of bytes the buffer can hold.
    pub fn capacity(&self) -> (res: usize)
        ensures
            res == self.spec_cap(),
    {
        self.buf.capacity()
    }

    /// The number of occupied bytes.
    pub fn len(&self) -> (res: usize)
        requires
            self.wf(),
        ensures
            res == self@.len(),
    {
        self.end - self.pos
    }

    /// The room after the write cursor.
    pub fn usable_space(&self) -> (res: usize)
        requires
            self.wf(),
        ensures
            res == self.spec_usable(),
    {
        self.capacity() - self.end
    }

    /// Resets both cursors to the start when the buffer is empty; returns
    /// whether it did.
    pub fn check_cursors(&mut self) -> (reset: bool)
        requires
            old(self).cursors_ordered(),
        ensures
            final(self).wf(),
            reset == (old(self).spec_head() == old(self).spec_tail()),
            final(self).cursors_settled(old(self)),
            final(self).spec_storage() == old(self).spec_storage(),
            final(self)@ == old(self)@,
    {
        if self.pos == self.end {
            self.pos = 0;
            self.end = 0;
            true
        } else {
            false
        }
    }

    /// Makes room for at least `additional` bytes after the write cursor.
    ///
    /// Nothing is allocated when the room after the write cursor already
    /// suffices; an empty buffer is replaced by a
    /// fresh zeroed allocation of its capacity plus `additional`; otherwise the
    /// storage grows by the shortfall, keeping its bytes.  Returns `true` when
    /// new storage was allocated (its bytes may have moved).
    pub fn reserve(&mut self, additional: usize) -> (moved: bool)
        requires
            old(self).wf(),
            old(self).reserved_cap(additional as nat) <= isize::MAX,
        ensures
            final(self).wf(),
            final(self)@ == old(self)@,
            final(self).spec_head() == old(self).spec_head(),
            final(self).spec_tail() == old(self).spec_tail(),
            final(self).spec_cap() == old(self).reserved_cap(additional as nat),
            final(self).spec_usable() >= additional,
            moved == (old(self).spec_usable() < additional),
            !moved ==> final(self).spec_storage() == old(self).spec_storage(),
            moved && old(self).spec_head() == old(self).spec_tail()
                ==> final(self).spec_storage() == zeros(final(self).spec_cap()),
            moved && old(self).spec_head() != old(self).spec_tail()
                ==> final(self).spec_storage() == old(self).spec_storage()
                + zeros((additional - old(self).spec_usable()) as nat),
    {
        self.check_cursors();
        let usable_space = self.usable_space();

        // there's already enough space
        if usable_space >= additional {
            return false;
        }
        // growing in place is attempted first
        if self.buf.reserve_in_place(additional - usable_space) {
            return false;
        }
        // an empty buffer's bytes are irrelevant: allocate afresh
        if self.pos == self.end {
            let capacity = self.buf.capacity();
            self.buf = RawBuf::with_capacity(0);
            self.buf = RawBuf::with_capacity(capacity + additional);
            return true;
        }
        self.buf.reserve(additional - usable_space)
    }

    /// Makes the occupied part exactly `new_len` bytes long: keeps only its
    /// first `new_len` bytes when it is at least that long, otherwise reserves
    /// room and appends copies of `value`.  Returns `reserve`'s result when it
    /// grew, `false` when it shrank.
    pub fn resize(&mut self, new_len: usize, value: u8) -> (moved: bool)
        requires
            old(self).wf(),
            new_len > old(self)@.len() ==> old(self).reserved_cap(
                (new_len - old(self)@.len()) as nat,
            ) <= isize::MAX,
        ensures
            final(self).wf(),
            new_len <= old(self)@.len() ==> {
                &&& final(self)@ == old(self)@.take(new_len as int)
                &&& final(self).spec_cap() == old(self).spec_cap()
                &&& final(self).spec_head() == if new_len > 0 {
                    old(self).spec_head()
                } else {
                    0
                }
                &&& !moved
            },
            new_len > old(self)@.len() ==> {
                &&& final(self)@ == old(self)@ + repeat(value, (new_len - old(self)@.len()) as nat)
                &&& final(self).spec_head() == old(self).spec_head()
                &&& final(self).spec_tail() == old(self).spec_tail() + (new_len - old(self)@.len())
                &&& final(self).spec_cap() == old(self).reserved_cap(
                    (new_len - old(self)@.len()) as nat,
                )
                &&& moved == (old(self).spec_usable() < new_len - old(self)@.len())
            },
    {
        if new_len <= self.len() {
            self.truncate(new_len);
            false
        } else {
            let additional = new_len - self.len();
            let res = self.reserve(additional);
            let ghost before = self@;
            let ghost cap = self.spec_cap();
            let end = self.end;
            let mut i: usize = end;
            while i < end + additional
                invariant
                    self.wf(),
                    self.spec_tail() == end,
                    self.spec_cap() == cap,
                    end + additional <= self.spec_cap(),
                    self@ == before,
                    end <= i <= end + additional,
                    forall|k: int| end <= k < i ==> #[trigger] self.spec_storage()[k] == value,
                decreases end + additional - i,
            {
                self.buf.buf.set(i, value);
                i = i + 1;
                proof {
                    assert(self@ =~= before);
                }
            }
            self.end = end + additional;
            proof {
                assert(self@ =~= before + repeat(value, additional as nat));
            }
            res
        }
    }

    /// Moves the occupied bytes down to the start of the storage so that all
    /// free space lies after the write cursor.  The bytes after the new write
    /// cursor keep whatever they held.
    pub fn make_room(&mut self)
        requires
            old(self).wf(),
        ensures
            final(self).wf(),
            final(self)@ == old(self)@,
            final(self).spec_head() == 0,
            final(self).spec_tail() == old(self)@.len(),
            final(self).spec_cap() == old(self).spec_cap(),
            final(self).spec_storage().subrange(
                old(self)@.len() as int,
                old(self).spec_cap() as int,
            ) == old(self).spec_storage().subrange(
                old(self)@.len() as int,
                old(self).spec_cap() as int,
            ),
    {
        self.check_cursors();
        // no room at the head of the buffer
        if self.pos == 0 {
            return;
        }
        // simply move the bytes down to the beginning
        let len = self.len();
        let pos = self.pos;
        copy_over(self.buf.as_mut_slice(), pos, 0, len);
        self.pos = 0;
        self.end = len;
        proof {
            assert(self@ =~= old(self)@);
            let old_storage = old(self).spec_storage();
            assert(self.spec_storage().subrange(len as int, self.spec_cap() as int)
                =~= old_storage.subrange(len as int, self.spec_cap() as int));
        }
    }

    /// The occupied bytes.
    pub fn buf(&self) -> (res: &[u8])
        requires
            self.wf(),
        ensures
            res@ == self@,
    {
        vstd::slice::slice_subrange(self.buf.buf.as_slice(), self.pos, self.end)
    }

    /// The occupied bytes, for writing in place.  What is written through the
    /// returned slice becomes the buffer's contents; nothing else changes.
    pub fn buf_mut(&mut self) -> (res: &mut [u8])
        requires
            old(self).wf(),
        ensures
            res@ == old(self)@,
            final(self).wf(),
            final(self)@ == final(res)@,
            final(self).spec_head() == old(self).spec_head(),
            final(self).spec_tail() == old(self).spec_tail(),
            final(self).spec_cap() == old(self).spec_cap(),
        no_unwind
    {
        let pos = self.pos;
        let end = self.end;
        subslice_mut(&mut self.buf.buf, pos, end)
    }

    /// The free bytes after the write cursor, for writing.  Writing there
    /// changes no occupied byte; `bytes_written` then takes them in.
    pub fn write_buf(&mut self) -> (res: &mut [u8])
        requires
            old(self).wf(),
        ensures
            res@ == old(self).spec_storage().subrange(
                old(self).spec_tail() as int,
                old(self).spec_cap() as int,
            ),
            final(self).wf(),
            final(self)@ == old(self)@,
            final(self).spec_head() == old(self).spec_head(),
            final(self).spec_tail() == old(self).spec_tail(),
            final(self).spec_cap() == old(self).spec_cap(),
            final(self).spec_storage() == old(self).spec_storage().subrange(
                0,
                old(self).spec_tail() as int,
            ) + final(res)@,
            final(self).spec_storage().subrange(
                old(self).spec_tail() as int,
                old(self).spec_cap() as int,
            ) == final(res)@,
        no_unwind
    {
        let end = self.end;
        let cap = self.buf.buf.len();
        subslice_mut(&mut self.buf.buf, end, cap)
    }

    /// Takes `amt` bytes after the write cursor into the occupied part.
    pub fn bytes_written(&mut self, amt: usize)
        requires
            old(self).wf(),
            amt <= old(self).spec_usable(),
        ensures
            final(self).wf(),
            final(self).spec_storage() == old(self).spec_storage(),
            final(self).spec_head() == old(self).spec_head(),
            final(self).spec_tail() == old(self).spec_tail() + amt,
            final(self)@ == old(self)@ + old(self).spec_storage().subrange(
                old(self).spec_tail() as int,
                old(self).spec_tail() + amt,
            ),
    {
        self.end = self.end + amt;
        proof {
            assert(self@ =~= old(self)@ + old(self).spec_storage().subrange(
                old(self).spec_tail() as int,
                old(self).spec_tail() + amt,
            ));
        }
    }

    /// Drops `amt` bytes (at most all of them) from the front, then settles
    /// the cursors.
    pub fn consume(&mut self, amt: usize)
        requires
            old(self).wf(),
        ensures
            final(self).wf(),
            final(self)@ == old(self)@.skip(min_nat(amt as nat, old(self)@.len()) as int),
            final(self).spec_storage() == old(self).spec_storage(),
            final(self)@.len() == 0 ==> final(self).spec_head() == 0 && final(self).spec_tail()
                == 0,
            final(self)@.len() > 0 ==> final(self).spec_tail() == old(self).spec_tail(),
    {
        // the head moves forward by `amt`, but never past the tail
        if amt >= self.end - self.pos {
            self.pos = self.end;
        } else {
            self.pos = self.pos + amt;
        }
        self.check_cursors();
        proof {
            assert(self@ =~= old(self)@.skip(min_nat(amt as nat, old(self)@.len()) as int));
        }
    }

    /// Keeps only the first `len` occupied bytes (all of them if there are
    /// fewer), then settles the cursors.
    pub fn truncate(&mut self, len: usize)
        requires
            old(self).wf(),
        ensures
            final(self).wf(),
            final(self)@ == old(self)@.take(min_nat(len as nat, old(self)@.len()) as int),
            final(self).spec_storage() == old(self).spec_storage(),
            final(self)@.len() == 0 ==> final(self).spec_head() == 0 && final(self).spec_tail()
                == 0,
            final(self)@.len() > 0 ==> final(self).spec_head() == old(self).spec_head(),
    {
        if len < self.end - self.pos {
            self.end = self.pos + len;
        }
        self.check_cursors();
        proof {
            assert(self@ =~= old(self)@.take(min_nat(len as nat, old(self)@.len()) as int));
        }
    }
}

} // verus!
