//! The calls this library makes into code that Verus does not read: the
//! `memchr` and `safemem` crates, std's mutable sub-slicing and
//! `Vec::reserve_exact`.  Each item here states, in its contract, what the
//! called function does; nothing in this file is proved.

use vstd::prelude::*;

use crate::policy::contains_byte;

verus! {

/// Declares `std::io::Error` so that error values coming back from I/O can be
/// carried through the library unchanged.  Verus sees nothing inside it.
#[verifier::external_type_specification]
#[verifier::external_body]
pub struct ExIoError(std::io::Error);

/// Calls `memchr::memrchr`, which searches `haystack` for the last
/// occurrence of `needle`.  Its documentation promises the index of that last
/// occurrence (always below `haystack.len()`), or `None` when the byte does
/// not occur; the contract states exactly that.
#[verifier::external_body]
pub(crate) fn memrchr(needle: u8, haystack: &[u8]) -> (res: Option<usize>)
    ensures
        match res {
            Some(i) => {
                &&& i < haystack@.len()
                &&& haystack@[i as int] == needle
                &&& forall|j: int| i < j < haystack@.len() ==> haystack@[j] != needle
            },
            None => !contains_byte(haystack@, needle),
        },
{
    memchr::memrchr(needle, haystack)
}

/// Calls `safemem::copy_over`: a `memmove` of `len` elements from `src_idx`
/// to `dest_idx` inside `slice`.  Its source asserts (and would panic
/// otherwise) that, for a non-empty slice, both indices are in bounds and both
/// ranges end within the slice; the contract requires that, and states that
/// the destination range then holds the old source range while every other
/// element is unchanged.
#[verifier::external_body]
pub(crate) fn copy_over(slice: &mut [u8], src_idx: usize, dest_idx: usize, len: usize)
    requires
        old(slice)@.len() > 0 ==> {
            &&& src_idx < old(slice)@.len()
            &&& dest_idx < old(slice)@.len()
            &&& src_idx + len <= old(slice)@.len()
            &&& dest_idx + len <= old(slice)@.len()
        },
    ensures
        final(slice)@.len() == old(slice)@.len(),
        forall|i: int|
            0 <= i < final(slice)@.len() ==> #[trigger] final(slice)@[i] == if dest_idx <= i
                < dest_idx + len {
                old(slice)@[src_idx + (i - dest_idx)]
            } else {
                old(slice)@[i]
            },
{
    safemem::copy_over(slice, src_idx, dest_idx, len)
}

/// Calls `safemem::write_bytes`, which sets every byte of `slice` to `byte`
/// (a `memset`).
#[verifier::external_body]
pub(crate) fn write_bytes(slice: &mut [u8], byte: u8)
    ensures
        final(slice)@ == Seq::new(old(slice)@.len(), |i: int| byte),
{
    safemem::write_bytes(slice, byte)
}

/// Calls `Vec::reserve_exact`, which makes room for at least `additional`
/// more elements without deliberately over-allocating.  Its documentation
/// says the elements are unchanged, and that it panics when the new capacity
/// would exceed `isize::MAX` bytes, which the contract rules out: the new
/// capacity is the old one or the length plus `additional`.
#[verifier::external_body]
pub(crate) fn reserve_exact(v: &mut Vec<u8>, additional: usize)
    requires
        old(v)@.len() + additional <= isize::MAX,
    ensures
        final(v)@ == old(v)@,
{
    v.reserve_exact(additional)
}

/// Calls std's range indexing `&mut v[start..end]`.  The borrowed slice holds
/// the elements of that range; a mutable slice keeps its length, and whatever
/// is written through it lands in that range of `v`, the rest of `v` staying
/// as it was.  Within bounds, slicing does not panic.
#[verifier::external_body]
pub(crate) fn subslice_mut(v: &mut Vec<u8>, start: usize, end: usize) -> (res: &mut [u8])
    requires
        start <= end <= old(v)@.len(),
    ensures
        res@ == old(v)@.subrange(start as int, end as int),
        final(res)@.len() == res@.len(),
        final(v)@ == old(v)@.subrange(0, start as int) + final(res)@ + old(v)@.subrange(
            end as int,
            old(v)@.len() as int,
        ),
    no_unwind
{
    &mut v[start..end]
}

} // verus!
