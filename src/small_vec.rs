//! Inline-first vectors of the `smallvec` crate, as the frame builders use them.
//!
//! Each vector is held in a private field of a type whose contents the
//! contracts below describe as a sequence of plain values.
use vstd::prelude::*;
use smallvec::SmallVec;

verus! {

/// A vector of setting identifiers (their wire values), stored inline up to eight.
#[verifier::external_body]
#[derive(Debug, PartialEq, Eq)]
pub struct IdVec {
    inner: SmallVec<[u16; 8]>,
}

/// What an `IdVec` holds, in order.
pub uninterp spec fn id_items(v: IdVec) -> Seq<u16>;

/// Relies on `SmallVec::new`: the new vector is empty.
#[verifier::external_body]
pub(crate) fn ids_new() -> (r: IdVec)
    ensures
        id_items(r) == Seq::<u16>::empty(),
{
    IdVec { inner: SmallVec::new() }
}

/// Relies on `SmallVec::push`: the item is appended at the end.
#[verifier::external_body]
pub(crate) fn ids_push(v: &mut IdVec, x: u16)
    requires
        id_items(*old(v)).len() < 0x1000_0000,
    ensures
        id_items(*final(v)) == id_items(*old(v)).push(x),
{
    v.inner.push(x)
}

/// Relies on `SmallVec::len`: the number of items held.
#[verifier::external_body]
pub(crate) fn ids_len(v: &IdVec) -> (r: usize)
    ensures
        r == id_items(*v).len(),
{
    v.inner.len()
}

/// Relies on indexing through `SmallVec`'s slice: the item at `i`.
#[verifier::external_body]
pub(crate) fn ids_get(v: &IdVec, i: usize) -> (r: u16)
    requires
        i < id_items(*v).len(),
    ensures
        r == id_items(*v)[i as int],
{
    v.inner[i]
}

/// Relies on `SmallVec::clone`: the copy holds the same items.
#[verifier::external_body]
pub(crate) fn ids_clone(v: &IdVec) -> (r: IdVec)
    ensures
        id_items(r) == id_items(*v),
{
    IdVec { inner: v.inner.clone() }
}

/// A vector of priority entries, each as (stream, dependency, weight,
/// exclusive), stored inline up to eight.
#[verifier::external_body]
#[derive(Debug, PartialEq, Eq)]
pub struct EntryVec {
    inner: SmallVec<[(u32, u32, u8, bool); 8]>,
}

/// What an `EntryVec` holds, in order.
pub uninterp spec fn entry_items(v: EntryVec) -> Seq<(u32, u32, u8, bool)>;

/// Relies on `SmallVec::new`: the new vector is empty.
#[verifier::external_body]
pub(crate) fn entries_new() -> (r: EntryVec)
    ensures
        entry_items(r) == Seq::<(u32, u32, u8, bool)>::empty(),
{
    EntryVec { inner: SmallVec::new() }
}

/// Relies on `SmallVec::push`: the item is appended at the end.
#[verifier::external_body]
pub(crate) fn entries_push(v: &mut EntryVec, x: (u32, u32, u8, bool))
    requires
        entry_items(*old(v)).len() < 0x1000_0000,
    ensures
        entry_items(*final(v)) == entry_items(*old(v)).push(x),
{
    v.inner.push(x)
}

/// Relies on `SmallVec::len`: the number of items held.
#[verifier::external_body]
pub(crate) fn entries_len(v: &EntryVec) -> (r: usize)
    ensures
        r == entry_items(*v).len(),
{
    v.inner.len()
}

/// Relies on indexing through `SmallVec`'s slice: the item at `i`.
#[verifier::external_body]
pub(crate) fn entries_get(v: &EntryVec, i: usize) -> (r: (u32, u32, u8, bool))
    requires
        i < entry_items(*v).len(),
    ensures
        r == entry_items(*v)[i as int],
{
    v.inner[i]
}

/// Relies on `SmallVec::clone`: the copy holds the same items.
#[verifier::external_body]
pub(crate) fn entries_clone(v: &EntryVec) -> (r: EntryVec)
    ensures
        entry_items(r) == entry_items(*v),
{
    EntryVec { inner: v.inner.clone() }
}

} // verus!
