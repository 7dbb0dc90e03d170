//! Reusable growable storage from the smallvec crate, behind trusted
//! declarations: the decoder's offset table and the encoder's body scratch
//! buffer. Both are cleared, never dropped, between uses, so the capacity
//! they have grown is retained across calls.

use vstd::prelude::*;
use smallvec::SmallVec;

verus! {

/// A growable table of `(tag, value_start, value_end)` offset entries with
/// inline room for 32 of them, the common case, spilling to the heap past
/// that.
#[verifier::external_body]
pub struct OffsetTable {
    vec: SmallVec<[(u32, u32, u32); 32]>,
}

/// The offset entries an [`OffsetTable`] currently holds, in insertion
/// order.
pub uninterp spec fn offset_entries(v: OffsetTable) -> Seq<(u32, u32, u32)>;

impl OffsetTable {
    /// Relies on `SmallVec::new`: constructs an empty vector.
    #[verifier::external_body]
    pub(crate) fn new() -> (r: OffsetTable)
        ensures
            offset_entries(r) == Seq::<(u32, u32, u32)>::empty(),
    {
        OffsetTable { vec: SmallVec::new() }
    }

    /// Relies on `SmallVec::with_capacity`: constructs an empty vector with
    /// room reserved for `capacity` elements.
    #[verifier::external_body]
    pub(crate) fn with_capacity(capacity: usize) -> (r: OffsetTable)
        ensures
            offset_entries(r) == Seq::<(u32, u32, u32)>::empty(),
    {
        OffsetTable { vec: SmallVec::with_capacity(capacity) }
    }

    /// Relies on `SmallVec::clear`: removes every element, keeping the
    /// capacity.
    #[verifier::external_body]
    pub(crate) fn clear(&mut self)
        ensures
            offset_entries(*final(self)) == Seq::<(u32, u32, u32)>::empty(),
    {
        self.vec.clear()
    }

    /// Relies on `SmallVec::push`: appends one element at the end.
    #[verifier::external_body]
    pub(crate) fn push(&mut self, entry: (u32, u32, u32))
        ensures
            offset_entries(*final(self)) == offset_entries(*old(self)).push(entry),
    {
        self.vec.push(entry)
    }

    /// Relies on `SmallVec::as_slice`: exposes the elements as a slice.
    #[verifier::external_body]
    pub(crate) fn as_slice<'a>(&'a self) -> (r: &'a [(u32, u32, u32)])
        ensures
            r@ == offset_entries(*self),
    {
        self.vec.as_slice()
    }
}

/// A growable byte buffer with inline room for 512 bytes, the common body
/// size, spilling to the heap past that.
#[verifier::external_body]
pub struct ByteBuf {
    vec: SmallVec<[u8; 512]>,
}

/// The bytes a [`ByteBuf`] currently holds, in insertion order.
pub uninterp spec fn byte_entries(v: ByteBuf) -> Seq<u8>;

impl ByteBuf {
    /// Relies on `SmallVec::new`: constructs an empty vector.
    #[verifier::external_body]
    pub(crate) fn new() -> (r: ByteBuf)
        ensures
            byte_entries(r) == Seq::<u8>::empty(),
    {
        ByteBuf { vec: SmallVec::new() }
    }

    /// Relies on `SmallVec::with_capacity`: constructs an empty vector with
    /// room reserved for `capacity` bytes.
    #[verifier::external_body]
    pub(crate) fn with_capacity(capacity: usize) -> (r: ByteBuf)
        ensures
            byte_entries(r) == Seq::<u8>::empty(),
    {
        ByteBuf { vec: SmallVec::with_capacity(capacity) }
    }

    /// Relies on `SmallVec::clear`: removes every element, keeping the
    /// capacity.
    #[verifier::external_body]
    pub(crate) fn clear(&mut self)
        ensures
            byte_entries(*final(self)) == Seq::<u8>::empty(),
    {
        self.vec.clear()
    }

    /// Relies on `SmallVec::push`: appends one byte at the end.
    #[verifier::external_body]
    pub(crate) fn push(&mut self, b: u8)
        ensures
            byte_entries(*final(self)) == byte_entries(*old(self)).push(b),
    {
        self.vec.push(b)
    }

    /// Relies on `SmallVec::extend_from_slice`: appends a copy of every byte
    /// of `bytes` at the end, in order.
    #[verifier::external_body]
    pub(crate) fn extend_from_slice(&mut self, bytes: &[u8])
        ensures
            byte_entries(*final(self)) == byte_entries(*old(self)) + bytes@,
    {
        self.vec.extend_from_slice(bytes)
    }

    /// Relies on `SmallVec::len`: the number of bytes currently held.
    #[verifier::external_body]
    pub(crate) fn len(&self) -> (r: usize)
        ensures
            r == byte_entries(*self).len(),
    {
        self.vec.len()
    }

    /// Relies on `SmallVec::as_slice`: exposes the bytes as a slice.
    #[verifier::external_body]
    pub(crate) fn as_slice<'a>(&'a self) -> (r: &'a [u8])
        ensures
            r@ == byte_entries(*self),
    {
        self.vec.as_slice()
    }
}

} // verus!
