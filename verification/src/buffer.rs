//! Address-stable byte buffers.
//!
//! The engine latches the address of a buffer when a transfer is programmed,
//! so the buffer must stay where it is. A [`Pinned`] buffer records its base
//! address once, at construction, and offers no operation that changes the
//! address or the length: bytes can be read and overwritten in place, nothing
//! else.

use vstd::prelude::*;

verus! {

/// A pinned buffer as plain values: where it lies and what it holds.
pub struct PinnedView {
    /// Address of the first byte.
    pub address: usize,
    /// The bytes, in address order.
    pub bytes: Seq<u8>,
}

impl PinnedView {
    /// The region lies inside the address space: its end does not wrap.
    pub open spec fn addressable(self) -> bool {
        self.address + self.bytes.len() <= usize::MAX
    }

    /// The same region holding other bytes.
    pub open spec fn holding(self, bytes: Seq<u8>) -> PinnedView {
        PinnedView { address: self.address, bytes }
    }
}

/// A byte buffer whose address is fixed for as long as the wrapper exists.
pub struct Pinned {
    address: usize,
    bytes: Vec<u8>,
}

impl View for Pinned {
    type V = PinnedView;

    closed spec fn view(&self) -> PinnedView {
        PinnedView { address: self.address, bytes: self.bytes@ }
    }
}

impl Pinned {
    /// Pins `bytes` at `address`. A region that would run past the end of the
    /// address space is rejected.
    pub fn new(address: usize, bytes: Vec<u8>) -> (pinned: Option<Pinned>)
        ensures
            pinned is Some <==> (PinnedView { address, bytes: bytes@ }).addressable(),
            pinned is Some ==> pinned->0@ == (PinnedView { address, bytes: bytes@ }),
    {
        if bytes.len() <= usize::MAX - address {
            Some(Pinned { address, bytes })
        } else {
            None
        }
    }

    /// Address of the first byte.
    pub fn address(&self) -> (address: usize)
        ensures
            address == self@.address,
    {
        self.address
    }

    /// Number of bytes.
    pub fn len(&self) -> (len: usize)
        ensures
            len == self@.bytes.len(),
    {
        self.bytes.len()
    }

    /// The byte at offset `index`, or `None` past the end.
    pub fn get(&self, index: usize) -> (byte: Option<u8>)
        ensures
            byte == (if index < self@.bytes.len() {
                Some(self@.bytes[index as int])
            } else {
                None
            }),
    {
        if index < self.bytes.len() {
            Some(self.bytes[index])
        } else {
            None
        }
    }

    /// Overwrites the byte at offset `index` in place and reports whether
    /// there was such a byte. Address and length stay as they were.
    pub fn set(&mut self, index: usize, byte: u8) -> (stored: bool)
        ensures
            stored == (index < old(self)@.bytes.len()),
            final(self)@.address == old(self)@.address,
            final(self)@.bytes == (if stored {
                old(self)@.bytes.update(index as int, byte)
            } else {
                old(self)@.bytes
            }),
    {
        if index < self.bytes.len() {
            self.bytes.set(index, byte);
            true
        } else {
            false
        }
    }

    /// The bytes, borrowed where they lie.
    pub fn as_slice(&self) -> (bytes: &[u8])
        ensures
            bytes@ == self@.bytes,
    {
        self.bytes.as_slice()
    }

    /// Ends the pinning and hands the bytes back.
    pub fn into_inner(self) -> (bytes: Vec<u8>)
        ensures
            bytes@ == self@.bytes,
    {
        self.bytes
    }
}

} // verus!
