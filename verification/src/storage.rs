//! The shapes of buffer that a cell can be built on.
use vstd::prelude::*;

verus! {

/// A buffer that can be read as a slice of bytes.
pub trait Storage {
    /// The bytes of the buffer.
    spec fn bytes(&self) -> Seq<u8>;

    /// The buffer as a slice.
    fn as_slice(&self) -> (slice: &[u8])
        ensures
            slice@ == self.bytes(),
    ;
}

/// A buffer that can also be written to, so that a cell built on it can take a value.
pub trait StorageMut: Storage {
    /// The buffer as a slice to write to. The buffer holds afterwards what the slice is left
    /// with.
    fn as_mut_slice(&mut self) -> (slice: &mut [u8])
        ensures
            slice@ == old(self).bytes(),
            final(self).bytes() == final(slice)@,
    ;
}

/// A borrowed slice, to read from.
impl<'a> Storage for &'a [u8] {
    open spec fn bytes(&self) -> Seq<u8> {
        (*self)@
    }

    fn as_slice(&self) -> (slice: &[u8]) {
        *self
    }
}

/// A borrowed slice, to read from and to write to.
impl<'a> Storage for &'a mut [u8] {
    open spec fn bytes(&self) -> Seq<u8> {
        (**self)@
    }

    fn as_slice(&self) -> (slice: &[u8]) {
        &**self
    }
}

impl<'a> StorageMut for &'a mut [u8] {
    fn as_mut_slice(&mut self) -> (slice: &mut [u8]) {
        &mut **self
    }
}

/// An array of fixed length, which lives on the stack.
impl<const LENGTH: usize> Storage for [u8; LENGTH] {
    open spec fn bytes(&self) -> Seq<u8> {
        self@
    }

    fn as_slice(&self) -> (slice: &[u8]) {
        self.as_slice()
    }
}

impl<const LENGTH: usize> StorageMut for [u8; LENGTH] {
    fn as_mut_slice(&mut self) -> (slice: &mut [u8]) {
        self
    }
}

/// An owned slice on the heap.
impl Storage for Box<[u8]> {
    open spec fn bytes(&self) -> Seq<u8> {
        (**self)@
    }

    fn as_slice(&self) -> (slice: &[u8]) {
        &**self
    }
}

impl StorageMut for Box<[u8]> {
    fn as_mut_slice(&mut self) -> (slice: &mut [u8]) {
        &mut **self
    }
}

} // verus!
