//! Key material that is wiped when it goes out of use.

use crate::bytes::wipe;
use core::ops::Deref;
use vstd::prelude::*;

verus! {

/// Bytes that are overwritten with zeros when they are dropped.
#[derive(Debug, PartialEq, Eq)]
pub struct Secret<const SIZE: usize> {
    pub bytes: [u8; SIZE],
}

impl<const SIZE: usize> View for Secret<SIZE> {
    type V = Seq<u8>;

    open spec fn view(&self) -> Seq<u8> {
        self.bytes@
    }
}

impl<const SIZE: usize> Secret<SIZE> {
    /// Holds some bytes until they are dropped.
    pub fn new(bytes: [u8; SIZE]) -> (secret: Self)
        ensures
            secret.bytes == bytes,
    {
        Self { bytes }
    }
}

impl<const SIZE: usize> Drop for Secret<SIZE> {
    fn drop(&mut self)
        ensures
            final(self)@ == Seq::new(SIZE as nat, |i: int| 0u8),
        opens_invariants none
        no_unwind
    {
        wipe(&mut self.bytes);
    }
}

impl<const SIZE: usize> Clone for Secret<SIZE> {
    fn clone(&self) -> (copy: Self)
        ensures
            copy == *self,
    {
        Self { bytes: self.bytes }
    }
}

impl<const SIZE: usize> Deref for Secret<SIZE> {
    type Target = [u8; SIZE];

    fn deref(&self) -> (bytes: &[u8; SIZE])
        ensures
            *bytes == self.bytes,
    {
        &self.bytes
    }
}

} // verus!
