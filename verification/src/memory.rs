//! The guest address space's backing bytes.
//!
//! Guest RAM is one zero-initialized block of a caller-chosen size. Guest
//! code and data are injected here, byte-exact, before the first run; the
//! unverified front end then copies the block into the page-aligned mapping
//! it registers with the kernel. This module owns the block's contents and
//! proves that allocation zero-fills it and that writes change exactly the
//! bytes they name.

use vstd::prelude::*;
use crate::machine::VmmError;

verus! {

/// One guest memory block, viewed as its byte contents.
pub struct GuestMemory {
    bytes: Vec<u8>,
}

impl View for GuestMemory {
    type V = Seq<u8>;

    closed spec fn view(&self) -> Seq<u8> {
        self.bytes@
    }
}

impl GuestMemory {
    /// Allocates a zero-filled block of exactly `size` bytes; a block of no
    /// bytes cannot back anything and is refused.
    pub fn new(size: usize) -> (r: Result<GuestMemory, VmmError>)
        ensures
            size == 0 ==> r == Err::<GuestMemory, VmmError>(VmmError::AllocationFailure),
            size > 0 ==> (r matches Ok(m) && m@.len() == size
                && forall|i: int| 0 <= i < size ==> m@[i] == 0u8),
    {
        if size == 0 {
            return Err(VmmError::AllocationFailure);
        }
        let mut bytes: Vec<u8> = Vec::new();
        let mut i: usize = 0;
        while i < size
            invariant
                i <= size,
                bytes@.len() == i,
                forall|j: int| 0 <= j < i ==> bytes@[j] == 0u8,
            decreases size - i,
        {
            bytes.push(0u8);
            i = i + 1;
        }
        Ok(GuestMemory { bytes })
    }

    /// The block's size in bytes.
    pub fn len(&self) -> (r: usize)
        ensures
            r == self@.len(),
    {
        self.bytes.len()
    }

    /// The byte at offset `i`.
    pub fn read_byte(&self, i: usize) -> (r: u8)
        requires
            i < self@.len(),
        ensures
            r == self@[i as int],
    {
        self.bytes[i]
    }

    /// Stores one byte at offset `i`; every other byte keeps its value.
    pub fn write_byte(&mut self, i: usize, value: u8)
        requires
            i < old(self)@.len(),
        ensures
            final(self)@ == old(self)@.update(i as int, value),
    {
        self.bytes[i] = value;
    }

    /// Copies `data` into the block starting at `offset`: the named range
    /// becomes `data`, every byte outside it keeps its value.
    pub fn write_bytes(&mut self, offset: usize, data: &Vec<u8>)
        requires
            offset + data@.len() <= old(self)@.len(),
        ensures
            final(self)@.len() == old(self)@.len(),
            forall|k: int| offset <= k < offset + data@.len()
                ==> final(self)@[k] == data@[k - offset],
            forall|k: int| 0 <= k < old(self)@.len()
                && !(offset <= k < offset + data@.len())
                ==> final(self)@[k] == old(self)@[k],
    {
        let n: usize = data.len();
        let total: usize = self.bytes.len();
        let mut i: usize = 0;
        while i < n
            invariant
                n == data@.len(),
                i <= n,
                total == self.bytes@.len(),
                offset + n <= total,
                self.bytes@.len() == old(self)@.len(),
                forall|k: int| offset <= k < offset + i
                    ==> self.bytes@[k] == data@[k - offset],
                forall|k: int| 0 <= k < self.bytes@.len()
                    && !(offset <= k < offset + i)
                    ==> self.bytes@[k] == old(self)@[k],
            decreases n - i,
        {
            self.bytes[offset + i] = data[i];
            i = i + 1;
        }
    }

    /// The whole block, for the front end to copy into its real mapping.
    pub fn as_bytes(&self) -> (r: &Vec<u8>)
        ensures
            r@ == self@,
    {
        &self.bytes
    }
}

} // verus!
