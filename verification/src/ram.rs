//! Main RAM: a 2 MiB byte-addressable store with little-endian,
//! width-polymorphic loads and stores.

use vstd::prelude::*;

use crate::addressible::{bytes_load, bytes_store, load_le, store_le, width_len, AccessWidth};

verus! {

/// Size of main RAM in bytes.
pub const RAM_SIZE: usize = 0x200000;

pub struct Ram {
    data: Vec<u8>,
}

impl Ram {
    /// The bytes of RAM.
    pub closed spec fn view(&self) -> Seq<u8> {
        self.data@
    }

    pub open spec fn wf(&self) -> bool {
        self@.len() == RAM_SIZE
    }

    /// Fresh RAM holds the fill pattern 0xCA in every byte.
    pub fn new() -> (r: Ram)
        ensures
            r.wf(),
            forall|i: int| 0 <= i < RAM_SIZE ==> r@[i] == 0xCAu8,
    {
        let data: Vec<u8> = vec![0xCAu8; RAM_SIZE];
        Ram { data }
    }

    /// Loads `w` bytes little-endian at `offset`, zero-extended.
    pub fn load(&self, offset: u32, w: AccessWidth) -> (r: u32)
        requires
            self.wf(),
            offset + width_len(w) <= RAM_SIZE,
        ensures
            r == load_le(self@, offset as int, w),
    {
        bytes_load(&self.data, offset as usize, w)
    }

    /// Stores the low `w` bytes of `val` little-endian at `offset`.
    pub fn store(&mut self, offset: u32, val: u32, w: AccessWidth)
        requires
            old(self).wf(),
            offset + width_len(w) <= RAM_SIZE,
        ensures
            final(self)@ == store_le(old(self)@, offset as int, val, w),
            final(self).wf(),
    {
        bytes_store(&mut self.data, offset as usize, val, w);
        proof {
            crate::addressible::lemma_store_le_frame(old(self)@, offset as int, val, w);
        }
    }
}

} // verus!
