//! Scratchpad: the 1 KiB fast RAM at 0x1F80_0000, byte-addressable with
//! little-endian, width-polymorphic loads and stores.

use vstd::prelude::*;

use crate::addressible::{bytes_load, bytes_store, load_le, store_le, width_len, AccessWidth};

verus! {

/// Size of the scratchpad in bytes.
pub const SCRATCHPAD_SIZE: usize = 0x400;

pub struct ScratchPad {
    data: Vec<u8>,
}

impl ScratchPad {
    /// The bytes of the scratchpad.
    pub closed spec fn view(&self) -> Seq<u8> {
        self.data@
    }

    pub open spec fn wf(&self) -> bool {
        self@.len() == SCRATCHPAD_SIZE
    }

    /// A fresh scratchpad holds the fill pattern 0xCA in every byte.
    pub fn new() -> (r: ScratchPad)
        ensures
            r.wf(),
            forall|i: int| 0 <= i < SCRATCHPAD_SIZE ==> r@[i] == 0xCAu8,
    {
        let data: Vec<u8> = vec![0xCAu8; SCRATCHPAD_SIZE];
        ScratchPad { data }
    }

    /// Loads `w` bytes little-endian at `offset`, zero-extended.
    pub fn load(&self, offset: u32, w: AccessWidth) -> (r: u32)
        requires
            self.wf(),
            offset + width_len(w) <= SCRATCHPAD_SIZE,
        ensures
            r == load_le(self@, offset as int, w),
    {
        bytes_load(&self.data, offset as usize, w)
    }

    /// Stores the low `w` bytes of `val` little-endian at `offset`.
    pub fn store(&mut self, offset: u32, val: u32, w: AccessWidth)
        requires
            old(self).wf(),
            offset + width_len(w) <= SCRATCHPAD_SIZE,
        ensures
            final(self)@ == store_le(old(self)@, offset as int, val, w),
            final(self).wf(),
    {
        bytes_store(&mut self.data, offset as usize, val, w);
        proof {
            crate::addressible::lemma_store_le_frame(old(self)@, offset as int, val, w);
        }
    }
}

} // verus!
