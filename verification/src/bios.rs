//! BIOS: the 512 KiB firmware ROM image mapped at 0x1FC0_0000.  Read-only;
//! the image is handed in as plain bytes and refused if it is not exactly
//! 512 KiB.

use vstd::prelude::*;

use crate::addressible::{bytes_load, load_le, width_len, AccessWidth};

verus! {

/// Size of the BIOS image in bytes.
pub const BIOS_SIZE: usize = 0x80000;

pub struct Bios {
    data: Vec<u8>,
}

impl Bios {
    /// The bytes of the BIOS image.
    pub closed spec fn view(&self) -> Seq<u8> {
        self.data@
    }

    pub open spec fn wf(&self) -> bool {
        self@.len() == BIOS_SIZE
    }

    /// Accepts an image of exactly 512 KiB and refuses any other size.
    pub fn new(data: Vec<u8>) -> (r: Option<Bios>)
        ensures
            r is Some <==> data@.len() == BIOS_SIZE,
            r is Some ==> r->0@ == data@ && r->0.wf(),
    {
        if data.len() == BIOS_SIZE {
            Some(Bios { data })
        } else {
            None
        }
    }

    /// Loads `w` bytes little-endian at `offset`, zero-extended.
    pub fn load(&self, offset: u32, w: AccessWidth) -> (r: u32)
        requires
            self.wf(),
            offset + width_len(w) <= BIOS_SIZE,
        ensures
            r == load_le(self@, offset as int, w),
    {
        bytes_load(&self.data, offset as usize, w)
    }
}

} // verus!
