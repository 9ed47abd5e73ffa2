//! Width-polymorphic memory access: every memory-backed region and device
//! port is read and written through 1, 2 or 4 byte accesses carrying their
//! value zero-extended in a `u32`.  Bytes are laid out little-endian.

use vstd::prelude::*;

verus! {

/// Width of a single memory access, in bytes.
#[derive(Clone, Copy, Debug, PartialEq, Eq, Structural)]
pub enum AccessWidth {
    Byte,
    Halfword,
    Word,
}

/// Number of bytes moved by an access of width `w`.
pub open spec fn width_len(w: AccessWidth) -> int {
    match w {
        AccessWidth::Byte => 1,
        AccessWidth::Halfword => 2,
        AccessWidth::Word => 4,
    }
}

impl AccessWidth {
    /// Number of bytes moved by an access of this width.
    pub fn len(self) -> (r: usize)
        ensures
            r == width_len(self),
    {
        match self {
            AccessWidth::Byte => 1,
            AccessWidth::Halfword => 2,
            AccessWidth::Word => 4,
        }
    }
}

/// `v` truncated to the low `width_len(w)` bytes, as a device register or a
/// memory cell of that width holds it.
pub open spec fn trunc_width(v: u32, w: AccessWidth) -> u32 {
    match w {
        AccessWidth::Byte => v & 0xFF,
        AccessWidth::Halfword => v & 0xFFFF,
        AccessWidth::Word => v,
    }
}

/// Value of the `width_len(w)` little-endian bytes of `s` starting at `off`,
/// zero-extended to 32 bits.
pub open spec fn load_le(s: Seq<u8>, off: int, w: AccessWidth) -> u32 {
    match w {
        AccessWidth::Byte => s[off] as u32,
        AccessWidth::Halfword => (s[off] as u32) | ((s[off + 1] as u32) << 8),
        AccessWidth::Word => (s[off] as u32) | ((s[off + 1] as u32) << 8) | ((s[off + 2]
            as u32) << 16) | ((s[off + 3] as u32) << 24),
    }
}

/// `s` with the low `width_len(w)` bytes of `v` written little-endian at
/// `off`; every other byte is unchanged.
pub open spec fn store_le(s: Seq<u8>, off: int, v: u32, w: AccessWidth) -> Seq<u8> {
    match w {
        AccessWidth::Byte => s.update(off, v as u8),
        AccessWidth::Halfword => s.update(off, v as u8).update(off + 1, (v >> 8) as u8),
        AccessWidth::Word => s.update(off, v as u8).update(off + 1, (v >> 8) as u8).update(
            off + 2,
            (v >> 16) as u8,
        ).update(off + 3, (v >> 24) as u8),
    }
}

/// Round trip of the width-polymorphic access contract: storing `v` with
/// width `w` and loading the same address back returns `v` reduced modulo
/// 2^(8 * width_len(w)), on any byte store.
pub proof fn lemma_store_load_round_trip(s: Seq<u8>, off: int, v: u32, w: AccessWidth)
    requires
        0 <= off,
        off + width_len(w) <= s.len(),
    ensures
        w is Byte ==> load_le(store_le(s, off, v, w), off, w) == v % 0x100,
        w is Halfword ==> load_le(store_le(s, off, v, w), off, w) == v % 0x10000,
        w is Word ==> load_le(store_le(s, off, v, w), off, w) == v,
{
    match w {
        AccessWidth::Byte => {
            assert((v as u8) as u32 == v % 0x100) by (bit_vector);
        },
        AccessWidth::Halfword => {
            let b0 = v as u8;
            let b1 = (v >> 8) as u8;
            assert((b0 as u32) | ((b1 as u32) << 8) == v % 0x10000) by (bit_vector)
                requires
                    b0 == v as u8 && b1 == (v >> 8) as u8,
            ;
        },
        AccessWidth::Word => {
            let b0 = v as u8;
            let b1 = (v >> 8) as u8;
            let b2 = (v >> 16) as u8;
            let b3 = (v >> 24) as u8;
            assert((b0 as u32) | ((b1 as u32) << 8) | ((b2 as u32) << 16) | ((b3 as u32) << 24)
                == v) by (bit_vector)
                requires
                    b0 == v as u8 && b1 == (v >> 8) as u8 && b2 == (v >> 16) as u8 && b3 == (v
                        >> 24) as u8,
            ;
        },
    }
}

/// A store touches exactly the `width_len(w)` bytes at `off`: length and all
/// other bytes are preserved.
pub proof fn lemma_store_le_frame(s: Seq<u8>, off: int, v: u32, w: AccessWidth)
    requires
        0 <= off,
        off + width_len(w) <= s.len(),
    ensures
        store_le(s, off, v, w).len() == s.len(),
        forall|i: int|
            0 <= i < s.len() && !(off <= i < off + width_len(w)) ==> store_le(s, off, v, w)[i]
                == s[i],
{
}

/// A load reads only its own bytes: two states that agree on the
/// `width_len(w)` bytes at `off` load the same value there.
pub proof fn lemma_load_le_frame(s1: Seq<u8>, s2: Seq<u8>, off: int, w: AccessWidth)
    requires
        0 <= off,
        off + width_len(w) <= s1.len(),
        s1.len() == s2.len(),
        forall|i: int| off <= i < off + width_len(w) ==> s1[i] == s2[i],
    ensures
        load_le(s1, off, w) == load_le(s2, off, w),
{
}

/// Truncates `v` to the access width `w`.
pub fn trunc(v: u32, w: AccessWidth) -> (r: u32)
    ensures
        r == trunc_width(v, w),
{
    match w {
        AccessWidth::Byte => v & 0xFF,
        AccessWidth::Halfword => v & 0xFFFF,
        AccessWidth::Word => v,
    }
}

/// Loads the `width_len(w)` little-endian bytes at `off` of `data`.
pub fn bytes_load(data: &Vec<u8>, off: usize, w: AccessWidth) -> (r: u32)
    requires
        off + width_len(w) <= data.len(),
    ensures
        r == load_le(data@, off as int, w),
{
    match w {
        AccessWidth::Byte => data[off] as u32,
        AccessWidth::Halfword => (data[off] as u32) | ((data[off + 1] as u32) << 8),
        AccessWidth::Word => (data[off] as u32) | ((data[off + 1] as u32) << 8) | ((data[off + 2]
            as u32) << 16) | ((data[off + 3] as u32) << 24),
    }
}

/// Stores the low `width_len(w)` bytes of `v` little-endian at `off` of
/// `data`.
pub fn bytes_store(data: &mut Vec<u8>, off: usize, v: u32, w: AccessWidth)
    requires
        off + width_len(w) <= old(data).len(),
    ensures
        final(data)@ == store_le(old(data)@, off as int, v, w),
{
    match w {
        AccessWidth::Byte => {
            data[off] = v as u8;
        },
        AccessWidth::Halfword => {
            data[off] = v as u8;
            data[off + 1] = (v >> 8) as u8;
        },
        AccessWidth::Word => {
            data[off] = v as u8;
            data[off + 1] = (v >> 8) as u8;
            data[off + 2] = (v >> 16) as u8;
            data[off + 3] = (v >> 24) as u8;
        },
    }
}

} // verus!
