//! Width-polymorphic memory, address masking and BIOS size checks.

use rps::addressible::AccessWidth;
use rps::bios::Bios;
use rps::interconnect::mask_region;
use rps::ram::Ram;
use rps::scratchpad::ScratchPad;

#[test]
fn ram_round_trip_word() {
    let mut ram = Ram::new();
    ram.store(0x100, 0xDEADBEEF, AccessWidth::Word);
    assert_eq!(ram.load(0x100, AccessWidth::Word), 0xDEADBEEF);
}

#[test]
fn ram_round_trip_halfword_truncates() {
    let mut ram = Ram::new();
    ram.store(0x200, 0x12345678, AccessWidth::Halfword);
    assert_eq!(ram.load(0x200, AccessWidth::Halfword), 0x5678);
}

#[test]
fn ram_round_trip_byte_truncates() {
    let mut ram = Ram::new();
    ram.store(0x300, 0xABCD, AccessWidth::Byte);
    assert_eq!(ram.load(0x300, AccessWidth::Byte), 0xCD);
}

#[test]
fn ram_is_little_endian() {
    let mut ram = Ram::new();
    ram.store(0x10, 0x11223344, AccessWidth::Word);
    assert_eq!(ram.load(0x10, AccessWidth::Byte), 0x44);
    assert_eq!(ram.load(0x11, AccessWidth::Byte), 0x33);
    assert_eq!(ram.load(0x12, AccessWidth::Byte), 0x22);
    assert_eq!(ram.load(0x13, AccessWidth::Byte), 0x11);
    assert_eq!(ram.load(0x12, AccessWidth::Halfword), 0x1122);
}

#[test]
fn ram_store_leaves_neighbours() {
    let mut ram = Ram::new();
    ram.store(0x44, 0x55, AccessWidth::Byte);
    assert_eq!(ram.load(0x43, AccessWidth::Byte), 0xCA);
    assert_eq!(ram.load(0x45, AccessWidth::Byte), 0xCA);
}

#[test]
fn fresh_ram_holds_fill_pattern() {
    let ram = Ram::new();
    assert_eq!(ram.load(0, AccessWidth::Word), 0xCACACACA);
    assert_eq!(ram.load(0x1FFFFC, AccessWidth::Word), 0xCACACACA);
}

#[test]
fn scratchpad_round_trip() {
    let mut pad = ScratchPad::new();
    pad.store(0x3FC, 0xCAFEBABE, AccessWidth::Word);
    assert_eq!(pad.load(0x3FC, AccessWidth::Word), 0xCAFEBABE);
    pad.store(0, 0xFFFF1234, AccessWidth::Halfword);
    assert_eq!(pad.load(0, AccessWidth::Halfword), 0x1234);
}

#[test]
fn bios_accepts_only_full_image() {
    assert!(Bios::new(vec![0u8; 0x80000]).is_some());
    assert!(Bios::new(vec![0u8; 0x7FFFF]).is_none());
    assert!(Bios::new(vec![0u8; 0x80001]).is_none());
    assert!(Bios::new(Vec::new()).is_none());
}

#[test]
fn bios_loads_little_endian() {
    let mut data = vec![0u8; 0x80000];
    data[0] = 0x78;
    data[1] = 0x56;
    data[2] = 0x34;
    data[3] = 0x12;
    let bios = Bios::new(data).unwrap();
    assert_eq!(bios.load(0, AccessWidth::Word), 0x12345678);
    assert_eq!(bios.load(1, AccessWidth::Byte), 0x56);
}

#[test]
fn mask_region_matches_segment_table() {
    assert_eq!(mask_region(0xBFC00000), 0x1FC00000);
    assert_eq!(mask_region(0xA0000000), 0x00000000);
    assert_eq!(mask_region(0x80000080), 0x00000080);
    assert_eq!(mask_region(0x00001234), 0x00001234);
    assert_eq!(mask_region(0x9FC00000), 0x1FC00000);
    assert_eq!(mask_region(0xC0001234), 0xC0001234);
    assert_eq!(mask_region(0xFFFE0130), 0xFFFE0130);
}

#[test]
fn mask_region_depends_only_on_top_bits() {
    // Two addresses agreeing in bits 31:29 get the same mask.
    assert_eq!(mask_region(0xA0000010) ^ 0x10, mask_region(0xA0000020) ^ 0x20);
    assert_eq!(mask_region(0x80000010) ^ 0x10, mask_region(0x80000020) ^ 0x20);
}
