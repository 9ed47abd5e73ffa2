//! Instruction-level scenarios: immediates, the load-delay slot, signed
//! overflow, cache-isolated stores, branch delay and the zero register.

use rps::addressible::AccessWidth;
use rps::bios::Bios;
use rps::cpu::Cpu;
use rps::gpu::Gpu;
use rps::interconnect::Interconnect;

/// Builds a machine whose BIOS starts with `program` at the reset
/// vector and holds zero (NOP) words after it.
fn machine(program: &[u32]) -> Cpu {
    let mut data = vec![0u8; 0x80000];
    for (i, word) in program.iter().enumerate() {
        let bytes = word.to_le_bytes();
        data[i * 4..i * 4 + 4].copy_from_slice(&bytes);
    }
    let bios = Bios::new(data).unwrap();
    let inter = Interconnect::new(bios, Gpu::new(), None);
    Cpu::new(inter)
}

/// Steps until `n` instructions have executed (stall steps excluded).
fn run_instructions(cpu: &mut Cpu, n: usize) {
    let mut executed = 0;
    let mut guard = 0;
    while executed < n {
        match cpu.step().unwrap() {
            Some(_) => executed += 1,
            None => {}
        }
        guard += 1;
        assert!(guard < 100000, "did not reach {} instructions", n);
    }
}

#[test]
fn lui_ori_builds_immediate() {
    // LUI r8, 0x1F80 ; ORI r8, r8, 0x1074
    let mut cpu = machine(&[0x3C081F80, 0x35081074]);
    run_instructions(&mut cpu, 2);
    assert_eq!(cpu.regs[8], 0x1F801074);
}

#[test]
fn load_delay_slot_shows_old_value() {
    // ORI r1, r0, 0x100    (address of the planted word)
    // LUI r2, 0x1111 ; ORI r2, r2, 0x1111
    // LW  r2, 0(r1)
    // ORI r3, r2, 0        (reads r2 in the load-delay slot)
    let mut cpu = machine(&[0x34010100, 0x3C021111, 0x34421111, 0x8C220000, 0x34430000]);
    cpu.put(0x100, 0xDEADBEEF, AccessWidth::Word).unwrap();
    run_instructions(&mut cpu, 5);
    assert_eq!(cpu.regs[3], 0x11111111, "the delay slot must observe the old value");
    assert_eq!(cpu.regs[2], 0xDEADBEEF, "the delayed load must commit afterwards");
}

#[test]
fn addi_overflow_raises_exception() {
    // LUI r1, 0x7FFF ; ORI r1, r1, 0xFFFF ; ADDI r2, r1, 1
    let mut cpu = machine(&[0x3C017FFF, 0x3421FFFF, 0x20220001]);
    run_instructions(&mut cpu, 3);
    assert_eq!(cpu.epc, 0xBFC00008, "EPC must point at the faulting ADDI");
    assert_eq!(cpu.pc, 0x80000080, "BEV clear selects the RAM handler");
    assert_eq!(cpu.cause & 0x7C, 0xC << 2, "CAUSE must carry the Overflow code");
    assert_eq!(cpu.regs[2], 0xDEADBEEF, "the destination must stay untouched");
}

#[test]
fn addi_overflow_honours_bev() {
    let mut cpu = machine(&[0x3C017FFF, 0x3421FFFF, 0x20220001]);
    cpu.sr = 1 << 22;
    run_instructions(&mut cpu, 3);
    assert_eq!(cpu.pc, 0xBFC00180, "BEV set selects the ROM handler");
}

#[test]
fn cache_isolated_store_is_dropped() {
    let mut cpu = machine(&[]);
    cpu.sr = 1 << 16;
    cpu.store(0, 0xCAFEBABE, AccessWidth::Word).unwrap();
    cpu.sr = 0;
    let read = cpu.load(0, AccessWidth::Word).unwrap();
    assert_eq!(read, 0xCACACACA, "fresh RAM must still hold its fill pattern");
}

#[test]
fn uninsulated_store_lands() {
    let mut cpu = machine(&[]);
    cpu.store(0, 0xCAFEBABE, AccessWidth::Word).unwrap();
    let read = cpu.load(0, AccessWidth::Word).unwrap();
    assert_eq!(read, 0xCAFEBABE);
}

#[test]
fn branch_delay_slot_executes_before_target() {
    // BNE r0, r0 is never taken; use BEQ r0, r0 (always taken):
    // BEQ r0, r0, +2   (target = 0xBFC0000C)
    // ORI r1, r0, 1    (delay slot: must execute)
    // ORI r2, r0, 2    (skipped by the branch)
    // ORI r3, r0, 3    (branch target)
    let beq = 0x10000002;
    let mut cpu = machine(&[beq, 0x34010001, 0x34020002, 0x34030003]);
    run_instructions(&mut cpu, 3);
    assert_eq!(cpu.regs[1], 1, "the delay slot instruction must run");
    assert_eq!(cpu.regs[3], 3, "the branch target must run next");
    assert_eq!(cpu.regs[2], 0xDEADBEEF, "the skipped instruction must not run");
}

#[test]
fn jump_and_link_sets_ra() {
    // JAL 0xBFC00010 with a NOP delay slot; the target holds ORI r5, r0, 5.
    let jal = 0x0C000000 | ((0xBFC00010u32 >> 2) & 0x3FFFFFF);
    let mut cpu = machine(&[jal, 0, 0, 0, 0x34050005]);
    run_instructions(&mut cpu, 3);
    assert_eq!(cpu.regs[31], 0xBFC00008, "the link register holds the return address");
    assert_eq!(cpu.regs[5], 5, "execution continued at the jump target");
}

#[test]
fn register_zero_stays_zero() {
    // ORI r0, r0, 0xFFFF tries to write register zero.
    let mut cpu = machine(&[0x3400FFFF, 0x34010001]);
    run_instructions(&mut cpu, 2);
    assert_eq!(cpu.regs[0], 0, "register zero must read zero after any write");
    // And across many more steps of NOPs.
    run_instructions(&mut cpu, 20);
    assert_eq!(cpu.regs[0], 0);
}

#[test]
fn sltu_and_slt_compare() {
    // ORI r1, r0, 2 ; ORI r2, r0, 3 ; SLTU r3, r1, r2 ; SLT r4, r2, r1
    let sltu = 0x0022182B;
    let slt = 0x0041202A;
    let mut cpu = machine(&[0x34010002, 0x34020003, sltu, slt]);
    run_instructions(&mut cpu, 4);
    assert_eq!(cpu.regs[3], 1);
    assert_eq!(cpu.regs[4], 0);
}

#[test]
fn divide_rounds_toward_zero() {
    // r1 = -7 (LUI 0xFFFF, ORI 0xFFF9); r2 = 2; DIV r1, r2; MFLO r3; MFHI r4
    let div = (1 << 21) | (2 << 16) | 0b011010;
    let mflo = (3 << 11) | 0b010010;
    let mfhi = (4 << 11) | 0b010000;
    let mut cpu = machine(&[0x3C01FFFF, 0x3421FFF9, 0x34020002, div, mflo, mfhi]);
    run_instructions(&mut cpu, 6);
    assert_eq!(cpu.regs[3] as i32, -3, "quotient rounds toward zero");
    assert_eq!(cpu.regs[4] as i32, -1, "remainder takes the dividend's sign");
}

#[test]
fn divide_by_zero_follows_mips_convention() {
    // r1 = 5; DIV r1, r0; MFLO r3; MFHI r4
    let div = (1 << 21) | (0 << 16) | 0b011010;
    let mflo = (3 << 11) | 0b010010;
    let mfhi = (4 << 11) | 0b010000;
    let mut cpu = machine(&[0x34010005, div, mflo, mfhi]);
    run_instructions(&mut cpu, 4);
    assert_eq!(cpu.regs[3], 0xFFFFFFFF);
    assert_eq!(cpu.regs[4], 5);
}

#[test]
fn store_to_bios_is_a_fault() {
    let mut cpu = machine(&[]);
    assert!(cpu.put(0xBFC00000, 1, AccessWidth::Word).is_err());
}

#[test]
fn mem_control_checks_magic_bases() {
    let mut cpu = machine(&[]);
    assert!(cpu.put(0x1F801000, 0x1F000000, AccessWidth::Word).is_ok());
    assert!(cpu.put(0x1F801000, 0x12345678, AccessWidth::Word).is_err());
    assert!(cpu.put(0x1F801004, 0x1F802000, AccessWidth::Word).is_ok());
    assert!(cpu.put(0x1F801004, 0, AccessWidth::Word).is_err());
}
