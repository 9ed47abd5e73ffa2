//! Host-fatal faults: each guest action the hardware could never see
//! ends in the matching fault instead of silent misbehaviour.

use rps::addressible::AccessWidth;
use rps::bios::Bios;
use rps::cdrom::CdRom;
use rps::cpu::Cpu;
use rps::fault::Fault;
use rps::gpu::Gpu;
use rps::gte::Gte;
use rps::instruction::RegisterIndex;
use rps::interconnect::Interconnect;
use rps::timer::Timer;

fn machine(program: &[u32]) -> Cpu {
    let mut data = vec![0u8; 0x80000];
    for (i, word) in program.iter().enumerate() {
        data[i * 4..i * 4 + 4].copy_from_slice(&word.to_le_bytes());
    }
    let bios = Bios::new(data).unwrap();
    let inter = Interconnect::new(bios, Gpu::new(), None);
    Cpu::new(inter)
}

fn run_to_fault(cpu: &mut Cpu) -> Fault {
    let mut guard = 0;
    loop {
        match cpu.step() {
            Ok(_) => {}
            Err(fault) => return fault,
        }
        guard += 1;
        assert!(guard < 100000, "no fault was raised");
    }
}

#[test]
fn irq_register_odd_offset_faults() {
    let mut cpu = machine(&[]);
    assert_eq!(
        cpu.examine(0x1F801071, AccessWidth::Byte),
        Err(Fault::UnhandledIrqRegister { offset: 1 })
    );
}

#[test]
fn dma_base_register_is_write_only() {
    let mut cpu = machine(&[]);
    assert_eq!(
        cpu.examine(0x1F8010E0, AccessWidth::Word),
        Err(Fault::UnhandledDmaRead { offset: 0x60 })
    );
    assert_eq!(
        cpu.put(0x1F8010EC, 0, AccessWidth::Word),
        Err(Fault::UnhandledDmaWrite { offset: 0x6C })
    );
}

#[test]
fn dma_sync_mode_three_faults() {
    let mut cpu = machine(&[]);
    assert_eq!(
        cpu.put(0x1F8010E8, 3 << 9, AccessWidth::Word),
        Err(Fault::UnknownDmaSyncMode)
    );
}

#[test]
fn dma_block_transfer_refuses_unserved_port() {
    let mut cpu = machine(&[]);
    // Channel 4 (SPU) started in manual sync towards RAM.
    cpu.put(0x1F8010C4, 1, AccessWidth::Word).unwrap();
    assert_eq!(
        cpu.put(0x1F8010C8, (1 << 24) | (1 << 28), AccessWidth::Word),
        Err(Fault::UnhandledDmaPort { port: 4 })
    );
}

#[test]
fn dma_linked_list_refuses_to_ram() {
    let mut cpu = machine(&[]);
    // GPU channel, linked-list sync, direction ToRam.
    assert_eq!(
        cpu.put(0x1F8010A8, (1 << 24) | (2 << 9), AccessWidth::Word),
        Err(Fault::DmaLinkedListToRam)
    );
}

#[test]
fn dma_linked_list_runs_a_terminated_list() {
    let mut cpu = machine(&[]);
    // One packet: header at 0x40 with one word and the end marker.
    cpu.put(0x40, 0x01800000 | 0x44, AccessWidth::Word).unwrap();
    cpu.put(0x44, 0xE1000000, AccessWidth::Word).unwrap(); // draw mode word
    cpu.put(0x1F8010A0, 0x40, AccessWidth::Word).unwrap();
    cpu.put(0x1F8010A8, (1 << 24) | (2 << 9) | 1, AccessWidth::Word).unwrap();
    // The transfer terminated: the channel's enable bit dropped.
    let control = cpu.examine(0x1F8010A8, AccessWidth::Word).unwrap();
    assert_eq!((control >> 24) & 1, 0);
}

#[test]
fn gp0_texture_depth_three_faults() {
    let mut gpu = Gpu::new();
    assert_eq!(
        gpu.gp0(0xE100_0000 | (3 << 7)),
        Err(Fault::UnhandledTextureDepth)
    );
}

#[test]
fn gp1_unknown_opcode_faults() {
    let mut gpu = Gpu::new();
    assert_eq!(
        gpu.gp1(0x4200_0000),
        Err(Fault::UnknownGp1Opcode { value: 0x4200_0000 })
    );
}

#[test]
fn timer_undecoded_offset_faults() {
    let t = Timer::new(0);
    assert_eq!(
        t.load(2, AccessWidth::Byte),
        Err(Fault::UnhandledTimerRegister { offset: 2 })
    );
    let mut t = Timer::new(1);
    assert_eq!(
        t.store(6, 0),
        Err(Fault::UnhandledTimerRegister { offset: 6 })
    );
}

#[test]
fn joypad_undecoded_offset_faults() {
    let mut cpu = machine(&[]);
    assert_eq!(
        cpu.examine(0x1F801042, AccessWidth::Byte),
        Err(Fault::UnhandledJoypadRegister { offset: 2 })
    );
}

#[test]
fn cdrom_data_fifo_without_disc_faults() {
    let mut cd = CdRom::new(None);
    cd.store(3, 0x80, AccessWidth::Byte).unwrap(); // arm data reading
    assert_eq!(
        cd.load(2, AccessWidth::Word),
        Err(Fault::DiscAccessOutOfRange)
    );
}

#[test]
fn cdrom_data_fifo_reads_disc_bytes() {
    let mut disc = vec![0u8; 0x1000];
    disc[0] = 0xAA;
    disc[1] = 0xBB;
    let mut cd = CdRom::new(Some(disc));
    cd.store(3, 0x80, AccessWidth::Byte).unwrap();
    assert_eq!(cd.load(2, AccessWidth::Byte).unwrap(), 0xAA);
    assert_eq!(cd.load(2, AccessWidth::Byte).unwrap(), 0xBB);
}

#[test]
fn cop0_reserved_register_write_faults() {
    // ORI r1, r0, 1 ; MTC0 r1, cop0r3 (a reserved register, non-zero)
    let mtc0 = 0x40000000u32 | (4 << 21) | (1 << 16) | (3 << 11);
    let mut cpu = machine(&[0x34010001, mtc0]);
    assert_eq!(
        run_to_fault(&mut cpu),
        Fault::UnhandledCop0Write { register: 3 }
    );
}

#[test]
fn cop0_transfer_opcodes_fault() {
    // CFC0 r1, cop0r0
    let cfc0 = 0x40000000u32 | (2 << 21) | (1 << 16);
    let mut cpu = machine(&[cfc0]);
    assert_eq!(run_to_fault(&mut cpu), Fault::UnsupportedCop0Transfer);
}

#[test]
fn malformed_rfe_faults() {
    // A COP0 word with the RFE opcode bits but the wrong function field.
    let bad_rfe = 0x40000000u32 | (0b10000 << 21) | 0b000001;
    let mut cpu = machine(&[bad_rfe]);
    assert_eq!(
        run_to_fault(&mut cpu),
        Fault::InvalidCop0Rfe { value: bad_rfe }
    );
}

#[test]
fn gte_command_faults() {
    let mut gte = Gte::new();
    assert_eq!(
        gte.command(0x123),
        Err(Fault::UnhandledGteInstruction { value: 0x123 })
    );
}

#[test]
fn gte_data_registers_round_trip() {
    let mut gte = Gte::new();
    gte.store_data(RegisterIndex(24), 0xDEADBEEF).unwrap();
    assert_eq!(gte.load_data(RegisterIndex(24)).unwrap(), 0xDEADBEEF);
    assert_eq!(gte.load_control(RegisterIndex(5)), 0);
    assert!(gte.store_data(RegisterIndex(3), 1).is_err());
}

#[test]
fn lwc2_and_swc2_fault() {
    let lwc2 = 0xC8000000u32;
    let mut cpu = machine(&[lwc2]);
    assert_eq!(run_to_fault(&mut cpu), Fault::UnhandledGteLwc { value: lwc2 });

    let swc2 = 0xE8000000u32;
    let mut cpu = machine(&[swc2]);
    assert_eq!(run_to_fault(&mut cpu), Fault::UnhandledGteSwc { value: swc2 });
}
