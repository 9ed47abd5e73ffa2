//! Whole-machine behaviour: unaligned word assembly, alignment
//! exceptions, interrupt delivery through the tick chain, and the GPU
//! soft reset.

use rps::addressible::AccessWidth;
use rps::bios::Bios;
use rps::cpu::Cpu;
use rps::gpu::{DrawCommand, Gpu};
use rps::interconnect::Interconnect;
use rps::ps::Ps;

fn machine(program: &[u32]) -> Cpu {
    let mut data = vec![0u8; 0x80000];
    for (i, word) in program.iter().enumerate() {
        data[i * 4..i * 4 + 4].copy_from_slice(&word.to_le_bytes());
    }
    let bios = Bios::new(data).unwrap();
    let inter = Interconnect::new(bios, Gpu::new(), None);
    Cpu::new(inter)
}

fn run_instructions(cpu: &mut Cpu, n: usize) {
    let mut executed = 0;
    let mut guard = 0;
    while executed < n {
        if cpu.step().unwrap().is_some() {
            executed += 1;
        }
        guard += 1;
        assert!(guard < 100000);
    }
}

#[test]
fn lwl_lwr_assemble_unaligned_word() {
    // Plant 0x44332211 at 0x100 and 0x88776655 at 0x104; read the
    // unaligned word at 0x102 into r2 via LWL/LWR.
    // ORI r1, r0, 0x102 ; LWL r2, 3(r1) ; LWR r2, 0(r1) ; NOP
    let lwl = 0x88000000u32 | (1 << 21) | (2 << 16) | 3;
    let lwr = 0x98000000u32 | (1 << 21) | (2 << 16);
    let mut cpu = machine(&[0x34010102, lwl, lwr, 0, 0]);
    cpu.put(0x100, 0x44332211, AccessWidth::Word).unwrap();
    cpu.put(0x104, 0x88776655, AccessWidth::Word).unwrap();
    run_instructions(&mut cpu, 5);
    assert_eq!(cpu.regs[2], 0x66554433);
}

#[test]
fn swl_swr_store_unaligned_word() {
    // r2 = 0xAABBCCDD stored unaligned at 0x102 via SWL/SWR.
    let swl = 0xA8000000u32 | (1 << 21) | (2 << 16) | 3;
    let swr = 0xB8000000u32 | (1 << 21) | (2 << 16);
    let mut cpu = machine(&[0x34010102, 0x3C02AABB, 0x3442CCDD, swl, swr, 0]);
    cpu.put(0x100, 0x44332211, AccessWidth::Word).unwrap();
    cpu.put(0x104, 0x88776655, AccessWidth::Word).unwrap();
    run_instructions(&mut cpu, 6);
    assert_eq!(cpu.examine(0x100, AccessWidth::Word).unwrap(), 0xCCDD2211);
    assert_eq!(cpu.examine(0x104, AccessWidth::Word).unwrap(), 0x8877AABB);
}

#[test]
fn misaligned_halfword_load_raises_exception() {
    // ORI r1, r0, 0x101 ; LH r2, 0(r1)
    let lh = 0x84000000u32 | (1 << 21) | (2 << 16);
    let mut cpu = machine(&[0x34010101, lh]);
    run_instructions(&mut cpu, 2);
    assert_eq!(cpu.cause & 0x7C, 0x4 << 2, "Load-Address carries code 4");
    assert_eq!(cpu.epc, 0xBFC00004);
    assert_eq!(cpu.pc, 0x80000080);
}

#[test]
fn misaligned_store_raises_store_address_error() {
    // ORI r1, r0, 0x102 ; SW r2, 0(r1)
    let sw = 0xAC000000u32 | (1 << 21) | (2 << 16);
    let mut cpu = machine(&[0x34010102, sw]);
    run_instructions(&mut cpu, 2);
    assert_eq!(cpu.cause & 0x7C, 0x5 << 2, "Store-Address carries code 5");
}

#[test]
fn syscall_enters_the_handler() {
    let mut cpu = machine(&[0x0000000C]);
    run_instructions(&mut cpu, 1);
    assert_eq!(cpu.cause & 0x7C, 0x8 << 2);
    assert_eq!(cpu.epc, 0xBFC00000);
    assert_eq!(cpu.pc, 0x80000080);
}

#[test]
fn interrupt_preempts_decode_after_tick() {
    // Enable the VBlank line in MASK and in SR, then raise the GPU's
    // vblank level: the next step must vector to the handler instead of
    // executing the instruction at PC.
    let mut cpu = machine(&[0x34080008, 0x34080008, 0x34080008, 0x34080008]);
    cpu.put(0x1F801074, 1, AccessWidth::Word).unwrap(); // MASK: VBlank
    cpu.sr = 1; // interrupts enabled
    cpu.inter.gpu.vblank = true;
    run_instructions(&mut cpu, 1);
    assert_eq!(cpu.pc, 0x80000080, "the step vectors to the handler");
    assert_eq!(cpu.cause & 0x7C, 0, "the Interrupt exception code is zero");
    assert_eq!((cpu.cause >> 10) & 1, 1, "the pending-IRQ bit survives the entry");
    assert_eq!(cpu.regs[8], 0xDEADBEEF, "the preempted instruction did not run");
}

#[test]
fn timer_line_reaches_the_aggregator() {
    // Timer 2, target 2, IRQ on target: after a few machine steps the
    // aggregator's STAT must latch the timer 2 line.
    let mut cpu = machine(&[0, 0, 0, 0, 0, 0, 0, 0]);
    cpu.put(0x1F801128, 2, AccessWidth::Word).unwrap(); // target
    cpu.put(0x1F801124, 1 << 4, AccessWidth::Word).unwrap(); // IRQ on target
    run_instructions(&mut cpu, 3);
    let stat = cpu.examine(0x1F801070, AccessWidth::Word).unwrap();
    assert_eq!((stat >> 6) & 1, 1, "the timer 2 line is latched in STAT");
}

#[test]
fn gpu_soft_reset_rearms_display_window() {
    let mut gpu = Gpu::new();
    gpu.gp1(0x0600_1234).unwrap();
    gpu.gp1(0x0000_0000).unwrap(); // soft reset
    assert_eq!(gpu.display_horiz_start, 0x200);
    assert_eq!(gpu.display_horiz_end, 0xC00);
    assert_eq!(gpu.display_line_start, 0x10);
    assert_eq!(gpu.display_line_end, 0x100);
    let cmds = gpu.take_draw_commands();
    assert_eq!(*cmds.last().unwrap(), DrawCommand::DrawOffset { x: 0, y: 0 });
}

#[test]
fn machine_assembles() {
    let bios = Bios::new(vec![0u8; 0x80000]).unwrap();
    let spare = Interconnect::new(Bios::new(vec![0u8; 0x80000]).unwrap(), Gpu::new(), None);
    let inter = Interconnect::new(bios, Gpu::new(), None);
    let cpu = Cpu::new(inter);
    let ps = Ps::new(cpu, spare);
    assert_eq!(ps.cpu.pc(), 0xBFC00000);
}

#[test]
fn exception_entry_preserves_software_interrupt_bits() {
    // Software-interrupt bits 9:8 written through MTC0 to CAUSE must
    // survive a SYSCALL's exception entry.
    let mut cpu = machine(&[0x0000000C]);
    cpu.cause = 0x300;
    run_instructions(&mut cpu, 1);
    assert_eq!(cpu.cause & 0x300, 0x300, "bits 9:8 are preserved");
    assert_eq!(cpu.cause & 0x7C, 0x8 << 2, "the code field is written");
}

#[test]
fn rfe_pops_mode_stack_keeping_its_top() {
    // SR mode bits 0x30 plus RFE: bits 3:0 take the old bits 5:2, and
    // bits 5:4 stay.
    let rfe = 0x40000000u32 | (0b10000 << 21) | 0b010000;
    let mut cpu = machine(&[rfe]);
    cpu.sr = 0x30;
    run_instructions(&mut cpu, 1);
    assert_eq!(cpu.sr & 0x3F, 0x3C, "the top of the stack is kept while popping");
}

#[test]
fn bxx_links_even_when_not_taken() {
    // BGEZAL r1, +1 with r1 negative: not taken, but r31 is linked.
    let mut cpu = machine(&[0x3C01FFFF, 0x0431FFFF, 0]);
    run_instructions(&mut cpu, 2);
    assert_eq!(cpu.regs[31], 0xBFC0000C, "the link register is written regardless");
}
