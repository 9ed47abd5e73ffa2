//! Device-level behaviour: the interrupt aggregator's edge trigger, the
//! timers, the joypad probe, the CD-ROM command scheduler, the GPU
//! command port and the DMA engine's OTC transfer.

use rps::addressible::AccessWidth;
use rps::bios::Bios;
use rps::cdrom::CdRom;
use rps::cpu::Cpu;
use rps::dma::{Channel, Dma};
use rps::gpu::{DrawCommand, Gpu};
use rps::interconnect::Interconnect;
use rps::interrupts::{Interrupts, Irq};
use rps::joypad::Joypad;
use rps::primitive::{Color, Position};
use rps::timer::Timer;

fn machine() -> Cpu {
    let bios = Bios::new(vec![0u8; 0x80000]).unwrap();
    let inter = Interconnect::new(bios, Gpu::new(), None);
    Cpu::new(inter)
}

#[test]
fn interrupt_latches_only_on_rising_edge() {
    let mut irq = Interrupts::new();

    irq.set(Irq::VBlank, true);
    assert_eq!(irq.stat, 1, "a rising edge latches the line");

    irq.store(0, 0, AccessWidth::Word).unwrap();
    assert_eq!(irq.stat, 0, "acknowledge clears it");

    irq.set(Irq::VBlank, true);
    assert_eq!(irq.stat, 0, "a held level must not latch again");

    irq.set(Irq::VBlank, false);
    irq.set(Irq::VBlank, true);
    assert_eq!(irq.stat, 1, "a fresh edge latches again");
}

#[test]
fn interrupt_check_needs_mask() {
    let mut irq = Interrupts::new();
    irq.set(Irq::CdRom, true);
    assert!(!irq.check(), "an unmasked line must not assert");
    irq.store(4, 1 << 2, AccessWidth::Word).unwrap();
    assert!(irq.check(), "masked-in pending line asserts");
}

#[test]
fn interrupt_ack_keeps_written_ones() {
    let mut irq = Interrupts::new();
    irq.set(Irq::VBlank, true);
    irq.set(Irq::CdRom, true);
    assert_eq!(irq.stat, 0b101);
    irq.store(0, 0b100, AccessWidth::Word).unwrap();
    assert_eq!(irq.stat, 0b100, "STAT keeps only the bits written as one");
}

#[test]
fn timer_counts_and_resets_on_target() {
    let mut t = Timer::new(2);
    t.store(8, 3).unwrap(); // target
    t.store(4, (1 << 3) | (1 << 4)).unwrap(); // use-target, IRQ on target
    for _ in 0..3 {
        t.tick(false, false, false);
    }
    assert_eq!(t.counter, 0, "the counter resets when it reaches the target");
    assert!(!t.n_irq, "the IRQ line is driven low on the target pulse");
}

#[test]
fn timer_mode_reports_fields() {
    let mut t = Timer::new(0);
    t.store(4, 0b11 << 8).unwrap();
    let mode = t.load(4, AccessWidth::Word).unwrap();
    assert_eq!((mode >> 8) & 0b11, 0b11, "the clock source reads back");
    assert_eq!((mode >> 10) & 1, 0, "the written IRQ-line bit reads back");
}

#[test]
fn timer_sync_pause_mode_freezes() {
    let mut t = Timer::new(0);
    t.store(4, 1).unwrap(); // sync enable, mode 0: pause while hblank
    t.tick(true, false, false);
    assert_eq!(t.counter, 0, "paused while the blank is up");
    t.tick(false, false, false);
    assert_eq!(t.counter, 1, "counts while the blank is down");
}

#[test]
fn joypad_probe_answers_unconnected() {
    let mut pad = Joypad::new();
    pad.store(0, 0x01).unwrap();
    let stat = pad.load(4, AccessWidth::Word).unwrap();
    assert_eq!(stat & 1, 0, "TX holds a byte before the tick");
    pad.tick();
    let stat = pad.load(4, AccessWidth::Word).unwrap();
    assert_eq!(stat & 0b11, 0b11, "after the tick TX is empty and RX holds the reply");
    let reply = pad.load(0, AccessWidth::Byte).unwrap();
    assert_eq!(reply, 0, "an unconnected controller answers zero");
}

#[test]
fn joypad_target_select_follows_bit_13() {
    let mut pad = Joypad::new();
    // Select plus target-select: bit 13 must land in the target flag.
    pad.store(10, (1 << 1) | (1 << 13)).unwrap();
    let ctrl = pad.load(10, AccessWidth::Halfword).unwrap();
    assert_eq!((ctrl >> 13) & 1, 1, "the target flag reads back on bit 13");
    assert_eq!((ctrl >> 1) & 1, 1, "the select flag reads back on bit 1");
}

#[test]
fn joypad_empty_rx_reads_zero() {
    let mut pad = Joypad::new();
    assert_eq!(pad.load(0, AccessWidth::Byte).unwrap(), 0);
}

#[test]
fn cdrom_stat_with_disc_shows_activity() {
    let mut cd = CdRom::new(Some(vec![0u8; 0x1000]));
    cd.store(1, 0x01, AccessWidth::Byte).unwrap(); // GetStat
    for _ in 0..50001 {
        cd.tick();
    }
    let stat = cd.load(1, AccessWidth::Byte).unwrap();
    assert_eq!(stat, 0x02, "a present, idle disc reads motor-on idle");
}

#[test]
fn cdrom_get_stat_without_disc() {
    let mut cd = CdRom::new(None);
    cd.store(1, 0x01, AccessWidth::Byte).unwrap(); // GetStat at index 0
    for _ in 0..50001 {
        cd.tick();
    }
    assert_eq!(cd.irq & 0x7, 3, "the first acknowledge raises cause 3");
    let stat = cd.load(1, AccessWidth::Byte).unwrap();
    assert_eq!(stat, 0x10, "no disc reads as shell-open");
}

#[test]
fn cdrom_test_version_bytes() {
    let mut cd = CdRom::new(None);
    cd.store(2, 0x20, AccessWidth::Byte).unwrap(); // parameter
    cd.store(1, 0x19, AccessWidth::Byte).unwrap(); // Test
    for _ in 0..50001 {
        cd.tick();
    }
    assert_eq!(cd.load(1, AccessWidth::Byte).unwrap(), 0x96);
    assert_eq!(cd.load(1, AccessWidth::Byte).unwrap(), 0x09);
    assert_eq!(cd.load(1, AccessWidth::Byte).unwrap(), 0x12);
    assert_eq!(cd.load(1, AccessWidth::Byte).unwrap(), 0xC2);
}

#[test]
fn cdrom_get_id_without_disc_denies() {
    let mut cd = CdRom::new(None);
    cd.store(1, 0x1A, AccessWidth::Byte).unwrap();
    for _ in 0..100002 {
        cd.tick();
    }
    assert_eq!(cd.irq & 0x7, 5, "the second phase raises the error cause");
    // Skip the first-phase stat byte, then the deny header.
    let _ = cd.load(1, AccessWidth::Byte).unwrap();
    assert_eq!(cd.load(1, AccessWidth::Byte).unwrap(), 0x08);
    assert_eq!(cd.load(1, AccessWidth::Byte).unwrap(), 0x40);
}

#[test]
fn cdrom_set_loc_needs_three_parameters() {
    let mut cd = CdRom::new(None);
    assert!(cd.store(1, 0x02, AccessWidth::Byte).is_err());
    cd.store(2, 0, AccessWidth::Byte).unwrap();
    cd.store(2, 2, AccessWidth::Byte).unwrap();
    cd.store(2, 16, AccessWidth::Byte).unwrap();
    assert!(cd.store(1, 0x02, AccessWidth::Byte).is_ok());
}

#[test]
fn cdrom_index_selects_banks() {
    let mut cd = CdRom::new(None);
    cd.store(0, 1, AccessWidth::Byte).unwrap(); // index 1
    cd.store(2, 0x1F, AccessWidth::Byte).unwrap(); // interrupt enable
    let ie = cd.load(3, AccessWidth::Byte).unwrap();
    // Bank 1 offset 3 reads the interrupt flag, not the enable.
    assert_eq!(ie, 0);
    cd.store(0, 0, AccessWidth::Byte).unwrap();
    let status = cd.load(0, AccessWidth::Byte).unwrap();
    assert_eq!(status & 0b11, 0, "the status byte carries the index");
    assert_eq!((status >> 3) & 1, 1, "the parameter FIFO is empty");
}

#[test]
fn gpu_drawing_offset_reaches_the_sink() {
    let mut gpu = Gpu::new();
    // GP0(0xE5) with x = -1 (0x7FF) and y = 2.
    gpu.gp0(0xE500_0000 | (2 << 11) | 0x7FF).unwrap();
    let cmds = gpu.take_draw_commands();
    assert_eq!(cmds.len(), 1);
    assert_eq!(cmds[0], DrawCommand::DrawOffset { x: -1, y: 2 });
}

#[test]
fn gpu_quad_mono_collects_five_words() {
    let mut gpu = Gpu::new();
    gpu.gp0(0x2800_00FF).unwrap(); // red quad
    gpu.gp0(0x0001_0002).unwrap();
    gpu.gp0(0x0001_0012).unwrap();
    gpu.gp0(0x0011_0002).unwrap();
    gpu.gp0(0x0011_0012).unwrap();
    let cmds = gpu.take_draw_commands();
    assert_eq!(cmds.len(), 1, "the handler fires once the length is reached");
    match cmds[0] {
        DrawCommand::Quad { p0, c0, .. } => {
            assert_eq!(p0, Position(2, 1));
            assert_eq!(c0, Color(0xFF, 0, 0));
        }
        _ => panic!("expected a quad"),
    }
}

#[test]
fn gpu_unknown_gp0_opcode_is_a_fault() {
    let mut gpu = Gpu::new();
    assert!(gpu.gp0(0x5A00_0000).is_err());
}

#[test]
fn gpu_status_carries_ready_bits_and_direction() {
    let mut gpu = Gpu::new();
    let status = gpu.status();
    assert_eq!((status >> 26) & 0b111, 0b111, "the three ready bits read as set");
    assert_eq!((status >> 29) & 0b11, 0, "DMA direction starts off");
    gpu.gp1(0x0400_0002).unwrap(); // direction CpuToGp0
    let status = gpu.status();
    assert_eq!((status >> 29) & 0b11, 2);
    assert_eq!((status >> 25) & 1, 1, "the request bit follows bit 28");
}

#[test]
fn gpu_display_mode_sets_fields() {
    let mut gpu = Gpu::new();
    gpu.gp1(0x0800_0001).unwrap(); // hr1 = 1
    let status = gpu.status();
    assert_eq!((status >> 16) & 0b111, 0b010, "hr1 lands in bits 18:17");
    assert!(gpu.gp1(0x0800_0080).is_err(), "the reserved mode bit faults");
}

#[test]
fn gpu_image_load_drains_words() {
    let mut gpu = Gpu::new();
    gpu.gp0(0xA000_0000).unwrap();
    gpu.gp0(0).unwrap(); // destination
    gpu.gp0(0x0001_0002).unwrap(); // 2 x 1 halfwords -> one word
    gpu.gp0(0x1234_5678).unwrap(); // image word, swallowed
    // The port is back in command mode: a state command works again.
    gpu.gp0(0xE600_0003).unwrap();
    assert!(gpu.force_set_mask_bit);
    assert!(gpu.preserve_masked_pixels);
}

#[test]
fn dma_register_window_round_trips() {
    let mut cpu = machine();
    cpu.put(0x1F8010E0, 0x123456, AccessWidth::Word).unwrap(); // channel 6 base
    cpu.put(0x1F8010F0, 0xDEAD, AccessWidth::Word).unwrap(); // control word
    let control = cpu.examine(0x1F8010F0, AccessWidth::Word).unwrap();
    assert_eq!(control, 0xDEAD);
    let interrupt = cpu.examine(0x1F8010F4, AccessWidth::Word).unwrap();
    assert_eq!(interrupt, 0);
}

#[test]
fn dma_window_is_word_only() {
    let mut cpu = machine();
    assert!(cpu.put(0x1F8010F0, 1, AccessWidth::Byte).is_err());
    assert!(cpu.examine(0x1F8010F0, AccessWidth::Halfword).is_err());
}

#[test]
fn dma_otc_writes_reversed_list_skeleton() {
    let mut cpu = machine();
    cpu.put(0x1F8010E0, 0x10, AccessWidth::Word).unwrap(); // base
    cpu.put(0x1F8010E4, 4, AccessWidth::Word).unwrap(); // block size
    // Manual sync, enable and trigger; increment step.
    cpu.put(0x1F8010E8, (1 << 24) | (1 << 28), AccessWidth::Word).unwrap();

    assert_eq!(cpu.examine(0x10, AccessWidth::Word).unwrap(), 0x00000C);
    assert_eq!(cpu.examine(0x14, AccessWidth::Word).unwrap(), 0x000010);
    assert_eq!(cpu.examine(0x18, AccessWidth::Word).unwrap(), 0x000014);
    assert_eq!(cpu.examine(0x1C, AccessWidth::Word).unwrap(), 0xFFFFFF);

    // The transfer is complete: enable and trigger are clear again.
    let control = cpu.examine(0x1F8010E8, AccessWidth::Word).unwrap();
    assert_eq!((control >> 24) & 1, 0);
    assert_eq!((control >> 28) & 1, 0);
}

#[test]
fn dma_otc_decrementing_transfer() {
    let mut cpu = machine();
    cpu.put(0x1F8010E0, 0x20, AccessWidth::Word).unwrap();
    cpu.put(0x1F8010E4, 3, AccessWidth::Word).unwrap();
    // Manual sync, decrement step, enable and trigger.
    cpu.put(0x1F8010E8, (1 << 24) | (1 << 28) | 2, AccessWidth::Word).unwrap();

    assert_eq!(cpu.examine(0x20, AccessWidth::Word).unwrap(), 0x00001C);
    assert_eq!(cpu.examine(0x1C, AccessWidth::Word).unwrap(), 0x000018);
    assert_eq!(cpu.examine(0x18, AccessWidth::Word).unwrap(), 0xFFFFFF);
}

#[test]
fn dma_channel_control_encodes_fields() {
    let mut ch = Channel::new();
    assert!(!ch.active());
    ch.set_control((1 << 24) | (1 << 28) | 1 | 2 | (1 << 9)).unwrap();
    assert!(ch.active(), "enabled with request sync needs no trigger");
    let word = ch.control();
    assert_eq!(word & 1, 1);
    assert_eq!((word >> 1) & 1, 1);
    assert_eq!((word >> 9) & 3, 1);
    assert_eq!((word >> 24) & 1, 1);
    assert!(ch.set_control(3 << 9).is_err(), "sync mode 3 is refused");
}

#[test]
fn dma_interrupt_register_acknowledges_by_ones() {
    let mut dma = Dma::new();
    assert_eq!(dma.control(), 0x07654321, "the reset control word");
    dma.set_interrupt((1 << 23) | (0x7F << 16) | (1 << 15));
    let word = dma.interrupt();
    assert_eq!((word >> 15) & 1, 1, "forced IRQ reads back");
    assert_eq!((word >> 31) & 1, 1, "forcing asserts the master line");
    assert!(dma.check_irq());
}

#[test]
fn unmapped_addresses_read_zero() {
    let mut cpu = machine();
    assert_eq!(cpu.examine(0x1F000000, AccessWidth::Word).unwrap(), 0);
    assert_eq!(cpu.examine(0x1F801060, AccessWidth::Word).unwrap(), 0);
    assert_eq!(cpu.examine(0xFFFE0130, AccessWidth::Word).unwrap(), 0);
    assert_eq!(cpu.examine(0x1F801C00, AccessWidth::Word).unwrap(), 0);
}

#[test]
fn mem_control_constants_read_back() {
    let mut cpu = machine();
    assert_eq!(cpu.examine(0x1F801000, AccessWidth::Word).unwrap(), 0x1F000000);
    assert_eq!(cpu.examine(0x1F801004, AccessWidth::Word).unwrap(), 0x1F800200);
}
