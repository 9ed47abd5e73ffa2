//! Interconnect: applies the segment mask, decodes the physical address
//! into a memory region or device register window, and delegates the
//! access.  It owns every device, drives their ticks, samples the
//! interrupt aggregator, and runs the DMA engine against RAM and the
//! device ports.

use vstd::prelude::*;

use crate::addressible::{load_le, store_le, trunc, trunc_width, width_len, AccessWidth};
use crate::bios::{Bios, BIOS_SIZE};
use crate::cdrom::{cd_tick_spec, CdRom};
use crate::dma::{channel_active, channel_done_spec, channel_reg_write_spec, port_index, Channel, Direction, Dma, Port, Step, Sync};
use crate::fault::Fault;
use crate::gpu::Gpu;
use crate::interrupts::{irq_set_spec, Interrupts, Irq};
use crate::joypad::Joypad;
use crate::ram::{Ram, RAM_SIZE};
use crate::scratchpad::{ScratchPad, SCRATCHPAD_SIZE};
use crate::timer::{timer_tick_spec, Timer};

verus! {

/// A physical address range: start and length.
#[derive(Clone, Copy, Debug, PartialEq, Eq, Structural)]
pub struct Range(pub u32, pub u32);

impl Range {
    /// The offset of `addr` into this range, when it lies inside.
    pub fn contains(self, addr: u32) -> (r: Option<u32>)
        ensures
            (self.0 <= addr && addr < self.0 + self.1) <==> r == Some::<u32>(
                (addr - self.0) as u32,
            ),
            !(self.0 <= addr && addr < self.0 + self.1) <==> r is None,
    {
        let Range(start, length) = self;

        if start <= addr && addr - start < length {
            Some(addr - start)
        } else {
            None
        }
    }
}

/// The per-segment mask keyed on address bits 31:29: KUSEG and KSEG2 are
/// identity, KSEG0 drops bit 31, KSEG1 drops bits 31:29.
pub open spec fn segment_mask(top: u32) -> u32 {
    if top == 4 {
        0x7FFFFFFFu32
    } else if top == 5 {
        0x1FFFFFFFu32
    } else {
        0xFFFFFFFFu32
    }
}

/// The physical address of `addr`: masked by its segment, which depends
/// only on bits 31:29.
pub open spec fn mask_region_spec(addr: u32) -> u32 {
    addr & segment_mask(addr >> 29)
}

/// Translates a virtual address to its physical address.
pub fn mask_region(addr: u32) -> (r: u32)
    ensures
        r == mask_region_spec(addr),
{
    let top = addr >> 29;

    if top == 4 {
        addr & 0x7FFFFFFF
    } else if top == 5 {
        addr & 0x1FFFFFFF
    } else {
        proof {
            let a = addr;
            assert(a & 0xFFFFFFFFu32 == a) by (bit_vector);
        }
        addr
    }
}

/// The segment mask depends only on address bits 31:29: two addresses
/// that agree there are masked by the same word, and the mask matches
/// the segment table.
pub proof fn lemma_mask_depends_on_top_bits(a: u32, b: u32)
    requires
        a >> 29 == b >> 29,
    ensures
        mask_region_spec(a) == a & segment_mask(a >> 29),
        mask_region_spec(b) == b & segment_mask(a >> 29),
        a >> 29 < 4 ==> mask_region_spec(a) == a,
        a >> 29 == 4 ==> mask_region_spec(a) == a & 0x7FFFFFFF,
        a >> 29 == 5 ==> mask_region_spec(a) == a & 0x1FFFFFFF,
        a >> 29 >= 6 ==> mask_region_spec(a) == a,
{
    assert(a >> 29 < 4 ==> a & 0xFFFFFFFFu32 == a) by (bit_vector);
    assert(b >> 29 < 4 ==> b & 0xFFFFFFFFu32 == b) by (bit_vector);
    assert(a >> 29 >= 6 ==> a & 0xFFFFFFFFu32 == a) by (bit_vector);
    assert(b >> 29 >= 6 ==> b & 0xFFFFFFFFu32 == b) by (bit_vector);
}


/// Whether physical address `a` lies in the range starting at `start`
/// of `len` bytes.
pub open spec fn in_rg(a: u32, start: u32, len: u32) -> bool {
    start <= a < start + len
}

/// The value a load of width `w` at masked address `a` returns, for the
/// regions that answer without changing any state: the three memories,
/// the constant and ignored windows, the interrupt, timer, DMA and GPU
/// registers.  `None` for the CD-ROM (whose reads pop FIFOs), the joypad
/// (likewise), and for accesses those regions refuse.
pub open spec fn mem_value(s: Interconnect, a: u32, w: AccessWidth) -> Option<u32> {
    if in_rg(a, 0x1F000000, 256) {
        Some(0u32)
    } else if in_rg(a, 0, 0x200000) {
        if a + width_len(w) <= 0x200000 {
            Some(load_le(s.ram@, a as int, w))
        } else {
            None
        }
    } else if in_rg(a, 0x1F800000, 0x400) {
        if a - 0x1F800000 + width_len(w) <= 0x400 {
            Some(load_le(s.scratchpad@, a - 0x1F800000, w))
        } else {
            None
        }
    } else if in_rg(a, 0x1FC00000, 0x80000) {
        if a - 0x1FC00000 + width_len(w) <= 0x80000 {
            Some(load_le(s.bios@, a - 0x1FC00000, w))
        } else {
            None
        }
    } else if in_rg(a, 0x1F801000, 36) {
        if a == 0x1F801000 {
            Some(trunc_width(0x1F000000, w))
        } else if a == 0x1F801004 {
            Some(trunc_width(0x1F800200, w))
        } else {
            Some(0u32)
        }
    } else if in_rg(a, 0x1F801060, 4) {
        Some(0u32)
    } else if in_rg(a, 0xFFFE0130, 4) {
        Some(0u32)
    } else if in_rg(a, 0x1F801070, 8) {
        if a == 0x1F801070 {
            Some(trunc_width(s.interrupts.stat, w))
        } else if a == 0x1F801074 {
            Some(trunc_width(s.interrupts.mask, w))
        } else {
            None
        }
    } else if in_rg(a, 0x1F801080, 0x80) {
        if w is Word {
            dma_reg_value(s.dma, (a - 0x1F801080) as u32)
        } else {
            None
        }
    } else if in_rg(a, 0x1F801810, 16) {
        if a == 0x1F801810 {
            Some(0u32)
        } else if a == 0x1F801814 {
            Some(trunc_width(crate::gpu::gpu_status(s.gpu), w))
        } else {
            Some(0u32)
        }
    } else if in_rg(a, 0x1F801100, 12) {
        timer_reg_value(s.timers@[0], (a - 0x1F801100) as u32, w)
    } else if in_rg(a, 0x1F801110, 12) {
        timer_reg_value(s.timers@[1], (a - 0x1F801110) as u32, w)
    } else if in_rg(a, 0x1F801120, 12) {
        timer_reg_value(s.timers@[2], (a - 0x1F801120) as u32, w)
    } else if in_rg(a, 0x1F801050, 16) {
        Some(0u32)
    } else if in_rg(a, 0x1F802000, 66) {
        Some(0u32)
    } else if in_rg(a, 0x1FA00000, 0x200000) {
        Some(0u32)
    } else if in_rg(a, 0x1F801040, 16) || in_rg(a, 0x1F801800, 4) || in_rg(
        a,
        0x1F801C00,
        640,
    ) {
        None
    } else {
        Some(0u32)
    }
}

/// The readable DMA registers: a channel's control word, the shared
/// control word and the interrupt register.
pub open spec fn dma_reg_value(d: Dma, offset: u32) -> Option<u32> {
    let major = (offset & 0x70) >> 4;
    let minor = offset & 0x0F;
    if major <= 6 {
        if minor == 8 {
            Some(crate::dma::channel_control_word(d.channels@[major as int]))
        } else {
            None
        }
    } else {
        if minor == 0 {
            Some(d.control)
        } else if minor == 4 {
            Some(crate::dma::dma_interrupt_word(d))
        } else {
            None
        }
    }
}

/// The three timer registers.
pub open spec fn timer_reg_value(t: Timer, offset: u32, w: AccessWidth) -> Option<u32> {
    if offset == 0 {
        Some(trunc_width(t.counter as u32, w))
    } else if offset == 4 {
        Some(trunc_width(crate::timer::timer_mode(t), w))
    } else if offset == 8 {
        Some(trunc_width(t.target as u32, w))
    } else {
        None
    }
}

pub struct Interconnect {
    pub bios: Bios,
    pub scratchpad: ScratchPad,
    pub ram: Ram,
    pub dma: Dma,
    pub gpu: Gpu,
    pub cdrom: CdRom,
    pub joypad: Joypad,
    pub timers: Vec<Timer>,
    pub interrupts: Interrupts,
}

impl Interconnect {
    pub open spec fn wf(&self) -> bool {
        &&& self.bios.wf()
        &&& self.ram.wf()
        &&& self.scratchpad.wf()
        &&& self.dma.wf()
        &&& self.gpu.wf()
        &&& self.cdrom.wf()
        &&& self.timers@.len() == 3
    }

    pub fn new(bios: Bios, gpu: Gpu, rom: Option<Vec<u8>>) -> (r: Interconnect)
        requires
            bios.wf(),
            gpu.wf(),
        ensures
            r.wf(),
            r.bios == bios,
            r.gpu == gpu,
            forall|i: int| 0 <= i < RAM_SIZE ==> r.ram@[i] == 0xCAu8,
            forall|i: int| 0 <= i < SCRATCHPAD_SIZE ==> r.scratchpad@[i] == 0xCAu8,
            r.interrupts.stat == 0 && r.interrupts.mask == 0 && r.interrupts.prev_pulse == 0,
            r.dma.control == 0x07654321 && !r.dma.irq_en && r.dma.channel_irq_en == 0
                && r.dma.channel_irq_flags == 0 && !r.dma.force_irq && r.dma.irq_dummy == 0,
            forall|i: int| 0 <= i < 7 ==> r.dma.channels@[i] == crate::dma::channel_init(),
            r.cdrom@.disc == (match rom {
                Some(d) => Some::<Seq<u8>>(d@),
                None => None::<Seq<u8>>,
            }),
            r.cdrom@.index == 0 && r.cdrom@.params.len() == 0 && r.cdrom@.response.len() == 0
                && r.cdrom@.status == crate::cdrom::CdRomStatus::Idle && r.cdrom@.ie == 0
                && r.cdrom@.irq == 0 && r.cdrom@.tasks.len() == 0 && !r.cdrom@.read_active
                && r.cdrom@.read_index == 0,
            !r.joypad.select && r.joypad.tx_enabled && r.joypad.tx@.len() == 0
                && r.joypad.rx@.len() == 0 && !r.joypad.irq && r.joypad.baud_rate == 0
                && r.joypad.mode == 0,
            forall|i: int|
                0 <= i < 3 ==> r.timers@[i] == (crate::timer::Timer {
                    index: i as u8,
                    counter: 0,
                    internal_counter: 0,
                    sync_enable: false,
                    sync_mode: 0,
                    use_target: false,
                    irq_target: false,
                    irq_full: false,
                    irq_repeat: false,
                    irq_toggle: false,
                    clock_source: 0,
                    n_irq: true,
                    raised: false,
                    released: false,
                    prev_hblank: false,
                    prev_vblank: false,
                    target: 0,
                }),
    {
        let mut timers: Vec<Timer> = Vec::new();
        timers.push(Timer::new(0));
        timers.push(Timer::new(1));
        timers.push(Timer::new(2));

        Interconnect {
            bios,
            scratchpad: ScratchPad::new(),
            ram: Ram::new(),
            dma: Dma::new(),
            gpu,
            cdrom: CdRom::new(rom),
            joypad: Joypad::new(),
            timers,
            interrupts: Interrupts::new(),
        }
    }


    /// Dispatches a load over the physical map.  Loads of the memories,
    /// the constant windows and the plain registers leave every device
    /// unchanged and return `mem_value`; CD-ROM and joypad reads go to
    /// those devices, whose FIFOs they may pop; an unmatched address
    /// reads zero.
    pub fn load(&mut self, abs_addr: u32, w: AccessWidth) -> (r: Result<u32, Fault>)
        requires
            old(self).wf(),
        ensures
            final(self).wf(),
            final(self).bios == old(self).bios,
            final(self).ram == old(self).ram,
            final(self).scratchpad == old(self).scratchpad,
            final(self).dma == old(self).dma,
            final(self).gpu == old(self).gpu,
            final(self).timers == old(self).timers,
            final(self).interrupts == old(self).interrupts,
            mem_value(*old(self), mask_region_spec(abs_addr), w) is Some ==> r == Ok::<
                u32,
                Fault,
            >(mem_value(*old(self), mask_region_spec(abs_addr), w)->0) && *final(self) == *old(
                self,
            ),
            !in_rg(mask_region_spec(abs_addr), 0x1F801040, 16) ==> final(self).joypad == old(
                self,
            ).joypad,
            !in_rg(mask_region_spec(abs_addr), 0x1F801800, 4) ==> final(self).cdrom == old(
                self,
            ).cdrom,
            in_rg(mask_region_spec(abs_addr), 0x1F801800, 4) ==> *final(self) == (Interconnect {
                cdrom: final(self).cdrom,
                ..*old(self)
            }) && final(self).cdrom.wf() && CdRom::load_post(
                old(self).cdrom@,
                final(self).cdrom@,
                (mask_region_spec(abs_addr) - 0x1F801800) as u32,
                w,
                r,
            ),
            in_rg(mask_region_spec(abs_addr), 0x1F801040, 16) ==> *final(self) == (Interconnect {
                joypad: final(self).joypad,
                ..*old(self)
            }) && crate::joypad::joypad_load_post(
                old(self).joypad,
                final(self).joypad,
                (mask_region_spec(abs_addr) - 0x1F801040) as u32,
                w,
                r,
            ),
    {
        let addr = mask_region(abs_addr);

        if let Some(_) = Range(0x1F000000, 256).contains(addr) {
            return Ok(0);
        }

        if let Some(offset) = Range(0, 0x200000).contains(addr) {
            if offset > 0x200000 - w.len() as u32 {
                return Err(Fault::RegionOverrun { offset });
            }
            return Ok(self.ram.load(offset, w));
        }

        if let Some(offset) = Range(0x1F800000, 0x400).contains(addr) {
            if offset > 0x400 - w.len() as u32 {
                return Err(Fault::RegionOverrun { offset });
            }
            return Ok(self.scratchpad.load(offset, w));
        }

        if let Some(offset) = Range(0x1FC00000, 0x80000).contains(addr) {
            if offset > 0x80000 - w.len() as u32 {
                return Err(Fault::RegionOverrun { offset });
            }
            return Ok(self.bios.load(offset, w));
        }

        if let Some(offset) = Range(0x1F801000, 36).contains(addr) {
            return match offset {
                0 => Ok(trunc(0x1F000000, w)),
                4 => Ok(trunc(0x1F800200, w)),
                _ => Ok(0),
            };
        }

        if let Some(_) = Range(0x1F801060, 4).contains(addr) {
            return Ok(0);
        }

        if let Some(_) = Range(0xFFFE0130, 4).contains(addr) {
            return Ok(0);
        }

        if let Some(offset) = Range(0x1F801070, 8).contains(addr) {
            return self.interrupts.load(offset, w);
        }

        if let Some(offset) = Range(0x1F801080, 0x80).contains(addr) {
            return self.dma_reg(offset, w);
        }

        if let Some(offset) = Range(0x1F801810, 16).contains(addr) {
            return match offset {
                0 => Ok(self.gpu.read()),
                4 => Ok(trunc(self.gpu.status(), w)),
                _ => Ok(0),
            };
        }

        if let Some(offset) = Range(0x1F801800, 4).contains(addr) {
            return self.cdrom.load(offset, w);
        }

        if let Some(offset) = Range(0x1F801100, 12).contains(addr) {
            let t = &self.timers[0];
            return t.load(offset, w);
        }

        if let Some(offset) = Range(0x1F801110, 12).contains(addr) {
            let t = &self.timers[1];
            return t.load(offset, w);
        }

        if let Some(offset) = Range(0x1F801120, 12).contains(addr) {
            let t = &self.timers[2];
            return t.load(offset, w);
        }

        if let Some(offset) = Range(0x1F801040, 16).contains(addr) {
            return self.joypad.load(offset, w);
        }

        if let Some(_) = Range(0x1F801050, 16).contains(addr) {
            return Ok(0);
        }

        if let Some(_) = Range(0x1F802000, 66).contains(addr) {
            return Ok(0);
        }

        if let Some(_) = Range(0x1FA00000, 0x200000).contains(addr) {
            return Ok(0);
        }

        if let Some(_) = Range(0x1F801C00, 640).contains(addr) {
            return Ok(0);
        }

        Ok(0)
    }

    /// Reads a DMA register; the window is word-only.
    fn dma_reg(&self, offset: u32, w: AccessWidth) -> (r: Result<u32, Fault>)
        requires
            self.wf(),
            offset < 0x80,
        ensures
            !(w is Word) ==> r == Err::<u32, Fault>(Fault::UnhandledDmaWidth),
            w is Word && dma_reg_value(self.dma, offset) is Some ==> r == Ok::<u32, Fault>(
                dma_reg_value(self.dma, offset)->0,
            ),
            w is Word && dma_reg_value(self.dma, offset) is None ==> r == Err::<u32, Fault>(
                Fault::UnhandledDmaRead { offset },
            ),
    {
        match w {
            AccessWidth::Word => {},
            _ => {
                return Err(Fault::UnhandledDmaWidth);
            },
        }

        let major = (offset & 0x70) >> 4;
        let minor = offset & 0x0F;

        proof {
            let o = offset;
            assert((o & 0x70) >> 4 < 8) by (bit_vector);
        }

        if major <= 6 {
            let channel = self.dma.channel(Port::from_index(major));
            match minor {
                8 => Ok(channel.control()),
                _ => Err(Fault::UnhandledDmaRead { offset }),
            }
        } else {
            match minor {
                0 => Ok(self.dma.control()),
                4 => Ok(self.dma.interrupt()),
                _ => Err(Fault::UnhandledDmaRead { offset }),
            }
        }
    }


    /// Dispatches a store over the physical map.  RAM and scratchpad
    /// stores write the little-endian bytes; a store into the BIOS range
    /// or a MemControl write with the wrong base is a host-fatal fault;
    /// ignored windows drop the value; device stores go to their device.
    pub fn store(&mut self, abs_addr: u32, val: u32, w: AccessWidth) -> (r: Result<(), Fault>)
        requires
            old(self).wf(),
        ensures
            final(self).wf(),
            final(self).bios == old(self).bios,
            in_rg(mask_region_spec(abs_addr), 0, 0x200000) ==> {
                let a = mask_region_spec(abs_addr);
                &&& (a + width_len(w) <= 0x200000 ==> r is Ok && *final(self) == (Interconnect {
                    ram: final(self).ram,
                    ..*old(self)
                }) && final(self).ram@ == store_le(old(self).ram@, a as int, val, w))
                &&& (a + width_len(w) > 0x200000 ==> r is Err && *final(self) == *old(self))
            },
            in_rg(mask_region_spec(abs_addr), 0x1F800000, 0x400) ==> {
                let o = mask_region_spec(abs_addr) - 0x1F800000;
                &&& (o + width_len(w) <= 0x400 ==> r is Ok && *final(self) == (Interconnect {
                    scratchpad: final(self).scratchpad,
                    ..*old(self)
                }) && final(self).scratchpad@ == store_le(old(self).scratchpad@, o, val, w))
                &&& (o + width_len(w) > 0x400 ==> r is Err && *final(self) == *old(self))
            },
            in_rg(mask_region_spec(abs_addr), 0x1FC00000, 0x80000) ==> r == Err::<(), Fault>(
                Fault::BiosStore { offset: (mask_region_spec(abs_addr) - 0x1FC00000) as u32 },
            ) && *final(self) == *old(self),
            in_rg(mask_region_spec(abs_addr), 0x1F801000, 36) ==> {
                let a = mask_region_spec(abs_addr);
                &&& (a == 0x1F801000 && val != 0x1F000000 ==> r == Err::<(), Fault>(
                    Fault::BadExpansion1Base { value: val },
                ) && *final(self) == *old(self))
                &&& (a == 0x1F801004 && val != 0x1F802000 ==> r == Err::<(), Fault>(
                    Fault::BadExpansion2Base { value: val },
                ) && *final(self) == *old(self))
                &&& (!(a == 0x1F801000 && val != 0x1F000000) && !(a == 0x1F801004 && val
                    != 0x1F802000) ==> r is Ok && *final(self) == *old(self))
            },
            in_rg(mask_region_spec(abs_addr), 0x1F801060, 4) || in_rg(
                mask_region_spec(abs_addr),
                0xFFFE0130,
                4,
            ) || in_rg(mask_region_spec(abs_addr), 0x1F801C00, 640) || in_rg(
                mask_region_spec(abs_addr),
                0x1F802000,
                66,
            ) || in_rg(mask_region_spec(abs_addr), 0x1FA00000, 0x200000) || in_rg(
                mask_region_spec(abs_addr),
                0x1F801050,
                16,
            ) ==> r is Ok && *final(self) == *old(self),
            in_rg(mask_region_spec(abs_addr), 0x1F801070, 8) ==> {
                let o = mask_region_spec(abs_addr) - 0x1F801070;
                &&& (o == 0 ==> r is Ok && *final(self) == (Interconnect {
                    interrupts: Interrupts {
                        stat: old(self).interrupts.stat & val,
                        ..old(self).interrupts
                    },
                    ..*old(self)
                }))
                &&& (o == 4 ==> r is Ok && *final(self) == (Interconnect {
                    interrupts: Interrupts { mask: val, ..old(self).interrupts },
                    ..*old(self)
                }))
                &&& (o != 0 && o != 4 ==> r is Err && *final(self) == *old(self))
            },
            in_rg(mask_region_spec(abs_addr), 0x1F801100, 12) ==> r_timer_store(
                *old(self),
                *final(self),
                r,
                0,
                (mask_region_spec(abs_addr) - 0x1F801100) as u32,
                val,
            ),
            in_rg(mask_region_spec(abs_addr), 0x1F801110, 12) ==> r_timer_store(
                *old(self),
                *final(self),
                r,
                1,
                (mask_region_spec(abs_addr) - 0x1F801110) as u32,
                val,
            ),
            in_rg(mask_region_spec(abs_addr), 0x1F801120, 12) ==> r_timer_store(
                *old(self),
                *final(self),
                r,
                2,
                (mask_region_spec(abs_addr) - 0x1F801120) as u32,
                val,
            ),
            in_rg(mask_region_spec(abs_addr), 0x1F801810, 16) ==> *final(self) == (Interconnect {
                gpu: final(self).gpu,
                ..*old(self)
            }) && final(self).gpu.wf() && {
                let o = mask_region_spec(abs_addr) - 0x1F801810;
                &&& (o == 0 ==> crate::gpu::gp0_post(old(self).gpu, final(self).gpu, val, r))
                &&& (o == 4 ==> crate::gpu::gp1_post(old(self).gpu, final(self).gpu, val, r))
                &&& (o != 0 && o != 4 ==> r is Ok && final(self).gpu == old(self).gpu)
            },
            in_rg(mask_region_spec(abs_addr), 0x1F801800, 4) ==> *final(self) == (Interconnect {
                cdrom: final(self).cdrom,
                ..*old(self)
            }) && final(self).cdrom.wf() && CdRom::store_post(
                old(self).cdrom@,
                final(self).cdrom@,
                (mask_region_spec(abs_addr) - 0x1F801800) as u32,
                val,
                w,
                r,
            ),
            in_rg(mask_region_spec(abs_addr), 0x1F801040, 16) ==> *final(self) == (Interconnect {
                joypad: final(self).joypad,
                ..*old(self)
            }) && crate::joypad::joypad_store_post(
                old(self).joypad,
                final(self).joypad,
                (mask_region_spec(abs_addr) - 0x1F801040) as u32,
                val,
                r,
            ),
            in_rg(mask_region_spec(abs_addr), 0x1F801080, 0x80) ==> dma_reg_write_post(
                *old(self),
                *final(self),
                (mask_region_spec(abs_addr) - 0x1F801080) as u32,
                val,
                w,
                r,
            ),
            !(in_rg(mask_region_spec(abs_addr), 0, 0x200000) || in_rg(
                mask_region_spec(abs_addr),
                0x1F800000,
                0x400,
            ) || in_rg(mask_region_spec(abs_addr), 0x1F801080, 0x80)) ==> final(self).ram == old(
                self,
            ).ram,
    {
        let addr = mask_region(abs_addr);

        if let Some(offset) = Range(0, 0x200000).contains(addr) {
            if offset > 0x200000 - w.len() as u32 {
                return Err(Fault::RegionOverrun { offset });
            }
            self.ram.store(offset, val, w);
            return Ok(());
        }

        if let Some(offset) = Range(0x1F800000, 0x400).contains(addr) {
            if offset > 0x400 - w.len() as u32 {
                return Err(Fault::RegionOverrun { offset });
            }
            self.scratchpad.store(offset, val, w);
            return Ok(());
        }

        if let Some(offset) = Range(0x1FC00000, 0x80000).contains(addr) {
            return Err(Fault::BiosStore { offset });
        }

        if let Some(offset) = Range(0x1F801000, 36).contains(addr) {
            return match offset {
                0 => {
                    if val != 0x1F000000 {
                        Err(Fault::BadExpansion1Base { value: val })
                    } else {
                        Ok(())
                    }
                },
                4 => {
                    if val != 0x1F802000 {
                        Err(Fault::BadExpansion2Base { value: val })
                    } else {
                        Ok(())
                    }
                },
                _ => Ok(()),
            };
        }

        if let Some(_) = Range(0x1F801060, 4).contains(addr) {
            return Ok(());
        }

        if let Some(_) = Range(0xFFFE0130, 4).contains(addr) {
            return Ok(());
        }

        if let Some(offset) = Range(0x1F801070, 8).contains(addr) {
            return self.interrupts.store(offset, val, w);
        }

        if let Some(offset) = Range(0x1F801080, 0x80).contains(addr) {
            return self.set_dma_reg(offset, val, w);
        }

        if let Some(offset) = Range(0x1F801810, 16).contains(addr) {
            return match offset {
                0 => self.gpu.gp0(val),
                4 => self.gpu.gp1(val),
                _ => Ok(()),
            };
        }

        if let Some(offset) = Range(0x1F801800, 4).contains(addr) {
            return self.cdrom.store(offset, val, w);
        }

        if let Some(_) = Range(0x1F801C00, 640).contains(addr) {
            return Ok(());
        }

        if let Some(offset) = Range(0x1F801040, 16).contains(addr) {
            return self.joypad.store(offset, val);
        }

        if let Some(_) = Range(0x1F801050, 16).contains(addr) {
            return Ok(());
        }

        if let Some(offset) = Range(0x1F801100, 12).contains(addr) {
            let t = &mut self.timers[0];
            let res = t.store(offset, val);
            proof {
                if !(offset == 0 || offset == 4 || offset == 8) {
                    assert(self.timers@ =~= old(self).timers@);
                }
            }
            return res;
        }

        if let Some(offset) = Range(0x1F801110, 12).contains(addr) {
            let t = &mut self.timers[1];
            let res = t.store(offset, val);
            proof {
                if !(offset == 0 || offset == 4 || offset == 8) {
                    assert(self.timers@ =~= old(self).timers@);
                }
            }
            return res;
        }

        if let Some(offset) = Range(0x1F801120, 12).contains(addr) {
            let t = &mut self.timers[2];
            let res = t.store(offset, val);
            proof {
                if !(offset == 0 || offset == 4 || offset == 8) {
                    assert(self.timers@ =~= old(self).timers@);
                }
            }
            return res;
        }

        if let Some(_) = Range(0x1F802000, 66).contains(addr) {
            return Ok(());
        }

        if let Some(_) = Range(0x1FA00000, 0x200000).contains(addr) {
            return Ok(());
        }

        Ok(())
    }


    /// Writes a DMA register; the window is word-only.  A write that
    /// leaves the addressed channel active starts its transfer at once:
    /// the transfer completes before the store returns.
    #[verifier::rlimit(100)]
    #[verifier::spinoff_prover]
    pub fn set_dma_reg(&mut self, offset: u32, val: u32, w: AccessWidth) -> (r: Result<
        (),
        Fault,
    >)
        requires
            old(self).wf(),
            offset < 0x80,
        ensures
            final(self).wf(),
            final(self).bios == old(self).bios,
            final(self).scratchpad == old(self).scratchpad,
            final(self).timers == old(self).timers,
            final(self).interrupts == old(self).interrupts,
            final(self).joypad == old(self).joypad,
            dma_reg_write_post(*old(self), *final(self), offset, val, w, r),
    {
        proof {
            reveal(dma_reg_write_post);
        }
        match w {
            AccessWidth::Word => {},
            _ => {
                return Err(Fault::UnhandledDmaWidth);
            },
        }

        let major = (offset & 0x70) >> 4;
        let minor = offset & 0x0F;

        proof {
            let o = offset;
            assert((o & 0x70) >> 4 < 8) by (bit_vector);
        }

        if major <= 6 {
            if minor != 0 && minor != 4 && minor != 8 {
                return Err(Fault::UnhandledDmaWrite { offset });
            }

            let port = Port::from_index(major);
            let channel = self.dma.channel_mut(port);

            match minor {
                0 => channel.set_base(val),
                4 => channel.set_block_control(val),
                _ => {
                    let res = channel.set_control(val);
                    if let Err(e) = res {
                        proof {
                            assert(self.dma.channels@ =~= old(self).dma.channels@);
                        }
                        return Err(e);
                    }
                },
            }

            let ghost mid = *self;
            let active = self.dma.channel(port).active();

            if active {
                let res = self.do_dma(port);
                proof {
                    let idx = port_index(port);
                    let ch2 = channel_reg_write_spec(
                        old(self).dma.channels@[idx],
                        minor,
                        val,
                    );
                    assert(mid.dma.channels@[idx] == ch2);
                    if res is Ok {
                        assert(self.dma.channels@ =~= old(self).dma.channels@.update(
                            idx,
                            channel_done_spec(ch2),
                        ));
                    }
                    if port is Otc && !(ch2.sync is LinkedList) {
                        assert(otc_skeleton(*old(self), *self, ch2, res, Port::Otc));
                    }
                }
                res
            } else {
                Ok(())
            }
        } else {
            match minor {
                0 => {
                    self.dma.set_control(val);
                    Ok(())
                },
                4 => {
                    self.dma.set_interrupt(val);
                    Ok(())
                },
                _ => Err(Fault::UnhandledDmaWrite { offset }),
            }
        }
    }

    /// Runs a started channel: linked-list transfers walk the headers,
    /// every other sync mode is a block transfer.
    pub fn do_dma(&mut self, port: Port) -> (r: Result<(), Fault>)
        requires
            old(self).wf(),
        ensures
            final(self).wf(),
            final(self).bios == old(self).bios,
            final(self).scratchpad == old(self).scratchpad,
            final(self).timers == old(self).timers,
            final(self).interrupts == old(self).interrupts,
            final(self).joypad == old(self).joypad,
            old(self).dma.channels@[port_index(port)].direction is FromRam ==> final(self).ram
                == old(self).ram,
            r is Ok ==> final(self).dma == (Dma {
                channels: final(self).dma.channels,
                ..old(self).dma
            }) && final(self).dma.channels@ == old(self).dma.channels@.update(
                port_index(port),
                channel_done_spec(old(self).dma.channels@[port_index(port)]),
            ),
            r is Err ==> final(self).dma == old(self).dma,
            old(self).dma.channels@[port_index(port)].sync is LinkedList ==> final(self).ram
                == old(self).ram && final(self).cdrom == old(self).cdrom,
            !(old(self).dma.channels@[port_index(port)].sync is LinkedList) ==> otc_skeleton(
                *old(self),
                *final(self),
                old(self).dma.channels@[6],
                r,
                port,
            ),
    {
        let sync = self.dma.channel(port).sync();
        match sync {
            Sync::LinkedList => self.do_dma_linked_list(port),
            _ => self.do_dma_block(port),
        }
    }

    /// Runs one block transfer.  For the OTC channel towards RAM the
    /// completed transfer leaves the self-terminating linked-list
    /// skeleton in RAM: the word stored last holds the terminator
    /// 0x00FFFFFF and every other word holds the address of the word
    /// below it, so that the words read back in address order form the
    /// reversed list.
    #[verifier::rlimit(100)]
    #[verifier::spinoff_prover]
    pub fn do_dma_block(&mut self, port: Port) -> (r: Result<(), Fault>)
        requires
            old(self).wf(),
        ensures
            final(self).wf(),
            final(self).bios == old(self).bios,
            final(self).scratchpad == old(self).scratchpad,
            final(self).timers == old(self).timers,
            final(self).interrupts == old(self).interrupts,
            final(self).joypad == old(self).joypad,
            old(self).dma.channels@[port_index(port)].direction is FromRam ==> final(self).ram
                == old(self).ram,
            r is Ok ==> final(self).dma == (Dma {
                channels: final(self).dma.channels,
                ..old(self).dma
            }) && final(self).dma.channels@ == old(self).dma.channels@.update(
                port_index(port),
                channel_done_spec(old(self).dma.channels@[port_index(port)]),
            ),
            r is Err ==> final(self).dma == old(self).dma,
            otc_skeleton(*old(self), *final(self), old(self).dma.channels@[6], r, port),
    {
        let channel = self.dma.channel(port);
        let increment = match channel.step() {
            Step::Increment => true,
            Step::Decrement => false,
        };
        let direction = channel.direction();
        let base = channel.base();
        let size = channel.transfer_size();

        let n: u32 = match size {
            Some(n) => n,
            None => {
                return Err(Fault::DmaBlockSizeUnknown);
            },
        };

        let ghost otc_clean = port is Otc && direction is ToRam && base % 4 == 0 && (if increment {
            4 <= base && base + 4 * n <= 0x200000
        } else {
            base + 4 <= 0x200000 && 4 * n <= base
        });

        let mut addr: u32 = base;
        let mut remsz: u32 = n;

        while remsz > 0
            invariant
                old(self).wf(),
                self.wf(),
                self.bios == old(self).bios,
                self.scratchpad == old(self).scratchpad,
                self.timers == old(self).timers,
                self.interrupts == old(self).interrupts,
                self.joypad == old(self).joypad,
                self.dma == old(self).dma,
                remsz <= n,
                direction == old(self).dma.channels@[port_index(port)].direction,
                port is Otc ==> direction == old(self).dma.channels@[6].direction && base == old(
                    self,
                ).dma.channels@[6].base && increment == (old(self).dma.channels@[6].step
                    is Increment) && Some(n) == crate::dma::channel_transfer_size(
                    old(self).dma.channels@[6],
                ),
                otc_clean == (port is Otc && direction is ToRam && base % 4 == 0 && (if increment {
                    4 <= base && base + 4 * n <= 0x200000
                } else {
                    base + 4 <= 0x200000 && 4 * n <= base
                })),
                direction is FromRam ==> self.ram == old(self).ram,
                otc_clean ==> {
                    let k = n - remsz;
                    &&& (increment ==> addr == base + 4 * k)
                    &&& (!increment ==> addr == base - 4 * k)
                    &&& forall|i: int|
                        0 <= i < k ==> load_le(
                            self.ram@,
                            otc_addr(base, increment, i),
                            AccessWidth::Word,
                        ) == otc_word(base, increment, i, n as int)
                    &&& forall|j: int|
                        0 <= j < 0x200000 && !otc_written(base, increment, k, j) ==> self.ram@[j]
                            == old(self).ram@[j]
                },
            decreases remsz,
        {
            let cur_addr = addr & 0x1FFFFC;
            proof {
                let a = addr;
                assert(a & 0x1FFFFC <= 0x1FFFFC) by (bit_vector);
                assert(a < 0x200000 && a % 4 == 0 ==> a & 0x1FFFFC == a) by (bit_vector);
            }

            match direction {
                Direction::FromRam => {
                    let src_word = self.ram.load(cur_addr, AccessWidth::Word);

                    match port {
                        Port::Gpu => {
                            let res = self.gpu.gp0(src_word);
                            if let Err(e) = res {
                                return Err(e);
                            }
                        },
                        _ => {
                            return Err(Fault::UnhandledDmaPort { port: port.index() as u32 });
                        },
                    }
                },
                Direction::ToRam => {
                    let src_word: u32 = match port {
                        Port::Otc => {
                            if remsz == 1 {
                                0xFFFFFF
                            } else {
                                let prev = addr.wrapping_sub(4);
                                proof {
                                    if otc_clean {
                                        let p = prev;
                                        assert(p < 0x200000 ==> p & 0x1FFFFF == p)
                                            by (bit_vector);
                                    }
                                }
                                prev & 0x1FFFFF
                            }
                        },
                        Port::Gpu => 0,
                        Port::CdRom => {
                            let res = self.cdrom.load(2, AccessWidth::Word);
                            match res {
                                Ok(v) => v,
                                Err(e) => {
                                    return Err(e);
                                },
                            }
                        },
                        _ => {
                            return Err(Fault::UnhandledDmaPort { port: port.index() as u32 });
                        },
                    };

                    let ghost pre_ram = self.ram@;
                    self.ram.store(cur_addr, src_word, AccessWidth::Word);

                    proof {
                        if otc_clean {
                            let k = (n - remsz) as int;
                            lemma_otc_step(
                                old(self).ram@,
                                pre_ram,
                                self.ram@,
                                base,
                                increment,
                                k,
                                n as int,
                                addr,
                                src_word,
                            );
                        }
                    }
                },
            }

            addr = if increment {
                addr.wrapping_add(4)
            } else {
                addr.wrapping_sub(4)
            };
            remsz = remsz - 1;
        }

        let channel = self.dma.channel_mut(port);
        channel.done();

        Ok(())
    }

    /// Walks a linked list of GP0 packets out of RAM: each header gives
    /// a word count and the address of the next header; a header with
    /// bit 23 set ends the list.  Only the GPU accepts linked-list
    /// transfers, and only away from RAM.  A list that does not
    /// terminate within the header budget is a host-fatal fault.
    pub fn do_dma_linked_list(&mut self, port: Port) -> (r: Result<(), Fault>)
        requires
            old(self).wf(),
        ensures
            final(self).wf(),
            final(self).bios == old(self).bios,
            final(self).scratchpad == old(self).scratchpad,
            final(self).ram == old(self).ram,
            final(self).timers == old(self).timers,
            final(self).interrupts == old(self).interrupts,
            final(self).joypad == old(self).joypad,
            final(self).cdrom == old(self).cdrom,
            r is Ok ==> final(self).dma == (Dma {
                channels: final(self).dma.channels,
                ..old(self).dma
            }) && final(self).dma.channels@ == old(self).dma.channels@.update(
                port_index(port),
                channel_done_spec(old(self).dma.channels@[port_index(port)]),
            ),
            r is Err ==> final(self).dma == old(self).dma,
    {
        let channel = self.dma.channel(port);
        let direction = channel.direction();
        let b = channel.base();
        let mut addr = b & 0x1FFFFC;
        proof {
            let x = b;
            assert(x & 0x1FFFFC <= 0x1FFFFC) by (bit_vector);
        }

        match direction {
            Direction::ToRam => {
                return Err(Fault::DmaLinkedListToRam);
            },
            Direction::FromRam => {},
        }

        match port {
            Port::Gpu => {},
            _ => {
                return Err(Fault::DmaLinkedListPort { port: port.index() as u32 });
            },
        }

        let mut fuel: u32 = 0x100000;

        loop
            invariant
                self.wf(),
                self.bios == old(self).bios,
                self.scratchpad == old(self).scratchpad,
                self.ram == old(self).ram,
                self.timers == old(self).timers,
                self.interrupts == old(self).interrupts,
                self.joypad == old(self).joypad,
                self.cdrom == old(self).cdrom,
                self.dma == old(self).dma,
                addr <= 0x1FFFFC,
            decreases fuel,
        {
            if fuel == 0 {
                // A cyclic list never terminates on its own; treat the
                // exhausted budget as a guest bug.
                return Err(Fault::DmaLinkedListRunaway);
            }
            fuel = fuel - 1;

            let header: u32 = self.ram.load(addr, AccessWidth::Word);

            let mut remsz = header >> 24;

            while remsz > 0
                invariant
                    self.wf(),
                    self.bios == old(self).bios,
                    self.scratchpad == old(self).scratchpad,
                    self.ram == old(self).ram,
                    self.timers == old(self).timers,
                    self.interrupts == old(self).interrupts,
                    self.joypad == old(self).joypad,
                    self.cdrom == old(self).cdrom,
                    self.dma == old(self).dma,
                    addr <= 0x1FFFFC,
                decreases remsz,
            {
                let next = addr + 4;
                proof {
                    let x = next;
                    assert(x & 0x1FFFFC <= 0x1FFFFC) by (bit_vector);
                }
                addr = next & 0x1FFFFC;

                let command = self.ram.load(addr, AccessWidth::Word);

                let res = self.gpu.gp0(command);
                if let Err(e) = res {
                    return Err(e);
                }

                remsz = remsz - 1;
            }

            if header & 0x800000 != 0 {
                break ;
            }

            addr = header & 0x1FFFFC;
            proof {
                let h = header;
                assert(h & 0x1FFFFC <= 0x1FFFFC) by (bit_vector);
            }
        }

        let channel = self.dma.channel_mut(port);
        channel.done();

        Ok(())
    }

    /// Advances every device one quantum, then samples the interrupt
    /// aggregator from the device pulse lines.
    pub fn tick(&mut self)
        requires
            old(self).wf(),
        ensures
            final(self).wf(),
            final(self).bios == old(self).bios,
            final(self).ram == old(self).ram,
            final(self).scratchpad == old(self).scratchpad,
            final(self).dma == old(self).dma,
            final(self).gpu == old(self).gpu,
            final(self).cdrom@ =~= cd_tick_spec(old(self).cdrom@),
            forall|i: int|
                0 <= i < 3 ==> final(self).timers@[i] == timer_tick_spec(
                    old(self).timers@[i],
                    old(self).gpu.hblank,
                    old(self).gpu.vblank,
                    old(self).gpu.dotclock,
                ),
            final(self).interrupts == tick_irq_spec(
                old(self).interrupts,
                final(self).gpu,
                final(self).cdrom@.irq & final(self).cdrom@.ie != 0,
                crate::dma::dma_irq(final(self).dma),
                final(self).timers@,
            ),
    {
        self.cdrom.tick();
        self.gpu.tick();
        self.joypad.tick();

        let hblank = self.gpu.hblank;
        let vblank = self.gpu.vblank;
        let dotclock = self.gpu.dotclock;

        let t0 = &mut self.timers[0];
        t0.tick(hblank, vblank, dotclock);
        let t1 = &mut self.timers[1];
        t1.tick(hblank, vblank, dotclock);
        let t2 = &mut self.timers[2];
        t2.tick(hblank, vblank, dotclock);

        let cdrom_irq = self.cdrom.check_irq();
        let dma_irq = self.dma.check_irq();
        let t0_irq = !self.timers[0].n_irq;
        let t1_irq = !self.timers[1].n_irq;
        let t2_irq = !self.timers[2].n_irq;

        self.interrupts.set(Irq::VBlank, self.gpu.vblank);
        self.interrupts.set(Irq::Gpu, self.gpu.interrupt);
        self.interrupts.set(Irq::CdRom, cdrom_irq);
        self.interrupts.set(Irq::Dma, dma_irq);
        self.interrupts.set(Irq::Tmr0, t0_irq);
        self.interrupts.set(Irq::Tmr1, t1_irq);
        self.interrupts.set(Irq::Tmr2, t2_irq);

        self.interrupts.tick();
    }
}



/// Frame of a DMA-register write: only the controller changed, and in
/// it only the channel array, which now holds `s`.
pub open spec fn dma_channels_now(pre: Interconnect, post: Interconnect, s: Seq<Channel>) -> bool {
    &&& post == (Interconnect { dma: post.dma, ..pre })
    &&& post.dma == (Dma { channels: post.dma.channels, ..pre.dma })
    &&& post.dma.channels@ == s
}

/// The full outcome of a word write into the DMA register window:
/// which register the offset names, the decoded value it takes, and,
/// when the write leaves the channel active, the transfer that ran
/// before the write returned (the channel comes back with enable and
/// trigger clear, RAM is untouched by transfers away from it, and an
/// OTC transfer leaves the reversed list skeleton).
#[verifier::opaque]
pub open spec fn dma_reg_write_post(
    pre: Interconnect,
    post: Interconnect,
    offset: u32,
    val: u32,
    w: AccessWidth,
    r: Result<(), Fault>,
) -> bool {
    let major = (offset & 0x70) >> 4;
    let minor = offset & 0x0F;
    if !(w is Word) {
        r == Err::<(), Fault>(Fault::UnhandledDmaWidth) && post == pre
    } else if major <= 6 {
        if minor == 0 || minor == 4 || minor == 8 {
            let ch = pre.dma.channels@[major as int];
            if minor == 8 && (val >> 9) & 3 == 3 {
                r == Err::<(), Fault>(Fault::UnknownDmaSyncMode) && dma_channels_now(
                    pre,
                    post,
                    pre.dma.channels@,
                )
            } else {
                let ch2 = channel_reg_write_spec(ch, minor, val);
                if !channel_active(ch2) {
                    r is Ok && dma_channels_now(
                        pre,
                        post,
                        pre.dma.channels@.update(major as int, ch2),
                    )
                } else {
                    &&& post.bios == pre.bios
                    &&& post.scratchpad == pre.scratchpad
                    &&& post.timers == pre.timers
                    &&& post.interrupts == pre.interrupts
                    &&& post.joypad == pre.joypad
                    &&& (ch2.direction is FromRam ==> post.ram == pre.ram)
                    &&& (r is Ok ==> post.dma == (Dma {
                        channels: post.dma.channels,
                        ..pre.dma
                    }) && post.dma.channels@ == pre.dma.channels@.update(
                        major as int,
                        channel_done_spec(ch2),
                    ))
                    &&& (major == 6 && !(ch2.sync is LinkedList) ==> otc_skeleton(
                        pre,
                        post,
                        ch2,
                        r,
                        Port::Otc,
                    ))
                }
            }
        } else {
            r == Err::<(), Fault>(Fault::UnhandledDmaWrite { offset }) && post == pre
        }
    } else {
        if minor == 0 {
            r is Ok && post == (Interconnect { dma: post.dma, ..pre }) && post.dma == (Dma {
                control: val,
                ..pre.dma
            })
        } else if minor == 4 {
            r is Ok && post == (Interconnect { dma: post.dma, ..pre }) && post.dma == (Dma {
                irq_dummy: (val & 0x3F) as u8,
                force_irq: (val >> 15) & 1 != 0,
                channel_irq_en: ((val >> 16) & 0x7F) as u8,
                irq_en: (val >> 23) & 1 != 0,
                channel_irq_flags: (pre.dma.channel_irq_flags & !(((val >> 24) & 0x3F) as u8)) as u8,
                ..pre.dma
            })
        } else {
            r == Err::<(), Fault>(Fault::UnhandledDmaWrite { offset }) && post == pre
        }
    }
}

/// The outcome of a store into timer `i`'s window: on the three decoded
/// registers the timer is updated as `timer_store_spec` says and nothing
/// else changes; any other offset is refused and changes nothing.
pub open spec fn r_timer_store(
    s: Interconnect,
    n: Interconnect,
    r: Result<(), Fault>,
    i: int,
    offset: u32,
    val: u32,
) -> bool {
    if offset == 0 || offset == 4 || offset == 8 {
        &&& r is Ok
        &&& n == (Interconnect { timers: n.timers, ..s })
        &&& n.timers@ == s.timers@.update(
            i,
            crate::timer::timer_store_spec(s.timers@[i], offset, val),
        )
    } else {
        &&& r is Err
        &&& n == (Interconnect { timers: n.timers, ..s })
        &&& n.timers@ == s.timers@
    }
}


/// The address of the `i`-th word an OTC transfer touches.
pub open spec fn otc_addr(base: u32, increment: bool, i: int) -> int {
    if increment {
        base + 4 * i
    } else {
        base - 4 * i
    }
}

/// The value the `i`-th OTC word holds after the transfer: the
/// terminator for the word stored last, else the address of the word
/// 4 bytes below the one holding it.
pub open spec fn otc_word(base: u32, increment: bool, i: int, n: int) -> u32 {
    if i == n - 1 {
        0xFFFFFFu32
    } else {
        (otc_addr(base, increment, i) - 4) as u32
    }
}

/// The bytes of RAM the first `k` OTC words cover.
pub open spec fn otc_written(base: u32, increment: bool, k: int, j: int) -> bool {
    exists|i: int|
        0 <= i < k && #[trigger] otc_addr(base, increment, i) <= j < otc_addr(base, increment, i)
            + 4
}

/// The completed-OTC property: when the OTC channel runs a block
/// transfer towards RAM whose words stay inside RAM, the transfer
/// succeeds, RAM holds the reversed linked-list skeleton, and every
/// byte outside the transferred words is untouched.
pub open spec fn otc_skeleton(
    s: Interconnect,
    f: Interconnect,
    ch: Channel,
    r: Result<(), Fault>,
    port: Port,
) -> bool {
    {
        let n = crate::dma::channel_transfer_size(ch)->0;
        let base = ch.base;
        let increment = ch.step is Increment;
        (port is Otc && ch.direction is ToRam && crate::dma::channel_transfer_size(ch) is Some
            && base % 4 == 0 && (if increment {
            4 <= base && base + 4 * n <= 0x200000
        } else {
            base + 4 <= 0x200000 && 4 * n <= base
        })) ==> {
            &&& r is Ok
            &&& forall|i: int|
                0 <= i < n ==> load_le(f.ram@, otc_addr(base, increment, i), AccessWidth::Word)
                    == otc_word(base, increment, i, n as int)
            &&& forall|j: int|
                0 <= j < 0x200000 && !otc_written(base, increment, n as int, j) ==> f.ram@[j]
                    == s.ram@[j]
        }
    }
}

/// One OTC store extends the skeleton: the new word reads back as its
/// value, the earlier words are untouched, and the frame grows by the
/// new word's four bytes.
proof fn lemma_otc_step(
    ram0: Seq<u8>,
    pre: Seq<u8>,
    post: Seq<u8>,
    base: u32,
    increment: bool,
    k: int,
    n: int,
    addr: u32,
    word: u32,
)
    requires
        ram0.len() == 0x200000,
        pre.len() == 0x200000,
        0 <= k < n,
        base % 4 == 0,
        increment ==> 4 <= base && base + 4 * n <= 0x200000,
        !increment ==> base + 4 <= 0x200000 && 4 * n <= base,
        addr == otc_addr(base, increment, k),
        word == otc_word(base, increment, k, n),
        post == store_le(pre, otc_addr(base, increment, k), word, AccessWidth::Word),
        forall|i: int|
            0 <= i < k ==> load_le(pre, otc_addr(base, increment, i), AccessWidth::Word)
                == otc_word(base, increment, i, n),
        forall|j: int|
            0 <= j < 0x200000 && !otc_written(base, increment, k, j) ==> pre[j] == ram0[j],
    ensures
        forall|i: int|
            0 <= i <= k ==> load_le(post, otc_addr(base, increment, i), AccessWidth::Word)
                == otc_word(base, increment, i, n),
        forall|j: int|
            0 <= j < 0x200000 && !otc_written(base, increment, k + 1, j) ==> post[j] == ram0[j],
{
    let a = otc_addr(base, increment, k);
    crate::addressible::lemma_store_le_frame(pre, a, word, AccessWidth::Word);
    crate::addressible::lemma_store_load_round_trip(pre, a, word, AccessWidth::Word);
    assert(word < 0x1000000);
    assert(load_le(post, a, AccessWidth::Word) == word);
    assert forall|i: int| 0 <= i < k implies load_le(
        post,
        otc_addr(base, increment, i),
        AccessWidth::Word,
    ) == otc_word(base, increment, i, n) by {
        let ai = otc_addr(base, increment, i);
        assert(ai + 4 <= a || a + 4 <= ai) by (nonlinear_arith)
            requires
                increment ==> ai == base + 4 * i && a == base + 4 * k,
                !increment ==> ai == base - 4 * i && a == base - 4 * k,
                0 <= i < k,
        ;
        crate::addressible::lemma_load_le_frame(post, pre, ai, AccessWidth::Word);
    }
    assert forall|j: int|
        0 <= j < 0x200000 && !otc_written(base, increment, k + 1, j) implies post[j]
        == ram0[j] by {
        assert(!(a <= j < a + 4)) by {
            if a <= j < a + 4 {
                assert(otc_written(base, increment, k + 1, j));
            }
        }
        assert(!otc_written(base, increment, k, j)) by {
            if otc_written(base, increment, k, j) {
                let i = choose|i: int|
                    0 <= i < k && #[trigger] otc_addr(base, increment, i) <= j < otc_addr(
                        base,
                        increment,
                        i,
                    ) + 4;
                assert(otc_written(base, increment, k + 1, j));
            }
        }
        assert(post[j] == pre[j]);
    }
}

/// The interrupt aggregator after one tick's sampling: each device line
/// run through the edge detector in order.
pub open spec fn tick_irq_spec(
    i: Interrupts,
    gpu: Gpu,
    cdrom_irq: bool,
    dma_irq: bool,
    timers: Seq<Timer>,
) -> Interrupts {
    irq_set_spec(
        irq_set_spec(
            irq_set_spec(
                irq_set_spec(
                    irq_set_spec(
                        irq_set_spec(
                            irq_set_spec(i, Irq::VBlank, gpu.vblank),
                            Irq::Gpu,
                            gpu.interrupt,
                        ),
                        Irq::CdRom,
                        cdrom_irq,
                    ),
                    Irq::Dma,
                    dma_irq,
                ),
                Irq::Tmr0,
                !timers[0].n_irq,
            ),
            Irq::Tmr1,
            !timers[1].n_irq,
        ),
        Irq::Tmr2,
        !timers[2].n_irq,
    )
}

} // verus!
