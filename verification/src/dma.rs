//! DMA engine register file: seven channels (base address, block control,
//! channel control) and the shared control and interrupt registers.  The
//! transfer driver itself lives with the interconnect, which owns RAM and
//! the device ports.

use vstd::prelude::*;

use crate::fault::Fault;

verus! {

/// The device port a channel serves.
#[derive(Clone, Copy, Debug, PartialEq, Eq, Structural)]
pub enum Port {
    MdecIn,
    MdecOut,
    Gpu,
    CdRom,
    Spu,
    Pio,
    Otc,
}

/// Index of `port` in the register window and the channel array.
pub open spec fn port_index(port: Port) -> int {
    match port {
        Port::MdecIn => 0,
        Port::MdecOut => 1,
        Port::Gpu => 2,
        Port::CdRom => 3,
        Port::Spu => 4,
        Port::Pio => 5,
        Port::Otc => 6,
    }
}

impl Port {
    /// Index of this port in the register window and the channel array.
    pub fn index(self) -> (r: usize)
        ensures
            r == port_index(self),
            r < 7,
    {
        match self {
            Port::MdecIn => 0,
            Port::MdecOut => 1,
            Port::Gpu => 2,
            Port::CdRom => 3,
            Port::Spu => 4,
            Port::Pio => 5,
            Port::Otc => 6,
        }
    }

    /// The port at `index` in the register window.
    pub fn from_index(index: u32) -> (r: Port)
        requires
            index < 7,
        ensures
            port_index(r) == index,
    {
        match index {
            0 => Port::MdecIn,
            1 => Port::MdecOut,
            2 => Port::Gpu,
            3 => Port::CdRom,
            4 => Port::Spu,
            5 => Port::Pio,
            _ => Port::Otc,
        }
    }
}

/// Transfer direction of a channel.
#[derive(Clone, Copy, Debug, PartialEq, Eq, Structural)]
pub enum Direction {
    ToRam,
    FromRam,
}

/// Encoding of `d` in bit 0 of the channel control word.
pub open spec fn direction_bit(d: Direction) -> u32 {
    match d {
        Direction::ToRam => 0,
        Direction::FromRam => 1,
    }
}

/// Address step of a channel.
#[derive(Clone, Copy, Debug, PartialEq, Eq, Structural)]
pub enum Step {
    Increment,
    Decrement,
}

/// Encoding of `s` in bit 1 of the channel control word.
pub open spec fn step_bit(s: Step) -> u32 {
    match s {
        Step::Increment => 0,
        Step::Decrement => 1,
    }
}

/// Synchronisation mode of a channel.
#[derive(Clone, Copy, Debug, PartialEq, Eq, Structural)]
pub enum Sync {
    Manual,
    Request,
    LinkedList,
}

/// Encoding of `s` in bits 10:9 of the channel control word.
pub open spec fn sync_bits(s: Sync) -> u32 {
    match s {
        Sync::Manual => 0,
        Sync::Request => 1,
        Sync::LinkedList => 2,
    }
}

/// A freshly reset channel.
pub open spec fn channel_init() -> Channel {
    Channel {
        enable: false,
        direction: Direction::ToRam,
        step: Step::Increment,
        sync: Sync::Manual,
        trigger: false,
        chop: false,
        chop_dma_sz: 0,
        chop_cpu_sz: 0,
        dummy: 0,
        base: 0,
        block_size: 0,
        block_count: 0,
    }
}

/// One DMA channel.
#[derive(Clone, Copy, Debug, PartialEq, Eq, Structural)]
pub struct Channel {
    pub enable: bool,
    pub direction: Direction,
    pub step: Step,
    pub sync: Sync,
    pub trigger: bool,
    pub chop: bool,
    pub chop_dma_sz: u8,
    pub chop_cpu_sz: u8,
    pub dummy: u8,
    pub base: u32,
    pub block_size: u16,
    pub block_count: u16,
}

/// The channel control word reassembled from the decoded fields.
pub open spec fn channel_control_word(c: Channel) -> u32 {
    direction_bit(c.direction) | (step_bit(c.step) << 1) | ((c.chop as u32) << 8) | (sync_bits(
        c.sync,
    ) << 9) | ((c.chop_dma_sz as u32) << 16) | ((c.chop_cpu_sz as u32) << 20) | ((c.enable
        as u32) << 24) | ((c.trigger as u32) << 28) | ((c.dummy as u32) << 29)
}

/// The interrupt register reassembled, with the computed master IRQ line
/// in bit 31.
pub open spec fn dma_interrupt_word(d: Dma) -> u32 {
    (d.irq_dummy as u32) | ((d.force_irq as u32) << 15) | ((d.channel_irq_en as u32) << 16) | ((
    d.irq_en as u32) << 23) | ((d.channel_irq_flags as u32) << 24) | ((dma_irq(d) as u32) << 31)
}

/// Effect of a channel control-word write (for a word that does not name
/// the reserved sync mode 3).
pub open spec fn channel_set_control_spec(c: Channel, val: u32) -> Channel {
    Channel {
        direction: if val & 1 != 0 {
            Direction::FromRam
        } else {
            Direction::ToRam
        },
        step: if (val >> 1) & 1 != 0 {
            Step::Decrement
        } else {
            Step::Increment
        },
        chop: (val >> 8) & 1 != 0,
        sync: if (val >> 9) & 3 == 0 {
            Sync::Manual
        } else if (val >> 9) & 3 == 1 {
            Sync::Request
        } else {
            Sync::LinkedList
        },
        chop_dma_sz: ((val >> 16) & 7) as u8,
        chop_cpu_sz: ((val >> 20) & 7) as u8,
        enable: (val >> 24) & 1 != 0,
        trigger: (val >> 28) & 1 != 0,
        dummy: ((val >> 29) & 3) as u8,
        ..c
    }
}

/// The registers a write to a channel's window leaves behind: the base
/// (24 bits kept), the block control halves, or the decoded control word.
pub open spec fn channel_reg_write_spec(c: Channel, minor: u32, val: u32) -> Channel {
    if minor == 0 {
        Channel { base: val & 0xFFFFFF, ..c }
    } else if minor == 4 {
        Channel { block_size: val as u16, block_count: (val >> 16) as u16, ..c }
    } else {
        channel_set_control_spec(c, val)
    }
}

/// A channel as `done` leaves it: enable and trigger cleared.
pub open spec fn channel_done_spec(c: Channel) -> Channel {
    Channel { enable: false, trigger: false, ..c }
}

/// A channel is active iff it is enabled and, in manual sync, triggered.
pub open spec fn channel_active(c: Channel) -> bool {
    c.enable && (match c.sync {
        Sync::Manual => c.trigger,
        _ => true,
    })
}

/// Words a block transfer moves: block size in manual sync, block count
/// times block size in request sync; unknown in linked-list sync, where the
/// in-stream headers drive the transfer.
pub open spec fn channel_transfer_size(c: Channel) -> Option<u32> {
    match c.sync {
        Sync::Manual => Some(c.block_size as u32),
        Sync::Request => Some((c.block_count as u32 * c.block_size as u32) as u32),
        Sync::LinkedList => None,
    }
}

impl Channel {
    pub fn new() -> (r: Channel)
        ensures
            r == channel_init(),
    {
        Channel {
            enable: false,
            direction: Direction::ToRam,
            step: Step::Increment,
            sync: Sync::Manual,
            trigger: false,
            chop: false,
            chop_dma_sz: 0,
            chop_cpu_sz: 0,
            dummy: 0,
            base: 0,
            block_size: 0,
            block_count: 0,
        }
    }

    /// True iff the channel is started: enabled, and triggered where manual
    /// sync asks for a trigger.
    pub fn active(&self) -> (r: bool)
        ensures
            r == channel_active(*self),
    {
        let trigger = match self.sync {
            Sync::Manual => self.trigger,
            _ => true,
        };
        self.enable && trigger
    }

    pub fn sync(&self) -> (r: Sync)
        ensures
            r == self.sync,
    {
        self.sync
    }

    pub fn step(&self) -> (r: Step)
        ensures
            r == self.step,
    {
        self.step
    }

    pub fn direction(&self) -> (r: Direction)
        ensures
            r == self.direction,
    {
        self.direction
    }

    /// Words this transfer moves, or None in linked-list sync.
    pub fn transfer_size(&self) -> (r: Option<u32>)
        ensures
            r == channel_transfer_size(*self),
    {
        let bs = self.block_size as u32;
        let bc = self.block_count as u32;

        match self.sync {
            Sync::Manual => Some(bs),
            Sync::Request => {
                proof {
                    assert(bc * bs <= 0xFFFF * 0xFFFF) by (nonlinear_arith)
                        requires
                            bs <= 0xFFFF && bc <= 0xFFFF,
                    ;
                }
                Some(bc * bs)
            },
            Sync::LinkedList => None,
        }
    }

    /// Marks the transfer finished: clears enable and trigger.
    pub fn done(&mut self)
        ensures
            *final(self) == channel_done_spec(*old(self)),
    {
        self.enable = false;
        self.trigger = false;
    }

    pub fn base(&self) -> (r: u32)
        ensures
            r == self.base,
    {
        self.base
    }

    /// The base address register keeps 24 bits.
    pub fn set_base(&mut self, val: u32)
        ensures
            *final(self) == (Channel { base: val & 0xFFFFFF, ..*old(self) }),
            final(self).base < 0x1000000,
    {
        proof {
            assert(val & 0xFFFFFF < 0x1000000) by (bit_vector);
        }
        self.base = val & 0xFFFFFF;
    }

    /// Reassembles the channel control word from the decoded fields.
    pub fn control(&self) -> (r: u32)
        ensures
            r == channel_control_word(*self),
    {
        let direction: u32 = match self.direction {
            Direction::ToRam => 0,
            Direction::FromRam => 1,
        };
        let step: u32 = match self.step {
            Step::Increment => 0,
            Step::Decrement => 1,
        };
        let sync: u32 = match self.sync {
            Sync::Manual => 0,
            Sync::Request => 1,
            Sync::LinkedList => 2,
        };

        direction | (step << 1) | ((self.chop as u32) << 8) | (sync << 9) | ((self.chop_dma_sz
            as u32) << 16) | ((self.chop_cpu_sz as u32) << 20) | ((self.enable as u32) << 24) | ((
        self.trigger as u32) << 28) | ((self.dummy as u32) << 29)
    }

    /// Decodes a channel control word into the fields.  The reserved sync
    /// mode 3 is a host-fatal fault and leaves the channel unchanged.
    pub fn set_control(&mut self, val: u32) -> (r: Result<(), Fault>)
        ensures
            (val >> 9) & 3 == 3 ==> r == Err::<(), Fault>(Fault::UnknownDmaSyncMode)
                && *final(self) == *old(self),
            (val >> 9) & 3 != 3 ==> r is Ok && *final(self) == channel_set_control_spec(
                *old(self),
                val,
            ),
    {
        let sync = match (val >> 9) & 3 {
            0 => Sync::Manual,
            1 => Sync::Request,
            2 => Sync::LinkedList,
            _ => {
                proof {
                    assert((val >> 9) & 3 < 4) by (bit_vector);
                }
                return Err(Fault::UnknownDmaSyncMode);
            },
        };

        self.direction = if val & 1 != 0 {
            Direction::FromRam
        } else {
            Direction::ToRam
        };
        self.step = if (val >> 1) & 1 != 0 {
            Step::Decrement
        } else {
            Step::Increment
        };
        self.chop = (val >> 8) & 1 != 0;
        self.sync = sync;
        self.chop_dma_sz = ((val >> 16) & 7) as u8;
        self.chop_cpu_sz = ((val >> 20) & 7) as u8;
        self.enable = (val >> 24) & 1 != 0;
        self.trigger = (val >> 28) & 1 != 0;
        self.dummy = ((val >> 29) & 3) as u8;
        Ok(())
    }

    /// Block control word: block count in the high half, block size in the
    /// low half.
    pub fn block_control(&self) -> (r: u32)
        ensures
            r == ((self.block_count as u32) << 16) | (self.block_size as u32),
    {
        let bs = self.block_size as u32;
        let bc = self.block_count as u32;

        (bc << 16) | bs
    }

    pub fn set_block_control(&mut self, val: u32)
        ensures
            *final(self) == (Channel {
                block_size: val as u16,
                block_count: (val >> 16) as u16,
                ..*old(self)
            }),
    {
        self.block_size = val as u16;
        self.block_count = (val >> 16) as u16;
    }
}

/// The DMA controller: shared control word, interrupt register and the
/// seven channels.
pub struct Dma {
    pub control: u32,
    pub irq_en: bool,
    pub channel_irq_en: u8,
    pub channel_irq_flags: u8,
    pub force_irq: bool,
    pub irq_dummy: u8,
    pub channels: Vec<Channel>,
}

/// The master IRQ line: forced, or enabled with some channel flagged and
/// enabled.
pub open spec fn dma_irq(d: Dma) -> bool {
    d.force_irq || (d.irq_en && d.channel_irq_flags & d.channel_irq_en != 0)
}

impl Dma {
    pub open spec fn wf(&self) -> bool {
        self.channels@.len() == 7
    }

    pub fn new() -> (r: Dma)
        ensures
            r.wf(),
            r.control == 0x07654321,
            !r.irq_en,
            r.channel_irq_en == 0,
            r.channel_irq_flags == 0,
            !r.force_irq,
            r.irq_dummy == 0,
            forall|i: int| 0 <= i < 7 ==> r.channels@[i] == channel_init(),
    {
        let mut channels: Vec<Channel> = Vec::new();
        channels.push(Channel::new());
        channels.push(Channel::new());
        channels.push(Channel::new());
        channels.push(Channel::new());
        channels.push(Channel::new());
        channels.push(Channel::new());
        channels.push(Channel::new());

        Dma {
            control: 0x07654321,
            irq_en: false,
            channel_irq_en: 0,
            channel_irq_flags: 0,
            force_irq: false,
            irq_dummy: 0,
            channels,
        }
    }

    pub fn control(&self) -> (r: u32)
        ensures
            r == self.control,
    {
        self.control
    }

    pub fn set_control(&mut self, val: u32)
        ensures
            *final(self) == (Dma { control: val, ..*old(self) }),
    {
        self.control = val;
    }

    /// True iff the master IRQ line is up.
    pub fn check_irq(&self) -> (r: bool)
        ensures
            r == dma_irq(*self),
    {
        let channel_irq = self.channel_irq_flags & self.channel_irq_en;
        self.force_irq || (self.irq_en && channel_irq != 0)
    }

    /// Reassembles the interrupt register, with the computed master IRQ
    /// line in bit 31.
    pub fn interrupt(&self) -> (r: u32)
        ensures
            r == dma_interrupt_word(*self),
    {
        let irq = self.check_irq();

        (self.irq_dummy as u32) | ((self.force_irq as u32) << 15) | ((self.channel_irq_en
            as u32) << 16) | ((self.irq_en as u32) << 23) | ((self.channel_irq_flags as u32) << 24)
            | ((irq as u32) << 31)
    }

    /// Decodes a write to the interrupt register; the flag half
    /// acknowledges by written-1 bits.
    pub fn set_interrupt(&mut self, val: u32)
        ensures
            *final(self) == (Dma {
                irq_dummy: (val & 0x3F) as u8,
                force_irq: (val >> 15) & 1 != 0,
                channel_irq_en: ((val >> 16) & 0x7F) as u8,
                irq_en: (val >> 23) & 1 != 0,
                channel_irq_flags: old(self).channel_irq_flags & !(((val >> 24) & 0x3F) as u8),
                ..*old(self)
            }),
    {
        self.irq_dummy = (val & 0x3F) as u8;
        self.force_irq = (val >> 15) & 1 != 0;
        self.channel_irq_en = ((val >> 16) & 0x7F) as u8;
        self.irq_en = (val >> 23) & 1 != 0;

        let ack = ((val >> 24) & 0x3F) as u8;
        self.channel_irq_flags = self.channel_irq_flags & !ack;
    }

    /// The channel serving `port`.
    pub fn channel(&self, port: Port) -> (r: &Channel)
        requires
            self.wf(),
        ensures
            *r == self.channels@[port_index(port)],
    {
        &self.channels[port.index()]
    }

    /// The channel serving `port`, for writing.
    pub fn channel_mut(&mut self, port: Port) -> (r: &mut Channel)
        requires
            old(self).wf(),
        ensures
            *r == old(self).channels@[port_index(port)],
            *final(self) == (Dma {
                channels: final(self).channels,
                ..*old(self)
            }),
            final(self).channels@ == old(self).channels@.update(
                port_index(port),
                *final(r),
            ),
            final(self).wf(),
    {
        let i = port.index();
        &mut self.channels[i]
    }
}

} // verus!
