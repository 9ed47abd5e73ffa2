//! Interrupt aggregator: latches the 11 device lines edge-triggered into
//! STAT, masks them with MASK, and reports whether any masked line is
//! pending.

use vstd::prelude::*;

use crate::addressible::{trunc, trunc_width, AccessWidth};
use crate::fault::Fault;

verus! {

/// One of the 11 interrupt lines.
#[derive(Clone, Copy, Debug, PartialEq, Eq, Structural)]
pub enum Irq {
    VBlank,
    Gpu,
    CdRom,
    Dma,
    Tmr0,
    Tmr1,
    Tmr2,
    ControllerMemoryCard,
    Sio,
    Spu,
    LightPen,
}

/// Bit position of line `irq` in STAT and MASK.
pub open spec fn irq_line(irq: Irq) -> u32 {
    match irq {
        Irq::VBlank => 0,
        Irq::Gpu => 1,
        Irq::CdRom => 2,
        Irq::Dma => 3,
        Irq::Tmr0 => 4,
        Irq::Tmr1 => 5,
        Irq::Tmr2 => 6,
        Irq::ControllerMemoryCard => 7,
        Irq::Sio => 8,
        Irq::Spu => 9,
        Irq::LightPen => 10,
    }
}

impl Irq {
    /// Bit position of this line in STAT and MASK.
    pub fn line(self) -> (r: u32)
        ensures
            r == irq_line(self),
            r < 11,
    {
        match self {
            Irq::VBlank => 0,
            Irq::Gpu => 1,
            Irq::CdRom => 2,
            Irq::Dma => 3,
            Irq::Tmr0 => 4,
            Irq::Tmr1 => 5,
            Irq::Tmr2 => 6,
            Irq::ControllerMemoryCard => 7,
            Irq::Sio => 8,
            Irq::Spu => 9,
            Irq::LightPen => 10,
        }
    }
}

/// Effect of sampling line `irq` at level `val`: STAT latches a rising
/// edge, the previous-level shadow takes the new level, MASK is untouched.
pub open spec fn irq_set_spec(i: Interrupts, irq: Irq, val: bool) -> Interrupts {
    Interrupts {
        stat: if val && i.prev_pulse & (1u32 << irq_line(irq)) == 0 {
            i.stat | (1u32 << irq_line(irq))
        } else {
            i.stat
        },
        prev_pulse: if val {
            i.prev_pulse | (1u32 << irq_line(irq))
        } else {
            i.prev_pulse & !(1u32 << irq_line(irq))
        },
        ..i
    }
}

pub struct Interrupts {
    /// Latched lines.
    pub stat: u32,
    /// Enabled lines.
    pub mask: u32,
    /// Level of each line on the previous tick, for edge detection.
    pub prev_pulse: u32,
}

impl Interrupts {
    pub fn new() -> (r: Interrupts)
        ensures
            r.stat == 0,
            r.mask == 0,
            r.prev_pulse == 0,
    {
        Interrupts { stat: 0, mask: 0, prev_pulse: 0 }
    }

    /// Reads STAT (offset 0) or MASK (offset 4), truncated to the access
    /// width.
    pub fn load(&self, offset: u32, w: AccessWidth) -> (r: Result<u32, Fault>)
        ensures
            offset == 0 ==> r == Ok::<u32, Fault>(trunc_width(self.stat, w)),
            offset == 4 ==> r == Ok::<u32, Fault>(trunc_width(self.mask, w)),
            offset != 0 && offset != 4 ==> r == Err::<u32, Fault>(
                Fault::UnhandledIrqRegister { offset },
            ),
    {
        let v = match offset {
            0 => self.stat,
            4 => self.mask,
            _ => {
                return Err(Fault::UnhandledIrqRegister { offset });
            },
        };
        Ok(trunc(v, w))
    }

    /// Writes the acknowledge word (offset 0: STAT &= val) or MASK
    /// (offset 4).
    pub fn store(&mut self, offset: u32, val: u32, w: AccessWidth) -> (r: Result<(), Fault>)
        ensures
            offset == 0 ==> r is Ok && *final(self) == (Interrupts {
                stat: old(self).stat & val,
                ..*old(self)
            }),
            offset == 4 ==> r is Ok && *final(self) == (Interrupts { mask: val, ..*old(self) }),
            offset != 0 && offset != 4 ==> r == Err::<(), Fault>(
                Fault::UnhandledIrqRegister { offset },
            ) && *final(self) == *old(self),
    {
        match offset {
            0 => {
                self.ack(val);
                Ok(())
            },
            4 => {
                self.mask = val;
                Ok(())
            },
            _ => Err(Fault::UnhandledIrqRegister { offset }),
        }
    }

    pub fn tick(&mut self)
        ensures
            *final(self) == *old(self),
    {
    }

    /// True iff some latched line is enabled.
    pub fn check(&self) -> (r: bool)
        ensures
            r == (self.stat & self.mask != 0),
    {
        self.stat & self.mask != 0
    }

    /// Acknowledge: STAT keeps only the bits written as 1.
    fn ack(&mut self, val: u32)
        ensures
            *final(self) == (Interrupts { stat: old(self).stat & val, ..*old(self) }),
    {
        self.stat = self.stat & val;
    }

    /// Samples the level of line `irq`.  The STAT bit is set only on a
    /// rising edge: the level is true now and was false on the previous
    /// tick.  The previous-level shadow always takes the new level.
    pub fn set(&mut self, irq: Irq, val: bool)
        ensures
            *final(self) == irq_set_spec(*old(self), irq, val),
            final(self).stat == if val && old(self).prev_pulse & (1u32 << irq_line(irq)) == 0 {
                old(self).stat | (1u32 << irq_line(irq))
            } else {
                old(self).stat
            },
            final(self).mask == old(self).mask,
    {
        let mask = 1u32 << irq.line();

        if val && (self.prev_pulse & mask == 0) {
            self.stat = self.stat | mask;
        }

        self.prev_pulse = self.prev_pulse & !mask;
        if val {
            self.prev_pulse = self.prev_pulse | mask;
        }
        proof {
            let line = irq_line(irq);
            let pp = old(self).prev_pulse;
            assert((pp & !(1u32 << line)) | (1u32 << line) == pp | (1u32 << line))
                by (bit_vector);
        }
    }
}

} // verus!
