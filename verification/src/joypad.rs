//! Joypad serial controller: TX/RX byte FIFOs behind a byte-wide data
//! port, with status, mode, control and baud-rate registers.  One TX byte
//! is drained per tick; the probe command answers as an unconnected
//! controller, enough to boot the firmware past its joypad scan.

use vstd::prelude::*;

use crate::addressible::{trunc, trunc_width, AccessWidth};
use crate::fault::Fault;

verus! {

pub struct Joypad {
    pub select: bool,
    pub target: bool,
    pub tx_enabled: bool,
    pub tx: Vec<u8>,
    pub rx_enabled: bool,
    pub rx: Vec<u8>,
    pub ack: bool,
    pub acked: bool,
    pub irq: bool,
    pub baud_timer: u16,
    pub baud_rate: u16,
    pub mode: u16,
}

/// The status word: TX-empty, RX-not-empty, ack, IRQ and the baud timer.
pub open spec fn joypad_stat(j: Joypad) -> u32 {
    ((j.tx@.len() == 0) as u32) | (((j.rx@.len() != 0) as u32) << 1) | ((j.ack as u32) << 7) | ((
    j.irq as u32) << 9) | ((j.baud_timer as u32) << 11)
}

/// The control word reassembled from the decoded fields.
pub open spec fn joypad_ctrl(j: Joypad) -> u16 {
    (j.tx_enabled as u16) | ((j.select as u16) << 1) | ((j.rx_enabled as u16) << 2) | ((j.acked
        as u16) << 12) | ((j.target as u16) << 13)
}


/// The full outcome of a register read: the RX pop, the status, mode,
/// control and baud registers, and the refused offsets.
pub open spec fn joypad_load_post(
    pre: Joypad,
    post: Joypad,
    offset: u32,
    w: AccessWidth,
    r: Result<u32, Fault>,
) -> bool {
    &&& (offset == 0 ==> r is Ok && (pre.rx@.len() > 0 ==> r->Ok_0 == trunc_width(
        pre.rx@[0] as u32,
        w,
    ) && post.rx@ == pre.rx@.remove(0)) && (pre.rx@.len() == 0 ==> r->Ok_0 == 0 && post == pre)
        && post == (Joypad { rx: post.rx, ..pre }))
    &&& (offset == 4 ==> r == Ok::<u32, Fault>(trunc_width(joypad_stat(pre), w)) && post == pre)
    &&& (offset == 8 ==> r == Ok::<u32, Fault>(trunc_width(pre.mode as u32, w)) && post == pre)
    &&& (offset == 10 ==> r == Ok::<u32, Fault>(trunc_width(joypad_ctrl(pre) as u32, w)) && post
        == pre)
    &&& (offset == 14 ==> r == Ok::<u32, Fault>(trunc_width(pre.baud_rate as u32, w)) && post
        == pre)
    &&& (!(offset == 0 || offset == 4 || offset == 8 || offset == 10 || offset == 14) ==> r
        == Err::<u32, Fault>(Fault::UnhandledJoypadRegister { offset }) && post == pre)
}

/// The full outcome of a register write: the TX push, the mode, control
/// and baud registers, and the refused offsets.
pub open spec fn joypad_store_post(
    pre: Joypad,
    post: Joypad,
    offset: u32,
    val: u32,
    r: Result<(), Fault>,
) -> bool {
    &&& (offset == 0 ==> r is Ok && post == (Joypad { tx: post.tx, ..pre }) && post.tx@
        == pre.tx@.push(val as u8))
    &&& (offset == 8 ==> r is Ok && post == (Joypad { mode: val as u16, ..pre }))
    &&& (offset == 10 ==> r is Ok && post == joypad_set_ctrl(pre, val as u16))
    &&& (offset == 14 ==> r is Ok && post == (Joypad { baud_rate: val as u16, ..pre }))
    &&& (!(offset == 0 || offset == 8 || offset == 10 || offset == 14) ==> r == Err::<
        (),
        Fault,
    >(Fault::UnhandledJoypadRegister { offset }) && post == pre)
}

impl Joypad {
    pub fn new() -> (r: Joypad)
        ensures
            !r.select,
            !r.target,
            r.tx_enabled,
            r.tx@.len() == 0,
            r.rx_enabled,
            r.rx@.len() == 0,
            !r.ack,
            !r.acked,
            !r.irq,
            r.baud_timer == 0,
            r.baud_rate == 0,
            r.mode == 0,
    {
        Joypad {
            select: false,
            target: false,
            tx_enabled: true,
            tx: Vec::new(),
            rx_enabled: true,
            rx: Vec::new(),
            ack: false,
            acked: false,
            irq: false,
            baud_timer: 0,
            baud_rate: 0,
            mode: 0,
        }
    }

    /// Drains one pending TX byte and runs it as a command.  The only
    /// command answered is the controller probe 0x01, which pushes a
    /// single zero into RX (an unconnected controller).
    pub fn tick(&mut self)
        ensures
            old(self).tx_enabled && old(self).tx@.len() > 0 ==> final(self).tx@ == old(
                self,
            ).tx@.remove(0) && (old(self).tx@[0] == 1 ==> final(self).rx@ == old(
                self,
            ).rx@.push(0u8)) && (old(self).tx@[0] != 1 ==> final(self).rx@ == old(self).rx@),
            !(old(self).tx_enabled && old(self).tx@.len() > 0) ==> *final(self) == *old(self),
            final(self).tx_enabled == old(self).tx_enabled,
            final(self).baud_rate == old(self).baud_rate,
            final(self).mode == old(self).mode,
            final(self).irq == old(self).irq,
    {
        if self.tx_enabled && self.tx.len() > 0 {
            let cmd = self.tx.remove(0);
            self.command(cmd);
        }
    }

    /// Reads the RX pop (offset 0), status (4), mode (8), control (10) or
    /// baud rate (14).  Popping an empty RX FIFO reads zero.
    pub fn load(&mut self, offset: u32, w: AccessWidth) -> (r: Result<u32, Fault>)
        ensures
            joypad_load_post(*old(self), *final(self), offset, w, r),
            final(self).tx@ == old(self).tx@,
    {
        match offset {
            0 => {
                proof {
                    assert(0u32 & 0xFF == 0 && 0u32 & 0xFFFF == 0) by (bit_vector);
                }
                let b: u8 = if self.rx.len() > 0 {
                    self.rx.remove(0)
                } else {
                    0
                };
                Ok(trunc(b as u32, w))
            },
            4 => Ok(trunc(self.stat(), w)),
            8 => Ok(trunc(self.mode as u32, w)),
            10 => Ok(trunc(self.ctrl() as u32, w)),
            14 => Ok(trunc(self.baud_rate as u32, w)),
            _ => Err(Fault::UnhandledJoypadRegister { offset }),
        }
    }

    /// Writes the TX push (offset 0), mode (8), control (10) or baud rate
    /// (14).  A write to the data port queues one byte for the next tick.
    pub fn store(&mut self, offset: u32, val: u32) -> (r: Result<(), Fault>)
        ensures
            joypad_store_post(*old(self), *final(self), offset, val, r),
    {
        match offset {
            0 => {
                self.tx.push(val as u8);
                Ok(())
            },
            8 => {
                self.mode = val as u16;
                Ok(())
            },
            10 => {
                self.set_ctrl(val as u16);
                Ok(())
            },
            14 => {
                self.baud_rate = val as u16;
                Ok(())
            },
            _ => Err(Fault::UnhandledJoypadRegister { offset }),
        }
    }

    /// Runs one drained TX byte; only the probe command 0x01 answers.
    fn command(&mut self, command: u8)
        ensures
            command == 1 ==> *final(self) == (Joypad { rx: final(self).rx, ..*old(self) })
                && final(self).rx@ == old(self).rx@.push(0u8),
            command != 1 ==> *final(self) == *old(self),
    {
        if command == 1 {
            self.command_access();
        }
    }

    /// An unconnected controller: answer the probe with a single zero.
    fn command_access(&mut self)
        ensures
            *final(self) == (Joypad { rx: final(self).rx, ..*old(self) }),
            final(self).rx@ == old(self).rx@.push(0u8),
    {
        self.rx.push(0);
    }

    /// The status word, as `joypad_stat` states it.
    fn stat(&self) -> (r: u32)
        ensures
            r == joypad_stat(*self),
    {
        (self.tx.is_empty() as u32) | (((!self.rx.is_empty()) as u32) << 1) | ((self.ack
            as u32) << 7) | ((self.irq as u32) << 9) | ((self.baud_timer as u32) << 11)
    }

    /// The control word, as `joypad_ctrl` states it.
    fn ctrl(&self) -> (r: u16)
        ensures
            r == joypad_ctrl(*self),
    {
        (self.tx_enabled as u16) | ((self.select as u16) << 1) | ((self.rx_enabled as u16) << 2)
            | ((self.acked as u16) << 12) | ((self.target as u16) << 13)
    }

    /// Decodes a control-word write, as `joypad_set_ctrl` states it.
    fn set_ctrl(&mut self, val: u16)
        ensures
            *final(self) == joypad_set_ctrl(*old(self), val),
    {
        self.tx_enabled = val & 1 > 0;
        self.select = (val >> 1) & 1 > 0;
        self.rx_enabled = (val >> 2) & 1 > 0;

        if (val >> 4) & 1 > 0 {
            self.irq = false;
        }

        if self.select {
            self.target = (val >> 13) & 1 > 0;
        }
    }
}

/// Effect of a control-word write: decode the enable and select bits,
/// clear the IRQ on the ack bit, and take the target select while
/// selected.
pub open spec fn joypad_set_ctrl(j: Joypad, val: u16) -> Joypad {
    let select = (val >> 1) & 1 > 0;
    Joypad {
        tx_enabled: val & 1 > 0,
        select,
        rx_enabled: (val >> 2) & 1 > 0,
        irq: if (val >> 4) & 1 > 0 {
            false
        } else {
            j.irq
        },
        target: if select {
            (val >> 13) & 1 > 0
        } else {
            j.target
        },
        ..j
    }
}

} // verus!
