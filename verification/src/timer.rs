//! Programmable timers: a 16-bit counter gated per index against the
//! display's blanking signals, counting one of four clock sources, raising
//! an active-low IRQ line on reaching the target or 0xFFFF.

use vstd::prelude::*;

use crate::addressible::{trunc, trunc_width, AccessWidth};
use crate::fault::Fault;

verus! {

#[derive(Clone, Copy, Debug, PartialEq, Eq, Structural)]
pub struct Timer {
    /// Which of the three timers this is; decides sync and clock-source
    /// interpretation.
    pub index: u8,
    pub counter: u16,
    /// Free-running tick count, for the system/8 clock source.
    pub internal_counter: u32,
    pub sync_enable: bool,
    pub sync_mode: u8,
    pub use_target: bool,
    pub irq_target: bool,
    pub irq_full: bool,
    pub irq_repeat: bool,
    pub irq_toggle: bool,
    pub clock_source: u8,
    /// Active-low IRQ line.
    pub n_irq: bool,
    /// A one-shot IRQ has fired since the mode was last written.
    pub raised: bool,
    /// Whether sync mode 3 has seen its releasing blank yet.
    pub released: bool,
    pub prev_hblank: bool,
    pub prev_vblank: bool,
    pub target: u16,
}

/// `c + 1` wrapping at 16 bits.
pub open spec fn wrap_inc16(c: u16) -> u16 {
    if c == 0xFFFF {
        0
    } else {
        (c + 1) as u16
    }
}

/// `c + 1` wrapping at 32 bits.
pub open spec fn wrap_inc32(c: u32) -> u32 {
    if c == 0xFFFFFFFF {
        0
    } else {
        (c + 1) as u32
    }
}

/// The blanking signal this timer synchronises against: vblank for timer
/// 1, hblank otherwise.
pub open spec fn timer_blank(t: Timer, hblank: bool, vblank: bool) -> bool {
    if t.index == 1 {
        vblank
    } else {
        hblank
    }
}

/// The latched value of that signal from the previous tick.
pub open spec fn timer_prev_blank(t: Timer) -> bool {
    if t.index == 1 {
        t.prev_vblank
    } else {
        t.prev_hblank
    }
}

/// Bookkeeping every tick performs whether or not the counter advances:
/// latch the blanking signals, bump the internal counter, note a seen
/// blank for sync mode 3.
#[verifier::opaque]
pub open spec fn timer_latched(t: Timer, hblank: bool, vblank: bool) -> Timer {
    Timer {
        prev_hblank: hblank,
        prev_vblank: vblank,
        internal_counter: wrap_inc32(t.internal_counter),
        released: t.released || timer_blank(t, hblank, vblank),
        ..t
    }
}

/// Sync gate for one tick: `None` when the counter is paused this tick,
/// otherwise the counter value after any sync-driven reset.  `released`
/// has already been updated for this tick.
#[verifier::opaque]
pub open spec fn timer_gate(t: Timer, blank: bool, prev_blank: bool, released: bool) -> Option<
    u16,
> {
    if !t.sync_enable {
        Some(t.counter)
    } else if t.index == 2 {
        if t.sync_mode == 0 || t.sync_mode == 3 {
            None
        } else {
            Some(t.counter)
        }
    } else {
        if t.sync_mode == 0 {
            if blank {
                None
            } else {
                Some(t.counter)
            }
        } else if t.sync_mode == 1 {
            Some(
                if !prev_blank && blank {
                    0
                } else {
                    t.counter
                },
            )
        } else if t.sync_mode == 2 {
            if !prev_blank && blank {
                Some(0)
            } else if !blank {
                None
            } else {
                Some(t.counter)
            }
        } else {
            if released {
                Some(t.counter)
            } else {
                None
            }
        }
    }
}

/// Whether the counter advances this tick, given the per-index clock
/// source.
#[verifier::opaque]
pub open spec fn timer_increment(
    t: Timer,
    hblank: bool,
    prev_hblank: bool,
    dotclock: bool,
    internal: u32,
) -> bool {
    if t.index == 0 {
        if t.clock_source == 0 || t.clock_source == 2 {
            true
        } else {
            dotclock
        }
    } else if t.index == 1 {
        if t.clock_source == 0 || t.clock_source == 2 {
            true
        } else {
            !prev_hblank && hblank
        }
    } else {
        if t.clock_source == 0 || t.clock_source == 1 {
            true
        } else {
            internal % 8 == 0
        }
    }
}

/// Effect of raising the IRQ pulse: one-shot unless repeat; pulse mode
/// drives the line low, toggle mode flips it.
#[verifier::opaque]
pub open spec fn timer_raise(t: Timer) -> Timer {
    if t.irq_repeat || !t.raised {
        Timer {
            raised: true,
            n_irq: if t.irq_toggle {
                !t.n_irq
            } else {
                false
            },
            ..t
        }
    } else {
        t
    }
}

/// The counting phase: advance the gated counter when the clock source
/// fires; counting re-arms the IRQ line in pulse mode.
#[verifier::opaque]
pub open spec fn timer_counted(t: Timer, latched: Timer, gated: u16, inc: bool) -> Timer {
    Timer {
        counter: if inc {
            wrap_inc16(gated)
        } else {
            gated
        },
        n_irq: if inc && !t.irq_toggle {
            true
        } else {
            latched.n_irq
        },
        ..latched
    }
}

/// The target phase: on counter == target, fire the target pulse if
/// enabled and reset the counter if use-target is set.
#[verifier::opaque]
pub open spec fn timer_targeted(t: Timer, counted: Timer) -> Timer {
    if counted.counter == t.target {
        let raised = if t.irq_target {
            timer_raise(counted)
        } else {
            counted
        };
        if t.use_target {
            Timer { counter: 0, ..raised }
        } else {
            raised
        }
    } else {
        counted
    }
}

/// The overflow phase: on counter == 0xFFFF, fire the overflow pulse if
/// enabled.
#[verifier::opaque]
pub open spec fn timer_overflowed(t: Timer, targeted: Timer) -> Timer {
    if targeted.counter == 0xFFFF && t.irq_full {
        timer_raise(targeted)
    } else {
        targeted
    }
}

/// One tick of the timer against the blanking and dot-clock signals:
/// latch the previous blanks, advance the internal counter, gate per the
/// sync mode, count per the clock source, and fire target and overflow
/// pulses.
pub open spec fn timer_tick_spec(t: Timer, hblank: bool, vblank: bool, dotclock: bool) -> Timer {
    let latched = timer_latched(t, hblank, vblank);
    match timer_gate(t, timer_blank(t, hblank, vblank), timer_prev_blank(t), latched.released) {
        None => latched,
        Some(gated) => {
            let inc = timer_increment(t, hblank, t.prev_hblank, dotclock, latched.internal_counter);
            timer_overflowed(t, timer_targeted(t, timer_counted(t, latched, gated, inc)))
        },
    }
}

/// The mode word reassembled from the decoded fields, with the live
/// target-reached and overflow-reached comparisons in bits 11 and 12.
pub open spec fn timer_mode(t: Timer) -> u32 {
    (t.sync_enable as u32) | (((t.sync_mode as u32) & 0b11) << 1) | ((t.use_target as u32) << 3)
        | ((t.irq_target as u32) << 4) | ((t.irq_full as u32) << 5) | ((t.irq_repeat as u32) << 6)
        | ((t.irq_toggle as u32) << 7) | (((t.clock_source as u32) & 0b11) << 8) | ((t.n_irq
        as u32) << 10) | (((t.counter == t.target) as u32) << 11) | (((t.counter == 0xFFFF)
        as u32) << 12)
}

/// Effect of a store to one of the three timer registers; an offset the
/// timer does not decode leaves it unchanged.
pub open spec fn timer_store_spec(t: Timer, offset: u32, val: u32) -> Timer {
    if offset == 0 {
        Timer { counter: val as u16, ..t }
    } else if offset == 4 {
        timer_set_mode(t, val)
    } else if offset == 8 {
        Timer { target: val as u16, ..t }
    } else {
        t
    }
}

/// Effect of a mode-word write on the timer.
pub open spec fn timer_set_mode(t: Timer, val: u32) -> Timer {
    Timer {
        raised: false,
        sync_enable: val & 1 != 0,
        sync_mode: ((val >> 1) & 0b11) as u8,
        use_target: (val >> 3) & 1 != 0,
        irq_target: (val >> 4) & 1 != 0,
        irq_full: (val >> 5) & 1 != 0,
        irq_repeat: (val >> 6) & 1 != 0,
        irq_toggle: (val >> 7) & 1 != 0,
        clock_source: ((val >> 8) & 0b11) as u8,
        n_irq: (val >> 10) & 1 != 0,
        ..t
    }
}

impl Timer {
    pub fn new(index: u8) -> (r: Timer)
        ensures
            r == (Timer {
                index,
                counter: 0,
                internal_counter: 0,
                sync_enable: false,
                sync_mode: 0,
                use_target: false,
                irq_target: false,
                irq_full: false,
                irq_repeat: false,
                irq_toggle: false,
                clock_source: 0,
                n_irq: true,
                raised: false,
                released: false,
                prev_hblank: false,
                prev_vblank: false,
                target: 0,
            }),
    {
        Timer {
            index,
            counter: 0,
            internal_counter: 0,
            sync_enable: false,
            sync_mode: 0,
            use_target: false,
            irq_target: false,
            irq_full: false,
            irq_repeat: false,
            irq_toggle: false,
            clock_source: 0,
            n_irq: true,
            raised: false,
            released: false,
            prev_hblank: false,
            prev_vblank: false,
            target: 0,
        }
    }

    /// Reads the counter (offset 0), mode (offset 4) or target (offset 8).
    pub fn load(&self, offset: u32, w: AccessWidth) -> (r: Result<u32, Fault>)
        ensures
            offset == 0 ==> r == Ok::<u32, Fault>(trunc_width(self.counter as u32, w)),
            offset == 4 ==> r == Ok::<u32, Fault>(trunc_width(timer_mode(*self), w)),
            offset == 8 ==> r == Ok::<u32, Fault>(trunc_width(self.target as u32, w)),
            offset != 0 && offset != 4 && offset != 8 ==> r == Err::<u32, Fault>(
                Fault::UnhandledTimerRegister { offset },
            ),
    {
        let v = match offset {
            0 => self.counter as u32,
            4 => self.mode(),
            8 => self.target as u32,
            _ => {
                return Err(Fault::UnhandledTimerRegister { offset });
            },
        };
        Ok(trunc(v, w))
    }

    /// Writes the counter (offset 0), mode (offset 4) or target (offset 8).
    pub fn store(&mut self, offset: u32, val: u32) -> (r: Result<(), Fault>)
        ensures
            offset == 0 ==> r is Ok && *final(self) == (Timer {
                counter: val as u16,
                ..*old(self)
            }),
            offset == 4 ==> r is Ok && *final(self) == timer_set_mode(*old(self), val),
            offset == 8 ==> r is Ok && *final(self) == (Timer {
                target: val as u16,
                ..*old(self)
            }),
            offset != 0 && offset != 4 && offset != 8 ==> r == Err::<(), Fault>(
                Fault::UnhandledTimerRegister { offset },
            ) && *final(self) == *old(self),
    {
        match offset {
            0 => {
                self.counter = val as u16;
                Ok(())
            },
            4 => {
                self.set_mode(val);
                Ok(())
            },
            8 => {
                self.target = val as u16;
                Ok(())
            },
            _ => Err(Fault::UnhandledTimerRegister { offset }),
        }
    }

    /// One tick against the blanking and dot-clock signals.
    #[verifier::spinoff_prover]
    pub fn tick(&mut self, hblank: bool, vblank: bool, dotclock: bool)
        ensures
            *final(self) == timer_tick_spec(*old(self), hblank, vblank, dotclock),
    {
        let t = *self;
        let blank = if t.index == 1 {
            vblank
        } else {
            hblank
        };
        let prev_blank = if t.index == 1 {
            t.prev_vblank
        } else {
            t.prev_hblank
        };

        let latched = Self::latched_value(t, hblank, vblank, blank);

        match Self::gate_value(t, blank, prev_blank, latched.released) {
            None => {
                *self = latched;
            },
            Some(gated) => {
                let inc = Self::increment_value(
                    t,
                    hblank,
                    t.prev_hblank,
                    dotclock,
                    latched.internal_counter,
                );
                let counted = Self::counted_value(t, latched, gated, inc);
                let targeted = Self::targeted_value(t, counted);
                *self = Self::overflowed_value(t, targeted);
            },
        }
    }

    /// The every-tick bookkeeping, as `timer_latched` states it.
    fn latched_value(t: Timer, hblank: bool, vblank: bool, blank: bool) -> (r: Timer)
        requires
            blank == timer_blank(t, hblank, vblank),
        ensures
            r == timer_latched(t, hblank, vblank),
    {
        proof {
            reveal(timer_latched);
        }
        Timer {
            prev_hblank: hblank,
            prev_vblank: vblank,
            internal_counter: if t.internal_counter == 0xFFFFFFFF {
                0
            } else {
                t.internal_counter + 1
            },
            released: t.released || blank,
            ..t
        }
    }

    /// The sync gate, as `timer_gate` states it.
    fn gate_value(t: Timer, blank: bool, prev_blank: bool, released: bool) -> (r: Option<u16>)
        ensures
            r == timer_gate(t, blank, prev_blank, released),
    {
        proof {
            reveal(timer_gate);
        }
        if !t.sync_enable {
            Some(t.counter)
        } else if t.index == 2 {
            if t.sync_mode == 0 || t.sync_mode == 3 {
                None
            } else {
                Some(t.counter)
            }
        } else {
            if t.sync_mode == 0 {
                if blank {
                    None
                } else {
                    Some(t.counter)
                }
            } else if t.sync_mode == 1 {
                Some(
                    if !prev_blank && blank {
                        0
                    } else {
                        t.counter
                    },
                )
            } else if t.sync_mode == 2 {
                if !prev_blank && blank {
                    Some(0)
                } else if !blank {
                    None
                } else {
                    Some(t.counter)
                }
            } else {
                if released {
                    Some(t.counter)
                } else {
                    None
                }
            }
        }
    }

    /// The clock-source decision, as `timer_increment` states it.
    fn increment_value(t: Timer, hblank: bool, prev_hblank: bool, dotclock: bool, internal: u32)
        -> (r: bool)
        ensures
            r == timer_increment(t, hblank, prev_hblank, dotclock, internal),
    {
        proof {
            reveal(timer_increment);
        }
        if t.index == 0 {
            t.clock_source == 0 || t.clock_source == 2 || dotclock
        } else if t.index == 1 {
            t.clock_source == 0 || t.clock_source == 2 || (!prev_hblank && hblank)
        } else {
            t.clock_source == 0 || t.clock_source == 1 || internal % 8 == 0
        }
    }

    /// The counting phase, as `timer_counted` states it.
    fn counted_value(t: Timer, latched: Timer, gated: u16, inc: bool) -> (r: Timer)
        ensures
            r == timer_counted(t, latched, gated, inc),
    {
        proof {
            reveal(timer_counted);
        }
        Timer {
            counter: if inc {
                if gated == 0xFFFF {
                    0
                } else {
                    gated + 1
                }
            } else {
                gated
            },
            n_irq: if inc && !t.irq_toggle {
                true
            } else {
                latched.n_irq
            },
            ..latched
        }
    }

    /// The target phase, as `timer_targeted` states it.
    fn targeted_value(t: Timer, counted: Timer) -> (r: Timer)
        ensures
            r == timer_targeted(t, counted),
    {
        proof {
            reveal(timer_targeted);
        }
        if counted.counter == t.target {
            let raised = if t.irq_target {
                Self::raise_value(counted)
            } else {
                counted
            };
            if t.use_target {
                Timer { counter: 0, ..raised }
            } else {
                raised
            }
        } else {
            counted
        }
    }

    /// The overflow phase, as `timer_overflowed` states it.
    fn overflowed_value(t: Timer, targeted: Timer) -> (r: Timer)
        ensures
            r == timer_overflowed(t, targeted),
    {
        proof {
            reveal(timer_overflowed);
        }
        if targeted.counter == 0xFFFF && t.irq_full {
            Self::raise_value(targeted)
        } else {
            targeted
        }
    }

    /// Raising the IRQ pulse, as `timer_raise` states it.
    fn raise_value(t: Timer) -> (r: Timer)
        ensures
            r == timer_raise(t),
    {
        proof {
            reveal(timer_raise);
        }
        if t.irq_repeat || !t.raised {
            Timer {
                raised: true,
                n_irq: if t.irq_toggle {
                    !t.n_irq
                } else {
                    false
                },
                ..t
            }
        } else {
            t
        }
    }

    /// The mode word, with live target-reached and overflow-reached bits.
    pub fn mode(&self) -> (r: u32)
        ensures
            r == timer_mode(*self),
    {
        (self.sync_enable as u32) | (((self.sync_mode as u32) & 0b11) << 1) | ((self.use_target
            as u32) << 3) | ((self.irq_target as u32) << 4) | ((self.irq_full as u32) << 5) | ((
        self.irq_repeat as u32) << 6) | ((self.irq_toggle as u32) << 7) | (((self.clock_source
            as u32) & 0b11) << 8) | ((self.n_irq as u32) << 10) | (((self.counter == self.target)
            as u32) << 11) | (((self.counter == 0xFFFF) as u32) << 12)
    }

    /// Decodes a mode word; re-arms the one-shot IRQ latch.
    pub fn set_mode(&mut self, val: u32)
        ensures
            *final(self) == timer_set_mode(*old(self), val),
    {
        self.raised = false;
        self.sync_enable = val & 1 != 0;
        self.sync_mode = ((val >> 1) & 0b11) as u8;
        self.use_target = (val >> 3) & 1 != 0;
        self.irq_target = (val >> 4) & 1 != 0;
        self.irq_full = (val >> 5) & 1 != 0;
        self.irq_repeat = (val >> 6) & 1 != 0;
        self.irq_toggle = (val >> 7) & 1 != 0;
        self.clock_source = ((val >> 8) & 0b11) as u8;
        self.n_irq = (val >> 10) & 1 != 0;
    }
}

} // verus!
