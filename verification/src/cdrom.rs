//! CD-ROM front-end: a 2-bit index register selecting four register banks,
//! parameter/response/data FIFOs, interrupt enable and flag bytes, and a
//! command scheduler.  A command pushes one or two delayed actions onto a
//! queue; each tick counts the head delay down and fires the action, which
//! pushes a response and raises one of the interrupt causes.

use vstd::prelude::*;

use crate::addressible::{trunc, trunc_width, AccessWidth};
use crate::fault::Fault;

verus! {

/// Drive activity reported in the stat byte.
#[derive(Clone, Copy, Debug, PartialEq, Eq, Structural)]
pub enum CdRomStatus {
    Idle,
    Seeking,
    Reading,
}

/// Interrupt cause raised by a fired action.
#[derive(Clone, Copy, Debug, PartialEq, Eq, Structural)]
pub enum CdRomIrq {
    ReadReady,
    SecondOk,
    FirstOk,
    Error,
}

/// The 3-bit code of an interrupt cause.
pub open spec fn irq_code(irq: CdRomIrq) -> u8 {
    match irq {
        CdRomIrq::ReadReady => 1,
        CdRomIrq::SecondOk => 2,
        CdRomIrq::FirstOk => 3,
        CdRomIrq::Error => 5,
    }
}

/// A seek position as minute, second and sector numbers.
#[derive(Clone, Copy, Debug, PartialEq, Eq, Structural)]
pub struct Mss {
    pub min: u8,
    pub sec: u8,
    pub sector: u8,
}

/// Byte offset of `m` into the disc image, under the emulator's internal
/// sector scaling.
pub open spec fn mss_addr(m: Mss, raw: bool) -> u32 {
    if raw {
        (m.sector as u32 * 924) as u32
    } else {
        (m.sector as u32 * 800) as u32
    }
}

impl Mss {
    /// Byte offset of this position into the disc image.
    pub fn into_addr(&self, raw: bool) -> (r: u32)
        ensures
            r == mss_addr(*self, raw),
    {
        if raw {
            (self.sector as u32) * 924
        } else {
            (self.sector as u32) * 800
        }
    }
}

/// One deferred command step of the drive protocol: each pushes a reply
/// into the response FIFO and raises an interrupt cause when its delay
/// runs out.
#[derive(Clone, Copy, Debug, PartialEq, Eq, Structural)]
pub enum CdAction {
    /// Reply with the stat byte and the first acknowledge.
    FirstReply,
    /// Second phase of Init: double speed and raw sectors off.
    InitApply,
    /// Apply a SetMode parameter byte.
    SetModeApply { mode: u8 },
    /// Latch a SetLoc position for the next seek.
    SetLocApply { min: u8, sec: u8, sector: u8 },
    /// Second phase of ReadN/ReadS: enter the reading state.
    ReadStart,
    /// Second phase of Pause: back to idle.
    PauseApply,
    /// Second phase of ReadTOC.
    TocDone,
    /// First phase of SeekL: enter the seeking state.
    SeekStart,
    /// Second phase of SeekL: idle again, read cursor rewound.
    SeekDone,
    /// Reply with the controller version bytes.
    TestVersion,
    /// GetId second phase without a disc: deny with an error.
    GetIdNoDisc,
    /// GetId second phase with a licensed disc present.
    GetIdDisc,
}

/// Spec-level state of the front-end, with the FIFOs and the task queue
/// as sequences.
#[verifier::ext_equal]
pub ghost struct CdModel {
    pub index: u8,
    pub disc: Option<Seq<u8>>,
    pub params: Seq<u8>,
    pub response: Seq<u8>,
    pub status: CdRomStatus,
    pub double_speed: bool,
    pub raw_sector: bool,
    pub read_active: bool,
    pub seek_position: Option<Mss>,
    pub current_position: Mss,
    pub read_index: u16,
    pub ie: u8,
    pub irq: u8,
    pub tasks: Seq<(u32, CdAction)>,
}

/// The stat byte: shell-open with no disc, else the motor-on base plus
/// the activity bits.
pub open spec fn cd_stat(c: CdModel) -> u8 {
    if c.disc is None {
        0x10
    } else {
        match c.status {
            CdRomStatus::Idle => 0x02,
            CdRomStatus::Seeking => 0x42,
            CdRomStatus::Reading => 0x22,
        }
    }
}

/// The port-0 status byte: index, FIFO states, data-read activity.  The
/// controller is never busy between ticks.
pub open spec fn cd_status_byte(c: CdModel) -> u8 {
    ((c.index & 3) | (((c.params.len() == 0) as u8) << 3) | (((c.params.len() < 16) as u8) << 4)
        | (((c.response.len() != 0) as u8) << 5) | ((c.read_active as u8) << 6)) as u8
}

/// Raising an interrupt cause: the low 3 bits take the code.
pub open spec fn cd_raise(irq: u8, cause: CdRomIrq) -> u8 {
    ((irq & 0xF8) | (irq_code(cause) & 0x7)) as u8
}

/// Effect of one fired action on the front-end.
#[verifier::opaque]
pub open spec fn cd_run_action(c: CdModel, a: CdAction) -> CdModel {
    match a {
        CdAction::FirstReply => CdModel {
            response: c.response.push(cd_stat(c)),
            irq: cd_raise(c.irq, CdRomIrq::FirstOk),
            ..c
        },
        CdAction::InitApply => {
            let c2 = CdModel { double_speed: false, raw_sector: false, ..c };
            CdModel {
                response: c.response.push(cd_stat(c2)),
                irq: cd_raise(c.irq, CdRomIrq::SecondOk),
                ..c2
            }
        },
        CdAction::SetModeApply { mode } => {
            let c2 = CdModel {
                double_speed: mode & 0x80 != 0,
                raw_sector: mode & 0x20 != 0,
                ..c
            };
            CdModel {
                response: c.response.push(cd_stat(c2)),
                irq: cd_raise(c.irq, CdRomIrq::FirstOk),
                ..c2
            }
        },
        CdAction::SetLocApply { min, sec, sector } => CdModel {
            seek_position: Some(Mss { min, sec, sector }),
            response: c.response.push(cd_stat(c)),
            irq: cd_raise(c.irq, CdRomIrq::FirstOk),
            ..c
        },
        CdAction::ReadStart => {
            let c2 = CdModel { status: CdRomStatus::Reading, ..c };
            CdModel {
                response: c.response.push(cd_stat(c2)),
                irq: cd_raise(c.irq, CdRomIrq::ReadReady),
                ..c2
            }
        },
        CdAction::PauseApply => {
            let c2 = CdModel { status: CdRomStatus::Idle, ..c };
            CdModel {
                response: c.response.push(cd_stat(c2)),
                irq: cd_raise(c.irq, CdRomIrq::SecondOk),
                ..c2
            }
        },
        CdAction::TocDone => CdModel {
            response: c.response.push(cd_stat(c)),
            irq: cd_raise(c.irq, CdRomIrq::SecondOk),
            ..c
        },
        CdAction::SeekStart => {
            let c2 = CdModel { status: CdRomStatus::Seeking, ..c };
            CdModel {
                response: c.response.push(cd_stat(c2)),
                irq: cd_raise(c.irq, CdRomIrq::FirstOk),
                ..c2
            }
        },
        CdAction::SeekDone => {
            let c2 = CdModel { status: CdRomStatus::Idle, read_index: 0, ..c };
            CdModel {
                response: c.response.push(cd_stat(c2)),
                irq: cd_raise(c.irq, CdRomIrq::SecondOk),
                ..c2
            }
        },
        CdAction::TestVersion => CdModel {
            response: c.response.push(0x96u8).push(0x09u8).push(0x12u8).push(0xC2u8),
            irq: cd_raise(c.irq, CdRomIrq::FirstOk),
            ..c
        },
        CdAction::GetIdNoDisc => CdModel {
            response: c.response.push(0x08u8).push(0x40u8).push(0u8).push(0u8).push(0u8).push(
                0u8,
            ).push(0u8).push(0u8),
            irq: cd_raise(c.irq, CdRomIrq::Error),
            ..c
        },
        CdAction::GetIdDisc => CdModel {
            response: c.response.push(0x02u8).push(0x00u8).push(0x20u8).push(0x00u8).push(
                0x53u8,
            ).push(0x43u8).push(0x45u8).push(0x49u8),
            irq: cd_raise(c.irq, CdRomIrq::SecondOk),
            ..c
        },
    }
}

/// One scheduler tick: count the head delay down, or fire the head
/// action.
pub open spec fn cd_tick_spec(c: CdModel) -> CdModel {
    if c.tasks.len() == 0 {
        c
    } else if c.tasks[0].0 > 0 {
        CdModel {
            tasks: c.tasks.update(0, (((c.tasks[0].0 - 1) as u32), c.tasks[0].1)),
            ..c
        }
    } else {
        cd_run_action(CdModel { tasks: c.tasks.remove(0), ..c }, c.tasks[0].1)
    }
}

/// Internal micro-controller phase; it idles between commands.
#[derive(Clone, Copy, Debug, PartialEq, Eq, Structural)]
pub enum ControllerStatus {
    Idle,
    ParamPush,
    CommandPush,
    Execution,
    ResponseFlush,
    ResponsePush,
    IrqDelay,
}

/// The command micro-controller; it holds no work between ticks.
pub struct Controller {
    pub status: ControllerStatus,
    pub stalls: u32,
}

impl Controller {
    pub fn new() -> (r: Controller)
        ensures
            r.status == ControllerStatus::Idle,
            r.stalls == 0,
    {
        Controller { status: ControllerStatus::Idle, stalls: 0 }
    }

    pub fn tick(&mut self)
        ensures
            final(self).status == old(self).status,
            final(self).stalls == if old(self).stalls > 0 {
                (old(self).stalls - 1) as u32
            } else {
                old(self).stalls
            },
    {
        if self.stalls > 0 {
            self.stalls = self.stalls - 1;
        }
    }
}

pub struct CdRom {
    pub index: u8,
    pub controller: Controller,
    pub disc: Option<Vec<u8>>,
    pub parameter_fifo: Vec<u8>,
    pub response_fifo: Vec<u8>,
    pub status: CdRomStatus,
    pub double_speed: bool,
    pub raw_sector: bool,
    pub read_active: bool,
    pub seek_position: Option<Mss>,
    pub current_position: Mss,
    pub read_index: u16,
    pub ie: u8,
    pub irq: u8,
    pub tasks: Vec<(u32, CdAction)>,
}

impl CdRom {
    /// The spec-level state.
    pub closed spec fn view(&self) -> CdModel {
        CdModel {
            index: self.index,
            disc: match self.disc {
                Some(d) => Some(d@),
                None => None,
            },
            params: self.parameter_fifo@,
            response: self.response_fifo@,
            status: self.status,
            double_speed: self.double_speed,
            raw_sector: self.raw_sector,
            read_active: self.read_active,
            seek_position: self.seek_position,
            current_position: self.current_position,
            read_index: self.read_index,
            ie: self.ie,
            irq: self.irq,
            tasks: self.tasks@,
        }
    }

    pub open spec fn wf(&self) -> bool {
        self@.index < 4
    }

    pub fn new(disc: Option<Vec<u8>>) -> (r: CdRom)
        ensures
            r.wf(),
            r@.index == 0,
            r@.disc == (match disc {
                Some(d) => Some::<Seq<u8>>(d@),
                None => None::<Seq<u8>>,
            }),
            r@.params.len() == 0,
            r@.response.len() == 0,
            r@.status == CdRomStatus::Idle,
            !r@.double_speed,
            !r@.raw_sector,
            !r@.read_active,
            r@.seek_position is None,
            r@.current_position == (Mss { min: 0, sec: 0, sector: 0 }),
            r@.read_index == 0,
            r@.ie == 0,
            r@.irq == 0,
            r@.tasks.len() == 0,
    {
        CdRom {
            index: 0,
            controller: Controller::new(),
            disc,
            parameter_fifo: Vec::new(),
            response_fifo: Vec::new(),
            status: CdRomStatus::Idle,
            double_speed: false,
            raw_sector: false,
            read_active: false,
            seek_position: None,
            current_position: Mss { min: 0, sec: 0, sector: 0 },
            read_index: 0,
            ie: 0,
            irq: 0,
            tasks: Vec::new(),
        }
    }

    /// True iff some raised cause is enabled.
    pub fn check_irq(&self) -> (r: bool)
        ensures
            r == (self@.irq & self@.ie != 0),
    {
        self.irq & self.ie != 0
    }

    /// One scheduler tick, as `cd_tick_spec` states it.
    pub fn tick(&mut self)
        requires
            old(self).wf(),
        ensures
            final(self)@ =~= cd_tick_spec(old(self)@),
            final(self).wf(),
    {
        if self.tasks.len() > 0 {
            let delay = self.tasks[0].0;
            if delay > 0 {
                let action = self.tasks[0].1;
                self.tasks[0] = (delay - 1, action);
            } else {
                let task = self.tasks.remove(0);
                self.run_action(task.1);
            }
        }
        self.controller.tick();
    }

    /// Fires one action, as `cd_run_action` states it.
    fn run_action(&mut self, a: CdAction)
        requires
            old(self).wf(),
        ensures
            final(self)@ =~= cd_run_action(old(self)@, a),
            final(self).wf(),
    {
        proof {
            reveal(cd_run_action);
        }
        match a {
            CdAction::FirstReply => {
                let stat = self.stat();
                self.response_fifo.push(stat);
                self.raise_irq(CdRomIrq::FirstOk);
            },
            CdAction::InitApply => {
                self.double_speed = false;
                self.raw_sector = false;
                let stat = self.stat();
                self.response_fifo.push(stat);
                self.raise_irq(CdRomIrq::SecondOk);
            },
            CdAction::SetModeApply { mode } => {
                self.double_speed = mode & 0x80 != 0;
                self.raw_sector = mode & 0x20 != 0;
                let stat = self.stat();
                self.response_fifo.push(stat);
                self.raise_irq(CdRomIrq::FirstOk);
            },
            CdAction::SetLocApply { min, sec, sector } => {
                self.seek_position = Some(Mss { min, sec, sector });
                let stat = self.stat();
                self.response_fifo.push(stat);
                self.raise_irq(CdRomIrq::FirstOk);
            },
            CdAction::ReadStart => {
                self.status = CdRomStatus::Reading;
                let stat = self.stat();
                self.response_fifo.push(stat);
                self.raise_irq(CdRomIrq::ReadReady);
            },
            CdAction::PauseApply => {
                self.status = CdRomStatus::Idle;
                let stat = self.stat();
                self.response_fifo.push(stat);
                self.raise_irq(CdRomIrq::SecondOk);
            },
            CdAction::TocDone => {
                let stat = self.stat();
                self.response_fifo.push(stat);
                self.raise_irq(CdRomIrq::SecondOk);
            },
            CdAction::SeekStart => {
                self.status = CdRomStatus::Seeking;
                let stat = self.stat();
                self.response_fifo.push(stat);
                self.raise_irq(CdRomIrq::FirstOk);
            },
            CdAction::SeekDone => {
                self.status = CdRomStatus::Idle;
                self.read_index = 0;
                let stat = self.stat();
                self.response_fifo.push(stat);
                self.raise_irq(CdRomIrq::SecondOk);
            },
            CdAction::TestVersion => {
                self.response_fifo.push(0x96);
                self.response_fifo.push(0x09);
                self.response_fifo.push(0x12);
                self.response_fifo.push(0xC2);
                self.raise_irq(CdRomIrq::FirstOk);
            },
            CdAction::GetIdNoDisc => {
                self.response_fifo.push(0x08);
                self.response_fifo.push(0x40);
                self.response_fifo.push(0x00);
                self.response_fifo.push(0x00);
                self.response_fifo.push(0x00);
                self.response_fifo.push(0x00);
                self.response_fifo.push(0x00);
                self.response_fifo.push(0x00);
                self.raise_irq(CdRomIrq::Error);
            },
            CdAction::GetIdDisc => {
                self.response_fifo.push(0x02);
                self.response_fifo.push(0x00);
                self.response_fifo.push(0x20);
                self.response_fifo.push(0x00);
                self.response_fifo.push(0x53);
                self.response_fifo.push(0x43);
                self.response_fifo.push(0x45);
                self.response_fifo.push(0x49);
                self.raise_irq(CdRomIrq::SecondOk);
            },
        }
    }


    /// Clears the interrupt-flag bits written as 1; acknowledging any of
    /// the low five bits flushes the response FIFO, bit 6 clears the
    /// parameter FIFO.
    pub open spec fn set_irq_spec(c: CdModel, val: u8) -> CdModel {
        CdModel {
            irq: (c.irq & !val) as u8,
            response: if val & 0x1F != 0 {
                Seq::empty()
            } else {
                c.response
            },
            params: if val & 0x40 != 0 {
                Seq::empty()
            } else {
                c.params
            },
            ..c
        }
    }

    /// Which fault, if any, a command byte raises before it schedules
    /// anything: SetLoc wants three parameters, SetMode one.
    pub open spec fn command_fault(c: CdModel, val: u8) -> Option<Fault> {
        if val == 0x02 && c.params.len() < 3 {
            Some(Fault::MissingCdRomParameter)
        } else if val == 0x0E && c.params.len() < 1 {
            Some(Fault::MissingCdRomParameter)
        } else {
            None
        }
    }

    /// Effect of a command byte: schedule the protocol steps and clear the
    /// parameter FIFO.  ReadTOC answers its first phase at once; SeekL
    /// applies a queued SetLoc at once.  An unsupported command only logs
    /// and leaves the scheduler, and the parameter FIFO, alone.
    #[verifier::opaque]
    pub open spec fn command_spec(c: CdModel, val: u8) -> CdModel {
        if val == 0x01 {
            CdModel {
                tasks: c.tasks.push((50000u32, CdAction::FirstReply)),
                params: Seq::empty(),
                ..c
            }
        } else if val == 0x02 {
            CdModel {
                tasks: c.tasks.push(
                    (
                        50000u32,
                        CdAction::SetLocApply {
                            min: c.params[0],
                            sec: c.params[1],
                            sector: c.params[2],
                        },
                    ),
                ),
                params: Seq::empty(),
                ..c
            }
        } else if val == 0x06 || val == 0x1B {
            CdModel {
                tasks: c.tasks.push((50000u32, CdAction::FirstReply)).push(
                    (50000u32, CdAction::ReadStart),
                ),
                params: Seq::empty(),
                ..c
            }
        } else if val == 0x09 {
            CdModel {
                tasks: c.tasks.push((50000u32, CdAction::FirstReply)).push(
                    (50000u32, CdAction::PauseApply),
                ),
                params: Seq::empty(),
                ..c
            }
        } else if val == 0x0A {
            CdModel {
                tasks: c.tasks.push((50000u32, CdAction::FirstReply)).push(
                    (900000u32, CdAction::InitApply),
                ),
                params: Seq::empty(),
                ..c
            }
        } else if val == 0x0E {
            CdModel {
                tasks: c.tasks.push((50000u32, CdAction::SetModeApply { mode: c.params[0] })),
                params: Seq::empty(),
                ..c
            }
        } else if val == 0x15 {
            CdModel {
                current_position: match c.seek_position {
                    Some(p) => p,
                    None => c.current_position,
                },
                tasks: c.tasks.push((50000u32, CdAction::SeekStart)).push(
                    (50000u32, CdAction::SeekDone),
                ),
                params: Seq::empty(),
                ..c
            }
        } else if val == 0x19 {
            if c.params.len() > 0 && c.params[0] == 0x20 {
                CdModel {
                    tasks: c.tasks.push((50000u32, CdAction::TestVersion)),
                    params: Seq::empty(),
                    ..c
                }
            } else {
                CdModel { params: Seq::empty(), ..c }
            }
        } else if val == 0x1A {
            CdModel {
                tasks: c.tasks.push((50000u32, CdAction::FirstReply)).push(
                    (
                        50000u32,
                        if c.disc is None {
                            CdAction::GetIdNoDisc
                        } else {
                            CdAction::GetIdDisc
                        },
                    ),
                ),
                params: Seq::empty(),
                ..c
            }
        } else if val == 0x1E {
            CdModel {
                response: c.response.push(cd_stat(c)),
                irq: cd_raise(c.irq, CdRomIrq::FirstOk),
                tasks: c.tasks.push((50000u32, CdAction::TocDone)),
                params: Seq::empty(),
                ..c
            }
        } else {
            c
        }
    }

    /// Runs a command byte, as `command_spec` states it; a command missing
    /// its parameters is a host-fatal fault and changes nothing.
    pub fn command(&mut self, val: u8) -> (r: Result<(), Fault>)
        requires
            old(self).wf(),
        ensures
            Self::command_fault(old(self)@, val) is Some ==> r == Err::<(), Fault>(
                Self::command_fault(old(self)@, val)->0,
            ) && final(self)@ == old(self)@,
            Self::command_fault(old(self)@, val) is None ==> r is Ok && final(self)@
                =~= Self::command_spec(old(self)@, val),
            final(self).wf(),
    {
        proof {
            reveal(CdRom::command_spec);
        }
        match val {
            0x01 => {
                self.tasks.push((50000, CdAction::FirstReply));
            },
            0x02 => {
                if self.parameter_fifo.len() < 3 {
                    return Err(Fault::MissingCdRomParameter);
                }
                let min = self.parameter_fifo[0];
                let sec = self.parameter_fifo[1];
                let sector = self.parameter_fifo[2];
                self.tasks.push((50000, CdAction::SetLocApply { min, sec, sector }));
            },
            0x06 | 0x1B => {
                self.tasks.push((50000, CdAction::FirstReply));
                self.tasks.push((50000, CdAction::ReadStart));
            },
            0x09 => {
                self.tasks.push((50000, CdAction::FirstReply));
                self.tasks.push((50000, CdAction::PauseApply));
            },
            0x0A => {
                self.tasks.push((50000, CdAction::FirstReply));
                self.tasks.push((900000, CdAction::InitApply));
            },
            0x0E => {
                if self.parameter_fifo.len() < 1 {
                    return Err(Fault::MissingCdRomParameter);
                }
                let mode = self.parameter_fifo[0];
                self.tasks.push((50000, CdAction::SetModeApply { mode }));
            },
            0x15 => {
                match self.seek_position {
                    Some(p) => {
                        self.current_position = p;
                    },
                    None => {},
                }
                self.tasks.push((50000, CdAction::SeekStart));
                self.tasks.push((50000, CdAction::SeekDone));
            },
            0x19 => {
                if self.parameter_fifo.len() > 0 {
                    let sub = self.parameter_fifo[0];
                    if sub == 0x20 {
                        self.tasks.push((50000, CdAction::TestVersion));
                    }
                }
            },
            0x1A => {
                self.tasks.push((50000, CdAction::FirstReply));
                let second = match self.disc {
                    Some(_) => CdAction::GetIdDisc,
                    None => CdAction::GetIdNoDisc,
                };
                self.tasks.push((50000, second));
            },
            0x1E => {
                let stat = self.stat();
                self.response_fifo.push(stat);
                self.raise_irq(CdRomIrq::FirstOk);
                self.tasks.push((50000, CdAction::TocDone));
            },
            _ => {
                // Unsupported command: log-and-continue; the scheduler and
                // the parameter FIFO stay as they are.
                return Ok(());
            },
        }
        self.parameter_fifo.clear();
        Ok(())
    }


    /// Byte offset into the disc image where the data FIFO reads next.
    pub open spec fn data_addr(c: CdModel) -> int {
        mss_addr(c.current_position, c.raw_sector) + c.read_index
    }

    /// Whether a data-FIFO read of `n` bytes is in range of the disc.
    pub open spec fn data_read_ok(c: CdModel, n: int) -> bool {
        &&& c.disc is Some
        &&& Self::data_addr(c) + n <= c.disc->0.len()
        &&& c.read_index + n <= 0xFFFF
    }

    /// The value of an `n`-byte little-endian data-FIFO read.
    pub open spec fn data_read_val(c: CdModel, n: int) -> u32 {
        let d = c.disc->0;
        let a = Self::data_addr(c);
        if n == 1 {
            d[a] as u32
        } else if n == 2 {
            (d[a] as u32) | ((d[a + 1] as u32) << 8)
        } else {
            (d[a] as u32) | ((d[a + 1] as u32) << 8) | ((d[a + 2] as u32) << 16) | ((d[a + 3]
                as u32) << 24)
        }
    }


    /// The full outcome of a register read at `offset` of the bank the
    /// index register selects, relating the states before and after.
    pub open spec fn load_post(
        pre: CdModel,
        post: CdModel,
        offset: u32,
        w: AccessWidth,
        r: Result<u32, Fault>,
    ) -> bool {
        &&& (offset == 0 ==> r == Ok::<u32, Fault>(trunc_width(cd_status_byte(pre) as u32, w))
            && post == pre)
        &&& (offset == 1 ==> r is Ok && (pre.response.len() > 0 ==> r->Ok_0 == trunc_width(
            pre.response[0] as u32,
            w,
        ) && post =~= (CdModel { response: pre.response.remove(0), ..pre })) && (
        pre.response.len() == 0 ==> r->Ok_0 == 0 && post == pre))
        &&& (offset == 2 ==> (Self::data_read_ok(pre, crate::addressible::width_len(w)) ==> r
            == Ok::<u32, Fault>(Self::data_read_val(pre, crate::addressible::width_len(w)))
            && post =~= (CdModel {
            read_index: (pre.read_index + crate::addressible::width_len(w)) as u16,
            ..pre
        })) && (!Self::data_read_ok(pre, crate::addressible::width_len(w)) ==> r == Err::<
            u32,
            Fault,
        >(Fault::DiscAccessOutOfRange) && post == pre))
        &&& (offset == 3 ==> post == pre && (pre.index == 0 || pre.index == 2 ==> r == Ok::<
            u32,
            Fault,
        >(trunc_width(pre.ie as u32, w))) && (pre.index == 1 || pre.index == 3 ==> r == Ok::<
            u32,
            Fault,
        >(trunc_width(pre.irq as u32, w))))
    }

    /// The full outcome of a register write at `offset` of the selected
    /// bank.  The ports accept only byte stores; a wider store is
    /// dropped.
    pub open spec fn store_post(
        pre: CdModel,
        post: CdModel,
        offset: u32,
        val: u32,
        w: AccessWidth,
        r: Result<(), Fault>,
    ) -> bool {
        &&& (!(w is Byte) ==> r is Ok && post == pre)
        &&& (w is Byte && offset == 0 ==> r is Ok && post =~= (CdModel {
            index: ((val as u8) & 3) as u8,
            ..pre
        }))
        &&& (w is Byte && offset == 1 ==> (pre.index == 0 ==> (Self::command_fault(
            pre,
            val as u8,
        ) is Some ==> r == Err::<(), Fault>(Self::command_fault(pre, val as u8)->0) && post
            == pre) && (Self::command_fault(pre, val as u8) is None ==> r is Ok && post
            =~= Self::command_spec(pre, val as u8))) && (pre.index != 0 ==> r is Ok && post
            == pre))
        &&& (w is Byte && offset == 2 ==> r is Ok && (pre.index == 0 ==> post =~= (CdModel {
            params: pre.params.push(val as u8),
            ..pre
        })) && (pre.index == 1 ==> post =~= (CdModel { ie: val as u8, ..pre })) && (pre.index
            == 2 || pre.index == 3 ==> post == pre))
        &&& (w is Byte && offset == 3 ==> r is Ok && (pre.index == 0 ==> post =~= (CdModel {
            read_active: (val as u8) & 0x80 != 0,
            read_index: if (val as u8) & 0x80 != 0 {
                0
            } else {
                pre.read_index
            },
            ..pre
        })) && (pre.index == 1 ==> post =~= Self::set_irq_spec(pre, val as u8)) && (pre.index
            == 2 || pre.index == 3 ==> post == pre))
    }

    /// Reads port `offset` of the bank the index register selects:
    /// status byte, response-FIFO pop, data-FIFO pop at the access width,
    /// or the interrupt enable and flag bytes.
    pub fn load(&mut self, offset: u32, w: AccessWidth) -> (r: Result<u32, Fault>)
        requires
            old(self).wf(),
            offset < 4,
        ensures
            final(self).wf(),
            Self::load_post(old(self)@, final(self)@, offset, w, r),
    {
        match offset {
            0 => {
                let s = self.status_byte();
                Ok(trunc(s as u32, w))
            },
            1 => {
                proof {
                    assert(0u32 & 0xFF == 0 && 0u32 & 0xFFFF == 0) by (bit_vector);
                }
                let b: u8 = if self.response_fifo.len() > 0 {
                    self.response_fifo.remove(0)
                } else {
                    0
                };
                Ok(trunc(b as u32, w))
            },
            2 => {
                let n = w.len();
                let base = self.current_position.into_addr(self.raw_sector);
                match &self.disc {
                    None => Err(Fault::DiscAccessOutOfRange),
                    Some(d) => {
                        if self.read_index as usize + n > 0xFFFF {
                            return Err(Fault::DiscAccessOutOfRange);
                        }
                        let start = base as usize + self.read_index as usize;
                        if start + n > d.len() {
                            return Err(Fault::DiscAccessOutOfRange);
                        }
                        let v = crate::addressible::bytes_load(d, start, w);
                        self.read_index = self.read_index + n as u16;
                        Ok(v)
                    },
                }
            },
            _ => {
                let v = match self.index {
                    0 | 2 => self.ie,
                    _ => self.irq,
                };
                Ok(trunc(v as u32, w))
            },
        }
    }

    /// Writes port `offset` of the bank the index register selects.  The
    /// ports accept only byte stores; a wider store is logged and dropped.
    pub fn store(&mut self, offset: u32, val: u32, w: AccessWidth) -> (r: Result<(), Fault>)
        requires
            old(self).wf(),
            offset < 4,
        ensures
            final(self).wf(),
            Self::store_post(old(self)@, final(self)@, offset, val, w, r),
    {
        match w {
            AccessWidth::Byte => {},
            _ => {
                // The front-end accepts only byte stores; log and drop.
                return Ok(());
            },
        }
        let val = val as u8;

        match offset {
            0 => {
                self.index = val & 3;
                proof {
                    let v = val;
                    assert(v & 3 < 4) by (bit_vector);
                }
                Ok(())
            },
            1 => {
                if self.index == 0 {
                    self.command(val)
                } else {
                    // Sound map and audio-volume writes: log and drop.
                    Ok(())
                }
            },
            2 => {
                if self.index == 0 {
                    self.parameter_fifo.push(val);
                } else if self.index == 1 {
                    self.ie = val;
                }
                Ok(())
            },
            _ => {
                if self.index == 0 {
                    self.read_active = val & 0x80 != 0;
                    if val & 0x80 != 0 {
                        self.read_index = 0;
                    }
                } else if self.index == 1 {
                    self.set_irq(val);
                }
                Ok(())
            },
        }
    }

    /// The port-0 status byte, as `cd_status_byte` states it.
    fn status_byte(&self) -> (r: u8)
        ensures
            r == cd_status_byte(self@),
    {
        (self.index & 3) | ((self.parameter_fifo.is_empty() as u8) << 3) | (((
        self.parameter_fifo.len() < 16) as u8) << 4) | (((!self.response_fifo.is_empty())
            as u8) << 5) | ((self.read_active as u8) << 6)
    }

    /// Acknowledges interrupt-flag bits, as `set_irq_spec` states it.
    fn set_irq(&mut self, val: u8)
        ensures
            final(self)@ =~= Self::set_irq_spec(old(self)@, val),
            final(self).index == old(self).index,
    {
        self.irq = self.irq & !val;

        let ack = val & 0x1F;

        if ack != 0 {
            self.response_fifo.clear();
        }

        if val & 0x40 != 0 {
            self.parameter_fifo.clear();
        }
    }

    /// The stat byte, as `cd_stat` states it.
    fn stat(&self) -> (r: u8)
        ensures
            r == cd_stat(self@),
    {
        match self.disc {
            None => 0x10,
            Some(_) => match self.status {
                CdRomStatus::Idle => 0x02,
                CdRomStatus::Seeking => 0x42,
                CdRomStatus::Reading => 0x22,
            },
        }
    }

    /// Raises an interrupt cause into the low 3 bits of the flag byte.
    fn raise_irq(&mut self, cause: CdRomIrq)
        ensures
            *final(self) == (CdRom { irq: final(self).irq, ..*old(self) }),
            final(self).irq == cd_raise(old(self).irq, cause),
            final(self)@ == (CdModel { irq: cd_raise(old(self)@.irq, cause), ..old(self)@ }),
    {
        let code: u8 = match cause {
            CdRomIrq::ReadReady => 1,
            CdRomIrq::SecondOk => 2,
            CdRomIrq::FirstOk => 3,
            CdRomIrq::Error => 5,
        };
        self.irq = (self.irq & 0xF8) | (code & 0x7);
    }
}

} // verus!
