//! MIPS I CPU interpreter: fetch/decode/execute with the COP0 exception
//! system, the architectural load-delay slot, and branch-delay
//! semantics.  Each step ticks the interconnect, commits the pending
//! delayed load into the out-register snapshot, executes one
//! instruction against that snapshot, and copies the snapshot back to
//! the live register file.

use vstd::prelude::*;

use crate::addressible::AccessWidth;
use crate::fault::Fault;
use crate::gte::Gte;
use crate::instruction::{imm_se_spec, Instruction, RegisterIndex};
use crate::interconnect::{mask_region_spec, mem_value, tick_irq_spec, Interconnect};

verus! {

/// What a completed step reports to the embedding run loop.
#[derive(Clone, Copy, Debug, PartialEq, Eq, Structural)]
pub enum Event {
    DoneStep,
    Halted,
    Break,
    WatchWrite(u32),
    WatchRead(u32),
}

/// What the run loop hands back to a remote-debug driver.
#[derive(Clone, Copy, Debug, PartialEq, Eq, Structural)]
pub enum RunEvent {
    IncomingData,
    Event(Event),
}

/// How the run loop advances the CPU.
#[derive(Clone, Copy, Debug, PartialEq, Eq, Structural)]
pub enum ExecMode {
    Continue,
    Step,
    RangeStep(u32, u32),
}

/// A guest-visible MIPS exception.
#[derive(Clone, Copy, Debug, PartialEq, Eq, Structural)]
pub enum Exception {
    Irq,
    LoadAddressError,
    StoreAddressError,
    SysCall,
    Break,
    Overflow,
    CoprocessorError,
    IllegalInstruction,
}

/// The CAUSE exception-code of `e`.
pub open spec fn exception_code(e: Exception) -> u32 {
    match e {
        Exception::Irq => 0x0,
        Exception::LoadAddressError => 0x4,
        Exception::StoreAddressError => 0x5,
        Exception::SysCall => 0x8,
        Exception::Break => 0x9,
        Exception::IllegalInstruction => 0xA,
        Exception::CoprocessorError => 0xB,
        Exception::Overflow => 0xC,
    }
}

/// Writing `v` to register `i` of the out-register snapshot `s`;
/// register 0 is forced back to zero afterwards.
pub open spec fn set_reg_spec(s: Seq<u32>, i: int, v: u32) -> Seq<u32> {
    s.update(i, v).update(0, 0u32)
}

/// Entering the exception handler: push the SR mode stack two bits
/// left, write the exception code into CAUSE bits 6:2 and the
/// branch-delay flag into bit 31 while preserving the other CAUSE bits
/// (the software-interrupt and pending-IRQ bits among them), point EPC
/// at the faulting instruction (at the branch when it sat in a delay
/// slot), and jump to the handler that SR bit 22 selects.
pub open spec fn exception_spec(c: Cpu, e: Exception) -> Cpu {
    let handler: u32 = if c.sr & 0x400000 != 0 {
        0xbfc00180
    } else {
        0x80000080
    };
    let mode = c.sr & 0x3F;
    Cpu {
        sr: (c.sr & !0x3F) | ((mode << 2) & 0x3F),
        cause: if c.delay_slot {
            ((c.cause & !0x8000007C) | (exception_code(e) << 2)) | 0x80000000
        } else {
            (c.cause & !0x8000007C) | (exception_code(e) << 2)
        },
        epc: if c.delay_slot {
            vstd::wrapping::u32_specs::wrapping_sub(c.current_pc, 4)
        } else {
            c.current_pc
        },
        pc: handler,
        next_pc: (handler + 4) as u32,
        ..c
    }
}

/// The source-register value of `i` in the live register file.
pub open spec fn rs_val(c: Cpu, i: Instruction) -> u32 {
    c.regs@[((i.0 >> 21) & 0x1F) as int]
}

/// The target-register value of `i` in the live register file.
pub open spec fn rt_val(c: Cpu, i: Instruction) -> u32 {
    c.regs@[((i.0 >> 16) & 0x1F) as int]
}

/// The target-register index of `i`.
pub open spec fn rt_idx(i: Instruction) -> int {
    ((i.0 >> 16) & 0x1F) as int
}

/// The destination-register index of `i`.
pub open spec fn rd_idx(i: Instruction) -> int {
    ((i.0 >> 11) & 0x1F) as int
}

/// The memory address `i` names: source register plus sign-extended
/// immediate.
pub open spec fn mem_addr(c: Cpu, i: Instruction) -> u32 {
    vstd::wrapping::u32_specs::wrapping_add(rs_val(c, i), imm_se_spec(i.0))
}

/// The magnitude of `x` as an unsigned word.
pub open spec fn abs_u32(x: i32) -> u32 {
    if x >= 0 {
        x as u32
    } else {
        (-(x as int)) as u32
    }
}

/// Two's-complement negation of `q`.
pub open spec fn neg32(q: u32) -> u32 {
    if q == 0 {
        0
    } else {
        (0x100000000 - q) as u32
    }
}

/// The LO result of a signed division (round towards zero).
pub open spec fn div_quot(n: i32, d: i32) -> u32 {
    let q = abs_u32(n) / abs_u32(d);
    if (n < 0) == (d < 0) {
        q
    } else {
        neg32(q)
    }
}

/// The HI result of a signed division: the remainder, signed like the
/// dividend.
pub open spec fn div_rem(n: i32, d: i32) -> u32 {
    let r = abs_u32(n) % abs_u32(d);
    if n >= 0 {
        r
    } else {
        neg32(r)
    }
}


/// The interrupt aggregator as one device tick leaves it: every line
/// sampled from its device's post-tick level.
pub open spec fn ticked_irqs(c: Cpu) -> crate::interrupts::Interrupts {
    let cd = crate::cdrom::cd_tick_spec(c.inter.cdrom@);
    let t0 = crate::timer::timer_tick_spec(
        c.inter.timers@[0],
        c.inter.gpu.hblank,
        c.inter.gpu.vblank,
        c.inter.gpu.dotclock,
    );
    let t1 = crate::timer::timer_tick_spec(
        c.inter.timers@[1],
        c.inter.gpu.hblank,
        c.inter.gpu.vblank,
        c.inter.gpu.dotclock,
    );
    let t2 = crate::timer::timer_tick_spec(
        c.inter.timers@[2],
        c.inter.gpu.hblank,
        c.inter.gpu.vblank,
        c.inter.gpu.dotclock,
    );
    tick_irq_spec(
        c.inter.interrupts,
        c.inter.gpu,
        cd.irq & cd.ie != 0,
        crate::dma::dma_irq(c.inter.dma),
        seq![t0, t1, t2],
    )
}

/// Whether the step's decode is preempted by an interrupt: interrupts
/// enabled in SR and some masked line pending after the tick.
pub open spec fn irq_preempts(c: Cpu) -> bool {
    c.sr & 1 != 0 && ticked_irqs(c).stat & ticked_irqs(c).mask != 0
}

/// What `op_lui` leaves behind, stated over the states before and
/// after it ran.
pub open spec fn op_lui_post(pre: Cpu, post: Cpu, i: Instruction) -> bool {
        &&& (post == (Cpu { out_regs: post.out_regs, ..pre }))
        &&& (post.out_regs@ == set_reg_spec(
            pre.out_regs@,
            rt_idx(i),
            (i.0 & 0xFFFF) << 16))
}

/// What `op_ori` leaves behind, stated over the states before and
/// after it ran.
pub open spec fn op_ori_post(pre: Cpu, post: Cpu, i: Instruction) -> bool {
        &&& (post == (Cpu { out_regs: post.out_regs, ..pre }))
        &&& (post.out_regs@ == set_reg_spec(
            pre.out_regs@,
            rt_idx(i),
            rs_val(pre, i) | (i.0 & 0xFFFF)))
}

/// What `op_andi` leaves behind, stated over the states before and
/// after it ran.
pub open spec fn op_andi_post(pre: Cpu, post: Cpu, i: Instruction) -> bool {
        &&& (post == (Cpu { out_regs: post.out_regs, ..pre }))
        &&& (post.out_regs@ == set_reg_spec(
            pre.out_regs@,
            rt_idx(i),
            rs_val(pre, i) & (i.0 & 0xFFFF)))
}

/// What `op_xori` leaves behind, stated over the states before and
/// after it ran.
pub open spec fn op_xori_post(pre: Cpu, post: Cpu, i: Instruction) -> bool {
        &&& (post == (Cpu { out_regs: post.out_regs, ..pre }))
        &&& (post.out_regs@ == set_reg_spec(
            pre.out_regs@,
            rt_idx(i),
            rs_val(pre, i) ^ (i.0 & 0xFFFF)))
}

/// What `op_sll` leaves behind, stated over the states before and
/// after it ran.
pub open spec fn op_sll_post(pre: Cpu, post: Cpu, i: Instruction) -> bool {
        &&& (post == (Cpu { out_regs: post.out_regs, ..pre }))
        &&& (post.out_regs@ == set_reg_spec(
            pre.out_regs@,
            rd_idx(i),
            rt_val(pre, i) << ((i.0 >> 6) & 0x1F)))
}

/// What `op_srl` leaves behind, stated over the states before and
/// after it ran.
pub open spec fn op_srl_post(pre: Cpu, post: Cpu, i: Instruction) -> bool {
        &&& (post == (Cpu { out_regs: post.out_regs, ..pre }))
        &&& (post.out_regs@ == set_reg_spec(
            pre.out_regs@,
            rd_idx(i),
            rt_val(pre, i) >> ((i.0 >> 6) & 0x1F)))
}

/// What `op_sra` leaves behind, stated over the states before and
/// after it ran.
pub open spec fn op_sra_post(pre: Cpu, post: Cpu, i: Instruction) -> bool {
        &&& (post == (Cpu { out_regs: post.out_regs, ..pre }))
        &&& (post.out_regs@ == set_reg_spec(
            pre.out_regs@,
            rd_idx(i),
            ((rt_val(pre, i) as i32) >> ((i.0 >> 6)
                & 0x1F)) as u32))
}

/// What `op_sllv` leaves behind, stated over the states before and
/// after it ran.
pub open spec fn op_sllv_post(pre: Cpu, post: Cpu, i: Instruction) -> bool {
        &&& (post == (Cpu { out_regs: post.out_regs, ..pre }))
        &&& (post.out_regs@ == set_reg_spec(
            pre.out_regs@,
            rd_idx(i),
            rt_val(pre, i) << (rs_val(pre, i) & 0x1F)))
}

/// What `op_srlv` leaves behind, stated over the states before and
/// after it ran.
pub open spec fn op_srlv_post(pre: Cpu, post: Cpu, i: Instruction) -> bool {
        &&& (post == (Cpu { out_regs: post.out_regs, ..pre }))
        &&& (post.out_regs@ == set_reg_spec(
            pre.out_regs@,
            rd_idx(i),
            rt_val(pre, i) >> (rs_val(pre, i) & 0x1F)))
}

/// What `op_srav` leaves behind, stated over the states before and
/// after it ran.
pub open spec fn op_srav_post(pre: Cpu, post: Cpu, i: Instruction) -> bool {
        &&& (post == (Cpu { out_regs: post.out_regs, ..pre }))
        &&& (post.out_regs@ == set_reg_spec(
            pre.out_regs@,
            rd_idx(i),
            ((rt_val(pre, i) as i32) >> (rs_val(pre, i)
                & 0x1F)) as u32))
}

/// What `op_or` leaves behind, stated over the states before and
/// after it ran.
pub open spec fn op_or_post(pre: Cpu, post: Cpu, i: Instruction) -> bool {
        &&& (post == (Cpu { out_regs: post.out_regs, ..pre }))
        &&& (post.out_regs@ == set_reg_spec(
            pre.out_regs@,
            rd_idx(i),
            rs_val(pre, i) | rt_val(pre, i)))
}

/// What `op_and` leaves behind, stated over the states before and
/// after it ran.
pub open spec fn op_and_post(pre: Cpu, post: Cpu, i: Instruction) -> bool {
        &&& (post == (Cpu { out_regs: post.out_regs, ..pre }))
        &&& (post.out_regs@ == set_reg_spec(
            pre.out_regs@,
            rd_idx(i),
            rs_val(pre, i) & rt_val(pre, i)))
}

/// What `op_xor` leaves behind, stated over the states before and
/// after it ran.
pub open spec fn op_xor_post(pre: Cpu, post: Cpu, i: Instruction) -> bool {
        &&& (post == (Cpu { out_regs: post.out_regs, ..pre }))
        &&& (post.out_regs@ == set_reg_spec(
            pre.out_regs@,
            rd_idx(i),
            rs_val(pre, i) ^ rt_val(pre, i)))
}

/// What `op_nor` leaves behind, stated over the states before and
/// after it ran.
pub open spec fn op_nor_post(pre: Cpu, post: Cpu, i: Instruction) -> bool {
        &&& (post == (Cpu { out_regs: post.out_regs, ..pre }))
        &&& (post.out_regs@ == set_reg_spec(
            pre.out_regs@,
            rd_idx(i),
            !(rs_val(pre, i) | rt_val(pre, i))))
}

/// What `op_sltu` leaves behind, stated over the states before and
/// after it ran.
pub open spec fn op_sltu_post(pre: Cpu, post: Cpu, i: Instruction) -> bool {
        &&& (post == (Cpu { out_regs: post.out_regs, ..pre }))
        &&& (post.out_regs@ == set_reg_spec(
            pre.out_regs@,
            rd_idx(i),
            (rs_val(pre, i) < rt_val(pre, i)) as u32))
}

/// What `op_slt` leaves behind, stated over the states before and
/// after it ran.
pub open spec fn op_slt_post(pre: Cpu, post: Cpu, i: Instruction) -> bool {
        &&& (post == (Cpu { out_regs: post.out_regs, ..pre }))
        &&& (post.out_regs@ == set_reg_spec(
            pre.out_regs@,
            rd_idx(i),
            ((rs_val(pre, i) as i32) < (rt_val(pre, i)
                as i32)) as u32))
}

/// What `op_slti` leaves behind, stated over the states before and
/// after it ran.
pub open spec fn op_slti_post(pre: Cpu, post: Cpu, i: Instruction) -> bool {
        &&& (post == (Cpu { out_regs: post.out_regs, ..pre }))
        &&& (post.out_regs@ == set_reg_spec(
            pre.out_regs@,
            rt_idx(i),
            ((rs_val(pre, i) as i32) < (imm_se_spec(i.0)
                as i32)) as u32))
}

/// What `op_sltiu` leaves behind, stated over the states before and
/// after it ran.
pub open spec fn op_sltiu_post(pre: Cpu, post: Cpu, i: Instruction) -> bool {
        &&& (post == (Cpu { out_regs: post.out_regs, ..pre }))
        &&& (post.out_regs@ == set_reg_spec(
            pre.out_regs@,
            rt_idx(i),
            (rs_val(pre, i) < imm_se_spec(i.0)) as u32))
}

/// What `op_addu` leaves behind, stated over the states before and
/// after it ran.
pub open spec fn op_addu_post(pre: Cpu, post: Cpu, i: Instruction) -> bool {
        &&& (post == (Cpu { out_regs: post.out_regs, ..pre }))
        &&& (post.out_regs@ == set_reg_spec(
            pre.out_regs@,
            rd_idx(i),
            vstd::wrapping::u32_specs::wrapping_add(
                rs_val(pre, i),
                rt_val(pre, i),
            )))
}

/// What `op_addiu` leaves behind, stated over the states before and
/// after it ran.
pub open spec fn op_addiu_post(pre: Cpu, post: Cpu, i: Instruction) -> bool {
        &&& (post == (Cpu { out_regs: post.out_regs, ..pre }))
        &&& (post.out_regs@ == set_reg_spec(
            pre.out_regs@,
            rt_idx(i),
            vstd::wrapping::u32_specs::wrapping_add(
                rs_val(pre, i),
                imm_se_spec(i.0),
            )))
}

/// What `op_subu` leaves behind, stated over the states before and
/// after it ran.
pub open spec fn op_subu_post(pre: Cpu, post: Cpu, i: Instruction) -> bool {
        &&& (post == (Cpu { out_regs: post.out_regs, ..pre }))
        &&& (post.out_regs@ == set_reg_spec(
            pre.out_regs@,
            rd_idx(i),
            vstd::wrapping::u32_specs::wrapping_sub(
                rs_val(pre, i),
                rt_val(pre, i),
            )))
}

/// What `op_add` leaves behind, stated over the states before and
/// after it ran.
pub open spec fn op_add_post(pre: Cpu, post: Cpu, i: Instruction) -> bool {
        &&& (post.regs == pre.regs)
        &&& (({
            let a = rs_val(pre, i) as i32;
            let b = rt_val(pre, i) as i32;
            &&& (i32::MIN <= a + b <= i32::MAX ==> post == (Cpu {
                out_regs: post.out_regs,
                ..pre
            }) && post.out_regs@ == set_reg_spec(
                pre.out_regs@,
                rd_idx(i),
                ((a + b) as i32) as u32,
            ))
            &&& (!(i32::MIN <= a + b <= i32::MAX) ==> post == exception_spec(
                pre,
                Exception::Overflow,
            ))
        }))
}

/// What `op_addi` leaves behind, stated over the states before and
/// after it ran.
pub open spec fn op_addi_post(pre: Cpu, post: Cpu, i: Instruction) -> bool {
        &&& (post.regs == pre.regs)
        &&& (({
            let a = rs_val(pre, i) as i32;
            let b = imm_se_spec(i.0) as i32;
            &&& (i32::MIN <= a + b <= i32::MAX ==> post == (Cpu {
                out_regs: post.out_regs,
                ..pre
            }) && post.out_regs@ == set_reg_spec(
                pre.out_regs@,
                rt_idx(i),
                ((a + b) as i32) as u32,
            ))
            &&& (!(i32::MIN <= a + b <= i32::MAX) ==> post == exception_spec(
                pre,
                Exception::Overflow,
            ))
        }))
}

/// What `op_sub` leaves behind, stated over the states before and
/// after it ran.
pub open spec fn op_sub_post(pre: Cpu, post: Cpu, i: Instruction) -> bool {
        &&& (post.regs == pre.regs)
        &&& (({
            let a = rs_val(pre, i) as i32;
            let b = rt_val(pre, i) as i32;
            &&& (i32::MIN <= a - b <= i32::MAX ==> post == (Cpu {
                out_regs: post.out_regs,
                ..pre
            }) && post.out_regs@ == set_reg_spec(
                pre.out_regs@,
                rd_idx(i),
                ((a - b) as i32) as u32,
            ))
            &&& (!(i32::MIN <= a - b <= i32::MAX) ==> post == exception_spec(
                pre,
                Exception::Overflow,
            ))
        }))
}

/// What `op_mfhi` leaves behind, stated over the states before and
/// after it ran.
pub open spec fn op_mfhi_post(pre: Cpu, post: Cpu, i: Instruction) -> bool {
        &&& (post == (Cpu { out_regs: post.out_regs, ..pre }))
        &&& (post.out_regs@ == set_reg_spec(
            pre.out_regs@,
            rd_idx(i),
            pre.hi))
}

/// What `op_mflo` leaves behind, stated over the states before and
/// after it ran.
pub open spec fn op_mflo_post(pre: Cpu, post: Cpu, i: Instruction) -> bool {
        &&& (post == (Cpu { out_regs: post.out_regs, ..pre }))
        &&& (post.out_regs@ == set_reg_spec(
            pre.out_regs@,
            rd_idx(i),
            pre.lo))
}

/// What `op_mthi` leaves behind, stated over the states before and
/// after it ran.
pub open spec fn op_mthi_post(pre: Cpu, post: Cpu, i: Instruction) -> bool {
        &&& (post == (Cpu { hi: rs_val(pre, i), ..pre }))
}

/// What `op_mtlo` leaves behind, stated over the states before and
/// after it ran.
pub open spec fn op_mtlo_post(pre: Cpu, post: Cpu, i: Instruction) -> bool {
        &&& (post == (Cpu { lo: rs_val(pre, i), ..pre }))
}

/// What `op_mult` leaves behind, stated over the states before and
/// after it ran.
pub open spec fn op_mult_post(pre: Cpu, post: Cpu, i: Instruction) -> bool {
        &&& (({
            let p = (rs_val(pre, i) as i32) as int * (rt_val(
                pre,
                i,
            ) as i32) as int;
            post == (Cpu {
                hi: ((p as i64) >> 32) as u32,
                lo: (p as i64) as u32,
                ..pre
            })
        }))
}

/// What `op_multu` leaves behind, stated over the states before and
/// after it ran.
pub open spec fn op_multu_post(pre: Cpu, post: Cpu, i: Instruction) -> bool {
        &&& (({
            let p = rs_val(pre, i) as int * rt_val(
                pre,
                i,
            ) as int;
            post == (Cpu {
                hi: ((p as u64) >> 32) as u32,
                lo: (p as u64) as u32,
                ..pre
            })
        }))
}

/// What `op_div` leaves behind, stated over the states before and
/// after it ran.
pub open spec fn op_div_post(pre: Cpu, post: Cpu, i: Instruction) -> bool {
        &&& (({
            let n = rs_val(pre, i) as i32;
            let d = rt_val(pre, i) as i32;
            &&& (d == 0 && n >= 0 ==> post == (Cpu {
                hi: n as u32,
                lo: 0xFFFFFFFFu32,
                ..pre
            }))
            &&& (d == 0 && n < 0 ==> post == (Cpu {
                hi: n as u32,
                lo: 1u32,
                ..pre
            }))
            &&& (d != 0 && n as u32 == 0x80000000u32 && d == -1 ==> post == (Cpu {
                hi: 0u32,
                lo: 0x80000000u32,
                ..pre
            }))
            &&& (d != 0 && !(n as u32 == 0x80000000u32 && d == -1) ==> post == (Cpu {
                hi: div_rem(n, d),
                lo: div_quot(n, d),
                ..pre
            }))
        }))
}

/// What `op_divu` leaves behind, stated over the states before and
/// after it ran.
pub open spec fn op_divu_post(pre: Cpu, post: Cpu, i: Instruction) -> bool {
        &&& (({
            let n = rs_val(pre, i);
            let d = rt_val(pre, i);
            &&& (d == 0 ==> post == (Cpu { hi: n, lo: 0xFFFFFFFFu32, ..pre }))
            &&& (d != 0 ==> post == (Cpu {
                hi: (n % d) as u32,
                lo: (n / d) as u32,
                ..pre
            }))
        }))
}

/// What `op_j` leaves behind, stated over the states before and
/// after it ran.
pub open spec fn op_j_post(pre: Cpu, post: Cpu, i: Instruction) -> bool {
        &&& (post == (Cpu {
            next_pc: (pre.pc & 0xF0000000) | ((i.0 & 0x3FFFFFF) << 2),
            branch: true,
            ..pre
        }))
}

/// What `op_jal` leaves behind, stated over the states before and
/// after it ran.
pub open spec fn op_jal_post(pre: Cpu, post: Cpu, i: Instruction) -> bool {
        &&& (post == (Cpu {
            next_pc: (pre.pc & 0xF0000000) | ((i.0 & 0x3FFFFFF) << 2),
            branch: true,
            out_regs: post.out_regs,
            ..pre
        }))
        &&& (post.out_regs@ == set_reg_spec(pre.out_regs@, 31, pre.next_pc))
}

/// What `op_jr` leaves behind, stated over the states before and
/// after it ran.
pub open spec fn op_jr_post(pre: Cpu, post: Cpu, i: Instruction) -> bool {
        &&& (post == (Cpu {
            next_pc: rs_val(pre, i),
            branch: true,
            ..pre
        }))
}

/// What `op_jalr` leaves behind, stated over the states before and
/// after it ran.
pub open spec fn op_jalr_post(pre: Cpu, post: Cpu, i: Instruction) -> bool {
        &&& (post == (Cpu {
            next_pc: rs_val(pre, i),
            branch: true,
            out_regs: post.out_regs,
            ..pre
        }))
        &&& (post.out_regs@ == set_reg_spec(
            pre.out_regs@,
            rd_idx(i),
            pre.next_pc))
}

/// What `op_beq` leaves behind, stated over the states before and
/// after it ran.
pub open spec fn op_beq_post(pre: Cpu, post: Cpu, i: Instruction) -> bool {
        &&& (rs_val(pre, i) == rt_val(pre, i) ==> post
            == (Cpu {
            next_pc: vstd::wrapping::u32_specs::wrapping_add(
                pre.pc,
                (imm_se_spec(i.0) << 2),
            ),
            branch: true,
            ..pre
        }))
        &&& (rs_val(pre, i) != rt_val(pre, i) ==> post
            == pre)
}

/// What `op_bne` leaves behind, stated over the states before and
/// after it ran.
pub open spec fn op_bne_post(pre: Cpu, post: Cpu, i: Instruction) -> bool {
        &&& (rs_val(pre, i) != rt_val(pre, i) ==> post
            == (Cpu {
            next_pc: vstd::wrapping::u32_specs::wrapping_add(
                pre.pc,
                (imm_se_spec(i.0) << 2),
            ),
            branch: true,
            ..pre
        }))
        &&& (rs_val(pre, i) == rt_val(pre, i) ==> post
            == pre)
}

/// What `op_blez` leaves behind, stated over the states before and
/// after it ran.
pub open spec fn op_blez_post(pre: Cpu, post: Cpu, i: Instruction) -> bool {
        &&& ((rs_val(pre, i) as i32) <= 0 ==> post == (Cpu {
            next_pc: vstd::wrapping::u32_specs::wrapping_add(
                pre.pc,
                (imm_se_spec(i.0) << 2),
            ),
            branch: true,
            ..pre
        }))
        &&& ((rs_val(pre, i) as i32) > 0 ==> post == pre)
}

/// What `op_bgtz` leaves behind, stated over the states before and
/// after it ran.
pub open spec fn op_bgtz_post(pre: Cpu, post: Cpu, i: Instruction) -> bool {
        &&& ((rs_val(pre, i) as i32) > 0 ==> post == (Cpu {
            next_pc: vstd::wrapping::u32_specs::wrapping_add(
                pre.pc,
                (imm_se_spec(i.0) << 2),
            ),
            branch: true,
            ..pre
        }))
        &&& ((rs_val(pre, i) as i32) <= 0 ==> post == pre)
}

/// What `op_bxx` leaves behind, stated over the states before and
/// after it ran.
pub open spec fn op_bxx_post(pre: Cpu, post: Cpu, i: Instruction) -> bool {
        &&& (post.regs == pre.regs)
        &&& (post.inter == pre.inter)
        &&& (({
            let op = i.0;
            let is_bgez = (op >> 16) & 1;
            let linked = if (op >> 17) & 0xF == 8 {
                set_reg_spec(pre.out_regs@, 31, pre.next_pc)
            } else {
                pre.out_regs@
            };
            let taken = ((((rs_val(pre, i) as i32) < 0) as u32) ^ is_bgez)
                != 0;
            &&& post.out_regs@ == linked
            &&& (taken ==> post == (Cpu {
                out_regs: post.out_regs,
                next_pc: vstd::wrapping::u32_specs::wrapping_add(
                    pre.pc,
                    (imm_se_spec(op) << 2),
                ),
                branch: true,
                ..pre
            }))
            &&& (!taken ==> post == (Cpu {
                out_regs: post.out_regs,
                ..pre
            }))
        }))
}

/// What `op_syscall` leaves behind, stated over the states before and
/// after it ran.
pub open spec fn op_syscall_post(pre: Cpu, post: Cpu, i: Instruction) -> bool {
        &&& (post == exception_spec(pre, Exception::SysCall))
}

/// What `op_break` leaves behind, stated over the states before and
/// after it ran.
pub open spec fn op_break_post(pre: Cpu, post: Cpu, i: Instruction) -> bool {
        &&& (post == exception_spec(
            (Cpu { event: Some(Event::Break), ..pre }),
            Exception::Break))
}

/// What `op_illegal` leaves behind, stated over the states before and
/// after it ran.
pub open spec fn op_illegal_post(pre: Cpu, post: Cpu, i: Instruction) -> bool {
        &&& (post == exception_spec(pre, Exception::IllegalInstruction))
}

/// What `op_cop1` leaves behind, stated over the states before and
/// after it ran.
pub open spec fn op_cop1_post(pre: Cpu, post: Cpu, i: Instruction) -> bool {
        &&& (post == exception_spec(pre, Exception::CoprocessorError))
}

/// What `op_cop3` leaves behind, stated over the states before and
/// after it ran.
pub open spec fn op_cop3_post(pre: Cpu, post: Cpu, i: Instruction) -> bool {
        &&& (post == exception_spec(pre, Exception::CoprocessorError))
}

/// What `op_lwc0` leaves behind, stated over the states before and
/// after it ran.
pub open spec fn op_lwc0_post(pre: Cpu, post: Cpu, i: Instruction) -> bool {
        &&& (post == exception_spec(pre, Exception::CoprocessorError))
}

/// What `op_lwc1` leaves behind, stated over the states before and
/// after it ran.
pub open spec fn op_lwc1_post(pre: Cpu, post: Cpu, i: Instruction) -> bool {
        &&& (post == exception_spec(pre, Exception::CoprocessorError))
}

/// What `op_lwc3` leaves behind, stated over the states before and
/// after it ran.
pub open spec fn op_lwc3_post(pre: Cpu, post: Cpu, i: Instruction) -> bool {
        &&& (post == exception_spec(pre, Exception::CoprocessorError))
}

/// What `op_swc0` leaves behind, stated over the states before and
/// after it ran.
pub open spec fn op_swc0_post(pre: Cpu, post: Cpu, i: Instruction) -> bool {
        &&& (post == exception_spec(pre, Exception::CoprocessorError))
}

/// What `op_swc1` leaves behind, stated over the states before and
/// after it ran.
pub open spec fn op_swc1_post(pre: Cpu, post: Cpu, i: Instruction) -> bool {
        &&& (post == exception_spec(pre, Exception::CoprocessorError))
}

/// What `op_swc3` leaves behind, stated over the states before and
/// after it ran.
pub open spec fn op_swc3_post(pre: Cpu, post: Cpu, i: Instruction) -> bool {
        &&& (post == exception_spec(pre, Exception::CoprocessorError))
}

/// What `op_lwc2` leaves behind, stated over the states before and
/// after it ran.
pub open spec fn op_lwc2_post(pre: Cpu, post: Cpu, i: Instruction, r: Result<(), Fault>) -> bool {
        &&& (r == Err::<(), Fault>(Fault::UnhandledGteLwc { value: i.0 }))
        &&& (post == pre)
}

/// What `op_swc2` leaves behind, stated over the states before and
/// after it ran.
pub open spec fn op_swc2_post(pre: Cpu, post: Cpu, i: Instruction, r: Result<(), Fault>) -> bool {
        &&& (r == Err::<(), Fault>(Fault::UnhandledGteSwc { value: i.0 }))
        &&& (post == pre)
}

/// What `op_lb` leaves behind, stated over the states before and
/// after it ran.
pub open spec fn op_lb_post(pre: Cpu, post: Cpu, i: Instruction, r: Result<(), Fault>) -> bool {
        &&& (post.regs == pre.regs)
        &&& (post.out_regs == pre.out_regs)
        &&& (post.inter.bios == pre.inter.bios)
        &&& (post.stalls <= pre.stalls + 2)
        &&& (({
            let a = mem_addr(pre, i);
            mem_value(pre.inter, mask_region_spec(a), AccessWidth::Byte) is Some ==> r
                is Ok && post.inter == pre.inter && post.load == (
            RegisterIndex(((i.0 >> 16) & 0x1F) as u32),
            ((mem_value(pre.inter, mask_region_spec(a), AccessWidth::Byte)->0
                as u8) as i8) as u32,
            )
        }))
}

/// What `op_lbu` leaves behind, stated over the states before and
/// after it ran.
pub open spec fn op_lbu_post(pre: Cpu, post: Cpu, i: Instruction, r: Result<(), Fault>) -> bool {
        &&& (post.regs == pre.regs)
        &&& (post.out_regs == pre.out_regs)
        &&& (post.inter.bios == pre.inter.bios)
        &&& (post.stalls <= pre.stalls + 2)
        &&& (({
            let a = mem_addr(pre, i);
            mem_value(pre.inter, mask_region_spec(a), AccessWidth::Byte) is Some ==> r
                is Ok && post.inter == pre.inter && post.load == (
            RegisterIndex(((i.0 >> 16) & 0x1F) as u32),
            (mem_value(pre.inter, mask_region_spec(a), AccessWidth::Byte)->0
                as u8) as u32,
            )
        }))
}

/// What `op_lh` leaves behind, stated over the states before and
/// after it ran.
pub open spec fn op_lh_post(pre: Cpu, post: Cpu, i: Instruction, r: Result<(), Fault>) -> bool {
        &&& (post.regs == pre.regs)
        &&& (post.out_regs == pre.out_regs)
        &&& (post.inter.bios == pre.inter.bios)
        &&& (post.stalls <= pre.stalls + 2)
        &&& (mem_addr(pre, i) % 2 != 0 ==> r is Ok && post
            == exception_spec(pre, Exception::LoadAddressError))
        &&& (({
            let a = mem_addr(pre, i);
            a % 2 == 0 && mem_value(pre.inter, mask_region_spec(a), AccessWidth::Halfword)
                is Some ==> r is Ok && post.inter == pre.inter && post.load == (
            RegisterIndex(((i.0 >> 16) & 0x1F) as u32),
            ((mem_value(pre.inter, mask_region_spec(a), AccessWidth::Halfword)->0
                as u16) as i16) as u32,
            )
        }))
}

/// What `op_lhu` leaves behind, stated over the states before and
/// after it ran.
pub open spec fn op_lhu_post(pre: Cpu, post: Cpu, i: Instruction, r: Result<(), Fault>) -> bool {
        &&& (post.regs == pre.regs)
        &&& (post.out_regs == pre.out_regs)
        &&& (post.inter.bios == pre.inter.bios)
        &&& (post.stalls <= pre.stalls + 2)
        &&& (mem_addr(pre, i) % 2 != 0 ==> r is Ok && post
            == exception_spec(pre, Exception::LoadAddressError))
        &&& (({
            let a = mem_addr(pre, i);
            a % 2 == 0 && mem_value(pre.inter, mask_region_spec(a), AccessWidth::Halfword)
                is Some ==> r is Ok && post.inter == pre.inter && post.load == (
            RegisterIndex(((i.0 >> 16) & 0x1F) as u32),
            (mem_value(pre.inter, mask_region_spec(a), AccessWidth::Halfword)->0
                as u16) as u32,
            )
        }))
}

/// What `op_lw` leaves behind, stated over the states before and
/// after it ran.
pub open spec fn op_lw_post(pre: Cpu, post: Cpu, i: Instruction, r: Result<(), Fault>) -> bool {
        &&& (post.regs == pre.regs)
        &&& (post.out_regs == pre.out_regs)
        &&& (post.inter.bios == pre.inter.bios)
        &&& (post.stalls <= pre.stalls + 2)
        &&& (mem_addr(pre, i) % 4 != 0 ==> r is Ok && post
            == exception_spec(pre, Exception::LoadAddressError))
        &&& (({
            let a = mem_addr(pre, i);
            a % 4 == 0 && mem_value(pre.inter, mask_region_spec(a), AccessWidth::Word)
                is Some ==> r is Ok && post.inter == pre.inter && post.load == (
            RegisterIndex(((i.0 >> 16) & 0x1F) as u32),
            mem_value(pre.inter, mask_region_spec(a), AccessWidth::Word)->0,
            )
        }))
}

/// What `op_lwl` leaves behind, stated over the states before and
/// after it ran.
pub open spec fn op_lwl_post(pre: Cpu, post: Cpu, i: Instruction, r: Result<(), Fault>) -> bool {
        &&& (post.regs == pre.regs)
        &&& (post.out_regs == pre.out_regs)
        &&& (post.inter.bios == pre.inter.bios)
        &&& (post.stalls <= pre.stalls + 2)
        &&& (({
            let a = mem_addr(pre, i);
            let cur = pre.out_regs@[rt_idx(i)];
            mem_value(pre.inter, mask_region_spec(a & 0xFFFFFFFCu32), AccessWidth::Word)
                is Some ==> {
                let w = mem_value(
                    pre.inter,
                    mask_region_spec(a & 0xFFFFFFFCu32),
                    AccessWidth::Word,
                )->0;
                r is Ok && post.inter == pre.inter && post.load == (
                RegisterIndex(((i.0 >> 16) & 0x1F) as u32),
                if a & 3 == 0 {
                    (cur & 0x00FFFFFF) | (w << 24)
                } else if a & 3 == 1 {
                    (cur & 0x0000FFFF) | (w << 16)
                } else if a & 3 == 2 {
                    (cur & 0x000000FF) | (w << 8)
                } else {
                    w
                },
                )
            }
        }))
}

/// What `op_lwr` leaves behind, stated over the states before and
/// after it ran.
pub open spec fn op_lwr_post(pre: Cpu, post: Cpu, i: Instruction, r: Result<(), Fault>) -> bool {
        &&& (post.regs == pre.regs)
        &&& (post.out_regs == pre.out_regs)
        &&& (post.inter.bios == pre.inter.bios)
        &&& (post.stalls <= pre.stalls + 2)
        &&& (({
            let a = mem_addr(pre, i);
            let cur = pre.out_regs@[rt_idx(i)];
            mem_value(pre.inter, mask_region_spec(a & 0xFFFFFFFCu32), AccessWidth::Word)
                is Some ==> {
                let w = mem_value(
                    pre.inter,
                    mask_region_spec(a & 0xFFFFFFFCu32),
                    AccessWidth::Word,
                )->0;
                r is Ok && post.inter == pre.inter && post.load == (
                RegisterIndex(((i.0 >> 16) & 0x1F) as u32),
                if a & 3 == 0 {
                    w
                } else if a & 3 == 1 {
                    (cur & 0xFF000000) | (w >> 8)
                } else if a & 3 == 2 {
                    (cur & 0xFFFF0000) | (w >> 16)
                } else {
                    (cur & 0xFFFFFF00) | (w >> 24)
                },
                )
            }
        }))
}

/// What `op_sb` leaves behind, stated over the states before and
/// after it ran.
pub open spec fn op_sb_post(pre: Cpu, post: Cpu, i: Instruction, r: Result<(), Fault>) -> bool {
        &&& (post.regs == pre.regs)
        &&& (post.out_regs == pre.out_regs)
        &&& (post.stalls == pre.stalls)
        &&& (post.inter.bios == pre.inter.bios)
        &&& (pre.sr & 0x10000 != 0 ==> r is Ok && post == pre)
}

/// What `op_sh` leaves behind, stated over the states before and
/// after it ran.
pub open spec fn op_sh_post(pre: Cpu, post: Cpu, i: Instruction, r: Result<(), Fault>) -> bool {
        &&& (post.regs == pre.regs)
        &&& (post.out_regs == pre.out_regs)
        &&& (post.stalls == pre.stalls)
        &&& (post.inter.bios == pre.inter.bios)
        &&& (pre.sr & 0x10000 != 0 ==> r is Ok && post == pre)
        &&& (pre.sr & 0x10000 == 0 && mem_addr(pre, i) % 2 != 0 ==> r is Ok
            && post == exception_spec(pre, Exception::StoreAddressError))
}

/// What `op_sw` leaves behind, stated over the states before and
/// after it ran.
pub open spec fn op_sw_post(pre: Cpu, post: Cpu, i: Instruction, r: Result<(), Fault>) -> bool {
        &&& (post.regs == pre.regs)
        &&& (post.out_regs == pre.out_regs)
        &&& (post.stalls == pre.stalls)
        &&& (post.inter.bios == pre.inter.bios)
        &&& (pre.sr & 0x10000 != 0 ==> r is Ok && post == pre)
        &&& (pre.sr & 0x10000 == 0 && mem_addr(pre, i) % 4 != 0 ==> r is Ok
            && post == exception_spec(pre, Exception::StoreAddressError))
        &&& (({
            let a = mem_addr(pre, i);
            pre.sr & 0x10000 == 0 && a % 4 == 0 && crate::interconnect::in_rg(
                mask_region_spec(a),
                0,
                0x200000,
            ) && mask_region_spec(a) + 4 <= 0x200000 && !pre.watchpoints@.contains(a)
                ==> r is Ok && post == (Cpu {
                inter: post.inter,
                ..pre
            }) && post.inter == (Interconnect {
                ram: post.inter.ram,
                ..pre.inter
            }) && post.inter.ram@ == crate::addressible::store_le(
                pre.inter.ram@,
                mask_region_spec(a) as int,
                rt_val(pre, i),
                AccessWidth::Word,
            )
        }))
}

/// What `op_swl` leaves behind, stated over the states before and
/// after it ran.
pub open spec fn op_swl_post(pre: Cpu, post: Cpu, i: Instruction, r: Result<(), Fault>) -> bool {
        &&& (post.regs == pre.regs)
        &&& (post.out_regs == pre.out_regs)
        &&& (post.inter.bios == pre.inter.bios)
        &&& (post.stalls <= pre.stalls + 2)
}

/// What `op_swr` leaves behind, stated over the states before and
/// after it ran.
pub open spec fn op_swr_post(pre: Cpu, post: Cpu, i: Instruction, r: Result<(), Fault>) -> bool {
        &&& (post.regs == pre.regs)
        &&& (post.out_regs == pre.out_regs)
        &&& (post.inter.bios == pre.inter.bios)
        &&& (post.stalls <= pre.stalls + 2)
}

/// What `op_cop0` leaves behind, stated over the states before and
/// after it ran.
pub open spec fn op_cop0_post(pre: Cpu, post: Cpu, i: Instruction, r: Result<(), Fault>) -> bool {
    let op = (i.0 >> 21) & 0x1F;
    &&& post.regs == pre.regs
    &&& post.inter == pre.inter
    &&& post.stalls == pre.stalls
    &&& (op == 0b00000 ==> op_mfc0_post(pre, post, i, r))
    &&& (op == 0b00010 ==> op_cfc0_post(pre, post, i, r))
    &&& (op == 0b00100 ==> op_mtc0_post(pre, post, i, r))
    &&& (op == 0b00110 ==> op_ctc0_post(pre, post, i, r))
    &&& (op == 0b10000 ==> op_rfe_post(pre, post, i, r))
    &&& (!(op == 0b00000 || op == 0b00010 || op == 0b00100 || op == 0b00110 || op == 0b10000)
        ==> r == Err::<(), Fault>(Fault::UnhandledCop0Opcode { value: i.0 }) && post == pre)
}

/// What `op_mtc0` leaves behind, stated over the states before and
/// after it ran.
pub open spec fn op_mtc0_post(pre: Cpu, post: Cpu, i: Instruction, r: Result<(), Fault>) -> bool {
        &&& (post.regs == pre.regs)
        &&& (post.out_regs == pre.out_regs)
        &&& (post.inter == pre.inter)
        &&& (post.stalls == pre.stalls)
        &&& (({
            let v = rt_val(pre, i);
            let cop_r = (i.0 >> 11) & 0x1F;
            &&& (cop_r == 12 ==> r is Ok && post == (Cpu { sr: v, ..pre }))
            &&& (cop_r == 13 ==> r is Ok && post == (Cpu {
                cause: (pre.cause & !0x300) | (v & 0x300),
                ..pre
            }))
            &&& (cop_r == 14 ==> r is Ok && post == (Cpu { epc: v, ..pre }))
        }))
}

/// What `op_mfc0` leaves behind, stated over the states before and
/// after it ran.
pub open spec fn op_mfc0_post(pre: Cpu, post: Cpu, i: Instruction, r: Result<(), Fault>) -> bool {
        &&& (post.regs == pre.regs)
        &&& (post.out_regs == pre.out_regs)
        &&& (post.inter == pre.inter)
        &&& (({
            let cop_r = (i.0 >> 11) & 0x1F;
            let t = RegisterIndex(((i.0 >> 16) & 0x1F) as u32);
            &&& (cop_r == 12 ==> r is Ok && post == (Cpu {
                load: (t, pre.sr),
                ..pre
            }))
            &&& (cop_r == 13 ==> r is Ok && post == (Cpu {
                load: (t, pre.cause),
                ..pre
            }))
            &&& (cop_r == 14 ==> r is Ok && post == (Cpu {
                load: (t, pre.epc),
                ..pre
            }))
            &&& (cop_r == 15 ==> r is Ok && post == (Cpu {
                load: (t, 0u32),
                ..pre
            }))
            &&& (!(cop_r == 12 || cop_r == 13 || cop_r == 14 || cop_r == 15) ==> r == Err::<
                (),
                Fault,
            >(Fault::UnhandledCop0Read { register: cop_r }) && post == pre)
        }))
}

/// What `op_cfc0` leaves behind, stated over the states before and
/// after it ran.
pub open spec fn op_cfc0_post(pre: Cpu, post: Cpu, i: Instruction, r: Result<(), Fault>) -> bool {
        &&& (r == Err::<(), Fault>(Fault::UnsupportedCop0Transfer))
        &&& (post == pre)
}

/// What `op_ctc0` leaves behind, stated over the states before and
/// after it ran.
pub open spec fn op_ctc0_post(pre: Cpu, post: Cpu, i: Instruction, r: Result<(), Fault>) -> bool {
        &&& (r == Err::<(), Fault>(Fault::UnsupportedCop0Transfer))
        &&& (post == pre)
}

/// What `op_rfe` leaves behind, stated over the states before and
/// after it ran.
pub open spec fn op_rfe_post(pre: Cpu, post: Cpu, i: Instruction, r: Result<(), Fault>) -> bool {
        &&& (i.0 & 0x3F != 0b010000 ==> r == Err::<(), Fault>(
            Fault::InvalidCop0Rfe { value: i.0 },
        ) && post == pre)
        &&& (i.0 & 0x3F == 0b010000 ==> r is Ok && post == (Cpu {
            sr: (pre.sr & !0x0F) | ((pre.sr >> 2) & 0x0F),
            ..pre
        }))
}

/// What `op_cop2` leaves behind, stated over the states before and
/// after it ran.
pub open spec fn op_cop2_post(pre: Cpu, post: Cpu, i: Instruction, r: Result<(), Fault>) -> bool {
    let op = (i.0 >> 21) & 0x1F;
    &&& post.regs == pre.regs
    &&& post.inter == pre.inter
    &&& post.stalls == pre.stalls
    &&& (op & 0x10 > 0 ==> r == Err::<(), Fault>(
        Fault::UnhandledGteInstruction { value: i.0 & 0x1FFFFFF },
    ) && post == pre)
    &&& (op & 0x10 == 0 ==> {
        &&& (op == 0b00000 ==> op_mfc2_post(pre, post, i, r))
        &&& (op == 0b00010 ==> op_cfc2_post(pre, post, i, r))
        &&& (op == 0b00100 ==> op_mtc2_post(pre, post, i, r))
        &&& (op == 0b00110 ==> op_ctc2_post(pre, post, i, r))
        &&& (!(op == 0b00000 || op == 0b00010 || op == 0b00100 || op == 0b00110) ==> r == Err::<
            (),
            Fault,
        >(Fault::UnhandledGteInstruction { value: i.0 }) && post == pre)
    })
}

/// What `op_mtc2` leaves behind, stated over the states before and
/// after it ran.
pub open spec fn op_mtc2_post(pre: Cpu, post: Cpu, i: Instruction, r: Result<(), Fault>) -> bool {
        &&& (post.regs == pre.regs)
        &&& (post.out_regs == pre.out_regs)
        &&& (post.inter == pre.inter)
        &&& (post == (Cpu { gte: post.gte, ..pre }))
}

/// What `op_mfc2` leaves behind, stated over the states before and
/// after it ran.
pub open spec fn op_mfc2_post(pre: Cpu, post: Cpu, i: Instruction, r: Result<(), Fault>) -> bool {
        &&& (post.regs == pre.regs)
        &&& (post.inter == pre.inter)
        &&& (post == (Cpu { out_regs: post.out_regs, ..pre }))
}

/// What `op_cfc2` leaves behind, stated over the states before and
/// after it ran.
pub open spec fn op_cfc2_post(pre: Cpu, post: Cpu, i: Instruction, r: Result<(), Fault>) -> bool {
        &&& (post.regs == pre.regs)
        &&& (post.inter == pre.inter)
        &&& (post == (Cpu { out_regs: post.out_regs, ..pre }))
        &&& (post.out_regs@ == set_reg_spec(pre.out_regs@, rt_idx(i), 0u32))
}

/// What `op_ctc2` leaves behind, stated over the states before and
/// after it ran.
pub open spec fn op_ctc2_post(pre: Cpu, post: Cpu, i: Instruction, r: Result<(), Fault>) -> bool {
        &&& (post == pre)
}

/// The register-register group's dispatch: which subfunction ran and
/// what it left behind, over the state `pre` it decoded in.
#[verifier::opaque]
pub open spec fn special_execute_post(
    pre: Cpu,
    post: Cpu,
    i: Instruction,
    r: Result<(), Fault>,
) -> bool {
    let sub = i.0 & 0x3F;
    if sub == 0 {
        r is Ok && op_sll_post(pre, post, i)
    } else if sub == 2 {
        r is Ok && op_srl_post(pre, post, i)
    } else if sub == 3 {
        r is Ok && op_sra_post(pre, post, i)
    } else if sub == 4 {
        r is Ok && op_sllv_post(pre, post, i)
    } else if sub == 6 {
        r is Ok && op_srlv_post(pre, post, i)
    } else if sub == 7 {
        r is Ok && op_srav_post(pre, post, i)
    } else if sub == 8 {
        r is Ok && op_jr_post(pre, post, i)
    } else if sub == 9 {
        r is Ok && op_jalr_post(pre, post, i)
    } else if sub == 12 {
        r is Ok && op_syscall_post(pre, post, i)
    } else if sub == 13 {
        r is Ok && op_break_post(pre, post, i)
    } else if sub == 16 {
        r is Ok && op_mfhi_post(pre, post, i)
    } else if sub == 17 {
        r is Ok && op_mthi_post(pre, post, i)
    } else if sub == 18 {
        r is Ok && op_mflo_post(pre, post, i)
    } else if sub == 19 {
        r is Ok && op_mtlo_post(pre, post, i)
    } else if sub == 24 {
        r is Ok && op_mult_post(pre, post, i)
    } else if sub == 25 {
        r is Ok && op_multu_post(pre, post, i)
    } else if sub == 26 {
        r is Ok && op_div_post(pre, post, i)
    } else if sub == 27 {
        r is Ok && op_divu_post(pre, post, i)
    } else if sub == 32 {
        r is Ok && op_add_post(pre, post, i)
    } else if sub == 33 {
        r is Ok && op_addu_post(pre, post, i)
    } else if sub == 34 {
        r is Ok && op_sub_post(pre, post, i)
    } else if sub == 35 {
        r is Ok && op_subu_post(pre, post, i)
    } else if sub == 36 {
        r is Ok && op_and_post(pre, post, i)
    } else if sub == 37 {
        r is Ok && op_or_post(pre, post, i)
    } else if sub == 38 {
        r is Ok && op_xor_post(pre, post, i)
    } else if sub == 39 {
        r is Ok && op_nor_post(pre, post, i)
    } else if sub == 42 {
        r is Ok && op_slt_post(pre, post, i)
    } else if sub == 43 {
        r is Ok && op_sltu_post(pre, post, i)
    } else {
        r is Ok && op_illegal_post(pre, post, i)
    }
}

/// The decode table as one statement: which instruction the fetched
/// word names and what executing it left behind.  `c0` is the state
/// handed to the decoder; execution sees it with the decode stall
/// spent.
#[verifier::opaque]
pub open spec fn decode_execute_post(
    c0: Cpu,
    post: Cpu,
    i: Instruction,
    r: Result<(), Fault>,
) -> bool {
    let pre = Cpu { stalls: (c0.stalls + 1) as u16, ..c0 };
    let f = i.0 >> 26;
    if f == 0 {
        special_execute_post(pre, post, i, r)
    } else if f == 1 {
        r is Ok && op_bxx_post(pre, post, i)
    } else if f == 2 {
        r is Ok && op_j_post(pre, post, i)
    } else if f == 3 {
        r is Ok && op_jal_post(pre, post, i)
    } else if f == 4 {
        r is Ok && op_beq_post(pre, post, i)
    } else if f == 5 {
        r is Ok && op_bne_post(pre, post, i)
    } else if f == 6 {
        r is Ok && op_blez_post(pre, post, i)
    } else if f == 7 {
        r is Ok && op_bgtz_post(pre, post, i)
    } else if f == 8 {
        r is Ok && op_addi_post(pre, post, i)
    } else if f == 9 {
        r is Ok && op_addiu_post(pre, post, i)
    } else if f == 10 {
        r is Ok && op_slti_post(pre, post, i)
    } else if f == 11 {
        r is Ok && op_sltiu_post(pre, post, i)
    } else if f == 12 {
        r is Ok && op_andi_post(pre, post, i)
    } else if f == 13 {
        r is Ok && op_ori_post(pre, post, i)
    } else if f == 14 {
        r is Ok && op_xori_post(pre, post, i)
    } else if f == 15 {
        r is Ok && op_lui_post(pre, post, i)
    } else if f == 16 {
        op_cop0_post(pre, post, i, r)
    } else if f == 17 {
        r is Ok && op_cop1_post(pre, post, i)
    } else if f == 18 {
        op_cop2_post(pre, post, i, r)
    } else if f == 19 {
        r is Ok && op_cop3_post(pre, post, i)
    } else if f == 32 {
        op_lb_post(pre, post, i, r)
    } else if f == 33 {
        op_lh_post(pre, post, i, r)
    } else if f == 34 {
        op_lwl_post(pre, post, i, r)
    } else if f == 35 {
        op_lw_post(pre, post, i, r)
    } else if f == 36 {
        op_lbu_post(pre, post, i, r)
    } else if f == 37 {
        op_lhu_post(pre, post, i, r)
    } else if f == 38 {
        op_lwr_post(pre, post, i, r)
    } else if f == 40 {
        op_sb_post(pre, post, i, r)
    } else if f == 41 {
        op_sh_post(pre, post, i, r)
    } else if f == 42 {
        op_swl_post(pre, post, i, r)
    } else if f == 43 {
        op_sw_post(pre, post, i, r)
    } else if f == 46 {
        op_swr_post(pre, post, i, r)
    } else if f == 48 {
        r is Ok && op_lwc0_post(pre, post, i)
    } else if f == 49 {
        r is Ok && op_lwc1_post(pre, post, i)
    } else if f == 50 {
        op_lwc2_post(pre, post, i, r)
    } else if f == 51 {
        r is Ok && op_lwc3_post(pre, post, i)
    } else if f == 56 {
        r is Ok && op_swc0_post(pre, post, i)
    } else if f == 57 {
        r is Ok && op_swc1_post(pre, post, i)
    } else if f == 58 {
        op_swc2_post(pre, post, i, r)
    } else if f == 59 {
        r is Ok && op_swc3_post(pre, post, i)
    } else {
        r is Ok && op_illegal_post(pre, post, i)
    }
}


/// The word a fetch at the current PC returns when it reads one of the
/// plain memories (RAM, scratchpad, BIOS), which no device tick can
/// change.
pub open spec fn stable_fetch(c: Cpu) -> Option<u32> {
    let a = mask_region_spec(c.pc);
    if crate::interconnect::in_rg(a, 0, 0x200000) || crate::interconnect::in_rg(
        a,
        0x1F800000,
        0x400,
    ) || crate::interconnect::in_rg(a, 0x1FC00000, 0x80000) {
        mem_value(c.inter, a, AccessWidth::Word)
    } else {
        None
    }
}

/// The state an executing step decodes in: the devices ticked, the
/// instruction fetched at the old PC, the PCs advanced, the pending
/// load committed into the out-registers and its slot cleared, and the
/// delay-slot flag latched from the branch flag.
pub open spec fn step_mid_rel(c0: Cpu, mid: Cpu) -> bool {
    &&& mid.pc == c0.next_pc
    &&& mid.next_pc == vstd::wrapping::u32_specs::wrapping_add(c0.next_pc, 4)
    &&& mid.regs == c0.regs
    &&& mid.out_regs@ == set_reg_spec(c0.out_regs@, c0.load.0.0 as int, c0.load.1)
    &&& mid.load == (RegisterIndex(0), 0u32)
    &&& mid.branch == false
    &&& mid.delay_slot == c0.branch
    &&& mid.stalls == 6
    &&& mid.hi == c0.hi
    &&& mid.lo == c0.lo
    &&& mid.current_pc == c0.pc
    &&& mid.sr == c0.sr
    &&& mid.cause == c0.cause
    &&& mid.epc == c0.epc
    &&& mid.gte == c0.gte
    &&& mid.exec_mode == c0.exec_mode
    &&& mid.breakpoints == c0.breakpoints
    &&& mid.watchpoints == c0.watchpoints
    &&& mid.event == (if c0.watchpoints@.contains(c0.pc) {
        Some(Event::WatchRead(c0.pc))
    } else {
        None::<Event>
    })
    &&& mid.inter.ram == c0.inter.ram
    &&& mid.inter.scratchpad == c0.inter.scratchpad
    &&& mid.inter.bios == c0.inter.bios
    &&& mid.inter.gpu == c0.inter.gpu
    &&& mid.inter.dma == c0.inter.dma
    &&& mid.inter.interrupts == ticked_irqs(c0)
    &&& mid.inter.wf()
}

/// The end of the step: the out-register snapshot copied back to the
/// live file; a breakpoint may set the event.
pub open spec fn step_end_rel(done: Cpu, cf: Cpu) -> bool {
    &&& cf == (Cpu { regs: cf.regs, event: cf.event, ..done })
    &&& cf.regs@ == done.out_regs@
}

/// One ordinary executed step, witnessed by its two inner states: the
/// decode state `mid`, the post-execute state `done`, and the decode
/// table relating them for the fetched word.
pub open spec fn step_exec_chain(c0: Cpu, mid: Cpu, done: Cpu, cf: Cpu) -> bool {
    &&& step_mid_rel(c0, mid)
    &&& decode_execute_post(mid, done, Instruction(stable_fetch(c0)->0), Ok(()))
    &&& step_end_rel(done, cf)
}

pub struct Cpu {
    /// Address of the instruction the next step fetches.
    pub pc: u32,
    pub next_pc: u32,
    /// The live register file instructions read.
    pub regs: Vec<u32>,
    /// The out-register snapshot instructions write; copied to the live
    /// file at the end of the step.
    pub out_regs: Vec<u32>,
    pub inter: Interconnect,
    /// The pending-load slot: destination register and value, committed
    /// at the start of the next step.
    pub load: (RegisterIndex, u32),
    pub branch: bool,
    pub delay_slot: bool,
    /// Remaining stall quanta; a stalled step only ticks the devices.
    pub stalls: u16,
    pub hi: u32,
    pub lo: u32,
    /// Address of the instruction being executed.
    pub current_pc: u32,
    /// COP0 status word.
    pub sr: u32,
    /// COP0 CAUSE word.
    pub cause: u32,
    /// COP0 exception PC.
    pub epc: u32,
    pub gte: Gte,
    pub exec_mode: ExecMode,
    pub breakpoints: Vec<u32>,
    pub watchpoints: Vec<u32>,
    pub event: Option<Event>,
}

impl Cpu {
    pub open spec fn wf(&self) -> bool {
        &&& self.regs@.len() == 32
        &&& self.out_regs@.len() == 32
        &&& self.regs@[0] == 0
        &&& self.out_regs@[0] == 0
        &&& self.load.0.0 < 32
        &&& self.inter.wf()
    }

    pub fn new(inter: Interconnect) -> (r: Cpu)
        requires
            inter.wf(),
        ensures
            r.wf(),
            r.pc == 0xbfc00000u32,
            r.next_pc == 0xbfc00004u32,
            r.inter == inter,
            r.sr == 0,
            r.cause == 0,
            r.epc == 0,
            !r.branch,
            !r.delay_slot,
            r.stalls == 0,
            r.load == (RegisterIndex(0), 0u32),
            r.regs@ =~= r.out_regs@,
            forall|i: int| 1 <= i < 32 ==> r.regs@[i] == 0xDEADBEEFu32,
            r.breakpoints@.len() == 0,
            r.watchpoints@.len() == 0,
            r.event is None,
    {
        let mut regs: Vec<u32> = vec![0xDEADBEEFu32; 32];
        regs[0] = 0;
        let out_regs = regs.clone();
        proof {
            assert(out_regs@ =~= regs@);
        }

        Cpu {
            pc: 0xbfc00000,
            next_pc: 0xbfc00004,
            regs,
            out_regs,
            inter,
            load: (RegisterIndex(0), 0),
            branch: false,
            delay_slot: false,
            stalls: 0,
            hi: 0xDEADBEEF,
            lo: 0xDEADBEEF,
            current_pc: 0,
            sr: 0,
            cause: 0,
            epc: 0,
            gte: Gte::new(),
            exec_mode: ExecMode::Continue,
            breakpoints: Vec::new(),
            watchpoints: Vec::new(),
            event: None,
        }
    }

    /// The current program counter.
    pub fn pc(&self) -> (r: u32)
        ensures
            r == self.pc,
    {
        self.pc
    }

    /// Reads register `index` from the live file.
    fn reg(&self, index: RegisterIndex) -> (r: u32)
        requires
            self.wf(),
            index.0 < 32,
        ensures
            r == self.regs@[index.0 as int],
    {
        self.regs[index.0 as usize]
    }

    /// Writes register `index` of the out-register snapshot; register 0
    /// stays zero.
    fn set_reg(&mut self, index: RegisterIndex, val: u32)
        requires
            old(self).wf(),
            index.0 < 32,
        ensures
            final(self).wf(),
            *final(self) == (Cpu { out_regs: final(self).out_regs, ..*old(self) }),
            final(self).out_regs@ == set_reg_spec(old(self).out_regs@, index.0 as int, val),
    {
        self.out_regs[index.0 as usize] = val;
        self.out_regs[0] = 0;
    }

    /// MTC0 to CAUSE can set only the software-interrupt bits 9:8.
    fn set_cause(&mut self, val: u32)
        ensures
            *final(self) == (Cpu {
                cause: (old(self).cause & !0x300) | (val & 0x300),
                ..*old(self)
            }),
    {
        self.cause = (self.cause & !0x300) | (val & 0x300);
    }

    /// Raises a guest-visible exception, as `exception_spec` states it.
    fn exception(&mut self, cause: Exception)
        ensures
            *final(self) == exception_spec(*old(self), cause),
            final(self).regs == old(self).regs,
            final(self).out_regs == old(self).out_regs,
            final(self).inter == old(self).inter,
    {
        let handler: u32 = if self.sr & (1u32 << 22) != 0 {
            proof {
                let s = self.sr;
                assert((s & (1u32 << 22) != 0) == (s & 0x400000u32 != 0)) by (bit_vector);
            }
            0xbfc00180
        } else {
            proof {
                let s = self.sr;
                assert((s & (1u32 << 22) != 0) == (s & 0x400000u32 != 0)) by (bit_vector);
            }
            0x80000080
        };

        let mode = self.sr & 0x3F;
        self.sr = (self.sr & !0x3F) | ((mode << 2) & 0x3F);

        let code: u32 = match cause {
            Exception::Irq => 0x0,
            Exception::LoadAddressError => 0x4,
            Exception::StoreAddressError => 0x5,
            Exception::SysCall => 0x8,
            Exception::Break => 0x9,
            Exception::IllegalInstruction => 0xA,
            Exception::CoprocessorError => 0xB,
            Exception::Overflow => 0xC,
        };

        self.cause = (self.cause & !0x8000007C) | (code << 2);
        self.epc = self.current_pc;

        if self.delay_slot {
            self.epc = self.epc.wrapping_sub(4);
            self.cause = self.cause | (1u32 << 31);
            proof {
                assert(1u32 << 31 == 0x80000000u32) by (bit_vector);
            }
        }

        self.pc = handler;
        self.next_pc = handler + 4;
    }

    /// A taken branch: relative target into next-PC, the branch flag up.
    fn branch(&mut self, offset: u32)
        ensures
            *final(self) == (Cpu {
                next_pc: vstd::wrapping::u32_specs::wrapping_add(old(self).pc, (offset << 2)),
                branch: true,
                ..*old(self)
            }),
    {
        let offset = offset << 2;
        self.next_pc = self.pc.wrapping_add(offset);
        self.branch = true;
    }

    /// Whether an enabled, pending interrupt line should preempt decode.
    fn check_irq(&self) -> (r: bool)
        ensures
            r == (self.sr & 1 != 0 && self.inter.interrupts.stat & self.inter.interrupts.mask
                != 0),
    {
        self.sr & 1 != 0 && self.inter.interrupts.check()
    }

    /// A load on behalf of the guest: notes a read watchpoint, costs two
    /// stall quanta, and goes through the interconnect.
    pub fn load(&mut self, addr: u32, w: AccessWidth) -> (r: Result<u32, Fault>)
        requires
            old(self).wf(),
            old(self).stalls <= 0xFF00,
        ensures
            final(self).wf(),
            final(self).stalls == old(self).stalls + 2,
            final(self).event == if old(self).watchpoints@.contains(addr) {
                Some(Event::WatchRead(addr))
            } else {
                old(self).event
            },
            *final(self) == (Cpu {
                inter: final(self).inter,
                stalls: final(self).stalls,
                event: final(self).event,
                ..*old(self)
            }),
            mem_value(old(self).inter, mask_region_spec(addr), w) is Some ==> r == Ok::<
                u32,
                Fault,
            >(mem_value(old(self).inter, mask_region_spec(addr), w)->0) && final(self).inter
                == old(self).inter,
            final(self).inter.bios == old(self).inter.bios,
            final(self).inter.ram == old(self).inter.ram,
            final(self).inter.scratchpad == old(self).inter.scratchpad,
            final(self).inter.interrupts == old(self).inter.interrupts,
    {
        if contains_u32(&self.watchpoints, addr) {
            self.event = Some(Event::WatchRead(addr));
        }
        self.stalls = self.stalls + 2;
        self.inter.load(addr, w)
    }

    /// A store on behalf of the guest: notes a write watchpoint, and is
    /// dropped entirely while the cache is isolated (SR bit 16).
    pub fn store(&mut self, addr: u32, val: u32, w: AccessWidth) -> (r: Result<(), Fault>)
        requires
            old(self).wf(),
        ensures
            final(self).wf(),
            final(self).event == if old(self).watchpoints@.contains(addr) {
                Some(Event::WatchWrite(addr))
            } else {
                old(self).event
            },
            *final(self) == (Cpu {
                inter: final(self).inter,
                event: final(self).event,
                ..*old(self)
            }),
            old(self).sr & 0x10000 != 0 ==> r is Ok && final(self).inter == old(self).inter,
            final(self).inter.bios == old(self).inter.bios,
            old(self).sr & 0x10000 == 0 && crate::interconnect::in_rg(
                mask_region_spec(addr),
                0,
                0x200000,
            ) && mask_region_spec(addr) + crate::addressible::width_len(w) <= 0x200000 ==> r
                is Ok && final(self).inter == (Interconnect {
                ram: final(self).inter.ram,
                ..old(self).inter
            }) && final(self).inter.ram@ == crate::addressible::store_le(
                old(self).inter.ram@,
                mask_region_spec(addr) as int,
                val,
                w,
            ),
    {
        if contains_u32(&self.watchpoints, addr) {
            self.event = Some(Event::WatchWrite(addr));
        }
        if self.sr & 0x10000 != 0 {
            // Cache isolated: the store never reaches the bus.
            return Ok(());
        }
        self.inter.store(addr, val, w)
    }

    /// Debugger memory read: straight through the interconnect, with no
    /// watchpoints, stalls or isolation.
    pub fn examine(&mut self, addr: u32, w: AccessWidth) -> (r: Result<u32, Fault>)
        requires
            old(self).wf(),
        ensures
            final(self).wf(),
            *final(self) == (Cpu { inter: final(self).inter, ..*old(self) }),
            mem_value(old(self).inter, mask_region_spec(addr), w) is Some ==> r == Ok::<
                u32,
                Fault,
            >(mem_value(old(self).inter, mask_region_spec(addr), w)->0) && final(self).inter
                == old(self).inter,
    {
        self.inter.load(addr, w)
    }

    /// Debugger memory write: straight through the interconnect.
    pub fn put(&mut self, addr: u32, val: u32, w: AccessWidth) -> (r: Result<(), Fault>)
        requires
            old(self).wf(),
        ensures
            final(self).wf(),
            *final(self) == (Cpu { inter: final(self).inter, ..*old(self) }),
            final(self).inter.bios == old(self).inter.bios,
            crate::interconnect::in_rg(mask_region_spec(addr), 0, 0x200000) && mask_region_spec(
                addr,
            ) + crate::addressible::width_len(w) <= 0x200000 ==> r is Ok && final(self).inter == (
            Interconnect { ram: final(self).inter.ram, ..old(self).inter })
                && final(self).inter.ram@ == crate::addressible::store_le(
                old(self).inter.ram@,
                mask_region_spec(addr) as int,
                val,
                w,
            ),
    {
        self.inter.store(addr, val, w)
    }

    /// One instruction step: tick the devices; drain a stall quantum if
    /// one is pending; raise Load-Address on a misaligned PC; fetch at
    /// PC; advance the PCs; commit the pending delayed load into the
    /// out-register snapshot and clear the slot; latch the delay-slot
    /// flag; take a pending enabled interrupt instead of decoding;
    /// otherwise decode and execute; and copy the out-registers to the
    /// live file.
    #[verifier::rlimit(100)]
    #[verifier::spinoff_prover]
    pub fn step(&mut self) -> (r: Result<Option<Event>, Fault>)
        requires
            old(self).wf(),
        ensures
            final(self).wf(),
            final(self).regs@[0] == 0,
            old(self).stalls > 0 ==> r == Ok::<Option<Event>, Fault>(None) && *final(self) == (
            Cpu {
                inter: final(self).inter,
                stalls: (old(self).stalls - 1) as u16,
                event: None,
                ..*old(self)
            }),
            old(self).stalls == 0 && r is Ok ==> final(self).regs@ == final(self).out_regs@,
            old(self).stalls == 0 && old(self).pc % 4 == 0 && r is Ok && irq_preempts(
                *old(self),
            ) ==> {
                let entered = exception_spec(
                    (Cpu {
                        cause: old(self).cause | (1u32 << 10),
                        current_pc: old(self).pc,
                        delay_slot: old(self).branch,
                        ..*old(self)
                    }),
                    Exception::Irq,
                );
                &&& final(self).pc == entered.pc
                &&& final(self).cause == entered.cause
                &&& final(self).epc == entered.epc
            },
            old(self).stalls == 0 && old(self).pc % 4 == 0 && !irq_preempts(*old(self))
                && stable_fetch(*old(self)) is Some && r is Ok ==> exists|mid: Cpu, done: Cpu|
                step_exec_chain(*old(self), mid, done, *final(self)),
            old(self).stalls == 0 && old(self).pc % 4 != 0 ==> r == Ok::<Option<Event>, Fault>(
                Some(Event::DoneStep),
            ) && final(self).pc == exception_spec(
                (Cpu { current_pc: old(self).pc, ..*old(self) }),
                Exception::LoadAddressError,
            ).pc && final(self).epc == exception_spec(
                (Cpu { current_pc: old(self).pc, ..*old(self) }),
                Exception::LoadAddressError,
            ).epc && final(self).cause == exception_spec(
                (Cpu { current_pc: old(self).pc, ..*old(self) }),
                Exception::LoadAddressError,
            ).cause,
            final(self).inter.bios == old(self).inter.bios,
    {
        self.event = None;

        self.inter.tick();

        proof {
            let c0 = *old(self);
            let t0 = crate::timer::timer_tick_spec(
                c0.inter.timers@[0],
                c0.inter.gpu.hblank,
                c0.inter.gpu.vblank,
                c0.inter.gpu.dotclock,
            );
            let t1 = crate::timer::timer_tick_spec(
                c0.inter.timers@[1],
                c0.inter.gpu.hblank,
                c0.inter.gpu.vblank,
                c0.inter.gpu.dotclock,
            );
            let t2 = crate::timer::timer_tick_spec(
                c0.inter.timers@[2],
                c0.inter.gpu.hblank,
                c0.inter.gpu.vblank,
                c0.inter.gpu.dotclock,
            );
            assert(self.inter.timers@ =~= seq![t0, t1, t2]);
            assert(self.inter.cdrom@ == crate::cdrom::cd_tick_spec(c0.inter.cdrom@));
            assert(self.inter.interrupts == ticked_irqs(c0));
        }

        if self.stalls > 0 {
            self.stalls = self.stalls - 1;
            return Ok(None);
        }

        self.current_pc = self.pc;

        if self.current_pc % 4 != 0 {
            self.exception(Exception::LoadAddressError);
            self.copy_out_regs();
            return Ok(Some(Event::DoneStep));
        }

        self.stalls = self.stalls + 4;
        let fetched = self.load(self.pc, AccessWidth::Word);
        let instruction = Instruction(
            match fetched {
                Ok(v) => v,
                Err(e) => {
                    return Err(e);
                },
            },
        );
        proof {
            if stable_fetch(*old(self)) is Some {
                assert(instruction == Instruction(stable_fetch(*old(self))->0));
            }
        }

        self.pc = self.next_pc;
        self.next_pc = self.next_pc.wrapping_add(4);

        let (reg, val) = self.load;
        self.set_reg(reg, val);

        self.load = (RegisterIndex(0), 0);
        self.delay_slot = self.branch;
        self.branch = false;

        let ghost mid_g = *self;
        proof {
            if stable_fetch(*old(self)) is Some {
                assert(step_mid_rel(*old(self), mid_g));
            }
        }

        if self.check_irq() {
            self.cause = self.cause | (1u32 << 10);
            self.stalls = self.stalls + 1;
            self.exception(Exception::Irq);
        } else {
            let res = self.decode_and_execute(instruction);
            match res {
                Ok(u) => {
                    proof {
                        assert(u == ());
                        assert(decode_execute_post(mid_g, *self, instruction, Ok(())));
                    }
                },
                Err(e) => {
                    return Err(e);
                },
            }
        }

        let ghost done_g = *self;

        self.copy_out_regs();

        if contains_u32(&self.breakpoints, self.pc) {
            self.event = Some(Event::Break);
            proof {
                if old(self).stalls == 0 && old(self).pc % 4 == 0 && !irq_preempts(*old(self))
                    && stable_fetch(*old(self)) is Some {
                    assert(step_exec_chain(*old(self), mid_g, done_g, *self));
                }
            }
            return Ok(Some(Event::Break));
        }

        let ev = match self.event {
            Some(e) => e,
            None => Event::DoneStep,
        };
        proof {
            if old(self).stalls == 0 && old(self).pc % 4 == 0 && !irq_preempts(*old(self))
                && stable_fetch(*old(self)) is Some {
                assert(step_exec_chain(*old(self), mid_g, done_g, *self));
            }
        }
        Ok(Some(ev))
    }

    /// Snapshots the out-registers back into the live file.
    fn copy_out_regs(&mut self)
        requires
            old(self).wf(),
        ensures
            final(self).wf(),
            *final(self) == (Cpu { regs: final(self).regs, ..*old(self) }),
            final(self).regs@ == old(self).out_regs@,
    {
        let copied = self.out_regs.clone();
        proof {
            assert(copied@ =~= self.out_regs@);
        }
        self.regs = copied;
    }
}

impl Cpu {
    /// Decodes and executes one fetched instruction.  Execution reads
    /// the live register file and writes only the out-register
    /// snapshot: the live file is untouched until the step's final
    /// copy, which is what makes the one-instruction load delay
    /// architectural.
    #[verifier::rlimit(100)]
    #[verifier::spinoff_prover]
    pub fn decode_and_execute(&mut self, instruction: Instruction) -> (r: Result<(), Fault>)
        requires
            old(self).wf(),
            old(self).stalls <= 0xF000,
        ensures
            final(self).wf(),
            final(self).regs == old(self).regs,
            final(self).inter.bios == old(self).inter.bios,
            final(self).stalls <= old(self).stalls + 8,
            decode_execute_post(*old(self), *final(self), instruction, r),
    {
        proof {
            reveal(decode_execute_post);
        }
        self.stalls = self.stalls + 1;

        match instruction.function() {
            0b000000 => self.execute_special(instruction),
            0b000001 => {
                self.op_bxx(instruction);
                Ok(())
            },
            0b000010 => {
                self.op_j(instruction);
                Ok(())
            },
            0b000011 => {
                self.op_jal(instruction);
                Ok(())
            },
            0b000100 => {
                self.op_beq(instruction);
                Ok(())
            },
            0b000101 => {
                self.op_bne(instruction);
                Ok(())
            },
            0b000110 => {
                self.op_blez(instruction);
                Ok(())
            },
            0b000111 => {
                self.op_bgtz(instruction);
                Ok(())
            },
            0b001000 => {
                self.op_addi(instruction);
                Ok(())
            },
            0b001001 => {
                self.op_addiu(instruction);
                Ok(())
            },
            0b001010 => {
                self.op_slti(instruction);
                Ok(())
            },
            0b001011 => {
                self.op_sltiu(instruction);
                Ok(())
            },
            0b001100 => {
                self.op_andi(instruction);
                Ok(())
            },
            0b001101 => {
                self.op_ori(instruction);
                Ok(())
            },
            0b001110 => {
                self.op_xori(instruction);
                Ok(())
            },
            0b001111 => {
                self.op_lui(instruction);
                Ok(())
            },
            0b010000 => self.op_cop0(instruction),
            0b010001 => {
                self.op_cop1(instruction);
                Ok(())
            },
            0b010010 => self.op_cop2(instruction),
            0b010011 => {
                self.op_cop3(instruction);
                Ok(())
            },
            0b100000 => self.op_lb(instruction),
            0b100001 => self.op_lh(instruction),
            0b100010 => self.op_lwl(instruction),
            0b100011 => self.op_lw(instruction),
            0b100100 => self.op_lbu(instruction),
            0b100101 => self.op_lhu(instruction),
            0b100110 => self.op_lwr(instruction),
            0b101000 => self.op_sb(instruction),
            0b101001 => self.op_sh(instruction),
            0b101010 => self.op_swl(instruction),
            0b101011 => self.op_sw(instruction),
            0b101110 => self.op_swr(instruction),
            0b110000 => {
                self.op_lwc0(instruction);
                Ok(())
            },
            0b110001 => {
                self.op_lwc1(instruction);
                Ok(())
            },
            0b110010 => self.op_lwc2(instruction),
            0b110011 => {
                self.op_lwc3(instruction);
                Ok(())
            },
            0b111000 => {
                self.op_swc0(instruction);
                Ok(())
            },
            0b111001 => {
                self.op_swc1(instruction);
                Ok(())
            },
            0b111010 => self.op_swc2(instruction),
            0b111011 => {
                self.op_swc3(instruction);
                Ok(())
            },
            _ => {
                self.op_illegal(instruction);
                Ok(())
            },
        }
    }

    /// The register-register group under primary opcode zero.
    #[verifier::rlimit(100)]
    #[verifier::spinoff_prover]
    fn execute_special(&mut self, instruction: Instruction) -> (r: Result<(), Fault>)
        requires
            old(self).wf(),
            old(self).stalls <= 0xF001,
        ensures
            final(self).wf(),
            final(self).regs == old(self).regs,
            final(self).inter.bios == old(self).inter.bios,
            final(self).stalls <= old(self).stalls + 4,
            special_execute_post(*old(self), *final(self), instruction, r),
    {
        proof {
            reveal(special_execute_post);
        }
        match instruction.subfunction() {
            0b000000 => {
                self.op_sll(instruction);
                Ok(())
            },
            0b000010 => {
                self.op_srl(instruction);
                Ok(())
            },
            0b000011 => {
                self.op_sra(instruction);
                Ok(())
            },
            0b000100 => {
                self.op_sllv(instruction);
                Ok(())
            },
            0b000110 => {
                self.op_srlv(instruction);
                Ok(())
            },
            0b000111 => {
                self.op_srav(instruction);
                Ok(())
            },
            0b001000 => {
                self.op_jr(instruction);
                Ok(())
            },
            0b001001 => {
                self.op_jalr(instruction);
                Ok(())
            },
            0b001100 => {
                self.op_syscall(instruction);
                Ok(())
            },
            0b001101 => {
                self.op_break(instruction);
                Ok(())
            },
            0b010000 => {
                self.op_mfhi(instruction);
                Ok(())
            },
            0b010001 => {
                self.op_mthi(instruction);
                Ok(())
            },
            0b010010 => {
                self.op_mflo(instruction);
                Ok(())
            },
            0b010011 => {
                self.op_mtlo(instruction);
                Ok(())
            },
            0b011000 => {
                self.op_mult(instruction);
                Ok(())
            },
            0b011001 => {
                self.op_multu(instruction);
                Ok(())
            },
            0b011010 => {
                self.op_div(instruction);
                Ok(())
            },
            0b011011 => {
                self.op_divu(instruction);
                Ok(())
            },
            0b100000 => {
                self.op_add(instruction);
                Ok(())
            },
            0b100001 => {
                self.op_addu(instruction);
                Ok(())
            },
            0b100010 => {
                self.op_sub(instruction);
                Ok(())
            },
            0b100011 => {
                self.op_subu(instruction);
                Ok(())
            },
            0b100100 => {
                self.op_and(instruction);
                Ok(())
            },
            0b100101 => {
                self.op_or(instruction);
                Ok(())
            },
            0b100110 => {
                self.op_xor(instruction);
                Ok(())
            },
            0b100111 => {
                self.op_nor(instruction);
                Ok(())
            },
            0b101010 => {
                self.op_slt(instruction);
                Ok(())
            },
            0b101011 => {
                self.op_sltu(instruction);
                Ok(())
            },
            _ => {
                self.op_illegal(instruction);
                Ok(())
            },
        }
    }

    /// LUI: load the immediate into the high half.
    fn op_lui(&mut self, instruction: Instruction)
        requires
            old(self).wf(),
        ensures
            final(self).wf(),
            op_lui_post(*old(self), *final(self), instruction),
    {
        let i = instruction.imm();
        let t = instruction.t();
        self.set_reg(t, i << 16);
    }

    /// ORI: bitwise or with the zero-extended immediate.
    fn op_ori(&mut self, instruction: Instruction)
        requires
            old(self).wf(),
        ensures
            final(self).wf(),
            op_ori_post(*old(self), *final(self), instruction),
    {
        let i = instruction.imm();
        let t = instruction.t();
        let s = instruction.s();
        let v = self.reg(s) | i;
        self.set_reg(t, v);
    }

    /// ANDI: bitwise and with the zero-extended immediate.
    fn op_andi(&mut self, instruction: Instruction)
        requires
            old(self).wf(),
        ensures
            final(self).wf(),
            op_andi_post(*old(self), *final(self), instruction),
    {
        let i = instruction.imm();
        let t = instruction.t();
        let s = instruction.s();
        let v = self.reg(s) & i;
        self.set_reg(t, v);
    }

    /// XORI: bitwise exclusive or with the zero-extended immediate.
    fn op_xori(&mut self, instruction: Instruction)
        requires
            old(self).wf(),
        ensures
            final(self).wf(),
            op_xori_post(*old(self), *final(self), instruction),
    {
        let i = instruction.imm();
        let t = instruction.t();
        let s = instruction.s();
        let v = self.reg(s) ^ i;
        self.set_reg(t, v);
    }

    /// SLL: shift left logical by the immediate amount.
    fn op_sll(&mut self, instruction: Instruction)
        requires
            old(self).wf(),
        ensures
            final(self).wf(),
            op_sll_post(*old(self), *final(self), instruction),
    {
        let i = instruction.shift();
        let t = instruction.t();
        let d = instruction.d();
        let v = self.reg(t) << i;
        self.set_reg(d, v);
    }

    /// SRL: shift right logical by the immediate amount.
    fn op_srl(&mut self, instruction: Instruction)
        requires
            old(self).wf(),
        ensures
            final(self).wf(),
            op_srl_post(*old(self), *final(self), instruction),
    {
        let i = instruction.shift();
        let t = instruction.t();
        let d = instruction.d();
        let v = self.reg(t) >> i;
        self.set_reg(d, v);
    }

    /// SRA: shift right arithmetic by the immediate amount.
    fn op_sra(&mut self, instruction: Instruction)
        requires
            old(self).wf(),
        ensures
            final(self).wf(),
            op_sra_post(*old(self), *final(self), instruction),
    {
        let i = instruction.shift();
        let t = instruction.t();
        let d = instruction.d();
        let v = (self.reg(t) as i32) >> i;
        self.set_reg(d, v as u32);
    }

    /// SLLV: shift left logical by the low 5 bits of the source.
    fn op_sllv(&mut self, instruction: Instruction)
        requires
            old(self).wf(),
        ensures
            final(self).wf(),
            op_sllv_post(*old(self), *final(self), instruction),
    {
        let d = instruction.d();
        let s = instruction.s();
        let t = instruction.t();
        let sh = self.reg(s) & 0x1F;
        proof {
            let x = rs_val(*old(self), instruction);
            assert(x & 0x1F < 32) by (bit_vector);
        }
        let v = self.reg(t) << sh;
        self.set_reg(d, v);
    }

    /// SRLV: shift right logical by the low 5 bits of the source.
    fn op_srlv(&mut self, instruction: Instruction)
        requires
            old(self).wf(),
        ensures
            final(self).wf(),
            op_srlv_post(*old(self), *final(self), instruction),
    {
        let d = instruction.d();
        let s = instruction.s();
        let t = instruction.t();
        let sh = self.reg(s) & 0x1F;
        proof {
            let x = rs_val(*old(self), instruction);
            assert(x & 0x1F < 32) by (bit_vector);
        }
        let v = self.reg(t) >> sh;
        self.set_reg(d, v);
    }

    /// SRAV: shift right arithmetic by the low 5 bits of the source.
    fn op_srav(&mut self, instruction: Instruction)
        requires
            old(self).wf(),
        ensures
            final(self).wf(),
            op_srav_post(*old(self), *final(self), instruction),
    {
        let d = instruction.d();
        let s = instruction.s();
        let t = instruction.t();
        let sh = self.reg(s) & 0x1F;
        proof {
            let x = rs_val(*old(self), instruction);
            assert(x & 0x1F < 32) by (bit_vector);
        }
        let v = (self.reg(t) as i32) >> sh;
        self.set_reg(d, v as u32);
    }

    /// OR.
    fn op_or(&mut self, instruction: Instruction)
        requires
            old(self).wf(),
        ensures
            final(self).wf(),
            op_or_post(*old(self), *final(self), instruction),
    {
        let d = instruction.d();
        let s = instruction.s();
        let t = instruction.t();
        let v = self.reg(s) | self.reg(t);
        self.set_reg(d, v);
    }

    /// AND.
    fn op_and(&mut self, instruction: Instruction)
        requires
            old(self).wf(),
        ensures
            final(self).wf(),
            op_and_post(*old(self), *final(self), instruction),
    {
        let d = instruction.d();
        let s = instruction.s();
        let t = instruction.t();
        let v = self.reg(s) & self.reg(t);
        self.set_reg(d, v);
    }

    /// XOR.
    fn op_xor(&mut self, instruction: Instruction)
        requires
            old(self).wf(),
        ensures
            final(self).wf(),
            op_xor_post(*old(self), *final(self), instruction),
    {
        let d = instruction.d();
        let s = instruction.s();
        let t = instruction.t();
        let v = self.reg(s) ^ self.reg(t);
        self.set_reg(d, v);
    }

    /// NOR.
    fn op_nor(&mut self, instruction: Instruction)
        requires
            old(self).wf(),
        ensures
            final(self).wf(),
            op_nor_post(*old(self), *final(self), instruction),
    {
        let d = instruction.d();
        let s = instruction.s();
        let t = instruction.t();
        let v = !(self.reg(s) | self.reg(t));
        self.set_reg(d, v);
    }

    /// SLTU: set on unsigned less-than.
    fn op_sltu(&mut self, instruction: Instruction)
        requires
            old(self).wf(),
        ensures
            final(self).wf(),
            op_sltu_post(*old(self), *final(self), instruction),
    {
        let d = instruction.d();
        let s = instruction.s();
        let t = instruction.t();
        let v = self.reg(s) < self.reg(t);
        self.set_reg(d, v as u32);
    }

    /// SLT: set on signed less-than.
    fn op_slt(&mut self, instruction: Instruction)
        requires
            old(self).wf(),
        ensures
            final(self).wf(),
            op_slt_post(*old(self), *final(self), instruction),
    {
        let d = instruction.d();
        let s = instruction.s();
        let t = instruction.t();
        let sv = self.reg(s) as i32;
        let tv = self.reg(t) as i32;
        let v = sv < tv;
        self.set_reg(d, v as u32);
    }

    /// SLTI: set on signed less-than against the sign-extended
    /// immediate.
    fn op_slti(&mut self, instruction: Instruction)
        requires
            old(self).wf(),
        ensures
            final(self).wf(),
            op_slti_post(*old(self), *final(self), instruction),
    {
        let i = instruction.imm_se() as i32;
        let s = instruction.s();
        let t = instruction.t();
        let v = (self.reg(s) as i32) < i;
        self.set_reg(t, v as u32);
    }

    /// SLTIU: set on unsigned less-than against the sign-extended
    /// immediate.
    fn op_sltiu(&mut self, instruction: Instruction)
        requires
            old(self).wf(),
        ensures
            final(self).wf(),
            op_sltiu_post(*old(self), *final(self), instruction),
    {
        let i = instruction.imm_se();
        let s = instruction.s();
        let t = instruction.t();
        let v = self.reg(s) < i;
        self.set_reg(t, v as u32);
    }

    /// ADDU: wrapping addition.
    fn op_addu(&mut self, instruction: Instruction)
        requires
            old(self).wf(),
        ensures
            final(self).wf(),
            op_addu_post(*old(self), *final(self), instruction),
    {
        let s = instruction.s();
        let t = instruction.t();
        let d = instruction.d();
        let v = self.reg(s).wrapping_add(self.reg(t));
        self.set_reg(d, v);
    }

    /// ADDIU: wrapping addition of the sign-extended immediate.
    fn op_addiu(&mut self, instruction: Instruction)
        requires
            old(self).wf(),
        ensures
            final(self).wf(),
            op_addiu_post(*old(self), *final(self), instruction),
    {
        let i = instruction.imm_se();
        let t = instruction.t();
        let s = instruction.s();
        let v = self.reg(s).wrapping_add(i);
        self.set_reg(t, v);
    }

    /// SUBU: wrapping subtraction.
    fn op_subu(&mut self, instruction: Instruction)
        requires
            old(self).wf(),
        ensures
            final(self).wf(),
            op_subu_post(*old(self), *final(self), instruction),
    {
        let s = instruction.s();
        let t = instruction.t();
        let d = instruction.d();
        let v = self.reg(s).wrapping_sub(self.reg(t));
        self.set_reg(d, v);
    }

    /// ADD: signed addition, raising Overflow instead of wrapping.
    fn op_add(&mut self, instruction: Instruction)
        requires
            old(self).wf(),
        ensures
            final(self).wf(),
            op_add_post(*old(self), *final(self), instruction),
    {
        let s = instruction.s();
        let t = instruction.t();
        let d = instruction.d();
        let sv = self.reg(s) as i32;
        let tv = self.reg(t) as i32;

        match sv.checked_add(tv) {
            Some(v) => self.set_reg(d, v as u32),
            None => self.exception(Exception::Overflow),
        }
    }

    /// ADDI: signed addition of the sign-extended immediate, raising
    /// Overflow instead of wrapping.
    fn op_addi(&mut self, instruction: Instruction)
        requires
            old(self).wf(),
        ensures
            final(self).wf(),
            op_addi_post(*old(self), *final(self), instruction),
    {
        let i = instruction.imm_se() as i32;
        let t = instruction.t();
        let s = instruction.s();
        let sv = self.reg(s) as i32;

        match sv.checked_add(i) {
            Some(v) => self.set_reg(t, v as u32),
            None => self.exception(Exception::Overflow),
        }
    }

    /// SUB: signed subtraction, raising Overflow instead of wrapping.
    fn op_sub(&mut self, instruction: Instruction)
        requires
            old(self).wf(),
        ensures
            final(self).wf(),
            op_sub_post(*old(self), *final(self), instruction),
    {
        let s = instruction.s();
        let t = instruction.t();
        let d = instruction.d();
        let sv = self.reg(s) as i32;
        let tv = self.reg(t) as i32;

        match sv.checked_sub(tv) {
            Some(v) => self.set_reg(d, v as u32),
            None => self.exception(Exception::Overflow),
        }
    }

    /// MFHI.
    fn op_mfhi(&mut self, instruction: Instruction)
        requires
            old(self).wf(),
        ensures
            final(self).wf(),
            op_mfhi_post(*old(self), *final(self), instruction),
    {
        let d = instruction.d();
        let hi = self.hi;
        self.set_reg(d, hi);
    }

    /// MFLO.
    fn op_mflo(&mut self, instruction: Instruction)
        requires
            old(self).wf(),
        ensures
            final(self).wf(),
            op_mflo_post(*old(self), *final(self), instruction),
    {
        let d = instruction.d();
        let lo = self.lo;
        self.set_reg(d, lo);
    }

    /// MTHI.
    fn op_mthi(&mut self, instruction: Instruction)
        requires
            old(self).wf(),
        ensures
            final(self).wf(),
            op_mthi_post(*old(self), *final(self), instruction),
    {
        let s = instruction.s();
        self.hi = self.reg(s);
    }

    /// MTLO.
    fn op_mtlo(&mut self, instruction: Instruction)
        requires
            old(self).wf(),
        ensures
            final(self).wf(),
            op_mtlo_post(*old(self), *final(self), instruction),
    {
        let s = instruction.s();
        self.lo = self.reg(s);
    }

    /// MULT: signed 32x32 to 64-bit multiply into HI:LO.
    fn op_mult(&mut self, instruction: Instruction)
        requires
            old(self).wf(),
        ensures
            final(self).wf(),
            op_mult_post(*old(self), *final(self), instruction),
    {
        let s = instruction.s();
        let t = instruction.t();

        let a = (self.reg(s) as i32) as i64;
        let b = (self.reg(t) as i32) as i64;

        proof {
            assert(a * b <= 0x4000000000000000i64 && a * b >= -0x4000000000000000i64)
                by (nonlinear_arith)
                requires
                    -0x80000000i64 <= a <= 0x7FFFFFFFi64 && -0x80000000i64 <= b <= 0x7FFFFFFFi64,
            ;
        }
        let v = a * b;

        self.hi = (v >> 32) as u32;
        self.lo = v as u32;
    }

    /// MULTU: unsigned 32x32 to 64-bit multiply into HI:LO.
    fn op_multu(&mut self, instruction: Instruction)
        requires
            old(self).wf(),
        ensures
            final(self).wf(),
            op_multu_post(*old(self), *final(self), instruction),
    {
        let s = instruction.s();
        let t = instruction.t();

        let a = self.reg(s) as u64;
        let b = self.reg(t) as u64;

        proof {
            assert(a * b <= 0xFFFFFFFFu64 * 0xFFFFFFFFu64) by (nonlinear_arith)
                requires
                    a <= 0xFFFFFFFFu64 && b <= 0xFFFFFFFFu64,
            ;
        }
        let v = a * b;

        self.hi = (v >> 32) as u32;
        self.lo = v as u32;
    }

    /// DIV: signed division with the MIPS edge cases: division by zero
    /// leaves the dividend in HI and all-ones or one in LO by the
    /// dividend's sign; the most negative dividend by minus one wraps.
    fn op_div(&mut self, instruction: Instruction)
        requires
            old(self).wf(),
        ensures
            final(self).wf(),
            op_div_post(*old(self), *final(self), instruction),
    {
        let s = instruction.s();
        let t = instruction.t();

        let n = self.reg(s) as i32;
        let d = self.reg(t) as i32;

        if d == 0 {
            self.hi = n as u32;
            if n >= 0 {
                self.lo = 0xFFFFFFFF;
            } else {
                self.lo = 1;
            }
        } else if n as u32 == 0x80000000 && d == -1 {
            self.hi = 0;
            self.lo = 0x80000000;
        } else {
            let na: u32 = if n >= 0 {
                n as u32
            } else {
                (-(n as i64)) as u32
            };
            let da: u32 = if d >= 0 {
                d as u32
            } else {
                (-(d as i64)) as u32
            };
            proof {
                assert(na == abs_u32(n));
                assert(da == abs_u32(d));
                assert(da != 0);
            }
            let q = na / da;
            let rem = na % da;

            self.lo = if (n < 0) == (d < 0) {
                q
            } else if q == 0 {
                0
            } else {
                (0x100000000u64 - (q as u64)) as u32
            };
            self.hi = if n >= 0 {
                rem
            } else if rem == 0 {
                0
            } else {
                (0x100000000u64 - (rem as u64)) as u32
            };
        }
    }

    /// DIVU: unsigned division; division by zero leaves the dividend in
    /// HI and all-ones in LO.
    fn op_divu(&mut self, instruction: Instruction)
        requires
            old(self).wf(),
        ensures
            final(self).wf(),
            op_divu_post(*old(self), *final(self), instruction),
    {
        let s = instruction.s();
        let t = instruction.t();

        let n = self.reg(s);
        let d = self.reg(t);

        if d == 0 {
            self.hi = n;
            self.lo = 0xFFFFFFFF;
        } else {
            self.hi = n % d;
            self.lo = n / d;
        }
    }

    /// J: jump within the current 256 MiB page.
    fn op_j(&mut self, instruction: Instruction)
        requires
            old(self).wf(),
        ensures
            final(self).wf(),
            op_j_post(*old(self), *final(self), instruction),
    {
        let i = instruction.imm_jump();
        self.next_pc = (self.pc & 0xF0000000) | (i << 2);
        self.branch = true;
    }

    /// JAL: jump and link through register 31.
    fn op_jal(&mut self, instruction: Instruction)
        requires
            old(self).wf(),
        ensures
            final(self).wf(),
            op_jal_post(*old(self), *final(self), instruction),
    {
        let ra = self.next_pc;
        self.set_reg(RegisterIndex(31), ra);
        self.op_j(instruction);
    }

    /// JR: jump to the source register.
    fn op_jr(&mut self, instruction: Instruction)
        requires
            old(self).wf(),
        ensures
            final(self).wf(),
            op_jr_post(*old(self), *final(self), instruction),
    {
        let s = instruction.s();
        self.next_pc = self.reg(s);
        self.branch = true;
    }

    /// JALR: jump to the source register and link through the named
    /// destination.
    fn op_jalr(&mut self, instruction: Instruction)
        requires
            old(self).wf(),
        ensures
            final(self).wf(),
            op_jalr_post(*old(self), *final(self), instruction),
    {
        let d = instruction.d();
        let s = instruction.s();
        let ra = self.next_pc;
        self.set_reg(d, ra);
        self.next_pc = self.reg(s);
        self.branch = true;
    }

    /// BEQ: branch on equal; the delay-slot instruction always runs
    /// before the target.
    fn op_beq(&mut self, instruction: Instruction)
        requires
            old(self).wf(),
        ensures
            final(self).wf(),
            op_beq_post(*old(self), *final(self), instruction),
    {
        let i = instruction.imm_se();
        let s = instruction.s();
        let t = instruction.t();

        if self.reg(s) == self.reg(t) {
            self.branch(i);
        }
    }

    /// BNE: branch on not equal.
    fn op_bne(&mut self, instruction: Instruction)
        requires
            old(self).wf(),
        ensures
            final(self).wf(),
            op_bne_post(*old(self), *final(self), instruction),
    {
        let i = instruction.imm_se();
        let s = instruction.s();
        let t = instruction.t();

        if self.reg(s) != self.reg(t) {
            self.branch(i);
        }
    }

    /// BLEZ: branch on less than or equal to zero.
    fn op_blez(&mut self, instruction: Instruction)
        requires
            old(self).wf(),
        ensures
            final(self).wf(),
            op_blez_post(*old(self), *final(self), instruction),
    {
        let i = instruction.imm_se();
        let s = instruction.s();
        let v = self.reg(s) as i32;

        if v <= 0 {
            self.branch(i);
        }
    }

    /// BGTZ: branch on greater than zero.
    fn op_bgtz(&mut self, instruction: Instruction)
        requires
            old(self).wf(),
        ensures
            final(self).wf(),
            op_bgtz_post(*old(self), *final(self), instruction),
    {
        let i = instruction.imm_se();
        let s = instruction.s();
        let v = self.reg(s) as i32;

        if v > 0 {
            self.branch(i);
        }
    }

    /// BLTZ/BGEZ/BLTZAL/BGEZAL: bit 16 flips the sign test, bits 20:17
    /// equal to 8 link through register 31; the link is written whether
    /// or not the branch is taken.
    fn op_bxx(&mut self, instruction: Instruction)
        requires
            old(self).wf(),
        ensures
            final(self).wf(),
            op_bxx_post(*old(self), *final(self), instruction),
    {
        let i = instruction.imm_se();
        let s = instruction.s();

        let op = instruction.0;

        let is_bgez = (op >> 16) & 1;
        let is_link = (op >> 17) & 0xF == 8;

        let v = self.reg(s) as i32;

        let test: u32 = ((v < 0) as u32) ^ is_bgez;

        if is_link {
            let ra = self.next_pc;
            self.set_reg(RegisterIndex(31), ra);
        }

        if test != 0 {
            self.branch(i);
        }
    }

    /// SYSCALL.
    fn op_syscall(&mut self, instruction: Instruction)
        requires
            old(self).wf(),
        ensures
            final(self).wf(),
            op_syscall_post(*old(self), *final(self), instruction),
    {
        let _ = instruction;
        self.exception(Exception::SysCall);
    }

    /// BREAK: stops a debugger and enters the guest's handler.
    fn op_break(&mut self, instruction: Instruction)
        requires
            old(self).wf(),
        ensures
            final(self).wf(),
            op_break_post(*old(self), *final(self), instruction),
    {
        let _ = instruction;
        self.event = Some(Event::Break);
        self.exception(Exception::Break);
    }

    /// An undecodable instruction raises Illegal-Instruction.
    fn op_illegal(&mut self, instruction: Instruction)
        requires
            old(self).wf(),
        ensures
            final(self).wf(),
            op_illegal_post(*old(self), *final(self), instruction),
    {
        let _ = instruction;
        self.exception(Exception::IllegalInstruction);
    }

    /// COP1 is not fitted: Coprocessor-Error.
    fn op_cop1(&mut self, instruction: Instruction)
        requires
            old(self).wf(),
        ensures
            final(self).wf(),
            op_cop1_post(*old(self), *final(self), instruction),
    {
        let _ = instruction;
        self.exception(Exception::CoprocessorError);
    }

    /// COP3 is not fitted: Coprocessor-Error.
    fn op_cop3(&mut self, instruction: Instruction)
        requires
            old(self).wf(),
        ensures
            final(self).wf(),
            op_cop3_post(*old(self), *final(self), instruction),
    {
        let _ = instruction;
        self.exception(Exception::CoprocessorError);
    }

    /// LWC0: no load coprocessor here; Coprocessor-Error.
    fn op_lwc0(&mut self, instruction: Instruction)
        requires
            old(self).wf(),
        ensures
            final(self).wf(),
            op_lwc0_post(*old(self), *final(self), instruction),
    {
        let _ = instruction;
        self.exception(Exception::CoprocessorError);
    }

    /// LWC1: no load coprocessor here; Coprocessor-Error.
    fn op_lwc1(&mut self, instruction: Instruction)
        requires
            old(self).wf(),
        ensures
            final(self).wf(),
            op_lwc1_post(*old(self), *final(self), instruction),
    {
        let _ = instruction;
        self.exception(Exception::CoprocessorError);
    }

    /// LWC3: no load coprocessor here; Coprocessor-Error.
    fn op_lwc3(&mut self, instruction: Instruction)
        requires
            old(self).wf(),
        ensures
            final(self).wf(),
            op_lwc3_post(*old(self), *final(self), instruction),
    {
        let _ = instruction;
        self.exception(Exception::CoprocessorError);
    }

    /// SWC0: no store coprocessor here; Coprocessor-Error.
    fn op_swc0(&mut self, instruction: Instruction)
        requires
            old(self).wf(),
        ensures
            final(self).wf(),
            op_swc0_post(*old(self), *final(self), instruction),
    {
        let _ = instruction;
        self.exception(Exception::CoprocessorError);
    }

    /// SWC1: no store coprocessor here; Coprocessor-Error.
    fn op_swc1(&mut self, instruction: Instruction)
        requires
            old(self).wf(),
        ensures
            final(self).wf(),
            op_swc1_post(*old(self), *final(self), instruction),
    {
        let _ = instruction;
        self.exception(Exception::CoprocessorError);
    }

    /// SWC3: no store coprocessor here; Coprocessor-Error.
    fn op_swc3(&mut self, instruction: Instruction)
        requires
            old(self).wf(),
        ensures
            final(self).wf(),
            op_swc3_post(*old(self), *final(self), instruction),
    {
        let _ = instruction;
        self.exception(Exception::CoprocessorError);
    }

    /// LWC2 to the geometry coprocessor is not implemented.
    fn op_lwc2(&mut self, instruction: Instruction) -> (r: Result<(), Fault>)
        requires
            old(self).wf(),
        ensures
            final(self).wf(),
            op_lwc2_post(*old(self), *final(self), instruction, r),
    {
        Err(Fault::UnhandledGteLwc { value: instruction.0 })
    }

    /// SWC2 from the geometry coprocessor is not implemented.
    fn op_swc2(&mut self, instruction: Instruction) -> (r: Result<(), Fault>)
        requires
            old(self).wf(),
        ensures
            final(self).wf(),
            op_swc2_post(*old(self), *final(self), instruction, r),
    {
        Err(Fault::UnhandledGteSwc { value: instruction.0 })
    }

    /// LB: byte load, sign-extended, into the pending-load slot.
    fn op_lb(&mut self, instruction: Instruction) -> (r: Result<(), Fault>)
        requires
            old(self).wf(),
            old(self).stalls <= 0xF002,
        ensures
            final(self).wf(),
            op_lb_post(*old(self), *final(self), instruction, r),
    {
        let i = instruction.imm_se();
        let t = instruction.t();
        let s = instruction.s();

        let addr = self.reg(s).wrapping_add(i);

        let loaded = self.load(addr, AccessWidth::Byte);
        let v = match loaded {
            Ok(v) => (v as u8) as i8,
            Err(e) => {
                return Err(e);
            },
        };

        self.load = (t, v as u32);
        Ok(())
    }

    /// LBU: byte load, zero-extended, into the pending-load slot.
    fn op_lbu(&mut self, instruction: Instruction) -> (r: Result<(), Fault>)
        requires
            old(self).wf(),
            old(self).stalls <= 0xF002,
        ensures
            final(self).wf(),
            op_lbu_post(*old(self), *final(self), instruction, r),
    {
        let i = instruction.imm_se();
        let t = instruction.t();
        let s = instruction.s();

        let addr = self.reg(s).wrapping_add(i);

        let loaded = self.load(addr, AccessWidth::Byte);
        let v = match loaded {
            Ok(v) => v as u8,
            Err(e) => {
                return Err(e);
            },
        };

        self.load = (t, v as u32);
        Ok(())
    }

    /// LH: halfword load, sign-extended; a misaligned address raises
    /// Load-Address.
    fn op_lh(&mut self, instruction: Instruction) -> (r: Result<(), Fault>)
        requires
            old(self).wf(),
            old(self).stalls <= 0xF002,
        ensures
            final(self).wf(),
            op_lh_post(*old(self), *final(self), instruction, r),
    {
        let i = instruction.imm_se();
        let t = instruction.t();
        let s = instruction.s();

        let addr = self.reg(s).wrapping_add(i);

        if addr % 2 == 0 {
            let loaded = self.load(addr, AccessWidth::Halfword);
            let v = match loaded {
                Ok(v) => (v as u16) as i16,
                Err(e) => {
                    return Err(e);
                },
            };
            self.load = (t, v as u32);
        } else {
            self.exception(Exception::LoadAddressError);
        }
        Ok(())
    }

    /// LHU: halfword load, zero-extended; a misaligned address raises
    /// Load-Address.
    fn op_lhu(&mut self, instruction: Instruction) -> (r: Result<(), Fault>)
        requires
            old(self).wf(),
            old(self).stalls <= 0xF002,
        ensures
            final(self).wf(),
            op_lhu_post(*old(self), *final(self), instruction, r),
    {
        let i = instruction.imm_se();
        let t = instruction.t();
        let s = instruction.s();

        let addr = self.reg(s).wrapping_add(i);

        if addr % 2 == 0 {
            let loaded = self.load(addr, AccessWidth::Halfword);
            let v = match loaded {
                Ok(v) => v as u16,
                Err(e) => {
                    return Err(e);
                },
            };
            self.load = (t, v as u32);
        } else {
            self.exception(Exception::LoadAddressError);
        }
        Ok(())
    }

    /// LW: word load into the pending-load slot; a misaligned address
    /// raises Load-Address.
    fn op_lw(&mut self, instruction: Instruction) -> (r: Result<(), Fault>)
        requires
            old(self).wf(),
            old(self).stalls <= 0xF002,
        ensures
            final(self).wf(),
            op_lw_post(*old(self), *final(self), instruction, r),
    {
        let i = instruction.imm_se();
        let t = instruction.t();
        let s = instruction.s();

        let addr = self.reg(s).wrapping_add(i);

        if addr % 4 == 0 {
            let loaded = self.load(addr, AccessWidth::Word);
            let v = match loaded {
                Ok(v) => v,
                Err(e) => {
                    return Err(e);
                },
            };
            self.load = (t, v);
        } else {
            self.exception(Exception::LoadAddressError);
        }
        Ok(())
    }

    /// LWL: unaligned word assembly, high part, merging with the
    /// out-register snapshot's current value of the destination.
    fn op_lwl(&mut self, instruction: Instruction) -> (r: Result<(), Fault>)
        requires
            old(self).wf(),
            old(self).stalls <= 0xF002,
        ensures
            final(self).wf(),
            op_lwl_post(*old(self), *final(self), instruction, r),
    {
        let i = instruction.imm_se();
        let t = instruction.t();
        let s = instruction.s();

        let addr = self.reg(s).wrapping_add(i);

        let cur_v = self.out_regs[t.0 as usize];

        let aligned_addr = addr & 0xFFFFFFFC;
        let loaded = self.load(aligned_addr, AccessWidth::Word);
        let aligned_word = match loaded {
            Ok(v) => v,
            Err(e) => {
                return Err(e);
            },
        };

        proof {
            let a = addr;
            assert(a & 3 < 4) by (bit_vector);
        }
        let v = match addr & 3 {
            0 => (cur_v & 0x00FFFFFF) | (aligned_word << 24),
            1 => (cur_v & 0x0000FFFF) | (aligned_word << 16),
            2 => (cur_v & 0x000000FF) | (aligned_word << 8),
            _ => aligned_word,
        };

        self.load = (t, v);
        Ok(())
    }

    /// LWR: unaligned word assembly, low part.
    fn op_lwr(&mut self, instruction: Instruction) -> (r: Result<(), Fault>)
        requires
            old(self).wf(),
            old(self).stalls <= 0xF002,
        ensures
            final(self).wf(),
            op_lwr_post(*old(self), *final(self), instruction, r),
    {
        let i = instruction.imm_se();
        let t = instruction.t();
        let s = instruction.s();

        let addr = self.reg(s).wrapping_add(i);

        let cur_v = self.out_regs[t.0 as usize];

        let aligned_addr = addr & 0xFFFFFFFC;
        let loaded = self.load(aligned_addr, AccessWidth::Word);
        let aligned_word = match loaded {
            Ok(v) => v,
            Err(e) => {
                return Err(e);
            },
        };

        proof {
            let a = addr;
            assert(a & 3 < 4) by (bit_vector);
        }
        let v = match addr & 3 {
            0 => aligned_word,
            1 => (cur_v & 0xFF000000) | (aligned_word >> 8),
            2 => (cur_v & 0xFFFF0000) | (aligned_word >> 16),
            _ => (cur_v & 0xFFFFFF00) | (aligned_word >> 24),
        };

        self.load = (t, v);
        Ok(())
    }

    /// SB: byte store; dropped while the cache is isolated.
    fn op_sb(&mut self, instruction: Instruction) -> (r: Result<(), Fault>)
        requires
            old(self).wf(),
        ensures
            final(self).wf(),
            op_sb_post(*old(self), *final(self), instruction, r),
    {
        if self.sr & 0x10000 != 0 {
            return Ok(());
        }

        let i = instruction.imm_se();
        let t = instruction.t();
        let s = instruction.s();

        let addr = self.reg(s).wrapping_add(i);
        let v = self.reg(t);

        self.store(addr, (v as u8) as u32, AccessWidth::Byte)
    }

    /// SH: halfword store; dropped while the cache is isolated; a
    /// misaligned address raises Store-Address.
    fn op_sh(&mut self, instruction: Instruction) -> (r: Result<(), Fault>)
        requires
            old(self).wf(),
        ensures
            final(self).wf(),
            op_sh_post(*old(self), *final(self), instruction, r),
    {
        if self.sr & 0x10000 != 0 {
            return Ok(());
        }

        let i = instruction.imm_se();
        let t = instruction.t();
        let s = instruction.s();

        let addr = self.reg(s).wrapping_add(i);

        if addr % 2 == 0 {
            let v = self.reg(t);
            self.store(addr, v & 0xFFFF, AccessWidth::Halfword)
        } else {
            self.exception(Exception::StoreAddressError);
            Ok(())
        }
    }

    /// SW: word store; dropped while the cache is isolated; a
    /// misaligned address raises Store-Address.
    fn op_sw(&mut self, instruction: Instruction) -> (r: Result<(), Fault>)
        requires
            old(self).wf(),
        ensures
            final(self).wf(),
            op_sw_post(*old(self), *final(self), instruction, r),
    {
        if self.sr & 0x10000 != 0 {
            return Ok(());
        }

        let i = instruction.imm_se();
        let t = instruction.t();
        let s = instruction.s();

        let addr = self.reg(s).wrapping_add(i);

        if addr % 4 == 0 {
            let v = self.reg(t);
            self.store(addr, v, AccessWidth::Word)
        } else {
            self.exception(Exception::StoreAddressError);
            Ok(())
        }
    }

    /// SWL: unaligned word store, high part, merging with the aligned
    /// memory word.
    fn op_swl(&mut self, instruction: Instruction) -> (r: Result<(), Fault>)
        requires
            old(self).wf(),
            old(self).stalls <= 0xF002,
        ensures
            final(self).wf(),
            op_swl_post(*old(self), *final(self), instruction, r),
    {
        let i = instruction.imm_se();
        let t = instruction.t();
        let s = instruction.s();

        let addr = self.reg(s).wrapping_add(i);
        let v = self.reg(t);

        let aligned_addr = addr & 0xFFFFFFFC;
        let loaded = self.load(aligned_addr, AccessWidth::Word);
        let cur_mem = match loaded {
            Ok(v) => v,
            Err(e) => {
                return Err(e);
            },
        };

        proof {
            let a = addr;
            assert(a & 3 < 4) by (bit_vector);
        }
        let mem = match addr & 3 {
            0 => (cur_mem & 0xFFFFFF00) | (v >> 24),
            1 => (cur_mem & 0xFFFF0000) | (v >> 16),
            2 => (cur_mem & 0xFF000000) | (v >> 8),
            _ => v,
        };

        self.store(aligned_addr, mem, AccessWidth::Word)
    }

    /// SWR: unaligned word store, low part.
    fn op_swr(&mut self, instruction: Instruction) -> (r: Result<(), Fault>)
        requires
            old(self).wf(),
            old(self).stalls <= 0xF002,
        ensures
            final(self).wf(),
            op_swr_post(*old(self), *final(self), instruction, r),
    {
        let i = instruction.imm_se();
        let t = instruction.t();
        let s = instruction.s();

        let addr = self.reg(s).wrapping_add(i);
        let v = self.reg(t);

        let aligned_addr = addr & 0xFFFFFFFC;
        let loaded = self.load(aligned_addr, AccessWidth::Word);
        let cur_mem = match loaded {
            Ok(v) => v,
            Err(e) => {
                return Err(e);
            },
        };

        proof {
            let a = addr;
            assert(a & 3 < 4) by (bit_vector);
        }
        let mem = match addr & 3 {
            0 => v,
            1 => (cur_mem & 0x000000FF) | (v << 8),
            2 => (cur_mem & 0x0000FFFF) | (v << 16),
            _ => (cur_mem & 0x00FFFFFF) | (v << 24),
        };

        self.store(aligned_addr, mem, AccessWidth::Word)
    }

    /// COP0 dispatch: register transfers and RFE.
    fn op_cop0(&mut self, instruction: Instruction) -> (r: Result<(), Fault>)
        requires
            old(self).wf(),
        ensures
            final(self).wf(),
            op_cop0_post(*old(self), *final(self), instruction, r),
    {
        match instruction.cop_opcode() {
            0b00000 => self.op_mfc0(instruction),
            0b00010 => self.op_cfc0(instruction),
            0b00100 => self.op_mtc0(instruction),
            0b00110 => self.op_ctc0(instruction),
            0b10000 => self.op_rfe(instruction),
            _ => Err(Fault::UnhandledCop0Opcode { value: instruction.0 }),
        }
    }

    /// MTC0: only SR, the software-interrupt bits of CAUSE, and EPC are
    /// writable; a non-zero write to a reserved register is a
    /// host-fatal fault.
    fn op_mtc0(&mut self, instruction: Instruction) -> (r: Result<(), Fault>)
        requires
            old(self).wf(),
        ensures
            final(self).wf(),
            op_mtc0_post(*old(self), *final(self), instruction, r),
    {
        let cpu_r = instruction.t();
        let cop_r = instruction.d().0;

        let v = self.reg(cpu_r);

        match cop_r {
            3 | 5 | 6 | 7 | 9 | 11 => {
                if v != 0 {
                    return Err(Fault::UnhandledCop0Write { register: cop_r });
                }
                Ok(())
            },
            12 => {
                self.sr = v;
                Ok(())
            },
            13 => {
                self.set_cause(v);
                Ok(())
            },
            14 => {
                self.epc = v;
                Ok(())
            },
            _ => Err(Fault::UnhandledCop0Write { register: cop_r }),
        }
    }

    /// MFC0: SR, CAUSE, EPC and the zero processor ID, through the
    /// pending-load slot.
    fn op_mfc0(&mut self, instruction: Instruction) -> (r: Result<(), Fault>)
        requires
            old(self).wf(),
        ensures
            final(self).wf(),
            op_mfc0_post(*old(self), *final(self), instruction, r),
    {
        let cpu_r = instruction.t();
        let cop_r = instruction.d().0;

        let v = match cop_r {
            12 => self.sr,
            13 => self.cause,
            14 => self.epc,
            15 => 0,
            _ => {
                return Err(Fault::UnhandledCop0Read { register: cop_r });
            },
        };

        self.load = (cpu_r, v);
        Ok(())
    }

    /// CFC0 transfers are not implemented.
    fn op_cfc0(&mut self, instruction: Instruction) -> (r: Result<(), Fault>)
        requires
            old(self).wf(),
        ensures
            final(self).wf(),
            op_cfc0_post(*old(self), *final(self), instruction, r),
    {
        let _ = instruction;
        Err(Fault::UnsupportedCop0Transfer)
    }

    /// CTC0 transfers are not implemented.
    fn op_ctc0(&mut self, instruction: Instruction) -> (r: Result<(), Fault>)
        requires
            old(self).wf(),
        ensures
            final(self).wf(),
            op_ctc0_post(*old(self), *final(self), instruction, r),
    {
        let _ = instruction;
        Err(Fault::UnsupportedCop0Transfer)
    }

    /// RFE: pop the SR mode stack two bits right; the top of the
    /// three-level stack (bits 5:4) is preserved.
    fn op_rfe(&mut self, instruction: Instruction) -> (r: Result<(), Fault>)
        requires
            old(self).wf(),
        ensures
            final(self).wf(),
            op_rfe_post(*old(self), *final(self), instruction, r),
    {
        if instruction.0 & 0x3F != 0b010000 {
            return Err(Fault::InvalidCop0Rfe { value: instruction.0 });
        }

        self.sr = (self.sr & !0x0F) | ((self.sr >> 2) & 0x0F);
        Ok(())
    }

    /// COP2 dispatch: geometry commands and register transfers.
    fn op_cop2(&mut self, instruction: Instruction) -> (r: Result<(), Fault>)
        requires
            old(self).wf(),
        ensures
            final(self).wf(),
            op_cop2_post(*old(self), *final(self), instruction, r),
    {
        let op = instruction.cop_opcode();
        if op & 0x10 > 0 {
            return self.gte_command(instruction.imm_cop());
        }

        match op {
            0b00000 => self.op_mfc2(instruction),
            0b00010 => self.op_cfc2(instruction),
            0b00100 => self.op_mtc2(instruction),
            0b00110 => self.op_ctc2(instruction),
            _ => Err(Fault::UnhandledGteInstruction { value: instruction.0 }),
        }
    }

    /// A geometry command through COP2.
    fn gte_command(&mut self, command: u32) -> (r: Result<(), Fault>)
        requires
            old(self).wf(),
        ensures
            final(self).wf(),
            r == Err::<(), Fault>(Fault::UnhandledGteInstruction { value: command }),
            *final(self) == *old(self),
    {
        self.gte.command(command)
    }

    /// MTC2: write a geometry data register from the CPU.
    fn op_mtc2(&mut self, instruction: Instruction) -> (r: Result<(), Fault>)
        requires
            old(self).wf(),
        ensures
            final(self).wf(),
            op_mtc2_post(*old(self), *final(self), instruction, r),
    {
        let t = instruction.t();
        let d = instruction.d();

        let val = self.reg(t);

        match self.gte.store_data(d, val) {
            Ok(()) => Ok(()),
            Err(e) => Err(e),
        }
    }

    /// MFC2: read a geometry data register into the out-registers.
    fn op_mfc2(&mut self, instruction: Instruction) -> (r: Result<(), Fault>)
        requires
            old(self).wf(),
        ensures
            final(self).wf(),
            op_mfc2_post(*old(self), *final(self), instruction, r),
    {
        let t = instruction.t();
        let d = instruction.d();

        let val = match self.gte.load_data(d) {
            Ok(v) => v,
            Err(e) => {
                return Err(e);
            },
        };

        self.set_reg(t, val);
        Ok(())
    }

    /// CFC2: read a geometry control register (reads as zero).
    fn op_cfc2(&mut self, instruction: Instruction) -> (r: Result<(), Fault>)
        requires
            old(self).wf(),
        ensures
            final(self).wf(),
            op_cfc2_post(*old(self), *final(self), instruction, r),
    {
        let t = instruction.t();
        let d = instruction.d();

        let val = self.gte.load_control(d);

        self.set_reg(t, val);
        Ok(())
    }

    /// CTC2: write a geometry control register (dropped).
    fn op_ctc2(&mut self, instruction: Instruction) -> (r: Result<(), Fault>)
        requires
            old(self).wf(),
        ensures
            final(self).wf(),
            op_ctc2_post(*old(self), *final(self), instruction, r),
    {
        let t = instruction.t();
        let d = instruction.d();

        let val = self.reg(t);

        self.gte.store_control(d, val);
        Ok(())
    }

}


/// Fills the front of `buf` from `data`: as many bytes as both hold.
pub fn copy_to_buf(data: &Vec<u8>, buf: &mut Vec<u8>) -> (r: usize)
    ensures
        r == if data@.len() < old(buf)@.len() {
            data@.len()
        } else {
            old(buf)@.len()
        },
        final(buf)@.len() == old(buf)@.len(),
        forall|i: int| 0 <= i < r ==> final(buf)@[i] == data@[i],
        forall|i: int| r <= i < old(buf)@.len() ==> final(buf)@[i] == old(buf)@[i],
{
    let n: usize = if data.len() < buf.len() {
        data.len()
    } else {
        buf.len()
    };
    let mut i: usize = 0;
    while i < n
        invariant
            n <= data@.len(),
            n <= buf@.len(),
            i <= n,
            buf@.len() == old(buf)@.len(),
            forall|j: int| 0 <= j < i ==> buf@[j] == data@[j],
            forall|j: int| i <= j < buf@.len() ==> buf@[j] == old(buf)@[j],
        decreases n - i,
    {
        buf[i] = data[i];
        i = i + 1;
    }
    n
}

/// Fills the front of `buf` from the window of `data` starting at
/// `offset` and at most `length` bytes long, clamped to the data.
pub fn copy_range_to_buf(data: &Vec<u8>, offset: u64, length: usize, buf: &mut Vec<u8>) -> (r:
    usize)
    ensures
        ({
            let len = data@.len() as int;
            let start = if (offset as int) < len {
                offset as int
            } else {
                len
            };
            let end = if (offset as int + length) < len {
                offset as int + length
            } else {
                len
            };
            let window = end - start;
            &&& r == (if window < old(buf)@.len() {
                window
            } else {
                old(buf)@.len() as int
            })
            &&& final(buf)@.len() == old(buf)@.len()
            &&& forall|i: int| 0 <= i < r ==> final(buf)@[i] == data@[start + i]
            &&& forall|i: int| r <= i < old(buf)@.len() ==> final(buf)@[i] == old(buf)@[i]
        }),
{
    let len = data.len();
    let start: usize = if offset < len as u64 {
        offset as usize
    } else {
        len
    };
    let end: usize = if offset <= usize::MAX as u64 && (offset as usize) <= usize::MAX - length
        && (offset as usize) + length < len {
        offset as usize + length
    } else {
        len
    };
    let window = end - start;

    let n: usize = if window < buf.len() {
        window
    } else {
        buf.len()
    };
    let mut i: usize = 0;
    while i < n
        invariant
            start + n <= data.len(),
            i <= n,
            buf@.len() == old(buf)@.len(),
            n <= buf@.len(),
            forall|j: int| 0 <= j < i ==> buf@[j] == data@[start + j],
            forall|j: int| i <= j < buf@.len() ==> buf@[j] == old(buf)@[j],
        decreases n - i,
    {
        buf[i] = data[start + i];
        i = i + 1;
    }
    n
}


/// A store issued while the cache is isolated is dropped before it
/// reaches the bus, so every value a later load can observe is exactly
/// what it was before the store: the interconnect is unchanged, and
/// with it every loadable location.
pub proof fn lemma_isolated_store_preserves_loads(pre: Cpu, post: Cpu, addr: u32, w: AccessWidth)
    requires
        pre.sr & 0x10000 != 0,
        // What `Cpu::store` ensures of an isolated store:
        post.inter == pre.inter,
    ensures
        mem_value(post.inter, mask_region_spec(addr), w) == mem_value(
            pre.inter,
            mask_region_spec(addr),
            w,
        ),
{
}


/// Whether `x` occurs in `v`.
pub fn contains_u32(v: &Vec<u32>, x: u32) -> (r: bool)
    ensures
        r == v@.contains(x),
{
    let mut i: usize = 0;
    while i < v.len()
        invariant
            i <= v@.len(),
            forall|j: int| 0 <= j < i ==> v@[j] != x,
        decreases v@.len() - i,
    {
        if v[i] == x {
            assert(v@[i as int] == x);
            return true;
        }
        i = i + 1;
    }
    assert(!v@.contains(x));
    false
}

} // verus!
