//! The mathematical model of the machine: an abstract machine state, the
//! semantics of every instruction as a function on that state, and the
//! specification of one fetch-decode-execute step. The executable engine is
//! verified against `spec_step`.

use vstd::prelude::*;

use crate::arm::{
    spec_decode_arm, Alu, AluOp, Branch, BranchExchange, Instruction, Sdt,
};
use crate::bits::{half_at, ror, store_word, to_u32, wadd, wmul, word_at, wsub};
use crate::common::{reg_implemented, ExecErr, Register};
use crate::thumb::{
    spec_decode_thumb, spec_rlist, spec_try_long, ThumbAluOp, ThumbBranchOp, ThumbDec,
    ThumbMcasOp, ThumbMultLSOp, ThumbPushPopOp, ThumbRegShiftOp,
};

verus! {

/// Size in bytes of the flat memory: enough to cover the full addressable
/// range the loaded program and its working data use.
pub const MEM_SIZE: usize = 0x1000_0000;

/// The fixed address program bytes are loaded at.
pub const LOAD_ADDR: u32 = 0x0800_0000;

/// The abstract machine state: the register file (eight low registers plus
/// stack pointer, link register and program counter), the four condition
/// flags, the instruction-set mode, the diagnostics toggle, and the flat
/// byte memory.
pub struct CpuView {
    pub r0: u32,
    pub r1: u32,
    pub r2: u32,
    pub r3: u32,
    pub r4: u32,
    pub r5: u32,
    pub r6: u32,
    pub r7: u32,
    /// R13.
    pub sp: u32,
    /// R14.
    pub lr: u32,
    /// R15; holds the address of the next instruction to fetch.
    pub pc: u32,
    /// N: sign flag.
    pub sign: bool,
    /// Z: zero flag.
    pub zero: bool,
    /// C: carry flag.
    pub carry: bool,
    /// V: overflow flag.
    pub overflow: bool,
    /// Instruction-set mode: true for the 16-bit encoding.
    pub thumb: bool,
    /// Diagnostics-enabled toggle.
    pub logging: bool,
    /// The flat byte-addressed memory.
    pub mem: Seq<u8>,
}

/// How a machine step resolves: the next state, or a failure of the kind
/// given (a failing step leaves the state unchanged).
pub enum StepOutcome {
    Next(CpuView),
    Fail(ErrKind),
}

/// The failure taxonomy at the level of the model, without message text.
pub enum ErrKind {
    /// No decode rule matched this full 32-bit word.
    UnknownWord(u32),
    /// No decode rule matched this 16-bit half-word.
    UnknownHalf(u16),
    /// Decode succeeded but the opcode/operand-mode combination has no
    /// semantic handler.
    Unimplemented,
    /// A memory access fell outside the allocated extent.
    OutOfBounds,
    /// A long-form instruction was expected but not resolved.
    Inconsistency,
}

/// Whether the executable error `e` is of the model kind `k`.
pub open spec fn err_matches(e: ExecErr, k: ErrKind) -> bool {
    match k {
        ErrKind::UnknownWord(w) => e matches ExecErr::UnknownInstr(x) && x == w,
        ErrKind::UnknownHalf(h) => e matches ExecErr::UnknownThumbInstr(x) && x == h,
        ErrKind::Unimplemented => e is UnimplementedInstr,
        ErrKind::OutOfBounds => e is OutOfBoundsAccess,
        ErrKind::Inconsistency => e is InternalInconsistency,
    }
}

/// Whether an executable transition from `pre` to `post` with result `r`
/// realizes the model outcome `out`.
pub open spec fn step_matches(
    pre: CpuView,
    post: CpuView,
    r: Result<(), ExecErr>,
    out: StepOutcome,
) -> bool {
    match out {
        StepOutcome::Next(v) => r is Ok && post == v,
        StepOutcome::Fail(k) => r matches Err(e) && err_matches(e, k) && post == pre,
    }
}

impl CpuView {
    /// The value the register `r` holds. The unimplemented registers R8
    /// through R12 carry no state; they read as zero here, and the
    /// semantics never reads them.
    pub open spec fn reg(self, r: Register) -> u32 {
        match r {
            Register::R0 => self.r0,
            Register::R1 => self.r1,
            Register::R2 => self.r2,
            Register::R3 => self.r3,
            Register::R4 => self.r4,
            Register::R5 => self.r5,
            Register::R6 => self.r6,
            Register::R7 => self.r7,
            Register::R13 => self.sp,
            Register::R14 => self.lr,
            Register::R15 => self.pc,
            _ => 0,
        }
    }

    /// The state with register `r` set to `v` (unchanged for the
    /// unimplemented registers, which the semantics never writes).
    pub open spec fn set_reg(self, r: Register, v: u32) -> CpuView {
        match r {
            Register::R0 => CpuView { r0: v, ..self },
            Register::R1 => CpuView { r1: v, ..self },
            Register::R2 => CpuView { r2: v, ..self },
            Register::R3 => CpuView { r3: v, ..self },
            Register::R4 => CpuView { r4: v, ..self },
            Register::R5 => CpuView { r5: v, ..self },
            Register::R6 => CpuView { r6: v, ..self },
            Register::R7 => CpuView { r7: v, ..self },
            Register::R13 => CpuView { sp: v, ..self },
            Register::R14 => CpuView { lr: v, ..self },
            Register::R15 => CpuView { pc: v, ..self },
            _ => self,
        }
    }

    /// The state with the program counter set to `pc`.
    pub open spec fn with_pc(self, pc: u32) -> CpuView {
        CpuView { pc, ..self }
    }

    /// The state with the memory replaced by `mem`.
    pub open spec fn with_mem(self, mem: Seq<u8>) -> CpuView {
        CpuView { mem, ..self }
    }

    /// The state with the zero flag set to `zero`.
    pub open spec fn with_zero(self, zero: bool) -> CpuView {
        CpuView { zero, ..self }
    }

    /// Well-formedness: the memory covers the full addressable extent of
    /// this core.
    pub open spec fn wf(self) -> bool {
        self.mem.len() == MEM_SIZE
    }
}

/// Branch: the target is PC + 8 (pipeline offset) + 4 times the 24-bit
/// word offset; the link form is unimplemented in this scope.
pub open spec fn sem_arm_branch(s: CpuView, b: Branch) -> StepOutcome {
    if b.is_link {
        StepOutcome::Fail(ErrKind::Unimplemented)
    } else {
        StepOutcome::Next(s.with_pc(wadd(wadd(s.pc, 8), wmul(b.nn, 4))))
    }
}

/// Branch-exchange: jumps to the register value with bit 0 cleared and
/// switches to the 16-bit mode; the program counter is not separately
/// advanced afterwards.
pub open spec fn sem_arm_bx(s: CpuView, b: BranchExchange) -> StepOutcome {
    if !reg_implemented(b.rn) {
        StepOutcome::Fail(ErrKind::Unimplemented)
    } else {
        let target = (((s.reg(b.rn) | 1) - 1) as u32);
        StepOutcome::Next(CpuView { pc: target, thumb: true, ..s })
    }
}

/// The rotate-immediate operand of a data-processing instruction: the low
/// 8 bits of the operand field rotated right by twice the 4-bit rotate
/// count.
pub open spec fn spec_alu_operand2(operand: u32) -> u32 {
    ror(operand & 0xFF, (((operand >> 8) & 0xF) * 2) as u32)
}

/// Data processing. Only the immediate-operand Add and Mov are implemented;
/// every other opcode fails with the unimplemented error. When the source
/// register is the program counter, Add reads it 8 bytes ahead (pipeline
/// compensation for immediate-shift operands).
pub open spec fn sem_arm_alu(s: CpuView, a: Alu) -> StepOutcome {
    match a.op {
        AluOp::Add => {
            if !a.immediate {
                StepOutcome::Fail(ErrKind::Unimplemented)
            } else if !reg_implemented(a.rn) {
                StepOutcome::Fail(ErrKind::Unimplemented)
            } else if !reg_implemented(a.rd) {
                StepOutcome::Fail(ErrKind::Unimplemented)
            } else {
                let op2 = spec_alu_operand2(a.operand);
                let base = if a.rn == Register::R15 {
                    wadd(s.reg(a.rn), 8)
                } else {
                    s.reg(a.rn)
                };
                let s2 = s.set_reg(a.rd, wadd(base, op2));
                StepOutcome::Next(s2.with_pc(wadd(s2.pc, 4)))
            }
        },
        AluOp::Mov => {
            if !a.immediate {
                StepOutcome::Fail(ErrKind::Unimplemented)
            } else if !reg_implemented(a.rd) {
                StepOutcome::Fail(ErrKind::Unimplemented)
            } else {
                let s2 = s.set_reg(a.rd, spec_alu_operand2(a.operand));
                StepOutcome::Next(s2.with_pc(wadd(s2.pc, 4)))
            }
        },
        _ => StepOutcome::Fail(ErrKind::Unimplemented),
    }
}

/// Single data transfer, immediate-offset forms only. A load whose base is
/// the program counter reads it 8 bytes ahead; a store writes the value of
/// R0 (the only supported source in this scope).
pub open spec fn sem_arm_sdt(s: CpuView, d: Sdt) -> StepOutcome {
    if !d.immediate {
        StepOutcome::Fail(ErrKind::Unimplemented)
    } else if !reg_implemented(d.rn) {
        StepOutcome::Fail(ErrKind::Unimplemented)
    } else if d.load_memory {
        let addr0 = wadd(s.reg(d.rn), d.operand);
        let addr = if d.rn == Register::R15 {
            wadd(addr0, 8)
        } else {
            addr0
        };
        if addr + 4 > s.mem.len() {
            StepOutcome::Fail(ErrKind::OutOfBounds)
        } else if !reg_implemented(d.rd) {
            StepOutcome::Fail(ErrKind::Unimplemented)
        } else {
            let s2 = s.set_reg(d.rd, word_at(s.mem, addr as int));
            StepOutcome::Next(s2.with_pc(wadd(s2.pc, 4)))
        }
    } else {
        let addr = wadd(s.reg(d.rn), d.operand);
        if addr + 4 > s.mem.len() {
            StepOutcome::Fail(ErrKind::OutOfBounds)
        } else {
            let s2 = s.with_mem(store_word(s.mem, addr as int, s.r0));
            StepOutcome::Next(s2.with_pc(wadd(s2.pc, 4)))
        }
    }
}

/// One 32-bit step: fetch the word at the program counter, decode it, and
/// apply the matching semantics; the status-register-transfer stub only
/// advances the program counter.
pub open spec fn spec_step_arm(s: CpuView) -> StepOutcome {
    if s.pc + 4 > s.mem.len() {
        StepOutcome::Fail(ErrKind::OutOfBounds)
    } else {
        let w = word_at(s.mem, s.pc as int);
        match spec_decode_arm(w) {
            None => StepOutcome::Fail(ErrKind::UnknownWord(w)),
            Some(i) => match i {
                Instruction::Branch(b) => sem_arm_branch(s, b),
                Instruction::BranchExchange(b) => sem_arm_bx(s, b),
                Instruction::Alu(a) => sem_arm_alu(s, a),
                Instruction::Sdt(d) => sem_arm_sdt(s, d),
                Instruction::Psr => StepOutcome::Next(s.with_pc(wadd(s.pc, 4))),
            },
        }
    }
}

/// Every register of the list is one the register file holds.
pub open spec fn all_regs_implemented(regs: Seq<Register>) -> bool {
    forall|i: int| 0 <= i < regs.len() ==> reg_implemented(#[trigger] regs[i])
}

/// Two-low-register ALU: bit-clear writes Rd AND NOT Rs and updates the
/// zero flag from the result; compare updates the zero flag from
/// Rd - Rs (the other flags are not maintained in this scope).
pub open spec fn sem_thumb_alu(
    s: CpuView,
    op: ThumbAluOp,
    rd: Register,
    rs: Register,
) -> StepOutcome {
    if !reg_implemented(rs) || !reg_implemented(rd) {
        StepOutcome::Fail(ErrKind::Unimplemented)
    } else {
        match op {
            ThumbAluOp::Bic => {
                let v = s.reg(rd) & !s.reg(rs);
                let s2 = s.set_reg(rd, v).with_zero(v == 0);
                StepOutcome::Next(s2.with_pc(wadd(s2.pc, 2)))
            },
            ThumbAluOp::Cmp => {
                let s2 = s.with_zero(wsub(s.reg(rd), s.reg(rs)) == 0);
                StepOutcome::Next(s2.with_pc(wadd(s2.pc, 2)))
            },
        }
    }
}

/// Memory store with base + immediate offset: writes the source register's
/// value to base + offset, with no alignment masking.
pub open spec fn sem_thumb_lsi(s: CpuView, rd: Register, rb: Register, nn: u16) -> StepOutcome {
    if !reg_implemented(rb) || !reg_implemented(rd) {
        StepOutcome::Fail(ErrKind::Unimplemented)
    } else {
        let addr = wadd(s.reg(rb), nn as u32);
        if addr + 4 > s.mem.len() {
            StepOutcome::Fail(ErrKind::OutOfBounds)
        } else {
            let s2 = s.with_mem(store_word(s.mem, addr as int, s.reg(rd)));
            StepOutcome::Next(s2.with_pc(wadd(s2.pc, 2)))
        }
    }
}

/// Memory load with base + immediate offset: the effective address is
/// masked by clearing bit 1 before reading, forcing the 4-byte alignment of
/// literal-pool reads.
pub open spec fn sem_thumb_mls(s: CpuView, rd: Register, rb: Register, nn: u16) -> StepOutcome {
    if !reg_implemented(rb) {
        StepOutcome::Fail(ErrKind::Unimplemented)
    } else {
        let addr = wadd(s.reg(rb), nn as u32) & !2u32;
        if addr + 4 > s.mem.len() {
            StepOutcome::Fail(ErrKind::OutOfBounds)
        } else if !reg_implemented(rd) {
            StepOutcome::Fail(ErrKind::Unimplemented)
        } else {
            let s2 = s.set_reg(rd, word_at(s.mem, addr as int));
            StepOutcome::Next(s2.with_pc(wadd(s2.pc, 2)))
        }
    }
}

/// Hi-register branch exchange: jumps to the register value with bit 0
/// cleared; bit 0 of the target selects the instruction-set mode to run in
/// from here on.
pub open spec fn sem_thumb_hireg(s: CpuView, rd: Register) -> StepOutcome {
    if !reg_implemented(rd) {
        StepOutcome::Fail(ErrKind::Unimplemented)
    } else {
        let t = s.reg(rd);
        StepOutcome::Next(CpuView { pc: (((t | 1) - 1) as u32), thumb: t & 1 == 1, ..s })
    }
}

/// Move shifted register. The shifts of this scope preserve the top bit
/// unconditionally while shifting the remaining 31 bits (a deliberate
/// simplification); the zero flag is set unconditionally and the carry flag
/// is set unless the shift count is zero. Logical shift right is
/// unimplemented.
pub open spec fn sem_thumb_regshift(
    s: CpuView,
    op: ThumbRegShiftOp,
    rd: Register,
    rs: Register,
    nn: u16,
) -> StepOutcome {
    match op {
        ThumbRegShiftOp::Lsr => StepOutcome::Fail(ErrKind::Unimplemented),
        ThumbRegShiftOp::Lsl => {
            if !reg_implemented(rs) || !reg_implemented(rd) {
                StepOutcome::Fail(ErrKind::Unimplemented)
            } else {
                let v = s.reg(rs);
                let v2 = (v & 0x8000_0000) | ((v & 0x7FFF_FFFF) << nn as u32);
                let s2 = s.set_reg(rd, v2);
                let s3 = CpuView { zero: true, carry: nn != 0 || s.carry, ..s2 };
                StepOutcome::Next(s3.with_pc(wadd(s3.pc, 2)))
            }
        },
        ThumbRegShiftOp::Asr => {
            if !reg_implemented(rs) || !reg_implemented(rd) {
                StepOutcome::Fail(ErrKind::Unimplemented)
            } else {
                let v = s.reg(rs);
                let v2 = (v & 0x8000_0000) | ((v & 0x7FFF_FFFF) >> nn as u32);
                let s2 = s.set_reg(rd, v2);
                let s3 = CpuView { zero: true, carry: nn != 0 || s.carry, ..s2 };
                StepOutcome::Next(s3.with_pc(wadd(s3.pc, 2)))
            }
        },
    }
}

/// Move/compare/add/subtract immediate: move writes the immediate,
/// subtract subtracts it from the destination (wrap-around, no borrow
/// detection); both update the zero flag from the result.
pub open spec fn sem_thumb_mcas(s: CpuView, op: ThumbMcasOp, rd: Register, nn: u16) -> StepOutcome {
    if !reg_implemented(rd) {
        StepOutcome::Fail(ErrKind::Unimplemented)
    } else {
        match op {
            ThumbMcasOp::Mov => {
                let v = nn as u32;
                let s2 = s.set_reg(rd, v).with_zero(v == 0);
                StepOutcome::Next(s2.with_pc(wadd(s2.pc, 2)))
            },
            ThumbMcasOp::Sub => {
                let v = wsub(s.reg(rd), nn as u32);
                let s2 = s.set_reg(rd, v).with_zero(v == 0);
                StepOutcome::Next(s2.with_pc(wadd(s2.pc, 2)))
            },
        }
    }
}

/// Add/subtract: the register forms add or subtract the two named
/// registers with wrap-around and no overflow detection; the immediate
/// forms are recognized by the decoder but unimplemented in execution.
pub open spec fn sem_thumb_addsub(s: CpuView, a: crate::thumb::ThumbAddSub) -> StepOutcome {
    match a {
        crate::thumb::ThumbAddSub::Addr(op) => {
            if !reg_implemented(op.rs) || !reg_implemented(op.rn) || !reg_implemented(op.rd) {
                StepOutcome::Fail(ErrKind::Unimplemented)
            } else {
                let v = wadd(s.reg(op.rs), s.reg(op.rn));
                let s2 = s.set_reg(op.rd, v);
                StepOutcome::Next(s2.with_pc(wadd(s2.pc, 2)))
            }
        },
        crate::thumb::ThumbAddSub::Subr(op) => {
            if !reg_implemented(op.rs) || !reg_implemented(op.rn) || !reg_implemented(op.rd) {
                StepOutcome::Fail(ErrKind::Unimplemented)
            } else {
                let v = wsub(s.reg(op.rs), s.reg(op.rn));
                let s2 = s.set_reg(op.rd, v);
                StepOutcome::Next(s2.with_pc(wadd(s2.pc, 2)))
            }
        },
        crate::thumb::ThumbAddSub::Addi(_) => StepOutcome::Fail(ErrKind::Unimplemented),
        crate::thumb::ThumbAddSub::Subi(_) => StepOutcome::Fail(ErrKind::Unimplemented),
    }
}

/// One push transfer: the stack pointer moves down one word and the
/// register's value is stored at the new stack pointer.
pub open spec fn push_one(t: CpuView, r: Register) -> CpuView {
    CpuView {
        sp: wsub(t.sp, 4),
        mem: store_word(t.mem, wsub(t.sp, 4) as int, t.reg(r)),
        ..t
    }
}

/// Push the listed registers: the last listed register is transferred
/// first, so that the first listed register comes to rest at the lowest
/// address and an immediate pop in list order restores every register.
pub open spec fn do_push(s: CpuView, regs: Seq<Register>) -> CpuView
    decreases regs.len(),
{
    if regs.len() == 0 {
        s
    } else {
        push_one(do_push(s, regs.subrange(1, regs.len() as int)), regs[0])
    }
}

/// One pop transfer: the register is loaded from the stack pointer, which
/// then moves up one word.
pub open spec fn pop_one(t: CpuView, r: Register) -> CpuView {
    let a = t.sp;
    t.set_reg(r, word_at(t.mem, a as int)).set_reg(Register::R13, wadd(a, 4))
}

/// Pop the listed registers in list order, loading each from the stack
/// pointer and moving it up one word per transfer.
pub open spec fn do_pop(s: CpuView, regs: Seq<Register>) -> CpuView
    decreases regs.len(),
{
    if regs.len() == 0 {
        s
    } else {
        pop_one(do_pop(s, regs.drop_last()), regs.last())
    }
}

/// Push/pop using the stack pointer. The stack grows downward; the listed
/// registers live in ascending order from the final stack pointer upward.
pub open spec fn sem_thumb_push_pop(
    s: CpuView,
    op: ThumbPushPopOp,
    regs: Seq<Register>,
) -> StepOutcome {
    if !all_regs_implemented(regs) {
        StepOutcome::Fail(ErrKind::Unimplemented)
    } else {
        match op {
            ThumbPushPopOp::Push => {
                if regs.len() > 0 && !(4 * regs.len() <= s.sp && s.sp <= s.mem.len()) {
                    StepOutcome::Fail(ErrKind::OutOfBounds)
                } else {
                    let t = do_push(s, regs);
                    StepOutcome::Next(t.with_pc(wadd(t.pc, 2)))
                }
            },
            ThumbPushPopOp::Pop => {
                if regs.len() > 0 && !(s.sp + 4 * regs.len() <= s.mem.len()) {
                    StepOutcome::Fail(ErrKind::OutOfBounds)
                } else {
                    let t = do_pop(s, regs);
                    StepOutcome::Next(t.with_pc(wadd(t.pc, 2)))
                }
            },
        }
    }
}

/// One store-multiple transfer: the register's value is stored at the
/// current base-register value, which then advances one word.
pub open spec fn stm_one(t: CpuView, rb: Register, r: Register) -> CpuView {
    let a = t.reg(rb);
    let t2 = CpuView { mem: store_word(t.mem, a as int, t.reg(r)), ..t };
    t2.set_reg(rb, wadd(a, 4))
}

/// Store the listed registers in list order, re-writing the base register
/// after every single transfer.
pub open spec fn do_stmia(s: CpuView, rb: Register, regs: Seq<Register>) -> CpuView
    decreases regs.len(),
{
    if regs.len() == 0 {
        s
    } else {
        stm_one(do_stmia(s, rb, regs.drop_last()), rb, regs.last())
    }
}

/// One load-multiple transfer: the register is loaded from the current
/// base-register value, which then advances one word.
pub open spec fn ldm_one(t: CpuView, rb: Register, r: Register) -> CpuView {
    let a = t.reg(rb);
    let t2 = t.set_reg(r, word_at(t.mem, a as int));
    t2.set_reg(rb, wadd(a, 4))
}

/// Load the listed registers in list order, re-writing the base register
/// after every single transfer.
pub open spec fn do_ldmia(s: CpuView, rb: Register, regs: Seq<Register>) -> CpuView
    decreases regs.len(),
{
    if regs.len() == 0 {
        s
    } else {
        ldm_one(do_ldmia(s, rb, regs.drop_last()), rb, regs.last())
    }
}

/// Multiple load/store with auto-incrementing base, list order R0 upward.
pub open spec fn sem_thumb_multls(
    s: CpuView,
    op: ThumbMultLSOp,
    rb: Register,
    regs: Seq<Register>,
) -> StepOutcome {
    if !reg_implemented(rb) || !all_regs_implemented(regs) {
        StepOutcome::Fail(ErrKind::Unimplemented)
    } else if regs.len() > 0 && !(s.reg(rb) + 4 * regs.len() <= s.mem.len()) {
        StepOutcome::Fail(ErrKind::OutOfBounds)
    } else {
        let t = match op {
            ThumbMultLSOp::STMIA => do_stmia(s, rb, regs),
            ThumbMultLSOp::LDMIA => do_ldmia(s, rb, regs),
        };
        StepOutcome::Next(t.with_pc(wadd(t.pc, 2)))
    }
}

/// Conditional branch: when the condition holds, the program counter moves
/// by the signed offset in steps of 2 plus the pipeline offset of 4;
/// otherwise it falls through to the next half-word.
pub open spec fn sem_thumb_branch(s: CpuView, op: ThumbBranchOp, offset: i16) -> StepOutcome {
    let taken = match op {
        ThumbBranchOp::Beq => s.zero,
        ThumbBranchOp::Bne => !s.zero,
        ThumbBranchOp::Bcs => s.carry,
    };
    if taken {
        StepOutcome::Next(s.with_pc(to_u32(s.pc + offset * 2 + 4)))
    } else {
        StepOutcome::Next(s.with_pc(wadd(s.pc, 2)))
    }
}

/// Long branch with link: the link register receives the return address
/// (PC + 4) with bit 0 set, and the program counter moves by the assembled
/// displacement plus 4; the mode does not switch.
pub open spec fn sem_thumb_long(s: CpuView, target: u32) -> StepOutcome {
    StepOutcome::Next(
        CpuView { lr: wadd(s.pc, 4) | 1, pc: wadd(s.pc, wadd(4, target)), ..s },
    )
}

/// One 16-bit step: fetch the half-word at the program counter, decode it,
/// and apply the matching semantics. The long-branch continuation signal
/// fetches the immediately following half-word and decodes the pair as one
/// unit; a pair that does not resolve fails with the inconsistency error.
pub open spec fn spec_step_thumb(s: CpuView) -> StepOutcome {
    if s.pc + 2 > s.mem.len() {
        StepOutcome::Fail(ErrKind::OutOfBounds)
    } else {
        let h = half_at(s.mem, s.pc as int);
        match spec_decode_thumb(h) {
            ThumbDec::Mls { rd, rb, nn } => sem_thumb_mls(s, rd, rb, nn),
            ThumbDec::Lsi { rd, rb, nn } => sem_thumb_lsi(s, rd, rb, nn),
            ThumbDec::Alu(op, rd, rs) => sem_thumb_alu(s, op, rd, rs),
            ThumbDec::HiReg { rd } => sem_thumb_hireg(s, rd),
            ThumbDec::AddSub(a) => sem_thumb_addsub(s, a),
            ThumbDec::RegShift(sh) => sem_thumb_regshift(s, sh.op, sh.rd, sh.rs, sh.nn),
            ThumbDec::Mcas(m) => sem_thumb_mcas(s, m.op, m.rd, m.nn),
            ThumbDec::Branch(b) => sem_thumb_branch(s, b.op, b.offset),
            ThumbDec::MultLS(op, rb, mask) => sem_thumb_multls(s, op, rb, spec_rlist(mask)),
            ThumbDec::PushPop(op, mask) => sem_thumb_push_pop(s, op, spec_rlist(mask)),
            ThumbDec::Long => {
                if s.pc + 4 > s.mem.len() {
                    StepOutcome::Fail(ErrKind::OutOfBounds)
                } else {
                    let h2 = half_at(s.mem, s.pc + 2);
                    match spec_try_long(h, h2) {
                        Some(t) => sem_thumb_long(s, t),
                        None => StepOutcome::Fail(ErrKind::Inconsistency),
                    }
                }
            },
            ThumbDec::Unimplemented => StepOutcome::Fail(ErrKind::Unimplemented),
            ThumbDec::Unknown => StepOutcome::Fail(ErrKind::UnknownHalf(h)),
        }
    }
}

/// One machine step, in whichever instruction-set mode the state is in.
pub open spec fn spec_step(s: CpuView) -> StepOutcome {
    if s.thumb {
        spec_step_thumb(s)
    } else {
        spec_step_arm(s)
    }
}

/// How a bounded run resolves: stopped by the failure of a step (the state
/// is the one just before the failing step), or the step budget ran out.
pub enum RunOutcome {
    Stopped(CpuView, ErrKind),
    Exhausted(CpuView),
}

/// Iterate the machine step until a step fails or the budget `fuel` runs
/// out.
#[verifier::opaque]
pub open spec fn spec_run(s: CpuView, fuel: nat) -> RunOutcome
    decreases fuel,
{
    if fuel == 0 {
        RunOutcome::Exhausted(s)
    } else {
        match spec_step(s) {
            StepOutcome::Next(v) => spec_run(v, (fuel - 1) as nat),
            StepOutcome::Fail(k) => RunOutcome::Stopped(s, k),
        }
    }
}

/// Whether an executable run ending in state `post` with result `r`
/// realizes the model outcome `out`.
pub open spec fn run_matches(post: CpuView, r: Result<(), ExecErr>, out: RunOutcome) -> bool {
    match out {
        RunOutcome::Stopped(v, k) => r matches Err(e) && err_matches(e, k) && post == v,
        RunOutcome::Exhausted(v) => r is Ok && post == v,
    }
}

} // verus!
