//! The execution engine: the concrete machine state (register file, flags,
//! mode and flat memory), the per-opcode semantic handlers, and the
//! fetch-decode-execute step, verified against the machine model
//! (`crate::model::spec_step`).

use vstd::prelude::*;

use crate::arm::{Alu, AluOp, Branch, BranchExchange, Instruction, Sdt};
use crate::bits::{
    add_signed, half_at, lemma_mask_bounds_u32, load_bytes, rotate_right_imm, store_word,
    word_at, wrap_add, wrap_mul, wrap_sub,
};
use crate::common::{reg_implemented, EResult, ExecErr, Register};
use crate::model::{
    all_regs_implemented, do_ldmia, do_pop, do_push, do_stmia, run_matches, sem_thumb_push_pop,
    spec_run, spec_step, spec_step_arm, spec_step_thumb, step_matches, CpuView, LOAD_ADDR,
    MEM_SIZE,
};
use crate::thumb::{
    ThumbAlu, ThumbAluOp, ThumbAddSub, ThumbBranch, ThumbBranchOp, ThumbHiReg, ThumbHiRegOp,
    ThumbInstr, ThumbLongBranch, ThumbLsi, ThumbLsiOp, ThumbMcas, ThumbMcasOp, ThumbMls,
    ThumbMlsOp, ThumbMultLS, ThumbMultLSOp, ThumbPushPop, ThumbPushPopOp, ThumbRegShift,
    ThumbRegShiftOp,
};

verus! {

/// The machine state: 16 general-purpose registers (R8 through R12 carry no
/// state in this core), four condition flags, the instruction-set mode, a
/// diagnostics toggle, and the flat byte memory.
pub struct Cpu {
    pub r0: u32,
    pub r1: u32,
    pub r2: u32,
    pub r3: u32,
    pub r4: u32,
    pub r5: u32,
    pub r6: u32,
    pub r7: u32,
    /// R13
    pub sp: u32,
    /// R14
    pub lr: u32,
    /// R15
    pub pc: u32,
    /// N - sign flag (false = not signed, true = signed)
    pub sign_flag: bool,
    /// Z - zero flag (false = not zero, true = zero)
    pub zero_flag: bool,
    /// C - carry flag (false = borrow / no carry, true = carry / no borrow)
    pub carry_flag: bool,
    /// V - overflow flag (false = no overflow, true = overflow)
    pub overflow_flag: bool,
    pub thumb: bool,
    pub logging: bool,
    pub memory: Vec<u8>,
}

impl View for Cpu {
    type V = CpuView;

    open spec fn view(&self) -> CpuView {
        CpuView {
            r0: self.r0,
            r1: self.r1,
            r2: self.r2,
            r3: self.r3,
            r4: self.r4,
            r5: self.r5,
            r6: self.r6,
            r7: self.r7,
            sp: self.sp,
            lr: self.lr,
            pc: self.pc,
            sign: self.sign_flag,
            zero: self.zero_flag,
            carry: self.carry_flag,
            overflow: self.overflow_flag,
            thumb: self.thumb,
            logging: self.logging,
            mem: self.memory@,
        }
    }
}

impl Cpu {
    /// Well-formedness: the memory covers the full addressable extent.
    pub open spec fn wf(&self) -> bool {
        self@.wf()
    }

    /// A fresh machine: every register and flag cleared, 32-bit mode, and a
    /// zero-filled memory covering the full addressable extent.
    pub fn new() -> (r: Cpu)
        ensures
            r.wf(),
            r@ == (CpuView {
                r0: 0,
                r1: 0,
                r2: 0,
                r3: 0,
                r4: 0,
                r5: 0,
                r6: 0,
                r7: 0,
                sp: 0,
                lr: 0,
                pc: 0,
                sign: false,
                zero: false,
                carry: false,
                overflow: false,
                thumb: false,
                logging: false,
                mem: Seq::new(MEM_SIZE as nat, |i: int| 0u8),
            }),
    {
        let memory: Vec<u8> = vec![0u8; MEM_SIZE];
        proof {
            assert forall|i: int| 0 <= i < MEM_SIZE implies memory@[i] == 0u8 by {
                assert(vstd::pervasive::cloned(0u8, memory@[i]));
            }
            assert(memory@ =~= Seq::new(MEM_SIZE as nat, |i: int| 0u8));
        }
        Cpu {
            r0: 0,
            r1: 0,
            r2: 0,
            r3: 0,
            r4: 0,
            r5: 0,
            r6: 0,
            r7: 0,
            sp: 0,
            lr: 0,
            pc: 0,
            sign_flag: false,
            zero_flag: false,
            carry_flag: false,
            overflow_flag: false,
            thumb: false,
            logging: false,
            memory,
        }
    }

    /// Switch the per-instruction diagnostics toggle.
    pub fn set_logging(&mut self, logging: bool)
        ensures
            final(self)@ == (CpuView { logging, ..old(self)@ }),
    {
        self.logging = logging;
    }

    /// The value register `reg` holds (zero for the registers this core
    /// carries no state for).
    fn reg_value(&self, reg: Register) -> (r: u32)
        ensures
            r == self@.reg(reg),
    {
        match reg {
            Register::R0 => self.r0,
            Register::R1 => self.r1,
            Register::R2 => self.r2,
            Register::R3 => self.r3,
            Register::R4 => self.r4,
            Register::R5 => self.r5,
            Register::R6 => self.r6,
            Register::R7 => self.r7,
            Register::R13 => self.sp,
            Register::R14 => self.lr,
            Register::R15 => self.pc,
            _ => 0,
        }
    }

    /// Write register `reg` (no effect on the registers this core carries
    /// no state for; callers check first).
    fn write_reg(&mut self, reg: Register, value: u32)
        ensures
            final(self)@ == old(self)@.set_reg(reg, value),
    {
        match reg {
            Register::R0 => self.r0 = value,
            Register::R1 => self.r1 = value,
            Register::R2 => self.r2 = value,
            Register::R3 => self.r3 = value,
            Register::R4 => self.r4 = value,
            Register::R5 => self.r5 = value,
            Register::R6 => self.r6 = value,
            Register::R7 => self.r7 = value,
            Register::R13 => self.sp = value,
            Register::R14 => self.lr = value,
            Register::R15 => self.pc = value,
            _ => {},
        }
    }

    /// Read a register, failing with the unimplemented error on the
    /// registers this core carries no state for.
    fn get_register(&self, reg: Register) -> (r: EResult<u32>)
        ensures
            (if reg_implemented(reg) {
                r == EResult::<u32>::Ok(self@.reg(reg))
            } else {
                r matches Err(e) && e is UnimplementedInstr
            }),
    {
        if reg.is_implemented() {
            Ok(self.reg_value(reg))
        } else {
            Err(ExecErr::UnimplementedInstr("register not implemented in this core".to_string()))
        }
    }

    /// Write a register, failing with the unimplemented error on the
    /// registers this core carries no state for.
    fn set_register(&mut self, reg: Register, value: u32) -> (r: EResult<()>)
        ensures
            (if reg_implemented(reg) {
                r is Ok && final(self)@ == old(self)@.set_reg(reg, value)
            } else {
                (r matches Err(e) && e is UnimplementedInstr) && final(self)@ == old(self)@
            }),
    {
        if reg.is_implemented() {
            self.write_reg(reg, value);
            Ok(())
        } else {
            Err(ExecErr::UnimplementedInstr("register not implemented in this core".to_string()))
        }
    }

    /// Read the 32-bit little-endian word at byte offset `offset`.
    pub fn get_memory(&self, offset: u32) -> (r: u32)
        requires
            self.wf(),
            offset + 4 <= MEM_SIZE,
        ensures
            r == word_at(self@.mem, offset as int),
    {
        let i = offset as usize;
        let b0 = self.memory[i];
        let b1 = self.memory[i + 1];
        let b2 = self.memory[i + 2];
        let b3 = self.memory[i + 3];
        b0 as u32 + b1 as u32 * 0x100 + b2 as u32 * 0x1_0000 + b3 as u32 * 0x100_0000
    }

    /// Read the 16-bit little-endian half-word at byte offset `offset`.
    pub fn get_memory_u16(&self, offset: u32) -> (r: u16)
        requires
            self.wf(),
            offset + 2 <= MEM_SIZE,
        ensures
            r == half_at(self@.mem, offset as int),
    {
        let i = offset as usize;
        let b0 = self.memory[i];
        let b1 = self.memory[i + 1];
        b0 as u16 + b1 as u16 * 0x100
    }

    /// Store the 32-bit value little-endian at byte offset `offset`.
    fn set_memory(&mut self, offset: u32, value: u32)
        requires
            old(self).wf(),
            offset + 4 <= MEM_SIZE,
        ensures
            final(self).wf(),
            final(self)@ == old(self)@.with_mem(store_word(old(self)@.mem, offset as int, value)),
    {
        let i = offset as usize;
        self.memory[i] = (value % 0x100) as u8;
        self.memory[i + 1] = ((value / 0x100) % 0x100) as u8;
        self.memory[i + 2] = ((value / 0x1_0000) % 0x100) as u8;
        self.memory[i + 3] = ((value / 0x100_0000) % 0x100) as u8;
        proof {
            assert(self@.mem =~= store_word(old(self)@.mem, offset as int, value));
        }
    }

    /// Branch: PC moves to PC + 8 + 4 times the 24-bit word offset; the
    /// link form is unimplemented.
    fn run_branch(&mut self, branch: Branch) -> (r: EResult<()>)
        requires
            old(self).wf(),
        ensures
            final(self).wf(),
            step_matches(old(self)@, final(self)@, r, crate::model::sem_arm_branch(old(self)@, branch)),
    {
        if branch.is_link {
            return Err(ExecErr::UnimplementedInstr("running BL is not implemented".to_string()));
        }
        self.pc = wrap_add(wrap_add(self.pc, 8), wrap_mul(branch.nn, 4));
        Ok(())
    }

    /// Branch-exchange: jump to the register value with bit 0 cleared and
    /// switch to the 16-bit mode.
    fn run_branch_exchange(&mut self, branch: BranchExchange) -> (r: EResult<()>)
        requires
            old(self).wf(),
        ensures
            final(self).wf(),
            step_matches(old(self)@, final(self)@, r, crate::model::sem_arm_bx(old(self)@, branch)),
    {
        let reg_value = self.get_register(branch.rn)?;
        proof {
            lemma_mask_bounds_u32();
        }
        let target = (reg_value | 1) - 1;
        self.pc = target;
        self.thumb = true;
        Ok(())
    }

    /// Data processing: immediate-operand Add and Mov; everything else
    /// fails as unimplemented.
    fn run_alu(&mut self, alu: Alu) -> (r: EResult<()>)
        requires
            old(self).wf(),
        ensures
            final(self).wf(),
            step_matches(old(self)@, final(self)@, r, crate::model::sem_arm_alu(old(self)@, alu)),
    {
        match alu.op {
            AluOp::Add => {
                if !alu.immediate {
                    return Err(
                        ExecErr::UnimplementedInstr("AluOp::Add register operand not supported".to_string()),
                    );
                }
                proof {
                    lemma_mask_bounds_u32();
                }
                let rors = (alu.operand >> 8) & 0xF;
                let nn = alu.operand & 0xFF;
                let op2 = rotate_right_imm(nn, rors * 2);
                // When R15 is the operand the returned value is PC + 8 for
                // immediate-shift operands (PC + 12 would apply only to the
                // register-shift forms, which are not implemented).
                let base0 = self.get_register(alu.rn)?;
                let base = if alu.rn == Register::R15 {
                    wrap_add(base0, 8)
                } else {
                    base0
                };
                self.set_register(alu.rd, wrap_add(base, op2))?;
                self.pc = wrap_add(self.pc, 4);
                Ok(())
            },
            AluOp::Mov => {
                if !alu.immediate {
                    return Err(
                        ExecErr::UnimplementedInstr("AluOp::Mov register operand not supported".to_string()),
                    );
                }
                proof {
                    lemma_mask_bounds_u32();
                }
                let rors = (alu.operand >> 8) & 0xF;
                let nn = alu.operand & 0xFF;
                self.set_register(alu.rd, rotate_right_imm(nn, rors * 2))?;
                self.pc = wrap_add(self.pc, 4);
                Ok(())
            },
            _ => Err(ExecErr::UnimplementedInstr("ALU opcode not implemented".to_string())),
        }
    }

    /// Single data transfer, immediate offset only: a load reads base +
    /// offset (8 more when the base is the program counter) into the
    /// destination; a store writes R0 to base + offset.
    fn run_sdt(&mut self, sdt: Sdt) -> (r: EResult<()>)
        requires
            old(self).wf(),
        ensures
            final(self).wf(),
            step_matches(old(self)@, final(self)@, r, crate::model::sem_arm_sdt(old(self)@, sdt)),
    {
        if !sdt.immediate {
            return Err(
                ExecErr::UnimplementedInstr("SDT register offset not implemented".to_string()),
            );
        }
        if sdt.load_memory {
            let base_addr = self.get_register(sdt.rn)?;
            let addr0 = wrap_add(base_addr, sdt.operand);
            let addr = if sdt.rn == Register::R15 {
                wrap_add(addr0, 8)
            } else {
                addr0
            };
            if addr > MEM_SIZE as u32 - 4 {
                return Err(ExecErr::OutOfBoundsAccess);
            }
            let value = self.get_memory(addr);
            self.set_register(sdt.rd, value)?;
        } else {
            let base_addr = self.get_register(sdt.rn)?;
            let addr = wrap_add(base_addr, sdt.operand);
            if addr > MEM_SIZE as u32 - 4 {
                return Err(ExecErr::OutOfBoundsAccess);
            }
            let value = self.r0;
            self.set_memory(addr, value);
        }
        self.pc = wrap_add(self.pc, 4);
        Ok(())
    }

    /// Two-low-register ALU: bit-clear and compare.
    fn run_thumb_alu(&mut self, alu: ThumbAlu) -> (r: EResult<()>)
        requires
            old(self).wf(),
        ensures
            final(self).wf(),
            step_matches(
                old(self)@,
                final(self)@,
                r,
                crate::model::sem_thumb_alu(old(self)@, alu.op, alu.rd, alu.rs),
            ),
    {
        match alu.op {
            ThumbAluOp::Bic => {
                let not = !self.get_register(alu.rs)?;
                let value = self.get_register(alu.rd)? & not;
                self.set_register(alu.rd, value)?;
                self.zero_flag = value == 0;
            },
            ThumbAluOp::Cmp => {
                let a = self.get_register(alu.rd)?;
                let b = self.get_register(alu.rs)?;
                self.zero_flag = wrap_sub(a, b) == 0;
            },
        }
        self.pc = wrap_add(self.pc, 2);
        Ok(())
    }

    /// Memory store with base + immediate offset.
    fn run_thumb_lsi(&mut self, lsi: ThumbLsi) -> (r: EResult<()>)
        requires
            old(self).wf(),
        ensures
            final(self).wf(),
            step_matches(
                old(self)@,
                final(self)@,
                r,
                crate::model::sem_thumb_lsi(old(self)@, lsi.rd, lsi.rb, lsi.nn),
            ),
    {
        match lsi.op {
            ThumbLsiOp::Str => {
                let base_addr = self.get_register(lsi.rb)?;
                let value = self.get_register(lsi.rd)?;
                let addr = wrap_add(base_addr, lsi.nn as u32);
                if addr > MEM_SIZE as u32 - 4 {
                    return Err(ExecErr::OutOfBoundsAccess);
                }
                self.set_memory(addr, value);
            },
        }
        self.pc = wrap_add(self.pc, 2);
        Ok(())
    }

    /// Hi-register branch exchange: jump to the register value with bit 0
    /// cleared; bit 0 of the target selects the mode to run in from here.
    fn run_thumb_hireg(&mut self, hireg: ThumbHiReg) -> (r: EResult<()>)
        requires
            old(self).wf(),
        ensures
            final(self).wf(),
            step_matches(old(self)@, final(self)@, r, crate::model::sem_thumb_hireg(old(self)@, hireg.rd)),
    {
        match hireg.op {
            ThumbHiRegOp::Bx => {
                let destination = self.get_register(hireg.rd)?;
                proof {
                    lemma_mask_bounds_u32();
                }
                self.pc = (destination | 1) - 1;
                self.thumb = destination & 1 == 1;
                Ok(())
            },
        }
    }

    /// Memory load with base + immediate offset; the effective address is
    /// masked to a 4-byte boundary by clearing bit 1 (literal-pool reads).
    fn run_thumb_mls(&mut self, mls: ThumbMls) -> (r: EResult<()>)
        requires
            old(self).wf(),
        ensures
            final(self).wf(),
            step_matches(
                old(self)@,
                final(self)@,
                r,
                crate::model::sem_thumb_mls(old(self)@, mls.rd, mls.rb, mls.nn),
            ),
    {
        match mls.op {
            ThumbMlsOp::Ldr => {
                let base = self.get_register(mls.rb)?;
                let mem_offset = wrap_add(base, mls.nn as u32) & !2u32;
                if mem_offset > MEM_SIZE as u32 - 4 {
                    return Err(ExecErr::OutOfBoundsAccess);
                }
                let value = self.get_memory(mem_offset);
                self.set_register(mls.rd, value)?;
            },
        }
        self.pc = wrap_add(self.pc, 2);
        Ok(())
    }

    /// Move shifted register: the shifts of this scope preserve the top bit
    /// while shifting the remaining 31 bits; the zero flag is set and the
    /// carry flag is set unless the shift count is zero.
    fn run_thumb_reg_shift(&mut self, reg_shift: ThumbRegShift) -> (r: EResult<()>)
        requires
            old(self).wf(),
            reg_shift.nn < 32,
        ensures
            final(self).wf(),
            step_matches(
                old(self)@,
                final(self)@,
                r,
                crate::model::sem_thumb_regshift(
                    old(self)@,
                    reg_shift.op,
                    reg_shift.rd,
                    reg_shift.rs,
                    reg_shift.nn,
                ),
            ),
    {
        let mut set_carry = true;
        match reg_shift.op {
            ThumbRegShiftOp::Lsl => {
                let v = self.get_register(reg_shift.rs)?;
                let value = (v & 0x8000_0000) | ((v & 0x7FFF_FFFF) << reg_shift.nn as u32);
                self.set_register(reg_shift.rd, value)?;
                if reg_shift.nn == 0 {
                    set_carry = false;
                }
            },
            ThumbRegShiftOp::Lsr => {
                return Err(
                    ExecErr::UnimplementedInstr("logical shift right not implemented".to_string()),
                );
            },
            ThumbRegShiftOp::Asr => {
                let v = self.get_register(reg_shift.rs)?;
                let value = (v & 0x8000_0000) | ((v & 0x7FFF_FFFF) >> reg_shift.nn as u32);
                self.set_register(reg_shift.rd, value)?;
                if reg_shift.nn == 0 {
                    set_carry = false;
                }
            },
        }
        self.zero_flag = true;
        if set_carry {
            self.carry_flag = true;
        }
        self.pc = wrap_add(self.pc, 2);
        Ok(())
    }

    /// Move/compare/add/subtract immediate: move and subtract, updating the
    /// zero flag from the result.
    fn run_thumb_mcas(&mut self, mcas: ThumbMcas) -> (r: EResult<()>)
        requires
            old(self).wf(),
        ensures
            final(self).wf(),
            step_matches(
                old(self)@,
                final(self)@,
                r,
                crate::model::sem_thumb_mcas(old(self)@, mcas.op, mcas.rd, mcas.nn),
            ),
    {
        match mcas.op {
            ThumbMcasOp::Mov => {
                let value = mcas.nn as u32;
                self.set_register(mcas.rd, value)?;
                self.zero_flag = value == 0;
            },
            ThumbMcasOp::Sub => {
                let cur = self.get_register(mcas.rd)?;
                let value = wrap_sub(cur, mcas.nn as u32);
                self.set_register(mcas.rd, value)?;
                self.zero_flag = value == 0;
            },
        }
        self.pc = wrap_add(self.pc, 2);
        Ok(())
    }

    /// Add/subtract: register forms with wrap-around; the immediate forms
    /// are unimplemented in execution.
    fn run_add_sub(&mut self, add_sub: ThumbAddSub) -> (r: EResult<()>)
        requires
            old(self).wf(),
        ensures
            final(self).wf(),
            step_matches(old(self)@, final(self)@, r, crate::model::sem_thumb_addsub(old(self)@, add_sub)),
    {
        match add_sub {
            ThumbAddSub::Addr(op) => {
                let a = self.get_register(op.rs)?;
                let b = self.get_register(op.rn)?;
                self.set_register(op.rd, wrap_add(a, b))?;
            },
            ThumbAddSub::Subr(op) => {
                let a = self.get_register(op.rs)?;
                let b = self.get_register(op.rn)?;
                self.set_register(op.rd, wrap_sub(a, b))?;
            },
            ThumbAddSub::Addi(_) => {
                return Err(
                    ExecErr::UnimplementedInstr("add immediate not implemented".to_string()),
                );
            },
            ThumbAddSub::Subi(_) => {
                return Err(
                    ExecErr::UnimplementedInstr("subtract immediate not implemented".to_string()),
                );
            },
        }
        self.pc = wrap_add(self.pc, 2);
        Ok(())
    }

    /// Push/pop using the stack pointer. Push transfers the listed
    /// registers so that the first listed register comes to rest at the
    /// lowest address; pop loads them back in list order, moving the stack
    /// pointer up one word per transfer.
    fn run_thumb_push_pop(&mut self, push_pop: ThumbPushPop) -> (r: EResult<()>)
        requires
            old(self).wf(),
        ensures
            final(self).wf(),
            step_matches(
                old(self)@,
                final(self)@,
                r,
                sem_thumb_push_pop(old(self)@, push_pop.op, push_pop.rlist@),
            ),
    {
        let n = push_pop.rlist.len();
        let mut k: usize = 0;
        while k < n
            invariant
                k <= n,
                n == push_pop.rlist@.len(),
                forall|j: int| 0 <= j < k ==> reg_implemented(#[trigger] push_pop.rlist@[j]),
                self@ == old(self)@,
                self.wf(),
            decreases n - k,
        {
            if !push_pop.rlist[k].is_implemented() {
                return Err(
                    ExecErr::UnimplementedInstr("push/pop of a register outside this core".to_string()),
                );
            }
            k += 1;
        }
        assert(all_regs_implemented(push_pop.rlist@));
        match push_pop.op {
            ThumbPushPopOp::Push => {
                if n > 0 {
                    if n > MEM_SIZE / 4 {
                        return Err(ExecErr::OutOfBoundsAccess);
                    }
                    let need = (4 * n) as u32;
                    if self.sp < need || self.sp > MEM_SIZE as u32 {
                        return Err(ExecErr::OutOfBoundsAccess);
                    }
                    let ghost s0 = self@;
                    let mut idx: usize = n;
                    while idx > 0
                        invariant
                            idx <= n,
                            n == push_pop.rlist@.len(),
                            all_regs_implemented(push_pop.rlist@),
                            4 * n <= s0.sp,
                            s0.sp <= MEM_SIZE,
                            s0.wf(),
                            self@ == do_push(
                                s0,
                                push_pop.rlist@.subrange(idx as int, n as int),
                            ),
                            self.sp == s0.sp - 4 * (n - idx),
                            self.wf(),
                        decreases idx,
                    {
                        idx = idx - 1;
                        let register = push_pop.rlist[idx];
                        let value = self.reg_value(register);
                        let newsp = wrap_sub(self.sp, 4);
                        self.set_memory(newsp, value);
                        self.sp = newsp;
                        proof {
                            assert(push_pop.rlist@.subrange(idx as int, n as int).subrange(
                                1,
                                (n - idx) as int,
                            ) =~= push_pop.rlist@.subrange(idx as int + 1, n as int));
                        }
                    }
                    proof {
                        assert(push_pop.rlist@.subrange(0, n as int) =~= push_pop.rlist@);
                    }
                }
            },
            ThumbPushPopOp::Pop => {
                if n > 0 {
                    if n > MEM_SIZE / 4 {
                        return Err(ExecErr::OutOfBoundsAccess);
                    }
                    let need = (4 * n) as u32;
                    if self.sp > MEM_SIZE as u32 || need > MEM_SIZE as u32 - self.sp {
                        return Err(ExecErr::OutOfBoundsAccess);
                    }
                    let ghost s0 = self@;
                    let mut idx: usize = 0;
                    while idx < n
                        invariant
                            idx <= n,
                            n == push_pop.rlist@.len(),
                            all_regs_implemented(push_pop.rlist@),
                            s0.sp + 4 * n <= MEM_SIZE,
                            s0.wf(),
                            self@ == do_pop(s0, push_pop.rlist@.subrange(0, idx as int)),
                            self.sp == s0.sp + 4 * idx,
                            self.wf(),
                        decreases n - idx,
                    {
                        let register = push_pop.rlist[idx];
                        let memaddr = self.sp;
                        let value = self.get_memory(memaddr);
                        self.write_reg(register, value);
                        self.sp = wrap_add(memaddr, 4);
                        idx = idx + 1;
                        proof {
                            assert(push_pop.rlist@.subrange(0, idx as int).drop_last()
                                =~= push_pop.rlist@.subrange(0, idx as int - 1));
                        }
                    }
                    proof {
                        assert(push_pop.rlist@.subrange(0, n as int) =~= push_pop.rlist@);
                    }
                }
            },
        }
        self.pc = wrap_add(self.pc, 2);
        Ok(())
    }

    /// Multiple load/store with auto-incrementing base: the base register
    /// is re-written after every single transfer.
    #[verifier::rlimit(100)]
    #[verifier::spinoff_prover]
    fn run_thumb_multiple_load_store(&mut self, multls: ThumbMultLS) -> (r: EResult<()>)
        requires
            old(self).wf(),
        ensures
            final(self).wf(),
            step_matches(
                old(self)@,
                final(self)@,
                r,
                crate::model::sem_thumb_multls(old(self)@, multls.op, multls.rb, multls.rlist@),
            ),
    {
        if !multls.rb.is_implemented() {
            return Err(
                ExecErr::UnimplementedInstr("base register outside this core".to_string()),
            );
        }
        let n = multls.rlist.len();
        let mut k: usize = 0;
        while k < n
            invariant
                k <= n,
                n == multls.rlist@.len(),
                forall|j: int| 0 <= j < k ==> reg_implemented(#[trigger] multls.rlist@[j]),
                self@ == old(self)@,
                self.wf(),
            decreases n - k,
        {
            if !multls.rlist[k].is_implemented() {
                return Err(
                    ExecErr::UnimplementedInstr("transfer of a register outside this core".to_string()),
                );
            }
            k += 1;
        }
        assert(all_regs_implemented(multls.rlist@));
        if n > 0 {
            if n > MEM_SIZE / 4 {
                return Err(ExecErr::OutOfBoundsAccess);
            }
            let need = (4 * n) as u32;
            let base = self.reg_value(multls.rb);
            if base > MEM_SIZE as u32 || need > MEM_SIZE as u32 - base {
                return Err(ExecErr::OutOfBoundsAccess);
            }
            let ghost s0 = self@;
            match multls.op {
                ThumbMultLSOp::STMIA => {
                    let mut idx: usize = 0;
                    while idx < n
                        invariant
                            idx <= n,
                            n == multls.rlist@.len(),
                            all_regs_implemented(multls.rlist@),
                            reg_implemented(multls.rb),
                            s0.reg(multls.rb) + 4 * n <= MEM_SIZE,
                            s0.wf(),
                            self@ == do_stmia(s0, multls.rb, multls.rlist@.subrange(0, idx as int)),
                            self@.reg(multls.rb) == s0.reg(multls.rb) + 4 * idx,
                            self.wf(),
                        decreases n - idx,
                    {
                        let register = multls.rlist[idx];
                        let memaddr = self.reg_value(multls.rb);
                        let value = self.reg_value(register);
                        self.set_memory(memaddr, value);
                        self.write_reg(multls.rb, wrap_add(memaddr, 4));
                        idx = idx + 1;
                        proof {
                            assert(multls.rlist@.subrange(0, idx as int).drop_last()
                                =~= multls.rlist@.subrange(0, idx as int - 1));
                        }
                    }
                    proof {
                        assert(multls.rlist@.subrange(0, n as int) =~= multls.rlist@);
                    }
                },
                ThumbMultLSOp::LDMIA => {
                    let mut idx: usize = 0;
                    while idx < n
                        invariant
                            idx <= n,
                            n == multls.rlist@.len(),
                            all_regs_implemented(multls.rlist@),
                            reg_implemented(multls.rb),
                            s0.reg(multls.rb) + 4 * n <= MEM_SIZE,
                            s0.wf(),
                            self@ == do_ldmia(s0, multls.rb, multls.rlist@.subrange(0, idx as int)),
                            self@.reg(multls.rb) == s0.reg(multls.rb) + 4 * idx,
                            self.wf(),
                        decreases n - idx,
                    {
                        let register = multls.rlist[idx];
                        let memaddr = self.reg_value(multls.rb);
                        let value = self.get_memory(memaddr);
                        self.write_reg(register, value);
                        self.write_reg(multls.rb, wrap_add(memaddr, 4));
                        idx = idx + 1;
                        proof {
                            assert(multls.rlist@.subrange(0, idx as int).drop_last()
                                =~= multls.rlist@.subrange(0, idx as int - 1));
                        }
                    }
                    proof {
                        assert(multls.rlist@.subrange(0, n as int) =~= multls.rlist@);
                    }
                },
            }
        }
        self.pc = wrap_add(self.pc, 2);
        Ok(())
    }

    /// Conditional branch: taken branches move the program counter by the
    /// signed offset in steps of 2 plus 4; otherwise it falls through.
    fn run_thumb_branch(&mut self, branch: ThumbBranch) -> (r: EResult<()>)
        requires
            old(self).wf(),
        ensures
            final(self).wf(),
            step_matches(
                old(self)@,
                final(self)@,
                r,
                crate::model::sem_thumb_branch(old(self)@, branch.op, branch.offset),
            ),
    {
        let taken = match branch.op {
            ThumbBranchOp::Beq => self.zero_flag,
            ThumbBranchOp::Bne => !self.zero_flag,
            ThumbBranchOp::Bcs => self.carry_flag,
        };
        if taken {
            let delta: i32 = branch.offset as i32 * 2 + 4;
            self.pc = add_signed(self.pc, delta);
        } else {
            self.pc = wrap_add(self.pc, 2);
        }
        Ok(())
    }

    /// Long branch with link: the link register receives (PC + 4) | 1 and
    /// the program counter moves by the assembled displacement plus 4.
    fn run_thumb_long_branch(&mut self, branch: ThumbLongBranch) -> (r: EResult<()>)
        requires
            old(self).wf(),
        ensures
            final(self).wf(),
            step_matches(
                old(self)@,
                final(self)@,
                r,
                crate::model::sem_thumb_long(old(self)@, branch.target),
            ),
    {
        self.lr = wrap_add(self.pc, 4) | 1;
        self.pc = wrap_add(self.pc, wrap_add(4, branch.target));
        Ok(())
    }

    /// One 32-bit step: fetch the word at the program counter, decode, and
    /// dispatch; the status-register-transfer stub only advances PC.
    fn run_next_instruction(&mut self) -> (r: EResult<()>)
        requires
            old(self).wf(),
        ensures
            final(self).wf(),
            step_matches(old(self)@, final(self)@, r, spec_step_arm(old(self)@)),
    {
        if self.pc > MEM_SIZE as u32 - 4 {
            return Err(ExecErr::OutOfBoundsAccess);
        }
        let word = self.get_memory(self.pc);
        let instr = match Instruction::try_from(word) {
            Ok(i) => i,
            Err(e) => {
                return Err(e);
            },
        };
        match instr {
            Instruction::Branch(b) => self.run_branch(b),
            Instruction::BranchExchange(b) => self.run_branch_exchange(b),
            Instruction::Alu(a) => self.run_alu(a),
            Instruction::Sdt(sdt) => self.run_sdt(sdt),
            Instruction::Psr => {
                // The intentional no-op: only the program counter advances.
                self.pc = wrap_add(self.pc, 4);
                Ok(())
            },
        }
    }

    /// One 16-bit step: fetch the half-word at the program counter, decode,
    /// and dispatch; on the long-branch continuation signal, fetch the next
    /// half-word and decode the pair as one unit.
    fn run_next_thumb_instr(&mut self) -> (r: EResult<()>)
        requires
            old(self).wf(),
        ensures
            final(self).wf(),
            step_matches(old(self)@, final(self)@, r, spec_step_thumb(old(self)@)),
    {
        if self.pc > MEM_SIZE as u32 - 2 {
            return Err(ExecErr::OutOfBoundsAccess);
        }
        let half_word = self.get_memory_u16(self.pc);
        let instr = match ThumbInstr::try_from(half_word) {
            Ok(instr) => instr,
            Err(e) => match e {
                ExecErr::LongInstruction => {
                    if self.pc > MEM_SIZE as u32 - 4 {
                        return Err(ExecErr::OutOfBoundsAccess);
                    }
                    let half_word2 = self.get_memory_u16(wrap_add(self.pc, 2));
                    match ThumbInstr::try_from_long(half_word, half_word2) {
                        Ok(instr) => instr,
                        Err(e2) => {
                            return Err(e2);
                        },
                    }
                },
                _ => {
                    return Err(e);
                },
            },
        };
        proof {
            crate::bits::lemma_mask_bounds_u16();
        }
        match instr {
            ThumbInstr::Alu(alu) => self.run_thumb_alu(alu),
            ThumbInstr::Lsi(lsi) => self.run_thumb_lsi(lsi),
            ThumbInstr::HiReg(hireg) => self.run_thumb_hireg(hireg),
            ThumbInstr::Mls(mls) => self.run_thumb_mls(mls),
            ThumbInstr::Mcas(mcas) => self.run_thumb_mcas(mcas),
            ThumbInstr::AddSub(add_sub) => self.run_add_sub(add_sub),
            ThumbInstr::MultLS(multls) => self.run_thumb_multiple_load_store(multls),
            ThumbInstr::PushPop(push_pop) => self.run_thumb_push_pop(push_pop),
            ThumbInstr::Branch(branch) => self.run_thumb_branch(branch),
            ThumbInstr::LongBranch(branch) => self.run_thumb_long_branch(branch),
            ThumbInstr::RegShift(reg_shift) => self.run_thumb_reg_shift(reg_shift),
        }
    }

    /// Load the program bytes at the fixed load address and point the
    /// program counter (and link register) there.
    pub fn initialize_cpu(&mut self, bytes: &[u8])
        requires
            old(self).wf(),
            bytes@.len() <= 0x0800_0000,
        ensures
            final(self).wf(),
            final(self)@ == (CpuView {
                pc: LOAD_ADDR,
                lr: LOAD_ADDR,
                mem: load_bytes(old(self)@.mem, LOAD_ADDR as int, bytes@),
                ..old(self)@
            }),
    {
        self.pc = LOAD_ADDR;
        self.lr = LOAD_ADDR;
        let ghost mem0 = self.memory@;
        let base = LOAD_ADDR as usize;
        let mut idx: usize = 0;
        while idx < bytes.len()
            invariant
                idx <= bytes@.len(),
                bytes@.len() <= 0x0800_0000,
                base == LOAD_ADDR,
                self@ == (CpuView {
                    pc: LOAD_ADDR,
                    lr: LOAD_ADDR,
                    mem: self.memory@,
                    ..old(self)@
                }),
                self.memory@.len() == mem0.len(),
                mem0.len() == MEM_SIZE,
                forall|i: int|
                    0 <= i < mem0.len() && !(base <= i < base + idx) ==> self.memory@[i]
                        == mem0[i],
                forall|i: int| base <= i < base + idx ==> self.memory@[i] == bytes@[i - base],
            decreases bytes@.len() - idx,
        {
            let b = bytes[idx];
            self.memory[base + idx] = b;
            idx += 1;
        }
        proof {
            assert(self.memory@ =~= load_bytes(mem0, LOAD_ADDR as int, bytes@));
        }
    }

    /// Decode and execute exactly one instruction in the current mode,
    /// realizing one step of the machine model.
    pub fn execute_next(&mut self) -> (r: EResult<()>)
        requires
            old(self).wf(),
        ensures
            final(self).wf(),
            step_matches(old(self)@, final(self)@, r, spec_step(old(self)@)),
    {
        if self.thumb {
            self.run_next_thumb_instr()
        } else {
            self.run_next_instruction()
        }
    }

    /// Load the program and run the fetch-decode-execute loop until a
    /// failure aborts it (every failure is fatal and is returned) or the
    /// step budget runs out (the verifier asks every loop to come to an
    /// end, so the caller picks how many steps at most to run).
    #[verifier::rlimit(100)]
    #[verifier::spinoff_prover]
    pub fn run_rom(&mut self, bytes: &[u8], max_steps: u64) -> (r: EResult<()>)
        requires
            old(self).wf(),
            bytes@.len() <= 0x0800_0000,
        ensures
            final(self).wf(),
            ({
                let start = (CpuView {
                    pc: LOAD_ADDR,
                    lr: LOAD_ADDR,
                    mem: load_bytes(old(self)@.mem, LOAD_ADDR as int, bytes@),
                    ..old(self)@
                });
                run_matches(final(self)@, r, spec_run(start, max_steps as nat))
            }),
    {
        self.initialize_cpu(bytes);
        let ghost start = self@;
        let mut steps: u64 = max_steps;
        while steps > 0
            invariant
                self.wf(),
                steps <= max_steps,
                start == (CpuView {
                    pc: LOAD_ADDR,
                    lr: LOAD_ADDR,
                    mem: load_bytes(old(self)@.mem, LOAD_ADDR as int, bytes@),
                    ..old(self)@
                }),
                spec_run(self@, steps as nat) == spec_run(start, max_steps as nat),
            decreases steps,
        {
            let ghost pre = self@;
            let ghost fuel = steps as nat;
            let res = self.execute_next();
            if let Err(e) = res {
                proof {
                    reveal(crate::model::spec_run);
                    assert(spec_run(pre, fuel) matches crate::model::RunOutcome::Stopped(v, k)
                        && v == pre && crate::model::err_matches(e, k));
                }
                return Err(e);
            }
            proof {
                reveal(crate::model::spec_run);
                assert(spec_run(pre, fuel) == spec_run(self@, (fuel - 1) as nat));
            }
            steps = steps - 1;
        }
        proof {
            reveal(crate::model::spec_run);
            assert(spec_run(self@, 0) == crate::model::RunOutcome::Exhausted(self@));
        }
        Ok(())
    }
}

} // verus!
