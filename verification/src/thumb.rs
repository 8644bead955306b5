//! The 16-bit instruction encoding: instruction value types, the bit-level
//! decode specification (including the two-half-word long-branch form), and
//! the verified decoder.

use vstd::prelude::*;

use crate::bits::lemma_mask_bounds_u16;
use crate::common::{spec_register, EResult, ExecErr, Register};

verus! {

/// Two-low-register ALU operations implemented in this scope.
#[derive(Debug, Clone, Copy, PartialEq, Eq, Structural)]
pub enum ThumbAluOp {
    /// Bit clear, Rd = Rd AND NOT Rs.
    Bic,
    /// Compare, sets flags on Rd - Rs.
    Cmp,
}

/// ALU operation taking two low registers.
#[derive(Debug, Clone, Copy, PartialEq, Eq, Structural)]
pub struct ThumbAlu {
    pub op: ThumbAluOp,
    /// Destination register.
    pub rd: Register,
    /// Source register.
    pub rs: Register,
}

/// Hi-register operations implemented in this scope.
#[derive(Debug, Clone, Copy, PartialEq, Eq, Structural)]
pub enum ThumbHiRegOp {
    /// BX Rs: jump PC = Rs; may switch the instruction-set mode.
    Bx,
}

/// Hi-register operation / branch exchange.
#[derive(Debug, Clone, Copy, PartialEq, Eq, Structural)]
pub struct ThumbHiReg {
    pub op: ThumbHiRegOp,
    /// The register holding the jump target.
    pub rd: Register,
}

/// Memory-load operations implemented in this scope.
#[derive(Debug, Clone, Copy, PartialEq, Eq, Structural)]
pub enum ThumbMlsOp {
    Ldr,
}

/// Memory load with base register and immediate offset (also used for the
/// PC-relative literal-pool load, with the program counter as base).
#[derive(Debug, Clone, Copy, PartialEq, Eq, Structural)]
pub struct ThumbMls {
    pub op: ThumbMlsOp,
    /// Destination register.
    pub rd: Register,
    /// Base register.
    pub rb: Register,
    /// Byte offset added to the base.
    pub nn: u16,
}

/// Memory-store operations implemented in this scope.
#[derive(Debug, Clone, Copy, PartialEq, Eq, Structural)]
pub enum ThumbLsiOp {
    Str,
}

/// Memory store with base register and immediate offset.
#[derive(Debug, Clone, Copy, PartialEq, Eq, Structural)]
pub struct ThumbLsi {
    pub op: ThumbLsiOp,
    /// Source register whose value is stored.
    pub rd: Register,
    /// Base register.
    pub rb: Register,
    /// Byte offset added to the base.
    pub nn: u16,
}

/// Move-shifted-register operations.
#[derive(Debug, Clone, Copy, PartialEq, Eq, Structural)]
pub enum ThumbRegShiftOp {
    /// Logical shift left.
    Lsl,
    /// Logical shift right.
    Lsr,
    /// Arithmetic shift right.
    Asr,
}

/// Move shifted register.
#[derive(Debug, Clone, Copy, PartialEq, Eq, Structural)]
pub struct ThumbRegShift {
    pub op: ThumbRegShiftOp,
    /// Destination register.
    pub rd: Register,
    /// Source register.
    pub rs: Register,
    /// 5-bit shift count.
    pub nn: u16,
}

/// Conditional-branch conditions implemented in this scope.
#[derive(Debug, Clone, Copy, PartialEq, Eq, Structural)]
pub enum ThumbBranchOp {
    /// BEQ: branch if the zero flag is set.
    Beq,
    /// BNE: branch if the zero flag is clear.
    Bne,
    /// BCS/BHS: branch if the carry flag is set.
    Bcs,
}

/// Conditional branch.
#[derive(Debug, Clone, Copy, PartialEq, Eq, Structural)]
pub struct ThumbBranch {
    pub op: ThumbBranchOp,
    /// Signed offset in steps of 2.
    pub offset: i16,
}

/// Long branch with link, assembled from two consecutive half-words.
/// Assumes the opcode is always BL; BLX is outside this scope.
#[derive(Debug, Clone, Copy, PartialEq, Eq, Structural)]
pub struct ThumbLongBranch {
    /// Byte displacement from the pipeline-adjusted program counter.
    pub target: u32,
}

/// Add/subtract, immediate form.
#[derive(Debug, Clone, Copy, PartialEq, Eq, Structural)]
pub struct ThumbAddSubI {
    /// Destination register.
    pub rd: Register,
    /// Source register.
    pub rs: Register,
    /// 3-bit immediate value.
    pub nn: u16,
}

/// Add/subtract, register form.
#[derive(Debug, Clone, Copy, PartialEq, Eq, Structural)]
pub struct ThumbAddSubR {
    /// Destination register.
    pub rd: Register,
    /// Source register.
    pub rs: Register,
    /// Operand register.
    pub rn: Register,
}

/// Add/subtract.
#[derive(Debug, Clone, Copy, PartialEq, Eq, Structural)]
pub enum ThumbAddSub {
    /// Add register: Rd = Rs + Rn.
    Addr(ThumbAddSubR),
    /// Subtract register: Rd = Rs - Rn.
    Subr(ThumbAddSubR),
    /// Add immediate: Rd = Rs + nn.
    Addi(ThumbAddSubI),
    /// Subtract immediate: Rd = Rs - nn.
    Subi(ThumbAddSubI),
}

/// Move/compare/add/subtract-immediate operations implemented in this scope.
#[derive(Debug, Clone, Copy, PartialEq, Eq, Structural)]
pub enum ThumbMcasOp {
    /// Move: Rd = nn.
    Mov,
    /// Subtract: Rd = Rd - nn.
    Sub,
}

/// Move/compare/add/subtract immediate.
#[derive(Debug, Clone, Copy, PartialEq, Eq, Structural)]
pub struct ThumbMcas {
    pub op: ThumbMcasOp,
    /// Destination register.
    pub rd: Register,
    /// 8-bit immediate value.
    pub nn: u16,
}

/// Multiple load/store operations.
#[derive(Debug, Clone, Copy, PartialEq, Eq, Structural)]
pub enum ThumbMultLSOp {
    /// STMIA Rb!,{Rlist}: store to memory, incrementing Rb.
    STMIA,
    /// LDMIA Rb!,{Rlist}: load from memory, incrementing Rb.
    LDMIA,
}

/// Multiple load/store with auto-incrementing base.
#[derive(Debug)]
pub struct ThumbMultLS {
    pub op: ThumbMultLSOp,
    /// Base register.
    pub rb: Register,
    /// Register list, R0 first through R7 last as encoded.
    pub rlist: Vec<Register>,
}

/// Push/pop operations.
#[derive(Debug, Clone, Copy, PartialEq, Eq, Structural)]
pub enum ThumbPushPopOp {
    /// Store the listed registers below the stack pointer, moving it down.
    Push,
    /// Load the listed registers from the stack pointer, moving it up.
    Pop,
}

/// Push/pop using the stack-pointer register.
#[derive(Debug)]
pub struct ThumbPushPop {
    pub op: ThumbPushPopOp,
    /// Register list, R0 first through R7 last as encoded.
    pub rlist: Vec<Register>,
}

/// A decoded 16-bit instruction.
#[derive(Debug)]
pub enum ThumbInstr {
    /// Memory load.
    Mls(ThumbMls),
    /// Memory store.
    Lsi(ThumbLsi),
    /// ALU operation on two low registers.
    Alu(ThumbAlu),
    /// Hi-register operation / branch exchange.
    HiReg(ThumbHiReg),
    /// Move/compare/add/subtract immediate.
    Mcas(ThumbMcas),
    /// Add/subtract.
    AddSub(ThumbAddSub),
    /// Multiple load/store.
    MultLS(ThumbMultLS),
    /// Push/pop.
    PushPop(ThumbPushPop),
    /// Conditional branch.
    Branch(ThumbBranch),
    /// Long branch with link.
    LongBranch(ThumbLongBranch),
    /// Move shifted register.
    RegShift(ThumbRegShift),
}

/// What the 16-bit decoder finds in one half-word: a recognized instruction
/// (with its fields, register lists as bitmasks), the continuation signal of
/// the long-branch form, a recognized-but-unimplemented form, or no match.
#[derive(Debug, Clone, Copy, PartialEq, Eq, Structural)]
pub enum ThumbDec {
    Mls { rd: Register, rb: Register, nn: u16 },
    Lsi { rd: Register, rb: Register, nn: u16 },
    Alu(ThumbAluOp, Register, Register),
    HiReg { rd: Register },
    AddSub(ThumbAddSub),
    RegShift(ThumbRegShift),
    Mcas(ThumbMcas),
    Branch(ThumbBranch),
    MultLS(ThumbMultLSOp, Register, u16),
    PushPop(ThumbPushPopOp, u16),
    Long,
    Unimplemented,
    Unknown,
}

/// The registers of the low-register bitmask `mask` below bit `n`,
/// in ascending order.
pub open spec fn rlist_upto(mask: u16, n: int) -> Seq<Register>
    decreases n,
{
    if n <= 0 {
        Seq::empty()
    } else if (mask >> ((n - 1) as u16)) & 1 == 1 {
        rlist_upto(mask, n - 1).push(spec_register(n - 1))
    } else {
        rlist_upto(mask, n - 1)
    }
}

/// The register list that the 8-bit bitmask `mask` selects: bit i set means
/// register Ri participates, R0 first through R7 last.
pub open spec fn spec_rlist(mask: u16) -> Seq<Register> {
    rlist_upto(mask, 8)
}

/// The registers R0 through R7.
pub open spec fn is_low_reg(r: Register) -> bool {
    match r {
        Register::R0 => true,
        Register::R1 => true,
        Register::R2 => true,
        Register::R3 => true,
        Register::R4 => true,
        Register::R5 => true,
        Register::R6 => true,
        Register::R7 => true,
        _ => false,
    }
}

/// A register list decoded from a bitmask holds at most `n` registers, all
/// of them low registers.
pub proof fn lemma_rlist_upto_low(mask: u16, n: int)
    requires
        0 <= n <= 8,
    ensures
        rlist_upto(mask, n).len() <= n,
        forall|i: int|
            0 <= i < rlist_upto(mask, n).len() ==> is_low_reg(#[trigger] rlist_upto(mask, n)[i]),
    decreases n,
{
    if n > 0 {
        lemma_rlist_upto_low(mask, n - 1);
    }
}

/// A register list decoded from a bitmask holds at most 8 registers, all of
/// them low registers.
pub proof fn lemma_rlist_low(mask: u16)
    ensures
        spec_rlist(mask).len() <= 8,
        forall|i: int|
            0 <= i < spec_rlist(mask).len() ==> is_low_reg(#[trigger] spec_rlist(mask)[i]),
{
    lemma_rlist_upto_low(mask, 8);
}

/// Sign-extend the low 8 bits of `v` to a signed 16-bit value.
pub open spec fn spec_sign_extend8(v: u16) -> i16 {
    if (v & 0xFF) < 0x80 {
        (v & 0xFF) as i16
    } else {
        ((v & 0xFF) - 0x100) as i16
    }
}

/// The add/subtract instruction that the half-word `h` encodes.
pub open spec fn spec_decode_addsub(h: u16) -> ThumbAddSub {
    let rs = spec_register(((h >> 3) & 0x7) as int);
    let rd = spec_register((h & 0x7) as int);
    let nn = (h >> 6) & 0x7;
    let rn = spec_register(nn as int);
    let sel = (h >> 9) & 0x3;
    if sel == 0 {
        ThumbAddSub::Addr(ThumbAddSubR { rd, rs, rn })
    } else if sel == 1 {
        ThumbAddSub::Subr(ThumbAddSubR { rd, rs, rn })
    } else if sel == 2 {
        ThumbAddSub::Addi(ThumbAddSubI { rd, rs, nn })
    } else {
        ThumbAddSub::Subi(ThumbAddSubI { rd, rs, nn })
    }
}

/// The move-shifted-register instruction that the half-word `h` encodes.
pub open spec fn spec_decode_regshift(h: u16) -> ThumbRegShift {
    let sel = (h >> 11) & 0x3;
    let op = if sel == 0 {
        ThumbRegShiftOp::Lsl
    } else if sel == 1 {
        ThumbRegShiftOp::Lsr
    } else {
        ThumbRegShiftOp::Asr
    };
    ThumbRegShift {
        op,
        nn: (h >> 6) & 0x1F,
        rs: spec_register(((h >> 3) & 0x7) as int),
        rd: spec_register((h & 0x7) as int),
    }
}

/// The dispatch of the 16-bit decoder, one half-word at a time, most
/// specific top-bit pattern first. The long branch-with-link form decodes to
/// the continuation signal; the caller then fetches the next half-word and
/// decodes the pair as one unit.
pub open spec fn spec_decode_thumb(h: u16) -> ThumbDec {
    if (h >> 11) & 0x1F == 0b01001 {
        // PC-relative load: the offset gains 4 because the program counter
        // reads as PC + 4 here.
        ThumbDec::Mls {
            rd: spec_register(((h >> 8) & 0x7) as int),
            rb: Register::R15,
            nn: ((h & 0xFF) * 4 + 4) as u16,
        }
    } else if (h >> 10) & 0x3F == 0b010000 {
        let sub = (h >> 6) & 0xF;
        if sub == 0xE {
            ThumbDec::Alu(
                ThumbAluOp::Bic,
                spec_register((h & 0x7) as int),
                spec_register(((h >> 3) & 0x7) as int),
            )
        } else if sub == 0xA {
            ThumbDec::Alu(
                ThumbAluOp::Cmp,
                spec_register((h & 0x7) as int),
                spec_register(((h >> 3) & 0x7) as int),
            )
        } else {
            ThumbDec::Unimplemented
        }
    } else if (h >> 10) & 0x3F == 0b010001 {
        if (h >> 8) & 0x3 == 3 {
            ThumbDec::HiReg { rd: spec_register(((h >> 3) & 0xF) as int) }
        } else {
            ThumbDec::Unimplemented
        }
    } else if (h >> 11) & 0x1F == 0b00011 {
        ThumbDec::AddSub(spec_decode_addsub(h))
    } else if (h >> 13) & 0x7 == 0b011 {
        // Single load/store with base + immediate offset; only the word
        // forms are in scope, with the 5-bit offset scaled by 4.
        if (h >> 12) & 0x1 == 0 && (h >> 11) & 0x1 == 0 {
            ThumbDec::Lsi {
                rd: spec_register((h & 0x7) as int),
                rb: spec_register(((h >> 3) & 0x7) as int),
                nn: (((h >> 6) & 0x1F) * 4) as u16,
            }
        } else if (h >> 12) & 0x1 == 0 && (h >> 11) & 0x1 == 1 {
            ThumbDec::Mls {
                rd: spec_register((h & 0x7) as int),
                rb: spec_register(((h >> 3) & 0x7) as int),
                nn: (((h >> 6) & 0x1F) * 4) as u16,
            }
        } else {
            ThumbDec::Unimplemented
        }
    } else if (h >> 13) & 0x7 == 0b000 {
        ThumbDec::RegShift(spec_decode_regshift(h))
    } else if (h >> 13) & 0x7 == 0b001 {
        let sel = (h >> 11) & 0x3;
        if sel == 0 {
            ThumbDec::Mcas(
                ThumbMcas {
                    op: ThumbMcasOp::Mov,
                    rd: spec_register(((h >> 8) & 0x7) as int),
                    nn: h & 0xFF,
                },
            )
        } else if sel == 3 {
            ThumbDec::Mcas(
                ThumbMcas {
                    op: ThumbMcasOp::Sub,
                    rd: spec_register(((h >> 8) & 0x7) as int),
                    nn: h & 0xFF,
                },
            )
        } else {
            ThumbDec::Unimplemented
        }
    } else if (h >> 12) & 0xF == 0b1011 {
        if (h >> 9) & 0x3 == 0b10 {
            if (h >> 8) & 0x1 == 1 {
                // The extra PC/LR list bit is outside this scope.
                ThumbDec::Unimplemented
            } else {
                ThumbDec::PushPop(
                    if (h >> 11) & 0x1 == 0 {
                        ThumbPushPopOp::Push
                    } else {
                        ThumbPushPopOp::Pop
                    },
                    h & 0xFF,
                )
            }
        } else {
            ThumbDec::Unknown
        }
    } else if (h >> 12) & 0xF == 0b1101 {
        let sel = (h >> 8) & 0xF;
        if sel == 0 {
            ThumbDec::Branch(ThumbBranch { op: ThumbBranchOp::Beq, offset: spec_sign_extend8(h) })
        } else if sel == 1 {
            ThumbDec::Branch(ThumbBranch { op: ThumbBranchOp::Bne, offset: spec_sign_extend8(h) })
        } else if sel == 2 {
            ThumbDec::Branch(ThumbBranch { op: ThumbBranchOp::Bcs, offset: spec_sign_extend8(h) })
        } else {
            ThumbDec::Unimplemented
        }
    } else if (h >> 12) & 0xF == 0b1100 {
        ThumbDec::MultLS(
            if (h >> 11) & 0x1 == 0 {
                ThumbMultLSOp::STMIA
            } else {
                ThumbMultLSOp::LDMIA
            },
            spec_register(((h >> 8) & 0x7) as int),
            h & 0xFF,
        )
    } else if (h >> 11) & 0x1F == 0b11110 {
        ThumbDec::Long
    } else {
        ThumbDec::Unknown
    }
}

/// The byte displacement that the two half-words of a long branch-with-link
/// encode: the 11-bit fields concatenated, in steps of 2.
pub open spec fn spec_long_target(h1: u16, h2: u16) -> u32 {
    (((h1 & 0x7FF) as u32) << 12u32) | (((h2 & 0x7FF) as u32) << 1u32)
}

/// The two-half-word decode: the pair resolves only when the first
/// half-word carries the continuation pattern and the second the matching
/// low pattern.
pub open spec fn spec_try_long(h1: u16, h2: u16) -> Option<u32> {
    if (h1 >> 11) & 0x1F == 0b11110 && (h2 >> 11) & 0x1F == 0b11111 {
        Some(spec_long_target(h1, h2))
    } else {
        None
    }
}

/// What the executable decoder must return for the half-word `h`, given the
/// decode specification's verdict `d`.
pub open spec fn thumb_decode_obligation(h: u16, r: EResult<ThumbInstr>, d: ThumbDec) -> bool {
    match d {
        ThumbDec::Mls { rd, rb, nn } => r matches Ok(i) && i matches ThumbInstr::Mls(m) && m.op
            == ThumbMlsOp::Ldr && m.rd == rd && m.rb == rb && m.nn == nn,
        ThumbDec::Lsi { rd, rb, nn } => r matches Ok(i) && i matches ThumbInstr::Lsi(m) && m.op
            == ThumbLsiOp::Str && m.rd == rd && m.rb == rb && m.nn == nn,
        ThumbDec::Alu(op, rd, rs) => r matches Ok(i) && i matches ThumbInstr::Alu(a) && a.op
            == op && a.rd == rd && a.rs == rs,
        ThumbDec::HiReg { rd } => r matches Ok(i) && i matches ThumbInstr::HiReg(hr) && hr.op
            == ThumbHiRegOp::Bx && hr.rd == rd,
        ThumbDec::AddSub(a) => r matches Ok(i) && i matches ThumbInstr::AddSub(x) && x == a,
        ThumbDec::RegShift(sh) => r matches Ok(i) && i matches ThumbInstr::RegShift(x) && x == sh,
        ThumbDec::Mcas(mc) => r matches Ok(i) && i matches ThumbInstr::Mcas(x) && x == mc,
        ThumbDec::Branch(b) => r matches Ok(i) && i matches ThumbInstr::Branch(x) && x == b,
        ThumbDec::MultLS(op, rb, mask) => r matches Ok(i) && i matches ThumbInstr::MultLS(m)
            && m.op == op && m.rb == rb && m.rlist@ == spec_rlist(mask),
        ThumbDec::PushPop(op, mask) => r matches Ok(i) && i matches ThumbInstr::PushPop(p)
            && p.op == op && p.rlist@ == spec_rlist(mask),
        ThumbDec::Long => r matches Err(e) && e is LongInstruction,
        ThumbDec::Unimplemented => r matches Err(e) && e is UnimplementedInstr,
        ThumbDec::Unknown => r matches Err(e) && e == ExecErr::UnknownThumbInstr(h),
    }
}

/// Build the register list that the low 8 bits of `mask` select.
fn decode_rlist(mask: u16) -> (r: Vec<Register>)
    ensures
        r@ == spec_rlist(mask & 0xFF),
{
    let masked = mask & 0xFF;
    let mut rlist: Vec<Register> = Vec::new();
    let mut idx: u16 = 0;
    while idx < 8
        invariant
            idx <= 8,
            rlist@ == rlist_upto(masked, idx as int),
        decreases 8 - idx,
    {
        if (masked >> idx) & 1 == 1 {
            rlist.push(Register::from_u16(idx));
        }
        idx += 1;
    }
    rlist
}

impl ThumbAlu {
    /// Decode a half-word of the two-register ALU family.
    pub fn try_from(value: u16) -> (r: EResult<ThumbAlu>)
        ensures
            ({
                let sub = (value >> 6) & 0xF;
                if sub == 0xE {
                    r matches Ok(a) && a.op == ThumbAluOp::Bic && a.rd == spec_register(
                        (value & 0x7) as int,
                    ) && a.rs == spec_register(((value >> 3) & 0x7) as int)
                } else if sub == 0xA {
                    r matches Ok(a) && a.op == ThumbAluOp::Cmp && a.rd == spec_register(
                        (value & 0x7) as int,
                    ) && a.rs == spec_register(((value >> 3) & 0x7) as int)
                } else {
                    r matches Err(e) && e is UnimplementedInstr
                }
            }),
    {
        proof {
            lemma_mask_bounds_u16();
        }
        let op = match (value >> 6) & 0xF {
            0xE => ThumbAluOp::Bic,
            0xA => ThumbAluOp::Cmp,
            _ => {
                return Err(
                    ExecErr::UnimplementedInstr("two-register ALU operation not implemented".to_string()),
                );
            },
        };
        let rs = Register::from_u16((value >> 3) & 0x7);
        let rd = Register::from_u16(value & 0x7);
        Ok(ThumbAlu { op, rd, rs })
    }
}

impl ThumbHiReg {
    /// Decode a half-word of the hi-register-operation family.
    pub fn try_from(value: u16) -> (r: EResult<ThumbHiReg>)
        ensures
            ({
                if (value >> 8) & 0x3 == 3 {
                    r matches Ok(h) && h.op == ThumbHiRegOp::Bx && h.rd == spec_register(
                        ((value >> 3) & 0xF) as int,
                    )
                } else {
                    r matches Err(e) && e is UnimplementedInstr
                }
            }),
    {
        proof {
            lemma_mask_bounds_u16();
        }
        let op = match (value >> 8) & 0x3 {
            3 => ThumbHiRegOp::Bx,
            _ => {
                return Err(
                    ExecErr::UnimplementedInstr("hi-register operation not implemented".to_string()),
                );
            },
        };
        let rd = Register::from_u16((value >> 3) & 0xF);
        Ok(ThumbHiReg { op, rd })
    }
}

impl ThumbRegShift {
    /// Decode a half-word of the move-shifted-register family.
    pub fn try_from(value: u16) -> (r: EResult<ThumbRegShift>)
        ensures
            r matches Ok(sh) && sh == spec_decode_regshift(value),
    {
        proof {
            lemma_mask_bounds_u16();
        }
        let op = match (value >> 11) & 0x3 {
            0 => ThumbRegShiftOp::Lsl,
            1 => ThumbRegShiftOp::Lsr,
            _ => ThumbRegShiftOp::Asr,
        };
        let nn = (value >> 6) & 0x1F;
        let rs = Register::from_u16((value >> 3) & 0x7);
        let rd = Register::from_u16(value & 0x7);
        Ok(ThumbRegShift { op, nn, rs, rd })
    }
}

impl ThumbAddSub {
    /// Decode a half-word of the add/subtract family.
    pub fn try_from(value: u16) -> (r: EResult<ThumbAddSub>)
        ensures
            r matches Ok(a) && a == spec_decode_addsub(value),
    {
        proof {
            lemma_mask_bounds_u16();
        }
        let rs = Register::from_u16((value >> 3) & 0x7);
        let rd = Register::from_u16(value & 0x7);
        let nn = (value >> 6) & 0x7;
        let rn = Register::from_u16(nn);
        let register = ThumbAddSubR { rd, rs, rn };
        let immediate = ThumbAddSubI { rd, rs, nn };
        let op = match (value >> 9) & 0x3 {
            0 => ThumbAddSub::Addr(register),
            1 => ThumbAddSub::Subr(register),
            2 => ThumbAddSub::Addi(immediate),
            _ => ThumbAddSub::Subi(immediate),
        };
        Ok(op)
    }
}

impl ThumbMcas {
    /// Decode a half-word of the move/compare/add/subtract-immediate family.
    pub fn try_from(value: u16) -> (r: EResult<ThumbMcas>)
        ensures
            ({
                let sel = (value >> 11) & 0x3;
                if sel == 0 {
                    r matches Ok(m) && m.op == ThumbMcasOp::Mov && m.rd == spec_register(
                        ((value >> 8) & 0x7) as int,
                    ) && m.nn == (value & 0xFF)
                } else if sel == 3 {
                    r matches Ok(m) && m.op == ThumbMcasOp::Sub && m.rd == spec_register(
                        ((value >> 8) & 0x7) as int,
                    ) && m.nn == (value & 0xFF)
                } else {
                    r matches Err(e) && e is UnimplementedInstr
                }
            }),
    {
        proof {
            lemma_mask_bounds_u16();
        }
        let op = match (value >> 11) & 0x3 {
            0 => ThumbMcasOp::Mov,
            3 => ThumbMcasOp::Sub,
            _ => {
                return Err(
                    ExecErr::UnimplementedInstr("compare/add immediate not implemented".to_string()),
                );
            },
        };
        let rd = Register::from_u16((value >> 8) & 0x7);
        let nn = value & 0xFF;
        Ok(ThumbMcas { op, nn, rd })
    }
}

impl ThumbBranch {
    /// Decode a half-word of the conditional-branch family.
    pub fn try_from(value: u16) -> (r: EResult<ThumbBranch>)
        ensures
            ({
                let sel = (value >> 8) & 0xF;
                if sel == 0 {
                    r matches Ok(b) && b.op == ThumbBranchOp::Beq && b.offset == spec_sign_extend8(
                        value,
                    )
                } else if sel == 1 {
                    r matches Ok(b) && b.op == ThumbBranchOp::Bne && b.offset == spec_sign_extend8(
                        value,
                    )
                } else if sel == 2 {
                    r matches Ok(b) && b.op == ThumbBranchOp::Bcs && b.offset == spec_sign_extend8(
                        value,
                    )
                } else {
                    r matches Err(e) && e is UnimplementedInstr
                }
            }),
    {
        proof {
            lemma_mask_bounds_u16();
        }
        let op = match (value >> 8) & 0xF {
            0 => ThumbBranchOp::Beq,
            1 => ThumbBranchOp::Bne,
            2 => ThumbBranchOp::Bcs,
            _ => {
                return Err(
                    ExecErr::UnimplementedInstr("branch condition not implemented".to_string()),
                );
            },
        };
        let low = value & 0xFF;
        let offset: i16 = if low < 0x80 {
            low as i16
        } else {
            (low as i16) - 0x100
        };
        Ok(ThumbBranch { op, offset })
    }
}

impl ThumbMultLS {
    /// Decode a half-word of the multiple-load/store family.
    pub fn try_from(value: u16) -> (r: EResult<ThumbMultLS>)
        ensures
            r matches Ok(m) && m.op == (if (value >> 11) & 0x1 == 0 {
                ThumbMultLSOp::STMIA
            } else {
                ThumbMultLSOp::LDMIA
            }) && m.rb == spec_register(((value >> 8) & 0x7) as int) && m.rlist@ == spec_rlist(
                value & 0xFF,
            ),
    {
        proof {
            lemma_mask_bounds_u16();
        }
        let op = match (value >> 11) & 0x1 {
            0 => ThumbMultLSOp::STMIA,
            _ => ThumbMultLSOp::LDMIA,
        };
        let rb = Register::from_u16((value >> 8) & 0x7);
        let rlist = decode_rlist(value);
        proof {
            assert(value & 0xFF == (value & 0xFF) & 0xFF) by (bit_vector);
        }
        Ok(ThumbMultLS { op, rb, rlist })
    }
}

impl ThumbPushPop {
    /// Decode a half-word of the push/pop family.
    pub fn try_from(value: u16) -> (r: EResult<ThumbPushPop>)
        ensures
            ({
                if (value >> 8) & 0x1 == 1 {
                    r matches Err(e) && e is UnimplementedInstr
                } else {
                    r matches Ok(p) && p.op == (if (value >> 11) & 0x1 == 0 {
                        ThumbPushPopOp::Push
                    } else {
                        ThumbPushPopOp::Pop
                    }) && p.rlist@ == spec_rlist(value & 0xFF)
                }
            }),
    {
        proof {
            lemma_mask_bounds_u16();
        }
        if (value >> 8) & 0x1 == 1 {
            return Err(
                ExecErr::UnimplementedInstr("push/pop with PC/LR list bit not implemented".to_string()),
            );
        }
        let op = match (value >> 11) & 0x1 {
            0 => ThumbPushPopOp::Push,
            _ => ThumbPushPopOp::Pop,
        };
        let rlist = decode_rlist(value);
        proof {
            assert(value & 0xFF == (value & 0xFF) & 0xFF) by (bit_vector);
        }
        Ok(ThumbPushPop { op, rlist })
    }
}

impl ThumbInstr {
    /// Decode one half-word: a tagged instruction, a decode failure, or the
    /// long-branch continuation signal.
    pub fn try_from(value: u16) -> (r: EResult<ThumbInstr>)
        ensures
            thumb_decode_obligation(value, r, spec_decode_thumb(value)),
    {
        proof {
            lemma_mask_bounds_u16();
        }
        if (value >> 11) & 0x1F == 0b01001 {
            // PC-relative load from the literal pool.
            let rd = Register::from_u16((value >> 8) & 0x7);
            let rb = Register::R15;
            // + 4 since the PC register is evaluated as PC + 4.
            let nn = (value & 0xFF) * 4 + 4;
            Ok(ThumbInstr::Mls(ThumbMls { op: ThumbMlsOp::Ldr, rd, rb, nn }))
        } else if (value >> 10) & 0x3F == 0b010000 {
            Ok(ThumbInstr::Alu(ThumbAlu::try_from(value)?))
        } else if (value >> 10) & 0x3F == 0b010001 {
            Ok(ThumbInstr::HiReg(ThumbHiReg::try_from(value)?))
        } else if (value >> 11) & 0x1F == 0b00011 {
            Ok(ThumbInstr::AddSub(ThumbAddSub::try_from(value)?))
        } else if (value >> 13) & 0x7 == 0b011 {
            if (value >> 12) & 0x1 == 0 && (value >> 11) & 0x1 == 0 {
                let rd = Register::from_u16(value & 0x7);
                let rb = Register::from_u16((value >> 3) & 0x7);
                let nn = ((value >> 6) & 0x1F) * 4;
                Ok(ThumbInstr::Lsi(ThumbLsi { op: ThumbLsiOp::Str, rd, rb, nn }))
            } else if (value >> 12) & 0x1 == 0 && (value >> 11) & 0x1 == 1 {
                let rd = Register::from_u16(value & 0x7);
                let rb = Register::from_u16((value >> 3) & 0x7);
                let nn = ((value >> 6) & 0x1F) * 4;
                Ok(ThumbInstr::Mls(ThumbMls { op: ThumbMlsOp::Ldr, rd, rb, nn }))
            } else {
                Err(ExecErr::UnimplementedInstr("byte load/store not implemented".to_string()))
            }
        } else if (value >> 13) & 0x7 == 0b000 {
            Ok(ThumbInstr::RegShift(ThumbRegShift::try_from(value)?))
        } else if (value >> 13) & 0x7 == 0b001 {
            Ok(ThumbInstr::Mcas(ThumbMcas::try_from(value)?))
        } else if (value >> 12) & 0xF == 0b1011 {
            if (value >> 9) & 0x3 == 0b10 {
                Ok(ThumbInstr::PushPop(ThumbPushPop::try_from(value)?))
            } else {
                Err(ExecErr::UnknownThumbInstr(value))
            }
        } else if (value >> 12) & 0xF == 0b1101 {
            Ok(ThumbInstr::Branch(ThumbBranch::try_from(value)?))
        } else if (value >> 12) & 0xF == 0b1100 {
            Ok(ThumbInstr::MultLS(ThumbMultLS::try_from(value)?))
        } else if (value >> 11) & 0x1F == 0b11110 {
            Err(ExecErr::LongInstruction)
        } else {
            Err(ExecErr::UnknownThumbInstr(value))
        }
    }

    /// Decode the two consecutive half-words of a long branch with link, or
    /// fail with the internal-inconsistency error when the pair does not
    /// carry the long-branch patterns.
    pub fn try_from_long(instr1: u16, instr2: u16) -> (r: EResult<ThumbInstr>)
        ensures
            (match spec_try_long(instr1, instr2) {
                Some(t) => r matches Ok(i) && i matches ThumbInstr::LongBranch(lb) && lb.target
                    == t,
                None => r matches Err(e) && e is InternalInconsistency,
            }),
    {
        if (instr1 >> 11) & 0x1F == 0b11110 && (instr2 >> 11) & 0x1F == 0b11111 {
            let target = (((instr1 as u32) & 0x7FF) << 12) | (((instr2 as u32) & 0x7FF) << 1);
            proof {
                assert((((instr1 as u32) & 0x7FF) << 12u32) | (((instr2 as u32) & 0x7FF) << 1u32)
                    == ((instr1 & 0x7FF) as u32) << 12u32 | (((instr2 & 0x7FF) as u32)
                    << 1u32)) by (bit_vector);
            }
            Ok(ThumbInstr::LongBranch(ThumbLongBranch { target }))
        } else {
            Err(ExecErr::InternalInconsistency)
        }
    }
}

/// Any half-word whose bits 15..11 equal 0b11110 decodes to the
/// continuation signal, and a pair whose second half-word does not carry
/// 0b11111 in its top bits does not resolve as a long branch (the engine
/// then fails with the internal-inconsistency error).
pub proof fn lemma_long_branch_continuation(h1: u16, h2: u16)
    requires
        (h1 >> 11) & 0x1F == 0b11110,
    ensures
        spec_decode_thumb(h1) is Long,
        (h2 >> 11) & 0x1F != 0b11111 ==> spec_try_long(h1, h2) is None,
{
    assert((h1 >> 11) & 0x1F == 0b11110 ==> ((h1 >> 11) & 0x1F != 0b01001 && (h1 >> 10) & 0x3F
        != 0b010000 && (h1 >> 10) & 0x3F != 0b010001 && (h1 >> 11) & 0x1F != 0b00011 && (h1 >> 13)
        & 0x7 != 0b011 && (h1 >> 13) & 0x7 != 0b000 && (h1 >> 13) & 0x7 != 0b001 && (h1 >> 12)
        & 0xF != 0b1011 && (h1 >> 12) & 0xF != 0b1101 && (h1 >> 12) & 0xF
        != 0b1100)) by (bit_vector);
}

} // verus!
