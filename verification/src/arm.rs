//! The 32-bit instruction encoding: instruction value types, the bit-level
//! decode specification, and the verified decoder.

use vstd::prelude::*;

use crate::bits::lemma_mask_bounds_u32;
use crate::common::{spec_register, EResult, ExecErr, Register};

verus! {

/// Condition selector held in the top 4 bits of every 32-bit instruction.
/// It is retained on every decoded instruction; the semantic scope of this
/// core executes unconditionally.
#[derive(Debug, Clone, Copy, PartialEq, Eq, Structural)]
pub enum Condition {
    Eq,
    Ne,
    Cs,
    Cc,
    Mi,
    Pl,
    Vs,
    Vc,
    Hi,
    Ls,
    Ge,
    Lt,
    Gt,
    Le,
    Al,
    Nv,
}

/// The condition the 4-bit field value `v` names.
pub open spec fn spec_condition(v: int) -> Condition
    recommends
        0 <= v < 16,
{
    if v == 0 {
        Condition::Eq
    } else if v == 1 {
        Condition::Ne
    } else if v == 2 {
        Condition::Cs
    } else if v == 3 {
        Condition::Cc
    } else if v == 4 {
        Condition::Mi
    } else if v == 5 {
        Condition::Pl
    } else if v == 6 {
        Condition::Vs
    } else if v == 7 {
        Condition::Vc
    } else if v == 8 {
        Condition::Hi
    } else if v == 9 {
        Condition::Ls
    } else if v == 10 {
        Condition::Ge
    } else if v == 11 {
        Condition::Lt
    } else if v == 12 {
        Condition::Gt
    } else if v == 13 {
        Condition::Le
    } else if v == 14 {
        Condition::Al
    } else {
        Condition::Nv
    }
}

impl Condition {
    /// Decode the 4-bit condition field.
    pub fn from_u32(value: u32) -> (r: Condition)
        requires
            value < 16,
        ensures
            r == spec_condition(value as int),
    {
        match value {
            0 => Condition::Eq,
            1 => Condition::Ne,
            2 => Condition::Cs,
            3 => Condition::Cc,
            4 => Condition::Mi,
            5 => Condition::Pl,
            6 => Condition::Vs,
            7 => Condition::Vc,
            8 => Condition::Hi,
            9 => Condition::Ls,
            10 => Condition::Ge,
            11 => Condition::Lt,
            12 => Condition::Gt,
            13 => Condition::Le,
            14 => Condition::Al,
            _ => Condition::Nv,
        }
    }
}

/// Branch, optionally with link (B / BL).
#[derive(Debug, Clone, Copy, PartialEq, Eq, Structural)]
pub struct Branch {
    pub condition: Condition,
    /// is B or BL, true for BL
    pub is_link: bool,
    /// The low 24 bits: the word-granular target offset, treated as
    /// unsigned in this scope.
    pub nn: u32,
}

/// The branch instruction that the word `value` encodes.
pub open spec fn spec_decode_branch(value: u32) -> Branch {
    Branch {
        condition: spec_condition(((value >> 28) & 0xF) as int),
        is_link: (value >> 24) & 1 == 1,
        nn: value & 0xFFFFFF,
    }
}

impl Branch {
    /// Decode a branch word.
    pub fn decode(value: u32) -> (r: Branch)
        ensures
            r == spec_decode_branch(value),
    {
        proof {
            lemma_mask_bounds_u32();
        }
        let condition = Condition::from_u32((value >> 28) & 0xF);
        let opcode = (value >> 24) & 1;
        let nn = value & 0xFFFFFF;
        Branch { condition, is_link: opcode == 1, nn }
    }
}

/// Branch-and-exchange (BX only; BXJ and BLX are outside this scope):
/// jumps to a register value and switches the instruction-set mode.
#[derive(Debug, Clone, Copy, PartialEq, Eq, Structural)]
pub struct BranchExchange {
    pub condition: Condition,
    pub rn: Register,
}

/// The branch-exchange instruction that the word `value` encodes.
pub open spec fn spec_decode_bx(value: u32) -> BranchExchange {
    BranchExchange {
        condition: spec_condition(((value >> 28) & 0xF) as int),
        rn: spec_register((value & 0xF) as int),
    }
}

impl BranchExchange {
    /// Decode a branch-exchange word.
    pub fn decode(value: u32) -> (r: BranchExchange)
        ensures
            r == spec_decode_bx(value),
    {
        proof {
            lemma_mask_bounds_u32();
        }
        let condition = Condition::from_u32((value >> 28) & 0xF);
        let rn = Register::from_u32(value & 0xF);
        BranchExchange { condition, rn }
    }
}

/// The 16 standard ALU opcodes of the 32-bit data-processing family.
#[derive(Debug, Clone, Copy, PartialEq, Eq, Structural)]
pub enum AluOp {
    And,
    Eor,
    Sub,
    Rsb,
    Add,
    Adc,
    Sbc,
    Rsc,
    Tst,
    Teq,
    Cmp,
    Cmn,
    Orr,
    Mov,
    Bic,
    Mvn,
}

/// The ALU opcode the 4-bit field value `v` names.
pub open spec fn spec_alu_op(v: int) -> AluOp
    recommends
        0 <= v < 16,
{
    if v == 0 {
        AluOp::And
    } else if v == 1 {
        AluOp::Eor
    } else if v == 2 {
        AluOp::Sub
    } else if v == 3 {
        AluOp::Rsb
    } else if v == 4 {
        AluOp::Add
    } else if v == 5 {
        AluOp::Adc
    } else if v == 6 {
        AluOp::Sbc
    } else if v == 7 {
        AluOp::Rsc
    } else if v == 8 {
        AluOp::Tst
    } else if v == 9 {
        AluOp::Teq
    } else if v == 10 {
        AluOp::Cmp
    } else if v == 11 {
        AluOp::Cmn
    } else if v == 12 {
        AluOp::Orr
    } else if v == 13 {
        AluOp::Mov
    } else if v == 14 {
        AluOp::Bic
    } else {
        AluOp::Mvn
    }
}

/// The compare-only opcodes (those that write flags but no destination
/// register). With the set-flags bit clear their encodings overlap the
/// status-register-transfer instructions.
pub open spec fn spec_is_compare_op(op: AluOp) -> bool {
    op == AluOp::Tst || op == AluOp::Teq || op == AluOp::Cmp || op == AluOp::Cmn
}

impl AluOp {
    /// Decode the 4-bit ALU opcode field.
    pub fn from_u32(value: u32) -> (r: AluOp)
        requires
            value < 16,
        ensures
            r == spec_alu_op(value as int),
    {
        match value {
            0 => AluOp::And,
            1 => AluOp::Eor,
            2 => AluOp::Sub,
            3 => AluOp::Rsb,
            4 => AluOp::Add,
            5 => AluOp::Adc,
            6 => AluOp::Sbc,
            7 => AluOp::Rsc,
            8 => AluOp::Tst,
            9 => AluOp::Teq,
            10 => AluOp::Cmp,
            11 => AluOp::Cmn,
            12 => AluOp::Orr,
            13 => AluOp::Mov,
            14 => AluOp::Bic,
            _ => AluOp::Mvn,
        }
    }
}

/// A data-processing (ALU) instruction.
#[derive(Debug, Clone, Copy, PartialEq, Eq, Structural)]
pub struct Alu {
    pub condition: Condition,
    /// Immediate-operand flag (bit 25).
    pub immediate: bool,
    pub op: AluOp,
    /// The 24-bit operand field. In immediate mode it carries an 8-bit
    /// immediate plus a 4-bit rotate count; otherwise the register-operand
    /// encoding, unimplemented in this scope.
    pub operand: u32,
    /// Set-flags flag (bit 20).
    pub s: bool,
    pub rn: Register,
    pub rd: Register,
}

/// The ALU instruction that the word `value` encodes.
pub open spec fn spec_decode_alu(value: u32) -> Alu {
    Alu {
        condition: spec_condition(((value >> 28) & 0xF) as int),
        immediate: (value >> 25) & 1 == 1,
        op: spec_alu_op(((value >> 21) & 0xF) as int),
        s: (value >> 20) & 1 == 1,
        rn: spec_register(((value >> 16) & 0xF) as int),
        rd: spec_register(((value >> 12) & 0xF) as int),
        operand: value & 0xFFFFFF,
    }
}

impl Alu {
    /// Decode a data-processing word.
    pub fn decode(value: u32) -> (r: Alu)
        ensures
            r == spec_decode_alu(value),
    {
        proof {
            lemma_mask_bounds_u32();
        }
        let condition = Condition::from_u32((value >> 28) & 0xF);
        let immediate = (value >> 25) & 1 == 1;
        let op = AluOp::from_u32((value >> 21) & 0xF);
        let s = (value >> 20) & 1 == 1;
        let rn = Register::from_u32((value >> 16) & 0xF);
        let rd = Register::from_u32((value >> 12) & 0xF);
        let operand = value & 0xFFFFFF;
        Alu { condition, immediate, op, s, rn, rd, operand }
    }
}

/// A single-data-transfer instruction (LDR/STR).
#[derive(Debug, Clone, Copy, PartialEq, Eq, Structural)]
pub struct Sdt {
    pub condition: Condition,
    /// Immediate-offset flag. Note the inverted polarity relative to the
    /// ALU immediate bit: bit 25 clear means immediate offset here.
    pub immediate: bool,
    /// Pre-indexing flag (bit 24).
    pub pre: bool,
    /// Up/down flag (bit 23).
    pub up: bool,
    /// Byte/word flag (bit 22).
    pub bit: bool,
    /// Write-back flag (bit 21).
    pub tw: bool,
    /// Load/store direction flag (bit 20), true for load.
    pub load_memory: bool,
    pub rn: Register,
    pub rd: Register,
    /// 12-bit offset field.
    pub operand: u32,
}

/// The single-data-transfer instruction that the word `value` encodes.
pub open spec fn spec_decode_sdt(value: u32) -> Sdt {
    Sdt {
        condition: spec_condition(((value >> 28) & 0xF) as int),
        immediate: (value >> 25) & 1 == 0,
        pre: (value >> 24) & 1 == 1,
        up: (value >> 23) & 1 == 1,
        bit: (value >> 22) & 1 == 1,
        tw: (value >> 21) & 1 == 1,
        load_memory: (value >> 20) & 1 == 1,
        rn: spec_register(((value >> 16) & 0xF) as int),
        rd: spec_register(((value >> 12) & 0xF) as int),
        operand: value & 0xFFF,
    }
}

impl Sdt {
    /// Decode a single-data-transfer word.
    pub fn decode(value: u32) -> (r: Sdt)
        ensures
            r == spec_decode_sdt(value),
    {
        proof {
            lemma_mask_bounds_u32();
        }
        let condition = Condition::from_u32((value >> 28) & 0xF);
        let immediate = (value >> 25) & 1 == 0;
        let pre = (value >> 24) & 1 == 1;
        let up = (value >> 23) & 1 == 1;
        let bit = (value >> 22) & 1 == 1;
        let tw = (value >> 21) & 1 == 1;
        let load_memory = (value >> 20) & 1 == 1;
        let rn = Register::from_u32((value >> 16) & 0xF);
        let rd = Register::from_u32((value >> 12) & 0xF);
        let operand = value & 0xFFF;
        Sdt { condition, immediate, pre, up, bit, tw, load_memory, rn, rd, operand }
    }
}

/// A decoded 32-bit instruction.
#[derive(Debug, Clone, Copy, PartialEq, Eq, Structural)]
pub enum Instruction {
    Branch(Branch),
    BranchExchange(BranchExchange),
    Alu(Alu),
    /// Single data transfer: LDR, STR.
    Sdt(Sdt),
    /// PSR transfer (MRS, MSR), decoded but executed as a no-op.
    Psr,
}

/// The dispatch of the 32-bit decoder, most specific pattern first:
/// branch, branch-exchange, data-processing (with the compare-without-flags
/// encodings classified as PSR transfer), single data transfer; any other
/// word fails to decode.
pub open spec fn spec_decode_arm(value: u32) -> Option<Instruction> {
    if (value >> 25) & 0x7 == 0b101 {
        Some(Instruction::Branch(spec_decode_branch(value)))
    } else if (value >> 8) & 0xFFFFF == 0b0001_0010_1111_1111_1111 {
        Some(Instruction::BranchExchange(spec_decode_bx(value)))
    } else if (value >> 26) & 0x3 == 0b00 {
        if (value >> 20) & 1 == 0 && spec_is_compare_op(spec_alu_op(((value >> 21) & 0xF) as int)) {
            Some(Instruction::Psr)
        } else {
            Some(Instruction::Alu(spec_decode_alu(value)))
        }
    } else if (value >> 26) & 0x3 == 0b01 {
        Some(Instruction::Sdt(spec_decode_sdt(value)))
    } else {
        None
    }
}

impl Instruction {
    /// Decode a 32-bit word, or fail with the offending word.
    pub fn try_from(value: u32) -> (r: EResult<Instruction>)
        ensures
            (match spec_decode_arm(value) {
                Some(i) => r == EResult::<Instruction>::Ok(i),
                None => r matches Err(e) && e == ExecErr::UnknownInstr(value),
            }),
    {
        proof {
            lemma_mask_bounds_u32();
        }
        if (value >> 25) & 0x7 == 0b101 {
            Ok(Instruction::Branch(Branch::decode(value)))
        } else if (value >> 8) & 0xFFFFF == 0b0001_0010_1111_1111_1111 {
            Ok(Instruction::BranchExchange(BranchExchange::decode(value)))
        } else if (value >> 26) & 0x3 == 0b00 {
            let op = AluOp::from_u32((value >> 21) & 0xF);
            let s = (value >> 20) & 1;
            if s == 0 && matches!(op, AluOp::Tst | AluOp::Teq | AluOp::Cmp | AluOp::Cmn) {
                Ok(Instruction::Psr)
            } else {
                Ok(Instruction::Alu(Alu::decode(value)))
            }
        } else if (value >> 26) & 0x3 == 0b01 {
            Ok(Instruction::Sdt(Sdt::decode(value)))
        } else {
            Err(ExecErr::UnknownInstr(value))
        }
    }
}

/// Any word whose bits 27..25 equal 0b101 classifies as a branch, whatever
/// its remaining bits, and never as any other variant; the decoded fields
/// are the link bit and the low 24 offset bits.
pub proof fn lemma_branch_classification(value: u32)
    requires
        (value >> 25) & 0x7 == 0b101,
    ensures
        spec_decode_arm(value) matches Some(i) && i matches Instruction::Branch(b) && b
            == spec_decode_branch(value),
{
}

} // verus!
