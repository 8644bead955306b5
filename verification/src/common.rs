//! Items shared by both instruction encodings: the architectural register
//! identifiers and the failure taxonomy of the decode/execute engine.

use vstd::prelude::*;

verus! {

/// A failure of decoding or of execution. Every failure is fatal to the
/// current run loop; none is silently swallowed.
#[derive(Debug)]
pub enum ExecErr {
    /// No decode rule matched this full 32-bit word.
    UnknownInstr(u32),
    /// No decode rule matched this 16-bit half-word.
    UnknownThumbInstr(u16),
    /// Decoding succeeded, but no semantic handler exists for this
    /// opcode/operand-mode combination; the text names it.
    UnimplementedInstr(String),
    /// Continuation signal of the 16-bit decoder: this half-word alone is
    /// ambiguous; fetch the next half-word and decode the pair as one unit.
    LongInstruction,
    /// A long-form instruction was expected but the two-half-word decode
    /// did not resolve the pair.
    InternalInconsistency,
    /// A memory access fell outside the allocated extent. The scenarios this
    /// core supports never reach it; the verified engine reports it instead
    /// of failing a bounds check.
    OutOfBoundsAccess,
}

pub type EResult<T> = Result<T, ExecErr>;

/// Identifier for one of the 16 architectural registers. R13 is the stack
/// pointer, R14 the link register, R15 the program counter.
#[derive(Debug, Clone, Copy, PartialEq, Eq, Structural)]
pub enum Register {
    R0,
    R1,
    R2,
    R3,
    R4,
    R5,
    R6,
    R7,
    R8,
    R9,
    R10,
    R11,
    R12,
    /// (SP)
    R13,
    /// (LR)
    R14,
    /// (PC)
    R15,
}

/// The register that the 4-bit field value `v` names.
pub open spec fn spec_register(v: int) -> Register
    recommends
        0 <= v < 16,
{
    if v == 0 {
        Register::R0
    } else if v == 1 {
        Register::R1
    } else if v == 2 {
        Register::R2
    } else if v == 3 {
        Register::R3
    } else if v == 4 {
        Register::R4
    } else if v == 5 {
        Register::R5
    } else if v == 6 {
        Register::R6
    } else if v == 7 {
        Register::R7
    } else if v == 8 {
        Register::R8
    } else if v == 9 {
        Register::R9
    } else if v == 10 {
        Register::R10
    } else if v == 11 {
        Register::R11
    } else if v == 12 {
        Register::R12
    } else if v == 13 {
        Register::R13
    } else if v == 14 {
        Register::R14
    } else {
        Register::R15
    }
}

/// The registers the register file of this core holds values for: the eight
/// low registers and the stack pointer, link register and program counter.
/// R8 through R12 are recognized by the decoders but carry no state here;
/// reading or writing them fails with an "unimplemented" error.
pub open spec fn reg_implemented(r: Register) -> bool {
    match r {
        Register::R8 => false,
        Register::R9 => false,
        Register::R10 => false,
        Register::R11 => false,
        Register::R12 => false,
        _ => true,
    }
}

impl Register {
    /// Decode a 4-bit register field.
    pub fn from_u32(value: u32) -> (r: Register)
        requires
            value < 16,
        ensures
            r == spec_register(value as int),
    {
        match value {
            0 => Register::R0,
            1 => Register::R1,
            2 => Register::R2,
            3 => Register::R3,
            4 => Register::R4,
            5 => Register::R5,
            6 => Register::R6,
            7 => Register::R7,
            8 => Register::R8,
            9 => Register::R9,
            10 => Register::R10,
            11 => Register::R11,
            12 => Register::R12,
            13 => Register::R13,
            14 => Register::R14,
            _ => Register::R15,
        }
    }

    /// Decode a register field taken from a 16-bit half-word.
    pub fn from_u16(value: u16) -> (r: Register)
        requires
            value < 16,
        ensures
            r == spec_register(value as int),
    {
        Register::from_u32(value as u32)
    }

    /// Whether this core's register file holds a value for `self`.
    pub fn is_implemented(&self) -> (r: bool)
        ensures
            r == reg_implemented(*self),
    {
        !matches!(self, Register::R8 | Register::R9 | Register::R10 | Register::R11 | Register::R12)
    }
}

} // verus!
