//! Decoder tests: dispatch of the 32-bit and 16-bit decoders, field
//! extraction, the long-branch continuation protocol, register lists, and
//! the debugger command parser.

use gba_emu::arm::{AluOp, Condition, Instruction};
use gba_emu::common::{ExecErr, Register};
use gba_emu::debugger::{parse_command, Command};
use gba_emu::thumb::{
    ThumbAddSub, ThumbAluOp, ThumbBranchOp, ThumbHiRegOp, ThumbInstr, ThumbMcasOp, ThumbMultLSOp,
    ThumbPushPopOp, ThumbRegShiftOp,
};

#[test]
fn arm_branch_classification() {
    // Any word with bits 27..25 = 0b101 is a branch, whatever the rest.
    let r = Instruction::try_from(0xEA00_0000).unwrap();
    match r {
        Instruction::Branch(b) => {
            assert!(!b.is_link);
            assert_eq!(b.nn, 0);
            assert!(matches!(b.condition, Condition::Al));
        }
        _ => panic!("expected a branch"),
    }
    let r = Instruction::try_from(0xEBFF_FFFF).unwrap();
    match r {
        Instruction::Branch(b) => {
            assert!(b.is_link);
            assert_eq!(b.nn, 0xFF_FFFF);
        }
        _ => panic!("expected a branch"),
    }
    // A garbage payload under the same top bits still classifies as branch.
    let r = Instruction::try_from(0x1A12_3456).unwrap();
    assert!(matches!(r, Instruction::Branch(_)));
}

#[test]
fn arm_branch_exchange_decode() {
    let r = Instruction::try_from(0xE12F_FF11).unwrap();
    match r {
        Instruction::BranchExchange(bx) => {
            assert_eq!(bx.rn, Register::R1);
            assert!(matches!(bx.condition, Condition::Al));
        }
        _ => panic!("expected branch-exchange"),
    }
}

#[test]
fn arm_alu_decode() {
    // MOV R0, #5
    let r = Instruction::try_from(0xE3A0_0005).unwrap();
    match r {
        Instruction::Alu(a) => {
            assert!(a.immediate);
            assert!(matches!(a.op, AluOp::Mov));
            assert!(!a.s);
            assert_eq!(a.rd, Register::R0);
            assert_eq!(a.operand & 0xFF, 5);
        }
        _ => panic!("expected ALU"),
    }
    // ADD R2, R1, #3
    let r = Instruction::try_from(0xE281_2003).unwrap();
    match r {
        Instruction::Alu(a) => {
            assert!(matches!(a.op, AluOp::Add));
            assert_eq!(a.rn, Register::R1);
            assert_eq!(a.rd, Register::R2);
        }
        _ => panic!("expected ALU"),
    }
}

#[test]
fn arm_psr_overlap() {
    // A compare opcode with the set-flags bit clear classifies as the
    // status-register-transfer stub, not as ALU.
    // TST R0, #1 without S: opcode 1000, S=0.
    let r = Instruction::try_from(0xE300_0001).unwrap();
    assert!(matches!(r, Instruction::Psr));
    // With S set it stays an ALU compare.
    let r = Instruction::try_from(0xE310_0001).unwrap();
    assert!(matches!(r, Instruction::Alu(_)));
}

#[test]
fn arm_sdt_decode() {
    // LDR R1, [R0, #8]
    let r = Instruction::try_from(0xE590_1008).unwrap();
    match r {
        Instruction::Sdt(d) => {
            assert!(d.immediate);
            assert!(d.load_memory);
            assert_eq!(d.rn, Register::R0);
            assert_eq!(d.rd, Register::R1);
            assert_eq!(d.operand, 8);
        }
        _ => panic!("expected single data transfer"),
    }
    // STR form: the load bit clear.
    let r = Instruction::try_from(0xE580_1008).unwrap();
    match r {
        Instruction::Sdt(d) => assert!(!d.load_memory),
        _ => panic!("expected single data transfer"),
    }
}

#[test]
fn arm_unknown_word() {
    // Bits 27..26 = 10 with bit 25 clear match no dispatch rule.
    let r = Instruction::try_from(0xE800_0000);
    assert!(matches!(r, Err(ExecErr::UnknownInstr(0xE800_0000))));
    // Bits 27..26 = 11 (coprocessor space) match none either.
    let r = Instruction::try_from(0xEC00_0000);
    assert!(matches!(r, Err(ExecErr::UnknownInstr(0xEC00_0000))));
}

#[test]
fn thumb_pc_relative_load_decode() {
    // LDR R0, [PC, #4]
    let r = ThumbInstr::try_from(0x4801).unwrap();
    match r {
        ThumbInstr::Mls(m) => {
            assert_eq!(m.rd, Register::R0);
            assert_eq!(m.rb, Register::R15);
            // offset scaled by 4, plus 4 for the pipeline.
            assert_eq!(m.nn, 8);
        }
        _ => panic!("expected memory load"),
    }
}

#[test]
fn thumb_alu_decode() {
    // BIC R0, R1
    let r = ThumbInstr::try_from(0x4388).unwrap();
    match r {
        ThumbInstr::Alu(a) => {
            assert!(matches!(a.op, ThumbAluOp::Bic));
            assert_eq!(a.rd, Register::R0);
            assert_eq!(a.rs, Register::R1);
        }
        _ => panic!("expected ALU"),
    }
    // CMP R0, R1
    let r = ThumbInstr::try_from(0x4288).unwrap();
    match r {
        ThumbInstr::Alu(a) => assert!(matches!(a.op, ThumbAluOp::Cmp)),
        _ => panic!("expected ALU"),
    }
    // Another ALU sub-opcode is recognized but unimplemented.
    let r = ThumbInstr::try_from(0x4008);
    assert!(matches!(r, Err(ExecErr::UnimplementedInstr(_))));
}

#[test]
fn thumb_hireg_decode() {
    // BX R1
    let r = ThumbInstr::try_from(0x4708).unwrap();
    match r {
        ThumbInstr::HiReg(h) => {
            assert!(matches!(h.op, ThumbHiRegOp::Bx));
            assert_eq!(h.rd, Register::R1);
        }
        _ => panic!("expected hi-register operation"),
    }
}

#[test]
fn thumb_add_sub_decode() {
    // ADD R2, R0, R1
    let r = ThumbInstr::try_from(0x1842).unwrap();
    match r {
        ThumbInstr::AddSub(ThumbAddSub::Addr(op)) => {
            assert_eq!(op.rd, Register::R2);
            assert_eq!(op.rs, Register::R0);
            assert_eq!(op.rn, Register::R1);
        }
        _ => panic!("expected add register"),
    }
    // SUB R2, R0, R1
    let r = ThumbInstr::try_from(0x1A42).unwrap();
    assert!(matches!(r, ThumbInstr::AddSub(ThumbAddSub::Subr(_))));
    // ADD R2, R0, #1 (immediate form, recognized by the decoder)
    let r = ThumbInstr::try_from(0x1C42).unwrap();
    match r {
        ThumbInstr::AddSub(ThumbAddSub::Addi(op)) => {
            assert_eq!(op.nn, 1);
        }
        _ => panic!("expected add immediate"),
    }
}

#[test]
fn thumb_reg_shift_decode() {
    // LSL R0, R1, #4
    let r = ThumbInstr::try_from(0x0108).unwrap();
    match r {
        ThumbInstr::RegShift(sh) => {
            assert!(matches!(sh.op, ThumbRegShiftOp::Lsl));
            assert_eq!(sh.rd, Register::R0);
            assert_eq!(sh.rs, Register::R1);
            assert_eq!(sh.nn, 4);
        }
        _ => panic!("expected shift"),
    }
    // ASR R0, R1, #1
    let r = ThumbInstr::try_from(0x1048).unwrap();
    assert!(matches!(
        r,
        ThumbInstr::RegShift(sh) if matches!(sh.op, ThumbRegShiftOp::Asr)
    ));
}

#[test]
fn thumb_mcas_decode() {
    // MOV R1, #5
    let r = ThumbInstr::try_from(0x2105).unwrap();
    match r {
        ThumbInstr::Mcas(m) => {
            assert!(matches!(m.op, ThumbMcasOp::Mov));
            assert_eq!(m.rd, Register::R1);
            assert_eq!(m.nn, 5);
        }
        _ => panic!("expected move immediate"),
    }
    // SUB R1, #5
    let r = ThumbInstr::try_from(0x3905).unwrap();
    assert!(matches!(r, ThumbInstr::Mcas(m) if matches!(m.op, ThumbMcasOp::Sub)));
    // CMP immediate is recognized but unimplemented.
    let r = ThumbInstr::try_from(0x2905);
    assert!(matches!(r, Err(ExecErr::UnimplementedInstr(_))));
}

#[test]
fn thumb_branch_decode() {
    // BEQ with offset -2 (0xFE sign-extended).
    let r = ThumbInstr::try_from(0xD0FE).unwrap();
    match r {
        ThumbInstr::Branch(b) => {
            assert!(matches!(b.op, ThumbBranchOp::Beq));
            assert_eq!(b.offset, -2);
        }
        _ => panic!("expected branch"),
    }
    // BNE with offset 3.
    let r = ThumbInstr::try_from(0xD103).unwrap();
    match r {
        ThumbInstr::Branch(b) => {
            assert!(matches!(b.op, ThumbBranchOp::Bne));
            assert_eq!(b.offset, 3);
        }
        _ => panic!("expected branch"),
    }
    // BCS.
    let r = ThumbInstr::try_from(0xD200).unwrap();
    assert!(matches!(r, ThumbInstr::Branch(b) if matches!(b.op, ThumbBranchOp::Bcs)));
    // An unimplemented condition.
    let r = ThumbInstr::try_from(0xD300);
    assert!(matches!(r, Err(ExecErr::UnimplementedInstr(_))));
}

#[test]
fn thumb_mult_ls_decode() {
    // STMIA R0!, {R1, R2}
    let r = ThumbInstr::try_from(0xC006).unwrap();
    match r {
        ThumbInstr::MultLS(m) => {
            assert!(matches!(m.op, ThumbMultLSOp::STMIA));
            assert_eq!(m.rb, Register::R0);
            assert_eq!(m.rlist, vec![Register::R1, Register::R2]);
        }
        _ => panic!("expected multiple load/store"),
    }
    // LDMIA R3!, {R0, R7}
    let r = ThumbInstr::try_from(0xCB81).unwrap();
    match r {
        ThumbInstr::MultLS(m) => {
            assert!(matches!(m.op, ThumbMultLSOp::LDMIA));
            assert_eq!(m.rb, Register::R3);
            assert_eq!(m.rlist, vec![Register::R0, Register::R7]);
        }
        _ => panic!("expected multiple load/store"),
    }
}

#[test]
fn thumb_push_pop_decode() {
    // PUSH {R0, R1}
    let r = ThumbInstr::try_from(0xB403).unwrap();
    match r {
        ThumbInstr::PushPop(p) => {
            assert!(matches!(p.op, ThumbPushPopOp::Push));
            assert_eq!(p.rlist, vec![Register::R0, Register::R1]);
        }
        _ => panic!("expected push"),
    }
    // POP {R0, R1}
    let r = ThumbInstr::try_from(0xBC03).unwrap();
    assert!(matches!(r, ThumbInstr::PushPop(p) if matches!(p.op, ThumbPushPopOp::Pop)));
    // The PC/LR list bit is outside the scope.
    let r = ThumbInstr::try_from(0xB503);
    assert!(matches!(r, Err(ExecErr::UnimplementedInstr(_))));
    // Other miscellaneous encodings under the same top bits match nothing.
    let r = ThumbInstr::try_from(0xB000);
    assert!(matches!(r, Err(ExecErr::UnknownThumbInstr(0xB000))));
}

#[test]
fn thumb_load_store_immediate_decode() {
    // STR R1, [R0, #4]
    let r = ThumbInstr::try_from(0x6041).unwrap();
    match r {
        ThumbInstr::Lsi(l) => {
            assert_eq!(l.rd, Register::R1);
            assert_eq!(l.rb, Register::R0);
            assert_eq!(l.nn, 4);
        }
        _ => panic!("expected store"),
    }
    // LDR R2, [R0, #4]
    let r = ThumbInstr::try_from(0x6842).unwrap();
    match r {
        ThumbInstr::Mls(m) => {
            assert_eq!(m.rd, Register::R2);
            assert_eq!(m.rb, Register::R0);
            assert_eq!(m.nn, 4);
        }
        _ => panic!("expected load"),
    }
    // Byte forms are outside the scope.
    let r = ThumbInstr::try_from(0x7041);
    assert!(matches!(r, Err(ExecErr::UnimplementedInstr(_))));
}

#[test]
fn thumb_long_branch_continuation() {
    // The first half-word alone is the continuation signal.
    let r = ThumbInstr::try_from(0xF000);
    assert!(matches!(r, Err(ExecErr::LongInstruction)));
    // A second half-word without the matching top bits does not resolve.
    let r = ThumbInstr::try_from_long(0xF000, 0x1234);
    assert!(matches!(r, Err(ExecErr::InternalInconsistency)));
    // The matching pair assembles the displacement.
    let r = ThumbInstr::try_from_long(0xF000, 0xF801).unwrap();
    match r {
        ThumbInstr::LongBranch(lb) => assert_eq!(lb.target, 2),
        _ => panic!("expected long branch"),
    }
    let r = ThumbInstr::try_from_long(0xF001, 0xF800).unwrap();
    match r {
        ThumbInstr::LongBranch(lb) => assert_eq!(lb.target, 1 << 12),
        _ => panic!("expected long branch"),
    }
}

#[test]
fn thumb_unknown_half_word() {
    let r = ThumbInstr::try_from(0xF800);
    assert!(matches!(r, Err(ExecErr::UnknownThumbInstr(0xF800))));
}

#[test]
fn command_parser_words() {
    assert_eq!(parse_command(b"q"), Command::Quit);
    assert_eq!(parse_command(b"quit"), Command::Quit);
    assert_eq!(parse_command(b"exit"), Command::Quit);
    assert_eq!(parse_command(b"p"), Command::Print);
    assert_eq!(parse_command(b"print"), Command::Print);
    assert_eq!(parse_command(b"r"), Command::Run);
    assert_eq!(parse_command(b"run"), Command::Run);
    assert_eq!(parse_command(b"n"), Command::Next);
    assert_eq!(parse_command(b"next"), Command::Next);
    assert_eq!(parse_command(b"logon"), Command::LogOn);
    assert_eq!(parse_command(b"logoff"), Command::LogOff);
    assert_eq!(parse_command(b"help"), Command::Unknown);
    assert_eq!(parse_command(b""), Command::Unknown);
}

#[test]
fn command_parser_addresses() {
    assert_eq!(parse_command(b"v 8000100"), Command::Value(0x0800_0100));
    assert_eq!(parse_command(b"value 10"), Command::Value(0x10));
    assert_eq!(parse_command(b"b ff"), Command::Break(0xFF));
    assert_eq!(parse_command(b"break aB3F"), Command::Break(0xAB3F));
    assert_eq!(parse_command(b"rb 100"), Command::RelBreak(0x100));
    assert_eq!(parse_command(b"rbreak 100"), Command::RelBreak(0x100));
    // Extra spaces before the argument are fine; everything after the
    // token is ignored.
    assert_eq!(parse_command(b"b   20 trailing"), Command::Break(0x20));
    // The full 32-bit range parses; more does not.
    assert_eq!(parse_command(b"v ffffffff"), Command::Value(0xFFFF_FFFF));
    assert_eq!(parse_command(b"v 100000000"), Command::Unknown);
    // A missing or malformed argument is not a command.
    assert_eq!(parse_command(b"v "), Command::Unknown);
    assert_eq!(parse_command(b"b zz"), Command::Unknown);
}
