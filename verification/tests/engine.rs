//! Execution-engine tests: end-to-end programs through the
//! fetch-decode-execute step, per-opcode semantics, the failure taxonomy,
//! the header parse, and the debugger control flow.

use gba_emu::common::ExecErr;
use gba_emu::cpu::Cpu;
use gba_emu::debugger::Debugger;
use gba_emu::gba_file::GBAHeader;

const LOAD: u32 = 0x0800_0000;

fn fresh_with(program: &[u8]) -> Cpu {
    let mut cpu = Cpu::new();
    cpu.initialize_cpu(program);
    cpu
}

#[test]
fn fresh_cpu_is_cleared() {
    let cpu = Cpu::new();
    assert_eq!(cpu.r0, 0);
    assert_eq!(cpu.sp, 0);
    assert_eq!(cpu.pc, 0);
    assert!(!cpu.thumb);
    assert_eq!(cpu.get_memory(0), 0);
    assert_eq!(cpu.get_memory_u16(0x0400_0000), 0);
}

#[test]
fn initialize_loads_at_base() {
    let cpu = fresh_with(&[0x78, 0x56, 0x34, 0x12]);
    assert_eq!(cpu.pc, LOAD);
    assert_eq!(cpu.lr, LOAD);
    assert_eq!(cpu.get_memory(LOAD), 0x1234_5678);
    assert_eq!(cpu.get_memory_u16(LOAD), 0x5678);
    assert_eq!(cpu.get_memory_u16(LOAD + 2), 0x1234);
}

#[test]
fn mov_then_add_immediate() {
    // MOV R0,#5 ; ADD R0,R0,#3 (32-bit form).
    let program = [0x05, 0x00, 0xA0, 0xE3, 0x03, 0x00, 0x80, 0xE2];
    let mut cpu = fresh_with(&program);
    cpu.execute_next().unwrap();
    assert_eq!(cpu.r0, 5);
    cpu.execute_next().unwrap();
    assert_eq!(cpu.r0, 8);
    assert_eq!(cpu.pc, LOAD + 8);
}

#[test]
fn add_immediate_with_rotate() {
    // MOV R1,#0x0F000000: immediate 0xF0 rotated right by 2*6=12.
    let program = [0xF0, 0x16, 0xA0, 0xE3];
    let mut cpu = fresh_with(&program);
    cpu.execute_next().unwrap();
    assert_eq!(cpu.r1, 0x0F00_0000);
    assert_eq!(cpu.pc, LOAD + 4);
}

#[test]
fn branch_offset() {
    // B with 24-bit offset 2: PC = PC + 8 + 4*2.
    let program = [0x02, 0x00, 0x00, 0xEA];
    let mut cpu = fresh_with(&program);
    cpu.execute_next().unwrap();
    assert_eq!(cpu.pc, LOAD + 8 + 8);
}

#[test]
fn branch_with_link_unimplemented() {
    let program = [0x02, 0x00, 0x00, 0xEB];
    let mut cpu = fresh_with(&program);
    let r = cpu.execute_next();
    assert!(matches!(r, Err(ExecErr::UnimplementedInstr(_))));
    // A failing step leaves the state unchanged.
    assert_eq!(cpu.pc, LOAD);
}

#[test]
fn branch_exchange_switches_mode() {
    // BX R1 with an odd target: 16-bit mode, bit 0 cleared.
    let program = [0x11, 0xFF, 0x2F, 0xE1];
    let mut cpu = fresh_with(&program);
    cpu.r1 = 0x0800_0101;
    cpu.execute_next().unwrap();
    assert!(cpu.thumb);
    assert_eq!(cpu.pc, 0x0800_0100);
}

#[test]
fn sdt_load_and_store() {
    // LDR R1,[R0,#8] ; STR (L clear) writes R0 to R0+8.
    let program = [0x08, 0x10, 0x90, 0xE5, 0x08, 0x10, 0x80, 0xE5];
    let mut cpu = fresh_with(&program);
    cpu.r0 = 0x0300_0000;
    let mut with_data = cpu;
    // Plant a word at 0x03000008 by storing first: run the STR at LOAD+4.
    with_data.pc = LOAD + 4;
    with_data.execute_next().unwrap();
    assert_eq!(with_data.get_memory(0x0300_0008), 0x0300_0000);
    assert_eq!(with_data.pc, LOAD + 8);
    // Now run the LDR against the planted word.
    with_data.pc = LOAD;
    with_data.execute_next().unwrap();
    assert_eq!(with_data.r1, 0x0300_0000);
}

#[test]
fn psr_stub_advances_pc() {
    // TST without the set-flags bit decodes as the PSR stub: a no-op that
    // only advances PC.
    let program = [0x01, 0x00, 0x00, 0xE3];
    let mut cpu = fresh_with(&program);
    cpu.execute_next().unwrap();
    assert_eq!(cpu.pc, LOAD + 4);
    assert_eq!(cpu.r0, 0);
}

#[test]
fn unknown_word_reported() {
    let program = [0x00, 0x00, 0x00, 0xE8];
    let mut cpu = fresh_with(&program);
    let r = cpu.execute_next();
    assert!(matches!(r, Err(ExecErr::UnknownInstr(0xE800_0000))));
}

#[test]
fn fetch_out_of_bounds_reported() {
    let mut cpu = Cpu::new();
    cpu.pc = 0xFFFF_FFF0;
    let r = cpu.execute_next();
    assert!(matches!(r, Err(ExecErr::OutOfBoundsAccess)));
    assert_eq!(cpu.pc, 0xFFFF_FFF0);
}

#[test]
fn push_pop_round_trip() {
    // PUSH {R0,R1} ; POP {R0,R1} with R0=0x11, R1=0x22 preset.
    let program = [0x03, 0xB4, 0x03, 0xBC];
    let mut cpu = fresh_with(&program);
    cpu.thumb = true;
    cpu.sp = 0x0300_0000;
    cpu.r0 = 0x11;
    cpu.r1 = 0x22;
    cpu.execute_next().unwrap();
    // The stack pointer dropped by 4 per pushed register, and the first
    // listed register sits at the lowest address.
    assert_eq!(cpu.sp, 0x0300_0000 - 8);
    assert_eq!(cpu.get_memory(cpu.sp), 0x11);
    assert_eq!(cpu.get_memory(cpu.sp + 4), 0x22);
    cpu.r0 = 0;
    cpu.r1 = 0;
    cpu.execute_next().unwrap();
    assert_eq!(cpu.r0, 0x11);
    assert_eq!(cpu.r1, 0x22);
    assert_eq!(cpu.sp, 0x0300_0000);
    assert_eq!(cpu.pc, LOAD + 4);
}

#[test]
fn push_empty_list_only_advances() {
    // PUSH {} then POP {}: no transfers, no stack movement.
    let program = [0x00, 0xB4, 0x00, 0xBC];
    let mut cpu = fresh_with(&program);
    cpu.thumb = true;
    cpu.sp = 0x0300_0000;
    cpu.execute_next().unwrap();
    assert_eq!(cpu.sp, 0x0300_0000);
    assert_eq!(cpu.pc, LOAD + 2);
    cpu.execute_next().unwrap();
    assert_eq!(cpu.sp, 0x0300_0000);
    assert_eq!(cpu.pc, LOAD + 4);
}

#[test]
fn push_pop_full_list() {
    // PUSH {R0-R7} then POP {R0-R7}.
    let program = [0xFF, 0xB4, 0xFF, 0xBC];
    let mut cpu = fresh_with(&program);
    cpu.thumb = true;
    cpu.sp = 0x0300_0000;
    for i in 0..8u32 {
        let v = 0x100 + i;
        match i {
            0 => cpu.r0 = v,
            1 => cpu.r1 = v,
            2 => cpu.r2 = v,
            3 => cpu.r3 = v,
            4 => cpu.r4 = v,
            5 => cpu.r5 = v,
            6 => cpu.r6 = v,
            _ => cpu.r7 = v,
        }
    }
    cpu.execute_next().unwrap();
    assert_eq!(cpu.sp, 0x0300_0000 - 32);
    for i in 0..8u32 {
        assert_eq!(cpu.get_memory(cpu.sp + 4 * i), 0x100 + i);
    }
    cpu.r0 = 0;
    cpu.r7 = 0;
    cpu.execute_next().unwrap();
    assert_eq!(cpu.sp, 0x0300_0000);
    assert_eq!(cpu.r0, 0x100);
    assert_eq!(cpu.r7, 0x107);
}

#[test]
fn push_with_stack_outside_memory_fails() {
    // A stack pointer below the room the list needs reports the
    // out-of-bounds error and changes nothing.
    let program = [0x03, 0xB4];
    let mut cpu = fresh_with(&program);
    cpu.thumb = true;
    cpu.sp = 4;
    let r = cpu.execute_next();
    assert!(matches!(r, Err(ExecErr::OutOfBoundsAccess)));
    assert_eq!(cpu.sp, 4);
    assert_eq!(cpu.pc, LOAD);
}

#[test]
fn multiple_store_then_load() {
    // STMIA R0!,{R1,R2} ; LDMIA R3!,{R4,R5}
    let program = [0x06, 0xC0, 0x30, 0xCB];
    let mut cpu = fresh_with(&program);
    cpu.thumb = true;
    cpu.r0 = 0x0300_0100;
    cpu.r1 = 0xAAAA_AAAA;
    cpu.r2 = 0xBBBB_BBBB;
    cpu.r3 = 0x0300_0100;
    cpu.execute_next().unwrap();
    // Base advanced by 4 per transferred register; values laid out in
    // list order at offsets 0, 4.
    assert_eq!(cpu.r0, 0x0300_0108);
    assert_eq!(cpu.get_memory(0x0300_0100), 0xAAAA_AAAA);
    assert_eq!(cpu.get_memory(0x0300_0104), 0xBBBB_BBBB);
    cpu.execute_next().unwrap();
    assert_eq!(cpu.r3, 0x0300_0108);
    assert_eq!(cpu.r4, 0xAAAA_AAAA);
    assert_eq!(cpu.r5, 0xBBBB_BBBB);
    assert_eq!(cpu.pc, LOAD + 4);
}

#[test]
fn thumb_mov_sub_immediate_flags() {
    // MOV R1,#5 ; SUB R1,#5
    let program = [0x05, 0x21, 0x05, 0x39];
    let mut cpu = fresh_with(&program);
    cpu.thumb = true;
    cpu.execute_next().unwrap();
    assert_eq!(cpu.r1, 5);
    assert!(!cpu.zero_flag);
    cpu.execute_next().unwrap();
    assert_eq!(cpu.r1, 0);
    assert!(cpu.zero_flag);
    assert_eq!(cpu.pc, LOAD + 4);
}

#[test]
fn thumb_add_sub_register() {
    // ADD R2,R0,R1 ; SUB R2,R0,R1
    let program = [0x42, 0x18, 0x42, 0x1A];
    let mut cpu = fresh_with(&program);
    cpu.thumb = true;
    cpu.r0 = 7;
    cpu.r1 = 3;
    cpu.execute_next().unwrap();
    assert_eq!(cpu.r2, 10);
    cpu.execute_next().unwrap();
    assert_eq!(cpu.r2, 4);
    // Subtraction wraps rather than borrowing.
    cpu.pc = LOAD + 2;
    cpu.r0 = 1;
    cpu.r1 = 2;
    cpu.execute_next().unwrap();
    assert_eq!(cpu.r2, u32::MAX);
}

#[test]
fn thumb_bic_and_cmp() {
    // BIC R0,R1 ; CMP R0,R1
    let program = [0x88, 0x43, 0x88, 0x42];
    let mut cpu = fresh_with(&program);
    cpu.thumb = true;
    cpu.r0 = 0b1111;
    cpu.r1 = 0b0101;
    cpu.execute_next().unwrap();
    assert_eq!(cpu.r0, 0b1010);
    assert!(!cpu.zero_flag);
    cpu.r1 = 0b1010;
    cpu.execute_next().unwrap();
    assert!(cpu.zero_flag);
}

#[test]
fn thumb_shift_preserves_top_bit() {
    // LSL R0,R1,#4: the top bit is preserved while the rest shifts.
    let program = [0x08, 0x01];
    let mut cpu = fresh_with(&program);
    cpu.thumb = true;
    cpu.r1 = 0x8000_0001;
    cpu.execute_next().unwrap();
    assert_eq!(cpu.r0, 0x8000_0010);
    assert!(cpu.zero_flag);
    assert!(cpu.carry_flag);
}

#[test]
fn thumb_shift_right_unimplemented() {
    // LSR R0,R1,#1
    let program = [0x48, 0x08];
    let mut cpu = fresh_with(&program);
    cpu.thumb = true;
    let r = cpu.execute_next();
    assert!(matches!(r, Err(ExecErr::UnimplementedInstr(_))));
}

#[test]
fn thumb_conditional_branches() {
    // BEQ .-2 spins in place when the zero flag is set.
    let program = [0xFE, 0xD0];
    let mut cpu = fresh_with(&program);
    cpu.thumb = true;
    cpu.zero_flag = true;
    cpu.execute_next().unwrap();
    assert_eq!(cpu.pc, LOAD);
    // Not taken: falls through by one half-word.
    cpu.zero_flag = false;
    cpu.execute_next().unwrap();
    assert_eq!(cpu.pc, LOAD + 2);
    // BNE with a forward offset.
    let program = [0x03, 0xD1];
    let mut cpu = fresh_with(&program);
    cpu.thumb = true;
    cpu.zero_flag = false;
    cpu.execute_next().unwrap();
    assert_eq!(cpu.pc, LOAD + 4 + 6);
    // BCS taken on the carry flag.
    let program = [0x01, 0xD2];
    let mut cpu = fresh_with(&program);
    cpu.thumb = true;
    cpu.carry_flag = true;
    cpu.execute_next().unwrap();
    assert_eq!(cpu.pc, LOAD + 4 + 2);
}

#[test]
fn thumb_pc_relative_load() {
    // LDR R0,[PC,#4]: reads the 4-byte-aligned literal at PC+8.
    let mut program = vec![0x01, 0x48, 0x00, 0x00, 0x00, 0x00, 0x00, 0x00];
    program.extend_from_slice(&[0x12, 0x34, 0x56, 0x78]);
    let mut cpu = fresh_with(&program);
    cpu.thumb = true;
    cpu.execute_next().unwrap();
    assert_eq!(cpu.r0, 0x7856_3412);
    assert_eq!(cpu.pc, LOAD + 2);
}

#[test]
fn thumb_store_and_load_immediate() {
    // STR R1,[R0,#4] ; LDR R2,[R0,#4]
    let program = [0x41, 0x60, 0x42, 0x68];
    let mut cpu = fresh_with(&program);
    cpu.thumb = true;
    cpu.r0 = 0x0300_0000;
    cpu.r1 = 0xDEAD_BEEF;
    cpu.execute_next().unwrap();
    assert_eq!(cpu.get_memory(0x0300_0004), 0xDEAD_BEEF);
    cpu.execute_next().unwrap();
    assert_eq!(cpu.r2, 0xDEAD_BEEF);
    assert_eq!(cpu.pc, LOAD + 4);
}

#[test]
fn thumb_branch_exchange_modes() {
    // BX R1 with an odd target keeps the 16-bit mode and clears bit 0;
    // with an even target it switches to the 32-bit mode.
    let program = [0x08, 0x47];
    let mut cpu = fresh_with(&program);
    cpu.thumb = true;
    cpu.r1 = 0x0800_0103;
    cpu.execute_next().unwrap();
    assert!(cpu.thumb);
    assert_eq!(cpu.pc, 0x0800_0102);
    let mut cpu = fresh_with(&program);
    cpu.thumb = true;
    cpu.r1 = 0x0800_0100;
    cpu.execute_next().unwrap();
    assert!(!cpu.thumb);
    assert_eq!(cpu.pc, 0x0800_0100);
}

#[test]
fn thumb_long_branch_with_link() {
    // BL assembled from two half-words: displacement 2.
    let program = [0x00, 0xF0, 0x01, 0xF8];
    let mut cpu = fresh_with(&program);
    cpu.thumb = true;
    cpu.execute_next().unwrap();
    assert_eq!(cpu.lr, (LOAD + 4) | 1);
    assert_eq!(cpu.pc, LOAD + 4 + 2);
    assert!(cpu.thumb);
}

#[test]
fn thumb_long_branch_inconsistent_pair() {
    // The continuation signal followed by a half-word that is no long
    // branch low half.
    let program = [0x00, 0xF0, 0x34, 0x12];
    let mut cpu = fresh_with(&program);
    cpu.thumb = true;
    let r = cpu.execute_next();
    assert!(matches!(r, Err(ExecErr::InternalInconsistency)));
    assert_eq!(cpu.pc, LOAD);
}

#[test]
fn thumb_unknown_half_word_step() {
    let program = [0x00, 0xF8];
    let mut cpu = fresh_with(&program);
    cpu.thumb = true;
    let r = cpu.execute_next();
    assert!(matches!(r, Err(ExecErr::UnknownThumbInstr(0xF800))));
}

#[test]
fn run_rom_stops_on_failure() {
    // MOV R0,#5 then an unknown word aborts the loop.
    let program = [0x05, 0x00, 0xA0, 0xE3, 0x00, 0x00, 0x00, 0xE8];
    let mut cpu = Cpu::new();
    let r = cpu.run_rom(&program, 1000);
    assert!(matches!(r, Err(ExecErr::UnknownInstr(0xE800_0000))));
    assert_eq!(cpu.r0, 5);
    assert_eq!(cpu.pc, LOAD + 4);
}

#[test]
fn run_rom_budget_exhausts() {
    let program = [0x05, 0x00, 0xA0, 0xE3, 0x00, 0x00, 0x00, 0xE8];
    let mut cpu = Cpu::new();
    let r = cpu.run_rom(&program, 1);
    assert!(r.is_ok());
    assert_eq!(cpu.r0, 5);
}

#[test]
fn header_fields_parse() {
    let mut bytes = vec![0u8; 0xE4];
    bytes[0x00..0x04].copy_from_slice(&[0x78, 0x56, 0x34, 0x12]);
    for (i, b) in bytes[0x04..0xA0].iter_mut().enumerate() {
        *b = i as u8;
    }
    bytes[0xA0..0xAC].copy_from_slice(b"DEMO GAME   ");
    bytes[0xAC..0xB0].copy_from_slice(b"ABCD");
    bytes[0xB0..0xB2].copy_from_slice(b"01");
    bytes[0xB2] = 0x96;
    bytes[0xB3] = 0x01;
    bytes[0xB4] = 0x02;
    bytes[0xBC] = 0x03;
    bytes[0xBD] = 0x55;
    bytes[0xC0..0xC4].copy_from_slice(&[0x44, 0x33, 0x22, 0x11]);
    bytes[0xC4] = 0x02;
    bytes[0xC5] = 0x01;
    bytes[0xE0..0xE4].copy_from_slice(&[0x04, 0x03, 0x02, 0x01]);
    let h = GBAHeader::from_file(&bytes);
    assert_eq!(h.rom_entry_point, 0x1234_5678);
    assert_eq!(h.nintendo_logo.len(), 0x9C);
    assert_eq!(h.nintendo_logo[0], 0);
    assert_eq!(h.nintendo_logo[1], 1);
    assert_eq!(h.game_title, b"DEMO GAME   ");
    assert_eq!(h.game_code, b"ABCD");
    assert_eq!(h.maker_code, b"01");
    assert_eq!(h.fixed_value, 0x96);
    assert_eq!(h.main_unit_code, 0x01);
    assert_eq!(h.device_type, 0x02);
    assert_eq!(h.software_version, 0x03);
    assert_eq!(h.complement_check, 0x55);
    assert_eq!(h.ram_entry_point, 0x1122_3344);
    assert_eq!(h.boot_mode, 0x02);
    assert_eq!(h.slave_id, 0x01);
    assert_eq!(h.joy_entry_point, 0x0102_0304);
}

#[test]
fn debugger_runs_to_breakpoint() {
    // MOV R0,#5 ; ADD R0,R0,#3 ; unknown.
    let program = [0x05, 0x00, 0xA0, 0xE3, 0x03, 0x00, 0x80, 0xE2, 0x00, 0x00, 0x00, 0xE8];
    let mut dbg = Debugger::new(Cpu::new());
    dbg.initialize(&program);
    dbg.add_break(LOAD + 4);
    dbg.run(1000).unwrap();
    assert!(dbg.on_break);
    assert_eq!(dbg.cpu.pc, LOAD + 4);
    assert_eq!(dbg.cpu.r0, 5);
    // A further run moves past the latched breakpoint and hits the
    // failing word.
    let r = dbg.run(1000);
    assert!(matches!(r, Err(ExecErr::UnknownInstr(_))));
    assert_eq!(dbg.cpu.r0, 8);
}

#[test]
fn debugger_single_step_and_relative_break() {
    let program = [0x05, 0x00, 0xA0, 0xE3, 0x03, 0x00, 0x80, 0xE2];
    let mut dbg = Debugger::new(Cpu::new());
    dbg.initialize(&program);
    dbg.add_relative_break(4);
    assert_eq!(dbg.breaks, vec![LOAD | 4]);
    dbg.next().unwrap();
    assert_eq!(dbg.cpu.r0, 5);
    assert!(!dbg.on_break);
    dbg.next().unwrap();
    assert_eq!(dbg.cpu.r0, 8);
}

#[test]
fn logging_toggle() {
    let mut cpu = Cpu::new();
    assert!(!cpu.logging);
    cpu.set_logging(true);
    assert!(cpu.logging);
    cpu.set_logging(false);
    assert!(!cpu.logging);
}
