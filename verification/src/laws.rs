//! The laws of the machine model: what decoding-then-executing does for the
//! branch and ALU forms, the push/pop round trip, the multiple-load/store
//! address discipline, and the mode switch of branch-exchange. Each is
//! proved from the step model alone.

use vstd::prelude::*;

use crate::bits::{
    lemma_mask_bounds_u32, lemma_store_word_at, lemma_to_u32_add, ror, to_u32, wadd, word_at,
};
use crate::common::{reg_implemented, spec_register, Register};
use crate::model::{
    do_ldmia, do_pop, do_push, do_stmia, sem_thumb_multls, sem_thumb_push_pop, spec_step,
    CpuView, StepOutcome,
};
use crate::thumb::{
    is_low_reg, rlist_upto, spec_rlist, ThumbMultLSOp, ThumbPushPopOp,
};

verus! {

/// `a` and `b` agree on everything but the stack pointer and the memory.
pub open spec fn same_but_sp_mem(a: CpuView, b: CpuView) -> bool {
    &&& a.r0 == b.r0
    &&& a.r1 == b.r1
    &&& a.r2 == b.r2
    &&& a.r3 == b.r3
    &&& a.r4 == b.r4
    &&& a.r5 == b.r5
    &&& a.r6 == b.r6
    &&& a.r7 == b.r7
    &&& a.lr == b.lr
    &&& a.pc == b.pc
    &&& a.sign == b.sign
    &&& a.zero == b.zero
    &&& a.carry == b.carry
    &&& a.overflow == b.overflow
    &&& a.thumb == b.thumb
    &&& a.logging == b.logging
}

/// `a` and `b` agree on the link register, program counter, flags, mode,
/// toggle and memory length (the frame that a register-file update leaves
/// alone).
pub open spec fn same_frame(a: CpuView, b: CpuView) -> bool {
    &&& a.lr == b.lr
    &&& a.pc == b.pc
    &&& a.sign == b.sign
    &&& a.zero == b.zero
    &&& a.carry == b.carry
    &&& a.overflow == b.overflow
    &&& a.thumb == b.thumb
    &&& a.logging == b.logging
}

/// No register appears twice in the list.
pub open spec fn regs_distinct(regs: Seq<Register>) -> bool {
    forall|i: int, j: int| 0 <= i < j < regs.len() ==> regs[i] != regs[j]
}

/// Every register of the list is a low register.
pub open spec fn all_low(regs: Seq<Register>) -> bool {
    forall|i: int| 0 <= i < regs.len() ==> is_low_reg(#[trigger] regs[i])
}

/// The 4-bit index of a register.
pub open spec fn reg_index(r: Register) -> int {
    match r {
        Register::R0 => 0,
        Register::R1 => 1,
        Register::R2 => 2,
        Register::R3 => 3,
        Register::R4 => 4,
        Register::R5 => 5,
        Register::R6 => 6,
        Register::R7 => 7,
        Register::R8 => 8,
        Register::R9 => 9,
        Register::R10 => 10,
        Register::R11 => 11,
        Register::R12 => 12,
        Register::R13 => 13,
        Register::R14 => 14,
        Register::R15 => 15,
    }
}

/// A register list decoded from a bitmask is strictly ascending (hence
/// duplicate-free), holds low registers only, and their indexes stay below
/// the bit position bound.
pub proof fn lemma_rlist_upto_sorted(mask: u16, n: int)
    requires
        0 <= n <= 8,
    ensures
        rlist_upto(mask, n).len() <= n,
        all_low(rlist_upto(mask, n)),
        forall|i: int|
            0 <= i < rlist_upto(mask, n).len() ==> reg_index(#[trigger] rlist_upto(mask, n)[i])
                < n,
        forall|i: int, j: int|
            0 <= i < j < rlist_upto(mask, n).len() ==> reg_index(rlist_upto(mask, n)[i])
                < reg_index(rlist_upto(mask, n)[j]),
    decreases n,
{
    if n > 0 {
        lemma_rlist_upto_sorted(mask, n - 1);
    }
}

/// The register list of a bitmask is low-register-only and duplicate-free.
pub proof fn lemma_rlist_wf(mask: u16)
    ensures
        spec_rlist(mask).len() <= 8,
        all_low(spec_rlist(mask)),
        regs_distinct(spec_rlist(mask)),
        crate::model::all_regs_implemented(spec_rlist(mask)),
{
    lemma_rlist_upto_sorted(mask, 8);
}

/// Decoding then executing a well-formed branch word with the link bit
/// clear moves the program counter to the old program counter plus 8 plus
/// 4 times the low 24 offset bits (modulo the 32-bit word range), and
/// changes nothing else.
pub proof fn lemma_branch_execution(s: CpuView, w: u32)
    requires
        s.wf(),
        !s.thumb,
        s.pc + 4 <= s.mem.len(),
        word_at(s.mem, s.pc as int) == w,
        (w >> 25) & 0x7 == 0b101,
        (w >> 24) & 0x1 == 0,
    ensures
        spec_step(s) == StepOutcome::Next(s.with_pc(to_u32(s.pc + 8 + 4 * (w & 0xFFFFFF)))),
{
    lemma_mask_bounds_u32();
    let nn = w & 0xFFFFFF;
    assert(crate::bits::wmul(nn, 4) == 4 * nn) by {
        assert(nn * 4 == 4 * nn);
        assert(0 <= 4 * nn < 0x1_0000_0000);
    }
    lemma_to_u32_add(4 * nn, s.pc + 8);
    assert(wadd(wadd(s.pc, 8), (4 * nn) as u32) == to_u32(to_u32(s.pc + 8) + 4 * nn));
    assert(to_u32(4 * nn + to_u32(s.pc + 8)) == to_u32(4 * nn + (s.pc + 8)));
}

/// Decoding then executing an ALU immediate-Add word with the set-flags
/// bit clear and an ordinary destination register writes
/// source + rotated immediate (8 more when the source is the program
/// counter) to the destination, and advances the program counter by
/// exactly 4.
pub proof fn lemma_alu_add_immediate_execution(s: CpuView, w: u32)
    requires
        s.wf(),
        !s.thumb,
        s.pc + 4 <= s.mem.len(),
        word_at(s.mem, s.pc as int) == w,
        (w >> 26) & 0x3 == 0b00,
        (w >> 25) & 0x1 == 1,
        (w >> 21) & 0xF == 4,
        (w >> 20) & 0x1 == 0,
        reg_implemented(spec_register(((w >> 16) & 0xF) as int)),
        reg_implemented(spec_register(((w >> 12) & 0xF) as int)),
        spec_register(((w >> 12) & 0xF) as int) != Register::R15,
    ensures
        ({
            let rn = spec_register(((w >> 16) & 0xF) as int);
            let rd = spec_register(((w >> 12) & 0xF) as int);
            let op2 = ror(w & 0xFF, (2 * ((w >> 8) & 0xF)) as u32);
            let pc_extra: int = if rn == Register::R15 {
                8
            } else {
                0
            };
            spec_step(s) == StepOutcome::Next(
                s.set_reg(rd, to_u32(s.reg(rn) + pc_extra + op2)).with_pc(wadd(s.pc, 4)),
            )
        }),
{
    lemma_mask_bounds_u32();
    // An immediate-operand word is never a branch nor a branch-exchange.
    assert((w >> 26) & 0x3 == 0b00 && (w >> 25) & 0x1 == 1 ==> (w >> 25) & 0x7 != 0b101 && (w
        >> 8) & 0xFFFFF != 0b0001_0010_1111_1111_1111) by (bit_vector);
    // The operand field carries the same immediate and rotate bits as the
    // word itself.
    assert(((w & 0xFFFFFF) & 0xFF) == (w & 0xFF) && (((w & 0xFFFFFF) >> 8) & 0xF) == ((w >> 8)
        & 0xF)) by (bit_vector);
    assert(((w >> 8) & 0xF) * 2 == 2 * ((w >> 8) & 0xF));
    let rn = spec_register(((w >> 16) & 0xF) as int);
    let op2 = ror(w & 0xFF, (2 * ((w >> 8) & 0xF)) as u32);
    if rn == Register::R15 {
        lemma_to_u32_add(op2 as int, s.reg(rn) + 8);
        assert(wadd(wadd(s.reg(rn), 8), op2) == to_u32(op2 + to_u32(s.reg(rn) + 8)));
        assert(to_u32(op2 + (s.reg(rn) + 8)) == to_u32(s.reg(rn) + 8 + op2));
    } else {
        assert(wadd(s.reg(rn), op2) == to_u32(s.reg(rn) + 0 + op2));
    }
}

/// Decoding then executing a branch-exchange word whose target register
/// holds an odd address switches the mode to 16-bit and sets the program
/// counter to the target address with bit 0 cleared.
pub proof fn lemma_branch_exchange_mode_switch(s: CpuView, w: u32)
    requires
        s.wf(),
        !s.thumb,
        s.pc + 4 <= s.mem.len(),
        word_at(s.mem, s.pc as int) == w,
        (w >> 8) & 0xFFFFF == 0b0001_0010_1111_1111_1111,
        reg_implemented(spec_register((w & 0xF) as int)),
        s.reg(spec_register((w & 0xF) as int)) & 1 == 1,
    ensures
        ({
            let target = s.reg(spec_register((w & 0xF) as int));
            spec_step(s) == StepOutcome::Next(
                CpuView { pc: (target - 1) as u32, thumb: true, ..s },
            )
        }),
{
    lemma_mask_bounds_u32();
    assert((w >> 8) & 0xFFFFF == 0b0001_0010_1111_1111_1111 ==> (w >> 25) & 0x7
        != 0b101) by (bit_vector);
    let target = s.reg(spec_register((w & 0xF) as int));
    assert(target & 1 == 1 ==> (target | 1) == target) by (bit_vector);
}

/// The effect of a push: the stack pointer drops by one word per listed
/// register, the i-th listed register's value comes to rest i words above
/// the final stack pointer, and nothing else changes (memory only below
/// the old stack pointer).
pub proof fn lemma_do_push_effect(s: CpuView, regs: Seq<Register>)
    requires
        all_low(regs),
        4 * regs.len() <= s.sp,
        s.sp <= s.mem.len(),
    ensures
        ({
            let t = do_push(s, regs);
            &&& t.sp == s.sp - 4 * regs.len()
            &&& same_but_sp_mem(s, t)
            &&& t.mem.len() == s.mem.len()
            &&& forall|i: int|
                0 <= i < regs.len() ==> word_at(t.mem, s.sp - 4 * regs.len() + 4 * i) == s.reg(
                    #[trigger] regs[i],
                )
            &&& forall|a: int|
                0 <= a < s.mem.len() && !(s.sp - 4 * regs.len() <= a < s.sp)
                    ==> t.mem[a] == s.mem[a]
        }),
    decreases regs.len(),
{
    if regs.len() > 0 {
        let rest = regs.subrange(1, regs.len() as int);
        lemma_do_push_effect(s, rest);
        let inner = do_push(s, rest);
        let t = do_push(s, regs);
        let slot = s.sp - 4 * regs.len();
        assert(inner.sp == s.sp - 4 * rest.len());
        assert(is_low_reg(regs[0]));
        assert(inner.reg(regs[0]) == s.reg(regs[0]));
        lemma_store_word_at(inner.mem, slot, inner.reg(regs[0]));
        assert(t.mem == crate::bits::store_word(inner.mem, slot, inner.reg(regs[0])));
        assert forall|i: int| 0 <= i < regs.len() implies word_at(
            t.mem,
            s.sp - 4 * regs.len() + 4 * i,
        ) == s.reg(#[trigger] regs[i]) by {
            if i == 0 {
                assert(word_at(t.mem, slot) == inner.reg(regs[0]));
            } else {
                assert(regs[i] == rest[i - 1]);
                assert(word_at(inner.mem, s.sp - 4 * rest.len() + 4 * (i - 1)) == s.reg(
                    rest[i - 1],
                ));
                assert(s.sp - 4 * rest.len() + 4 * (i - 1) == slot + 4 * i);
                assert(word_at(t.mem, slot + 4 * i) == word_at(inner.mem, slot + 4 * i));
            }
        }
    }
}

/// The effect of a pop: the stack pointer rises by one word per listed
/// register, the i-th listed register receives the word i slots above the
/// old stack pointer, and everything else (memory included) is unchanged.
#[verifier::rlimit(100)]
#[verifier::spinoff_prover]
pub proof fn lemma_do_pop_effect(s: CpuView, regs: Seq<Register>)
    requires
        all_low(regs),
        regs_distinct(regs),
        s.sp + 4 * regs.len() <= s.mem.len(),
        s.sp + 4 * regs.len() < 0x1_0000_0000,
    ensures
        ({
            let t = do_pop(s, regs);
            &&& t.sp == s.sp + 4 * regs.len()
            &&& t.mem == s.mem
            &&& same_frame(s, t)
            &&& forall|r: Register|
                is_low_reg(r) && !regs.contains(r) ==> #[trigger] t.reg(r) == s.reg(r)
            &&& forall|i: int|
                0 <= i < regs.len() ==> t.reg(#[trigger] regs[i]) == word_at(
                    s.mem,
                    s.sp + 4 * i,
                )
        }),
    decreases regs.len(),
{
    if regs.len() > 0 {
        let rest = regs.drop_last();
        lemma_do_pop_effect(s, rest);
        let inner = do_pop(s, rest);
        let t = do_pop(s, regs);
        let last = regs.last();
        assert(is_low_reg(last));
        assert forall|i: int| 0 <= i < regs.len() implies t.reg(#[trigger] regs[i]) == word_at(
            s.mem,
            s.sp + 4 * i,
        ) by {
            if i < regs.len() - 1 {
                assert(regs[i] == rest[i]);
                assert(rest.contains(rest[i]));
                assert(regs[i] != last);
            }
        }
        assert forall|r: Register|
            is_low_reg(r) && !regs.contains(r) implies #[trigger] t.reg(r) == s.reg(r) by {
            assert(!rest.contains(r)) by {
                if rest.contains(r) {
                    let k = choose|k: int| 0 <= k < rest.len() && rest[k] == r;
                    assert(regs[k] == r);
                }
            }
            assert(r != last);
            assert(inner.reg(r) == s.reg(r));
        }
    }
}

/// Executing a push on a non-empty register list drops the stack pointer
/// by exactly 4 times the list length and lands each listed register's
/// value at its slot (ascending from the new stack pointer, in list
/// order); immediately executing the matching pop restores every register
/// and the original stack pointer.
pub proof fn lemma_push_pop_round_trip(s: CpuView, mask: u16)
    requires
        s.wf(),
        spec_rlist(mask).len() > 0,
        4 * spec_rlist(mask).len() <= s.sp,
        s.sp <= s.mem.len(),
    ensures
        ({
            let regs = spec_rlist(mask);
            sem_thumb_push_pop(s, ThumbPushPopOp::Push, regs) matches StepOutcome::Next(t) && {
                &&& t.sp == s.sp - 4 * regs.len()
                &&& forall|i: int|
                    0 <= i < regs.len() ==> word_at(t.mem, t.sp + 4 * i) == s.reg(
                        #[trigger] regs[i],
                    )
                &&& sem_thumb_push_pop(t, ThumbPushPopOp::Pop, regs) matches StepOutcome::Next(u)
                    && {
                    &&& u.sp == s.sp
                    &&& forall|r: Register| is_low_reg(r) ==> #[trigger] u.reg(r) == s.reg(r)
                    &&& u.lr == s.lr
                    &&& u.pc == wadd(wadd(s.pc, 2), 2)
                    &&& u.thumb == s.thumb
                }
            }
        }),
{
    let regs = spec_rlist(mask);
    lemma_rlist_wf(mask);
    lemma_do_push_effect(s, regs);
    let t0 = do_push(s, regs);
    let t = t0.with_pc(wadd(t0.pc, 2));
    lemma_do_pop_effect(t, regs);
    let u = do_pop(t, regs);
    assert forall|r: Register| is_low_reg(r) implies #[trigger] u.reg(r) == s.reg(r) by {
        if regs.contains(r) {
            let i = choose|i: int| 0 <= i < regs.len() && regs[i] == r;
            assert(u.reg(regs[i]) == word_at(t.mem, t.sp + 4 * i));
            assert(word_at(t0.mem, s.sp - 4 * regs.len() + 4 * i) == s.reg(regs[i]));
        } else {
            assert(t.reg(r) == s.reg(r));
        }
    }
    let upost = u.with_pc(wadd(u.pc, 2));
    assert forall|r: Register| is_low_reg(r) implies #[trigger] upost.reg(r) == s.reg(r) by {
        assert(u.reg(r) == s.reg(r));
    }
}

/// The effect of a store-multiple: the base register advances by one word
/// per listed register, the i-th listed register's value is stored i words
/// above the old base, and nothing else changes (the base register is
/// assumed not to be in the list).
#[verifier::rlimit(100)]
#[verifier::spinoff_prover]
pub proof fn lemma_do_stmia_effect(s: CpuView, rb: Register, regs: Seq<Register>)
    requires
        is_low_reg(rb),
        all_low(regs),
        !regs.contains(rb),
        s.reg(rb) + 4 * regs.len() <= s.mem.len(),
        s.reg(rb) + 4 * regs.len() < 0x1_0000_0000,
    ensures
        ({
            let t = do_stmia(s, rb, regs);
            &&& t.reg(rb) == s.reg(rb) + 4 * regs.len()
            &&& forall|r: Register|
                is_low_reg(r) && r != rb ==> #[trigger] t.reg(r) == s.reg(r)
            &&& t.sp == s.sp && t.lr == s.lr
            &&& same_frame(s, t)
            &&& t.mem.len() == s.mem.len()
            &&& forall|i: int|
                0 <= i < regs.len() ==> word_at(t.mem, s.reg(rb) + 4 * i) == s.reg(
                    #[trigger] regs[i],
                )
            &&& forall|a: int|
                0 <= a < s.mem.len() && !(s.reg(rb) <= a < s.reg(rb) + 4 * regs.len())
                    ==> t.mem[a] == s.mem[a]
        }),
    decreases regs.len(),
{
    if regs.len() > 0 {
        let rest = regs.drop_last();
        lemma_do_stmia_effect(s, rb, rest);
        let inner = do_stmia(s, rb, rest);
        let t = do_stmia(s, rb, regs);
        let last = regs.last();
        assert(rest.len() == regs.len() - 1);
        assert(forall|i: int| 0 <= i < rest.len() ==> rest[i] == regs[i]);
        assert(is_low_reg(last)) by {
            assert(regs[regs.len() - 1] == last);
        }
        assert(!rest.contains(rb)) by {
            if rest.contains(rb) {
                let k = choose|k: int| 0 <= k < rest.len() && rest[k] == rb;
                assert(regs[k] == rb);
                assert(regs.contains(rb));
            }
        }
        assert(last != rb) by {
            assert(regs[regs.len() - 1] == last);
            if last == rb {
                assert(regs.contains(rb));
            }
        }
        let slot = s.reg(rb) + 4 * rest.len();
        assert(inner.reg(rb) == slot);
        assert(inner.reg(last) == s.reg(last));
        lemma_store_word_at(inner.mem, slot, inner.reg(last));
        assert forall|i: int| 0 <= i < regs.len() implies word_at(t.mem, s.reg(rb) + 4 * i)
            == s.reg(#[trigger] regs[i]) by {
            if i < regs.len() - 1 {
                assert(word_at(inner.mem, s.reg(rb) + 4 * i) == s.reg(rest[i]));
                assert(word_at(t.mem, s.reg(rb) + 4 * i) == word_at(inner.mem, s.reg(rb) + 4 * i));
            } else {
                assert(word_at(t.mem, slot) == inner.reg(last));
            }
        }
        assert forall|r: Register|
            is_low_reg(r) && r != rb implies #[trigger] t.reg(r) == s.reg(r) by {
            assert(inner.reg(r) == s.reg(r));
        }
    }
}

/// The effect of a load-multiple: the base register advances by one word
/// per listed register, the i-th listed register receives the word i slots
/// above the old base, and the memory is unchanged (the base register is
/// assumed not to be in the list).
#[verifier::rlimit(100)]
#[verifier::spinoff_prover]
pub proof fn lemma_do_ldmia_effect(s: CpuView, rb: Register, regs: Seq<Register>)
    requires
        is_low_reg(rb),
        all_low(regs),
        regs_distinct(regs),
        !regs.contains(rb),
        s.reg(rb) + 4 * regs.len() <= s.mem.len(),
        s.reg(rb) + 4 * regs.len() < 0x1_0000_0000,
    ensures
        ({
            let t = do_ldmia(s, rb, regs);
            &&& t.reg(rb) == s.reg(rb) + 4 * regs.len()
            &&& t.mem == s.mem
            &&& same_frame(s, t)
            &&& t.sp == s.sp && t.lr == s.lr
            &&& forall|r: Register|
                is_low_reg(r) && r != rb && !regs.contains(r) ==> #[trigger] t.reg(r) == s.reg(r)
            &&& forall|i: int|
                0 <= i < regs.len() ==> t.reg(#[trigger] regs[i]) == word_at(
                    s.mem,
                    s.reg(rb) + 4 * i,
                )
        }),
    decreases regs.len(),
{
    if regs.len() > 0 {
        let rest = regs.drop_last();
        lemma_do_ldmia_effect(s, rb, rest);
        let inner = do_ldmia(s, rb, rest);
        let t = do_ldmia(s, rb, regs);
        let last = regs.last();
        assert(is_low_reg(last)) by {
            assert(regs[regs.len() - 1] == last);
        }
        assert(!rest.contains(rb)) by {
            if rest.contains(rb) {
                let k = choose|k: int| 0 <= k < rest.len() && rest[k] == rb;
                assert(regs[k] == rb);
                assert(regs.contains(rb));
            }
        }
        assert(last != rb) by {
            assert(regs[regs.len() - 1] == last);
            if last == rb {
                assert(regs.contains(rb));
            }
        }
        assert forall|i: int| 0 <= i < regs.len() implies t.reg(#[trigger] regs[i]) == word_at(
            s.mem,
            s.reg(rb) + 4 * i,
        ) by {
            if i < regs.len() - 1 {
                assert(regs[i] == rest[i]);
                assert(rest.contains(rest[i]));
                assert(regs[i] != last);
            }
        }
        assert forall|r: Register|
            is_low_reg(r) && r != rb && !regs.contains(r) implies #[trigger] t.reg(r) == s.reg(r) by {
            assert(!rest.contains(r)) by {
                if rest.contains(r) {
                    let k = choose|k: int| 0 <= k < rest.len() && rest[k] == r;
                    assert(regs[k] == r);
                }
            }
            assert(r != last);
            assert(inner.reg(r) == s.reg(r));
        }
    }
}

/// Executing a multiple load/store moves the base register to base + 4
/// times the list length, and transfers each listed register at its
/// sequential word offset 0, 4, 8, ... in list order: a store lays the
/// register values out from the old base upward, a load reads them from
/// there (stated for a base register outside the list).
pub proof fn lemma_multiple_load_store(s: CpuView, rb: Register, mask: u16)
    requires
        s.wf(),
        is_low_reg(rb),
        !spec_rlist(mask).contains(rb),
        s.reg(rb) + 4 * spec_rlist(mask).len() <= s.mem.len(),
    ensures
        ({
            let regs = spec_rlist(mask);
            let base = s.reg(rb);
            &&& sem_thumb_multls(s, ThumbMultLSOp::STMIA, rb, regs) matches StepOutcome::Next(t)
                && t.reg(rb) == base + 4 * regs.len()
                && (forall|i: int|
                    0 <= i < regs.len() ==> word_at(t.mem, base + 4 * i) == s.reg(
                        #[trigger] regs[i],
                    ))
            &&& sem_thumb_multls(s, ThumbMultLSOp::LDMIA, rb, regs) matches StepOutcome::Next(u)
                && u.reg(rb) == base + 4 * regs.len()
                && (forall|i: int|
                    0 <= i < regs.len() ==> u.reg(#[trigger] regs[i]) == word_at(
                        s.mem,
                        base + 4 * i,
                    ))
        }),
{
    lemma_rlist_wf(mask);
    let regs = spec_rlist(mask);
    lemma_do_stmia_effect(s, rb, regs);
    lemma_do_ldmia_effect(s, rb, regs);
    let t0 = do_stmia(s, rb, regs);
    let u0 = do_ldmia(s, rb, regs);
    assert(t0.with_pc(wadd(t0.pc, 2)).reg(rb) == t0.reg(rb));
    assert(u0.with_pc(wadd(u0.pc, 2)).reg(rb) == u0.reg(rb));
}

} // verus!
