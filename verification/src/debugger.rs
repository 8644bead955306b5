//! The debugger core: breakpoints, the run-until-break control atop the
//! engine's step operation, and the verified parser of the line-command
//! surface (quit, print, run, next, log toggles, memory inspection and
//! breakpoints with hexadecimal addresses).

use vstd::prelude::*;

use crate::common::EResult;
use crate::cpu::Cpu;
use crate::model::LOAD_ADDR;

verus! {

/// One line-command of the debugger surface. Commands with an address
/// argument carry it already parsed from hexadecimal.
#[derive(Debug, Clone, Copy, PartialEq, Eq, Structural)]
pub enum Command {
    /// quit / exit: leave the debugger.
    Quit,
    /// print: dump the full register and flag state.
    Print,
    /// run: step until a breakpoint or a failure.
    Run,
    /// next: single step.
    Next,
    /// logon: enable per-instruction diagnostics.
    LogOn,
    /// logoff: disable per-instruction diagnostics.
    LogOff,
    /// value <hex-address>: read and report a 32-bit word.
    Value(u32),
    /// break <hex-address>: absolute breakpoint.
    Break(u32),
    /// rbreak <hex-address>: breakpoint relative to the load address.
    RelBreak(u32),
    /// Anything else.
    Unknown,
}

/// The numeric value of a hexadecimal digit byte, or -1.
pub open spec fn hex_digit(c: u8) -> int {
    if '0' as u8 <= c <= '9' as u8 {
        c - ('0' as u8)
    } else if 'a' as u8 <= c <= 'f' as u8 {
        c - ('a' as u8) + 10
    } else if 'A' as u8 <= c <= 'F' as u8 {
        c - ('A' as u8) + 10
    } else {
        -1
    }
}

/// The 32-bit value of a hexadecimal digit string: every byte a digit, the
/// string non-empty, and the value within 32 bits; otherwise nothing.
pub open spec fn hex_value(s: Seq<u8>) -> Option<u32>
    decreases s.len(),
{
    if s.len() == 0 {
        None
    } else if s.len() == 1 {
        if hex_digit(s[0]) >= 0 {
            Some(hex_digit(s[0]) as u32)
        } else {
            None
        }
    } else {
        match hex_value(s.drop_last()) {
            None => None,
            Some(v) => {
                let d = hex_digit(s.last());
                if d < 0 {
                    None
                } else if v > 0x0FFF_FFFF {
                    None
                } else {
                    Some((16 * v + d) as u32)
                }
            },
        }
    }
}

/// A hexadecimal string with an unusable prefix has no value itself.
proof fn lemma_hex_value_prefix_none(s: Seq<u8>, n: int)
    requires
        0 < n <= s.len(),
        hex_value(s.subrange(0, n)) is None,
    ensures
        hex_value(s) is None,
    decreases s.len() - n,
{
    if n < s.len() {
        assert(s.subrange(0, n + 1).drop_last() =~= s.subrange(0, n));
        lemma_hex_value_prefix_none(s, n + 1);
    } else {
        assert(s.subrange(0, n) =~= s);
    }
}

/// The index of the first non-space byte at or after `i`.
pub open spec fn skip_spaces(s: Seq<u8>, i: int) -> int
    recommends
        0 <= i <= s.len(),
    decreases s.len() - i,
{
    if i < s.len() && s[i] == ' ' as u8 {
        skip_spaces(s, i + 1)
    } else {
        i
    }
}

/// The index just past the token that starts at `i` (the first space byte
/// at or after `i`, or the end).
pub open spec fn token_end(s: Seq<u8>, i: int) -> int
    recommends
        0 <= i <= s.len(),
    decreases s.len() - i,
{
    if i < s.len() && s[i] != ' ' as u8 {
        token_end(s, i + 1)
    } else {
        i
    }
}

/// The hexadecimal value of the token that follows position `from` (after
/// any spaces), if there is one and it parses.
pub open spec fn spec_arg_value(s: Seq<u8>, from: int) -> Option<u32>
    recommends
        0 <= from <= s.len(),
{
    let a = skip_spaces(s, from);
    let b = token_end(s, a);
    hex_value(s.subrange(a, b))
}

/// The command a trimmed input line denotes.
pub open spec fn spec_parse_command(s: Seq<u8>) -> Command {
    if s =~= seq!['q' as u8] || s =~= seq!['q' as u8, 'u' as u8, 'i' as u8, 't' as u8] || s
        =~= seq!['e' as u8, 'x' as u8, 'i' as u8, 't' as u8] {
        Command::Quit
    } else if s =~= seq!['p' as u8] || s =~= seq![
        'p' as u8,
        'r' as u8,
        'i' as u8,
        'n' as u8,
        't' as u8,
    ] {
        Command::Print
    } else if s =~= seq!['r' as u8] || s =~= seq!['r' as u8, 'u' as u8, 'n' as u8] {
        Command::Run
    } else if s =~= seq!['n' as u8] || s =~= seq!['n' as u8, 'e' as u8, 'x' as u8, 't' as u8] {
        Command::Next
    } else if s =~= seq!['l' as u8, 'o' as u8, 'g' as u8, 'o' as u8, 'n' as u8] {
        Command::LogOn
    } else if s =~= seq!['l' as u8, 'o' as u8, 'g' as u8, 'o' as u8, 'f' as u8, 'f' as u8] {
        Command::LogOff
    } else if s.len() >= 2 && s[0] == 'v' as u8 && s[1] == ' ' as u8 {
        match spec_arg_value(s, 2) {
            Some(v) => Command::Value(v),
            None => Command::Unknown,
        }
    } else if s.len() >= 6 && s[0] == 'v' as u8 && s[1] == 'a' as u8 && s[2] == 'l' as u8 && s[3]
        == 'u' as u8 && s[4] == 'e' as u8 && s[5] == ' ' as u8 {
        match spec_arg_value(s, 6) {
            Some(v) => Command::Value(v),
            None => Command::Unknown,
        }
    } else if s.len() >= 2 && s[0] == 'b' as u8 && s[1] == ' ' as u8 {
        match spec_arg_value(s, 2) {
            Some(v) => Command::Break(v),
            None => Command::Unknown,
        }
    } else if s.len() >= 6 && s[0] == 'b' as u8 && s[1] == 'r' as u8 && s[2] == 'e' as u8 && s[3]
        == 'a' as u8 && s[4] == 'k' as u8 && s[5] == ' ' as u8 {
        match spec_arg_value(s, 6) {
            Some(v) => Command::Break(v),
            None => Command::Unknown,
        }
    } else if s.len() >= 3 && s[0] == 'r' as u8 && s[1] == 'b' as u8 && s[2] == ' ' as u8 {
        match spec_arg_value(s, 3) {
            Some(v) => Command::RelBreak(v),
            None => Command::Unknown,
        }
    } else if s.len() >= 7 && s[0] == 'r' as u8 && s[1] == 'b' as u8 && s[2] == 'r' as u8 && s[3]
        == 'e' as u8 && s[4] == 'a' as u8 && s[5] == 'k' as u8 && s[6] == ' ' as u8 {
        match spec_arg_value(s, 7) {
            Some(v) => Command::RelBreak(v),
            None => Command::Unknown,
        }
    } else {
        Command::Unknown
    }
}

/// Parse the hexadecimal token that follows position `from` (skipping
/// spaces first).
fn parse_arg_value(s: &[u8], from: usize) -> (r: Option<u32>)
    requires
        from <= s@.len(),
    ensures
        r == spec_arg_value(s@, from as int),
{
    let n = s.len();
    let mut a = from;
    while a < n && s[a] == ' ' as u8
        invariant
            from <= a <= n,
            n == s@.len(),
            skip_spaces(s@, from as int) == skip_spaces(s@, a as int),
        decreases n - a,
    {
        a += 1;
    }
    let mut b = a;
    while b < n && s[b] != ' ' as u8
        invariant
            a <= b <= n,
            n == s@.len(),
            token_end(s@, a as int) == token_end(s@, b as int),
        decreases n - b,
    {
        b += 1;
    }
    let ghost tok = s@.subrange(a as int, b as int);
    if a == b {
        return None;
    }
    let mut value: u32 = 0;
    let mut i = a;
    while i < b
        invariant
            a <= i <= b <= n,
            n == s@.len(),
            i > a ==> hex_value(s@.subrange(a as int, i as int)) == Some(value),
            i == a ==> value == 0,
            tok == s@.subrange(a as int, b as int),
            a < b,
            a == skip_spaces(s@, from as int),
            b == token_end(s@, a as int),
            from <= a,
        decreases b - i,
    {
        let c = s[i];
        let d: u32 = if '0' as u8 <= c && c <= '9' as u8 {
            (c - '0' as u8) as u32
        } else if 'a' as u8 <= c && c <= 'f' as u8 {
            (c - 'a' as u8) as u32 + 10
        } else if 'A' as u8 <= c && c <= 'F' as u8 {
            (c - 'A' as u8) as u32 + 10
        } else {
            proof {
                assert(s@.subrange(a as int, i + 1).drop_last() =~= s@.subrange(
                    a as int,
                    i as int,
                ));
                assert(hex_value(s@.subrange(a as int, i + 1)) is None);
                assert(tok.subrange(0, i + 1 - a) =~= s@.subrange(a as int, i + 1));
                lemma_hex_value_prefix_none(tok, i + 1 - a);
            }
            return None;
        };
        if value > 0x0FFF_FFFF {
            proof {
                assert(s@.subrange(a as int, i + 1).drop_last() =~= s@.subrange(
                    a as int,
                    i as int,
                ));
                assert(hex_value(s@.subrange(a as int, i + 1)) is None);
                assert(tok.subrange(0, i + 1 - a) =~= s@.subrange(a as int, i + 1));
                lemma_hex_value_prefix_none(tok, i + 1 - a);
            }
            return None;
        }
        proof {
            assert(s@.subrange(a as int, i + 1).drop_last() =~= s@.subrange(a as int, i as int));
        }
        value = 16 * value + d;
        i += 1;
    }
    proof {
        assert(s@.subrange(a as int, b as int) == tok);
    }
    Some(value)
}

/// Parse one trimmed line of the debugger command surface.
pub fn parse_command(s: &[u8]) -> (r: Command)
    ensures
        r == spec_parse_command(s@),
{
    let n = s.len();
    if n == 1 && s[0] == 'q' as u8 || n == 4 && s[0] == 'q' as u8 && s[1] == 'u' as u8 && s[2]
        == 'i' as u8 && s[3] == 't' as u8 || n == 4 && s[0] == 'e' as u8 && s[1] == 'x' as u8
        && s[2] == 'i' as u8 && s[3] == 't' as u8 {
        Command::Quit
    } else if n == 1 && s[0] == 'p' as u8 || n == 5 && s[0] == 'p' as u8 && s[1] == 'r' as u8
        && s[2] == 'i' as u8 && s[3] == 'n' as u8 && s[4] == 't' as u8 {
        Command::Print
    } else if n == 1 && s[0] == 'r' as u8 || n == 3 && s[0] == 'r' as u8 && s[1] == 'u' as u8
        && s[2] == 'n' as u8 {
        Command::Run
    } else if n == 1 && s[0] == 'n' as u8 || n == 4 && s[0] == 'n' as u8 && s[1] == 'e' as u8
        && s[2] == 'x' as u8 && s[3] == 't' as u8 {
        Command::Next
    } else if n == 5 && s[0] == 'l' as u8 && s[1] == 'o' as u8 && s[2] == 'g' as u8 && s[3]
        == 'o' as u8 && s[4] == 'n' as u8 {
        Command::LogOn
    } else if n == 6 && s[0] == 'l' as u8 && s[1] == 'o' as u8 && s[2] == 'g' as u8 && s[3]
        == 'o' as u8 && s[4] == 'f' as u8 && s[5] == 'f' as u8 {
        Command::LogOff
    } else if n >= 2 && s[0] == 'v' as u8 && s[1] == ' ' as u8 {
        match parse_arg_value(s, 2) {
            Some(v) => Command::Value(v),
            None => Command::Unknown,
        }
    } else if n >= 6 && s[0] == 'v' as u8 && s[1] == 'a' as u8 && s[2] == 'l' as u8 && s[3]
        == 'u' as u8 && s[4] == 'e' as u8 && s[5] == ' ' as u8 {
        match parse_arg_value(s, 6) {
            Some(v) => Command::Value(v),
            None => Command::Unknown,
        }
    } else if n >= 2 && s[0] == 'b' as u8 && s[1] == ' ' as u8 {
        match parse_arg_value(s, 2) {
            Some(v) => Command::Break(v),
            None => Command::Unknown,
        }
    } else if n >= 6 && s[0] == 'b' as u8 && s[1] == 'r' as u8 && s[2] == 'e' as u8 && s[3]
        == 'a' as u8 && s[4] == 'k' as u8 && s[5] == ' ' as u8 {
        match parse_arg_value(s, 6) {
            Some(v) => Command::Break(v),
            None => Command::Unknown,
        }
    } else if n >= 3 && s[0] == 'r' as u8 && s[1] == 'b' as u8 && s[2] == ' ' as u8 {
        match parse_arg_value(s, 3) {
            Some(v) => Command::RelBreak(v),
            None => Command::Unknown,
        }
    } else if n >= 7 && s[0] == 'r' as u8 && s[1] == 'b' as u8 && s[2] == 'r' as u8 && s[3]
        == 'e' as u8 && s[4] == 'a' as u8 && s[5] == 'k' as u8 && s[6] == ' ' as u8 {
        match parse_arg_value(s, 7) {
            Some(v) => Command::RelBreak(v),
            None => Command::Unknown,
        }
    } else {
        Command::Unknown
    }
}

/// How a run under the debugger resolves: stopped on a breakpoint, stopped
/// by the failure of a step (the state is the one just before the failing
/// step), or the step budget ran out.
pub enum DebugRun {
    Broke(crate::model::CpuView),
    Failed(crate::model::CpuView, crate::model::ErrKind),
    Exhausted(crate::model::CpuView),
}

/// Iterate the machine step under breakpoint control: before each step the
/// program counter is held against the breakpoint list (unless the latch
/// from a just-hit breakpoint is still set); a hit stops the run and any
/// step clears the latch.
#[verifier::opaque]
pub open spec fn spec_debug_run(
    cpu: crate::model::CpuView,
    breaks: Seq<u32>,
    latch: bool,
    fuel: nat,
) -> DebugRun
    decreases fuel,
{
    if fuel == 0 {
        DebugRun::Exhausted(cpu)
    } else if !latch && breaks.contains(cpu.pc) {
        DebugRun::Broke(cpu)
    } else {
        match crate::model::spec_step(cpu) {
            crate::model::StepOutcome::Fail(k) => DebugRun::Failed(cpu, k),
            crate::model::StepOutcome::Next(v) => spec_debug_run(
                v,
                breaks,
                false,
                (fuel - 1) as nat,
            ),
        }
    }
}

/// The debugger: owns the engine, a breakpoint list, and the latch that
/// keeps a hit breakpoint from re-triggering before the next step.
pub struct Debugger {
    pub cpu: Cpu,
    /// Set when a breakpoint was just hit; cleared by the next step.
    pub on_break: bool,
    /// The breakpoint addresses.
    pub breaks: Vec<u32>,
}

impl Debugger {
    /// Take ownership of an engine, with no breakpoints set.
    pub fn new(cpu: Cpu) -> (r: Debugger)
        ensures
            r.cpu == cpu,
            r.on_break == false,
            r.breaks@ == Seq::<u32>::empty(),
    {
        Debugger { cpu, on_break: false, breaks: Vec::new() }
    }

    /// Load the program bytes into the engine.
    pub fn initialize(&mut self, bytes: &[u8])
        requires
            old(self).cpu.wf(),
            bytes@.len() <= 0x0800_0000,
        ensures
            final(self).cpu.wf(),
            final(self).cpu@ == (crate::model::CpuView {
                pc: LOAD_ADDR,
                lr: LOAD_ADDR,
                mem: crate::bits::load_bytes(old(self).cpu@.mem, LOAD_ADDR as int, bytes@),
                ..old(self).cpu@
            }),
            final(self).on_break == old(self).on_break,
            final(self).breaks@ == old(self).breaks@,
    {
        self.cpu.initialize_cpu(bytes);
    }

    /// Add an absolute breakpoint.
    pub fn add_break(&mut self, addr: u32)
        ensures
            final(self).breaks@ == old(self).breaks@.push(addr),
            final(self).cpu == old(self).cpu,
            final(self).on_break == old(self).on_break,
    {
        self.breaks.push(addr);
    }

    /// Add a breakpoint relative to the fixed program-load base.
    pub fn add_relative_break(&mut self, addr: u32)
        ensures
            final(self).breaks@ == old(self).breaks@.push(LOAD_ADDR | addr),
            final(self).cpu == old(self).cpu,
            final(self).on_break == old(self).on_break,
    {
        self.breaks.push(LOAD_ADDR | addr);
    }

    /// Whether a breakpoint is set on `addr`.
    fn has_break(&self, addr: u32) -> (r: bool)
        ensures
            r == self.breaks@.contains(addr),
    {
        let n = self.breaks.len();
        let mut i: usize = 0;
        while i < n
            invariant
                i <= n,
                n == self.breaks@.len(),
                forall|j: int| 0 <= j < i ==> self.breaks@[j] != addr,
            decreases n - i,
        {
            if self.breaks[i] == addr {
                return true;
            }
            i += 1;
        }
        false
    }

    /// Single step: clears the break latch and executes one instruction.
    pub fn next(&mut self) -> (r: EResult<()>)
        requires
            old(self).cpu.wf(),
        ensures
            final(self).cpu.wf(),
            final(self).breaks@ == old(self).breaks@,
            final(self).on_break == false,
            crate::model::step_matches(
                old(self).cpu@,
                final(self).cpu@,
                r,
                crate::model::spec_step(old(self).cpu@),
            ),
    {
        self.on_break = false;
        self.cpu.execute_next()
    }

    /// Step repeatedly until the program counter matches a breakpoint (the
    /// break latch is then set, so a following run moves past it), a step
    /// fails, or the step budget runs out.
    pub fn run(&mut self, max_steps: u64) -> (r: EResult<()>)
        requires
            old(self).cpu.wf(),
        ensures
            final(self).cpu.wf(),
            final(self).breaks@ == old(self).breaks@,
            (match spec_debug_run(
                old(self).cpu@,
                old(self).breaks@,
                old(self).on_break,
                max_steps as nat,
            ) {
                DebugRun::Broke(v) => r is Ok && final(self).cpu@ == v && final(self).on_break
                    && final(self).breaks@.contains(v.pc),
                DebugRun::Failed(v, k) => r matches Err(e) && crate::model::err_matches(e, k)
                    && final(self).cpu@ == v && !final(self).on_break,
                DebugRun::Exhausted(v) => r is Ok && final(self).cpu@ == v && final(self).on_break
                    == (max_steps == 0 && old(self).on_break),
            }),
    {
        let ghost full = spec_debug_run(
            old(self).cpu@,
            old(self).breaks@,
            old(self).on_break,
            max_steps as nat,
        );
        let mut steps: u64 = max_steps;
        while steps > 0
            invariant
                self.cpu.wf(),
                self.breaks@ == old(self).breaks@,
                steps <= max_steps,
                steps < max_steps ==> !self.on_break,
                steps == max_steps ==> self.on_break == old(self).on_break,
                full == spec_debug_run(
                    old(self).cpu@,
                    old(self).breaks@,
                    old(self).on_break,
                    max_steps as nat,
                ),
                full == spec_debug_run(self.cpu@, self.breaks@, self.on_break, steps as nat),
            decreases steps,
        {
            let ghost pre = self.cpu@;
            let ghost latch = self.on_break;
            let ghost fuel = steps as nat;
            if !self.on_break && self.has_break(self.cpu.pc) {
                self.on_break = true;
                proof {
                    reveal(spec_debug_run);
                    assert(spec_debug_run(pre, self.breaks@, latch, fuel) == DebugRun::Broke(pre));
                }
                return Ok(());
            }
            self.on_break = false;
            let res = self.cpu.execute_next();
            if let Err(e) = res {
                proof {
                    reveal(spec_debug_run);
                    assert(spec_debug_run(pre, self.breaks@, latch, fuel) matches DebugRun::Failed(
                        v,
                        k,
                    ) && v == pre && crate::model::err_matches(e, k));
                }
                return Err(e);
            }
            proof {
                reveal(spec_debug_run);
                assert(spec_debug_run(pre, self.breaks@, latch, fuel) == spec_debug_run(
                    self.cpu@,
                    self.breaks@,
                    false,
                    (fuel - 1) as nat,
                ));
            }
            steps = steps - 1;
        }
        proof {
            reveal(spec_debug_run);
            assert(spec_debug_run(self.cpu@, self.breaks@, self.on_break, 0) == DebugRun::Exhausted(
                self.cpu@,
            ));
        }
        Ok(())
    }
}

} // verus!
