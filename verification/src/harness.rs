//! The state-level part of the trace-test harness.
//!
//! A corpus case gives an initial register/memory state, and the final state
//! after exactly one instruction.  [`run_case`] builds a CPU from the
//! initial state, completes one instruction, and compares every register and
//! every listed memory cell, reporting the first difference in the order the
//! fields are checked.  Reading and decoding the JSON that carries the cases
//! is input handling and stays outside the library.

use vstd::prelude::*;

use crate::cpu::{Cpu, Flag};
use crate::model::{flag_get, wf, CpuModel};
use crate::table::{decode, spec_decode, spec_exec_instr, Op};

verus! {

/// One side of a corpus case: the six register fields and a list of
/// `(address, byte)` memory cells, in the order the corpus gives them.
pub struct CaseState {
    pub pc: u16,
    pub s: u8,
    pub a: u8,
    pub x: u8,
    pub y: u8,
    pub p: u8,
    pub ram: Vec<(u16, u8)>,
}

/// Ghost mirror of a case side.
pub ghost struct CaseView {
    pub pc: u16,
    pub s: u8,
    pub a: u8,
    pub x: u8,
    pub y: u8,
    pub p: u8,
    pub ram: Seq<(u16, u8)>,
}

impl View for CaseState {
    type V = CaseView;

    open spec fn view(&self) -> CaseView {
        CaseView {
            pc: self.pc,
            s: self.s,
            a: self.a,
            x: self.x,
            y: self.y,
            p: self.p,
            ram: self.ram@,
        }
    }
}

/// The register a mismatch was found in.
#[derive(Clone, Copy, Debug, PartialEq, Eq, Structural)]
pub enum RegName {
    Pc,
    Sp,
    A,
    X,
    Y,
    P,
}

/// The verdict on one corpus case: a pass, or the first field that
/// differed, with the value the CPU produced and the value the case
/// expected.
#[derive(Clone, Copy, Debug, PartialEq, Eq, Structural)]
pub enum CaseOutcome {
    Pass,
    RegMismatch { reg: RegName, got: u16, want: u16 },
    RamMismatch { addr: u16, got: u8, want: u8 },
}

/// All-zero memory.
pub open spec fn zero_mem() -> Seq<u8> {
    Seq::new(0x10000, |i: int| 0u8)
}

/// Memory after the case's `(address, byte)` writes, applied in order (a
/// later write to the same address wins).
pub open spec fn apply_ram(mem: Seq<u8>, ram: Seq<(u16, u8)>) -> Seq<u8>
    decreases ram.len(),
{
    if ram.len() == 0 {
        mem
    } else {
        apply_ram(mem, ram.drop_last()).update(ram.last().0 as int, ram.last().1)
    }
}

/// The CPU state a case starts from: a power-up CPU with the six registers
/// overwritten and the listed memory cells written.
pub open spec fn case_initial(c: CaseView) -> CpuModel {
    CpuModel {
        pc: c.pc,
        sp: c.s,
        status: c.p,
        a: c.a,
        x: c.x,
        y: c.y,
        cycles: 0,
        addr_abs: 0,
        addr_rel: 0,
        fetched: 0,
        mem: apply_ram(zero_mem(), c.ram),
    }
}

/// The first listed memory cell that differs, in list order.
pub open spec fn check_ram(mem: Seq<u8>, ram: Seq<(u16, u8)>) -> CaseOutcome
    decreases ram.len(),
{
    if ram.len() == 0 {
        CaseOutcome::Pass
    } else if mem[ram[0].0 as int] != ram[0].1 {
        CaseOutcome::RamMismatch { addr: ram[0].0, got: mem[ram[0].0 as int], want: ram[0].1 }
    } else {
        check_ram(mem, ram.drop_first())
    }
}

/// The verdict comparing a final CPU state against a case's final side:
/// registers in the order PC, SP, A, X, Y, P, then the memory cells in list
/// order.
pub open spec fn check_case(mf: CpuModel, fin: CaseView) -> CaseOutcome {
    if mf.pc != fin.pc {
        CaseOutcome::RegMismatch { reg: RegName::Pc, got: mf.pc, want: fin.pc }
    } else if mf.sp != fin.s {
        CaseOutcome::RegMismatch { reg: RegName::Sp, got: mf.sp as u16, want: fin.s as u16 }
    } else if mf.a != fin.a {
        CaseOutcome::RegMismatch { reg: RegName::A, got: mf.a as u16, want: fin.a as u16 }
    } else if mf.x != fin.x {
        CaseOutcome::RegMismatch { reg: RegName::X, got: mf.x as u16, want: fin.x as u16 }
    } else if mf.y != fin.y {
        CaseOutcome::RegMismatch { reg: RegName::Y, got: mf.y as u16, want: fin.y as u16 }
    } else if mf.status != fin.p {
        CaseOutcome::RegMismatch { reg: RegName::P, got: mf.status as u16, want: fin.p as u16 }
    } else {
        check_ram(mf.mem, fin.ram)
    }
}

/// The verdict of a whole case: build the initial state, complete exactly
/// one instruction, compare.
pub open spec fn spec_run_case(init: CaseView, fin: CaseView) -> CaseOutcome {
    check_case(
        CpuModel { cycles: 0, ..spec_exec_instr(case_initial(init)) },
        fin,
    )
}

/// Whether a corpus case must be skipped: its opcode is one of the ADC/SBC
/// family and its initial status has the decimal flag set.  Decimal-mode
/// BCD adjustment is intentionally unimplemented on this NMOS core.
pub open spec fn spec_decimal_mode_skip(opcode: u8, p: u8) -> bool {
    (spec_decode(opcode).op == Op::Adc || spec_decode(opcode).op == Op::Sbc) && flag_get(
        p,
        Flag::Decimal,
    )
}

/// Decide whether a case is an ADC/SBC case run in decimal mode, which the
/// harness skips.
pub fn decimal_mode_skip(opcode: u8, p: u8) -> (r: bool)
    ensures
        r == spec_decimal_mode_skip(opcode, p),
{
    let ins = decode(opcode);
    (matches!(ins.op, Op::Adc) || matches!(ins.op, Op::Sbc)) && (p & 0x08) != 0
}

/// The value of one ASCII hex digit, upper or lower case.
pub open spec fn spec_hex_val(c: u8) -> Option<u8> {
    if 0x30 <= c <= 0x39 {
        Some((c - 0x30) as u8)
    } else if 0x61 <= c <= 0x66 {
        Some((c - 0x61 + 10) as u8)
    } else if 0x41 <= c <= 0x46 {
        Some((c - 0x41 + 10) as u8)
    } else {
        None
    }
}

/// A byte written as two ASCII hex digits, high digit first.
pub open spec fn spec_parse_hex_byte(c1: u8, c2: u8) -> Option<u8> {
    match (spec_hex_val(c1), spec_hex_val(c2)) {
        (Some(h), Some(l)) => Some((h * 16 + l) as u8),
        _ => None,
    }
}

/// The value of one ASCII hex digit, upper or lower case.
pub fn hex_val(c: u8) -> (r: Option<u8>)
    ensures
        r == spec_hex_val(c),
{
    if 0x30 <= c && c <= 0x39 {
        Some(c - 0x30)
    } else if 0x61 <= c && c <= 0x66 {
        Some(c - 0x61 + 10)
    } else if 0x41 <= c && c <= 0x46 {
        Some(c - 0x41 + 10)
    } else {
        None
    }
}

/// Parse a byte from two ASCII hex digits, high digit first: the opcode
/// prefix of a corpus case name.
pub fn parse_hex_byte(c1: u8, c2: u8) -> (r: Option<u8>)
    ensures
        r == spec_parse_hex_byte(c1, c2),
{
    match (hex_val(c1), hex_val(c2)) {
        (Some(h), Some(l)) => Some(h * 16 + l),
        _ => None,
    }
}

/// Compare a finished CPU state against a case's final side: registers in
/// the order PC, SP, A, X, Y, P, then the listed memory cells in order;
/// report the first difference.
fn compare_case(cpu: &Cpu, fin: &CaseState) -> (r: CaseOutcome)
    requires
        wf(cpu@),
    ensures
        r == check_case(cpu@, fin@),
{
    if cpu.pc != fin.pc {
        return CaseOutcome::RegMismatch { reg: RegName::Pc, got: cpu.pc, want: fin.pc };
    }
    if cpu.sp != fin.s {
        return CaseOutcome::RegMismatch { reg: RegName::Sp, got: cpu.sp as u16, want: fin.s as u16 };
    }
    if cpu.a != fin.a {
        return CaseOutcome::RegMismatch { reg: RegName::A, got: cpu.a as u16, want: fin.a as u16 };
    }
    if cpu.x != fin.x {
        return CaseOutcome::RegMismatch { reg: RegName::X, got: cpu.x as u16, want: fin.x as u16 };
    }
    if cpu.y != fin.y {
        return CaseOutcome::RegMismatch { reg: RegName::Y, got: cpu.y as u16, want: fin.y as u16 };
    }
    if cpu.status != fin.p {
        return CaseOutcome::RegMismatch {
            reg: RegName::P,
            got: cpu.status as u16,
            want: fin.p as u16,
        };
    }
    let k = fin.ram.len();
    let mut j: usize = 0;
    proof {
        assert(fin@.ram.skip(0) =~= fin@.ram);
    }
    while j < k
        invariant
            k == fin.ram.len(),
            j <= k,
            wf(cpu@),
            check_case(cpu@, fin@) == check_ram(cpu@.mem, fin@.ram.skip(j as int)),
        decreases k - j,
    {
        let (addr, want) = fin.ram[j];
        let got = cpu.read(addr);
        proof {
            assert(fin@.ram.skip(j as int)[0] == fin@.ram[j as int]);
            assert(fin@.ram.skip(j as int).drop_first() =~= fin@.ram.skip(j + 1));
        }
        if got != want {
            return CaseOutcome::RamMismatch { addr, got, want };
        }
        j = j + 1;
    }
    proof {
        assert(fin@.ram.skip(k as int) =~= Seq::<(u16, u8)>::empty());
    }
    CaseOutcome::Pass
}

/// Run one corpus case: build a power-up CPU, overwrite the six registers
/// from the initial side, write its memory cells, complete exactly one
/// instruction, and compare every register and listed cell of the final
/// side, in order.
#[verifier::rlimit(100)]
pub fn run_case(initial: &CaseState, fin: &CaseState) -> (r: CaseOutcome)
    ensures
        r == spec_run_case(initial@, fin@),
{
    let mut cpu = Cpu::new();
    cpu.pc = initial.pc;
    cpu.sp = initial.s;
    cpu.a = initial.a;
    cpu.x = initial.x;
    cpu.y = initial.y;
    cpu.status = initial.p;
    proof {
        assert(cpu@.mem =~= zero_mem());
        assert(initial@.ram.take(0) =~= Seq::<(u16, u8)>::empty());
        assert(cpu@ =~= (CpuModel {
            mem: apply_ram(zero_mem(), initial@.ram.take(0)),
            ..case_initial(initial@)
        }));
    }
    let n = initial.ram.len();
    let mut i: usize = 0;
    while i < n
        invariant
            n == initial.ram.len(),
            i <= n,
            wf(cpu@),
            cpu@ == (CpuModel {
                mem: apply_ram(zero_mem(), initial@.ram.take(i as int)),
                ..case_initial(initial@)
            }),
        decreases n - i,
    {
        let (addr, value) = initial.ram[i];
        cpu.write(addr, value);
        proof {
            assert(initial@.ram.take(i + 1).drop_last() =~= initial@.ram.take(i as int));
            assert(initial@.ram.take(i + 1).last() == initial@.ram[i as int]);
            assert(cpu@ =~= (CpuModel {
                mem: apply_ram(zero_mem(), initial@.ram.take(i + 1)),
                ..case_initial(initial@)
            }));
        }
        i = i + 1;
    }
    proof {
        assert(initial@.ram.take(n as int) =~= initial@.ram);
        assert(cpu@ =~= case_initial(initial@));
    }
    cpu.step_instruction();
    compare_case(&cpu, fin)
}

} // verus!
