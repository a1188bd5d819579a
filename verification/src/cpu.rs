//! The processor state and its basic operations: flag access, stack access,
//! memory access, the addressing modes, and the tick engine.

use vstd::prelude::*;

use crate::model::{
    advance1, flag_clear_mask, flag_get, flag_mask, flag_set, mem_at, spec_abs, spec_absx,
    spec_absx_extra, spec_absy, spec_absy_extra, spec_fetch, spec_imm, spec_ind, spec_izx,
    spec_izy, spec_izy_extra, spec_pull, spec_push, spec_rel, spec_zp0, spec_zpx, spec_zpy,
    stack_addr, wf, wrap8, CpuModel,
};
use crate::table::{
    decode, lemma_mode_frame, lemma_op_cycles, spec_apply_mode, spec_apply_op, spec_exec_instr,
    spec_step, Mode, Op,
};

verus! {

/// The eight flags of the status register `P`, bit 0 (carry) through bit 7
/// (negative).  Bit 5 (unused) always reads as 1 on real hardware; bit 4
/// (break) exists only in bytes pushed to the stack.
#[derive(Clone, Copy, Debug, PartialEq, Eq, Structural)]
pub enum Flag {
    Carry,
    Zero,
    InterruptDisable,
    Decimal,
    Break,
    Unused,
    Overflow,
    Negative,
}

/// The 6502 CPU core: registers, cycle budget, per-instruction scratch
/// fields, and a flat 64 KiB memory.
pub struct Cpu {
    /// Program counter (16-bit).
    pub pc: u16,
    /// Stack pointer (8-bit, offset into page `0x0100..=0x01FF`).
    pub sp: u8,
    /// Status register (8-bit).
    pub status: u8,
    /// Accumulator (8-bit).
    pub a: u8,
    /// X index register (8-bit).
    pub x: u8,
    /// Y index register (8-bit).
    pub y: u8,
    /// Idle cycles still owed by the previously decoded instruction.
    pub cycles: u8,
    /// Scratch: effective address computed by the last addressing mode.
    pub addr_abs: u16,
    /// Scratch: sign-extended branch offset of the last relative operand.
    pub addr_rel: i16,
    /// Scratch: last operand byte read through `addr_abs`.
    pub fetched: u8,
    /// 64 KiB of addressable memory, always exactly `0x10000` bytes.
    pub memory: Vec<u8>,
}

impl View for Cpu {
    type V = CpuModel;

    open spec fn view(&self) -> CpuModel {
        CpuModel {
            pc: self.pc,
            sp: self.sp,
            status: self.status,
            a: self.a,
            x: self.x,
            y: self.y,
            cycles: self.cycles,
            addr_abs: self.addr_abs,
            addr_rel: self.addr_rel,
            fetched: self.fetched,
            mem: self.memory@,
        }
    }
}

impl Cpu {
    /// Create a new CPU in the power-up state.
    pub fn new() -> (cpu: Cpu)
        ensures
            wf(cpu@),
            cpu@.pc == 0,
            cpu@.sp == 0xFD,
            cpu@.status == 0x24,
            cpu@.a == 0 && cpu@.x == 0 && cpu@.y == 0,
            cpu@.cycles == 0,
            cpu@.addr_abs == 0 && cpu@.addr_rel == 0 && cpu@.fetched == 0,
            forall|i: int| 0 <= i < 0x10000 ==> cpu@.mem[i] == 0,
    {
        Cpu::default()
    }

    /// Whether a flag is set in the status register.
    pub fn get_flag(&self, flag: Flag) -> (r: bool)
        ensures
            r == flag_get(self@.status, flag),
    {
        self.status & flag_bit(flag) != 0
    }

    /// Force one flag of the status register set (`set == true`) or clear
    /// (`set == false`).
    pub fn set_flag(&mut self, flag: Flag, set: bool)
        ensures
            final(self)@ == (CpuModel { status: flag_set(old(self)@.status, flag, set), ..old(self)@ }),
    {
        if set {
            self.status = self.status | flag_bit(flag);
        } else {
            self.status = self.status & flag_clear_bit(flag);
        }
    }

    /// Read the byte of memory at an address.
    pub fn read(&self, addr: u16) -> (r: u8)
        requires
            wf(self@),
        ensures
            r == mem_at(self@, addr),
    {
        self.memory[addr as usize]
    }

    /// Write a byte of memory at an address.
    pub fn write(&mut self, addr: u16, value: u8)
        requires
            wf(old(self)@),
        ensures
            final(self)@ == (CpuModel { mem: old(self)@.mem.update(addr as int, value), ..old(self)@ }),
    {
        self.memory[addr as usize] = value;
        proof {
            assert(self@ =~= (CpuModel { mem: old(self)@.mem.update(addr as int, value), ..old(self)@ }));
        }
    }

    /// Push a byte: write it at `0x0100 + SP`, then decrement SP, wrapping
    /// within the stack page.
    pub fn push(&mut self, value: u8)
        requires
            wf(old(self)@),
        ensures
            final(self)@ == spec_push(old(self)@, value),
    {
        let addr: u16 = 0x0100 + (self.sp as u16);
        self.memory[addr as usize] = value;
        self.sp = self.sp.wrapping_sub(1);
        proof {
            assert(self@ =~= spec_push(old(self)@, value));
        }
    }

    /// Pull a byte: increment SP, wrapping within the stack page, then read
    /// at `0x0100 + SP`.
    pub fn pull(&mut self) -> (r: u8)
        requires
            wf(old(self)@),
        ensures
            final(self)@ == spec_pull(old(self)@).0,
            r == spec_pull(old(self)@).1,
    {
        self.sp = self.sp.wrapping_add(1);
        let addr: u16 = 0x0100 + (self.sp as u16);
        let r = self.memory[addr as usize];
        proof {
            assert(self@ =~= spec_pull(old(self)@).0);
        }
        r
    }

    /// Immediate mode.  Entered with PC at the opcode byte; the operand's own
    /// address becomes the effective address.
    pub fn imm(&mut self) -> (extra: u8)
        ensures
            final(self)@ == spec_imm(old(self)@),
            extra == 0,
    {
        self.addr_abs = self.pc.wrapping_add(1);
        self.pc = self.pc.wrapping_add(2);
        proof {
            assert(self@ =~= spec_imm(old(self)@));
        }
        0
    }

    /// Zero-page mode.  Entered with PC at the operand byte.
    pub fn zp0(&mut self) -> (extra: u8)
        requires
            wf(old(self)@),
        ensures
            final(self)@ == spec_zp0(old(self)@),
            extra == 0,
    {
        self.addr_abs = self.read(self.pc) as u16;
        self.pc = self.pc.wrapping_add(1);
        proof {
            assert(self@ =~= spec_zp0(old(self)@));
        }
        0
    }

    /// Zero-page,X mode.  Entered with PC at the operand byte; the sum wraps
    /// within the zero page.
    pub fn zpx(&mut self) -> (extra: u8)
        requires
            wf(old(self)@),
        ensures
            final(self)@ == spec_zpx(old(self)@),
            extra == 0,
    {
        let base = self.read(self.pc);
        self.addr_abs = base.wrapping_add(self.x) as u16;
        self.pc = self.pc.wrapping_add(1);
        proof {
            assert(self@ =~= spec_zpx(old(self)@));
        }
        0
    }

    /// Zero-page,Y mode.  Entered with PC at the operand byte; the sum wraps
    /// within the zero page.
    pub fn zpy(&mut self) -> (extra: u8)
        requires
            wf(old(self)@),
        ensures
            final(self)@ == spec_zpy(old(self)@),
            extra == 0,
    {
        let base = self.read(self.pc);
        self.addr_abs = base.wrapping_add(self.y) as u16;
        self.pc = self.pc.wrapping_add(1);
        proof {
            assert(self@ =~= spec_zpy(old(self)@));
        }
        0
    }

    /// Relative mode.  Entered with PC at the operand byte; records the
    /// sign-extended branch offset.
    pub fn rel(&mut self) -> (extra: u8)
        requires
            wf(old(self)@),
        ensures
            final(self)@ == spec_rel(old(self)@),
            extra == 0,
    {
        let raw = self.read(self.pc);
        self.addr_rel = if raw < 0x80 {
            raw as i16
        } else {
            (raw as i16) - 0x100
        };
        self.pc = self.pc.wrapping_add(1);
        proof {
            assert(self@ =~= spec_rel(old(self)@));
        }
        0
    }

    /// Absolute mode.  Entered with PC at the opcode byte; reads a
    /// little-endian 16-bit operand.
    pub fn abs(&mut self) -> (extra: u8)
        requires
            wf(old(self)@),
        ensures
            final(self)@ == spec_abs(old(self)@),
            extra == 0,
    {
        let lo = self.read(self.pc.wrapping_add(1));
        let hi = self.read(self.pc.wrapping_add(2));
        self.addr_abs = (hi as u16) * 0x100 + (lo as u16);
        self.pc = self.pc.wrapping_add(3);
        proof {
            assert(self@ =~= spec_abs(old(self)@));
        }
        0
    }

    /// Absolute,X mode.  Entered with PC at the opcode byte; reports one
    /// extra cycle when indexing crosses a page boundary.
    pub fn absx(&mut self) -> (extra: u8)
        requires
            wf(old(self)@),
        ensures
            final(self)@ == spec_absx(old(self)@),
            extra == spec_absx_extra(old(self)@),
    {
        let lo = self.read(self.pc.wrapping_add(1));
        let hi = self.read(self.pc.wrapping_add(2));
        let base: u16 = (hi as u16) * 0x100 + (lo as u16);
        self.addr_abs = base.wrapping_add(self.x as u16);
        self.pc = self.pc.wrapping_add(3);
        proof {
            assert(self@ =~= spec_absx(old(self)@));
        }
        if base / 0x100 != self.addr_abs / 0x100 {
            1
        } else {
            0
        }
    }

    /// Absolute,Y mode.  Entered with PC at the opcode byte; reports one
    /// extra cycle when indexing crosses a page boundary.
    pub fn absy(&mut self) -> (extra: u8)
        requires
            wf(old(self)@),
        ensures
            final(self)@ == spec_absy(old(self)@),
            extra == spec_absy_extra(old(self)@),
    {
        let lo = self.read(self.pc.wrapping_add(1));
        let hi = self.read(self.pc.wrapping_add(2));
        let base: u16 = (hi as u16) * 0x100 + (lo as u16);
        self.addr_abs = base.wrapping_add(self.y as u16);
        self.pc = self.pc.wrapping_add(3);
        proof {
            assert(self@ =~= spec_absy(old(self)@));
        }
        if base / 0x100 != self.addr_abs / 0x100 {
            1
        } else {
            0
        }
    }

    /// Indirect mode.  Entered with PC at the opcode byte; reproduces the
    /// hardware page-wrap bug: when the pointer's low byte is `0xFF`, the
    /// high byte of the target comes from the start of the pointer's page.
    pub fn ind(&mut self) -> (extra: u8)
        requires
            wf(old(self)@),
        ensures
            final(self)@ == spec_ind(old(self)@),
            extra == 0,
    {
        let lo = self.read(self.pc.wrapping_add(1));
        let hi = self.read(self.pc.wrapping_add(2));
        let ptr: u16 = (hi as u16) * 0x100 + (lo as u16);
        let t_lo = self.read(ptr);
        let t_hi = if lo == 0xFF {
            self.read((hi as u16) * 0x100)
        } else {
            self.read(ptr.wrapping_add(1))
        };
        self.addr_abs = (t_hi as u16) * 0x100 + (t_lo as u16);
        self.pc = self.pc.wrapping_add(3);
        proof {
            assert(self@ =~= spec_ind(old(self)@));
        }
        0
    }

    /// Indexed indirect (zero-page,X) mode.  Entered with PC at the operand
    /// byte; both pointer bytes are read with zero-page wrap.
    pub fn indx(&mut self) -> (extra: u8)
        requires
            wf(old(self)@),
        ensures
            final(self)@ == spec_izx(old(self)@),
            extra == 0,
    {
        let base = self.read(self.pc).wrapping_add(self.x);
        let lo = self.read(base as u16);
        let hi = self.read(base.wrapping_add(1) as u16);
        self.addr_abs = (hi as u16) * 0x100 + (lo as u16);
        self.pc = self.pc.wrapping_add(1);
        proof {
            assert(self@ =~= spec_izx(old(self)@));
        }
        0
    }

    /// Indirect indexed (zero-page),Y mode.  Entered with PC at the operand
    /// byte; reports one extra cycle when adding Y crosses a page boundary.
    pub fn indy(&mut self) -> (extra: u8)
        requires
            wf(old(self)@),
        ensures
            final(self)@ == spec_izy(old(self)@),
            extra == spec_izy_extra(old(self)@),
    {
        let zp = self.read(self.pc);
        let lo = self.read(zp as u16);
        let hi = self.read(zp.wrapping_add(1) as u16);
        let base: u16 = (hi as u16) * 0x100 + (lo as u16);
        self.addr_abs = base.wrapping_add(self.y as u16);
        self.pc = self.pc.wrapping_add(1);
        proof {
            assert(self@ =~= spec_izy(old(self)@));
        }
        if base / 0x100 != self.addr_abs / 0x100 {
            1
        } else {
            0
        }
    }

    /// Latch the byte at the effective address into the `fetched` scratch
    /// register and return it.
    pub fn fetch(&mut self) -> (r: u8)
        requires
            wf(old(self)@),
        ensures
            final(self)@ == spec_fetch(old(self)@),
            r == mem_at(old(self)@, old(self)@.addr_abs),
    {
        self.fetched = self.read(self.addr_abs);
        proof {
            assert(self@ =~= spec_fetch(old(self)@));
        }
        self.fetched
    }

    /// Reset: set interrupt disable, load PC from the reset vector at
    /// `0xFFFC/D`, set SP to `0xFD`, and take seven cycles.
    pub fn reset(&mut self)
        requires
            wf(old(self)@),
        ensures
            final(self)@ == crate::model::spec_reset(old(self)@),
    {
        self.set_flag(Flag::InterruptDisable, true);
        let lo = self.read(0xFFFC);
        let hi = self.read(0xFFFD);
        self.pc = (hi as u16) * 0x100 + (lo as u16);
        self.sp = 0xFD;
        self.cycles = 7;
        proof {
            assert(self@ =~= crate::model::spec_reset(old(self)@));
        }
    }

    /// The shared body of NMI and IRQ: push PC high then low, push the
    /// status with break clear and unused set, set interrupt disable, and
    /// load PC from the vector.
    fn interrupt(&mut self, vector: u16)
        requires
            wf(old(self)@),
            vector < 0xFFFF,
        ensures
            final(self)@ == crate::model::spec_interrupt(old(self)@, vector),
    {
        let pc0 = self.pc;
        self.push((pc0 / 0x100) as u8);
        self.push((pc0 % 0x100) as u8);
        let flags = (self.status | 0x20) & 0xEF;
        self.push(flags);
        self.set_flag(Flag::InterruptDisable, true);
        let lo = self.read(vector);
        let hi = self.read(vector + 1);
        self.pc = (hi as u16) * 0x100 + (lo as u16);
        self.cycles = 7;
        proof {
            assert(self@ =~= crate::model::spec_interrupt(old(self)@, vector));
        }
    }

    /// NMI: non-maskable interrupt entry through the vector at `0xFFFA/B`;
    /// takes seven cycles.
    pub fn nmi(&mut self)
        requires
            wf(old(self)@),
        ensures
            final(self)@ == crate::model::spec_nmi(old(self)@),
    {
        self.interrupt(0xFFFA);
    }

    /// IRQ: maskable interrupt entry through the vector at `0xFFFE/F`;
    /// takes seven cycles, and is suppressed while interrupt disable is set.
    pub fn irq(&mut self)
        requires
            wf(old(self)@),
        ensures
            final(self)@ == crate::model::spec_irq(old(self)@),
    {
        if !self.get_flag(Flag::InterruptDisable) {
            self.interrupt(0xFFFE);
        }
    }

    /// Advance the CPU by one clock tick.  At an instruction boundary
    /// (`cycles == 0`) this fetches the opcode at PC, runs its addressing
    /// mode and handler, and schedules the instruction's cycle count; the
    /// tick itself then consumes one cycle.  Inside an instruction it only
    /// consumes one of the owed idle cycles.
    pub fn clock(&mut self)
        requires
            wf(old(self)@),
        ensures
            final(self)@ == spec_step(old(self)@),
            wf(final(self)@),
    {
        if self.cycles == 0 {
            let opcode = self.read(self.pc);
            let instr = decode(opcode);
            let extra: u8 = match instr.mode {
                Mode::Imp => {
                    self.pc = self.pc.wrapping_add(1);
                    proof {
                        assert(self@ =~= advance1(old(self)@));
                    }
                    0
                },
                Mode::Own => { 0 },
                Mode::Imm => self.imm(),
                Mode::Zp0 => {
                    self.pc = self.pc.wrapping_add(1);
                    proof {
                        assert(self@ =~= advance1(old(self)@));
                    }
                    self.zp0()
                },
                Mode::Zpx => {
                    self.pc = self.pc.wrapping_add(1);
                    proof {
                        assert(self@ =~= advance1(old(self)@));
                    }
                    self.zpx()
                },
                Mode::Zpy => {
                    self.pc = self.pc.wrapping_add(1);
                    proof {
                        assert(self@ =~= advance1(old(self)@));
                    }
                    self.zpy()
                },
                Mode::Abs => self.abs(),
                Mode::Abx => self.absx(),
                Mode::Aby => self.absy(),
                Mode::Ind => self.ind(),
                Mode::Izx => {
                    self.pc = self.pc.wrapping_add(1);
                    proof {
                        assert(self@ =~= advance1(old(self)@));
                    }
                    self.indx()
                },
                Mode::Izy => {
                    self.pc = self.pc.wrapping_add(1);
                    proof {
                        assert(self@ =~= advance1(old(self)@));
                    }
                    self.indy()
                },
                Mode::Rel => {
                    self.pc = self.pc.wrapping_add(1);
                    proof {
                        assert(self@ =~= advance1(old(self)@));
                    }
                    self.rel()
                },
            };
            proof {
                lemma_mode_frame(instr.mode, old(self)@);
                assert(self@ == spec_apply_mode(instr.mode, old(self)@).0);
                assert(extra == spec_apply_mode(instr.mode, old(self)@).1);
            }
            let ghost m1 = self@;
            match instr.op {
                Op::Brk => self.brk(),
                Op::Jsr => self.jsr(),
                Op::Rti => self.rti(),
                Op::Rts => self.rts(),
                Op::Lda => self.lda(),
                Op::Ldx => self.ldx(),
                Op::Ldy => self.ldy(),
                Op::Sta => self.sta(),
                Op::Stx => self.stx(),
                Op::Sty => self.sty(),
                Op::Cmp => self.cmp(),
                Op::Cpx => self.cpx(),
                Op::Cpy => self.cpy(),
                Op::Bit => self.bit(),
                Op::Ora => self.ora(),
                Op::And => self.and(),
                Op::Eor => self.eor(),
                Op::Adc => self.adc(),
                Op::Sbc => self.sbc(),
                Op::AslAcc => self.asl_acc(),
                Op::AslMem => self.asl_mem(),
                Op::LsrAcc => self.lsr_acc(),
                Op::LsrMem => self.lsr_mem(),
                Op::RolAcc => self.rol_acc(),
                Op::RolMem => self.rol_mem(),
                Op::RorAcc => self.ror_acc(),
                Op::RorMem => self.ror_mem(),
                Op::Inc => self.inc(),
                Op::Dec => self.dec(),
                Op::Inx => self.inx(),
                Op::Iny => self.iny(),
                Op::Dex => self.dex(),
                Op::Dey => self.dey(),
                Op::Tax => self.tax(),
                Op::Tay => self.tay(),
                Op::Txa => self.txa(),
                Op::Tya => self.tya(),
                Op::Tsx => self.tsx(),
                Op::Txs => self.txs(),
                Op::Pha => self.pha(),
                Op::Php => self.php(),
                Op::Pla => self.pla(),
                Op::Plp => self.plp(),
                Op::Jmp => self.jmp(),
                Op::Bpl => self.bpl(),
                Op::Bmi => self.bmi(),
                Op::Bvc => self.bvc(),
                Op::Bvs => self.bvs(),
                Op::Bcc => self.bcc(),
                Op::Bcs => self.bcs(),
                Op::Bne => self.bne(),
                Op::Beq => self.beq(),
                Op::Clc => self.clc(),
                Op::Sec => self.sec(),
                Op::Cli => self.cli(),
                Op::Sei => self.sei(),
                Op::Clv => self.clv(),
                Op::Cld => self.cld(),
                Op::Sed => self.sed(),
                Op::Nop => self.nop(),
            }
            proof {
                assert(self@ == spec_apply_op(instr.op, m1));
                lemma_op_cycles(instr.op, m1);
            }
            let masked: u8 = if instr.penalty {
                extra
            } else {
                0
            };
            self.cycles = self.cycles + instr.cycles + masked;
            proof {
                assert(self@ =~= spec_exec_instr(old(self)@));
            }
        }
        self.cycles = self.cycles - 1;
        proof {
            assert(self@ =~= spec_step(old(self)@));
        }
    }

    /// Run the instruction at the current boundary to completion: one
    /// fetch-decode-execute tick, then idle ticks until the cycle budget is
    /// exhausted.  Only the cycle counter changes after the first tick.
    pub fn step_instruction(&mut self)
        requires
            wf(old(self)@),
            old(self)@.cycles == 0,
        ensures
            final(self)@ == (CpuModel { cycles: 0, ..spec_exec_instr(old(self)@) }),
    {
        self.clock();
        while self.cycles > 0
            invariant
                wf(self@),
                self@ == (CpuModel { cycles: self@.cycles, ..spec_exec_instr(old(self)@) }),
            decreases self@.cycles,
        {
            self.clock();
            proof {
                assert(self@ =~= (CpuModel { cycles: self@.cycles, ..spec_exec_instr(old(self)@) }));
            }
        }
        proof {
            assert(self@ =~= (CpuModel { cycles: 0, ..spec_exec_instr(old(self)@) }));
        }
    }
}

/// The mask with only a flag's bit set.
fn flag_bit(flag: Flag) -> (r: u8)
    ensures
        r == flag_mask(flag),
{
    match flag {
        Flag::Carry => 0x01,
        Flag::Zero => 0x02,
        Flag::InterruptDisable => 0x04,
        Flag::Decimal => 0x08,
        Flag::Break => 0x10,
        Flag::Unused => 0x20,
        Flag::Overflow => 0x40,
        Flag::Negative => 0x80,
    }
}

/// The mask with every bit set except a flag's.
fn flag_clear_bit(flag: Flag) -> (r: u8)
    ensures
        r == flag_clear_mask(flag),
{
    match flag {
        Flag::Carry => 0xFE,
        Flag::Zero => 0xFD,
        Flag::InterruptDisable => 0xFB,
        Flag::Decimal => 0xF7,
        Flag::Break => 0xEF,
        Flag::Unused => 0xDF,
        Flag::Overflow => 0xBF,
        Flag::Negative => 0x7F,
    }
}

impl Default for Cpu {
    /// The power-up state: `PC = 0`, `SP = 0xFD`, `P = 0x24` (interrupt
    /// disable and the always-set bit 5), all other registers zero, and
    /// memory all zeroes.
    fn default() -> (cpu: Cpu)
        ensures
            wf(cpu@),
            cpu@.pc == 0,
            cpu@.sp == 0xFD,
            cpu@.status == 0x24,
            cpu@.a == 0 && cpu@.x == 0 && cpu@.y == 0,
            cpu@.cycles == 0,
            cpu@.addr_abs == 0 && cpu@.addr_rel == 0 && cpu@.fetched == 0,
            forall|i: int| 0 <= i < 0x10000 ==> cpu@.mem[i] == 0,
    {
        let mut memory: Vec<u8> = Vec::new();
        while memory.len() < 0x10000
            invariant
                memory.len() <= 0x10000,
                forall|i: int| 0 <= i < memory.len() ==> memory[i] == 0,
            decreases 0x10000 - memory.len(),
        {
            memory.push(0);
        }
        Cpu {
            pc: 0x0000,
            sp: 0xFD,
            status: 0x24,
            a: 0,
            x: 0,
            y: 0,
            cycles: 0,
            addr_abs: 0,
            addr_rel: 0,
            fetched: 0,
            memory,
        }
    }
}

} // verus!
