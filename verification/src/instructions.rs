//! The instruction handlers: one executable function per mnemonic (the
//! shift/rotate family split by accumulator and memory target), each verified
//! against its transition in [`crate::model`].
//!
//! Handlers that go through an addressing mode run with the effective address
//! already in `addr_abs` (or the branch offset in `addr_rel`); BRK and JSR do
//! their own operand reads and run with PC still at the opcode byte.

use vstd::prelude::*;

use crate::cpu::{Cpu, Flag};
use crate::model::{
    spec_adc, spec_and, spec_asl_acc, spec_asl_mem, spec_bcc, spec_bcs, spec_beq, spec_bit,
    spec_bmi, spec_bne, spec_bpl, spec_brk, spec_bvc, spec_bvs, spec_clc, spec_cld, spec_cli,
    spec_clv, spec_cmp, spec_cpx, spec_cpy, spec_dec, spec_dex, spec_dey, spec_eor, spec_inc,
    spec_inx, spec_iny, spec_jmp, spec_jsr, spec_lda, spec_ldx, spec_ldy, spec_lsr_acc,
    spec_lsr_mem, spec_nop, spec_ora, spec_pha, spec_php, spec_pla, spec_plp, spec_rol_acc,
    spec_rol_mem, spec_ror_acc, spec_ror_mem, spec_rti, spec_rts, spec_sbc, spec_sec, spec_sed,
    spec_sei, spec_sta, spec_stx, spec_sty, spec_tax, spec_tay, spec_tsx, spec_txa, spec_txs,
    spec_tya, wf,
};

verus! {

impl Cpu {
    /// BRK - break (software interrupt).  Runs with PC at the opcode byte.
    pub fn brk(&mut self)
        requires
            wf(old(self)@),
        ensures
            final(self)@ == spec_brk(old(self)@),
    {
        let ret = self.pc.wrapping_add(2);
        self.push((ret / 0x100) as u8);
        self.push((ret % 0x100) as u8);
        let flags = self.status | 0x30;
        self.push(flags);
        self.set_flag(Flag::InterruptDisable, true);
        let lo = self.read(0xFFFE);
        let hi = self.read(0xFFFF);
        self.pc = (hi as u16) * 0x100 + (lo as u16);
        proof {
            assert(self@ =~= spec_brk(old(self)@));
        }
    }

    /// JSR - jump to subroutine.  Runs with PC at the opcode byte; pushes the
    /// address of its own last byte (opcode + 2), high byte first.
    pub fn jsr(&mut self)
        requires
            wf(old(self)@),
        ensures
            final(self)@ == spec_jsr(old(self)@),
    {
        let lo = self.read(self.pc.wrapping_add(1));
        let hi = self.read(self.pc.wrapping_add(2));
        let target: u16 = (hi as u16) * 0x100 + (lo as u16);
        let ret = self.pc.wrapping_add(2);
        self.push((ret / 0x100) as u8);
        self.push((ret % 0x100) as u8);
        self.addr_abs = target;
        self.pc = target;
        proof {
            assert(self@ =~= spec_jsr(old(self)@));
        }
    }

    /// RTI - return from interrupt: pull P (unused forced set, break forced
    /// clear), then PC low and high; no increment.
    pub fn rti(&mut self)
        requires
            wf(old(self)@),
        ensures
            final(self)@ == spec_rti(old(self)@),
    {
        let p = self.pull();
        self.status = (p | 0x20) & 0xEF;
        let lo = self.pull();
        let hi = self.pull();
        self.pc = (hi as u16) * 0x100 + (lo as u16);
        proof {
            assert(self@ =~= spec_rti(old(self)@));
        }
    }

    /// RTS - return from subroutine: pull PC low and high, then add one.
    pub fn rts(&mut self)
        requires
            wf(old(self)@),
        ensures
            final(self)@ == spec_rts(old(self)@),
    {
        let lo = self.pull();
        let hi = self.pull();
        self.pc = ((hi as u16) * 0x100 + (lo as u16)).wrapping_add(1);
        proof {
            assert(self@ =~= spec_rts(old(self)@));
        }
    }

    /// LDA - load the accumulator; Z and N follow.
    pub fn lda(&mut self)
        requires
            wf(old(self)@),
        ensures
            final(self)@ == spec_lda(old(self)@),
    {
        let v = self.fetch();
        self.a = v;
        self.set_flag(Flag::Zero, v == 0);
        self.set_flag(Flag::Negative, v >= 0x80);
        proof {
            assert(self@ =~= spec_lda(old(self)@));
        }
    }

    /// LDX - load X; Z and N follow.
    pub fn ldx(&mut self)
        requires
            wf(old(self)@),
        ensures
            final(self)@ == spec_ldx(old(self)@),
    {
        let v = self.fetch();
        self.x = v;
        self.set_flag(Flag::Zero, v == 0);
        self.set_flag(Flag::Negative, v >= 0x80);
        proof {
            assert(self@ =~= spec_ldx(old(self)@));
        }
    }

    /// LDY - load Y; Z and N follow.
    pub fn ldy(&mut self)
        requires
            wf(old(self)@),
        ensures
            final(self)@ == spec_ldy(old(self)@),
    {
        let v = self.fetch();
        self.y = v;
        self.set_flag(Flag::Zero, v == 0);
        self.set_flag(Flag::Negative, v >= 0x80);
        proof {
            assert(self@ =~= spec_ldy(old(self)@));
        }
    }

    /// STA - store the accumulator; flags unchanged.
    pub fn sta(&mut self)
        requires
            wf(old(self)@),
        ensures
            final(self)@ == spec_sta(old(self)@),
    {
        self.write(self.addr_abs, self.a);
    }

    /// STX - store X; flags unchanged.
    pub fn stx(&mut self)
        requires
            wf(old(self)@),
        ensures
            final(self)@ == spec_stx(old(self)@),
    {
        self.write(self.addr_abs, self.x);
    }

    /// STY - store Y; flags unchanged.
    pub fn sty(&mut self)
        requires
            wf(old(self)@),
        ensures
            final(self)@ == spec_sty(old(self)@),
    {
        self.write(self.addr_abs, self.y);
    }

    /// CMP - compare the accumulator with memory.
    pub fn cmp(&mut self)
        requires
            wf(old(self)@),
        ensures
            final(self)@ == spec_cmp(old(self)@),
    {
        let v = self.fetch();
        let r = self.a.wrapping_sub(v);
        self.set_flag(Flag::Carry, self.a >= v);
        self.set_flag(Flag::Zero, self.a == v);
        self.set_flag(Flag::Negative, r >= 0x80);
        proof {
            assert(self@ =~= spec_cmp(old(self)@));
        }
    }

    /// CPX - compare X with memory.
    pub fn cpx(&mut self)
        requires
            wf(old(self)@),
        ensures
            final(self)@ == spec_cpx(old(self)@),
    {
        let v = self.fetch();
        let r = self.x.wrapping_sub(v);
        self.set_flag(Flag::Carry, self.x >= v);
        self.set_flag(Flag::Zero, self.x == v);
        self.set_flag(Flag::Negative, r >= 0x80);
        proof {
            assert(self@ =~= spec_cpx(old(self)@));
        }
    }

    /// CPY - compare Y with memory.
    pub fn cpy(&mut self)
        requires
            wf(old(self)@),
        ensures
            final(self)@ == spec_cpy(old(self)@),
    {
        let v = self.fetch();
        let r = self.y.wrapping_sub(v);
        self.set_flag(Flag::Carry, self.y >= v);
        self.set_flag(Flag::Zero, self.y == v);
        self.set_flag(Flag::Negative, r >= 0x80);
        proof {
            assert(self@ =~= spec_cpy(old(self)@));
        }
    }

    /// BIT - bit test: Z from `A & M`, V from bit 6 of M, N from bit 7 of M.
    pub fn bit(&mut self)
        requires
            wf(old(self)@),
        ensures
            final(self)@ == spec_bit(old(self)@),
    {
        let v = self.fetch();
        self.set_flag(Flag::Zero, (self.a & v) == 0);
        self.set_flag(Flag::Overflow, (v & 0x40) != 0);
        self.set_flag(Flag::Negative, v >= 0x80);
        proof {
            assert(self@ =~= spec_bit(old(self)@));
        }
    }

    /// ORA - bitwise OR into the accumulator.
    pub fn ora(&mut self)
        requires
            wf(old(self)@),
        ensures
            final(self)@ == spec_ora(old(self)@),
    {
        let v = self.fetch();
        self.a = self.a | v;
        self.set_flag(Flag::Zero, self.a == 0);
        self.set_flag(Flag::Negative, self.a >= 0x80);
        proof {
            assert(self@ =~= spec_ora(old(self)@));
        }
    }

    /// AND - bitwise AND into the accumulator.
    pub fn and(&mut self)
        requires
            wf(old(self)@),
        ensures
            final(self)@ == spec_and(old(self)@),
    {
        let v = self.fetch();
        self.a = self.a & v;
        self.set_flag(Flag::Zero, self.a == 0);
        self.set_flag(Flag::Negative, self.a >= 0x80);
        proof {
            assert(self@ =~= spec_and(old(self)@));
        }
    }

    /// EOR - bitwise exclusive OR into the accumulator.
    pub fn eor(&mut self)
        requires
            wf(old(self)@),
        ensures
            final(self)@ == spec_eor(old(self)@),
    {
        let v = self.fetch();
        self.a = self.a ^ v;
        self.set_flag(Flag::Zero, self.a == 0);
        self.set_flag(Flag::Negative, self.a >= 0x80);
        proof {
            assert(self@ =~= spec_eor(old(self)@));
        }
    }

    /// ADC - add memory and the carry into the accumulator; C, Z, V, N follow
    /// the sum.  Decimal mode has no effect on this NMOS core.
    pub fn adc(&mut self)
        requires
            wf(old(self)@),
        ensures
            final(self)@ == spec_adc(old(self)@),
    {
        let v = self.fetch();
        let c: u16 = if self.get_flag(Flag::Carry) {
            1
        } else {
            0
        };
        let a0 = self.a;
        let sum: u16 = a0 as u16 + v as u16 + c;
        let r: u8 = if sum > 0xFF {
            (sum - 0x100) as u8
        } else {
            sum as u8
        };
        self.set_flag(Flag::Carry, sum > 0xFF);
        self.set_flag(Flag::Zero, r == 0);
        self.set_flag(Flag::Overflow, ((a0 ^ r) & (v ^ r) & 0x80) != 0);
        self.set_flag(Flag::Negative, r >= 0x80);
        self.a = r;
        proof {
            assert(self@ =~= spec_adc(old(self)@));
        }
    }

    /// SBC - subtract with borrow: ADC of the operand's ones' complement,
    /// with identical flag rules.
    pub fn sbc(&mut self)
        requires
            wf(old(self)@),
        ensures
            final(self)@ == spec_sbc(old(self)@),
    {
        let v = self.fetch();
        let w = v ^ 0xFF;
        let c: u16 = if self.get_flag(Flag::Carry) {
            1
        } else {
            0
        };
        let a0 = self.a;
        let sum: u16 = a0 as u16 + w as u16 + c;
        let r: u8 = if sum > 0xFF {
            (sum - 0x100) as u8
        } else {
            sum as u8
        };
        self.set_flag(Flag::Carry, sum > 0xFF);
        self.set_flag(Flag::Zero, r == 0);
        self.set_flag(Flag::Overflow, ((a0 ^ r) & (w ^ r) & 0x80) != 0);
        self.set_flag(Flag::Negative, r >= 0x80);
        self.a = r;
        proof {
            assert(self@ =~= spec_sbc(old(self)@));
        }
    }

    /// ASL - arithmetic shift left of the accumulator.
    pub fn asl_acc(&mut self)
        ensures
            final(self)@ == spec_asl_acc(old(self)@),
    {
        let a0 = self.a;
        let t: u16 = (a0 as u16) * 2;
        let r: u8 = if t > 0xFF {
            (t - 0x100) as u8
        } else {
            t as u8
        };
        self.set_flag(Flag::Carry, a0 >= 0x80);
        self.set_flag(Flag::Zero, r == 0);
        self.set_flag(Flag::Negative, r >= 0x80);
        self.a = r;
        proof {
            assert(self@ =~= spec_asl_acc(old(self)@));
        }
    }

    /// ASL - arithmetic shift left of the byte at the effective address.
    pub fn asl_mem(&mut self)
        requires
            wf(old(self)@),
        ensures
            final(self)@ == spec_asl_mem(old(self)@),
    {
        let v = self.read(self.addr_abs);
        let t: u16 = (v as u16) * 2;
        let r: u8 = if t > 0xFF {
            (t - 0x100) as u8
        } else {
            t as u8
        };
        self.set_flag(Flag::Carry, v >= 0x80);
        self.set_flag(Flag::Zero, r == 0);
        self.set_flag(Flag::Negative, r >= 0x80);
        self.write(self.addr_abs, r);
        proof {
            assert(self@ =~= spec_asl_mem(old(self)@));
        }
    }

    /// LSR - logical shift right of the accumulator.
    pub fn lsr_acc(&mut self)
        ensures
            final(self)@ == spec_lsr_acc(old(self)@),
    {
        let a0 = self.a;
        let r = a0 / 2;
        self.set_flag(Flag::Carry, a0 % 2 == 1);
        self.set_flag(Flag::Zero, r == 0);
        self.set_flag(Flag::Negative, r >= 0x80);
        self.a = r;
        proof {
            assert(self@ =~= spec_lsr_acc(old(self)@));
        }
    }

    /// LSR - logical shift right of the byte at the effective address.
    pub fn lsr_mem(&mut self)
        requires
            wf(old(self)@),
        ensures
            final(self)@ == spec_lsr_mem(old(self)@),
    {
        let v = self.read(self.addr_abs);
        let r = v / 2;
        self.set_flag(Flag::Carry, v % 2 == 1);
        self.set_flag(Flag::Zero, r == 0);
        self.set_flag(Flag::Negative, r >= 0x80);
        self.write(self.addr_abs, r);
        proof {
            assert(self@ =~= spec_lsr_mem(old(self)@));
        }
    }

    /// ROL - rotate left through carry, accumulator variant.
    pub fn rol_acc(&mut self)
        ensures
            final(self)@ == spec_rol_acc(old(self)@),
    {
        let c: u16 = if self.get_flag(Flag::Carry) {
            1
        } else {
            0
        };
        let a0 = self.a;
        let t: u16 = (a0 as u16) * 2 + c;
        let r: u8 = if t > 0xFF {
            (t - 0x100) as u8
        } else {
            t as u8
        };
        self.set_flag(Flag::Carry, a0 >= 0x80);
        self.set_flag(Flag::Zero, r == 0);
        self.set_flag(Flag::Negative, r >= 0x80);
        self.a = r;
        proof {
            assert(self@ =~= spec_rol_acc(old(self)@));
        }
    }

    /// ROL - rotate left through carry, memory variant.
    pub fn rol_mem(&mut self)
        requires
            wf(old(self)@),
        ensures
            final(self)@ == spec_rol_mem(old(self)@),
    {
        let c: u16 = if self.get_flag(Flag::Carry) {
            1
        } else {
            0
        };
        let v = self.read(self.addr_abs);
        let t: u16 = (v as u16) * 2 + c;
        let r: u8 = if t > 0xFF {
            (t - 0x100) as u8
        } else {
            t as u8
        };
        self.set_flag(Flag::Carry, v >= 0x80);
        self.set_flag(Flag::Zero, r == 0);
        self.set_flag(Flag::Negative, r >= 0x80);
        self.write(self.addr_abs, r);
        proof {
            assert(self@ =~= spec_rol_mem(old(self)@));
        }
    }

    /// ROR - rotate right through carry, accumulator variant.
    pub fn ror_acc(&mut self)
        ensures
            final(self)@ == spec_ror_acc(old(self)@),
    {
        let carry_in = self.get_flag(Flag::Carry);
        let a0 = self.a;
        let r: u8 = a0 / 2 + if carry_in {
            0x80
        } else {
            0
        };
        self.set_flag(Flag::Carry, a0 % 2 == 1);
        self.set_flag(Flag::Zero, r == 0);
        self.set_flag(Flag::Negative, r >= 0x80);
        self.a = r;
        proof {
            assert(self@ =~= spec_ror_acc(old(self)@));
        }
    }

    /// ROR - rotate right through carry, memory variant.
    pub fn ror_mem(&mut self)
        requires
            wf(old(self)@),
        ensures
            final(self)@ == spec_ror_mem(old(self)@),
    {
        let carry_in = self.get_flag(Flag::Carry);
        let v = self.read(self.addr_abs);
        let r: u8 = v / 2 + if carry_in {
            0x80
        } else {
            0
        };
        self.set_flag(Flag::Carry, v % 2 == 1);
        self.set_flag(Flag::Zero, r == 0);
        self.set_flag(Flag::Negative, r >= 0x80);
        self.write(self.addr_abs, r);
        proof {
            assert(self@ =~= spec_ror_mem(old(self)@));
        }
    }

    /// INC - increment the byte at the effective address mod 256.
    pub fn inc(&mut self)
        requires
            wf(old(self)@),
        ensures
            final(self)@ == spec_inc(old(self)@),
    {
        let v = self.read(self.addr_abs);
        let r = v.wrapping_add(1);
        self.set_flag(Flag::Zero, r == 0);
        self.set_flag(Flag::Negative, r >= 0x80);
        self.write(self.addr_abs, r);
        proof {
            assert(self@ =~= spec_inc(old(self)@));
        }
    }

    /// DEC - decrement the byte at the effective address mod 256.
    pub fn dec(&mut self)
        requires
            wf(old(self)@),
        ensures
            final(self)@ == spec_dec(old(self)@),
    {
        let v = self.read(self.addr_abs);
        let r = v.wrapping_sub(1);
        self.set_flag(Flag::Zero, r == 0);
        self.set_flag(Flag::Negative, r >= 0x80);
        self.write(self.addr_abs, r);
        proof {
            assert(self@ =~= spec_dec(old(self)@));
        }
    }

    /// INX - increment X mod 256.
    pub fn inx(&mut self)
        ensures
            final(self)@ == spec_inx(old(self)@),
    {
        self.x = self.x.wrapping_add(1);
        self.set_flag(Flag::Zero, self.x == 0);
        self.set_flag(Flag::Negative, self.x >= 0x80);
        proof {
            assert(self@ =~= spec_inx(old(self)@));
        }
    }

    /// INY - increment Y mod 256.
    pub fn iny(&mut self)
        ensures
            final(self)@ == spec_iny(old(self)@),
    {
        self.y = self.y.wrapping_add(1);
        self.set_flag(Flag::Zero, self.y == 0);
        self.set_flag(Flag::Negative, self.y >= 0x80);
        proof {
            assert(self@ =~= spec_iny(old(self)@));
        }
    }

    /// DEX - decrement X mod 256.
    pub fn dex(&mut self)
        ensures
            final(self)@ == spec_dex(old(self)@),
    {
        self.x = self.x.wrapping_sub(1);
        self.set_flag(Flag::Zero, self.x == 0);
        self.set_flag(Flag::Negative, self.x >= 0x80);
        proof {
            assert(self@ =~= spec_dex(old(self)@));
        }
    }

    /// DEY - decrement Y mod 256.
    pub fn dey(&mut self)
        ensures
            final(self)@ == spec_dey(old(self)@),
    {
        self.y = self.y.wrapping_sub(1);
        self.set_flag(Flag::Zero, self.y == 0);
        self.set_flag(Flag::Negative, self.y >= 0x80);
        proof {
            assert(self@ =~= spec_dey(old(self)@));
        }
    }

    /// TAX - copy A to X; Z and N follow.
    pub fn tax(&mut self)
        ensures
            final(self)@ == spec_tax(old(self)@),
    {
        self.x = self.a;
        self.set_flag(Flag::Zero, self.a == 0);
        self.set_flag(Flag::Negative, self.a >= 0x80);
        proof {
            assert(self@ =~= spec_tax(old(self)@));
        }
    }

    /// TAY - copy A to Y; Z and N follow.
    pub fn tay(&mut self)
        ensures
            final(self)@ == spec_tay(old(self)@),
    {
        self.y = self.a;
        self.set_flag(Flag::Zero, self.y == 0);
        self.set_flag(Flag::Negative, self.y >= 0x80);
        proof {
            assert(self@ =~= spec_tay(old(self)@));
        }
    }

    /// TXA - copy X to A; Z and N follow.
    pub fn txa(&mut self)
        ensures
            final(self)@ == spec_txa(old(self)@),
    {
        self.a = self.x;
        self.set_flag(Flag::Zero, self.a == 0);
        self.set_flag(Flag::Negative, self.a >= 0x80);
        proof {
            assert(self@ =~= spec_txa(old(self)@));
        }
    }

    /// TYA - copy Y to A; Z and N follow.
    pub fn tya(&mut self)
        ensures
            final(self)@ == spec_tya(old(self)@),
    {
        self.a = self.y;
        self.set_flag(Flag::Zero, self.a == 0);
        self.set_flag(Flag::Negative, self.a >= 0x80);
        proof {
            assert(self@ =~= spec_tya(old(self)@));
        }
    }

    /// TSX - copy SP to X; Z and N follow.
    pub fn tsx(&mut self)
        ensures
            final(self)@ == spec_tsx(old(self)@),
    {
        self.x = self.sp;
        self.set_flag(Flag::Zero, self.x == 0);
        self.set_flag(Flag::Negative, self.x >= 0x80);
        proof {
            assert(self@ =~= spec_tsx(old(self)@));
        }
    }

    /// TXS - copy X to SP; no flags touched.
    pub fn txs(&mut self)
        ensures
            final(self)@ == spec_txs(old(self)@),
    {
        self.sp = self.x;
        proof {
            assert(self@ =~= spec_txs(old(self)@));
        }
    }

    /// PHA - push the accumulator.
    pub fn pha(&mut self)
        requires
            wf(old(self)@),
        ensures
            final(self)@ == spec_pha(old(self)@),
    {
        self.push(self.a);
    }

    /// PHP - push the status register with break and unused forced set in the
    /// pushed byte; the live register is unchanged.
    pub fn php(&mut self)
        requires
            wf(old(self)@),
        ensures
            final(self)@ == spec_php(old(self)@),
    {
        let flags = self.status | 0x30;
        self.push(flags);
    }

    /// PLA - pull into the accumulator; Z and N follow.
    pub fn pla(&mut self)
        requires
            wf(old(self)@),
        ensures
            final(self)@ == spec_pla(old(self)@),
    {
        let v = self.pull();
        self.a = v;
        self.set_flag(Flag::Zero, v == 0);
        self.set_flag(Flag::Negative, v >= 0x80);
        proof {
            assert(self@ =~= spec_pla(old(self)@));
        }
    }

    /// PLP - pull the status register; unused forced set, break forced clear.
    pub fn plp(&mut self)
        requires
            wf(old(self)@),
        ensures
            final(self)@ == spec_plp(old(self)@),
    {
        let v = self.pull();
        self.status = (v | 0x20) & 0xEF;
        proof {
            assert(self@ =~= spec_plp(old(self)@));
        }
    }

    /// JMP - the effective address becomes the program counter.
    pub fn jmp(&mut self)
        ensures
            final(self)@ == spec_jmp(old(self)@),
    {
        self.pc = self.addr_abs;
        proof {
            assert(self@ =~= spec_jmp(old(self)@));
        }
    }

    /// BPL - branch when negative is clear.
    pub fn bpl(&mut self)
        requires
            old(self)@.cycles <= 0xFD,
        ensures
            final(self)@ == spec_bpl(old(self)@),
    {
        let taken = !self.get_flag(Flag::Negative);
        self.branch_if(taken);
        proof {
            assert(self@ =~= spec_bpl(old(self)@));
        }
    }

    /// BMI - branch when negative is set.
    pub fn bmi(&mut self)
        requires
            old(self)@.cycles <= 0xFD,
        ensures
            final(self)@ == spec_bmi(old(self)@),
    {
        let taken = self.get_flag(Flag::Negative);
        self.branch_if(taken);
        proof {
            assert(self@ =~= spec_bmi(old(self)@));
        }
    }

    /// BVC - branch when overflow is clear.
    pub fn bvc(&mut self)
        requires
            old(self)@.cycles <= 0xFD,
        ensures
            final(self)@ == spec_bvc(old(self)@),
    {
        let taken = !self.get_flag(Flag::Overflow);
        self.branch_if(taken);
        proof {
            assert(self@ =~= spec_bvc(old(self)@));
        }
    }

    /// BVS - branch when overflow is set.
    pub fn bvs(&mut self)
        requires
            old(self)@.cycles <= 0xFD,
        ensures
            final(self)@ == spec_bvs(old(self)@),
    {
        let taken = self.get_flag(Flag::Overflow);
        self.branch_if(taken);
        proof {
            assert(self@ =~= spec_bvs(old(self)@));
        }
    }

    /// BCC - branch when carry is clear.
    pub fn bcc(&mut self)
        requires
            old(self)@.cycles <= 0xFD,
        ensures
            final(self)@ == spec_bcc(old(self)@),
    {
        let taken = !self.get_flag(Flag::Carry);
        self.branch_if(taken);
        proof {
            assert(self@ =~= spec_bcc(old(self)@));
        }
    }

    /// BCS - branch when carry is set.
    pub fn bcs(&mut self)
        requires
            old(self)@.cycles <= 0xFD,
        ensures
            final(self)@ == spec_bcs(old(self)@),
    {
        let taken = self.get_flag(Flag::Carry);
        self.branch_if(taken);
        proof {
            assert(self@ =~= spec_bcs(old(self)@));
        }
    }

    /// BNE - branch when zero is clear.
    pub fn bne(&mut self)
        requires
            old(self)@.cycles <= 0xFD,
        ensures
            final(self)@ == spec_bne(old(self)@),
    {
        let taken = !self.get_flag(Flag::Zero);
        self.branch_if(taken);
        proof {
            assert(self@ =~= spec_bne(old(self)@));
        }
    }

    /// BEQ - branch when zero is set.
    pub fn beq(&mut self)
        requires
            old(self)@.cycles <= 0xFD,
        ensures
            final(self)@ == spec_beq(old(self)@),
    {
        let taken = self.get_flag(Flag::Zero);
        self.branch_if(taken);
        proof {
            assert(self@ =~= spec_beq(old(self)@));
        }
    }

    /// The shared body of the eight branches: when taken, add one cycle (two
    /// when the target is on another page) and move PC to the target.
    fn branch_if(&mut self, taken: bool)
        requires
            old(self)@.cycles <= 0xFD,
        ensures
            final(self)@ == if taken {
                crate::model::spec_branch_taken(old(self)@)
            } else {
                old(self)@
            },
    {
        if taken {
            self.cycles = self.cycles + 1;
            self.addr_abs = self.pc.wrapping_add_signed(self.addr_rel);
            if self.addr_abs / 0x100 != self.pc / 0x100 {
                self.cycles = self.cycles + 1;
            }
            self.pc = self.addr_abs;
            proof {
                assert(self@ =~= crate::model::spec_branch_taken(old(self)@));
            }
        }
    }

    /// CLC - clear carry.
    pub fn clc(&mut self)
        ensures
            final(self)@ == spec_clc(old(self)@),
    {
        self.set_flag(Flag::Carry, false);
    }

    /// SEC - set carry.
    pub fn sec(&mut self)
        ensures
            final(self)@ == spec_sec(old(self)@),
    {
        self.set_flag(Flag::Carry, true);
    }

    /// CLI - clear interrupt disable.
    pub fn cli(&mut self)
        ensures
            final(self)@ == spec_cli(old(self)@),
    {
        self.set_flag(Flag::InterruptDisable, false);
    }

    /// SEI - set interrupt disable.
    pub fn sei(&mut self)
        ensures
            final(self)@ == spec_sei(old(self)@),
    {
        self.set_flag(Flag::InterruptDisable, true);
    }

    /// CLV - clear overflow.
    pub fn clv(&mut self)
        ensures
            final(self)@ == spec_clv(old(self)@),
    {
        self.set_flag(Flag::Overflow, false);
    }

    /// CLD - clear decimal.
    pub fn cld(&mut self)
        ensures
            final(self)@ == spec_cld(old(self)@),
    {
        self.set_flag(Flag::Decimal, false);
    }

    /// SED - set decimal.
    pub fn sed(&mut self)
        ensures
            final(self)@ == spec_sed(old(self)@),
    {
        self.set_flag(Flag::Decimal, true);
    }

    /// NOP - no operation.
    pub fn nop(&mut self)
        ensures
            final(self)@ == spec_nop(old(self)@),
    {
    }
}

} // verus!
