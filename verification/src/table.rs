//! The dispatch table: the map from opcode byte to instruction record.
//!
//! [`spec_decode`] is the table as a mathematical function; [`decode`] is the
//! executable lookup, verified to agree with it on every opcode; and
//! [`build_instruction_table`] materialises all 256 entries.  The
//! `spec_apply_*` functions compose the table with the addressing modes and
//! handlers of [`crate::model`] into the meaning of one whole instruction.

use vstd::prelude::*;

use crate::model::{
    advance1, spec_abs, spec_absx, spec_absx_extra, spec_absy, spec_absy_extra, spec_adc, spec_and,
    spec_asl_acc, spec_asl_mem, spec_bcc, spec_bcs, spec_beq, spec_bit, spec_bmi, spec_bne,
    spec_bpl, spec_brk, spec_bvc, spec_bvs, spec_clc, spec_cld, spec_cli, spec_clv, spec_cmp,
    spec_cpx, spec_cpy, spec_dec, spec_dex, spec_dey, spec_eor, spec_imm, spec_inc, spec_ind,
    spec_inx, spec_iny, spec_izx, spec_izy, spec_izy_extra, spec_jmp, spec_jsr, spec_lda, spec_ldx,
    spec_ldy, spec_lsr_acc, spec_lsr_mem, spec_nop, spec_ora, spec_pha, spec_php, spec_pla,
    spec_plp, spec_rel, spec_rol_acc, spec_rol_mem, spec_ror_acc, spec_ror_mem, spec_rti, spec_rts,
    spec_sbc, spec_sec, spec_sed, spec_sei, spec_sta, spec_stx, spec_sty, spec_tax, spec_tay,
    spec_tsx, spec_txa, spec_txs, spec_tya, spec_zp0, spec_zpx, spec_zpy, wrap8, CpuModel,
};

verus! {

/// The operation of an instruction: one variant per handler (the
/// shift/rotate family split by accumulator and memory target).
#[derive(Clone, Copy, Debug, PartialEq, Eq, Structural)]
pub enum Op {
    Brk,
    Jsr,
    Rti,
    Rts,
    Lda,
    Ldx,
    Ldy,
    Sta,
    Stx,
    Sty,
    Cmp,
    Cpx,
    Cpy,
    Bit,
    Ora,
    And,
    Eor,
    Adc,
    Sbc,
    AslAcc,
    AslMem,
    LsrAcc,
    LsrMem,
    RolAcc,
    RolMem,
    RorAcc,
    RorMem,
    Inc,
    Dec,
    Inx,
    Iny,
    Dex,
    Dey,
    Tax,
    Tay,
    Txa,
    Tya,
    Tsx,
    Txs,
    Pha,
    Php,
    Pla,
    Plp,
    Jmp,
    Bpl,
    Bmi,
    Bvc,
    Bvs,
    Bcc,
    Bcs,
    Bne,
    Beq,
    Clc,
    Sec,
    Cli,
    Sei,
    Clv,
    Cld,
    Sed,
    Nop,
}

/// The addressing mode of an instruction.  `Imp` covers implied and
/// accumulator operands; `Own` marks the two instructions (BRK, JSR) whose
/// handler does its own operand fetch and PC bookkeeping.
#[derive(Clone, Copy, Debug, PartialEq, Eq, Structural)]
pub enum Mode {
    Imp,
    Imm,
    Zp0,
    Zpx,
    Zpy,
    Abs,
    Abx,
    Aby,
    Ind,
    Izx,
    Izy,
    Rel,
    Own,
}

/// One entry of the dispatch table: operation, addressing mode, base cycle
/// count, and whether the opcode accepts the page-cross penalty reported by
/// its addressing mode (read opcodes do; store and read-modify-write opcodes
/// always take their worst-case count).
#[derive(Clone, Copy, Debug, PartialEq, Eq, Structural)]
pub struct Instruction {
    pub op: Op,
    pub mode: Mode,
    pub cycles: u8,
    pub penalty: bool,
}

impl Default for Instruction {
    /// The entry unknown opcodes decode to: a defined two-cycle NOP.
    fn default() -> (r: Instruction)
        ensures
            r == (Instruction { op: Op::Nop, mode: Mode::Imp, cycles: 2, penalty: false }),
    {
        Instruction { op: Op::Nop, mode: Mode::Imp, cycles: 2, penalty: false }
    }
}

/// Shorthand constructor for a table entry, usable in both specifications
/// and executable code.
#[verifier::allow_in_spec]
pub fn entry(op: Op, mode: Mode, cycles: u8, penalty: bool) -> Instruction
    returns
        (Instruction { op, mode, cycles, penalty }),
{
    Instruction { op, mode, cycles, penalty }
}

/// The dispatch table as a function: the standard MOS 6502 encoding of all
/// 151 legal opcodes.  Every other opcode byte decodes as a two-cycle NOP.
pub open spec fn spec_decode(opcode: u8) -> Instruction {
    match opcode {
    0x00 => entry(Op::Brk, Mode::Own, 7, false),
    0x01 => entry(Op::Ora, Mode::Izx, 6, true),
    0x05 => entry(Op::Ora, Mode::Zp0, 3, true),
    0x06 => entry(Op::AslMem, Mode::Zp0, 5, false),
    0x08 => entry(Op::Php, Mode::Imp, 3, false),
    0x09 => entry(Op::Ora, Mode::Imm, 2, true),
    0x0A => entry(Op::AslAcc, Mode::Imp, 2, false),
    0x0D => entry(Op::Ora, Mode::Abs, 4, true),
    0x0E => entry(Op::AslMem, Mode::Abs, 6, false),
    0x10 => entry(Op::Bpl, Mode::Rel, 2, false),
    0x11 => entry(Op::Ora, Mode::Izy, 5, true),
    0x15 => entry(Op::Ora, Mode::Zpx, 4, true),
    0x16 => entry(Op::AslMem, Mode::Zpx, 6, false),
    0x18 => entry(Op::Clc, Mode::Imp, 2, false),
    0x19 => entry(Op::Ora, Mode::Aby, 4, true),
    0x1D => entry(Op::Ora, Mode::Abx, 4, true),
    0x1E => entry(Op::AslMem, Mode::Abx, 7, false),
    0x20 => entry(Op::Jsr, Mode::Own, 6, false),
    0x21 => entry(Op::And, Mode::Izx, 6, true),
    0x24 => entry(Op::Bit, Mode::Zp0, 3, true),
    0x25 => entry(Op::And, Mode::Zp0, 3, true),
    0x26 => entry(Op::RolMem, Mode::Zp0, 5, false),
    0x28 => entry(Op::Plp, Mode::Imp, 4, false),
    0x29 => entry(Op::And, Mode::Imm, 2, true),
    0x2A => entry(Op::RolAcc, Mode::Imp, 2, false),
    0x2C => entry(Op::Bit, Mode::Abs, 4, true),
    0x2D => entry(Op::And, Mode::Abs, 4, true),
    0x2E => entry(Op::RolMem, Mode::Abs, 6, false),
    0x30 => entry(Op::Bmi, Mode::Rel, 2, false),
    0x31 => entry(Op::And, Mode::Izy, 5, true),
    0x35 => entry(Op::And, Mode::Zpx, 4, true),
    0x36 => entry(Op::RolMem, Mode::Zpx, 6, false),
    0x38 => entry(Op::Sec, Mode::Imp, 2, false),
    0x39 => entry(Op::And, Mode::Aby, 4, true),
    0x3D => entry(Op::And, Mode::Abx, 4, true),
    0x3E => entry(Op::RolMem, Mode::Abx, 7, false),
    0x40 => entry(Op::Rti, Mode::Imp, 6, false),
    0x41 => entry(Op::Eor, Mode::Izx, 6, true),
    0x45 => entry(Op::Eor, Mode::Zp0, 3, true),
    0x46 => entry(Op::LsrMem, Mode::Zp0, 5, false),
    0x48 => entry(Op::Pha, Mode::Imp, 3, false),
    0x49 => entry(Op::Eor, Mode::Imm, 2, true),
    0x4A => entry(Op::LsrAcc, Mode::Imp, 2, false),
    0x4C => entry(Op::Jmp, Mode::Abs, 3, false),
    0x4D => entry(Op::Eor, Mode::Abs, 4, true),
    0x4E => entry(Op::LsrMem, Mode::Abs, 6, false),
    0x50 => entry(Op::Bvc, Mode::Rel, 2, false),
    0x51 => entry(Op::Eor, Mode::Izy, 5, true),
    0x55 => entry(Op::Eor, Mode::Zpx, 4, true),
    0x56 => entry(Op::LsrMem, Mode::Zpx, 6, false),
    0x58 => entry(Op::Cli, Mode::Imp, 2, false),
    0x59 => entry(Op::Eor, Mode::Aby, 4, true),
    0x5D => entry(Op::Eor, Mode::Abx, 4, true),
    0x5E => entry(Op::LsrMem, Mode::Abx, 7, false),
    0x60 => entry(Op::Rts, Mode::Imp, 6, false),
    0x61 => entry(Op::Adc, Mode::Izx, 6, true),
    0x65 => entry(Op::Adc, Mode::Zp0, 3, true),
    0x66 => entry(Op::RorMem, Mode::Zp0, 5, false),
    0x68 => entry(Op::Pla, Mode::Imp, 4, false),
    0x69 => entry(Op::Adc, Mode::Imm, 2, true),
    0x6A => entry(Op::RorAcc, Mode::Imp, 2, false),
    0x6C => entry(Op::Jmp, Mode::Ind, 5, false),
    0x6D => entry(Op::Adc, Mode::Abs, 4, true),
    0x6E => entry(Op::RorMem, Mode::Abs, 6, false),
    0x70 => entry(Op::Bvs, Mode::Rel, 2, false),
    0x71 => entry(Op::Adc, Mode::Izy, 5, true),
    0x75 => entry(Op::Adc, Mode::Zpx, 4, true),
    0x76 => entry(Op::RorMem, Mode::Zpx, 6, false),
    0x78 => entry(Op::Sei, Mode::Imp, 2, false),
    0x79 => entry(Op::Adc, Mode::Aby, 4, true),
    0x7D => entry(Op::Adc, Mode::Abx, 4, true),
    0x7E => entry(Op::RorMem, Mode::Abx, 7, false),
    0x81 => entry(Op::Sta, Mode::Izx, 6, false),
    0x84 => entry(Op::Sty, Mode::Zp0, 3, false),
    0x85 => entry(Op::Sta, Mode::Zp0, 3, false),
    0x86 => entry(Op::Stx, Mode::Zp0, 3, false),
    0x88 => entry(Op::Dey, Mode::Imp, 2, false),
    0x8A => entry(Op::Txa, Mode::Imp, 2, false),
    0x8C => entry(Op::Sty, Mode::Abs, 4, false),
    0x8D => entry(Op::Sta, Mode::Abs, 4, false),
    0x8E => entry(Op::Stx, Mode::Abs, 4, false),
    0x90 => entry(Op::Bcc, Mode::Rel, 2, false),
    0x91 => entry(Op::Sta, Mode::Izy, 6, false),
    0x94 => entry(Op::Sty, Mode::Zpx, 4, false),
    0x95 => entry(Op::Sta, Mode::Zpx, 4, false),
    0x96 => entry(Op::Stx, Mode::Zpy, 4, false),
    0x98 => entry(Op::Tya, Mode::Imp, 2, false),
    0x99 => entry(Op::Sta, Mode::Aby, 5, false),
    0x9A => entry(Op::Txs, Mode::Imp, 2, false),
    0x9D => entry(Op::Sta, Mode::Abx, 5, false),
    0xA0 => entry(Op::Ldy, Mode::Imm, 2, true),
    0xA1 => entry(Op::Lda, Mode::Izx, 6, true),
    0xA2 => entry(Op::Ldx, Mode::Imm, 2, true),
    0xA4 => entry(Op::Ldy, Mode::Zp0, 3, true),
    0xA5 => entry(Op::Lda, Mode::Zp0, 3, true),
    0xA6 => entry(Op::Ldx, Mode::Zp0, 3, true),
    0xA8 => entry(Op::Tay, Mode::Imp, 2, false),
    0xA9 => entry(Op::Lda, Mode::Imm, 2, true),
    0xAA => entry(Op::Tax, Mode::Imp, 2, false),
    0xAC => entry(Op::Ldy, Mode::Abs, 4, true),
    0xAD => entry(Op::Lda, Mode::Abs, 4, true),
    0xAE => entry(Op::Ldx, Mode::Abs, 4, true),
    0xB0 => entry(Op::Bcs, Mode::Rel, 2, false),
    0xB1 => entry(Op::Lda, Mode::Izy, 5, true),
    0xB4 => entry(Op::Ldy, Mode::Zpx, 4, true),
    0xB5 => entry(Op::Lda, Mode::Zpx, 4, true),
    0xB6 => entry(Op::Ldx, Mode::Zpy, 4, true),
    0xB8 => entry(Op::Clv, Mode::Imp, 2, false),
    0xB9 => entry(Op::Lda, Mode::Aby, 4, true),
    0xBA => entry(Op::Tsx, Mode::Imp, 2, false),
    0xBC => entry(Op::Ldy, Mode::Abx, 4, true),
    0xBD => entry(Op::Lda, Mode::Abx, 4, true),
    0xBE => entry(Op::Ldx, Mode::Aby, 4, true),
    0xC0 => entry(Op::Cpy, Mode::Imm, 2, true),
    0xC1 => entry(Op::Cmp, Mode::Izx, 6, true),
    0xC4 => entry(Op::Cpy, Mode::Zp0, 3, true),
    0xC5 => entry(Op::Cmp, Mode::Zp0, 3, true),
    0xC6 => entry(Op::Dec, Mode::Zp0, 5, false),
    0xC8 => entry(Op::Iny, Mode::Imp, 2, false),
    0xC9 => entry(Op::Cmp, Mode::Imm, 2, true),
    0xCA => entry(Op::Dex, Mode::Imp, 2, false),
    0xCC => entry(Op::Cpy, Mode::Abs, 4, true),
    0xCD => entry(Op::Cmp, Mode::Abs, 4, true),
    0xCE => entry(Op::Dec, Mode::Abs, 6, false),
    0xD0 => entry(Op::Bne, Mode::Rel, 2, false),
    0xD1 => entry(Op::Cmp, Mode::Izy, 5, true),
    0xD5 => entry(Op::Cmp, Mode::Zpx, 4, true),
    0xD6 => entry(Op::Dec, Mode::Zpx, 6, false),
    0xD8 => entry(Op::Cld, Mode::Imp, 2, false),
    0xD9 => entry(Op::Cmp, Mode::Aby, 4, true),
    0xDD => entry(Op::Cmp, Mode::Abx, 4, true),
    0xDE => entry(Op::Dec, Mode::Abx, 7, false),
    0xE0 => entry(Op::Cpx, Mode::Imm, 2, true),
    0xE1 => entry(Op::Sbc, Mode::Izx, 6, true),
    0xE4 => entry(Op::Cpx, Mode::Zp0, 3, true),
    0xE5 => entry(Op::Sbc, Mode::Zp0, 3, true),
    0xE6 => entry(Op::Inc, Mode::Zp0, 5, false),
    0xE8 => entry(Op::Inx, Mode::Imp, 2, false),
    0xE9 => entry(Op::Sbc, Mode::Imm, 2, true),
    0xEA => entry(Op::Nop, Mode::Imp, 2, false),
    0xEC => entry(Op::Cpx, Mode::Abs, 4, true),
    0xED => entry(Op::Sbc, Mode::Abs, 4, true),
    0xEE => entry(Op::Inc, Mode::Abs, 6, false),
    0xF0 => entry(Op::Beq, Mode::Rel, 2, false),
    0xF1 => entry(Op::Sbc, Mode::Izy, 5, true),
    0xF5 => entry(Op::Sbc, Mode::Zpx, 4, true),
    0xF6 => entry(Op::Inc, Mode::Zpx, 6, false),
    0xF8 => entry(Op::Sed, Mode::Imp, 2, false),
    0xF9 => entry(Op::Sbc, Mode::Aby, 4, true),
    0xFD => entry(Op::Sbc, Mode::Abx, 4, true),
    0xFE => entry(Op::Inc, Mode::Abx, 7, false),
        _ => entry(Op::Nop, Mode::Imp, 2, false),
    }
}

/// Look an opcode up in the dispatch table.
#[verifier::rlimit(100)]
pub fn decode(opcode: u8) -> (r: Instruction)
    ensures
        r == spec_decode(opcode),
        2 <= r.cycles <= 7,
{
    match opcode {
    0x00 => entry(Op::Brk, Mode::Own, 7, false),
    0x01 => entry(Op::Ora, Mode::Izx, 6, true),
    0x05 => entry(Op::Ora, Mode::Zp0, 3, true),
    0x06 => entry(Op::AslMem, Mode::Zp0, 5, false),
    0x08 => entry(Op::Php, Mode::Imp, 3, false),
    0x09 => entry(Op::Ora, Mode::Imm, 2, true),
    0x0A => entry(Op::AslAcc, Mode::Imp, 2, false),
    0x0D => entry(Op::Ora, Mode::Abs, 4, true),
    0x0E => entry(Op::AslMem, Mode::Abs, 6, false),
    0x10 => entry(Op::Bpl, Mode::Rel, 2, false),
    0x11 => entry(Op::Ora, Mode::Izy, 5, true),
    0x15 => entry(Op::Ora, Mode::Zpx, 4, true),
    0x16 => entry(Op::AslMem, Mode::Zpx, 6, false),
    0x18 => entry(Op::Clc, Mode::Imp, 2, false),
    0x19 => entry(Op::Ora, Mode::Aby, 4, true),
    0x1D => entry(Op::Ora, Mode::Abx, 4, true),
    0x1E => entry(Op::AslMem, Mode::Abx, 7, false),
    0x20 => entry(Op::Jsr, Mode::Own, 6, false),
    0x21 => entry(Op::And, Mode::Izx, 6, true),
    0x24 => entry(Op::Bit, Mode::Zp0, 3, true),
    0x25 => entry(Op::And, Mode::Zp0, 3, true),
    0x26 => entry(Op::RolMem, Mode::Zp0, 5, false),
    0x28 => entry(Op::Plp, Mode::Imp, 4, false),
    0x29 => entry(Op::And, Mode::Imm, 2, true),
    0x2A => entry(Op::RolAcc, Mode::Imp, 2, false),
    0x2C => entry(Op::Bit, Mode::Abs, 4, true),
    0x2D => entry(Op::And, Mode::Abs, 4, true),
    0x2E => entry(Op::RolMem, Mode::Abs, 6, false),
    0x30 => entry(Op::Bmi, Mode::Rel, 2, false),
    0x31 => entry(Op::And, Mode::Izy, 5, true),
    0x35 => entry(Op::And, Mode::Zpx, 4, true),
    0x36 => entry(Op::RolMem, Mode::Zpx, 6, false),
    0x38 => entry(Op::Sec, Mode::Imp, 2, false),
    0x39 => entry(Op::And, Mode::Aby, 4, true),
    0x3D => entry(Op::And, Mode::Abx, 4, true),
    0x3E => entry(Op::RolMem, Mode::Abx, 7, false),
    0x40 => entry(Op::Rti, Mode::Imp, 6, false),
    0x41 => entry(Op::Eor, Mode::Izx, 6, true),
    0x45 => entry(Op::Eor, Mode::Zp0, 3, true),
    0x46 => entry(Op::LsrMem, Mode::Zp0, 5, false),
    0x48 => entry(Op::Pha, Mode::Imp, 3, false),
    0x49 => entry(Op::Eor, Mode::Imm, 2, true),
    0x4A => entry(Op::LsrAcc, Mode::Imp, 2, false),
    0x4C => entry(Op::Jmp, Mode::Abs, 3, false),
    0x4D => entry(Op::Eor, Mode::Abs, 4, true),
    0x4E => entry(Op::LsrMem, Mode::Abs, 6, false),
    0x50 => entry(Op::Bvc, Mode::Rel, 2, false),
    0x51 => entry(Op::Eor, Mode::Izy, 5, true),
    0x55 => entry(Op::Eor, Mode::Zpx, 4, true),
    0x56 => entry(Op::LsrMem, Mode::Zpx, 6, false),
    0x58 => entry(Op::Cli, Mode::Imp, 2, false),
    0x59 => entry(Op::Eor, Mode::Aby, 4, true),
    0x5D => entry(Op::Eor, Mode::Abx, 4, true),
    0x5E => entry(Op::LsrMem, Mode::Abx, 7, false),
    0x60 => entry(Op::Rts, Mode::Imp, 6, false),
    0x61 => entry(Op::Adc, Mode::Izx, 6, true),
    0x65 => entry(Op::Adc, Mode::Zp0, 3, true),
    0x66 => entry(Op::RorMem, Mode::Zp0, 5, false),
    0x68 => entry(Op::Pla, Mode::Imp, 4, false),
    0x69 => entry(Op::Adc, Mode::Imm, 2, true),
    0x6A => entry(Op::RorAcc, Mode::Imp, 2, false),
    0x6C => entry(Op::Jmp, Mode::Ind, 5, false),
    0x6D => entry(Op::Adc, Mode::Abs, 4, true),
    0x6E => entry(Op::RorMem, Mode::Abs, 6, false),
    0x70 => entry(Op::Bvs, Mode::Rel, 2, false),
    0x71 => entry(Op::Adc, Mode::Izy, 5, true),
    0x75 => entry(Op::Adc, Mode::Zpx, 4, true),
    0x76 => entry(Op::RorMem, Mode::Zpx, 6, false),
    0x78 => entry(Op::Sei, Mode::Imp, 2, false),
    0x79 => entry(Op::Adc, Mode::Aby, 4, true),
    0x7D => entry(Op::Adc, Mode::Abx, 4, true),
    0x7E => entry(Op::RorMem, Mode::Abx, 7, false),
    0x81 => entry(Op::Sta, Mode::Izx, 6, false),
    0x84 => entry(Op::Sty, Mode::Zp0, 3, false),
    0x85 => entry(Op::Sta, Mode::Zp0, 3, false),
    0x86 => entry(Op::Stx, Mode::Zp0, 3, false),
    0x88 => entry(Op::Dey, Mode::Imp, 2, false),
    0x8A => entry(Op::Txa, Mode::Imp, 2, false),
    0x8C => entry(Op::Sty, Mode::Abs, 4, false),
    0x8D => entry(Op::Sta, Mode::Abs, 4, false),
    0x8E => entry(Op::Stx, Mode::Abs, 4, false),
    0x90 => entry(Op::Bcc, Mode::Rel, 2, false),
    0x91 => entry(Op::Sta, Mode::Izy, 6, false),
    0x94 => entry(Op::Sty, Mode::Zpx, 4, false),
    0x95 => entry(Op::Sta, Mode::Zpx, 4, false),
    0x96 => entry(Op::Stx, Mode::Zpy, 4, false),
    0x98 => entry(Op::Tya, Mode::Imp, 2, false),
    0x99 => entry(Op::Sta, Mode::Aby, 5, false),
    0x9A => entry(Op::Txs, Mode::Imp, 2, false),
    0x9D => entry(Op::Sta, Mode::Abx, 5, false),
    0xA0 => entry(Op::Ldy, Mode::Imm, 2, true),
    0xA1 => entry(Op::Lda, Mode::Izx, 6, true),
    0xA2 => entry(Op::Ldx, Mode::Imm, 2, true),
    0xA4 => entry(Op::Ldy, Mode::Zp0, 3, true),
    0xA5 => entry(Op::Lda, Mode::Zp0, 3, true),
    0xA6 => entry(Op::Ldx, Mode::Zp0, 3, true),
    0xA8 => entry(Op::Tay, Mode::Imp, 2, false),
    0xA9 => entry(Op::Lda, Mode::Imm, 2, true),
    0xAA => entry(Op::Tax, Mode::Imp, 2, false),
    0xAC => entry(Op::Ldy, Mode::Abs, 4, true),
    0xAD => entry(Op::Lda, Mode::Abs, 4, true),
    0xAE => entry(Op::Ldx, Mode::Abs, 4, true),
    0xB0 => entry(Op::Bcs, Mode::Rel, 2, false),
    0xB1 => entry(Op::Lda, Mode::Izy, 5, true),
    0xB4 => entry(Op::Ldy, Mode::Zpx, 4, true),
    0xB5 => entry(Op::Lda, Mode::Zpx, 4, true),
    0xB6 => entry(Op::Ldx, Mode::Zpy, 4, true),
    0xB8 => entry(Op::Clv, Mode::Imp, 2, false),
    0xB9 => entry(Op::Lda, Mode::Aby, 4, true),
    0xBA => entry(Op::Tsx, Mode::Imp, 2, false),
    0xBC => entry(Op::Ldy, Mode::Abx, 4, true),
    0xBD => entry(Op::Lda, Mode::Abx, 4, true),
    0xBE => entry(Op::Ldx, Mode::Aby, 4, true),
    0xC0 => entry(Op::Cpy, Mode::Imm, 2, true),
    0xC1 => entry(Op::Cmp, Mode::Izx, 6, true),
    0xC4 => entry(Op::Cpy, Mode::Zp0, 3, true),
    0xC5 => entry(Op::Cmp, Mode::Zp0, 3, true),
    0xC6 => entry(Op::Dec, Mode::Zp0, 5, false),
    0xC8 => entry(Op::Iny, Mode::Imp, 2, false),
    0xC9 => entry(Op::Cmp, Mode::Imm, 2, true),
    0xCA => entry(Op::Dex, Mode::Imp, 2, false),
    0xCC => entry(Op::Cpy, Mode::Abs, 4, true),
    0xCD => entry(Op::Cmp, Mode::Abs, 4, true),
    0xCE => entry(Op::Dec, Mode::Abs, 6, false),
    0xD0 => entry(Op::Bne, Mode::Rel, 2, false),
    0xD1 => entry(Op::Cmp, Mode::Izy, 5, true),
    0xD5 => entry(Op::Cmp, Mode::Zpx, 4, true),
    0xD6 => entry(Op::Dec, Mode::Zpx, 6, false),
    0xD8 => entry(Op::Cld, Mode::Imp, 2, false),
    0xD9 => entry(Op::Cmp, Mode::Aby, 4, true),
    0xDD => entry(Op::Cmp, Mode::Abx, 4, true),
    0xDE => entry(Op::Dec, Mode::Abx, 7, false),
    0xE0 => entry(Op::Cpx, Mode::Imm, 2, true),
    0xE1 => entry(Op::Sbc, Mode::Izx, 6, true),
    0xE4 => entry(Op::Cpx, Mode::Zp0, 3, true),
    0xE5 => entry(Op::Sbc, Mode::Zp0, 3, true),
    0xE6 => entry(Op::Inc, Mode::Zp0, 5, false),
    0xE8 => entry(Op::Inx, Mode::Imp, 2, false),
    0xE9 => entry(Op::Sbc, Mode::Imm, 2, true),
    0xEA => entry(Op::Nop, Mode::Imp, 2, false),
    0xEC => entry(Op::Cpx, Mode::Abs, 4, true),
    0xED => entry(Op::Sbc, Mode::Abs, 4, true),
    0xEE => entry(Op::Inc, Mode::Abs, 6, false),
    0xF0 => entry(Op::Beq, Mode::Rel, 2, false),
    0xF1 => entry(Op::Sbc, Mode::Izy, 5, true),
    0xF5 => entry(Op::Sbc, Mode::Zpx, 4, true),
    0xF6 => entry(Op::Inc, Mode::Zpx, 6, false),
    0xF8 => entry(Op::Sed, Mode::Imp, 2, false),
    0xF9 => entry(Op::Sbc, Mode::Aby, 4, true),
    0xFD => entry(Op::Sbc, Mode::Abx, 4, true),
    0xFE => entry(Op::Inc, Mode::Abx, 7, false),
        _ => entry(Op::Nop, Mode::Imp, 2, false),
    }
}

/// Materialise the dispatch table: entry `i` describes opcode `i`.
pub fn build_instruction_table() -> (table: Vec<Instruction>)
    ensures
        table@.len() == 256,
        forall|i: int| 0 <= i < 256 ==> table@[i] == spec_decode(i as u8),
{
    let mut table: Vec<Instruction> = Vec::new();
    let mut i: usize = 0;
    while i < 256
        invariant
            i <= 256,
            table@.len() == i,
            forall|j: int| 0 <= j < i ==> table@[j] == spec_decode(j as u8),
        decreases 256 - i,
    {
        table.push(decode(i as u8));
        i = i + 1;
    }
    table
}

/// Apply an addressing mode to a state whose PC is at the opcode byte:
/// the new state and the reported page-cross extra cycle.
pub open spec fn spec_apply_mode(mode: Mode, m: CpuModel) -> (CpuModel, u8) {
    match mode {
        Mode::Imp => (advance1(m), 0),
        Mode::Own => (m, 0),
        Mode::Imm => (spec_imm(m), 0),
        Mode::Zp0 => (spec_zp0(advance1(m)), 0),
        Mode::Zpx => (spec_zpx(advance1(m)), 0),
        Mode::Zpy => (spec_zpy(advance1(m)), 0),
        Mode::Abs => (spec_abs(m), 0),
        Mode::Abx => (spec_absx(m), spec_absx_extra(m)),
        Mode::Aby => (spec_absy(m), spec_absy_extra(m)),
        Mode::Ind => (spec_ind(m), 0),
        Mode::Izx => (spec_izx(advance1(m)), 0),
        Mode::Izy => (spec_izy(advance1(m)), spec_izy_extra(advance1(m))),
        Mode::Rel => (spec_rel(advance1(m)), 0),
    }
}

/// Apply an instruction handler to the state left by its addressing mode.
pub open spec fn spec_apply_op(op: Op, m: CpuModel) -> CpuModel {
    match op {
        Op::Brk => spec_brk(m),
        Op::Jsr => spec_jsr(m),
        Op::Rti => spec_rti(m),
        Op::Rts => spec_rts(m),
        Op::Lda => spec_lda(m),
        Op::Ldx => spec_ldx(m),
        Op::Ldy => spec_ldy(m),
        Op::Sta => spec_sta(m),
        Op::Stx => spec_stx(m),
        Op::Sty => spec_sty(m),
        Op::Cmp => spec_cmp(m),
        Op::Cpx => spec_cpx(m),
        Op::Cpy => spec_cpy(m),
        Op::Bit => spec_bit(m),
        Op::Ora => spec_ora(m),
        Op::And => spec_and(m),
        Op::Eor => spec_eor(m),
        Op::Adc => spec_adc(m),
        Op::Sbc => spec_sbc(m),
        Op::AslAcc => spec_asl_acc(m),
        Op::AslMem => spec_asl_mem(m),
        Op::LsrAcc => spec_lsr_acc(m),
        Op::LsrMem => spec_lsr_mem(m),
        Op::RolAcc => spec_rol_acc(m),
        Op::RolMem => spec_rol_mem(m),
        Op::RorAcc => spec_ror_acc(m),
        Op::RorMem => spec_ror_mem(m),
        Op::Inc => spec_inc(m),
        Op::Dec => spec_dec(m),
        Op::Inx => spec_inx(m),
        Op::Iny => spec_iny(m),
        Op::Dex => spec_dex(m),
        Op::Dey => spec_dey(m),
        Op::Tax => spec_tax(m),
        Op::Tay => spec_tay(m),
        Op::Txa => spec_txa(m),
        Op::Tya => spec_tya(m),
        Op::Tsx => spec_tsx(m),
        Op::Txs => spec_txs(m),
        Op::Pha => spec_pha(m),
        Op::Php => spec_php(m),
        Op::Pla => spec_pla(m),
        Op::Plp => spec_plp(m),
        Op::Jmp => spec_jmp(m),
        Op::Bpl => spec_bpl(m),
        Op::Bmi => spec_bmi(m),
        Op::Bvc => spec_bvc(m),
        Op::Bvs => spec_bvs(m),
        Op::Bcc => spec_bcc(m),
        Op::Bcs => spec_bcs(m),
        Op::Bne => spec_bne(m),
        Op::Beq => spec_beq(m),
        Op::Clc => spec_clc(m),
        Op::Sec => spec_sec(m),
        Op::Cli => spec_cli(m),
        Op::Sei => spec_sei(m),
        Op::Clv => spec_clv(m),
        Op::Cld => spec_cld(m),
        Op::Sed => spec_sed(m),
        Op::Nop => spec_nop(m),
    }
}

/// What an addressing mode leaves untouched: memory, the status register,
/// the cycle budget, and every register but PC.
pub open spec fn mode_frame(m0: CpuModel, m1: CpuModel) -> bool {
    &&& m1.mem == m0.mem
    &&& m1.status == m0.status
    &&& m1.cycles == m0.cycles
    &&& m1.sp == m0.sp
    &&& m1.a == m0.a
    &&& m1.x == m0.x
    &&& m1.y == m0.y
}

/// Every addressing mode only moves PC and scratch state, and reports at
/// most one extra cycle.
pub proof fn lemma_mode_frame(mode: Mode, m: CpuModel)
    ensures
        mode_frame(m, spec_apply_mode(mode, m).0),
        spec_apply_mode(mode, m).1 <= 1,
{
    match mode {
        Mode::Imp => assert(mode_frame(m, spec_apply_mode(mode, m).0)),
        Mode::Own => assert(mode_frame(m, spec_apply_mode(mode, m).0)),
        Mode::Imm => assert(mode_frame(m, spec_apply_mode(mode, m).0)),
        Mode::Zp0 => assert(mode_frame(m, spec_apply_mode(mode, m).0)),
        Mode::Zpx => assert(mode_frame(m, spec_apply_mode(mode, m).0)),
        Mode::Zpy => assert(mode_frame(m, spec_apply_mode(mode, m).0)),
        Mode::Abs => assert(mode_frame(m, spec_apply_mode(mode, m).0)),
        Mode::Abx => assert(mode_frame(m, spec_apply_mode(mode, m).0)),
        Mode::Aby => assert(mode_frame(m, spec_apply_mode(mode, m).0)),
        Mode::Ind => assert(mode_frame(m, spec_apply_mode(mode, m).0)),
        Mode::Izx => assert(mode_frame(m, spec_apply_mode(mode, m).0)),
        Mode::Izy => assert(mode_frame(m, spec_apply_mode(mode, m).0)),
        Mode::Rel => assert(mode_frame(m, spec_apply_mode(mode, m).0)),
    }
}

/// No handler adds more than the two taken-branch extras to the cycle
/// budget, and none shrinks memory.
pub open spec fn op_bounded(op: Op, m: CpuModel) -> bool {
    &&& spec_apply_op(op, m).cycles <= m.cycles + 2
    &&& spec_apply_op(op, m).mem.len() == m.mem.len()
}

pub proof fn lemma_op_cycles(op: Op, m: CpuModel)
    requires
        crate::model::wf(m),
        m.cycles <= 0xFD,
    ensures
        op_bounded(op, m),
{
    match op {
        Op::Brk => assert(op_bounded(op, m)),
        Op::Jsr => assert(op_bounded(op, m)),
        Op::Rti => assert(op_bounded(op, m)),
        Op::Rts => assert(op_bounded(op, m)),
        Op::Lda => assert(op_bounded(op, m)),
        Op::Ldx => assert(op_bounded(op, m)),
        Op::Ldy => assert(op_bounded(op, m)),
        Op::Sta => assert(op_bounded(op, m)),
        Op::Stx => assert(op_bounded(op, m)),
        Op::Sty => assert(op_bounded(op, m)),
        Op::Cmp => assert(op_bounded(op, m)),
        Op::Cpx => assert(op_bounded(op, m)),
        Op::Cpy => assert(op_bounded(op, m)),
        Op::Bit => assert(op_bounded(op, m)),
        Op::Ora => assert(op_bounded(op, m)),
        Op::And => assert(op_bounded(op, m)),
        Op::Eor => assert(op_bounded(op, m)),
        Op::Adc => assert(op_bounded(op, m)),
        Op::Sbc => assert(op_bounded(op, m)),
        Op::AslAcc => assert(op_bounded(op, m)),
        Op::AslMem => assert(op_bounded(op, m)),
        Op::LsrAcc => assert(op_bounded(op, m)),
        Op::LsrMem => assert(op_bounded(op, m)),
        Op::RolAcc => assert(op_bounded(op, m)),
        Op::RolMem => assert(op_bounded(op, m)),
        Op::RorAcc => assert(op_bounded(op, m)),
        Op::RorMem => assert(op_bounded(op, m)),
        Op::Inc => assert(op_bounded(op, m)),
        Op::Dec => assert(op_bounded(op, m)),
        Op::Inx => assert(op_bounded(op, m)),
        Op::Iny => assert(op_bounded(op, m)),
        Op::Dex => assert(op_bounded(op, m)),
        Op::Dey => assert(op_bounded(op, m)),
        Op::Tax => assert(op_bounded(op, m)),
        Op::Tay => assert(op_bounded(op, m)),
        Op::Txa => assert(op_bounded(op, m)),
        Op::Tya => assert(op_bounded(op, m)),
        Op::Tsx => assert(op_bounded(op, m)),
        Op::Txs => assert(op_bounded(op, m)),
        Op::Pha => assert(op_bounded(op, m)),
        Op::Php => assert(op_bounded(op, m)),
        Op::Pla => assert(op_bounded(op, m)),
        Op::Plp => assert(op_bounded(op, m)),
        Op::Jmp => assert(op_bounded(op, m)),
        Op::Bpl => assert(op_bounded(op, m)),
        Op::Bmi => assert(op_bounded(op, m)),
        Op::Bvc => assert(op_bounded(op, m)),
        Op::Bvs => assert(op_bounded(op, m)),
        Op::Bcc => assert(op_bounded(op, m)),
        Op::Bcs => assert(op_bounded(op, m)),
        Op::Bne => assert(op_bounded(op, m)),
        Op::Beq => assert(op_bounded(op, m)),
        Op::Clc => assert(op_bounded(op, m)),
        Op::Sec => assert(op_bounded(op, m)),
        Op::Cli => assert(op_bounded(op, m)),
        Op::Sei => assert(op_bounded(op, m)),
        Op::Clv => assert(op_bounded(op, m)),
        Op::Cld => assert(op_bounded(op, m)),
        Op::Sed => assert(op_bounded(op, m)),
        Op::Nop => assert(op_bounded(op, m)),
    }
}

/// One whole fetch-decode-execute at an instruction boundary, before the
/// tick's own decrement: the mode runs, the handler runs, and the cycle
/// budget becomes the handler's branch extras plus the base count plus the
/// page-cross penalty where the opcode accepts it.
pub open spec fn spec_exec_instr(m: CpuModel) -> CpuModel {
    let ins = spec_decode(m.mem[m.pc as int]);
    let (m1, extra) = spec_apply_mode(ins.mode, m);
    let m2 = spec_apply_op(ins.op, m1);
    let masked: u8 = if ins.penalty {
        extra
    } else {
        0
    };
    CpuModel { cycles: wrap8(m2.cycles + ins.cycles + masked), ..m2 }
}

/// One processor tick: at an instruction boundary, fetch-decode-execute and
/// schedule the instruction's cycles; in either case the tick itself then
/// consumes one cycle.
pub open spec fn spec_step(m: CpuModel) -> CpuModel {
    let m1 = if m.cycles == 0 {
        spec_exec_instr(m)
    } else {
        m
    };
    CpuModel { cycles: wrap8(m1.cycles - 1), ..m1 }
}

} // verus!
