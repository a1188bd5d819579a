//! The laws of the machine: properties that relate several operations,
//! stated over the spec functions of [`crate::model`] and proved once and
//! for all.

use vstd::prelude::*;

use crate::cpu::Flag;
use crate::model::{
    abs_operand, adc_out, adc_overflow, adc_status, advance1, asl_out, cmp_status, flag_get,
    flag_set, lsr_out, mem_at, page, rol_out, ror_out, set_zn, shift_status, sign_ext, spec_adc,
    spec_brk, spec_cmp, spec_ind, spec_jsr, spec_pull, spec_push, spec_rel, spec_rti, spec_rts,
    spec_sbc, stack_addr, wf, word, wrap16, wrap8, CpuModel,
};
use crate::table::{
    lemma_mode_frame, spec_apply_mode, spec_apply_op, spec_decode, spec_exec_instr, spec_step, Op,
};

verus! {

/// A status byte as the live register keeps it: the unused bit (5) set and
/// the break bit (4) clear.
pub open spec fn status_ok(s: u8) -> bool {
    flag_get(s, Flag::Unused) && !flag_get(s, Flag::Break)
}

/// The value of a byte read as a two's-complement signed quantity.
pub open spec fn signed(b: u8) -> int {
    if b < 0x80 {
        b as int
    } else {
        b - 0x100
    }
}

/// Reading a flag right after forcing it yields the forced value.
proof fn lemma_flag_set_get(s: u8, f: Flag, v: bool)
    ensures
        flag_get(flag_set(s, f, v), f) == v,
{
    assert(((s | 0x01u8) & 0x01u8 != 0)
            && ((s & 0xFEu8) & 0x01u8 == 0)
            && ((s | 0x02u8) & 0x02u8 != 0)
            && ((s & 0xFDu8) & 0x02u8 == 0)
            && ((s | 0x04u8) & 0x04u8 != 0)
            && ((s & 0xFBu8) & 0x04u8 == 0)
            && ((s | 0x08u8) & 0x08u8 != 0)
            && ((s & 0xF7u8) & 0x08u8 == 0)
            && ((s | 0x10u8) & 0x10u8 != 0)
            && ((s & 0xEFu8) & 0x10u8 == 0)
            && ((s | 0x20u8) & 0x20u8 != 0)
            && ((s & 0xDFu8) & 0x20u8 == 0)
            && ((s | 0x40u8) & 0x40u8 != 0)
            && ((s & 0xBFu8) & 0x40u8 == 0)
            && ((s | 0x80u8) & 0x80u8 != 0)
            && ((s & 0x7Fu8) & 0x80u8 == 0)) by (bit_vector);
}

/// Forcing one flag leaves every other flag as it was.
proof fn lemma_flag_set_keep(s: u8, f: Flag, g: Flag, v: bool)
    requires
        f != g,
    ensures
        flag_get(flag_set(s, f, v), g) == flag_get(s, g),
{
    assert(((s | 0x01u8) & 0x02u8 == s & 0x02u8)
            && ((s & 0xFEu8) & 0x02u8 == s & 0x02u8)
            && ((s | 0x01u8) & 0x04u8 == s & 0x04u8)
            && ((s & 0xFEu8) & 0x04u8 == s & 0x04u8)
            && ((s | 0x01u8) & 0x08u8 == s & 0x08u8)
            && ((s & 0xFEu8) & 0x08u8 == s & 0x08u8)
            && ((s | 0x01u8) & 0x10u8 == s & 0x10u8)
            && ((s & 0xFEu8) & 0x10u8 == s & 0x10u8)
            && ((s | 0x01u8) & 0x20u8 == s & 0x20u8)
            && ((s & 0xFEu8) & 0x20u8 == s & 0x20u8)
            && ((s | 0x01u8) & 0x40u8 == s & 0x40u8)
            && ((s & 0xFEu8) & 0x40u8 == s & 0x40u8)
            && ((s | 0x01u8) & 0x80u8 == s & 0x80u8)
            && ((s & 0xFEu8) & 0x80u8 == s & 0x80u8)
            && ((s | 0x02u8) & 0x01u8 == s & 0x01u8)
            && ((s & 0xFDu8) & 0x01u8 == s & 0x01u8)
            && ((s | 0x02u8) & 0x04u8 == s & 0x04u8)
            && ((s & 0xFDu8) & 0x04u8 == s & 0x04u8)
            && ((s | 0x02u8) & 0x08u8 == s & 0x08u8)
            && ((s & 0xFDu8) & 0x08u8 == s & 0x08u8)
            && ((s | 0x02u8) & 0x10u8 == s & 0x10u8)
            && ((s & 0xFDu8) & 0x10u8 == s & 0x10u8)
            && ((s | 0x02u8) & 0x20u8 == s & 0x20u8)
            && ((s & 0xFDu8) & 0x20u8 == s & 0x20u8)
            && ((s | 0x02u8) & 0x40u8 == s & 0x40u8)
            && ((s & 0xFDu8) & 0x40u8 == s & 0x40u8)
            && ((s | 0x02u8) & 0x80u8 == s & 0x80u8)
            && ((s & 0xFDu8) & 0x80u8 == s & 0x80u8)
            && ((s | 0x04u8) & 0x01u8 == s & 0x01u8)
            && ((s & 0xFBu8) & 0x01u8 == s & 0x01u8)
            && ((s | 0x04u8) & 0x02u8 == s & 0x02u8)
            && ((s & 0xFBu8) & 0x02u8 == s & 0x02u8)
            && ((s | 0x04u8) & 0x08u8 == s & 0x08u8)
            && ((s & 0xFBu8) & 0x08u8 == s & 0x08u8)
            && ((s | 0x04u8) & 0x10u8 == s & 0x10u8)
            && ((s & 0xFBu8) & 0x10u8 == s & 0x10u8)
            && ((s | 0x04u8) & 0x20u8 == s & 0x20u8)
            && ((s & 0xFBu8) & 0x20u8 == s & 0x20u8)
            && ((s | 0x04u8) & 0x40u8 == s & 0x40u8)
            && ((s & 0xFBu8) & 0x40u8 == s & 0x40u8)
            && ((s | 0x04u8) & 0x80u8 == s & 0x80u8)
            && ((s & 0xFBu8) & 0x80u8 == s & 0x80u8)
            && ((s | 0x08u8) & 0x01u8 == s & 0x01u8)
            && ((s & 0xF7u8) & 0x01u8 == s & 0x01u8)
            && ((s | 0x08u8) & 0x02u8 == s & 0x02u8)
            && ((s & 0xF7u8) & 0x02u8 == s & 0x02u8)
            && ((s | 0x08u8) & 0x04u8 == s & 0x04u8)
            && ((s & 0xF7u8) & 0x04u8 == s & 0x04u8)
            && ((s | 0x08u8) & 0x10u8 == s & 0x10u8)
            && ((s & 0xF7u8) & 0x10u8 == s & 0x10u8)
            && ((s | 0x08u8) & 0x20u8 == s & 0x20u8)
            && ((s & 0xF7u8) & 0x20u8 == s & 0x20u8)
            && ((s | 0x08u8) & 0x40u8 == s & 0x40u8)
            && ((s & 0xF7u8) & 0x40u8 == s & 0x40u8)
            && ((s | 0x08u8) & 0x80u8 == s & 0x80u8)
            && ((s & 0xF7u8) & 0x80u8 == s & 0x80u8)
            && ((s | 0x10u8) & 0x01u8 == s & 0x01u8)
            && ((s & 0xEFu8) & 0x01u8 == s & 0x01u8)
            && ((s | 0x10u8) & 0x02u8 == s & 0x02u8)
            && ((s & 0xEFu8) & 0x02u8 == s & 0x02u8)
            && ((s | 0x10u8) & 0x04u8 == s & 0x04u8)
            && ((s & 0xEFu8) & 0x04u8 == s & 0x04u8)
            && ((s | 0x10u8) & 0x08u8 == s & 0x08u8)
            && ((s & 0xEFu8) & 0x08u8 == s & 0x08u8)
            && ((s | 0x10u8) & 0x20u8 == s & 0x20u8)
            && ((s & 0xEFu8) & 0x20u8 == s & 0x20u8)
            && ((s | 0x10u8) & 0x40u8 == s & 0x40u8)
            && ((s & 0xEFu8) & 0x40u8 == s & 0x40u8)
            && ((s | 0x10u8) & 0x80u8 == s & 0x80u8)
            && ((s & 0xEFu8) & 0x80u8 == s & 0x80u8)
            && ((s | 0x20u8) & 0x01u8 == s & 0x01u8)
            && ((s & 0xDFu8) & 0x01u8 == s & 0x01u8)
            && ((s | 0x20u8) & 0x02u8 == s & 0x02u8)
            && ((s & 0xDFu8) & 0x02u8 == s & 0x02u8)
            && ((s | 0x20u8) & 0x04u8 == s & 0x04u8)
            && ((s & 0xDFu8) & 0x04u8 == s & 0x04u8)
            && ((s | 0x20u8) & 0x08u8 == s & 0x08u8)
            && ((s & 0xDFu8) & 0x08u8 == s & 0x08u8)
            && ((s | 0x20u8) & 0x10u8 == s & 0x10u8)
            && ((s & 0xDFu8) & 0x10u8 == s & 0x10u8)
            && ((s | 0x20u8) & 0x40u8 == s & 0x40u8)
            && ((s & 0xDFu8) & 0x40u8 == s & 0x40u8)
            && ((s | 0x20u8) & 0x80u8 == s & 0x80u8)
            && ((s & 0xDFu8) & 0x80u8 == s & 0x80u8)
            && ((s | 0x40u8) & 0x01u8 == s & 0x01u8)
            && ((s & 0xBFu8) & 0x01u8 == s & 0x01u8)
            && ((s | 0x40u8) & 0x02u8 == s & 0x02u8)
            && ((s & 0xBFu8) & 0x02u8 == s & 0x02u8)
            && ((s | 0x40u8) & 0x04u8 == s & 0x04u8)
            && ((s & 0xBFu8) & 0x04u8 == s & 0x04u8)
            && ((s | 0x40u8) & 0x08u8 == s & 0x08u8)
            && ((s & 0xBFu8) & 0x08u8 == s & 0x08u8)
            && ((s | 0x40u8) & 0x10u8 == s & 0x10u8)
            && ((s & 0xBFu8) & 0x10u8 == s & 0x10u8)
            && ((s | 0x40u8) & 0x20u8 == s & 0x20u8)
            && ((s & 0xBFu8) & 0x20u8 == s & 0x20u8)
            && ((s | 0x40u8) & 0x80u8 == s & 0x80u8)
            && ((s & 0xBFu8) & 0x80u8 == s & 0x80u8)
            && ((s | 0x80u8) & 0x01u8 == s & 0x01u8)
            && ((s & 0x7Fu8) & 0x01u8 == s & 0x01u8)
            && ((s | 0x80u8) & 0x02u8 == s & 0x02u8)
            && ((s & 0x7Fu8) & 0x02u8 == s & 0x02u8)
            && ((s | 0x80u8) & 0x04u8 == s & 0x04u8)
            && ((s & 0x7Fu8) & 0x04u8 == s & 0x04u8)
            && ((s | 0x80u8) & 0x08u8 == s & 0x08u8)
            && ((s & 0x7Fu8) & 0x08u8 == s & 0x08u8)
            && ((s | 0x80u8) & 0x10u8 == s & 0x10u8)
            && ((s & 0x7Fu8) & 0x10u8 == s & 0x10u8)
            && ((s | 0x80u8) & 0x20u8 == s & 0x20u8)
            && ((s & 0x7Fu8) & 0x20u8 == s & 0x20u8)
            && ((s | 0x80u8) & 0x40u8 == s & 0x40u8)
            && ((s & 0x7Fu8) & 0x40u8 == s & 0x40u8)) by (bit_vector);
}

/// Forcing any flag other than break and unused preserves `status_ok`.
proof fn lemma_set_keeps_ok(s: u8, f: Flag, v: bool)
    requires
        status_ok(s),
        f != Flag::Break,
        f != Flag::Unused,
    ensures
        status_ok(flag_set(s, f, v)),
{
    lemma_flag_set_keep(s, f, Flag::Unused, v);
    lemma_flag_set_keep(s, f, Flag::Break, v);
}

/// Refreshing Z and N preserves `status_ok`.
proof fn lemma_zn_ok(s: u8, v: u8)
    requires
        status_ok(s),
    ensures
        status_ok(set_zn(s, v)),
{
    lemma_set_keeps_ok(s, Flag::Zero, v == 0);
    lemma_set_keeps_ok(flag_set(s, Flag::Zero, v == 0), Flag::Negative, v >= 0x80);
}

/// The add-with-carry flag update preserves `status_ok`.
proof fn lemma_adc_status_ok(s: u8, a: u8, v: u8)
    requires
        status_ok(s),
    ensures
        status_ok(adc_status(s, a, v)),
{
    let c = flag_get(s, Flag::Carry);
    let r = adc_out(a, v, c);
    let s1 = flag_set(s, Flag::Carry, a + v + (if c { 1int } else { 0int }) > 0xFF);
    let s2 = flag_set(s1, Flag::Zero, r == 0);
    let s3 = flag_set(s2, Flag::Overflow, adc_overflow(a, v, c));
    lemma_set_keeps_ok(s, Flag::Carry, a + v + (if c { 1int } else { 0int }) > 0xFF);
    lemma_set_keeps_ok(s1, Flag::Zero, r == 0);
    lemma_set_keeps_ok(s2, Flag::Overflow, adc_overflow(a, v, c));
    lemma_set_keeps_ok(s3, Flag::Negative, r >= 0x80);
}

/// The compare flag update preserves `status_ok`.
proof fn lemma_cmp_status_ok(s: u8, r: u8, v: u8)
    requires
        status_ok(s),
    ensures
        status_ok(cmp_status(s, r, v)),
{
    let s1 = flag_set(s, Flag::Carry, r >= v);
    let s2 = flag_set(s1, Flag::Zero, r == v);
    lemma_set_keeps_ok(s, Flag::Carry, r >= v);
    lemma_set_keeps_ok(s1, Flag::Zero, r == v);
    lemma_set_keeps_ok(s2, Flag::Negative, wrap8(r - v) >= 0x80);
}

/// The shift/rotate flag update preserves `status_ok`.
proof fn lemma_shift_status_ok(s: u8, carry: bool, r: u8)
    requires
        status_ok(s),
    ensures
        status_ok(shift_status(s, carry, r)),
{
    let s1 = flag_set(s, Flag::Carry, carry);
    let s2 = flag_set(s1, Flag::Zero, r == 0);
    lemma_set_keeps_ok(s, Flag::Carry, carry);
    lemma_set_keeps_ok(s1, Flag::Zero, r == 0);
    lemma_set_keeps_ok(s2, Flag::Negative, r >= 0x80);
}

/// The bit-test flag update preserves `status_ok`.
proof fn lemma_bit_status_ok(s: u8, a: u8, v: u8)
    requires
        status_ok(s),
    ensures
        status_ok(
            flag_set(
                flag_set(flag_set(s, Flag::Zero, (a & v) == 0), Flag::Overflow, (v & 0x40) != 0),
                Flag::Negative,
                v >= 0x80,
            ),
        ),
{
    let s1 = flag_set(s, Flag::Zero, (a & v) == 0);
    let s2 = flag_set(s1, Flag::Overflow, (v & 0x40) != 0);
    lemma_set_keeps_ok(s, Flag::Zero, (a & v) == 0);
    lemma_set_keeps_ok(s1, Flag::Overflow, (v & 0x40) != 0);
    lemma_set_keeps_ok(s2, Flag::Negative, v >= 0x80);
}

/// A status byte pulled from the stack is forced into `status_ok` shape:
/// unused set, break clear.
proof fn lemma_forced_status(v: u8)
    ensures
        status_ok((v | 0x20) & 0xEF),
{
    assert(((v | 0x20u8) & 0xEFu8) & 0x20u8 != 0 && ((v | 0x20u8) & 0xEFu8) & 0x10u8 == 0)
        by (bit_vector);
}

/// No handler disturbs the status invariant: if the unused bit is set and
/// the break bit clear before an instruction's operation, so they are after.
proof fn lemma_op_status(op: Op, m: CpuModel)
    requires
        wf(m),
        status_ok(m.status),
    ensures
        status_ok(spec_apply_op(op, m).status),
{
    match op {
        Op::Brk => {
            lemma_set_keeps_ok(m.status, Flag::InterruptDisable, true);
            assert(status_ok(spec_apply_op(op, m).status));
        },
        Op::Jsr => assert(status_ok(spec_apply_op(op, m).status)),
        Op::Rti => {
            lemma_forced_status(mem_at(m, stack_addr(wrap8(m.sp + 1))));
            assert(status_ok(spec_apply_op(op, m).status));
        },
        Op::Rts => assert(status_ok(spec_apply_op(op, m).status)),
        Op::Lda => {
            lemma_zn_ok(m.status, mem_at(m, m.addr_abs));
            assert(status_ok(spec_apply_op(op, m).status));
        },
        Op::Ldx => {
            lemma_zn_ok(m.status, mem_at(m, m.addr_abs));
            assert(status_ok(spec_apply_op(op, m).status));
        },
        Op::Ldy => {
            lemma_zn_ok(m.status, mem_at(m, m.addr_abs));
            assert(status_ok(spec_apply_op(op, m).status));
        },
        Op::Sta => assert(status_ok(spec_apply_op(op, m).status)),
        Op::Stx => assert(status_ok(spec_apply_op(op, m).status)),
        Op::Sty => assert(status_ok(spec_apply_op(op, m).status)),
        Op::Cmp => {
            lemma_cmp_status_ok(m.status, m.a, mem_at(m, m.addr_abs));
            assert(status_ok(spec_apply_op(op, m).status));
        },
        Op::Cpx => {
            lemma_cmp_status_ok(m.status, m.x, mem_at(m, m.addr_abs));
            assert(status_ok(spec_apply_op(op, m).status));
        },
        Op::Cpy => {
            lemma_cmp_status_ok(m.status, m.y, mem_at(m, m.addr_abs));
            assert(status_ok(spec_apply_op(op, m).status));
        },
        Op::Bit => {
            lemma_bit_status_ok(m.status, m.a, mem_at(m, m.addr_abs));
            assert(status_ok(spec_apply_op(op, m).status));
        },
        Op::Ora => {
            lemma_zn_ok(m.status, m.a | mem_at(m, m.addr_abs));
            assert(status_ok(spec_apply_op(op, m).status));
        },
        Op::And => {
            lemma_zn_ok(m.status, m.a & mem_at(m, m.addr_abs));
            assert(status_ok(spec_apply_op(op, m).status));
        },
        Op::Eor => {
            lemma_zn_ok(m.status, m.a ^ mem_at(m, m.addr_abs));
            assert(status_ok(spec_apply_op(op, m).status));
        },
        Op::Adc => {
            lemma_adc_status_ok(m.status, m.a, mem_at(m, m.addr_abs));
            assert(status_ok(spec_apply_op(op, m).status));
        },
        Op::Sbc => {
            lemma_adc_status_ok(m.status, m.a, mem_at(m, m.addr_abs) ^ 0xFF);
            assert(status_ok(spec_apply_op(op, m).status));
        },
        Op::AslAcc => {
            lemma_shift_status_ok(m.status, m.a >= 0x80, asl_out(m.a));
            assert(status_ok(spec_apply_op(op, m).status));
        },
        Op::AslMem => {
            lemma_shift_status_ok(m.status, mem_at(m, m.addr_abs) >= 0x80, asl_out(mem_at(m, m.addr_abs)));
            assert(status_ok(spec_apply_op(op, m).status));
        },
        Op::LsrAcc => {
            lemma_shift_status_ok(m.status, m.a % 2 == 1, lsr_out(m.a));
            assert(status_ok(spec_apply_op(op, m).status));
        },
        Op::LsrMem => {
            lemma_shift_status_ok(m.status, mem_at(m, m.addr_abs) % 2 == 1, lsr_out(mem_at(m, m.addr_abs)));
            assert(status_ok(spec_apply_op(op, m).status));
        },
        Op::RolAcc => {
            lemma_shift_status_ok(m.status, m.a >= 0x80, rol_out(m.a, flag_get(m.status, Flag::Carry)));
            assert(status_ok(spec_apply_op(op, m).status));
        },
        Op::RolMem => {
            lemma_shift_status_ok(m.status, mem_at(m, m.addr_abs) >= 0x80, rol_out(mem_at(m, m.addr_abs), flag_get(m.status, Flag::Carry)));
            assert(status_ok(spec_apply_op(op, m).status));
        },
        Op::RorAcc => {
            lemma_shift_status_ok(m.status, m.a % 2 == 1, ror_out(m.a, flag_get(m.status, Flag::Carry)));
            assert(status_ok(spec_apply_op(op, m).status));
        },
        Op::RorMem => {
            lemma_shift_status_ok(m.status, mem_at(m, m.addr_abs) % 2 == 1, ror_out(mem_at(m, m.addr_abs), flag_get(m.status, Flag::Carry)));
            assert(status_ok(spec_apply_op(op, m).status));
        },
        Op::Inc => {
            lemma_zn_ok(m.status, wrap8(mem_at(m, m.addr_abs) + 1));
            assert(status_ok(spec_apply_op(op, m).status));
        },
        Op::Dec => {
            lemma_zn_ok(m.status, wrap8(mem_at(m, m.addr_abs) - 1));
            assert(status_ok(spec_apply_op(op, m).status));
        },
        Op::Inx => {
            lemma_zn_ok(m.status, wrap8(m.x + 1));
            assert(status_ok(spec_apply_op(op, m).status));
        },
        Op::Iny => {
            lemma_zn_ok(m.status, wrap8(m.y + 1));
            assert(status_ok(spec_apply_op(op, m).status));
        },
        Op::Dex => {
            lemma_zn_ok(m.status, wrap8(m.x - 1));
            assert(status_ok(spec_apply_op(op, m).status));
        },
        Op::Dey => {
            lemma_zn_ok(m.status, wrap8(m.y - 1));
            assert(status_ok(spec_apply_op(op, m).status));
        },
        Op::Tax => {
            lemma_zn_ok(m.status, m.a);
            assert(status_ok(spec_apply_op(op, m).status));
        },
        Op::Tay => {
            lemma_zn_ok(m.status, m.a);
            assert(status_ok(spec_apply_op(op, m).status));
        },
        Op::Txa => {
            lemma_zn_ok(m.status, m.x);
            assert(status_ok(spec_apply_op(op, m).status));
        },
        Op::Tya => {
            lemma_zn_ok(m.status, m.y);
            assert(status_ok(spec_apply_op(op, m).status));
        },
        Op::Tsx => {
            lemma_zn_ok(m.status, m.sp);
            assert(status_ok(spec_apply_op(op, m).status));
        },
        Op::Txs => assert(status_ok(spec_apply_op(op, m).status)),
        Op::Pha => assert(status_ok(spec_apply_op(op, m).status)),
        Op::Php => assert(status_ok(spec_apply_op(op, m).status)),
        Op::Pla => {
            lemma_zn_ok(m.status, mem_at(m, stack_addr(wrap8(m.sp + 1))));
            assert(status_ok(spec_apply_op(op, m).status));
        },
        Op::Plp => {
            lemma_forced_status(mem_at(m, stack_addr(wrap8(m.sp + 1))));
            assert(status_ok(spec_apply_op(op, m).status));
        },
        Op::Jmp => assert(status_ok(spec_apply_op(op, m).status)),
        Op::Bpl => assert(status_ok(spec_apply_op(op, m).status)),
        Op::Bmi => assert(status_ok(spec_apply_op(op, m).status)),
        Op::Bvc => assert(status_ok(spec_apply_op(op, m).status)),
        Op::Bvs => assert(status_ok(spec_apply_op(op, m).status)),
        Op::Bcc => assert(status_ok(spec_apply_op(op, m).status)),
        Op::Bcs => assert(status_ok(spec_apply_op(op, m).status)),
        Op::Bne => assert(status_ok(spec_apply_op(op, m).status)),
        Op::Beq => assert(status_ok(spec_apply_op(op, m).status)),
        Op::Clc => {
            lemma_set_keeps_ok(m.status, Flag::Carry, false);
            assert(status_ok(spec_apply_op(op, m).status));
        },
        Op::Sec => {
            lemma_set_keeps_ok(m.status, Flag::Carry, true);
            assert(status_ok(spec_apply_op(op, m).status));
        },
        Op::Cli => {
            lemma_set_keeps_ok(m.status, Flag::InterruptDisable, false);
            assert(status_ok(spec_apply_op(op, m).status));
        },
        Op::Sei => {
            lemma_set_keeps_ok(m.status, Flag::InterruptDisable, true);
            assert(status_ok(spec_apply_op(op, m).status));
        },
        Op::Clv => {
            lemma_set_keeps_ok(m.status, Flag::Overflow, false);
            assert(status_ok(spec_apply_op(op, m).status));
        },
        Op::Cld => {
            lemma_set_keeps_ok(m.status, Flag::Decimal, false);
            assert(status_ok(spec_apply_op(op, m).status));
        },
        Op::Sed => {
            lemma_set_keeps_ok(m.status, Flag::Decimal, true);
            assert(status_ok(spec_apply_op(op, m).status));
        },
        Op::Nop => assert(status_ok(spec_apply_op(op, m).status)),
    }
}

/// The unused-bit and break-bit invariant: a tick never disturbs them.
/// After any instruction completes from a live status (`P & 0x20 == 0x20`
/// and `P & 0x10 == 0`), the new status satisfies the same; a status with
/// the unused bit clear going in (which only an external write can produce)
/// is outside the law.
pub proof fn lemma_status_bits_invariant(m: CpuModel)
    requires
        wf(m),
        status_ok(m.status),
    ensures
        status_ok(spec_step(m).status),
{
    if m.cycles == 0 {
        let ins = spec_decode(mem_at(m, m.pc));
        lemma_mode_frame(ins.mode, m);
        let m1 = spec_apply_mode(ins.mode, m).0;
        lemma_op_status(ins.op, m1);
    }
}

/// The stack never leaves page one: every stack pointer value addresses
/// `0x0100..=0x01FF`, so pushes and pulls wrap within the stack page.
pub proof fn lemma_stack_page(sp: u8)
    ensures
        0x0100 <= stack_addr(sp) <= 0x01FF,
{
}

/// Push/pull duality: pulling right after pushing a byte returns that byte
/// and restores the stack pointer, whatever the rest of the state.
pub proof fn lemma_push_pull_roundtrip(m: CpuModel, b: u8)
    requires
        wf(m),
    ensures
        spec_pull(spec_push(m, b)).1 == b,
        spec_pull(spec_push(m, b)).0.sp == m.sp,
        spec_pull(spec_push(m, b)).0.mem == spec_push(m, b).mem,
{
}

/// JSR/RTS round trip: with no other stack activity between them, RTS
/// returns to the byte after the JSR's last operand byte (opcode + 3) and
/// restores the stack pointer exactly.
pub proof fn lemma_jsr_rts_roundtrip(m: CpuModel)
    requires
        wf(m),
    ensures
        spec_rts(spec_jsr(m)).pc == wrap16(m.pc + 3),
        spec_rts(spec_jsr(m)).sp == m.sp,
{
    let ret = wrap16(m.pc + 2);
    let hi: u8 = (ret / 0x100) as u8;
    let lo: u8 = (ret % 0x100) as u8;
    let m1 = spec_push(m, hi);
    let m2 = spec_push(m1, lo);
    assert(stack_addr(m.sp) != stack_addr(wrap8(m.sp - 1)));
    assert(spec_pull(m2).1 == lo);
    assert(spec_pull(spec_pull(m2).0).1 == hi);
    assert(word(lo, hi) == ret);
    assert(wrap16(word(lo, hi) + 1) == wrap16(m.pc + 3));
}

/// BRK/RTI round trip: RTI lands on the byte after the BRK padding byte
/// (opcode + 2), restores the stack pointer, and restores the prior status
/// with the unused bit forced set and the break bit forced clear; a status
/// already in live shape comes back unchanged.
pub proof fn lemma_brk_rti_roundtrip(m: CpuModel)
    requires
        wf(m),
    ensures
        spec_rti(spec_brk(m)).pc == wrap16(m.pc + 2),
        spec_rti(spec_brk(m)).sp == m.sp,
        spec_rti(spec_brk(m)).status == (m.status | 0x20) & 0xEF,
        status_ok(m.status) ==> spec_rti(spec_brk(m)).status == m.status,
{
    let ret = wrap16(m.pc + 2);
    let hi: u8 = (ret / 0x100) as u8;
    let lo: u8 = (ret % 0x100) as u8;
    let pushed = m.status | 0x30;
    let m1 = spec_push(m, hi);
    let m2 = spec_push(m1, lo);
    let m3 = spec_push(m2, pushed);
    assert(stack_addr(m.sp) != stack_addr(wrap8(m.sp - 1)));
    assert(stack_addr(m.sp) != stack_addr(wrap8(wrap8(m.sp - 1) - 1)));
    assert(stack_addr(wrap8(m.sp - 1)) != stack_addr(wrap8(wrap8(m.sp - 1) - 1)));
    assert(spec_pull(m3).1 == pushed);
    assert(spec_pull(spec_pull(m3).0).1 == lo);
    assert(spec_pull(spec_pull(spec_pull(m3).0).0).1 == hi);
    assert(word(lo, hi) == ret);
    let s = m.status;
    assert((s | 0x30u8) | 0x20u8 == s | 0x30u8 && ((s | 0x30u8) | 0x20) & 0xEFu8 == (s | 0x20u8)
        & 0xEFu8 && (s & 0x20u8 != 0 && s & 0x10u8 == 0 ==> (s | 0x20u8) & 0xEFu8 == s))
        by (bit_vector);
}

/// Compare flag law: after CMP of register byte `r` against memory byte `v`,
/// carry holds exactly when `r >= v`, zero exactly when they are equal, and
/// negative mirrors bit 7 of the wrapped difference `(r - v) mod 256`.
pub proof fn lemma_cmp_flags(s: u8, r: u8, v: u8)
    ensures
        flag_get(cmp_status(s, r, v), Flag::Carry) <==> r >= v,
        flag_get(cmp_status(s, r, v), Flag::Zero) <==> r == v,
        flag_get(cmp_status(s, r, v), Flag::Negative) <==> wrap8(r - v) >= 0x80,
{
    let s1 = flag_set(s, Flag::Carry, r >= v);
    let s2 = flag_set(s1, Flag::Zero, r == v);
    let s3 = flag_set(s2, Flag::Negative, wrap8(r - v) >= 0x80);
    lemma_flag_set_get(s, Flag::Carry, r >= v);
    lemma_flag_set_keep(s1, Flag::Zero, Flag::Carry, r == v);
    lemma_flag_set_keep(s2, Flag::Negative, Flag::Carry, wrap8(r - v) >= 0x80);
    lemma_flag_set_get(s1, Flag::Zero, r == v);
    lemma_flag_set_keep(s2, Flag::Negative, Flag::Zero, wrap8(r - v) >= 0x80);
    lemma_flag_set_get(s2, Flag::Negative, wrap8(r - v) >= 0x80);
}

/// ADC/SBC duality: subtracting a memory byte is exactly adding its ones'
/// complement, accumulator and status alike, with the carry treated
/// identically.
pub proof fn lemma_adc_sbc_duality(m: CpuModel)
    requires
        wf(m),
    ensures
        ({
            let flipped = CpuModel {
                mem: m.mem.update(m.addr_abs as int, mem_at(m, m.addr_abs) ^ 0xFF),
                ..m
            };
            spec_sbc(m).a == spec_adc(flipped).a && spec_sbc(m).status == spec_adc(flipped).status
        }),
{
}

/// The overflow flag of the add-with-carry datapath is exact: it is set
/// precisely when the signed sum of the operands and the carry falls outside
/// the signed byte range `-128..=127`.
pub proof fn lemma_adc_overflow_exact(a: u8, v: u8, c: bool)
    ensures
        adc_overflow(a, v, c) <==> !(-128 <= signed(a) + signed(v) + (if c {
            1int
        } else {
            0int
        }) <= 127),
{
    let cc: u8 = if c {
        1
    } else {
        0
    };
    let r = adc_out(a, v, c);
    assert(r == (a + v + cc) % 256);
    assert((((a ^ r) & (v ^ r) & 0x80) != 0) <==> !(-128 <= (if a < 0x80 {
        a as int
    } else {
        a - 0x100
    }) + (if v < 0x80 {
        v as int
    } else {
        v - 0x100
    }) + cc <= 127)) by (bit_vector)
        requires
            cc <= 1 && r == (a + v + cc) % 256,
    ;
}

/// The indirect-JMP page-wrap bug: when the pointer's low byte is `0xFF`,
/// the high byte of the jump target is read from the start of the pointer's
/// page (`ptr & 0xFF00`), not from `ptr + 1`.
pub proof fn lemma_jmp_indirect_page_wrap(m: CpuModel)
    requires
        wf(m),
        mem_at(m, wrap16(m.pc + 1)) == 0xFF,
    ensures
        ({
            let hi = mem_at(m, wrap16(m.pc + 2));
            spec_ind(m).addr_abs == word(mem_at(m, word(0xFF, hi)), mem_at(m, word(0, hi)))
        }),
{
}

/// Which opcodes are the eight conditional branches.
pub open spec fn is_branch(opcode: u8) -> bool {
    opcode == 0x10 || opcode == 0x30 || opcode == 0x50 || opcode == 0x70 || opcode == 0x90
        || opcode == 0xB0 || opcode == 0xD0 || opcode == 0xF0
}

/// The flag condition under which a branch opcode is taken.
pub open spec fn branch_taken_cond(opcode: u8, s: u8) -> bool {
    if opcode == 0x10 {
        !flag_get(s, Flag::Negative)
    } else if opcode == 0x30 {
        flag_get(s, Flag::Negative)
    } else if opcode == 0x50 {
        !flag_get(s, Flag::Overflow)
    } else if opcode == 0x70 {
        flag_get(s, Flag::Overflow)
    } else if opcode == 0x90 {
        !flag_get(s, Flag::Carry)
    } else if opcode == 0xB0 {
        flag_get(s, Flag::Carry)
    } else if opcode == 0xD0 {
        !flag_get(s, Flag::Zero)
    } else {
        flag_get(s, Flag::Zero)
    }
}

/// Branch cycle accounting: from an instruction boundary at a branch
/// opcode, the instruction takes 2 cycles when not taken, 3 when taken onto
/// the same page as the PC after the operand, and 4 when taken across a
/// page.
pub proof fn lemma_branch_cycles(m: CpuModel)
    requires
        wf(m),
        m.cycles == 0,
        is_branch(mem_at(m, m.pc)),
    ensures
        ({
            let after = wrap16(m.pc + 2);
            let target = wrap16(after + sign_ext(mem_at(m, wrap16(m.pc + 1))));
            spec_step(m).cycles + 1 == if !branch_taken_cond(mem_at(m, m.pc), m.status) {
                2int
            } else if page(target) == page(after) {
                3int
            } else {
                4int
            }
        }),
{
    let opcode = mem_at(m, m.pc);
    let m1 = spec_rel(advance1(m));
    assert(m1.pc == wrap16(m.pc + 2));
    assert(m1.addr_rel == sign_ext(mem_at(m, wrap16(m.pc + 1))));
    assert(spec_apply_mode(spec_decode(opcode).mode, m).0 == m1);
}

} // verus!
