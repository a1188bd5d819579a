//! The mathematical model of the processor.
//!
//! [`CpuModel`] mirrors the executable [`crate::cpu::Cpu`] field for field,
//! with memory as a `Seq<u8>`.  The `spec_*` functions in this module are the
//! semantics of the machine: each addressing mode and each instruction is a
//! pure transition on `CpuModel`, and the executable code is verified to
//! implement exactly these transitions.

use vstd::prelude::*;

use crate::cpu::Flag;

verus! {

/// Ghost mirror of the processor: registers, cycle budget, per-instruction
/// scratch fields, and the 64 KiB memory as a sequence of bytes.
#[verifier::ext_equal]
pub ghost struct CpuModel {
    pub pc: u16,
    pub sp: u8,
    pub status: u8,
    pub a: u8,
    pub x: u8,
    pub y: u8,
    pub cycles: u8,
    pub addr_abs: u16,
    pub addr_rel: i16,
    pub fetched: u8,
    pub mem: Seq<u8>,
}

/// Size of the address space: memory holds one byte per 16-bit address.
pub open spec fn wf(m: CpuModel) -> bool {
    m.mem.len() == 0x10000
}

/// Reduction modulo 256, defined for one step of wrap-around on either side;
/// every 8-bit quantity in the machine is reduced by this.
pub open spec fn wrap8(v: int) -> u8 {
    if v < 0 {
        (v + 0x100) as u8
    } else if v > 0xFF {
        (v - 0x100) as u8
    } else {
        v as u8
    }
}

/// Reduction modulo 65536, defined for one step of wrap-around on either
/// side; all program-counter arithmetic is reduced by this.
pub open spec fn wrap16(v: int) -> u16 {
    if v < 0 {
        (v + 0x10000) as u16
    } else if v > 0xFFFF {
        (v - 0x10000) as u16
    } else {
        v as u16
    }
}

/// The byte in memory at a 16-bit address.
pub open spec fn mem_at(m: CpuModel, addr: u16) -> u8 {
    m.mem[addr as int]
}

/// The 256-byte page an address falls in.
pub open spec fn page(addr: u16) -> u16 {
    addr / 0x100
}

/// A 16-bit little-endian value assembled from two bytes.
pub open spec fn word(lo: u8, hi: u8) -> u16 {
    (hi * 0x100 + lo) as u16
}

/// The bit of the status register that carries a flag.
pub open spec fn flag_mask(f: Flag) -> u8 {
    match f {
        Flag::Carry => 0x01,
        Flag::Zero => 0x02,
        Flag::InterruptDisable => 0x04,
        Flag::Decimal => 0x08,
        Flag::Break => 0x10,
        Flag::Unused => 0x20,
        Flag::Overflow => 0x40,
        Flag::Negative => 0x80,
    }
}

/// All bits of the status register except the one that carries a flag.
pub open spec fn flag_clear_mask(f: Flag) -> u8 {
    match f {
        Flag::Carry => 0xFE,
        Flag::Zero => 0xFD,
        Flag::InterruptDisable => 0xFB,
        Flag::Decimal => 0xF7,
        Flag::Break => 0xEF,
        Flag::Unused => 0xDF,
        Flag::Overflow => 0xBF,
        Flag::Negative => 0x7F,
    }
}

/// Whether a flag is set in a status byte.
pub open spec fn flag_get(s: u8, f: Flag) -> bool {
    s & flag_mask(f) != 0
}

/// A status byte with one flag forced set or clear.
pub open spec fn flag_set(s: u8, f: Flag, on: bool) -> u8 {
    if on {
        s | flag_mask(f)
    } else {
        s & flag_clear_mask(f)
    }
}

/// The stack lives in page one: the address a stack pointer designates.
pub open spec fn stack_addr(sp: u8) -> u16 {
    (0x0100 + sp) as u16
}

/// Push: write at the stack address, then decrement SP (wrapping within the
/// page).
pub open spec fn spec_push(m: CpuModel, value: u8) -> CpuModel {
    CpuModel {
        mem: m.mem.update(stack_addr(m.sp) as int, value),
        sp: wrap8(m.sp - 1),
        ..m
    }
}

/// Pull: increment SP (wrapping within the page), then read at the stack
/// address.  Returns the state and the byte read.
pub open spec fn spec_pull(m: CpuModel) -> (CpuModel, u8) {
    let sp1 = wrap8(m.sp + 1);
    (CpuModel { sp: sp1, ..m }, mem_at(m, stack_addr(sp1)))
}

/// PC advanced by one byte (past an opcode), everything else unchanged.
pub open spec fn advance1(m: CpuModel) -> CpuModel {
    CpuModel { pc: wrap16(m.pc + 1), ..m }
}

/// A relative operand byte read as a signed offset: values `0x80..=0xFF`
/// stand for `-128..=-1`.
pub open spec fn sign_ext(b: u8) -> i16 {
    if b < 0x80 {
        b as i16
    } else {
        (b - 0x100) as i16
    }
}

/// Immediate mode, entered with PC at the opcode: the operand's own address
/// becomes the effective address, and PC moves past opcode and operand.
pub open spec fn spec_imm(m: CpuModel) -> CpuModel {
    CpuModel { addr_abs: wrap16(m.pc + 1), pc: wrap16(m.pc + 2), ..m }
}

/// Zero-page mode, entered with PC at the operand: the operand byte is the
/// effective address.
pub open spec fn spec_zp0(m: CpuModel) -> CpuModel {
    CpuModel { addr_abs: mem_at(m, m.pc) as u16, pc: wrap16(m.pc + 1), ..m }
}

/// Zero-page,X mode, entered with PC at the operand: operand plus X, wrapping
/// within the zero page.
pub open spec fn spec_zpx(m: CpuModel) -> CpuModel {
    CpuModel { addr_abs: wrap8(mem_at(m, m.pc) + m.x) as u16, pc: wrap16(m.pc + 1), ..m }
}

/// Zero-page,Y mode, entered with PC at the operand: operand plus Y, wrapping
/// within the zero page.
pub open spec fn spec_zpy(m: CpuModel) -> CpuModel {
    CpuModel { addr_abs: wrap8(mem_at(m, m.pc) + m.y) as u16, pc: wrap16(m.pc + 1), ..m }
}

/// Relative mode, entered with PC at the operand: record the sign-extended
/// branch offset.
pub open spec fn spec_rel(m: CpuModel) -> CpuModel {
    CpuModel { addr_rel: sign_ext(mem_at(m, m.pc)), pc: wrap16(m.pc + 1), ..m }
}

/// The little-endian 16-bit operand of a three-byte instruction, read with PC
/// at the opcode.
pub open spec fn abs_operand(m: CpuModel) -> u16 {
    word(mem_at(m, wrap16(m.pc + 1)), mem_at(m, wrap16(m.pc + 2)))
}

/// Absolute mode, entered with PC at the opcode.
pub open spec fn spec_abs(m: CpuModel) -> CpuModel {
    CpuModel { addr_abs: abs_operand(m), pc: wrap16(m.pc + 3), ..m }
}

/// Absolute,X mode, entered with PC at the opcode.
pub open spec fn spec_absx(m: CpuModel) -> CpuModel {
    CpuModel { addr_abs: wrap16(abs_operand(m) + m.x), pc: wrap16(m.pc + 3), ..m }
}

/// The page-cross penalty of absolute,X: one extra cycle when indexing leaves
/// the base page.
pub open spec fn spec_absx_extra(m: CpuModel) -> u8 {
    if page(abs_operand(m)) != page(wrap16(abs_operand(m) + m.x)) {
        1
    } else {
        0
    }
}

/// Absolute,Y mode, entered with PC at the opcode.
pub open spec fn spec_absy(m: CpuModel) -> CpuModel {
    CpuModel { addr_abs: wrap16(abs_operand(m) + m.y), pc: wrap16(m.pc + 3), ..m }
}

/// The page-cross penalty of absolute,Y.
pub open spec fn spec_absy_extra(m: CpuModel) -> u8 {
    if page(abs_operand(m)) != page(wrap16(abs_operand(m) + m.y)) {
        1
    } else {
        0
    }
}

/// Indirect mode, entered with PC at the opcode, with the hardware page-wrap
/// bug: when the pointer's low byte is `0xFF`, the high byte of the target is
/// read from the start of the pointer's page rather than from `pointer + 1`.
pub open spec fn spec_ind(m: CpuModel) -> CpuModel {
    let lo = mem_at(m, wrap16(m.pc + 1));
    let hi = mem_at(m, wrap16(m.pc + 2));
    let ptr = word(lo, hi);
    let t_lo = mem_at(m, ptr);
    let t_hi = if lo == 0xFF {
        mem_at(m, word(0, hi))
    } else {
        mem_at(m, wrap16(ptr + 1))
    };
    CpuModel { addr_abs: word(t_lo, t_hi), pc: wrap16(m.pc + 3), ..m }
}

/// Indexed indirect mode, entered with PC at the operand: the operand plus X
/// names a zero-page pointer, both of whose bytes are read with zero-page
/// wrap.
pub open spec fn spec_izx(m: CpuModel) -> CpuModel {
    let t = wrap8(mem_at(m, m.pc) + m.x);
    let lo = mem_at(m, t as u16);
    let hi = mem_at(m, wrap8(t + 1) as u16);
    CpuModel { addr_abs: word(lo, hi), pc: wrap16(m.pc + 1), ..m }
}

/// The base address of indirect indexed mode: a 16-bit pointer read from the
/// zero page (high byte with zero-page wrap), before Y is added.
pub open spec fn izy_base(m: CpuModel) -> u16 {
    let z = mem_at(m, m.pc);
    word(mem_at(m, z as u16), mem_at(m, wrap8(z + 1) as u16))
}

/// Indirect indexed mode, entered with PC at the operand.
pub open spec fn spec_izy(m: CpuModel) -> CpuModel {
    CpuModel { addr_abs: wrap16(izy_base(m) + m.y), pc: wrap16(m.pc + 1), ..m }
}

/// The page-cross penalty of indirect indexed mode.
pub open spec fn spec_izy_extra(m: CpuModel) -> u8 {
    if page(izy_base(m)) != page(wrap16(izy_base(m) + m.y)) {
        1
    } else {
        0
    }
}

/// Fetch: latch the byte at the effective address into the `fetched` scratch
/// register.
pub open spec fn spec_fetch(m: CpuModel) -> CpuModel {
    CpuModel { fetched: mem_at(m, m.addr_abs), ..m }
}

/// Z and N refreshed from a result byte: Z mirrors the byte being zero, N its
/// top bit.
pub open spec fn set_zn(s: u8, v: u8) -> u8 {
    flag_set(flag_set(s, Flag::Zero, v == 0), Flag::Negative, v >= 0x80)
}

/// The sum of the add-with-carry datapath, before reduction.
pub open spec fn adc_sum(a: u8, v: u8, c: bool) -> int {
    a + v + if c {
        1int
    } else {
        0int
    }
}

/// The result byte of add-with-carry.
pub open spec fn adc_out(a: u8, v: u8, c: bool) -> u8 {
    wrap8(adc_sum(a, v, c))
}

/// The signed-overflow condition of add-with-carry: the operands share a sign
/// that differs from the result's.
pub open spec fn adc_overflow(a: u8, v: u8, c: bool) -> bool {
    ((a ^ adc_out(a, v, c)) & (v ^ adc_out(a, v, c)) & 0x80) != 0
}

/// The status register after add-with-carry of an operand byte: C is the
/// carry out, Z and N follow the result, V the signed overflow.
pub open spec fn adc_status(s: u8, a: u8, v: u8) -> u8 {
    let c = flag_get(s, Flag::Carry);
    let r = adc_out(a, v, c);
    flag_set(
        flag_set(
            flag_set(flag_set(s, Flag::Carry, adc_sum(a, v, c) > 0xFF), Flag::Zero, r == 0),
            Flag::Overflow,
            adc_overflow(a, v, c),
        ),
        Flag::Negative,
        r >= 0x80,
    )
}

/// The status register after a compare of register byte `r` against memory
/// byte `v`: C iff `r >= v`, Z iff equal, N from the top bit of the wrapped
/// difference.
pub open spec fn cmp_status(s: u8, r: u8, v: u8) -> u8 {
    flag_set(
        flag_set(flag_set(s, Flag::Carry, r >= v), Flag::Zero, r == v),
        Flag::Negative,
        wrap8(r - v) >= 0x80,
    )
}

/// The status register after a shift or rotate: C is the bit shifted out,
/// Z and N follow the result.
pub open spec fn shift_status(s: u8, carry: bool, r: u8) -> u8 {
    flag_set(flag_set(flag_set(s, Flag::Carry, carry), Flag::Zero, r == 0), Flag::Negative, r >= 0x80)
}

/// Shift left: the low bit becomes 0, the old top bit is the carry out.
pub open spec fn asl_out(v: u8) -> u8 {
    wrap8(v * 2)
}

/// Shift right: the top bit becomes 0, the old low bit is the carry out.
pub open spec fn lsr_out(v: u8) -> u8 {
    v / 2
}

/// Rotate left through carry: the old carry enters at bit 0.
pub open spec fn rol_out(v: u8, c: bool) -> u8 {
    wrap8(v * 2 + if c {
        1int
    } else {
        0int
    })
}

/// Rotate right through carry: the old carry enters at bit 7.
pub open spec fn ror_out(v: u8, c: bool) -> u8 {
    (v / 2 + if c {
        0x80int
    } else {
        0int
    }) as u8
}

/// LDA: load the accumulator through the effective address; Z and N follow.
pub open spec fn spec_lda(m: CpuModel) -> CpuModel {
    let v = mem_at(m, m.addr_abs);
    CpuModel { fetched: v, a: v, status: set_zn(m.status, v), ..m }
}

/// LDX: load X through the effective address; Z and N follow.
pub open spec fn spec_ldx(m: CpuModel) -> CpuModel {
    let v = mem_at(m, m.addr_abs);
    CpuModel { fetched: v, x: v, status: set_zn(m.status, v), ..m }
}

/// LDY: load Y through the effective address; Z and N follow.
pub open spec fn spec_ldy(m: CpuModel) -> CpuModel {
    let v = mem_at(m, m.addr_abs);
    CpuModel { fetched: v, y: v, status: set_zn(m.status, v), ..m }
}

/// STA: store the accumulator at the effective address; flags unchanged.
pub open spec fn spec_sta(m: CpuModel) -> CpuModel {
    CpuModel { mem: m.mem.update(m.addr_abs as int, m.a), ..m }
}

/// STX: store X at the effective address; flags unchanged.
pub open spec fn spec_stx(m: CpuModel) -> CpuModel {
    CpuModel { mem: m.mem.update(m.addr_abs as int, m.x), ..m }
}

/// STY: store Y at the effective address; flags unchanged.
pub open spec fn spec_sty(m: CpuModel) -> CpuModel {
    CpuModel { mem: m.mem.update(m.addr_abs as int, m.y), ..m }
}

/// TAX: copy A to X; Z and N follow.
pub open spec fn spec_tax(m: CpuModel) -> CpuModel {
    CpuModel { x: m.a, status: set_zn(m.status, m.a), ..m }
}

/// TAY: copy A to Y; Z and N follow.
pub open spec fn spec_tay(m: CpuModel) -> CpuModel {
    CpuModel { y: m.a, status: set_zn(m.status, m.a), ..m }
}

/// TXA: copy X to A; Z and N follow.
pub open spec fn spec_txa(m: CpuModel) -> CpuModel {
    CpuModel { a: m.x, status: set_zn(m.status, m.x), ..m }
}

/// TYA: copy Y to A; Z and N follow.
pub open spec fn spec_tya(m: CpuModel) -> CpuModel {
    CpuModel { a: m.y, status: set_zn(m.status, m.y), ..m }
}

/// TSX: copy SP to X; Z and N follow.
pub open spec fn spec_tsx(m: CpuModel) -> CpuModel {
    CpuModel { x: m.sp, status: set_zn(m.status, m.sp), ..m }
}

/// TXS: copy X to SP; no flags touched.
pub open spec fn spec_txs(m: CpuModel) -> CpuModel {
    CpuModel { sp: m.x, ..m }
}

/// INX: increment X mod 256; Z and N follow.
pub open spec fn spec_inx(m: CpuModel) -> CpuModel {
    let r = wrap8(m.x + 1);
    CpuModel { x: r, status: set_zn(m.status, r), ..m }
}

/// INY: increment Y mod 256; Z and N follow.
pub open spec fn spec_iny(m: CpuModel) -> CpuModel {
    let r = wrap8(m.y + 1);
    CpuModel { y: r, status: set_zn(m.status, r), ..m }
}

/// DEX: decrement X mod 256; Z and N follow.
pub open spec fn spec_dex(m: CpuModel) -> CpuModel {
    let r = wrap8(m.x - 1);
    CpuModel { x: r, status: set_zn(m.status, r), ..m }
}

/// DEY: decrement Y mod 256; Z and N follow.
pub open spec fn spec_dey(m: CpuModel) -> CpuModel {
    let r = wrap8(m.y - 1);
    CpuModel { y: r, status: set_zn(m.status, r), ..m }
}

/// INC: increment the byte at the effective address mod 256; Z and N follow.
pub open spec fn spec_inc(m: CpuModel) -> CpuModel {
    let r = wrap8(mem_at(m, m.addr_abs) + 1);
    CpuModel { mem: m.mem.update(m.addr_abs as int, r), status: set_zn(m.status, r), ..m }
}

/// DEC: decrement the byte at the effective address mod 256; Z and N follow.
pub open spec fn spec_dec(m: CpuModel) -> CpuModel {
    let r = wrap8(mem_at(m, m.addr_abs) - 1);
    CpuModel { mem: m.mem.update(m.addr_abs as int, r), status: set_zn(m.status, r), ..m }
}

/// ORA: bitwise OR into the accumulator; Z and N follow.
pub open spec fn spec_ora(m: CpuModel) -> CpuModel {
    let v = mem_at(m, m.addr_abs);
    let r = m.a | v;
    CpuModel { fetched: v, a: r, status: set_zn(m.status, r), ..m }
}

/// AND: bitwise AND into the accumulator; Z and N follow.
pub open spec fn spec_and(m: CpuModel) -> CpuModel {
    let v = mem_at(m, m.addr_abs);
    let r = m.a & v;
    CpuModel { fetched: v, a: r, status: set_zn(m.status, r), ..m }
}

/// EOR: bitwise exclusive OR into the accumulator; Z and N follow.
pub open spec fn spec_eor(m: CpuModel) -> CpuModel {
    let v = mem_at(m, m.addr_abs);
    let r = m.a ^ v;
    CpuModel { fetched: v, a: r, status: set_zn(m.status, r), ..m }
}

/// ADC: add the operand and the carry into the accumulator; C, Z, V, N
/// follow the sum.  Decimal mode has no effect on this NMOS core.
pub open spec fn spec_adc(m: CpuModel) -> CpuModel {
    let v = mem_at(m, m.addr_abs);
    let c = flag_get(m.status, Flag::Carry);
    CpuModel { fetched: v, a: adc_out(m.a, v, c), status: adc_status(m.status, m.a, v), ..m }
}

/// SBC: subtract with borrow, defined as ADC of the operand's ones'
/// complement, with identical flag rules.
pub open spec fn spec_sbc(m: CpuModel) -> CpuModel {
    let v = mem_at(m, m.addr_abs);
    let w = v ^ 0xFF;
    let c = flag_get(m.status, Flag::Carry);
    CpuModel { fetched: v, a: adc_out(m.a, w, c), status: adc_status(m.status, m.a, w), ..m }
}

/// CMP: compare the accumulator with the operand; registers unchanged.
pub open spec fn spec_cmp(m: CpuModel) -> CpuModel {
    let v = mem_at(m, m.addr_abs);
    CpuModel { fetched: v, status: cmp_status(m.status, m.a, v), ..m }
}

/// CPX: compare X with the operand; registers unchanged.
pub open spec fn spec_cpx(m: CpuModel) -> CpuModel {
    let v = mem_at(m, m.addr_abs);
    CpuModel { fetched: v, status: cmp_status(m.status, m.x, v), ..m }
}

/// CPY: compare Y with the operand; registers unchanged.
pub open spec fn spec_cpy(m: CpuModel) -> CpuModel {
    let v = mem_at(m, m.addr_abs);
    CpuModel { fetched: v, status: cmp_status(m.status, m.y, v), ..m }
}

/// BIT: Z from `A & M`, V from bit 6 of M, N from bit 7 of M; A and memory
/// unchanged.
pub open spec fn spec_bit(m: CpuModel) -> CpuModel {
    let v = mem_at(m, m.addr_abs);
    let s1 = flag_set(
        flag_set(flag_set(m.status, Flag::Zero, (m.a & v) == 0), Flag::Overflow, (v & 0x40) != 0),
        Flag::Negative,
        v >= 0x80,
    );
    CpuModel { fetched: v, status: s1, ..m }
}

/// ASL on the accumulator.
pub open spec fn spec_asl_acc(m: CpuModel) -> CpuModel {
    let r = asl_out(m.a);
    CpuModel { a: r, status: shift_status(m.status, m.a >= 0x80, r), ..m }
}

/// ASL on memory: read, shift, write back through the effective address.
pub open spec fn spec_asl_mem(m: CpuModel) -> CpuModel {
    let v = mem_at(m, m.addr_abs);
    let r = asl_out(v);
    CpuModel {
        mem: m.mem.update(m.addr_abs as int, r),
        status: shift_status(m.status, v >= 0x80, r),
        ..m
    }
}

/// LSR on the accumulator.
pub open spec fn spec_lsr_acc(m: CpuModel) -> CpuModel {
    let r = lsr_out(m.a);
    CpuModel { a: r, status: shift_status(m.status, m.a % 2 == 1, r), ..m }
}

/// LSR on memory.
pub open spec fn spec_lsr_mem(m: CpuModel) -> CpuModel {
    let v = mem_at(m, m.addr_abs);
    let r = lsr_out(v);
    CpuModel {
        mem: m.mem.update(m.addr_abs as int, r),
        status: shift_status(m.status, v % 2 == 1, r),
        ..m
    }
}

/// ROL on the accumulator.
pub open spec fn spec_rol_acc(m: CpuModel) -> CpuModel {
    let r = rol_out(m.a, flag_get(m.status, Flag::Carry));
    CpuModel { a: r, status: shift_status(m.status, m.a >= 0x80, r), ..m }
}

/// ROL on memory.
pub open spec fn spec_rol_mem(m: CpuModel) -> CpuModel {
    let v = mem_at(m, m.addr_abs);
    let r = rol_out(v, flag_get(m.status, Flag::Carry));
    CpuModel {
        mem: m.mem.update(m.addr_abs as int, r),
        status: shift_status(m.status, v >= 0x80, r),
        ..m
    }
}

/// ROR on the accumulator.
pub open spec fn spec_ror_acc(m: CpuModel) -> CpuModel {
    let r = ror_out(m.a, flag_get(m.status, Flag::Carry));
    CpuModel { a: r, status: shift_status(m.status, m.a % 2 == 1, r), ..m }
}

/// ROR on memory.
pub open spec fn spec_ror_mem(m: CpuModel) -> CpuModel {
    let v = mem_at(m, m.addr_abs);
    let r = ror_out(v, flag_get(m.status, Flag::Carry));
    CpuModel {
        mem: m.mem.update(m.addr_abs as int, r),
        status: shift_status(m.status, v % 2 == 1, r),
        ..m
    }
}

/// PHA: push the accumulator.
pub open spec fn spec_pha(m: CpuModel) -> CpuModel {
    spec_push(m, m.a)
}

/// PHP: push the status register with the break and unused bits forced set in
/// the pushed byte; the live register is unchanged.
pub open spec fn spec_php(m: CpuModel) -> CpuModel {
    spec_push(m, m.status | 0x30)
}

/// PLA: pull into the accumulator; Z and N follow.
pub open spec fn spec_pla(m: CpuModel) -> CpuModel {
    let (m1, v) = spec_pull(m);
    CpuModel { a: v, status: set_zn(m.status, v), ..m1 }
}

/// PLP: pull the status register; the unused bit is forced set and the break
/// bit forced clear in the live register.
pub open spec fn spec_plp(m: CpuModel) -> CpuModel {
    let (m1, v) = spec_pull(m);
    CpuModel { status: (v | 0x20) & 0xEF, ..m1 }
}

/// JMP: the effective address becomes the program counter.
pub open spec fn spec_jmp(m: CpuModel) -> CpuModel {
    CpuModel { pc: m.addr_abs, ..m }
}

/// JSR, entered with PC at the opcode: read the 16-bit target, push the
/// address of the instruction's last byte (opcode + 2) high byte first, and
/// jump to the target.
pub open spec fn spec_jsr(m: CpuModel) -> CpuModel {
    let target = abs_operand(m);
    let ret = wrap16(m.pc + 2);
    let m1 = spec_push(m, (ret / 0x100) as u8);
    let m2 = spec_push(m1, (ret % 0x100) as u8);
    CpuModel { pc: target, addr_abs: target, ..m2 }
}

/// RTS: pull the program counter low byte first, then add one, landing on
/// the byte after the JSR's last operand byte.
pub open spec fn spec_rts(m: CpuModel) -> CpuModel {
    let (m1, lo) = spec_pull(m);
    let (m2, hi) = spec_pull(m1);
    CpuModel { pc: wrap16(word(lo, hi) + 1), ..m2 }
}

/// BRK, entered with PC at the opcode: push the address past the padding
/// byte (opcode + 2) high byte first, push the status with break and unused
/// set, set interrupt disable, and load PC from the IRQ/BRK vector at
/// `0xFFFE/F`.
pub open spec fn spec_brk(m: CpuModel) -> CpuModel {
    let ret = wrap16(m.pc + 2);
    let m1 = spec_push(m, (ret / 0x100) as u8);
    let m2 = spec_push(m1, (ret % 0x100) as u8);
    let m3 = spec_push(m2, m.status | 0x30);
    CpuModel {
        status: flag_set(m.status, Flag::InterruptDisable, true),
        pc: word(mem_at(m3, 0xFFFE), mem_at(m3, 0xFFFF)),
        ..m3
    }
}

/// RTI: pull the status register (unused forced set, break forced clear),
/// then pull the program counter low byte first, with no increment.
pub open spec fn spec_rti(m: CpuModel) -> CpuModel {
    let (m1, p) = spec_pull(m);
    let (m2, lo) = spec_pull(m1);
    let (m3, hi) = spec_pull(m2);
    CpuModel { status: (p | 0x20) & 0xEF, pc: word(lo, hi), ..m3 }
}

/// The target of a taken branch: PC (already past the operand) plus the
/// sign-extended offset, mod 65536.
pub open spec fn branch_target(m: CpuModel) -> u16 {
    wrap16(m.pc + m.addr_rel)
}

/// A taken branch: one extra cycle, and a second when the target is on a
/// different page than the PC after the operand; PC moves to the target.
pub open spec fn spec_branch_taken(m: CpuModel) -> CpuModel {
    let t = branch_target(m);
    let extra: int = if page(t) != page(m.pc) {
        2int
    } else {
        1int
    };
    CpuModel { cycles: wrap8(m.cycles + extra), addr_abs: t, pc: t, ..m }
}

/// BPL: branch when negative is clear.
pub open spec fn spec_bpl(m: CpuModel) -> CpuModel {
    if !flag_get(m.status, Flag::Negative) {
        spec_branch_taken(m)
    } else {
        m
    }
}

/// BMI: branch when negative is set.
pub open spec fn spec_bmi(m: CpuModel) -> CpuModel {
    if flag_get(m.status, Flag::Negative) {
        spec_branch_taken(m)
    } else {
        m
    }
}

/// BVC: branch when overflow is clear.
pub open spec fn spec_bvc(m: CpuModel) -> CpuModel {
    if !flag_get(m.status, Flag::Overflow) {
        spec_branch_taken(m)
    } else {
        m
    }
}

/// BVS: branch when overflow is set.
pub open spec fn spec_bvs(m: CpuModel) -> CpuModel {
    if flag_get(m.status, Flag::Overflow) {
        spec_branch_taken(m)
    } else {
        m
    }
}

/// BCC: branch when carry is clear.
pub open spec fn spec_bcc(m: CpuModel) -> CpuModel {
    if !flag_get(m.status, Flag::Carry) {
        spec_branch_taken(m)
    } else {
        m
    }
}

/// BCS: branch when carry is set.
pub open spec fn spec_bcs(m: CpuModel) -> CpuModel {
    if flag_get(m.status, Flag::Carry) {
        spec_branch_taken(m)
    } else {
        m
    }
}

/// BNE: branch when zero is clear.
pub open spec fn spec_bne(m: CpuModel) -> CpuModel {
    if !flag_get(m.status, Flag::Zero) {
        spec_branch_taken(m)
    } else {
        m
    }
}

/// BEQ: branch when zero is set.
pub open spec fn spec_beq(m: CpuModel) -> CpuModel {
    if flag_get(m.status, Flag::Zero) {
        spec_branch_taken(m)
    } else {
        m
    }
}

/// CLC: clear carry.
pub open spec fn spec_clc(m: CpuModel) -> CpuModel {
    CpuModel { status: flag_set(m.status, Flag::Carry, false), ..m }
}

/// SEC: set carry.
pub open spec fn spec_sec(m: CpuModel) -> CpuModel {
    CpuModel { status: flag_set(m.status, Flag::Carry, true), ..m }
}

/// CLI: clear interrupt disable.
pub open spec fn spec_cli(m: CpuModel) -> CpuModel {
    CpuModel { status: flag_set(m.status, Flag::InterruptDisable, false), ..m }
}

/// SEI: set interrupt disable.
pub open spec fn spec_sei(m: CpuModel) -> CpuModel {
    CpuModel { status: flag_set(m.status, Flag::InterruptDisable, true), ..m }
}

/// CLV: clear overflow.
pub open spec fn spec_clv(m: CpuModel) -> CpuModel {
    CpuModel { status: flag_set(m.status, Flag::Overflow, false), ..m }
}

/// CLD: clear decimal.
pub open spec fn spec_cld(m: CpuModel) -> CpuModel {
    CpuModel { status: flag_set(m.status, Flag::Decimal, false), ..m }
}

/// SED: set decimal.  The flag is observable but does not change the ALU on
/// this NMOS core.
pub open spec fn spec_sed(m: CpuModel) -> CpuModel {
    CpuModel { status: flag_set(m.status, Flag::Decimal, true), ..m }
}

/// NOP: no effect on any architectural state.
pub open spec fn spec_nop(m: CpuModel) -> CpuModel {
    m
}

/// Reset: set interrupt disable, load PC from the reset vector at
/// `0xFFFC/D`, set SP to `0xFD`, and take seven cycles.
pub open spec fn spec_reset(m: CpuModel) -> CpuModel {
    CpuModel {
        status: flag_set(m.status, Flag::InterruptDisable, true),
        pc: word(mem_at(m, 0xFFFC), mem_at(m, 0xFFFD)),
        sp: 0xFD,
        cycles: 7,
        ..m
    }
}

/// A hardware interrupt entry through a vector: push PC high then low, push
/// the status with the break bit clear and the unused bit set, set interrupt
/// disable, load PC from the vector, and take seven cycles.
pub open spec fn spec_interrupt(m: CpuModel, vector: u16) -> CpuModel {
    let m1 = spec_push(m, (m.pc / 0x100) as u8);
    let m2 = spec_push(m1, (m.pc % 0x100) as u8);
    let m3 = spec_push(m2, (m.status | 0x20) & 0xEF);
    CpuModel {
        status: flag_set(m.status, Flag::InterruptDisable, true),
        pc: word(mem_at(m3, vector), mem_at(m3, wrap16(vector + 1))),
        cycles: 7,
        ..m3
    }
}

/// NMI: non-maskable, through the vector at `0xFFFA/B`.
pub open spec fn spec_nmi(m: CpuModel) -> CpuModel {
    spec_interrupt(m, 0xFFFA)
}

/// IRQ: through the vector at `0xFFFE/F`, suppressed while interrupt
/// disable is set.
pub open spec fn spec_irq(m: CpuModel) -> CpuModel {
    if flag_get(m.status, Flag::InterruptDisable) {
        m
    } else {
        spec_interrupt(m, 0xFFFE)
    }
}

} // verus!
