use cpu6502::cpu::{Cpu, Flag};

#[test]
fn lda_immediate_through_clock() {
    let mut cpu = Cpu::default();
    cpu.pc = 0x8000;
    cpu.memory[0x8000] = 0xA9; // LDA #$42
    cpu.memory[0x8001] = 0x42;

    cpu.clock();
    assert_eq!(cpu.cycles, 1); // 2-cycle instruction, first tick consumed
    assert_eq!(cpu.pc, 0x8002);
    assert_eq!(cpu.a, 0x42);
    cpu.clock();
    assert_eq!(cpu.cycles, 0);
}

#[test]
fn ldy_zero_page_through_clock() {
    let mut cpu = Cpu::default();
    cpu.pc = 0x8000;
    cpu.memory[0x8000] = 0xA4; // LDY $42
    cpu.memory[0x8001] = 0x42;
    cpu.memory[0x0042] = 0xAB;

    cpu.step_instruction();

    assert_eq!(cpu.y, 0xAB);
    assert!(cpu.get_flag(Flag::Negative));
    assert!(!cpu.get_flag(Flag::Zero));
    assert_eq!(cpu.pc, 0x8002);
}

#[test]
fn adc_signed_overflow_scenario() {
    let mut cpu = Cpu::default();
    cpu.pc = 0x8000;
    cpu.a = 0x50;
    cpu.memory[0x8000] = 0x69; // ADC #$50
    cpu.memory[0x8001] = 0x50;

    cpu.step_instruction();

    assert_eq!(cpu.a, 0xA0);
    assert!(!cpu.get_flag(Flag::Carry));
    assert!(cpu.get_flag(Flag::Overflow));
    assert!(cpu.get_flag(Flag::Negative));
    assert!(!cpu.get_flag(Flag::Zero));
}

#[test]
fn sbc_no_borrow_scenario() {
    let mut cpu = Cpu::default();
    cpu.pc = 0x8000;
    cpu.a = 0x50;
    cpu.set_flag(Flag::Carry, true); // no borrow
    cpu.memory[0x8000] = 0xE9; // SBC #$F0
    cpu.memory[0x8001] = 0xF0;

    cpu.step_instruction();

    assert_eq!(cpu.a, 0x60);
    assert!(!cpu.get_flag(Flag::Carry));
    assert!(!cpu.get_flag(Flag::Overflow));
    assert!(!cpu.get_flag(Flag::Negative));
    assert!(!cpu.get_flag(Flag::Zero));
}

#[test]
fn branch_not_taken_takes_two_cycles() {
    let mut cpu = Cpu::default();
    cpu.pc = 0x8000;
    cpu.memory[0x8000] = 0xF0; // BEQ +$10, Z clear
    cpu.memory[0x8001] = 0x10;

    cpu.clock();
    assert_eq!(cpu.cycles, 1);
    assert_eq!(cpu.pc, 0x8002);
}

#[test]
fn branch_taken_same_page_takes_three_cycles() {
    let mut cpu = Cpu::default();
    cpu.pc = 0x8000;
    cpu.set_flag(Flag::Zero, true);
    cpu.memory[0x8000] = 0xF0; // BEQ +$10, taken
    cpu.memory[0x8001] = 0x10;

    cpu.clock();
    assert_eq!(cpu.cycles, 2);
    assert_eq!(cpu.pc, 0x8012);
}

#[test]
fn branch_taken_page_cross_takes_four_cycles() {
    let mut cpu = Cpu::default();
    cpu.pc = 0x80F0;
    cpu.set_flag(Flag::Zero, true);
    cpu.memory[0x80F0] = 0xF0; // BEQ +$7F, crosses into page $81
    cpu.memory[0x80F1] = 0x7F;

    cpu.clock();
    assert_eq!(cpu.cycles, 3);
    assert_eq!(cpu.pc, 0x8171);
}

#[test]
fn backward_branch_lands_before_opcode() {
    let mut cpu = Cpu::default();
    cpu.pc = 0x0000;
    cpu.memory[0x0000] = 0xD0; // BNE -2, Z clear: loops back onto itself
    cpu.memory[0x0001] = 0xFE;

    cpu.step_instruction();
    assert_eq!(cpu.pc, 0x0000);
}

#[test]
fn pc_wraps_past_top_of_memory() {
    let mut cpu = Cpu::default();
    cpu.pc = 0xFFFF;
    cpu.memory[0xFFFF] = 0xEA; // NOP at the very top

    cpu.step_instruction();
    assert_eq!(cpu.pc, 0x0000);
}

#[test]
fn lda_absolute_x_pays_page_cross_penalty() {
    let mut cpu = Cpu::default();
    cpu.pc = 0x8000;
    cpu.x = 0x20;
    cpu.memory[0x8000] = 0xBD; // LDA $12F0,X -> $1310, page crossed
    cpu.memory[0x8001] = 0xF0;
    cpu.memory[0x8002] = 0x12;
    cpu.memory[0x1310] = 0x07;

    cpu.clock();
    assert_eq!(cpu.cycles, 4); // 4 base + 1 penalty - 1
    assert_eq!(cpu.a, 0x07);
    assert_eq!(cpu.pc, 0x8003);
}

#[test]
fn sta_absolute_x_never_pays_penalty() {
    let mut cpu = Cpu::default();
    cpu.pc = 0x8000;
    cpu.x = 0x20;
    cpu.a = 0x99;
    cpu.memory[0x8000] = 0x9D; // STA $12F0,X -> $1310, page crossed
    cpu.memory[0x8001] = 0xF0;
    cpu.memory[0x8002] = 0x12;

    cpu.clock();
    assert_eq!(cpu.cycles, 4); // always 5 cycles, first tick consumed
    assert_eq!(cpu.memory[0x1310], 0x99);
}

#[test]
fn unknown_opcode_acts_as_two_cycle_nop() {
    let mut cpu = Cpu::default();
    cpu.pc = 0x8000;
    cpu.a = 0x11;
    cpu.memory[0x8000] = 0x02; // not a legal opcode

    cpu.clock();
    assert_eq!(cpu.cycles, 1);
    assert_eq!(cpu.pc, 0x8001);
    assert_eq!(cpu.a, 0x11);
    assert_eq!(cpu.sp, 0xFD);
}

#[test]
fn push_then_pull_returns_byte_and_restores_sp() {
    let mut cpu = Cpu::default();
    let sp0 = cpu.sp;
    cpu.push(0x5A);
    assert_eq!(cpu.sp, sp0.wrapping_sub(1));
    let v = cpu.pull();
    assert_eq!(v, 0x5A);
    assert_eq!(cpu.sp, sp0);
}

#[test]
fn push_wraps_within_stack_page() {
    let mut cpu = Cpu::default();
    cpu.sp = 0x00;
    cpu.push(0xAA);
    assert_eq!(cpu.memory[0x0100], 0xAA);
    assert_eq!(cpu.sp, 0xFF);
    let v = cpu.pull();
    assert_eq!(v, 0xAA);
    assert_eq!(cpu.sp, 0x00);
}

#[test]
fn cmp_flag_rules() {
    let mut cpu = Cpu::default();
    cpu.pc = 0x8000;
    cpu.a = 0x80;
    cpu.memory[0x8001] = 0x01;
    cpu.imm();
    cpu.cmp();
    assert!(cpu.get_flag(Flag::Carry)); // 0x80 >= 0x01
    assert!(!cpu.get_flag(Flag::Zero));
    assert!(!cpu.get_flag(Flag::Negative)); // 0x7F

    let mut cpu = Cpu::default();
    cpu.pc = 0x8000;
    cpu.a = 0x10;
    cpu.memory[0x8001] = 0x20;
    cpu.imm();
    cpu.cmp();
    assert!(!cpu.get_flag(Flag::Carry));
    assert!(!cpu.get_flag(Flag::Zero));
    assert!(cpu.get_flag(Flag::Negative)); // 0xF0
}

#[test]
fn register_increments_wrap_mod_256() {
    let mut cpu = Cpu::default();
    cpu.x = 0xFF;
    cpu.inx();
    assert_eq!(cpu.x, 0x00);
    assert!(cpu.get_flag(Flag::Zero));

    cpu.x = 0x00;
    cpu.dex();
    assert_eq!(cpu.x, 0xFF);
    assert!(cpu.get_flag(Flag::Negative));

    cpu.y = 0xFF;
    cpu.iny();
    assert_eq!(cpu.y, 0x00);
    assert!(cpu.get_flag(Flag::Zero));

    cpu.y = 0x00;
    cpu.dey();
    assert_eq!(cpu.y, 0xFF);
    assert!(cpu.get_flag(Flag::Negative));
}

#[test]
fn memory_increment_and_decrement_wrap() {
    let mut cpu = Cpu::default();
    cpu.addr_abs = 0x0042;
    cpu.memory[0x0042] = 0xFF;
    cpu.inc();
    assert_eq!(cpu.memory[0x0042], 0x00);
    assert!(cpu.get_flag(Flag::Zero));

    cpu.dec();
    assert_eq!(cpu.memory[0x0042], 0xFF);
    assert!(cpu.get_flag(Flag::Negative));
}

#[test]
fn asl_accumulator_shifts_out_carry() {
    let mut cpu = Cpu::default();
    cpu.a = 0x81;
    cpu.asl_acc();
    assert_eq!(cpu.a, 0x02);
    assert!(cpu.get_flag(Flag::Carry));
    assert!(!cpu.get_flag(Flag::Negative));
    assert!(!cpu.get_flag(Flag::Zero));
}

#[test]
fn lsr_accumulator_shifts_out_carry() {
    let mut cpu = Cpu::default();
    cpu.a = 0x01;
    cpu.lsr_acc();
    assert_eq!(cpu.a, 0x00);
    assert!(cpu.get_flag(Flag::Carry));
    assert!(cpu.get_flag(Flag::Zero));
}

#[test]
fn rol_then_ror_restores_accumulator() {
    let mut cpu = Cpu::default();
    cpu.a = 0x40;
    cpu.set_flag(Flag::Carry, true);
    cpu.rol_acc();
    assert_eq!(cpu.a, 0x81); // 0x40 << 1 | carry-in
    assert!(!cpu.get_flag(Flag::Carry)); // old bit 7 was 0
    cpu.ror_acc();
    assert_eq!(cpu.a, 0x40); // carry-in 0, bit 0 shifted out
    assert!(cpu.get_flag(Flag::Carry));
}

#[test]
fn asl_memory_read_modify_write() {
    let mut cpu = Cpu::default();
    cpu.addr_abs = 0x0010;
    cpu.memory[0x0010] = 0xC0;
    cpu.asl_mem();
    assert_eq!(cpu.memory[0x0010], 0x80);
    assert!(cpu.get_flag(Flag::Carry));
    assert!(cpu.get_flag(Flag::Negative));
    assert!(!cpu.get_flag(Flag::Zero));
}

#[test]
fn logical_operations_set_zero_and_negative() {
    let mut cpu = Cpu::default();
    cpu.pc = 0x8000;
    cpu.a = 0x0F;
    cpu.memory[0x8001] = 0xF0;
    cpu.imm();
    cpu.and();
    assert_eq!(cpu.a, 0x00);
    assert!(cpu.get_flag(Flag::Zero));

    let mut cpu = Cpu::default();
    cpu.pc = 0x8000;
    cpu.a = 0x0F;
    cpu.memory[0x8001] = 0x80;
    cpu.imm();
    cpu.ora();
    assert_eq!(cpu.a, 0x8F);
    assert!(cpu.get_flag(Flag::Negative));

    let mut cpu = Cpu::default();
    cpu.pc = 0x8000;
    cpu.a = 0xFF;
    cpu.memory[0x8001] = 0x0F;
    cpu.imm();
    cpu.eor();
    assert_eq!(cpu.a, 0xF0);
    assert!(cpu.get_flag(Flag::Negative));
}

#[test]
fn transfers_copy_and_flag() {
    let mut cpu = Cpu::default();
    cpu.a = 0x80;
    cpu.tax();
    assert_eq!(cpu.x, 0x80);
    assert!(cpu.get_flag(Flag::Negative));

    cpu.x = 0x00;
    cpu.txa();
    assert_eq!(cpu.a, 0x00);
    assert!(cpu.get_flag(Flag::Zero));

    cpu.sp = 0x90;
    cpu.tsx();
    assert_eq!(cpu.x, 0x90);
    assert!(cpu.get_flag(Flag::Negative));

    cpu.x = 0x13;
    let status_before = cpu.status;
    cpu.txs();
    assert_eq!(cpu.sp, 0x13);
    assert_eq!(cpu.status, status_before); // TXS touches no flags
}

#[test]
fn flag_instructions_set_and_clear_bits() {
    let mut cpu = Cpu::default();
    cpu.sec();
    assert!(cpu.get_flag(Flag::Carry));
    cpu.clc();
    assert!(!cpu.get_flag(Flag::Carry));
    cpu.sei();
    assert!(cpu.get_flag(Flag::InterruptDisable));
    cpu.cli();
    assert!(!cpu.get_flag(Flag::InterruptDisable));
    cpu.sed();
    assert!(cpu.get_flag(Flag::Decimal));
    cpu.cld();
    assert!(!cpu.get_flag(Flag::Decimal));
    cpu.set_flag(Flag::Overflow, true);
    cpu.clv();
    assert!(!cpu.get_flag(Flag::Overflow));
}

#[test]
fn php_then_plp_round_trips_live_status() {
    let mut cpu = Cpu::default();
    cpu.set_flag(Flag::Carry, true);
    cpu.set_flag(Flag::Negative, true);
    let status_before = cpu.status; // unused set, break clear
    cpu.php();
    cpu.set_flag(Flag::Zero, true); // scramble
    cpu.plp();
    assert_eq!(cpu.status, status_before);
}

#[test]
fn brk_then_rti_through_clock_restores_state() {
    let mut cpu = Cpu::default();
    cpu.set_flag(Flag::InterruptDisable, false); // status now 0x20
    cpu.pc = 0x8000;
    cpu.memory[0x8000] = 0x00; // BRK
    cpu.memory[0xFFFE] = 0x00; // IRQ vector -> $9000
    cpu.memory[0xFFFF] = 0x90;
    cpu.memory[0x9000] = 0x40; // RTI at the handler

    cpu.step_instruction();
    assert_eq!(cpu.pc, 0x9000);
    assert!(cpu.get_flag(Flag::InterruptDisable));
    assert_eq!(cpu.sp, 0xFA);

    cpu.step_instruction();
    assert_eq!(cpu.pc, 0x8002);
    assert_eq!(cpu.status, 0x20); // prior status restored
    assert_eq!(cpu.sp, 0xFD);
}

#[test]
fn jsr_then_rts_through_clock() {
    let mut cpu = Cpu::default();
    cpu.pc = 0x8000;
    cpu.memory[0x8000] = 0x20; // JSR $1234
    cpu.memory[0x8001] = 0x34;
    cpu.memory[0x8002] = 0x12;
    cpu.memory[0x1234] = 0x60; // RTS at the subroutine

    cpu.clock();
    assert_eq!(cpu.cycles, 5); // JSR takes 6 cycles
    assert_eq!(cpu.pc, 0x1234);
    assert_eq!(cpu.sp, 0xFB);
    while cpu.cycles > 0 {
        cpu.clock();
    }

    cpu.step_instruction();
    assert_eq!(cpu.pc, 0x8003);
    assert_eq!(cpu.sp, 0xFD);
}

#[test]
fn status_bits_invariant_holds_across_instructions() {
    let mut cpu = Cpu::default();
    cpu.pc = 0x8000;
    cpu.memory[0x8000] = 0xA9; // LDA #$FF
    cpu.memory[0x8001] = 0xFF;
    cpu.step_instruction();
    assert_eq!(cpu.status & 0x30, 0x20);

    // PLP of a byte with break set and unused clear still normalises
    cpu.push(0b1101_1111);
    cpu.memory[cpu.pc as usize] = 0x28; // PLP
    cpu.step_instruction();
    assert_eq!(cpu.status & 0x30, 0x20);
}

#[test]
fn indirect_jmp_page_wrap_through_clock() {
    let mut cpu = Cpu::default();
    cpu.pc = 0x8000;
    cpu.memory[0x8000] = 0x6C; // JMP ($30FF)
    cpu.memory[0x8001] = 0xFF;
    cpu.memory[0x8002] = 0x30;
    cpu.memory[0x30FF] = 0xCD;
    cpu.memory[0x3000] = 0xAB; // bug: high byte from $3000, not $3100
    cpu.memory[0x3100] = 0x55;

    cpu.clock();
    assert_eq!(cpu.cycles, 4); // indirect JMP takes 5 cycles
    assert_eq!(cpu.pc, 0xABCD);
}

#[test]
fn ldx_zero_page_y_addressing() {
    let mut cpu = Cpu::default();
    cpu.pc = 0x8000;
    cpu.y = 0x05;
    cpu.memory[0x8000] = 0xB6; // LDX $40,Y
    cpu.memory[0x8001] = 0x40;
    cpu.memory[0x0045] = 0x3C;

    cpu.step_instruction();
    assert_eq!(cpu.x, 0x3C);
    assert_eq!(cpu.pc, 0x8002);
}

#[test]
fn indexed_indirect_and_indirect_indexed() {
    // LDA ($20,X): pointer at $24/$25 -> $1234
    let mut cpu = Cpu::default();
    cpu.pc = 0x8000;
    cpu.x = 0x04;
    cpu.memory[0x8000] = 0xA1;
    cpu.memory[0x8001] = 0x20;
    cpu.memory[0x0024] = 0x34;
    cpu.memory[0x0025] = 0x12;
    cpu.memory[0x1234] = 0x77;
    cpu.step_instruction();
    assert_eq!(cpu.a, 0x77);

    // LDA ($20),Y: pointer $1230 + Y(0x10) -> $1240
    let mut cpu = Cpu::default();
    cpu.pc = 0x8000;
    cpu.y = 0x10;
    cpu.memory[0x8000] = 0xB1;
    cpu.memory[0x8001] = 0x20;
    cpu.memory[0x0020] = 0x30;
    cpu.memory[0x0021] = 0x12;
    cpu.memory[0x1240] = 0x66;
    cpu.step_instruction();
    assert_eq!(cpu.a, 0x66);
}

#[test]
fn reset_loads_vector_and_stack_pointer() {
    let mut cpu = Cpu::default();
    cpu.pc = 0x1234;
    cpu.sp = 0x80;
    cpu.set_flag(Flag::InterruptDisable, false);
    cpu.memory[0xFFFC] = 0x00;
    cpu.memory[0xFFFD] = 0xC0;

    cpu.reset();

    assert_eq!(cpu.pc, 0xC000);
    assert_eq!(cpu.sp, 0xFD);
    assert!(cpu.get_flag(Flag::InterruptDisable));
    assert_eq!(cpu.cycles, 7);
}

#[test]
fn nmi_pushes_pc_and_status() {
    let mut cpu = Cpu::default();
    cpu.pc = 0x8234;
    cpu.memory[0xFFFA] = 0x00;
    cpu.memory[0xFFFB] = 0x95;
    let sp0 = cpu.sp;
    let status0 = cpu.status;

    cpu.nmi();

    assert_eq!(cpu.pc, 0x9500);
    assert_eq!(cpu.sp, sp0.wrapping_sub(3));
    assert_eq!(cpu.cycles, 7);
    assert!(cpu.get_flag(Flag::InterruptDisable));
    let base = 0x0100usize;
    let pushed_p = cpu.memory[base + cpu.sp.wrapping_add(1) as usize];
    let pushed_lo = cpu.memory[base + cpu.sp.wrapping_add(2) as usize];
    let pushed_hi = cpu.memory[base + cpu.sp.wrapping_add(3) as usize];
    assert_eq!(pushed_p, (status0 | 0x20) & 0xEF); // break clear in pushed byte
    assert_eq!(pushed_lo, 0x34);
    assert_eq!(pushed_hi, 0x82);
}

#[test]
fn irq_is_masked_by_interrupt_disable() {
    let mut cpu = Cpu::default(); // power-up status has I set
    cpu.pc = 0x8000;
    cpu.memory[0xFFFE] = 0x00;
    cpu.memory[0xFFFF] = 0x90;

    cpu.irq();
    assert_eq!(cpu.pc, 0x8000); // suppressed
    assert_eq!(cpu.sp, 0xFD);

    cpu.cli();
    cpu.irq();
    assert_eq!(cpu.pc, 0x9000);
    assert_eq!(cpu.sp, 0xFA);
    assert_eq!(cpu.cycles, 7);
}

#[test]
fn indirect_indexed_pointer_wraps_zero_page() {
    let mut cpu = Cpu::default();
    cpu.pc = 0x8000;
    cpu.y = 0x04;
    cpu.memory[0x8000] = 0xB1; // LDA ($FF),Y
    cpu.memory[0x8001] = 0xFF;
    cpu.memory[0x00FF] = 0x30; // pointer low
    cpu.memory[0x0000] = 0x12; // pointer high, wrapped within the zero page
    cpu.memory[0x1234] = 0x5E;

    cpu.step_instruction();
    assert_eq!(cpu.a, 0x5E);
}

#[test]
fn indexed_indirect_pointer_wraps_zero_page() {
    let mut cpu = Cpu::default();
    cpu.pc = 0x8000;
    cpu.x = 0x01;
    cpu.memory[0x8000] = 0xA1; // LDA ($FE,X): pointer at $FF/$00
    cpu.memory[0x8001] = 0xFE;
    cpu.memory[0x00FF] = 0x34; // pointer low
    cpu.memory[0x0000] = 0x12; // pointer high, wrapped within the zero page
    cpu.memory[0x1234] = 0x9C;

    cpu.step_instruction();
    assert_eq!(cpu.a, 0x9C);
}

#[test]
fn rts_wraps_past_top_of_memory() {
    let mut cpu = Cpu::default();
    cpu.push(0xFF); // return address high
    cpu.push(0xFF); // return address low
    cpu.rts();
    assert_eq!(cpu.pc, 0x0000); // 0xFFFF + 1 wraps
}

#[test]
fn lda_absolute_y_pays_page_cross_penalty() {
    let mut cpu = Cpu::default();
    cpu.pc = 0x8000;
    cpu.y = 0x20;
    cpu.memory[0x8000] = 0xB9; // LDA $12F0,Y -> $1310, page crossed
    cpu.memory[0x8001] = 0xF0;
    cpu.memory[0x8002] = 0x12;
    cpu.memory[0x1310] = 0x44;

    cpu.clock();
    assert_eq!(cpu.cycles, 4); // 4 base + 1 penalty - 1
    assert_eq!(cpu.a, 0x44);
}

#[test]
fn ror_absolute_read_modify_write_through_clock() {
    let mut cpu = Cpu::default();
    cpu.pc = 0x8000;
    cpu.set_flag(Flag::Carry, true);
    cpu.memory[0x8000] = 0x6E; // ROR $1234
    cpu.memory[0x8001] = 0x34;
    cpu.memory[0x8002] = 0x12;
    cpu.memory[0x1234] = 0x03;

    cpu.clock();
    assert_eq!(cpu.cycles, 5); // 6-cycle RMW
    assert_eq!(cpu.memory[0x1234], 0x81); // carry-in enters bit 7
    assert!(cpu.get_flag(Flag::Carry)); // old bit 0 shifted out
    assert!(cpu.get_flag(Flag::Negative));
    assert_eq!(cpu.pc, 0x8003);
}

#[test]
fn cpx_immediate_through_clock() {
    let mut cpu = Cpu::default();
    cpu.pc = 0x8000;
    cpu.x = 0x42;
    cpu.memory[0x8000] = 0xE0; // CPX #$42
    cpu.memory[0x8001] = 0x42;

    cpu.step_instruction();
    assert!(cpu.get_flag(Flag::Zero));
    assert!(cpu.get_flag(Flag::Carry));
    assert_eq!(cpu.x, 0x42); // compare leaves the register alone
    assert_eq!(cpu.pc, 0x8002);
}
