use nes_emu::bus::{read, Bus, Unattached};
use nes_emu::data::{build6502, statusReg, State};
use nes_emu::ops::{
    adc, and, asl, bcc, bcs, beq, bit, bmi, bne, bpl, brk, bvc, bvs, clc, cld, cli, clv, cmp, cpx,
    cpy, dec, dex, dey, eor, inc, inx, iny, jmp, jsr, lda, ldx, ldy, lsr, nop, ora, pha, php, pla,
    plp, rol, ror, rti, rts, sbc, sec, sed, sei, sta, stx, sty, tax, tay, tsx, txa, txs, tya,
};

fn clear() -> statusReg {
    statusReg {
        carry: false,
        zero: false,
        interruptDisable: false,
        decimal: false,
        overflow: false,
        negative: false,
    }
}

fn plain_bus() -> Bus<Unattached> {
    Bus::new(Unattached { lastWritten: 0 })
}

fn with_accumulator(accumulator: u8, carry: bool) -> State {
    let mut state = build6502();
    state.accumulator = accumulator;
    state.statusRegister.carry = carry;
    state
}

#[test]
fn adc_adds_without_carry() {
    let mut state = with_accumulator(0x50, false);
    adc(&mut state, 0x10);
    assert_eq!(state.accumulator, 0x60);
    assert_eq!(state.statusRegister, clear());
}

#[test]
fn adc_wraps_to_zero_and_carries() {
    let mut state = with_accumulator(0xFF, false);
    adc(&mut state, 0x01);
    assert_eq!(state.accumulator, 0x00);
    assert_eq!(state.statusRegister, statusReg { carry: true, zero: true, ..clear() });
}

#[test]
fn adc_takes_the_carry_in() {
    let mut state = with_accumulator(0x50, true);
    adc(&mut state, 0x10);
    assert_eq!(state.accumulator, 0x61);
    assert_eq!(state.statusRegister, clear());
}

#[test]
fn adc_overflows_into_the_sign() {
    let mut state = with_accumulator(0x50, false);
    adc(&mut state, 0x50);
    assert_eq!(state.accumulator, 0xA0);
    assert_eq!(state.statusRegister, statusReg { overflow: true, negative: true, ..clear() });
}

#[test]
fn adc_overflows_out_of_the_sign() {
    let mut state = with_accumulator(0xD0, false);
    adc(&mut state, 0x90);
    assert_eq!(state.accumulator, 0x60);
    assert_eq!(state.statusRegister, statusReg { carry: true, overflow: true, ..clear() });
}

#[test]
fn adc_clears_flags_that_were_set() {
    let mut state = with_accumulator(0x01, true);
    state.statusRegister.zero = true;
    state.statusRegister.negative = true;
    state.statusRegister.overflow = true;
    adc(&mut state, 0x01);
    assert_eq!(state.accumulator, 0x03);
    assert_eq!(state.statusRegister, clear());
}

#[test]
fn adc_ignores_the_decimal_flag() {
    let mut state = with_accumulator(0x09, false);
    state.statusRegister.decimal = true;
    adc(&mut state, 0x01);
    assert_eq!(state.accumulator, 0x0A);
    assert_eq!(state.statusRegister, statusReg { decimal: true, ..clear() });
}

#[test]
fn adc_flags_agree_with_wide_arithmetic_for_all_inputs() {
    for a in 0u16..256 {
        for b in 0u16..256 {
            for c in 0u16..2 {
                let mut state = with_accumulator(a as u8, c == 1);
                adc(&mut state, b as u8);
                let signed = (a as u8 as i8) as i32 + (b as u8 as i8) as i32 + c as i32;
                assert_eq!(state.accumulator as u16, (a + b + c) % 256);
                assert_eq!(state.statusRegister.carry, a + b + c > 255);
                assert_eq!(state.statusRegister.overflow, signed < -128 || signed > 127);
                assert_eq!(state.statusRegister.zero, (a + b + c) % 256 == 0);
                assert_eq!(state.statusRegister.negative, (a + b + c) % 256 >= 128);
            }
        }
    }
}

#[test]
fn sbc_subtracts_with_carry_set() {
    let mut state = with_accumulator(0x50, true);
    sbc(&mut state, 0x10);
    assert_eq!(state.accumulator, 0x40);
    assert_eq!(state.statusRegister, statusReg { carry: true, ..clear() });
}

#[test]
fn sbc_borrows_with_carry_clear() {
    let mut state = with_accumulator(0x50, false);
    sbc(&mut state, 0x10);
    assert_eq!(state.accumulator, 0x3F);
    assert_eq!(state.statusRegister, statusReg { carry: true, ..clear() });
}

#[test]
fn sbc_below_zero_clears_the_carry() {
    let mut state = with_accumulator(0x50, true);
    sbc(&mut state, 0xF0);
    assert_eq!(state.accumulator, 0x60);
    assert_eq!(state.statusRegister, clear());
}

#[test]
fn sbc_overflows() {
    let mut state = with_accumulator(0x50, true);
    sbc(&mut state, 0xB0);
    assert_eq!(state.accumulator, 0xA0);
    assert_eq!(state.statusRegister, statusReg { overflow: true, negative: true, ..clear() });
    let mut state = with_accumulator(0xD0, true);
    sbc(&mut state, 0x70);
    assert_eq!(state.accumulator, 0x60);
    assert_eq!(state.statusRegister, statusReg { carry: true, overflow: true, ..clear() });
}

#[test]
fn sbc_to_zero() {
    let mut state = with_accumulator(0x01, true);
    sbc(&mut state, 0x01);
    assert_eq!(state.accumulator, 0x00);
    assert_eq!(state.statusRegister, statusReg { carry: true, zero: true, ..clear() });
}

#[test]
fn sbc_flags_agree_with_wide_arithmetic_for_all_inputs() {
    for a in 0i32..256 {
        for b in 0i32..256 {
            for c in 0i32..2 {
                let mut state = with_accumulator(a as u8, c == 1);
                sbc(&mut state, b as u8);
                let wide = a - b - (1 - c);
                let signed = (a as u8 as i8) as i32 - (b as u8 as i8) as i32 - (1 - c);
                assert_eq!(state.accumulator as i32, wide.rem_euclid(256));
                assert_eq!(state.statusRegister.carry, wide >= 0);
                assert_eq!(state.statusRegister.overflow, signed < -128 || signed > 127);
            }
        }
    }
}

#[test]
fn and_keeps_common_bits() {
    let mut state = with_accumulator(0xF0, true);
    and(&mut state, 0x3C);
    assert_eq!(state.accumulator, 0x30);
    assert_eq!(state.statusRegister, statusReg { carry: true, ..clear() });
    and(&mut state, 0x0F);
    assert_eq!(state.accumulator, 0x00);
    assert_eq!(state.statusRegister, statusReg { carry: true, zero: true, ..clear() });
}

#[test]
fn and_sets_negative_from_bit_seven() {
    let mut state = with_accumulator(0xFF, false);
    and(&mut state, 0x80);
    assert_eq!(state.accumulator, 0x80);
    assert_eq!(state.statusRegister, statusReg { negative: true, ..clear() });
}

#[test]
fn ora_joins_bits() {
    let mut state = with_accumulator(0x0F, false);
    ora(&mut state, 0x80);
    assert_eq!(state.accumulator, 0x8F);
    assert_eq!(state.statusRegister, statusReg { negative: true, ..clear() });
    let mut state = with_accumulator(0x00, false);
    ora(&mut state, 0x00);
    assert_eq!(state.accumulator, 0x00);
    assert_eq!(state.statusRegister, statusReg { zero: true, ..clear() });
}

#[test]
fn eor_flips_bits() {
    let mut state = with_accumulator(0xFF, false);
    eor(&mut state, 0x0F);
    assert_eq!(state.accumulator, 0xF0);
    assert_eq!(state.statusRegister, statusReg { negative: true, ..clear() });
    eor(&mut state, 0xF0);
    assert_eq!(state.accumulator, 0x00);
    assert_eq!(state.statusRegister, statusReg { zero: true, ..clear() });
}

#[test]
fn bit_copies_the_top_bits_of_the_operand() {
    let mut state = with_accumulator(0x01, true);
    bit(&mut state, 0xC0);
    assert_eq!(state.accumulator, 0x01);
    assert_eq!(
        state.statusRegister,
        statusReg { carry: true, zero: true, overflow: true, negative: true, ..clear() }
    );
    bit(&mut state, 0x41);
    assert_eq!(state.statusRegister, statusReg { carry: true, overflow: true, ..clear() });
    bit(&mut state, 0x81);
    assert_eq!(state.statusRegister, statusReg { carry: true, negative: true, ..clear() });
    bit(&mut state, 0x3F);
    assert_eq!(state.statusRegister, statusReg { carry: true, ..clear() });
}

#[test]
fn cmp_orders_the_accumulator_and_the_operand() {
    let mut state = with_accumulator(0x40, false);
    cmp(&mut state, 0x40);
    assert_eq!(state.statusRegister, statusReg { carry: true, zero: true, ..clear() });
    cmp(&mut state, 0x41);
    assert_eq!(state.statusRegister, statusReg { negative: true, ..clear() });
    cmp(&mut state, 0x3F);
    assert_eq!(state.statusRegister, statusReg { carry: true, ..clear() });
    cmp(&mut state, 0xC0);
    assert_eq!(state.statusRegister, statusReg { negative: true, ..clear() });
    assert_eq!(state.accumulator, 0x40);
}

#[test]
fn cpx_and_cpy_compare_the_index_registers() {
    let mut state = build6502();
    state.indexX = 0x10;
    state.indexY = 0x20;
    state.accumulator = 0xFF;
    cpx(&mut state, 0x10);
    assert_eq!(state.statusRegister, statusReg { carry: true, zero: true, ..clear() });
    cpx(&mut state, 0x20);
    assert_eq!(state.statusRegister, statusReg { negative: true, ..clear() });
    cpy(&mut state, 0x20);
    assert_eq!(state.statusRegister, statusReg { carry: true, zero: true, ..clear() });
    cpy(&mut state, 0x10);
    assert_eq!(state.statusRegister, statusReg { carry: true, ..clear() });
    assert_eq!((state.indexX, state.indexY, state.accumulator), (0x10, 0x20, 0xFF));
}

#[test]
fn loads_set_zero_and_negative() {
    let mut state = build6502();
    lda(&mut state, 0x80);
    assert_eq!(state.accumulator, 0x80);
    assert_eq!(state.statusRegister, statusReg { negative: true, ..clear() });
    ldx(&mut state, 0x00);
    assert_eq!(state.indexX, 0x00);
    assert_eq!(state.statusRegister, statusReg { zero: true, ..clear() });
    ldy(&mut state, 0x7F);
    assert_eq!(state.indexY, 0x7F);
    assert_eq!(state.statusRegister, clear());
    assert_eq!(state.accumulator, 0x80);
}

#[test]
fn asl_shifts_bit_seven_into_the_carry() {
    let mut state = with_accumulator(0, true);
    assert_eq!(asl(&mut state, 0x81), 0x02);
    assert_eq!(state.statusRegister, statusReg { carry: true, ..clear() });
    assert_eq!(asl(&mut state, 0x40), 0x80);
    assert_eq!(state.statusRegister, statusReg { negative: true, ..clear() });
    assert_eq!(asl(&mut state, 0x80), 0x00);
    assert_eq!(state.statusRegister, statusReg { carry: true, zero: true, ..clear() });
}

#[test]
fn lsr_shifts_bit_zero_into_the_carry() {
    let mut state = with_accumulator(0, true);
    assert_eq!(lsr(&mut state, 0x81), 0x40);
    assert_eq!(state.statusRegister, statusReg { carry: true, ..clear() });
    assert_eq!(lsr(&mut state, 0x01), 0x00);
    assert_eq!(state.statusRegister, statusReg { carry: true, zero: true, ..clear() });
    assert_eq!(lsr(&mut state, 0xFE), 0x7F);
    assert_eq!(state.statusRegister, clear());
}

#[test]
fn rol_feeds_the_carry_into_bit_zero() {
    let mut state = with_accumulator(0, true);
    assert_eq!(rol(&mut state, 0x40), 0x81);
    assert_eq!(state.statusRegister, statusReg { negative: true, ..clear() });
    assert_eq!(rol(&mut state, 0x80), 0x00);
    assert_eq!(state.statusRegister, statusReg { carry: true, zero: true, ..clear() });
    assert_eq!(rol(&mut state, 0x00), 0x01);
    assert_eq!(state.statusRegister, clear());
}

#[test]
fn ror_feeds_the_carry_into_bit_seven() {
    let mut state = with_accumulator(0, true);
    assert_eq!(ror(&mut state, 0x01), 0x80);
    assert_eq!(state.statusRegister, statusReg { carry: true, negative: true, ..clear() });
    assert_eq!(ror(&mut state, 0x02), 0x81);
    assert_eq!(state.statusRegister, statusReg { negative: true, ..clear() });
    assert_eq!(ror(&mut state, 0x01), 0x00);
    assert_eq!(state.statusRegister, statusReg { carry: true, zero: true, ..clear() });
}

#[test]
fn inc_and_dec_wrap_and_leave_the_carry() {
    let mut state = with_accumulator(0, true);
    assert_eq!(inc(&mut state, 0xFF), 0x00);
    assert_eq!(state.statusRegister, statusReg { carry: true, zero: true, ..clear() });
    assert_eq!(inc(&mut state, 0x7F), 0x80);
    assert_eq!(state.statusRegister, statusReg { carry: true, negative: true, ..clear() });
    assert_eq!(dec(&mut state, 0x00), 0xFF);
    assert_eq!(state.statusRegister, statusReg { carry: true, negative: true, ..clear() });
    assert_eq!(dec(&mut state, 0x01), 0x00);
    assert_eq!(state.statusRegister, statusReg { carry: true, zero: true, ..clear() });
}

#[test]
fn stores_write_the_register() {
    let mut bus = plain_bus();
    let mut state = build6502();
    state.accumulator = 0x11;
    state.indexX = 0x22;
    state.indexY = 0x33;
    sta(&state, &mut bus, 0x0200);
    stx(&state, &mut bus, 0x0201);
    sty(&state, &mut bus, 0x8000);
    assert_eq!(read(&bus, 0x0200), 0x11);
    assert_eq!(read(&bus, 0x0201), 0x22);
    assert_eq!(read(&bus, 0x8000), 0x33);
    assert_eq!(read(&bus, 0x0A00), 0x11);
}

#[test]
fn flag_instructions_touch_one_flag() {
    let mut state = build6502();
    sec(&mut state);
    assert_eq!(state.statusRegister, statusReg { carry: true, ..clear() });
    sed(&mut state);
    assert_eq!(state.statusRegister, statusReg { carry: true, decimal: true, ..clear() });
    sei(&mut state);
    assert_eq!(
        state.statusRegister,
        statusReg { carry: true, decimal: true, interruptDisable: true, ..clear() }
    );
    clc(&mut state);
    assert_eq!(
        state.statusRegister,
        statusReg { decimal: true, interruptDisable: true, ..clear() }
    );
    cld(&mut state);
    assert_eq!(state.statusRegister, statusReg { interruptDisable: true, ..clear() });
    cli(&mut state);
    assert_eq!(state.statusRegister, clear());
    state.statusRegister.overflow = true;
    state.statusRegister.negative = true;
    clv(&mut state);
    assert_eq!(state.statusRegister, statusReg { negative: true, ..clear() });
}

#[test]
fn index_registers_count_modulo_256() {
    let mut state = build6502();
    dex(&mut state);
    assert_eq!(state.indexX, 0xFF);
    assert_eq!(state.statusRegister, statusReg { negative: true, ..clear() });
    inx(&mut state);
    assert_eq!(state.indexX, 0x00);
    assert_eq!(state.statusRegister, statusReg { zero: true, ..clear() });
    iny(&mut state);
    assert_eq!(state.indexY, 0x01);
    assert_eq!(state.statusRegister, clear());
    dey(&mut state);
    dey(&mut state);
    assert_eq!(state.indexY, 0xFF);
    assert_eq!(state.statusRegister, statusReg { negative: true, ..clear() });
}

#[test]
fn nop_changes_nothing() {
    let mut state = with_accumulator(0x12, true);
    let before = state;
    nop(&mut state);
    assert_eq!(state, before);
}

#[test]
fn transfers_copy_and_set_flags() {
    let mut state = with_accumulator(0x80, false);
    tax(&mut state);
    assert_eq!(state.indexX, 0x80);
    assert_eq!(state.statusRegister, statusReg { negative: true, ..clear() });
    state.accumulator = 0x00;
    tay(&mut state);
    assert_eq!(state.indexY, 0x00);
    assert_eq!(state.statusRegister, statusReg { zero: true, ..clear() });
    state.indexY = 0x42;
    tya(&mut state);
    assert_eq!(state.accumulator, 0x42);
    assert_eq!(state.statusRegister, clear());
    txa(&mut state);
    assert_eq!(state.accumulator, 0x80);
    assert_eq!(state.statusRegister, statusReg { negative: true, ..clear() });
    state.stackPointer = 0x00;
    tsx(&mut state);
    assert_eq!(state.indexX, 0x00);
    assert_eq!(state.statusRegister, statusReg { zero: true, ..clear() });
}

#[test]
fn txs_sets_no_flag() {
    let mut state = build6502();
    state.indexX = 0x00;
    state.statusRegister.negative = true;
    txs(&mut state);
    assert_eq!(state.stackPointer, 0x00);
    assert_eq!(state.statusRegister, statusReg { negative: true, ..clear() });
    state.indexX = 0xFD;
    txs(&mut state);
    assert_eq!(state.stackPointer, 0xFD);
    assert_eq!(state.statusRegister, statusReg { negative: true, ..clear() });
}

#[test]
fn pha_then_pla_returns_the_accumulator() {
    let mut bus = plain_bus();
    let mut state = with_accumulator(0x80, false);
    state.stackPointer = 0xFF;
    pha(&mut state, &mut bus);
    assert_eq!(state.stackPointer, 0xFE);
    assert_eq!(read(&bus, 0x01FF), 0x80);
    state.accumulator = 0x00;
    pla(&mut state, &bus);
    assert_eq!(state.accumulator, 0x80);
    assert_eq!(state.stackPointer, 0xFF);
    assert_eq!(state.statusRegister, statusReg { negative: true, ..clear() });
}

#[test]
fn php_stacks_the_break_source_and_bit_five() {
    let mut bus = plain_bus();
    let mut state = build6502();
    state.stackPointer = 0xFF;
    php(&mut state, &mut bus);
    assert_eq!(read(&bus, 0x01FF), 0x30);
    state.statusRegister.carry = true;
    state.statusRegister.negative = true;
    php(&mut state, &mut bus);
    assert_eq!(read(&bus, 0x01FE), 0xB1);
    assert_eq!(state.stackPointer, 0xFD);
    assert_eq!(state.statusRegister, statusReg { carry: true, negative: true, ..clear() });
}

#[test]
fn plp_drops_the_break_source_and_bit_five() {
    let mut bus = plain_bus();
    let mut state = build6502();
    state.stackPointer = 0xFE;
    nes_emu::bus::write(&mut bus, 0x01FF, 0xFF);
    plp(&mut state, &bus);
    assert_eq!(
        state.statusRegister,
        statusReg {
            carry: true,
            zero: true,
            interruptDisable: true,
            decimal: true,
            overflow: true,
            negative: true,
        }
    );
    assert_eq!(state.stackPointer, 0xFF);
    state.stackPointer = 0xFE;
    nes_emu::bus::write(&mut bus, 0x01FF, 0x30);
    plp(&mut state, &bus);
    assert_eq!(state.statusRegister, clear());
}

#[test]
fn php_then_plp_restores_the_flags() {
    let mut bus = plain_bus();
    let mut state = build6502();
    state.stackPointer = 0x80;
    state.statusRegister = statusReg { zero: true, decimal: true, overflow: true, ..clear() };
    let before = state;
    php(&mut state, &mut bus);
    state.statusRegister = clear();
    plp(&mut state, &bus);
    assert_eq!(state, before);
}

#[test]
fn jmp_sets_the_program_counter() {
    let mut state = build6502();
    jmp(&mut state, 0x1234);
    assert_eq!(state.programCounter, 0x1234);
}

#[test]
fn jsr_stacks_the_last_byte_of_the_instruction() {
    let mut bus = plain_bus();
    let mut state = build6502();
    state.programCounter = 0x8003;
    state.stackPointer = 0xFF;
    jsr(&mut state, &mut bus, 0x9000);
    assert_eq!(state.programCounter, 0x9000);
    assert_eq!(state.stackPointer, 0xFD);
    assert_eq!(read(&bus, 0x01FF), 0x80);
    assert_eq!(read(&bus, 0x01FE), 0x02);
}

#[test]
fn rts_continues_after_the_stacked_address() {
    let mut bus = plain_bus();
    let mut state = build6502();
    state.stackPointer = 0xFD;
    nes_emu::bus::write(&mut bus, 0x01FE, 0x02);
    nes_emu::bus::write(&mut bus, 0x01FF, 0x80);
    rts(&mut state, &bus);
    assert_eq!(state.programCounter, 0x8003);
    assert_eq!(state.stackPointer, 0xFF);
}

#[test]
fn jsr_then_rts_comes_back() {
    let mut bus = plain_bus();
    let mut state = build6502();
    state.programCounter = 0x0000;
    state.stackPointer = 0x00;
    jsr(&mut state, &mut bus, 0x4000);
    assert_eq!(read(&bus, 0x0100), 0xFF);
    assert_eq!(read(&bus, 0x01FF), 0xFF);
    assert_eq!(state.stackPointer, 0xFE);
    rts(&mut state, &bus);
    assert_eq!(state.programCounter, 0x0000);
    assert_eq!(state.stackPointer, 0x00);
}

#[test]
fn rti_pulls_flags_then_program_counter() {
    let mut bus = plain_bus();
    let mut state = build6502();
    state.stackPointer = 0xFC;
    state.statusRegister.interruptDisable = true;
    nes_emu::bus::write(&mut bus, 0x01FD, 0xC3);
    nes_emu::bus::write(&mut bus, 0x01FE, 0x34);
    nes_emu::bus::write(&mut bus, 0x01FF, 0x12);
    rti(&mut state, &bus);
    assert_eq!(state.programCounter, 0x1234);
    assert_eq!(state.stackPointer, 0xFF);
    assert_eq!(
        state.statusRegister,
        statusReg { carry: true, zero: true, overflow: true, negative: true, ..clear() }
    );
}

#[test]
fn rti_restores_a_stacked_interrupt_disable() {
    let mut bus = plain_bus();
    let mut state = build6502();
    state.stackPointer = 0xFC;
    nes_emu::bus::write(&mut bus, 0x01FD, 0x34);
    nes_emu::bus::write(&mut bus, 0x01FE, 0x00);
    nes_emu::bus::write(&mut bus, 0x01FF, 0x80);
    rti(&mut state, &bus);
    assert_eq!(state.statusRegister, statusReg { interruptDisable: true, ..clear() });
    assert_eq!(state.programCounter, 0x8000);
}

#[test]
fn brk_stacks_the_address_two_past_the_opcode() {
    let mut bus = plain_bus();
    nes_emu::bus::write(&mut bus, 0xFFFE, 0x00);
    nes_emu::bus::write(&mut bus, 0xFFFF, 0x90);
    let mut state = build6502();
    state.programCounter = 0x8001;
    state.stackPointer = 0xFF;
    state.statusRegister.carry = true;
    brk(&mut state, &mut bus);
    assert_eq!(state.programCounter, 0x9000);
    assert_eq!(state.stackPointer, 0xFC);
    assert_eq!(read(&bus, 0x01FF), 0x80);
    assert_eq!(read(&bus, 0x01FE), 0x02);
    assert_eq!(read(&bus, 0x01FD), 0x31);
    assert_eq!(
        state.statusRegister,
        statusReg { carry: true, interruptDisable: true, ..clear() }
    );
}

#[test]
fn branches_follow_their_flag() {
    let mut set = build6502();
    set.statusRegister = statusReg {
        carry: true,
        zero: true,
        interruptDisable: false,
        decimal: false,
        overflow: true,
        negative: true,
    };
    let unset = build6502();
    let on_set: [fn(&mut State, u16) -> bool; 4] = [bcs, beq, bmi, bvs];
    let on_clear: [fn(&mut State, u16) -> bool; 4] = [bcc, bne, bpl, bvc];
    for branch in on_set {
        let mut state = set;
        assert!(branch(&mut state, 0x1234));
        assert_eq!(state.programCounter, 0x1234);
        let mut state = unset;
        assert!(!branch(&mut state, 0x1234));
        assert_eq!(state, unset);
    }
    for branch in on_clear {
        let mut state = unset;
        assert!(branch(&mut state, 0x1234));
        assert_eq!(state.programCounter, 0x1234);
        let mut state = set;
        assert!(!branch(&mut state, 0x1234));
        assert_eq!(state, set);
    }
}

#[test]
fn each_branch_reads_its_own_flag() {
    let mut state = build6502();
    state.statusRegister.carry = true;
    assert!(bcs(&mut state, 1));
    assert!(!beq(&mut state, 2));
    assert!(!bmi(&mut state, 3));
    assert!(!bvs(&mut state, 4));
    state.statusRegister = statusReg { zero: true, ..clear() };
    assert!(beq(&mut state, 5));
    assert!(!bcs(&mut state, 6));
    state.statusRegister = statusReg { negative: true, ..clear() };
    assert!(bmi(&mut state, 7));
    assert!(!bvs(&mut state, 8));
    state.statusRegister = statusReg { overflow: true, ..clear() };
    assert!(bvs(&mut state, 9));
    assert!(!bmi(&mut state, 10));
    assert_eq!(state.programCounter, 9);
}
