//! The 56 instructions. Each is written once, against the operand that the
//! addressing mode resolved: the instructions that read take the operand's
//! value, those that change an operand take its value and return the new
//! one, those that store or jump take the effective address.
//!
//! All of them run with the program counter already past the instruction.
use vstd::prelude::*;
use crate::addressing::{advance, advanced};
use crate::bus::{Bus, Device};
use crate::data::{bitSet, statusReg, State};
use crate::flags::{
    addBytes, addCarries, addition, carryOfAdd, carryOfSubtract, carryValue, complement, isNegative,
    isZero, leftBit, leftBitOut, lowByte, movedLeft, movedRight, negativeFlag, overflowFlag,
    rightBit, rightBitOut, shiftLeft, shiftRight, signsDisagree, subtractBytes, subtractCarries,
    subtraction, zeroFlag,
};
use crate::interrupt::{serve, Interrupt};
use crate::stack::{pull, pullWord, push, pushWord, withPointerMoved, Machine};

verus! {

impl State {
    /// The same registers with other flags.
    pub open spec fn withFlags(self, flags: statusReg) -> State {
        State { statusRegister: flags, ..self }
    }

    /// The flags with zero and negative taken from `result`.
    pub open spec fn resultFlags(self, result: u8) -> statusReg {
        statusReg { zero: isZero(result), negative: isNegative(result), ..self.statusRegister }
    }

    /// The flags with the carry set to `carry`, and zero and negative taken
    /// from `result`.
    pub open spec fn carryFlags(self, carry: bool, result: u8) -> statusReg {
        statusReg { carry, ..self.resultFlags(result) }
    }

    /// A + M + C: the sum goes to the accumulator; carry, zero, overflow
    /// and negative follow the sum.
    pub open spec fn adc(self, value: u8) -> State {
        let result = addition(self.accumulator, value, self.statusRegister.carry);
        State {
            accumulator: result,
            statusRegister: statusReg {
                carry: addCarries(self.accumulator, value, self.statusRegister.carry),
                overflow: signsDisagree(self.accumulator, value, result),
                ..self.resultFlags(result)
            },
            ..self
        }
    }

    /// A - M - (1 - C): the difference goes to the accumulator; the carry
    /// is set where nothing was borrowed.
    pub open spec fn sbc(self, value: u8) -> State {
        let result = subtraction(self.accumulator, value, self.statusRegister.carry);
        State {
            accumulator: result,
            statusRegister: statusReg {
                carry: subtractCarries(self.accumulator, value, self.statusRegister.carry),
                overflow: signsDisagree(self.accumulator, complement(value), result),
                ..self.resultFlags(result)
            },
            ..self
        }
    }

    /// `value` goes to the accumulator; zero and negative follow it.
    pub open spec fn lda(self, value: u8) -> State {
        State { accumulator: value, statusRegister: self.resultFlags(value), ..self }
    }

    /// `value` goes to X; zero and negative follow it.
    pub open spec fn ldx(self, value: u8) -> State {
        State { indexX: value, statusRegister: self.resultFlags(value), ..self }
    }

    /// `value` goes to Y; zero and negative follow it.
    pub open spec fn ldy(self, value: u8) -> State {
        State { indexY: value, statusRegister: self.resultFlags(value), ..self }
    }

    /// A AND M goes to the accumulator.
    pub open spec fn and(self, value: u8) -> State {
        self.lda(self.accumulator & value)
    }

    /// A OR M goes to the accumulator.
    pub open spec fn ora(self, value: u8) -> State {
        self.lda(self.accumulator | value)
    }

    /// A XOR M goes to the accumulator.
    pub open spec fn eor(self, value: u8) -> State {
        self.lda(self.accumulator ^ value)
    }

    /// The bit test: zero says whether A AND M is 0; negative and overflow
    /// are bits 7 and 6 of M. No register changes.
    pub open spec fn bit(self, value: u8) -> State {
        State {
            statusRegister: statusReg {
                zero: isZero(self.accumulator & value),
                overflow: bitSet(value, 64),
                negative: isNegative(value),
                ..self.statusRegister
            },
            ..self
        }
    }

    /// The comparison of a register with M: the carry says that the
    /// register is at least M, zero that they are equal, negative is bit 7
    /// of their difference. No register changes.
    pub open spec fn compared(self, register: u8, value: u8) -> State {
        State {
            statusRegister: statusReg {
                carry: register >= value,
                zero: register == value,
                negative: isNegative(subtraction(register, value, true)),
                ..self.statusRegister
            },
            ..self
        }
    }

    /// The flags after a shift or rotate of `value` to the left that gave `result`.
    pub open spec fn movedLeftFlags(self, value: u8, result: u8) -> State {
        State { statusRegister: self.carryFlags(leftBit(value), result), ..self }
    }

    /// The flags after a shift or rotate of `value` to the right that gave `result`.
    pub open spec fn movedRightFlags(self, value: u8, result: u8) -> State {
        State { statusRegister: self.carryFlags(rightBit(value), result), ..self }
    }

    /// The flags after an operand or register became `result`.
    pub open spec fn withResult(self, result: u8) -> State {
        State { statusRegister: self.resultFlags(result), ..self }
    }

    /// The program counter goes to `target` where `condition` holds.
    pub open spec fn branched(self, condition: bool, target: u16) -> State {
        if condition {
            State { programCounter: target, ..self }
        } else {
            self
        }
    }
}

impl<D: Device> Machine<D> {
    /// The same memory with other registers.
    pub open spec fn withState(self, state: State) -> Self {
        Machine { state, bus: self.bus }
    }

    /// After PLA: the byte pulled goes to the accumulator, with its flags.
    pub open spec fn pla(self) -> Self {
        self.withState(self.pulled().state.lda(self.top()))
    }

    /// After PLP: the byte pulled becomes the flags; its bits 4 and 5 are dropped.
    pub open spec fn plp(self) -> Self {
        self.withState(
            State { statusRegister: statusReg::unpacked(self.top()), ..self.pulled().state },
        )
    }

    /// After JSR: the address of the instruction's last byte is pushed, and
    /// the program counter is `target`.
    pub open spec fn jsr(self, target: u16) -> Self {
        let stacked = self.pushedWord(advanced(self.state.programCounter, -1));
        stacked.withState(State { programCounter: target, ..stacked.state })
    }

    /// After RTS: the program counter is one past the word pulled.
    pub open spec fn rts(self) -> Self {
        self.withState(
            State {
                programCounter: advanced(self.topWord(), 1),
                ..withPointerMoved(self.state, 2)
            },
        )
    }

    /// After RTI: the flags are pulled, then the program counter.
    pub open spec fn rti(self) -> Self {
        let flagged = self.plp();
        self.withState(
            State { programCounter: flagged.topWord(), ..withPointerMoved(flagged.state, 2) },
        )
    }

    /// After BRK: the byte after the opcode is skipped, then the break is
    /// served like an interrupt, with the break source set in the stacked byte.
    pub open spec fn brk(self) -> Self {
        self.withState(
            State { programCounter: advanced(self.state.programCounter, 1), ..self.state },
        ).served(Interrupt::BRK)
    }
}

impl<D: Device> Machine<D> {
    /// PHP followed by PLP leaves every register as it was, the flags with them.
    pub proof fn lemma_php_then_plp_restores(self)
        requires
            self.bus.wf(),
        ensures
            self.pushed(self.state.statusRegister.packed(true) as u8).plp().state == self.state,
    {
        self.state.statusRegister.lemma_unpack_packed(true);
    }

    /// PHA followed by PLA leaves the accumulator and the stack pointer as
    /// they were; zero and negative now follow the accumulator.
    pub proof fn lemma_pha_then_pla_restores(self)
        requires
            self.bus.wf(),
        ensures
            self.pushed(self.state.accumulator).pla().state == self.state.withResult(
                self.state.accumulator,
            ),
    {
    }

    /// RTS after JSR continues behind the JSR, with the stack pointer as it was.
    pub proof fn lemma_jsr_then_rts_returns(self, target: u16)
        requires
            self.bus.wf(),
        ensures
            self.jsr(target).rts().state == self.state,
    {
        let low = (advanced(self.state.programCounter, -1) % 256) as u8;
        let high = (advanced(self.state.programCounter, -1) / 256) as u8;
        assert(crate::addressing::word(low, high) == advanced(self.state.programCounter, -1));
    }

    /// RTI after an interrupt or a break continues where the program
    /// counter stood, with the flags, the interrupt-disable flag among
    /// them, and the stack pointer as they were.
    pub proof fn lemma_served_then_rti_returns(self, kind: Interrupt)
        requires
            self.bus.wf(),
            kind != Interrupt::Reset,
        ensures
            self.served(kind).rti().state == self.state,
    {
        let counter = self.state.programCounter;
        let high = (counter / 256) as u8;
        let low = (counter % 256) as u8;
        let status = self.state.statusRegister.packed(kind.breakSource()) as u8;
        let first = self.pushed(high);
        let second = first.pushed(low);
        self.state.statusRegister.lemma_unpack_packed(kind.breakSource());
        self.lemma_push_then_pull(high);
        first.lemma_push_then_pull(low);
        second.lemma_push_then_pull(status);
        assert(crate::addressing::word(low, high) == counter);
        let flagged = self.served(kind).plp();
        assert(flagged.top() == low);
        assert(flagged.pulled().top() == high);
    }
}

/// Sets zero and negative from `result`.
pub fn setResultFlags(currState: &mut State, result: u8)
    ensures
        *final(currState) == old(currState).withResult(result),
{
    currState.statusRegister.zero = zeroFlag(result);
    currState.statusRegister.negative = negativeFlag(result);
}

/// Add with carry. The carry flag is set exactly where the 9-bit sum of
/// accumulator, operand and carry exceeds 255, and the overflow flag
/// exactly where the operands share a sign that the result does not have.
pub fn adc(currState: &mut State, value: u8)
    ensures
        *final(currState) == old(currState).adc(value),
        final(currState).accumulator == (old(currState).accumulator + value + carryValue(
            old(currState).statusRegister.carry,
        )) % 256,
        final(currState).statusRegister.carry == (old(currState).accumulator + value + carryValue(
            old(currState).statusRegister.carry,
        ) > 255),
        final(currState).statusRegister.overflow == signsDisagree(
            old(currState).accumulator,
            value,
            final(currState).accumulator,
        ),
        final(currState).statusRegister.zero == (final(currState).accumulator == 0),
        final(currState).statusRegister.negative == (final(currState).accumulator >= 0x80),
{
    let accumulator = currState.accumulator;
    let carry = currState.statusRegister.carry;
    let result = addBytes(accumulator, value, carry);
    currState.statusRegister.carry = carryOfAdd(accumulator, value, carry);
    currState.statusRegister.overflow = overflowFlag(accumulator, value, result);
    currState.accumulator = result;
    setResultFlags(currState, result);
}

/// Subtract with borrow: the borrow is the complement of the carry.
pub fn sbc(currState: &mut State, value: u8)
    ensures
        *final(currState) == old(currState).sbc(value),
        final(currState).accumulator == (old(currState).accumulator - value - (1 - carryValue(
            old(currState).statusRegister.carry,
        ))) % 256,
        final(currState).statusRegister.carry == (old(currState).accumulator - value - (1
            - carryValue(old(currState).statusRegister.carry)) >= 0),
{
    let accumulator = currState.accumulator;
    let carry = currState.statusRegister.carry;
    let result = subtractBytes(accumulator, value, carry);
    currState.statusRegister.carry = carryOfSubtract(accumulator, value, carry);
    currState.statusRegister.overflow = overflowFlag(accumulator, 255 - value, result);
    currState.accumulator = result;
    setResultFlags(currState, result);
}

/// Bitwise AND of the accumulator with the operand.
pub fn and(currState: &mut State, value: u8)
    ensures
        *final(currState) == old(currState).and(value),
        final(currState).accumulator == old(currState).accumulator & value,
{
    let result = currState.accumulator & value;
    currState.accumulator = result;
    setResultFlags(currState, result);
}

/// Bitwise OR of the accumulator with the operand.
pub fn ora(currState: &mut State, value: u8)
    ensures
        *final(currState) == old(currState).ora(value),
        final(currState).accumulator == old(currState).accumulator | value,
{
    let result = currState.accumulator | value;
    currState.accumulator = result;
    setResultFlags(currState, result);
}

/// Bitwise exclusive OR of the accumulator with the operand.
pub fn eor(currState: &mut State, value: u8)
    ensures
        *final(currState) == old(currState).eor(value),
        final(currState).accumulator == old(currState).accumulator ^ value,
{
    let result = currState.accumulator ^ value;
    currState.accumulator = result;
    setResultFlags(currState, result);
}

/// Tests the bits of the operand against the accumulator.
pub fn bit(currState: &mut State, value: u8)
    ensures
        *final(currState) == old(currState).bit(value),
{
    currState.statusRegister.zero = zeroFlag(currState.accumulator & value);
    currState.statusRegister.overflow = (value / 64) % 2 == 1;
    currState.statusRegister.negative = negativeFlag(value);
}

/// Compares `register` with the operand.
pub fn compare(currState: &mut State, register: u8, value: u8)
    ensures
        *final(currState) == old(currState).compared(register, value),
{
    currState.statusRegister.carry = carryOfSubtract(register, value, true);
    currState.statusRegister.zero = register == value;
    currState.statusRegister.negative = negativeFlag(subtractBytes(register, value, true));
}

/// Compares the accumulator with the operand.
pub fn cmp(currState: &mut State, value: u8)
    ensures
        *final(currState) == old(currState).compared(old(currState).accumulator, value),
{
    compare(currState, currState.accumulator, value);
}

/// Compares X with the operand.
pub fn cpx(currState: &mut State, value: u8)
    ensures
        *final(currState) == old(currState).compared(old(currState).indexX, value),
{
    compare(currState, currState.indexX, value);
}

/// Compares Y with the operand.
pub fn cpy(currState: &mut State, value: u8)
    ensures
        *final(currState) == old(currState).compared(old(currState).indexY, value),
{
    compare(currState, currState.indexY, value);
}

/// Loads the accumulator.
pub fn lda(currState: &mut State, value: u8)
    ensures
        *final(currState) == old(currState).lda(value),
{
    currState.accumulator = value;
    setResultFlags(currState, value);
}

/// Loads X.
pub fn ldx(currState: &mut State, value: u8)
    ensures
        *final(currState) == old(currState).ldx(value),
{
    currState.indexX = value;
    setResultFlags(currState, value);
}

/// Loads Y.
pub fn ldy(currState: &mut State, value: u8)
    ensures
        *final(currState) == old(currState).ldy(value),
{
    currState.indexY = value;
    setResultFlags(currState, value);
}

/// Shifts the operand left: bit 7 goes to the carry, a zero comes into bit 0.
pub fn asl(currState: &mut State, value: u8) -> (result: u8)
    ensures
        result == movedLeft(value, false),
        *final(currState) == old(currState).movedLeftFlags(value, result),
{
    let result = shiftLeft(value, false);
    currState.statusRegister.carry = leftBitOut(value);
    setResultFlags(currState, result);
    result
}

/// Shifts the operand right: bit 0 goes to the carry, a zero comes into bit 7.
pub fn lsr(currState: &mut State, value: u8) -> (result: u8)
    ensures
        result == movedRight(value, false),
        *final(currState) == old(currState).movedRightFlags(value, result),
{
    let result = shiftRight(value, false);
    currState.statusRegister.carry = rightBitOut(value);
    setResultFlags(currState, result);
    result
}

/// Rotates the operand left through the carry: bit 7 goes to the carry,
/// the carry as it was comes into bit 0.
pub fn rol(currState: &mut State, value: u8) -> (result: u8)
    ensures
        result == movedLeft(value, old(currState).statusRegister.carry),
        *final(currState) == old(currState).movedLeftFlags(value, result),
{
    let result = shiftLeft(value, currState.statusRegister.carry);
    currState.statusRegister.carry = leftBitOut(value);
    setResultFlags(currState, result);
    result
}

/// Rotates the operand right through the carry: bit 0 goes to the carry,
/// the carry as it was comes into bit 7.
pub fn ror(currState: &mut State, value: u8) -> (result: u8)
    ensures
        result == movedRight(value, old(currState).statusRegister.carry),
        *final(currState) == old(currState).movedRightFlags(value, result),
{
    let result = shiftRight(value, currState.statusRegister.carry);
    currState.statusRegister.carry = rightBitOut(value);
    setResultFlags(currState, result);
    result
}

/// Adds one to the operand, modulo 256. The carry is left alone.
pub fn inc(currState: &mut State, value: u8) -> (result: u8)
    ensures
        result == lowByte(value + 1),
        *final(currState) == old(currState).withResult(result),
{
    let result = value.wrapping_add(1);
    setResultFlags(currState, result);
    result
}

/// Takes one from the operand, modulo 256. The carry is left alone.
pub fn dec(currState: &mut State, value: u8) -> (result: u8)
    ensures
        result == lowByte(value - 1),
        *final(currState) == old(currState).withResult(result),
{
    let result = value.wrapping_sub(1);
    setResultFlags(currState, result);
    result
}

/// Stores the accumulator at `address`.
pub fn sta<D: Device>(currState: &State, bus: &mut Bus<D>, address: u16)
    ensures
        final(bus)@ == old(bus)@.store(address, currState.accumulator),
{
    crate::bus::write(bus, address, currState.accumulator);
}

/// Stores X at `address`.
pub fn stx<D: Device>(currState: &State, bus: &mut Bus<D>, address: u16)
    ensures
        final(bus)@ == old(bus)@.store(address, currState.indexX),
{
    crate::bus::write(bus, address, currState.indexX);
}

/// Stores Y at `address`.
pub fn sty<D: Device>(currState: &State, bus: &mut Bus<D>, address: u16)
    ensures
        final(bus)@ == old(bus)@.store(address, currState.indexY),
{
    crate::bus::write(bus, address, currState.indexY);
}

/// Clears the carry.
pub fn clc(currState: &mut State)
    ensures
        *final(currState) == old(currState).withFlags(
            statusReg { carry: false, ..old(currState).statusRegister },
        ),
{
    currState.statusRegister.carry = false;
}

/// Sets the carry.
pub fn sec(currState: &mut State)
    ensures
        *final(currState) == old(currState).withFlags(
            statusReg { carry: true, ..old(currState).statusRegister },
        ),
{
    currState.statusRegister.carry = true;
}

/// Clears the decimal flag.
pub fn cld(currState: &mut State)
    ensures
        *final(currState) == old(currState).withFlags(
            statusReg { decimal: false, ..old(currState).statusRegister },
        ),
{
    currState.statusRegister.decimal = false;
}

/// Sets the decimal flag.
pub fn sed(currState: &mut State)
    ensures
        *final(currState) == old(currState).withFlags(
            statusReg { decimal: true, ..old(currState).statusRegister },
        ),
{
    currState.statusRegister.decimal = true;
}

/// Clears the interrupt-disable flag.
pub fn cli(currState: &mut State)
    ensures
        *final(currState) == old(currState).withFlags(
            statusReg { interruptDisable: false, ..old(currState).statusRegister },
        ),
{
    currState.statusRegister.interruptDisable = false;
}

/// Sets the interrupt-disable flag.
pub fn sei(currState: &mut State)
    ensures
        *final(currState) == old(currState).withFlags(
            statusReg { interruptDisable: true, ..old(currState).statusRegister },
        ),
{
    currState.statusRegister.interruptDisable = true;
}

/// Clears the overflow flag.
pub fn clv(currState: &mut State)
    ensures
        *final(currState) == old(currState).withFlags(
            statusReg { overflow: false, ..old(currState).statusRegister },
        ),
{
    currState.statusRegister.overflow = false;
}

/// Takes one from X, modulo 256.
pub fn dex(currState: &mut State)
    ensures
        *final(currState) == old(currState).ldx(lowByte(old(currState).indexX - 1)),
{
    ldx(currState, currState.indexX.wrapping_sub(1));
}

/// Takes one from Y, modulo 256.
pub fn dey(currState: &mut State)
    ensures
        *final(currState) == old(currState).ldy(lowByte(old(currState).indexY - 1)),
{
    ldy(currState, currState.indexY.wrapping_sub(1));
}

/// Adds one to X, modulo 256.
pub fn inx(currState: &mut State)
    ensures
        *final(currState) == old(currState).ldx(lowByte(old(currState).indexX + 1)),
{
    ldx(currState, currState.indexX.wrapping_add(1));
}

/// Adds one to Y, modulo 256.
pub fn iny(currState: &mut State)
    ensures
        *final(currState) == old(currState).ldy(lowByte(old(currState).indexY + 1)),
{
    ldy(currState, currState.indexY.wrapping_add(1));
}

/// Does nothing.
pub fn nop(currState: &mut State)
    ensures
        *final(currState) == *old(currState),
{
}

/// Copies the accumulator to X.
pub fn tax(currState: &mut State)
    ensures
        *final(currState) == old(currState).ldx(old(currState).accumulator),
{
    ldx(currState, currState.accumulator);
}

/// Copies the accumulator to Y.
pub fn tay(currState: &mut State)
    ensures
        *final(currState) == old(currState).ldy(old(currState).accumulator),
{
    ldy(currState, currState.accumulator);
}

/// Copies the stack pointer to X.
pub fn tsx(currState: &mut State)
    ensures
        *final(currState) == old(currState).ldx(old(currState).stackPointer),
{
    ldx(currState, currState.stackPointer);
}

/// Copies X to the accumulator.
pub fn txa(currState: &mut State)
    ensures
        *final(currState) == old(currState).lda(old(currState).indexX),
{
    lda(currState, currState.indexX);
}

/// Copies X to the stack pointer. No flag changes.
pub fn txs(currState: &mut State)
    ensures
        *final(currState) == (State { stackPointer: old(currState).indexX, ..*old(currState) }),
{
    currState.stackPointer = currState.indexX;
}

/// Copies Y to the accumulator.
pub fn tya(currState: &mut State)
    ensures
        *final(currState) == old(currState).lda(old(currState).indexY),
{
    lda(currState, currState.indexY);
}

/// Pushes the accumulator.
pub fn pha<D: Device>(currState: &mut State, bus: &mut Bus<D>)
    ensures
        (Machine { state: *final(currState), bus: final(bus)@ }) == (Machine {
            state: *old(currState),
            bus: old(bus)@,
        }).pushed(old(currState).accumulator),
{
    push(currState, bus, currState.accumulator);
}

/// Pushes the status byte, with bit 5 and the break source set.
pub fn php<D: Device>(currState: &mut State, bus: &mut Bus<D>)
    ensures
        (Machine { state: *final(currState), bus: final(bus)@ }) == (Machine {
            state: *old(currState),
            bus: old(bus)@,
        }).pushed(old(currState).statusRegister.packed(true) as u8),
{
    push(currState, bus, currState.statusRegister.toByte(true));
}

/// Pulls the accumulator.
pub fn pla<D: Device>(currState: &mut State, bus: &Bus<D>)
    ensures
        *final(currState) == (Machine { state: *old(currState), bus: bus@ }).pla().state,
{
    let value = pull(currState, bus);
    lda(currState, value);
}

/// Pulls the flags. The break source and bit 5 of the byte are dropped.
pub fn plp<D: Device>(currState: &mut State, bus: &Bus<D>)
    ensures
        *final(currState) == (Machine { state: *old(currState), bus: bus@ }).plp().state,
{
    let value = pull(currState, bus);
    currState.statusRegister = statusReg::fromByte(value);
}

/// Jumps to `target`.
pub fn jmp(currState: &mut State, target: u16)
    ensures
        *final(currState) == (State { programCounter: target, ..*old(currState) }),
{
    currState.programCounter = target;
}

/// Jumps to the subroutine at `target`, leaving on the stack the address
/// of the last byte of this instruction.
pub fn jsr<D: Device>(currState: &mut State, bus: &mut Bus<D>, target: u16)
    ensures
        (Machine { state: *final(currState), bus: final(bus)@ }) == (Machine {
            state: *old(currState),
            bus: old(bus)@,
        }).jsr(target),
{
    pushWord(currState, bus, currState.programCounter.wrapping_sub(1));
    currState.programCounter = target;
}

/// Returns from a subroutine: continues one past the address pulled.
pub fn rts<D: Device>(currState: &mut State, bus: &Bus<D>)
    ensures
        *final(currState) == (Machine { state: *old(currState), bus: bus@ }).rts().state,
{
    let address = pullWord(currState, bus);
    currState.programCounter = advance(address, 1);
}

/// Returns from an interrupt: pulls the flags, then the program counter.
/// The interrupt-disable flag becomes what was stacked.
pub fn rti<D: Device>(currState: &mut State, bus: &Bus<D>)
    ensures
        *final(currState) == (Machine { state: *old(currState), bus: bus@ }).rti().state,
        final(currState).statusRegister == statusReg::unpacked(
            (Machine { state: *old(currState), bus: bus@ }).top(),
        ),
{
    plp(currState, bus);
    let address = pullWord(currState, bus);
    currState.programCounter = address;
}

/// The software interrupt: stacks the address two past the opcode and the
/// status byte with the break source set, disables interrupts and
/// continues at the address that the vector at `0xFFFE` holds.
pub fn brk<D: Device>(currState: &mut State, bus: &mut Bus<D>)
    ensures
        (Machine { state: *final(currState), bus: final(bus)@ }) == (Machine {
            state: *old(currState),
            bus: old(bus)@,
        }).brk(),
{
    currState.programCounter = advance(currState.programCounter, 1);
    serve(currState, bus, Interrupt::BRK);
}

/// Jumps to `target` where `condition` holds, and says whether it did.
pub fn branch(currState: &mut State, condition: bool, target: u16) -> (taken: bool)
    ensures
        taken == condition,
        *final(currState) == old(currState).branched(condition, target),
{
    if condition {
        currState.programCounter = target;
    }
    condition
}

/// Branches where the carry is clear.
pub fn bcc(currState: &mut State, target: u16) -> (taken: bool)
    ensures
        taken == !old(currState).statusRegister.carry,
        *final(currState) == old(currState).branched(taken, target),
{
    branch(currState, !currState.statusRegister.carry, target)
}

/// Branches where the carry is set.
pub fn bcs(currState: &mut State, target: u16) -> (taken: bool)
    ensures
        taken == old(currState).statusRegister.carry,
        *final(currState) == old(currState).branched(taken, target),
{
    branch(currState, currState.statusRegister.carry, target)
}

/// Branches where the zero flag is set.
pub fn beq(currState: &mut State, target: u16) -> (taken: bool)
    ensures
        taken == old(currState).statusRegister.zero,
        *final(currState) == old(currState).branched(taken, target),
{
    branch(currState, currState.statusRegister.zero, target)
}

/// Branches where the zero flag is clear.
pub fn bne(currState: &mut State, target: u16) -> (taken: bool)
    ensures
        taken == !old(currState).statusRegister.zero,
        *final(currState) == old(currState).branched(taken, target),
{
    branch(currState, !currState.statusRegister.zero, target)
}

/// Branches where the negative flag is set.
pub fn bmi(currState: &mut State, target: u16) -> (taken: bool)
    ensures
        taken == old(currState).statusRegister.negative,
        *final(currState) == old(currState).branched(taken, target),
{
    branch(currState, currState.statusRegister.negative, target)
}

/// Branches where the negative flag is clear.
pub fn bpl(currState: &mut State, target: u16) -> (taken: bool)
    ensures
        taken == !old(currState).statusRegister.negative,
        *final(currState) == old(currState).branched(taken, target),
{
    branch(currState, !currState.statusRegister.negative, target)
}

/// Branches where the overflow flag is clear.
pub fn bvc(currState: &mut State, target: u16) -> (taken: bool)
    ensures
        taken == !old(currState).statusRegister.overflow,
        *final(currState) == old(currState).branched(taken, target),
{
    branch(currState, !currState.statusRegister.overflow, target)
}

/// Branches where the overflow flag is set.
pub fn bvs(currState: &mut State, target: u16) -> (taken: bool)
    ensures
        taken == old(currState).statusRegister.overflow,
        *final(currState) == old(currState).branched(taken, target),
{
    branch(currState, currState.statusRegister.overflow, target)
}

} // verus!
