//! The thirteen addressing modes: where an instruction finds its operand,
//! how many bytes the instruction takes, and whether finding the operand
//! crossed a page boundary.
use vstd::prelude::*;
use crate::bus::{read, Bus, BusModel, Device};
use crate::data::State;
use crate::flags::{lowByte, signed};

verus! {

/// The rule by which an instruction locates its operand.
#[derive(Clone, Copy, Debug, PartialEq, Eq, Structural)]
pub enum Mode {
    /// The operand is the accumulator.
    Accumulator,
    /// The two bytes after the opcode are the address.
    Absolute,
    /// The address after the opcode plus X, with carry into the high byte.
    AbsoluteX,
    /// The address after the opcode plus Y, with carry into the high byte.
    AbsoluteY,
    /// The byte after the opcode is the operand.
    Immediate,
    /// The instruction names no operand.
    Implied,
    /// The two bytes after the opcode point at the address.
    Indirect,
    /// The byte after the opcode plus X, within the zero page, points at the address.
    IndexedIndirect,
    /// The byte after the opcode points, within the zero page, at an address to which Y is added.
    IndirectIndexed,
    /// The byte after the opcode is a signed distance from the next instruction.
    Relative,
    /// The byte after the opcode is an address in the zero page.
    ZeroPage,
    /// The byte after the opcode plus X, within the zero page.
    ZeroPageX,
    /// The byte after the opcode plus Y, within the zero page.
    ZeroPageY,
}

/// Where the operand of an instruction is.
#[derive(Clone, Copy, Debug, PartialEq, Eq, Structural)]
pub enum Operand {
    /// In memory, at this effective address.
    Address(u16),
    /// In the instruction itself: this byte.
    Immediate(u8),
    /// In the accumulator.
    Accumulator,
    /// Nowhere: the instruction touches no operand.
    Implied,
}

/// What resolving an addressing mode yields.
#[derive(Clone, Copy, Debug, PartialEq, Eq, Structural)]
pub struct Resolved {
    pub operand: Operand,
    /// Bytes of the instruction, opcode included.
    pub bytes: u8,
    /// Whether adding the index or the distance changed the high byte.
    pub pageCrossed: bool,
}

/// The 16-bit value with the given low and high bytes.
pub open spec fn word(low: u8, high: u8) -> u16 {
    (low + 256 * high) as u16
}

/// The address `distance` after `address`, wrapping at the end of the space.
pub open spec fn advanced(address: u16, distance: int) -> u16 {
    ((address + distance) % 0x10000) as u16
}

/// The page of an address: its high byte.
pub open spec fn page(address: u16) -> int {
    address as int / 256
}

/// The address at which a pointer's high byte is fetched: the next one, but
/// the first of the same page where the pointer sits on a page's last byte.
pub open spec fn pointerHigh(pointer: u16) -> u16 {
    if pointer % 256 == 0xFF {
        (pointer - 0xFF) as u16
    } else {
        (pointer + 1) as u16
    }
}

/// The little-endian word held at `address` and at the address after it.
pub open spec fn wordAt<D: Device>(bus: BusModel<D>, address: u16) -> u16 {
    word(bus.value(address), bus.value(advanced(address, 1)))
}

/// The byte that follows the opcode.
pub open spec fn operandByte<D: Device>(state: State, bus: BusModel<D>) -> u8 {
    bus.value(advanced(state.programCounter, 1))
}

/// The little-endian word that follows the opcode.
pub open spec fn operandWord<D: Device>(state: State, bus: BusModel<D>) -> u16 {
    word(
        bus.value(advanced(state.programCounter, 1)),
        bus.value(advanced(state.programCounter, 2)),
    )
}

/// The little-endian word held in the zero page at `base` and at the byte
/// after it within the zero page.
pub open spec fn zeroPageWord<D: Device>(bus: BusModel<D>, base: u8) -> u16 {
    word(bus.value(base as u16), bus.value(lowByte(base + 1) as u16))
}

/// An address in memory, reached without an index.
pub open spec fn plain(address: u16, bytes: u8) -> Resolved {
    Resolved { operand: Operand::Address(address), bytes, pageCrossed: false }
}

/// The address `index` after `base`, with the page-cross flag.
pub open spec fn indexed(base: u16, index: int, bytes: u8) -> Resolved {
    Resolved {
        operand: Operand::Address(advanced(base, index)),
        bytes,
        pageCrossed: page(base) != page(advanced(base, index)),
    }
}

impl Mode {
    /// What this mode resolves to for the instruction at the program counter.
    pub open spec fn resolved<D: Device>(self, state: State, bus: BusModel<D>) -> Resolved {
        match self {
            Mode::Accumulator => Resolved {
                operand: Operand::Accumulator,
                bytes: 1,
                pageCrossed: false,
            },
            Mode::Implied => Resolved { operand: Operand::Implied, bytes: 1, pageCrossed: false },
            Mode::Immediate => Resolved {
                operand: Operand::Immediate(operandByte(state, bus)),
                bytes: 2,
                pageCrossed: false,
            },
            Mode::ZeroPage => plain(operandByte(state, bus) as u16, 2),
            Mode::ZeroPageX => plain(lowByte(operandByte(state, bus) + state.indexX) as u16, 2),
            Mode::ZeroPageY => plain(lowByte(operandByte(state, bus) + state.indexY) as u16, 2),
            Mode::Absolute => plain(operandWord(state, bus), 3),
            Mode::AbsoluteX => indexed(operandWord(state, bus), state.indexX as int, 3),
            Mode::AbsoluteY => indexed(operandWord(state, bus), state.indexY as int, 3),
            Mode::Indirect => plain(
                word(
                    bus.value(operandWord(state, bus)),
                    bus.value(pointerHigh(operandWord(state, bus))),
                ),
                3,
            ),
            Mode::IndexedIndirect => plain(
                zeroPageWord(bus, lowByte(operandByte(state, bus) + state.indexX)),
                2,
            ),
            Mode::IndirectIndexed => indexed(
                zeroPageWord(bus, operandByte(state, bus)),
                state.indexY as int,
                2,
            ),
            Mode::Relative => indexed(
                advanced(state.programCounter, 2),
                signed(operandByte(state, bus)),
                2,
            ),
        }
    }
}

/// Advancing twice is advancing by the sum.
pub proof fn lemma_advanced_twice(address: u16, first: int, second: int)
    ensures
        advanced(advanced(address, first), second) == advanced(address, first + second),
{
    assert(((address + first) % 0x10000 + second) % 0x10000 == (address + first + second) % 0x10000)
        by (nonlinear_arith);
}

/// Puts a low and a high byte together.
pub fn makeWord(low: u8, high: u8) -> (address: u16)
    ensures
        address == word(low, high),
{
    low as u16 + 256 * (high as u16)
}

/// Adds two bytes with 8-bit wraparound.
pub fn wrapByte(base: u8, index: u8) -> (sum: u8)
    ensures
        sum == lowByte(base + index),
{
    base.wrapping_add(index)
}

/// The address `distance` bytes after `address`, with 16-bit wraparound.
pub fn advance(address: u16, distance: u8) -> (target: u16)
    ensures
        target == advanced(address, distance as int),
{
    address.wrapping_add(distance as u16)
}

/// The address at the signed distance `distance` from `address`, with
/// 16-bit wraparound.
pub fn advanceSigned(address: u16, distance: u8) -> (target: u16)
    ensures
        target == advanced(address, signed(distance)),
{
    if distance < 0x80 {
        address.wrapping_add(distance as u16)
    } else {
        address.wrapping_sub(256 - distance as u16)
    }
}

/// Reads the little-endian word at `address`.
pub fn readWord<D: Device>(bus: &Bus<D>, address: u16) -> (value: u16)
    ensures
        value == wordAt(bus@, address),
{
    let low = read(bus, address);
    let high = read(bus, advance(address, 1));
    makeWord(low, high)
}

/// Reads the byte that follows the opcode.
pub fn fetchOperandByte<D: Device>(state: &State, bus: &Bus<D>) -> (data: u8)
    ensures
        data == operandByte(*state, bus@),
{
    read(bus, advance(state.programCounter, 1))
}

/// Reads the little-endian word that follows the opcode.
pub fn fetchOperandWord<D: Device>(state: &State, bus: &Bus<D>) -> (address: u16)
    ensures
        address == operandWord(*state, bus@),
{
    let low = read(bus, advance(state.programCounter, 1));
    let high = read(bus, advance(state.programCounter, 2));
    makeWord(low, high)
}

/// Reads a little-endian word from the zero page; the high byte of a word
/// at `0xFF` comes from `0x00`.
pub fn fetchZeroPageWord<D: Device>(bus: &Bus<D>, base: u8) -> (address: u16)
    ensures
        address == zeroPageWord(bus@, base),
{
    let low = read(bus, base as u16);
    let high = read(bus, wrapByte(base, 1) as u16);
    makeWord(low, high)
}

/// Adds an index to a base address with full 16-bit carry.
pub fn addIndex(base: u16, index: u8, bytes: u8) -> (resolved: Resolved)
    ensures
        resolved == indexed(base, index as int, bytes),
{
    let address = advance(base, index);
    Resolved {
        operand: Operand::Address(address),
        bytes,
        pageCrossed: base / 256 != address / 256,
    }
}

/// The operand is the accumulator.
pub fn accumulator<D: Device>(state: &State, bus: &Bus<D>) -> (resolved: Resolved)
    ensures
        resolved == Mode::Accumulator.resolved(*state, bus@),
        resolved.operand == Operand::Accumulator,
        resolved.bytes == 1,
{
    Resolved { operand: Operand::Accumulator, bytes: 1, pageCrossed: false }
}

/// The instruction names no operand.
pub fn implied<D: Device>(state: &State, bus: &Bus<D>) -> (resolved: Resolved)
    ensures
        resolved == Mode::Implied.resolved(*state, bus@),
        resolved.operand == Operand::Implied,
        resolved.bytes == 1,
{
    Resolved { operand: Operand::Implied, bytes: 1, pageCrossed: false }
}

/// The operand is the byte after the opcode.
pub fn immediate<D: Device>(state: &State, bus: &Bus<D>) -> (resolved: Resolved)
    ensures
        resolved == Mode::Immediate.resolved(*state, bus@),
        resolved.operand == Operand::Immediate(operandByte(*state, bus@)),
        resolved.bytes == 2,
{
    Resolved {
        operand: Operand::Immediate(fetchOperandByte(state, bus)),
        bytes: 2,
        pageCrossed: false,
    }
}

/// The byte after the opcode is the address, in the zero page.
pub fn zeroPage<D: Device>(state: &State, bus: &Bus<D>) -> (resolved: Resolved)
    ensures
        resolved == Mode::ZeroPage.resolved(*state, bus@),
        resolved.bytes == 2,
{
    let base = fetchOperandByte(state, bus);
    Resolved { operand: Operand::Address(base as u16), bytes: 2, pageCrossed: false }
}

/// The index is added within the zero page: the effective address never
/// leaves `0x0000..=0x00FF`, whatever X holds.
pub fn zeroPageX<D: Device>(state: &State, bus: &Bus<D>) -> (resolved: Resolved)
    ensures
        resolved == Mode::ZeroPageX.resolved(*state, bus@),
        resolved.operand matches Operand::Address(address) && address <= 0x00FF && address == (
        operandByte(*state, bus@) + state.indexX) % 256,
        resolved.bytes == 2,
        !resolved.pageCrossed,
{
    let base = fetchOperandByte(state, bus);
    let address = wrapByte(base, state.indexX);
    Resolved { operand: Operand::Address(address as u16), bytes: 2, pageCrossed: false }
}

/// The index is added within the zero page: the effective address never
/// leaves `0x0000..=0x00FF`, whatever Y holds.
pub fn zeroPageY<D: Device>(state: &State, bus: &Bus<D>) -> (resolved: Resolved)
    ensures
        resolved == Mode::ZeroPageY.resolved(*state, bus@),
        resolved.operand matches Operand::Address(address) && address <= 0x00FF && address == (
        operandByte(*state, bus@) + state.indexY) % 256,
        resolved.bytes == 2,
        !resolved.pageCrossed,
{
    let base = fetchOperandByte(state, bus);
    let address = wrapByte(base, state.indexY);
    Resolved { operand: Operand::Address(address as u16), bytes: 2, pageCrossed: false }
}

/// The two bytes after the opcode are the address.
pub fn absolute<D: Device>(state: &State, bus: &Bus<D>) -> (resolved: Resolved)
    ensures
        resolved == Mode::Absolute.resolved(*state, bus@),
        resolved.bytes == 3,
{
    let address = fetchOperandWord(state, bus);
    Resolved { operand: Operand::Address(address), bytes: 3, pageCrossed: false }
}

/// The index is added with carry, and the page-cross flag is set exactly
/// where that changes the high byte.
pub fn absoluteX<D: Device>(state: &State, bus: &Bus<D>) -> (resolved: Resolved)
    ensures
        resolved == Mode::AbsoluteX.resolved(*state, bus@),
        resolved.bytes == 3,
{
    let base = fetchOperandWord(state, bus);
    addIndex(base, state.indexX, 3)
}

/// The index is added with carry, and the page-cross flag is set exactly
/// where that changes the high byte.
pub fn absoluteY<D: Device>(state: &State, bus: &Bus<D>) -> (resolved: Resolved)
    ensures
        resolved == Mode::AbsoluteY.resolved(*state, bus@),
        resolved.bytes == 3,
{
    let base = fetchOperandWord(state, bus);
    addIndex(base, state.indexY, 3)
}

/// The target's low byte is read at the pointer. Its high byte is read at
/// the next address, except that a pointer `0x__FF` takes it from `0x__00`
/// of the same page and not from the page after.
pub fn indirect<D: Device>(state: &State, bus: &Bus<D>) -> (resolved: Resolved)
    ensures
        resolved == Mode::Indirect.resolved(*state, bus@),
        operandWord(*state, bus@) % 256 == 0xFF ==> resolved.operand == Operand::Address(
            word(
                bus@.value(operandWord(*state, bus@)),
                bus@.value((operandWord(*state, bus@) - 0xFF) as u16),
            ),
        ),
        operandWord(*state, bus@) % 256 != 0xFF ==> resolved.operand == Operand::Address(
            word(
                bus@.value(operandWord(*state, bus@)),
                bus@.value((operandWord(*state, bus@) + 1) as u16),
            ),
        ),
        resolved.bytes == 3,
        !resolved.pageCrossed,
{
    let pointer = fetchOperandWord(state, bus);
    let low = read(bus, pointer);
    let high = if pointer % 256 == 0xFF {
        read(bus, pointer - 0xFF)
    } else {
        read(bus, pointer + 1)
    };
    Resolved { operand: Operand::Address(makeWord(low, high)), bytes: 3, pageCrossed: false }
}

/// X is added to the zero-page base with 8-bit wraparound before the
/// pointer is read.
pub fn indexedIndirect<D: Device>(state: &State, bus: &Bus<D>) -> (resolved: Resolved)
    ensures
        resolved == Mode::IndexedIndirect.resolved(*state, bus@),
        resolved.bytes == 2,
        !resolved.pageCrossed,
{
    let base = wrapByte(fetchOperandByte(state, bus), state.indexX);
    let address = fetchZeroPageWord(bus, base);
    Resolved { operand: Operand::Address(address), bytes: 2, pageCrossed: false }
}

/// The pointer is read from the zero page, then Y is added with carry.
pub fn indirectIndexed<D: Device>(state: &State, bus: &Bus<D>) -> (resolved: Resolved)
    ensures
        resolved == Mode::IndirectIndexed.resolved(*state, bus@),
        resolved.bytes == 2,
{
    let base = fetchZeroPageWord(bus, fetchOperandByte(state, bus));
    addIndex(base, state.indexY, 2)
}

/// The target is the address of the next instruction plus the signed
/// distance that follows the opcode.
pub fn relative<D: Device>(state: &State, bus: &Bus<D>) -> (resolved: Resolved)
    ensures
        resolved == Mode::Relative.resolved(*state, bus@),
        resolved.operand == Operand::Address(
            advanced(state.programCounter, 2 + signed(operandByte(*state, bus@))),
        ),
        resolved.bytes == 2,
{
    let distance = fetchOperandByte(state, bus);
    let next = advance(state.programCounter, 2);
    let target = advanceSigned(next, distance);
    proof {
        lemma_advanced_twice(state.programCounter, 2, signed(distance));
    }
    Resolved {
        operand: Operand::Address(target),
        bytes: 2,
        pageCrossed: next / 256 != target / 256,
    }
}

/// Resolves `mode` for the instruction at the program counter.
pub fn resolve<D: Device>(mode: Mode, state: &State, bus: &Bus<D>) -> (resolved: Resolved)
    ensures
        resolved == mode.resolved(*state, bus@),
{
    match mode {
        Mode::Accumulator => accumulator(state, bus),
        Mode::Absolute => absolute(state, bus),
        Mode::AbsoluteX => absoluteX(state, bus),
        Mode::AbsoluteY => absoluteY(state, bus),
        Mode::Immediate => immediate(state, bus),
        Mode::Implied => implied(state, bus),
        Mode::Indirect => indirect(state, bus),
        Mode::IndexedIndirect => indexedIndirect(state, bus),
        Mode::IndirectIndexed => indirectIndexed(state, bus),
        Mode::Relative => relative(state, bus),
        Mode::ZeroPage => zeroPage(state, bus),
        Mode::ZeroPageX => zeroPageX(state, bus),
        Mode::ZeroPageY => zeroPageY(state, bus),
    }
}

} // verus!
