//! The instruction table: which instruction an opcode byte stands for, how
//! it finds its operand, and what it costs.
//!
//! An opcode is laid out as three bit fields, `rrrcccgg`: a group, and
//! within the group a row (mostly the instruction) and a column (mostly
//! the addressing mode). The cost follows from how the instruction uses
//! its operand. `descriptor` states the table by these rules; `decode`
//! holds it entry by entry.
use vstd::prelude::*;
use crate::addressing::Mode;

verus! {

/// The 56 instructions.
#[derive(Clone, Copy, Debug, PartialEq, Eq, Structural)]
pub enum Mnemonic {
    ADC,
    AND,
    ASL,
    BCC,
    BCS,
    BEQ,
    BIT,
    BMI,
    BNE,
    BPL,
    BRK,
    BVC,
    BVS,
    CLC,
    CLD,
    CLI,
    CLV,
    CMP,
    CPX,
    CPY,
    DEC,
    DEX,
    DEY,
    EOR,
    INC,
    INX,
    INY,
    JMP,
    JSR,
    LDA,
    LDX,
    LDY,
    LSR,
    NOP,
    ORA,
    PHA,
    PHP,
    PLA,
    PLP,
    ROL,
    ROR,
    RTI,
    RTS,
    SBC,
    SEC,
    SED,
    SEI,
    STA,
    STX,
    STY,
    TAX,
    TAY,
    TSX,
    TXA,
    TXS,
    TYA,
}

/// One entry of the instruction table.
#[derive(Clone, Copy, Debug, PartialEq, Eq, Structural)]
pub struct InstructionDescriptor {
    pub mnemonic: Mnemonic,
    pub mode: Mode,
    /// Cycles that the instruction takes at least.
    pub cycles: u8,
    /// Whether a crossed page costs one cycle more; for a branch, whether
    /// taking it costs one more and crossing a page a second one.
    pub penalty: bool,
}

/// How an instruction uses the operand it addresses.
#[derive(Clone, Copy, Debug, PartialEq, Eq, Structural)]
pub enum Use {
    /// It reads the operand.
    Read,
    /// It writes the operand without reading it.
    Store,
    /// It reads the operand, changes it and writes it back.
    Modify,
    /// It continues at the operand's address.
    Jump,
    /// It has no operand.
    Implied,
}

impl Mnemonic {
    /// The use that the instruction makes of its operand.
    pub open spec fn operandUse(self) -> Use {
        match self {
            Mnemonic::ADC
            | Mnemonic::AND
            | Mnemonic::BIT
            | Mnemonic::CMP
            | Mnemonic::CPX
            | Mnemonic::CPY
            | Mnemonic::EOR
            | Mnemonic::LDA
            | Mnemonic::LDX
            | Mnemonic::LDY
            | Mnemonic::ORA
            | Mnemonic::SBC => Use::Read,
            Mnemonic::STA | Mnemonic::STX | Mnemonic::STY => Use::Store,
            Mnemonic::ASL
            | Mnemonic::DEC
            | Mnemonic::INC
            | Mnemonic::LSR
            | Mnemonic::ROL
            | Mnemonic::ROR => Use::Modify,
            Mnemonic::BCC
            | Mnemonic::BCS
            | Mnemonic::BEQ
            | Mnemonic::BMI
            | Mnemonic::BNE
            | Mnemonic::BPL
            | Mnemonic::BVC
            | Mnemonic::BVS
            | Mnemonic::JMP
            | Mnemonic::JSR => Use::Jump,
            _ => Use::Implied,
        }
    }
}

/// Whether an instruction that uses its operand so can be addressed by `mode`.
pub open spec fn fits(operandUse: Use, mode: Mode) -> bool {
    match operandUse {
        Use::Read => !(mode is Accumulator || mode is Implied || mode is Indirect
            || mode is Relative),
        Use::Store => !(mode is Accumulator || mode is Implied || mode is Indirect
            || mode is Relative || mode is Immediate),
        Use::Modify => mode is Accumulator || mode is ZeroPage || mode is ZeroPageX
            || mode is Absolute || mode is AbsoluteX,
        Use::Jump => mode is Absolute || mode is Indirect || mode is Relative,
        Use::Implied => mode is Implied,
    }
}

/// The high three bits of an opcode.
pub open spec fn row(opcode: u8) -> u8 {
    opcode / 32
}

/// The middle three bits of an opcode.
pub open spec fn column(opcode: u8) -> u8 {
    (opcode / 4) % 8
}

/// The low two bits of an opcode.
pub open spec fn group(opcode: u8) -> u8 {
    opcode % 4
}

/// An entry without a page-cross penalty.
pub open spec fn fixed(mnemonic: Mnemonic, mode: Mode, cycles: u8) -> Option<
    InstructionDescriptor,
> {
    Some(InstructionDescriptor { mnemonic, mode, cycles, penalty: false })
}

/// An entry that costs a cycle more where a page is crossed.
pub open spec fn penalized(mnemonic: Mnemonic, mode: Mode, cycles: u8) -> Option<
    InstructionDescriptor,
> {
    Some(InstructionDescriptor { mnemonic, mode, cycles, penalty: true })
}

/// The entry of an instruction that addresses an operand: its cost follows
/// from the mode and from the use it makes of the operand. A mode that the
/// use does not admit has no entry.
pub open spec fn addressing(mnemonic: Mnemonic, mode: Mode) -> Option<InstructionDescriptor> {
    match mnemonic.operandUse() {
        Use::Read => match mode {
            Mode::Immediate => fixed(mnemonic, mode, 2),
            Mode::ZeroPage => fixed(mnemonic, mode, 3),
            Mode::ZeroPageX | Mode::ZeroPageY | Mode::Absolute => fixed(mnemonic, mode, 4),
            Mode::AbsoluteX | Mode::AbsoluteY => penalized(mnemonic, mode, 4),
            Mode::IndexedIndirect => fixed(mnemonic, mode, 6),
            Mode::IndirectIndexed => penalized(mnemonic, mode, 5),
            _ => None,
        },
        Use::Store => match mode {
            Mode::ZeroPage => fixed(mnemonic, mode, 3),
            Mode::ZeroPageX | Mode::ZeroPageY | Mode::Absolute => fixed(mnemonic, mode, 4),
            Mode::AbsoluteX | Mode::AbsoluteY => fixed(mnemonic, mode, 5),
            Mode::IndexedIndirect | Mode::IndirectIndexed => fixed(mnemonic, mode, 6),
            _ => None,
        },
        Use::Modify => match mode {
            Mode::Accumulator => fixed(mnemonic, mode, 2),
            Mode::ZeroPage => fixed(mnemonic, mode, 5),
            Mode::ZeroPageX | Mode::Absolute => fixed(mnemonic, mode, 6),
            Mode::AbsoluteX => fixed(mnemonic, mode, 7),
            _ => None,
        },
        _ => None,
    }
}

/// The entry of an instruction without an operand: two cycles.
pub open spec fn bare(mnemonic: Mnemonic) -> Option<InstructionDescriptor> {
    fixed(mnemonic, Mode::Implied, 2)
}

/// A branch: two cycles, one more if taken, one more if that crosses a page.
pub open spec fn branch(mnemonic: Mnemonic) -> Option<InstructionDescriptor> {
    penalized(mnemonic, Mode::Relative, 2)
}

/// Group 1: the eight instructions on the accumulator, one per row, in the
/// eight modes, one per column. Nothing is stored to an immediate.
pub open spec fn accumulatorGroup(row: u8, column: u8) -> Option<InstructionDescriptor> {
    let mode = match column {
        0 => Mode::IndexedIndirect,
        1 => Mode::ZeroPage,
        2 => Mode::Immediate,
        3 => Mode::Absolute,
        4 => Mode::IndirectIndexed,
        5 => Mode::ZeroPageX,
        6 => Mode::AbsoluteY,
        _ => Mode::AbsoluteX,
    };
    match row {
        0 => addressing(Mnemonic::ORA, mode),
        1 => addressing(Mnemonic::AND, mode),
        2 => addressing(Mnemonic::EOR, mode),
        3 => addressing(Mnemonic::ADC, mode),
        4 => addressing(Mnemonic::STA, mode),
        5 => addressing(Mnemonic::LDA, mode),
        6 => addressing(Mnemonic::CMP, mode),
        _ => addressing(Mnemonic::SBC, mode),
    }
}

/// Group 2: the shifts and rotates, the X register's store and load, and
/// the decrement and increment of memory. Columns 2 and 6 of the lower
/// rows hold instructions without an operand; X is indexed by Y.
pub open spec fn modifyGroup(row: u8, column: u8) -> Option<InstructionDescriptor> {
    if row < 4 {
        let mnemonic = match row {
            0 => Mnemonic::ASL,
            1 => Mnemonic::ROL,
            2 => Mnemonic::LSR,
            _ => Mnemonic::ROR,
        };
        match column {
            1 => addressing(mnemonic, Mode::ZeroPage),
            2 => addressing(mnemonic, Mode::Accumulator),
            3 => addressing(mnemonic, Mode::Absolute),
            5 => addressing(mnemonic, Mode::ZeroPageX),
            7 => addressing(mnemonic, Mode::AbsoluteX),
            _ => None,
        }
    } else if row == 4 {
        match column {
            1 => addressing(Mnemonic::STX, Mode::ZeroPage),
            2 => bare(Mnemonic::TXA),
            3 => addressing(Mnemonic::STX, Mode::Absolute),
            5 => addressing(Mnemonic::STX, Mode::ZeroPageY),
            6 => bare(Mnemonic::TXS),
            _ => None,
        }
    } else if row == 5 {
        match column {
            0 => addressing(Mnemonic::LDX, Mode::Immediate),
            1 => addressing(Mnemonic::LDX, Mode::ZeroPage),
            2 => bare(Mnemonic::TAX),
            3 => addressing(Mnemonic::LDX, Mode::Absolute),
            5 => addressing(Mnemonic::LDX, Mode::ZeroPageY),
            6 => bare(Mnemonic::TSX),
            7 => addressing(Mnemonic::LDX, Mode::AbsoluteY),
            _ => None,
        }
    } else {
        let mnemonic = if row == 6 {
            Mnemonic::DEC
        } else {
            Mnemonic::INC
        };
        match column {
            1 => addressing(mnemonic, Mode::ZeroPage),
            2 => if row == 6 {
                bare(Mnemonic::DEX)
            } else {
                bare(Mnemonic::NOP)
            },
            3 => addressing(mnemonic, Mode::Absolute),
            5 => addressing(mnemonic, Mode::ZeroPageX),
            7 => addressing(mnemonic, Mode::AbsoluteX),
            _ => None,
        }
    }
}

/// Group 0, the columns without an operand: the stack and Y instructions
/// in column 2, the flag instructions in column 6, and the branches in column 4.
pub open spec fn impliedColumn(row: u8, column: u8) -> Option<InstructionDescriptor> {
    if column == 2 {
        match row {
            0 => fixed(Mnemonic::PHP, Mode::Implied, 3),
            1 => fixed(Mnemonic::PLP, Mode::Implied, 4),
            2 => fixed(Mnemonic::PHA, Mode::Implied, 3),
            3 => fixed(Mnemonic::PLA, Mode::Implied, 4),
            4 => bare(Mnemonic::DEY),
            5 => bare(Mnemonic::TAY),
            6 => bare(Mnemonic::INY),
            _ => bare(Mnemonic::INX),
        }
    } else if column == 6 {
        match row {
            0 => bare(Mnemonic::CLC),
            1 => bare(Mnemonic::SEC),
            2 => bare(Mnemonic::CLI),
            3 => bare(Mnemonic::SEI),
            4 => bare(Mnemonic::TYA),
            5 => bare(Mnemonic::CLV),
            6 => bare(Mnemonic::CLD),
            _ => bare(Mnemonic::SED),
        }
    } else {
        match row {
            0 => branch(Mnemonic::BPL),
            1 => branch(Mnemonic::BMI),
            2 => branch(Mnemonic::BVC),
            3 => branch(Mnemonic::BVS),
            4 => branch(Mnemonic::BCC),
            5 => branch(Mnemonic::BCS),
            6 => branch(Mnemonic::BNE),
            _ => branch(Mnemonic::BEQ),
        }
    }
}

/// Group 0, the rows that address an operand: the bit test, the Y
/// register's store and load, and the comparisons with Y and X.
pub open spec fn indexGroup(row: u8, mode: Mode) -> Option<InstructionDescriptor> {
    match row {
        1 => match mode {
            Mode::ZeroPage | Mode::Absolute => addressing(Mnemonic::BIT, mode),
            _ => None,
        },
        4 => match mode {
            Mode::ZeroPage | Mode::Absolute | Mode::ZeroPageX => addressing(Mnemonic::STY, mode),
            _ => None,
        },
        5 => addressing(Mnemonic::LDY, mode),
        6 => match mode {
            Mode::Immediate | Mode::ZeroPage | Mode::Absolute => addressing(Mnemonic::CPY, mode),
            _ => None,
        },
        7 => match mode {
            Mode::Immediate | Mode::ZeroPage | Mode::Absolute => addressing(Mnemonic::CPX, mode),
            _ => None,
        },
        _ => None,
    }
}

/// Group 0: the control instructions in the upper rows of columns 0 and 3,
/// the columns without an operand, and the rows that address one.
pub open spec fn controlGroup(row: u8, column: u8) -> Option<InstructionDescriptor> {
    if column == 2 || column == 4 || column == 6 {
        impliedColumn(row, column)
    } else if column == 0 && row < 4 {
        match row {
            0 => fixed(Mnemonic::BRK, Mode::Implied, 7),
            1 => fixed(Mnemonic::JSR, Mode::Absolute, 6),
            2 => fixed(Mnemonic::RTI, Mode::Implied, 6),
            _ => fixed(Mnemonic::RTS, Mode::Implied, 6),
        }
    } else if column == 3 && row == 2 {
        fixed(Mnemonic::JMP, Mode::Absolute, 3)
    } else if column == 3 && row == 3 {
        fixed(Mnemonic::JMP, Mode::Indirect, 5)
    } else {
        match column {
            0 => indexGroup(row, Mode::Immediate),
            1 => indexGroup(row, Mode::ZeroPage),
            3 => indexGroup(row, Mode::Absolute),
            5 => indexGroup(row, Mode::ZeroPageX),
            _ => indexGroup(row, Mode::AbsoluteX),
        }
    }
}

/// The table entry of an opcode byte; `None` for a byte that stands for no
/// instruction.
pub open spec fn descriptor(opcode: u8) -> Option<InstructionDescriptor> {
    match group(opcode) {
        0 => controlGroup(row(opcode), column(opcode)),
        1 => accumulatorGroup(row(opcode), column(opcode)),
        2 => modifyGroup(row(opcode), column(opcode)),
        _ => None,
    }
}

/// Whether an entry, if there is one, pairs its instruction with a mode
/// that fits it and costs between two and seven cycles.
pub open spec fn sound(found: Option<InstructionDescriptor>) -> bool {
    found matches Some(entry) ==> fits(entry.mnemonic.operandUse(), entry.mode) && 2
        <= entry.cycles <= 7
}

/// The table entry of `opcode`, which the rules give these four values.
fn entry(opcode: u8, mnemonic: Mnemonic, mode: Mode, cycles: u8, penalty: bool) -> (found: Option<
    InstructionDescriptor,
>)
    requires
        descriptor(opcode) == Some(InstructionDescriptor { mnemonic, mode, cycles, penalty }),
    ensures
        found == descriptor(opcode),
{
    Some(InstructionDescriptor { mnemonic, mode, cycles, penalty })
}

/// The missing entry of `opcode`, to which the rules give none.
fn vacant(opcode: u8) -> (found: Option<InstructionDescriptor>)
    requires
        descriptor(opcode) is None,
    ensures
        found == descriptor(opcode),
{
    None
}

/// The entries of the opcodes `0x00..=0x1F`.
#[verifier::rlimit(50)]
fn decodeRowZero(opcode: u8) -> (found: Option<InstructionDescriptor>)
    requires
        row(opcode) == 0,
    ensures
        found == descriptor(opcode),
{
    match opcode {
        0x00 => entry(0x00, Mnemonic::BRK, Mode::Implied, 7, false),
        0x01 => entry(0x01, Mnemonic::ORA, Mode::IndexedIndirect, 6, false),
        0x02 => vacant(0x02),
        0x03 => vacant(0x03),
        0x04 => vacant(0x04),
        0x05 => entry(0x05, Mnemonic::ORA, Mode::ZeroPage, 3, false),
        0x06 => entry(0x06, Mnemonic::ASL, Mode::ZeroPage, 5, false),
        0x07 => vacant(0x07),
        0x08 => entry(0x08, Mnemonic::PHP, Mode::Implied, 3, false),
        0x09 => entry(0x09, Mnemonic::ORA, Mode::Immediate, 2, false),
        0x0A => entry(0x0A, Mnemonic::ASL, Mode::Accumulator, 2, false),
        0x0B => vacant(0x0B),
        0x0C => vacant(0x0C),
        0x0D => entry(0x0D, Mnemonic::ORA, Mode::Absolute, 4, false),
        0x0E => entry(0x0E, Mnemonic::ASL, Mode::Absolute, 6, false),
        0x0F => vacant(0x0F),
        0x10 => entry(0x10, Mnemonic::BPL, Mode::Relative, 2, true),
        0x11 => entry(0x11, Mnemonic::ORA, Mode::IndirectIndexed, 5, true),
        0x12 => vacant(0x12),
        0x13 => vacant(0x13),
        0x14 => vacant(0x14),
        0x15 => entry(0x15, Mnemonic::ORA, Mode::ZeroPageX, 4, false),
        0x16 => entry(0x16, Mnemonic::ASL, Mode::ZeroPageX, 6, false),
        0x17 => vacant(0x17),
        0x18 => entry(0x18, Mnemonic::CLC, Mode::Implied, 2, false),
        0x19 => entry(0x19, Mnemonic::ORA, Mode::AbsoluteY, 4, true),
        0x1A => vacant(0x1A),
        0x1B => vacant(0x1B),
        0x1C => vacant(0x1C),
        0x1D => entry(0x1D, Mnemonic::ORA, Mode::AbsoluteX, 4, true),
        0x1E => entry(0x1E, Mnemonic::ASL, Mode::AbsoluteX, 7, false),
        0x1F => vacant(0x1F),
        _ => None,
    }
}

/// The entries of the opcodes `0x20..=0x3F`.
#[verifier::rlimit(50)]
fn decodeRowOne(opcode: u8) -> (found: Option<InstructionDescriptor>)
    requires
        row(opcode) == 1,
    ensures
        found == descriptor(opcode),
{
    match opcode {
        0x20 => entry(0x20, Mnemonic::JSR, Mode::Absolute, 6, false),
        0x21 => entry(0x21, Mnemonic::AND, Mode::IndexedIndirect, 6, false),
        0x22 => vacant(0x22),
        0x23 => vacant(0x23),
        0x24 => entry(0x24, Mnemonic::BIT, Mode::ZeroPage, 3, false),
        0x25 => entry(0x25, Mnemonic::AND, Mode::ZeroPage, 3, false),
        0x26 => entry(0x26, Mnemonic::ROL, Mode::ZeroPage, 5, false),
        0x27 => vacant(0x27),
        0x28 => entry(0x28, Mnemonic::PLP, Mode::Implied, 4, false),
        0x29 => entry(0x29, Mnemonic::AND, Mode::Immediate, 2, false),
        0x2A => entry(0x2A, Mnemonic::ROL, Mode::Accumulator, 2, false),
        0x2B => vacant(0x2B),
        0x2C => entry(0x2C, Mnemonic::BIT, Mode::Absolute, 4, false),
        0x2D => entry(0x2D, Mnemonic::AND, Mode::Absolute, 4, false),
        0x2E => entry(0x2E, Mnemonic::ROL, Mode::Absolute, 6, false),
        0x2F => vacant(0x2F),
        0x30 => entry(0x30, Mnemonic::BMI, Mode::Relative, 2, true),
        0x31 => entry(0x31, Mnemonic::AND, Mode::IndirectIndexed, 5, true),
        0x32 => vacant(0x32),
        0x33 => vacant(0x33),
        0x34 => vacant(0x34),
        0x35 => entry(0x35, Mnemonic::AND, Mode::ZeroPageX, 4, false),
        0x36 => entry(0x36, Mnemonic::ROL, Mode::ZeroPageX, 6, false),
        0x37 => vacant(0x37),
        0x38 => entry(0x38, Mnemonic::SEC, Mode::Implied, 2, false),
        0x39 => entry(0x39, Mnemonic::AND, Mode::AbsoluteY, 4, true),
        0x3A => vacant(0x3A),
        0x3B => vacant(0x3B),
        0x3C => vacant(0x3C),
        0x3D => entry(0x3D, Mnemonic::AND, Mode::AbsoluteX, 4, true),
        0x3E => entry(0x3E, Mnemonic::ROL, Mode::AbsoluteX, 7, false),
        0x3F => vacant(0x3F),
        _ => None,
    }
}

/// The entries of the opcodes `0x40..=0x5F`.
#[verifier::rlimit(50)]
fn decodeRowTwo(opcode: u8) -> (found: Option<InstructionDescriptor>)
    requires
        row(opcode) == 2,
    ensures
        found == descriptor(opcode),
{
    match opcode {
        0x40 => entry(0x40, Mnemonic::RTI, Mode::Implied, 6, false),
        0x41 => entry(0x41, Mnemonic::EOR, Mode::IndexedIndirect, 6, false),
        0x42 => vacant(0x42),
        0x43 => vacant(0x43),
        0x44 => vacant(0x44),
        0x45 => entry(0x45, Mnemonic::EOR, Mode::ZeroPage, 3, false),
        0x46 => entry(0x46, Mnemonic::LSR, Mode::ZeroPage, 5, false),
        0x47 => vacant(0x47),
        0x48 => entry(0x48, Mnemonic::PHA, Mode::Implied, 3, false),
        0x49 => entry(0x49, Mnemonic::EOR, Mode::Immediate, 2, false),
        0x4A => entry(0x4A, Mnemonic::LSR, Mode::Accumulator, 2, false),
        0x4B => vacant(0x4B),
        0x4C => entry(0x4C, Mnemonic::JMP, Mode::Absolute, 3, false),
        0x4D => entry(0x4D, Mnemonic::EOR, Mode::Absolute, 4, false),
        0x4E => entry(0x4E, Mnemonic::LSR, Mode::Absolute, 6, false),
        0x4F => vacant(0x4F),
        0x50 => entry(0x50, Mnemonic::BVC, Mode::Relative, 2, true),
        0x51 => entry(0x51, Mnemonic::EOR, Mode::IndirectIndexed, 5, true),
        0x52 => vacant(0x52),
        0x53 => vacant(0x53),
        0x54 => vacant(0x54),
        0x55 => entry(0x55, Mnemonic::EOR, Mode::ZeroPageX, 4, false),
        0x56 => entry(0x56, Mnemonic::LSR, Mode::ZeroPageX, 6, false),
        0x57 => vacant(0x57),
        0x58 => entry(0x58, Mnemonic::CLI, Mode::Implied, 2, false),
        0x59 => entry(0x59, Mnemonic::EOR, Mode::AbsoluteY, 4, true),
        0x5A => vacant(0x5A),
        0x5B => vacant(0x5B),
        0x5C => vacant(0x5C),
        0x5D => entry(0x5D, Mnemonic::EOR, Mode::AbsoluteX, 4, true),
        0x5E => entry(0x5E, Mnemonic::LSR, Mode::AbsoluteX, 7, false),
        0x5F => vacant(0x5F),
        _ => None,
    }
}

/// The entries of the opcodes `0x60..=0x7F`.
#[verifier::rlimit(50)]
fn decodeRowThree(opcode: u8) -> (found: Option<InstructionDescriptor>)
    requires
        row(opcode) == 3,
    ensures
        found == descriptor(opcode),
{
    match opcode {
        0x60 => entry(0x60, Mnemonic::RTS, Mode::Implied, 6, false),
        0x61 => entry(0x61, Mnemonic::ADC, Mode::IndexedIndirect, 6, false),
        0x62 => vacant(0x62),
        0x63 => vacant(0x63),
        0x64 => vacant(0x64),
        0x65 => entry(0x65, Mnemonic::ADC, Mode::ZeroPage, 3, false),
        0x66 => entry(0x66, Mnemonic::ROR, Mode::ZeroPage, 5, false),
        0x67 => vacant(0x67),
        0x68 => entry(0x68, Mnemonic::PLA, Mode::Implied, 4, false),
        0x69 => entry(0x69, Mnemonic::ADC, Mode::Immediate, 2, false),
        0x6A => entry(0x6A, Mnemonic::ROR, Mode::Accumulator, 2, false),
        0x6B => vacant(0x6B),
        0x6C => entry(0x6C, Mnemonic::JMP, Mode::Indirect, 5, false),
        0x6D => entry(0x6D, Mnemonic::ADC, Mode::Absolute, 4, false),
        0x6E => entry(0x6E, Mnemonic::ROR, Mode::Absolute, 6, false),
        0x6F => vacant(0x6F),
        0x70 => entry(0x70, Mnemonic::BVS, Mode::Relative, 2, true),
        0x71 => entry(0x71, Mnemonic::ADC, Mode::IndirectIndexed, 5, true),
        0x72 => vacant(0x72),
        0x73 => vacant(0x73),
        0x74 => vacant(0x74),
        0x75 => entry(0x75, Mnemonic::ADC, Mode::ZeroPageX, 4, false),
        0x76 => entry(0x76, Mnemonic::ROR, Mode::ZeroPageX, 6, false),
        0x77 => vacant(0x77),
        0x78 => entry(0x78, Mnemonic::SEI, Mode::Implied, 2, false),
        0x79 => entry(0x79, Mnemonic::ADC, Mode::AbsoluteY, 4, true),
        0x7A => vacant(0x7A),
        0x7B => vacant(0x7B),
        0x7C => vacant(0x7C),
        0x7D => entry(0x7D, Mnemonic::ADC, Mode::AbsoluteX, 4, true),
        0x7E => entry(0x7E, Mnemonic::ROR, Mode::AbsoluteX, 7, false),
        0x7F => vacant(0x7F),
        _ => None,
    }
}

/// The entries of the opcodes `0x80..=0x9F`.
#[verifier::rlimit(50)]
fn decodeRowFour(opcode: u8) -> (found: Option<InstructionDescriptor>)
    requires
        row(opcode) == 4,
    ensures
        found == descriptor(opcode),
{
    match opcode {
        0x80 => vacant(0x80),
        0x81 => entry(0x81, Mnemonic::STA, Mode::IndexedIndirect, 6, false),
        0x82 => vacant(0x82),
        0x83 => vacant(0x83),
        0x84 => entry(0x84, Mnemonic::STY, Mode::ZeroPage, 3, false),
        0x85 => entry(0x85, Mnemonic::STA, Mode::ZeroPage, 3, false),
        0x86 => entry(0x86, Mnemonic::STX, Mode::ZeroPage, 3, false),
        0x87 => vacant(0x87),
        0x88 => entry(0x88, Mnemonic::DEY, Mode::Implied, 2, false),
        0x89 => vacant(0x89),
        0x8A => entry(0x8A, Mnemonic::TXA, Mode::Implied, 2, false),
        0x8B => vacant(0x8B),
        0x8C => entry(0x8C, Mnemonic::STY, Mode::Absolute, 4, false),
        0x8D => entry(0x8D, Mnemonic::STA, Mode::Absolute, 4, false),
        0x8E => entry(0x8E, Mnemonic::STX, Mode::Absolute, 4, false),
        0x8F => vacant(0x8F),
        0x90 => entry(0x90, Mnemonic::BCC, Mode::Relative, 2, true),
        0x91 => entry(0x91, Mnemonic::STA, Mode::IndirectIndexed, 6, false),
        0x92 => vacant(0x92),
        0x93 => vacant(0x93),
        0x94 => entry(0x94, Mnemonic::STY, Mode::ZeroPageX, 4, false),
        0x95 => entry(0x95, Mnemonic::STA, Mode::ZeroPageX, 4, false),
        0x96 => entry(0x96, Mnemonic::STX, Mode::ZeroPageY, 4, false),
        0x97 => vacant(0x97),
        0x98 => entry(0x98, Mnemonic::TYA, Mode::Implied, 2, false),
        0x99 => entry(0x99, Mnemonic::STA, Mode::AbsoluteY, 5, false),
        0x9A => entry(0x9A, Mnemonic::TXS, Mode::Implied, 2, false),
        0x9B => vacant(0x9B),
        0x9C => vacant(0x9C),
        0x9D => entry(0x9D, Mnemonic::STA, Mode::AbsoluteX, 5, false),
        0x9E => vacant(0x9E),
        0x9F => vacant(0x9F),
        _ => None,
    }
}

/// The entries of the opcodes `0xA0..=0xBF`.
#[verifier::rlimit(50)]
fn decodeRowFive(opcode: u8) -> (found: Option<InstructionDescriptor>)
    requires
        row(opcode) == 5,
    ensures
        found == descriptor(opcode),
{
    match opcode {
        0xA0 => entry(0xA0, Mnemonic::LDY, Mode::Immediate, 2, false),
        0xA1 => entry(0xA1, Mnemonic::LDA, Mode::IndexedIndirect, 6, false),
        0xA2 => entry(0xA2, Mnemonic::LDX, Mode::Immediate, 2, false),
        0xA3 => vacant(0xA3),
        0xA4 => entry(0xA4, Mnemonic::LDY, Mode::ZeroPage, 3, false),
        0xA5 => entry(0xA5, Mnemonic::LDA, Mode::ZeroPage, 3, false),
        0xA6 => entry(0xA6, Mnemonic::LDX, Mode::ZeroPage, 3, false),
        0xA7 => vacant(0xA7),
        0xA8 => entry(0xA8, Mnemonic::TAY, Mode::Implied, 2, false),
        0xA9 => entry(0xA9, Mnemonic::LDA, Mode::Immediate, 2, false),
        0xAA => entry(0xAA, Mnemonic::TAX, Mode::Implied, 2, false),
        0xAB => vacant(0xAB),
        0xAC => entry(0xAC, Mnemonic::LDY, Mode::Absolute, 4, false),
        0xAD => entry(0xAD, Mnemonic::LDA, Mode::Absolute, 4, false),
        0xAE => entry(0xAE, Mnemonic::LDX, Mode::Absolute, 4, false),
        0xAF => vacant(0xAF),
        0xB0 => entry(0xB0, Mnemonic::BCS, Mode::Relative, 2, true),
        0xB1 => entry(0xB1, Mnemonic::LDA, Mode::IndirectIndexed, 5, true),
        0xB2 => vacant(0xB2),
        0xB3 => vacant(0xB3),
        0xB4 => entry(0xB4, Mnemonic::LDY, Mode::ZeroPageX, 4, false),
        0xB5 => entry(0xB5, Mnemonic::LDA, Mode::ZeroPageX, 4, false),
        0xB6 => entry(0xB6, Mnemonic::LDX, Mode::ZeroPageY, 4, false),
        0xB7 => vacant(0xB7),
        0xB8 => entry(0xB8, Mnemonic::CLV, Mode::Implied, 2, false),
        0xB9 => entry(0xB9, Mnemonic::LDA, Mode::AbsoluteY, 4, true),
        0xBA => entry(0xBA, Mnemonic::TSX, Mode::Implied, 2, false),
        0xBB => vacant(0xBB),
        0xBC => entry(0xBC, Mnemonic::LDY, Mode::AbsoluteX, 4, true),
        0xBD => entry(0xBD, Mnemonic::LDA, Mode::AbsoluteX, 4, true),
        0xBE => entry(0xBE, Mnemonic::LDX, Mode::AbsoluteY, 4, true),
        0xBF => vacant(0xBF),
        _ => None,
    }
}

/// The entries of the opcodes `0xC0..=0xDF`.
#[verifier::rlimit(50)]
fn decodeRowSix(opcode: u8) -> (found: Option<InstructionDescriptor>)
    requires
        row(opcode) == 6,
    ensures
        found == descriptor(opcode),
{
    match opcode {
        0xC0 => entry(0xC0, Mnemonic::CPY, Mode::Immediate, 2, false),
        0xC1 => entry(0xC1, Mnemonic::CMP, Mode::IndexedIndirect, 6, false),
        0xC2 => vacant(0xC2),
        0xC3 => vacant(0xC3),
        0xC4 => entry(0xC4, Mnemonic::CPY, Mode::ZeroPage, 3, false),
        0xC5 => entry(0xC5, Mnemonic::CMP, Mode::ZeroPage, 3, false),
        0xC6 => entry(0xC6, Mnemonic::DEC, Mode::ZeroPage, 5, false),
        0xC7 => vacant(0xC7),
        0xC8 => entry(0xC8, Mnemonic::INY, Mode::Implied, 2, false),
        0xC9 => entry(0xC9, Mnemonic::CMP, Mode::Immediate, 2, false),
        0xCA => entry(0xCA, Mnemonic::DEX, Mode::Implied, 2, false),
        0xCB => vacant(0xCB),
        0xCC => entry(0xCC, Mnemonic::CPY, Mode::Absolute, 4, false),
        0xCD => entry(0xCD, Mnemonic::CMP, Mode::Absolute, 4, false),
        0xCE => entry(0xCE, Mnemonic::DEC, Mode::Absolute, 6, false),
        0xCF => vacant(0xCF),
        0xD0 => entry(0xD0, Mnemonic::BNE, Mode::Relative, 2, true),
        0xD1 => entry(0xD1, Mnemonic::CMP, Mode::IndirectIndexed, 5, true),
        0xD2 => vacant(0xD2),
        0xD3 => vacant(0xD3),
        0xD4 => vacant(0xD4),
        0xD5 => entry(0xD5, Mnemonic::CMP, Mode::ZeroPageX, 4, false),
        0xD6 => entry(0xD6, Mnemonic::DEC, Mode::ZeroPageX, 6, false),
        0xD7 => vacant(0xD7),
        0xD8 => entry(0xD8, Mnemonic::CLD, Mode::Implied, 2, false),
        0xD9 => entry(0xD9, Mnemonic::CMP, Mode::AbsoluteY, 4, true),
        0xDA => vacant(0xDA),
        0xDB => vacant(0xDB),
        0xDC => vacant(0xDC),
        0xDD => entry(0xDD, Mnemonic::CMP, Mode::AbsoluteX, 4, true),
        0xDE => entry(0xDE, Mnemonic::DEC, Mode::AbsoluteX, 7, false),
        0xDF => vacant(0xDF),
        _ => None,
    }
}

/// The entries of the opcodes `0xE0..=0xFF`.
#[verifier::rlimit(50)]
fn decodeRowSeven(opcode: u8) -> (found: Option<InstructionDescriptor>)
    requires
        row(opcode) == 7,
    ensures
        found == descriptor(opcode),
{
    match opcode {
        0xE0 => entry(0xE0, Mnemonic::CPX, Mode::Immediate, 2, false),
        0xE1 => entry(0xE1, Mnemonic::SBC, Mode::IndexedIndirect, 6, false),
        0xE2 => vacant(0xE2),
        0xE3 => vacant(0xE3),
        0xE4 => entry(0xE4, Mnemonic::CPX, Mode::ZeroPage, 3, false),
        0xE5 => entry(0xE5, Mnemonic::SBC, Mode::ZeroPage, 3, false),
        0xE6 => entry(0xE6, Mnemonic::INC, Mode::ZeroPage, 5, false),
        0xE7 => vacant(0xE7),
        0xE8 => entry(0xE8, Mnemonic::INX, Mode::Implied, 2, false),
        0xE9 => entry(0xE9, Mnemonic::SBC, Mode::Immediate, 2, false),
        0xEA => entry(0xEA, Mnemonic::NOP, Mode::Implied, 2, false),
        0xEB => vacant(0xEB),
        0xEC => entry(0xEC, Mnemonic::CPX, Mode::Absolute, 4, false),
        0xED => entry(0xED, Mnemonic::SBC, Mode::Absolute, 4, false),
        0xEE => entry(0xEE, Mnemonic::INC, Mode::Absolute, 6, false),
        0xEF => vacant(0xEF),
        0xF0 => entry(0xF0, Mnemonic::BEQ, Mode::Relative, 2, true),
        0xF1 => entry(0xF1, Mnemonic::SBC, Mode::IndirectIndexed, 5, true),
        0xF2 => vacant(0xF2),
        0xF3 => vacant(0xF3),
        0xF4 => vacant(0xF4),
        0xF5 => entry(0xF5, Mnemonic::SBC, Mode::ZeroPageX, 4, false),
        0xF6 => entry(0xF6, Mnemonic::INC, Mode::ZeroPageX, 6, false),
        0xF7 => vacant(0xF7),
        0xF8 => entry(0xF8, Mnemonic::SED, Mode::Implied, 2, false),
        0xF9 => entry(0xF9, Mnemonic::SBC, Mode::AbsoluteY, 4, true),
        0xFA => vacant(0xFA),
        0xFB => vacant(0xFB),
        0xFC => vacant(0xFC),
        0xFD => entry(0xFD, Mnemonic::SBC, Mode::AbsoluteX, 4, true),
        0xFE => entry(0xFE, Mnemonic::INC, Mode::AbsoluteX, 7, false),
        0xFF => vacant(0xFF),
        _ => None,
    }
}

/// Every entry of the table pairs its instruction with a mode that fits
/// it, and costs between two and seven cycles.
pub proof fn lemma_descriptor_sound(opcode: u8)
    ensures
        sound(descriptor(opcode)),
{
}

/// Looks an opcode byte up in the instruction table. Of the 256 bytes, 151
/// stand for an instruction; the others give `None`.
pub fn decode(opcode: u8) -> (found: Option<InstructionDescriptor>)
    ensures
        found == descriptor(opcode),
        sound(found),
{
    proof {
        lemma_descriptor_sound(opcode);
    }
    match opcode / 32 {
        0 => decodeRowZero(opcode),
        1 => decodeRowOne(opcode),
        2 => decodeRowTwo(opcode),
        3 => decodeRowThree(opcode),
        4 => decodeRowFour(opcode),
        5 => decodeRowFive(opcode),
        6 => decodeRowSix(opcode),
        _ => decodeRowSeven(opcode),
    }
}

} // verus!
