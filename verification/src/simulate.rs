//! The single-step driver: fetch the opcode, look it up, resolve its
//! addressing mode, move the program counter past the instruction, run the
//! instruction, and count the cycles.
use vstd::prelude::*;
use crate::addressing::{advance, advanced, resolve, wordAt, Mode, Operand};
use crate::bus::{read, Bus, Device};
use crate::data::{statusReg, State};
use crate::flags::{lowByte, movedLeft, movedRight};
use crate::interrupt::{dueInterrupt, serve, Interrupt, IRQ_VECTOR, NMI_VECTOR};
use crate::ops;
use crate::stack::Machine;
use crate::table::{decode, descriptor, fits, InstructionDescriptor, Mnemonic, Use};

verus! {

/// The byte at the program counter stands for no instruction.
#[derive(Clone, Copy, Debug, PartialEq, Eq, Structural)]
pub struct IllegalOpcode {
    /// The byte that was fetched.
    pub opcode: u8,
}

/// What an instruction leaves behind.
pub ghost struct Executed<D: Device> {
    pub machine: Machine<D>,
    /// Whether a branch was taken.
    pub taken: bool,
}

/// What one step leaves behind.
pub ghost struct Step<D: Device> {
    pub machine: Machine<D>,
    /// The cycles that the instruction took, or the byte that stands for none.
    pub cycles: Result<int, IllegalOpcode>,
}

/// Whether an instruction that uses its operand so can work on `operand`.
pub open spec fn admits(operandUse: Use, operand: Operand) -> bool {
    match operandUse {
        Use::Read => operand is Address || operand is Immediate,
        Use::Modify => operand is Address || operand is Accumulator,
        Use::Store => operand is Address,
        Use::Jump => operand is Address,
        Use::Implied => operand is Implied,
    }
}

/// The cycles that an instruction took: those of its table entry, and
/// where the entry asks for it one more for a crossed page; for a branch
/// one more if it was taken, and then one more for a crossed page.
pub open spec fn elapsed(entry: InstructionDescriptor, pageCrossed: bool, taken: bool) -> int {
    if !entry.penalty {
        entry.cycles as int
    } else if entry.mode is Relative {
        if !taken {
            entry.cycles as int
        } else if pageCrossed {
            entry.cycles + 2
        } else {
            entry.cycles + 1
        }
    } else if pageCrossed {
        entry.cycles + 1
    } else {
        entry.cycles as int
    }
}

impl State {
    /// The registers after an instruction that reads its operand; another
    /// instruction changes nothing.
    pub open spec fn afterRead(self, mnemonic: Mnemonic, value: u8) -> State {
        match mnemonic {
            Mnemonic::ADC => self.adc(value),
            Mnemonic::AND => self.and(value),
            Mnemonic::BIT => self.bit(value),
            Mnemonic::CMP => self.compared(self.accumulator, value),
            Mnemonic::CPX => self.compared(self.indexX, value),
            Mnemonic::CPY => self.compared(self.indexY, value),
            Mnemonic::EOR => self.eor(value),
            Mnemonic::LDA => self.lda(value),
            Mnemonic::LDX => self.ldx(value),
            Mnemonic::LDY => self.ldy(value),
            Mnemonic::ORA => self.ora(value),
            Mnemonic::SBC => self.sbc(value),
            _ => self,
        }
    }

    /// What an instruction that changes its operand makes of `value`;
    /// another instruction leaves it.
    pub open spec fn modified(self, mnemonic: Mnemonic, value: u8) -> u8 {
        match mnemonic {
            Mnemonic::ASL => movedLeft(value, false),
            Mnemonic::LSR => movedRight(value, false),
            Mnemonic::ROL => movedLeft(value, self.statusRegister.carry),
            Mnemonic::ROR => movedRight(value, self.statusRegister.carry),
            Mnemonic::INC => lowByte(value + 1),
            Mnemonic::DEC => lowByte(value - 1),
            _ => value,
        }
    }

    /// The registers after an instruction that changes its operand
    /// `value`; another instruction changes nothing.
    pub open spec fn afterModify(self, mnemonic: Mnemonic, value: u8) -> State {
        match mnemonic {
            Mnemonic::ASL | Mnemonic::ROL => self.movedLeftFlags(
                value,
                self.modified(mnemonic, value),
            ),
            Mnemonic::LSR | Mnemonic::ROR => self.movedRightFlags(
                value,
                self.modified(mnemonic, value),
            ),
            Mnemonic::INC | Mnemonic::DEC => self.withResult(self.modified(mnemonic, value)),
            _ => self,
        }
    }

    /// Whether a branch instruction finds its condition met; no other
    /// instruction branches.
    pub open spec fn branches(self, mnemonic: Mnemonic) -> bool {
        match mnemonic {
            Mnemonic::BCC => !self.statusRegister.carry,
            Mnemonic::BCS => self.statusRegister.carry,
            Mnemonic::BEQ => self.statusRegister.zero,
            Mnemonic::BNE => !self.statusRegister.zero,
            Mnemonic::BMI => self.statusRegister.negative,
            Mnemonic::BPL => !self.statusRegister.negative,
            Mnemonic::BVC => !self.statusRegister.overflow,
            Mnemonic::BVS => self.statusRegister.overflow,
            _ => false,
        }
    }

    /// The registers after an instruction without an operand that touches no memory.
    pub open spec fn afterRegister(self, mnemonic: Mnemonic) -> State {
        match mnemonic {
            Mnemonic::CLC => self.withFlags(
                statusReg { carry: false, ..self.statusRegister },
            ),
            Mnemonic::SEC => self.withFlags(
                statusReg { carry: true, ..self.statusRegister },
            ),
            Mnemonic::CLD => self.withFlags(
                statusReg { decimal: false, ..self.statusRegister },
            ),
            Mnemonic::SED => self.withFlags(
                statusReg { decimal: true, ..self.statusRegister },
            ),
            Mnemonic::CLI => self.withFlags(
                statusReg { interruptDisable: false, ..self.statusRegister },
            ),
            Mnemonic::SEI => self.withFlags(
                statusReg { interruptDisable: true, ..self.statusRegister },
            ),
            Mnemonic::CLV => self.withFlags(
                statusReg { overflow: false, ..self.statusRegister },
            ),
            Mnemonic::DEX => self.ldx(lowByte(self.indexX - 1)),
            Mnemonic::DEY => self.ldy(lowByte(self.indexY - 1)),
            Mnemonic::INX => self.ldx(lowByte(self.indexX + 1)),
            Mnemonic::INY => self.ldy(lowByte(self.indexY + 1)),
            Mnemonic::TAX => self.ldx(self.accumulator),
            Mnemonic::TAY => self.ldy(self.accumulator),
            Mnemonic::TSX => self.ldx(self.stackPointer),
            Mnemonic::TXA => self.lda(self.indexX),
            Mnemonic::TXS => State { stackPointer: self.indexX, ..self },
            Mnemonic::TYA => self.lda(self.indexY),
            _ => self,
        }
    }
}

impl<D: Device> Machine<D> {
    /// The value of an operand. None is addressed by an implied
    /// instruction, which reads none.
    pub open spec fn operandValue(self, operand: Operand) -> u8 {
        match operand {
            Operand::Address(address) => self.bus.value(address),
            Operand::Immediate(value) => value,
            Operand::Accumulator => self.state.accumulator,
            Operand::Implied => 0,
        }
    }

    /// The machine with `result` written to the operand.
    pub open spec fn withOperand(self, operand: Operand, result: u8) -> Self {
        match operand {
            Operand::Address(address) => Machine {
                state: self.state,
                bus: self.bus.store(address, result),
            },
            Operand::Accumulator => self.withState(State { accumulator: result, ..self.state }),
            _ => self,
        }
    }

    /// The machine after an instruction that stores to or continues at
    /// `address`; an instruction that does neither changes nothing.
    pub open spec fn afterAddressed(self, mnemonic: Mnemonic, address: u16) -> Self {
        match mnemonic {
            Mnemonic::STA => Machine {
                state: self.state,
                bus: self.bus.store(address, self.state.accumulator),
            },
            Mnemonic::STX => Machine {
                state: self.state,
                bus: self.bus.store(address, self.state.indexX),
            },
            Mnemonic::STY => Machine {
                state: self.state,
                bus: self.bus.store(address, self.state.indexY),
            },
            Mnemonic::JMP => self.withState(State { programCounter: address, ..self.state }),
            Mnemonic::JSR => self.jsr(address),
            _ => self.withState(self.state.branched(self.state.branches(mnemonic), address)),
        }
    }

    /// The machine after an instruction without an operand; an instruction
    /// that has one changes nothing.
    pub open spec fn afterImplied(self, mnemonic: Mnemonic) -> Self {
        match mnemonic {
            Mnemonic::PHA => self.pushed(self.state.accumulator),
            Mnemonic::PHP => self.pushed(self.state.statusRegister.packed(true) as u8),
            Mnemonic::PLA => self.pla(),
            Mnemonic::PLP => self.plp(),
            Mnemonic::RTS => self.rts(),
            Mnemonic::RTI => self.rti(),
            Mnemonic::BRK => self.brk(),
            _ => self.withState(self.state.afterRegister(mnemonic)),
        }
    }

    /// What `mnemonic` leaves behind when run on `operand`, with the
    /// program counter already past the instruction; `None` where the
    /// instruction cannot work on such an operand.
    pub open spec fn executed(self, mnemonic: Mnemonic, operand: Operand) -> Option<Executed<D>> {
        if !admits(mnemonic.operandUse(), operand) {
            None
        } else {
            Some(
                match mnemonic.operandUse() {
                    Use::Read => Executed {
                        machine: self.withState(
                            self.state.afterRead(mnemonic, self.operandValue(operand)),
                        ),
                        taken: false,
                    },
                    Use::Modify => Executed {
                        machine: self.withState(
                            self.state.afterModify(mnemonic, self.operandValue(operand)),
                        ).withOperand(
                            operand,
                            self.state.modified(mnemonic, self.operandValue(operand)),
                        ),
                        taken: false,
                    },
                    Use::Store => Executed {
                        machine: self.afterAddressed(mnemonic, operand->Address_0),
                        taken: false,
                    },
                    Use::Jump => Executed {
                        machine: self.afterAddressed(mnemonic, operand->Address_0),
                        taken: self.state.branches(mnemonic),
                    },
                    Use::Implied => Executed {
                        machine: self.afterImplied(mnemonic),
                        taken: false,
                    },
                },
            )
        }
    }

    /// The opcode at the program counter.
    pub open spec fn opcode(self) -> u8 {
        self.bus.value(self.state.programCounter)
    }

    /// One step. A byte that stands for no instruction is reported and
    /// leaves the machine as it is. Else the addressing mode of the table
    /// entry is resolved, the program counter is moved past the
    /// instruction, the instruction is run, and its cycles are counted.
    pub open spec fn stepped(self) -> Step<D> {
        let illegal = Step { machine: self, cycles: Err(IllegalOpcode { opcode: self.opcode() }) };
        match descriptor(self.opcode()) {
            None => illegal,
            Some(entry) => {
                let resolved = entry.mode.resolved(self.state, self.bus);
                let fetched = self.withState(
                    State {
                        programCounter: advanced(self.state.programCounter, resolved.bytes as int),
                        ..self.state
                    },
                );
                match fetched.executed(entry.mnemonic, resolved.operand) {
                    Some(done) => Step {
                        machine: done.machine,
                        cycles: Ok(elapsed(entry, resolved.pageCrossed, done.taken)),
                    },
                    None => illegal,
                }
            },
        }
    }
}

/// A mode that fits an instruction resolves to an operand that the
/// instruction can work on.
pub proof fn lemma_fitting_mode_is_admitted<D: Device>(
    machine: Machine<D>,
    operandUse: Use,
    mode: Mode,
)
    requires
        fits(operandUse, mode),
    ensures
        admits(operandUse, mode.resolved(machine.state, machine.bus).operand),
{
}

/// Every opcode that stands for an instruction can be stepped: the table
/// pairs no instruction with a mode that it cannot work on.
pub proof fn lemma_assigned_opcode_steps<D: Device>(machine: Machine<D>)
    ensures
        machine.stepped().cycles is Err <==> descriptor(machine.opcode()) is None,
        machine.stepped().cycles matches Ok(cycles) ==> 2 <= cycles <= 9,
{
    crate::table::lemma_descriptor_sound(machine.opcode());
    match descriptor(machine.opcode()) {
        None => {},
        Some(entry) => {
            lemma_fitting_mode_is_admitted(machine, entry.mnemonic.operandUse(), entry.mode);
        },
    }
}

/// Reads the operand of an instruction that reads one: from memory or
/// from the instruction itself.
pub fn readOperand<D: Device>(currState: &State, bus: &Bus<D>, operand: Operand) -> (value:
    Option<u8>)
    ensures
        value is Some <==> admits(Use::Read, operand),
        value matches Some(byte) ==> byte == (Machine {
            state: *currState,
            bus: bus@,
        }).operandValue(operand),
{
    match operand {
        Operand::Address(address) => Some(read(bus, address)),
        Operand::Immediate(byte) => Some(byte),
        _ => None,
    }
}

/// Reads the operand of an instruction that changes one: from memory or
/// from the accumulator.
pub fn readTarget<D: Device>(currState: &State, bus: &Bus<D>, operand: Operand) -> (value: Option<
    u8,
>)
    ensures
        value is Some <==> admits(Use::Modify, operand),
        value matches Some(byte) ==> byte == (Machine {
            state: *currState,
            bus: bus@,
        }).operandValue(operand),
{
    match operand {
        Operand::Address(address) => Some(read(bus, address)),
        Operand::Accumulator => Some(currState.accumulator),
        _ => None,
    }
}

/// Writes `result` back to the operand of an instruction that changes one.
pub fn writeTarget<D: Device>(
    currState: &mut State,
    bus: &mut Bus<D>,
    operand: Operand,
    result: u8,
)
    ensures
        (Machine { state: *final(currState), bus: final(bus)@ }) == (Machine {
            state: *old(currState),
            bus: old(bus)@,
        }).withOperand(operand, result),
{
    match operand {
        Operand::Address(address) => crate::bus::write(bus, address, result),
        Operand::Accumulator => {
            currState.accumulator = result;
        },
        _ => {},
    }
}

/// Runs an instruction that reads its operand, on the operand's value.
/// Another instruction is not run.
pub fn executeRead(mnemonic: Mnemonic, currState: &mut State, value: u8)
    ensures
        *final(currState) == old(currState).afterRead(mnemonic, value),
{
    match mnemonic {
        Mnemonic::ADC => ops::adc(currState, value),
        Mnemonic::AND => ops::and(currState, value),
        Mnemonic::BIT => ops::bit(currState, value),
        Mnemonic::CMP => ops::cmp(currState, value),
        Mnemonic::CPX => ops::cpx(currState, value),
        Mnemonic::CPY => ops::cpy(currState, value),
        Mnemonic::EOR => ops::eor(currState, value),
        Mnemonic::LDA => ops::lda(currState, value),
        Mnemonic::LDX => ops::ldx(currState, value),
        Mnemonic::LDY => ops::ldy(currState, value),
        Mnemonic::ORA => ops::ora(currState, value),
        Mnemonic::SBC => ops::sbc(currState, value),
        _ => {},
    }
}

/// Runs an instruction that changes its operand, on the operand's value,
/// and returns the value to write back. Another instruction is not run,
/// and the value comes back as it is.
pub fn executeModify(mnemonic: Mnemonic, currState: &mut State, value: u8) -> (result: u8)
    ensures
        result == old(currState).modified(mnemonic, value),
        *final(currState) == old(currState).afterModify(mnemonic, value),
{
    match mnemonic {
        Mnemonic::ASL => ops::asl(currState, value),
        Mnemonic::LSR => ops::lsr(currState, value),
        Mnemonic::ROL => ops::rol(currState, value),
        Mnemonic::ROR => ops::ror(currState, value),
        Mnemonic::INC => ops::inc(currState, value),
        Mnemonic::DEC => ops::dec(currState, value),
        _ => value,
    }
}

/// Runs an instruction that stores to `address` or continues there, and
/// says whether a branch was taken. Another instruction is not run.
pub fn executeAddressed<D: Device>(
    mnemonic: Mnemonic,
    currState: &mut State,
    bus: &mut Bus<D>,
    address: u16,
) -> (taken: bool)
    ensures
        (Machine { state: *final(currState), bus: final(bus)@ }) == (Machine {
            state: *old(currState),
            bus: old(bus)@,
        }).afterAddressed(mnemonic, address),
        taken == old(currState).branches(mnemonic),
{
    match mnemonic {
        Mnemonic::STA => {
            ops::sta(currState, bus, address);
            false
        },
        Mnemonic::STX => {
            ops::stx(currState, bus, address);
            false
        },
        Mnemonic::STY => {
            ops::sty(currState, bus, address);
            false
        },
        Mnemonic::JMP => {
            ops::jmp(currState, address);
            false
        },
        Mnemonic::JSR => {
            ops::jsr(currState, bus, address);
            false
        },
        Mnemonic::BCC => ops::bcc(currState, address),
        Mnemonic::BCS => ops::bcs(currState, address),
        Mnemonic::BEQ => ops::beq(currState, address),
        Mnemonic::BNE => ops::bne(currState, address),
        Mnemonic::BMI => ops::bmi(currState, address),
        Mnemonic::BPL => ops::bpl(currState, address),
        Mnemonic::BVC => ops::bvc(currState, address),
        Mnemonic::BVS => ops::bvs(currState, address),
        _ => false,
    }
}

/// Runs an instruction without an operand. Another instruction is not run.
pub fn executeImplied<D: Device>(mnemonic: Mnemonic, currState: &mut State, bus: &mut Bus<D>)
    ensures
        (Machine { state: *final(currState), bus: final(bus)@ }) == (Machine {
            state: *old(currState),
            bus: old(bus)@,
        }).afterImplied(mnemonic),
{
    match mnemonic {
        Mnemonic::BRK => ops::brk(currState, bus),
        Mnemonic::CLC => ops::clc(currState),
        Mnemonic::CLD => ops::cld(currState),
        Mnemonic::CLI => ops::cli(currState),
        Mnemonic::CLV => ops::clv(currState),
        Mnemonic::DEX => ops::dex(currState),
        Mnemonic::DEY => ops::dey(currState),
        Mnemonic::INX => ops::inx(currState),
        Mnemonic::INY => ops::iny(currState),
        Mnemonic::NOP => ops::nop(currState),
        Mnemonic::PHA => ops::pha(currState, bus),
        Mnemonic::PHP => ops::php(currState, bus),
        Mnemonic::PLA => ops::pla(currState, bus),
        Mnemonic::PLP => ops::plp(currState, bus),
        Mnemonic::RTI => ops::rti(currState, bus),
        Mnemonic::RTS => ops::rts(currState, bus),
        Mnemonic::SEC => ops::sec(currState),
        Mnemonic::SED => ops::sed(currState),
        Mnemonic::SEI => ops::sei(currState),
        Mnemonic::TAX => ops::tax(currState),
        Mnemonic::TAY => ops::tay(currState),
        Mnemonic::TSX => ops::tsx(currState),
        Mnemonic::TXA => ops::txa(currState),
        Mnemonic::TXS => ops::txs(currState),
        Mnemonic::TYA => ops::tya(currState),
        _ => {},
    }
}

/// Runs `mnemonic` on `operand`, with the program counter already past the
/// instruction. Returns whether a branch was taken, or `None`, with
/// nothing changed, where the instruction cannot work on such an operand.
pub fn execute<D: Device>(
    mnemonic: Mnemonic,
    currState: &mut State,
    bus: &mut Bus<D>,
    operand: Operand,
) -> (taken: Option<bool>)
    ensures
        taken is Some <==> admits(mnemonic.operandUse(), operand),
        match (Machine { state: *old(currState), bus: old(bus)@ }).executed(mnemonic, operand) {
            Some(done) => taken == Some(done.taken) && (Machine {
                state: *final(currState),
                bus: final(bus)@,
            }) == done.machine,
            None => taken is None && *final(currState) == *old(currState) && final(bus)@ == old(
                bus,
            )@,
        },
{
    match mnemonic {
        Mnemonic::ADC
        | Mnemonic::AND
        | Mnemonic::BIT
        | Mnemonic::CMP
        | Mnemonic::CPX
        | Mnemonic::CPY
        | Mnemonic::EOR
        | Mnemonic::LDA
        | Mnemonic::LDX
        | Mnemonic::LDY
        | Mnemonic::ORA
        | Mnemonic::SBC => match readOperand(currState, bus, operand) {
            Some(value) => {
                executeRead(mnemonic, currState, value);
                Some(false)
            },
            None => None,
        },
        Mnemonic::ASL
        | Mnemonic::DEC
        | Mnemonic::INC
        | Mnemonic::LSR
        | Mnemonic::ROL
        | Mnemonic::ROR => match readTarget(currState, bus, operand) {
            Some(value) => {
                let result = executeModify(mnemonic, currState, value);
                writeTarget(currState, bus, operand, result);
                Some(false)
            },
            None => None,
        },
        Mnemonic::STA
        | Mnemonic::STX
        | Mnemonic::STY
        | Mnemonic::BCC
        | Mnemonic::BCS
        | Mnemonic::BEQ
        | Mnemonic::BMI
        | Mnemonic::BNE
        | Mnemonic::BPL
        | Mnemonic::BVC
        | Mnemonic::BVS
        | Mnemonic::JMP
        | Mnemonic::JSR => match operand {
            Operand::Address(address) => Some(executeAddressed(mnemonic, currState, bus, address)),
            _ => None,
        },
        _ => match operand {
            Operand::Implied => {
                executeImplied(mnemonic, currState, bus);
                Some(false)
            },
            _ => None,
        },
    }
}

/// The cycles that an instruction took.
pub fn cyclesElapsed(entry: &InstructionDescriptor, pageCrossed: bool, taken: bool) -> (cycles: u8)
    requires
        entry.cycles <= 253,
    ensures
        cycles == elapsed(*entry, pageCrossed, taken),
{
    let base = entry.cycles;
    if !entry.penalty {
        base
    } else {
        match entry.mode {
            Mode::Relative => if !taken {
                base
            } else if pageCrossed {
                base + 2
            } else {
                base + 1
            },
            _ => if pageCrossed {
                base + 1
            } else {
                base
            },
        }
    }
}

/// Runs the instruction at the program counter and returns the cycles it
/// took.
///
/// Where the byte at the program counter stands for no instruction, the
/// step reports that byte and changes nothing: no register, the program
/// counter included, and no memory. Every other byte is run; none of the
/// 151 assigned opcodes fails.
pub fn step<D: Device>(currState: &mut State, bus: &mut Bus<D>) -> (outcome: Result<
    u8,
    IllegalOpcode,
>)
    ensures
        (Machine { state: *final(currState), bus: final(bus)@ }) == (Machine {
            state: *old(currState),
            bus: old(bus)@,
        }).stepped().machine,
        match (Machine { state: *old(currState), bus: old(bus)@ }).stepped().cycles {
            Ok(cycles) => outcome matches Ok(count) && count == cycles,
            Err(illegal) => outcome == Err::<u8, IllegalOpcode>(illegal),
        },
        outcome is Err <==> descriptor(old(bus)@.value(old(currState).programCounter)) is None,
        outcome matches Err(illegal) ==> illegal.opcode == old(bus)@.value(
            old(currState).programCounter,
        ) && *final(currState) == *old(currState) && final(bus)@ == old(bus)@,
        outcome matches Ok(cycles) ==> 2 <= cycles <= 9,
{
    proof {
        lemma_assigned_opcode_steps(Machine { state: *currState, bus: bus@ });
    }
    let opcode = read(bus, currState.programCounter);
    match decode(opcode) {
        None => Err(IllegalOpcode { opcode }),
        Some(entry) => {
            let resolved = resolve(entry.mode, currState, bus);
            proof {
                lemma_fitting_mode_is_admitted(
                    Machine { state: *currState, bus: bus@ },
                    entry.mnemonic.operandUse(),
                    entry.mode,
                );
            }
            currState.programCounter = advance(currState.programCounter, resolved.bytes);
            match execute(entry.mnemonic, currState, bus, resolved.operand) {
                Some(taken) => Ok(cyclesElapsed(&entry, resolved.pageCrossed, taken)),
                None => Err(IllegalOpcode { opcode }),
            }
        },
    }
}

/// Runs the instruction at the program counter. Returns `false`, with
/// nothing changed, where the byte there stands for no instruction.
pub fn simulateInstruction<D: Device>(currState: &mut State, bus: &mut Bus<D>) -> (status: bool)
    ensures
        status == descriptor(old(bus)@.value(old(currState).programCounter)) is Some,
        (Machine { state: *final(currState), bus: final(bus)@ }) == (Machine {
            state: *old(currState),
            bus: old(bus)@,
        }).stepped().machine,
        !status ==> *final(currState) == *old(currState) && final(bus)@ == old(bus)@,
{
    match step(currState, bus) {
        Ok(_) => true,
        Err(_) => false,
    }
}

/// The check between two instructions. A waiting non-maskable interrupt is
/// served; else a waiting maskable interrupt, unless interrupts are
/// disabled, in which case it goes on waiting. Returns what was served.
pub fn checkInterrupt<D: Device>(currState: &mut State, bus: &mut Bus<D>) -> (served: Option<
    Interrupt,
>)
    ensures
        served == old(currState).due(),
        (Machine { state: *final(currState), bus: final(bus)@ }) == (Machine {
            state: *old(currState),
            bus: old(bus)@,
        }).checked(),
        served is None ==> *final(currState) == *old(currState) && final(bus)@ == old(bus)@,
        served == Some(Interrupt::NMI) ==> !final(currState).nmiPending
            && final(currState).programCounter == wordAt(old(bus)@, NMI_VECTOR),
        served == Some(Interrupt::IRQ) ==> !final(currState).irqPending
            && final(currState).programCounter == wordAt(old(bus)@, IRQ_VECTOR),
{
    let due = dueInterrupt(currState);
    match due {
        Some(Interrupt::NMI) => {
            currState.nmiPending = false;
            serve(currState, bus, Interrupt::NMI);
        },
        Some(Interrupt::IRQ) => {
            currState.irqPending = false;
            serve(currState, bus, Interrupt::IRQ);
        },
        _ => {},
    }
    due
}

} // verus!
