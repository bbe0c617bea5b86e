//! The interrupt controller: the requests that wait, the order in which
//! they are served, and the sequence that serves one.
use vstd::prelude::*;
use crate::addressing::{readWord, wordAt};
use crate::bus::{Bus, Device};
use crate::data::{statusReg, State};
use crate::stack::{push, pushWord, Machine};

verus! {

/// Where the address of the non-maskable interrupt's handler stands.
pub const NMI_VECTOR: u16 = 0xFFFA;

/// Where the address at which a reset starts the program stands.
pub const RESET_VECTOR: u16 = 0xFFFC;

/// Where the address of the handler of maskable interrupts and of the
/// break instruction stands.
pub const IRQ_VECTOR: u16 = 0xFFFE;

/// What makes the processor leave the program for a vector.
#[derive(Clone, Copy, Debug, PartialEq, Eq, Structural)]
pub enum Interrupt {
    /// The non-maskable interrupt line.
    NMI,
    /// The reset line.
    Reset,
    /// The maskable interrupt line.
    IRQ,
    /// The break instruction.
    BRK,
}

impl Interrupt {
    /// The vector that holds the address to continue at.
    pub open spec fn vector(self) -> u16 {
        match self {
            Interrupt::NMI => NMI_VECTOR,
            Interrupt::Reset => RESET_VECTOR,
            Interrupt::IRQ => IRQ_VECTOR,
            Interrupt::BRK => IRQ_VECTOR,
        }
    }

    /// The break-source bit of the stacked status byte: set for the
    /// instruction, clear for a hardware line.
    pub open spec fn breakSource(self) -> bool {
        self == Interrupt::BRK
    }
}

impl State {
    /// The request to serve next, if any: a waiting non-maskable interrupt
    /// first, then a waiting maskable one unless interrupts are disabled.
    pub open spec fn due(self) -> Option<Interrupt> {
        if self.nmiPending {
            Some(Interrupt::NMI)
        } else if self.irqPending && !self.statusRegister.interruptDisable {
            Some(Interrupt::IRQ)
        } else {
            None
        }
    }

    /// The registers once the request `kind` was taken up.
    pub open spec fn acknowledged(self, kind: Interrupt) -> State {
        match kind {
            Interrupt::NMI => State { nmiPending: false, ..self },
            Interrupt::IRQ => State { irqPending: false, ..self },
            _ => self,
        }
    }
}

impl<D: Device> Machine<D> {
    /// The machine once `kind` was served. A reset only loads the program
    /// counter from its vector. The others first push the program counter,
    /// high byte first, and the status byte with bit 5 set and the break
    /// source as `kind` has it, then disable interrupts and load the
    /// program counter from the vector.
    pub open spec fn served(self, kind: Interrupt) -> Self {
        if kind == Interrupt::Reset {
            Machine {
                state: State {
                    programCounter: wordAt(self.bus, kind.vector()),
                    ..self.state
                },
                bus: self.bus,
            }
        } else {
            let stacked = self.pushedWord(self.state.programCounter).pushed(
                self.state.statusRegister.packed(kind.breakSource()) as u8,
            );
            Machine {
                state: State {
                    programCounter: wordAt(stacked.bus, kind.vector()),
                    statusRegister: statusReg {
                        interruptDisable: true,
                        ..stacked.state.statusRegister
                    },
                    ..stacked.state
                },
                bus: stacked.bus,
            }
        }
    }

    /// The machine after the check between two instructions: the request
    /// that is due, if any, is taken up and served.
    pub open spec fn checked(self) -> Self {
        match self.state.due() {
            Some(kind) => (Machine {
                state: self.state.acknowledged(kind),
                bus: self.bus,
            }).served(kind),
            None => self,
        }
    }
}

/// The vector of an interrupt.
pub fn vectorOf(kind: Interrupt) -> (vector: u16)
    ensures
        vector == kind.vector(),
{
    match kind {
        Interrupt::NMI => NMI_VECTOR,
        Interrupt::Reset => RESET_VECTOR,
        Interrupt::IRQ => IRQ_VECTOR,
        Interrupt::BRK => IRQ_VECTOR,
    }
}

/// Serves `kind`: stacks the program counter and the status byte, unless
/// it is a reset, and continues at the address that the vector holds.
pub fn serve<D: Device>(state: &mut State, bus: &mut Bus<D>, kind: Interrupt)
    ensures
        (Machine { state: *final(state), bus: final(bus)@ }) == (Machine {
            state: *old(state),
            bus: old(bus)@,
        }).served(kind),
        final(state).programCounter == wordAt(old(bus)@, kind.vector()),
        kind == Interrupt::Reset ==> final(bus)@ == old(bus)@ && *final(state) == (State {
            programCounter: final(state).programCounter,
            ..*old(state)
        }),
        kind != Interrupt::Reset ==> final(state).statusRegister.interruptDisable
            && final(state).stackPointer == (old(state).stackPointer - 3) % 256,
{
    proof {
        bus.lemma_wf();
    }
    match kind {
        Interrupt::Reset => {},
        _ => {
            let breakSource = match kind {
                Interrupt::BRK => true,
                _ => false,
            };
            pushWord(state, bus, state.programCounter);
            push(state, bus, state.statusRegister.toByte(breakSource));
            state.statusRegister.interruptDisable = true;
        },
    }
    state.programCounter = readWord(bus, vectorOf(kind));
}

/// Records that the non-maskable interrupt line was raised.
pub fn raiseNMI(state: &mut State)
    ensures
        *final(state) == (State { nmiPending: true, ..*old(state) }),
{
    state.nmiPending = true;
}

/// Records that the maskable interrupt line was raised.
pub fn raiseIRQ(state: &mut State)
    ensures
        *final(state) == (State { irqPending: true, ..*old(state) }),
{
    state.irqPending = true;
}

/// Restarts the program at the address that the reset vector holds.
/// Nothing is pushed, and no other register changes.
pub fn reset<D: Device>(state: &mut State, bus: &Bus<D>)
    ensures
        *final(state) == (State {
            programCounter: wordAt(bus@, RESET_VECTOR),
            ..*old(state)
        }),
{
    state.programCounter = readWord(bus, RESET_VECTOR);
}

/// The request that is due, if any.
pub fn dueInterrupt(state: &State) -> (kind: Option<Interrupt>)
    ensures
        kind == state.due(),
{
    if state.nmiPending {
        Some(Interrupt::NMI)
    } else if state.irqPending && !state.statusRegister.interruptDisable {
        Some(Interrupt::IRQ)
    } else {
        None
    }
}

} // verus!
