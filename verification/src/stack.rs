//! The hardware stack: the page `0x0100..=0x01FF`, into which the stack
//! pointer counts down on a push and up on a pull, both modulo 256.
use vstd::prelude::*;
use crate::addressing::{makeWord, word};
use crate::bus::{read, Bus, BusModel, Device};
use crate::data::State;
use crate::flags::lowByte;

verus! {

/// First address of the stack page.
pub const STACK_PAGE: u16 = 0x0100;

/// The registers together with the memory they work on.
pub ghost struct Machine<D: Device> {
    pub state: State,
    pub bus: BusModel<D>,
}

/// The address that a stack pointer stands for.
pub open spec fn stackAddress(pointer: u8) -> u16 {
    (0x0100 + pointer) as u16
}

/// The registers with the stack pointer moved by `distance`, modulo 256.
pub open spec fn withPointerMoved(state: State, distance: int) -> State {
    State { stackPointer: lowByte(state.stackPointer + distance), ..state }
}

impl<D: Device> Machine<D> {
    /// After a push: `value` stands where the pointer was, and the pointer is one lower.
    pub open spec fn pushed(self, value: u8) -> Self {
        Machine {
            state: withPointerMoved(self.state, -1),
            bus: self.bus.store(stackAddress(self.state.stackPointer), value),
        }
    }

    /// The byte that the next pull returns: the one above the pointer.
    pub open spec fn top(self) -> u8 {
        self.bus.value(stackAddress(lowByte(self.state.stackPointer + 1)))
    }

    /// After a pull: the pointer is one higher, memory is as it was.
    pub open spec fn pulled(self) -> Self {
        Machine { state: withPointerMoved(self.state, 1), bus: self.bus }
    }

    /// After pushing a word: high byte first, then low byte.
    pub open spec fn pushedWord(self, value: u16) -> Self {
        self.pushed((value / 256) as u8).pushed((value % 256) as u8)
    }

    /// The word that the next two pulls return: low byte first, then high byte.
    pub open spec fn topWord(self) -> u16 {
        word(self.top(), self.pulled().top())
    }

    /// After pushing every byte of `values`, the first one first.
    pub open spec fn pushedAll(self, values: Seq<u8>) -> Self
        decreases values.len(),
    {
        if values.len() == 0 {
            self
        } else {
            self.pushed(values[0]).pushedAll(values.drop_first())
        }
    }

    /// After `count` pulls.
    pub open spec fn pulledAll(self, count: nat) -> Self
        decreases count,
    {
        if count == 0 {
            self
        } else {
            self.pulledAll((count - 1) as nat).pulled()
        }
    }

    /// The bytes that `count` pulls return, in the order in which they come.
    pub open spec fn pulledValues(self, count: nat) -> Seq<u8>
        decreases count,
    {
        if count == 0 {
            Seq::empty()
        } else {
            self.pulledValues((count - 1) as nat).push(self.pulledAll((count - 1) as nat).top())
        }
    }

    /// A push puts its byte where the pointer was, leaves every other cell
    /// of the stack page alone, and is undone by a pull.
    pub proof fn lemma_push_then_pull(self, value: u8)
        requires
            self.bus.wf(),
        ensures
            self.pushed(value).bus.wf(),
            self.pushed(value).bus.value(stackAddress(self.state.stackPointer)) == value,
            forall|cell: u8|
                cell != self.state.stackPointer ==> #[trigger] self.pushed(value).bus.value(
                    stackAddress(cell),
                ) == self.bus.value(stackAddress(cell)),
            self.pushed(value).top() == value,
            self.pushed(value).pulled().state == self.state,
    {
    }

    /// Pushes leave alone every stack cell that lies further above the
    /// pointer's way down than there are bytes pushed.
    pub proof fn lemma_pushes_keep(self, values: Seq<u8>, cell: u8)
        requires
            self.bus.wf(),
            (self.state.stackPointer - cell) % 256 >= values.len(),
        ensures
            self.pushedAll(values).bus.wf(),
            self.pushedAll(values).bus.value(stackAddress(cell)) == self.bus.value(
                stackAddress(cell),
            ),
            self.pushedAll(values).state == withPointerMoved(self.state, -values.len()),
        decreases values.len(),
    {
        if values.len() > 0 {
            let next = self.pushed(values[0]);
            next.lemma_pushes_keep(values.drop_first(), cell);
        }
    }

    /// Pulls change nothing but the stack pointer.
    pub proof fn lemma_pulls_keep(self, count: nat)
        ensures
            self.pulledAll(count).bus == self.bus,
            self.pulledAll(count).state == withPointerMoved(self.state, count as int),
        decreases count,
    {
        if count > 0 {
            self.lemma_pulls_keep((count - 1) as nat);
        }
    }

    /// Pushing N bytes and then pulling N bytes restores every register, the
    /// stack pointer with them.
    pub proof fn lemma_push_pull_restores_pointer(self, values: Seq<u8>)
        ensures
            self.pushedAll(values).pulledAll(values.len()).state == self.state,
        decreases values.len(),
    {
        if values.len() > 0 {
            let rest = values.drop_first();
            let next = self.pushed(values[0]);
            next.lemma_push_pull_restores_pointer(rest);
            next.pushedAll(rest).lemma_pulls_keep(rest.len());
        }
    }

    /// Pushing up to 256 bytes and then pulling as many returns the bytes
    /// pushed, the last one first.
    pub proof fn lemma_push_pull_returns_values(self, values: Seq<u8>)
        requires
            self.bus.wf(),
            values.len() <= 256,
        ensures
            self.pushedAll(values).pulledValues(values.len()).len() == values.len(),
            forall|i: int|
                0 <= i < values.len() ==> #[trigger] self.pushedAll(values).pulledValues(
                    values.len(),
                )[i] == values[values.len() - 1 - i],
        decreases values.len(),
    {
        if values.len() > 0 {
            let rest = values.drop_first();
            let next = self.pushed(values[0]);
            let full = next.pushedAll(rest);
            next.lemma_push_pull_returns_values(rest);
            next.lemma_push_pull_restores_pointer(rest);
            next.lemma_pushes_keep(rest, self.state.stackPointer);
            full.lemma_pulls_keep(rest.len());
            assert(full.pulledAll(rest.len()).top() == values[0]);
        }
    }
}

/// Writes `value` at the stack pointer, then moves the pointer one down;
/// from `0x00` it wraps to `0xFF`.
pub fn push<D: Device>(state: &mut State, bus: &mut Bus<D>, value: u8)
    ensures
        (Machine { state: *final(state), bus: final(bus)@ }) == (Machine {
            state: *old(state),
            bus: old(bus)@,
        }).pushed(value),
        final(state).stackPointer == (old(state).stackPointer - 1) % 256,
        final(bus)@ == old(bus)@.store(stackAddress(old(state).stackPointer), value),
{
    crate::bus::write(bus, STACK_PAGE + state.stackPointer as u16, value);
    state.stackPointer = state.stackPointer.wrapping_sub(1);
}

/// Moves the stack pointer one up, wrapping from `0xFF` to `0x00`, then
/// reads the byte it points at.
pub fn pull<D: Device>(state: &mut State, bus: &Bus<D>) -> (value: u8)
    ensures
        value == (Machine { state: *old(state), bus: bus@ }).top(),
        *final(state) == withPointerMoved(*old(state), 1),
        final(state).stackPointer == (old(state).stackPointer + 1) % 256,
{
    state.stackPointer = state.stackPointer.wrapping_add(1);
    read(bus, STACK_PAGE + state.stackPointer as u16)
}

/// Pushes the high byte of `value`, then its low byte.
pub fn pushWord<D: Device>(state: &mut State, bus: &mut Bus<D>, value: u16)
    ensures
        (Machine { state: *final(state), bus: final(bus)@ }) == (Machine {
            state: *old(state),
            bus: old(bus)@,
        }).pushedWord(value),
{
    push(state, bus, (value / 256) as u8);
    push(state, bus, (value % 256) as u8);
}

/// Pulls a low byte, then a high byte.
pub fn pullWord<D: Device>(state: &mut State, bus: &Bus<D>) -> (value: u16)
    ensures
        value == (Machine { state: *old(state), bus: bus@ }).topWord(),
        *final(state) == withPointerMoved(*old(state), 2),
{
    let low = pull(state, bus);
    let high = pull(state, bus);
    makeWord(low, high)
}

} // verus!
