//! The processor's registers and its status flags.
use vstd::prelude::*;

verus! {

/// The six status flags of the live register. The bit that always reads as
/// one and the break-source bit exist only in the byte that `toByte` packs.
#[derive(Clone, Copy, Debug, PartialEq, Eq, Structural)]
pub struct statusReg {
    pub carry: bool,
    pub zero: bool,
    pub interruptDisable: bool,
    pub decimal: bool,
    pub overflow: bool,
    pub negative: bool,
}

/// The weight of a flag in the packed byte: `weight` where it is set, else 0.
pub open spec fn bit(flag: bool, weight: int) -> int {
    if flag {
        weight
    } else {
        0
    }
}

/// Whether the bit of weight `weight` (a power of two) is set in `byte`.
pub open spec fn bitSet(byte: u8, weight: int) -> bool {
    (byte as int / weight) % 2 == 1
}

impl statusReg {
    /// The packed byte: carry in bit 0, zero in bit 1, interrupt-disable in
    /// bit 2, decimal in bit 3, the break source in bit 4, a one in bit 5,
    /// overflow in bit 6 and negative in bit 7.
    pub open spec fn packed(self, breakSource: bool) -> int {
        bit(self.carry, 1) + bit(self.zero, 2) + bit(self.interruptDisable, 4) + bit(
            self.decimal,
            8,
        ) + bit(breakSource, 16) + 32 + bit(self.overflow, 64) + bit(self.negative, 128)
    }

    /// The flags that a packed byte holds; bits 4 and 5 belong to no flag.
    pub open spec fn unpacked(byte: u8) -> statusReg {
        statusReg {
            carry: bitSet(byte, 1),
            zero: bitSet(byte, 2),
            interruptDisable: bitSet(byte, 4),
            decimal: bitSet(byte, 8),
            overflow: bitSet(byte, 64),
            negative: bitSet(byte, 128),
        }
    }

    /// Packs the flags into the byte that goes on the stack.
    pub fn toByte(&self, breakSource: bool) -> (byte: u8)
        ensures
            byte == self.packed(breakSource),
            bitSet(byte, 32),
            bitSet(byte, 16) == breakSource,
    {
        let mut byte: u8 = 0x20;
        if self.carry {
            byte = byte + 0x01;
        }
        if self.zero {
            byte = byte + 0x02;
        }
        if self.interruptDisable {
            byte = byte + 0x04;
        }
        if self.decimal {
            byte = byte + 0x08;
        }
        if breakSource {
            byte = byte + 0x10;
        }
        if self.overflow {
            byte = byte + 0x40;
        }
        if self.negative {
            byte = byte + 0x80;
        }
        byte
    }

    /// Takes the flags out of a packed byte, ignoring bits 4 and 5.
    pub fn fromByte(byte: u8) -> (flags: statusReg)
        ensures
            flags == statusReg::unpacked(byte),
    {
        statusReg {
            carry: byte % 2 == 1,
            zero: (byte / 2) % 2 == 1,
            interruptDisable: (byte / 4) % 2 == 1,
            decimal: (byte / 8) % 2 == 1,
            overflow: (byte / 64) % 2 == 1,
            negative: (byte / 128) % 2 == 1,
        }
    }

    /// Unpacking a packed byte gives the flags back, whatever the break source.
    pub proof fn lemma_unpack_packed(self, breakSource: bool)
        ensures
            0 <= self.packed(breakSource) < 256,
            statusReg::unpacked(self.packed(breakSource) as u8) == self,
    {
    }

    /// Packing the flags of a byte gives that byte with bit 5 set and bit 4
    /// replaced by the break source.
    pub proof fn lemma_pack_unpacked(byte: u8, breakSource: bool)
        ensures
            statusReg::unpacked(byte).packed(breakSource) == byte - bit(bitSet(byte, 16), 16) - bit(
                bitSet(byte, 32),
                32,
            ) + bit(breakSource, 16) + 32,
    {
        assert(byte == byte % 2 + (byte / 2 % 2) * 2 + (byte / 4 % 2) * 4 + (byte / 8 % 2) * 8 + (byte
            / 16 % 2) * 16 + (byte / 32 % 2) * 32 + (byte / 64 % 2) * 64 + (byte / 128 % 2) * 128)
            by (bit_vector);
    }
}

/// The register file, with the interrupt requests that wait to be served.
#[derive(Clone, Copy, Debug, PartialEq, Eq, Structural)]
pub struct State {
    /// Address of the next opcode.
    pub programCounter: u16,
    pub accumulator: u8,
    pub indexX: u8,
    pub indexY: u8,
    /// Offset of the next free byte within the stack page `0x0100..=0x01FF`.
    pub stackPointer: u8,
    pub statusRegister: statusReg,
    /// A non-maskable interrupt was raised and not yet served.
    pub nmiPending: bool,
    /// A maskable interrupt was raised and not yet served.
    pub irqPending: bool,
}

/// The processor as it is before anything ran: every register zero, every
/// flag clear, no interrupt waiting.
pub fn build6502() -> (state: State)
    ensures
        state.programCounter == 0,
        state.accumulator == 0,
        state.indexX == 0,
        state.indexY == 0,
        state.stackPointer == 0,
        state.statusRegister == (statusReg {
            carry: false,
            zero: false,
            interruptDisable: false,
            decimal: false,
            overflow: false,
            negative: false,
        }),
        !state.nmiPending,
        !state.irqPending,
{
    let flags = statusReg {
        carry: false,
        zero: false,
        interruptDisable: false,
        decimal: false,
        overflow: false,
        negative: false,
    };
    State {
        programCounter: 0x0000,
        accumulator: 0x00,
        indexX: 0x00,
        indexY: 0x00,
        stackPointer: 0x00,
        statusRegister: flags,
        nmiPending: false,
        irqPending: false,
    }
}

} // verus!
