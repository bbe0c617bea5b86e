//! An instruction-accurate core for a 6502-class processor: the memory bus
//! with its mirrored windows, the register file and status flags, the
//! addressing modes, the instruction table, and the interrupt sequences.
#![allow(non_snake_case, non_camel_case_types, non_upper_case_globals)]

pub mod bus;
pub mod data;
pub mod flags;
pub mod addressing;
pub mod stack;
pub mod table;
pub mod interrupt;
pub mod ops;
pub mod simulate;
