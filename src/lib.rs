//! Memory subsystem of an 8-bit handheld console: cartridge ROM and RAM behind
//! a bank controller, console work RAM, high RAM and the 64K address bus.

pub mod cartridge;
pub mod error;
pub mod memory;
pub mod registers;
