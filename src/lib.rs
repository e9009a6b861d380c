//! A library for interpreting programs written for the CHIP-8 virtual machine.
//!
//! The library renders nothing itself: the display is a buffer of pixel bytes
//! that the host reads after each step and draws however it likes.
pub mod opcode;
pub mod memory;
pub mod state;
pub mod scheduler;
pub mod rom;
pub mod keyboard;
pub mod screen;
pub mod input;
pub mod chip_8;
