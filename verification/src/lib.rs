//! A verified core of an emulator for an 8-bit handheld game console built
//! around a Sharp LR35902 CPU.
//!
//! The crate models the CPU registers, the memory bus with its mirrored work
//! RAM, the scanline counter of the display, the free-running timer and the
//! interrupt master-enable flag.  `cpu::Core::step` decodes and executes one
//! instruction at a time; its contract ties the machine state after the step
//! to a specification-level interpreter over `isa::CoreView`.

pub mod cpu;
pub mod display;
pub mod interrupts;
pub mod isa;
pub mod memory;
pub mod registers;
pub mod rom;
pub mod timer;
