//! Core of an Intel 8080 emulator, sized for the Space Invaders arcade
//! machine: the architectural CPU state, the arithmetic/logic unit with its
//! carry and auxiliary-carry outputs, the five condition flags and their
//! packed program-status-word form, the decode-and-execute dispatch over all
//! 256 opcodes, the interrupt entry protocol, the arcade's shift device and
//! input port, and the cycle-budgeted pacing loop that interleaves
//! instruction execution with the two half-frame video interrupts.
//!
//! Every instruction's effect on registers, flags, memory and the program
//! counter is stated by the specification functions in `operation` and
//! proved of the executable dispatcher.

pub mod alu;
pub mod cpu;
pub mod iocontroller;
pub mod machine;
pub mod operation;
pub mod props;
