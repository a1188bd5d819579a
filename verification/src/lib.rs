//! A cycle-budgeting emulator core for the NMOS 6502 as used in the NES.
//!
//! The processor state lives in [`cpu::Cpu`]; its mathematical model is
//! [`model::CpuModel`].  Every addressing mode, instruction handler, the
//! dispatch table and the tick engine is an executable function whose
//! contract states the exact state transition over the model.  [`laws`]
//! proves the properties that relate several operations (stack duality,
//! subroutine and interrupt round trips, flag algebra, branch cycle
//! accounting), and [`harness`] runs single-instruction trace cases against
//! the core.

pub mod cpu;
pub mod harness;
pub mod instructions;
pub mod laws;
pub mod model;
pub mod table;
