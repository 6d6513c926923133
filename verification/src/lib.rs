//! Emulation core for a Z8018x-family (Z80-superset) microprocessor and the
//! bus it drives: register file, MMU address translation, instruction fetch,
//! decode and dispatch over the five opcode planes, the ALU/flag kernel with
//! bit-exact Z80 flag behaviour, block transfers, and the memory/IO bus with
//! its attached peripherals (RAM, ROM, plain IO registers).
//!
//! The conformance harness (`zex`) drives single instructions over swept
//! register states and folds the resulting machine state into a CRC-32, the
//! same scheme the `zexdoc` suite uses on real hardware.

pub mod board;
pub mod bus;
pub mod cpu;
pub mod laws;
pub mod ram;
pub mod reg;
pub mod rom;
pub mod zex;
