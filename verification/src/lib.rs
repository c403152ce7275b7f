//! Cycle-stepped emulator for a minimal 4-bit accumulator CPU.
//!
//! The processor has two 4-bit general registers, a carry flag, a single
//! I/O port and an 8-bit program counter addressing a byte-wide instruction
//! memory. Each instruction is one byte: a 4-bit opcode in the high nibble
//! and a 4-bit immediate in the low nibble. One call to
//! [`cpu::execute`] performs exactly one fetch-decode-execute cycle.

pub mod cpu;
pub mod isa;
