//! A small virtual machine over 15-bit words.
//!
//! The machine executes a fixed 22-instruction set against a 32768-cell
//! memory image, with eight registers, an operand/call stack and a program
//! counter.  `cpu` holds the execution engine itself, `image` decodes a
//! binary program image into words, and `laws` proves the machine-wide
//! properties that relate several instructions.

pub mod cpu;
pub mod image;
pub mod laws;
