//! Instruction execution and trace generation for a small zero-knowledge
//! virtual machine over the Mersenne-31 field.

pub mod field;
pub mod word;
pub mod program;
pub mod memory;
pub mod cpu;
pub mod instructions;
pub mod columns;
pub mod trace;
pub mod matrix;
