//! The core of a CHIP-8 virtual machine: the byte source behind the random
//! instruction, the 64x32 monochrome frame buffer, the 16-key keypad mapping,
//! the instruction decoder and the interpreter itself.
//!
//! Nothing in this crate reads a key, paints a pixel or sleeps. A driver runs
//! the machine one cycle at a time, does the outside work that a cycle asks
//! for, and hands the result back.

pub mod cpu;
pub mod display;
pub mod instruction;
pub mod keypad;
pub mod machine;
pub mod rand;
