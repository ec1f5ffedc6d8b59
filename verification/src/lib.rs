//! A minimal virtual-machine core: a word-addressed memory, a file of eight
//! named 16-bit registers, and a processor that fetches, decodes and executes
//! 16-bit instruction words one at a time.
//!
//! Every function carries a contract over a mathematical model of the machine
//! (sequences of words), and the laws that relate the functions are stated as
//! proof functions beside them.

pub mod cpu;
pub mod fault;
pub mod instruction;
pub mod memory;
pub mod register;
pub mod table;
