//! A virtual machine for the Synacor Challenge architecture: a 16-bit word
//! machine with eight registers, 32768 words of memory and an unbounded stack,
//! with an input multiplexer, an execution trace and a small debugger
//! command language.

pub mod common;
pub mod operand;
pub mod model;
pub mod input;
pub mod cpu;
pub mod laws;
pub mod text;
pub mod debug;
pub mod trace;
pub mod debugger;
pub mod notes;
pub mod machine;
pub mod command_parser;
pub mod debug_writer;
