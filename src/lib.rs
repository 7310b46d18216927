//! Classification of a program's invocation arguments into help, version or
//! a normal run carrying the arguments and a debug switch.
pub mod laws;
pub mod parser;

pub use parser::{CommandLine, CommandLineProgram};
