//! A translator from a stack-machine instruction set to a register/memory
//! target machine with a single accumulator, one data register, and
//! memory-mapped pointers for the stack and the memory segments.
//!
//! The parser turns one trimmed, comment-free source line into a tagged
//! instruction value; the code generator turns instruction values into
//! target-machine instruction lines, keeping the counters that make
//! comparison jump targets and call-site return labels unique.

pub mod entry;
pub mod instr;
pub mod laws;
pub mod numeral;
pub mod parser;
pub mod program;
pub mod tokens;
pub mod translator;
