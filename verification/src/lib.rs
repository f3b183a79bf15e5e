//! Core of a source-level debugger for x86-64 Linux: address arithmetic,
//! software breakpoints, word-granular memory access, register access, a
//! DWARF-derived symbol tree, location evaluation, and the session state
//! machine that keeps breakpoints transparent while the tracee runs.
//!
//! Process control (ptrace, waitpid, /proc) is reached through the
//! [`tracee::Tracee`] trait, implemented outside this crate; DWARF decoding,
//! line lookup and disassembly are reached through small trusted wrappers
//! around the `gimli`, `addr2line` and `iced-x86` crates.

pub mod addr;
pub mod breakpoint;
pub mod bytes;
pub mod dbginfo;
pub mod debugger;
pub mod disassemble;
pub mod dwarf_parse;
pub mod errors;
pub mod feedback;
pub mod mem;
pub mod regs;
pub mod tracee;
pub mod ui;
pub mod variable;
