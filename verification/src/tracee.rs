//! The process-tracing interface.
//!
//! Everything the engine does to a live process — peeking and poking words,
//! reading and writing the register bank, resuming, stepping, waiting —
//! goes through the [`Tracee`] trait. The engine is verified for every
//! implementation of it; the binary around the library implements it with
//! ptrace, waitpid and the kernel's process map, which Verus cannot call
//! (their interfaces use raw pointers). Tests implement it with an
//! in-memory mock.

use vstd::prelude::*;

use crate::addr::Addr;
use crate::errors::DebuggerError;
use crate::regs::RegisterFile;

verus! {

/// One stop report from the wait interface.
#[derive(Debug, Clone, Copy, PartialEq, Eq, Structural)]
pub enum WaitEvent {
    /// The tracee exited with the given code.
    Exited(i32),
    /// The tracee stopped on delivery of the given signal.
    Stopped(i32),
    /// The tracee was killed by the given signal.
    Signaled(i32),
    /// Any other stop report.
    Other,
}

/// One entry of the tracee's memory map.
#[derive(Debug, Clone)]
pub struct MapEntry {
    /// First address of the range.
    pub start: u64,
    /// First address past the range.
    pub end: u64,
    /// Whether the range is readable.
    pub readable: bool,
    /// Whether the range is writable.
    pub writable: bool,
    /// Whether the range is executable.
    pub executable: bool,
    /// The path backing the range, empty for anonymous memory.
    pub path: String,
}

/// The process-tracing facility. Every operation requires the tracee to be
/// in a trace-stop; each can fail with an OS error, after which the caller
/// must assume the tracee may have been reaped.
pub trait Tracee {
    /// Forks, requests tracing in the child, and executes `path` with
    /// `args`; returns the child pid. The parent returns once the fork
    /// succeeded; the first wait observes the post-exec stop.
    fn launch(&mut self, path: &str, args: &Vec<String>) -> Result<i32, DebuggerError>;

    /// Whether `path` exists, and whether it is a regular file.
    fn path_status(&mut self, path: &str) -> (bool, bool);

    /// Reads the aligned machine word at `addr`.
    fn peek_word(&mut self, pid: i32, addr: Addr) -> Result<u64, DebuggerError>;

    /// Writes the aligned machine word at `addr`.
    fn poke_word(&mut self, pid: i32, addr: Addr, word: u64) -> Result<(), DebuggerError>;

    /// Reads the full register bank.
    fn get_regs(&mut self, pid: i32) -> Result<RegisterFile, DebuggerError>;

    /// Writes the full register bank.
    fn set_regs(&mut self, pid: i32, regs: &RegisterFile) -> Result<(), DebuggerError>;

    /// Resumes the tracee, re-injecting `signal` if one is given.
    fn cont(&mut self, pid: i32, signal: Option<i32>) -> Result<(), DebuggerError>;

    /// Executes one instruction, after which the tracee traps again.
    fn single_step(&mut self, pid: i32) -> Result<(), DebuggerError>;

    /// Kills the tracee.
    fn kill(&mut self, pid: i32) -> Result<(), DebuggerError>;

    /// Blocks until the tracee changes state and reports the stop.
    fn wait(&mut self, pid: i32) -> Result<WaitEvent, DebuggerError>;

    /// The tracee's memory map, in address order.
    fn process_map(&mut self, pid: i32) -> Result<Vec<MapEntry>, DebuggerError>;
}

} // verus!
