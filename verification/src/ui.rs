//! The command boundary between the engine and a user interface.
//!
//! A user interface implements [`DebuggerUI`]: handed the feedback of the
//! previous command, it produces the next [`Status`]. The engine never
//! talks to a terminal itself.

use vstd::prelude::*;

use crate::addr::{Addr, Word};
use crate::errors::DebuggerError;
use crate::feedback::Feedback;
use crate::regs::Register;

verus! {

/// One command from the user interface.
#[derive(Debug)]
pub enum Status {
    /// Leave the command loop and tear the debuggee down.
    DebuggerQuit,
    /// Resume the tracee until the next stop.
    Continue,
    /// Install and arm a breakpoint at the absolute address.
    SetBreakpoint(Addr),
    /// Remove the breakpoint at the absolute address.
    DelBreakpoint(Addr),
    /// Report the full register bank.
    DumpRegisters,
    /// Set one register to a value.
    SetRegister(Register, u64),
    /// Read the word at an address.
    ReadMem(Addr),
    /// Write a word at an address.
    WriteMem(Addr, Word),
    /// Disassemble `len` bytes starting at an address.
    DisassembleAt(Addr, usize),
    /// Find symbols by name.
    GetSymbolsByName(String),
    /// Report the call stack.
    Backtrace,
    /// Execute one instruction.
    StepSingle,
    /// Step to the next source line, following calls.
    StepIn,
    /// Step to the next source line, passing over calls.
    StepOver,
    /// Run until the current function returns.
    StepOut,
    /// Read the variable a textual expression names.
    ReadVariable(String),
    /// Write a value to the variable a textual expression names.
    WriteVariable(String, u64),
    /// Report the tracee's memory map.
    ProcMap,
}

/// A user interface for the debugger: a source of commands and a sink for
/// feedback. Implementations live outside the engine.
pub trait DebuggerUI {
    /// Presents the feedback of the previous command and solicits the
    /// next one.
    fn process(&mut self, feedback: &Feedback) -> Result<Status, DebuggerError>;
}

} // verus!
