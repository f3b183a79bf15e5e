//! Structured results of debugging operations.
//!
//! Every command the dispatcher executes produces a [`Feedback`]: either a
//! payload for the user interface or an error. The dispatcher is the only
//! layer that turns a [`DebuggerError`] into feedback; everything below it
//! propagates errors unchanged.

use vstd::prelude::*;

use crate::addr::{Addr, Word};
use crate::dbginfo::OwnedSymbol;
use crate::disassemble::Disassembly;
use crate::errors::DebuggerError;
use crate::regs::RegisterFile;
use crate::tracee::MapEntry;
use crate::variable::VariableValue;

verus! {

/// A call-stack backtrace: the return addresses of the live frames,
/// innermost first.
#[derive(Debug)]
pub struct Backtrace {
    /// The frames' return addresses, innermost first.
    pub frames: Vec<Addr>,
}

/// A window of the tracee's stack.
#[derive(Debug)]
pub struct Stack {
    /// The address of the first word shown.
    pub start: Addr,
    /// The words of the window, at `start`, `start + 8`, and so on.
    pub words: Vec<Word>,
}

/// The result of one debugging operation.
#[derive(Debug)]
pub enum Feedback {
    /// Simple text message.
    Text(String),
    /// Memory word value.
    Word(Word),
    /// Memory address.
    Addr(Addr),
    /// Register values.
    Registers(RegisterFile),
    /// Error condition.
    Error(DebuggerError),
    /// Success with no specific data.
    Success,
    /// Disassembled code.
    Disassembly(Disassembly),
    /// Call stack backtrace.
    Backtrace(Backtrace),
    /// Debug symbols.
    Symbols(Vec<OwnedSymbol>),
    /// Variable value.
    Variable(VariableValue),
    /// Stack contents.
    Stack(Stack),
    /// Process memory map.
    ProcessMap(Vec<MapEntry>),
    /// Debuggee process exit with its code.
    Exit(i32),
}

impl From<Result<Feedback, DebuggerError>> for Feedback {
    /// An `Ok` outcome is its feedback; an `Err` outcome becomes
    /// `Feedback::Error`.
    fn from(value: Result<Feedback, DebuggerError>) -> (r: Self) {
        match value {
            Ok(f) => f,
            Err(e) => Feedback::Error(e),
        }
    }
}

impl vstd::std_specs::convert::FromSpecImpl<Result<Feedback, DebuggerError>> for Feedback {
    open spec fn obeys_from_spec() -> bool {
        true
    }

    open spec fn from_spec(value: Result<Feedback, DebuggerError>) -> Self {
        match value {
            Ok(f) => f,
            Err(e) => Feedback::Error(e),
        }
    }
}

} // verus!
