//! Error kinds of the debugger engine.
//!
//! Every layer of the engine propagates a [`DebuggerError`] unchanged; only
//! the command dispatcher turns one into feedback for the user interface.
//! Errors coming from the operating system carry the raw `errno`; errors
//! coming from the object-file and DWARF readers carry the reader's message.

use vstd::prelude::*;

use crate::dbginfo::SymbolKind;

verus! {

/// Everything that can go wrong during a debugging operation.
#[derive(Debug, Clone)]
pub enum DebuggerError {
    /// A tracing syscall failed; carries the underlying errno.
    Os(i32),
    /// Reading the executable file failed.
    Io(String),
    /// The target path does not exist.
    ExecutableDoesNotExist(String),
    /// The target path is not a regular file.
    ExecutableIsNotAFile(String),
    /// A command that needs a tracee was issued while none exists.
    NoDebugee,
    /// A launch was requested while a tracee already exists.
    AlreadyRunning,
    /// `enable` was called on an already enabled breakpoint.
    BreakpointIsAlreadyEnabled,
    /// `disable` was called on an already disabled breakpoint.
    BreakpointIsAlreadyDisabled,
    /// User input could not be parsed.
    ParseStr(String),
    /// The user interface failed to produce a command.
    CliUiDialogueError(String),
    /// The executable's object file is malformed.
    Object(String),
    /// The DWARF debug information is malformed or unsupported.
    Dwarf(String),
    /// A `high_pc` attribute was found without a `low_pc` attribute.
    HighAddrExistsButNotLowAddr,
    /// A DWARF register number outside the supported x86-64 set.
    UnimplementedRegister(u16),
    /// The DWARF expression requested memory of an unsupported width.
    UnsupportedMemorySize(u8),
    /// The DWARF expression made a request the engine cannot satisfy.
    UnsupportedDwarfRequest,
    /// An operation was applied to a symbol of an inapplicable kind.
    WrongSymbolKind(SymbolKind),
    /// A variable symbol has no datatype attribute.
    VariableSymbolNoType,
    /// A symbol has no location attribute.
    SymbolHasNoLocation,
    /// The datatype reference of a symbol resolves to nothing.
    NoDatatypeFound,
    /// A variable expression matched more than one symbol.
    AmbiguousVarExpr(String),
    /// A variable expression matched no symbol.
    VarExprReturnedNothing(String),
    /// A required DIE attribute is missing; carries the attribute code.
    AttributeDoesNotExist(u16),
    /// An attempt to step out of the outermost traced frame.
    StepOutMain,
    /// The instruction pointer lies outside any known function.
    NotInFunction,
    /// Location evaluation needed a frame base that was not computed.
    NoFrameInfo,
}

} // verus!
