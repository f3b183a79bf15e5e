//! A single software breakpoint.
//!
//! Enabling reads the word containing the target byte, saves the lowest
//! byte, and writes the word back with that byte replaced by `0xCC`
//! (int3). Disabling restores the saved byte the same way. The state
//! machine is strict: enabling an enabled breakpoint and disabling a
//! disabled one are errors, and neither touches the tracee.

use vstd::prelude::*;

use crate::addr::Addr;
use crate::bytes::{low_byte, with_low_byte, spec_low_byte, spec_with_low_byte,
    lemma_low_byte_roundtrip, u64_le_bytes};
use crate::errors::DebuggerError;
use crate::tracee::Tracee;

verus! {

/// The int3 instruction: the one-byte x86 software breakpoint.
pub const INT3_BYTE: u8 = 0xCC;

/// One software breakpoint in the tracee.
#[derive(Debug, Clone, PartialEq, Eq, Structural)]
pub struct Breakpoint {
    /// The tracee the breakpoint lives in.
    pub pid: i32,
    /// The absolute address of the patched byte.
    pub addr: Addr,
    /// Whether the int3 byte is currently written.
    pub enabled: bool,
    /// The original byte that the int3 byte replaced, while enabled.
    pub saved_byte: Option<u8>,
}

impl Breakpoint {
    /// Whether the breakpoint's bookkeeping is consistent: while enabled
    /// it remembers the byte to restore.
    pub open spec fn wf(&self) -> bool {
        self.enabled ==> self.saved_byte is Some
    }

    /// A new breakpoint at `addr`, created disabled.
    pub fn new(pid: i32, addr: Addr) -> (bp: Breakpoint)
        ensures
            bp.pid == pid,
            bp.addr == addr,
            !bp.enabled,
            bp.saved_byte is None,
            bp.wf(),
    {
        Breakpoint { pid, addr, enabled: false, saved_byte: None }
    }

    /// Whether the int3 byte is currently written.
    pub fn is_enabled(&self) -> (r: bool)
        ensures
            r == self.enabled,
    {
        self.enabled
    }

    /// Patches the int3 byte in: reads the containing word, saves its
    /// lowest byte, writes the word back with `0xCC` in its place.
    /// Fails with `BreakpointIsAlreadyEnabled` if already enabled, and
    /// then changes nothing — the tracee is not even touched; on any
    /// failure the bookkeeping is unchanged.
    pub fn enable<T: Tracee>(&mut self, t: &mut T) -> (r: Result<(), DebuggerError>)
        requires
            old(self).wf(),
        ensures
            final(self).wf(),
            final(self).pid == old(self).pid,
            final(self).addr == old(self).addr,
            old(self).enabled ==> (r matches Err(e) && e is BreakpointIsAlreadyEnabled
                && *final(self) == *old(self) && *final(t) == *old(t)),
            r is Err ==> *final(self) == *old(self),
            r is Ok ==> final(self).enabled && final(self).saved_byte is Some,
    {
        if self.enabled {
            return Err(DebuggerError::BreakpointIsAlreadyEnabled);
        }
        let word = t.peek_word(self.pid, self.addr)?;
        let saved = low_byte(word);
        let patched = with_low_byte(word, INT3_BYTE);
        t.poke_word(self.pid, self.addr, patched)?;
        self.saved_byte = Some(saved);
        self.enabled = true;
        Ok(())
    }

    /// Restores the saved byte: reads the containing word, writes it back
    /// with the saved byte in the lowest position. Fails with
    /// `BreakpointIsAlreadyDisabled` if not enabled, and then changes
    /// nothing — the tracee is not even touched; on any failure the
    /// bookkeeping is unchanged.
    pub fn disable<T: Tracee>(&mut self, t: &mut T) -> (r: Result<(), DebuggerError>)
        requires
            old(self).wf(),
        ensures
            final(self).wf(),
            final(self).pid == old(self).pid,
            final(self).addr == old(self).addr,
            final(self).saved_byte == old(self).saved_byte,
            !old(self).enabled ==> (r matches Err(e) && e is BreakpointIsAlreadyDisabled
                && *final(self) == *old(self) && *final(t) == *old(t)),
            r is Err ==> *final(self) == *old(self),
            r is Ok ==> !final(self).enabled,
    {
        if !self.enabled {
            return Err(DebuggerError::BreakpointIsAlreadyDisabled);
        }
        let saved = match self.saved_byte {
            Some(b) => b,
            None => {
                return Err(DebuggerError::BreakpointIsAlreadyDisabled);
            }
        };
        let word = t.peek_word(self.pid, self.addr)?;
        let restored = with_low_byte(word, saved);
        t.poke_word(self.pid, self.addr, restored)?;
        self.enabled = false;
        Ok(())
    }
}

/// Breakpoint round trip at the word level. Patching int3 into a word and
/// then restoring the saved original byte yields the original word
/// bit for bit; while patched, the byte at the breakpoint address reads
/// back as `0xCC` and the saved byte is the original one; all other bytes
/// of the word are never touched.
pub proof fn lemma_breakpoint_roundtrip(word: u64)
    ensures
        spec_with_low_byte(spec_with_low_byte(word, INT3_BYTE), spec_low_byte(word)) == word,
        spec_low_byte(spec_with_low_byte(word, INT3_BYTE)) == INT3_BYTE,
        u64_le_bytes(spec_with_low_byte(word, INT3_BYTE))
            =~= u64_le_bytes(word).update(0, INT3_BYTE),
{
    lemma_low_byte_roundtrip(word, INT3_BYTE);
}

} // verus!
