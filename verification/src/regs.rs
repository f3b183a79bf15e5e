//! The x86-64 register bank as the engine sees it.
//!
//! [`RegisterFile`] is a plain snapshot of the general-purpose bank; reading
//! and writing one register by name are pure operations with exact
//! contracts, so a set followed by a get round-trips and leaves every other
//! register untouched. The DWARF register numbering of the System V AMD64
//! ABI is mapped to [`Register`] names here as well.

use vstd::prelude::*;

use crate::errors::DebuggerError;

verus! {

/// The registers of the tracee the engine can address by name.
#[allow(non_camel_case_types)]
#[derive(Debug, Clone, Copy, PartialEq, Eq, Hash, Structural)]
pub enum Register {
    r8,
    r9,
    r10,
    r11,
    r12,
    r13,
    r14,
    r15,
    rip,
    rbp,
    rsp,
    rbx,
    rax,
    rcx,
    rdx,
    rsi,
    rdi,
    orig_rax,
    eflags,
    cs,
    ss,
    ds,
    es,
    fs,
    gs,
    fs_base,
    gs_base,
}

/// A snapshot of the tracee's general-purpose register bank.
#[derive(Debug, Clone, Copy, PartialEq, Eq, Structural, Default)]
pub struct RegisterFile {
    pub r8: u64,
    pub r9: u64,
    pub r10: u64,
    pub r11: u64,
    pub r12: u64,
    pub r13: u64,
    pub r14: u64,
    pub r15: u64,
    pub rip: u64,
    pub rbp: u64,
    pub rsp: u64,
    pub rbx: u64,
    pub rax: u64,
    pub rcx: u64,
    pub rdx: u64,
    pub rsi: u64,
    pub rdi: u64,
    pub orig_rax: u64,
    pub eflags: u64,
    pub cs: u64,
    pub ss: u64,
    pub ds: u64,
    pub es: u64,
    pub fs: u64,
    pub gs: u64,
    pub fs_base: u64,
    pub gs_base: u64,
}

/// The value register `r` holds in the snapshot `rf`.
pub open spec fn spec_read_reg(rf: RegisterFile, r: Register) -> u64 {
    match r {
        Register::r8 => rf.r8,
        Register::r9 => rf.r9,
        Register::r10 => rf.r10,
        Register::r11 => rf.r11,
        Register::r12 => rf.r12,
        Register::r13 => rf.r13,
        Register::r14 => rf.r14,
        Register::r15 => rf.r15,
        Register::rip => rf.rip,
        Register::rbp => rf.rbp,
        Register::rsp => rf.rsp,
        Register::rbx => rf.rbx,
        Register::rax => rf.rax,
        Register::rcx => rf.rcx,
        Register::rdx => rf.rdx,
        Register::rsi => rf.rsi,
        Register::rdi => rf.rdi,
        Register::orig_rax => rf.orig_rax,
        Register::eflags => rf.eflags,
        Register::cs => rf.cs,
        Register::ss => rf.ss,
        Register::ds => rf.ds,
        Register::es => rf.es,
        Register::fs => rf.fs,
        Register::gs => rf.gs,
        Register::fs_base => rf.fs_base,
        Register::gs_base => rf.gs_base,
    }
}

/// The snapshot `rf` with register `r` set to `v`.
pub open spec fn spec_write_reg(rf: RegisterFile, r: Register, v: u64) -> RegisterFile {
    match r {
        Register::r8 => RegisterFile { r8: v, ..rf },
        Register::r9 => RegisterFile { r9: v, ..rf },
        Register::r10 => RegisterFile { r10: v, ..rf },
        Register::r11 => RegisterFile { r11: v, ..rf },
        Register::r12 => RegisterFile { r12: v, ..rf },
        Register::r13 => RegisterFile { r13: v, ..rf },
        Register::r14 => RegisterFile { r14: v, ..rf },
        Register::r15 => RegisterFile { r15: v, ..rf },
        Register::rip => RegisterFile { rip: v, ..rf },
        Register::rbp => RegisterFile { rbp: v, ..rf },
        Register::rsp => RegisterFile { rsp: v, ..rf },
        Register::rbx => RegisterFile { rbx: v, ..rf },
        Register::rax => RegisterFile { rax: v, ..rf },
        Register::rcx => RegisterFile { rcx: v, ..rf },
        Register::rdx => RegisterFile { rdx: v, ..rf },
        Register::rsi => RegisterFile { rsi: v, ..rf },
        Register::rdi => RegisterFile { rdi: v, ..rf },
        Register::orig_rax => RegisterFile { orig_rax: v, ..rf },
        Register::eflags => RegisterFile { eflags: v, ..rf },
        Register::cs => RegisterFile { cs: v, ..rf },
        Register::ss => RegisterFile { ss: v, ..rf },
        Register::ds => RegisterFile { ds: v, ..rf },
        Register::es => RegisterFile { es: v, ..rf },
        Register::fs => RegisterFile { fs: v, ..rf },
        Register::gs => RegisterFile { gs: v, ..rf },
        Register::fs_base => RegisterFile { fs_base: v, ..rf },
        Register::gs_base => RegisterFile { gs_base: v, ..rf },
    }
}

impl RegisterFile {
    /// Reads the value of one register from the snapshot.
    pub fn read(&self, r: Register) -> (v: u64)
        ensures
            v == spec_read_reg(*self, r),
    {
        match r {
            Register::r8 => self.r8,
            Register::r9 => self.r9,
            Register::r10 => self.r10,
            Register::r11 => self.r11,
            Register::r12 => self.r12,
            Register::r13 => self.r13,
            Register::r14 => self.r14,
            Register::r15 => self.r15,
            Register::rip => self.rip,
            Register::rbp => self.rbp,
            Register::rsp => self.rsp,
            Register::rbx => self.rbx,
            Register::rax => self.rax,
            Register::rcx => self.rcx,
            Register::rdx => self.rdx,
            Register::rsi => self.rsi,
            Register::rdi => self.rdi,
            Register::orig_rax => self.orig_rax,
            Register::eflags => self.eflags,
            Register::cs => self.cs,
            Register::ss => self.ss,
            Register::ds => self.ds,
            Register::es => self.es,
            Register::fs => self.fs,
            Register::gs => self.gs,
            Register::fs_base => self.fs_base,
            Register::gs_base => self.gs_base,
        }
    }

    /// Sets the value of one register in the snapshot.
    pub fn write(&mut self, r: Register, v: u64)
        ensures
            *final(self) == spec_write_reg(*old(self), r, v),
    {
        match r {
            Register::r8 => self.r8 = v,
            Register::r9 => self.r9 = v,
            Register::r10 => self.r10 = v,
            Register::r11 => self.r11 = v,
            Register::r12 => self.r12 = v,
            Register::r13 => self.r13 = v,
            Register::r14 => self.r14 = v,
            Register::r15 => self.r15 = v,
            Register::rip => self.rip = v,
            Register::rbp => self.rbp = v,
            Register::rsp => self.rsp = v,
            Register::rbx => self.rbx = v,
            Register::rax => self.rax = v,
            Register::rcx => self.rcx = v,
            Register::rdx => self.rdx = v,
            Register::rsi => self.rsi = v,
            Register::rdi => self.rdi = v,
            Register::orig_rax => self.orig_rax = v,
            Register::eflags => self.eflags = v,
            Register::cs => self.cs = v,
            Register::ss => self.ss = v,
            Register::ds => self.ds = v,
            Register::es => self.es = v,
            Register::fs => self.fs = v,
            Register::gs => self.gs = v,
            Register::fs_base => self.fs_base = v,
            Register::gs_base => self.gs_base = v,
        }
    }
}

/// Writing a register and reading it back yields the written value, and
/// any other register is unaffected by the write.
#[verifier::rlimit(100)]
pub proof fn lemma_register_roundtrip(rf: RegisterFile, r: Register, v: u64, other: Register)
    ensures
        spec_read_reg(spec_write_reg(rf, r, v), r) == v,
        other != r ==> spec_read_reg(spec_write_reg(rf, r, v), other) == spec_read_reg(rf, other),
{
}

/// The [`Register`], if any, that a System V AMD64 DWARF register number
/// names. Numbers 17 and up address vector, x87 and segment state the
/// engine does not model, except for the flag, segment and base registers
/// it does.
pub open spec fn spec_register_of_dwarf(n: u16) -> Option<Register> {
    if n == 0 {
        Some(Register::rax)
    } else if n == 1 {
        Some(Register::rdx)
    } else if n == 2 {
        Some(Register::rcx)
    } else if n == 3 {
        Some(Register::rbx)
    } else if n == 4 {
        Some(Register::rsi)
    } else if n == 5 {
        Some(Register::rdi)
    } else if n == 6 {
        Some(Register::rbp)
    } else if n == 7 {
        Some(Register::rsp)
    } else if n == 8 {
        Some(Register::r8)
    } else if n == 9 {
        Some(Register::r9)
    } else if n == 10 {
        Some(Register::r10)
    } else if n == 11 {
        Some(Register::r11)
    } else if n == 12 {
        Some(Register::r12)
    } else if n == 13 {
        Some(Register::r13)
    } else if n == 14 {
        Some(Register::r14)
    } else if n == 15 {
        Some(Register::r15)
    } else if n == 16 {
        Some(Register::rip)
    } else if n == 49 {
        Some(Register::eflags)
    } else if n == 50 {
        Some(Register::es)
    } else if n == 51 {
        Some(Register::cs)
    } else if n == 52 {
        Some(Register::ss)
    } else if n == 53 {
        Some(Register::ds)
    } else if n == 54 {
        Some(Register::fs)
    } else if n == 55 {
        Some(Register::gs)
    } else if n == 58 {
        Some(Register::fs_base)
    } else if n == 59 {
        Some(Register::gs_base)
    } else {
        None
    }
}

/// Translates a DWARF register number (System V AMD64 ABI) into the
/// register name it addresses; numbers outside the supported set are
/// rejected with `UnimplementedRegister`, carrying the number.
pub fn register_from_dwarf(n: u16) -> (r: Result<Register, DebuggerError>)
    ensures
        match spec_register_of_dwarf(n) {
            Some(reg) => r matches Ok(got) && got == reg,
            None => r matches Err(e) && e matches DebuggerError::UnimplementedRegister(m) && m == n,
        },
{
    match register_of_dwarf(n) {
        Some(reg) => Ok(reg),
        None => Err(DebuggerError::UnimplementedRegister(n)),
    }
}

/// Executable twin of [`spec_register_of_dwarf`].
fn register_of_dwarf(n: u16) -> (r: Option<Register>)
    ensures
        r == spec_register_of_dwarf(n),
{
    if n == 0 {
        Some(Register::rax)
    } else if n == 1 {
        Some(Register::rdx)
    } else if n == 2 {
        Some(Register::rcx)
    } else if n == 3 {
        Some(Register::rbx)
    } else if n == 4 {
        Some(Register::rsi)
    } else if n == 5 {
        Some(Register::rdi)
    } else if n == 6 {
        Some(Register::rbp)
    } else if n == 7 {
        Some(Register::rsp)
    } else if n == 8 {
        Some(Register::r8)
    } else if n == 9 {
        Some(Register::r9)
    } else if n == 10 {
        Some(Register::r10)
    } else if n == 11 {
        Some(Register::r11)
    } else if n == 12 {
        Some(Register::r12)
    } else if n == 13 {
        Some(Register::r13)
    } else if n == 14 {
        Some(Register::r14)
    } else if n == 15 {
        Some(Register::r15)
    } else if n == 16 {
        Some(Register::rip)
    } else if n == 49 {
        Some(Register::eflags)
    } else if n == 50 {
        Some(Register::es)
    } else if n == 51 {
        Some(Register::cs)
    } else if n == 52 {
        Some(Register::ss)
    } else if n == 53 {
        Some(Register::ds)
    } else if n == 54 {
        Some(Register::fs)
    } else if n == 55 {
        Some(Register::gs)
    } else if n == 58 {
        Some(Register::fs_base)
    } else if n == 59 {
        Some(Register::gs_base)
    } else {
        None
    }
}

} // verus!
