//! Disassembly of tracee memory.
//!
//! The byte buffer read from the tracee is handed to the `iced-x86` decoder
//! and formatter; what the engine keeps is a list of lines, one per decoded
//! instruction, keyed by the instruction's absolute address. What the
//! decoder yields is a function of the bytes and the start address alone;
//! its addresses carry the name [`decoded_ips`], and the disassembly's
//! contract says that its lines list exactly those addresses, in order.

use vstd::prelude::*;

use crate::addr::Addr;
use crate::errors::DebuggerError;

verus! {

const CODE_BITNESS: u32 = 64;

/// The addresses of the instructions that decoding `data` as 64-bit code
/// at address `ip` yields, in decode order. What each address is takes
/// the whole instruction-length logic of the decoder to state; the name
/// stands for that result.
pub uninterp spec fn decoded_ips(data: Seq<u8>, ip: u64) -> Seq<u64>;

/// An `iced-x86` NASM-style instruction formatter.
#[verifier::external_body]
pub(crate) struct InsnFormatter {
    inner: iced_x86::NasmFormatter,
}

/// One decoded instruction.
#[verifier::external_body]
pub(crate) struct Insn {
    inner: iced_x86::Instruction,
}

/// Relies on `iced_x86::Decoder::{with_ip, can_decode, decode}` and
/// `Instruction::ip`: decodes the whole buffer in 64-bit mode, one
/// instruction per iteration, each paired with its address. The result is
/// a function of `data` and `ip` alone, named [`decoded_ips`]. Each
/// decode consumes at least one byte while bytes remain, so there are at
/// most `data.len()` instructions; an instruction's address is the start
/// address plus its byte offset (a wrapping sum), so while that sum
/// cannot wrap the addresses are strictly increasing and lie within the
/// buffer's address range.
#[verifier::external_body]
fn decode_buffer(data: &[u8], ip: u64) -> (r: Vec<(u64, Insn)>)
    ensures
        r@.map_values(|p: (u64, Insn)| p.0) == decoded_ips(data@, ip),
        r@.len() <= data@.len(),
        ip + data@.len() <= u64::MAX ==> forall|i: int, j: int|
            0 <= i < j < r@.len() ==> #[trigger] r@[i].0 < #[trigger] r@[j].0,
        ip + data@.len() <= u64::MAX ==> forall|i: int|
            0 <= i < r@.len() ==> ip <= #[trigger] r@[i].0 < ip + data@.len(),
{
    let mut decoder = iced_x86::Decoder::with_ip(CODE_BITNESS, data, ip, iced_x86::DecoderOptions::NONE);
    let mut out: Vec<(u64, Insn)> = Vec::new();
    while decoder.can_decode() {
        let inner = decoder.decode();
        out.push((inner.ip(), Insn { inner }));
    }
    out
}

/// Relies on `iced_x86::NasmFormatter::new`.
#[verifier::external_body]
fn new_formatter() -> InsnFormatter {
    InsnFormatter { inner: iced_x86::NasmFormatter::new() }
}

/// Relies on `iced_x86::Formatter::format` writing into a `String`.
#[verifier::external_body]
fn format_insn(f: &mut InsnFormatter, i: &Insn) -> String {
    let mut out = String::new();
    iced_x86::Formatter::format(&mut f.inner, &i.inner, &mut out);
    out
}

/// Disassembled text, one line per instruction, keyed by absolute address.
#[derive(Debug)]
pub struct Disassembly {
    /// The formatted lines, in decode order.
    pub vec: Vec<(Addr, String)>,
}

/// Whether the line list carries an entry for `addr`.
pub open spec fn spec_has_entry(lines: Seq<(Addr, String)>, addr: Addr) -> bool {
    exists|i: int| 0 <= i < lines.len() && #[trigger] lines[i].0 == addr
}

impl Disassembly {
    /// The lines of the disassembly, in decode order.
    pub open spec fn lines(&self) -> Seq<(Addr, String)> {
        self.vec@
    }

    /// The addresses of the lines, in order.
    pub open spec fn line_addrs(&self) -> Seq<u64> {
        self.vec@.map_values(|l: (Addr, String)| l.0@)
    }

    /// A disassembly with no lines.
    pub fn empty() -> (r: Self)
        ensures
            r.lines().len() == 0,
    {
        Self { vec: Vec::new() }
    }

    /// Decodes `data` as 64-bit code starting at `first_addr` and formats
    /// one line per instruction. It always succeeds; the lines list
    /// exactly the decoded instructions' addresses, in decode order,
    /// strictly increasing and all within the buffer's address range, so
    /// in particular every address is unique.
    pub fn disassemble(data: &[u8], first_addr: Addr) -> (r: Result<Self, DebuggerError>)
        requires
            first_addr@ + data@.len() <= u64::MAX,
        ensures
            r is Ok,
            r matches Ok(d) ==> d.line_addrs() == decoded_ips(data@, first_addr@),
            r matches Ok(d) ==> forall|i: int, j: int|
                0 <= i < j < d.lines().len()
                    ==> #[trigger] d.lines()[i].0@ < #[trigger] d.lines()[j].0@,
            r matches Ok(d) ==> forall|i: int| 0 <= i < d.lines().len()
                ==> first_addr@ <= #[trigger] d.lines()[i].0@ < first_addr@ + data@.len(),
            r matches Ok(d) ==> forall|i: int, j: int|
                0 <= i < j < d.lines().len() ==> d.lines()[i].0 != d.lines()[j].0,
    {
        let insns = decode_buffer(data, first_addr.value());
        let ghost ips = decoded_ips(data@, first_addr@);
        let mut formatter = new_formatter();
        let mut disassembly = Self::empty();
        let mut i: usize = 0;
        proof {
            assert(disassembly.line_addrs() =~= ips.take(0));
        }
        while i < insns.len()
            invariant
                i <= insns@.len(),
                first_addr@ + data@.len() <= u64::MAX,
                insns@.map_values(|p: (u64, Insn)| p.0) == ips,
                forall|a: int, b: int| 0 <= a < b < insns@.len()
                    ==> #[trigger] insns@[a].0 < #[trigger] insns@[b].0,
                forall|a: int| 0 <= a < insns@.len()
                    ==> first_addr@ <= #[trigger] insns@[a].0 < first_addr@ + data@.len(),
                disassembly.lines().len() == i,
                forall|k: int| 0 <= k < i
                    ==> #[trigger] disassembly.lines()[k].0@ == insns@[k].0,
            decreases insns@.len() - i,
        {
            let addr = Addr::new(insns[i].0);
            proof {
                assert forall|k: int| 0 <= k < i
                    implies #[trigger] disassembly.lines()[k].0 != addr by {
                    assert(insns@[k].0 < insns@[i as int].0);
                }
            }
            let line = format_insn(&mut formatter, &insns[i].1);
            disassembly.write_to_line(addr, line);
            i = i + 1;
        }
        proof {
            assert(disassembly.line_addrs() =~= ips);
            assert forall|a: int, b: int| 0 <= a < b < disassembly.lines().len()
                implies #[trigger] disassembly.lines()[a].0@
                    < #[trigger] disassembly.lines()[b].0@ by {
                assert(disassembly.lines()[a].0@ == insns@[a].0);
                assert(disassembly.lines()[b].0@ == insns@[b].0);
                assert(insns@[a].0 < insns@[b].0);
            }
            assert forall|a: int| 0 <= a < disassembly.lines().len()
                implies first_addr@ <= #[trigger] disassembly.lines()[a].0@
                    < first_addr@ + data@.len() by {
                assert(disassembly.lines()[a].0@ == insns@[a].0);
            }
            assert forall|a: int, b: int| 0 <= a < b < disassembly.lines().len()
                implies disassembly.lines()[a].0 != disassembly.lines()[b].0 by {
                assert(disassembly.lines()[a].0@ < disassembly.lines()[b].0@);
            }
        }
        Ok(disassembly)
    }

    /// The lines of the disassembly, in decode order.
    pub fn inner(&self) -> (r: &Vec<(Addr, String)>)
        ensures
            r@ == self.lines(),
    {
        &self.vec
    }

    /// Mutable access to the lines of the disassembly.
    pub fn inner_mut(&mut self) -> (r: &mut Vec<(Addr, String)>)
        ensures
            r@ == old(self).lines(),
            final(self).lines() == final(r)@,
    {
        &mut self.vec
    }

    /// Whether an instruction was decoded at exactly `addr`.
    pub fn has_entry_for(&self, addr: Addr) -> (r: bool)
        ensures
            r == spec_has_entry(self.lines(), addr),
    {
        let mut i: usize = 0;
        while i < self.vec.len()
            invariant
                i <= self.vec.len(),
                forall|j: int| 0 <= j < i ==> self.lines()[j].0 != addr,
            decreases self.vec.len() - i,
        {
            if self.vec[i].0 == addr {
                return true;
            }
            i = i + 1;
        }
        false
    }

    /// Appends one formatted line for `addr`, which must not be present.
    pub fn write_to_line(&mut self, addr: Addr, content: String)
        requires
            !spec_has_entry(old(self).lines(), addr),
        ensures
            final(self).lines() == old(self).lines().push((addr, content)),
    {
        self.vec.push((addr, content));
    }
}

} // verus!
