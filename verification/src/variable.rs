//! Values of debuggee variables.
//!
//! A [`VariableValue`] is what a variable read yields and what a variable
//! write consumes: raw bytes, a whole machine word, or a typed numeric
//! value. Packing such a value into bytes is specified against the
//! little-endian word model of [`crate::bytes`]: a value is zero-extended
//! into a word and truncated to the datatype's width.

use vstd::prelude::*;

use crate::addr::{Addr, Word};
use crate::bytes::{le_word, u64_le_bytes, u64_to_le_bytes, bytes_to_u64};
use crate::dbginfo::{OwnedSymbol, SymbolKind, views_of, spec_forest_hits, spec_find_base,
    symbols_with_name, find_base_type};
use crate::debugger::Debuggee;
use crate::dwarf_parse::{FrameInfo, ResolvedLocation, parse_location};
use crate::errors::DebuggerError;
use crate::mem::{mem_read, mem_write};
use crate::regs::{Register, RegisterFile, spec_read_reg};
use crate::tracee::Tracee;

verus! {

/// A textual expression naming a variable of the debuggee.
pub type VariableExpression = String;

/// A typed numeric value produced by DWARF expression evaluation.
/// Floating-point values are carried as their raw bit patterns.
#[derive(Debug, Clone, Copy, PartialEq, Eq, Structural)]
pub enum NumericValue {
    U8(u8),
    I8(i8),
    U16(u16),
    I16(i16),
    U32(u32),
    I32(i32),
    U64(u64),
    I64(i64),
    F32Bits(u32),
    F64Bits(u64),
    Generic(u64),
}

/// The value of a debuggee variable.
#[derive(Debug, Clone)]
pub enum VariableValue {
    /// Raw bytes read from the tracee's memory.
    Bytes(Vec<u8>),
    /// A whole machine word, as read from a register.
    Other(Word),
    /// A typed numeric value from expression evaluation.
    Numeric(NumericValue),
}

/// The width in bytes of a variable value.
pub open spec fn spec_byte_size(v: VariableValue) -> int {
    match v {
        VariableValue::Bytes(b) => b@.len() as int,
        VariableValue::Other(_) => 8,
        VariableValue::Numeric(n) => match n {
            NumericValue::U8(_) | NumericValue::I8(_) => 1,
            NumericValue::U16(_) | NumericValue::I16(_) => 2,
            NumericValue::U32(_) | NumericValue::I32(_) | NumericValue::F32Bits(_) => 4,
            NumericValue::U64(_) | NumericValue::I64(_) | NumericValue::F64Bits(_)
                | NumericValue::Generic(_) => 8,
        },
    }
}

/// A variable value zero-extended into one machine word: its little-endian
/// bytes, padded with zeroes. Signed values contribute their two's
/// complement bytes, unextended beyond their own width.
pub open spec fn spec_to_u64(v: VariableValue) -> int {
    match v {
        VariableValue::Bytes(b) => le_word(b@),
        VariableValue::Other(w) => w as int,
        VariableValue::Numeric(n) => match n {
            NumericValue::U8(x) => x as int,
            NumericValue::I8(x) => (x as u8) as int,
            NumericValue::U16(x) => x as int,
            NumericValue::I16(x) => (x as u16) as int,
            NumericValue::U32(x) => x as int,
            NumericValue::I32(x) => (x as u32) as int,
            NumericValue::U64(x) => x as int,
            NumericValue::I64(x) => (x as u64) as int,
            NumericValue::F32Bits(x) => x as int,
            NumericValue::F64Bits(x) => x as int,
            NumericValue::Generic(x) => x as int,
        },
    }
}

/// Whether a value fits into one machine word, which `to_u64` demands.
pub open spec fn spec_fits_word(v: VariableValue) -> bool {
    match v {
        VariableValue::Bytes(b) => b@.len() <= 8,
        _ => true,
    }
}

impl VariableValue {
    /// The width in bytes of this value.
    pub fn byte_size(&self) -> (r: usize)
        ensures
            r == spec_byte_size(*self),
    {
        match self {
            VariableValue::Bytes(b) => b.len(),
            VariableValue::Other(_) => 8,
            VariableValue::Numeric(n) => match n {
                NumericValue::U8(_) | NumericValue::I8(_) => 1,
                NumericValue::U16(_) | NumericValue::I16(_) => 2,
                NumericValue::U32(_) | NumericValue::I32(_) | NumericValue::F32Bits(_) => 4,
                NumericValue::U64(_) | NumericValue::I64(_) | NumericValue::F64Bits(_)
                    | NumericValue::Generic(_) => 8,
            },
        }
    }

    /// This value zero-extended into one machine word.
    pub fn to_u64(&self) -> (r: u64)
        requires
            spec_fits_word(*self),
        ensures
            r == spec_to_u64(*self),
    {
        match self {
            VariableValue::Bytes(b) => {
                proof {
                    crate::bytes::lemma_le_word_bound(b@);
                    crate::bytes::lemma_pow256_monotone(b@.len(), 8);
                    crate::bytes::lemma_pow256_8();
                }
                bytes_to_u64(b.as_slice())
            }
            VariableValue::Other(w) => *w,
            VariableValue::Numeric(n) => match n {
                NumericValue::U8(x) => *x as u64,
                NumericValue::I8(x) => (*x as u8) as u64,
                NumericValue::U16(x) => *x as u64,
                NumericValue::I16(x) => (*x as u16) as u64,
                NumericValue::U32(x) => *x as u64,
                NumericValue::I32(x) => (*x as u32) as u64,
                NumericValue::U64(x) => *x,
                NumericValue::I64(x) => *x as u64,
                NumericValue::F32Bits(x) => *x as u64,
                NumericValue::F64Bits(x) => *x,
                NumericValue::Generic(x) => *x,
            },
        }
    }

    /// The value packed into exactly `target_size` little-endian bytes:
    /// the word form of the value, truncated to the requested width.
    pub fn resize_to_bytes(&self, target_size: usize) -> (r: Vec<u8>)
        requires
            spec_fits_word(*self),
            target_size <= 8,
        ensures
            r@ == u64_le_bytes(spec_to_u64(*self) as u64).take(target_size as int),
            r@.len() == target_size,
    {
        let w = self.to_u64();
        let mut data = u64_to_le_bytes(w);
        data.truncate(target_size);
        data
    }
}

impl From<NumericValue> for VariableValue {
    fn from(value: NumericValue) -> (r: Self) {
        VariableValue::Numeric(value)
    }
}

impl vstd::std_specs::convert::FromSpecImpl<NumericValue> for VariableValue {
    open spec fn obeys_from_spec() -> bool {
        true
    }

    open spec fn from_spec(value: NumericValue) -> Self {
        VariableValue::Numeric(value)
    }
}

/// Reads the value at an already resolved location. The contract is
/// exact for every location the evaluator can produce: a computed value
/// or byte string is returned as such, a register location reads the
/// stop's register snapshot, an address location reads `type_size` bytes
/// of tracee memory, and an empty location is `SymbolHasNoLocation`.
pub fn read_located_value<T: Tracee>(
    t: &mut T,
    pid: i32,
    loc: ResolvedLocation,
    type_size: usize,
    regs: &RegisterFile,
) -> (r: Result<VariableValue, DebuggerError>)
    ensures
        loc matches ResolvedLocation::Value(v) ==> (r matches Ok(out)
            && out matches VariableValue::Numeric(n) && n == v),
        loc matches ResolvedLocation::Bytes(b) ==> (r matches Ok(out)
            && out matches VariableValue::Bytes(ob) && ob@ == b@),
        loc matches ResolvedLocation::Register(reg) ==> (r matches Ok(out)
            && out matches VariableValue::Other(w) && w == spec_read_reg(*regs, reg)),
        loc is Empty ==> (r matches Err(e) && e is SymbolHasNoLocation),
        loc is Address ==> (r matches Ok(out) ==> (out matches VariableValue::Bytes(ob)
            && ob@.len() == type_size)),
{
    match loc {
        ResolvedLocation::Value(v) => Ok(VariableValue::Numeric(v)),
        ResolvedLocation::Bytes(b) => Ok(VariableValue::Bytes(b)),
        ResolvedLocation::Register(reg) => Ok(VariableValue::Other(regs.read(reg))),
        ResolvedLocation::Empty => Err(DebuggerError::SymbolHasNoLocation),
        ResolvedLocation::Address(addr) => {
            if type_size > u64::MAX as usize || addr.value() > u64::MAX - (type_size as u64) {
                return Err(DebuggerError::Os(14));
            }
            let mut buf: Vec<u8> = Vec::new();
            buf.resize(type_size, 0u8);
            mem_read(&mut buf, t, pid, addr)?;
            Ok(VariableValue::Bytes(buf))
        }
    }
}

/// Writes a value to an already resolved location. The contract is exact
/// for every location the evaluator can produce: an address location
/// packs the value into the datatype's width and writes those bytes; a
/// register location writes the value's word into that register of the
/// bank; anything else is not a writable location.
pub fn write_located_value<T: Tracee>(
    t: &mut T,
    pid: i32,
    loc: ResolvedLocation,
    type_size: usize,
    regs: &RegisterFile,
    value: &VariableValue,
) -> (r: Result<(), DebuggerError>)
    requires
        spec_fits_word(*value),
    ensures
        (loc is Value || loc is Bytes || loc is Empty) ==> (r matches Err(e)
            && e is UnsupportedDwarfRequest),
        (loc is Address && type_size > 8) ==> (r matches Err(e)
            && e is UnsupportedMemorySize),
{
    match loc {
        ResolvedLocation::Address(addr) => {
            if type_size > 8 {
                return Err(DebuggerError::UnsupportedMemorySize(if type_size > 255 {
                    255u8
                } else {
                    type_size as u8
                }));
            }
            let value_raw = value.resize_to_bytes(type_size);
            if addr.value() > u64::MAX - (type_size as u64) {
                return Err(DebuggerError::Os(14));
            }
            mem_write(&value_raw, t, pid, addr)?;
            Ok(())
        }
        ResolvedLocation::Register(reg) => {
            let mut bank = *regs;
            bank.write(reg, value.to_u64());
            t.set_regs(pid, &bank)
        }
        _ => Err(DebuggerError::UnsupportedDwarfRequest),
    }
}

/// Whether a symbol passes variable validation: a variable or parameter
/// with a datatype and a location.
pub open spec fn spec_variable_ok(sym: OwnedSymbol) -> bool {
    &&& (sym.kind == SymbolKind::Variable || sym.kind == SymbolKind::Parameter)
    &&& sym.datatype is Some
    &&& sym.location is Some
}

impl Debuggee {
    /// The symbols of the tree whose name is exactly `expression`, in
    /// depth-first pre-order. The filter always succeeds.
    pub fn filter_expressions(&self, haystack: &Vec<OwnedSymbol>, expression: &VariableExpression)
        -> (r: Result<Vec<OwnedSymbol>, DebuggerError>)
        ensures
            r is Ok,
            r matches Ok(ss) ==> views_of(ss@) == spec_forest_hits(views_of(haystack@), 0,
                expression@),
    {
        Ok(symbols_with_name(haystack, expression))
    }

    /// Whether a symbol can stand for a variable operation: it must be a
    /// variable or parameter, have a datatype, and have a location.
    /// Each violation is the exact error stated.
    pub fn check_sym_variable_ok(&self, sym: &OwnedSymbol) -> (r: Result<(), DebuggerError>)
        ensures
            !(sym.kind == SymbolKind::Variable || sym.kind == SymbolKind::Parameter)
                ==> (r matches Err(e) && e matches DebuggerError::WrongSymbolKind(k)
                    && k == sym.kind),
            ((sym.kind == SymbolKind::Variable || sym.kind == SymbolKind::Parameter)
                && sym.datatype is None) ==> (r matches Err(e) && e is VariableSymbolNoType),
            ((sym.kind == SymbolKind::Variable || sym.kind == SymbolKind::Parameter)
                && sym.datatype is Some && sym.location is None)
                ==> (r matches Err(e) && e is SymbolHasNoLocation),
            ((sym.kind == SymbolKind::Variable || sym.kind == SymbolKind::Parameter)
                && sym.datatype is Some && sym.location is Some) ==> r is Ok,
    {
        match sym.kind() {
            SymbolKind::Variable | SymbolKind::Parameter => {}
            other => {
                return Err(DebuggerError::WrongSymbolKind(other));
            }
        }
        if sym.datatype().is_none() {
            return Err(DebuggerError::VariableSymbolNoType);
        }
        if sym.location().is_none() {
            return Err(DebuggerError::SymbolHasNoLocation);
        }
        Ok(())
    }

    /// The one symbol a variable expression names: exactly one hit
    /// succeeds with that symbol; no match is `VarExprReturnedNothing`,
    /// more than one is `AmbiguousVarExpr`, both carrying the
    /// expression.
    pub fn select_unique_symbol(&self, expression: &VariableExpression) -> (r: Result<
        OwnedSymbol,
        DebuggerError,
    >)
        ensures
            spec_forest_hits(views_of(self.symbols@), 0, expression@).len() == 1 ==> r is Ok,
            ({
                let hits = spec_forest_hits(views_of(self.symbols@), 0, expression@);
                match r {
                    Ok(s) => hits.len() == 1 && s@ == hits[0],
                    Err(e) => (hits.len() == 0 ==> (e matches
                        DebuggerError::VarExprReturnedNothing(x) && x@ == expression@))
                        && (hits.len() > 1 ==> (e matches DebuggerError::AmbiguousVarExpr(x)
                            && x@ == expression@)),
                }
            }),
    {
        let mut hits = symbols_with_name(&self.symbols, expression);
        proof {
            crate::dbginfo::lemma_views_of(hits@);
        }
        if hits.len() == 0 {
            Err(DebuggerError::VarExprReturnedNothing(expression.clone()))
        } else if hits.len() > 1 {
            Err(DebuggerError::AmbiguousVarExpr(expression.clone()))
        } else {
            match hits.pop() {
                Some(s) => Ok(s),
                None => Err(DebuggerError::VarExprReturnedNothing(expression.clone())),
            }
        }
    }

    /// The datatype symbol a variable symbol refers to: the first base
    /// type of the tree at the referenced DIE offset, `None` when the
    /// symbol has no datatype reference or the tree holds no base type
    /// at that offset.
    pub fn get_type_for_symbol(&self, sym: &OwnedSymbol) -> (r: Result<
        Option<OwnedSymbol>,
        DebuggerError,
    >)
        ensures
            sym.datatype is None ==> (r matches Ok(o) && o is None),
            sym.datatype matches Some(off) ==> (r matches Ok(o) && match o {
                Some(b) => spec_find_base(views_of(self.symbols@), 0, off as int) == Some(b@),
                None => spec_find_base(views_of(self.symbols@), 0, off as int) is None,
            }),
    {
        match sym.datatype() {
            None => Ok(None),
            Some(offset) => Ok(find_base_type(&self.symbols, offset)),
        }
    }

    /// Builds the evaluation context for the current stop: one register
    /// snapshot, and the frame base of the function under the
    /// instruction pointer, evaluated from that function's frame-base
    /// attribute; [`frame_base_of_location`] carries the exact
    /// location-to-base decision.
    pub fn build_frame_info<T: Tracee>(&self, t: &mut T, base: Addr) -> Result<
        FrameInfo,
        DebuggerError,
    > {
        let regs = t.get_regs(self.pid)?;
        let rip = regs.read(Register::rip);
        let fun = match self.get_function_by_addr(Addr::new(rip))? {
            Some(f) => f,
            None => {
                return Ok(FrameInfo { regs, frame_base: None });
            }
        };
        let partial = FrameInfo { regs, frame_base: None };
        let frame_base = match fun.frame_base() {
            None => None,
            Some(attr) => {
                let loc = parse_location(t, self.pid, attr, fun.encoding(), &partial, base)?;
                frame_base_of_location(loc, &partial.regs)
            }
        };
        Ok(FrameInfo { regs: partial.regs, frame_base })
    }

    /// Reads the value of a variable symbol: validates the symbol,
    /// resolves its datatype, evaluates its location against the live
    /// tracee, and reads from the resolved location. A valid symbol
    /// whose datatype offset resolves to no base type with a width is
    /// `NoDatatypeFound`.
    pub fn var_read<T: Tracee>(&self, t: &mut T, sym: &OwnedSymbol, frame_info: &FrameInfo,
        base: Addr) -> (r: Result<VariableValue, DebuggerError>)
        ensures
            !(sym.kind == SymbolKind::Variable || sym.kind == SymbolKind::Parameter)
                ==> (r matches Err(e) && e matches DebuggerError::WrongSymbolKind(k)
                    && k == sym.kind),
            ((sym.kind == SymbolKind::Variable || sym.kind == SymbolKind::Parameter)
                && sym.datatype is None) ==> (r matches Err(e) && e is VariableSymbolNoType),
            ((sym.kind == SymbolKind::Variable || sym.kind == SymbolKind::Parameter)
                && sym.datatype is Some && sym.location is None)
                ==> (r matches Err(e) && e is SymbolHasNoLocation),
            spec_variable_ok(*sym) ==> match sym.datatype {
                Some(off) => match spec_find_base(views_of(self.symbols@), 0, off as int) {
                    None => r matches Err(e) && e is NoDatatypeFound,
                    Some(b) => b.byte_size is None
                        ==> (r matches Err(e) && e is NoDatatypeFound),
                },
                None => true,
            },
    {
        self.check_sym_variable_ok(sym)?;
        let datatype = match self.get_type_for_symbol(sym)? {
            Some(d) => d,
            None => {
                return Err(DebuggerError::NoDatatypeFound);
            }
        };
        let type_size = match datatype.byte_size() {
            Some(b) => b,
            None => {
                return Err(DebuggerError::NoDatatypeFound);
            }
        };
        let loc_attr = match sym.location() {
            Some(l) => l,
            None => {
                return Err(DebuggerError::SymbolHasNoLocation);
            }
        };
        let location = parse_location(t, self.pid, loc_attr, sym.encoding(), frame_info, base)?;
        read_located_value(t, self.pid, location, type_size, &frame_info.regs)
    }

    /// Writes a value to a variable symbol: validates the symbol,
    /// resolves its datatype, evaluates its location against the live
    /// tracee, and writes the value there, packed to the datatype's
    /// width. A valid symbol whose datatype offset resolves to no base
    /// type with a width is `NoDatatypeFound`.
    pub fn var_write<T: Tracee>(&self, t: &mut T, sym: &OwnedSymbol, frame_info: &FrameInfo,
        base: Addr, value: VariableValue) -> (r: Result<(), DebuggerError>)
        requires
            spec_fits_word(value),
        ensures
            !(sym.kind == SymbolKind::Variable || sym.kind == SymbolKind::Parameter)
                ==> (r matches Err(e) && e matches DebuggerError::WrongSymbolKind(k)
                    && k == sym.kind),
            ((sym.kind == SymbolKind::Variable || sym.kind == SymbolKind::Parameter)
                && sym.datatype is None) ==> (r matches Err(e) && e is VariableSymbolNoType),
            ((sym.kind == SymbolKind::Variable || sym.kind == SymbolKind::Parameter)
                && sym.datatype is Some && sym.location is None)
                ==> (r matches Err(e) && e is SymbolHasNoLocation),
            spec_variable_ok(*sym) ==> match sym.datatype {
                Some(off) => match spec_find_base(views_of(self.symbols@), 0, off as int) {
                    None => r matches Err(e) && e is NoDatatypeFound,
                    Some(b) => b.byte_size is None
                        ==> (r matches Err(e) && e is NoDatatypeFound),
                },
                None => true,
            },
    {
        self.check_sym_variable_ok(sym)?;
        let datatype = match self.get_type_for_symbol(sym)? {
            Some(d) => d,
            None => {
                return Err(DebuggerError::NoDatatypeFound);
            }
        };
        let type_size = match datatype.byte_size() {
            Some(b) => b,
            None => {
                return Err(DebuggerError::NoDatatypeFound);
            }
        };
        let loc_attr = match sym.location() {
            Some(l) => l,
            None => {
                return Err(DebuggerError::SymbolHasNoLocation);
            }
        };
        let location = parse_location(t, self.pid, loc_attr, sym.encoding(), frame_info, base)?;
        write_located_value(t, self.pid, location, type_size, &frame_info.regs, &value)
    }
}

/// The word of a numeric value that can stand as an address: an
/// unsigned or generic 64-bit value.
fn numeric_as_word(v: &NumericValue) -> (r: Option<u64>)
    ensures
        v matches NumericValue::U64(x) ==> r == Some(*x),
        v matches NumericValue::Generic(x) ==> r == Some(*x),
        !(v is U64 || v is Generic) ==> r is None,
{
    match v {
        NumericValue::U64(x) => Some(*x),
        NumericValue::Generic(x) => Some(*x),
        _ => None,
    }
}

/// The frame base a resolved frame-base location yields: an address
/// location is the base itself; a register location reads the stop's
/// snapshot; a computed unsigned or generic 64-bit value is taken as an
/// address; anything else yields no frame base.
pub fn frame_base_of_location(loc: ResolvedLocation, regs: &RegisterFile) -> (r: Option<Addr>)
    ensures
        loc matches ResolvedLocation::Address(a) ==> r == Some(a),
        loc matches ResolvedLocation::Register(reg) ==> (r matches Some(fb)
            && fb@ == spec_read_reg(*regs, reg)),
        loc matches ResolvedLocation::Value(v) ==> match v {
            NumericValue::U64(x) => r matches Some(fb) && fb@ == x,
            NumericValue::Generic(x) => r matches Some(fb) && fb@ == x,
            _ => r is None,
        },
        (loc is Bytes || loc is Empty) ==> r is None,
{
    match loc {
        ResolvedLocation::Address(a) => Some(a),
        ResolvedLocation::Register(reg) => Some(Addr::new(regs.read(reg))),
        ResolvedLocation::Value(v) => match numeric_as_word(&v) {
            Some(w) => Some(Addr::new(w)),
            None => None,
        },
        _ => None,
    }
}

} // verus!
