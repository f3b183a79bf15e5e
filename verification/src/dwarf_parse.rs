//! Trusted boundary to the `gimli` DWARF reader, and the verified
//! location-evaluation logic built on top of it.
//!
//! `gimli`'s types are generic over traits Verus cannot see, so each value
//! the engine carries is held inside an opaque handle struct, and every
//! `gimli` call the engine makes is wrapped in a small `external_body`
//! function. Each wrapper's doc comment names exactly what it relies on;
//! the wrappers return plain values, and the verified code around them
//! states and checks what must hold of those values.

use vstd::prelude::*;

use gimli::Reader;
use object::Object;
use object::ObjectSection;

use crate::addr::Addr;
use crate::bytes::{le_word, bytes_to_u64, lemma_le_word_bound};
use crate::dbginfo::{LocationAttr, LocListEntry, UnitEncoding};
use crate::errors::DebuggerError;
use crate::mem::mem_read;
use crate::regs::{Register, RegisterFile, register_from_dwarf, spec_register_of_dwarf};
use crate::tracee::Tracee;
use crate::variable::NumericValue;

verus! {

/// The concrete `gimli` reader the engine uses: little-endian (x86-64) over
/// reference-counted section bytes.
pub type GimliReader = gimli::EndianReader<gimli::LittleEndian, std::rc::Rc<[u8]>>;

/// A loaded DWARF context (all `.debug_*` sections and abbreviations).
#[verifier::external_body]
pub struct DwarfHandle {
    dwarf: gimli::Dwarf<GimliReader>,
}

/// An iterator over the compile-unit headers of `.debug_info`.
#[verifier::external_body]
pub(crate) struct UnitIter {
    iter: gimli::DebugInfoUnitHeadersIter<GimliReader>,
}

/// One compile-unit header, not yet parsed into a unit.
#[verifier::external_body]
pub(crate) struct UnitHeaderHandle {
    header: gimli::UnitHeader<GimliReader>,
}

/// One parsed compile unit: abbreviations plus unit-level attributes.
#[verifier::external_body]
pub(crate) struct UnitHandle {
    unit: gimli::Unit<GimliReader>,
}

/// A depth-first cursor over the entries of one unit.
#[verifier::external_body]
pub(crate) struct DieCursor<'a> {
    cursor: gimli::read::EntriesCursor<'a, GimliReader>,
}

/// One owned debugging-information entry.
#[verifier::external_body]
pub(crate) struct DieHandle {
    die: gimli::DebuggingInformationEntry<GimliReader>,
}

/// Relies on `object::File::parse`, `section_by_name`, `uncompressed_data`
/// and `gimli::Dwarf::load`: parses the ELF image in `data` and loads its
/// `.debug_*` sections (decompressed, empty when absent) into a DWARF
/// context. Errors come from malformed ELF or section data.
#[verifier::external_body]
pub(crate) fn load_dwarf(data: &[u8]) -> Result<DwarfHandle, String> {
    let file = object::File::parse(data).map_err(|e| format!("{e}"))?;
    let dwarf = gimli::Dwarf::load(|id: gimli::SectionId| -> Result<GimliReader, String> {
        let bytes = file
            .section_by_name(id.name())
            .map(|s| s.uncompressed_data().unwrap_or_default())
            .unwrap_or_default();
        Ok(gimli::EndianReader::new(std::rc::Rc::from(bytes.as_ref()), gimli::LittleEndian))
    })?;
    Ok(DwarfHandle { dwarf })
}

/// Relies on `gimli::Dwarf::units`: an iterator over the compile-unit
/// headers of `.debug_info`.
#[verifier::external_body]
pub(crate) fn dwarf_units(dwarf: &DwarfHandle) -> UnitIter {
    UnitIter { iter: dwarf.dwarf.units() }
}

/// Relies on `DebugInfoUnitHeadersIter::next`: the next unit header, `None`
/// when the section is exhausted, `Err` on malformed data.
#[verifier::external_body]
pub(crate) fn units_next(iter: &mut UnitIter) -> Result<Option<UnitHeaderHandle>, String> {
    match iter.iter.next() {
        Ok(Some(header)) => Ok(Some(UnitHeaderHandle { header })),
        Ok(None) => Ok(None),
        Err(e) => Err(format!("{e}")),
    }
}

/// Relies on `gimli::Dwarf::unit`: parses the unit belonging to a header
/// (abbreviations and unit-level attributes).
#[verifier::external_body]
pub(crate) fn dwarf_unit(dwarf: &DwarfHandle, header: UnitHeaderHandle) -> Result<UnitHandle, String> {
    match dwarf.dwarf.unit(header.header) {
        Ok(unit) => Ok(UnitHandle { unit }),
        Err(e) => Err(format!("{e}")),
    }
}

/// Relies on `gimli::Unit::entries`: a depth-first cursor over the unit's
/// entries, positioned before the root entry.
#[verifier::external_body]
pub(crate) fn unit_entries<'a>(unit: &'a UnitHandle) -> DieCursor<'a> {
    DieCursor { cursor: unit.unit.entries() }
}

/// Relies on `EntriesCursor::next_dfs`: steps the cursor in depth-first
/// order and hands out an owned copy of the entry, `None` at the end.
#[verifier::external_body]
pub(crate) fn cursor_next_dfs(cursor: &mut DieCursor<'_>) -> Result<Option<DieHandle>, String> {
    match cursor.cursor.next_dfs() {
        Ok(Some(die)) => Ok(Some(DieHandle { die: die.clone() })),
        Ok(None) => Ok(None),
        Err(e) => Err(format!("{e}")),
    }
}

/// Relies on `DebuggingInformationEntry::tag`: the DWARF tag code of
/// the entry.
#[verifier::external_body]
pub(crate) fn die_tag(die: &DieHandle) -> u16 {
    die.die.tag().0
}

/// Relies on the public `depth` field of `DebuggingInformationEntry`: the
/// tree depth of the entry relative to the unit root.
#[verifier::external_body]
pub(crate) fn die_depth(die: &DieHandle) -> i64 {
    die.die.depth as i64
}

/// Relies on `UnitHeader::encoding` via the unit's `Deref`: the DWARF
/// version, address size and format of the unit.
#[verifier::external_body]
pub(crate) fn unit_encoding(unit: &UnitHandle) -> UnitEncoding {
    let enc = unit.unit.header.encoding();
    UnitEncoding {
        version: enc.version,
        address_size: enc.address_size,
        is_dwarf64: matches!(enc.format, gimli::Format::Dwarf64),
    }
}

/// Relies on the public `offset` field of `DebuggingInformationEntry`: the
/// entry's offset within its unit.
#[verifier::external_body]
pub(crate) fn die_offset(die: &DieHandle) -> usize {
    die.die.offset.0
}

/// Relies on `DebuggingInformationEntry::attr_value` and
/// `Dwarf::attr_string`: the entry's name attribute resolved to a string,
/// `None` when absent.
#[verifier::external_body]
pub(crate) fn die_name(dwarf: &DwarfHandle, unit: &UnitHandle, die: &DieHandle) -> Result<
    Option<String>,
    String,
> {
    match die.die.attr_value(gimli::DW_AT_name) {
        None => Ok(None),
        Some(v) => match dwarf.dwarf.attr_string(&unit.unit, v) {
            Ok(r) => match r.to_string_lossy() {
                Ok(sv) => Ok(Some(sv.to_string())),
                Err(e) => Err(format!("{e}")),
            },
            Err(e) => Err(format!("{e}")),
        },
    }
}

/// Relies on `DebuggingInformationEntry::attr_value` and
/// `Dwarf::attr_address`: the entry's `low_pc`, resolved through the
/// unit's address tables; `None` when absent or not an address.
#[verifier::external_body]
pub(crate) fn die_low_pc(dwarf: &DwarfHandle, unit: &UnitHandle, die: &DieHandle) -> Result<
    Option<u64>,
    String,
> {
    match die.die.attr_value(gimli::DW_AT_low_pc) {
        None => Ok(None),
        Some(v) => dwarf.dwarf.attr_address(&unit.unit, v).map_err(|e| format!("{e}")),
    }
}

/// Relies on `DebuggingInformationEntry::attr_value` and
/// `AttributeValue::udata_value`: the entry's `high_pc` attribute. The
/// first component says whether the value is an address of its own
/// (`true`) or an offset above `low_pc` (`false`).
#[verifier::external_body]
pub(crate) fn die_high_pc(die: &DieHandle) -> Option<(bool, u64)> {
    match die.die.attr_value(gimli::DW_AT_high_pc) {
        None => None,
        Some(gimli::AttributeValue::Addr(a)) => Some((true, a)),
        Some(v) => v.udata_value().map(|u| (false, u)),
    }
}

/// Relies on `DebuggingInformationEntry::attr_value`: the entry's `type`
/// attribute when it is a unit-local reference.
#[verifier::external_body]
pub(crate) fn die_type_ref(die: &DieHandle) -> Option<usize> {
    match die.die.attr_value(gimli::DW_AT_type) {
        Some(gimli::AttributeValue::UnitRef(offset)) => Some(offset.0),
        _ => None,
    }
}

/// Relies on `DebuggingInformationEntry::attr_value` and
/// `AttributeValue::udata_value`: the entry's `byte_size`.
#[verifier::external_body]
pub(crate) fn die_byte_size(die: &DieHandle) -> Option<u64> {
    match die.die.attr_value(gimli::DW_AT_byte_size) {
        Some(v) => v.udata_value(),
        None => None,
    }
}

/// A location-class attribute before its list reference is resolved.
pub(crate) enum RawLocationAttr {
    /// Expression bytecode.
    Expr(Vec<u8>),
    /// Offset into the location-list section.
    ListRef(usize),
}

/// An iterator over the entries of one location list.
#[verifier::external_body]
pub(crate) struct LocListHandle {
    iter: gimli::LocListIter<GimliReader>,
}

/// Relies on `gimli::Dwarf::locations`: the location list at `offset`
/// in the unit's location section.
#[verifier::external_body]
fn loclist_open(dwarf: &DwarfHandle, unit: &UnitHandle, offset: usize) -> Result<
    LocListHandle,
    String,
> {
    match dwarf.dwarf.locations(&unit.unit, gimli::LocationListsOffset(offset)) {
        Ok(iter) => Ok(LocListHandle { iter }),
        Err(e) => Err(format!("{e}")),
    }
}

/// Relies on `LocListIter::next` and the reader of `Expression`: the
/// next entry as its module-relative range and its expression bytecode,
/// `None` at the end of the list.
#[verifier::external_body]
fn loclist_next(h: &mut LocListHandle) -> Result<Option<LocListEntry>, String> {
    match h.iter.next() {
        Ok(None) => Ok(None),
        Ok(Some(e)) => match e.data.0.to_slice() {
            Ok(bytes) => Ok(Some(LocListEntry {
                begin: e.range.begin, end: e.range.end, expr: bytes.to_vec(),
            })),
            Err(err) => Err(format!("{err}")),
        },
        Err(e) => Err(format!("{e}")),
    }
}

/// Upper bound on location-list entries read before a malformed list is
/// abandoned.
const LOCLIST_LIMIT: usize = 65536;

/// The entries of the location list at `offset`, in list order.
fn loclist_entries(dwarf: &DwarfHandle, unit: &UnitHandle, offset: usize) -> Result<
    Vec<LocListEntry>,
    String,
> {
    let mut handle = loclist_open(dwarf, unit, offset)?;
    let mut out: Vec<LocListEntry> = Vec::new();
    let mut fuel: usize = LOCLIST_LIMIT;
    while fuel > 0
        decreases fuel,
    {
        fuel = fuel - 1;
        match loclist_next(&mut handle)? {
            None => {
                break;
            }
            Some(entry) => out.push(entry),
        }
    }
    Ok(out)
}


/// The raw location attribute of `die` under `attr`, with a location-list
/// reference resolved into its entry table.
pub(crate) fn die_location_attr(
    dwarf: &DwarfHandle,
    unit: &UnitHandle,
    die: &DieHandle,
    attr_is_frame_base: bool,
) -> Result<Option<LocationAttr>, String> {
    let raw = if attr_is_frame_base {
        die_frame_base_class(die)?
    } else {
        die_location_class_main(die)?
    };
    match raw {
        None => Ok(None),
        Some(RawLocationAttr::Expr(bytes)) => Ok(Some(LocationAttr::Expr(bytes))),
        Some(RawLocationAttr::ListRef(offset)) => {
            let entries = loclist_entries(dwarf, unit, offset)?;
            Ok(Some(LocationAttr::List(entries)))
        }
    }
}

/// Relies on `DebuggingInformationEntry::attr_value` and the reader of
/// `Expression`: the raw `location` attribute; expression bytecode or a
/// raw location-list offset. Other attribute forms yield `None`; a
/// failed read of the expression bytes is an error, not a missing
/// attribute.
#[verifier::external_body]
fn die_location_class_main(die: &DieHandle) -> Result<Option<RawLocationAttr>, String> {
    match die.die.attr_value(gimli::DW_AT_location) {
        Some(gimli::AttributeValue::Exprloc(e)) => match e.0.to_slice() {
            Ok(bytes) => Ok(Some(RawLocationAttr::Expr(bytes.to_vec()))),
            Err(err) => Err(format!("{err}")),
        },
        Some(gimli::AttributeValue::LocationListsRef(o)) => {
            Ok(Some(RawLocationAttr::ListRef(o.0)))
        }
        _ => Ok(None),
    }
}

/// Relies on `DebuggingInformationEntry::attr_value` and the reader of
/// `Expression`: the raw `frame_base` attribute, as above.
#[verifier::external_body]
fn die_frame_base_class(die: &DieHandle) -> Result<Option<RawLocationAttr>, String> {
    match die.die.attr_value(gimli::DW_AT_frame_base) {
        Some(gimli::AttributeValue::Exprloc(e)) => match e.0.to_slice() {
            Ok(bytes) => Ok(Some(RawLocationAttr::Expr(bytes.to_vec()))),
            Err(err) => Err(format!("{err}")),
        },
        Some(gimli::AttributeValue::LocationListsRef(o)) => {
            Ok(Some(RawLocationAttr::ListRef(o.0)))
        }
        _ => Ok(None),
    }
}

/// A running DWARF expression evaluation, together with the evaluator's
/// last answer (what it needs next).
#[verifier::external_body]
pub(crate) struct EvalHandle {
    eval: gimli::Evaluation<GimliReader>,
    pending: Option<gimli::EvaluationResult<GimliReader>>,
}

/// What a paused or finished evaluation asks of the engine.
#[derive(Debug, Clone, Copy, PartialEq, Eq, Structural)]
pub enum EvalStep {
    /// The expression is fully evaluated; the result can be read.
    Complete,
    /// The expression needs `size` bytes of tracee memory at `address`.
    NeedsMemory { address: u64, size: u8 },
    /// The expression needs the value of a DWARF-numbered register.
    NeedsRegister { register: u16 },
    /// The expression needs the current frame base.
    NeedsFrameBase,
    /// The expression needs `address` relocated by the module base.
    NeedsRelocatedAddress { address: u64 },
    /// The expression made a request the engine does not satisfy.
    Unsupported,
}

/// An unsigned value read from tracee memory for the evaluator, in one of
/// the four widths the engine supplies.
#[derive(Debug, Clone, Copy, PartialEq, Eq, Structural)]
pub enum MemValue {
    U8(u8),
    U16(u16),
    U32(u32),
    U64(u64),
}

/// Relies on `gimli::Evaluation::new`: a fresh evaluation of the
/// expression bytecode under the unit's encoding. The evaluator computes
/// an address mask by shifting, which panics for an address size above
/// eight bytes; the precondition excludes those sizes.
#[verifier::external_body]
pub(crate) fn new_evaluation(bytecode: &[u8], encoding: UnitEncoding) -> EvalHandle
    requires
        encoding.address_size <= 8,
{
    let enc = gimli::Encoding {
        address_size: encoding.address_size,
        format: if encoding.is_dwarf64 { gimli::Format::Dwarf64 } else { gimli::Format::Dwarf32 },
        version: encoding.version,
    };
    let reader = gimli::EndianReader::new(std::rc::Rc::from(bytecode), gimli::LittleEndian);
    EvalHandle { eval: gimli::Evaluation::new(reader, enc), pending: None }
}

/// Relies on `gimli::Evaluation::evaluate`: starts the evaluation and
/// records what it needs next in the handle. `evaluate` panics when the
/// evaluator is paused waiting for a resume, so a handle that already
/// recorded an answer is refused instead of driven.
#[verifier::external_body]
pub(crate) fn eval_begin(h: &mut EvalHandle) -> Result<(), String> {
    if h.pending.is_some() {
        return Err("evaluation already started".to_string());
    }
    match h.eval.evaluate() {
        Ok(res) => {
            h.pending = Some(res);
            Ok(())
        }
        Err(e) => Err(format!("{e}")),
    }
}

/// Relies on the variants of `gimli::EvaluationResult`: reads the
/// evaluator's recorded answer as the [`EvalStep`] the engine handles,
/// copying the fields it reads; requests outside the handled set are
/// `Unsupported`.
#[verifier::external_body]
pub(crate) fn eval_step(h: &EvalHandle) -> EvalStep {
    match &h.pending {
        Some(gimli::EvaluationResult::Complete) => EvalStep::Complete,
        Some(gimli::EvaluationResult::RequiresMemory { address, size, .. }) =>
            EvalStep::NeedsMemory { address: *address, size: *size },
        Some(gimli::EvaluationResult::RequiresRegister { register, .. }) =>
            EvalStep::NeedsRegister { register: register.0 },
        Some(gimli::EvaluationResult::RequiresFrameBase) => EvalStep::NeedsFrameBase,
        Some(gimli::EvaluationResult::RequiresRelocatedAddress(a)) =>
            EvalStep::NeedsRelocatedAddress { address: *a },
        _ => EvalStep::Unsupported,
    }
}


#[verifier::external_type_specification]
#[verifier::external_body]
pub struct ExGimliValue(gimli::Value);

/// Relies on `gimli::Value`'s unsigned constructors: the width-typed
/// value of bytes read from tracee memory.
#[verifier::external_body]
fn gimli_mem_value(value: MemValue) -> gimli::Value {
    match value {
        MemValue::U8(x) => gimli::Value::U8(x),
        MemValue::U16(x) => gimli::Value::U16(x),
        MemValue::U32(x) => gimli::Value::U32(x),
        MemValue::U64(x) => gimli::Value::U64(x),
    }
}

/// Relies on `gimli::Evaluation::resume_with_memory`: hands the memory
/// value to the evaluator and records its next answer. The call panics
/// unless the evaluator stopped asking for memory, so any other recorded
/// answer is refused instead of resumed.
#[verifier::external_body]
pub(crate) fn eval_resume_memory(h: &mut EvalHandle, value: MemValue) -> Result<(), String> {
    match &h.pending {
        Some(gimli::EvaluationResult::RequiresMemory { .. }) => {}
        _ => return Err("no memory request pending".to_string()),
    }
    match h.eval.resume_with_memory(gimli_mem_value(value)) {
        Ok(res) => {
            h.pending = Some(res);
            Ok(())
        }
        Err(e) => Err(format!("{e}")),
    }
}


/// Relies on `gimli::Evaluation::resume_with_register`: the register's
/// content resumes the evaluation as a generic 64-bit value. The call
/// panics unless the evaluator stopped asking for a register, so any
/// other recorded answer is refused instead of resumed.
#[verifier::external_body]
pub(crate) fn eval_resume_register(h: &mut EvalHandle, value: u64) -> Result<(), String> {
    match &h.pending {
        Some(gimli::EvaluationResult::RequiresRegister { .. }) => {}
        _ => return Err("no register request pending".to_string()),
    }
    match h.eval.resume_with_register(gimli::Value::Generic(value)) {
        Ok(res) => {
            h.pending = Some(res);
            Ok(())
        }
        Err(e) => Err(format!("{e}")),
    }
}


/// Relies on `gimli::Evaluation::resume_with_frame_base`. The call
/// panics unless the evaluator stopped asking for the frame base, so any
/// other recorded answer is refused instead of resumed.
#[verifier::external_body]
pub(crate) fn eval_resume_frame_base(h: &mut EvalHandle, frame_base: u64) -> Result<(), String> {
    match &h.pending {
        Some(gimli::EvaluationResult::RequiresFrameBase) => {}
        _ => return Err("no frame-base request pending".to_string()),
    }
    match h.eval.resume_with_frame_base(frame_base) {
        Ok(res) => {
            h.pending = Some(res);
            Ok(())
        }
        Err(e) => Err(format!("{e}")),
    }
}


/// Relies on `gimli::Evaluation::resume_with_relocated_address`. The
/// call panics unless the evaluator stopped asking for a relocation, so
/// any other recorded answer is refused instead of resumed.
#[verifier::external_body]
pub(crate) fn eval_resume_relocated(h: &mut EvalHandle, address: u64) -> Result<(), String> {
    match &h.pending {
        Some(gimli::EvaluationResult::RequiresRelocatedAddress(_)) => {}
        _ => return Err("no relocation request pending".to_string()),
    }
    match h.eval.resume_with_relocated_address(address) {
        Ok(res) => {
            h.pending = Some(res);
            Ok(())
        }
        Err(e) => Err(format!("{e}")),
    }
}


/// A concrete location before engine-level conversion: the first piece of
/// the evaluation result, with DWARF register numbers still raw.
pub(crate) enum RawLocation {
    /// The value lives in tracee memory at this absolute address.
    Address(u64),
    /// The value lives in the DWARF-numbered register.
    Register(u16),
    /// The value itself, computed by the expression.
    Value(NumericValue),
    /// The raw bytes of the value.
    Bytes(Vec<u8>),
    /// The value has no location (optimized away), or a piece kind the
    /// engine does not model.
    Empty,
}

/// The location of the first piece of a finished evaluation, held
/// opaquely until it is interrogated.
#[verifier::external_body]
pub(crate) struct PieceLoc {
    loc: Option<gimli::Location<GimliReader>>,
}

/// Relies on `gimli::Evaluation::result`: the location of the first
/// piece of the finished evaluation; no pieces leave it empty. `result`
/// panics unless the evaluation completed, so a handle whose recorded
/// answer is not completion is refused instead of read.
#[verifier::external_body]
pub(crate) fn eval_first_piece(h: EvalHandle) -> Result<PieceLoc, String> {
    match &h.pending {
        Some(gimli::EvaluationResult::Complete) => {}
        _ => return Err("evaluation is not complete".to_string()),
    }
    Ok(PieceLoc { loc: h.eval.result().into_iter().next().map(|p| p.location) })
}

/// Relies on the integer variants of `gimli::Value`: the numeric
/// payload of a value location, when it is an integer, variant by
/// variant.
#[verifier::external_body]
fn piece_numeric_int(p: &PieceLoc) -> Option<NumericValue> {
    let v = match &p.loc { Some(gimli::Location::Value { value }) => value, _ => return None };
    Some(match *v {
        gimli::Value::U8(x) => NumericValue::U8(x), gimli::Value::I8(x) => NumericValue::I8(x),
        gimli::Value::U16(x) => NumericValue::U16(x), gimli::Value::I16(x) => NumericValue::I16(x),
        gimli::Value::U32(x) => NumericValue::U32(x), gimli::Value::I32(x) => NumericValue::I32(x),
        gimli::Value::U64(x) => NumericValue::U64(x), gimli::Value::I64(x) => NumericValue::I64(x),
        _ => return None,
    })
}

/// Relies on the remaining variants of `gimli::Value`: generic words
/// pass through, floats become their bit patterns.
#[verifier::external_body]
fn piece_numeric_rest(p: &PieceLoc) -> Option<NumericValue> {
    let v = match &p.loc { Some(gimli::Location::Value { value }) => value, _ => return None };
    Some(match *v {
        gimli::Value::Generic(x) => NumericValue::Generic(x),
        gimli::Value::F32(x) => NumericValue::F32Bits(x.to_bits()),
        gimli::Value::F64(x) => NumericValue::F64Bits(x.to_bits()),
        _ => return None,
    })
}

/// Relies on the variants of `gimli::Location` other than `Value`:
/// address, register and byte-string locations, moving the fields;
/// everything else (no pieces, empty or unmodeled pieces) is `Empty`.
#[verifier::external_body]
fn piece_plain(p: PieceLoc) -> RawLocation {
    match p.loc {
        Some(gimli::Location::Register { register }) => RawLocation::Register(register.0),
        Some(gimli::Location::Address { address }) => RawLocation::Address(address),
        Some(gimli::Location::Bytes { value }) => match value.to_slice() {
            Ok(bytes) => RawLocation::Bytes(bytes.to_vec()),
            Err(_) => RawLocation::Empty,
        },
        _ => RawLocation::Empty,
    }
}

/// The location of the first piece of the finished evaluation, in the
/// engine's form.
pub(crate) fn eval_result_location(h: EvalHandle) -> Result<RawLocation, String> {
    let piece = eval_first_piece(h)?;
    Ok(match piece_numeric_int(&piece) {
        Some(v) => RawLocation::Value(v),
        None => match piece_numeric_rest(&piece) {
            Some(v) => RawLocation::Value(v),
            None => piece_plain(piece),
        },
    })
}


/// An address-to-line index over its own DWARF context.
#[verifier::external_body]
pub struct LineContext {
    ctx: addr2line::Context<GimliReader>,
}

/// Relies on `addr2line::Context::from_dwarf`: builds the address-to-line
/// index from a DWARF context, consuming it.
#[verifier::external_body]
pub(crate) fn line_context(dwarf: DwarfHandle) -> Result<LineContext, String> {
    match addr2line::Context::from_dwarf(dwarf.dwarf) {
        Ok(ctx) => Ok(LineContext { ctx }),
        Err(e) => Err(format!("{e}")),
    }
}

/// Relies on `addr2line::Context::find_location`: the source file, line and
/// column mapped to a module-relative probe address, when the line table
/// has one.
#[verifier::external_body]
pub(crate) fn find_line(ctx: &LineContext, probe: u64) -> Result<Option<(String, u32)>, String> {
    match ctx.ctx.find_location(probe) {
        Ok(Some(loc)) => Ok(match (loc.file, loc.line) {
            (Some(f), Some(l)) => Some((f.to_string(), l)),
            _ => None,
        }),
        Ok(None) => Ok(None),
        Err(e) => Err(format!("{e}")),
    }
}

/// Per-stop evaluation context: the register snapshot taken at the stop
/// and the frame base of the function under the instruction pointer, once
/// computed.
pub struct FrameInfo {
    /// The register bank as of the current trace-stop.
    pub regs: RegisterFile,
    /// The absolute frame base, when it has been evaluated.
    pub frame_base: Option<Addr>,
}

/// A concrete variable location, the result of evaluating a DWARF
/// location attribute against the live tracee.
#[derive(Debug)]
pub enum ResolvedLocation {
    /// The value lives in tracee memory at this absolute address.
    Address(Addr),
    /// The value lives in this register.
    Register(Register),
    /// The value itself, computed by the expression.
    Value(NumericValue),
    /// The raw bytes of the value.
    Bytes(Vec<u8>),
    /// The value has no location at the current instruction pointer.
    Empty,
}

/// What `to_value` returns: the little-endian value of `buff` in the
/// unsigned width `size`, for the supported sizes one, two, four and
/// eight; other sizes are rejected, carrying the size.
pub open spec fn spec_to_value(size: u8, buff: Seq<u8>) -> Result<MemValue, DebuggerError> {
    if size == 1 {
        Ok(MemValue::U8(buff[0]))
    } else if size == 2 {
        Ok(MemValue::U16(le_word(buff) as u16))
    } else if size == 4 {
        Ok(MemValue::U32(le_word(buff) as u32))
    } else if size == 8 {
        Ok(MemValue::U64(le_word(buff) as u64))
    } else {
        Err(DebuggerError::UnsupportedMemorySize(size))
    }
}

/// Packs bytes read from tracee memory into the typed value the DWARF
/// evaluator asked for: little-endian, in the unsigned type of the
/// requested width. Sizes other than one, two, four and eight bytes are
/// rejected.
pub fn to_value(size: u8, buff: &Vec<u8>) -> (r: Result<MemValue, DebuggerError>)
    requires
        buff@.len() == size as int,
    ensures
        r == spec_to_value(size, buff@),
{
    proof {
        lemma_le_word_bound(buff@);
        reveal_with_fuel(crate::bytes::pow256, 9);
    }
    if size == 1 {
        proof {
            reveal_with_fuel(le_word, 2);
        }
        Ok(MemValue::U8(buff[0]))
    } else if size == 2 {
        Ok(MemValue::U16(bytes_to_u64(buff.as_slice()) as u16))
    } else if size == 4 {
        Ok(MemValue::U32(bytes_to_u64(buff.as_slice()) as u32))
    } else if size == 8 {
        Ok(MemValue::U64(bytes_to_u64(buff.as_slice())))
    } else {
        Err(DebuggerError::UnsupportedMemorySize(size))
    }
}

/// The first location-list entry whose module-relative range contains
/// `ip_rel`, if any: the list is filtered against the current instruction
/// pointer in list order.
pub open spec fn spec_select_entry(entries: Seq<crate::dbginfo::LocEntryView>, ip_rel: u64) -> Option<
    crate::dbginfo::LocEntryView,
>
    decreases entries.len(),
{
    if entries.len() == 0 {
        None
    } else if entries[0].begin <= ip_rel < entries[0].end {
        Some(entries[0])
    } else {
        spec_select_entry(entries.skip(1), ip_rel)
    }
}

/// Picks the applicable location-list entry for the given module-relative
/// instruction pointer: the first entry whose range contains it.
pub fn select_loclist_entry<'a>(entries: &'a Vec<LocListEntry>, ip_rel: u64) -> (r: Option<
    &'a LocListEntry,
>)
    ensures
        match r {
            Some(e) => spec_select_entry(entries@.map_values(|x: LocListEntry| x@), ip_rel)
                == Some(e@),
            None => spec_select_entry(entries@.map_values(|x: LocListEntry| x@), ip_rel) is None,
        },
{
    let ghost views = entries@.map_values(|x: LocListEntry| x@);
    proof {
        assert(views.skip(0) =~= views);
    }
    let mut i: usize = 0;
    while i < entries.len()
        invariant
            i <= entries@.len(),
            views == entries@.map_values(|x: LocListEntry| x@),
            spec_select_entry(views, ip_rel) == spec_select_entry(views.skip(i as int), ip_rel),
        decreases entries@.len() - i,
    {
        proof {
            assert(views.skip(i as int)[0] == views[i as int]);
        }
        if entries[i].begin <= ip_rel && ip_rel < entries[i].end {
            return Some(&entries[i]);
        }
        proof {
            assert(views.skip(i as int).skip(1) =~= views.skip(i as int + 1));
        }
        i = i + 1;
    }
    proof {
        assert(views.skip(entries@.len() as int).len() == 0);
    }
    None
}

/// The module-relative high address of a symbol, derived from its raw
/// `high_pc` attribute: an absolute value stands on its own, an offset
/// counts from `low`; an offset without a low address is the error
/// `HighAddrExistsButNotLowAddr`. A range that would run past the top of
/// the address space yields no high address rather than wrapping.
pub fn derive_high_addr(high: Option<(bool, u64)>, low: Option<Addr>, base: Addr) -> (r: Result<
    Option<Addr>,
    DebuggerError,
>)
    ensures
        match high {
            None => r matches Ok(o) && o is None,
            Some((is_abs, v)) => {
                if is_abs {
                    if base@ + v <= u64::MAX {
                        r matches Ok(o) && o == Some(crate::addr::spec_from_relative(base, v))
                    } else {
                        r matches Ok(o) && o is None
                    }
                } else {
                    match low {
                        None => r matches Err(e) && e is HighAddrExistsButNotLowAddr,
                        Some(l) => if l@ + v <= u64::MAX {
                            r matches Ok(o) && o == Some(crate::addr::spec_from_relative(l, v))
                        } else {
                            r matches Ok(o) && o is None
                        },
                    }
                }
            },
        },
{
    match high {
        None => Ok(None),
        Some((is_abs, v)) => {
            if is_abs {
                if v <= u64::MAX - base.value() {
                    Ok(Some(Addr::from_relative(base, v)))
                } else {
                    Ok(None)
                }
            } else {
                match low {
                    None => Err(DebuggerError::HighAddrExistsButNotLowAddr),
                    Some(l) => {
                        if v <= u64::MAX - l.value() {
                            Ok(Some(Addr::from_relative(l, v)))
                        } else {
                            Ok(None)
                        }
                    }
                }
            }
        }
    }
}

/// Upper bound on evaluator steps before a runaway expression is
/// abandoned.
const EVAL_STEP_LIMIT: usize = 65536;

/// What the engine does with one evaluator answer: finish, feed a value
/// back in, or fail with the exact error the answer earns.
pub enum EvalAction {
    /// The expression is fully evaluated; read the result off.
    Finish,
    /// Read `size` bytes of tracee memory at `address` and feed them in.
    FeedMemory { address: u64, size: u8 },
    /// Feed this register content in.
    FeedRegister { value: u64 },
    /// Feed this frame base in.
    FeedFrameBase { value: u64 },
    /// Feed this relocated address in.
    FeedRelocated { value: u64 },
    /// The answer cannot be satisfied; fail with this error.
    Fail(DebuggerError),
}

/// Decides how to answer one evaluator request, exactly as the engine
/// owes it: a memory request of an unsupported width or one whose range
/// would wrap fails with `UnsupportedMemorySize` of that width; a
/// register request is answered from the stop's snapshot, or fails with
/// `UnimplementedRegister` of the number when it lies outside the
/// supported set; a frame-base request is answered from the frame info,
/// or fails with `NoFrameInfo` when none was computed; a relocation adds
/// the module base, failing with `UnsupportedDwarfRequest` when the sum
/// would wrap; any request outside the handled set fails with
/// `UnsupportedDwarfRequest`.
pub fn decide_eval_step(step: EvalStep, frame_info: &FrameInfo, base: Addr) -> (r: EvalAction)
    ensures
        step is Complete ==> r is Finish,
        step matches EvalStep::NeedsMemory { address, size } ==> {
            if size <= 8 && address + size <= u64::MAX {
                r matches EvalAction::FeedMemory { address: a, size: z } && a == address
                    && z == size
            } else {
                r matches EvalAction::Fail(e)
                    && e matches DebuggerError::UnsupportedMemorySize(z) && z == size
            }
        },
        step matches EvalStep::NeedsRegister { register } ==> {
            match crate::regs::spec_register_of_dwarf(register) {
                Some(reg) => r matches EvalAction::FeedRegister { value }
                    && value == crate::regs::spec_read_reg(frame_info.regs, reg),
                None => r matches EvalAction::Fail(e)
                    && e matches DebuggerError::UnimplementedRegister(n) && n == register,
            }
        },
        step is NeedsFrameBase ==> {
            match frame_info.frame_base {
                Some(fb) => r matches EvalAction::FeedFrameBase { value } && value == fb@,
                None => r matches EvalAction::Fail(e) && e is NoFrameInfo,
            }
        },
        step matches EvalStep::NeedsRelocatedAddress { address } ==> {
            if base@ + address <= u64::MAX {
                r matches EvalAction::FeedRelocated { value } && value == base@ + address
            } else {
                r matches EvalAction::Fail(e) && e is UnsupportedDwarfRequest
            }
        },
        step is Unsupported ==> (r matches EvalAction::Fail(e) && e is UnsupportedDwarfRequest),
{
    match step {
        EvalStep::Complete => EvalAction::Finish,
        EvalStep::NeedsMemory { address, size } => {
            if size <= 8 && address <= u64::MAX - (size as u64) {
                EvalAction::FeedMemory { address, size }
            } else {
                EvalAction::Fail(DebuggerError::UnsupportedMemorySize(size))
            }
        }
        EvalStep::NeedsRegister { register } => match register_from_dwarf(register) {
            Ok(reg) => EvalAction::FeedRegister { value: frame_info.regs.read(reg) },
            Err(e) => EvalAction::Fail(e),
        },
        EvalStep::NeedsFrameBase => match frame_info.frame_base {
            Some(fb) => EvalAction::FeedFrameBase { value: fb.value() },
            None => EvalAction::Fail(DebuggerError::NoFrameInfo),
        },
        EvalStep::NeedsRelocatedAddress { address } => {
            if address <= u64::MAX - base.value() {
                EvalAction::FeedRelocated { value: base.value() + address }
            } else {
                EvalAction::Fail(DebuggerError::UnsupportedDwarfRequest)
            }
        }
        EvalStep::Unsupported => EvalAction::Fail(DebuggerError::UnsupportedDwarfRequest),
    }
}

/// Runs the DWARF expression interpreter over `bytecode`, satisfying its
/// requests from live tracee state. Each request is answered exactly as
/// [`decide_eval_step`] states: memory through the tracing interface,
/// registers from the stop's snapshot, the frame base from `frame_info`,
/// relocations from the module base. Whatever the interpreter returns,
/// the result is one concrete location. Other error kinds pass through
/// unchanged from the tracing interface (the memory feed) and from the
/// interpreter itself (as `Dwarf`), so the error set cannot be pinned
/// further here; an encoding whose address size exceeds eight bytes is
/// rejected up front.
pub fn eval_expression<T: Tracee>(
    t: &mut T,
    pid: i32,
    bytecode: &[u8],
    encoding: UnitEncoding,
    frame_info: &FrameInfo,
    base: Addr,
) -> (r: Result<ResolvedLocation, DebuggerError>)
    ensures
        encoding.address_size > 8 ==> (r matches Err(e) && e is UnsupportedDwarfRequest),
{
    if encoding.address_size > 8 {
        return Err(DebuggerError::UnsupportedDwarfRequest);
    }
    let mut handle = new_evaluation(bytecode, encoding);
    match eval_begin(&mut handle) {
        Ok(()) => {}
        Err(msg) => {
            return Err(DebuggerError::Dwarf(msg));
        }
    }
    let mut fuel: usize = EVAL_STEP_LIMIT;
    while fuel > 0
        invariant
            encoding.address_size <= 8,
        decreases fuel,
    {
        fuel = fuel - 1;
        let next: Result<(), String> = match decide_eval_step(eval_step(&handle), frame_info,
            base) {
            EvalAction::Finish => {
                return finish_location(handle);
            }
            EvalAction::Fail(e) => {
                return Err(e);
            }
            EvalAction::FeedMemory { address, size } => {
                let mut buff: Vec<u8> = Vec::new();
                buff.resize(size as usize, 0u8);
                let got = mem_read(&mut buff, t, pid, Addr::new(address))?;
                if got != size as usize {
                    return Err(DebuggerError::UnsupportedMemorySize(size));
                }
                let value = to_value(size, &buff)?;
                eval_resume_memory(&mut handle, value)
            }
            EvalAction::FeedRegister { value } => eval_resume_register(&mut handle, value),
            EvalAction::FeedFrameBase { value } => eval_resume_frame_base(&mut handle, value),
            EvalAction::FeedRelocated { value } => eval_resume_relocated(&mut handle, value),
        };
        match next {
            Ok(()) => {}
            Err(msg) => {
                return Err(DebuggerError::Dwarf(msg));
            }
        }
    }
    Err(DebuggerError::UnsupportedDwarfRequest)
}

/// Converts one raw piece location into the engine's location form,
/// exactly: an address becomes that address, a supported DWARF register
/// number becomes its register name (an unsupported one leaves the
/// location empty), computed values and byte strings pass through, and
/// empty stays empty.
pub(crate) fn resolve_raw_location(raw: RawLocation) -> (r: ResolvedLocation)
    ensures
        raw is Empty ==> r is Empty,
        raw matches RawLocation::Address(a) ==> (r matches ResolvedLocation::Address(x)
            && x@ == a),
        raw matches RawLocation::Register(n) ==> match spec_register_of_dwarf(n) {
            Some(reg) => r matches ResolvedLocation::Register(g) && g == reg,
            None => r is Empty,
        },
        raw matches RawLocation::Value(v) ==> (r matches ResolvedLocation::Value(w) && w == v),
        raw matches RawLocation::Bytes(b) ==> (r matches ResolvedLocation::Bytes(ob)
            && ob@ == b@),
{
    match raw {
        RawLocation::Empty => ResolvedLocation::Empty,
        RawLocation::Address(a) => ResolvedLocation::Address(Addr::new(a)),
        RawLocation::Register(n) => match register_from_dwarf(n) {
            Ok(reg) => ResolvedLocation::Register(reg),
            Err(_) => ResolvedLocation::Empty,
        },
        RawLocation::Value(v) => ResolvedLocation::Value(v),
        RawLocation::Bytes(b) => ResolvedLocation::Bytes(b),
    }
}

/// Reads the finished evaluation's first piece and converts it through
/// [`resolve_raw_location`], which carries the exact conversion
/// contract.
fn finish_location(handle: EvalHandle) -> (r: Result<ResolvedLocation, DebuggerError>) {
    match eval_result_location(handle) {
        Ok(raw) => Ok(resolve_raw_location(raw)),
        Err(msg) => Err(DebuggerError::Dwarf(msg)),
    }
}

/// Evaluates a raw location attribute against the live tracee: an
/// expression block is interpreted directly; a location list is first
/// filtered against the current instruction pointer (relative to the
/// module base), and resolves to `Empty` when no entry covers it.
pub fn parse_location<T: Tracee>(
    t: &mut T,
    pid: i32,
    attr: &LocationAttr,
    encoding: UnitEncoding,
    frame_info: &FrameInfo,
    base: Addr,
) -> (r: Result<ResolvedLocation, DebuggerError>)
{
    match attr {
        LocationAttr::Expr(bytes) => {
            eval_expression(t, pid, bytes.as_slice(), encoding, frame_info, base)
        }
        LocationAttr::List(entries) => {
            let ip = frame_info.regs.read(crate::regs::Register::rip);
            let ip_rel = match Addr::new(ip).to_relative(base) {
                Some(off) => off,
                None => {
                    return Ok(ResolvedLocation::Empty);
                }
            };
            match select_loclist_entry(entries, ip_rel) {
                None => Ok(ResolvedLocation::Empty),
                Some(entry) => {
                    let bytes = crate::dbginfo::clone_expr_bytes(&entry.expr);
                    eval_expression(t, pid, bytes.as_slice(), encoding, frame_info, base)
                }
            }
        }
    }
}

} // verus!
