//! Symbol tree queries, DWARF tag mapping, expression evaluation pieces
//! and disassembly.

use coreminer::addr::Addr;
use coreminer::dbginfo::{
    find_function_by_addr, symbols_with_name, LocListEntry, LocationAttr, OwnedSymbol, SymbolKind,
    UnitEncoding,
};
use coreminer::disassemble::Disassembly;
use coreminer::debugger::select_base_entry;
use coreminer::dwarf_parse::{
    decide_eval_step, eval_expression, select_loclist_entry, to_value, EvalAction, EvalStep,
    FrameInfo, MemValue, ResolvedLocation,
};
use coreminer::errors::DebuggerError;
use coreminer::regs::{register_from_dwarf, Register, RegisterFile};
use coreminer::variable::{frame_base_of_location, NumericValue};
use coreminer::tracee::{MapEntry, Tracee, WaitEvent};

/// A tracee with no memory at all: evaluation paths that do not touch
/// memory never notice.
struct NullTracee;

impl Tracee for NullTracee {
    fn launch(&mut self, _path: &str, _args: &Vec<String>) -> Result<i32, DebuggerError> {
        Err(DebuggerError::Os(38))
    }

    fn path_status(&mut self, _path: &str) -> (bool, bool) {
        (false, false)
    }

    fn peek_word(&mut self, _pid: i32, _addr: Addr) -> Result<u64, DebuggerError> {
        Err(DebuggerError::Os(14))
    }

    fn poke_word(&mut self, _pid: i32, _addr: Addr, _word: u64) -> Result<(), DebuggerError> {
        Err(DebuggerError::Os(14))
    }

    fn get_regs(&mut self, _pid: i32) -> Result<RegisterFile, DebuggerError> {
        Ok(RegisterFile::default())
    }

    fn set_regs(&mut self, _pid: i32, _regs: &RegisterFile) -> Result<(), DebuggerError> {
        Ok(())
    }

    fn cont(&mut self, _pid: i32, _signal: Option<i32>) -> Result<(), DebuggerError> {
        Ok(())
    }

    fn single_step(&mut self, _pid: i32) -> Result<(), DebuggerError> {
        Ok(())
    }

    fn kill(&mut self, _pid: i32) -> Result<(), DebuggerError> {
        Ok(())
    }

    fn wait(&mut self, _pid: i32) -> Result<WaitEvent, DebuggerError> {
        Ok(WaitEvent::Other)
    }

    fn process_map(&mut self, _pid: i32) -> Result<Vec<MapEntry>, DebuggerError> {
        Ok(Vec::new())
    }
}

fn enc() -> UnitEncoding {
    UnitEncoding { version: 4, address_size: 8, is_dwarf64: false }
}

fn named(offset: usize, kind: SymbolKind, name: &str) -> OwnedSymbol {
    let mut s = OwnedSymbol::new(offset, kind, Vec::new(), enc());
    s.set_name(Some(String::from(name)));
    s
}

#[test]
fn tag_codes_map_to_symbol_kinds() {
    assert_eq!(SymbolKind::from_tag(0x11), SymbolKind::CompileUnit);
    assert_eq!(SymbolKind::from_tag(0x2e), SymbolKind::Function);
    assert_eq!(SymbolKind::from_tag(0x34), SymbolKind::Variable);
    assert_eq!(SymbolKind::from_tag(0x27), SymbolKind::Constant);
    assert_eq!(SymbolKind::from_tag(0x05), SymbolKind::Parameter);
    assert_eq!(SymbolKind::from_tag(0x24), SymbolKind::BaseType);
    assert_eq!(SymbolKind::from_tag(0x0b), SymbolKind::Block);
    assert_eq!(SymbolKind::from_tag(0x32), SymbolKind::Block);
    assert_eq!(SymbolKind::from_tag(0x25), SymbolKind::Block);
    assert_eq!(SymbolKind::from_tag(0x1a), SymbolKind::Block);
    assert_eq!(SymbolKind::from_tag(0x9999 as u16 & 0xffff), SymbolKind::Other);
}

#[test]
fn symbol_search_walks_the_tree_depth_first() {
    let mut unit = named(1, SymbolKind::CompileUnit, "unit");
    let mut f = named(2, SymbolKind::Function, "compute");
    let x1 = named(3, SymbolKind::Variable, "x");
    f.set_children(vec![x1]);
    let x2 = named(4, SymbolKind::Variable, "x");
    unit.set_children(vec![f, x2]);
    let forest = vec![unit];

    let hits = symbols_with_name(&forest, &String::from("x"));
    assert_eq!(hits.len(), 2);
    // depth-first pre-order: the nested one first
    assert_eq!(hits[0].offset(), 3);
    assert_eq!(hits[1].offset(), 4);

    let hits = symbols_with_name(&forest, &String::from("compute"));
    assert_eq!(hits.len(), 1);
    assert_eq!(hits[0].offset(), 2);

    let hits = symbols_with_name(&forest, &String::from("absent"));
    assert_eq!(hits.len(), 0);
}

#[test]
fn function_lookup_uses_half_open_range() {
    let mut unit = named(1, SymbolKind::CompileUnit, "unit");
    let mut f = named(2, SymbolKind::Function, "compute");
    f.set_low_addr(Some(Addr::new(0x1000)));
    f.set_high_addr(Some(Addr::new(0x1040)));
    unit.set_children(vec![f]);
    let forest = vec![unit];

    let hit = find_function_by_addr(&forest, Addr::new(0x1000)).unwrap();
    assert_eq!(hit.offset(), 2);
    let hit = find_function_by_addr(&forest, Addr::new(0x103F)).unwrap();
    assert_eq!(hit.offset(), 2);
    assert!(find_function_by_addr(&forest, Addr::new(0x1040)).is_none());
    assert!(find_function_by_addr(&forest, Addr::new(0x0FFF)).is_none());
}

#[test]
fn to_value_is_little_endian_and_rejects_odd_sizes() {
    assert_eq!(to_value(1, &vec![0x34]).unwrap(), MemValue::U8(0x34));
    assert_eq!(to_value(2, &vec![0x34, 0x12]).unwrap(), MemValue::U16(0x1234));
    assert_eq!(
        to_value(4, &vec![0x78, 0x56, 0x34, 0x12]).unwrap(),
        MemValue::U32(0x12345678)
    );
    assert_eq!(
        to_value(8, &vec![8, 7, 6, 5, 4, 3, 2, 1]).unwrap(),
        MemValue::U64(0x0102030405060708)
    );
    match to_value(3, &vec![1, 2, 3]) {
        Err(DebuggerError::UnsupportedMemorySize(3)) => {}
        other => panic!("expected a size error, got {:?}", other),
    }
}

#[test]
fn loclist_selection_picks_first_covering_entry() {
    let entries = vec![
        LocListEntry { begin: 0x10, end: 0x20, expr: vec![1] },
        LocListEntry { begin: 0x20, end: 0x30, expr: vec![2] },
        LocListEntry { begin: 0x15, end: 0x40, expr: vec![3] },
    ];
    assert_eq!(select_loclist_entry(&entries, 0x10).unwrap().expr, vec![1]);
    assert_eq!(select_loclist_entry(&entries, 0x1F).unwrap().expr, vec![1]);
    assert_eq!(select_loclist_entry(&entries, 0x20).unwrap().expr, vec![2]);
    // the first covering entry wins even when a later one also covers
    assert_eq!(select_loclist_entry(&entries, 0x25).unwrap().expr, vec![2]);
    assert_eq!(select_loclist_entry(&entries, 0x3F).unwrap().expr, vec![3]);
    assert!(select_loclist_entry(&entries, 0x40).is_none());
    assert!(select_loclist_entry(&entries, 0x05).is_none());
}

#[test]
fn dwarf_register_numbers_follow_the_abi() {
    assert_eq!(register_from_dwarf(0).unwrap(), Register::rax);
    assert_eq!(register_from_dwarf(1).unwrap(), Register::rdx);
    assert_eq!(register_from_dwarf(2).unwrap(), Register::rcx);
    assert_eq!(register_from_dwarf(3).unwrap(), Register::rbx);
    assert_eq!(register_from_dwarf(4).unwrap(), Register::rsi);
    assert_eq!(register_from_dwarf(5).unwrap(), Register::rdi);
    assert_eq!(register_from_dwarf(6).unwrap(), Register::rbp);
    assert_eq!(register_from_dwarf(7).unwrap(), Register::rsp);
    assert_eq!(register_from_dwarf(8).unwrap(), Register::r8);
    assert_eq!(register_from_dwarf(15).unwrap(), Register::r15);
    assert_eq!(register_from_dwarf(16).unwrap(), Register::rip);
    match register_from_dwarf(999) {
        Err(DebuggerError::UnimplementedRegister(999)) => {}
        other => panic!("expected an unimplemented-register error, got {:?}", other),
    }
}

#[test]
fn evaluating_unknown_dwarf_register_fails_with_its_number() {
    // DW_OP_bregx with ULEB register 999 and SLEB offset 0
    let bytecode: Vec<u8> = vec![0x92, 0xE7, 0x07, 0x00];
    let frame = FrameInfo { regs: RegisterFile::default(), frame_base: None };
    let mut t = NullTracee;
    match eval_expression(&mut t, 1, &bytecode, enc(), &frame, Addr::new(0)) {
        Err(DebuggerError::UnimplementedRegister(999)) => {}
        other => panic!("expected register 999 to be rejected, got {:?}", other.is_ok()),
    }
}

#[test]
fn evaluating_op_addr_relocates_against_the_base() {
    // DW_OP_addr 0x0000000000000100, relocated by base 0x7000
    let mut bytecode: Vec<u8> = vec![0x03];
    bytecode.extend_from_slice(&[0x00, 0x01, 0, 0, 0, 0, 0, 0]);
    let frame = FrameInfo { regs: RegisterFile::default(), frame_base: None };
    let mut t = NullTracee;
    match eval_expression(&mut t, 1, &bytecode, enc(), &frame, Addr::new(0x7000)).unwrap() {
        ResolvedLocation::Address(a) => assert_eq!(a.value(), 0x7100),
        other => panic!("expected an address location, got {:?}", other),
    }
}

#[test]
fn evaluating_frame_base_offset_uses_the_frame_info() {
    // DW_OP_fbreg with SLEB offset -8: the variable sits eight bytes
    // below the frame base
    let bytecode: Vec<u8> = vec![0x91, 0x78];
    let frame = FrameInfo {
        regs: RegisterFile::default(),
        frame_base: Some(Addr::new(0x9000)),
    };
    let mut t = NullTracee;
    match eval_expression(&mut t, 1, &bytecode, enc(), &frame, Addr::new(0)).unwrap() {
        ResolvedLocation::Address(a) => assert_eq!(a.value(), 0x8FF8),
        other => panic!("expected an address location, got {:?}", other),
    }
}

#[test]
fn evaluating_frame_base_without_frame_info_fails() {
    let bytecode: Vec<u8> = vec![0x91, 0x78];
    let frame = FrameInfo { regs: RegisterFile::default(), frame_base: None };
    let mut t = NullTracee;
    match eval_expression(&mut t, 1, &bytecode, enc(), &frame, Addr::new(0)) {
        Err(DebuggerError::NoFrameInfo) => {}
        other => panic!("expected a no-frame-info error, got {:?}", other.is_ok()),
    }
}

#[test]
fn evaluating_register_location_reads_the_snapshot() {
    // DW_OP_breg0 (rax) with offset 0 computes an address from rax
    let bytecode: Vec<u8> = vec![0x70, 0x00];
    let mut regs = RegisterFile::default();
    regs.rax = 0x4242;
    let frame = FrameInfo { regs, frame_base: None };
    let mut t = NullTracee;
    match eval_expression(&mut t, 1, &bytecode, enc(), &frame, Addr::new(0)).unwrap() {
        ResolvedLocation::Address(a) => assert_eq!(a.value(), 0x4242),
        other => panic!("expected an address location, got {:?}", other),
    }
}

#[test]
fn disassembly_decodes_real_bytes_with_unique_addresses() {
    // nop; ret; xor eax, eax
    let code: Vec<u8> = vec![0x90, 0xC3, 0x31, 0xC0];
    let d = Disassembly::disassemble(&code, Addr::new(0x4000)).unwrap();
    let lines = d.inner();
    assert_eq!(lines.len(), 3);
    assert_eq!(lines[0].0.value(), 0x4000);
    assert_eq!(lines[1].0.value(), 0x4001);
    assert_eq!(lines[2].0.value(), 0x4002);
    assert!(lines[0].1.to_lowercase().contains("nop"));
    assert!(lines[1].1.to_lowercase().contains("ret"));
    assert!(lines[2].1.to_lowercase().contains("xor"));
    assert!(d.has_entry_for(Addr::new(0x4001)));
    assert!(!d.has_entry_for(Addr::new(0x4005)));
    let _ = LocationAttr::Expr(vec![0x03]);
}

#[test]
fn eval_step_decisions_are_exact() {
    let frame = FrameInfo { regs: RegisterFile::default(), frame_base: None };
    let base = Addr::new(0x1000);

    assert!(matches!(
        decide_eval_step(EvalStep::Complete, &frame, base),
        EvalAction::Finish
    ));
    assert!(matches!(
        decide_eval_step(EvalStep::NeedsMemory { address: 0x40, size: 16 }, &frame, base),
        EvalAction::Fail(DebuggerError::UnsupportedMemorySize(16))
    ));
    assert!(matches!(
        decide_eval_step(EvalStep::NeedsMemory { address: 0x40, size: 4 }, &frame, base),
        EvalAction::FeedMemory { address: 0x40, size: 4 }
    ));
    let mut regs = RegisterFile::default();
    regs.rax = 77;
    let framed = FrameInfo { regs, frame_base: Some(Addr::new(0x2000)) };
    assert!(matches!(
        decide_eval_step(EvalStep::NeedsRegister { register: 0 }, &framed, base),
        EvalAction::FeedRegister { value: 77 }
    ));
    assert!(matches!(
        decide_eval_step(EvalStep::NeedsRegister { register: 999 }, &framed, base),
        EvalAction::Fail(DebuggerError::UnimplementedRegister(999))
    ));
    assert!(matches!(
        decide_eval_step(EvalStep::NeedsFrameBase, &frame, base),
        EvalAction::Fail(DebuggerError::NoFrameInfo)
    ));
    assert!(matches!(
        decide_eval_step(EvalStep::NeedsFrameBase, &framed, base),
        EvalAction::FeedFrameBase { value: 0x2000 }
    ));
    assert!(matches!(
        decide_eval_step(EvalStep::NeedsRelocatedAddress { address: 0x20 }, &frame, base),
        EvalAction::FeedRelocated { value: 0x1020 }
    ));
    assert!(matches!(
        decide_eval_step(
            EvalStep::NeedsRelocatedAddress { address: u64::MAX - 1 },
            &frame,
            base
        ),
        EvalAction::Fail(DebuggerError::UnsupportedDwarfRequest)
    ));
    assert!(matches!(
        decide_eval_step(EvalStep::Unsupported, &frame, base),
        EvalAction::Fail(DebuggerError::UnsupportedDwarfRequest)
    ));
}

#[test]
fn base_entry_selection_prefers_the_matching_path() {
    let entry = |start: u64, path: &str| MapEntry {
        start,
        end: start + 0x1000,
        readable: true,
        writable: false,
        executable: true,
        path: String::from(path),
    };
    let target = String::from("/bin/target");

    // a later entry matching the executable wins over the first entry
    let map = vec![entry(0x1000, "/lib/ld.so"), entry(0x5000, "/bin/target")];
    assert_eq!(select_base_entry(&map, &target), Some(0x5000));

    // without a match, the first entry's start is the base
    let map = vec![entry(0x1000, "/lib/ld.so"), entry(0x5000, "/lib/libc.so")];
    assert_eq!(select_base_entry(&map, &target), Some(0x1000));

    // the first matching entry wins over later matches
    let map = vec![entry(0x3000, "/bin/target"), entry(0x7000, "/bin/target")];
    assert_eq!(select_base_entry(&map, &target), Some(0x3000));

    assert_eq!(select_base_entry(&vec![], &target), None);
}

#[test]
fn frame_base_decision_is_exact() {
    let mut regs = RegisterFile::default();
    regs.rbp = 0x7000;

    let r = frame_base_of_location(ResolvedLocation::Address(Addr::new(0x4000)), &regs);
    assert_eq!(r.unwrap().value(), 0x4000);

    let r = frame_base_of_location(ResolvedLocation::Register(Register::rbp), &regs);
    assert_eq!(r.unwrap().value(), 0x7000);

    let r = frame_base_of_location(
        ResolvedLocation::Value(NumericValue::Generic(0x1234)),
        &regs,
    );
    assert_eq!(r.unwrap().value(), 0x1234);

    let r = frame_base_of_location(ResolvedLocation::Value(NumericValue::U8(9)), &regs);
    assert!(r.is_none());

    let r = frame_base_of_location(ResolvedLocation::Empty, &regs);
    assert!(r.is_none());
}
