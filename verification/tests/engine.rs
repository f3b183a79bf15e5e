//! Engine tests against an in-memory tracee.

use coreminer::addr::Addr;
use coreminer::breakpoint::Breakpoint;
use coreminer::errors::DebuggerError;
use coreminer::mem::{mem_read, mem_write, splice_into_word};
use coreminer::regs::{Register, RegisterFile};
use coreminer::tracee::{MapEntry, Tracee, WaitEvent};
use coreminer::debugger::{Debugger, Debuggee};
use coreminer::dbginfo::{CMDebugInfo, LocationAttr, OwnedSymbol, SymbolKind, UnitEncoding};
use coreminer::variable::VariableValue;
use coreminer::feedback::Feedback;
use coreminer::ui::{DebuggerUI, Status};


/// A tracee that lives in a byte buffer: memory starts at `base`, the
/// register bank is plain state, and wait events are replayed from a
/// script.
pub struct MockTracee {
    pub base: u64,
    pub memory: Vec<u8>,
    pub regs: RegisterFile,
    pub events: Vec<WaitEvent>,
    pub next_event: usize,
    pub steps: usize,
    pub conts: usize,
    pub killed: bool,
}

impl MockTracee {
    pub fn new(base: u64, size: usize) -> Self {
        MockTracee {
            base,
            memory: vec![0; size],
            regs: RegisterFile::default(),
            events: Vec::new(),
            next_event: 0,
            steps: 0,
            conts: 0,
            killed: false,
        }
    }

    fn offset(&self, addr: Addr) -> Result<usize, DebuggerError> {
        let a = addr.value();
        if a < self.base || (a - self.base) as usize + 8 > self.memory.len() {
            return Err(DebuggerError::Os(14));
        }
        Ok((a - self.base) as usize)
    }

    pub fn byte_at(&self, addr: u64) -> u8 {
        self.memory[(addr - self.base) as usize]
    }
}

impl Tracee for MockTracee {
    fn launch(&mut self, _path: &str, _args: &Vec<String>) -> Result<i32, DebuggerError> {
        Ok(4242)
    }

    fn path_status(&mut self, _path: &str) -> (bool, bool) {
        (true, true)
    }

    fn peek_word(&mut self, _pid: i32, addr: Addr) -> Result<u64, DebuggerError> {
        let off = self.offset(addr)?;
        let mut w: u64 = 0;
        for i in (0..8).rev() {
            w = (w << 8) | self.memory[off + i] as u64;
        }
        Ok(w)
    }

    fn poke_word(&mut self, _pid: i32, addr: Addr, word: u64) -> Result<(), DebuggerError> {
        let off = self.offset(addr)?;
        for i in 0..8 {
            self.memory[off + i] = ((word >> (8 * i)) & 0xff) as u8;
        }
        Ok(())
    }

    fn get_regs(&mut self, _pid: i32) -> Result<RegisterFile, DebuggerError> {
        Ok(self.regs)
    }

    fn set_regs(&mut self, _pid: i32, regs: &RegisterFile) -> Result<(), DebuggerError> {
        self.regs = *regs;
        Ok(())
    }

    fn cont(&mut self, _pid: i32, _signal: Option<i32>) -> Result<(), DebuggerError> {
        self.conts += 1;
        Ok(())
    }

    fn single_step(&mut self, _pid: i32) -> Result<(), DebuggerError> {
        // one instruction executes; the mock advances the instruction
        // pointer by one byte, like a one-byte NOP
        self.steps += 1;
        self.regs.rip = self.regs.rip.wrapping_add(1);
        Ok(())
    }

    fn kill(&mut self, _pid: i32) -> Result<(), DebuggerError> {
        self.killed = true;
        Ok(())
    }

    fn wait(&mut self, _pid: i32) -> Result<WaitEvent, DebuggerError> {
        if self.next_event < self.events.len() {
            let e = self.events[self.next_event];
            self.next_event += 1;
            Ok(e)
        } else {
            Ok(WaitEvent::Stopped(5))
        }
    }

    fn process_map(&mut self, _pid: i32) -> Result<Vec<MapEntry>, DebuggerError> {
        Ok(vec![MapEntry {
            start: self.base,
            end: self.base + self.memory.len() as u64,
            readable: true,
            writable: true,
            executable: true,
            path: String::from("/tmp/target"),
        }])
    }
}

const BASE: u64 = 0x1000;

#[test]
fn breakpoint_enable_patches_int3_and_disable_restores() {
    let mut t = MockTracee::new(BASE, 64);
    for i in 0..64 {
        t.memory[i] = i as u8;
    }
    let addr = Addr::new(BASE + 8);
    let original: Vec<u8> = t.memory.clone();

    let mut bp = Breakpoint::new(1, addr);
    assert!(!bp.is_enabled());
    bp.enable(&mut t).unwrap();
    assert!(bp.is_enabled());
    // the byte at the breakpoint is now int3, all others unchanged
    assert_eq!(t.byte_at(BASE + 8), 0xCC);
    for i in 0..64 {
        if i != 8 {
            assert_eq!(t.memory[i], original[i]);
        }
    }
    // saved byte is the original one
    assert_eq!(bp.saved_byte, Some(8));

    bp.disable(&mut t).unwrap();
    assert!(!bp.is_enabled());
    // memory is bitwise identical to the original
    assert_eq!(t.memory, original);
}

#[test]
fn breakpoint_double_enable_and_double_disable_are_errors() {
    let mut t = MockTracee::new(BASE, 64);
    let addr = Addr::new(BASE);
    let mut bp = Breakpoint::new(1, addr);

    bp.enable(&mut t).unwrap();
    let snapshot = t.memory.clone();
    let err = bp.enable(&mut t).unwrap_err();
    assert!(matches!(err, DebuggerError::BreakpointIsAlreadyEnabled));
    assert_eq!(t.memory, snapshot, "double enable must not touch memory");
    assert!(bp.is_enabled());

    bp.disable(&mut t).unwrap();
    let snapshot = t.memory.clone();
    let err = bp.disable(&mut t).unwrap_err();
    assert!(matches!(err, DebuggerError::BreakpointIsAlreadyDisabled));
    assert_eq!(t.memory, snapshot, "double disable must not touch memory");
    assert!(!bp.is_enabled());
}

#[test]
fn register_write_read_roundtrip_leaves_others_alone() {
    let mut rf = RegisterFile::default();
    rf.rax = 7;
    rf.rbx = 9;
    let before = rf;
    rf.write(Register::rcx, 0xDEAD_BEEF);
    assert_eq!(rf.read(Register::rcx), 0xDEAD_BEEF);
    assert_eq!(rf.read(Register::rax), before.rax);
    assert_eq!(rf.read(Register::rbx), before.rbx);
    assert_eq!(rf.read(Register::rip), before.rip);
}

#[test]
fn partial_word_write_preserves_neighbouring_bytes() {
    let mut t = MockTracee::new(BASE, 64);
    for i in 0..64 {
        t.memory[i] = 0xAA;
    }
    // write five bytes starting at an unaligned address
    let payload: Vec<u8> = vec![1, 2, 3, 4, 5];
    let n = mem_write(&payload, &mut t, 1, Addr::new(BASE + 3)).unwrap();
    assert_eq!(n, 5);
    for i in 0..3 {
        assert_eq!(t.memory[i], 0xAA, "byte below the range changed");
    }
    for i in 0..5 {
        assert_eq!(t.memory[3 + i], payload[i]);
    }
    for i in 8..64 {
        assert_eq!(t.memory[i], 0xAA, "byte above the range changed");
    }
}

#[test]
fn splice_into_word_is_byte_exact() {
    let w: u64 = 0x8877_6655_4433_2211;
    let src: Vec<u8> = vec![0xEE, 0xFF];
    let r = splice_into_word(w, 2, &src, 0, 2);
    assert_eq!(r, 0x8877_6655_FFEE_2211);
}

#[test]
fn mem_read_unaligned_roundtrip() {
    let mut t = MockTracee::new(BASE, 64);
    for i in 0..64 {
        t.memory[i] = (i * 3) as u8;
    }
    let mut buf: Vec<u8> = vec![0; 13];
    let n = mem_read(&mut buf, &mut t, 1, Addr::new(BASE + 5)).unwrap();
    assert_eq!(n, 13);
    for i in 0..13 {
        assert_eq!(buf[i], ((5 + i) * 3) as u8);
    }
}

#[test]
fn address_relative_roundtrip() {
    let base = Addr::new(0x5000);
    let addr = Addr::new(0x5A3C);
    let off = addr.to_relative(base).unwrap();
    assert_eq!(off, 0xA3C);
    let back = Addr::from_relative(base, off);
    assert_eq!(back.value(), addr.value());
    // below the base there is no relative offset
    assert_eq!(base.to_relative(addr), None);
}

/// A scripted user interface: hands out a fixed list of commands.
struct ScriptUI {
    commands: Vec<Status>,
    next: usize,
    pub seen: Vec<String>,
}

impl ScriptUI {
    fn new(commands: Vec<Status>) -> Self {
        ScriptUI { commands, next: 0, seen: Vec::new() }
    }
}

impl DebuggerUI for ScriptUI {
    fn process(&mut self, feedback: &Feedback) -> Result<Status, DebuggerError> {
        self.seen.push(format!("{:?}", feedback));
        if self.next < self.commands.len() {
            let i = self.next;
            self.next += 1;
            // commands are consumed in order; the script owns them
            Ok(std::mem::replace(&mut self.commands[i], Status::DebuggerQuit))
        } else {
            Ok(Status::DebuggerQuit)
        }
    }
}

/// A minimal but well-formed ELF64 image: just the file header, no
/// sections. The DWARF loader sees every debug section as empty.
fn minimal_elf() -> Vec<u8> {
    let mut e = vec![0u8; 64];
    e[0..4].copy_from_slice(&[0x7F, b'E', b'L', b'F']);
    e[4] = 2; // 64-bit
    e[5] = 1; // little-endian
    e[6] = 1; // version
    e[16] = 2; // ET_EXEC
    e[18] = 0x3E; // EM_X86_64
    e[20] = 1; // e_version
    e[52] = 64; // e_ehsize
    e
}

fn debuggee_with_mock() -> (Debuggee, MockTracee) {
    let data = minimal_elf();
    let dbginfo = CMDebugInfo::build(&data).unwrap();
    let t = MockTracee::new(BASE, 256);
    (Debuggee::new(7, dbginfo), t)
}

#[test]
fn dwarf_loads_from_minimal_elf_and_fails_on_garbage() {
    let data = minimal_elf();
    assert!(CMDebugInfo::build(&data).is_ok());
    let garbage = vec![1u8, 2, 3, 4, 5];
    match CMDebugInfo::build(&garbage) {
        Err(DebuggerError::Object(_)) => {}
        other => panic!("expected an object error, got {:?}", other.is_ok()),
    }
}

#[test]
fn set_bp_arms_and_del_bp_restores() {
    let (mut dbge, mut t) = debuggee_with_mock();
    for i in 0..256 {
        t.memory[i] = i as u8;
    }
    let addr = Addr::new(BASE + 16);
    dbge.set_bp(&mut t, addr).unwrap();
    assert_eq!(t.byte_at(BASE + 16), 0xCC);
    // setting the same breakpoint again is a no-op success
    dbge.set_bp(&mut t, addr).unwrap();
    assert_eq!(t.byte_at(BASE + 16), 0xCC);
    dbge.del_bp(&mut t, addr).unwrap();
    assert_eq!(t.byte_at(BASE + 16), 16);
    // deleting a breakpoint that does not exist is a no-op success
    dbge.del_bp(&mut t, addr).unwrap();
}

#[test]
fn step_over_bp_is_transparent() {
    // a breakpoint was hit: memory at A holds 0xCC, rip == A + 1
    let (mut dbge, mut t) = debuggee_with_mock();
    for i in 0..256 {
        t.memory[i] = 0x90; // NOP sled
    }
    let a = BASE + 32;
    dbge.set_bp(&mut t, Addr::new(a)).unwrap();
    assert_eq!(t.byte_at(a), 0xCC);
    // the tracee executed the int3: its rip points one past the trap
    t.regs.rip = a + 1;

    dbge.step_over_bp(&mut t).unwrap();

    // the original instruction was executed exactly once
    assert_eq!(t.steps, 1);
    // the breakpoint is re-armed: the int3 byte is back
    assert_eq!(t.byte_at(a), 0xCC);
    // the instruction pointer was rewound to A before the step, and the
    // mock advanced it by one instruction
    assert_eq!(t.regs.rip, a + 1);
}

#[test]
fn step_over_bp_without_breakpoint_does_nothing() {
    let (mut dbge, mut t) = debuggee_with_mock();
    t.regs.rip = BASE + 5;
    dbge.step_over_bp(&mut t).unwrap();
    assert_eq!(t.steps, 0);
}

#[test]
fn continue_to_exit_reports_code_and_forgets_debuggee() {
    let data = minimal_elf();
    let ui = ScriptUI::new(vec![Status::Continue]);
    let mut debugger = Debugger::build(String::from("/tmp/target"), ui).unwrap();
    let mut t = MockTracee::new(BASE, 256);
    t.events = vec![
        WaitEvent::Stopped(5), // the post-exec trap
        WaitEvent::Exited(0),  // the continue runs to exit
    ];
    debugger.launch_debuggee(&mut t, &vec![], &data).unwrap();
    assert!(debugger.debuggee.is_some());
    debugger.run_debugger(&mut t).unwrap();
    // the exit feedback was handed to the UI and the debuggee is gone
    assert!(debugger.debuggee.is_none());
    let ui = &debugger.ui;
    assert!(ui.seen.iter().any(|s| s.contains("Exit(0)")));
}

#[test]
fn launch_twice_is_already_running() {
    let data = minimal_elf();
    let ui = ScriptUI::new(vec![]);
    let mut debugger = Debugger::build(String::from("/tmp/target"), ui).unwrap();
    let mut t = MockTracee::new(BASE, 64);
    debugger.launch_debuggee(&mut t, &vec![], &data).unwrap();
    let err = debugger.launch_debuggee(&mut t, &vec![], &data).unwrap_err();
    assert!(matches!(err, DebuggerError::AlreadyRunning));
}

#[test]
fn commands_without_debuggee_are_no_debugee_errors() {
    let ui = ScriptUI::new(vec![]);
    let mut debugger = Debugger::build(String::from("/tmp/target"), ui).unwrap();
    let mut t = MockTracee::new(BASE, 64);
    assert!(matches!(
        debugger.cont(&mut t, None).unwrap_err(),
        DebuggerError::NoDebugee
    ));
    assert!(matches!(
        debugger.read_mem(&mut t, Addr::new(BASE)).unwrap_err(),
        DebuggerError::NoDebugee
    ));
    assert!(matches!(
        debugger.dump_regs(&mut t).unwrap_err(),
        DebuggerError::NoDebugee
    ));
}

#[test]
fn memory_write_survives_continue() {
    let data = minimal_elf();
    let ui = ScriptUI::new(vec![]);
    let mut debugger = Debugger::build(String::from("/tmp/target"), ui).unwrap();
    let mut t = MockTracee::new(BASE, 256);
    t.events = vec![WaitEvent::Stopped(5), WaitEvent::Stopped(5)];
    debugger.launch_debuggee(&mut t, &vec![], &data).unwrap();
    let addr = Addr::new(BASE + 64);
    debugger.write_mem(&mut t, addr, 0xDEAD_BEEF_DEAD_BEEF).unwrap();
    debugger.cont(&mut t, None).unwrap();
    match debugger.read_mem(&mut t, addr).unwrap() {
        Feedback::Word(w) => assert_eq!(w, 0xDEAD_BEEF_DEAD_BEEF),
        other => panic!("expected a word, got {:?}", other),
    }
}

#[test]
fn set_reg_then_get_reg_roundtrip_via_tracee() {
    let (dbge, mut t) = debuggee_with_mock();
    let _ = &dbge;
    let ui = ScriptUI::new(vec![]);
    let mut debugger = Debugger::build(String::from("/tmp/target"), ui).unwrap();
    debugger.debuggee = Some(dbge);
    debugger.set_reg(&mut t, Register::r13, 0x1234_5678).unwrap();
    assert_eq!(debugger.get_reg(&mut t, Register::r13).unwrap(), 0x1234_5678);
    assert_eq!(debugger.get_reg(&mut t, Register::rax).unwrap(), 0);
}

#[test]
fn backtrace_walks_frame_pointer_chain() {
    let (dbge, mut t) = debuggee_with_mock();
    let ui = ScriptUI::new(vec![]);
    let mut debugger = Debugger::build(String::from("/tmp/target"), ui).unwrap();
    debugger.debuggee = Some(dbge);
    // one frame: rbp at BASE+128 holds (next rbp = 0, ret = BASE+7)
    t.regs.rip = BASE + 3;
    t.regs.rbp = BASE + 128;
    let frame = BASE + 128 - BASE;
    // next rbp (terminates the chain)
    for i in 0..8 {
        t.memory[frame as usize + i] = 0;
    }
    let ret = BASE + 7;
    for i in 0..8 {
        t.memory[frame as usize + 8 + i] = ((ret >> (8 * i)) & 0xff) as u8;
    }
    match debugger.backtrace(&mut t).unwrap() {
        Feedback::Backtrace(b) => {
            assert_eq!(b.frames.len(), 2);
            assert_eq!(b.frames[0].value(), BASE + 3);
            assert_eq!(b.frames[1].value(), BASE + 7);
        }
        other => panic!("expected a backtrace, got {:?}", other),
    }
}

#[test]
fn base_addr_prefers_matching_path_entry() {
    let (dbge, mut t) = debuggee_with_mock();
    let path = String::from("/tmp/target");
    let base = dbge.get_base_addr(&mut t, &path).unwrap();
    assert_eq!(base.value(), BASE);
}

#[test]
fn variable_read_and_write_through_dwarf_location() {
    let data = minimal_elf();
    let dbginfo = CMDebugInfo::build(&data).unwrap();
    let mut dbge = Debuggee::new(7, dbginfo);
    let mut t = MockTracee::new(BASE, 512);
    // the variable's value, 0x1234 little-endian, lives at BASE + 0x100
    t.memory[0x100] = 0x34;
    t.memory[0x101] = 0x12;

    let enc = UnitEncoding { version: 4, address_size: 8, is_dwarf64: false };
    let mut base_type = OwnedSymbol::new(0x30, SymbolKind::BaseType, Vec::new(), enc);
    base_type.set_name(Some(String::from("int")));
    base_type.set_byte_size(Some(4));
    let mut x = OwnedSymbol::new(0x40, SymbolKind::Variable, Vec::new(), enc);
    x.set_name(Some(String::from("x")));
    x.set_datatype(Some(0x30));
    // DW_OP_addr 0x100; relocation adds the module base
    x.set_location(Some(LocationAttr::Expr(vec![0x03, 0x00, 0x01, 0, 0, 0, 0, 0, 0])));
    let mut unit = OwnedSymbol::new(1, SymbolKind::CompileUnit, Vec::new(), enc);
    unit.set_name(Some(String::from("main.c")));
    unit.set_children(vec![base_type, x]);
    dbge.symbols = vec![unit];

    let path = String::from("/tmp/target");
    let module_base = dbge.get_base_addr(&mut t, &path).unwrap();
    assert_eq!(module_base.value(), BASE);
    let frame = dbge.build_frame_info(&mut t, module_base).unwrap();
    let sym = dbge.select_unique_symbol(&String::from("x")).unwrap();

    match dbge.var_read(&mut t, &sym, &frame, module_base).unwrap() {
        VariableValue::Bytes(b) => assert_eq!(b, vec![0x34, 0x12, 0x00, 0x00]),
        other => panic!("expected bytes, got {:?}", other),
    }

    dbge.var_write(&mut t, &sym, &frame, module_base, VariableValue::Other(0x77)).unwrap();
    assert_eq!(&t.memory[0x100..0x104], &[0x77, 0, 0, 0]);
    // surrounding memory is untouched
    assert_eq!(t.memory[0x0FF], 0);
    assert_eq!(t.memory[0x104], 0);
}

#[test]
fn variable_errors_are_exact() {
    let data = minimal_elf();
    let dbginfo = CMDebugInfo::build(&data).unwrap();
    let mut dbge = Debuggee::new(7, dbginfo);
    let mut t = MockTracee::new(BASE, 64);
    let enc = UnitEncoding { version: 4, address_size: 8, is_dwarf64: false };
    let frame = coreminer::dwarf_parse::FrameInfo {
        regs: RegisterFile::default(),
        frame_base: None,
    };
    let module_base = Addr::new(BASE);

    // a function symbol is the wrong kind for a variable read
    let f = {
        let mut f = OwnedSymbol::new(2, SymbolKind::Function, Vec::new(), enc);
        f.set_name(Some(String::from("f")));
        f
    };
    match dbge.var_read(&mut t, &f, &frame, module_base) {
        Err(DebuggerError::WrongSymbolKind(SymbolKind::Function)) => {}
        other => panic!("expected wrong-symbol-kind, got {:?}", other.is_ok()),
    }

    // a variable without a datatype
    let mut v = OwnedSymbol::new(3, SymbolKind::Variable, Vec::new(), enc);
    v.set_name(Some(String::from("v")));
    match dbge.var_read(&mut t, &v, &frame, module_base) {
        Err(DebuggerError::VariableSymbolNoType) => {}
        other => panic!("expected no-type, got {:?}", other.is_ok()),
    }

    // a variable with a datatype but no location
    v.set_datatype(Some(0x30));
    match dbge.var_read(&mut t, &v, &frame, module_base) {
        Err(DebuggerError::SymbolHasNoLocation) => {}
        other => panic!("expected no-location, got {:?}", other.is_ok()),
    }

    // no symbol of that name
    dbge.symbols = Vec::new();
    match dbge.select_unique_symbol(&String::from("nothing")) {
        Err(DebuggerError::VarExprReturnedNothing(n)) => assert_eq!(n, "nothing"),
        other => panic!("expected nothing-found, got {:?}", other.is_ok()),
    }
}

#[test]
fn single_step_command_advances_one_instruction() {
    let data = minimal_elf();
    let ui = ScriptUI::new(vec![]);
    let mut debugger = Debugger::build(String::from("/tmp/target"), ui).unwrap();
    let mut t = MockTracee::new(BASE, 64);
    debugger.launch_debuggee(&mut t, &vec![], &data).unwrap();
    t.regs.rip = BASE + 10;
    debugger.single_step(&mut t).unwrap();
    assert_eq!(t.steps, 1);
    assert_eq!(t.regs.rip, BASE + 11);
}

#[test]
fn cleanup_kills_a_live_debuggee() {
    let data = minimal_elf();
    let ui = ScriptUI::new(vec![]);
    let mut debugger = Debugger::build(String::from("/tmp/target"), ui).unwrap();
    let mut t = MockTracee::new(BASE, 64);
    debugger.launch_debuggee(&mut t, &vec![], &data).unwrap();
    debugger.cleanup(&mut t).unwrap();
    assert!(t.killed);
}

#[test]
fn word_byte_roundtrip_through_tracee_memory() {
    let mut t = MockTracee::new(BASE, 64);
    let w: u64 = 0x0123_4567_89AB_CDEF;
    t.poke_word(1, Addr::new(BASE + 16), w).unwrap();
    // little-endian byte order in memory
    assert_eq!(t.byte_at(BASE + 16), 0xEF);
    assert_eq!(t.byte_at(BASE + 23), 0x01);
    assert_eq!(t.peek_word(1, Addr::new(BASE + 16)).unwrap(), w);
}

#[test]
fn step_in_without_line_info_steps_once() {
    let data = minimal_elf();
    let ui = ScriptUI::new(vec![]);
    let mut debugger = Debugger::build(String::from("/tmp/target"), ui).unwrap();
    let mut t = MockTracee::new(BASE, 64);
    debugger.launch_debuggee(&mut t, &vec![], &data).unwrap();
    t.regs.rip = BASE + 4;
    // the minimal image has no line table, so stepping to the next line
    // degrades to exactly one instruction
    debugger.step_in(&mut t).unwrap();
    assert_eq!(t.steps, 1);
    assert_eq!(t.regs.rip, BASE + 5);
}

#[test]
fn breakpoint_at_queried_function_entry() {
    let data = minimal_elf();
    let dbginfo = CMDebugInfo::build(&data).unwrap();
    let mut dbge = Debuggee::new(7, dbginfo);
    let mut t = MockTracee::new(BASE, 256);
    for i in 0..256 {
        t.memory[i] = 0x90;
    }

    let enc = UnitEncoding { version: 4, address_size: 8, is_dwarf64: false };
    let mut main_fn = OwnedSymbol::new(0x10, SymbolKind::Function, Vec::new(), enc);
    main_fn.set_name(Some(String::from("main")));
    main_fn.set_low_addr(Some(Addr::new(BASE + 0x20)));
    main_fn.set_high_addr(Some(Addr::new(BASE + 0x40)));
    let mut unit = OwnedSymbol::new(1, SymbolKind::CompileUnit, Vec::new(), enc);
    unit.set_children(vec![main_fn]);
    dbge.symbols = vec![unit];

    // the query finds exactly one function symbol named main
    let hits = dbge.get_symbol_by_name(&String::from("main")).unwrap();
    assert_eq!(hits.len(), 1);
    assert_eq!(hits[0].kind(), SymbolKind::Function);
    let low = hits[0].low_addr().unwrap();

    // a breakpoint at its entry arms, and a hit there steps over
    // transparently: rip is rewound onto the entry before the step
    dbge.set_bp(&mut t, low).unwrap();
    assert_eq!(t.byte_at(low.value()), 0xCC);
    t.regs.rip = low.value() + 1;
    dbge.step_over_bp(&mut t).unwrap();
    assert_eq!(t.steps, 1);
    assert_eq!(t.byte_at(low.value()), 0xCC);

    // the address also resolves back to the function
    let f = dbge.get_function_by_addr(low).unwrap().unwrap();
    assert_eq!(f.offset(), 0x10);
}

#[test]
fn step_out_runs_to_the_return_address() {
    let data = minimal_elf();
    let dbginfo = CMDebugInfo::build(&data).unwrap();
    let mut dbge = Debuggee::new(7, dbginfo);
    let enc = UnitEncoding { version: 4, address_size: 8, is_dwarf64: false };
    let mut f = OwnedSymbol::new(0x10, SymbolKind::Function, Vec::new(), enc);
    f.set_name(Some(String::from("helper")));
    f.set_low_addr(Some(Addr::new(BASE + 0x20)));
    f.set_high_addr(Some(Addr::new(BASE + 0x40)));
    let mut unit = OwnedSymbol::new(1, SymbolKind::CompileUnit, Vec::new(), enc);
    unit.set_children(vec![f]);
    dbge.symbols = vec![unit];

    let ui = ScriptUI::new(vec![]);
    let mut debugger = Debugger::build(String::from("/tmp/target"), ui).unwrap();
    debugger.debuggee = Some(dbge);

    let mut t = MockTracee::new(BASE, 256);
    for i in 0..256 {
        t.memory[i] = 0x90;
    }
    let ret = BASE + 0x50;
    // stopped inside helper; the frame stores the return address at rbp+8
    t.regs.rip = BASE + 0x30;
    t.regs.rbp = BASE + 0x80;
    for i in 0..8 {
        t.memory[0x88 + i] = ((ret >> (8 * i)) & 0xff) as u8;
    }

    match debugger.step_out(&mut t).unwrap() {
        Feedback::Success => {}
        other => panic!("expected success, got {:?}", other),
    }
    // the tracee ran once, stopped at the return address, and the
    // temporary breakpoint is gone
    assert_eq!(t.conts, 1);
    assert_eq!(t.regs.rip, ret);
    assert_eq!(t.byte_at(ret), 0x90);
}

#[test]
fn step_out_of_main_is_rejected() {
    let data = minimal_elf();
    let dbginfo = CMDebugInfo::build(&data).unwrap();
    let mut dbge = Debuggee::new(7, dbginfo);
    let enc = UnitEncoding { version: 4, address_size: 8, is_dwarf64: false };
    let mut f = OwnedSymbol::new(0x10, SymbolKind::Function, Vec::new(), enc);
    f.set_name(Some(String::from("main")));
    f.set_low_addr(Some(Addr::new(BASE + 0x20)));
    f.set_high_addr(Some(Addr::new(BASE + 0x40)));
    let mut unit = OwnedSymbol::new(1, SymbolKind::CompileUnit, Vec::new(), enc);
    unit.set_children(vec![f]);
    dbge.symbols = vec![unit];

    let ui = ScriptUI::new(vec![]);
    let mut debugger = Debugger::build(String::from("/tmp/target"), ui).unwrap();
    debugger.debuggee = Some(dbge);

    let mut t = MockTracee::new(BASE, 256);
    t.regs.rip = BASE + 0x25;
    t.regs.rbp = BASE + 0x80;
    match debugger.step_out(&mut t) {
        Err(DebuggerError::StepOutMain) => {}
        other => panic!("expected step-out-of-main to be rejected, got {:?}", other.is_ok()),
    }
}
