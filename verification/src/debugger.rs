//! The ptrace-level session: the debuggee and the command dispatcher.
//!
//! A [`Debuggee`] owns the tracee's pid, the breakpoint map and the loaded
//! debug information; a [`Debugger`] owns at most one debuggee and pumps
//! commands from the user interface. The central invariant is breakpoint
//! transparency: before every resume, a breakpoint under the instruction
//! pointer is stepped over — the instruction pointer is rewound onto the
//! patched byte, the original byte is restored, one step is executed, and
//! the breakpoint is re-armed.

use vstd::prelude::*;

use std::collections::HashMap;

use crate::addr::{Addr, Word};
use crate::breakpoint::Breakpoint;
use crate::dbginfo::{CMDebugInfo, OwnedSymbol, build_symbol_tree, symbols_with_name,
    find_function_by_addr, views_of, spec_forest_hits, spec_find_function};
use crate::disassemble::Disassembly;
use crate::errors::DebuggerError;
use crate::feedback::{Backtrace, Feedback};
use crate::mem::{mem_read, mem_read_word, mem_write_word};
use crate::regs::{Register, RegisterFile, spec_write_reg};
use crate::tracee::{MapEntry, Tracee, WaitEvent};
use crate::ui::{DebuggerUI, Status};

verus! {

broadcast use vstd::std_specs::hash::group_hash_axioms;

/// Upper bound on commands pumped in one session.
const COMMAND_LIMIT: usize = usize::MAX;

/// Upper bound on single steps taken by one stepping command.
const STEP_LIMIT: usize = 1048576;

/// Upper bound on frames walked for a backtrace.
const FRAME_LIMIT: usize = 256;

/// A live tracee with its breakpoints and debug information.
pub struct Debuggee {
    /// The tracee's pid.
    pub pid: i32,
    /// The installed breakpoints, keyed by absolute address.
    pub breakpoints: HashMap<u64, Breakpoint>,
    /// The loaded debug information of the executable.
    pub dbginfo: CMDebugInfo,
    /// The owned symbol tree, built at the first stop.
    pub symbols: Vec<OwnedSymbol>,
}

impl Debuggee {
    /// The breakpoint map's bookkeeping is consistent: every breakpoint
    /// is stored under its own address, belongs to this tracee, and is
    /// itself consistent.
    pub open spec fn wf(&self) -> bool {
        forall|k: u64| #[trigger] self.breakpoints@.contains_key(k) ==> {
            &&& self.breakpoints@[k].addr@ == k
            &&& self.breakpoints@[k].pid == self.pid
            &&& self.breakpoints@[k].wf()
        }
    }

    /// The installed breakpoints, by absolute address.
    pub open spec fn bp_map(&self) -> Map<u64, Breakpoint> {
        self.breakpoints@
    }

    /// A fresh debuggee for a just-launched tracee: no breakpoints, no
    /// symbols yet.
    pub fn new(pid: i32, dbginfo: CMDebugInfo) -> (d: Debuggee)
        ensures
            d.pid == pid,
            d.bp_map() == Map::<u64, Breakpoint>::empty(),
            d.wf(),
            d.symbols@.len() == 0,
    {
        let d = Debuggee { pid, breakpoints: HashMap::new(), dbginfo, symbols: Vec::new() };
        proof {
            assert(d.breakpoints@ =~= Map::<u64, Breakpoint>::empty());
        }
        d
    }

    /// Kills the tracee.
    pub fn kill<T: Tracee>(&self, t: &mut T) -> Result<(), DebuggerError> {
        t.kill(self.pid)
    }

    /// The tracee's memory map, from the tracing interface.
    pub fn get_process_map<T: Tracee>(&self, t: &mut T) -> Result<Vec<MapEntry>, DebuggerError> {
        t.process_map(self.pid)
    }

    /// The module base: the start of the map entry whose path is the
    /// executable's, or of the first entry when none matches (see
    /// [`select_base_entry`], which carries the exact selection
    /// contract). A tracee without a memory map reports an OS error
    /// (`ESRCH`: the process is gone).
    pub fn get_base_addr<T: Tracee>(&self, t: &mut T, executable_path: &String) -> Result<
        Addr,
        DebuggerError,
    > {
        let map = self.get_process_map(t)?;
        match select_base_entry(&map, executable_path) {
            Some(start) => Ok(Addr::new(start)),
            None => Err(DebuggerError::Os(3)),
        }
    }

    /// Builds the owned symbol tree for this debuggee against the current
    /// module base.
    pub fn load_symbols<T: Tracee>(&mut self, t: &mut T, executable_path: &String) -> (r: Result<
        (),
        DebuggerError,
    >)
        requires
            old(self).wf(),
        ensures
            final(self).wf(),
            final(self).pid == old(self).pid,
            final(self).bp_map() == old(self).bp_map(),
    {
        let base = self.get_base_addr(t, executable_path)?;
        let symbols = build_symbol_tree(&self.dbginfo.dwarf, base)?;
        self.symbols = symbols;
        Ok(())
    }

    /// Reads `len` bytes at `addr` and disassembles them as 64-bit code.
    pub fn disassemble<T: Tracee>(&self, t: &mut T, addr: Addr, len: usize) -> Result<
        Disassembly,
        DebuggerError,
    > {
        if len > u64::MAX as usize || addr.value() > u64::MAX - (len as u64) {
            return Err(DebuggerError::Os(14));
        }
        let mut data_raw: Vec<u8> = Vec::new();
        data_raw.resize(len, 0u8);
        mem_read(&mut data_raw, t, self.pid, addr)?;
        Disassembly::disassemble(data_raw.as_slice(), addr)
    }

    /// Copies of the top-level symbols (the compile units). The query
    /// always succeeds.
    pub fn get_symbols(&self) -> (r: Result<Vec<OwnedSymbol>, DebuggerError>)
        ensures
            r is Ok,
            r matches Ok(ss) ==> views_of(ss@) == views_of(self.symbols@),
    {
        let mut out: Vec<OwnedSymbol> = Vec::new();
        let mut i: usize = 0;
        proof {
            crate::dbginfo::lemma_views_of(self.symbols@);
            assert(views_of(out@) =~= views_of(self.symbols@).take(0));
        }
        while i < self.symbols.len()
            invariant
                i <= self.symbols@.len(),
                views_of(out@) =~= views_of(self.symbols@).take(i as int),
            decreases self.symbols@.len() - i,
        {
            let ghost prev = out@;
            let copy = self.symbols[i].clone();
            out.push(copy);
            proof {
                crate::dbginfo::lemma_views_of_push(prev, copy);
                crate::dbginfo::lemma_views_of(self.symbols@);
                assert(views_of(out@) =~= views_of(self.symbols@).take(i as int + 1));
            }
            i = i + 1;
        }
        proof {
            assert(views_of(self.symbols@).take(self.symbols@.len() as int)
                =~= views_of(self.symbols@));
        }
        Ok(out)
    }

    /// Every symbol in the tree named exactly `name`, in depth-first
    /// pre-order. The query always succeeds.
    pub fn get_symbol_by_name(&self, name: &String) -> (r: Result<Vec<OwnedSymbol>, DebuggerError>)
        ensures
            r is Ok,
            r matches Ok(ss) ==> views_of(ss@) == spec_forest_hits(views_of(self.symbols@), 0, name@),
    {
        Ok(symbols_with_name(&self.symbols, name))
    }

    /// The function whose range `[low, high)` contains `addr`: the first
    /// such function of the symbol tree in depth-first pre-order, `None`
    /// when the address lies in no known function. The query always
    /// succeeds.
    pub fn get_function_by_addr(&self, addr: Addr) -> (r: Result<Option<OwnedSymbol>, DebuggerError>)
        ensures
            r is Ok,
            r matches Ok(o) ==> match o {
                Some(f) => spec_find_function(views_of(self.symbols@), 0, addr) == Some(f@),
                None => spec_find_function(views_of(self.symbols@), 0, addr) is None,
            },
    {
        Ok(find_function_by_addr(&self.symbols, addr))
    }

    /// Installs and arms a breakpoint at `addr`. Setting one where a
    /// breakpoint already exists is a no-op returning success that does
    /// not touch the tracee; arming a fresh one that fails to arm leaves
    /// the map unchanged.
    pub fn set_bp<T: Tracee>(&mut self, t: &mut T, addr: Addr) -> (r: Result<(), DebuggerError>)
        requires
            old(self).wf(),
        ensures
            final(self).wf(),
            final(self).pid == old(self).pid,
            final(self).symbols == old(self).symbols,
            r is Ok ==> final(self).bp_map().contains_key(addr@),
            old(self).bp_map().contains_key(addr@) ==> (r is Ok
                && final(self).bp_map() == old(self).bp_map() && *final(t) == *old(t)),
            r is Err ==> final(self).bp_map() == old(self).bp_map(),
            r is Ok ==> final(self).bp_map() =~= old(self).bp_map().insert(addr@,
                final(self).bp_map()[addr@]),
            (r is Ok && !old(self).bp_map().contains_key(addr@))
                ==> final(self).bp_map()[addr@].enabled,
    {
        if self.breakpoints.contains_key(&addr.value()) {
            proof {
                assert(self.bp_map() =~= self.bp_map().insert(addr@, self.bp_map()[addr@]));
            }
            return Ok(());
        }
        let mut bp = Breakpoint::new(self.pid, addr);
        bp.enable(t)?;
        self.breakpoints.insert(addr.value(), bp);
        Ok(())
    }

    /// Removes the breakpoint at `addr`, disabling it first when it is
    /// armed. Removing one that does not exist, or one that is not
    /// armed, always succeeds without touching the tracee; only
    /// disarming can fail, and then the breakpoint stays registered.
    pub fn del_bp<T: Tracee>(&mut self, t: &mut T, addr: Addr) -> (r: Result<(), DebuggerError>)
        requires
            old(self).wf(),
        ensures
            final(self).wf(),
            final(self).pid == old(self).pid,
            final(self).symbols == old(self).symbols,
            r is Ok ==> final(self).bp_map() =~= old(self).bp_map().remove(addr@),
            !old(self).bp_map().contains_key(addr@) ==> (r is Ok && *final(t) == *old(t)),
            (old(self).bp_map().contains_key(addr@) && !old(self).bp_map()[addr@].enabled)
                ==> (r is Ok && *final(t) == *old(t)),
            r is Err ==> final(self).bp_map().dom() =~= old(self).bp_map().dom(),
    {
        let bp_opt = self.breakpoints.remove(&addr.value());
        match bp_opt {
            None => Ok(()),
            Some(mut bp) => {
                if bp.is_enabled() {
                    match bp.disable(t) {
                        Ok(()) => Ok(()),
                        Err(e) => {
                            self.breakpoints.insert(addr.value(), bp);
                            Err(e)
                        }
                    }
                } else {
                    Ok(())
                }
            }
        }
    }

    /// Executes one instruction of the tracee.
    pub fn single_step<T: Tracee>(&self, t: &mut T) -> Result<(), DebuggerError> {
        t.single_step(self.pid)
    }

    /// The breakpoint-transparency step, run before every resume. If an
    /// armed breakpoint sits one byte behind the instruction pointer (the
    /// tracee just executed its int3), the instruction pointer is rewound
    /// onto the breakpoint, the original byte is restored, one single
    /// step executes it, and the breakpoint is re-armed. The set of
    /// installed breakpoints never changes; on success every previously
    /// armed breakpoint is armed again.
    pub fn step_over_bp<T: Tracee>(&mut self, t: &mut T) -> (r: Result<(), DebuggerError>)
        requires
            old(self).wf(),
        ensures
            final(self).wf(),
            final(self).pid == old(self).pid,
            final(self).symbols == old(self).symbols,
            final(self).bp_map().dom() =~= old(self).bp_map().dom(),
            forall|k: u64| #[trigger] old(self).bp_map().contains_key(k)
                ==> final(self).bp_map()[k].addr == old(self).bp_map()[k].addr,
            r is Ok ==> forall|k: u64| #[trigger] old(self).bp_map().contains_key(k)
                && old(self).bp_map()[k].enabled ==> final(self).bp_map()[k].enabled,
    {
        let regs = t.get_regs(self.pid)?;
        let rip = regs.read(Register::rip);
        if rip == 0 {
            return Ok(());
        }
        let probe: u64 = rip - 1;
        let bp_opt = self.breakpoints.remove(&probe);
        let mut bp = match bp_opt {
            None => {
                proof {
                    assert(final(self).bp_map() =~= old(self).bp_map());
                }
                return Ok(());
            }
            Some(b) => b,
        };
        if !bp.is_enabled() {
            self.breakpoints.insert(probe, bp);
            proof {
                assert(final(self).bp_map() =~= old(self).bp_map());
            }
            return Ok(());
        }
        // rewind the instruction pointer onto the patched instruction
        let mut new_regs = regs;
        new_regs.write(Register::rip, probe);
        match t.set_regs(self.pid, &new_regs) {
            Ok(()) => {}
            Err(e) => {
                self.breakpoints.insert(probe, bp);
                proof {
                    assert(final(self).bp_map() =~= old(self).bp_map());
                }
                return Err(e);
            }
        }
        match bp.disable(t) {
            Ok(()) => {}
            Err(e) => {
                self.breakpoints.insert(probe, bp);
                return Err(e);
            }
        }
        let step_res = self.single_step(t);
        let wait_res: Result<WaitEvent, DebuggerError> = match step_res {
            Ok(()) => t.wait(self.pid),
            Err(e) => Err(e),
        };
        let enable_res = bp.enable(t);
        self.breakpoints.insert(probe, bp);
        match (wait_res, enable_res) {
            (Ok(_), Ok(())) => Ok(()),
            (Err(e), _) => Err(e),
            (_, Err(e)) => Err(e),
        }
    }

    /// Resumes the tracee (stepping over a breakpoint under the
    /// instruction pointer first, re-injecting `signal` if one is given)
    /// and waits for the next stop.
    pub fn cont<T: Tracee>(&mut self, t: &mut T, signal: Option<i32>) -> (r: Result<
        WaitEvent,
        DebuggerError,
    >)
        requires
            old(self).wf(),
        ensures
            final(self).wf(),
            final(self).pid == old(self).pid,
            final(self).bp_map().dom() =~= old(self).bp_map().dom(),
    {
        self.step_over_bp(t)?;
        t.cont(self.pid, signal)?;
        t.wait(self.pid)
    }
}

/// The start of the first map entry at or after `from` whose path is
/// `path`, if any.
pub open spec fn spec_first_path_match(ms: Seq<MapEntry>, from: int, path: Seq<char>) -> Option<u64>
    decreases ms.len() - from,
{
    if from < 0 || from >= ms.len() {
        None
    } else if ms[from].path@ == path {
        Some(ms[from].start)
    } else {
        spec_first_path_match(ms, from + 1, path)
    }
}

/// What `select_base_entry` returns: the start of the first entry whose
/// path matches the executable, else the first entry's start, else
/// nothing for an empty map.
pub open spec fn spec_base_entry(ms: Seq<MapEntry>, path: Seq<char>) -> Option<u64> {
    match spec_first_path_match(ms, 0, path) {
        Some(start) => Some(start),
        None => if ms.len() > 0 {
            Some(ms[0].start)
        } else {
            None
        },
    }
}

/// Picks the module base from a memory map: the start of the first entry
/// whose path is the executable's, the first entry's start when none
/// matches, and nothing for an empty map.
pub fn select_base_entry(map: &Vec<MapEntry>, executable_path: &String) -> (r: Option<u64>)
    ensures
        r == spec_base_entry(map@, executable_path@),
{
    let mut i: usize = 0;
    proof {
        assert(spec_first_path_match(map@, 0, executable_path@)
            == spec_first_path_match(map@, 0, executable_path@));
    }
    while i < map.len()
        invariant
            i <= map@.len(),
            spec_first_path_match(map@, i as int, executable_path@)
                == spec_first_path_match(map@, 0, executable_path@),
            forall|j: int| 0 <= j < i ==> #[trigger] map@[j].path@ != executable_path@,
        decreases map@.len() - i,
    {
        if map[i].path.eq(executable_path) {
            return Some(map[i].start);
        }
        i = i + 1;
    }
    if map.len() > 0 {
        Some(map[0].start)
    } else {
        None
    }
}

/// Converts one stop report into the feedback the dispatcher owes for
/// it: an exit carries its code verbatim as `Exit`; every other stop is
/// plain success.
pub fn feedback_of_stop(event: WaitEvent) -> (r: Feedback)
    ensures
        event matches WaitEvent::Exited(code) ==> (r matches Feedback::Exit(c) && c == code),
        !(event is Exited) ==> r is Success,
{
    match event {
        WaitEvent::Exited(code) => Feedback::Exit(code),
        _ => Feedback::Success,
    }
}

/// The debugger: at most one debuggee, the path it was launched from, and
/// the user interface that drives it.
pub struct Debugger<UI: DebuggerUI> {
    /// The path of the executable being debugged.
    pub executable_path: String,
    /// The live debuggee, if one was launched and has not exited.
    pub debuggee: Option<Debuggee>,
    /// The user interface commands are pumped from.
    pub ui: UI,
}

/// Whether a debugger's debuggee, if any, is consistent.
pub open spec fn debugger_wf<UI: DebuggerUI>(d: &Debugger<UI>) -> bool {
    match d.debuggee {
        Some(dbge) => dbge.wf(),
        None => true,
    }
}

/// The launch-validation decision: a missing target is
/// `ExecutableDoesNotExist`, a target that is no regular file is
/// `ExecutableIsNotAFile`, carrying the path either way.
pub fn validate_executable(exists: bool, is_file: bool, path: &String) -> (r: Result<
    (),
    DebuggerError,
>)
    ensures
        !exists ==> (r matches Err(e) && e matches DebuggerError::ExecutableDoesNotExist(p)
            && p@ == path@),
        (exists && !is_file) ==> (r matches Err(e)
            && e matches DebuggerError::ExecutableIsNotAFile(p) && p@ == path@),
        (exists && is_file) ==> r is Ok,
{
    if !exists {
        Err(DebuggerError::ExecutableDoesNotExist(path.clone()))
    } else if !is_file {
        Err(DebuggerError::ExecutableIsNotAFile(path.clone()))
    } else {
        Ok(())
    }
}

impl<UI: DebuggerUI> Debugger<UI> {
    /// A debugger for the given target, with no debuggee yet. Building
    /// always succeeds.
    pub fn build(executable_path: String, ui: UI) -> (r: Result<Debugger<UI>, DebuggerError>)
        ensures
            r is Ok,
            r matches Ok(d) ==> (d.debuggee is None && d.executable_path@ == executable_path@
                && debugger_wf(&d)),
    {
        Ok(Debugger { debuggee: None, ui, executable_path })
    }

    /// The `NoDebugee` guard: exactly when no debuggee exists.
    fn err_if_no_debuggee(&self) -> (r: Result<(), DebuggerError>)
        ensures
            self.debuggee is Some <==> r is Ok,
            self.debuggee is None ==> (r matches Err(e) && e is NoDebugee),
    {
        if self.debuggee.is_none() {
            Err(DebuggerError::NoDebugee)
        } else {
            Ok(())
        }
    }

    /// Launches the target: validates the path, loads the debug
    /// information from the executable image in `data`, forks and
    /// executes the target under tracing, and records the new debuggee.
    /// Launching while a debuggee exists is `AlreadyRunning`; a failed
    /// launch leaves the debugger unchanged, and a successful one yields
    /// a fresh debuggee with no breakpoints and no symbols yet.
    pub fn launch_debuggee<T: Tracee>(&mut self, t: &mut T, args: &Vec<String>, data: &[u8]) -> (r:
        Result<(), DebuggerError>)
        requires
            debugger_wf(old(self)),
        ensures
            debugger_wf(final(self)),
            old(self).debuggee is Some ==> (r matches Err(e) && e is AlreadyRunning),
            r is Err ==> final(self).debuggee == old(self).debuggee,
            r is Ok ==> (final(self).debuggee matches Some(d)
                && d.bp_map() =~= Map::<u64, Breakpoint>::empty() && d.symbols@.len() == 0),
            final(self).executable_path == old(self).executable_path,
    {
        if self.debuggee.is_some() {
            return Err(DebuggerError::AlreadyRunning);
        }
        let (exists, is_file) = t.path_status(self.executable_path.as_str());
        validate_executable(exists, is_file, &self.executable_path)?;
        let dbginfo = CMDebugInfo::build(data)?;
        let pid = t.launch(self.executable_path.as_str(), args)?;
        self.debuggee = Some(Debuggee::new(pid, dbginfo));
        Ok(())
    }

    /// Blocks until the debuggee changes state and reports the stop.
    pub fn wait<T: Tracee>(&self, t: &mut T) -> (r: Result<WaitEvent, DebuggerError>)
        ensures
            self.debuggee is None ==> (r matches Err(e) && e is NoDebugee),
    {
        self.err_if_no_debuggee()?;
        match &self.debuggee {
            Some(dbge) => t.wait(dbge.pid),
            None => Err(DebuggerError::NoDebugee),
        }
    }

    /// The command pump: waits for the initial trace-stop, builds the
    /// symbol tree, then repeats one cycle per command — solicit a
    /// command from the user interface, execute it, convert the outcome
    /// into feedback (success verbatim, an error as `Feedback::Error`,
    /// exactly as `Feedback::from` states) — until the interface quits
    /// with `Ok` or itself fails with the error returned. A command
    /// error does not end the loop; whatever happens, the debugger's
    /// state stays consistent and its target path unchanged.
    pub fn run_debugger<T: Tracee>(&mut self, t: &mut T) -> (r: Result<(), DebuggerError>)
        requires
            debugger_wf(old(self)),
        ensures
            debugger_wf(final(self)),
    {
        self.wait(t)?;
        let path = self.executable_path.clone();
        match &mut self.debuggee {
            Some(dbge) => {
                dbge.load_symbols(t, &path)?;
            }
            None => {
                return Err(DebuggerError::NoDebugee);
            }
        }
        let mut feedback = Feedback::Success;
        let mut fuel: usize = COMMAND_LIMIT;
        while fuel > 0
            invariant
                debugger_wf(self),
            decreases fuel,
        {
            fuel = fuel - 1;
            let status = self.ui.process(&feedback)?;
            match status {
                Status::DebuggerQuit => {
                    break;
                }
                _ => {}
            }
            let outcome = self.dispatch(t, status);
            if matches!(outcome, Err(DebuggerError::Os(3))) {
                // ESRCH: the tracee is gone (it exited or was reaped);
                // the session continues without a debuggee
                self.debuggee = None;
            }
            feedback = Feedback::from(outcome);
        }
        Ok(())
    }

    /// Executes one command against the engine; the caller converts the
    /// outcome into feedback.
    fn dispatch<T: Tracee>(&mut self, t: &mut T, status: Status) -> (r: Result<
        Feedback,
        DebuggerError,
    >)
        requires
            debugger_wf(old(self)),
        ensures
            debugger_wf(final(self)),
    {
        match status {
            Status::DebuggerQuit => Ok(Feedback::Success),
            Status::Continue => self.cont(t, None),
            Status::SetBreakpoint(addr) => self.set_bp(t, addr),
            Status::DelBreakpoint(addr) => self.del_bp(t, addr),
            Status::DumpRegisters => self.dump_regs(t),
            Status::SetRegister(r, v) => self.set_reg(t, r, v),
            Status::WriteMem(a, v) => self.write_mem(t, a, v),
            Status::ReadMem(a) => self.read_mem(t, a),
            Status::DisassembleAt(a, l) => self.disassemble_at(t, a, l),
            Status::GetSymbolsByName(name) => self.get_symbol_by_name(&name),
            Status::Backtrace => self.backtrace(t),
            Status::StepSingle => self.single_step(t),
            Status::StepIn => self.step_in(t),
            Status::StepOver => self.step_over(t),
            Status::StepOut => self.step_out(t),
            Status::ReadVariable(expr) => self.read_variable(t, &expr),
            Status::WriteVariable(expr, value) => self.write_variable(t, &expr, value),
            Status::ProcMap => self.proc_map(t),
        }
    }

    /// Resumes the debuggee until the next stop. A breakpoint under the
    /// instruction pointer is stepped over first. A stop because the
    /// tracee exited yields `Exit` carrying the exit code verbatim (see
    /// [`feedback_of_stop`]) and forgets the debuggee; any other stop
    /// yields plain success.
    pub fn cont<T: Tracee>(&mut self, t: &mut T, signal: Option<i32>) -> (r: Result<
        Feedback,
        DebuggerError,
    >)
        requires
            debugger_wf(old(self)),
        ensures
            debugger_wf(final(self)),
            old(self).debuggee is None ==> (r matches Err(e) && e is NoDebugee),
            r matches Ok(f) ==> (f is Exit || f is Success),
            (r matches Ok(f) && f is Exit) ==> final(self).debuggee is None,
            (r matches Ok(f) && f is Success) ==> final(self).debuggee is Some,
    {
        self.err_if_no_debuggee()?;
        let event = match &mut self.debuggee {
            Some(dbge) => dbge.cont(t, signal)?,
            None => {
                return Err(DebuggerError::NoDebugee);
            }
        };
        if matches!(event, WaitEvent::Exited(_)) {
            self.debuggee = None;
        }
        Ok(feedback_of_stop(event))
    }

    /// Reports the full register bank of the stopped debuggee.
    pub fn dump_regs<T: Tracee>(&self, t: &mut T) -> (r: Result<Feedback, DebuggerError>)
        ensures
            self.debuggee is None ==> (r matches Err(e) && e is NoDebugee),
            r matches Ok(f) ==> f is Registers,
    {
        self.err_if_no_debuggee()?;
        match &self.debuggee {
            Some(dbge) => {
                let regs = t.get_regs(dbge.pid)?;
                Ok(Feedback::Registers(regs))
            }
            None => Err(DebuggerError::NoDebugee),
        }
    }

    /// Reads one register of the stopped debuggee by name, from a fresh
    /// snapshot of the bank.
    pub fn get_reg<T: Tracee>(&self, t: &mut T, r: Register) -> (res: Result<u64, DebuggerError>)
        ensures
            self.debuggee is None ==> (res matches Err(e) && e is NoDebugee),
    {
        self.err_if_no_debuggee()?;
        match &self.debuggee {
            Some(dbge) => {
                let regs = t.get_regs(dbge.pid)?;
                Ok(regs.read(r))
            }
            None => Err(DebuggerError::NoDebugee),
        }
    }

    /// Sets one register of the stopped debuggee by name: reads the whole
    /// bank once, updates the one register in the snapshot, and writes
    /// the whole bank back.
    pub fn set_reg<T: Tracee>(&self, t: &mut T, r: Register, v: u64) -> (res: Result<
        Feedback,
        DebuggerError,
    >)
        ensures
            self.debuggee is None ==> (res matches Err(e) && e is NoDebugee),
            res matches Ok(f) ==> f is Success,
    {
        self.err_if_no_debuggee()?;
        match &self.debuggee {
            Some(dbge) => {
                let mut regs = t.get_regs(dbge.pid)?;
                let ghost before = regs;
                regs.write(r, v);
                proof {
                    assert(regs == spec_write_reg(before, r, v));
                }
                t.set_regs(dbge.pid, &regs)?;
                Ok(Feedback::Success)
            }
            None => Err(DebuggerError::NoDebugee),
        }
    }

    /// Reads the machine word at `addr` in the debuggee.
    pub fn read_mem<T: Tracee>(&self, t: &mut T, addr: Addr) -> (r: Result<
        Feedback,
        DebuggerError,
    >)
        ensures
            self.debuggee is None ==> (r matches Err(e) && e is NoDebugee),
            r matches Ok(f) ==> f is Word,
    {
        self.err_if_no_debuggee()?;
        match &self.debuggee {
            Some(dbge) => {
                let w = mem_read_word(t, dbge.pid, addr)?;
                Ok(Feedback::Word(w))
            }
            None => Err(DebuggerError::NoDebugee),
        }
    }

    /// Writes one machine word at `addr` in the debuggee.
    pub fn write_mem<T: Tracee>(&self, t: &mut T, addr: Addr, value: Word) -> (r: Result<
        Feedback,
        DebuggerError,
    >)
        ensures
            self.debuggee is None ==> (r matches Err(e) && e is NoDebugee),
            r matches Ok(f) ==> f is Success,
    {
        self.err_if_no_debuggee()?;
        match &self.debuggee {
            Some(dbge) => {
                mem_write_word(t, dbge.pid, addr, value)?;
                Ok(Feedback::Success)
            }
            None => Err(DebuggerError::NoDebugee),
        }
    }

    /// Installs and arms a breakpoint at `addr` in the debuggee.
    pub fn set_bp<T: Tracee>(&mut self, t: &mut T, addr: Addr) -> (r: Result<
        Feedback,
        DebuggerError,
    >)
        requires
            debugger_wf(old(self)),
        ensures
            debugger_wf(final(self)),
            old(self).debuggee is None ==> (r matches Err(e) && e is NoDebugee),
            (r is Ok && old(self).debuggee is Some) ==> (final(self).debuggee matches Some(d)
                && d.bp_map().contains_key(addr@)),
            r matches Ok(f) ==> f is Success,
    {
        self.err_if_no_debuggee()?;
        match &mut self.debuggee {
            Some(dbge) => {
                dbge.set_bp(t, addr)?;
                Ok(Feedback::Success)
            }
            None => Err(DebuggerError::NoDebugee),
        }
    }

    /// Removes the breakpoint at `addr` from the debuggee, disarming it
    /// first if needed.
    pub fn del_bp<T: Tracee>(&mut self, t: &mut T, addr: Addr) -> (r: Result<
        Feedback,
        DebuggerError,
    >)
        requires
            debugger_wf(old(self)),
        ensures
            debugger_wf(final(self)),
            old(self).debuggee is None ==> (r matches Err(e) && e is NoDebugee),
            (r is Ok && old(self).debuggee is Some) ==> (final(self).debuggee matches Some(d)
                && !d.bp_map().contains_key(addr@)),
            r matches Ok(f) ==> f is Success,
    {
        self.err_if_no_debuggee()?;
        match &mut self.debuggee {
            Some(dbge) => {
                dbge.del_bp(t, addr)?;
                Ok(Feedback::Success)
            }
            None => Err(DebuggerError::NoDebugee),
        }
    }

    /// Executes exactly one instruction of the debuggee (stepping over a
    /// breakpoint under the instruction pointer first) and waits for the
    /// resulting trap.
    pub fn single_step<T: Tracee>(&mut self, t: &mut T) -> (r: Result<Feedback, DebuggerError>)
        requires
            debugger_wf(old(self)),
        ensures
            debugger_wf(final(self)),
            old(self).debuggee is None ==> (r matches Err(e) && e is NoDebugee),
            r matches Ok(f) ==> f is Success,
    {
        self.err_if_no_debuggee()?;
        match &mut self.debuggee {
            Some(dbge) => {
                dbge.step_over_bp(t)?;
                dbge.single_step(t)?;
                t.wait(dbge.pid)?;
                Ok(Feedback::Success)
            }
            None => Err(DebuggerError::NoDebugee),
        }
    }

    /// The breakpoint-transparency step on the current debuggee: run
    /// before every resume; see [`Debuggee::step_over_bp`].
    pub fn step_over_bp<T: Tracee>(&mut self, t: &mut T) -> (r: Result<(), DebuggerError>)
        requires
            debugger_wf(old(self)),
        ensures
            debugger_wf(final(self)),
            old(self).debuggee is None ==> (r matches Err(e) && e is NoDebugee),
    {
        self.err_if_no_debuggee()?;
        match &mut self.debuggee {
            Some(dbge) => dbge.step_over_bp(t),
            None => Err(DebuggerError::NoDebugee),
        }
    }

    /// Disassembles `len` bytes of the debuggee starting at `addr`.
    pub fn disassemble_at<T: Tracee>(&self, t: &mut T, addr: Addr, len: usize) -> (r: Result<
        Feedback,
        DebuggerError,
    >)
        ensures
            self.debuggee is None ==> (r matches Err(e) && e is NoDebugee),
            r matches Ok(f) ==> f is Disassembly,
    {
        self.err_if_no_debuggee()?;
        match &self.debuggee {
            Some(dbge) => {
                let d = dbge.disassemble(t, addr, len)?;
                Ok(Feedback::Disassembly(d))
            }
            None => Err(DebuggerError::NoDebugee),
        }
    }

    /// Finds the debug symbols named exactly `name`.
    pub fn get_symbol_by_name(&self, name: &String) -> (r: Result<Feedback, DebuggerError>)
        ensures
            self.debuggee is None ==> (r matches Err(e) && e is NoDebugee),
            r matches Ok(f) ==> f is Symbols,
    {
        self.err_if_no_debuggee()?;
        match &self.debuggee {
            Some(dbge) => {
                let symbols = dbge.get_symbol_by_name(name)?;
                Ok(Feedback::Symbols(symbols))
            }
            None => Err(DebuggerError::NoDebugee),
        }
    }

    /// Walks the frame-pointer chain of the stopped debuggee: the return
    /// address stored above each saved frame pointer, innermost first,
    /// until the chain ends or the frame limit is reached.
    pub fn backtrace<T: Tracee>(&self, t: &mut T) -> (r: Result<Feedback, DebuggerError>)
        ensures
            self.debuggee is None ==> (r matches Err(e) && e is NoDebugee),
            r matches Ok(f) ==> f is Backtrace,
    {
        self.err_if_no_debuggee()?;
        match &self.debuggee {
            Some(dbge) => {
                let frames = dbge.collect_backtrace(t)?;
                Ok(Feedback::Backtrace(Backtrace { frames }))
            }
            None => Err(DebuggerError::NoDebugee),
        }
    }

    /// Reports the debuggee's memory map.
    pub fn proc_map<T: Tracee>(&self, t: &mut T) -> (r: Result<Feedback, DebuggerError>)
        ensures
            self.debuggee is None ==> (r matches Err(e) && e is NoDebugee),
            r matches Ok(f) ==> f is ProcessMap,
    {
        self.err_if_no_debuggee()?;
        match &self.debuggee {
            Some(dbge) => {
                let map = dbge.get_process_map(t)?;
                Ok(Feedback::ProcessMap(map))
            }
            None => Err(DebuggerError::NoDebugee),
        }
    }

    /// Kills a live debuggee, if any, when the session ends.
    pub fn cleanup<T: Tracee>(&mut self, t: &mut T) -> Result<(), DebuggerError> {
        match &self.debuggee {
            Some(dbge) => dbge.kill(t),
            None => Ok(()),
        }
    }
}

/// Whether two optional source positions name the same file and line.
fn same_line(a: &Option<(String, u32)>, b: &Option<(String, u32)>) -> bool {
    match (a, b) {
        (Some(x), Some(y)) => x.0.eq(&y.0) && x.1 == y.1,
        (None, None) => true,
        _ => false,
    }
}

impl Debuggee {
    /// The source file and line under the instruction pointer, from the
    /// address-to-line index, when the line table has one.
    pub fn current_line<T: Tracee>(&self, t: &mut T, base: Addr) -> Result<
        Option<(String, u32)>,
        DebuggerError,
    > {
        let regs = t.get_regs(self.pid)?;
        let rip = regs.read(Register::rip);
        let rel = match Addr::new(rip).to_relative(base) {
            Some(r) => r,
            None => {
                return Ok(None);
            }
        };
        match crate::dwarf_parse::find_line(&self.dbginfo.linedata, rel) {
            Ok(l) => Ok(l),
            Err(msg) => Err(DebuggerError::Dwarf(msg)),
        }
    }
}

impl Debuggee {
    /// The return addresses of the live frames, innermost first: the
    /// instruction pointer, then the return address stored above each
    /// saved frame pointer, walking the frame-pointer chain until it
    /// ends or the frame limit is reached.
    pub fn collect_backtrace<T: Tracee>(&self, t: &mut T) -> (r: Result<Vec<Addr>, DebuggerError>)
        ensures
            r matches Ok(frames) ==> frames@.len() >= 1,
    {
        let regs = t.get_regs(self.pid)?;
        let mut frames: Vec<Addr> = Vec::new();
        frames.push(Addr::new(regs.read(Register::rip)));
        let mut rbp = regs.read(Register::rbp);
        let mut fuel: usize = FRAME_LIMIT;
        while fuel > 0
            invariant
                frames@.len() >= 1,
            decreases fuel,
        {
            fuel = fuel - 1;
            if rbp == 0 || rbp > u64::MAX - 8 {
                break;
            }
            let ret = mem_read_word(t, self.pid, Addr::new(rbp + 8))?;
            if ret == 0 {
                break;
            }
            frames.push(Addr::new(ret));
            rbp = mem_read_word(t, self.pid, Addr::new(rbp))?;
        }
        Ok(frames)
    }

    /// Single-steps (keeping breakpoints transparent) until the source
    /// line under the instruction pointer changes; with `stay_in_frame`,
    /// lines inside callees (a deeper stack) do not count.
    pub fn step_to_next_line<T: Tracee>(&mut self, t: &mut T, executable_path: &String,
        stay_in_frame: bool) -> (r: Result<(), DebuggerError>)
        requires
            old(self).wf(),
        ensures
            final(self).wf(),
            final(self).pid == old(self).pid,
    {
        let base = self.get_base_addr(t, executable_path)?;
        let start = self.current_line(t, base)?;
        let start_regs = t.get_regs(self.pid)?;
        let start_rsp = start_regs.read(Register::rsp);
        let mut fuel: usize = STEP_LIMIT;
        while fuel > 0
            invariant
                self.wf(),
                self.pid == old(self).pid,
            decreases fuel,
        {
            fuel = fuel - 1;
            self.step_over_bp(t)?;
            self.single_step(t)?;
            t.wait(self.pid)?;
            if stay_in_frame {
                let regs = t.get_regs(self.pid)?;
                if regs.read(Register::rsp) < start_rsp {
                    // inside a callee: keep stepping until it returns
                    continue;
                }
            }
            let now = self.current_line(t, base)?;
            if start.is_none() && now.is_none() {
                // no line information here: one instruction is the best
                // notion of "next line" there is
                break;
            }
            if now.is_some() && !same_line(&start, &now) {
                break;
            }
        }
        Ok(())
    }
}

impl<UI: DebuggerUI> Debugger<UI> {
    /// Steps to the next source line, following calls: single-steps
    /// (keeping breakpoints transparent) until the line under the
    /// instruction pointer changes.
    pub fn step_in<T: Tracee>(&mut self, t: &mut T) -> (r: Result<Feedback, DebuggerError>)
        requires
            debugger_wf(old(self)),
        ensures
            debugger_wf(final(self)),
            old(self).debuggee is None ==> (r matches Err(e) && e is NoDebugee),
            r matches Ok(f) ==> f is Success,
    {
        self.err_if_no_debuggee()?;
        let path = self.executable_path.clone();
        match &mut self.debuggee {
            Some(dbge) => {
                dbge.step_to_next_line(t, &path, false)?;
                Ok(Feedback::Success)
            }
            None => Err(DebuggerError::NoDebugee),
        }
    }

    /// Steps to the next source line of the current frame, passing over
    /// calls: single-steps until the line changes while the stack is no
    /// deeper than at the start.
    pub fn step_over<T: Tracee>(&mut self, t: &mut T) -> (r: Result<Feedback, DebuggerError>)
        requires
            debugger_wf(old(self)),
        ensures
            debugger_wf(final(self)),
            old(self).debuggee is None ==> (r matches Err(e) && e is NoDebugee),
            r matches Ok(f) ==> f is Success,
    {
        self.err_if_no_debuggee()?;
        let path = self.executable_path.clone();
        match &mut self.debuggee {
            Some(dbge) => {
                dbge.step_to_next_line(t, &path, true)?;
                Ok(Feedback::Success)
            }
            None => Err(DebuggerError::NoDebugee),
        }
    }

    /// Runs until the current function returns: arms a temporary
    /// breakpoint at the return address stored in the current frame,
    /// continues, and removes it again. Stepping out of `main` is
    /// rejected with `StepOutMain`.
    pub fn step_out<T: Tracee>(&mut self, t: &mut T) -> (r: Result<Feedback, DebuggerError>)
        requires
            debugger_wf(old(self)),
        ensures
            debugger_wf(final(self)),
            old(self).debuggee is None ==> (r matches Err(e) && e is NoDebugee),
            r matches Ok(f) ==> (f is Success || f is Exit),
    {
        self.err_if_no_debuggee()?;
        let mut exited: Option<i32> = None;
        let outcome: Result<Feedback, DebuggerError> = match &mut self.debuggee {
            Some(dbge) => {
                let regs = t.get_regs(dbge.pid)?;
                let rip = regs.read(Register::rip);
                let fun = dbge.get_function_by_addr(Addr::new(rip))?;
                let main_name = "main".to_string();
                let in_main = match &fun {
                    Some(f) => match f.name() {
                        Some(n) => n.eq(&main_name),
                        None => false,
                    },
                    None => false,
                };
                if in_main {
                    Err(DebuggerError::StepOutMain)
                } else {
                    let rbp = regs.read(Register::rbp);
                    if rbp == 0 || rbp > u64::MAX - 8 {
                        Err(DebuggerError::NoFrameInfo)
                    } else {
                        let ret = mem_read_word(t, dbge.pid, Addr::new(rbp + 8))?;
                        let ret_addr = Addr::new(ret);
                        let had_bp = dbge.breakpoints.contains_key(&ret);
                        if !had_bp {
                            dbge.set_bp(t, ret_addr)?;
                        }
                        let event = dbge.cont(t, None)?;
                        match event {
                            WaitEvent::Exited(code) => {
                                exited = Some(code);
                                Ok(Feedback::Exit(code))
                            }
                            _ => {
                                if !had_bp {
                                    // the trap left rip one past the
                                    // int3: rewind onto the return
                                    // address and disarm the temporary
                                    // breakpoint
                                    let mut regs2 = t.get_regs(dbge.pid)?;
                                    regs2.write(Register::rip, ret);
                                    t.set_regs(dbge.pid, &regs2)?;
                                    dbge.del_bp(t, ret_addr)?;
                                }
                                Ok(Feedback::Success)
                            }
                        }
                    }
                }
            }
            None => Err(DebuggerError::NoDebugee),
        };
        if exited.is_some() {
            self.debuggee = None;
        }
        outcome
    }

    /// Reads the variable a textual expression names: the symbol tree is
    /// searched for exactly one symbol of that name, its location is
    /// evaluated against the live tracee, and the value is read from
    /// there.
    pub fn read_variable<T: Tracee>(&mut self, t: &mut T, expression: &String) -> (r: Result<
        Feedback,
        DebuggerError,
    >)
        requires
            debugger_wf(old(self)),
        ensures
            debugger_wf(final(self)),
            old(self).debuggee is None ==> (r matches Err(e) && e is NoDebugee),
            r matches Ok(f) ==> f is Variable,
    {
        self.err_if_no_debuggee()?;
        let path = self.executable_path.clone();
        match &mut self.debuggee {
            Some(dbge) => {
                let sym = dbge.select_unique_symbol(expression)?;
                let base = dbge.get_base_addr(t, &path)?;
                let frame_info = dbge.build_frame_info(t, base)?;
                let value = dbge.var_read(t, &sym, &frame_info, base)?;
                Ok(Feedback::Variable(value))
            }
            None => Err(DebuggerError::NoDebugee),
        }
    }

    /// Writes a value to the variable a textual expression names,
    /// resized to the variable's datatype width.
    pub fn write_variable<T: Tracee>(&mut self, t: &mut T, expression: &String, value: u64) -> (r:
        Result<Feedback, DebuggerError>)
        requires
            debugger_wf(old(self)),
        ensures
            debugger_wf(final(self)),
            old(self).debuggee is None ==> (r matches Err(e) && e is NoDebugee),
            r matches Ok(f) ==> f is Success,
    {
        self.err_if_no_debuggee()?;
        let path = self.executable_path.clone();
        match &mut self.debuggee {
            Some(dbge) => {
                let sym = dbge.select_unique_symbol(expression)?;
                let base = dbge.get_base_addr(t, &path)?;
                let frame_info = dbge.build_frame_info(t, base)?;
                dbge.var_write(t, &sym, &frame_info, base,
                    crate::variable::VariableValue::Other(value))?;
                Ok(Feedback::Success)
            }
            None => Err(DebuggerError::NoDebugee),
        }
    }
}

} // verus!
