use vstd::prelude::*;

use vstd::string::StringExecFns;

use crate::command_parser::DebuggerCommand;
use crate::common::REGISTERS_COUNT;
use crate::cpu::Cpu;
use crate::debug::{token_views, format_line, DebugToken, TokenView, TraceFormatter};
use crate::model::{with_register, VmState, VALUE_MASK};
use crate::notes::{register_note, register_note_string};
use crate::text::{decimal, decimal_string};
use crate::trace::{keep_last, TraceLog, TraceView, DEFAULT_TRACE_SIZE};

verus! {

/// Width of the instruction column of trace lines.
pub const INSTRUCTION_COLUMN: usize = 50;

/// Width of address and operand fields in trace lines.
pub const VALUE_COLUMN: usize = 9;

/// What the debugger holds: breakpoints, their switch, whether execution is
/// resuming from a breakpoint, and the trace.
pub struct DebugState {
    pub breakpoints: Seq<usize>,
    pub breakpoints_enabled: bool,
    pub resuming: bool,
    pub trace: TraceView,
}

/// Whether execution stops before the fetch at `cp`: breakpoints are on, one
/// is set at `cp`, and execution is not just resuming from it.
pub open spec fn breaks_here(d: DebugState, cp: int) -> bool {
    d.breakpoints_enabled && !d.resuming && d.breakpoints.contains(cp as usize)
}

/// The trace after one more record, when recording is on.
pub open spec fn traced(t: TraceView, line: Seq<char>) -> TraceView {
    if t.enabled {
        TraceView { lines: keep_last(t.lines.push(line), t.limit), ..t }
    } else {
        t
    }
}

/// The line a record becomes in the trace.
pub open spec fn trace_line(tokens: Seq<TokenView>) -> Seq<char> {
    format_line(tokens, INSTRUCTION_COLUMN as int, VALUE_COLUMN as int)
}

/// The debugger as it starts: no breakpoints, both switches off, an empty
/// trace of the default size.
pub open spec fn initial_debug_state() -> DebugState {
    DebugState {
        breakpoints: Seq::empty(),
        breakpoints_enabled: false,
        resuming: false,
        trace: TraceView { lines: Seq::empty(), limit: DEFAULT_TRACE_SIZE as int, enabled: false },
    }
}

/// Number of blank lines `clear` prints.
pub const CLEAR_LINES: usize = 40;

/// The breakpoints after setting one at `a`; setting it twice keeps one.
pub open spec fn with_breakpoint(bps: Seq<usize>, a: usize) -> Seq<usize> {
    if bps.contains(a) {
        bps
    } else {
        bps.push(a)
    }
}

/// The breakpoints after removing the one at `a`, in their order.
pub open spec fn without_breakpoint(bps: Seq<usize>, a: usize) -> Seq<usize>
    decreases bps.len(),
{
    if bps.len() == 0 {
        Seq::empty()
    } else {
        let rest = without_breakpoint(bps.drop_last(), a);
        if bps.last() == a {
            rest
        } else {
            rest.push(bps.last())
        }
    }
}

pub open spec fn unknown_command() -> Seq<char> {
    seq!['U', 'n', 'k', 'n', 'o', 'w', 'n', ' ', 'c', 'o', 'm', 'm', 'a', 'n', 'd']
}

pub open spec fn invalid_register() -> Seq<char> {
    seq!['I', 'n', 'v', 'a', 'l', 'i', 'd', ' ', 'r', 'e', 'g', 'i', 's', 't', 'e', 'r']
}

/// What a debugger command leaves behind: the machine, the debugger, the
/// lines to show, and whether execution resumes.
pub struct DebugOutcome {
    pub state: VmState,
    pub debug: DebugState,
    pub lines: Seq<Seq<char>>,
    pub resume: bool,
}

pub open spec fn respond(s: VmState, d: DebugState, lines: Seq<Seq<char>>) -> DebugOutcome {
    DebugOutcome { state: s, debug: d, lines, resume: false }
}

pub open spec fn with_trace(d: DebugState, t: TraceView) -> DebugState {
    DebugState { trace: t, ..d }
}

/// The effect of a debugger command on machine `s` and debugger `d`.
pub open spec fn run_command(cmd: DebuggerCommand, s: VmState, d: DebugState) -> DebugOutcome {
    let none = Seq::<Seq<char>>::empty();
    match cmd {
        DebuggerCommand::BreakpointsPrint => respond(
            s,
            d,
            d.breakpoints.map_values(|a: usize| decimal(a as nat)),
        ),
        DebuggerCommand::BreakpointAdd(a) => respond(
            s,
            DebugState { breakpoints: with_breakpoint(d.breakpoints, a), ..d },
            none,
        ),
        DebuggerCommand::BreakpointRemove(a) => respond(
            s,
            DebugState { breakpoints: without_breakpoint(d.breakpoints, a), ..d },
            none,
        ),
        DebuggerCommand::BreakpointsEnabled(b) => respond(
            s,
            DebugState { breakpoints_enabled: b, ..d },
            none,
        ),
        DebuggerCommand::RegistersPrint => respond(
            s,
            d,
            Seq::new(
                REGISTERS_COUNT as nat,
                |i: int| register_note(i as u16, s.registers[i]),
            ),
        ),
        DebuggerCommand::RegisterWrite(i, v) => if i < REGISTERS_COUNT {
            respond(with_register(s, i as u16, v & VALUE_MASK), d, none)
        } else {
            respond(s, d, seq![invalid_register()])
        },
        DebuggerCommand::StackSizePrint => respond(s, d, seq![decimal(s.stack.len())]),
        DebuggerCommand::StackPrint => respond(
            s,
            d,
            s.stack.map_values(|w: u16| decimal(w as nat)),
        ),
        DebuggerCommand::TracePrint => respond(s, d, d.trace.lines),
        DebuggerCommand::TraceEnabled(b) => respond(
            s,
            with_trace(d, TraceView { enabled: b, ..d.trace }),
            none,
        ),
        DebuggerCommand::TraceSizePrint => respond(s, d, seq![decimal(d.trace.lines.len())]),
        DebuggerCommand::TraceResize(n) => respond(
            s,
            with_trace(
                d,
                TraceView { lines: keep_last(d.trace.lines, n as int), limit: n as int, ..d.trace },
            ),
            none,
        ),
        DebuggerCommand::TraceClear => respond(
            s,
            with_trace(d, TraceView { lines: Seq::empty(), ..d.trace }),
            none,
        ),
        DebuggerCommand::CodePointerPrint => respond(s, d, seq![decimal(s.cp as nat)]),
        DebuggerCommand::CodePointerWrite(n) => respond(
            VmState { cp: n as int, ..s },
            DebugState { resuming: false, ..d },
            none,
        ),
        DebuggerCommand::ConsoleClear => respond(
            s,
            d,
            Seq::new(CLEAR_LINES as nat, |i: int| Seq::<char>::empty()),
        ),
        DebuggerCommand::Continue => DebugOutcome { resume: true, ..respond(s, d, none) },
        DebuggerCommand::Unknown => respond(s, d, seq![unknown_command()]),
    }
}

pub open spec fn line_views(lines: Seq<String>) -> Seq<Seq<char>> {
    lines.map_values(|l: String| l@)
}

/// The answer to a debugger command: lines to show, and whether to resume.
pub struct DebugReply {
    pub lines: Vec<String>,
    pub resume: bool,
}

/// Debugger state kept beside the processor.
pub struct Debugger {
    breakpoints: Vec<usize>,
    breakpoints_enabled: bool,
    resuming: bool,
    trace: TraceLog,
    formatter: TraceFormatter,
}

impl View for Debugger {
    type V = DebugState;

    closed spec fn view(&self) -> DebugState {
        DebugState {
            breakpoints: self.breakpoints@,
            breakpoints_enabled: self.breakpoints_enabled,
            resuming: self.resuming,
            trace: self.trace@,
        }
    }
}

impl Debugger {
    pub closed spec fn wf(&self) -> bool {
        &&& self.trace.wf()
        &&& self.formatter.spec_instr_width() == INSTRUCTION_COLUMN
        &&& self.formatter.spec_value_width() == VALUE_COLUMN
    }

    /// No breakpoints, both switches off, an empty trace of the default size.
    pub fn new() -> (r: Self)
        ensures
            r.wf(),
            r@ == initial_debug_state(),
    {
        let r = Debugger {
            breakpoints: Vec::new(),
            breakpoints_enabled: false,
            resuming: false,
            trace: TraceLog::new(DEFAULT_TRACE_SIZE),
            formatter: TraceFormatter::new(),
        };
        assert(r@.breakpoints =~= Seq::<usize>::empty());
        r
    }

    /// Whether execution stops before the fetch at `cp`.
    pub fn breaks_at(&self, cp: usize) -> (r: bool)
        ensures
            r == breaks_here(self@, cp as int),
    {
        if !self.breakpoints_enabled || self.resuming {
            return false;
        }
        let mut i: usize = 0;
        while i < self.breakpoints.len()
            invariant
                i <= self.breakpoints@.len(),
                self.breakpoints_enabled && !self.resuming,
                forall|j: int| 0 <= j < i ==> self.breakpoints@[j] != cp,
            decreases self.breakpoints@.len() - i,
        {
            if self.breakpoints[i] == cp {
                assert(self.breakpoints@[i as int] == cp);
                return true;
            }
            i = i + 1;
        }
        false
    }

    pub fn set_resuming(&mut self, resuming: bool)
        requires
            old(self).wf(),
        ensures
            final(self).wf(),
            final(self)@ == (DebugState { resuming, ..old(self)@ }),
    {
        self.resuming = resuming;
    }

    pub fn is_tracing(&self) -> (r: bool)
        ensures
            r == self@.trace.enabled,
    {
        self.trace.is_enabled()
    }

    /// Carries out a debugger command on the processor and the debugger.
    pub fn execute(&mut self, cpu: &mut Cpu, cmd: &DebuggerCommand) -> (r: DebugReply)
        requires
            old(self).wf(),
            old(cpu).wf(),
        ensures
            final(self).wf(),
            final(cpu).wf(),
            ({
                let o = run_command(*cmd, old(cpu)@, old(self)@);
                &&& final(cpu)@ == o.state
                &&& final(self)@ == o.debug
                &&& line_views(r.lines@) == o.lines
                &&& r.resume == o.resume
            }),
    {
        let mut lines: Vec<String> = Vec::new();
        let mut resume = false;
        match *cmd {
            DebuggerCommand::BreakpointsPrint => {
                lines = decimal_lines(&self.breakpoints);
            },
            DebuggerCommand::BreakpointAdd(a) => {
                self.add_breakpoint(a);
            },
            DebuggerCommand::BreakpointRemove(a) => {
                self.remove_breakpoint(a);
            },
            DebuggerCommand::BreakpointsEnabled(b) => {
                self.breakpoints_enabled = b;
            },
            DebuggerCommand::RegistersPrint => {
                lines = register_lines(cpu);
            },
            DebuggerCommand::RegisterWrite(i, v) => {
                if i < REGISTERS_COUNT {
                    cpu.set_register(i, v & VALUE_MASK);
                } else {
                    proof {
                        reveal_strlit("Invalid register");
                        assert("Invalid register"@ =~= invalid_register());
                    }
                    lines.push(String::from_str("Invalid register"));
                }
            },
            DebuggerCommand::StackSizePrint => {
                lines.push(decimal_string(cpu.stack().len()));
            },
            DebuggerCommand::StackPrint => {
                lines = word_lines(cpu.stack());
            },
            DebuggerCommand::TracePrint => {
                lines = copy_lines(self.trace.lines());
            },
            DebuggerCommand::TraceEnabled(b) => {
                self.trace.set_enabled(b);
            },
            DebuggerCommand::TraceSizePrint => {
                lines.push(decimal_string(self.trace.len()));
            },
            DebuggerCommand::TraceResize(n) => {
                self.trace.resize(n);
            },
            DebuggerCommand::TraceClear => {
                self.trace.clear();
            },
            DebuggerCommand::CodePointerPrint => {
                lines.push(decimal_string(cpu.code_pointer()));
            },
            DebuggerCommand::CodePointerWrite(n) => {
                cpu.set_code_pointer(n);
                self.resuming = false;
            },
            DebuggerCommand::ConsoleClear => {
                let mut k: usize = 0;
                while k < CLEAR_LINES
                    invariant
                        k <= CLEAR_LINES,
                        line_views(lines@) == Seq::new(k as nat, |i: int| Seq::<char>::empty()),
                    decreases CLEAR_LINES - k,
                {
                    let ghost before = lines@;
                    let blank = String::new();
                    lines.push(blank);
                    assert(line_views(lines@) =~= line_views(before).push(blank@));
                    k = k + 1;
                    assert(line_views(lines@) =~= Seq::new(k as nat, |i: int| Seq::<char>::empty()));
                }
            },
            DebuggerCommand::Continue => {
                resume = true;
            },
            DebuggerCommand::Unknown => {
                proof {
                    reveal_strlit("Unknown command");
                    assert("Unknown command"@ =~= unknown_command());
                }
                lines.push(String::from_str("Unknown command"));
            },
        }
        proof {
            let o = run_command(*cmd, old(cpu)@, old(self)@);
            assert(line_views(lines@) =~= o.lines);
        }
        DebugReply { lines, resume }
    }

    fn add_breakpoint(&mut self, a: usize)
        requires
            old(self).wf(),
        ensures
            final(self).wf(),
            final(self)@ == (DebugState {
                breakpoints: with_breakpoint(old(self)@.breakpoints, a),
                ..old(self)@
            }),
    {
        let mut i: usize = 0;
        while i < self.breakpoints.len()
            invariant
                self.wf(),
                self@ == old(self)@,
                i <= self.breakpoints@.len(),
                forall|j: int| 0 <= j < i ==> self.breakpoints@[j] != a,
            decreases self.breakpoints@.len() - i,
        {
            if self.breakpoints[i] == a {
                assert(self.breakpoints@[i as int] == a);
                return;
            }
            i = i + 1;
        }
        self.breakpoints.push(a);
    }

    fn remove_breakpoint(&mut self, a: usize)
        requires
            old(self).wf(),
        ensures
            final(self).wf(),
            final(self)@ == (DebugState {
                breakpoints: without_breakpoint(old(self)@.breakpoints, a),
                ..old(self)@
            }),
    {
        let mut kept: Vec<usize> = Vec::new();
        let mut i: usize = 0;
        while i < self.breakpoints.len()
            invariant
                i <= self.breakpoints@.len(),
                kept@ == without_breakpoint(self.breakpoints@.subrange(0, i as int), a),
            decreases self.breakpoints@.len() - i,
        {
            let ghost next = self.breakpoints@.subrange(0, i + 1);
            assert(next.drop_last() =~= self.breakpoints@.subrange(0, i as int));
            if self.breakpoints[i] != a {
                kept.push(self.breakpoints[i]);
            }
            i = i + 1;
        }
        assert(self.breakpoints@.subrange(0, i as int) =~= self.breakpoints@);
        self.breakpoints = kept;
    }

    /// Formats a record and appends it to the trace, when recording is on.
    pub fn record(&mut self, tokens: &Vec<DebugToken>)
        requires
            old(self).wf(),
        ensures
            final(self).wf(),
            final(self)@ == (DebugState {
                trace: traced(old(self)@.trace, trace_line(token_views(tokens@))),
                ..old(self)@
            }),
    {
        if self.trace.is_enabled() {
            let line = self.formatter.format(tokens);
            self.trace.record(line);
        }
    }
}

/// Each number in decimal, one per line.
fn decimal_lines(values: &Vec<usize>) -> (r: Vec<String>)
    ensures
        line_views(r@) == values@.map_values(|a: usize| decimal(a as nat)),
{
    let mut lines: Vec<String> = Vec::new();
    let mut i: usize = 0;
    while i < values.len()
        invariant
            i <= values@.len(),
            line_views(lines@) == values@.subrange(0, i as int).map_values(|a: usize| decimal(a as nat)),
        decreases values@.len() - i,
    {
        let ghost before = lines@;
        let text = decimal_string(values[i]);
        lines.push(text);
        assert(line_views(lines@) =~= line_views(before).push(text@));
        assert(values@.subrange(0, i + 1).map_values(|a: usize| decimal(a as nat)) =~= values@.subrange(
            0,
            i as int,
        ).map_values(|a: usize| decimal(a as nat)).push(decimal(values@[i as int] as nat)));
        i = i + 1;
        assert(line_views(lines@) =~= values@.subrange(0, i as int).map_values(
            |a: usize| decimal(a as nat),
        ));
    }
    assert(values@.subrange(0, i as int) =~= values@);
    lines
}

/// Each word in decimal, one per line.
fn word_lines(values: &Vec<u16>) -> (r: Vec<String>)
    ensures
        line_views(r@) == values@.map_values(|w: u16| decimal(w as nat)),
{
    let mut lines: Vec<String> = Vec::new();
    let mut i: usize = 0;
    while i < values.len()
        invariant
            i <= values@.len(),
            line_views(lines@) == values@.subrange(0, i as int).map_values(|w: u16| decimal(w as nat)),
        decreases values@.len() - i,
    {
        let ghost before = lines@;
        let text = decimal_string(values[i] as usize);
        lines.push(text);
        assert(line_views(lines@) =~= line_views(before).push(text@));
        assert(values@.subrange(0, i + 1).map_values(|w: u16| decimal(w as nat)) =~= values@.subrange(
            0,
            i as int,
        ).map_values(|w: u16| decimal(w as nat)).push(decimal(values@[i as int] as nat)));
        i = i + 1;
        assert(line_views(lines@) =~= values@.subrange(0, i as int).map_values(
            |w: u16| decimal(w as nat),
        ));
    }
    assert(values@.subrange(0, i as int) =~= values@);
    lines
}

/// `reg[i] = v` for each register, in order.
fn register_lines(cpu: &Cpu) -> (r: Vec<String>)
    requires
        cpu.wf(),
    ensures
        line_views(r@) == Seq::new(
            REGISTERS_COUNT as nat,
            |i: int| register_note(i as u16, cpu@.registers[i]),
        ),
{
    let registers = cpu.registers();
    let mut lines: Vec<String> = Vec::new();
    let mut i: usize = 0;
    while i < REGISTERS_COUNT
        invariant
            i <= REGISTERS_COUNT,
            registers@ == cpu@.registers,
            registers@.len() == REGISTERS_COUNT,
            line_views(lines@) == Seq::new(
                i as nat,
                |j: int| register_note(j as u16, cpu@.registers[j]),
            ),
        decreases REGISTERS_COUNT - i,
    {
        let ghost before = lines@;
        let text = register_note_string(i as u16, registers[i]);
        lines.push(text);
        assert(line_views(lines@) =~= line_views(before).push(text@));
        i = i + 1;
        assert(line_views(lines@) =~= Seq::new(
            i as nat,
            |j: int| register_note(j as u16, cpu@.registers[j]),
        ));
    }
    lines
}

/// A copy of the lines.
fn copy_lines(source: &Vec<String>) -> (r: Vec<String>)
    ensures
        line_views(r@) == line_views(source@),
{
    let mut lines: Vec<String> = Vec::new();
    let mut i: usize = 0;
    while i < source.len()
        invariant
            i <= source@.len(),
            line_views(lines@) == line_views(source@.subrange(0, i as int)),
        decreases source@.len() - i,
    {
        let ghost before = lines@;
        let text = source[i].clone();
        lines.push(text);
        assert(line_views(lines@) =~= line_views(before).push(text@));
        assert(line_views(source@.subrange(0, i + 1)) =~= line_views(source@.subrange(0, i as int)).push(
            source@[i as int]@,
        ));
        i = i + 1;
        assert(line_views(lines@) =~= line_views(source@.subrange(0, i as int)));
    }
    assert(source@.subrange(0, i as int) =~= source@);
    lines
}

} // verus!
