use vstd::prelude::*;

use crate::common::{load_error, loadable, loaded_memory, setup_memory, MachineError, MEMORY_SIZE};
use crate::cpu::{cells_read, operand_kinds, Cpu};
use crate::debug::{token_views, DebugToken, TokenView};
use crate::command_parser::DebuggerCommand;
use crate::debugger::{
    breaks_here, initial_debug_state, line_views, run_command, traced, trace_line, DebugReply,
    DebugState, Debugger,
};
use crate::input::{debugger_escape, script_bytes, LineOutcome};
use crate::model::{
    well_formed,
    arg_kinds, lemma_step_operands, operands, performs, step, Event, Transition, VmState, OP_ADD,
    OP_CALL, OP_EQ, OP_GT, OP_IN, OP_JF, OP_JMP, OP_JT, OP_NOT, OP_OUT, OP_POP, OP_RET, OP_RMEM,
    OP_SET, OP_WMEM,
};
use crate::operand::{classify, classify_spec, ArgKind, Operand};
use crate::notes::{
    char_note, char_note_string, jump_note, jump_note_string, memory_note, memory_note_string,
    register_note, register_note_string, return_note, return_note_string,
};

verus! {

/// Whether the opcode stores its result in its first operand, a register.
pub open spec fn writes_register(op: u16) -> bool {
    op == OP_SET || op == OP_POP || op == OP_EQ || op == OP_GT || (OP_ADD <= op && op <= OP_NOT)
        || op == OP_RMEM || op == OP_IN
}

/// Whether `out` of this byte shows the character in the trace.
pub open spec fn printable(b: u8) -> bool {
    32 <= b && b < 127
}

/// The token for one operand: a destination register, or a value with the
/// register it was read from.
pub open spec fn operand_token(kind: ArgKind, arg: u16, cell: u16) -> TokenView {
    match kind {
        ArgKind::Register => TokenView::RegisterIdx(arg as usize),
        ArgKind::Value => TokenView::Value(
            arg,
            match classify_spec(cell) {
                Operand::Register(r) => Some(r),
                _ => None,
            },
        ),
    }
}

/// The operand tokens of the instruction at the code pointer of `s`.
pub open spec fn operand_tokens(s: VmState) -> Seq<TokenView> {
    let kinds = arg_kinds(s.memory[s.cp]);
    Seq::new(
        kinds.len(),
        |i: int| operand_token(kinds[i], operands(s)[i], s.memory[s.cp + 1 + i]),
    )
}

/// The notes on what the instruction at the code pointer of `s` did.
pub open spec fn effect_notes(s: VmState, t: Transition) -> Seq<TokenView> {
    let op = s.memory[s.cp];
    let args = operands(s);
    if writes_register(op) {
        seq![TokenView::Comment(register_note(args[0], t.state.registers[args[0] as int]))]
    } else if op == OP_WMEM {
        seq![TokenView::Comment(memory_note(args[0], args[1]))]
    } else if op == OP_OUT && printable((args[0] % 256) as u8) {
        seq![TokenView::Comment(char_note((args[0] % 256) as u8))]
    } else if op == OP_CALL || op == OP_JMP {
        seq![TokenView::Comment(jump_note(args[0] as int))]
    } else if (op == OP_JT && args[0] != 0) || (op == OP_JF && args[0] == 0) {
        seq![TokenView::Comment(jump_note(args[1] as int))]
    } else if op == OP_RET && t.result == Ok::<Event, MachineError>(Event::Executed) {
        seq![TokenView::Comment(return_note(t.state.cp))]
    } else {
        Seq::empty()
    }
}

/// The trace record of the step from `s` to `t`: address, opcode, operands, notes.
pub open spec fn record_tokens(s: VmState, t: Transition) -> Seq<TokenView> {
    seq![TokenView::Address(s.cp as usize), TokenView::Operation(s.memory[s.cp])] + operand_tokens(s)
        + effect_notes(s, t)
}

/// Whether a step is recorded in the trace: it ran, and did not wait for input.
pub open spec fn recorded(r: Result<Event, MachineError>) -> bool {
    r is Ok && r->Ok_0 != Event::NeedInput
}

/// A Synacor machine: the processor and the debugger state beside it.
pub struct Machine {
    cpu: Cpu,
    debugger: Debugger,
}

impl View for Machine {
    type V = VmState;

    closed spec fn view(&self) -> VmState {
        self.cpu@
    }
}

impl Machine {
    pub closed spec fn wf(&self) -> bool {
        self.cpu.wf() && self.debugger.wf()
    }

    /// A well-formed machine has the shape of the model, so the laws on
    /// `step` apply to its state.
    pub proof fn lemma_wf_shape(&self)
        requires
            self.wf(),
        ensures
            well_formed(self@),
    {
        self.cpu.lemma_wf_shape();
    }

    /// The debugger's state.
    pub closed spec fn debug(&self) -> DebugState {
        self.debugger@
    }

    /// A stopped machine with `program` loaded at address 0, zeroed registers,
    /// an empty stack, no pending input and a fresh debugger.
    pub fn new(program: &Vec<u8>) -> (r: Result<Machine, MachineError>)
        ensures
            r is Ok <==> loadable(program@),
            r is Ok ==> r->Ok_0.wf() && r->Ok_0@ == (VmState {
                memory: loaded_memory(program@),
                registers: seq![0u16, 0, 0, 0, 0, 0, 0, 0],
                stack: Seq::empty(),
                cp: 0,
                input: Seq::empty(),
                running: false,
            }) && r->Ok_0.debug() == initial_debug_state(),
            r is Err ==> r->Err_0 == load_error(program@),
    {
        let memory = match Self::setup_memory(program) {
            Ok(m) => m,
            Err(e) => return Err(e),
        };
        Ok(Machine { cpu: Cpu::from_memory(memory), debugger: Debugger::new() })
    }

    /// Builds the memory of a machine from a little-endian program image.
    pub fn setup_memory(program: &Vec<u8>) -> (r: Result<Vec<u16>, MachineError>)
        ensures
            r is Ok <==> loadable(program@),
            r is Ok ==> r->Ok_0@ == loaded_memory(program@),
            r is Err ==> r->Err_0 == load_error(program@),
    {
        setup_memory(program)
    }

    /// Replaces the pending input with the script: each line, then a newline.
    pub fn write_to_input_buffer(&mut self, strings: &Vec<String>)
        requires
            old(self).wf(),
        ensures
            final(self).wf(),
            final(self)@ == (VmState { input: script_bytes(strings@), ..old(self)@ }),
            final(self).debug() == old(self).debug(),
    {
        self.cpu.write_to_input_buffer(strings);
    }

    /// Hands a line read from the terminal, newline included, to the input
    /// queue. The debugger escape is not queued; an empty read is an error.
    pub fn supply_line(&mut self, line: &String) -> (r: Result<LineOutcome, MachineError>)
        requires
            old(self).wf(),
        ensures
            final(self).wf(),
            final(self).debug() == old(self).debug(),
            line@.len() == 0 ==> r == Err::<LineOutcome, MachineError>(
                MachineError::EmptyInputBuffer,
            ) && final(self)@ == old(self)@,
            line@ == debugger_escape() ==> r == Ok::<LineOutcome, MachineError>(
                LineOutcome::OpenDebugger,
            ) && final(self)@ == old(self)@,
            line@.len() != 0 && line@ != debugger_escape() ==> r == Ok::<
                LineOutcome,
                MachineError,
            >(LineOutcome::Queued) && final(self)@ == (VmState {
                input: old(self)@.input + vstd::utf8::encode_utf8(line@),
                ..old(self)@
            }),
    {
        self.cpu.supply_line(line)
    }

    /// Raises the run flag.
    pub fn start(&mut self)
        requires
            old(self).wf(),
        ensures
            final(self).wf(),
            final(self)@ == (VmState { running: true, ..old(self)@ }),
            final(self).debug() == old(self).debug(),
    {
        self.cpu.start();
    }

    pub fn is_running(&self) -> (r: bool)
        ensures
            r == self@.running,
    {
        self.cpu.is_running()
    }

    /// Runs one instruction, unless an enabled breakpoint matches the code
    /// pointer first: then nothing runs, `Breakpoint` is reported, and the
    /// next call runs the instruction. A fault drops the run flag. With the
    /// trace on, each instruction that ran is recorded.
    pub fn perform_operation(&mut self) -> (r: Result<Event, MachineError>)
        requires
            old(self).wf(),
        ensures
            final(self).wf(),
            breaks_here(old(self).debug(), old(self)@.cp) ==> r == Ok::<Event, MachineError>(
                Event::Breakpoint,
            ) && final(self)@ == old(self)@ && final(self).debug() == (DebugState {
                resuming: true,
                ..old(self).debug()
            }),
            !breaks_here(old(self).debug(), old(self)@.cp) ==> performs(
                final(self)@,
                r,
                step(old(self)@),
            ) && final(self).debug() == (DebugState {
                resuming: false,
                trace: if recorded(step(old(self)@).result) {
                    traced(
                        old(self).debug().trace,
                        trace_line(record_tokens(old(self)@, step(old(self)@))),
                    )
                } else {
                    old(self).debug().trace
                },
                ..old(self).debug()
            }),
    {
        let p = self.cpu.code_pointer();
        if self.debugger.breaks_at(p) {
            self.debugger.set_resuming(true);
            return Ok(Event::Breakpoint);
        }
        self.debugger.set_resuming(false);
        let ghost before = self.cpu@;
        let op = self.cpu.opcode_at(p);
        let (r, cells, args) = self.cpu.execute_instruction();
        if let Ok(event) = r {
            proof {
                lemma_step_operands(before);
            }
            if event != Event::NeedInput && self.debugger.is_tracing() {
                let tokens = self.record(p, op, &cells, &args, event, Ghost(before));
                self.debugger.record(&tokens);
            }
        }
        r
    }

    /// Carries out a debugger command: shows state, changes registers, code
    /// pointer, breakpoints or trace, or resumes execution.
    pub fn debug_command(&mut self, cmd: &DebuggerCommand) -> (r: DebugReply)
        requires
            old(self).wf(),
        ensures
            final(self).wf(),
            ({
                let o = run_command(*cmd, old(self)@, old(self).debug());
                &&& final(self)@ == o.state
                &&& final(self).debug() == o.debug
                &&& line_views(r.lines@) == o.lines
                &&& r.resume == o.resume
            }),
    {
        self.debugger.execute(&mut self.cpu, cmd)
    }

    /// Builds the trace record of the instruction at `p` that just ran from
    /// state `before`.
    fn record(
        &self,
        p: usize,
        op: u16,
        cells: &Vec<u16>,
        args: &Vec<u16>,
        event: Event,
        before: Ghost<VmState>,
    ) -> (r: Vec<DebugToken>)
        requires
            self.wf(),
            ({
                let t = step(before@);
                &&& t.result == Ok::<Event, MachineError>(event)
                &&& self@ == t.state
                &&& p as int == before@.cp
                &&& 0 <= p < MEMORY_SIZE
                &&& op == before@.memory[p as int]
                &&& cells_read(cells@, VmState { cp: p + 1, ..before@ }, arg_kinds(op).len() as int)
                &&& args@ == operands(before@)
            }),
        ensures
            token_views(r@) == record_tokens(before@, step(before@)),
    {
        proof {
            lemma_step_operands(before@);
        }
        let mut tokens: Vec<DebugToken> = Vec::new();
        tokens.push(DebugToken::Address(p));
        tokens.push(DebugToken::Operation(op));
        let mut operand_list = operand_token_list(op, cells, args);
        let mut notes = self.effect_note_list(op, args, event, before);
        let ghost head = tokens@;
        tokens.append(&mut operand_list);
        let ghost middle = tokens@;
        tokens.append(&mut notes);
        proof {
            let s = before@;
            assert(operand_tokens(s) =~= Seq::new(
                arg_kinds(op).len(),
                |i: int| operand_token(arg_kinds(op)[i], args@[i], cells@[i]),
            ));
            assert(token_views(middle) =~= token_views(head) + operand_tokens(s));
            assert(token_views(tokens@) =~= token_views(middle) + effect_notes(s, step(s)));
        }
        assert(token_views(tokens@) =~= record_tokens(before@, step(before@)));
        tokens
    }

    /// The notes on the effect of the instruction that just ran from `before`.
    fn effect_note_list(
        &self,
        op: u16,
        args: &Vec<u16>,
        event: Event,
        before: Ghost<VmState>,
    ) -> (r: Vec<DebugToken>)
        requires
            self.wf(),
            ({
                let t = step(before@);
                &&& t.result == Ok::<Event, MachineError>(event)
                &&& self@ == t.state
                &&& 0 <= before@.cp < MEMORY_SIZE
                &&& op == before@.memory[before@.cp]
                &&& args@ == operands(before@)
            }),
        ensures
            token_views(r@) == effect_notes(before@, step(before@)),
    {
        let ghost s = before@;
        proof {
            lemma_step_operands(s);
        }
        let mut notes: Vec<DebugToken> = Vec::new();
        if op == OP_SET || op == OP_POP || op == OP_EQ || op == OP_GT || (OP_ADD <= op && op <= OP_NOT)
            || op == OP_RMEM || op == OP_IN {
            let a = args[0];
            assert(arg_kinds(op)[0] == ArgKind::Register);
            let v = self.cpu.registers()[a as usize];
            notes.push(DebugToken::Comment(register_note_string(a, v)));
        } else if op == OP_WMEM {
            notes.push(DebugToken::Comment(memory_note_string(args[0], args[1])));
        } else if op == OP_OUT && 32 <= args[0] % 256 && args[0] % 256 < 127 {
            notes.push(DebugToken::Comment(char_note_string((args[0] % 256) as u8)));
        } else if op == OP_CALL || op == OP_JMP {
            notes.push(DebugToken::Comment(jump_note_string(args[0] as usize)));
        } else if (op == OP_JT && args[0] != 0) || (op == OP_JF && args[0] == 0) {
            notes.push(DebugToken::Comment(jump_note_string(args[1] as usize)));
        } else if op == OP_RET && event == Event::Executed {
            notes.push(DebugToken::Comment(return_note_string(self.cpu.code_pointer())));
        }
        assert(token_views(notes@) =~= effect_notes(s, step(s)));
        notes
    }
}

/// The tokens of the operands of `op`, read from `cells` and decoded to `args`.
fn operand_token_list(op: u16, cells: &Vec<u16>, args: &Vec<u16>) -> (r: Vec<DebugToken>)
    requires
        cells@.len() == arg_kinds(op).len(),
        args@.len() == arg_kinds(op).len(),
    ensures
        token_views(r@) == Seq::new(
            arg_kinds(op).len(),
            |i: int| operand_token(arg_kinds(op)[i], args@[i], cells@[i]),
        ),
{
    let kinds = operand_kinds(op);
    let mut tokens: Vec<DebugToken> = Vec::new();
    let mut i: usize = 0;
    while i < kinds.len()
        invariant
            i <= kinds@.len(),
            kinds@ == arg_kinds(op),
            cells@.len() == kinds@.len(),
            args@.len() == kinds@.len(),
            token_views(tokens@) == Seq::new(
                i as nat,
                |j: int| operand_token(kinds@[j], args@[j], cells@[j]),
            ),
        decreases kinds@.len() - i,
    {
        let token = match kinds[i] {
            ArgKind::Register => DebugToken::RegisterIdx(args[i] as usize),
            ArgKind::Value => DebugToken::Value(
                args[i],
                match classify(cells[i]) {
                    Operand::Register(r) => Some(r),
                    _ => None,
                },
            ),
        };
        assert(token@ == operand_token(kinds@[i as int], args@[i as int], cells@[i as int]));
        let ghost before = tokens@;
        tokens.push(token);
        assert(token_views(tokens@) =~= token_views(before).push(token@));
        i = i + 1;
        assert(token_views(tokens@) =~= Seq::new(
            i as nat,
            |j: int| operand_token(kinds@[j], args@[j], cells@[j]),
        ));
    }
    tokens
}

} // verus!
