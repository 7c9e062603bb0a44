use vstd::prelude::*;

use crate::common::{MachineError, MEMORY_SIZE, REGISTERS_COUNT};
use crate::operand::{ArgKind, register_of, value_of};

verus! {

/// Opcode numbers of the instruction set.
pub const OP_HALT: u16 = 0;
pub const OP_SET: u16 = 1;
pub const OP_PUSH: u16 = 2;
pub const OP_POP: u16 = 3;
pub const OP_EQ: u16 = 4;
pub const OP_GT: u16 = 5;
pub const OP_JMP: u16 = 6;
pub const OP_JT: u16 = 7;
pub const OP_JF: u16 = 8;
pub const OP_ADD: u16 = 9;
pub const OP_MULT: u16 = 10;
pub const OP_MOD: u16 = 11;
pub const OP_AND: u16 = 12;
pub const OP_OR: u16 = 13;
pub const OP_NOT: u16 = 14;
pub const OP_RMEM: u16 = 15;
pub const OP_WMEM: u16 = 16;
pub const OP_CALL: u16 = 17;
pub const OP_RET: u16 = 18;
pub const OP_OUT: u16 = 19;
pub const OP_IN: u16 = 20;
pub const OP_NOOP: u16 = 21;

/// Arithmetic is carried out modulo this value; values are 15-bit.
pub const MODULUS: u16 = 32768;

/// Mask that keeps the low 15 bits of a word.
pub const VALUE_MASK: u16 = 0x7fff;

/// The architectural state of the machine, as the instruction set sees it.
pub struct VmState {
    pub memory: Seq<u16>,
    pub registers: Seq<u16>,
    pub stack: Seq<u16>,
    pub cp: int,
    pub input: Seq<u8>,
    pub running: bool,
}

/// What one call of the engine reports to the host.
#[derive(Debug, Clone, Copy, PartialEq, Eq, Structural)]
pub enum Event {
    /// An instruction ran and has no effect for the host to carry out.
    Executed,
    /// `out` ran: the host writes this byte to the terminal.
    Output(u8),
    /// `in` found no pending input: the host supplies a line, then steps again.
    NeedInput,
    /// The program stopped: `halt`, or `ret` on an empty stack.
    Halted,
    /// An enabled breakpoint matched the code pointer before the fetch.
    Breakpoint,
}

/// The state after one instruction, and what it reports.
pub struct Transition {
    pub state: VmState,
    pub result: Result<Event, MachineError>,
}

/// Whether every register holds a 15-bit value and every stack word is one too.
pub open spec fn values_in_range(s: VmState) -> bool {
    &&& forall|i: int| 0 <= i < s.registers.len() ==> (#[trigger] s.registers[i]) < MODULUS
    &&& forall|i: int| 0 <= i < s.stack.len() ==> (#[trigger] s.stack[i]) < MODULUS
}

/// Whether a state has the shape the machine keeps: full memory, eight registers.
pub open spec fn well_formed(s: VmState) -> bool {
    s.memory.len() == MEMORY_SIZE && s.registers.len() == REGISTERS_COUNT && s.cp >= 0
}

/// The roles of the operand cells that follow each opcode.
pub open spec fn arg_kinds(op: u16) -> Seq<ArgKind> {
    let r = ArgKind::Register;
    let v = ArgKind::Value;
    if op == OP_SET || op == OP_NOT || op == OP_RMEM {
        seq![r, v]
    } else if op == OP_POP || op == OP_IN {
        seq![r]
    } else if op == OP_EQ || op == OP_GT || (OP_ADD <= op && op <= OP_OR) {
        seq![r, v, v]
    } else if op == OP_PUSH || op == OP_JMP || op == OP_CALL || op == OP_OUT {
        seq![v]
    } else if op == OP_JT || op == OP_JF || op == OP_WMEM {
        seq![v, v]
    } else {
        seq![]
    }
}

/// The cell at `addr`, or the fault of reading outside memory.
pub open spec fn fetch(s: VmState, addr: int) -> Result<u16, MachineError> {
    if 0 <= addr < MEMORY_SIZE {
        Ok(s.memory[addr])
    } else {
        Err(MachineError::MemoryAccessViolation(addr as usize))
    }
}

/// Where the code pointer stands after an attempt to read the cell at `addr`.
pub open spec fn after_read(addr: int) -> int {
    if addr < MEMORY_SIZE {
        addr + 1
    } else {
        addr
    }
}

/// The operand at `addr` decoded by its role: a register index or a value.
pub open spec fn arg_at(s: VmState, addr: int, kind: ArgKind) -> Result<u16, MachineError> {
    match fetch(s, addr) {
        Err(e) => Err(e),
        Ok(cell) => match kind {
            ArgKind::Register => match register_of(cell) {
                Ok(r) => Ok(r as u16),
                Err(e) => Err(e),
            },
            ArgKind::Value => value_of(s.registers, cell),
        },
    }
}

/// Decodes operands in order from `start`: their values, or the first fault
/// together with the code pointer after it.
pub open spec fn decode(s: VmState, start: int, kinds: Seq<ArgKind>) -> Result<
    Seq<u16>,
    (MachineError, int),
>
    decreases kinds.len(),
{
    if kinds.len() == 0 {
        Ok(Seq::empty())
    } else {
        match decode(s, start, kinds.drop_last()) {
            Err(x) => Err(x),
            Ok(prefix) => {
                let addr = start + kinds.len() - 1;
                match arg_at(s, addr, kinds.last()) {
                    Ok(v) => Ok(prefix.push(v)),
                    Err(e) => Err((e, after_read(addr))),
                }
            },
        }
    }
}

pub open spec fn done(s: VmState, e: Event) -> Transition {
    Transition { state: s, result: Ok(e) }
}

/// A fatal trap: the run flag drops and the code pointer stays where reading stopped.
pub open spec fn fault(s: VmState, cp: int, e: MachineError) -> Transition {
    Transition { state: VmState { cp, running: false, ..s }, result: Err(e) }
}

pub open spec fn with_register(s: VmState, a: u16, v: u16) -> VmState {
    VmState { registers: s.registers.update(a as int, v), ..s }
}

pub open spec fn jump(s: VmState, target: u16) -> VmState {
    VmState { cp: target as int, ..s }
}

pub open spec fn flag(b: bool) -> u16 {
    if b {
        1
    } else {
        0
    }
}

/// Whether decoded operands have the count the opcode asks for, and every
/// destination names one of the registers.
pub open spec fn operands_fit(kinds: Seq<ArgKind>, args: Seq<u16>) -> bool {
    &&& args.len() == kinds.len()
    &&& forall|i: int|
        0 <= i < args.len() && kinds[i] == ArgKind::Register ==> (#[trigger] args[i]) < REGISTERS_COUNT
}

/// Decoding reads memory and registers only.
pub proof fn lemma_decode_frame(s: VmState, t: VmState, start: int, kinds: Seq<ArgKind>)
    requires
        s.memory == t.memory,
        s.registers == t.registers,
    ensures
        decode(s, start, kinds) == decode(t, start, kinds),
    decreases kinds.len(),
{
    if kinds.len() > 0 {
        lemma_decode_frame(s, t, start, kinds.drop_last());
    }
}

/// With 15-bit registers, every decoded operand is 15-bit, and every cell
/// read lies in memory.
pub proof fn lemma_decode_values(s: VmState, start: int, kinds: Seq<ArgKind>)
    requires
        decode(s, start, kinds) is Ok,
        values_in_range(s),
        s.registers.len() == REGISTERS_COUNT,
    ensures
        forall|i: int|
            0 <= i < decode(s, start, kinds)->Ok_0.len() ==> (#[trigger] decode(
                s,
                start,
                kinds,
            )->Ok_0[i]) < MODULUS,
        kinds.len() > 0 ==> 0 <= start && start + kinds.len() <= MEMORY_SIZE,
        decode(s, start, kinds)->Ok_0.len() == kinds.len(),
    decreases kinds.len(),
{
    if kinds.len() > 0 {
        lemma_decode_values(s, start, kinds.drop_last());
        let prefix = decode(s, start, kinds.drop_last())->Ok_0;
        let args = decode(s, start, kinds)->Ok_0;
        assert forall|i: int| 0 <= i < args.len() implies (#[trigger] args[i]) < MODULUS by {
            if i < prefix.len() {
                assert(args[i] == prefix[i]);
            }
        }
    }
}

/// Decoded operands always fit their opcode.
pub proof fn lemma_decode_fits(s: VmState, start: int, kinds: Seq<ArgKind>)
    requires
        decode(s, start, kinds) is Ok,
    ensures
        operands_fit(kinds, decode(s, start, kinds)->Ok_0),
    decreases kinds.len(),
{
    if kinds.len() > 0 {
        lemma_decode_fits(s, start, kinds.drop_last());
        let prefix = decode(s, start, kinds.drop_last())->Ok_0;
        let args = decode(s, start, kinds)->Ok_0;
        assert forall|i: int|
            0 <= i < args.len() && kinds[i] == ArgKind::Register implies (#[trigger] args[i])
            < REGISTERS_COUNT by {
            if i < prefix.len() {
                assert(args[i] == prefix[i]);
                assert(kinds.drop_last()[i] == kinds[i]);
            }
        }
    }
}

pub open spec fn op_halt(s: VmState) -> Transition {
    done(VmState { running: false, ..s }, Event::Halted)
}

pub open spec fn op_set(s: VmState, args: Seq<u16>) -> Transition {
    done(with_register(s, args[0], args[1]), Event::Executed)
}

pub open spec fn op_push(s: VmState, args: Seq<u16>) -> Transition {
    done(VmState { stack: s.stack.push(args[0]), ..s }, Event::Executed)
}

pub open spec fn op_pop(s: VmState, args: Seq<u16>) -> Transition {
    if s.stack.len() == 0 {
        fault(s, s.cp, MachineError::PopOnEmptyStack)
    } else {
        done(
            with_register(VmState { stack: s.stack.drop_last(), ..s }, args[0], s.stack.last()),
            Event::Executed,
        )
    }
}

pub open spec fn op_eq(s: VmState, args: Seq<u16>) -> Transition {
    done(with_register(s, args[0], flag(args[1] == args[2])), Event::Executed)
}

pub open spec fn op_gt(s: VmState, args: Seq<u16>) -> Transition {
    done(with_register(s, args[0], flag(args[1] > args[2])), Event::Executed)
}

pub open spec fn op_jmp(s: VmState, args: Seq<u16>) -> Transition {
    done(jump(s, args[0]), Event::Executed)
}

pub open spec fn op_jt(s: VmState, args: Seq<u16>) -> Transition {
    done(
        if args[0] != 0 {
            jump(s, args[1])
        } else {
            s
        },
        Event::Executed,
    )
}

pub open spec fn op_jf(s: VmState, args: Seq<u16>) -> Transition {
    done(
        if args[0] == 0 {
            jump(s, args[1])
        } else {
            s
        },
        Event::Executed,
    )
}

pub open spec fn op_add(s: VmState, args: Seq<u16>) -> Transition {
    done(
        with_register(s, args[0], ((args[1] + args[2]) % (MODULUS as int)) as u16),
        Event::Executed,
    )
}

pub open spec fn op_mult(s: VmState, args: Seq<u16>) -> Transition {
    done(
        with_register(s, args[0], ((args[1] * args[2]) % (MODULUS as int)) as u16),
        Event::Executed,
    )
}

pub open spec fn op_mod(s: VmState, args: Seq<u16>) -> Transition {
    if args[2] == 0 {
        fault(s, s.cp, MachineError::DivisionByZero)
    } else {
        done(with_register(s, args[0], (args[1] % args[2]) as u16), Event::Executed)
    }
}

pub open spec fn op_and(s: VmState, args: Seq<u16>) -> Transition {
    done(with_register(s, args[0], args[1] & args[2]), Event::Executed)
}

pub open spec fn op_or(s: VmState, args: Seq<u16>) -> Transition {
    done(with_register(s, args[0], args[1] | args[2]), Event::Executed)
}

pub open spec fn op_not(s: VmState, args: Seq<u16>) -> Transition {
    done(with_register(s, args[0], !args[1] & VALUE_MASK), Event::Executed)
}

pub open spec fn op_rmem(s: VmState, args: Seq<u16>) -> Transition {
    match fetch(s, args[1] as int) {
        Ok(w) => done(with_register(s, args[0], w), Event::Executed),
        Err(e) => fault(s, s.cp, e),
    }
}

pub open spec fn op_wmem(s: VmState, args: Seq<u16>) -> Transition {
    if (args[0] as int) < MEMORY_SIZE {
        done(VmState { memory: s.memory.update(args[0] as int, args[1]), ..s }, Event::Executed)
    } else {
        fault(s, s.cp, MachineError::MemoryAccessViolation(args[0] as usize))
    }
}

/// `call` pushes the address of the following instruction, then jumps.
pub open spec fn op_call(s: VmState, args: Seq<u16>) -> Transition {
    done(jump(VmState { stack: s.stack.push(s.cp as u16), ..s }, args[0]), Event::Executed)
}

/// `ret` on an empty stack halts cleanly.
pub open spec fn op_ret(s: VmState) -> Transition {
    if s.stack.len() == 0 {
        done(VmState { running: false, ..s }, Event::Halted)
    } else {
        done(jump(VmState { stack: s.stack.drop_last(), ..s }, s.stack.last()), Event::Executed)
    }
}

pub open spec fn op_out(s: VmState, args: Seq<u16>) -> Transition {
    done(s, Event::Output((args[0] % 256) as u8))
}

/// `in` with nothing pending puts the code pointer back on the instruction
/// and asks the host for a line.
pub open spec fn op_in(s: VmState, p: int, args: Seq<u16>) -> Transition {
    if s.input.len() == 0 {
        done(VmState { cp: p, ..s }, Event::NeedInput)
    } else {
        done(
            with_register(VmState { input: s.input.drop_first(), ..s }, args[0], s.input[0] as u16),
            Event::Executed,
        )
    }
}

/// The effect of an instruction whose operands decoded to `args`; `s.cp` has
/// already moved past the operands, and `p` is the opcode's address.
pub open spec fn execute(s: VmState, p: int, op: u16, args: Seq<u16>) -> Transition {
    if op == OP_HALT {
        op_halt(s)
    } else if op == OP_SET {
        op_set(s, args)
    } else if op == OP_PUSH {
        op_push(s, args)
    } else if op == OP_POP {
        op_pop(s, args)
    } else if op == OP_EQ {
        op_eq(s, args)
    } else if op == OP_GT {
        op_gt(s, args)
    } else if op == OP_JMP {
        op_jmp(s, args)
    } else if op == OP_JT {
        op_jt(s, args)
    } else if op == OP_JF {
        op_jf(s, args)
    } else if op == OP_ADD {
        op_add(s, args)
    } else if op == OP_MULT {
        op_mult(s, args)
    } else if op == OP_MOD {
        op_mod(s, args)
    } else if op == OP_AND {
        op_and(s, args)
    } else if op == OP_OR {
        op_or(s, args)
    } else if op == OP_NOT {
        op_not(s, args)
    } else if op == OP_RMEM {
        op_rmem(s, args)
    } else if op == OP_WMEM {
        op_wmem(s, args)
    } else if op == OP_CALL {
        op_call(s, args)
    } else if op == OP_RET {
        op_ret(s)
    } else if op == OP_OUT {
        op_out(s, args)
    } else if op == OP_IN {
        op_in(s, p, args)
    } else {
        done(s, Event::Executed)
    }
}

/// Whether `after` and `r` are the state and report of transition `t`.
pub open spec fn performs(after: VmState, r: Result<Event, MachineError>, t: Transition) -> bool {
    after == t.state && r == t.result
}

/// The operands of the instruction at the code pointer of `s`.
pub open spec fn operands(s: VmState) -> Seq<u16> {
    decode(s, s.cp + 1, arg_kinds(s.memory[s.cp]))->Ok_0
}

/// A step that succeeds fetched a valid opcode inside memory and decoded
/// operands that fit it.
pub proof fn lemma_step_operands(s: VmState)
    requires
        step(s).result is Ok,
    ensures
        0 <= s.cp < MEMORY_SIZE,
        s.memory[s.cp] <= OP_NOOP,
        decode(s, s.cp + 1, arg_kinds(s.memory[s.cp])) is Ok,
        operands_fit(arg_kinds(s.memory[s.cp]), operands(s)),
{
    lemma_decode_fits(s, s.cp + 1, arg_kinds(s.memory[s.cp]));
}

/// One fetch-decode-execute step from state `s`.
pub open spec fn step(s: VmState) -> Transition {
    if !(0 <= s.cp < MEMORY_SIZE) {
        fault(s, s.cp, MachineError::MemoryAccessViolation(s.cp as usize))
    } else {
        let p = s.cp;
        let op = s.memory[p];
        if op > OP_NOOP {
            fault(s, p + 1, MachineError::UnexpectedOpcode(op))
        } else {
            match decode(s, p + 1, arg_kinds(op)) {
                Err(x) => fault(s, x.1, x.0),
                Ok(args) => execute(VmState { cp: p + 1 + arg_kinds(op).len(), ..s }, p, op, args),
            }
        }
    }
}

} // verus!
