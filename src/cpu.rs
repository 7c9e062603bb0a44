use vstd::prelude::*;

use crate::common::{MachineError, MEMORY_SIZE, REGISTERS_COUNT};
use crate::input::{debugger_escape, script_bytes, InputBuffer, LineOutcome};
use crate::model::{
    after_read, arg_at, arg_kinds, decode, execute, fault, fetch, lemma_decode_fits,
    lemma_decode_frame, op_add, op_and, op_call, op_eq, op_gt, op_halt, op_in, op_jf, op_jmp,
    op_jt, op_mod, op_mult, op_not, op_or, op_out, op_pop, op_push, op_ret, op_rmem, op_set,
    op_wmem, operands_fit, performs, step, well_formed, with_register, Event, VmState, MODULUS,
    OP_ADD, OP_AND, OP_CALL, OP_EQ, OP_GT, OP_HALT, OP_IN, OP_JF, OP_JMP, OP_JT, OP_MOD, OP_MULT,
    OP_NOOP, OP_NOT, OP_OR, OP_OUT, OP_POP, OP_PUSH, OP_RET, OP_RMEM, OP_SET, OP_WMEM, VALUE_MASK,
};
use crate::operand::{ArgKind, expect_register, resolve_value};

verus! {

/// The roles of the operand cells that follow `op`.
pub fn operand_kinds(op: u16) -> (r: Vec<ArgKind>)
    ensures
        r@ == arg_kinds(op),
{
    let reg = ArgKind::Register;
    let val = ArgKind::Value;
    let r = if op == OP_SET || op == OP_NOT || op == OP_RMEM {
        vec![reg, val]
    } else if op == OP_POP || op == OP_IN {
        vec![reg]
    } else if op == OP_EQ || op == OP_GT || (OP_ADD <= op && op <= OP_OR) {
        vec![reg, val, val]
    } else if op == OP_PUSH || op == OP_JMP || op == OP_CALL || op == OP_OUT {
        vec![val]
    } else if op == OP_JT || op == OP_JF || op == OP_WMEM {
        vec![val, val]
    } else {
        Vec::new()
    };
    assert(r@ =~= arg_kinds(op));
    r
}

/// If decoding a prefix of the operands faults, decoding them all faults the same way.
proof fn lemma_decode_prefix_fault(s: VmState, start: int, kinds: Seq<ArgKind>, i: int)
    requires
        0 <= i <= kinds.len(),
        decode(s, start, kinds.subrange(0, i)) is Err,
    ensures
        decode(s, start, kinds) == decode(s, start, kinds.subrange(0, i)),
    decreases kinds.len() - i,
{
    if i < kinds.len() {
        let next = kinds.subrange(0, i + 1);
        assert(next.drop_last() =~= kinds.subrange(0, i));
        lemma_decode_prefix_fault(s, start, kinds, i + 1);
    } else {
        assert(kinds.subrange(0, i) =~= kinds);
    }
}

/// `cells` holds the `n` memory words that follow the code pointer of `s`.
pub open spec fn cells_read(cells: Seq<u16>, s: VmState, n: int) -> bool {
    cells.len() == n && forall|j: int| 0 <= j < n ==> cells[j] == s.memory[s.cp + j]
}

/// The processor state: memory, registers, stack, code pointer, input queue
/// and run flag, with the instruction set's semantics.
pub struct Cpu {
    memory: Vec<u16>,
    register: Vec<u16>,
    stack: Vec<u16>,
    cp: usize,
    input: InputBuffer,
    is_running: bool,
}

impl View for Cpu {
    type V = VmState;

    closed spec fn view(&self) -> VmState {
        VmState {
            memory: self.memory@,
            registers: self.register@,
            stack: self.stack@,
            cp: self.cp as int,
            input: self.input@,
            running: self.is_running,
        }
    }
}

impl Cpu {
    pub closed spec fn wf(&self) -> bool {
        &&& self.memory@.len() == MEMORY_SIZE
        &&& self.register@.len() == REGISTERS_COUNT
        &&& self.input.wf()
    }

    /// A well-formed processor has the shape of the model: full memory,
    /// eight registers, a code pointer of at least 0.
    pub proof fn lemma_wf_shape(&self)
        requires
            self.wf(),
        ensures
            well_formed(self@),
    {
    }

    /// A stopped processor over `memory`, with zeroed registers, an empty
    /// stack and an empty input queue.
    pub fn from_memory(memory: Vec<u16>) -> (r: Cpu)
        requires
            memory@.len() == MEMORY_SIZE,
        ensures
            r.wf(),
            r@ == (VmState {
                memory: memory@,
                registers: seq![0u16, 0, 0, 0, 0, 0, 0, 0],
                stack: Seq::empty(),
                cp: 0,
                input: Seq::empty(),
                running: false,
            }),
    {
        let register: Vec<u16> = vec![0u16; REGISTERS_COUNT];
        let c = Cpu {
            memory,
            register,
            stack: Vec::new(),
            cp: 0,
            input: InputBuffer::new(),
            is_running: false,
        };
        assert(c@.registers =~= seq![0u16, 0, 0, 0, 0, 0, 0, 0]);
        c
    }

    /// Replaces the pending input with the script: each line, then a newline.
    pub fn write_to_input_buffer(&mut self, strings: &Vec<String>)
        requires
            old(self).wf(),
        ensures
            final(self).wf(),
            final(self)@ == (VmState { input: script_bytes(strings@), ..old(self)@ }),
    {
        self.input.load_script(strings);
    }

    /// Hands a line read from the terminal (newline included) to the input queue.
    pub fn supply_line(&mut self, line: &String) -> (r: Result<LineOutcome, MachineError>)
        requires
            old(self).wf(),
        ensures
            final(self).wf(),
            line@.len() == 0 ==> r == Err::<LineOutcome, MachineError>(
                MachineError::EmptyInputBuffer,
            ) && final(self)@ == old(self)@,
            line@ == debugger_escape() ==> r == Ok::<LineOutcome, MachineError>(
                LineOutcome::OpenDebugger,
            ) && final(self)@ == old(self)@,
            line@.len() != 0 && line@ != debugger_escape() ==> r == Ok::<
                LineOutcome,
                MachineError,
            >(LineOutcome::Queued) && final(self)@ == (VmState {
                input: old(self)@.input + vstd::utf8::encode_utf8(line@),
                ..old(self)@
            }),
    {
        self.input.supply_line(line)
    }

    /// Raises the run flag.
    pub fn start(&mut self)
        requires
            old(self).wf(),
        ensures
            final(self).wf(),
            final(self)@ == (VmState { running: true, ..old(self)@ }),
    {
        self.is_running = true;
    }

    pub fn is_running(&self) -> (r: bool)
        ensures
            r == self@.running,
    {
        self.is_running
    }

    /// The register file, registers 0 to 7 in order.
    pub fn registers(&self) -> (r: &Vec<u16>)
        requires
            self.wf(),
        ensures
            r@ == self@.registers,
            r@.len() == REGISTERS_COUNT,
    {
        &self.register
    }

    /// The stack, bottom first.
    pub fn stack(&self) -> (r: &Vec<u16>)
        ensures
            r@ == self@.stack,
    {
        &self.stack
    }

    pub fn code_pointer(&self) -> (r: usize)
        ensures
            r as int == self@.cp,
    {
        self.cp
    }

    /// The word at `address`, or 0 outside memory.
    pub fn opcode_at(&self, address: usize) -> (r: u16)
        requires
            self.wf(),
        ensures
            (address as int) < MEMORY_SIZE ==> r == self@.memory[address as int],
            (address as int) >= MEMORY_SIZE ==> r == 0,
    {
        if address < MEMORY_SIZE {
            self.memory[address]
        } else {
            0
        }
    }

    /// Overwrites register `idx` with `value`.
    pub fn set_register(&mut self, idx: usize, value: u16)
        requires
            old(self).wf(),
            idx < REGISTERS_COUNT,
        ensures
            final(self).wf(),
            final(self)@ == with_register(old(self)@, idx as u16, value),
    {
        self.write_register(idx as u16, value);
    }

    /// Moves the code pointer; an address outside memory faults at the next fetch.
    pub fn set_code_pointer(&mut self, cp: usize)
        requires
            old(self).wf(),
        ensures
            final(self).wf(),
            final(self)@ == (VmState { cp: cp as int, ..old(self)@ }),
    {
        self.cp = cp;
    }

    /// Drops the run flag and reports `e`.
    fn trap(&mut self, e: MachineError) -> (r: Result<Event, MachineError>)
        requires
            old(self).wf(),
        ensures
            final(self).wf(),
            final(self)@ == fault(old(self)@, old(self)@.cp, e).state,
            r == Err::<Event, MachineError>(e),
    {
        self.is_running = false;
        Err(e)
    }

    fn read_next(&mut self) -> (r: Result<u16, MachineError>)
        requires
            old(self).wf(),
        ensures
            final(self).wf(),
            r == fetch(old(self)@, old(self)@.cp),
            final(self)@ == (VmState { cp: after_read(old(self)@.cp), ..old(self)@ }),
    {
        let value = self.read_memory_at(self.cp)?;
        self.cp = self.cp + 1;
        Ok(value)
    }

    fn read_memory_at(&self, address: usize) -> (r: Result<u16, MachineError>)
        requires
            self.wf(),
        ensures
            r == fetch(self@, address as int),
    {
        if address < MEMORY_SIZE {
            Ok(self.memory[address])
        } else {
            Err(MachineError::MemoryAccessViolation(address))
        }
    }

    fn write_memory_at(&mut self, address: usize, value: u16) -> (r: Result<(), MachineError>)
        requires
            old(self).wf(),
        ensures
            final(self).wf(),
            (address as int) < MEMORY_SIZE ==> r is Ok && final(self)@ == (VmState {
                memory: old(self)@.memory.update(address as int, value),
                ..old(self)@
            }),
            (address as int) >= MEMORY_SIZE ==> r == Err::<(), MachineError>(
                MachineError::MemoryAccessViolation(address),
            ) && final(self)@ == old(self)@,
    {
        if address < MEMORY_SIZE {
            self.memory.set(address, value);
            Ok(())
        } else {
            Err(MachineError::MemoryAccessViolation(address))
        }
    }

    fn write_register(&mut self, reg_idx: u16, value: u16)
        requires
            old(self).wf(),
            reg_idx < REGISTERS_COUNT,
        ensures
            final(self).wf(),
            final(self)@ == with_register(old(self)@, reg_idx, value),
    {
        self.register.set(reg_idx as usize, value);
    }

    /// Reads a value operand: a literal, or the content of the register named.
    fn read_value(&mut self) -> (r: Result<u16, MachineError>)
        requires
            old(self).wf(),
        ensures
            final(self).wf(),
            r == arg_at(old(self)@, old(self)@.cp, ArgKind::Value),
            final(self)@ == (VmState { cp: after_read(old(self)@.cp), ..old(self)@ }),
    {
        let cell = self.read_next()?;
        resolve_value(&self.register, cell)
    }

    /// Reads an operand that must name a register, and returns the register's index.
    fn read_register_idx(&mut self) -> (r: Result<u16, MachineError>)
        requires
            old(self).wf(),
        ensures
            final(self).wf(),
            r == arg_at(old(self)@, old(self)@.cp, ArgKind::Register),
            r is Ok ==> r->Ok_0 < REGISTERS_COUNT,
            final(self)@ == (VmState { cp: after_read(old(self)@.cp), ..old(self)@ }),
    {
        let cell = self.read_next()?;
        let idx = expect_register(cell)?;
        Ok(idx as u16)
    }

    /// Reads the operands of one instruction in order. Returns the raw cells and
    /// the decoded operands.
    fn read_args(&mut self, kinds: &Vec<ArgKind>) -> (r: Result<(Vec<u16>, Vec<u16>), MachineError>)
        requires
            old(self).wf(),
            kinds@.len() <= 3,
        ensures
            final(self).wf(),
            match decode(old(self)@, old(self)@.cp, kinds@) {
                Ok(args) => {
                    &&& r is Ok
                    &&& r->Ok_0.1@ == args
                    &&& cells_read(r->Ok_0.0@, old(self)@, kinds@.len() as int)
                    &&& final(self)@ == (VmState { cp: old(self)@.cp + kinds@.len(), ..old(self)@ })
                },
                Err(x) => {
                    &&& r == Err::<(Vec<u16>, Vec<u16>), MachineError>(x.0)
                    &&& final(self)@ == (VmState { cp: x.1, ..old(self)@ })
                },
            },
    {
        let ghost s0 = self@;
        let ghost start = self@.cp;
        let mut cells: Vec<u16> = Vec::new();
        let mut args: Vec<u16> = Vec::new();
        let mut i: usize = 0;
        while i < kinds.len()
            invariant
                self.wf(),
                i <= kinds@.len() <= 3,
                s0 == old(self)@,
                start == s0.cp,
                self@ == (VmState { cp: start + i, ..s0 }),
                decode(s0, start, kinds@.subrange(0, i as int)) == Ok::<Seq<u16>, (MachineError, int)>(args@),
                cells_read(cells@, s0, i as int),
            decreases kinds@.len() - i,
        {
            let ghost prefix = kinds@.subrange(0, i + 1);
            assert(prefix.drop_last() =~= kinds@.subrange(0, i as int));
            let ghost before = self@;
            let cell = if self.cp < MEMORY_SIZE { self.memory[self.cp] } else { 0 };
            let arg = match kinds[i] {
                ArgKind::Register => self.read_register_idx(),
                ArgKind::Value => self.read_value(),
            };
            assert(arg == arg_at(s0, start + i, kinds@[i as int]));
            match arg {
                Ok(v) => {
                    let ghost old_cells = cells@;
                    cells.push(cell);
                    args.push(v);
                    assert(prefix.last() == kinds@[i as int]);
                    assert(decode(s0, start, prefix) == Ok::<Seq<u16>, (MachineError, int)>(args@));
                    assert(cells@[i as int] == s0.memory[start + i]);
                    assert forall|j: int| 0 <= j < i + 1 implies cells@[j] == s0.memory[s0.cp + j] by {
                        if j < i {
                            assert(cells@[j] == old_cells[j]);
                        }
                    }
                    assert(cells_read(cells@, s0, i + 1));
                },
                Err(e) => {
                    proof {
                        assert(prefix.last() == kinds@[i as int]);
                        assert(decode(s0, start, prefix) == Err::<Seq<u16>, (MachineError, int)>(
                            (e, after_read(start + i)),
                        ));
                        lemma_decode_prefix_fault(s0, start, kinds@, i + 1);
                        assert(decode(s0, start, kinds@) == Err::<Seq<u16>, (MachineError, int)>(
                            (e, after_read(start + i)),
                        ));
                        assert(self@ == (VmState { cp: after_read(start + i), ..s0 }));
                    }
                    return Err(e);
                },
            }
            i = i + 1;
        }
        assert(kinds@.subrange(0, i as int) =~= kinds@);
        Ok((cells, args))
    }

    // -- operations; each takes the decoded operands of its instruction

    /// halt: stop execution.
    fn halt(&mut self) -> (r: Result<Event, MachineError>)
        requires
            old(self).wf(),
        ensures
            final(self).wf(),
            performs(final(self)@, r, op_halt(old(self)@)),
    {
        self.is_running = false;
        Ok(Event::Halted)
    }

    /// set a b: register a takes the value b.
    fn set(&mut self, args: &Vec<u16>) -> (r: Result<Event, MachineError>)
        requires
            old(self).wf(),
            operands_fit(arg_kinds(OP_SET), args@),
        ensures
            final(self).wf(),
            performs(final(self)@, r, op_set(old(self)@, args@)),
    {
        self.write_register(args[0], args[1]);
        Ok(Event::Executed)
    }

    /// push a: push a onto the stack.
    fn push(&mut self, args: &Vec<u16>) -> (r: Result<Event, MachineError>)
        requires
            old(self).wf(),
            operands_fit(arg_kinds(OP_PUSH), args@),
        ensures
            final(self).wf(),
            performs(final(self)@, r, op_push(old(self)@, args@)),
    {
        self.stack.push(args[0]);
        Ok(Event::Executed)
    }

    /// pop a: remove the top of the stack into register a; an empty stack faults.
    fn pop(&mut self, args: &Vec<u16>) -> (r: Result<Event, MachineError>)
        requires
            old(self).wf(),
            operands_fit(arg_kinds(OP_POP), args@),
        ensures
            final(self).wf(),
            performs(final(self)@, r, op_pop(old(self)@, args@)),
    {
        match self.stack.pop() {
            Some(value) => {
                self.write_register(args[0], value);
                Ok(Event::Executed)
            },
            None => self.trap(MachineError::PopOnEmptyStack),
        }
    }

    /// eq a b c: register a takes 1 if b equals c, else 0.
    fn eq(&mut self, args: &Vec<u16>) -> (r: Result<Event, MachineError>)
        requires
            old(self).wf(),
            operands_fit(arg_kinds(OP_EQ), args@),
        ensures
            final(self).wf(),
            performs(final(self)@, r, op_eq(old(self)@, args@)),
    {
        self.write_register(args[0], if args[1] == args[2] { 1 } else { 0 });
        Ok(Event::Executed)
    }

    /// gt a b c: register a takes 1 if b is greater than c, else 0.
    fn gt(&mut self, args: &Vec<u16>) -> (r: Result<Event, MachineError>)
        requires
            old(self).wf(),
            operands_fit(arg_kinds(OP_GT), args@),
        ensures
            final(self).wf(),
            performs(final(self)@, r, op_gt(old(self)@, args@)),
    {
        self.write_register(args[0], if args[1] > args[2] { 1 } else { 0 });
        Ok(Event::Executed)
    }

    /// jmp a: continue at a.
    fn jmp(&mut self, args: &Vec<u16>) -> (r: Result<Event, MachineError>)
        requires
            old(self).wf(),
            operands_fit(arg_kinds(OP_JMP), args@),
        ensures
            final(self).wf(),
            performs(final(self)@, r, op_jmp(old(self)@, args@)),
    {
        self.cp = args[0] as usize;
        Ok(Event::Executed)
    }

    /// jt a b: continue at b if a is nonzero.
    fn jt(&mut self, args: &Vec<u16>) -> (r: Result<Event, MachineError>)
        requires
            old(self).wf(),
            operands_fit(arg_kinds(OP_JT), args@),
        ensures
            final(self).wf(),
            performs(final(self)@, r, op_jt(old(self)@, args@)),
    {
        if args[0] != 0 {
            self.cp = args[1] as usize;
        }
        Ok(Event::Executed)
    }

    /// jf a b: continue at b if a is zero.
    fn jf(&mut self, args: &Vec<u16>) -> (r: Result<Event, MachineError>)
        requires
            old(self).wf(),
            operands_fit(arg_kinds(OP_JF), args@),
        ensures
            final(self).wf(),
            performs(final(self)@, r, op_jf(old(self)@, args@)),
    {
        if args[0] == 0 {
            self.cp = args[1] as usize;
        }
        Ok(Event::Executed)
    }

    /// add a b c: register a takes (b + c) mod 32768. The sum is formed in 32
    /// bits, so operands read from registers that hold raw words cannot overflow.
    fn add(&mut self, args: &Vec<u16>) -> (r: Result<Event, MachineError>)
        requires
            old(self).wf(),
            operands_fit(arg_kinds(OP_ADD), args@),
        ensures
            final(self).wf(),
            performs(final(self)@, r, op_add(old(self)@, args@)),
    {
        let sum = (args[1] as u32 + args[2] as u32) % (MODULUS as u32);
        self.write_register(args[0], sum as u16);
        Ok(Event::Executed)
    }

    /// mult a b c: register a takes (b * c) mod 32768, formed in 32 bits.
    fn mult(&mut self, args: &Vec<u16>) -> (r: Result<Event, MachineError>)
        requires
            old(self).wf(),
            operands_fit(arg_kinds(OP_MULT), args@),
        ensures
            final(self).wf(),
            performs(final(self)@, r, op_mult(old(self)@, args@)),
    {
        let b = args[1] as u32;
        let c = args[2] as u32;
        assert(b * c <= 65535 * 65535) by (nonlinear_arith)
            requires
                b <= 65535,
                c <= 65535,
        ;
        let product = (b * c) % (MODULUS as u32);
        self.write_register(args[0], product as u16);
        Ok(Event::Executed)
    }

    /// mod a b c: register a takes b mod c; a zero divisor faults.
    fn mod_op(&mut self, args: &Vec<u16>) -> (r: Result<Event, MachineError>)
        requires
            old(self).wf(),
            operands_fit(arg_kinds(OP_MOD), args@),
        ensures
            final(self).wf(),
            performs(final(self)@, r, op_mod(old(self)@, args@)),
    {
        if args[2] == 0 {
            return self.trap(MachineError::DivisionByZero);
        }
        self.write_register(args[0], args[1] % args[2]);
        Ok(Event::Executed)
    }

    /// and a b c: register a takes the bitwise and of b and c.
    fn and(&mut self, args: &Vec<u16>) -> (r: Result<Event, MachineError>)
        requires
            old(self).wf(),
            operands_fit(arg_kinds(OP_AND), args@),
        ensures
            final(self).wf(),
            performs(final(self)@, r, op_and(old(self)@, args@)),
    {
        self.write_register(args[0], args[1] & args[2]);
        Ok(Event::Executed)
    }

    /// or a b c: register a takes the bitwise or of b and c.
    fn or(&mut self, args: &Vec<u16>) -> (r: Result<Event, MachineError>)
        requires
            old(self).wf(),
            operands_fit(arg_kinds(OP_OR), args@),
        ensures
            final(self).wf(),
            performs(final(self)@, r, op_or(old(self)@, args@)),
    {
        self.write_register(args[0], args[1] | args[2]);
        Ok(Event::Executed)
    }

    /// not a b: register a takes the 15-bit bitwise inverse of b.
    fn not(&mut self, args: &Vec<u16>) -> (r: Result<Event, MachineError>)
        requires
            old(self).wf(),
            operands_fit(arg_kinds(OP_NOT), args@),
        ensures
            final(self).wf(),
            performs(final(self)@, r, op_not(old(self)@, args@)),
    {
        self.write_register(args[0], !args[1] & VALUE_MASK);
        Ok(Event::Executed)
    }

    /// rmem a b: register a takes the memory word at address b.
    fn rmem(&mut self, args: &Vec<u16>) -> (r: Result<Event, MachineError>)
        requires
            old(self).wf(),
            operands_fit(arg_kinds(OP_RMEM), args@),
        ensures
            final(self).wf(),
            performs(final(self)@, r, op_rmem(old(self)@, args@)),
    {
        match self.read_memory_at(args[1] as usize) {
            Ok(value) => {
                self.write_register(args[0], value);
                Ok(Event::Executed)
            },
            Err(e) => self.trap(e),
        }
    }

    /// wmem a b: the memory word at address a takes the value b.
    fn wmem(&mut self, args: &Vec<u16>) -> (r: Result<Event, MachineError>)
        requires
            old(self).wf(),
            operands_fit(arg_kinds(OP_WMEM), args@),
        ensures
            final(self).wf(),
            performs(final(self)@, r, op_wmem(old(self)@, args@)),
    {
        match self.write_memory_at(args[0] as usize, args[1]) {
            Ok(()) => Ok(Event::Executed),
            Err(e) => self.trap(e),
        }
    }

    /// call a: push the address of the next instruction, then continue at a.
    fn call(&mut self, args: &Vec<u16>) -> (r: Result<Event, MachineError>)
        requires
            old(self).wf(),
            old(self)@.cp <= MEMORY_SIZE,
            operands_fit(arg_kinds(OP_CALL), args@),
        ensures
            final(self).wf(),
            performs(final(self)@, r, op_call(old(self)@, args@)),
    {
        self.stack.push(self.cp as u16);
        self.cp = args[0] as usize;
        Ok(Event::Executed)
    }

    /// ret: continue at the address popped from the stack; an empty stack halts.
    fn ret(&mut self) -> (r: Result<Event, MachineError>)
        requires
            old(self).wf(),
        ensures
            final(self).wf(),
            performs(final(self)@, r, op_ret(old(self)@)),
    {
        match self.stack.pop() {
            Some(address) => {
                self.cp = address as usize;
                Ok(Event::Executed)
            },
            None => {
                self.is_running = false;
                Ok(Event::Halted)
            },
        }
    }

    /// out a: hand the low byte of a to the host for the terminal.
    fn out(&mut self, args: &Vec<u16>) -> (r: Result<Event, MachineError>)
        requires
            old(self).wf(),
            operands_fit(arg_kinds(OP_OUT), args@),
        ensures
            final(self).wf(),
            performs(final(self)@, r, op_out(old(self)@, args@)),
    {
        Ok(Event::Output((args[0] % 256) as u8))
    }

    /// in a: register a takes the next pending input byte. With nothing
    /// pending, the code pointer returns to `p`, the instruction's address.
    fn in_op(&mut self, p: usize, args: &Vec<u16>) -> (r: Result<Event, MachineError>)
        requires
            old(self).wf(),
            operands_fit(arg_kinds(OP_IN), args@),
        ensures
            final(self).wf(),
            performs(final(self)@, r, op_in(old(self)@, p as int, args@)),
    {
        match self.input.next_byte() {
            Some(ascii) => {
                self.write_register(args[0], ascii as u16);
                Ok(Event::Executed)
            },
            None => {
                self.cp = p;
                Ok(Event::NeedInput)
            },
        }
    }

    /// noop: no operation.
    fn noop(&self) -> (r: Result<Event, MachineError>)
        ensures
            r == Ok::<Event, MachineError>(Event::Executed),
    {
        Ok(Event::Executed)
    }

    /// Carries out opcode `op` on its decoded operands.
    fn dispatch(&mut self, p: usize, op: u16, args: &Vec<u16>) -> (r: Result<Event, MachineError>)
        requires
            old(self).wf(),
            op <= OP_NOOP,
            old(self)@.cp <= MEMORY_SIZE,
            operands_fit(arg_kinds(op), args@),
        ensures
            final(self).wf(),
            performs(final(self)@, r, execute(old(self)@, p as int, op, args@)),
    {
        if op == OP_HALT {
            self.halt()
        } else if op == OP_SET {
            self.set(args)
        } else if op == OP_PUSH {
            self.push(args)
        } else if op == OP_POP {
            self.pop(args)
        } else if op == OP_EQ {
            self.eq(args)
        } else if op == OP_GT {
            self.gt(args)
        } else if op == OP_JMP {
            self.jmp(args)
        } else if op == OP_JT {
            self.jt(args)
        } else if op == OP_JF {
            self.jf(args)
        } else if op == OP_ADD {
            self.add(args)
        } else if op == OP_MULT {
            self.mult(args)
        } else if op == OP_MOD {
            self.mod_op(args)
        } else if op == OP_AND {
            self.and(args)
        } else if op == OP_OR {
            self.or(args)
        } else if op == OP_NOT {
            self.not(args)
        } else if op == OP_RMEM {
            self.rmem(args)
        } else if op == OP_WMEM {
            self.wmem(args)
        } else if op == OP_CALL {
            self.call(args)
        } else if op == OP_RET {
            self.ret()
        } else if op == OP_OUT {
            self.out(args)
        } else if op == OP_IN {
            self.in_op(p, args)
        } else {
            self.noop()
        }
    }

    /// Fetches, decodes and executes one instruction at the code pointer. A
    /// fault drops the run flag. Returns the raw operand cells and the decoded
    /// operands as well, for the trace.
    pub fn execute_instruction(&mut self) -> (r: (Result<Event, MachineError>, Vec<u16>, Vec<u16>))
        requires
            old(self).wf(),
        ensures
            final(self).wf(),
            performs(final(self)@, r.0, step(old(self)@)),
            r.0 is Ok ==> {
                let kinds = arg_kinds(old(self)@.memory[old(self)@.cp]);
                &&& cells_read(r.1@, VmState { cp: old(self)@.cp + 1, ..old(self)@ }, kinds.len() as int)
                &&& r.2@ == decode(old(self)@, old(self)@.cp + 1, kinds)->Ok_0
            },
    {
        let p = self.cp;
        let op = match self.read_next() {
            Ok(op) => op,
            Err(e) => return (self.trap(e), Vec::new(), Vec::new()),
        };
        if op > OP_NOOP {
            return (self.trap(MachineError::UnexpectedOpcode(op)), Vec::new(), Vec::new());
        }
        let kinds = operand_kinds(op);
        let ghost s1 = self@;
        proof {
            lemma_decode_frame(s1, old(self)@, s1.cp, kinds@);
        }
        let (cells, args) = match self.read_args(&kinds) {
            Ok(x) => x,
            Err(e) => return (self.trap(e), Vec::new(), Vec::new()),
        };
        proof {
            assert(s1 == (VmState { cp: old(self)@.cp + 1, ..old(self)@ }));
            lemma_decode_frame(s1, old(self)@, s1.cp, kinds@);
            lemma_decode_fits(old(self)@, old(self)@.cp + 1, kinds@);
        }
        let r = self.dispatch(p, op, &args);
        (r, cells, args)
    }
}

} // verus!
