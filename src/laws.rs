use vstd::prelude::*;

use crate::common::{MachineError, MEMORY_SIZE};
use crate::model::{
    arg_kinds, lemma_decode_fits, lemma_decode_values, operands, step, values_in_range,
    well_formed, Event, VmState, MODULUS, OP_ADD, OP_AND, OP_CALL, OP_MULT, OP_NOT, OP_OR, OP_POP,
    OP_PUSH, OP_RET, OP_RMEM, OP_WMEM, VALUE_MASK,
};

verus! {

/// A step succeeds only from a code pointer inside memory. From outside it
/// faults with `MemoryAccessViolation` at that address, and changes nothing
/// but the run flag.
pub proof fn lemma_fetch_in_bounds(s: VmState)
    requires
        well_formed(s),
    ensures
        step(s).result is Ok ==> 0 <= s.cp < MEMORY_SIZE,
        s.cp >= MEMORY_SIZE ==> step(s).result == Err::<Event, MachineError>(
            MachineError::MemoryAccessViolation(s.cp as usize),
        ) && step(s).state == (VmState { running: false, ..s }),
{
}

/// `add` leaves `(b + c) mod 32768` in its destination, `mult` leaves
/// `(b * c) mod 32768`.
pub proof fn lemma_arithmetic_wraps(s: VmState)
    requires
        well_formed(s),
        0 <= s.cp < MEMORY_SIZE,
        s.memory[s.cp] == OP_ADD || s.memory[s.cp] == OP_MULT,
        step(s).result is Ok,
    ensures
        ({
            let args = operands(s);
            let got = step(s).state.registers[args[0] as int];
            &&& s.memory[s.cp] == OP_ADD ==> got == (args[1] + args[2]) % (MODULUS as int)
            &&& s.memory[s.cp] == OP_MULT ==> got == (args[1] * args[2]) % (MODULUS as int)
            &&& got < MODULUS
        }),
{
    lemma_decode_fits(s, s.cp + 1, arg_kinds(s.memory[s.cp]));
}

/// `not` leaves the 15-bit inverse of its operand, with no bit above bit 14 set.
pub proof fn lemma_not_is_15_bit(s: VmState)
    requires
        well_formed(s),
        0 <= s.cp < MEMORY_SIZE,
        s.memory[s.cp] == OP_NOT,
        step(s).result is Ok,
    ensures
        ({
            let args = operands(s);
            let got = step(s).state.registers[args[0] as int];
            &&& got == !args[1] & VALUE_MASK
            &&& got < MODULUS
        }),
{
    lemma_decode_fits(s, s.cp + 1, arg_kinds(s.memory[s.cp]));
    let b = operands(s)[1];
    assert(!b & 0x7fffu16 < 0x8000u16) by (bit_vector);
}

/// `push x` followed by `pop r` leaves `x` in register `r` and the stack as it was.
pub proof fn lemma_push_pop_round_trip(s: VmState)
    requires
        well_formed(s),
        0 <= s.cp < MEMORY_SIZE,
        s.memory[s.cp] == OP_PUSH,
        step(s).result is Ok,
        ({
            let s1 = step(s).state;
            &&& 0 <= s1.cp < MEMORY_SIZE
            &&& s1.memory[s1.cp] == OP_POP
            &&& step(s1).result is Ok
        }),
    ensures
        ({
            let s1 = step(s).state;
            let s2 = step(s1).state;
            &&& s2.registers[operands(s1)[0] as int] == operands(s)[0]
            &&& s2.stack == s.stack
        }),
{
    let s1 = step(s).state;
    lemma_decode_fits(s, s.cp + 1, arg_kinds(OP_PUSH));
    lemma_decode_fits(s1, s1.cp + 1, arg_kinds(OP_POP));
    assert(s1.stack == s.stack.push(operands(s)[0]));
    assert(s1.stack.drop_last() =~= s.stack);
}

/// `wmem a b` followed by `rmem r a` leaves `b` in register `r`.
pub proof fn lemma_wmem_rmem_round_trip(s: VmState)
    requires
        well_formed(s),
        0 <= s.cp < MEMORY_SIZE,
        s.memory[s.cp] == OP_WMEM,
        step(s).result is Ok,
        ({
            let s1 = step(s).state;
            &&& 0 <= s1.cp < MEMORY_SIZE
            &&& s1.memory[s1.cp] == OP_RMEM
            &&& step(s1).result is Ok
            &&& operands(s1)[1] == operands(s)[0]
        }),
    ensures
        step(step(s).state).state.registers[operands(step(s).state)[0] as int] == operands(s)[1],
{
    let s1 = step(s).state;
    lemma_decode_fits(s, s.cp + 1, arg_kinds(OP_WMEM));
    lemma_decode_fits(s1, s1.cp + 1, arg_kinds(OP_RMEM));
}

/// `call` at `x` pushes `x + 2`, the address of the following instruction; a
/// later `ret` that finds the stack as `call` left it continues there.
pub proof fn lemma_call_returns(s: VmState, t: VmState)
    requires
        well_formed(s),
        well_formed(t),
        0 <= s.cp < MEMORY_SIZE,
        s.memory[s.cp] == OP_CALL,
        step(s).result is Ok,
        0 <= t.cp < MEMORY_SIZE,
        t.memory[t.cp] == OP_RET,
        t.stack == step(s).state.stack,
    ensures
        step(s).state.cp == operands(s)[0],
        step(t).state.cp == s.cp + 2,
        step(t).state.stack == s.stack,
        step(t).result == Ok::<Event, MachineError>(Event::Executed),
{
    lemma_decode_fits(s, s.cp + 1, arg_kinds(OP_CALL));
    assert(t.stack.drop_last() =~= s.stack);
}

/// Whether the step from `s` moves a word of 32768 or more into a register or
/// onto the stack: `rmem` of such a raw memory word, or `call` from the last
/// two cells of memory, whose return address is 32768.
pub open spec fn leaves_range(s: VmState) -> bool {
    let op = s.memory[s.cp];
    let b = operands(s)[1];
    ||| op == OP_RMEM && (b as int) < MEMORY_SIZE && s.memory[b as int] >= MODULUS
    ||| op == OP_CALL && s.cp + 2 == MEMORY_SIZE
}

/// Registers and stack stay 15-bit across every successful step but those of
/// `leaves_range`, and the code pointer stays within memory or just past it.
pub proof fn lemma_values_stay_in_range(s: VmState)
    requires
        well_formed(s),
        values_in_range(s),
        step(s).result is Ok,
        !leaves_range(s),
    ensures
        values_in_range(step(s).state),
        step(s).state.cp <= MEMORY_SIZE,
{
    let op = s.memory[s.cp];
    let kinds = arg_kinds(op);
    lemma_decode_fits(s, s.cp + 1, kinds);
    lemma_decode_values(s, s.cp + 1, kinds);
    let args = operands(s);
    let t = step(s).state;
    if op == OP_AND || op == OP_OR || op == OP_NOT {
        let b = args[1];
        let c = args[2];
        assert(b < 0x8000u16 && c < 0x8000u16 ==> b & c < 0x8000u16 && b | c < 0x8000u16)
            by (bit_vector);
        assert(!b & 0x7fffu16 < 0x8000u16) by (bit_vector);
    }
    if op == OP_POP || op == OP_RET {
        if s.stack.len() > 0 {
            assert(s.stack.last() == s.stack[s.stack.len() - 1]);
        }
    }
    assert forall|i: int| 0 <= i < t.registers.len() implies (#[trigger] t.registers[i]) < MODULUS by {
        if i != args[0] as int {
            assert(t.registers[i] == s.registers[i]);
        }
    }
    assert forall|i: int| 0 <= i < t.stack.len() implies (#[trigger] t.stack[i]) < MODULUS by {
        if i < s.stack.len() {
            assert(t.stack[i] == s.stack[i]);
        }
    }
}

} // verus!
