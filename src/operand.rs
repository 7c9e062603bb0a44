use vstd::prelude::*;

use crate::common::{MachineError, REGISTERS_COUNT, REGISTERS_OFFSET};

verus! {

/// What a raw 16-bit cell denotes when it is read as an operand.
#[derive(Debug, Clone, Copy, PartialEq, Eq, Structural)]
pub enum Operand {
    /// A numeric literal in `0..32768`.
    Literal(u16),
    /// A reference to the register with this index, `0..8`.
    Register(usize),
    /// A cell of 32776 or more, which denotes nothing.
    Invalid(u16),
}

/// The role an instruction gives to one of its operand cells.
#[derive(Debug, Clone, Copy, PartialEq, Eq, Structural)]
pub enum ArgKind {
    /// The cell must name a destination register.
    Register,
    /// The cell is resolved to a value: a literal, or a register's content.
    Value,
}

pub open spec fn classify_spec(cell: u16) -> Operand {
    if (cell as int) < REGISTERS_OFFSET as int {
        Operand::Literal(cell)
    } else if (cell as int) < REGISTERS_OFFSET + REGISTERS_COUNT {
        Operand::Register((cell - REGISTERS_OFFSET) as usize)
    } else {
        Operand::Invalid(cell)
    }
}

/// The value a cell resolves to, given the register file.
pub open spec fn value_of(registers: Seq<u16>, cell: u16) -> Result<u16, MachineError> {
    match classify_spec(cell) {
        Operand::Literal(v) => Ok(v),
        Operand::Register(r) => Ok(registers[r as int]),
        Operand::Invalid(c) => Err(MachineError::InvalidNumber(c)),
    }
}

/// The register index a cell names, where a register is required: a literal
/// is a `RegisterAccessViolation`, a cell of 32776 or more an `InvalidNumber`.
pub open spec fn register_of(cell: u16) -> Result<usize, MachineError> {
    match classify_spec(cell) {
        Operand::Register(r) => Ok(r),
        Operand::Literal(_) => Err(MachineError::RegisterAccessViolation(cell as usize)),
        Operand::Invalid(c) => Err(MachineError::InvalidNumber(c)),
    }
}

/// Classifies a raw cell as a literal, a register reference or an invalid cell.
pub fn classify(cell: u16) -> (r: Operand)
    ensures
        r == classify_spec(cell),
{
    if (cell as usize) < REGISTERS_OFFSET {
        Operand::Literal(cell)
    } else if (cell as usize) < REGISTERS_OFFSET + REGISTERS_COUNT {
        Operand::Register(cell as usize - REGISTERS_OFFSET)
    } else {
        Operand::Invalid(cell)
    }
}

/// Resolves a cell to a value, reading a register where the cell names one.
pub fn resolve_value(registers: &Vec<u16>, cell: u16) -> (r: Result<u16, MachineError>)
    requires
        registers@.len() == REGISTERS_COUNT,
    ensures
        r == value_of(registers@, cell),
{
    match classify(cell) {
        Operand::Literal(v) => Ok(v),
        Operand::Register(idx) => Ok(registers[idx]),
        Operand::Invalid(c) => Err(MachineError::InvalidNumber(c)),
    }
}

/// The register index named by a cell; `RegisterAccessViolation` for a
/// literal, `InvalidNumber` for an invalid cell.
pub fn expect_register(cell: u16) -> (r: Result<usize, MachineError>)
    ensures
        r == register_of(cell),
        r is Ok ==> r->Ok_0 < REGISTERS_COUNT,
{
    match classify(cell) {
        Operand::Register(idx) => Ok(idx),
        Operand::Literal(_) => Err(MachineError::RegisterAccessViolation(cell as usize)),
        Operand::Invalid(c) => Err(MachineError::InvalidNumber(c)),
    }
}

} // verus!
