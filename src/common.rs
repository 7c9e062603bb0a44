use vstd::prelude::*;

verus! {

/// Number of general purpose registers.
pub const REGISTERS_COUNT: usize = 8;

/// First cell value that denotes a register reference rather than a literal.
pub const REGISTERS_OFFSET: usize = 32768;

/// Size of the memory, in 16-bit words.
pub const MEMORY_SIZE: usize = 32768;

/// Largest number of bytes a program image may hold.
pub const MAX_PROGRAM_BYTES: usize = 65536;

/// Faults surfaced to the host.
#[derive(Debug, PartialEq, Eq)]
pub enum MachineError {
    /// An opcode outside `0..=21`.
    UnexpectedOpcode(u16),
    /// A fetch or memory access at this address, which lies outside memory.
    MemoryAccessViolation(usize),
    /// A cell that had to name a register but does not.
    RegisterAccessViolation(usize),
    /// A cell of 32776 or more where a value was expected.
    InvalidNumber(u16),
    /// `mod` with a zero divisor.
    DivisionByZero,
    /// `pop` on an empty stack.
    PopOnEmptyStack,
    /// The terminal produced no input where `in` needed some.
    EmptyInputBuffer,
    /// Reading the terminal failed; carries the reader's message.
    InputBufferError(String),
    /// The program image is larger than memory; carries its length in bytes.
    NotEnoughMemory(usize),
    /// The program image has an odd number of bytes; carries its length.
    InvalidProgramSize(usize),
}

/// The little-endian word stored at word index `i` of a program image.
pub open spec fn image_word(program: Seq<u8>, i: int) -> u16 {
    (program[2 * i] as int + 256 * (program[2 * i + 1] as int)) as u16
}

/// Memory as it stands after loading `program`: image words first, zeros after.
pub open spec fn loaded_memory(program: Seq<u8>) -> Seq<u16> {
    Seq::new(
        MEMORY_SIZE as nat,
        |i: int| if 2 * i + 1 < program.len() { image_word(program, i) } else { 0u16 },
    )
}

/// Whether `program` can be loaded: an even number of bytes, at most one per
/// byte of memory.
pub open spec fn loadable(program: Seq<u8>) -> bool {
    program.len() % 2 == 0 && program.len() <= MAX_PROGRAM_BYTES
}

/// The fault reported for an image that cannot be loaded.
pub open spec fn load_error(program: Seq<u8>) -> MachineError {
    if program.len() % 2 != 0 {
        MachineError::InvalidProgramSize(program.len() as usize)
    } else {
        MachineError::NotEnoughMemory(program.len() as usize)
    }
}

/// Builds the memory of a machine from a little-endian program image.
pub fn setup_memory(program: &Vec<u8>) -> (r: Result<Vec<u16>, MachineError>)
    ensures
        program@.len() % 2 != 0 ==> r == Err::<Vec<u16>, MachineError>(
            MachineError::InvalidProgramSize(program@.len() as usize),
        ),
        program@.len() % 2 == 0 && program@.len() > MAX_PROGRAM_BYTES ==> r == Err::<
            Vec<u16>,
            MachineError,
        >(MachineError::NotEnoughMemory(program@.len() as usize)),
        loadable(program@) <==> r is Ok,
        r is Ok ==> r->Ok_0@ == loaded_memory(program@),
{
    let len = program.len();
    if len % 2 != 0 {
        return Err(MachineError::InvalidProgramSize(len));
    }
    if len / 2 > MEMORY_SIZE {
        return Err(MachineError::NotEnoughMemory(len));
    }
    let mut memory: Vec<u16> = vec![0u16; MEMORY_SIZE];
    let words = len / 2;
    let mut w: usize = 0;
    while w < words
        invariant
            words * 2 == len,
            len == program@.len(),
            words <= MEMORY_SIZE,
            w <= words,
            memory@.len() == MEMORY_SIZE,
            forall|i: int| 0 <= i < w ==> memory@[i] == image_word(program@, i),
            forall|i: int| w <= i < MEMORY_SIZE ==> memory@[i] == 0u16,
        decreases words - w,
    {
        let lo = program[2 * w] as u16;
        let hi = program[2 * w + 1] as u16;
        memory.set(w, lo + 256 * hi);
        w = w + 1;
    }
    assert(memory@ =~= loaded_memory(program@));
    Ok(memory)
}

} // verus!
