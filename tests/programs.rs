use synacor_vm::common::MachineError;
use synacor_vm::machine::Machine;
use synacor_vm::model::Event;
use synacor_vm::operand::{classify, expect_register, resolve_value, Operand};

fn image(words: &[u16]) -> Vec<u8> {
    let mut bytes = Vec::new();
    for w in words {
        bytes.push((*w & 0xff) as u8);
        bytes.push((*w >> 8) as u8);
    }
    bytes
}

/// Runs until the machine stops; returns what it wrote and how it stopped.
fn run(words: &[u16]) -> (Vec<u8>, Result<Event, MachineError>) {
    let mut machine = Machine::new(&image(words)).unwrap();
    machine.start();
    let mut output = Vec::new();
    for _ in 0..10_000 {
        match machine.perform_operation() {
            Ok(Event::Output(b)) => output.push(b),
            Ok(Event::Halted) => return (output, Ok(Event::Halted)),
            Ok(Event::NeedInput) => return (output, Ok(Event::NeedInput)),
            Ok(_) => {}
            Err(e) => return (output, Err(e)),
        }
    }
    panic!("program did not stop");
}

#[test]
fn smoke_prints_ab() {
    let (out, end) = run(&[19, 65, 19, 66, 0]);
    assert_eq!(out, b"AB".to_vec());
    assert_eq!(end, Ok(Event::Halted));
}

#[test]
fn register_arithmetic_prints_150() {
    let (out, end) = run(&[1, 32768, 100, 1, 32769, 50, 9, 32770, 32768, 32769, 19, 32770, 0]);
    assert_eq!(out, vec![150u8]);
    assert_eq!(end, Ok(Event::Halted));
}

#[test]
fn call_and_return_print_xz() {
    let (out, end) = run(&[17, 5, 19, 90, 0, 19, 88, 18]);
    assert_eq!(out, b"XZ".to_vec());
    assert_eq!(end, Ok(Event::Halted));
}

#[test]
fn not_masks_to_fifteen_bits() {
    let (out, end) = run(&[14, 32768, 0, 19, 32768, 0]);
    assert_eq!(out, vec![0xffu8]);
    assert_eq!(end, Ok(Event::Halted));
}

#[test]
fn add_wraps_modulo_32768() {
    // r1 = (30000 + 3000) mod 32768 = 232
    let (out, end) = run(&[1, 32768, 30000, 9, 32769, 32768, 3000, 19, 32769, 0]);
    assert_eq!(out, vec![232u8]);
    assert_eq!(end, Ok(Event::Halted));
}

#[test]
fn pop_on_empty_stack_is_fatal() {
    let mut machine = Machine::new(&image(&[3, 32768, 0])).unwrap();
    machine.start();
    assert_eq!(machine.perform_operation(), Err(MachineError::PopOnEmptyStack));
    assert!(!machine.is_running());
}

#[test]
fn ret_on_empty_stack_halts_cleanly() {
    let (out, end) = run(&[19, 81, 18, 19, 82]);
    assert_eq!(out, b"Q".to_vec());
    assert_eq!(end, Ok(Event::Halted));
}

#[test]
fn mult_wraps_modulo_32768() {
    // r0 = 300 * 300 mod 32768 = 24464; 24464 & 0xff = 144
    let (out, _) = run(&[10, 32768, 300, 300, 19, 32768, 0]);
    assert_eq!(out, vec![144u8]);
}

#[test]
fn mod_and_or_eq_gt() {
    let (out, _) = run(&[
        11, 32768, 17, 5, 19, 32768, // 17 mod 5 = 2
        12, 32769, 12, 10, 19, 32769, // 12 & 10 = 8
        13, 32770, 12, 3, 19, 32770, // 12 | 3 = 15
        4, 32771, 7, 7, 19, 32771, // 7 == 7
        5, 32772, 3, 7, 19, 32772, // 3 > 7
        0,
    ]);
    assert_eq!(out, vec![2u8, 8, 15, 1, 0]);
}

#[test]
fn mod_by_zero_is_fatal() {
    let (_, end) = run(&[11, 32768, 5, 0, 0]);
    assert_eq!(end, Err(MachineError::DivisionByZero));
}

#[test]
fn jumps_follow_conditions() {
    // jt 1 -> 6 skips out 'A'; jf 0 -> 12 skips out 'B'; out 'C'; halt
    let (out, _) = run(&[7, 1, 6, 19, 65, 0, 8, 0, 12, 19, 66, 0, 19, 67, 0]);
    assert_eq!(out, b"C".to_vec());
}

#[test]
fn jump_target_through_register() {
    // set r0 6; jmp r0; halt; out 'J'; halt
    let (out, _) = run(&[1, 32768, 6, 6, 32768, 0, 19, 74, 0]);
    assert_eq!(out, b"J".to_vec());
}

#[test]
fn push_then_pop_round_trip() {
    let (out, _) = run(&[2, 77, 3, 32769, 19, 32769, 0]);
    assert_eq!(out, b"M".to_vec());
}

#[test]
fn wmem_then_rmem_round_trip() {
    let (out, _) = run(&[16, 1000, 87, 15, 32770, 1000, 19, 32770, 0]);
    assert_eq!(out, b"W".to_vec());
}

#[test]
fn unknown_opcode_is_fatal() {
    let (_, end) = run(&[22]);
    assert_eq!(end, Err(MachineError::UnexpectedOpcode(22)));
}

#[test]
fn invalid_operand_cell() {
    let (_, end) = run(&[19, 32776]);
    assert_eq!(end, Err(MachineError::InvalidNumber(32776)));
}

#[test]
fn literal_where_register_is_required() {
    let (_, end) = run(&[1, 5, 5]);
    assert_eq!(end, Err(MachineError::RegisterAccessViolation(5)));
}

#[test]
fn invalid_cell_where_register_is_required() {
    let (_, end) = run(&[3, 32776]);
    assert_eq!(end, Err(MachineError::InvalidNumber(32776)));
}

#[test]
fn running_off_the_end_of_memory() {
    // The code pointer is moved past memory through the debugger.
    let mut machine = Machine::new(&image(&[21])).unwrap();
    machine.start();
    machine.debug_command(&synacor_vm::command_parser::DebuggerCommand::CodePointerWrite(32768));
    assert_eq!(
        machine.perform_operation(),
        Err(MachineError::MemoryAccessViolation(32768))
    );
}

#[test]
fn rmem_outside_memory() {
    // rmem r0 7 loads the raw word 40000; rmem r1 r0 then reads outside memory.
    let (_, end) = run(&[15, 32768, 7, 15, 32769, 32768, 0, 40000]);
    assert_eq!(end, Err(MachineError::MemoryAccessViolation(40000)));
}

#[test]
fn odd_program_is_rejected() {
    assert_eq!(
        Machine::new(&vec![1u8, 2, 3]).err(),
        Some(MachineError::InvalidProgramSize(3))
    );
}

#[test]
fn oversized_program_is_rejected() {
    assert_eq!(
        Machine::new(&vec![0u8; 65538]).err(),
        Some(MachineError::NotEnoughMemory(65538))
    );
}

#[test]
fn largest_program_loads() {
    let mut bytes = vec![0u8; 65536];
    bytes[65534] = 0x34;
    bytes[65535] = 0x12;
    let memory = Machine::setup_memory(&bytes).unwrap();
    assert_eq!(memory.len(), 32768);
    assert_eq!(memory[32767], 0x1234);
}

#[test]
fn loader_is_little_endian_and_zero_fills() {
    let memory = synacor_vm::common::setup_memory(&vec![0x01, 0x02, 0xff, 0x7f]).unwrap();
    assert_eq!(memory.len(), 32768);
    assert_eq!(memory[0], 0x0201);
    assert_eq!(memory[1], 0x7fff);
    assert_eq!(memory[2], 0);
    assert_eq!(memory[32767], 0);
}

#[test]
fn empty_program_loads() {
    let memory = Machine::setup_memory(&Vec::new()).unwrap();
    assert_eq!(memory.len(), 32768);
    assert!(memory.iter().all(|w| *w == 0));
}

#[test]
fn registers_stay_fifteen_bit() {
    let mut machine = Machine::new(&image(&[
        14, 32768, 0, // r0 = 32767
        9, 32769, 32768, 32768, // r1 = 32766
        10, 32770, 32768, 32768, // r2 = 1
        12, 32771, 32768, 32769, // r3 = 32766
        13, 32772, 32768, 32769, // r4 = 32767
        0,
    ]))
    .unwrap();
    machine.start();
    while machine.perform_operation() != Ok(Event::Halted) {}
    let reply = machine.debug_command(&synacor_vm::command_parser::DebuggerCommand::RegistersPrint);
    assert_eq!(
        reply.lines[..5].to_vec(),
        vec!["reg[0] = 32767", "reg[1] = 32766", "reg[2] = 1", "reg[3] = 32766", "reg[4] = 32767"]
    );
}

#[test]
fn operand_cells_are_classified() {
    assert_eq!(classify(0), Operand::Literal(0));
    assert_eq!(classify(32767), Operand::Literal(32767));
    assert_eq!(classify(32768), Operand::Register(0));
    assert_eq!(classify(32775), Operand::Register(7));
    assert_eq!(classify(32776), Operand::Invalid(32776));
    let registers = vec![5u16, 6, 7, 8, 9, 10, 11, 12];
    assert_eq!(resolve_value(&registers, 32769), Ok(6));
    assert_eq!(resolve_value(&registers, 42), Ok(42));
    assert_eq!(resolve_value(&registers, 65535), Err(MachineError::InvalidNumber(65535)));
    assert_eq!(expect_register(32775), Ok(7));
    assert_eq!(expect_register(12), Err(MachineError::RegisterAccessViolation(12)));
    assert_eq!(expect_register(40000), Err(MachineError::InvalidNumber(40000)));
}
