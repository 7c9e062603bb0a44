use synacor_vm::common::MachineError;
use synacor_vm::input::{InputBuffer, LineOutcome};
use synacor_vm::machine::Machine;
use synacor_vm::model::Event;

fn image(words: &[u16]) -> Vec<u8> {
    let mut bytes = Vec::new();
    for w in words {
        bytes.push((*w & 0xff) as u8);
        bytes.push((*w >> 8) as u8);
    }
    bytes
}

/// in r0; out r0; jmp 0 — echoes its input forever.
fn echo() -> Machine {
    let mut machine = Machine::new(&image(&[20, 32768, 19, 32768, 6, 0])).unwrap();
    machine.start();
    machine
}

fn echo_until_input_needed(machine: &mut Machine) -> Vec<u8> {
    let mut out = Vec::new();
    loop {
        match machine.perform_operation() {
            Ok(Event::Output(b)) => out.push(b),
            Ok(Event::NeedInput) => return out,
            Ok(_) => {}
            Err(e) => panic!("{:?}", e),
        }
    }
}

#[test]
fn script_lines_are_delivered_in_order_with_newlines() {
    let mut machine = echo();
    machine.write_to_input_buffer(&vec!["go north".to_string(), "look".to_string()]);
    assert_eq!(echo_until_input_needed(&mut machine), b"go north\nlook\n".to_vec());
}

#[test]
fn empty_script_delivers_nothing() {
    let mut machine = echo();
    machine.write_to_input_buffer(&Vec::new());
    assert_eq!(echo_until_input_needed(&mut machine), Vec::<u8>::new());
}

#[test]
fn terminal_line_is_queued_after_script() {
    let mut machine = echo();
    machine.write_to_input_buffer(&vec!["a".to_string()]);
    assert_eq!(echo_until_input_needed(&mut machine), b"a\n".to_vec());
    assert_eq!(machine.supply_line(&"take\n".to_string()), Ok(LineOutcome::Queued));
    assert_eq!(echo_until_input_needed(&mut machine), b"take\n".to_vec());
}

#[test]
fn debugger_escape_is_not_delivered() {
    let mut machine = echo();
    assert_eq!(echo_until_input_needed(&mut machine), Vec::<u8>::new());
    assert_eq!(machine.supply_line(&"dbg\n".to_string()), Ok(LineOutcome::OpenDebugger));
    assert_eq!(machine.perform_operation(), Ok(Event::NeedInput));
    assert_eq!(machine.supply_line(&"dbg \n".to_string()), Ok(LineOutcome::Queued));
    assert_eq!(echo_until_input_needed(&mut machine), b"dbg \n".to_vec());
}

#[test]
fn end_of_terminal_input_is_an_error() {
    let mut machine = echo();
    assert_eq!(
        machine.supply_line(&String::new()),
        Err(MachineError::EmptyInputBuffer)
    );
}

#[test]
fn need_input_leaves_code_pointer_on_the_instruction() {
    let mut machine = echo();
    assert_eq!(machine.perform_operation(), Ok(Event::NeedInput));
    assert_eq!(machine.perform_operation(), Ok(Event::NeedInput));
    machine.supply_line(&"z\n".to_string()).unwrap();
    assert_eq!(machine.perform_operation(), Ok(Event::Executed));
    assert_eq!(machine.perform_operation(), Ok(Event::Output(b'z')));
}

#[test]
fn input_buffer_hands_out_bytes_in_order() {
    let mut buffer = InputBuffer::new();
    assert!(buffer.is_empty());
    buffer.load_script(&vec!["hi".to_string()]);
    assert_eq!(buffer.next_byte(), Some(b'h'));
    assert_eq!(buffer.next_byte(), Some(b'i'));
    assert_eq!(buffer.next_byte(), Some(b'\n'));
    assert_eq!(buffer.next_byte(), None);
    assert!(buffer.is_empty());
}

#[test]
fn non_ascii_script_line_is_utf8() {
    let mut buffer = InputBuffer::new();
    buffer.load_script(&vec!["é".to_string()]);
    assert_eq!(buffer.next_byte(), Some(0xc3));
    assert_eq!(buffer.next_byte(), Some(0xa9));
    assert_eq!(buffer.next_byte(), Some(b'\n'));
}
