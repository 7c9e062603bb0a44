use synacor_vm::command_parser::{DebugCommandParser, DebuggerCommand};
use synacor_vm::debug::{DebugToken, TraceFormatter};
use synacor_vm::debug_writer::StubDebugWriter;
use synacor_vm::machine::Machine;
use synacor_vm::model::Event;
use synacor_vm::trace::TraceLog;

fn image(words: &[u16]) -> Vec<u8> {
    let mut bytes = Vec::new();
    for w in words {
        bytes.push((*w & 0xff) as u8);
        bytes.push((*w >> 8) as u8);
    }
    bytes
}

fn parse(line: &str) -> DebuggerCommand {
    DebugCommandParser::new().parse(&line.to_string())
}

#[test]
fn parses_every_command() {
    assert_eq!(parse("bp"), DebuggerCommand::BreakpointsPrint);
    assert_eq!(parse("bp add 17"), DebuggerCommand::BreakpointAdd(17));
    assert_eq!(parse("bp rem 17"), DebuggerCommand::BreakpointRemove(17));
    assert_eq!(parse("bp true"), DebuggerCommand::BreakpointsEnabled(true));
    assert_eq!(parse("bp false"), DebuggerCommand::BreakpointsEnabled(false));
    assert_eq!(parse("reg"), DebuggerCommand::RegistersPrint);
    assert_eq!(parse("reg write 7 25734"), DebuggerCommand::RegisterWrite(7, 25734));
    assert_eq!(parse("stack"), DebuggerCommand::StackPrint);
    assert_eq!(parse("stack size"), DebuggerCommand::StackSizePrint);
    assert_eq!(parse("trace"), DebuggerCommand::TracePrint);
    assert_eq!(parse("trace size"), DebuggerCommand::TraceSizePrint);
    assert_eq!(parse("trace size 64"), DebuggerCommand::TraceResize(64));
    assert_eq!(parse("trace clear"), DebuggerCommand::TraceClear);
    assert_eq!(parse("trace true"), DebuggerCommand::TraceEnabled(true));
    assert_eq!(parse("trace false"), DebuggerCommand::TraceEnabled(false));
    assert_eq!(parse("cp"), DebuggerCommand::CodePointerPrint);
    assert_eq!(parse("cp write 5489"), DebuggerCommand::CodePointerWrite(5489));
    assert_eq!(parse("clear"), DebuggerCommand::ConsoleClear);
    assert_eq!(parse("cnt"), DebuggerCommand::Continue);
}

#[test]
fn parser_splits_on_any_whitespace() {
    assert_eq!(parse("  bp\tadd   5 \n"), DebuggerCommand::BreakpointAdd(5));
    assert_eq!(parse("bp\u{a0}add\u{3000}6"), DebuggerCommand::BreakpointAdd(6));
}

#[test]
fn parser_rejects_what_no_rule_matches() {
    assert_eq!(parse(""), DebuggerCommand::Unknown);
    assert_eq!(parse("   "), DebuggerCommand::Unknown);
    assert_eq!(parse("bp add"), DebuggerCommand::Unknown);
    assert_eq!(parse("bp add x"), DebuggerCommand::Unknown);
    assert_eq!(parse("bp add -1"), DebuggerCommand::Unknown);
    assert_eq!(parse("bp yes"), DebuggerCommand::Unknown);
    assert_eq!(parse("bp True"), DebuggerCommand::Unknown);
    assert_eq!(parse("cnt now"), DebuggerCommand::Unknown);
    assert_eq!(parse("bp list"), DebuggerCommand::Unknown);
    assert_eq!(parse("stack size 3"), DebuggerCommand::Unknown);
}

#[test]
fn parser_numbers_follow_unsigned_parsing() {
    assert_eq!(parse("bp add +12"), DebuggerCommand::BreakpointAdd(12));
    assert_eq!(parse("bp add +"), DebuggerCommand::Unknown);
    assert_eq!(parse("bp add 007"), DebuggerCommand::BreakpointAdd(7));
    assert_eq!(
        parse("cp write 18446744073709551615"),
        DebuggerCommand::CodePointerWrite(18446744073709551615)
    );
    assert_eq!(parse("cp write 18446744073709551616"), DebuggerCommand::Unknown);
}

#[test]
fn register_write_value_is_taken_as_a_word() {
    assert_eq!(parse("reg write 1 65537"), DebuggerCommand::RegisterWrite(1, 1));
}

#[test]
fn formats_a_record() {
    let tokens = vec![
        DebugToken::Address(5483),
        DebugToken::Operation(1),
        DebugToken::RegisterIdx(0),
        DebugToken::Value(4, None),
        DebugToken::Comment("reg[0] = 4".to_string()),
    ];
    assert_eq!(
        TraceFormatter::new().format(&tokens),
        "5483          set [0] 4                            ; reg[0] = 4"
    );
}

#[test]
fn formats_register_operands_and_no_comment() {
    let tokens = vec![
        DebugToken::Address(10),
        DebugToken::Operation(9),
        DebugToken::RegisterIdx(2),
        DebugToken::Value(100, Some(0)),
        DebugToken::Value(50, Some(1)),
    ];
    assert_eq!(
        TraceFormatter::new().format(&tokens),
        "10            add [2] [0]100    [1]50              "
    );
}

#[test]
fn formats_unknown_opcode_and_several_comments() {
    let tokens = vec![
        DebugToken::Operation(99),
        DebugToken::Comment("a".to_string()),
        DebugToken::Comment("b".to_string()),
    ];
    let line = TraceFormatter::new().format(&tokens);
    assert_eq!(line, format!("{:50} ; a, b", "    ???"));
}

#[test]
fn stub_writer_renders_like_the_formatter() {
    let tokens = vec![DebugToken::Address(1), DebugToken::Operation(21)];
    assert_eq!(
        StubDebugWriter::new().write(&tokens),
        TraceFormatter::new().format(&tokens)
    );
}

#[test]
fn comment_tokens_are_recognised() {
    assert!(DebugToken::Comment(String::new()).is_comment());
    assert!(!DebugToken::Address(0).is_comment());
}

#[test]
fn trace_log_evicts_oldest() {
    let mut log = TraceLog::new(2);
    log.set_enabled(true);
    log.record("a".to_string());
    log.record("b".to_string());
    log.record("c".to_string());
    assert_eq!(log.lines(), &vec!["b".to_string(), "c".to_string()]);
    log.resize(1);
    assert_eq!(log.lines(), &vec!["c".to_string()]);
    log.clear();
    assert_eq!(log.len(), 0);
}

#[test]
fn trace_log_of_size_zero_keeps_nothing() {
    let mut log = TraceLog::new(0);
    log.record("a".to_string());
    assert_eq!(log.len(), 0);
}

fn command(machine: &mut Machine, line: &str) -> (Vec<String>, bool) {
    let reply = machine.debug_command(&parse(line));
    (reply.lines, reply.resume)
}

#[test]
fn machine_traces_executed_instructions() {
    let mut machine = Machine::new(&image(&[1, 32768, 4, 9, 32769, 32768, 1, 19, 72, 17, 13, 0, 0, 18])).unwrap();
    machine.start();
    command(&mut machine, "trace true");
    while machine.perform_operation() != Ok(Event::Halted) {}
    let (lines, _) = command(&mut machine, "trace");
    assert_eq!(lines.len(), 6);
    assert_eq!(lines[0], format!("{:50} ; reg[0] = 4", "0             set [0] 4        "));
    let add = format!("{:<9} {:>7} [1] {:<9} {:<9}", 3, "add", "[0]4", 1);
    assert_eq!(lines[1], format!("{:50} ; reg[1] = 5", add));
    assert_eq!(lines[2], format!("{:50} ; 'H'", "7             out 72       "));
    assert_eq!(lines[3], format!("{:50} ; jump to 13", "9            call 13       "));
    assert_eq!(lines[4], format!("{:50} ; return to 11", "13            ret"));
    assert_eq!(lines[5], format!("{:50} ", "11           halt"));
    let (size, _) = command(&mut machine, "trace size");
    assert_eq!(size, vec!["6".to_string()]);
}

#[test]
fn trace_is_off_by_default() {
    let mut machine = Machine::new(&image(&[21, 0])).unwrap();
    machine.start();
    while machine.perform_operation() != Ok(Event::Halted) {}
    let (lines, _) = command(&mut machine, "trace");
    assert!(lines.is_empty());
}

#[test]
fn breakpoint_suspends_before_fetch_once() {
    let mut machine = Machine::new(&image(&[21, 19, 66, 0])).unwrap();
    machine.start();
    command(&mut machine, "bp add 1");
    command(&mut machine, "bp true");
    assert_eq!(machine.perform_operation(), Ok(Event::Executed));
    assert_eq!(machine.perform_operation(), Ok(Event::Breakpoint));
    let (cp, _) = command(&mut machine, "cp");
    assert_eq!(cp, vec!["1".to_string()]);
    let (_, resume) = command(&mut machine, "cnt");
    assert!(resume);
    assert_eq!(machine.perform_operation(), Ok(Event::Output(66)));
}

#[test]
fn moving_the_code_pointer_after_a_stop_honours_its_breakpoint() {
    let mut machine = Machine::new(&image(&[21, 21, 19, 66, 0])).unwrap();
    machine.start();
    command(&mut machine, "bp add 0");
    command(&mut machine, "bp add 2");
    command(&mut machine, "bp true");
    assert_eq!(machine.perform_operation(), Ok(Event::Breakpoint));
    command(&mut machine, "cp write 2");
    assert_eq!(machine.perform_operation(), Ok(Event::Breakpoint));
    assert_eq!(machine.perform_operation(), Ok(Event::Output(66)));
}

#[test]
fn disabled_breakpoints_do_not_suspend() {
    let mut machine = Machine::new(&image(&[19, 66, 0])).unwrap();
    machine.start();
    command(&mut machine, "bp add 0");
    assert_eq!(machine.perform_operation(), Ok(Event::Output(66)));
}

#[test]
fn breakpoint_list_add_and_remove() {
    let mut machine = Machine::new(&Vec::new()).unwrap();
    command(&mut machine, "bp add 5");
    command(&mut machine, "bp add 9");
    command(&mut machine, "bp add 5");
    assert_eq!(command(&mut machine, "bp").0, vec!["5".to_string(), "9".to_string()]);
    command(&mut machine, "bp rem 5");
    assert_eq!(command(&mut machine, "bp").0, vec!["9".to_string()]);
    command(&mut machine, "bp rem 4");
    assert_eq!(command(&mut machine, "bp").0, vec!["9".to_string()]);
}

#[test]
fn registers_can_be_shown_and_written() {
    let mut machine = Machine::new(&Vec::new()).unwrap();
    command(&mut machine, "reg write 7 40000");
    let (lines, _) = command(&mut machine, "reg");
    assert_eq!(lines.len(), 8);
    assert_eq!(lines[0], "reg[0] = 0");
    assert_eq!(lines[7], "reg[7] = 7232");
    assert_eq!(command(&mut machine, "reg write 8 1").0, vec!["Invalid register".to_string()]);
}

#[test]
fn stack_is_shown_bottom_first() {
    let mut machine = Machine::new(&image(&[2, 10, 2, 20, 0])).unwrap();
    machine.start();
    while machine.perform_operation() != Ok(Event::Halted) {}
    assert_eq!(command(&mut machine, "stack").0, vec!["10".to_string(), "20".to_string()]);
    assert_eq!(command(&mut machine, "stack size").0, vec!["2".to_string()]);
}

#[test]
fn code_pointer_can_be_moved() {
    let mut machine = Machine::new(&image(&[0, 19, 67, 0])).unwrap();
    machine.start();
    command(&mut machine, "cp write 1");
    assert_eq!(command(&mut machine, "cp").0, vec!["1".to_string()]);
    assert_eq!(machine.perform_operation(), Ok(Event::Output(67)));
}

#[test]
fn unknown_command_and_console_clear() {
    let mut machine = Machine::new(&Vec::new()).unwrap();
    assert_eq!(command(&mut machine, "help"), (vec!["Unknown command".to_string()], false));
    let (lines, resume) = command(&mut machine, "clear");
    assert!(!resume);
    assert_eq!(lines.len(), 40);
    assert!(lines.iter().all(|l| l.is_empty()));
}

#[test]
fn trace_resize_and_clear_through_commands() {
    let mut machine = Machine::new(&image(&[21, 21, 21, 0])).unwrap();
    machine.start();
    command(&mut machine, "trace true");
    while machine.perform_operation() != Ok(Event::Halted) {}
    assert_eq!(command(&mut machine, "trace size").0, vec!["4".to_string()]);
    command(&mut machine, "trace size 2");
    let (lines, _) = command(&mut machine, "trace");
    assert_eq!(lines.len(), 2);
    assert!(lines[1].starts_with("3            halt"));
    command(&mut machine, "trace clear");
    assert_eq!(command(&mut machine, "trace size").0, vec!["0".to_string()]);
}
