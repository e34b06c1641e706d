use rmdb::debugger::{Debugger, DebuggerError};
use rmdb::engine::{DebugSnapshot, Statement};
use rmdb::program::ProgramImage;
use rmdb::stepping::run_steps;
use std::collections::VecDeque;

fn session_with(length: usize, text: &str) -> Debugger {
    let mut session = Debugger::new();
    session.set_interpreter(length, 8).unwrap();
    let program = ProgramImage::new(String::from("test"), &text.as_bytes().to_vec(), true);
    session.copy_program_and_reset(&program).unwrap();
    session
}

fn halt() -> Statement {
    Statement { op_code: reustmann::instruction::op_codes::HALT, succeeded: true }
}

fn nop() -> Statement {
    Statement { op_code: 0, succeeded: true }
}

#[test]
fn only_the_halt_op_code_halts() {
    assert!(halt().is_halt());
    assert!(Statement { op_code: 2, succeeded: false }.is_halt());
    for op_code in (0..=255u8).filter(|op_code| *op_code != 2) {
        assert!(!Statement { op_code, succeeded: true }.is_halt());
    }
}

#[test]
fn no_step_changes_nothing() {
    let mut session = session_with(8, "IOH");
    session.steps(2, &mut VecDeque::from(vec![7u8]), &mut Vec::new()).unwrap();
    let before = session.debug_infos().unwrap();
    let mut input = VecDeque::from(vec![1u8, 2]);
    let mut output = vec![3u8];
    let (executed, snapshot, statement) = session.steps(0, &mut input, &mut output).unwrap();
    assert_eq!(executed, 0);
    assert_eq!(statement, None);
    assert_eq!(snapshot, before);
    assert_eq!(session.debug_infos().unwrap(), before);
    assert_eq!(input, VecDeque::from(vec![1u8, 2]));
    assert_eq!(output, vec![3u8]);
    assert_eq!(session.statement(), None);
}

#[test]
fn steps_without_a_halt_are_all_executed() {
    let mut session = session_with(50, ";;;;;;");
    let (executed, snapshot, statement) =
        session.steps(3, &mut VecDeque::new(), &mut Vec::new()).unwrap();
    assert_eq!(executed, 3);
    assert_eq!(snapshot.pc, 3);
    assert_eq!(snapshot.memory.len(), 50);
    assert_eq!(statement, Some(nop()));
    assert_eq!(session.statement(), Some(nop()));
}

#[test]
fn steps_run_round_the_end_of_memory() {
    let mut session = session_with(4, ";;;;");
    let (executed, snapshot, _) = session.steps(10, &mut VecDeque::new(), &mut Vec::new()).unwrap();
    assert_eq!(executed, 10);
    assert_eq!(snapshot.pc, 2);
}

#[test]
fn steps_stop_at_a_halt_in_fourth_place() {
    let mut session = session_with(50, ";;;H;;");
    let (executed, snapshot, statement) =
        session.steps(100, &mut VecDeque::new(), &mut Vec::new()).unwrap();
    assert_eq!(executed, 3);
    assert_eq!(snapshot.pc, 3);
    assert_eq!(statement, Some(halt()));
}

#[test]
fn steps_count_the_instructions_before_the_halt() {
    let mut session = session_with(50, ";;;;H");
    let (executed, snapshot, statement) =
        session.steps(100, &mut VecDeque::new(), &mut Vec::new()).unwrap();
    assert_eq!(executed, 4);
    assert_eq!(snapshot.pc, 4);
    assert_eq!(statement, Some(halt()));
}

#[test]
fn a_halt_in_first_place_executes_nothing() {
    let mut session = session_with(5, "H;");
    let (executed, snapshot, statement) =
        session.steps(1, &mut VecDeque::new(), &mut Vec::new()).unwrap();
    assert_eq!(executed, 0);
    assert_eq!(snapshot.pc, 0);
    assert_eq!(statement, Some(halt()));
    assert_eq!(session.statement(), Some(halt()));
    let (executed, _, statement) =
        session.steps(7, &mut VecDeque::new(), &mut Vec::new()).unwrap();
    assert_eq!(executed, 0);
    assert_eq!(statement, Some(halt()));
}

#[test]
fn a_halt_on_the_last_step_asked_for_is_not_executed() {
    let mut session = session_with(5, ";;H");
    let (executed, snapshot, statement) =
        session.steps(3, &mut VecDeque::new(), &mut Vec::new()).unwrap();
    assert_eq!(executed, 2);
    assert_eq!(snapshot.pc, 2);
    assert_eq!(statement, Some(halt()));
}

#[test]
fn a_halt_beyond_the_request_is_not_reached() {
    let mut session = session_with(5, ";;H");
    let (executed, snapshot, statement) =
        session.steps(2, &mut VecDeque::new(), &mut Vec::new()).unwrap();
    assert_eq!(executed, 2);
    assert_eq!(snapshot.pc, 2);
    assert_eq!(statement, Some(nop()));
}

#[test]
fn nothing_is_read_or_written_after_a_halt() {
    let mut session = session_with(8, "IOHIO");
    let mut input = VecDeque::from(vec![b'a', b'b', b'c']);
    let mut output = vec![b'>'];
    let (executed, snapshot, statement) = session.steps(50, &mut input, &mut output).unwrap();
    assert_eq!(executed, 2);
    assert_eq!(statement, Some(halt()));
    assert_eq!(snapshot.pc, 2);
    assert_eq!(input, VecDeque::from(vec![b'b', b'c']));
    assert_eq!(output, vec![b'>', b'a']);
}

#[test]
fn input_is_read_from_the_front_and_output_appended() {
    let mut session = session_with(8, "LIO]");
    let mut input = VecDeque::from(vec![b'h', b'e', b'y']);
    let mut output = Vec::new();
    let (executed, snapshot, statement) = session.steps(10, &mut input, &mut output).unwrap();
    assert_eq!(executed, 10);
    assert_eq!(statement, Some(Statement { op_code: 33, succeeded: true }));
    assert_eq!(snapshot.pc, 1);
    assert!(input.is_empty());
    assert_eq!(output, b"hey".to_vec());
}

#[test]
fn reading_past_the_input_pushes_zero() {
    let mut session = session_with(4, "IO");
    let mut input = VecDeque::new();
    let mut output = Vec::new();
    let (executed, snapshot, statement) = session.steps(2, &mut input, &mut output).unwrap();
    assert_eq!(executed, 2);
    assert_eq!(statement, Some(Statement { op_code: 4, succeeded: true }));
    assert_eq!(snapshot, DebugSnapshot { memory: vec![3, 4, 0, 0], pc: 2, sp: 0, nz: false });
    assert_eq!(output, vec![0u8]);
}

#[test]
fn the_snapshot_is_taken_after_the_last_step() {
    let mut session = session_with(6, "0.;");
    let (executed, snapshot, statement) =
        session.steps(2, &mut VecDeque::new(), &mut Vec::new()).unwrap();
    assert_eq!(executed, 2);
    assert_eq!(statement, Some(Statement { op_code: 16, succeeded: true }));
    assert_eq!(snapshot, DebugSnapshot { memory: vec![13, 16, 0, 0, 0, 1], pc: 2, sp: 5, nz: true });
    assert_eq!(session.debug_infos().unwrap(), snapshot);
}

#[test]
fn steps_fail_without_a_machine() {
    let mut session = Debugger::new();
    let mut input = VecDeque::from(vec![1u8]);
    let mut output = vec![2u8];
    assert_eq!(session.steps(3, &mut input, &mut output), Err(DebuggerError::NoInterpreter));
    assert_eq!(session.steps(0, &mut input, &mut output), Err(DebuggerError::NoInterpreter));
    assert_eq!(input, VecDeque::from(vec![1u8]));
    assert_eq!(output, vec![2u8]);
}

#[test]
fn a_machine_can_be_run_outside_a_session() {
    let mut engine = reustmann::Interpreter::new(6, 8).unwrap();
    engine.copy_program(&reustmann::Program::from_iter(b";IOH".iter().copied()));
    let mut input = VecDeque::from(vec![b'x']);
    let mut output = Vec::new();
    let (executed, snapshot, statement) = run_steps(&mut engine, 10, &mut input, &mut output);
    assert_eq!(executed, 3);
    assert_eq!(snapshot.pc, 3);
    assert_eq!(statement, Some(halt()));
    assert_eq!(output, vec![b'x']);
    let infos = engine.debug_infos();
    assert_eq!((infos.pc, infos.sp, infos.nz), (snapshot.pc, snapshot.sp, snapshot.nz));
    assert_eq!(infos.memory.0, snapshot.memory);
}
