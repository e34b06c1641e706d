use rmdb::debugger::{Debugger, DebuggerError};
use rmdb::engine::{DebugSnapshot, Statement};
use rmdb::program::ProgramImage;
use std::collections::VecDeque;

fn image(name: &str, text: &str) -> ProgramImage {
    ProgramImage::new(String::from(name), &text.as_bytes().to_vec(), true)
}

fn memory_of(text: &[u8], length: usize) -> Vec<u8> {
    let mut memory = text.to_vec();
    memory.resize(length, 0);
    memory
}

#[test]
fn a_new_session_has_nothing() {
    let session = Debugger::new();
    assert!(session.interpreter().is_err());
    assert_eq!(session.program_name(), None);
    assert_eq!(session.statement(), None);
    assert_eq!(session.debug_infos(), Err(DebuggerError::NoInterpreter));
    let session = Debugger::default();
    assert_eq!(session.debug_infos(), Err(DebuggerError::NoInterpreter));
}

#[test]
fn a_machine_is_made_with_empty_memory() {
    let mut session = Debugger::new();
    assert_eq!(session.set_interpreter(5, 8), Ok(()));
    assert_eq!(
        session.debug_infos(),
        Ok(DebugSnapshot { memory: vec![0, 0, 0, 0, 0], pc: 0, sp: 0, nz: false })
    );
    let engine = session.interpreter().ok().unwrap();
    assert_eq!(engine.arch_length(), 5);
    assert_eq!(engine.arch_width(), 8);
}

#[test]
fn geometries_out_of_range_are_turned_down() {
    let mut session = Debugger::new();
    assert_eq!(
        session.set_interpreter(0, 8),
        Err(DebuggerError::InterpreterCreation("Arch length need to be in the range [1..2^32)"))
    );
    assert_eq!(
        session.set_interpreter(0, 2),
        Err(DebuggerError::InterpreterCreation("Arch length need to be in the range [1..2^32)"))
    );
    assert_eq!(
        session.set_interpreter(10, 5),
        Err(DebuggerError::InterpreterCreation("Arch width need to be in the range [6..32)"))
    );
    assert_eq!(
        session.set_interpreter(10, 33),
        Err(DebuggerError::InterpreterCreation("Arch width need to be in the range [6..32)"))
    );
    assert!(session.interpreter().is_err());
    assert_eq!(session.set_interpreter(1, 6), Ok(()));
    assert_eq!(session.set_interpreter(1, 32), Ok(()));
}

#[test]
fn a_failed_creation_keeps_the_machine() {
    let mut session = Debugger::new();
    session.set_interpreter(4, 8).unwrap();
    session.copy_program_and_reset(&image("p", "HH")).unwrap();
    assert!(session.set_interpreter(0, 8).is_err());
    assert_eq!(session.debug_infos().unwrap().memory, vec![2, 2, 0, 0]);
    assert_eq!(session.program_name().map(|n| n.as_str()), Some("p"));
}

#[test]
fn unset_fails_without_a_machine() {
    let mut session = Debugger::new();
    assert_eq!(session.unset_interpreter(), Err(DebuggerError::NoInterpreter));
    session.set_interpreter(4, 8).unwrap();
    assert_eq!(session.unset_interpreter(), Ok(()));
    assert_eq!(session.unset_interpreter(), Err(DebuggerError::NoInterpreter));
}

#[test]
fn unset_forgets_the_program_and_the_statement() {
    let mut session = Debugger::new();
    session.set_interpreter(4, 8).unwrap();
    session.copy_program_and_reset(&image("p", ";;")).unwrap();
    session.steps(1, &mut VecDeque::new(), &mut Vec::new()).unwrap();
    assert!(session.program_name().is_some());
    assert!(session.statement().is_some());
    session.unset_interpreter().unwrap();
    assert_eq!(session.program_name(), None);
    assert_eq!(session.statement(), None);
    assert!(session.interpreter().is_err());
}

#[test]
fn nothing_runs_after_unset() {
    let mut session = Debugger::new();
    session.set_interpreter(8, 8).unwrap();
    session.copy_program_and_reset(&image("p", "IO")).unwrap();
    session.unset_interpreter().unwrap();
    for _ in 0..3 {
        let mut input = VecDeque::from(vec![1u8, 2]);
        let mut output = vec![9u8];
        assert_eq!(session.reset(), Err(DebuggerError::NoInterpreter));
        assert_eq!(session.steps(5, &mut input, &mut output), Err(DebuggerError::NoInterpreter));
        assert_eq!(
            session.copy_program_and_reset(&image("q", "H")),
            Err(DebuggerError::NoInterpreter)
        );
        assert_eq!(session.debug_infos(), Err(DebuggerError::NoInterpreter));
        assert_eq!(input, VecDeque::from(vec![1u8, 2]));
        assert_eq!(output, vec![9u8]);
        assert_eq!(session.program_name(), None);
        assert_eq!(session.statement(), None);
    }
}

#[test]
fn a_second_machine_shows_nothing_of_the_first() {
    let mut session = Debugger::new();
    session.set_interpreter(6, 8).unwrap();
    session.copy_program_and_reset(&image("p", "HHHH")).unwrap();
    session.steps(1, &mut VecDeque::new(), &mut Vec::new()).unwrap();
    session.set_interpreter(6, 8).unwrap();
    assert_eq!(
        session.debug_infos(),
        Ok(DebugSnapshot { memory: vec![0; 6], pc: 0, sp: 0, nz: false })
    );
    session.set_interpreter(3, 16).unwrap();
    assert_eq!(
        session.debug_infos(),
        Ok(DebugSnapshot { memory: vec![0; 3], pc: 0, sp: 0, nz: false })
    );
    assert_eq!(session.interpreter().ok().unwrap().arch_width(), 16);
}

#[test]
fn a_program_is_stored_as_the_cells_it_encodes() {
    let mut session = Debugger::new();
    session.set_interpreter(8, 8).unwrap();
    assert_eq!(session.copy_program_and_reset(&image("hello.rm", "LIzHO]")), Ok(()));
    assert_eq!(session.reset(), Ok(Some(Statement { op_code: 1, succeeded: true })));
    assert_eq!(
        session.debug_infos(),
        Ok(DebugSnapshot { memory: vec![32, 3, 27, 2, 4, 33, 0, 0], pc: 0, sp: 0, nz: false })
    );
    assert_eq!(session.program_name().map(|n| n.as_str()), Some("hello.rm"));
}

#[test]
fn bytes_that_are_no_mnemonic_are_stored_as_they_are() {
    let mut session = Debugger::new();
    session.set_interpreter(4, 8).unwrap();
    let program = ProgramImage::new(String::from("raw"), &vec![b'a', 200, b'\n', 0], false);
    session.copy_program_and_reset(&program).unwrap();
    assert_eq!(session.debug_infos().unwrap().memory, vec![b'a', 200, b'\n', 0]);
}

#[test]
fn loading_twice_is_loading_once() {
    let mut once = Debugger::new();
    once.set_interpreter(6, 8).unwrap();
    once.copy_program_and_reset(&image("p", "IO;H")).unwrap();
    once.reset().unwrap();
    let mut twice = Debugger::new();
    twice.set_interpreter(6, 8).unwrap();
    twice.copy_program_and_reset(&image("p", "IO;H")).unwrap();
    twice.copy_program_and_reset(&image("p", "IO;H")).unwrap();
    twice.reset().unwrap();
    assert_eq!(once.debug_infos(), twice.debug_infos());
    assert_eq!(once.debug_infos().unwrap().memory, memory_of(&[3, 4, 0, 2], 6));
}

#[test]
fn a_shorter_program_leaves_the_cells_behind_it() {
    let mut session = Debugger::new();
    session.set_interpreter(5, 8).unwrap();
    session.copy_program_and_reset(&image("long", "HHHH")).unwrap();
    session.copy_program_and_reset(&image("short", "I")).unwrap();
    assert_eq!(session.debug_infos().unwrap().memory, vec![3, 2, 2, 2, 0]);
    assert_eq!(session.program_name().map(|n| n.as_str()), Some("short"));
}

#[test]
fn a_longer_program_is_cut_at_the_end_of_memory() {
    let mut session = Debugger::new();
    session.set_interpreter(3, 8).unwrap();
    session.copy_program_and_reset(&image("long", "HIOHIO")).unwrap();
    assert_eq!(session.debug_infos().unwrap().memory, vec![2, 3, 4]);
}

#[test]
fn loading_clears_the_registers() {
    let mut session = Debugger::new();
    session.set_interpreter(6, 8).unwrap();
    session.copy_program_and_reset(&image("p", "0.;")).unwrap();
    session.steps(3, &mut VecDeque::new(), &mut Vec::new()).unwrap();
    let moved = session.debug_infos().unwrap();
    assert_eq!((moved.pc, moved.sp, moved.nz), (3, 5, true));
    session.copy_program_and_reset(&image("q", ";")).unwrap();
    let cleared = session.debug_infos().unwrap();
    assert_eq!((cleared.pc, cleared.sp, cleared.nz), (0, 0, false));
}

#[test]
fn reset_clears_the_registers_and_keeps_memory() {
    let mut session = Debugger::new();
    session.set_interpreter(6, 8).unwrap();
    session.copy_program_and_reset(&image("p", "0.;")).unwrap();
    session.steps(2, &mut VecDeque::new(), &mut Vec::new()).unwrap();
    let before = session.debug_infos().unwrap();
    assert_eq!((before.pc, before.sp, before.nz), (2, 5, true));
    assert_eq!(session.reset(), Ok(Some(Statement { op_code: 1, succeeded: true })));
    assert_eq!(session.statement(), Some(Statement { op_code: 1, succeeded: true }));
    let after = session.debug_infos().unwrap();
    assert_eq!(after, DebugSnapshot { memory: before.memory, pc: 0, sp: 0, nz: false });
    assert_eq!(after.memory, vec![13, 16, 0, 0, 0, 1]);
    assert_eq!(session.program_name().map(|n| n.as_str()), Some("p"));
}
