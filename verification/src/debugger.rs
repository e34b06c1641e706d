//! The session: it owns at most one machine, remembers which program was
//! loaded and what the last instruction reported, and refuses every request
//! that needs a machine while there is none.

use vstd::prelude::*;
use std::collections::VecDeque;
use reustmann::Interpreter;
use crate::engine::encoded;
use crate::engine::encoded_cell;
use crate::engine::engine_copy_program;
use crate::engine::engine_debug_infos;
use crate::engine::engine_new;
use crate::engine::engine_reset;
use crate::engine::engine_state;
use crate::engine::nop_op_code;
use crate::engine::rejection;
use crate::engine::reset_op_code;
use crate::engine::valid_geometry;
use crate::engine::DebugSnapshot;
use crate::engine::EngineState;
use crate::engine::SnapshotView;
use crate::engine::Statement;
use crate::program::ProgramImage;
use crate::program::ProgramView;
use crate::stepping::run;
use crate::stepping::run_steps;

verus! {

/// Why a request to the session failed.
#[derive(Clone, Copy, Debug, PartialEq, Eq)]
pub enum DebuggerError {
    /// The request needs a machine and the session has none.
    NoInterpreter,
    /// No machine can be made with the geometry that was asked for.
    InterpreterCreation(&'static str),
}

/// An error, as mathematical values.
pub enum ErrorView {
    NoInterpreter,
    InterpreterCreation(Seq<char>),
}

impl View for DebuggerError {
    type V = ErrorView;

    open spec fn view(&self) -> ErrorView {
        match *self {
            DebuggerError::NoInterpreter => ErrorView::NoInterpreter,
            DebuggerError::InterpreterCreation(cause) => ErrorView::InterpreterCreation(cause@),
        }
    }
}

/// A result with its error seen as mathematical values.
pub open spec fn result_view<T>(result: Result<T, DebuggerError>) -> Result<T, ErrorView> {
    match result {
        Ok(value) => Ok(value),
        Err(error) => Err(error@),
    }
}

/// The statement that a reset reports.
pub open spec fn reset_statement() -> Statement {
    Statement { op_code: reset_op_code(), succeeded: true }
}

/// What a session with a machine holds, as mathematical values.
pub struct MachineView {
    /// The machine.
    pub engine: EngineState,
    /// The name of the program that was loaded last.
    pub program_name: Option<Seq<char>>,
    /// What the last instruction reported.
    pub statement: Option<Statement>,
}

/// The two states of a session, as mathematical values: without a machine
/// it holds nothing at all.
pub enum SessionView {
    NoMachine,
    MachineReady(MachineView),
}

impl SessionView {
    /// The machine, if there is one.
    pub open spec fn engine(self) -> Option<EngineState> {
        match self {
            SessionView::MachineReady(machine) => Some(machine.engine),
            SessionView::NoMachine => None,
        }
    }

    /// The name of the program that was loaded last, if any.
    pub open spec fn program_name(self) -> Option<Seq<char>> {
        match self {
            SessionView::MachineReady(machine) => machine.program_name,
            SessionView::NoMachine => None,
        }
    }

    /// What the last instruction reported, if any.
    pub open spec fn statement(self) -> Option<Statement> {
        match self {
            SessionView::MachineReady(machine) => machine.statement,
            SessionView::NoMachine => None,
        }
    }

    /// What making a machine answers.
    pub open spec fn set_interpreter_result(self, arch_length: nat, arch_width: nat) -> Result<
        (),
        ErrorView,
    > {
        if valid_geometry(arch_length, arch_width) {
            Ok(())
        } else {
            Err(ErrorView::InterpreterCreation(rejection(arch_length, arch_width)))
        }
    }

    /// The session after a machine was asked for: a new machine takes the
    /// place of any other, or nothing changes where none can be made.
    pub open spec fn after_set_interpreter(self, arch_length: nat, arch_width: nat) -> SessionView {
        if valid_geometry(arch_length, arch_width) {
            SessionView::MachineReady(
                MachineView {
                    engine: EngineState::fresh(arch_length, arch_width),
                    program_name: self.program_name(),
                    statement: self.statement(),
                },
            )
        } else {
            self
        }
    }

    /// What a request that only needs a machine to be there answers.
    pub open spec fn needs_machine(self) -> Result<(), ErrorView> {
        match self {
            SessionView::MachineReady(_) => Ok(()),
            SessionView::NoMachine => Err(ErrorView::NoInterpreter),
        }
    }

    /// The session after its machine was given up: nothing is left of it.
    pub open spec fn after_unset_interpreter(self) -> SessionView {
        SessionView::NoMachine
    }

    /// The session after `program` was copied into its machine.
    pub open spec fn after_copy_program_and_reset(self, program: ProgramView) -> SessionView {
        match self {
            SessionView::MachineReady(machine) => SessionView::MachineReady(
                MachineView {
                    engine: machine.engine.loaded(encoded(program.bytes)).reset(),
                    program_name: Some(program.name),
                    statement: machine.statement,
                },
            ),
            SessionView::NoMachine => self,
        }
    }

    /// What a reset answers.
    pub open spec fn reset_result(self) -> Result<Option<Statement>, ErrorView> {
        match self {
            SessionView::MachineReady(_) => Ok(Some(reset_statement())),
            SessionView::NoMachine => Err(ErrorView::NoInterpreter),
        }
    }

    /// The session after a reset.
    pub open spec fn after_reset(self) -> SessionView {
        match self {
            SessionView::MachineReady(machine) => SessionView::MachineReady(
                MachineView {
                    engine: machine.engine.reset(),
                    statement: Some(reset_statement()),
                    ..machine
                },
            ),
            SessionView::NoMachine => self,
        }
    }

    /// What a run of up to `requested` instructions answers: how many were
    /// executed, what the machine shows afterwards and the last statement.
    pub open spec fn steps_result(self, requested: nat, input: Seq<u8>, output: Seq<u8>) -> Result<
        (nat, SnapshotView, Option<Statement>),
        ErrorView,
    > {
        match self {
            SessionView::MachineReady(machine) => {
                let end = run(machine.engine, input, output, requested);
                Ok((end.executed(), end.engine.snapshot(), end.statement))
            },
            SessionView::NoMachine => Err(ErrorView::NoInterpreter),
        }
    }

    /// The session after such a run.
    pub open spec fn after_steps(self, requested: nat, input: Seq<u8>, output: Seq<u8>) -> SessionView {
        match self {
            SessionView::MachineReady(machine) => {
                let end = run(machine.engine, input, output, requested);
                SessionView::MachineReady(
                    MachineView { engine: end.engine, statement: end.statement, ..machine },
                )
            },
            SessionView::NoMachine => self,
        }
    }

    /// The input that such a run leaves.
    pub open spec fn input_after_steps(self, requested: nat, input: Seq<u8>, output: Seq<u8>) -> Seq<
        u8,
    > {
        match self {
            SessionView::MachineReady(machine) => run(
                machine.engine,
                input,
                output,
                requested,
            ).input,
            SessionView::NoMachine => input,
        }
    }

    /// The output after such a run.
    pub open spec fn output_after_steps(
        self,
        requested: nat,
        input: Seq<u8>,
        output: Seq<u8>,
    ) -> Seq<u8> {
        match self {
            SessionView::MachineReady(machine) => run(
                machine.engine,
                input,
                output,
                requested,
            ).output,
            SessionView::NoMachine => output,
        }
    }

    /// What asking for a snapshot answers.
    pub open spec fn debug_infos_result(self) -> Result<SnapshotView, ErrorView> {
        match self {
            SessionView::MachineReady(machine) => Ok(machine.engine.snapshot()),
            SessionView::NoMachine => Err(ErrorView::NoInterpreter),
        }
    }
}

/// A machine with what the session remembers about it.
struct Machine {
    interpreter: Interpreter,
    program_name: Option<String>,
    statement: Option<Statement>,
}

impl View for Machine {
    type V = MachineView;

    closed spec fn view(&self) -> MachineView {
        MachineView {
            engine: engine_state(self.interpreter),
            program_name: match self.program_name {
                Some(name) => Some(name@),
                None => None,
            },
            statement: self.statement,
        }
    }
}

/// The session of a debugger: either it has no machine, and then nothing
/// else, or it has one, and with it perhaps the name of the program loaded
/// last and the statement of the last instruction.
pub struct Debugger {
    machine: Option<Machine>,
}

impl View for Debugger {
    type V = SessionView;

    closed spec fn view(&self) -> SessionView {
        match self.machine {
            Some(machine) => SessionView::MachineReady(machine@),
            None => SessionView::NoMachine,
        }
    }
}

impl Default for Debugger {
    fn default() -> (debugger: Debugger)
        ensures
            debugger@ == SessionView::NoMachine,
    {
        Debugger::new()
    }
}

impl Debugger {
    /// A session without a machine.
    pub fn new() -> (debugger: Debugger)
        ensures
            debugger@ == SessionView::NoMachine,
    {
        Debugger { machine: None }
    }

    /// Makes a machine of `arch_length` cells of `arch_width` bits, which
    /// takes the place of the session's machine if it has one. Where no such
    /// machine can be made the session keeps what it had.
    pub fn set_interpreter(&mut self, arch_length: usize, arch_width: usize) -> (result: Result<
        (),
        DebuggerError,
    >)
        ensures
            result_view(result) == old(self)@.set_interpreter_result(
                arch_length as nat,
                arch_width as nat,
            ),
            final(self)@ == old(self)@.after_set_interpreter(arch_length as nat, arch_width as nat),
    {
        match engine_new(arch_length, arch_width) {
            Err(cause) => Err(DebuggerError::InterpreterCreation(cause)),
            Ok(interpreter) => {
                match &mut self.machine {
                    Some(machine) => {
                        machine.interpreter = interpreter;
                    },
                    None => {
                        self.machine = Some(
                            Machine { interpreter, program_name: None, statement: None },
                        );
                    },
                }
                Ok(())
            },
        }
    }

    /// Gives up the machine, and with it the program's name and the last
    /// statement. Fails, and changes nothing, where there is no machine.
    pub fn unset_interpreter(&mut self) -> (result: Result<(), DebuggerError>)
        ensures
            result_view(result) == old(self)@.needs_machine(),
            final(self)@ == old(self)@.after_unset_interpreter(),
    {
        if self.machine.is_none() {
            Err(DebuggerError::NoInterpreter)
        } else {
            self.machine = None;
            Ok(())
        }
    }

    /// The machine, to be looked at.
    pub fn interpreter(&self) -> (result: Result<&Interpreter, DebuggerError>)
        ensures
            match result {
                Ok(engine) => self@.engine() == Some(engine_state(*engine)),
                Err(error) => self@ == SessionView::NoMachine && error
                    == DebuggerError::NoInterpreter,
            },
    {
        match &self.machine {
            Some(machine) => Ok(&machine.interpreter),
            None => Err(DebuggerError::NoInterpreter),
        }
    }

    /// Copies `program` to the start of the machine's memory, clears the
    /// registers and records the program's name. Fails, and changes nothing,
    /// where there is no machine.
    pub fn copy_program_and_reset(&mut self, program: &ProgramImage) -> (result: Result<
        (),
        DebuggerError,
    >)
        ensures
            result_view(result) == old(self)@.needs_machine(),
            final(self)@ == old(self)@.after_copy_program_and_reset(program@),
    {
        match &mut self.machine {
            Some(machine) => {
                engine_copy_program(&mut machine.interpreter, program.memory());
                engine_reset(&mut machine.interpreter);
                machine.program_name = Some(program.name().clone());
                Ok(())
            },
            None => Err(DebuggerError::NoInterpreter),
        }
    }

    /// Clears the registers and keeps the memory; the statement of the reset
    /// becomes the session's last statement and is returned. Fails, and
    /// changes nothing, where there is no machine.
    pub fn reset(&mut self) -> (result: Result<Option<Statement>, DebuggerError>)
        ensures
            result_view(result) == old(self)@.reset_result(),
            final(self)@ == old(self)@.after_reset(),
    {
        match &mut self.machine {
            Some(machine) => {
                let statement = engine_reset(&mut machine.interpreter);
                machine.statement = Some(statement);
                Ok(Some(statement))
            },
            None => Err(DebuggerError::NoInterpreter),
        }
    }

    /// Runs the machine for up to `steps` instructions and stops after the
    /// first halt. Returns how many instructions were executed before the run
    /// ended, a snapshot taken after the last one and the last statement,
    /// which also becomes the session's. Where there is no machine it fails,
    /// and neither the session nor the streams change.
    pub fn steps(&mut self, steps: usize, input: &mut VecDeque<u8>, output: &mut Vec<u8>) -> (result:
        Result<(usize, DebugSnapshot, Option<Statement>), DebuggerError>)
        ensures
            match result {
                Ok((executed, snapshot, statement)) => {
                    &&& old(self)@.steps_result(steps as nat, old(input)@, old(output)@) == Ok::<
                        (nat, SnapshotView, Option<Statement>),
                        ErrorView,
                    >((executed as nat, snapshot@, statement))
                    &&& snapshot@.wf()
                },
                Err(error) => old(self)@.steps_result(steps as nat, old(input)@, old(output)@)
                    == Err::<(nat, SnapshotView, Option<Statement>), ErrorView>(error@),
            },
            final(self)@ == old(self)@.after_steps(steps as nat, old(input)@, old(output)@),
            final(input)@ == old(self)@.input_after_steps(steps as nat, old(input)@, old(output)@),
            final(output)@ == old(self)@.output_after_steps(
                steps as nat,
                old(input)@,
                old(output)@,
            ),
            steps == 0 ==> {
                &&& final(input)@ == old(input)@
                &&& final(output)@ == old(output)@
                &&& final(self)@.engine() == old(self)@.engine()
                &&& final(self)@.program_name() == old(self)@.program_name()
                &&& result matches Ok((executed, snapshot, statement)) ==> {
                    &&& executed == 0
                    &&& statement is None
                    &&& old(self)@.debug_infos_result() == Ok::<SnapshotView, ErrorView>(
                        snapshot@,
                    )
                }
            },
    {
        match &mut self.machine {
            Some(machine) => {
                let (executed, snapshot, statement) = run_steps(
                    &mut machine.interpreter,
                    steps,
                    input,
                    output,
                );
                machine.statement = statement;
                Ok((executed, snapshot, statement))
            },
            None => Err(DebuggerError::NoInterpreter),
        }
    }

    /// A snapshot of the machine as it is now.
    pub fn debug_infos(&self) -> (result: Result<DebugSnapshot, DebuggerError>)
        ensures
            match result {
                Ok(snapshot) => self@.debug_infos_result() == Ok::<SnapshotView, ErrorView>(
                    snapshot@,
                ) && snapshot@.wf(),
                Err(error) => self@.debug_infos_result() == Err::<SnapshotView, ErrorView>(error@),
            },
    {
        match &self.machine {
            Some(machine) => Ok(engine_debug_infos(&machine.interpreter)),
            None => Err(DebuggerError::NoInterpreter),
        }
    }

    /// The name of the program that was loaded last, if any.
    pub fn program_name(&self) -> (name: Option<&String>)
        ensures
            match name {
                Some(name) => self@.program_name() == Some(name@),
                None => self@.program_name() is None,
            },
    {
        match &self.machine {
            Some(machine) => match &machine.program_name {
                Some(name) => Some(name),
                None => None,
            },
            None => None,
        }
    }

    /// What the last instruction reported, if any.
    pub fn statement(&self) -> (statement: Option<Statement>)
        ensures
            statement == self@.statement(),
    {
        match &self.machine {
            Some(machine) => machine.statement,
            None => None,
        }
    }
}

/// Once the machine was given up, a reset, a run and a load each fail for
/// want of a machine, and each leaves the session and the streams as they
/// were.
pub proof fn lemma_no_machine_after_unset(
    session: SessionView,
    program: ProgramView,
    requested: nat,
    input: Seq<u8>,
    output: Seq<u8>,
)
    ensures
        ({
            let gone = session.after_unset_interpreter();
            &&& gone == SessionView::NoMachine
            &&& gone.reset_result() == Err::<Option<Statement>, ErrorView>(ErrorView::NoInterpreter)
            &&& gone.after_reset() == gone
            &&& gone.steps_result(requested, input, output) == Err::<
                (nat, SnapshotView, Option<Statement>),
                ErrorView,
            >(ErrorView::NoInterpreter)
            &&& gone.after_steps(requested, input, output) == gone
            &&& gone.input_after_steps(requested, input, output) == input
            &&& gone.output_after_steps(requested, input, output) == output
            &&& gone.needs_machine() == Err::<(), ErrorView>(ErrorView::NoInterpreter)
            &&& gone.after_copy_program_and_reset(program) == gone
        }),
{
}

/// A machine that is made takes the place of the one before it entirely:
/// whatever was loaded into the first, the second is as new, every cell a
/// no-op and the registers cleared.
pub proof fn lemma_set_interpreter_discards(
    session: SessionView,
    first_length: nat,
    first_width: nat,
    program: ProgramView,
    arch_length: nat,
    arch_width: nat,
)
    requires
        valid_geometry(arch_length, arch_width),
    ensures
        ({
            let replaced = session.after_set_interpreter(
                first_length,
                first_width,
            ).after_copy_program_and_reset(program).after_set_interpreter(arch_length, arch_width);
            &&& replaced.engine() == Some(EngineState::fresh(arch_length, arch_width))
            &&& replaced.debug_infos_result() matches Ok(snapshot)
            &&& snapshot.memory.len() == arch_length
            &&& forall|i: int| 0 <= i < arch_length ==> snapshot.memory[i] == nop_op_code()
            &&& snapshot.pc == 0
            &&& snapshot.sp == 0
            &&& !snapshot.nz
        }),
{
}

/// After a program was loaded and the machine reset, a snapshot shows the
/// program at the start of memory, each byte as the cell it encodes, the
/// cells behind it as they were before, and the registers cleared. Loading
/// the same program a second time changes nothing.
pub proof fn lemma_copy_program_round_trip(session: SessionView, program: ProgramView)
    requires
        session is MachineReady,
    ensures
        ({
            let before = session.engine()->0.memory;
            let once = session.after_copy_program_and_reset(program).after_reset();
            let twice = session.after_copy_program_and_reset(
                program,
            ).after_copy_program_and_reset(program).after_reset();
            &&& once.debug_infos_result() matches Ok(snapshot)
            &&& snapshot.memory.len() == before.len()
            &&& forall|i: int|
                0 <= i < before.len() ==> #[trigger] snapshot.memory[i] == if i
                    < program.bytes.len() {
                    encoded_cell(program.bytes[i])
                } else {
                    before[i]
                }
            &&& snapshot.pc == 0
            &&& snapshot.sp == 0
            &&& !snapshot.nz
            &&& twice == once
        }),
{
    let first = session.engine()->0.loaded(encoded(program.bytes)).reset();
    let second = first.loaded(encoded(program.bytes)).reset();
    assert(second.memory =~= first.memory);
}

} // verus!
