//! The byte machine that the session drives. The machine itself comes from
//! the `reustmann` crate; this module gives its state a mathematical model and
//! states, without proof, what each of its operations does to that model.

use vstd::prelude::*;
use std::collections::VecDeque;
use reustmann::Interpreter;

verus! {

/// The op-code that stops a run.
pub open spec fn halt_op_code() -> u8 {
    2
}

/// The op-code that a reset reports as executed.
pub open spec fn reset_op_code() -> u8 {
    1
}

/// The op-code that does nothing; a new machine's memory is filled with it.
pub open spec fn nop_op_code() -> u8 {
    0
}

/// The outcome of the instruction executed last.
#[derive(Clone, Copy, Debug, PartialEq, Eq, Structural)]
pub struct Statement {
    /// The op-code that was executed.
    pub op_code: u8,
    /// Whether the instruction did all of its work.
    pub succeeded: bool,
}

impl Statement {
    /// Whether the statement is that of a halt.
    pub open spec fn halts(self) -> bool {
        self.op_code == halt_op_code()
    }

    /// Whether the statement is that of a halt, after which a run stops.
    pub fn is_halt(&self) -> (halt: bool)
        ensures
            halt == self.halts(),
    {
        self.op_code == engine_halt_op_code()
    }
}

/// What a snapshot shows, as mathematical values.
pub struct SnapshotView {
    pub memory: Seq<u8>,
    pub pc: nat,
    pub sp: nat,
    pub nz: bool,
}

/// The machine's memory and registers at one instant.
#[derive(Clone, Debug, PartialEq, Eq)]
pub struct DebugSnapshot {
    /// Every cell of the machine, in address order.
    pub memory: Vec<u8>,
    /// The program counter.
    pub pc: usize,
    /// The stack pointer.
    pub sp: usize,
    /// The not-zero flag.
    pub nz: bool,
}

impl View for DebugSnapshot {
    type V = SnapshotView;

    open spec fn view(&self) -> SnapshotView {
        SnapshotView { memory: self.memory@, pc: self.pc as nat, sp: self.sp as nat, nz: self.nz }
    }
}

impl SnapshotView {
    /// Both registers point into memory.
    pub open spec fn wf(self) -> bool {
        &&& self.pc < self.memory.len()
        &&& self.sp < self.memory.len()
    }
}

/// All that a machine holds: its memory, its three registers and the width
/// of a cell in bits.
pub struct EngineState {
    pub memory: Seq<u8>,
    pub pc: nat,
    pub sp: nat,
    pub nz: bool,
    pub width: nat,
}

/// What one instruction does: the machine afterwards, the statement it
/// reports, the input that is left and the bytes it wrote.
pub struct StepOutcome {
    pub state: EngineState,
    pub statement: Statement,
    pub input: Seq<u8>,
    pub emitted: Seq<u8>,
}

/// The lengths and widths that a machine can be made with.
pub open spec fn valid_geometry(arch_length: nat, arch_width: nat) -> bool {
    &&& 1 <= arch_length <= 0xffff_ffff
    &&& 6 <= arch_width <= 32
}

/// Why a geometry that is not valid was turned down.
pub open spec fn rejection(arch_length: nat, arch_width: nat) -> Seq<char>
    recommends
        !valid_geometry(arch_length, arch_width),
{
    if arch_length == 0 || arch_length > 0xffff_ffff {
        "Arch length need to be in the range [1..2^32)"@
    } else {
        "Arch width need to be in the range [6..32)"@
    }
}

impl EngineState {
    /// A machine as it is made: every cell a no-op, registers cleared.
    pub open spec fn fresh(arch_length: nat, arch_width: nat) -> EngineState {
        EngineState {
            memory: Seq::new(arch_length, |i: int| nop_op_code()),
            pc: 0,
            sp: 0,
            nz: false,
            width: arch_width,
        }
    }

    /// The same memory with the registers cleared.
    pub open spec fn reset(self) -> EngineState {
        EngineState { pc: 0, sp: 0, nz: false, ..self }
    }

    /// The machine after `cells` were written to the start of its memory: as
    /// many of them as fit are stored from address 0 on, the cells behind them
    /// keep what they held, and the registers are cleared.
    pub open spec fn loaded(self, cells: Seq<u8>) -> EngineState {
        EngineState {
            memory: Seq::new(
                self.memory.len(),
                |i: int|
                    if i < cells.len() {
                        cells[i]
                    } else {
                        self.memory[i]
                    },
            ),
            pc: 0,
            sp: 0,
            nz: false,
            width: self.width,
        }
    }

    /// What a snapshot of this machine shows.
    pub open spec fn snapshot(self) -> SnapshotView {
        SnapshotView { memory: self.memory, pc: self.pc, sp: self.sp, nz: self.nz }
    }
}

#[verifier::external_type_specification]
#[verifier::external_body]
pub struct ExInterpreter(reustmann::Interpreter);

/// What a machine of the `reustmann` crate holds.
pub uninterp spec fn engine_state(engine: Interpreter) -> EngineState;

/// The cell that `reustmann::Interpreter::copy_program` stores for one byte
/// of a program: the op-code of the instruction whose one-letter mnemonic the
/// byte is, or the byte itself where it is no mnemonic.
pub uninterp spec fn encoded_cell(byte: u8) -> u8;

/// The cells that a program's bytes encode, one for one.
pub open spec fn encoded(image: Seq<u8>) -> Seq<u8> {
    image.map_values(|byte: u8| encoded_cell(byte))
}

/// What `reustmann::Interpreter::step` does to a machine in state `state`
/// whose input holds `input`.
pub uninterp spec fn step_outcome(state: EngineState, input: Seq<u8>) -> StepOutcome;

/// `reustmann::instruction::op_codes::HALT`, the op-code on which a run stops.
#[verifier::external_body]
fn engine_halt_op_code() -> (op_code: u8)
    ensures
        op_code == halt_op_code(),
{
    reustmann::instruction::op_codes::HALT
}

/// `reustmann::Interpreter::new`: a machine is made exactly for the valid
/// geometries, with every cell a no-op and the registers cleared; otherwise
/// the message says which of the two numbers was out of range, the length
/// first.
#[verifier::external_body]
pub(crate) fn engine_new(arch_length: usize, arch_width: usize) -> (made: Result<
    Interpreter,
    &'static str,
>)
    ensures
        made is Ok <==> valid_geometry(arch_length as nat, arch_width as nat),
        made matches Ok(engine) ==> engine_state(engine) == EngineState::fresh(
            arch_length as nat,
            arch_width as nat,
        ),
        made matches Err(cause) ==> cause@ == rejection(arch_length as nat, arch_width as nat),
{
    Interpreter::new(arch_length, arch_width)
}

/// `reustmann::Interpreter::copy_program`, on a program made of `image` by
/// `reustmann::Program::from_iter`: the bytes that fit are stored from
/// address 0 on, each as the cell it encodes, and the registers are cleared.
#[verifier::external_body]
pub(crate) fn engine_copy_program(engine: &mut Interpreter, image: &Vec<u8>)
    ensures
        engine_state(*final(engine)) == engine_state(*old(engine)).loaded(
            image@.map_values(|byte: u8| encoded_cell(byte)),
        ),
{
    engine.copy_program(&reustmann::Program::from_iter(image.iter().copied()))
}

/// `reustmann::Interpreter::reset`: the registers are cleared, memory stays,
/// and the statement reports a reset that succeeded.
#[verifier::external_body]
pub(crate) fn engine_reset(engine: &mut Interpreter) -> (statement: Statement)
    ensures
        engine_state(*final(engine)) == engine_state(*old(engine)).reset(),
        statement == (Statement { op_code: reset_op_code(), succeeded: true }),
{
    let reustmann::Statement(op_code, succeeded) = engine.reset();
    Statement { op_code, succeeded }
}

/// `reustmann::Interpreter::step`, reading from the front of `input` and
/// appending to `output`: the machine, the statement, the input left and the
/// bytes written are those of the step's outcome for the machine and input as
/// they were; nothing already in `output` changes.
#[verifier::external_body]
pub(crate) fn engine_step(
    engine: &mut Interpreter,
    input: &mut VecDeque<u8>,
    output: &mut Vec<u8>,
) -> (statement: Statement)
    ensures
        engine_state(*final(engine)) == step_outcome(
            engine_state(*old(engine)),
            old(input)@,
        ).state,
        statement == step_outcome(engine_state(*old(engine)), old(input)@).statement,
        final(input)@ == step_outcome(engine_state(*old(engine)), old(input)@).input,
        final(output)@ == old(output)@ + step_outcome(
            engine_state(*old(engine)),
            old(input)@,
        ).emitted,
{
    let reustmann::Statement(op_code, succeeded) = engine.step(input, output);
    Statement { op_code, succeeded }
}

/// `reustmann::Interpreter::debug_infos`: a copy of the memory and of the
/// three registers. Both pointers of any machine lie inside its memory.
#[verifier::external_body]
pub(crate) fn engine_debug_infos(engine: &Interpreter) -> (snapshot: DebugSnapshot)
    ensures
        snapshot@ == engine_state(*engine).snapshot(),
        snapshot@.wf(),
{
    let infos = engine.debug_infos();
    DebugSnapshot { memory: infos.memory.0, pc: infos.pc, sp: infos.sp, nz: infos.nz }
}

/// `reustmann::Interpreter::arch_length`: the number of cells.
#[verifier::external_body]
pub(crate) fn engine_arch_length(engine: &Interpreter) -> (arch_length: usize)
    ensures
        arch_length == engine_state(*engine).memory.len(),
{
    engine.arch_length()
}

/// `reustmann::Interpreter::arch_width`: the width of a cell in bits.
#[verifier::external_body]
pub(crate) fn engine_arch_width(engine: &Interpreter) -> (arch_width: usize)
    ensures
        arch_width == engine_state(*engine).width,
{
    engine.arch_width()
}

} // verus!
