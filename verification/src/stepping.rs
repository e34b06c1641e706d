//! Bounded execution: run a machine for up to a requested number of
//! instructions and stop as soon as one of them is a halt.

use vstd::prelude::*;
use std::collections::VecDeque;
use reustmann::Interpreter;
use crate::engine::engine_debug_infos;
use crate::engine::engine_state;
use crate::engine::engine_step;
use crate::engine::step_outcome;
use crate::engine::DebugSnapshot;
use crate::engine::EngineState;
use crate::engine::Statement;

verus! {

/// A machine together with its two streams at some point of a run.
pub struct RunView {
    /// The machine.
    pub engine: EngineState,
    /// The input that has not been read yet.
    pub input: Seq<u8>,
    /// Everything in the output, what was there before the run included.
    pub output: Seq<u8>,
    /// How many instructions the machine was asked to execute so far.
    pub performed: nat,
    /// What the last of them reported, if there was one.
    pub statement: Option<Statement>,
}

impl RunView {
    /// The point at which every run begins.
    pub open spec fn start(engine: EngineState, input: Seq<u8>, output: Seq<u8>) -> RunView {
        RunView { engine, input, output, performed: 0, statement: None }
    }

    /// Whether the last instruction was a halt.
    pub open spec fn halted(self) -> bool {
        self.statement matches Some(statement) && statement.halts()
    }

    /// How many instructions count as executed: all that were performed, but
    /// not the halt that ended the run.
    pub open spec fn executed(self) -> nat {
        if self.halted() {
            (self.performed - 1) as nat
        } else {
            self.performed
        }
    }

    /// The point reached by one more instruction.
    pub open spec fn step(self) -> RunView {
        let outcome = step_outcome(self.engine, self.input);
        RunView {
            engine: outcome.state,
            input: outcome.input,
            output: self.output + outcome.emitted,
            performed: self.performed + 1,
            statement: Some(outcome.statement),
        }
    }
}

/// The point reached by `count` instructions, halts or not.
pub open spec fn advance(engine: EngineState, input: Seq<u8>, output: Seq<u8>, count: nat) -> RunView
    decreases count,
{
    if count == 0 {
        RunView::start(engine, input, output)
    } else {
        advance(engine, input, output, (count - 1) as nat).step()
    }
}

/// The point at which a run of up to `requested` instructions ends: it goes
/// on one instruction at a time and stays where the first halt left it.
pub open spec fn run(engine: EngineState, input: Seq<u8>, output: Seq<u8>, requested: nat) -> RunView
    decreases requested,
{
    if requested == 0 {
        RunView::start(engine, input, output)
    } else {
        let before = run(engine, input, output, (requested - 1) as nat);
        if before.halted() {
            before
        } else {
            before.step()
        }
    }
}

/// A run that has halted is also the run for every larger request.
pub proof fn lemma_run_stays_halted(
    engine: EngineState,
    input: Seq<u8>,
    output: Seq<u8>,
    reached: nat,
    requested: nat,
)
    requires
        reached <= requested,
        run(engine, input, output, reached).halted(),
    ensures
        run(engine, input, output, requested) == run(engine, input, output, reached),
    decreases requested,
{
    if reached < requested {
        lemma_run_stays_halted(engine, input, output, reached, (requested - 1) as nat);
    }
}

/// `count` instructions were performed after `count` instructions.
pub proof fn lemma_advance_performed(
    engine: EngineState,
    input: Seq<u8>,
    output: Seq<u8>,
    count: nat,
)
    ensures
        advance(engine, input, output, count).performed == count,
    decreases count,
{
    if count > 0 {
        lemma_advance_performed(engine, input, output, (count - 1) as nat);
    }
}

/// A request for no instruction performs none: the machine and the streams
/// are as they were, nothing counts as executed and there is no statement.
pub proof fn lemma_run_nothing(engine: EngineState, input: Seq<u8>, output: Seq<u8>)
    ensures
        run(engine, input, output, 0) == RunView::start(engine, input, output),
        run(engine, input, output, 0).engine == engine,
        run(engine, input, output, 0).executed() == 0,
        run(engine, input, output, 0).statement is None,
{
}

/// A run is the first instructions of the machine, one after the other, up
/// to the first halt: it has performed at most as many as were requested,
/// none of those before the last is a halt, and it falls short of the request
/// only where it has halted.
pub proof fn lemma_run_is_prefix(
    engine: EngineState,
    input: Seq<u8>,
    output: Seq<u8>,
    requested: nat,
)
    ensures
        ({
            let end = run(engine, input, output, requested);
            &&& end == advance(engine, input, output, end.performed)
            &&& end.performed <= requested
            &&& end.halted() || end.performed == requested
            &&& end.halted() ==> end.performed >= 1
            &&& forall|j: nat|
                1 <= j < end.performed ==> !(#[trigger] advance(engine, input, output, j)).halted()
        }),
    decreases requested,
{
    if requested > 0 {
        lemma_run_is_prefix(engine, input, output, (requested - 1) as nat);
        let before = run(engine, input, output, (requested - 1) as nat);
        if !before.halted() {
            assert(before.step() == advance(engine, input, output, before.performed + 1));
        }
    }
}

/// Where none of the first `requested` instructions is a halt, the run
/// performs all of them and all of them count as executed.
pub proof fn lemma_run_without_halt(
    engine: EngineState,
    input: Seq<u8>,
    output: Seq<u8>,
    requested: nat,
)
    requires
        forall|k: nat|
            1 <= k <= requested ==> !(#[trigger] advance(engine, input, output, k)).halted(),
    ensures
        run(engine, input, output, requested) == advance(engine, input, output, requested),
        run(engine, input, output, requested).performed == requested,
        run(engine, input, output, requested).executed() == requested,
{
    lemma_run_is_prefix(engine, input, output, requested);
    lemma_advance_performed(engine, input, output, requested);
    let end = run(engine, input, output, requested);
    if end.halted() {
        assert(!advance(engine, input, output, end.performed).halted());
    }
}

/// Where instruction number `k`, counted from 1 and within the request, is a
/// halt, the run ends with a halt after at most `k` instructions and performs
/// none after it. Where it is the first halt, exactly `k` instructions are
/// performed, and the `k - 1` before the halt count as executed.
pub proof fn lemma_run_stops_at_halt(
    engine: EngineState,
    input: Seq<u8>,
    output: Seq<u8>,
    requested: nat,
    k: nat,
)
    requires
        1 <= k <= requested,
        advance(engine, input, output, k).halted(),
    ensures
        ({
            let end = run(engine, input, output, requested);
            &&& end.halted()
            &&& end == advance(engine, input, output, end.performed)
            &&& 1 <= end.performed <= k
            &&& end.executed() == end.performed - 1
            &&& (forall|j: nat|
                1 <= j < k ==> !(#[trigger] advance(engine, input, output, j)).halted()) ==> {
                &&& end == advance(engine, input, output, k)
                &&& end.performed == k
                &&& end.executed() == k - 1
            }
        }),
{
    lemma_run_is_prefix(engine, input, output, requested);
    let end = run(engine, input, output, requested);
    if end.performed > k {
        assert(!advance(engine, input, output, k).halted());
    }
    if end.performed < k {
        assert(end.halted());
        if forall|j: nat|
            1 <= j < k ==> !(#[trigger] advance(engine, input, output, j)).halted() {
            assert(!advance(engine, input, output, end.performed).halted());
        }
    }
}

/// Runs `engine` for up to `requested` instructions, each reading from the
/// front of `input` and appending to `output`, and stops after the first
/// halt. Returns how many instructions were executed before the run ended, a
/// snapshot of the machine as the run left it, and the last statement.
pub fn run_steps(
    engine: &mut Interpreter,
    requested: usize,
    input: &mut VecDeque<u8>,
    output: &mut Vec<u8>,
) -> (result: (usize, DebugSnapshot, Option<Statement>))
    ensures
        ({
            let end = run(
                engine_state(*old(engine)),
                old(input)@,
                old(output)@,
                requested as nat,
            );
            &&& engine_state(*final(engine)) == end.engine
            &&& final(input)@ == end.input
            &&& final(output)@ == end.output
            &&& result.0 == end.executed()
            &&& result.1@ == end.engine.snapshot()
            &&& result.1@.wf()
            &&& result.2 == end.statement
        }),
        requested == 0 ==> {
            &&& engine_state(*final(engine)) == engine_state(*old(engine))
            &&& final(input)@ == old(input)@
            &&& final(output)@ == old(output)@
            &&& result.0 == 0
            &&& result.1@ == engine_state(*old(engine)).snapshot()
            &&& result.2 is None
        },
{
    let ghost start = engine_state(*engine);
    let ghost input_start = input@;
    let ghost output_start = output@;
    let mut statement: Option<Statement> = None;
    let mut executed: usize = 0;
    let mut i: usize = 0;
    while i < requested
        invariant_except_break
            i <= requested,
            executed == i,
            !run(start, input_start, output_start, i as nat).halted(),
        invariant
            run(start, input_start, output_start, i as nat).performed == i,
            engine_state(*engine) == run(start, input_start, output_start, i as nat).engine,
            input@ == run(start, input_start, output_start, i as nat).input,
            output@ == run(start, input_start, output_start, i as nat).output,
            statement == run(start, input_start, output_start, i as nat).statement,
        ensures
            engine_state(*engine) == run(start, input_start, output_start, requested as nat).engine,
            input@ == run(start, input_start, output_start, requested as nat).input,
            output@ == run(start, input_start, output_start, requested as nat).output,
            statement == run(start, input_start, output_start, requested as nat).statement,
            executed == run(start, input_start, output_start, requested as nat).executed(),
        decreases requested - i,
    {
        let stepped = engine_step(engine, input, output);
        statement = Some(stepped);
        if stepped.is_halt() {
            proof {
                lemma_run_stays_halted(
                    start,
                    input_start,
                    output_start,
                    (i + 1) as nat,
                    requested as nat,
                );
            }
            i = i + 1;
            break ;
        }
        executed = i + 1;
        i = i + 1;
    }
    (executed, engine_debug_infos(engine), statement)
}

} // verus!
