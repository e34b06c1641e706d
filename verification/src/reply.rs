//! Carrying out a command: what the session does for it and what it has to
//! say afterwards. Showing the replies is left to the caller.

use vstd::prelude::*;
use std::collections::VecDeque;
use crate::command::Command;
use crate::command::CommandView;
use crate::debugger::Debugger;
use crate::debugger::DebuggerError;
use crate::debugger::ErrorView;
use crate::debugger::SessionView;
use crate::engine::engine_arch_length;
use crate::engine::engine_arch_width;
use crate::engine::DebugSnapshot;
use crate::engine::SnapshotView;
use crate::engine::Statement;
use crate::program::normalized;
use crate::program::ProgramImage;
use crate::program::ProgramView;
use crate::stepping::run;

verus! {

/// The width of the machine that is made for a program loaded while the
/// session has none.
pub const DEFAULT_ARCH_WIDTH: usize = 8;

/// One thing that the session has to say after a command.
#[derive(Clone, Debug, PartialEq, Eq)]
pub enum Reply {
    /// The machine was given up.
    Unset,
    /// A machine was made.
    Created,
    /// The geometry of the machine.
    Properties { arch_length: usize, arch_width: usize },
    /// The name of the program that is loaded.
    Program(String),
    /// A program was copied into the machine.
    Loaded,
    /// The registers were cleared.
    Reset,
    /// A run ended after `executed` of the `requested` instructions.
    Steps { executed: usize, requested: usize },
    /// The state of the machine, with the last statement.
    Infos { snapshot: DebugSnapshot, statement: Option<Statement> },
    /// The session could not do what was asked.
    Failure(DebuggerError),
    /// The program's file could not be read.
    LoadFailure(String),
}

/// A reply, as mathematical values.
pub enum ReplyView {
    Unset,
    Created,
    Properties { arch_length: nat, arch_width: nat },
    Program(Seq<char>),
    Loaded,
    Reset,
    Steps { executed: nat, requested: nat },
    Infos { snapshot: SnapshotView, statement: Option<Statement> },
    Failure(ErrorView),
    LoadFailure(Seq<char>),
}

impl View for Reply {
    type V = ReplyView;

    open spec fn view(&self) -> ReplyView {
        match *self {
            Reply::Unset => ReplyView::Unset,
            Reply::Created => ReplyView::Created,
            Reply::Properties { arch_length, arch_width } => ReplyView::Properties {
                arch_length: arch_length as nat,
                arch_width: arch_width as nat,
            },
            Reply::Program(name) => ReplyView::Program(name@),
            Reply::Loaded => ReplyView::Loaded,
            Reply::Reset => ReplyView::Reset,
            Reply::Steps { executed, requested } => ReplyView::Steps {
                executed: executed as nat,
                requested: requested as nat,
            },
            Reply::Infos { snapshot, statement } => ReplyView::Infos {
                snapshot: snapshot@,
                statement,
            },
            Reply::Failure(error) => ReplyView::Failure(error@),
            Reply::LoadFailure(message) => ReplyView::LoadFailure(message@),
        }
    }
}

/// A list of replies, each as mathematical values.
pub open spec fn replies_view(replies: Seq<Reply>) -> Seq<ReplyView> {
    replies.map_values(|reply: Reply| reply@)
}

/// What reading a program's file gave, as mathematical values.
pub open spec fn source_view(source: Result<Vec<u8>, String>) -> Result<Seq<u8>, Seq<char>> {
    match source {
        Ok(bytes) => Ok(bytes@),
        Err(message) => Err(message@),
    }
}

impl SessionView {
    /// The geometry of the machine, where there is one.
    pub open spec fn properties(self) -> Seq<ReplyView> {
        match self.engine() {
            Some(engine) => seq![
                ReplyView::Properties { arch_length: engine.memory.len(), arch_width: engine.width },
            ],
            None => seq![],
        }
    }

    /// The state of the machine with the last statement, or the failure for
    /// want of a machine.
    pub open spec fn infos(self) -> ReplyView {
        match self.engine() {
            Some(engine) => ReplyView::Infos {
                snapshot: engine.snapshot(),
                statement: self.statement(),
            },
            None => ReplyView::Failure(ErrorView::NoInterpreter),
        }
    }

    /// The session after a program's file was read and the program loaded.
    /// A source that could not be read changes nothing. Where the session
    /// has no machine, one is made first that is as long as the program and
    /// of the default width; if that fails, nothing changes.
    pub open spec fn after_copy(
        self,
        name: Seq<char>,
        ignore_newlines: bool,
        source: Result<Seq<u8>, Seq<char>>,
    ) -> SessionView {
        match source {
            Ok(bytes) => {
                let program = ProgramView { name, bytes: normalized(bytes, ignore_newlines) };
                if self is MachineReady {
                    self.after_copy_program_and_reset(program)
                } else {
                    self.after_set_interpreter(
                        program.bytes.len(),
                        DEFAULT_ARCH_WIDTH as nat,
                    ).after_copy_program_and_reset(program)
                }
            },
            Err(_) => self,
        }
    }

    /// What the session says after such a load.
    pub open spec fn copy_replies(
        self,
        name: Seq<char>,
        ignore_newlines: bool,
        source: Result<Seq<u8>, Seq<char>>,
    ) -> Seq<ReplyView> {
        match source {
            Ok(bytes) => {
                let program = ProgramView { name, bytes: normalized(bytes, ignore_newlines) };
                let after = self.after_copy(name, ignore_newlines, source);
                if self is MachineReady {
                    seq![ReplyView::Loaded, after.infos()]
                } else {
                    match self.set_interpreter_result(
                        program.bytes.len(),
                        DEFAULT_ARCH_WIDTH as nat,
                    ) {
                        Ok(_) => seq![ReplyView::Created] + after.properties() + seq![
                            after.infos(),
                        ],
                        Err(error) => seq![
                            ReplyView::Failure(error),
                            ReplyView::Failure(ErrorView::NoInterpreter),
                        ],
                    }
                }
            },
            Err(message) => seq![ReplyView::LoadFailure(message)],
        }
    }

    /// The session after `command` was carried out.
    pub open spec fn after_execute(
        self,
        command: CommandView,
        source: Result<Seq<u8>, Seq<char>>,
        input: Seq<u8>,
        output: Seq<u8>,
    ) -> SessionView {
        match command {
            CommandView::UnsetInterpreter => self.after_unset_interpreter(),
            CommandView::SetInterpreter { arch_length, arch_width } => self.after_set_interpreter(
                arch_length,
                arch_width,
            ),
            CommandView::Copy(name, ignore_newlines) => self.after_copy(
                name,
                ignore_newlines,
                source,
            ),
            CommandView::Reset => self.after_reset(),
            CommandView::Step(requested) => self.after_steps(requested, input, output),
            _ => self,
        }
    }

    /// What the session says after `command` was carried out.
    pub open spec fn execute_replies(
        self,
        command: CommandView,
        source: Result<Seq<u8>, Seq<char>>,
        input: Seq<u8>,
        output: Seq<u8>,
    ) -> Seq<ReplyView> {
        let after = self.after_execute(command, source, input, output);
        match command {
            CommandView::UnsetInterpreter => match self.needs_machine() {
                Ok(_) => seq![ReplyView::Unset],
                Err(error) => seq![ReplyView::Failure(error)],
            },
            CommandView::InfosInterpreter => match self.needs_machine() {
                Ok(_) => self.properties(),
                Err(error) => seq![ReplyView::Failure(error)],
            },
            CommandView::SetInterpreter { arch_length, arch_width } => match self.set_interpreter_result(
                arch_length,
                arch_width,
            ) {
                Ok(_) => seq![ReplyView::Created] + after.properties(),
                Err(error) => seq![ReplyView::Failure(error)],
            },
            CommandView::Infos => match self.program_name() {
                Some(name) => seq![ReplyView::Program(name), self.infos()],
                None => seq![self.infos()],
            },
            CommandView::Copy(name, ignore_newlines) => self.copy_replies(
                name,
                ignore_newlines,
                source,
            ),
            CommandView::Reset => match self.needs_machine() {
                Ok(_) => seq![ReplyView::Reset, after.infos()],
                Err(error) => seq![ReplyView::Failure(error)],
            },
            CommandView::Step(requested) => match self.engine() {
                Some(engine) => seq![
                    ReplyView::Steps {
                        executed: run(engine, input, output, requested).executed(),
                        requested,
                    },
                    after.infos(),
                ],
                None => seq![ReplyView::Failure(ErrorView::NoInterpreter)],
            },
            CommandView::Repeat => seq![],
            CommandView::Exit => seq![],
        }
    }
}

impl Debugger {
    /// The geometry of the machine, where there is one, added to `replies`.
    fn push_properties(&self, replies: &mut Vec<Reply>)
        ensures
            replies_view(final(replies)@) == replies_view(old(replies)@) + self@.properties(),
    {
        match self.interpreter() {
            Ok(interpreter) => {
                replies.push(
                    Reply::Properties {
                        arch_length: engine_arch_length(interpreter),
                        arch_width: engine_arch_width(interpreter),
                    },
                );
            },
            Err(_) => {},
        }
        assert(replies_view(replies@) =~= replies_view(old(replies)@) + self@.properties());
    }

    /// The state of the machine, or the failure for want of one, added to
    /// `replies`.
    fn push_infos(&self, replies: &mut Vec<Reply>)
        ensures
            replies_view(final(replies)@) == replies_view(old(replies)@).push(self@.infos()),
    {
        match self.debug_infos() {
            Ok(snapshot) => {
                replies.push(Reply::Infos { snapshot, statement: self.statement() });
            },
            Err(error) => {
                replies.push(Reply::Failure(error));
            },
        }
        assert(replies_view(replies@) =~= replies_view(old(replies)@).push(self@.infos()));
    }

    /// Loads the program called `name` from what reading its file gave. Where
    /// the session has no machine, one is made for the program first, as long
    /// as the program and of the default width, and the load is tried once
    /// more.
    fn execute_copy(&mut self, name: &String, ignore_newlines: bool, source: &Result<
        Vec<u8>,
        String,
    >) -> (replies: Vec<Reply>)
        ensures
            final(self)@ == old(self)@.after_copy(name@, ignore_newlines, source_view(*source)),
            replies_view(replies@) == old(self)@.copy_replies(
                name@,
                ignore_newlines,
                source_view(*source),
            ),
    {
        let mut replies: Vec<Reply> = Vec::new();
        match source {
            Err(message) => {
                replies.push(Reply::LoadFailure(message.clone()));
                assert(replies_view(replies@) =~= seq![ReplyView::LoadFailure(message@)]);
            },
            Ok(bytes) => {
                let program = ProgramImage::new(name.clone(), bytes, ignore_newlines);
                match self.copy_program_and_reset(&program) {
                    Ok(_) => {
                        replies.push(Reply::Loaded);
                        assert(replies_view(replies@) =~= seq![ReplyView::Loaded]);
                        self.push_infos(&mut replies);
                    },
                    Err(_) => {
                        let arch_length = program.memory().len();
                        match self.set_interpreter(arch_length, DEFAULT_ARCH_WIDTH) {
                            Ok(_) => {
                                replies.push(Reply::Created);
                                assert(replies_view(replies@) =~= seq![ReplyView::Created]);
                                match self.copy_program_and_reset(&program) {
                                    Ok(_) => {
                                        self.push_properties(&mut replies);
                                        self.push_infos(&mut replies);
                                    },
                                    Err(error) => {
                                        replies.push(Reply::Failure(error));
                                    },
                                }
                            },
                            Err(error) => {
                                replies.push(Reply::Failure(error));
                                replies.push(Reply::Failure(DebuggerError::NoInterpreter));
                                assert(replies_view(replies@) =~= seq![
                                    ReplyView::Failure(error@),
                                    ReplyView::Failure(ErrorView::NoInterpreter),
                                ]);
                            },
                        }
                    },
                }
            },
        }
        replies
    }

    /// Carries out `command` and returns what there is to say about it, in
    /// the order in which it is to be shown. `source` is what reading the
    /// file named by a copy command gave; no other command looks at it. A
    /// step reads from the front of `input` and appends to `output`.
    pub fn execute(
        &mut self,
        command: &Command,
        source: &Result<Vec<u8>, String>,
        input: &mut VecDeque<u8>,
        output: &mut Vec<u8>,
    ) -> (replies: Vec<Reply>)
        requires
            !(command is Exit),
            !(command is Repeat),
        ensures
            final(self)@ == old(self)@.after_execute(
                command@,
                source_view(*source),
                old(input)@,
                old(output)@,
            ),
            replies_view(replies@) == old(self)@.execute_replies(
                command@,
                source_view(*source),
                old(input)@,
                old(output)@,
            ),
            match *command {
                Command::Step(requested) => {
                    &&& final(input)@ == old(self)@.input_after_steps(
                        requested as nat,
                        old(input)@,
                        old(output)@,
                    )
                    &&& final(output)@ == old(self)@.output_after_steps(
                        requested as nat,
                        old(input)@,
                        old(output)@,
                    )
                },
                _ => final(input)@ == old(input)@ && final(output)@ == old(output)@,
            },
    {
        let mut replies: Vec<Reply> = Vec::new();
        match command {
            Command::UnsetInterpreter => {
                match self.unset_interpreter() {
                    Ok(_) => replies.push(Reply::Unset),
                    Err(error) => replies.push(Reply::Failure(error)),
                }
            },
            Command::InfosInterpreter => {
                match self.interpreter() {
                    Ok(_) => self.push_properties(&mut replies),
                    Err(error) => replies.push(Reply::Failure(error)),
                }
            },
            Command::SetInterpreter { arch_length, arch_width } => {
                match self.set_interpreter(*arch_length, *arch_width) {
                    Ok(_) => {
                        replies.push(Reply::Created);
                        assert(replies_view(replies@) =~= seq![ReplyView::Created]);
                        self.push_properties(&mut replies);
                    },
                    Err(error) => replies.push(Reply::Failure(error)),
                }
            },
            Command::Infos => {
                match self.program_name() {
                    Some(name) => replies.push(Reply::Program(name.clone())),
                    None => {},
                }
                self.push_infos(&mut replies);
            },
            Command::Copy(name, ignore_newlines) => {
                replies = self.execute_copy(name, *ignore_newlines, source);
            },
            Command::Reset => {
                match self.reset() {
                    Ok(_) => {
                        replies.push(Reply::Reset);
                        assert(replies_view(replies@) =~= seq![ReplyView::Reset]);
                        self.push_infos(&mut replies);
                    },
                    Err(error) => replies.push(Reply::Failure(error)),
                }
            },
            Command::Step(requested) => {
                match self.steps(*requested, input, output) {
                    Ok((executed, snapshot, statement)) => {
                        replies.push(Reply::Steps { executed, requested: *requested });
                        replies.push(Reply::Infos { snapshot, statement });
                    },
                    Err(error) => replies.push(Reply::Failure(error)),
                }
            },
            Command::Repeat => {},
            Command::Exit => {},
        }
        assert(replies_view(replies@) =~= old(self)@.execute_replies(
            command@,
            source_view(*source),
            old(input)@,
            old(output)@,
        ));
        replies
    }
}

} // verus!
