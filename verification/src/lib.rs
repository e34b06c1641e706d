//! The control layer of a debugger for a small byte machine: a session that
//! owns at most one machine, bounded stepping that stops on a halt, and a
//! wrap-around window over the machine's memory for display.

pub mod command;
pub mod debugger;
pub mod engine;
pub mod program;
pub mod reply;
pub mod stepping;
pub mod window;

pub use command::parse_command;
pub use command::Command;
pub use debugger::Debugger;
pub use debugger::DebuggerError;
pub use engine::DebugSnapshot;
pub use engine::Statement;
pub use program::ProgramImage;
pub use reply::Reply;
pub use stepping::run_steps;
pub use window::render;
pub use window::RenderRow;
