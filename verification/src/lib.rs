//! A differential model-checking engine: the same command sequence is run
//! against an in-process abstract model and against a real target behind a
//! port, and result codes and observable state are compared after every step.

mod checker;
mod command;
mod error;
mod event;
mod kernel;
mod mem;
mod port;
mod printer;

pub mod runner;
pub mod state;
pub mod task;

pub use checker::{CheckLevel, CheckStep, Checker};
pub use command::{Command, Commander};
pub use error::Error;
pub use event::Event;
pub use kernel::Kernel;
pub use mem::{ReadTargetMem, WriteTargetMem};
pub use port::{CommandChannel, MemCommandChannel, MockTestPort, StateChannel, TestPort};
pub use printer::{Printer, StdoutPrinter};
pub use state::AbstractState;
