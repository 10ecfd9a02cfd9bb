//! A small task-scheduler model: a reference aggregate state for the engine,
//! with its commands, scripted commanders, printers and loopback ports.
//!
//! The state is an ordered list of task identifiers compared after
//! relabeling, plus ignored control data, so a target whose concrete task
//! ids differ from the model's still matches as long as both schedule the
//! same way.

use crate::command::Command;
use crate::command::Commander;
use crate::error::Error;
use crate::printer::write_stdout;
use crate::runner;
use crate::state::AbstractState;
use crate::state::IdentList;
use crate::state::Ignored;
use vstd::prelude::*;

verus! {

use vstd::pervasive::cloned;

/// The wire tag of `Spawn`.
pub const SPAWN_TAG: u8 = 1;

/// The wire tag of `Sched`.
pub const SCHED_TAG: u8 = 2;

/// The wire tag of `Exit`.
pub const EXIT_TAG: u8 = 3;

/// The identifier following `n`, wrapping at the end of the range.
pub open spec fn next_id(n: usize) -> usize {
    if n == usize::MAX {
        0
    } else {
        (n + 1) as usize
    }
}

/// Control bookkeeping of the task model; wrapped in `Ignored`, so never
/// compared against the target.
#[derive(Debug, Clone, Default)]
pub struct EasyControlInfo {
    /// The identifier the next spawned task receives.
    pub next_task: usize,
}

/// The task-scheduler state: a task-identifier list compared after
/// relabeling, and ignored control data.
#[derive(Debug)]
pub struct EasyState {
    /// Identifiers of the live tasks, in scheduling order.
    pub tasks: IdentList,
    /// Private bookkeeping, exempt from comparison and update.
    pub control: Ignored<EasyControlInfo>,
}

impl Clone for EasyState {
    fn clone(&self) -> (r: Self)
        ensures
            r.tasks.0@ == self.tasks.0@,
    {
        EasyState { tasks: self.tasks.clone(), control: self.control.clone() }
    }
}

impl AbstractState for EasyState {
    open spec fn matches_spec(&self, other: &Self) -> bool {
        &&& self.tasks.matches_spec(&other.tasks)
        &&& self.control.matches_spec(&other.control)
    }

    open spec fn updated(&self, other: &Self, next: &Self) -> bool {
        &&& self.tasks.updated(&other.tasks, &next.tasks)
        &&& self.control.updated(&other.control, &next.control)
    }

    fn matches(&self, other: &Self) -> (r: bool) {
        self.tasks.matches(&other.tasks) && self.control.matches(&other.control)
    }

    fn update(&mut self, other: &Self) {
        self.tasks.update(&other.tasks);
        self.control.update(&other.control);
    }

    proof fn lemma_matches_reflexive(&self) {
        self.tasks.lemma_matches_reflexive();
    }

    proof fn lemma_updated_matches(&self, other: &Self, next: &Self) {
        self.tasks.lemma_updated_matches(&other.tasks, &next.tasks);
    }

    proof fn lemma_cloned_matches(a: &Self, b: &Self) {
        if a == b {
            a.lemma_matches_reflexive();
        }
    }
}

/// An `update` never touches the ignored control field of the task state,
/// whatever the source state holds.
pub proof fn lemma_easy_state_control_unchanged(
    prev: &EasyState,
    other: &EasyState,
    next: &EasyState,
)
    requires
        prev.updated(other, next),
    ensures
        next.control == prev.control,
{
}

/// Spawn a task: the next fresh identifier joins the end of the task list.
#[derive(Debug, Clone, Copy)]
pub struct Spawn;

impl Command<EasyState> for Spawn {
    open spec fn execute_post(&self, pre: &EasyState, post: &EasyState) -> bool {
        &&& post.tasks.0@ == pre.tasks.0@.push(pre.control.0.next_task)
        &&& post.control.0.next_task == next_id(pre.control.0.next_task)
    }

    open spec fn execute_ret(&self, pre: &EasyState) -> isize {
        0
    }

    open spec fn wire_spec(&self) -> Seq<u8> {
        seq![SPAWN_TAG]
    }

    open spec fn name_spec(&self) -> Seq<char> {
        "spawn"@
    }

    fn execute(&self, state: &mut EasyState) -> (r: isize) {
        let id = state.control.0.next_task;
        state.tasks.0.push(id);
        state.control.0.next_task = if id == usize::MAX {
            0
        } else {
            id + 1
        };
        0
    }

    fn to_bytes(&self) -> (r: Vec<u8>) {
        let mut bytes: Vec<u8> = Vec::new();
        bytes.push(SPAWN_TAG);
        proof {
            assert(bytes@ =~= seq![SPAWN_TAG]);
        }
        bytes
    }

    fn stringify(&self) -> (r: String) {
        "spawn".to_string()
    }
}

/// Schedule: the running task moves to the end of the list and the next one
/// takes its place.  With no task to schedule the command reports its
/// designated failure code instead.
#[derive(Debug, Clone, Copy)]
pub struct Sched;

impl Command<EasyState> for Sched {
    open spec fn execute_post(&self, pre: &EasyState, post: &EasyState) -> bool {
        &&& post.tasks.0@ == (if pre.tasks.0@.len() == 0 {
            pre.tasks.0@
        } else {
            pre.tasks.0@.remove(0).push(pre.tasks.0@[0])
        })
        &&& post.control == pre.control
    }

    open spec fn execute_ret(&self, pre: &EasyState) -> isize {
        if pre.tasks.0@.len() == 0 {
            -1isize
        } else {
            0
        }
    }

    open spec fn wire_spec(&self) -> Seq<u8> {
        seq![SCHED_TAG]
    }

    open spec fn name_spec(&self) -> Seq<char> {
        "sched"@
    }

    fn execute(&self, state: &mut EasyState) -> (r: isize) {
        if state.tasks.0.len() == 0 {
            return -1;
        }
        let head = state.tasks.0.remove(0);
        state.tasks.0.push(head);
        0
    }

    fn to_bytes(&self) -> (r: Vec<u8>) {
        let mut bytes: Vec<u8> = Vec::new();
        bytes.push(SCHED_TAG);
        proof {
            assert(bytes@ =~= seq![SCHED_TAG]);
        }
        bytes
    }

    fn stringify(&self) -> (r: String) {
        "sched".to_string()
    }
}

/// Exit: the most recently spawned task leaves the list; with no task left
/// the command does nothing and still succeeds.
#[derive(Debug, Clone, Copy)]
pub struct Exit;

impl Command<EasyState> for Exit {
    open spec fn execute_post(&self, pre: &EasyState, post: &EasyState) -> bool {
        &&& post.tasks.0@ == (if pre.tasks.0@.len() == 0 {
            pre.tasks.0@
        } else {
            pre.tasks.0@.subrange(0, pre.tasks.0@.len() - 1)
        })
        &&& post.control == pre.control
    }

    open spec fn execute_ret(&self, pre: &EasyState) -> isize {
        0
    }

    open spec fn wire_spec(&self) -> Seq<u8> {
        seq![EXIT_TAG]
    }

    open spec fn name_spec(&self) -> Seq<char> {
        "exit"@
    }

    fn execute(&self, state: &mut EasyState) -> (r: isize) {
        let _ = state.tasks.0.pop();
        0
    }

    fn to_bytes(&self) -> (r: Vec<u8>) {
        let mut bytes: Vec<u8> = Vec::new();
        bytes.push(EXIT_TAG);
        proof {
            assert(bytes@ =~= seq![EXIT_TAG]);
        }
        bytes
    }

    fn stringify(&self) -> (r: String) {
        "exit".to_string()
    }
}

/// Any command of the task model, as one dispatchable value.
#[derive(Debug, Clone, Copy)]
pub enum TaskCommand {
    /// Spawn a task.
    Spawn(Spawn),
    /// Schedule the next task.
    Sched(Sched),
    /// Exit the most recently spawned task.
    Exit(Exit),
}

impl Command<EasyState> for TaskCommand {
    open spec fn execute_post(&self, pre: &EasyState, post: &EasyState) -> bool {
        match self {
            TaskCommand::Spawn(c) => c.execute_post(pre, post),
            TaskCommand::Sched(c) => c.execute_post(pre, post),
            TaskCommand::Exit(c) => c.execute_post(pre, post),
        }
    }

    open spec fn execute_ret(&self, pre: &EasyState) -> isize {
        match self {
            TaskCommand::Spawn(c) => c.execute_ret(pre),
            TaskCommand::Sched(c) => c.execute_ret(pre),
            TaskCommand::Exit(c) => c.execute_ret(pre),
        }
    }

    open spec fn wire_spec(&self) -> Seq<u8> {
        match self {
            TaskCommand::Spawn(c) => c.wire_spec(),
            TaskCommand::Sched(c) => c.wire_spec(),
            TaskCommand::Exit(c) => c.wire_spec(),
        }
    }

    open spec fn name_spec(&self) -> Seq<char> {
        match self {
            TaskCommand::Spawn(c) => c.name_spec(),
            TaskCommand::Sched(c) => c.name_spec(),
            TaskCommand::Exit(c) => c.name_spec(),
        }
    }

    fn execute(&self, state: &mut EasyState) -> (r: isize) {
        match self {
            TaskCommand::Spawn(c) => c.execute(state),
            TaskCommand::Sched(c) => c.execute(state),
            TaskCommand::Exit(c) => c.execute(state),
        }
    }

    fn to_bytes(&self) -> (r: Vec<u8>) {
        match self {
            TaskCommand::Spawn(c) => c.to_bytes(),
            TaskCommand::Sched(c) => c.to_bytes(),
            TaskCommand::Exit(c) => c.to_bytes(),
        }
    }

    fn stringify(&self) -> (r: String) {
        match self {
            TaskCommand::Spawn(c) => c.stringify(),
            TaskCommand::Sched(c) => c.stringify(),
            TaskCommand::Exit(c) => c.stringify(),
        }
    }
}

/// The command at position `i` of the repeating round-robin script.
pub open spec fn round_script_at(i: int) -> TaskCommand {
    let k = i % 10;
    if k == 0 {
        TaskCommand::Spawn(Spawn)
    } else if k == 1 {
        TaskCommand::Sched(Sched)
    } else if k == 2 {
        TaskCommand::Sched(Sched)
    } else if k == 3 {
        TaskCommand::Spawn(Spawn)
    } else if k == 4 {
        TaskCommand::Sched(Sched)
    } else if k == 5 {
        TaskCommand::Exit(Exit)
    } else if k == 6 {
        TaskCommand::Sched(Sched)
    } else if k == 7 {
        TaskCommand::Spawn(Spawn)
    } else if k == 8 {
        TaskCommand::Exit(Exit)
    } else {
        TaskCommand::Exit(Exit)
    }
}

/// A commander that cycles forever through a fixed ten-command round:
/// spawn, sched, sched, spawn, sched, exit, sched, spawn, exit, exit.
#[derive(Debug)]
pub struct RoundIn(pub usize);

impl runner::Commander<EasyState> for RoundIn {
    type Cmd = TaskCommand;

    open spec fn command_post(&self, next: &Self, r: &Result<TaskCommand, Error>) -> bool {
        &&& next.0 == next_id(self.0)
        &&& *r == Result::<TaskCommand, Error>::Ok(round_script_at(self.0 as int))
    }

    fn command(&mut self) -> (r: Result<TaskCommand, Error>) {
        let k = self.0 % 10;
        let cmd = if k == 0 {
            TaskCommand::Spawn(Spawn)
        } else if k == 1 {
            TaskCommand::Sched(Sched)
        } else if k == 2 {
            TaskCommand::Sched(Sched)
        } else if k == 3 {
            TaskCommand::Spawn(Spawn)
        } else if k == 4 {
            TaskCommand::Sched(Sched)
        } else if k == 5 {
            TaskCommand::Exit(Exit)
        } else if k == 6 {
            TaskCommand::Sched(Sched)
        } else if k == 7 {
            TaskCommand::Spawn(Spawn)
        } else if k == 8 {
            TaskCommand::Exit(Exit)
        } else {
            TaskCommand::Exit(Exit)
        };
        self.0 = if self.0 == usize::MAX {
            0
        } else {
            self.0 + 1
        };
        Ok(cmd)
    }
}

/// A commander that plays a finite script once and then reports exhaustion,
/// the normal end of a session.
#[derive(Debug)]
pub struct ScriptCommander {
    /// The commands to emit, in order.
    pub script: Vec<TaskCommand>,
    /// How many commands were emitted already.
    pub at: usize,
}

impl ScriptCommander {
    /// A commander over the given script, starting at its beginning.
    pub fn new(script: Vec<TaskCommand>) -> (r: Self)
        ensures
            r.script == script,
            r.at == 0,
    {
        ScriptCommander { script, at: 0 }
    }
}

impl Commander<EasyState> for ScriptCommander {
    type Cmd = TaskCommand;

    open spec fn command_post(
        &self,
        next: &Self,
        state: &EasyState,
        r: &Result<TaskCommand, Error>,
    ) -> bool {
        if self.at < self.script@.len() {
            &&& next.script == self.script
            &&& next.at == self.at + 1
            &&& *r == Result::<TaskCommand, Error>::Ok(self.script@[self.at as int])
        } else {
            &&& *next == *self
            &&& *r == Result::<TaskCommand, Error>::Err(Error::Exhausted)
        }
    }

    fn command(&mut self, state: &EasyState) -> (r: Result<TaskCommand, Error>) {
        if self.at < self.script.len() {
            let cmd = self.script[self.at];
            self.at = self.at + 1;
            Ok(cmd)
        } else {
            Err(Error::Exhausted)
        }
    }
}

/// A printer for the runner that writes everything to standard output.
pub struct Stdout;

impl<S: AbstractState + core::fmt::Debug> runner::Printer<S> for Stdout {
    fn print_str(&mut self, s: &str) {
        write_stdout(s);
    }

    fn print_state(&mut self, s: &S) {
        let line = state_line(s);
        write_stdout(line.as_str());
    }
}

/// Relies on std's formatter: renders the state's debug form.
#[verifier::external_body]
fn state_line<D: core::fmt::Debug>(v: &D) -> String {
    format!("{:?}", v)
}

/// A loopback test port for the runner: commands run against an owned mirror
/// of the task state, the reported result code is always zero, and snapshots
/// are copies of the mirror.
pub struct FakeTestPort(pub EasyState);

impl runner::TestPort<EasyState, TaskCommand> for FakeTestPort {
    open spec fn send_post(&self, cmd: &TaskCommand, next: &Self, r: &Result<(), Error>) -> bool {
        &&& cmd.execute_post(&self.0, &next.0)
        &&& *r is Ok
    }

    open spec fn retv_post(&self, next: &Self, r: isize) -> bool {
        &&& *next == *self
        &&& r == 0
    }

    open spec fn state_post(&self, next: &Self, r: &Result<EasyState, Error>) -> bool {
        &&& *next == *self
        &&& *r matches Ok(s) && cloned::<EasyState>(self.0, s)
    }

    fn send_command(&mut self, command: &TaskCommand) -> (r: Result<(), Error>) {
        let _ = command.execute(&mut self.0);
        Ok(())
    }

    fn get_retv(&mut self) -> (r: isize) {
        0
    }

    fn get_state(&mut self) -> (r: Result<EasyState, Error>) {
        Ok(self.0.clone())
    }
}

} // verus!
