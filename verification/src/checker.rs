//! The checker: a finite-state machine that owns the model state and, round
//! by round, asks the commander for a command, executes it on the model,
//! sends it to the target, and compares result codes and retrieved state
//! under the configured severities.

use crate::command::Command;
use crate::command::Commander;
use crate::error::Error;
use crate::port::CommandChannel;
use crate::port::MockTestPort;
use crate::port::StateChannel;
use crate::port::TestPort;
use crate::printer::Printer;
use crate::state::AbstractState;
use vstd::prelude::*;

verus! {

/// Check level (of result code and state).
#[derive(Debug, Clone, Copy, PartialEq, Eq, Structural)]
pub enum CheckLevel {
    /// No checking.
    NoCheck,
    /// Only print if mismatch.
    Relaxed,
    /// Print and return an error if mismatch.
    Strict,
}

/// Checker execution steps.
///
/// The transition order is
/// `Start -> GetState* -> Init -> Command -> CheckRetv -> GetState* ->
/// CheckState -> Command -> ...`: the first completed retrieval initializes
/// the model, every later one is compared against it.
#[derive(Debug, Clone, Copy, PartialEq, Eq, Structural)]
pub enum CheckStep {
    /// Start of execution.
    Start,
    /// Initialize the model from the first retrieved snapshot.
    Init,
    /// Ask the commander for a command, run it on model and target.
    Command,
    /// Compare the target's result code with the model's.
    CheckRetv,
    /// Pull snapshot chunks from the target.
    GetState,
    /// Compare the retrieved snapshot with the model.
    CheckState,
}

/// Relies on std's formatter: renders the value's debug form after the
/// label.
#[verifier::external_body]
fn debug_line<D: core::fmt::Debug>(label: &str, v: &D) -> String {
    format!("{}{:?}", label, v)
}

/// Relies on std's formatter: renders the round banner.
#[verifier::external_body]
fn round_line(round: usize) -> String {
    format!("\x1b[1;32m[ Round {} ]\x1b[0m", round)
}

/// Relies on std's formatter: renders both result codes in hexadecimal.
#[verifier::external_body]
fn retv_line(expected: isize, got: isize) -> String {
    format!("Expected: {:#x}, Got: {:#x}", expected, got)
}

/// The model checker.
///
/// It owns the model state and the session bookkeeping; one call to `step`
/// drives one transition of the protocol.
pub struct Checker<C, T, P, S> where
    C: Commander<S>,
    T: TestPort<S, C::Cmd>,
    P: Printer,
    S: AbstractState + core::fmt::Debug,
 {
    /// Generator of commands.
    pub commander: C,
    /// Port to communicate with the target.
    pub port: T,
    /// Info printer.
    pub printer: P,
    /// Abstract state of the model.
    pub state: S,
    /// Round counter.
    pub round: usize,
    /// Current execution step.
    pub step: CheckStep,
    /// Return value of the last command on the model.
    pub retv: isize,
}

impl<C, T, P, S> Checker<C, T, P, S> where
    C: Commander<S>,
    T: TestPort<S, C::Cmd>,
    P: Printer,
    S: AbstractState + core::fmt::Debug,
 {
    /// Commander, model state, round and result code unchanged; the printer
    /// is never constrained.
    pub open spec fn unchanged_core(pre: Self, post: Self) -> bool {
        &&& post.commander == pre.commander
        &&& post.state == pre.state
        &&& post.round == pre.round
        &&& post.retv == pre.retv
    }

    /// What one driven transition guarantees, by the step it started from.
    ///
    /// Each arm relates the new checker to the old one through the port's,
    /// commander's and command's own contracts, and pins down the step
    /// transition and the returned outcome for every result the
    /// collaborators can produce.
    pub open spec fn step_post(
        pre: Self,
        post: Self,
        retv_level: CheckLevel,
        state_level: CheckLevel,
        r: Result<(), Error>,
    ) -> bool {
        match pre.step {
            CheckStep::Start => {
                &&& Self::unchanged_core(pre, post)
                &&& exists|rp: Result<(), Error>|
                    #![auto]
                    {
                        &&& pre.port.start_post(&post.port, &rp)
                        &&& match rp {
                            Ok(_) => r is Ok && post.step == CheckStep::GetState,
                            Err(e) => r == Result::<(), Error>::Err(e) && post.step
                                == CheckStep::Start,
                        }
                    }
            },
            CheckStep::Init => {
                &&& post.commander == pre.commander
                &&& post.round == pre.round
                &&& post.retv == pre.retv
                &&& exists|rs: Result<S, Error>|
                    #![auto]
                    {
                        &&& pre.port.finish_post(&post.port, &rs)
                        &&& match rs {
                            Ok(init) => {
                                &&& r is Ok
                                &&& pre.state.updated(&init, &post.state)
                                &&& post.step == CheckStep::Command
                            },
                            Err(e) => {
                                &&& r == Result::<(), Error>::Err(e)
                                &&& post.state == pre.state
                                &&& post.step == CheckStep::Init
                            },
                        }
                    }
            },
            CheckStep::Command => {
                &&& post.round == pre.round + 1
                &&& exists|rc: Result<C::Cmd, Error>|
                    #![auto]
                    {
                        &&& pre.commander.command_post(&post.commander, &pre.state, &rc)
                        &&& match rc {
                            Ok(cmd) => {
                                &&& cmd.execute_post(&pre.state, &post.state)
                                &&& post.retv == cmd.execute_ret(&pre.state)
                                &&& exists|rp: Result<(), Error>|
                                    #![auto]
                                    {
                                        &&& pre.port.send_post(&cmd, &post.port, &rp)
                                        &&& match rp {
                                            Ok(_) => r is Ok && post.step == CheckStep::CheckRetv,
                                            Err(e) => r == Result::<(), Error>::Err(e) && post.step
                                                == CheckStep::Command,
                                        }
                                    }
                            },
                            Err(e) => {
                                &&& r == Result::<(), Error>::Err(e)
                                &&& post.state == pre.state
                                &&& post.retv == pre.retv
                                &&& post.port == pre.port
                                &&& post.step == CheckStep::Command
                            },
                        }
                    }
            },
            CheckStep::CheckRetv => {
                &&& Self::unchanged_core(pre, post)
                &&& exists|mid: T, code: isize|
                    #![auto]
                    {
                        &&& pre.port.retv_post(&mid, code)
                        &&& if retv_level == CheckLevel::Strict && code != pre.retv {
                            &&& post.port == mid
                            &&& post.step == CheckStep::CheckRetv
                            &&& r == Result::<(), Error>::Err(Error::ReturnValueMismatch)
                        } else {
                            exists|rp: Result<(), Error>|
                                #![auto]
                                {
                                    &&& mid.start_post(&post.port, &rp)
                                    &&& match rp {
                                        Ok(_) => r is Ok && post.step == CheckStep::GetState,
                                        Err(e) => r == Result::<(), Error>::Err(e) && post.step
                                            == CheckStep::CheckRetv,
                                    }
                                }
                        }
                    }
            },
            CheckStep::GetState => {
                &&& Self::unchanged_core(pre, post)
                &&& exists|rb: Result<bool, Error>|
                    #![auto]
                    {
                        &&& pre.port.retrieve_post(&post.port, &rb)
                        &&& match rb {
                            Ok(finished) => {
                                &&& r is Ok
                                &&& post.step == (if finished {
                                    if pre.round != 0 {
                                        CheckStep::CheckState
                                    } else {
                                        CheckStep::Init
                                    }
                                } else {
                                    CheckStep::GetState
                                })
                            },
                            Err(e) => {
                                &&& r == Result::<(), Error>::Err(e)
                                &&& post.step == CheckStep::GetState
                            },
                        }
                    }
            },
            CheckStep::CheckState => {
                &&& Self::unchanged_core(pre, post)
                &&& exists|rs: Result<S, Error>|
                    #![auto]
                    {
                        &&& pre.port.finish_post(&post.port, &rs)
                        &&& match rs {
                            Ok(test_state) => {
                                if state_level == CheckLevel::Strict && !test_state.matches_spec(
                                    &pre.state,
                                ) {
                                    &&& r == Result::<(), Error>::Err(Error::StateMismatch)
                                    &&& post.step == CheckStep::CheckState
                                } else {
                                    &&& r is Ok
                                    &&& post.step == CheckStep::Command
                                }
                            },
                            Err(e) => {
                                &&& r == Result::<(), Error>::Err(e)
                                &&& post.step == CheckStep::CheckState
                            },
                        }
                    }
            },
        }
    }

    /// Construct a checker over a commander, a port, a printer, and a
    /// placeholder baseline state; the first retrieved snapshot overwrites
    /// the baseline.
    pub fn new(commander: C, port: T, printer: P, state: S) -> (r: Self)
        ensures
            r.commander == commander,
            r.port == port,
            r.state == state,
            r.round == 0,
            r.step == CheckStep::Start,
            r.retv == 0,
    {
        Checker { commander, port, printer, state, round: 0, step: CheckStep::Start, retv: 0 }
    }

    /// Drive one transition of the checking state machine.
    ///
    /// The caller controls pacing: each call performs the work of the
    /// current step and moves to the next one.  A `Relaxed` mismatch is
    /// printed and the session continues; a `Strict` mismatch aborts with
    /// the matching error, and transport failures propagate as they are.
    pub fn step(&mut self, retv_level: CheckLevel, state_level: CheckLevel) -> (r: Result<
        (),
        Error,
    >)
        requires
            old(self).step == CheckStep::Command ==> old(self).round < usize::MAX,
        ensures
            Self::step_post(*old(self), *final(self), retv_level, state_level, r),
    {
        match self.step {
            CheckStep::Start => {
                match self.port.start_state_retrieval() {
                    Ok(_) => {},
                    Err(e) => {
                        return Err(e);
                    },
                }
                self.step = CheckStep::GetState;
            },
            CheckStep::Init => {
                let init_state = match self.port.finish_state_retrieval() {
                    Ok(s) => s,
                    Err(e) => {
                        return Err(e);
                    },
                };
                self.state.update(&init_state);
                self.printer.print("[ Initial State ]");
                let line = debug_line("", &self.state);
                self.printer.print(line.as_str());
                self.step = CheckStep::Command;
            },
            CheckStep::Command => {
                let ghost pre = *old(self);
                self.round = self.round + 1;
                let banner = round_line(self.round);
                self.printer.print(banner.as_str());
                let res = self.commander.command(&self.state);
                let ghost gres = res;
                let command = match res {
                    Ok(c) => c,
                    Err(e) => {
                        return Err(e);
                    },
                };
                let line = debug_line("Command: ", &command);
                self.printer.print(line.as_str());
                let code = command.execute(&mut self.state);
                self.retv = code;
                let sent = self.port.send_command(&command);
                let ghost gsent = sent;
                match sent {
                    Ok(_) => {},
                    Err(e) => {
                        return Err(e);
                    },
                }
                self.step = CheckStep::CheckRetv;
                proof {
                    assert(pre.commander.command_post(&self.commander, &pre.state, &gres));
                    assert(gres matches Ok(cmd) ==> pre.port.send_post(&cmd, &self.port, &gsent));
                }
            },
            CheckStep::CheckRetv => {
                let test_retv = self.port.receive_retv();
                let line = retv_line(self.retv, test_retv);
                self.printer.print(line.as_str());
                if retv_level != CheckLevel::NoCheck && test_retv != self.retv {
                    self.printer.print("\x1b[1;31mReturn value mismatch\x1b[0m");
                    if retv_level == CheckLevel::Strict {
                        return Err(Error::ReturnValueMismatch);
                    }
                }
                match self.port.start_state_retrieval() {
                    Ok(_) => {},
                    Err(e) => {
                        return Err(e);
                    },
                }
                self.step = CheckStep::GetState;
            },
            CheckStep::GetState => {
                let finished = match self.port.retrieve_state_data() {
                    Ok(b) => b,
                    Err(e) => {
                        return Err(e);
                    },
                };
                self.step = if finished {
                    if self.round != 0 {
                        CheckStep::CheckState
                    } else {
                        CheckStep::Init
                    }
                } else {
                    CheckStep::GetState
                };
            },
            CheckStep::CheckState => {
                let test_state = match self.port.finish_state_retrieval() {
                    Ok(s) => s,
                    Err(e) => {
                        return Err(e);
                    },
                };
                if state_level != CheckLevel::NoCheck && !test_state.matches(&self.state) {
                    self.printer.print("\x1b[1;31mState mismatch\x1b[0m");
                    self.printer.print("Expected:");
                    let expected = debug_line("", &self.state);
                    self.printer.print(expected.as_str());
                    self.printer.print("Got:");
                    let got = debug_line("", &test_state);
                    self.printer.print(got.as_str());
                    if state_level == CheckLevel::Strict {
                        return Err(Error::StateMismatch);
                    }
                }
                self.step = CheckStep::Command;
            },
        }
        Ok(())
    }

    /// Get a reference to the model state.
    pub fn state(&self) -> (r: &S)
        ensures
            *r == self.state,
    {
        &self.state
    }
}

/// Multi-exchange pacing: against a mock target whose running snapshot still
/// needs `pending_chunks` exchanges, a step taken in `GetState` succeeds,
/// stays in `GetState` as long as exchanges remain, and leaves it exactly
/// when the retrieval reports finished -- towards `Init` for the first
/// snapshot of a session, towards `CheckState` for every later one.
pub proof fn lemma_get_state_pacing<C, P, S>(
    pre: Checker<C, MockTestPort<S>, P, S>,
    post: Checker<C, MockTestPort<S>, P, S>,
    retv_level: CheckLevel,
    state_level: CheckLevel,
    r: Result<(), Error>,
) where C: Commander<S>, P: Printer, S: AbstractState + core::fmt::Debug
    requires
        Checker::step_post(pre, post, retv_level, state_level, r),
        pre.step == CheckStep::GetState,
    ensures
        r is Ok,
        pre.port.pending_chunks > 0 ==> post.step == CheckStep::GetState
            && post.port.pending_chunks == pre.port.pending_chunks - 1,
        pre.port.pending_chunks == 0 && pre.round != 0 ==> post.step == CheckStep::CheckState,
        pre.port.pending_chunks == 0 && pre.round == 0 ==> post.step == CheckStep::Init,
{
}

/// Strict result-code abort: when the mock target is primed to hand back a
/// code that differs from the model's, a step taken in `CheckRetv` under
/// Strict result-code severity returns `ReturnValueMismatch` and the machine
/// does not advance past the failed comparison.
pub proof fn lemma_strict_retv_abort<C, P, S>(
    pre: Checker<C, MockTestPort<S>, P, S>,
    post: Checker<C, MockTestPort<S>, P, S>,
    state_level: CheckLevel,
    r: Result<(), Error>,
) where C: Commander<S>, P: Printer, S: AbstractState + core::fmt::Debug
    requires
        Checker::step_post(pre, post, CheckLevel::Strict, state_level, r),
        pre.step == CheckStep::CheckRetv,
        pre.port.forced_retv matches Some(code) && code != pre.retv,
    ensures
        r == Result::<(), Error>::Err(Error::ReturnValueMismatch),
        post.step == CheckStep::CheckRetv,
{
}

} // verus!
