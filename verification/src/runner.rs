//! The session runner: an earlier, three-phase driver over a one-shot state
//! port.  Where the checker runs the multi-exchange snapshot protocol, the
//! runner reads the whole target state in a single call per check.

use crate::checker::CheckLevel;
use crate::command::Command;
use crate::error::Error;
use crate::state::AbstractState;
use vstd::prelude::*;

verus! {

/// Generate commands for both the abstract model and the target kernel,
/// without consulting the model state.
pub trait Commander<S: AbstractState> {
    /// The type of command this commander produces.
    type Cmd: Command<S>;

    /// What a completed request for the next command guarantees.
    spec fn command_post(&self, next: &Self, r: &Result<Self::Cmd, Error>) -> bool;

    /// Get the next command to execute.
    fn command(&mut self) -> (r: Result<Self::Cmd, Error>)
        ensures
            old(self).command_post(final(self), &r),
    ;
}

/// Print test info to the output.
pub trait Printer<S: AbstractState> {
    /// Print an info string to the output.
    fn print_str(&mut self, s: &str);

    /// Print the current state.
    fn print_state(&mut self, s: &S);
}

/// Communicate with the target kernel through single-exchange calls.
pub trait TestPort<S: AbstractState, C: Command<S>> {
    /// What a completed `send_command` guarantees.
    spec fn send_post(&self, cmd: &C, next: &Self, r: &Result<(), Error>) -> bool;

    /// What a completed `get_retv` guarantees.
    spec fn retv_post(&self, next: &Self, r: isize) -> bool;

    /// What a completed `get_state` guarantees.
    spec fn state_post(&self, next: &Self, r: &Result<S, Error>) -> bool;

    /// Send a command to the test target.
    fn send_command(&mut self, command: &C) -> (r: Result<(), Error>)
        ensures
            old(self).send_post(command, final(self), &r),
    ;

    /// Receive the return value from the test target.
    fn get_retv(&mut self) -> (r: isize)
        ensures
            old(self).retv_post(final(self), r),
    ;

    /// Receive the current state from the test target.
    fn get_state(&mut self) -> (r: Result<S, Error>)
        ensures
            old(self).state_post(final(self), &r),
    ;
}

/// Runner execution steps: `Init -> Command -> Check -> Command -> ...`.
#[derive(Debug, Clone, Copy, PartialEq, Eq, Structural)]
pub enum ExecutionStep {
    /// Read the initial state from the target.
    Init,
    /// Dispatch the next command to model and target.
    Command,
    /// Compare result code and state.
    Check,
}

/// The model-checking runner.
pub struct Runner<C, P, T, S> where
    C: Commander<S>,
    P: Printer<S>,
    T: TestPort<S, C::Cmd>,
    S: AbstractState,
 {
    /// Generator of commands.
    pub commander: C,
    /// Info printer.
    pub printer: P,
    /// Port to communicate with the target.
    pub test_port: T,
    /// Abstract state of the model.
    pub state: S,
    /// Current execution step.
    pub step: ExecutionStep,
    /// Return value of the last command on the model.
    pub retv: isize,
}

/// Relies on std's formatter: renders both result codes in decimal.
#[verifier::external_body]
fn retv_line_dec(expected: isize, got: isize) -> String {
    format!("expected: {}, got: {}", expected, got)
}

impl<C, P, T, S> Runner<C, P, T, S> where
    C: Commander<S>,
    P: Printer<S>,
    T: TestPort<S, C::Cmd>,
    S: AbstractState,
 {
    /// What a completed `Init` action guarantees: the model is overwritten
    /// by whatever snapshot the port produced; on failure nothing changes.
    pub open spec fn init_post(pre: Self, post: Self, r: Result<(), Error>) -> bool {
        &&& post.commander == pre.commander
        &&& post.retv == pre.retv
        &&& exists|rs: Result<S, Error>|
            #![auto]
            {
                &&& pre.test_port.state_post(&post.test_port, &rs)
                &&& match rs {
                    Ok(s) => r is Ok && post.state == s,
                    Err(e) => r == Result::<(), Error>::Err(e) && post.state == pre.state,
                }
            }
    }

    /// What a completed `Command` action guarantees: the next scripted
    /// command ran on the model, its code was recorded, and the same command
    /// went out through the port.
    pub open spec fn dispatch_post(pre: Self, post: Self, r: Result<(), Error>) -> bool {
        exists|rc: Result<C::Cmd, Error>|
            #![auto]
            {
                &&& pre.commander.command_post(&post.commander, &rc)
                &&& match rc {
                    Ok(cmd) => {
                        &&& cmd.execute_post(&pre.state, &post.state)
                        &&& post.retv == cmd.execute_ret(&pre.state)
                        &&& exists|rp: Result<(), Error>|
                            #![auto]
                            {
                                &&& pre.test_port.send_post(&cmd, &post.test_port, &rp)
                                &&& match rp {
                                    Ok(_) => r is Ok,
                                    Err(e) => r == Result::<(), Error>::Err(e),
                                }
                            }
                    },
                    Err(e) => {
                        &&& r == Result::<(), Error>::Err(e)
                        &&& post.state == pre.state
                        &&& post.retv == pre.retv
                        &&& post.test_port == pre.test_port
                    },
                }
            }
    }

    /// The state-comparison half of a `Check` action, from the port state
    /// `mid` reached after the result-code read.
    pub open spec fn state_check_post(
        pre: Self,
        mid: T,
        post: Self,
        state_level: CheckLevel,
        r: Result<(), Error>,
    ) -> bool {
        exists|rs: Result<S, Error>|
            #![auto]
            {
                &&& mid.state_post(&post.test_port, &rs)
                &&& match rs {
                    Ok(test_state) => {
                        if state_level == CheckLevel::Strict && !test_state.matches_spec(
                            &pre.state,
                        ) {
                            r == Result::<(), Error>::Err(Error::StateMismatch)
                        } else {
                            r is Ok
                        }
                    },
                    Err(e) => r == Result::<(), Error>::Err(e),
                }
            }
    }

    /// What a completed `Check` action guarantees: a `Strict` result-code or
    /// state mismatch aborts with the matching error, everything else lets
    /// the session continue.
    pub open spec fn check_post(
        pre: Self,
        post: Self,
        retv_level: CheckLevel,
        state_level: CheckLevel,
        r: Result<(), Error>,
    ) -> bool {
        &&& post.commander == pre.commander
        &&& post.state == pre.state
        &&& post.retv == pre.retv
        &&& exists|mid: T, code: isize|
            #![auto]
            {
                &&& pre.test_port.retv_post(&mid, code)
                &&& if retv_level == CheckLevel::Strict && code != pre.retv {
                    &&& post.test_port == mid
                    &&& r == Result::<(), Error>::Err(Error::ReturnValueMismatch)
                } else {
                    Self::state_check_post(pre, mid, post, state_level, r)
                }
            }
    }

    /// What one driven step guarantees, by the step it started from: the
    /// action of the current step, and the step advance exactly on success.
    pub open spec fn step_post(
        pre: Self,
        post: Self,
        retv_level: CheckLevel,
        state_level: CheckLevel,
        r: Result<(), Error>,
    ) -> bool {
        match pre.step {
            ExecutionStep::Init => exists|mid: Self|
                #![auto]
                {
                    &&& Self::init_post(pre, mid, r)
                    &&& r is Ok ==> post == (Runner { step: ExecutionStep::Command, ..mid })
                    &&& !(r is Ok) ==> post == mid && post.step == pre.step
                },
            ExecutionStep::Command => exists|mid: Self|
                #![auto]
                {
                    &&& Self::dispatch_post(pre, mid, r)
                    &&& r is Ok ==> post == (Runner { step: ExecutionStep::Check, ..mid })
                    &&& !(r is Ok) ==> post == mid && post.step == pre.step
                },
            ExecutionStep::Check => exists|mid: Self|
                #![auto]
                {
                    &&& Self::check_post(pre, mid, retv_level, state_level, r)
                    &&& r is Ok ==> post == (Runner { step: ExecutionStep::Command, ..mid })
                    &&& !(r is Ok) ==> post == mid && post.step == pre.step
                },
        }
    }

    /// Construct a test runner.
    pub fn new(commander: C, printer: P, test_port: T, state: S) -> (r: Self)
        ensures
            r.commander == commander,
            r.test_port == test_port,
            r.state == state,
            r.step == ExecutionStep::Init,
            r.retv == 0,
    {
        Runner { commander, printer, test_port, state, step: ExecutionStep::Init, retv: 0 }
    }

    /// Action on the `Init` step: read the target's state and take it as the
    /// model baseline.
    fn init(&mut self) -> (r: Result<(), Error>)
        ensures
            Self::init_post(*old(self), *final(self), r),
            final(self).step == old(self).step,
    {
        let ghost pre = *old(self);
        let res = self.test_port.get_state();
        let ghost gres = res;
        proof {
            assert(pre.test_port.state_post(&self.test_port, &gres));
        }
        let snapshot = match res {
            Ok(s) => s,
            Err(e) => {
                return Err(e);
            },
        };
        self.state = snapshot;
        self.printer.print_state(&self.state);
        proof {
            assert(pre.test_port.state_post(&self.test_port, &gres));
            assert(Self::init_post(pre, *self, Ok(())));
        }
        Ok(())
    }

    /// Action on the `Command` step: get a command from the commander, run
    /// it on the model, record the code, and send it to the target.
    fn command(&mut self) -> (r: Result<(), Error>)
        ensures
            Self::dispatch_post(*old(self), *final(self), r),
            final(self).step == old(self).step,
    {
        let ghost pre = *old(self);
        let res = self.commander.command();
        let ghost gres = res;
        let command = match res {
            Ok(c) => c,
            Err(e) => {
                return Err(e);
            },
        };
        let code = command.execute(&mut self.state);
        self.retv = code;
        let sent = self.test_port.send_command(&command);
        let ghost gsent = sent;
        let r = match sent {
            Ok(_) => Ok(()),
            Err(e) => Err(e),
        };
        proof {
            assert(pre.commander.command_post(&self.commander, &gres));
            assert(gres matches Ok(cmd) ==> pre.test_port.send_post(&cmd, &self.test_port, &gsent));
        }
        r
    }

    /// Action on the `Check` step: compare the target's result code and
    /// state with the model's under the configured severities.
    #[verifier::rlimit(50)]
    fn check(&mut self, retv_level: CheckLevel, state_level: CheckLevel) -> (r: Result<(), Error>)
        ensures
            Self::check_post(*old(self), *final(self), retv_level, state_level, r),
            final(self).step == old(self).step,
    {
        let ghost pre = *old(self);
        let test_retv = self.test_port.get_retv();
        proof {
            assert(pre.test_port.retv_post(&self.test_port, test_retv));
        }
        let ghost mid_port = self.test_port;
        if retv_level != CheckLevel::NoCheck && test_retv != self.retv {
            self.printer.print_str("Return value mismatch");
            let line = retv_line_dec(self.retv, test_retv);
            self.printer.print_str(line.as_str());
            if retv_level == CheckLevel::Strict {
                proof {
                    assert(Self::check_post(
                        pre,
                        *self,
                        retv_level,
                        state_level,
                        Err(Error::ReturnValueMismatch),
                    ));
                }
                return Err(Error::ReturnValueMismatch);
            }
        }
        let res = self.test_port.get_state();
        let ghost grs = res;
        proof {
            assert(mid_port.state_post(&self.test_port, &grs));
        }
        let test_state = match res {
            Ok(s) => s,
            Err(e) => {
                proof {
                    assert(Self::state_check_post(pre, mid_port, *self, state_level, Err(e)));
                    assert(Self::check_post(pre, *self, retv_level, state_level, Err(e)));
                }
                return Err(e);
            },
        };
        if state_level != CheckLevel::NoCheck && !test_state.matches(&self.state) {
            self.printer.print_str("State mismatch");
            self.printer.print_str("expected:");
            self.printer.print_state(&test_state);
            self.printer.print_str("got:");
            self.printer.print_state(&self.state);
            if state_level == CheckLevel::Strict {
                proof {
                    assert(self.state == pre.state);
                    assert(mid_port.state_post(&self.test_port, &grs));
                    assert(grs matches Ok(ts) ==> ts == test_state);
                    assert(!test_state.matches_spec(&pre.state));
                    assert(Self::state_check_post(
                        pre,
                        mid_port,
                        *self,
                        state_level,
                        Err(Error::StateMismatch),
                    ));
                    assert(Self::check_post(
                        pre,
                        *self,
                        retv_level,
                        state_level,
                        Err(Error::StateMismatch),
                    ));
                }
                return Err(Error::StateMismatch);
            }
        }
        proof {
            assert(self.state == pre.state);
            assert(mid_port.state_post(&self.test_port, &grs));
            assert(grs matches Ok(ts) ==> ts == test_state);
            assert(Self::state_check_post(pre, mid_port, *self, state_level, Ok(())));
            assert(Self::check_post(pre, *self, retv_level, state_level, Ok(())));
        }
        Ok(())
    }

    /// Drive one step of the session:
    /// `Init -> Command -> Check -> Command -> Check -> ...`, advancing only
    /// when the step's action succeeded.
    #[verifier::rlimit(50)]
    pub fn step(&mut self, retv_level: CheckLevel, state_level: CheckLevel) -> (r: Result<
        (),
        Error,
    >)
        ensures
            Self::step_post(*old(self), *final(self), retv_level, state_level, r),
    {
        let ghost pre = *old(self);
        match self.step {
            ExecutionStep::Init => {
                let hres = self.init();
                let ghost mid = *self;
                if hres.is_err() {
                    return hres;
                }
                self.step = ExecutionStep::Command;
                proof {
                    assert(Self::init_post(pre, mid, hres));
                    assert(*self == (Runner { step: ExecutionStep::Command, ..mid }));
                }
                hres
            },
            ExecutionStep::Command => {
                let hres = self.command();
                let ghost mid = *self;
                if hres.is_err() {
                    return hres;
                }
                self.step = ExecutionStep::Check;
                proof {
                    assert(Self::dispatch_post(pre, mid, hres));
                    assert(*self == (Runner { step: ExecutionStep::Check, ..mid }));
                }
                hres
            },
            ExecutionStep::Check => {
                let hres = self.check(retv_level, state_level);
                let ghost mid = *self;
                if hres.is_err() {
                    return hres;
                }
                self.step = ExecutionStep::Command;
                proof {
                    assert(Self::check_post(pre, mid, retv_level, state_level, hres));
                    assert(*self == (Runner { step: ExecutionStep::Command, ..mid }));
                }
                hres
            },
        }
    }
}

} // verus!
