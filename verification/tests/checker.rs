//! The checker state machine driven against the loopback mock port.

use km_checker::state::{IdentList, Ignored};
use km_checker::task::{
    EasyControlInfo, EasyState, Exit, Sched, ScriptCommander, Spawn, TaskCommand,
};
use km_checker::{CheckLevel, CheckStep, Checker, Error, MockTestPort, StdoutPrinter};

fn empty_state(next_task: usize) -> EasyState {
    EasyState {
        tasks: IdentList(vec![]),
        control: Ignored(EasyControlInfo { next_task }),
    }
}

#[test]
fn checker_full_session_with_offset_identifiers() {
    // The model starts counting task ids at 0, the mock target at 100:
    // relabeling makes the literal id values irrelevant, so every state
    // check under Strict severity passes and the session ends only by
    // script exhaustion.
    let script = vec![
        TaskCommand::Spawn(Spawn),
        TaskCommand::Sched(Sched),
        TaskCommand::Sched(Sched),
        TaskCommand::Spawn(Spawn),
        TaskCommand::Sched(Sched),
        TaskCommand::Exit(Exit),
    ];
    let commander = ScriptCommander::new(script);
    let port = MockTestPort::new(empty_state(100));
    let mut checker = Checker::new(commander, port, StdoutPrinter, empty_state(0));
    let mut ok_steps = 0;
    loop {
        match checker.step(CheckLevel::Strict, CheckLevel::Strict) {
            Ok(()) => {
                ok_steps += 1;
            }
            Err(e) => {
                assert_eq!(e, Error::Exhausted);
                break;
            }
        }
        assert!(ok_steps < 100, "session did not terminate");
    }
    // Start + retrieval + init, then four transitions per command round.
    assert_eq!(ok_steps, 3 + 4 * 6);
    assert_eq!(checker.round, 7);
    assert_eq!(checker.step, CheckStep::Command);
}

#[test]
fn checker_strict_abort_on_wrong_result_code() {
    let script = vec![TaskCommand::Spawn(Spawn)];
    let commander = ScriptCommander::new(script);
    let port = MockTestPort::new(empty_state(100));
    let mut checker = Checker::new(commander, port, StdoutPrinter, empty_state(0));
    // Start, retrieval, init, command dispatch.
    for _ in 0..4 {
        checker.step(CheckLevel::Strict, CheckLevel::Strict).unwrap();
    }
    assert_eq!(checker.step, CheckStep::CheckRetv);
    // The port hands back a deliberately wrong code for this round.
    checker.port.inject_retv(42);
    let r = checker.step(CheckLevel::Strict, CheckLevel::Strict);
    assert_eq!(r, Err(Error::ReturnValueMismatch));
    // The machine has not advanced past the failed comparison.
    assert_eq!(checker.step, CheckStep::CheckRetv);
}

#[test]
fn checker_relaxed_continues_on_wrong_result_code() {
    let script = vec![TaskCommand::Spawn(Spawn)];
    let commander = ScriptCommander::new(script);
    let port = MockTestPort::new(empty_state(100));
    let mut checker = Checker::new(commander, port, StdoutPrinter, empty_state(0));
    for _ in 0..4 {
        checker.step(CheckLevel::Relaxed, CheckLevel::Relaxed).unwrap();
    }
    checker.port.inject_retv(42);
    let r = checker.step(CheckLevel::Relaxed, CheckLevel::Relaxed);
    assert_eq!(r, Ok(()));
    assert_eq!(checker.step, CheckStep::GetState);
}

#[test]
fn checker_no_check_skips_comparison() {
    let script = vec![TaskCommand::Spawn(Spawn)];
    let commander = ScriptCommander::new(script);
    let port = MockTestPort::new(empty_state(100));
    let mut checker = Checker::new(commander, port, StdoutPrinter, empty_state(0));
    for _ in 0..4 {
        checker.step(CheckLevel::NoCheck, CheckLevel::NoCheck).unwrap();
    }
    checker.port.inject_retv(42);
    let r = checker.step(CheckLevel::NoCheck, CheckLevel::NoCheck);
    assert_eq!(r, Ok(()));
}

#[test]
fn checker_strict_abort_on_state_mismatch() {
    let script = vec![TaskCommand::Spawn(Spawn)];
    let commander = ScriptCommander::new(script);
    let port = MockTestPort::new(empty_state(100));
    let mut checker = Checker::new(commander, port, StdoutPrinter, empty_state(0));
    // Start, retrieval, init, command, result check, retrieval.
    for _ in 0..6 {
        checker.step(CheckLevel::Strict, CheckLevel::Strict).unwrap();
    }
    assert_eq!(checker.step, CheckStep::CheckState);
    // Tamper with the target mirror so the snapshot diverges.
    checker.port.state.tasks.0.push(999);
    let r = checker.step(CheckLevel::Strict, CheckLevel::Strict);
    assert_eq!(r, Err(Error::StateMismatch));
    assert_eq!(checker.step, CheckStep::CheckState);
}

#[test]
fn checker_multi_exchange_retrieval_stays_in_get_state() {
    // A state channel that reports "not finished" for three exchanges keeps
    // the checker in GetState for exactly four calls before moving on.
    let script = vec![TaskCommand::Spawn(Spawn)];
    let commander = ScriptCommander::new(script);
    let mut port = MockTestPort::new(empty_state(100));
    port.set_chunks(3);
    let mut checker = Checker::new(commander, port, StdoutPrinter, empty_state(0));
    checker.step(CheckLevel::Strict, CheckLevel::Strict).unwrap();
    assert_eq!(checker.step, CheckStep::GetState);
    for _ in 0..3 {
        checker.step(CheckLevel::Strict, CheckLevel::Strict).unwrap();
        assert_eq!(checker.step, CheckStep::GetState);
    }
    checker.step(CheckLevel::Strict, CheckLevel::Strict).unwrap();
    assert_eq!(checker.step, CheckStep::Init);
}

#[test]
fn checker_state_getter_returns_model() {
    let script: Vec<TaskCommand> = vec![];
    let commander = ScriptCommander::new(script);
    let port = MockTestPort::new(empty_state(100));
    let checker = Checker::new(commander, port, StdoutPrinter, empty_state(0));
    assert_eq!(checker.state().control.0.next_task, 0);
    assert_eq!(checker.state().tasks.0.len(), 0);
}
