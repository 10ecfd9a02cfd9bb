//! The runner driven against the loopback test port.

use km_checker::runner::Runner;
use km_checker::state::{IdentList, Ignored};
use km_checker::task::{EasyControlInfo, EasyState, FakeTestPort, RoundIn, Stdout};
use km_checker::CheckLevel;

#[test]
fn test_runner() {
    let state0 = EasyState {
        tasks: IdentList(vec![0]),
        control: Ignored(EasyControlInfo { next_task: 1 }),
    };
    let state1 = EasyState {
        tasks: IdentList(vec![100]),
        control: Ignored(EasyControlInfo { next_task: 101 }),
    };
    let mut runner = Runner::new(RoundIn(0), Stdout, FakeTestPort(state1), state0);
    for _ in 0..1000 {
        println!("=====================================");
        runner
            .step(CheckLevel::Strict, CheckLevel::Strict)
            .expect("Runner Exited");
    }
}
