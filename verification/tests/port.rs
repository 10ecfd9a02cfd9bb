//! Ports, channels, events and fetchers against concrete fakes.

use km_checker::state::{FakeStateFetcher, IdentList, Ignored, StateFetcher};
use km_checker::task::{
    EasyControlInfo, EasyState, Exit, Sched, Spawn, TaskCommand, EXIT_TAG, SCHED_TAG, SPAWN_TAG,
};
use km_checker::{
    AbstractState, Command, CommandChannel, Error, Event, Kernel, MemCommandChannel, MockTestPort,
    ReadTargetMem, StateChannel, WriteTargetMem,
};

fn state_with(tasks: Vec<usize>, next_task: usize) -> EasyState {
    EasyState {
        tasks: IdentList(tasks),
        control: Ignored(EasyControlInfo { next_task }),
    }
}

#[test]
fn commands_execute_on_the_model() {
    let mut s = state_with(vec![], 0);
    assert_eq!(Spawn.execute(&mut s), 0);
    assert_eq!(s.tasks.0, vec![0]);
    assert_eq!(s.control.0.next_task, 1);
    assert_eq!(Spawn.execute(&mut s), 0);
    assert_eq!(s.tasks.0, vec![0, 1]);
    assert_eq!(Sched.execute(&mut s), 0);
    assert_eq!(s.tasks.0, vec![1, 0]);
    assert_eq!(Exit.execute(&mut s), 0);
    assert_eq!(s.tasks.0, vec![1]);
}

#[test]
fn sched_reports_designated_failure_on_empty_list() {
    let mut s = state_with(vec![], 0);
    assert_eq!(Sched.execute(&mut s), -1);
    assert_eq!(s.tasks.0.len(), 0);
    assert_eq!(Exit.execute(&mut s), 0);
}

#[test]
fn commands_serialize_to_their_tags() {
    assert_eq!(Spawn.to_bytes(), vec![SPAWN_TAG]);
    assert_eq!(Sched.to_bytes(), vec![SCHED_TAG]);
    assert_eq!(Exit.to_bytes(), vec![EXIT_TAG]);
    assert_eq!(TaskCommand::Spawn(Spawn).to_bytes(), vec![SPAWN_TAG]);
}

#[test]
fn commands_stringify_to_their_names() {
    assert_eq!(Spawn.stringify(), "spawn");
    assert_eq!(Sched.stringify(), "sched");
    assert_eq!(TaskCommand::Exit(Exit).stringify(), "exit");
}

#[test]
fn mock_port_mirrors_commands() {
    let mut port = MockTestPort::new(state_with(vec![], 100));
    let cmd = TaskCommand::Spawn(Spawn);
    <MockTestPort<EasyState> as CommandChannel<EasyState, TaskCommand>>::send_command(
        &mut port, &cmd,
    )
    .unwrap();
    assert_eq!(port.state.tasks.0, vec![100]);
    let code =
        <MockTestPort<EasyState> as CommandChannel<EasyState, TaskCommand>>::receive_retv(
            &mut port,
        );
    assert_eq!(code, 0);
    let snapshot = port.finish_state_retrieval().unwrap();
    assert!(snapshot.matches(&port.state));
}

#[test]
fn mock_port_extra_data_is_zeroed() {
    let mut port = MockTestPort::new(state_with(vec![], 0));
    let data = <MockTestPort<EasyState> as CommandChannel<EasyState, TaskCommand>>::
        receive_extra_data(&mut port, 5)
    .unwrap();
    assert_eq!(data, vec![0u8; 5]);
}

#[test]
fn mock_port_chunked_retrieval_protocol() {
    let mut port: MockTestPort<EasyState> = MockTestPort::new(state_with(vec![], 0));
    port.set_chunks(2);
    port.start_state_retrieval().unwrap();
    assert_eq!(port.retrieve_state_data(), Ok(false));
    assert_eq!(port.retrieve_state_data(), Ok(false));
    assert_eq!(port.retrieve_state_data(), Ok(true));
    assert_eq!(port.retrieve_state_data(), Ok(true));
}

struct ScriptedMem {
    data: Vec<u8>,
}

impl ReadTargetMem for ScriptedMem {
    fn read_phys(&mut self, _paddr: usize, len: usize) -> Vec<u8> {
        let mut out = self.data.clone();
        out.truncate(len);
        out
    }
    fn read_virt(&mut self, _vaddr: usize, len: usize) -> Vec<u8> {
        let mut out = self.data.clone();
        out.truncate(len);
        out
    }
}

struct SinkMem;

impl WriteTargetMem for SinkMem {
    fn write_phys(&mut self, _paddr: usize, _buf: &[u8]) {}
    fn write_virt(&mut self, _vaddr: usize, _buf: &[u8]) {}
}

#[test]
fn mem_channel_decodes_little_endian_result() {
    let reader = ScriptedMem {
        data: vec![0x2A, 0x01, 0, 0, 0, 0, 0, 0],
    };
    let mut chan = MemCommandChannel::new(reader, SinkMem, 0x100, 0x200, 0x300);
    let code = <MemCommandChannel<ScriptedMem, SinkMem> as CommandChannel<
        EasyState,
        TaskCommand,
    >>::receive_retv(&mut chan);
    assert_eq!(code, 0x012A);
}

#[test]
fn mem_channel_short_read_pads_with_zero() {
    let reader = ScriptedMem { data: vec![0x07] };
    let mut chan = MemCommandChannel::new(reader, SinkMem, 0, 8, 16);
    let code = <MemCommandChannel<ScriptedMem, SinkMem> as CommandChannel<
        EasyState,
        TaskCommand,
    >>::receive_retv(&mut chan);
    assert_eq!(code, 7);
}

#[test]
fn mem_channel_sends_and_reads_extra_data() {
    let reader = ScriptedMem { data: vec![9, 9, 9] };
    let mut chan = MemCommandChannel::new(reader, SinkMem, 0, 8, 16);
    let cmd = TaskCommand::Sched(Sched);
    <MemCommandChannel<ScriptedMem, SinkMem> as CommandChannel<EasyState, TaskCommand>>::
        send_command(&mut chan, &cmd)
    .unwrap();
    let extra = <MemCommandChannel<ScriptedMem, SinkMem> as CommandChannel<
        EasyState,
        TaskCommand,
    >>::receive_extra_data(&mut chan, 2)
    .unwrap();
    assert_eq!(extra, vec![9, 9]);
}

struct PushTask(usize);

impl Event<EasyState> for PushTask {
    fn apply(&self, state: &mut EasyState) -> Result<(), Error> {
        state.tasks.0.push(self.0);
        Ok(())
    }
}

#[test]
fn kernel_applies_registered_events_by_name() {
    let mut kernel: Kernel<EasyState, PushTask> = Kernel::new(state_with(vec![], 0));
    assert_eq!(kernel.step("push"), Err(Error::EventNotFound));
    kernel.register("push", PushTask(7));
    assert_eq!(kernel.step("push"), Ok(()));
    assert_eq!(kernel.state.tasks.0, vec![7]);
    assert_eq!(kernel.step("pop"), Err(Error::EventNotFound));
}

#[test]
fn fake_fetcher_hands_out_copies() {
    let mut fetcher = FakeStateFetcher(state_with(vec![1, 2], 3));
    let snapshot = fetcher.get_state().unwrap();
    assert!(snapshot.matches(&fetcher.0));
    assert_eq!(snapshot.tasks.0, vec![1, 2]);
}
