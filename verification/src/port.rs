//! The boundary to the real target: channels for sending commands, reading
//! results, and running the multi-exchange state snapshot protocol.

use crate::command::Command;
use crate::error::Error;
use crate::mem::ReadTargetMem;
use crate::mem::WriteTargetMem;
use crate::state::AbstractState;
use vstd::prelude::*;

verus! {

use vstd::pervasive::cloned;

/// Send commands to the test target and read results back.
///
/// Each method carries a per-implementation relation saying what a completed
/// call guarantees; a transport-backed channel promises little, a loopback
/// mock pins every outcome down.
pub trait CommandChannel<S: AbstractState, C: Command<S>> {
    /// What a completed `send_command` guarantees.
    spec fn send_post(&self, cmd: &C, next: &Self, r: &Result<(), Error>) -> bool;

    /// What a completed `receive_retv` guarantees.
    spec fn retv_post(&self, next: &Self, r: isize) -> bool;

    /// What a completed `receive_extra_data` guarantees.
    spec fn extra_post(&self, len: usize, next: &Self, r: &Result<Vec<u8>, Error>) -> bool;

    /// Send a command to the test target.
    fn send_command(&mut self, command: &C) -> (r: Result<(), Error>)
        ensures
            old(self).send_post(command, final(self), &r),
    ;

    /// Receive the return value of the last command from the test target.
    fn receive_retv(&mut self) -> (r: isize)
        ensures
            old(self).retv_post(final(self), r),
    ;

    /// Receive extra out-of-band data from the test target, for commands
    /// whose effect includes a payload (directory entries, stat buffers).
    fn receive_extra_data(&mut self, len: usize) -> (r: Result<Vec<u8>, Error>)
        ensures
            old(self).extra_post(len, final(self), &r),
    ;
}

/// Retrieve the target's state through a tri-phase snapshot protocol, for
/// transports that move bounded data per exchange.
pub trait StateChannel<S: AbstractState> {
    /// What a completed `start_state_retrieval` guarantees.
    spec fn start_post(&self, next: &Self, r: &Result<(), Error>) -> bool;

    /// What a completed `retrieve_state_data` guarantees.
    spec fn retrieve_post(&self, next: &Self, r: &Result<bool, Error>) -> bool;

    /// What a completed `finish_state_retrieval` guarantees.
    spec fn finish_post(&self, next: &Self, r: &Result<S, Error>) -> bool;

    /// Begin a snapshot, possibly issuing a transport-level command.
    fn start_state_retrieval(&mut self) -> (r: Result<(), Error>)
        ensures
            old(self).start_post(final(self), &r),
    ;

    /// Pull one chunk of state data; `Ok(false)` when more remains,
    /// `Ok(true)` when all data has been fetched.  The caller must loop
    /// tightly without interleaving other commands.
    fn retrieve_state_data(&mut self) -> (r: Result<bool, Error>)
        ensures
            old(self).retrieve_post(final(self), &r),
    ;

    /// Complete the retrieval and return the accumulated snapshot.
    fn finish_state_retrieval(&mut self) -> (r: Result<S, Error>)
        ensures
            old(self).finish_post(final(self), &r),
    ;
}

/// A unified interface for interacting with a test target's state and
/// commands: a command channel and a state channel over one connection.
pub trait TestPort<S: AbstractState, C: Command<S>>: CommandChannel<S, C> + StateChannel<S> {

}

/// A mock test port that emulates a target by executing every command on an
/// internal mirror state.
///
/// The mirror makes the mock a faithful loopback: the checker's model and
/// the mock advance in lock-step.  Two knobs support protocol testing: the
/// number of exchanges a snapshot takes, and a result-code fault to inject.
pub struct MockTestPort<S> {
    /// The mirror state commands execute against.
    pub state: S,
    /// The result code of the last executed command.
    pub result: isize,
    /// Exchanges every snapshot reports as unfinished before completing.
    pub chunks_per_retrieval: usize,
    /// Exchanges still to report as unfinished in the running snapshot.
    pub pending_chunks: usize,
    /// A result code handed out in place of the genuine one, once.
    pub forced_retv: Option<isize>,
}

impl<S> MockTestPort<S> {
    /// Create a new mock test port with the given initial state.
    pub fn new(state: S) -> (r: Self)
        ensures
            r.state == state,
            r.result == 0,
            r.chunks_per_retrieval == 0,
            r.pending_chunks == 0,
            r.forced_retv is None,
    {
        MockTestPort {
            state,
            result: 0,
            chunks_per_retrieval: 0,
            pending_chunks: 0,
            forced_retv: None,
        }
    }

    /// Let every snapshot take `n` unfinished exchanges before it completes.
    pub fn set_chunks(&mut self, n: usize)
        ensures
            *final(self) == (MockTestPort { chunks_per_retrieval: n, ..*old(self) }),
    {
        self.chunks_per_retrieval = n;
    }

    /// Hand out `code` instead of the genuine result code, for one read.
    pub fn inject_retv(&mut self, code: isize)
        ensures
            *final(self) == (MockTestPort { forced_retv: Some(code), ..*old(self) }),
    {
        self.forced_retv = Some(code);
    }
}

impl<S: AbstractState, C: Command<S>> CommandChannel<S, C> for MockTestPort<S> {
    open spec fn send_post(&self, cmd: &C, next: &Self, r: &Result<(), Error>) -> bool {
        &&& cmd.execute_post(&self.state, &next.state)
        &&& next.result == cmd.execute_ret(&self.state)
        &&& next.chunks_per_retrieval == self.chunks_per_retrieval
        &&& next.pending_chunks == self.pending_chunks
        &&& next.forced_retv == self.forced_retv
        &&& *r is Ok
    }

    open spec fn retv_post(&self, next: &Self, r: isize) -> bool {
        match self.forced_retv {
            Some(code) => r == code && *next == (MockTestPort { forced_retv: None, ..*self }),
            None => r == self.result && *next == *self,
        }
    }

    open spec fn extra_post(&self, len: usize, next: &Self, r: &Result<Vec<u8>, Error>) -> bool {
        &&& *next == *self
        &&& *r matches Ok(data) && data@ == Seq::new(len as nat, |i: int| 0u8)
    }

    fn send_command(&mut self, command: &C) -> (r: Result<(), Error>) {
        let code = command.execute(&mut self.state);
        self.result = code;
        Ok(())
    }

    fn receive_retv(&mut self) -> (r: isize) {
        match self.forced_retv {
            Some(code) => {
                self.forced_retv = None;
                code
            },
            None => self.result,
        }
    }

    fn receive_extra_data(&mut self, len: usize) -> (r: Result<Vec<u8>, Error>) {
        let mut data: Vec<u8> = Vec::new();
        let mut i: usize = 0;
        while i < len
            invariant
                0 <= i <= len,
                data@ == Seq::new(i as nat, |k: int| 0u8),
            decreases len - i,
        {
            data.push(0);
            proof {
                assert(data@ =~= Seq::new((i + 1) as nat, |k: int| 0u8));
            }
            i += 1;
        }
        Ok(data)
    }
}

impl<S: AbstractState> StateChannel<S> for MockTestPort<S> {
    open spec fn start_post(&self, next: &Self, r: &Result<(), Error>) -> bool {
        &&& *next == (MockTestPort { pending_chunks: self.chunks_per_retrieval, ..*self })
        &&& *r is Ok
    }

    open spec fn retrieve_post(&self, next: &Self, r: &Result<bool, Error>) -> bool {
        if self.pending_chunks > 0 {
            &&& *next == (MockTestPort { pending_chunks: (self.pending_chunks - 1) as usize, ..*self })
            &&& *r == Result::<bool, Error>::Ok(false)
        } else {
            &&& *next == *self
            &&& *r == Result::<bool, Error>::Ok(true)
        }
    }

    open spec fn finish_post(&self, next: &Self, r: &Result<S, Error>) -> bool {
        &&& *next == *self
        &&& *r matches Ok(snapshot) && cloned::<S>(self.state, snapshot)
    }

    fn start_state_retrieval(&mut self) -> (r: Result<(), Error>) {
        self.pending_chunks = self.chunks_per_retrieval;
        Ok(())
    }

    fn retrieve_state_data(&mut self) -> (r: Result<bool, Error>) {
        if self.pending_chunks > 0 {
            self.pending_chunks = self.pending_chunks - 1;
            Ok(false)
        } else {
            Ok(true)
        }
    }

    fn finish_state_retrieval(&mut self) -> (r: Result<S, Error>) {
        Ok(self.state.clone())
    }
}

impl<S: AbstractState, C: Command<S>> TestPort<S, C> for MockTestPort<S> {

}

/// Interpret up to eight little-endian bytes, missing bytes reading as zero.
pub open spec fn le_u64_at(s: Seq<u8>, i: int) -> int
    decreases 8 - i,
{
    if i >= 8 {
        0
    } else {
        (if i < s.len() {
            s[i] as int
        } else {
            0
        }) + 256 * le_u64_at(s, i + 1)
    }
}

/// Decode a little-endian 64-bit value from the front of a byte vector,
/// missing bytes reading as zero.
fn le_bytes_to_u64(bytes: &Vec<u8>) -> (r: u64)
    ensures
        r as int == le_u64_at(bytes@, 0),
{
    let ghost s = bytes@;
    let mut acc: u64 = byte_at(bytes, 7) as u64;
    proof {
        assert(le_u64_at(s, 8) == 0);
        assert(le_u64_at(s, 7) == acc as int);
    }
    acc = acc * 256 + (byte_at(bytes, 6) as u64);
    proof {
        assert(le_u64_at(s, 6) == acc as int);
    }
    acc = acc * 256 + (byte_at(bytes, 5) as u64);
    proof {
        assert(le_u64_at(s, 5) == acc as int);
    }
    acc = acc * 256 + (byte_at(bytes, 4) as u64);
    proof {
        assert(le_u64_at(s, 4) == acc as int);
    }
    acc = acc * 256 + (byte_at(bytes, 3) as u64);
    proof {
        assert(le_u64_at(s, 3) == acc as int);
    }
    acc = acc * 256 + (byte_at(bytes, 2) as u64);
    proof {
        assert(le_u64_at(s, 2) == acc as int);
    }
    acc = acc * 256 + (byte_at(bytes, 1) as u64);
    proof {
        assert(le_u64_at(s, 1) == acc as int);
    }
    acc = acc * 256 + (byte_at(bytes, 0) as u64);
    proof {
        assert(le_u64_at(s, 0) == acc as int);
    }
    acc
}

/// The byte at `i`, reading zero past the end.
fn byte_at(bytes: &Vec<u8>, i: usize) -> (b: u8)
    ensures
        b as int == (if i < bytes@.len() {
            bytes@[i as int] as int
        } else {
            0
        }),
{
    if i < bytes.len() {
        bytes[i]
    } else {
        0
    }
}

/// A command channel over the target's memory: commands are written to and
/// results read from fixed addresses through caller-provided capabilities.
///
/// The transport decides what reads return, so only structural outcomes are
/// promised.
pub struct MemCommandChannel<R, W> {
    /// Capability to read target memory.
    pub reader: R,
    /// Capability to write target memory.
    pub writer: W,
    /// Address commands are written to.
    pub cmd_addr: usize,
    /// Address the result code is read from.
    pub retv_addr: usize,
    /// Address extra out-of-band data is read from.
    pub data_addr: usize,
}

impl<R: ReadTargetMem, W: WriteTargetMem> MemCommandChannel<R, W> {
    /// Build a channel from its capabilities and the three exchange
    /// addresses.
    pub fn new(reader: R, writer: W, cmd_addr: usize, retv_addr: usize, data_addr: usize) -> (r:
        Self)
        ensures
            r.cmd_addr == cmd_addr,
            r.retv_addr == retv_addr,
            r.data_addr == data_addr,
    {
        MemCommandChannel { reader, writer, cmd_addr, retv_addr, data_addr }
    }
}

impl<
    S: AbstractState,
    C: Command<S>,
    R: ReadTargetMem,
    W: WriteTargetMem,
> CommandChannel<S, C> for MemCommandChannel<R, W> {
    open spec fn send_post(&self, cmd: &C, next: &Self, r: &Result<(), Error>) -> bool {
        &&& next.cmd_addr == self.cmd_addr
        &&& next.retv_addr == self.retv_addr
        &&& next.data_addr == self.data_addr
        &&& *r is Ok
    }

    open spec fn retv_post(&self, next: &Self, r: isize) -> bool {
        &&& next.cmd_addr == self.cmd_addr
        &&& next.retv_addr == self.retv_addr
        &&& next.data_addr == self.data_addr
    }

    open spec fn extra_post(&self, len: usize, next: &Self, r: &Result<Vec<u8>, Error>) -> bool {
        &&& next.cmd_addr == self.cmd_addr
        &&& next.retv_addr == self.retv_addr
        &&& next.data_addr == self.data_addr
        &&& *r is Ok
    }

    fn send_command(&mut self, command: &C) -> (r: Result<(), Error>) {
        let buf = command.to_bytes();
        self.writer.write_virt(self.cmd_addr, buf.as_slice());
        Ok(())
    }

    fn receive_retv(&mut self) -> (r: isize) {
        let bytes = self.reader.read_virt(self.retv_addr, 8);
        let value = le_bytes_to_u64(&bytes);
        #[verifier::truncate]
        let code = value as isize;
        code
    }

    fn receive_extra_data(&mut self, len: usize) -> (r: Result<Vec<u8>, Error>) {
        Ok(self.reader.read_virt(self.data_addr, len))
    }
}

} // verus!
