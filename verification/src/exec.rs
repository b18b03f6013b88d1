//! Agent/monitor execution protocol. The agent runs a test program
//! statement by statement in a forked child and streams one coverage sample
//! per statement over the data channel; the monitor supervises the run,
//! acknowledges each sample in lock-step, and classifies the outcome. The
//! process plumbing (fork, pipes, poll, kill) lives outside the library;
//! these types carry every decision the two loops make.
use crate::codec::{decode_frame, encode_frame, frame_sendable, spec_frame, spec_frame_words,
    FrameError};
use vstd::prelude::*;

verus! {

/// Inactivity bound of the monitor loop, in milliseconds: no channel
/// activity for this long means the run timed out.
pub const POLL_TIMEOUT_MS: i32 = 500;

/// Size the data channel's pipe is grown to, to avoid backpressure stalls.
pub const COVER_PIPE_SIZE: i32 = 0x10_0000;

/// Diagnostic text attached to a failed run.
#[derive(Debug, Clone)]
pub struct Error(pub String);

/// Outcome of one run: the coverage samples of the statements that
/// completed, in program order, or an error with diagnostic text — never
/// both.
#[derive(Debug, Clone)]
pub enum ExecResult {
    Success(Vec<Vec<u64>>),
    Failed(Error),
}

/// Parent-side supervisor state: the samples received so far and the
/// acknowledgments sent back for them.
pub struct Monitor {
    /// Coverage samples received so far, index-aligned to program order.
    pub covs: Vec<Vec<u64>>,
    /// Acknowledgments sent on the rendezvous so far.
    pub acks: usize,
}

impl Monitor {
    /// Lock-step discipline: the monitor has acknowledged exactly the
    /// samples it has received.
    pub open spec fn wf(&self) -> bool {
        self.acks == self.covs@.len()
    }

    pub fn new() -> (m: Monitor)
        ensures
            m.wf(),
            m.covs@.len() == 0,
            m.acks == 0,
    {
        Monitor { covs: Vec::new(), acks: 0 }
    }

    /// One frame arrived on the data channel: record its sample and send
    /// one acknowledgment. A malformed frame is protocol corruption; the
    /// monitor records nothing and acknowledges nothing.
    pub fn on_frame(&mut self, bytes: &Vec<u8>) -> (r: Result<(), FrameError>)
        requires
            old(self).wf(),
        ensures
            final(self).wf(),
            match spec_frame_words(bytes@) {
                Result::Ok(words) => {
                    &&& r == Result::<(), FrameError>::Ok(())
                    &&& final(self).covs.deep_view() == old(self).covs.deep_view().push(words)
                    &&& final(self).acks == old(self).acks + 1
                },
                Result::Err(e) => {
                    &&& r == Result::<(), FrameError>::Err(e)
                    &&& final(self).covs == old(self).covs
                    &&& final(self).acks == old(self).acks
                },
            },
    {
        match decode_frame(bytes) {
            Result::Ok(words) => {
                self.covs.push(words);
                self.acks = self.covs.len();
                proof {
                    assert(self.covs.deep_view() =~~= old(self).covs.deep_view().push(
                        spec_frame_words(bytes@)->Ok_0));
                }
                Result::Ok(())
            },
            Result::Err(e) => Result::Err(e),
        }
    }

    /// No channel activity within the poll bound: the child is to be
    /// force-killed, and the run classified. With no sample collected the
    /// run is a timeout error; with any sample it is a partial success.
    pub fn on_timeout(self) -> (r: ExecResult)
        ensures
            self.covs@.len() == 0 ==> (r matches ExecResult::Failed(e) && e.0@ == "Time out"@),
            self.covs@.len() > 0 ==> (r matches ExecResult::Success(cs) && cs == self.covs),
    {
        if self.covs.len() == 0 {
            ExecResult::Failed(Error(String::from_str("Time out")))
        } else {
            ExecResult::Success(self.covs)
        }
    }

    /// The error channel has data or closed: the child is to be
    /// force-killed and the channel drained. With no sample collected the
    /// drained text is the error; with any sample the run is a success on
    /// exactly those samples and the text is discarded (deliberate
    /// best-effort policy: progress outweighs diagnostics).
    pub fn on_error_channel(self, err_text: String) -> (r: ExecResult)
        ensures
            self.covs@.len() == 0 ==> (r matches ExecResult::Failed(e) && e.0 == err_text),
            self.covs@.len() > 0 ==> (r matches ExecResult::Success(cs) && cs == self.covs),
    {
        if self.covs.len() == 0 {
            ExecResult::Failed(Error(err_text))
        } else {
            ExecResult::Success(self.covs)
        }
    }
}

/// What the agent does after executing one statement.
pub enum AgentStep {
    /// Write this framed sample to the data channel, then block on the
    /// rendezvous until the monitor acknowledges it.
    Emit(Vec<u8>),
    /// The interpreter reported failure: exit immediately with a failure
    /// status, sending nothing further.
    Abort,
}

/// Child-side loop state: how many frames were written and how many
/// acknowledgments consumed. The agent never runs ahead of the monitor by
/// more than the one frame it is blocked on.
pub struct Agent {
    /// Frames written to the data channel.
    pub sent: usize,
    /// Acknowledgments consumed from the rendezvous.
    pub acked: usize,
}

impl Agent {
    /// At most one frame is ever outstanding.
    pub open spec fn wf(&self) -> bool {
        self.acked <= self.sent <= self.acked + 1
    }

    /// The agent may start the next statement only once everything it sent
    /// has been acknowledged.
    pub open spec fn may_send(&self) -> bool {
        self.sent == self.acked
    }

    pub fn new() -> (a: Agent)
        ensures
            a.wf(),
            a.may_send(),
            a.sent == 0,
            a.acked == 0,
    {
        Agent { sent: 0, acked: 0 }
    }

    /// One statement was executed: on success, frame the coverage collected
    /// in its scope and wait for the acknowledgment; on semantic failure,
    /// stop at once. The instrumentation contract guarantees a successful
    /// statement yields a non-empty sample.
    pub fn on_statement(&mut self, success: bool, cov: &Vec<u64>) -> (r: AgentStep)
        requires
            old(self).wf(),
            old(self).may_send(),
            old(self).sent < usize::MAX,
            success ==> frame_sendable(cov@),
        ensures
            final(self).wf(),
            final(self).acked == old(self).acked,
            success ==> {
                &&& r matches AgentStep::Emit(f) && f@ == spec_frame(cov@)
                &&& final(self).sent == old(self).sent + 1
            },
            !success ==> {
                &&& r is Abort
                &&& final(self).sent == old(self).sent
            },
    {
        if success {
            let f = encode_frame(cov);
            self.sent = self.sent + 1;
            AgentStep::Emit(f)
        } else {
            AgentStep::Abort
        }
    }

    /// The monitor's acknowledgment for the outstanding frame arrived; the
    /// agent may proceed to the next statement.
    pub fn on_ack(&mut self)
        requires
            old(self).wf(),
            old(self).sent == old(self).acked + 1,
        ensures
            final(self).wf(),
            final(self).may_send(),
            final(self).sent == old(self).sent,
            final(self).acked == old(self).acked + 1,
    {
        self.acked = self.acked + 1;
    }
}

/// Lock-step law: a well-formed monitor has sent exactly one
/// acknowledgment per sample it received, and a well-formed agent never
/// has more than one unacknowledged frame outstanding — it cannot write
/// sample k+1 before acknowledgment k arrived.
pub proof fn lemma_lock_step(m: Monitor, a: Agent)
    requires
        m.wf(),
        a.wf(),
    ensures
        m.acks == m.covs@.len(),
        a.acked <= a.sent <= a.acked + 1,
        a.may_send() ==> a.sent == a.acked,
{
}

} // verus!
