//! The audio output as the session sees it, and the policy for a write that
//! fails: one recovery, one more write, then give up on that buffer.

use vstd::prelude::*;

verus! {

/// A fault that the output reported, by its error number (either sign).
#[derive(Copy, Clone, Debug, PartialEq, Eq, Structural)]
pub struct DeviceError {
    pub errno: i32,
}

/// Error number of a broken pipe: the buffer ran empty.
pub const EPIPE: i32 = 32;

/// Error number of a suspended stream.
pub const ESTRPIPE: i32 = 86;

/// Error number of an interrupted call.
pub const EINTR: i32 = 4;

impl DeviceError {
    /// Whether the output can be brought back from this fault: an underrun, a
    /// suspend or an interrupted call.
    pub open spec fn spec_recoverable(self) -> bool {
        self.errno == EPIPE || self.errno == -EPIPE || self.errno == ESTRPIPE || self.errno
            == -ESTRPIPE || self.errno == EINTR || self.errno == -EINTR
    }

    /// Whether the output can be brought back from this fault.
    pub fn is_recoverable(&self) -> (r: bool)
        ensures
            r == self.spec_recoverable(),
    {
        self.errno == EPIPE || self.errno == -EPIPE || self.errno == ESTRPIPE || self.errno
            == -ESTRPIPE || self.errno == EINTR || self.errno == -EINTR
    }
}

/// Where the writing of one buffer stands.
#[derive(Copy, Clone, Debug, PartialEq, Eq, Structural)]
pub enum WriteStage {
    /// The first write is under way.
    FirstWrite,
    /// The first write failed recoverably; the recovery is under way.
    Recovering,
    /// The recovery succeeded; the second and last write is under way.
    SecondWrite,
    /// The buffer was written or given up.
    Over,
}

/// What the output is to do next for the buffer.
#[derive(Copy, Clone, Debug, PartialEq, Eq, Structural)]
pub enum WriteAction {
    /// Write the buffer.
    Write,
    /// Recover from this fault.
    Recover(DeviceError),
    /// Stop: the buffer was written.
    Done,
    /// Stop: the buffer is given up and this fault reported.
    GiveUp(DeviceError),
}

/// The order of the stages: each step of the policy moves to a later one.
pub open spec fn stage_rank(s: WriteStage) -> int {
    match s {
        WriteStage::FirstWrite => 0,
        WriteStage::Recovering => 1,
        WriteStage::SecondWrite => 2,
        WriteStage::Over => 3,
    }
}

/// The stage and action after a write in `stage` ended with `result`.
pub open spec fn spec_after_write(stage: WriteStage, result: Result<(), DeviceError>) -> (
    WriteStage,
    WriteAction,
) {
    match result {
        Ok(()) => (WriteStage::Over, WriteAction::Done),
        Err(e) => if stage == WriteStage::FirstWrite && e.spec_recoverable() {
            (WriteStage::Recovering, WriteAction::Recover(e))
        } else {
            (WriteStage::Over, WriteAction::GiveUp(e))
        },
    }
}

/// The stage and action after the recovery ended with `result`.
pub open spec fn spec_after_recover(result: Result<(), DeviceError>) -> (WriteStage, WriteAction) {
    match result {
        Ok(()) => (WriteStage::SecondWrite, WriteAction::Write),
        Err(e) => (WriteStage::Over, WriteAction::GiveUp(e)),
    }
}

/// The writing of one buffer under the recovery policy.
pub struct WriteRecovery {
    pub stage: WriteStage,
}

impl WriteRecovery {
    /// A fresh policy: the first write is to be made.
    pub fn new() -> (r: (WriteRecovery, WriteAction))
        ensures
            r.0.stage == WriteStage::FirstWrite,
            r.1 == WriteAction::Write,
    {
        (WriteRecovery { stage: WriteStage::FirstWrite }, WriteAction::Write)
    }

    /// Takes the result of the write that was asked for.
    pub fn on_write(&mut self, result: Result<(), DeviceError>) -> (r: WriteAction)
        requires
            old(self).stage == WriteStage::FirstWrite || old(self).stage == WriteStage::SecondWrite,
        ensures
            (final(self).stage, r) == spec_after_write(old(self).stage, result),
            stage_rank(final(self).stage) > stage_rank(old(self).stage),
    {
        match result {
            Ok(()) => {
                self.stage = WriteStage::Over;
                WriteAction::Done
            },
            Err(e) => {
                if self.stage == WriteStage::FirstWrite && e.is_recoverable() {
                    self.stage = WriteStage::Recovering;
                    WriteAction::Recover(e)
                } else {
                    self.stage = WriteStage::Over;
                    WriteAction::GiveUp(e)
                }
            },
        }
    }

    /// Takes the result of the recovery that was asked for.
    pub fn on_recover(&mut self, result: Result<(), DeviceError>) -> (r: WriteAction)
        requires
            old(self).stage == WriteStage::Recovering,
        ensures
            (final(self).stage, r) == spec_after_recover(result),
            stage_rank(final(self).stage) > stage_rank(old(self).stage),
    {
        match result {
            Ok(()) => {
                self.stage = WriteStage::SecondWrite;
                WriteAction::Write
            },
            Err(e) => {
                self.stage = WriteStage::Over;
                WriteAction::GiveUp(e)
            },
        }
    }
}

/// An audio output that takes 16-bit interleaved PCM.
pub trait VbanSink {
    /// Writes the interleaved samples once.
    fn write(&self, buf: &[i16]) -> Result<(), DeviceError>;

    /// Tries to bring the output back after the fault `err`.
    fn recover(&self, err: DeviceError) -> Result<(), DeviceError>;
}

/// One call that `write_with_recovery` made on the sink, with what it returned.
#[derive(Copy, Clone, Debug, PartialEq, Eq)]
pub enum WriteStep {
    /// The buffer was written, with this result.
    Wrote(Result<(), DeviceError>),
    /// A recovery from this fault was tried, with this result.
    Recovered(DeviceError, Result<(), DeviceError>),
}

/// Whether `steps` and the result `r` are a run of the recovery policy: a
/// first write; where it fails recoverably, one recovery from that very fault;
/// where that succeeds, one more write, whose result is reported. Any other
/// outcome ends the run and is reported as it came.
pub open spec fn policy_run(steps: Seq<WriteStep>, r: Result<(), DeviceError>) -> bool {
    &&& steps.len() >= 1
    &&& match steps[0] {
        WriteStep::Wrote(Ok(())) => steps.len() == 1 && r == Ok::<(), DeviceError>(()),
        WriteStep::Wrote(Err(e)) => if !e.spec_recoverable() {
            steps.len() == 1 && r == Err::<(), DeviceError>(e)
        } else {
            &&& steps.len() >= 2
            &&& match steps[1] {
                WriteStep::Recovered(f, Err(g)) => f == e && steps.len() == 2 && r == Err::<
                    (),
                    DeviceError,
                >(g),
                WriteStep::Recovered(f, Ok(())) => {
                    &&& f == e
                    &&& steps.len() == 3
                    &&& steps[2] matches WriteStep::Wrote(w)
                    &&& r == w
                },
                _ => false,
            }
        },
        _ => false,
    }
}

/// Writes `buf` to `sink` under the recovery policy: a write; after a
/// recoverable fault one recovery and, where it succeeds, one more write. The
/// last fault is reported; nothing is retried beyond that. Every write hands
/// the sink `buf`; the recovery hands it the fault that the write returned.
/// Returns the result and the calls made, in order.
pub fn write_with_recovery<S: VbanSink>(sink: &S, buf: &[i16]) -> (r: (
    Result<(), DeviceError>,
    Vec<WriteStep>,
))
    ensures
        policy_run(r.1@, r.0),
{
    let mut steps: Vec<WriteStep> = Vec::new();
    let (mut policy, _) = WriteRecovery::new();
    let first = sink.write(buf);
    steps.push(WriteStep::Wrote(first));
    match policy.on_write(first) {
        WriteAction::Done => (Ok(()), steps),
        WriteAction::GiveUp(e) => (Err(e), steps),
        WriteAction::Write => {
            proof {
                assert(false);
            }
            (Ok(()), steps)
        },
        WriteAction::Recover(e) => {
            let recovered = sink.recover(e);
            steps.push(WriteStep::Recovered(e, recovered));
            match policy.on_recover(recovered) {
                WriteAction::Write => {
                    let second = sink.write(buf);
                    steps.push(WriteStep::Wrote(second));
                    (second, steps)
                },
                WriteAction::GiveUp(g) => (Err(g), steps),
                _ => {
                    proof {
                        assert(false);
                    }
                    (Ok(()), steps)
                },
            }
        },
    }
}

/// From its first write, the policy asks for at most one recovery and at most
/// one write after it: the stages only move forward, a recovery is asked for
/// only after a recoverable fault of the first write, and a second write only
/// after a recovery that succeeded.
pub proof fn lemma_one_recovery_one_retry(
    stage: WriteStage,
    write_result: Result<(), DeviceError>,
    recover_result: Result<(), DeviceError>,
)
    ensures
        (stage == WriteStage::FirstWrite || stage == WriteStage::SecondWrite) ==> stage_rank(
            spec_after_write(stage, write_result).0,
        ) > stage_rank(stage),
        stage_rank(spec_after_recover(recover_result).0) > stage_rank(WriteStage::Recovering),
        spec_after_write(stage, write_result).1 is Recover ==> stage == WriteStage::FirstWrite,
        spec_after_write(stage, write_result).1 is Recover ==> (write_result matches Err(e)
            && e.spec_recoverable()),
        spec_after_recover(recover_result).1 == WriteAction::Write <==> recover_result is Ok,
        spec_after_write(WriteStage::SecondWrite, write_result).0 == WriteStage::Over,
        spec_after_write(WriteStage::SecondWrite, write_result).1 == (match write_result {
            Ok(()) => WriteAction::Done,
            Err(e) => WriteAction::GiveUp(e),
        }),
{
}

} // verus!
