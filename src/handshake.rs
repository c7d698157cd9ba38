//! The handshake that holds a forked child before exec and releases it.
//!
//! Each side blocks on a read from a pipe; what the read returned decides
//! the next step. The functions here make those decisions; the caller does
//! the reading, writing, waiting and exiting.
use vstd::prelude::*;
use crate::wire::{decode_execerr_msg, execerr_code, execerr_message, lemma_execerr_round_trip};

verus! {

/// The byte that the parent writes to the resume pipe to let the child exec.
pub const RESUME_SIGNAL: u8 = 0x42;

/// Exit code of a child whose parent closed the resume pipe without the signal.
pub const CANCELLED_EXIT_CODE: i32 = 0;

/// Exit code of a child whose exec failed, or whose read of the resume pipe
/// failed.
pub const EXEC_FAILED_EXIT_CODE: i32 = 1;

/// What one blocking read on a pipe gave.
#[derive(Clone, Copy, Debug, PartialEq, Eq, Structural)]
pub enum ReadOutcome {
    /// The read returned this many bytes (zero: the other end is closed).
    Bytes(usize),
    /// The read was interrupted by a signal before it transferred anything.
    Interrupted,
    /// The read failed for another reason.
    Failed,
}

/// What the parent does after one read of the error-report pipe.
#[derive(Clone, Copy, Debug, PartialEq, Eq, Structural)]
pub enum ResumeStep {
    /// Read again.
    Retry,
    /// The pipe closed without a report: the exec succeeded.
    Running,
    /// The child reported that its exec failed with this error code: reap
    /// the child, then report the error.
    ExecFailed(i32),
    /// The pipe carried something that is not a failure report: reap the
    /// child, then abort.
    ProtocolViolation,
    /// The read itself failed: exit with `EXEC_FAILED_EXIT_CODE`.
    ReadFailed,
}

/// What the child does after one read of the resume pipe.
#[derive(Clone, Copy, Debug, PartialEq, Eq, Structural)]
pub enum ChildStep {
    /// Read again.
    Retry,
    /// Exit at once with this code, without running the target program.
    Exit(i32),
    /// Replace the process image with the target program.
    Exec,
}

pub open spec fn resume_decision(o: ReadOutcome, buf: Seq<u8>) -> ResumeStep {
    match o {
        ReadOutcome::Interrupted => ResumeStep::Retry,
        ReadOutcome::Failed => ResumeStep::ReadFailed,
        ReadOutcome::Bytes(n) => if n == 0 {
            ResumeStep::Running
        } else if n == 8 && execerr_code(buf) is Some {
            ResumeStep::ExecFailed(execerr_code(buf)->0)
        } else {
            ResumeStep::ProtocolViolation
        },
    }
}

pub open spec fn child_decision(o: ReadOutcome) -> ChildStep {
    match o {
        ReadOutcome::Interrupted => ChildStep::Retry,
        ReadOutcome::Failed => ChildStep::Exit(EXEC_FAILED_EXIT_CODE),
        ReadOutcome::Bytes(n) => if n == 0 {
            ChildStep::Exit(CANCELLED_EXIT_CODE)
        } else {
            ChildStep::Exec
        },
    }
}

/// The parent's decision after reading `outcome` from the error-report pipe
/// into `buf`: a closed pipe means the exec succeeded, a full report with
/// the right footer is an exec failure, any other byte count is a broken
/// protocol, and an interrupted read is retried.
pub fn resume_step(outcome: ReadOutcome, buf: &[u8; 8]) -> (r: ResumeStep)
    ensures
        r == resume_decision(outcome, buf@),
{
    match outcome {
        ReadOutcome::Interrupted => ResumeStep::Retry,
        ReadOutcome::Failed => ResumeStep::ReadFailed,
        ReadOutcome::Bytes(n) => {
            if n == 0 {
                ResumeStep::Running
            } else if n == 8 {
                match decode_execerr_msg(buf) {
                    Some(errno) => ResumeStep::ExecFailed(errno),
                    None => ResumeStep::ProtocolViolation,
                }
            } else {
                ResumeStep::ProtocolViolation
            }
        },
    }
}

/// The child's decision after reading `outcome` from the resume pipe: the
/// signal byte lets it exec, a closed pipe cancels the launch, an
/// interrupted read is retried.
pub fn child_step(outcome: ReadOutcome) -> (r: ChildStep)
    ensures
        r == child_decision(outcome),
{
    match outcome {
        ReadOutcome::Interrupted => ChildStep::Retry,
        ReadOutcome::Failed => ChildStep::Exit(EXEC_FAILED_EXIT_CODE),
        ReadOutcome::Bytes(n) => {
            if n == 0 {
                ChildStep::Exit(CANCELLED_EXIT_CODE)
            } else {
                ChildStep::Exec
            }
        },
    }
}

/// The step that the child takes after the reads `os`, in order: the first
/// one that is not a retry, or `Retry` while all of them were.
pub open spec fn child_run(os: Seq<ReadOutcome>) -> ChildStep
    decreases os.len(),
{
    if os.len() == 0 {
        ChildStep::Retry
    } else if child_decision(os[0]) is Retry {
        child_run(os.drop_first())
    } else {
        child_decision(os[0])
    }
}

/// The step that the parent takes after the reads `rs` (each an outcome and
/// what the buffer held), in order: the first one that is not a retry.
pub open spec fn resume_run(rs: Seq<(ReadOutcome, Seq<u8>)>) -> ResumeStep
    decreases rs.len(),
{
    if rs.len() == 0 {
        ResumeStep::Retry
    } else if resume_decision(rs[0].0, rs[0].1) is Retry {
        resume_run(rs.drop_first())
    } else {
        resume_decision(rs[0].0, rs[0].1)
    }
}

/// Interrupted reads change nothing for the child: after any number of them,
/// the read that completes decides as it would have alone.
pub proof fn lemma_child_interrupts_transparent(k: nat, last: ReadOutcome)
    ensures
        child_run(Seq::new(k, |i: int| ReadOutcome::Interrupted).push(last)) == child_decision(
            last,
        ),
    decreases k,
{
    let os = Seq::new(k, |i: int| ReadOutcome::Interrupted).push(last);
    if k > 0 {
        lemma_child_interrupts_transparent((k - 1) as nat, last);
        assert(os.drop_first() =~= Seq::new((k - 1) as nat, |i: int| ReadOutcome::Interrupted).push(
            last,
        ));
        assert(os[0] == ReadOutcome::Interrupted);
    } else {
        assert(os.drop_first() =~= Seq::<ReadOutcome>::empty());
        assert(os[0] == last);
        assert(child_run(os.drop_first()) == ChildStep::Retry);
    }
}

/// Interrupted reads change nothing for the parent: after any number of
/// them, whatever the buffer held, the read that completes decides as it
/// would have alone.
pub proof fn lemma_resume_interrupts_transparent(
    junk: Seq<Seq<u8>>,
    last: ReadOutcome,
    buf: Seq<u8>,
)
    ensures
        resume_run(
            Seq::new(junk.len(), |i: int| (ReadOutcome::Interrupted, junk[i])).push((last, buf)),
        ) == resume_decision(last, buf),
    decreases junk.len(),
{
    let rs = Seq::new(junk.len(), |i: int| (ReadOutcome::Interrupted, junk[i])).push((last, buf));
    if junk.len() > 0 {
        let rest = junk.drop_first();
        lemma_resume_interrupts_transparent(rest, last, buf);
        assert(rs.drop_first() =~= Seq::new(rest.len(), |i: int| (ReadOutcome::Interrupted, rest[i])).push(
            (last, buf),
        ));
        assert(rs[0].0 == ReadOutcome::Interrupted);
    } else {
        assert(rs.drop_first() =~= Seq::<(ReadOutcome, Seq<u8>)>::empty());
        assert(rs[0] == (last, buf));
        assert(resume_run(rs.drop_first()) == ResumeStep::Retry);
    }
}

/// A child whose parent closes the resume pipe without the signal exits
/// with `CANCELLED_EXIT_CODE` and never execs, however often its reads are
/// interrupted first.
pub proof fn lemma_cancel_never_execs(k: nat)
    ensures
        child_run(Seq::new(k, |i: int| ReadOutcome::Interrupted).push(ReadOutcome::Bytes(0)))
            == ChildStep::Exit(CANCELLED_EXIT_CODE),
{
    lemma_child_interrupts_transparent(k, ReadOutcome::Bytes(0));
}

/// The error code with which the child's exec failed is the error that the
/// parent reports, once the child's report has been read whole.
pub proof fn lemma_exec_failure_reaches_parent(errno: i32)
    ensures
        resume_decision(ReadOutcome::Bytes(8), execerr_message(errno)) == ResumeStep::ExecFailed(
            errno,
        ),
{
    lemma_execerr_round_trip(errno);
}

} // verus!
