//! A child held before exec, and a child released to run.
use vstd::prelude::*;

verus! {

/// A forked child that has not yet run its target program: its pid, the
/// parent's write end of the resume pipe and read end of the error-report
/// pipe. Its pid can be handed to an observer before the child is released.
pub struct SuspendedLaunchedProcess {
    pid: u32,
    send_end_of_resume_pipe: i32,
    recv_end_of_execerr_pipe: i32,
}

/// A child that has been released and has replaced its image with the
/// target program; waiting on it consumes it.
pub struct RunningProcess {
    pid: u32,
}

impl SuspendedLaunchedProcess {
    pub closed spec fn spec_pid(&self) -> u32 {
        self.pid
    }

    pub closed spec fn spec_resume_fd(&self) -> i32 {
        self.send_end_of_resume_pipe
    }

    pub closed spec fn spec_execerr_fd(&self) -> i32 {
        self.recv_end_of_execerr_pipe
    }

    /// Takes hold of the child `pid` and of the parent's two pipe ends.
    pub fn new(pid: u32, send_end_of_resume_pipe: i32, recv_end_of_execerr_pipe: i32) -> (r: Self)
        ensures
            r.spec_pid() == pid,
            r.spec_resume_fd() == send_end_of_resume_pipe,
            r.spec_execerr_fd() == recv_end_of_execerr_pipe,
    {
        SuspendedLaunchedProcess { pid, send_end_of_resume_pipe, recv_end_of_execerr_pipe }
    }

    pub fn pid(&self) -> (r: u32)
        ensures
            r == self.spec_pid(),
    {
        self.pid
    }

    /// The write end of the resume pipe.
    pub fn send_end_of_resume_pipe(&self) -> (r: i32)
        ensures
            r == self.spec_resume_fd(),
    {
        self.send_end_of_resume_pipe
    }

    /// The read end of the error-report pipe.
    pub fn recv_end_of_execerr_pipe(&self) -> (r: i32)
        ensures
            r == self.spec_execerr_fd(),
    {
        self.recv_end_of_execerr_pipe
    }

    /// The same child, once its exec is known to have succeeded.
    pub fn into_running(self) -> (r: RunningProcess)
        ensures
            r.spec_pid() == self.spec_pid(),
    {
        RunningProcess { pid: self.pid }
    }
}

impl RunningProcess {
    pub closed spec fn spec_pid(&self) -> u32 {
        self.pid
    }

    pub fn pid(&self) -> (r: u32)
        ensures
            r == self.spec_pid(),
    {
        self.pid
    }
}

} // verus!
