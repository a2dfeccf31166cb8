//! The handle of a spawned process, and the wait that reaps it.

use crate::layout::{StackLayout, StackRegion};
use nix::sys::wait::{waitpid, WaitStatus};
use nix::unistd::Pid;
use vstd::prelude::*;

verus! {

/// How a process ended.
#[derive(Clone, Copy, Debug, PartialEq, Eq)]
pub enum ExitStatus {
    /// The process terminated normally with this code.
    Exited { code: i32 },
    /// The process was terminated by this signal, with or without a core
    /// dump.
    Signaled { signal: i32, core_dumped: bool },
}

impl ExitStatus {
    /// The exit code of a process that terminated normally.
    pub open spec fn exit_code(self) -> Option<i32> {
        match self {
            ExitStatus::Exited { code } => Some(code),
            ExitStatus::Signaled { .. } => None,
        }
    }

    /// The signal that terminated the process, if one did.
    pub open spec fn term_signal(self) -> Option<i32> {
        match self {
            ExitStatus::Exited { .. } => None,
            ExitStatus::Signaled { signal, .. } => Some(signal),
        }
    }

    /// The code that the unit of work returned, unless a signal ended the
    /// process first.
    pub fn code(&self) -> (code: Option<i32>)
        ensures
            code == self.exit_code(),
    {
        match self {
            ExitStatus::Exited { code } => Some(*code),
            ExitStatus::Signaled { .. } => None,
        }
    }

    /// The signal that ended the process, unless it terminated normally.
    pub fn signal(&self) -> (signal: Option<i32>)
        ensures
            signal == self.term_signal(),
    {
        match self {
            ExitStatus::Exited { .. } => None,
            ExitStatus::Signaled { signal, .. } => Some(*signal),
        }
    }
}

/// What the operating system reported of the awaited process.
#[derive(Clone, Copy, Debug, PartialEq, Eq)]
pub enum WaitReport {
    /// It terminated normally with this code.
    Exited { code: i32 },
    /// It was terminated by this signal, with or without a core dump.
    Signaled { signal: i32, core_dumped: bool },
    /// It is alive and was stopped by this signal.
    Stopped { signal: i32 },
    /// It is traced and was stopped by this trace event.
    PtraceEvent { signal: i32, event: i32 },
    /// It is traced and was stopped at a system call.
    PtraceSyscall,
    /// It was stopped and runs again.
    Continued,
    /// It has not changed state.
    StillAlive,
}

/// The mathematical picture of a handle: the process it names and the stack
/// that was mapped for it.
pub struct HandleModel {
    pub pid: int,
    pub stack: StackLayout,
}

/// A spawned process that has not been reaped, with the stack mapped for it.
///
/// The handle stands for the one chance to collect the exit status, so it
/// can be neither copied nor made from a bare number: it comes out of a
/// spawn, and a wait takes it.
#[derive(Debug, PartialEq, Eq)]
pub struct ProcessHandle {
    pid: i32,
    stack: StackRegion,
}

impl View for ProcessHandle {
    type V = HandleModel;

    closed spec fn view(&self) -> HandleModel {
        HandleModel { pid: self.pid as int, stack: self.stack@ }
    }
}

impl ProcessHandle {
    #[verifier::type_invariant]
    spec fn inv(self) -> bool {
        self.pid > 0
    }

    /// The handle of process `pid`, which runs on `stack`.
    pub(crate) fn new(pid: i32, stack: StackRegion) -> (handle: ProcessHandle)
        requires
            pid > 0,
        ensures
            handle@ == (HandleModel { pid: pid as int, stack: stack@ }),
    {
        ProcessHandle { pid, stack }
    }

    /// The identifier of the process, always positive.
    pub fn pid(&self) -> (pid: i32)
        ensures
            pid == self@.pid,
            pid > 0,
    {
        proof {
            use_type_invariant(self);
        }
        self.pid
    }

    /// The stack that the process was started on.
    pub fn stack(&self) -> (stack: &StackRegion)
        ensures
            stack@ == self@.stack,
    {
        &self.stack
    }

    /// Draws the conclusion from the outcome of one wait on this process.
    ///
    /// A report of termination gives the exit status, together with the
    /// stack, which nothing runs on any more and which the caller now
    /// releases. An error code of the wait fails with it. Any other report
    /// means that the process has not ended: the handle comes back, still
    /// good for the wait that reaps it.
    pub fn conclude(self, outcome: Result<WaitReport, i32>) -> (result: Result<Reaped, WaitError>)
        ensures
            concludes(result, self@, outcome),
    {
        match outcome {
            Err(errno) => Err(WaitError::WaitFailed(errno)),
            Ok(WaitReport::Exited { code }) => Ok(
                Reaped { status: ExitStatus::Exited { code }, stack: self.stack },
            ),
            Ok(WaitReport::Signaled { signal, core_dumped }) => Ok(
                Reaped { status: ExitStatus::Signaled { signal, core_dumped }, stack: self.stack },
            ),
            Ok(_) => Err(WaitError::NotTerminated(self)),
        }
    }

    /// Blocks until the operating system reports on the process, and draws
    /// the conclusion of [`ProcessHandle::conclude`] from what it reports.
    ///
    /// The wait has no timeout: while the process neither ends nor changes
    /// state, this call does not return. Only the parent of the process can
    /// wait for it. The handle is used up, so a process is reaped at most
    /// once.
    pub fn wait(self) -> (result: Result<Reaped, WaitError>)
        ensures
            exists|outcome: Result<WaitReport, i32>| concludes(result, self@, outcome),
            result matches Ok(reaped) ==> reaped.stack@ == self@.stack,
            result matches Err(WaitError::NotTerminated(handle)) ==> handle@ == self@,
    {
        let pid = self.pid();
        let outcome = wait_for_child(pid);
        let result = self.conclude(outcome);
        assert(concludes(result, self@, outcome));
        result
    }
}

/// A process that has been reaped.
#[derive(Debug, PartialEq, Eq)]
pub struct Reaped {
    /// How the process ended.
    pub status: ExitStatus,
    /// The stack of the process, to be released by the caller.
    pub stack: StackRegion,
}

/// Why a wait gave no exit status.
#[derive(Debug, PartialEq, Eq)]
pub enum WaitError {
    /// The wait itself failed with this error code. The handle is gone.
    WaitFailed(i32),
    /// The process changed state without ending. It has not been reaped, and
    /// its handle is given back.
    NotTerminated(ProcessHandle),
}

/// The exit status that a report carries, if it reports a termination.
pub open spec fn terminal_status(report: WaitReport) -> Option<ExitStatus> {
    match report {
        WaitReport::Exited { code } => Some(ExitStatus::Exited { code }),
        WaitReport::Signaled { signal, core_dumped } => Some(
            ExitStatus::Signaled { signal, core_dumped },
        ),
        _ => None,
    }
}

/// `result` is the conclusion that a wait on `handle` draws from `outcome`.
pub open spec fn concludes(
    result: Result<Reaped, WaitError>,
    handle: HandleModel,
    outcome: Result<WaitReport, i32>,
) -> bool {
    match outcome {
        Err(errno) => result == Err::<Reaped, WaitError>(WaitError::WaitFailed(errno)),
        Ok(report) => match terminal_status(report) {
            Some(status) => result matches Ok(reaped) && reaped.status == status && reaped.stack@
                == handle.stack,
            None => result matches Err(WaitError::NotTerminated(back)) && back@ == handle,
        },
    }
}

/// The exit code that the operating system reports for a process that
/// terminated normally is the code of the exit status, unchanged, and the
/// stack that comes with it is the one that the process was started on.
pub proof fn lemma_reported_code_is_the_exit_code(
    result: Result<Reaped, WaitError>,
    handle: HandleModel,
    code: i32,
)
    requires
        concludes(result, handle, Ok(WaitReport::Exited { code })),
    ensures
        result matches Ok(reaped) && ({
            &&& reaped.status == (ExitStatus::Exited { code })
            &&& reaped.status.exit_code() == Some(code)
            &&& reaped.status.term_signal() is None
            &&& reaped.stack@ == handle.stack
        }),
{
}

/// A wait leaves a handle behind exactly when it was inconclusive: when the
/// process was reaped or the wait failed, no handle of the process is left,
/// so it cannot be waited for again; when the process has not ended, the
/// handle that comes back is the one that was given.
pub proof fn lemma_handle_survives_only_an_inconclusive_wait(
    result: Result<Reaped, WaitError>,
    handle: HandleModel,
    outcome: Result<WaitReport, i32>,
)
    requires
        concludes(result, handle, outcome),
    ensures
        result matches Err(WaitError::NotTerminated(_)) <==> (outcome matches Ok(report)
            && terminal_status(report) is None),
        result matches Err(WaitError::NotTerminated(back)) ==> back@ == handle,
        result is Ok <==> (outcome matches Ok(report) && terminal_status(report) is Some),
        forall|errno: i32|
            result == Err::<Reaped, WaitError>(WaitError::WaitFailed(errno)) <==> outcome == Err::<
                WaitReport,
                i32,
            >(errno),
{
}

/// Calls [`nix::sys::wait::waitpid`] for the process `pid` alone and with no
/// option, so the call blocks until that process has something to report,
/// and hands on what comes back: the kind of report with its numbers, or the
/// error code. The contract claims nothing of the outcome, which is the
/// operating system's to decide.
#[verifier::external_body]
fn wait_for_child(pid: i32) -> (outcome: Result<WaitReport, i32>)
    requires
        pid > 0,
{
    match waitpid(Pid::from_raw(pid), None) {
        Ok(WaitStatus::Exited(_, code)) => Ok(WaitReport::Exited { code }),
        Ok(WaitStatus::Signaled(_, signal, core_dumped)) => {
            Ok(WaitReport::Signaled { signal: signal as i32, core_dumped })
        },
        Ok(WaitStatus::Stopped(_, signal)) => Ok(WaitReport::Stopped { signal: signal as i32 }),
        Ok(WaitStatus::PtraceEvent(_, signal, event)) => {
            Ok(WaitReport::PtraceEvent { signal: signal as i32, event })
        },
        Ok(WaitStatus::PtraceSyscall(_)) => Ok(WaitReport::PtraceSyscall),
        Ok(WaitStatus::Continued(_)) => Ok(WaitReport::Continued),
        Ok(WaitStatus::StillAlive) => Ok(WaitReport::StillAlive),
        Err(errno) => Err(errno as i32),
    }
}

} // verus!
