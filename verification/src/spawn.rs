//! The steps of one spawn, from a requested stack size to a process handle.
//!
//! A spawn alternates system calls and decisions. The decisions are here:
//! [`Spawner::begin`] and [`Spawner::step`] name the call that comes next
//! and take its answer. The caller makes the calls. The stack is mapped
//! readable and writable, its low end is then made inaccessible, the process
//! is created on the top of it, and the parent's boxed unit of work is
//! released. A step that fails undoes what the earlier ones left behind
//! before the error is reported.

use crate::layout::{
    fits_region, is_valid_stack_size, region_fits, valid_stack_size, StackLayout, StackRegion,
    GUARD_SIZE,
};
use crate::reap::{HandleModel, ProcessHandle};
use vstd::prelude::*;

verus! {

/// Why a spawn produced no process. The number is the error code that the
/// operating system gave for the call that failed.
#[derive(Clone, Copy, Debug, PartialEq, Eq)]
pub enum SpawnError {
    /// The requested stack size is not a whole number of pages above the
    /// guard. Nothing was asked of the operating system.
    InvalidStackSize,
    /// The stack could not be mapped.
    AllocationFailed(i32),
    /// The stack was mapped, its guard could not be installed, and the
    /// mapping has been released again.
    GuardInstallFailed(i32),
    /// The process could not be created. The unit of work and the stack
    /// have been released again.
    SpawnFailed(i32),
}

impl SpawnError {
    /// The error code of the system call that failed, set apart from an
    /// error that no system call gave.
    pub open spec fn os_code(self) -> Option<i32> {
        match self {
            SpawnError::InvalidStackSize => None,
            SpawnError::AllocationFailed(errno) => Some(errno),
            SpawnError::GuardInstallFailed(errno) => Some(errno),
            SpawnError::SpawnFailed(errno) => Some(errno),
        }
    }

    /// The error code that the operating system gave, if the error came from
    /// it.
    pub fn code(&self) -> (code: Option<i32>)
        ensures
            code == self.os_code(),
    {
        match self {
            SpawnError::InvalidStackSize => None,
            SpawnError::AllocationFailed(errno) => Some(*errno),
            SpawnError::GuardInstallFailed(errno) => Some(*errno),
            SpawnError::SpawnFailed(errno) => Some(*errno),
        }
    }
}

/// What the new process shares with its parent.
#[derive(Clone, Copy, Debug, PartialEq, Eq)]
pub struct CloneFlags {
    /// The parent is sent the child-termination signal when the child exits.
    pub signal_parent_on_exit: bool,
    /// The child shares its parent's address space, descriptors or
    /// namespaces instead of getting copies.
    pub share_with_parent: bool,
}

impl CloneFlags {
    /// The flags of every spawn: the parent is signalled as after a fork, and
    /// nothing is shared, so the child works on its own copy of the memory.
    pub open spec fn isolated() -> CloneFlags {
        CloneFlags { signal_parent_on_exit: true, share_with_parent: false }
    }

    /// The flags of every spawn.
    pub fn new_isolated() -> (flags: CloneFlags)
        ensures
            flags == CloneFlags::isolated(),
    {
        CloneFlags { signal_parent_on_exit: true, share_with_parent: false }
    }
}

/// A system call that the caller is asked to make.
#[derive(Clone, Copy, Debug, PartialEq, Eq)]
pub enum SpawnAction {
    /// Map `len` bytes of anonymous private memory, readable and writable.
    MapStack { len: usize },
    /// Make the `len` bytes at `addr` inaccessible.
    ProtectGuard { addr: usize, len: usize },
    /// Release the mapping of `len` bytes at `addr`.
    UnmapStack { addr: usize, len: usize },
    /// Box the unit of work and create the process: it starts at the fixed
    /// entry point with the box as its only argument and `stack_top` as its
    /// stack pointer, and runs the unit of work once.
    CreateProcess { stack_top: usize, flags: CloneFlags },
    /// Take the parent's box back and drop it without running the work. A
    /// child that was made runs its own copy of the box, in its own copy of
    /// the parent's memory; the box released here is the parent's, which
    /// nothing will run.
    ReleaseWork,
}

/// The answer to a system call.
#[derive(Clone, Copy, Debug, PartialEq, Eq)]
pub enum SpawnEvent {
    /// The mapping was made at the given address, or refused with an error
    /// code.
    Mapped(Result<usize, i32>),
    /// The protection was changed, or refused with an error code.
    Protected(Result<(), i32>),
    /// The release of the mapping was attempted. Its own result is not
    /// consulted: the error reported is the one that led here.
    Unmapped,
    /// The process-creation call returned `ret`, and the error code read
    /// right after it was `errno`.
    Cloned { ret: i32, errno: i32 },
    /// The parent's boxed unit of work has been dropped.
    WorkReleased,
}

/// Where a spawn stands.
#[derive(Clone, Copy, Debug, PartialEq, Eq)]
pub enum Phase {
    /// The mapping of `len` bytes has been asked for.
    Mapping { len: usize },
    /// The stack is mapped, and its guard has been asked for.
    Guarding { base: usize, len: usize },
    /// The stack is guarded, and the process has been asked for.
    Cloning { base: usize, len: usize },
    /// The process-creation call has returned, with the identifier of the
    /// child or an error code, and the release of the parent's boxed unit of
    /// work has been asked for.
    Releasing { base: usize, len: usize, child: Result<i32, i32> },
    /// A step has failed with `error`, and the release of the mapping has
    /// been asked for.
    Unwinding { base: usize, len: usize, error: SpawnError },
    /// The child `pid` runs on the stack at `base`.
    Spawned { pid: i32, base: usize, len: usize },
    /// No process was made, and nothing is left behind.
    Failed { error: SpawnError },
}

/// The phase in which a spawn with a stack of `size` bytes starts.
pub open spec fn begin(size: usize) -> Phase {
    if valid_stack_size(size as int) {
        Phase::Mapping { len: size }
    } else {
        Phase::Failed { error: SpawnError::InvalidStackSize }
    }
}

/// A spawn in a terminal phase asks for nothing more.
pub open spec fn is_terminal(phase: Phase) -> bool {
    phase is Spawned || phase is Failed
}

/// The values that a phase holds are sound: sizes are valid, mappings fit,
/// and a child's identifier is positive.
pub open spec fn phase_wf(phase: Phase) -> bool {
    match phase {
        Phase::Mapping { len } => valid_stack_size(len as int),
        Phase::Guarding { base, len } => region_fits(base as int, len as int),
        Phase::Cloning { base, len } => region_fits(base as int, len as int),
        Phase::Releasing { base, len, child } => {
            &&& region_fits(base as int, len as int)
            &&& child matches Ok(pid) ==> pid > 0
        },
        Phase::Unwinding { base, len, .. } => region_fits(base as int, len as int),
        Phase::Spawned { pid, base, len } => pid > 0 && region_fits(base as int, len as int),
        Phase::Failed { .. } => true,
    }
}

/// The system call that a phase waits for; none in a terminal phase.
pub open spec fn pending(phase: Phase) -> Option<SpawnAction> {
    match phase {
        Phase::Mapping { len } => Some(SpawnAction::MapStack { len }),
        Phase::Guarding { base, .. } => Some(
            SpawnAction::ProtectGuard { addr: base, len: GUARD_SIZE },
        ),
        Phase::Cloning { base, len } => Some(
            SpawnAction::CreateProcess {
                stack_top: (base + len) as usize,
                flags: CloneFlags::isolated(),
            },
        ),
        Phase::Releasing { .. } => Some(SpawnAction::ReleaseWork),
        Phase::Unwinding { base, len, .. } => Some(SpawnAction::UnmapStack { addr: base, len }),
        Phase::Spawned { .. } => None,
        Phase::Failed { .. } => None,
    }
}

/// What the return value of the process-creation call means: a positive
/// value is the child's identifier, and the failure sentinel `-1` stands for
/// the error code read after the call.
pub open spec fn clone_outcome(ret: i32, errno: i32) -> Result<i32, i32> {
    if ret > 0 {
        Ok(ret)
    } else {
        Err(errno)
    }
}

/// The return values that the process-creation call is documented to give
/// its caller: the failure sentinel, or a positive identifier. Zero and the
/// other negative numbers are not among them.
pub open spec fn documented_clone_return(ret: i32) -> bool {
    ret == -1 || ret > 0
}

/// An event is accepted in a phase when it answers the pending call and
/// holds what the operating system documents: a mapping that starts on a
/// page boundary and ends at a machine address, and a return value of the
/// process-creation call that is the failure sentinel or positive.
pub open spec fn accepts(phase: Phase, event: SpawnEvent) -> bool {
    match (phase, event) {
        (Phase::Mapping { len }, SpawnEvent::Mapped(Ok(base))) => region_fits(
            base as int,
            len as int,
        ),
        (Phase::Mapping { .. }, SpawnEvent::Mapped(Err(_))) => true,
        (Phase::Guarding { .. }, SpawnEvent::Protected(_)) => true,
        (Phase::Cloning { .. }, SpawnEvent::Cloned { ret, .. }) => documented_clone_return(ret),
        (Phase::Releasing { .. }, SpawnEvent::WorkReleased) => true,
        (Phase::Unwinding { .. }, SpawnEvent::Unmapped) => true,
        _ => false,
    }
}

/// The phase that follows `phase` on `event`. An event that is not accepted
/// changes nothing.
pub open spec fn next(phase: Phase, event: SpawnEvent) -> Phase {
    if !accepts(phase, event) {
        phase
    } else {
        match (phase, event) {
            (Phase::Mapping { len }, SpawnEvent::Mapped(Ok(base))) => Phase::Guarding { base, len },
            (Phase::Mapping { .. }, SpawnEvent::Mapped(Err(errno))) => Phase::Failed {
                error: SpawnError::AllocationFailed(errno),
            },
            (Phase::Guarding { base, len }, SpawnEvent::Protected(Ok(_))) => Phase::Cloning {
                base,
                len,
            },
            (Phase::Guarding { base, len }, SpawnEvent::Protected(Err(errno))) => {
                Phase::Unwinding { base, len, error: SpawnError::GuardInstallFailed(errno) }
            },
            (Phase::Cloning { base, len }, SpawnEvent::Cloned { ret, errno }) => Phase::Releasing {
                base,
                len,
                child: clone_outcome(ret, errno),
            },
            (Phase::Releasing { base, len, child }, SpawnEvent::WorkReleased) => match child {
                Ok(pid) => Phase::Spawned { pid, base, len },
                Err(errno) => Phase::Unwinding {
                    base,
                    len,
                    error: SpawnError::SpawnFailed(errno),
                },
            },
            (Phase::Unwinding { error, .. }, SpawnEvent::Unmapped) => Phase::Failed { error },
            _ => phase,
        }
    }
}

/// A spawn under way: it waits for the answer to one system call.
#[derive(Debug, PartialEq, Eq)]
pub struct Spawner {
    phase: Phase,
}

impl View for Spawner {
    type V = Phase;

    closed spec fn view(&self) -> Phase {
        self.phase
    }
}

/// How a spawn goes on.
#[derive(Debug, PartialEq, Eq)]
pub enum Step {
    /// Make the system call and hand its answer to [`Spawner::step`].
    Continue(Spawner, SpawnAction),
    /// The spawn is over.
    Finished(Result<ProcessHandle, SpawnError>),
}

/// A step shows a phase: while the phase waits for a call, the step carries
/// the spawn in that phase and the call; once the phase is terminal, the step
/// carries the handle of the child on its stack, or the error.
pub open spec fn shows(step: Step, phase: Phase) -> bool {
    match step {
        Step::Continue(spawner, action) => spawner@ == phase && pending(phase) == Some(action),
        Step::Finished(Ok(handle)) => {
            &&& phase matches Phase::Spawned { pid, base, len }
            &&& handle@ == (HandleModel {
                pid: pid as int,
                stack: StackLayout::of(base as int, len as int),
            })
        },
        Step::Finished(Err(error)) => phase == (Phase::Failed { error }),
    }
}

impl Spawner {
    #[verifier::type_invariant]
    spec fn inv(self) -> bool {
        phase_wf(self.phase) && !is_terminal(self.phase)
    }

    /// The system call that a spawn in `phase` waits for.
    fn call_for(phase: Phase) -> (action: SpawnAction)
        requires
            phase_wf(phase),
            !is_terminal(phase),
        ensures
            pending(phase) == Some(action),
    {
        match phase {
            Phase::Mapping { len } => SpawnAction::MapStack { len },
            Phase::Guarding { base, .. } => SpawnAction::ProtectGuard {
                addr: base,
                len: GUARD_SIZE,
            },
            Phase::Cloning { base, len } => SpawnAction::CreateProcess {
                stack_top: base + len,
                flags: CloneFlags::new_isolated(),
            },
            Phase::Releasing { .. } => SpawnAction::ReleaseWork,
            Phase::Unwinding { base, len, .. } => SpawnAction::UnmapStack { addr: base, len },
            _ => vstd::pervasive::unreached(),
        }
    }

    /// The step that shows `phase`.
    fn enter(phase: Phase) -> (step: Step)
        requires
            phase_wf(phase),
        ensures
            shows(step, phase),
    {
        match phase {
            Phase::Spawned { pid, base, len } => Step::Finished(
                Ok(ProcessHandle::new(pid, StackRegion::from_mapping(base, len))),
            ),
            Phase::Failed { error } => Step::Finished(Err(error)),
            _ => Step::Continue(Spawner { phase }, Spawner::call_for(phase)),
        }
    }

    /// Starts a spawn whose child gets a stack of `size` bytes, guard
    /// included. A size that is not valid ends the spawn at once with
    /// [`SpawnError::InvalidStackSize`]; any other asks for the mapping.
    pub fn begin(size: usize) -> (step: Step)
        ensures
            shows(step, begin(size)),
    {
        if is_valid_stack_size(size) {
            Spawner::enter(Phase::Mapping { len: size })
        } else {
            Step::Finished(Err(SpawnError::InvalidStackSize))
        }
    }

    /// The phase that this spawn is in.
    pub fn phase(&self) -> (phase: Phase)
        ensures
            phase == self@,
            phase_wf(phase),
            !is_terminal(phase),
    {
        proof {
            use_type_invariant(self);
        }
        self.phase
    }

    /// The system call that this spawn waits for.
    pub fn pending(&self) -> (action: SpawnAction)
        ensures
            pending(self@) == Some(action),
    {
        proof {
            use_type_invariant(self);
        }
        Spawner::call_for(self.phase)
    }

    /// Tells whether `event` may be handed to [`Spawner::step`].
    pub fn accepts(&self, event: &SpawnEvent) -> (ok: bool)
        ensures
            ok == accepts(self@, *event),
    {
        match (self.phase, *event) {
            (Phase::Mapping { len }, SpawnEvent::Mapped(Ok(base))) => fits_region(base, len),
            (Phase::Mapping { .. }, SpawnEvent::Mapped(Err(_))) => true,
            (Phase::Guarding { .. }, SpawnEvent::Protected(_)) => true,
            (Phase::Cloning { .. }, SpawnEvent::Cloned { ret, .. }) => ret == -1 || ret > 0,
            (Phase::Releasing { .. }, SpawnEvent::WorkReleased) => true,
            (Phase::Unwinding { .. }, SpawnEvent::Unmapped) => true,
            _ => false,
        }
    }

    /// Takes the answer to the pending system call and says how the spawn
    /// goes on.
    pub fn step(self, event: SpawnEvent) -> (step: Step)
        requires
            accepts(self@, event),
        ensures
            shows(step, next(self@, event)),
    {
        proof {
            use_type_invariant(&self);
        }
        let phase = match (self.phase, event) {
            (Phase::Mapping { len }, SpawnEvent::Mapped(Ok(base))) => Phase::Guarding { base, len },
            (Phase::Mapping { .. }, SpawnEvent::Mapped(Err(errno))) => Phase::Failed {
                error: SpawnError::AllocationFailed(errno),
            },
            (Phase::Guarding { base, len }, SpawnEvent::Protected(Ok(_))) => Phase::Cloning {
                base,
                len,
            },
            (Phase::Guarding { base, len }, SpawnEvent::Protected(Err(errno))) => {
                Phase::Unwinding { base, len, error: SpawnError::GuardInstallFailed(errno) }
            },
            (Phase::Cloning { base, len }, SpawnEvent::Cloned { ret, errno }) => Phase::Releasing {
                base,
                len,
                child: if ret > 0 {
                    Ok(ret)
                } else {
                    Err(errno)
                },
            },
            (Phase::Releasing { base, len, child }, SpawnEvent::WorkReleased) => match child {
                Ok(pid) => Phase::Spawned { pid, base, len },
                Err(errno) => Phase::Unwinding {
                    base,
                    len,
                    error: SpawnError::SpawnFailed(errno),
                },
            },
            (Phase::Unwinding { error, .. }, SpawnEvent::Unmapped) => Phase::Failed { error },
            _ => vstd::pervasive::unreached(),
        };
        Spawner::enter(phase)
    }
}

} // verus!
