//! What the parent holds while a spawn goes through its phases, and the
//! laws that the phases keep.
//!
//! Each system call of a spawn changes what the parent is answerable for: a
//! mapping, a boxed unit of work, a child. The [`Ledger`] records those
//! changes call by call. [`run`] plays a sequence of answers against the
//! phases of [`crate::spawn`] and keeps the ledger beside them; the lemmas
//! say what the ledger holds wherever the spawn has got to.

use crate::layout::{region_fits, valid_stack_size, StackLayout, GUARD_SIZE, PAGE_SIZE};
use crate::spawn::{
    accepts, begin, is_terminal, next, pending, phase_wf, CloneFlags, Phase, SpawnAction,
    SpawnError, SpawnEvent,
};
use vstd::prelude::*;

verus! {

/// What the parent holds on behalf of one spawn.
pub struct Ledger {
    /// The base and length of the mapping that is live, if one is.
    pub mapping: Option<(int, int)>,
    /// The low end of the live mapping has been made inaccessible.
    pub guarded: bool,
    /// The unit of work is boxed for the child, and the parent has not taken
    /// its box back.
    pub work_boxed: bool,
    /// How often the process-creation call was made.
    pub clone_calls: nat,
    /// The child that the process-creation call made, if it made one.
    pub child: Option<int>,
}

impl Ledger {
    /// The ledger before anything was asked of the operating system.
    pub open spec fn empty() -> Ledger {
        Ledger { mapping: None, guarded: false, work_boxed: false, clone_calls: 0, child: None }
    }
}

/// The ledger after `action` was performed and answered by `event`. A
/// release that was attempted counts as done.
pub open spec fn record(ledger: Ledger, action: SpawnAction, event: SpawnEvent) -> Ledger {
    match (action, event) {
        (SpawnAction::MapStack { len }, SpawnEvent::Mapped(Ok(base))) => Ledger {
            mapping: Some((base as int, len as int)),
            guarded: false,
            ..ledger
        },
        (SpawnAction::ProtectGuard { .. }, SpawnEvent::Protected(Ok(_))) => Ledger {
            guarded: true,
            ..ledger
        },
        (SpawnAction::UnmapStack { addr, len }, SpawnEvent::Unmapped) => {
            if ledger.mapping == Some((addr as int, len as int)) {
                Ledger { mapping: None, guarded: false, ..ledger }
            } else {
                ledger
            }
        },
        (SpawnAction::CreateProcess { .. }, SpawnEvent::Cloned { ret, .. }) => {
            Ledger {
                work_boxed: true,
                clone_calls: ledger.clone_calls + 1,
                child: if ret > 0 {
                    Some(ret as int)
                } else {
                    ledger.child
                },
                ..ledger
            }
        },
        (SpawnAction::ReleaseWork, SpawnEvent::WorkReleased) => Ledger {
            work_boxed: false,
            ..ledger
        },
        _ => ledger,
    }
}

/// Plays `events` in order from `phase` with `ledger`: each accepted event
/// answers the pending call, is recorded, and moves the spawn to its next
/// phase. The play stops at the first event that is not accepted, which is
/// every event once the phase is terminal.
pub open spec fn run(phase: Phase, ledger: Ledger, events: Seq<SpawnEvent>) -> (Phase, Ledger)
    decreases events.len(),
{
    if events.len() == 0 || !accepts(phase, events[0]) {
        (phase, ledger)
    } else {
        run(
            next(phase, events[0]),
            record(ledger, pending(phase).unwrap(), events[0]),
            events.drop_first(),
        )
    }
}

/// The number of answers that a spawn in `phase` can still take.
pub open spec fn steps_left(phase: Phase) -> nat {
    match phase {
        Phase::Mapping { .. } => 5,
        Phase::Guarding { .. } => 4,
        Phase::Cloning { .. } => 3,
        Phase::Releasing { .. } => 2,
        Phase::Unwinding { .. } => 1,
        Phase::Spawned { .. } => 0,
        Phase::Failed { .. } => 0,
    }
}

/// The ledger agrees with the phase: it holds exactly what a spawn that has
/// got to `phase` is answerable for.
pub open spec fn balanced(phase: Phase, ledger: Ledger) -> bool {
    match phase {
        Phase::Mapping { .. } => ledger == Ledger::empty(),
        Phase::Guarding { base, len } => ledger == (Ledger {
            mapping: Some((base as int, len as int)),
            ..Ledger::empty()
        }),
        Phase::Cloning { base, len } => ledger == (Ledger {
            mapping: Some((base as int, len as int)),
            guarded: true,
            ..Ledger::empty()
        }),
        Phase::Releasing { base, len, child } => ledger == (Ledger {
            mapping: Some((base as int, len as int)),
            guarded: true,
            work_boxed: true,
            clone_calls: 1,
            child: match child {
                Ok(pid) => Some(pid as int),
                Err(_) => None,
            },
        }),
        Phase::Unwinding { base, len, error } => {
            &&& ledger.mapping == Some((base as int, len as int))
            &&& !ledger.work_boxed
            &&& ledger.child is None
            &&& match error {
                SpawnError::GuardInstallFailed(_) => ledger.clone_calls == 0 && !ledger.guarded,
                SpawnError::SpawnFailed(_) => ledger.clone_calls == 1 && ledger.guarded,
                _ => false,
            }
        },
        Phase::Spawned { pid, base, len } => ledger == (Ledger {
            mapping: Some((base as int, len as int)),
            guarded: true,
            work_boxed: false,
            clone_calls: 1,
            child: Some(pid as int),
        }),
        Phase::Failed { error } => {
            &&& ledger.mapping is None
            &&& !ledger.guarded
            &&& !ledger.work_boxed
            &&& ledger.child is None
            &&& ledger.clone_calls == (if error is SpawnFailed {
                1nat
            } else {
                0nat
            })
        },
    }
}

/// One accepted answer keeps the phase sound and the ledger balanced, and
/// brings the spawn one step nearer to its end.
pub proof fn lemma_step_keeps_balance(phase: Phase, ledger: Ledger, event: SpawnEvent)
    requires
        phase_wf(phase),
        balanced(phase, ledger),
        accepts(phase, event),
    ensures
        pending(phase) is Some,
        phase_wf(next(phase, event)),
        balanced(next(phase, event), record(ledger, pending(phase).unwrap(), event)),
        steps_left(next(phase, event)) < steps_left(phase),
{
}

/// However a spawn is answered, its phase stays sound and its ledger
/// balanced.
pub proof fn lemma_run_keeps_balance(phase: Phase, ledger: Ledger, events: Seq<SpawnEvent>)
    requires
        phase_wf(phase),
        balanced(phase, ledger),
    ensures
        phase_wf(run(phase, ledger, events).0),
        balanced(run(phase, ledger, events).0, run(phase, ledger, events).1),
    decreases events.len(),
{
    if events.len() != 0 && accepts(phase, events[0]) {
        lemma_step_keeps_balance(phase, ledger, events[0]);
        lemma_run_keeps_balance(
            next(phase, events[0]),
            record(ledger, pending(phase).unwrap(), events[0]),
            events.drop_first(),
        );
    }
}

/// The length of the stack that a phase works with, if it still has one.
pub open spec fn stack_len(phase: Phase) -> Option<usize> {
    match phase {
        Phase::Mapping { len } => Some(len),
        Phase::Guarding { len, .. } => Some(len),
        Phase::Cloning { len, .. } => Some(len),
        Phase::Releasing { len, .. } => Some(len),
        Phase::Unwinding { len, .. } => Some(len),
        Phase::Spawned { len, .. } => Some(len),
        Phase::Failed { .. } => None,
    }
}

/// Every phase that a spawn goes through works with the stack size that it
/// began with.
pub proof fn lemma_run_keeps_size(
    phase: Phase,
    ledger: Ledger,
    events: Seq<SpawnEvent>,
    size: usize,
)
    requires
        stack_len(phase) is Some ==> stack_len(phase) == Some(size),
    ensures
        stack_len(run(phase, ledger, events).0) is Some ==> stack_len(
            run(phase, ledger, events).0,
        ) == Some(size),
    decreases events.len(),
{
    if events.len() != 0 && accepts(phase, events[0]) {
        lemma_run_keeps_size(
            next(phase, events[0]),
            record(ledger, pending(phase).unwrap(), events[0]),
            events.drop_first(),
            size,
        );
    }
}

/// A spawn that ends in an error leaves nothing behind, whichever step
/// failed: no mapping is live, the unit of work is not held in a box, and no
/// child exists. The process-creation call was made only if the error is
/// that of the call itself, so after every other error the unit of work was
/// never handed over.
pub proof fn lemma_failure_leaves_nothing_behind(size: usize, events: Seq<SpawnEvent>)
    requires
        run(begin(size), Ledger::empty(), events).0 is Failed,
    ensures
        ({
            let (phase, ledger) = run(begin(size), Ledger::empty(), events);
            &&& ledger.mapping is None
            &&& !ledger.work_boxed
            &&& ledger.child is None
            &&& phase matches Phase::Failed { error }
            &&& ledger.clone_calls == 0 <==> !(error is SpawnFailed)
        }),
{
    lemma_run_keeps_balance(begin(size), Ledger::empty(), events);
}

/// A spawn that ends with a child holds exactly one mapping, of the
/// requested size and with its guard installed; the child came from the one
/// call that was made, and the parent's box has been released.
pub proof fn lemma_success_holds_the_guarded_stack(size: usize, events: Seq<SpawnEvent>)
    requires
        run(begin(size), Ledger::empty(), events).0 is Spawned,
    ensures
        ({
            let (phase, ledger) = run(begin(size), Ledger::empty(), events);
            &&& phase matches Phase::Spawned { pid, base, len }
            &&& pid > 0
            &&& len == size
            &&& StackLayout::of(base as int, len as int).wf()
            &&& ledger == (Ledger {
                mapping: Some((base as int, len as int)),
                guarded: true,
                work_boxed: false,
                clone_calls: 1,
                child: Some(pid as int),
            })
        }),
{
    lemma_run_keeps_balance(begin(size), Ledger::empty(), events);
    lemma_run_keeps_size(begin(size), Ledger::empty(), events, size);
}

/// When the mapping is refused, the spawn ends at once with
/// [`SpawnError::AllocationFailed`] and the error code of the refusal,
/// whatever is answered afterwards; the process-creation call is never made,
/// so the unit of work is never boxed and never runs.
pub proof fn lemma_mapping_failure_never_creates_a_process(
    size: usize,
    errno: i32,
    later: Seq<SpawnEvent>,
)
    requires
        valid_stack_size(size as int),
    ensures
        run(begin(size), Ledger::empty(), seq![SpawnEvent::Mapped(Err(errno))] + later) == (
            Phase::Failed { error: SpawnError::AllocationFailed(errno) },
            Ledger::empty(),
        ),
{
    let events = seq![SpawnEvent::Mapped(Err(errno))] + later;
    let failed = Phase::Failed { error: SpawnError::AllocationFailed(errno) };
    assert(events[0] == SpawnEvent::Mapped(Err::<usize, i32>(errno)));
    assert(events.drop_first() =~= later);
    assert(next(begin(size), events[0]) == failed);
    lemma_terminal_phase_takes_no_answer(failed, Ledger::empty(), later);
}

/// A spawn that has ended takes no further answer.
pub proof fn lemma_terminal_phase_takes_no_answer(
    phase: Phase,
    ledger: Ledger,
    events: Seq<SpawnEvent>,
)
    requires
        is_terminal(phase),
    ensures
        run(phase, ledger, events) == (phase, ledger),
        forall|event: SpawnEvent| !accepts(phase, event),
        pending(phase) is None,
{
}

/// When the stack is mapped and its guard installed, the spawn holds one
/// mapping of exactly the requested size, whose guard is a page-aligned,
/// non-empty, strict prefix of it, and asks for the process next.
pub proof fn lemma_allocation_gives_a_guarded_region(size: usize, base: usize)
    requires
        region_fits(base as int, size as int),
    ensures
        run(
            begin(size),
            Ledger::empty(),
            seq![SpawnEvent::Mapped(Ok(base)), SpawnEvent::Protected(Ok(()))],
        ) == (
            Phase::Cloning { base, len: size },
            Ledger { mapping: Some((base as int, size as int)), guarded: true, ..Ledger::empty() },
        ),
        ({
            let stack = StackLayout::of(base as int, size as int);
            &&& stack.wf()
            &&& stack.len == size
            &&& stack.guard_len == GUARD_SIZE
            &&& stack.guard_len % (PAGE_SIZE as int) == 0
            &&& 0 < stack.guard_len < size
        }),
{
    let first = SpawnEvent::Mapped(Ok::<usize, i32>(base));
    let second = SpawnEvent::Protected(Ok::<(), i32>(()));
    reveal_with_fuel(run, 3);
    assert(seq![first, second].drop_first() =~= seq![second]);
    assert(seq![second].drop_first() =~= Seq::<SpawnEvent>::empty());
}

/// When the guard cannot be installed, the mapping that was just made is
/// released, at the same address and with the same length, before the spawn
/// ends with [`SpawnError::GuardInstallFailed`].
pub proof fn lemma_guard_failure_releases_the_mapping(size: usize, base: usize, errno: i32)
    requires
        region_fits(base as int, size as int),
    ensures
        pending(
            run(
                begin(size),
                Ledger::empty(),
                seq![SpawnEvent::Mapped(Ok(base)), SpawnEvent::Protected(Err(errno))],
            ).0,
        ) == Some(SpawnAction::UnmapStack { addr: base, len: size }),
        run(
            begin(size),
            Ledger::empty(),
            seq![
                SpawnEvent::Mapped(Ok(base)),
                SpawnEvent::Protected(Err(errno)),
                SpawnEvent::Unmapped,
            ],
        ) == (Phase::Failed { error: SpawnError::GuardInstallFailed(errno) }, Ledger::empty()),
{
    let first = SpawnEvent::Mapped(Ok::<usize, i32>(base));
    let second = SpawnEvent::Protected(Err::<(), i32>(errno));
    let two = seq![first, second];
    let three = seq![first, second, SpawnEvent::Unmapped];
    reveal_with_fuel(run, 4);
    assert(two.drop_first() =~= seq![second]);
    assert(seq![second].drop_first() =~= Seq::<SpawnEvent>::empty());
    assert(three.drop_first() =~= seq![second, SpawnEvent::Unmapped]);
    assert(seq![second, SpawnEvent::Unmapped].drop_first() =~= seq![SpawnEvent::Unmapped]);
    assert(seq![SpawnEvent::Unmapped].drop_first() =~= Seq::<SpawnEvent>::empty());
}

/// A process is only ever asked for on the top of a guarded stack and with
/// the isolating flags: the stack pointer is one past the mapping, above the
/// guard, and nothing is shared with the parent.
pub proof fn lemma_child_starts_on_top_of_guarded_stack(phase: Phase)
    requires
        phase_wf(phase),
        pending(phase) matches Some(SpawnAction::CreateProcess { .. }),
    ensures
        phase matches Phase::Cloning { base, len } && ({
            let stack = StackLayout::of(base as int, len as int);
            &&& stack.wf()
            &&& stack.top() <= usize::MAX
            &&& stack.guard_end() < stack.top()
            &&& stack.in_stack(stack.top() - 1)
            &&& pending(phase) == Some(
                SpawnAction::CreateProcess {
                    stack_top: stack.top() as usize,
                    flags: CloneFlags::isolated(),
                },
            )
        }),
{
}

/// A spawn that waits for a call can always go on: whatever the phase, the
/// failure of the pending call, or its completion where it cannot fail, is
/// an answer that is accepted.
pub proof fn lemma_every_pending_call_has_an_answer(phase: Phase)
    requires
        !is_terminal(phase),
    ensures
        exists|event: SpawnEvent| accepts(phase, event),
{
    match phase {
        Phase::Mapping { .. } => {
            assert(accepts(phase, SpawnEvent::Mapped(Err(0))));
        },
        Phase::Guarding { .. } => {
            assert(accepts(phase, SpawnEvent::Protected(Err(0))));
        },
        Phase::Cloning { .. } => {
            assert(accepts(phase, SpawnEvent::Cloned { ret: -1i32, errno: 0 }));
        },
        Phase::Releasing { .. } => {
            assert(accepts(phase, SpawnEvent::WorkReleased));
        },
        Phase::Unwinding { .. } => {
            assert(accepts(phase, SpawnEvent::Unmapped));
        },
        Phase::Spawned { .. } => {},
        Phase::Failed { .. } => {},
    }
}

/// The number of `events` that the play from `phase` uses.
pub open spec fn taken(phase: Phase, events: Seq<SpawnEvent>) -> nat
    decreases events.len(),
{
    if events.len() == 0 || !accepts(phase, events[0]) {
        0
    } else {
        1 + taken(next(phase, events[0]), events.drop_first())
    }
}

/// A spawn takes at most five answers: however long `events` is, the play
/// uses no more of them than the phase has steps left, and a phase has no
/// step left exactly when it is terminal.
pub proof fn lemma_spawn_ends_within_five_answers(phase: Phase, events: Seq<SpawnEvent>)
    ensures
        taken(phase, events) <= steps_left(phase) <= 5,
        steps_left(phase) == 0 <==> is_terminal(phase),
        is_terminal(phase) <==> pending(phase) is None,
    decreases events.len(),
{
    if events.len() != 0 && accepts(phase, events[0]) {
        lemma_spawn_ends_within_five_answers(next(phase, events[0]), events.drop_first());
    }
}

} // verus!
