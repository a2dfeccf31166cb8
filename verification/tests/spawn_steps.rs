use clone_spawn::layout::{PAGE_SIZE, STACK_SIZE};
use clone_spawn::spawn::{CloneFlags, Phase, SpawnAction, SpawnError, SpawnEvent, Spawner, Step};

const BASE: usize = 0x7f00_0000;

fn started(size: usize) -> (Spawner, SpawnAction) {
    match Spawner::begin(size) {
        Step::Continue(spawner, action) => (spawner, action),
        Step::Finished(result) => panic!("ended at once with {:?}", result),
    }
}

fn go_on(step: Step) -> (Spawner, SpawnAction) {
    match step {
        Step::Continue(spawner, action) => (spawner, action),
        Step::Finished(result) => panic!("ended with {:?}", result),
    }
}

fn answer(spawner: Spawner, event: SpawnEvent) -> Step {
    assert!(spawner.accepts(&event));
    spawner.step(event)
}

/// Plays the answers and returns the calls that were asked for, in order,
/// with the result of the spawn.
fn play(size: usize, answers: &[SpawnEvent]) -> (Vec<SpawnAction>, Result<(i32, usize, usize), SpawnError>) {
    let mut asked = Vec::new();
    let mut step = Spawner::begin(size);
    let mut at = 0;
    loop {
        match step {
            Step::Finished(result) => {
                assert_eq!(at, answers.len());
                return (asked, result.map(|h| (h.pid(), h.stack().base(), h.stack().len())));
            }
            Step::Continue(spawner, action) => {
                assert_eq!(spawner.pending(), action);
                asked.push(action);
                step = answer(spawner, answers[at]);
                at += 1;
            }
        }
    }
}

fn isolated() -> CloneFlags {
    CloneFlags { signal_parent_on_exit: true, share_with_parent: false }
}

#[test]
fn flags_of_a_spawn_isolate_the_child() {
    assert_eq!(CloneFlags::new_isolated(), isolated());
    assert!(CloneFlags::new_isolated().signal_parent_on_exit);
    assert!(!CloneFlags::new_isolated().share_with_parent);
}

#[test]
fn spawn_begins_by_mapping_the_requested_size() {
    let (spawner, action) = started(STACK_SIZE);
    assert_eq!(action, SpawnAction::MapStack { len: 512_000 });
    assert_eq!(spawner.phase(), Phase::Mapping { len: 512_000 });
    assert_eq!(spawner.pending(), SpawnAction::MapStack { len: 512_000 });
}

#[test]
fn invalid_sizes_are_rejected_before_any_call() {
    for size in [0, 1, PAGE_SIZE - 1, PAGE_SIZE, PAGE_SIZE + 1, STACK_SIZE + 1, usize::MAX] {
        match Spawner::begin(size) {
            Step::Finished(Err(SpawnError::InvalidStackSize)) => {}
            other => panic!("size {} gave {:?}", size, other),
        }
    }
}

#[test]
fn mapped_stack_gets_its_lowest_page_protected() {
    let (spawner, _) = started(STACK_SIZE);
    let (spawner, action) = go_on(answer(spawner, SpawnEvent::Mapped(Ok(BASE))));
    assert_eq!(action, SpawnAction::ProtectGuard { addr: BASE, len: 4096 });
    assert_eq!(spawner.phase(), Phase::Guarding { base: BASE, len: 512_000 });
}

#[test]
fn process_is_created_on_top_of_the_guarded_stack() {
    let (spawner, _) = started(STACK_SIZE);
    let (spawner, _) = go_on(answer(spawner, SpawnEvent::Mapped(Ok(BASE))));
    let (spawner, action) = go_on(answer(spawner, SpawnEvent::Protected(Ok(()))));
    assert_eq!(action, SpawnAction::CreateProcess { stack_top: BASE + 512_000, flags: isolated() });
    assert_eq!(spawner.phase(), Phase::Cloning { base: BASE, len: 512_000 });
}

#[test]
fn process_shares_nothing_and_signals_its_parent() {
    let (asked, _) = play(
        STACK_SIZE,
        &[
            SpawnEvent::Mapped(Ok(BASE)),
            SpawnEvent::Protected(Ok(())),
            SpawnEvent::Cloned { ret: 77, errno: 0 },
            SpawnEvent::WorkReleased,
        ],
    );
    match asked[2] {
        SpawnAction::CreateProcess { flags, .. } => {
            assert!(flags.signal_parent_on_exit);
            assert!(!flags.share_with_parent);
        }
        other => panic!("asked for {:?}", other),
    }
}

#[test]
fn successful_spawn_asks_for_four_calls_and_gives_the_handle() {
    let (asked, result) = play(
        STACK_SIZE,
        &[
            SpawnEvent::Mapped(Ok(BASE)),
            SpawnEvent::Protected(Ok(())),
            SpawnEvent::Cloned { ret: 4242, errno: 0 },
            SpawnEvent::WorkReleased,
        ],
    );
    assert_eq!(
        asked,
        vec![
            SpawnAction::MapStack { len: 512_000 },
            SpawnAction::ProtectGuard { addr: BASE, len: 4096 },
            SpawnAction::CreateProcess { stack_top: BASE + 512_000, flags: isolated() },
            SpawnAction::ReleaseWork,
        ]
    );
    assert_eq!(result, Ok((4242, BASE, 512_000)));
}

#[test]
fn stale_error_code_is_ignored_when_a_child_was_made() {
    let (_, result) = play(
        2 * PAGE_SIZE,
        &[
            SpawnEvent::Mapped(Ok(BASE)),
            SpawnEvent::Protected(Ok(())),
            SpawnEvent::Cloned { ret: 1, errno: 11 },
            SpawnEvent::WorkReleased,
        ],
    );
    assert_eq!(result, Ok((1, BASE, 8192)));
}

#[test]
fn largest_identifier_is_a_child() {
    let (_, result) = play(
        2 * PAGE_SIZE,
        &[
            SpawnEvent::Mapped(Ok(0)),
            SpawnEvent::Protected(Ok(())),
            SpawnEvent::Cloned { ret: i32::MAX, errno: 0 },
            SpawnEvent::WorkReleased,
        ],
    );
    assert_eq!(result, Ok((i32::MAX, 0, 8192)));
}

#[test]
fn mapping_failure_gives_allocation_failed_and_never_creates_a_process() {
    let (asked, result) = play(STACK_SIZE, &[SpawnEvent::Mapped(Err(12))]);
    assert_eq!(asked, vec![SpawnAction::MapStack { len: 512_000 }]);
    assert_eq!(result, Err(SpawnError::AllocationFailed(12)));
}

#[test]
fn guard_failure_releases_the_mapping_before_it_is_reported() {
    let (asked, result) = play(
        STACK_SIZE,
        &[SpawnEvent::Mapped(Ok(BASE)), SpawnEvent::Protected(Err(13)), SpawnEvent::Unmapped],
    );
    assert_eq!(
        asked,
        vec![
            SpawnAction::MapStack { len: 512_000 },
            SpawnAction::ProtectGuard { addr: BASE, len: 4096 },
            SpawnAction::UnmapStack { addr: BASE, len: 512_000 },
        ]
    );
    assert_eq!(result, Err(SpawnError::GuardInstallFailed(13)));
}

#[test]
fn guard_failure_waits_for_the_release() {
    let (spawner, _) = started(STACK_SIZE);
    let (spawner, _) = go_on(answer(spawner, SpawnEvent::Mapped(Ok(BASE))));
    let (spawner, _) = go_on(answer(spawner, SpawnEvent::Protected(Err(13))));
    assert_eq!(
        spawner.phase(),
        Phase::Unwinding { base: BASE, len: 512_000, error: SpawnError::GuardInstallFailed(13) }
    );
}

#[test]
fn clone_failure_releases_the_work_and_then_the_stack() {
    let (asked, result) = play(
        STACK_SIZE,
        &[
            SpawnEvent::Mapped(Ok(BASE)),
            SpawnEvent::Protected(Ok(())),
            SpawnEvent::Cloned { ret: -1, errno: 11 },
            SpawnEvent::WorkReleased,
            SpawnEvent::Unmapped,
        ],
    );
    assert_eq!(
        asked,
        vec![
            SpawnAction::MapStack { len: 512_000 },
            SpawnAction::ProtectGuard { addr: BASE, len: 4096 },
            SpawnAction::CreateProcess { stack_top: BASE + 512_000, flags: isolated() },
            SpawnAction::ReleaseWork,
            SpawnAction::UnmapStack { addr: BASE, len: 512_000 },
        ]
    );
    assert_eq!(result, Err(SpawnError::SpawnFailed(11)));
}

#[test]
fn work_is_released_after_the_call_whether_or_not_it_made_a_child() {
    for (ret, child) in [(-1, Err(11)), (9, Ok(9))] {
        let (spawner, _) = started(STACK_SIZE);
        let (spawner, _) = go_on(answer(spawner, SpawnEvent::Mapped(Ok(BASE))));
        let (spawner, _) = go_on(answer(spawner, SpawnEvent::Protected(Ok(()))));
        let (spawner, action) = go_on(answer(spawner, SpawnEvent::Cloned { ret, errno: 11 }));
        assert_eq!(action, SpawnAction::ReleaseWork);
        assert_eq!(spawner.phase(), Phase::Releasing { base: BASE, len: 512_000, child });
    }
}

#[test]
fn no_spawn_takes_more_than_five_answers() {
    let longest = [
        SpawnEvent::Mapped(Ok(BASE)),
        SpawnEvent::Protected(Ok(())),
        SpawnEvent::Cloned { ret: -1, errno: 1 },
        SpawnEvent::WorkReleased,
        SpawnEvent::Unmapped,
    ];
    let (asked, _) = play(STACK_SIZE, &longest);
    assert_eq!(asked.len(), 5);
}

#[test]
fn only_the_answer_to_the_pending_call_is_accepted() {
    let every = [
        SpawnEvent::Mapped(Ok(BASE)),
        SpawnEvent::Mapped(Err(12)),
        SpawnEvent::Protected(Ok(())),
        SpawnEvent::Protected(Err(13)),
        SpawnEvent::Unmapped,
        SpawnEvent::Cloned { ret: 5, errno: 0 },
        SpawnEvent::Cloned { ret: -1, errno: 11 },
        SpawnEvent::WorkReleased,
    ];
    let accepted = |spawner: &Spawner| -> Vec<bool> { every.iter().map(|e| spawner.accepts(e)).collect() };

    let (spawner, _) = started(STACK_SIZE);
    assert_eq!(accepted(&spawner), [true, true, false, false, false, false, false, false]);
    let (spawner, _) = go_on(answer(spawner, SpawnEvent::Mapped(Ok(BASE))));
    assert_eq!(accepted(&spawner), [false, false, true, true, false, false, false, false]);
    let (spawner, _) = go_on(answer(spawner, SpawnEvent::Protected(Ok(()))));
    assert_eq!(accepted(&spawner), [false, false, false, false, false, true, true, false]);
    let (spawner, _) = go_on(answer(spawner, SpawnEvent::Cloned { ret: -1, errno: 11 }));
    assert_eq!(accepted(&spawner), [false, false, false, false, false, false, false, true]);
    let (spawner, _) = go_on(answer(spawner, SpawnEvent::WorkReleased));
    assert_eq!(accepted(&spawner), [false, false, false, false, true, false, false, false]);
}

#[test]
fn undocumented_return_values_of_the_call_are_not_accepted() {
    let (spawner, _) = started(STACK_SIZE);
    let (spawner, _) = go_on(answer(spawner, SpawnEvent::Mapped(Ok(BASE))));
    let (spawner, _) = go_on(answer(spawner, SpawnEvent::Protected(Ok(()))));
    for ret in [0, -2, -11, i32::MIN] {
        assert!(!spawner.accepts(&SpawnEvent::Cloned { ret, errno: 0 }));
    }
    for ret in [-1, 1, 2, 4242, i32::MAX] {
        assert!(spawner.accepts(&SpawnEvent::Cloned { ret, errno: 0 }));
    }
}

#[test]
fn mapping_that_cannot_hold_the_stack_is_not_accepted() {
    let (spawner, _) = started(2 * PAGE_SIZE);
    assert!(!spawner.accepts(&SpawnEvent::Mapped(Ok(BASE + 1))));
    assert!(!spawner.accepts(&SpawnEvent::Mapped(Ok(BASE + 2048))));
    assert!(!spawner.accepts(&SpawnEvent::Mapped(Ok(usize::MAX))));
    assert!(!spawner.accepts(&SpawnEvent::Mapped(Ok(usize::MAX - (PAGE_SIZE - 1)))));
    assert!(spawner.accepts(&SpawnEvent::Mapped(Ok(usize::MAX - (PAGE_SIZE - 1) - 2 * PAGE_SIZE))));
    assert!(spawner.accepts(&SpawnEvent::Mapped(Ok(BASE))));
}

#[test]
fn every_error_code_is_carried_unchanged() {
    for errno in [i32::MIN, -1, 0, 1, 12, i32::MAX] {
        let (_, result) = play(STACK_SIZE, &[SpawnEvent::Mapped(Err(errno))]);
        assert_eq!(result, Err(SpawnError::AllocationFailed(errno)));
        let (_, result) = play(
            STACK_SIZE,
            &[SpawnEvent::Mapped(Ok(BASE)), SpawnEvent::Protected(Err(errno)), SpawnEvent::Unmapped],
        );
        assert_eq!(result, Err(SpawnError::GuardInstallFailed(errno)));
        let (_, result) = play(
            STACK_SIZE,
            &[
                SpawnEvent::Mapped(Ok(BASE)),
                SpawnEvent::Protected(Ok(())),
                SpawnEvent::Cloned { ret: -1, errno },
                SpawnEvent::WorkReleased,
                SpawnEvent::Unmapped,
            ],
        );
        assert_eq!(result, Err(SpawnError::SpawnFailed(errno)));
    }
}

#[test]
fn error_code_of_each_kind_of_failure() {
    assert_eq!(SpawnError::InvalidStackSize.code(), None);
    assert_eq!(SpawnError::AllocationFailed(12).code(), Some(12));
    assert_eq!(SpawnError::GuardInstallFailed(13).code(), Some(13));
    assert_eq!(SpawnError::SpawnFailed(11).code(), Some(11));
}

#[test]
fn spawns_do_not_share_state() {
    let (first, _) = started(2 * PAGE_SIZE);
    let (second, _) = started(4 * PAGE_SIZE);
    let (first, _) = go_on(answer(first, SpawnEvent::Mapped(Ok(BASE))));
    assert_eq!(second.phase(), Phase::Mapping { len: 4 * PAGE_SIZE });
    let (second, _) = go_on(answer(second, SpawnEvent::Mapped(Ok(2 * BASE))));
    assert_eq!(first.phase(), Phase::Guarding { base: BASE, len: 2 * PAGE_SIZE });
    assert_eq!(second.phase(), Phase::Guarding { base: 2 * BASE, len: 4 * PAGE_SIZE });
}
