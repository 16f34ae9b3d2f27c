use reactor_conditions::store::StateStore;

// The phases of the state-enum type the scenarios run on, as plain values.
const PHASE1: u64 = 0;
const PHASE2: u64 = 1;

// The committed value of this store stands for whether the one-shot
// follow-up action of a scenario has run: absent at first, present once the
// action's write has been committed.
const ABSENT: u64 = 0;
const PRESENT: u64 = 1;

#[test]
fn wait_until_state_becomes_phase2() {
    let mut phase: StateStore<u64> = StateStore::new(PHASE1);
    let mut exit: StateStore<u64> = StateStore::new(ABSENT);

    // The task awaits `becomes(PHASE2)` first, then a one-shot follow-up.
    let (_, wait_unit) = reactor_conditions::wait::state::becomes(PHASE2).into_parts();
    let (exit_input, mut exit_unit) = reactor_conditions::once::state::set(PRESENT).into_parts();

    // Tick 1: the state is still PHASE1, so the task stays parked on the
    // wait-unit and the follow-up action is never reached.
    assert_eq!(wait_unit.poll(&phase), None);
    exit.commit();
    assert!(*exit.read_current() == ABSENT);

    // The host replaces the state between ticks.
    phase.set_pending(PHASE2);
    phase.commit();

    // Tick 2: the wait-unit resolves, the task advances to the follow-up,
    // whose write is committed at the tick boundary.
    assert_eq!(wait_unit.poll(&phase), Some(()));
    assert_eq!(exit_unit.poll(&exit_input, &mut exit), Some(()));
    exit.commit();

    // Tick 3: the follow-up's effect is visible.
    assert!(*exit.read_current() == PRESENT);
}

#[test]
fn set_value_visible_at_next_commit_and_stable() {
    let mut store: StateStore<u64> = StateStore::new(3);
    let (input, mut unit) = reactor_conditions::once::state::set(7u64).into_parts();

    assert_eq!(unit.poll(&input, &mut store), Some(()));
    // The write is pending only: a read in the same tick sees the old value.
    assert_eq!(*store.read_current(), 3);
    store.commit();
    assert_eq!(*store.read_current(), 7);
    // With no further write, later commits never change the value again.
    for _ in 0..10 {
        store.commit();
        assert_eq!(*store.read_current(), 7);
    }
}

#[test]
fn once_action_runs_exactly_one_time() {
    let mut store: StateStore<u64> = StateStore::new(0);
    let (input, mut unit) = reactor_conditions::once::state::set(9u64).into_parts();

    // First poll: the action runs and the unit reports ready.
    assert_eq!(unit.poll(&input, &mut store), Some(()));
    assert_eq!(*store.read_pending(), Some(9));
    store.commit();

    // Every later poll is a no-op reporting not-yet: no second write ever
    // refills the pending slot.
    for _ in 0..100 {
        assert_eq!(unit.poll(&input, &mut store), None);
        assert_eq!(*store.read_pending(), None);
    }
    assert_eq!(*store.read_current(), 9);
}

#[test]
fn set_polled_many_times_writes_once() {
    let mut store: StateStore<u64> = StateStore::new(PHASE1);
    let (input, mut unit) = reactor_conditions::once::state::set(PHASE2).into_parts();

    // However often the owning task is polled before the commit point, the
    // store receives exactly one pending-value write.
    for polls in 0..100 {
        let out = unit.poll(&input, &mut store);
        assert_eq!(out, if polls == 0 { Some(()) } else { None });
        assert_eq!(*store.read_pending(), Some(PHASE2));
        assert_eq!(*store.read_current(), PHASE1);
    }
    store.commit();
    assert_eq!(*store.read_current(), PHASE2);
}

#[test]
fn becomes_reads_committed_value_only() {
    let mut store: StateStore<u64> = StateStore::new(PHASE1);
    let (_, unit) = reactor_conditions::wait::state::becomes(PHASE2).into_parts();

    // Not yet: the committed value differs from the target.
    assert_eq!(unit.poll(&store), None);

    // A write earlier in the same tick is still pending and does not count.
    store.set_pending(PHASE2);
    assert_eq!(unit.poll(&store), None);

    // After the host's commit the probe sees the new value.
    store.commit();
    assert_eq!(unit.poll(&store), Some(()));
}

#[test]
fn becomes_resolves_on_first_poll_if_already_equal() {
    let store: StateStore<u64> = StateStore::new(PHASE2);
    let (_, unit) = reactor_conditions::wait::state::becomes(PHASE2).into_parts();
    // No minimum suspension: already-true predicates resolve immediately,
    // and re-polling a resolved unit keeps answering ready.
    assert_eq!(unit.poll(&store), Some(()));
    assert_eq!(unit.poll(&store), Some(()));
}

#[test]
fn dependent_action_runs_only_after_resolution() {
    // State starts at PHASE1; tick 1 schedules `becomes(PHASE2)`, which is
    // not yet ready; an external action then sets the state; on tick 2 the
    // unit is ready, and only then may the dependent action run.
    let mut phase: StateStore<u64> = StateStore::new(PHASE1);
    let mut done: StateStore<u64> = StateStore::new(ABSENT);

    let (_, gate) = reactor_conditions::wait::state::becomes(PHASE2).into_parts();
    let (mark_input, mut mark) = reactor_conditions::once::state::set(PRESENT).into_parts();

    // Tick 1.
    assert_eq!(gate.poll(&phase), None);
    done.commit();
    assert_eq!(*done.read_current(), ABSENT);

    // External action between ticks.
    phase.set_pending(PHASE2);
    phase.commit();

    // Tick 2.
    assert_eq!(gate.poll(&phase), Some(()));
    assert_eq!(mark.poll(&mark_input, &mut done), Some(()));
    done.commit();
    assert_eq!(*done.read_current(), PRESENT);
}

#[test]
fn with_round_trip_returns_parts() {
    // The adapter is structurally transparent: whatever input and unit go
    // in come back out unchanged.
    let config = reactor_conditions::condition::with(42u64, 7u64);
    assert_eq!(config.input, 42);
    assert_eq!(config.unit, 7);
    let (input, unit) = config.into_parts();
    assert_eq!(input, 42);
    assert_eq!(unit, 7);

    // The same holds when the unit is a real condition unit: the extracted
    // unit is unmodified — still unfired, it polls exactly like a fresh one.
    let mut store: StateStore<u64> = StateStore::new(0);
    let (bound, mut unit) = reactor_conditions::once::state::set(5u64).into_parts();
    assert_eq!(bound, 5);
    assert_eq!(unit.poll(&bound, &mut store), Some(()));
    assert_eq!(*store.read_pending(), Some(5));
}
