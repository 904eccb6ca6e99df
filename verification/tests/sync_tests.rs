use present_loop::sync::{
    AcquireOutcome, AcquireStep, FrameSynchronizer, Phase, RebuildAction, SlotState, SubmitOutcome,
};

/// Drive one full successful cycle on `index` and return the wait directive
/// it was given.
fn run_cycle(fs: &mut FrameSynchronizer, index: usize) -> AcquireStep {
    let rebuild = fs.begin_cycle();
    assert_eq!(rebuild, RebuildAction::NoRebuild);
    let step = fs.handle_acquire(AcquireOutcome::Image { index, suboptimal: false });
    let _plan = fs.slot_ready();
    fs.complete_submission(SubmitOutcome::Signalled);
    step
}

#[test]
fn first_cycles_never_wait_fourth_waits() {
    // With 3 slots all initially empty, the first 3 cycles never block on
    // the slot wait; the 4th cycle, reusing an index, must wait for that
    // index's signal.
    let mut fs = FrameSynchronizer::new(3);
    for index in 0..3 {
        let step = run_cycle(&mut fs, index);
        assert_eq!(step, AcquireStep::WaitSlot { must_wait: false });
    }
    let step = run_cycle(&mut fs, 0);
    assert_eq!(step, AcquireStep::WaitSlot { must_wait: true });
}

#[test]
fn first_submission_joins_no_previous_signal() {
    let mut fs = FrameSynchronizer::new(2);
    fs.begin_cycle();
    fs.handle_acquire(AcquireOutcome::Image { index: 0, suboptimal: false });
    let plan = fs.slot_ready();
    assert!(!plan.join_previous);
    fs.complete_submission(SubmitOutcome::Signalled);

    fs.begin_cycle();
    fs.handle_acquire(AcquireOutcome::Image { index: 1, suboptimal: false });
    let plan = fs.slot_ready();
    assert!(plan.join_previous);
    fs.complete_submission(SubmitOutcome::Signalled);
}

#[test]
fn out_of_date_acquire_submits_nothing_and_rebuilds() {
    // An acquisition returning "out of date" on cycle K results in zero
    // submissions for cycle K and a rebuild before cycle K+1's acquisition.
    let mut fs = FrameSynchronizer::new(3);
    run_cycle(&mut fs, 0);
    let submissions_before = fs.submissions;
    let slots_before = fs.slots.clone();

    let rebuild = fs.begin_cycle();
    assert_eq!(rebuild, RebuildAction::NoRebuild);
    let step = fs.handle_acquire(AcquireOutcome::OutOfDate);
    assert_eq!(step, AcquireStep::SkipCycle);
    assert_eq!(fs.submissions, submissions_before);
    assert_eq!(fs.slots, slots_before);
    assert!(fs.needs_rebuild);
    assert!(matches!(fs.phase, Phase::Idle));

    let rebuild = fs.begin_cycle();
    assert_eq!(rebuild, RebuildAction::RebuildSwapchain);
    assert!(matches!(fs.phase, Phase::Acquiring));
}

#[test]
fn suboptimal_acquire_finishes_cycle_then_rebuilds() {
    let mut fs = FrameSynchronizer::new(2);
    fs.begin_cycle();
    let step = fs.handle_acquire(AcquireOutcome::Image { index: 0, suboptimal: true });
    assert_eq!(step, AcquireStep::WaitSlot { must_wait: false });
    fs.slot_ready();
    fs.complete_submission(SubmitOutcome::Signalled);
    assert!(matches!(fs.slots[0], SlotState::Pending { .. }));

    let rebuild = fs.begin_cycle();
    assert_eq!(rebuild, RebuildAction::RebuildSwapchain);
}

#[test]
fn out_of_date_submission_clears_slot_and_rebuilds() {
    let mut fs = FrameSynchronizer::new(2);
    fs.begin_cycle();
    fs.handle_acquire(AcquireOutcome::Image { index: 1, suboptimal: false });
    fs.slot_ready();
    fs.complete_submission(SubmitOutcome::OutOfDate);
    assert_eq!(fs.slots[1], SlotState::Free);
    assert_eq!(fs.previous_slot, 1);
    assert!(fs.needs_rebuild);

    let rebuild = fs.begin_cycle();
    assert_eq!(rebuild, RebuildAction::RebuildSwapchain);
}

#[test]
fn resize_mid_cycle_defers_rebuild_to_next_cycle() {
    // A resize notification received past acquisition changes nothing of
    // the running cycle; the full rebuild comes when the next cycle begins.
    let mut fs = FrameSynchronizer::new(3);
    fs.begin_cycle();
    fs.handle_acquire(AcquireOutcome::Image { index: 0, suboptimal: false });
    let phase_before = fs.phase;
    let slots_before = fs.slots.clone();
    fs.handle_window_resize();
    assert_eq!(fs.phase, phase_before);
    assert_eq!(fs.slots, slots_before);
    let plan = fs.slot_ready();
    assert!(!plan.join_previous);
    fs.complete_submission(SubmitOutcome::Signalled);
    assert!(matches!(fs.slots[0], SlotState::Pending { .. }));

    let rebuild = fs.begin_cycle();
    assert_eq!(rebuild, RebuildAction::RebuildAll);
    assert!(!fs.window_resized);
    assert!(!fs.needs_rebuild);
}

#[test]
fn resize_wins_over_pending_swapchain_rebuild() {
    // A resize subsumes a pending swapchain rebuild: both flags are
    // consumed by the one full rebuild.
    let mut fs = FrameSynchronizer::new(2);
    fs.begin_cycle();
    fs.handle_acquire(AcquireOutcome::OutOfDate);
    fs.handle_window_resize();
    let rebuild = fs.begin_cycle();
    assert_eq!(rebuild, RebuildAction::RebuildAll);
    assert!(!fs.needs_rebuild);
}

#[test]
fn signals_are_distinct_across_slots() {
    let mut fs = FrameSynchronizer::new(3);
    for index in 0..3 {
        run_cycle(&mut fs, index);
    }
    let mut signals: Vec<u64> = Vec::new();
    for slot in fs.slots.iter() {
        match slot {
            SlotState::Pending { signal } => signals.push(*signal),
            SlotState::Resolved { signal } => signals.push(*signal),
            SlotState::Free => {}
        }
    }
    assert_eq!(signals.len(), 3);
    signals.sort();
    signals.dedup();
    assert_eq!(signals.len(), 3);
}
