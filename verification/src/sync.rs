//! The present-loop synchronizer.
//!
//! A double/triple-buffered render loop owns one *frame slot* per
//! presentable image.  Each slot remembers the completion signal (a fence)
//! of the most recent submission that targeted its image, so that the loop
//! never reuses a slot's resources while the device may still be consuming
//! them.  The loop itself performs the outside work — acquiring an image,
//! waiting on a fence, submitting and presenting — and reports each outcome
//! here; this module makes every decision: whether to rebuild the swapchain
//! before acquiring, whether the acquired slot must be waited on, whether
//! the new submission joins the previous cycle's signal, and how the
//! bookkeeping advances afterwards.

use vstd::prelude::*;

verus! {

/// What a frame slot knows about the completion signal of the last
/// submission that targeted its image.
#[derive(Clone, Copy, Debug, PartialEq, Eq, Structural)]
pub enum SlotState {
    /// No signal is held: the slot was never submitted to, or its last
    /// submission failed recoverably and the signal was discarded.
    Free,
    /// The slot holds a signal that has not yet been observed to resolve:
    /// the device may still be consuming the slot's resources.
    Pending { signal: u64 },
    /// The slot holds a signal that was waited on and has resolved: the
    /// slot's resources may be reused.
    Resolved { signal: u64 },
}

impl SlotState {
    /// The signal the slot holds, if any.
    pub open spec fn held_signal(self) -> Option<u64> {
        match self {
            SlotState::Free => None,
            SlotState::Pending { signal } => Some(signal),
            SlotState::Resolved { signal } => Some(signal),
        }
    }

    /// How many unresolved signals the slot holds: a slot holds at most one
    /// signal, so this is 1 exactly when that signal is unresolved.
    pub open spec fn unresolved_signals(self) -> nat {
        if self is Pending {
            1
        } else {
            0
        }
    }
}

/// Where the loop stands within the current cycle.
#[derive(Clone, Copy, Debug, PartialEq, Eq, Structural)]
pub enum Phase {
    /// Between cycles.
    Idle,
    /// The cycle has begun and any required rebuild is done; an image is
    /// being acquired from the presentation surface.
    Acquiring,
    /// An image was acquired; its slot's held signal, if unresolved, must
    /// resolve before the slot's resources are touched.
    WaitingOnSlot { index: usize },
    /// The slot is free of unresolved signals; the frame may be submitted
    /// and presented.
    Submitting { index: usize },
}

/// What the presentation surface reported for an acquisition.  Any other
/// failure is fatal and ends the loop without reaching the synchronizer.
#[derive(Clone, Copy, Debug, PartialEq, Eq, Structural)]
pub enum AcquireOutcome {
    /// An image was acquired.  `suboptimal` flags that the surface no longer
    /// matches the window exactly and a rebuild is advisable soon.
    Image { index: usize, suboptimal: bool },
    /// The surface no longer matches the window: nothing was acquired.
    OutOfDate,
}

/// What the device reported for a submission joined with presentation.  Any
/// other failure is fatal and ends the loop without reaching the
/// synchronizer.
#[derive(Clone, Copy, Debug, PartialEq, Eq, Structural)]
pub enum SubmitOutcome {
    /// The submission was flushed and produced a new completion signal.
    Signalled,
    /// The surface went out of date; no signal was produced.
    OutOfDate,
}

/// What must be rebuilt before the cycle acquires an image.
#[derive(Clone, Copy, Debug, PartialEq, Eq, Structural)]
pub enum RebuildAction {
    /// Acquire directly.
    NoRebuild,
    /// Recreate the swapchain and everything derived from its images.
    RebuildSwapchain,
    /// The window was resized: recreate the swapchain and also the
    /// viewport-dependent pipeline state.
    RebuildAll,
}

/// The directive issued once the acquisition outcome is known.
#[derive(Clone, Copy, Debug, PartialEq, Eq, Structural)]
pub enum AcquireStep {
    /// The surface was out of date: skip the rest of the cycle; the next
    /// cycle will rebuild first.
    SkipCycle,
    /// Proceed with the acquired slot; wait on its held signal first exactly
    /// when `must_wait` is set.
    WaitSlot { must_wait: bool },
}

/// The directive issued once the acquired slot is ready for submission.
#[derive(Clone, Copy, Debug, PartialEq, Eq, Structural)]
pub struct SubmitPlan {
    /// Join the new submission with the previous cycle's completion signal;
    /// when false (only before the first submission reaches the previous
    /// slot) an immediately-satisfied signal takes its place.
    pub join_previous: bool,
}

/// The synchronizer's abstract state.
#[verifier::ext_equal]
pub ghost struct SyncView {
    pub slots: Seq<SlotState>,
    pub previous_slot: int,
    pub needs_rebuild: bool,
    pub window_resized: bool,
    pub phase: Phase,
    pub submissions: int,
}

impl SyncView {
    /// Well-formedness: indices are in range; every held signal was produced
    /// by one of the past submissions; distinct slots hold distinct signals;
    /// and a slot being submitted to holds no unresolved signal.
    pub open spec fn wf(self) -> bool {
        &&& 1 <= self.slots.len()
        &&& 0 <= self.previous_slot < self.slots.len()
        &&& 0 <= self.submissions
        &&& match self.phase {
            Phase::Idle => true,
            Phase::Acquiring => true,
            Phase::WaitingOnSlot { index } => index < self.slots.len(),
            Phase::Submitting { index } => index < self.slots.len()
                && !(self.slots[index as int] is Pending),
        }
        &&& forall|i: int|
            0 <= i < self.slots.len() ==> ((#[trigger] self.slots[i]).held_signal() matches Some(s)
                ==> s < self.submissions)
        &&& forall|i: int, j: int|
            0 <= i < self.slots.len() && 0 <= j < self.slots.len() && i != j
                && (#[trigger] self.slots[i]).held_signal() is Some
                && (#[trigger] self.slots[j]).held_signal() is Some
                ==> self.slots[i].held_signal() != self.slots[j].held_signal()
    }
}

/// A pending signal resolves; anything else is left as it is.
pub open spec fn resolve(st: SlotState) -> SlotState {
    match st {
        SlotState::Pending { signal } => SlotState::Resolved { signal },
        _ => st,
    }
}

/// State after a cycle begins: both rebuild flags are consumed and an
/// acquisition is under way.
pub open spec fn next_of_begin_cycle(s: SyncView) -> SyncView {
    SyncView { phase: Phase::Acquiring, needs_rebuild: false, window_resized: false, ..s }
}

/// The rebuild the beginning cycle must perform: everything
/// viewport-dependent after a resize, the swapchain alone after an
/// out-of-date result, nothing otherwise.
pub open spec fn action_of_begin_cycle(s: SyncView) -> RebuildAction {
    if s.window_resized {
        RebuildAction::RebuildAll
    } else if s.needs_rebuild {
        RebuildAction::RebuildSwapchain
    } else {
        RebuildAction::NoRebuild
    }
}

/// State after the acquisition outcome is reported: an acquired image moves
/// the cycle onto its slot (a suboptimal surface marks a rebuild for later);
/// an out-of-date surface marks the rebuild and ends the cycle.
pub open spec fn next_of_handle_acquire(s: SyncView, outcome: AcquireOutcome) -> SyncView {
    match outcome {
        AcquireOutcome::Image { index, suboptimal } => SyncView {
            phase: Phase::WaitingOnSlot { index },
            needs_rebuild: s.needs_rebuild || suboptimal,
            ..s
        },
        AcquireOutcome::OutOfDate => SyncView { phase: Phase::Idle, needs_rebuild: true, ..s },
    }
}

/// The directive after acquisition: skip the cycle on an out-of-date
/// surface; otherwise wait exactly when the slot's held signal is
/// unresolved.
pub open spec fn action_of_handle_acquire(s: SyncView, outcome: AcquireOutcome) -> AcquireStep {
    match outcome {
        AcquireOutcome::Image { index, suboptimal } => AcquireStep::WaitSlot {
            must_wait: s.slots[index as int] is Pending,
        },
        AcquireOutcome::OutOfDate => AcquireStep::SkipCycle,
    }
}

/// State after the wait (if any) on the acquired slot: its signal, if it was
/// unresolved, has now resolved, and the frame may be submitted.
pub open spec fn next_of_slot_ready(s: SyncView) -> SyncView {
    match s.phase {
        Phase::WaitingOnSlot { index } => SyncView {
            phase: Phase::Submitting { index },
            slots: s.slots.update(index as int, resolve(s.slots[index as int])),
            ..s
        },
        _ => s,
    }
}

/// The submission joins the previous slot's signal exactly when that slot
/// holds one; on the very first cycles it holds none and an
/// immediately-satisfied signal is used instead.
pub open spec fn action_of_slot_ready(s: SyncView) -> SubmitPlan {
    SubmitPlan { join_previous: s.slots[s.previous_slot].held_signal() is Some }
}

/// State after the submission outcome is reported: a flushed submission
/// stores its fresh signal in the slot; an out-of-date result clears the
/// slot and marks the rebuild.  Either way the slot becomes the previous
/// slot and the cycle ends.
pub open spec fn next_of_complete_submission(s: SyncView, outcome: SubmitOutcome) -> SyncView {
    match s.phase {
        Phase::Submitting { index } => match outcome {
            SubmitOutcome::Signalled => SyncView {
                phase: Phase::Idle,
                slots: s.slots.update(
                    index as int,
                    SlotState::Pending { signal: s.submissions as u64 },
                ),
                submissions: s.submissions + 1,
                previous_slot: index as int,
                ..s
            },
            SubmitOutcome::OutOfDate => SyncView {
                phase: Phase::Idle,
                slots: s.slots.update(index as int, SlotState::Free),
                needs_rebuild: true,
                previous_slot: index as int,
                ..s
            },
        },
        _ => s,
    }
}

/// State after a resize notification: only the resized flag is raised.
pub open spec fn next_of_handle_window_resize(s: SyncView) -> SyncView {
    SyncView { window_resized: true, ..s }
}

/// The per-slot completion-signal bookkeeping of a present loop.
pub struct FrameSynchronizer {
    pub slots: Vec<SlotState>,
    pub previous_slot: usize,
    pub needs_rebuild: bool,
    pub window_resized: bool,
    pub phase: Phase,
    pub submissions: u64,
}

impl View for FrameSynchronizer {
    type V = SyncView;

    open spec fn view(&self) -> SyncView {
        SyncView {
            slots: self.slots@,
            previous_slot: self.previous_slot as int,
            needs_rebuild: self.needs_rebuild,
            window_resized: self.window_resized,
            phase: self.phase,
            submissions: self.submissions as int,
        }
    }
}

impl FrameSynchronizer {
    /// A fresh synchronizer: one free slot per presentable image, no rebuild
    /// owed, previous slot 0, between cycles.
    pub fn new(slot_count: usize) -> (r: FrameSynchronizer)
        requires
            1 <= slot_count,
        ensures
            r@.wf(),
            r@.slots.len() == slot_count,
            forall|i: int| 0 <= i < slot_count ==> r@.slots[i] is Free,
            r@.previous_slot == 0,
            !r@.needs_rebuild,
            !r@.window_resized,
            r@.phase is Idle,
            r@.submissions == 0,
    {
        let mut slots: Vec<SlotState> = Vec::new();
        let mut i: usize = 0;
        while i < slot_count
            invariant
                i <= slot_count,
                slots@.len() == i,
                forall|j: int| 0 <= j < i ==> slots@[j] is Free,
            decreases slot_count - i,
        {
            slots.push(SlotState::Free);
            i = i + 1;
        }
        FrameSynchronizer {
            slots,
            previous_slot: 0,
            needs_rebuild: false,
            window_resized: false,
            phase: Phase::Idle,
            submissions: 0,
        }
    }

    /// The window system reported a resize.  Only the resized flag is
    /// raised; a cycle already past acquisition is not interrupted, and the
    /// rebuild is performed when the next cycle begins.
    pub fn handle_window_resize(&mut self)
        ensures
            final(self)@ == next_of_handle_window_resize(old(self)@),
            old(self)@.wf() ==> final(self)@.wf(),
    {
        self.window_resized = true;
    }

    /// Begin a cycle: consume the rebuild flags and report which rebuild to
    /// perform before acquiring an image.
    pub fn begin_cycle(&mut self) -> (r: RebuildAction)
        requires
            old(self)@.wf(),
            old(self)@.phase is Idle,
        ensures
            final(self)@ == next_of_begin_cycle(old(self)@),
            r == action_of_begin_cycle(old(self)@),
            final(self)@.wf(),
    {
        let r = if self.window_resized {
            RebuildAction::RebuildAll
        } else if self.needs_rebuild {
            RebuildAction::RebuildSwapchain
        } else {
            RebuildAction::NoRebuild
        };
        self.window_resized = false;
        self.needs_rebuild = false;
        self.phase = Phase::Acquiring;
        r
    }

    /// Report what the acquisition returned.  An out-of-date surface sets
    /// the rebuild flag and skips the cycle; an acquired image yields the
    /// wait directive for its slot (and a suboptimal surface additionally
    /// sets the rebuild flag for the next cycle).
    pub fn handle_acquire(&mut self, outcome: AcquireOutcome) -> (r: AcquireStep)
        requires
            old(self)@.wf(),
            old(self)@.phase is Acquiring,
            outcome matches AcquireOutcome::Image { index, .. } ==> index < old(
                self,
            )@.slots.len(),
        ensures
            final(self)@ == next_of_handle_acquire(old(self)@, outcome),
            r == action_of_handle_acquire(old(self)@, outcome),
            final(self)@.wf(),
    {
        match outcome {
            AcquireOutcome::Image { index, suboptimal } => {
                if suboptimal {
                    self.needs_rebuild = true;
                }
                self.phase = Phase::WaitingOnSlot { index };
                let must_wait = matches!(self.slots[index], SlotState::Pending { .. });
                AcquireStep::WaitSlot { must_wait }
            },
            AcquireOutcome::OutOfDate => {
                self.needs_rebuild = true;
                self.phase = Phase::Idle;
                AcquireStep::SkipCycle
            },
        }
    }

    /// The wait directive was carried out: the acquired slot's signal, if it
    /// was unresolved, has resolved.  Reports whether the submission joins
    /// the previous slot's signal.
    pub fn slot_ready(&mut self) -> (r: SubmitPlan)
        requires
            old(self)@.wf(),
            old(self)@.phase is WaitingOnSlot,
        ensures
            final(self)@ == next_of_slot_ready(old(self)@),
            r == action_of_slot_ready(old(self)@),
            final(self)@.wf(),
            final(self)@.phase is Submitting,
    {
        let index = if let Phase::WaitingOnSlot { index } = self.phase {
            index
        } else {
            assert(false);
            0
        };
        let st = self.slots[index];
        if let SlotState::Pending { signal } = st {
            self.slots[index] = SlotState::Resolved { signal };
        }
        self.phase = Phase::Submitting { index };
        let join_previous = !matches!(self.slots[self.previous_slot], SlotState::Free);
        proof {
            assert(self@.slots =~= next_of_slot_ready(old(self)@).slots);
        }
        SubmitPlan { join_previous }
    }

    /// Report what the submission returned.  A flushed submission stores its
    /// fresh completion signal in the slot; an out-of-date result clears the
    /// slot and sets the rebuild flag.  Either way the slot becomes the
    /// previous slot and the cycle ends.
    pub fn complete_submission(&mut self, outcome: SubmitOutcome)
        requires
            old(self)@.wf(),
            old(self)@.phase is Submitting,
            old(self)@.submissions < u64::MAX,
        ensures
            final(self)@ == next_of_complete_submission(old(self)@, outcome),
            final(self)@.wf(),
            final(self)@.phase is Idle,
    {
        let index = if let Phase::Submitting { index } = self.phase {
            index
        } else {
            assert(false);
            0
        };
        match outcome {
            SubmitOutcome::Signalled => {
                self.slots[index] = SlotState::Pending { signal: self.submissions };
                self.submissions = self.submissions + 1;
            },
            SubmitOutcome::OutOfDate => {
                self.slots[index] = SlotState::Free;
                self.needs_rebuild = true;
            },
        }
        self.previous_slot = index;
        self.phase = Phase::Idle;
        proof {
            assert(self@.slots =~= next_of_complete_submission(old(self)@, outcome).slots);
        }
    }
}

/// In every well-formed state, each frame slot holds at most one unresolved
/// completion signal, and the signals held by distinct slots are distinct:
/// no signal is accounted to two slots, and none is duplicated within one.
pub proof fn lemma_at_most_one_unresolved_signal(v: SyncView)
    requires
        v.wf(),
    ensures
        forall|i: int| 0 <= i < v.slots.len() ==> (#[trigger] v.slots[i]).unresolved_signals() <= 1,
        forall|i: int, j: int|
            0 <= i < v.slots.len() && 0 <= j < v.slots.len() && i != j
                && (#[trigger] v.slots[i]).held_signal() is Some
                && (#[trigger] v.slots[j]).held_signal() is Some
                ==> v.slots[i].held_signal() != v.slots[j].held_signal(),
{
}

/// A submission is only ever in flight for a slot whose previously held
/// signal has resolved or was discarded: the slot's resources are never
/// touched by a new submission while its old signal is unresolved.
pub proof fn lemma_submission_waits_for_slot(v: SyncView)
    requires
        v.wf(),
    ensures
        v.phase matches Phase::Submitting { index } ==> !(v.slots[index as int] is Pending),
        v.phase matches Phase::WaitingOnSlot { index } ==> !(
        next_of_slot_ready(v).slots[index as int] is Pending),
{
}

/// An out-of-date acquisition submits nothing: the directive is to skip the
/// cycle, no slot and no submission count changes, the rebuild flag is set,
/// and the next cycle performs a rebuild and then re-attempts acquisition.
pub proof fn lemma_out_of_date_skips_cycle(v: SyncView)
    requires
        v.wf(),
        v.phase is Acquiring,
    ensures
        ({
            let after = next_of_handle_acquire(v, AcquireOutcome::OutOfDate);
            &&& action_of_handle_acquire(v, AcquireOutcome::OutOfDate) is SkipCycle
            &&& after.needs_rebuild
            &&& after.phase is Idle
            &&& after.slots == v.slots
            &&& after.submissions == v.submissions
            &&& !(action_of_begin_cycle(after) is NoRebuild)
            &&& next_of_begin_cycle(after).phase is Acquiring
        }),
{
}

/// A resize notification received mid-loop defers the rebuild to the start
/// of the next cycle: it raises only the resized flag, so the phase, the
/// slots and the submission count are untouched, every remaining directive
/// and slot update of the current cycle is unchanged, and the next cycle
/// begins with the full rebuild.
pub proof fn lemma_resize_defers_rebuild(v: SyncView, s: SubmitOutcome, a: AcquireOutcome)
    requires
        v.wf(),
    ensures
        ({
            let w = next_of_handle_window_resize(v);
            &&& w.phase == v.phase
            &&& w.slots == v.slots
            &&& w.previous_slot == v.previous_slot
            &&& w.needs_rebuild == v.needs_rebuild
            &&& w.submissions == v.submissions
            &&& action_of_handle_acquire(w, a) == action_of_handle_acquire(v, a)
            &&& action_of_slot_ready(w) == action_of_slot_ready(v)
            &&& next_of_slot_ready(w).slots == next_of_slot_ready(v).slots
            &&& next_of_complete_submission(w, s).slots == next_of_complete_submission(v, s).slots
            &&& action_of_begin_cycle(w) == RebuildAction::RebuildAll
        }),
{
}

} // verus!
