//! How many tasks a worker runs at once: each of them holds a permit, and there are only so many.
use vstd::prelude::*;

use crate::pump::Visit;
use crate::worker::{Worker, WorkerStats};

verus! {

/// What becomes of a worker's permits.
pub ghost enum PermitStep {
    /// A new visit to the collection begins; the one before has ended, and a permit that it still
    /// held is free again.
    VisitBegun,
    /// The visit asks for a permit, and gets one or does not.
    Asked { granted: bool },
    /// The claim that the visit makes has brought a task, which is run, or none.
    Claimed { found: bool },
    /// A task has ended.
    TaskEnded,
}

/// Who holds the permits of a worker: the visit that is under way, and the tasks that were handed out
/// to be run and have not ended.
pub ghost struct Occupancy {
    pub max_inflight: nat,
    pub visit: Visit,
    pub running: nat,
}

impl Occupancy {
    /// The worker at its start: no task runs.
    pub open spec fn empty(max_inflight: nat) -> Occupancy {
        Occupancy { max_inflight, visit: Visit::fresh(), running: 0 }
    }

    /// The number of permits that are held.
    pub open spec fn held(self) -> nat {
        if self.visit.holds_permit {
            self.running + 1
        } else {
            self.running
        }
    }

    /// The number of permits that are free.
    pub open spec fn available(self) -> int {
        self.max_inflight - self.held()
    }

    /// Whether a step can come next: a permit is granted only while one is free, a claim is made only
    /// under a permit, and only what runs can end.
    pub open spec fn admits(self, step: PermitStep) -> bool {
        match step {
            PermitStep::VisitBegun => true,
            PermitStep::Asked { granted } => granted ==> self.available() > 0,
            PermitStep::Claimed { .. } => self.visit.holds_permit,
            PermitStep::TaskEnded => self.running > 0,
        }
    }

    /// Who holds the permits after a step: a claimed task takes over the permit of the visit and
    /// holds it until it ends.
    pub open spec fn after(self, step: PermitStep) -> Occupancy {
        match step {
            PermitStep::VisitBegun => Occupancy { visit: Visit::fresh(), ..self },
            PermitStep::Asked { granted } => Occupancy {
                visit: self.visit.permitted(granted),
                ..self
            },
            PermitStep::Claimed { found } => Occupancy {
                visit: self.visit.claimed(found),
                running: if found {
                    self.running + 1
                } else {
                    self.running
                },
                ..self
            },
            PermitStep::TaskEnded => Occupancy { running: (self.running - 1) as nat, ..self },
        }
    }

    /// Who holds the permits after several steps.
    pub open spec fn after_all(self, steps: Seq<PermitStep>) -> Occupancy
        decreases steps.len(),
    {
        if steps.len() == 0 {
            self
        } else {
            self.after_all(steps.drop_last()).after(steps.last())
        }
    }

    /// Whether these steps can come one after the other.
    pub open spec fn admits_all(self, steps: Seq<PermitStep>) -> bool {
        forall|i: int|
            0 <= i < steps.len() ==> self.after_all(#[trigger] steps.take(i)).admits(steps[i])
    }
}

/// No step hands out more permits than there are.
proof fn step_keeps_within_bounds(occupancy: Occupancy, step: PermitStep)
    requires
        occupancy.held() <= occupancy.max_inflight,
        occupancy.admits(step),
    ensures
        occupancy.after(step).held() <= occupancy.max_inflight,
        occupancy.after(step).max_inflight == occupancy.max_inflight,
{
}

proof fn steps_keep_within_bounds(max_inflight: nat, steps: Seq<PermitStep>)
    requires
        Occupancy::empty(max_inflight).admits_all(steps),
    ensures
        ({
            let occupancy = Occupancy::empty(max_inflight).after_all(steps);
            &&& occupancy.max_inflight == max_inflight
            &&& occupancy.held() <= max_inflight
        }),
    decreases steps.len(),
{
    let empty = Occupancy::empty(max_inflight);
    if steps.len() > 0 {
        let earlier = steps.drop_last();
        assert forall|i: int| 0 <= i < earlier.len() implies empty.after_all(
            #[trigger] earlier.take(i),
        ).admits(earlier[i]) by {
            assert(earlier.take(i) =~= steps.take(i));
        }
        steps_keep_within_bounds(max_inflight, earlier);
        assert(steps.take(steps.len() - 1) =~= earlier);
        step_keeps_within_bounds(empty.after_all(earlier), steps.last());
    }
}

/// A worker runs no more tasks at once than it was told to: at every moment at most `max_inflight` of
/// the tasks that were handed out to be run have not ended.
pub proof fn no_more_than_max_inflight_run(
    worker: Worker,
    steps: Seq<PermitStep>,
    moment: int,
)
    requires
        Occupancy::empty(worker.max_inflight as nat).admits_all(steps),
        0 <= moment <= steps.len(),
    ensures
        Occupancy::empty(worker.max_inflight as nat).after_all(steps.take(moment)).running
            <= worker.max_inflight,
{
    let empty = Occupancy::empty(worker.max_inflight as nat);
    let seen = steps.take(moment);
    assert forall|i: int| 0 <= i < seen.len() implies empty.after_all(
        #[trigger] seen.take(i),
    ).admits(seen[i]) by {
        assert(seen.take(i) =~= steps.take(i));
    }
    steps_keep_within_bounds(worker.max_inflight as nat, seen);
}

/// The figures of a worker at any moment, which count the permits that are free, give a number of
/// running tasks that is at most `max_inflight` and at least the number of tasks that run. It is one
/// more only while a visit holds a permit for the claim that it makes.
pub proof fn figures_stay_within_bounds(
    worker: Worker,
    steps: Seq<PermitStep>,
    stats: WorkerStats,
)
    requires
        Occupancy::empty(worker.max_inflight as nat).admits_all(steps),
        stats.room() == worker.max_inflight,
        stats.room_left() == Occupancy::empty(worker.max_inflight as nat).after_all(
            steps,
        ).available(),
    ensures
        ({
            let occupancy = Occupancy::empty(worker.max_inflight as nat).after_all(steps);
            &&& stats.room_left() <= stats.room()
            &&& stats.room() - stats.room_left() <= worker.max_inflight
            &&& stats.room() - stats.room_left() == occupancy.held()
            &&& occupancy.running <= occupancy.held() <= occupancy.running + 1
        }),
{
    steps_keep_within_bounds(worker.max_inflight as nat, steps);
}

} // verus!
