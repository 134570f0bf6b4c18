//! Calls by which the loop of a worker is driven.
use vstd::prelude::*;

use crate::claim::{is_random_uuid, ClaimMode};
use crate::config::Config;
use crate::database::StreamOpening;
use crate::worker::{LoopAction, LoopEvent, LoopPhase, Trigger, Worker, WorkerLoop, WorkerStats};

verus! {

/// A loop begins by opening its change stream.
pub proof fn loop_begins_with_its_stream(worker: WorkerLoop, action: LoopAction)
    requires
        call_ensures(WorkerLoop::start, (), (worker, action)),
    ensures
        action == LoopAction::OpenStream(Trigger::Startup),
        worker@.phase == LoopPhase::Opening(Trigger::Startup),
        !worker@.stream_open,
{
}

/// With the stream open, or after an attempt that is worth another, the loop looks through the
/// collection; where the deployment has no change streams it ends with the error that says so.
pub proof fn look_follows_the_stream(
    worker: &mut WorkerLoop,
    trigger: Trigger,
    opening: StreamOpening,
    action: LoopAction,
)
    requires
        old(worker)@.phase == LoopPhase::Opening(trigger),
        call_ensures(WorkerLoop::step, (worker, LoopEvent::Opening(opening)), action),
    ensures
        match opening {
            StreamOpening::Open => action == LoopAction::ScanRunning(trigger)
                && final(worker)@.phase == LoopPhase::Scanning(trigger)
                && final(worker)@.stream_open,
            StreamOpening::Retry => action == LoopAction::ScanRunning(trigger)
                && final(worker)@.phase == LoopPhase::Scanning(trigger)
                && !final(worker)@.stream_open,
            StreamOpening::Unsupported(error) => final(worker)@.phase is Exited && (action matches
                LoopAction::Exit(Err(failure)) && failure@ == error@),
        },
{
}

/// A look goes from the running tasks to those that wait, and then to a claim: of what is ready, or, in
/// the periodic look, of what was abandoned.
pub proof fn look_ends_with_a_claim(
    scanning: &mut WorkerLoop,
    probing: &mut WorkerLoop,
    trigger: Trigger,
    scanned: LoopAction,
    probed: LoopAction,
)
    requires
        old(scanning)@.phase == LoopPhase::Scanning(trigger),
        call_ensures(WorkerLoop::step, (scanning, LoopEvent::Scanned), scanned),
        old(probing)@.phase == LoopPhase::Probing(trigger),
        call_ensures(WorkerLoop::step, (probing, LoopEvent::Probed), probed),
    ensures
        scanned == LoopAction::ProbePending(trigger),
        final(scanning)@.phase == LoopPhase::Probing(trigger),
        final(scanning)@.stream_open == old(scanning)@.stream_open,
        probed == LoopAction::PumpAvailable(
            match trigger {
                Trigger::Startup => ClaimMode::Ready,
                Trigger::Reconnect => ClaimMode::Ready,
                Trigger::Periodic => ClaimMode::StaleRecovery,
            },
        ),
        final(probing)@.phase is Pumping,
        final(probing)@.stream_open == old(probing)@.stream_open,
{
}

/// After its claims the loop waits where it can hear, and opens its stream again where it cannot.
pub proof fn loop_waits_where_it_can_hear(worker: &mut WorkerLoop, action: LoopAction)
    requires
        old(worker)@.phase is Pumping,
        call_ensures(WorkerLoop::step, (worker, LoopEvent::Pumped), action),
    ensures
        old(worker)@.stream_open ==> action is Wait && final(worker)@.phase is Waiting
            && final(worker)@.stream_open,
        !old(worker)@.stream_open ==> action == LoopAction::OpenStream(Trigger::Reconnect)
            && final(worker)@.phase == LoopPhase::Opening(Trigger::Reconnect)
            && !final(worker)@.stream_open,
{
}

/// While it waits the loop answers every call: a deadline by claims of what has expired, the tick by
/// the periodic look, the end of a task and a task that became ready by claims of what is ready, a stop
/// by failing what runs, the loss of its stream by opening it again; any other change leaves it waiting
/// where it can hear.
pub proof fn waiting_loop_answers(worker: &mut WorkerLoop, event: LoopEvent, action: LoopAction)
    requires
        old(worker)@.phase is Waiting,
        call_ensures(WorkerLoop::step, (worker, event), action),
    ensures
        event is DeadlineReached ==> action is PumpExpired && final(worker)@.phase is Pumping,
        event is Ticked ==> action == LoopAction::ScanRunning(Trigger::Periodic)
            && final(worker)@.phase == LoopPhase::Scanning(Trigger::Periodic),
        event is TaskEnded ==> action == LoopAction::PumpAvailable(ClaimMode::Ready)
            && final(worker)@.phase is Pumping,
        event == (LoopEvent::Changed { ready: true }) ==> action == LoopAction::PumpAvailable(
            ClaimMode::Ready,
        ) && final(worker)@.phase is Pumping,
        event == (LoopEvent::Changed { ready: false }) && old(worker)@.stream_open ==> action is Wait
            && final(worker)@.phase is Waiting,
        event == (LoopEvent::Changed { ready: false }) && !old(worker)@.stream_open ==> action
            == LoopAction::OpenStream(Trigger::Reconnect) && final(worker)@.phase
            == LoopPhase::Opening(Trigger::Reconnect),
        event is Stopped ==> action is FailRunning && final(worker)@.phase is Sweeping,
        event is StreamLost ==> action == LoopAction::OpenStream(Trigger::Reconnect)
            && final(worker)@.phase == LoopPhase::Opening(Trigger::Reconnect)
            && !final(worker)@.stream_open,
        !(event is StreamLost) ==> final(worker)@.stream_open == old(worker)@.stream_open,
{
}

/// A loop that stops fails what runs, then waits for its handlers one by one, and ends well when none
/// is left.
pub proof fn stopping_loop_drains(worker: &mut WorkerLoop, event: LoopEvent, action: LoopAction)
    requires
        call_ensures(WorkerLoop::step, (worker, event), action),
    ensures
        old(worker)@.phase is Sweeping && event is RunningFailed ==> action is JoinNext
            && final(worker)@.phase is Draining,
        old(worker)@.phase is Draining && event is TaskEnded ==> action is JoinNext
            && final(worker)@.phase is Draining,
        old(worker)@.phase is Draining && event is Drained ==> (action matches LoopAction::Exit(
            Ok(_),
        )) && final(worker)@.phase is Exited,
{
}

/// Whether a loop in this phase has asked for something that this event can answer.
pub open spec fn answers(phase: LoopPhase, event: LoopEvent) -> bool {
    match phase {
        LoopPhase::Opening(_) => event is Opening,
        LoopPhase::Scanning(_) => event is Scanned,
        LoopPhase::Probing(_) => event is Probed,
        LoopPhase::Pumping => event is Pumped,
        LoopPhase::Waiting => event is Stopped || event is DeadlineReached || event is Ticked
            || event is TaskEnded || event is Changed || event is StreamLost,
        LoopPhase::Sweeping => event is RunningFailed,
        LoopPhase::Draining => event is TaskEnded || event is Drained,
        LoopPhase::Exited => false,
    }
}

/// What a loop has not asked for leaves it as it is; in particular a loop that has ended stays so.
pub proof fn unasked_events_change_nothing(
    worker: &mut WorkerLoop,
    event: LoopEvent,
    action: LoopAction,
)
    requires
        call_ensures(WorkerLoop::step, (worker, event), action),
        !answers(old(worker)@.phase, event),
    ensures
        action is Nothing,
        final(worker)@ == old(worker)@,
{
}

/// A worker goes by the name in its configuration, or by a random one, and runs 32 tasks at once unless
/// it is told otherwise.
pub proof fn worker_has_its_settings(
    config: Config,
    worker: Worker,
    n: usize,
    told: Worker,
)
    requires
        call_ensures(Worker::new, (config,), worker),
        call_ensures(Worker::with_max_inflight, (worker, n), told),
    ensures
        worker.config == config && told.config == config,
        worker.max_inflight == 32,
        told.max_inflight == n,
        told.worker_id == worker.worker_id,
        match config.worker_id {
            Some(name) => worker.worker_id@ == name@,
            None => exists|uuid: Seq<char>| #[trigger]
                is_random_uuid(uuid) && worker.worker_id@ == "worker-"@ + uuid,
        },
{
}

/// The figures of a worker count the tasks that may run and those that do.
pub proof fn figures_count_tasks(
    max_inflight: usize,
    available: usize,
    stats: WorkerStats,
    running: usize,
    most: usize,
)
    requires
        available <= max_inflight,
        call_ensures(WorkerStats::new, (max_inflight, available), stats),
        call_ensures(WorkerStats::get_running_task_cnt, (&stats,), running),
        call_ensures(WorkerStats::get_max_inflight, (&stats,), most),
    ensures
        running == max_inflight - available,
        most == max_inflight,
{
}

/// The reasons for a look are told apart in metrics by their names.
pub proof fn looks_are_named_in_metrics(
    startup: &'static str,
    reconnect: &'static str,
    periodic: &'static str,
)
    requires
        call_ensures(Trigger::label, (Trigger::Startup,), startup),
        call_ensures(Trigger::label, (Trigger::Reconnect,), reconnect),
        call_ensures(Trigger::label, (Trigger::Periodic,), periodic),
    ensures
        startup@ == "startup"@,
        reconnect@ == "reconnect"@,
        periodic@ == "periodic"@,
{
}

} // verus!
