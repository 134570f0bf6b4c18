//! The worker: its settings, its figures, and the loop that drives it.
use bson::{Bson, Document};
use vstd::prelude::*;

use crate::claim::{all_fields, binary, is_random_uuid, operator, random_uuid, ClaimMode};
use crate::config::Config;
use crate::database::StreamOpening;
use crate::document::{
    bson_array, bson_bool, bson_doc, bson_str, bson_values, document_fields, no_fields,
    one_field, with_field, BsonValue, Fields,
};
use crate::error::{joined, Failure, RequestError};

verus! {

/// How many tasks a worker runs at once unless it is told otherwise.
pub const DEFAULT_MAX_INFLIGHT: usize = 32;

/// A worker's settings.
#[derive(Debug)]
pub struct Worker {
    pub config: Config,
    pub worker_id: String,
    pub max_inflight: usize,
}

impl Worker {
    /// A worker for this configuration, under the name that the configuration gives it or under a
    /// random one.
    pub fn new(config: Config) -> (worker: Worker)
        ensures
            worker.config == config,
            worker.max_inflight == DEFAULT_MAX_INFLIGHT,
            match config.worker_id {
                Some(worker_id) => worker.worker_id@ == worker_id@,
                None => exists|uuid: Seq<char>| #[trigger]
                    is_random_uuid(uuid) && worker.worker_id@ == "worker-"@ + uuid,
            },
    {
        let worker_id = match &config.worker_id {
            Some(worker_id) => worker_id.clone(),
            None => joined("worker-", random_uuid().as_str()),
        };
        Worker { config, worker_id, max_inflight: DEFAULT_MAX_INFLIGHT }
    }

    /// Sets how many tasks the worker runs at once. The default is 32.
    pub fn with_max_inflight(self, n: usize) -> (worker: Worker)
        ensures
            worker == (Worker { max_inflight: n, ..self }),
    {
        let mut worker = self;
        worker.max_inflight = n;
        worker
    }
}

/// The figures of a running worker at one moment.
#[derive(Clone, Copy, Debug, PartialEq, Eq, Structural)]
pub struct WorkerStats {
    max_inflight: usize,
    available_permits: usize,
}

impl WorkerStats {
    /// Room for so many tasks in all.
    pub closed spec fn room(self) -> usize {
        self.max_inflight
    }

    /// Room left for so many more.
    pub closed spec fn room_left(self) -> usize {
        self.available_permits
    }

    /// The figures of a worker with room for `max_inflight` tasks, `available_permits` of which is
    /// free.
    pub fn new(max_inflight: usize, available_permits: usize) -> (stats: WorkerStats)
        ensures
            stats.room() == max_inflight,
            stats.room_left() == available_permits,
    {
        WorkerStats { max_inflight, available_permits }
    }

    /// The number of running tasks.
    pub fn get_running_task_cnt(&self) -> (count: usize)
        requires
            self.room_left() <= self.room(),
        ensures
            count == self.room() - self.room_left(),
    {
        self.max_inflight - self.available_permits
    }

    /// The number of tasks that may run at once.
    pub fn get_max_inflight(&self) -> (count: usize)
        ensures
            count == self.room(),
    {
        self.max_inflight
    }
}

/// Why the worker looks through the collection.
#[derive(Clone, Copy, Debug, PartialEq, Eq, Structural)]
pub enum Trigger {
    /// It has just started.
    Startup,
    /// Its change stream was gone.
    Reconnect,
    /// It is time for the rare look for what change events may have missed.
    Periodic,
}

impl Trigger {
    /// The name of the reason in metrics.
    pub fn label(self) -> (label: &'static str)
        ensures
            label@ == match self {
                Trigger::Startup => "startup"@,
                Trigger::Reconnect => "reconnect"@,
                Trigger::Periodic => "periodic"@,
            },
    {
        match self {
            Trigger::Startup => "startup",
            Trigger::Reconnect => "reconnect",
            Trigger::Periodic => "periodic",
        }
    }

    /// What the worker claims once it has looked.
    pub open spec fn claims(self) -> ClaimMode {
        match self {
            Trigger::Startup | Trigger::Reconnect => ClaimMode::Ready,
            Trigger::Periodic => ClaimMode::StaleRecovery,
        }
    }

    /// What the worker claims once it has looked.
    fn claim_mode(self) -> (mode: ClaimMode)
        ensures
            mode == self.claims(),
    {
        match self {
            Trigger::Startup => ClaimMode::Ready,
            Trigger::Reconnect => ClaimMode::Ready,
            Trigger::Periodic => ClaimMode::StaleRecovery,
        }
    }
}

/// Where the loop stands.
#[derive(Clone, Copy, Debug, PartialEq, Eq, Structural)]
pub enum LoopPhase {
    /// The change stream is being opened.
    Opening(Trigger),
    /// The running tasks are being read, to learn their deadlines.
    Scanning(Trigger),
    /// The loop finds out whether ready tasks are waiting.
    Probing(Trigger),
    /// Tasks are being claimed.
    Pumping,
    /// The loop waits for something to happen.
    Waiting,
    /// The loop was told to stop, and what runs under the worker's id is being failed.
    Sweeping,
    /// What ran was failed, and the loop waits until its handlers have ended.
    Draining,
    /// The loop has ended.
    Exited,
}

/// The loop that drives a worker.
#[derive(Clone, Copy, Debug, PartialEq, Eq, Structural)]
pub struct WorkerLoop {
    phase: LoopPhase,
    stream_open: bool,
}

/// A `WorkerLoop` as contracts speak of it.
pub ghost struct LoopState {
    pub phase: LoopPhase,
    pub stream_open: bool,
}

impl View for WorkerLoop {
    type V = LoopState;

    closed spec fn view(&self) -> LoopState {
        LoopState { phase: self.phase, stream_open: self.stream_open }
    }
}

/// What the loop has to do next.
#[derive(Debug)]
pub enum LoopAction {
    /// Open the change stream.
    OpenStream(Trigger),
    /// Read the running tasks and build the table of deadlines anew.
    ScanRunning(Trigger),
    /// Find out whether ready tasks are waiting.
    ProbePending(Trigger),
    /// Claim tasks in this way.
    PumpAvailable(ClaimMode),
    /// Claim the tasks whose deadline has passed.
    PumpExpired,
    /// Wait for a stop, the next deadline, the periodic tick, the end of a task or a change event.
    Wait,
    /// Fail what runs under the worker's id.
    FailRunning,
    /// Wait for the end of a task.
    JoinNext,
    /// End the loop.
    Exit(Result<(), RequestError>),
    /// Nothing: what happened has no bearing on the loop as it stands.
    Nothing,
}

/// A `LoopAction` as contracts speak of it.
pub ghost enum LoopStep {
    OpenStream(Trigger),
    ScanRunning(Trigger),
    ProbePending(Trigger),
    PumpAvailable(ClaimMode),
    PumpExpired,
    Wait,
    JoinNext,
    FailRunning,
    Exit(Result<(), Failure>),
    Nothing,
}

impl View for LoopAction {
    type V = LoopStep;

    open spec fn view(&self) -> LoopStep {
        match *self {
            LoopAction::OpenStream(trigger) => LoopStep::OpenStream(trigger),
            LoopAction::ScanRunning(trigger) => LoopStep::ScanRunning(trigger),
            LoopAction::ProbePending(trigger) => LoopStep::ProbePending(trigger),
            LoopAction::PumpAvailable(mode) => LoopStep::PumpAvailable(mode),
            LoopAction::PumpExpired => LoopStep::PumpExpired,
            LoopAction::Wait => LoopStep::Wait,
            LoopAction::JoinNext => LoopStep::JoinNext,
            LoopAction::FailRunning => LoopStep::FailRunning,
            LoopAction::Exit(Ok(_)) => LoopStep::Exit(Ok(())),
            LoopAction::Exit(Err(error)) => LoopStep::Exit(Err(error@)),
            LoopAction::Nothing => LoopStep::Nothing,
        }
    }
}

/// What has happened to the loop.
#[derive(Debug)]
pub enum LoopEvent {
    /// The attempt to open the change stream has come to this.
    Opening(StreamOpening),
    /// The running tasks were read, as far as that went.
    Scanned,
    /// The look for ready tasks is over.
    Probed,
    /// The claims are over.
    Pumped,
    /// The worker was told to stop.
    Stopped,
    /// The next deadline has come.
    DeadlineReached,
    /// The periodic tick has come.
    Ticked,
    /// A task has ended, well or not, and its room is free.
    TaskEnded,
    /// A change event came, which made a task ready or did not.
    Changed { ready: bool },
    /// The change stream broke off or ended.
    StreamLost,
    /// What ran under the worker's id was failed.
    RunningFailed,
    /// No task is left.
    Drained,
}

/// A `LoopEvent` as contracts speak of it.
pub ghost enum LoopInput {
    Opened,
    NotOpened,
    Unsupported(Failure),
    Scanned,
    Probed,
    Pumped,
    Stopped,
    DeadlineReached,
    Ticked,
    TaskEnded,
    Changed(bool),
    StreamLost,
    Drained,
    RunningFailed,
}

impl View for LoopEvent {
    type V = LoopInput;

    open spec fn view(&self) -> LoopInput {
        match *self {
            LoopEvent::Opening(StreamOpening::Open) => LoopInput::Opened,
            LoopEvent::Opening(StreamOpening::Retry) => LoopInput::NotOpened,
            LoopEvent::Opening(StreamOpening::Unsupported(error)) => LoopInput::Unsupported(error@),
            LoopEvent::Scanned => LoopInput::Scanned,
            LoopEvent::Probed => LoopInput::Probed,
            LoopEvent::Pumped => LoopInput::Pumped,
            LoopEvent::Stopped => LoopInput::Stopped,
            LoopEvent::DeadlineReached => LoopInput::DeadlineReached,
            LoopEvent::Ticked => LoopInput::Ticked,
            LoopEvent::TaskEnded => LoopInput::TaskEnded,
            LoopEvent::Changed { ready } => LoopInput::Changed(ready),
            LoopEvent::StreamLost => LoopInput::StreamLost,
            LoopEvent::Drained => LoopInput::Drained,
            LoopEvent::RunningFailed => LoopInput::RunningFailed,
        }
    }
}

/// The loop when it begins.
pub open spec fn start_of_loop() -> LoopState {
    LoopState { phase: LoopPhase::Opening(Trigger::Startup), stream_open: false }
}

impl LoopState {
    /// The loop at another place.
    pub open spec fn at(self, phase: LoopPhase) -> LoopState {
        LoopState { phase, ..self }
    }

    /// The loop at its top: it waits, or opens the change stream first where that is gone.
    pub open spec fn at_top(self) -> (LoopState, LoopStep) {
        if self.stream_open {
            (self.at(LoopPhase::Waiting), LoopStep::Wait)
        } else {
            (
                self.at(LoopPhase::Opening(Trigger::Reconnect)),
                LoopStep::OpenStream(Trigger::Reconnect),
            )
        }
    }

    /// The loop about to look through the collection.
    pub open spec fn looking(self, trigger: Trigger) -> (LoopState, LoopStep) {
        (self.at(LoopPhase::Scanning(trigger)), LoopStep::ScanRunning(trigger))
    }

    /// The loop about to claim tasks.
    pub open spec fn claiming(self, mode: ClaimMode) -> (LoopState, LoopStep) {
        (self.at(LoopPhase::Pumping), LoopStep::PumpAvailable(mode))
    }

    /// What an event makes of the loop, and what is to be done next.
    pub open spec fn next(self, input: LoopInput) -> (LoopState, LoopStep) {
        match (self.phase, input) {
            (LoopPhase::Opening(trigger), LoopInput::Opened) => LoopState {
                stream_open: true,
                ..self
            }.looking(trigger),
            (LoopPhase::Opening(trigger), LoopInput::NotOpened) => LoopState {
                stream_open: false,
                ..self
            }.looking(trigger),
            (LoopPhase::Opening(_), LoopInput::Unsupported(failure)) => (
                self.at(LoopPhase::Exited),
                LoopStep::Exit(Err(failure)),
            ),
            (LoopPhase::Scanning(trigger), LoopInput::Scanned) => (
                self.at(LoopPhase::Probing(trigger)),
                LoopStep::ProbePending(trigger),
            ),
            (LoopPhase::Probing(trigger), LoopInput::Probed) => self.claiming(trigger.claims()),
            (LoopPhase::Pumping, LoopInput::Pumped) => self.at_top(),
            (LoopPhase::Waiting, LoopInput::Stopped) => (
                self.at(LoopPhase::Sweeping),
                LoopStep::FailRunning,
            ),
            (LoopPhase::Waiting, LoopInput::DeadlineReached) => (
                self.at(LoopPhase::Pumping),
                LoopStep::PumpExpired,
            ),
            (LoopPhase::Waiting, LoopInput::Ticked) => self.looking(Trigger::Periodic),
            (LoopPhase::Waiting, LoopInput::TaskEnded) => self.claiming(ClaimMode::Ready),
            (LoopPhase::Waiting, LoopInput::Changed(ready)) => if ready {
                self.claiming(ClaimMode::Ready)
            } else {
                self.at_top()
            },
            (LoopPhase::Waiting, LoopInput::StreamLost) => LoopState {
                stream_open: false,
                ..self
            }.at_top(),
            (LoopPhase::Sweeping, LoopInput::RunningFailed) => (
                self.at(LoopPhase::Draining),
                LoopStep::JoinNext,
            ),
            (LoopPhase::Draining, LoopInput::TaskEnded) => (self, LoopStep::JoinNext),
            (LoopPhase::Draining, LoopInput::Drained) => (
                self.at(LoopPhase::Exited),
                LoopStep::Exit(Ok(())),
            ),
            _ => (self, LoopStep::Nothing),
        }
    }

    /// The loop waits only with an open change stream: what changes while it waits comes to it.
    pub open spec fn hears_while_waiting(self) -> bool {
        self.phase is Waiting ==> self.stream_open
    }

    /// The loop was told to stop, or has ended.
    pub open spec fn is_stopping(self) -> bool {
        self.phase is Draining || self.phase is Sweeping || self.phase is Exited
    }
}

impl WorkerLoop {
    /// A loop that begins, and what it does first.
    pub fn start() -> (start: (WorkerLoop, LoopAction))
        ensures
            start.0@ == start_of_loop(),
            start.1@ == LoopStep::OpenStream(Trigger::Startup),
    {
        (
            WorkerLoop { phase: LoopPhase::Opening(Trigger::Startup), stream_open: false },
            LoopAction::OpenStream(Trigger::Startup),
        )
    }

    /// Goes to the top of the loop.
    fn to_top(&mut self) -> (action: LoopAction)
        ensures
            (final(self)@, action@) == old(self)@.at_top(),
    {
        if self.stream_open {
            self.phase = LoopPhase::Waiting;
            LoopAction::Wait
        } else {
            self.phase = LoopPhase::Opening(Trigger::Reconnect);
            LoopAction::OpenStream(Trigger::Reconnect)
        }
    }

    /// Goes on to look through the collection.
    fn to_look(&mut self, trigger: Trigger) -> (action: LoopAction)
        ensures
            (final(self)@, action@) == old(self)@.looking(trigger),
    {
        self.phase = LoopPhase::Scanning(trigger);
        LoopAction::ScanRunning(trigger)
    }

    /// Goes on to claim tasks.
    fn to_claim(&mut self, mode: ClaimMode) -> (action: LoopAction)
        ensures
            (final(self)@, action@) == old(self)@.claiming(mode),
    {
        self.phase = LoopPhase::Pumping;
        LoopAction::PumpAvailable(mode)
    }

    /// Takes in what has happened and says what is to be done next.
    pub fn step(&mut self, event: LoopEvent) -> (action: LoopAction)
        ensures
            (final(self)@, action@) == old(self)@.next(event@),
    {
        match self.phase {
            LoopPhase::Opening(trigger) => match event {
                LoopEvent::Opening(StreamOpening::Open) => {
                    self.stream_open = true;
                    self.to_look(trigger)
                },
                LoopEvent::Opening(StreamOpening::Retry) => {
                    self.stream_open = false;
                    self.to_look(trigger)
                },
                LoopEvent::Opening(StreamOpening::Unsupported(error)) => {
                    self.phase = LoopPhase::Exited;
                    LoopAction::Exit(Err(error))
                },
                _ => LoopAction::Nothing,
            },
            LoopPhase::Scanning(trigger) => match event {
                LoopEvent::Scanned => {
                    self.phase = LoopPhase::Probing(trigger);
                    LoopAction::ProbePending(trigger)
                },
                _ => LoopAction::Nothing,
            },
            LoopPhase::Probing(trigger) => match event {
                LoopEvent::Probed => self.to_claim(trigger.claim_mode()),
                _ => LoopAction::Nothing,
            },
            LoopPhase::Pumping => match event {
                LoopEvent::Pumped => self.to_top(),
                _ => LoopAction::Nothing,
            },
            LoopPhase::Waiting => match event {
                LoopEvent::Stopped => {
                    self.phase = LoopPhase::Sweeping;
                    LoopAction::FailRunning
                },
                LoopEvent::DeadlineReached => {
                    self.phase = LoopPhase::Pumping;
                    LoopAction::PumpExpired
                },
                LoopEvent::Ticked => self.to_look(Trigger::Periodic),
                LoopEvent::TaskEnded => self.to_claim(ClaimMode::Ready),
                LoopEvent::Changed { ready } => if ready {
                    self.to_claim(ClaimMode::Ready)
                } else {
                    self.to_top()
                },
                LoopEvent::StreamLost => {
                    self.stream_open = false;
                    self.to_top()
                },
                _ => LoopAction::Nothing,
            },
            LoopPhase::Sweeping => match event {
                LoopEvent::RunningFailed => {
                    self.phase = LoopPhase::Draining;
                    LoopAction::JoinNext
                },
                _ => LoopAction::Nothing,
            },
            LoopPhase::Draining => match event {
                LoopEvent::TaskEnded => LoopAction::JoinNext,
                LoopEvent::Drained => {
                    self.phase = LoopPhase::Exited;
                    LoopAction::Exit(Ok(()))
                },
                _ => LoopAction::Nothing,
            },
            LoopPhase::Exited => LoopAction::Nothing,
        }
    }
}

/// The end of a task always leads to a claim of ready tasks: free room never sits idle while tasks
/// wait, whatever the hints say.
pub proof fn task_end_claims_ready(state: LoopState)
    requires
        state.phase is Waiting,
    ensures
        state.next(LoopInput::TaskEnded).1 == LoopStep::PumpAvailable(ClaimMode::Ready),
{
}

/// The loop waits only with an open change stream, at every moment: it holds at the start, and no
/// event changes it.
pub proof fn loop_hears_while_waiting(state: LoopState, input: LoopInput)
    requires
        state.hears_while_waiting(),
    ensures
        start_of_loop().hears_while_waiting(),
        state.next(input).0.hears_while_waiting(),
{
}

/// A change stream that was lost is opened again, and the whole collection is looked through before
/// the loop waits again: what changed in between is not missed.
pub proof fn lost_stream_leads_to_a_look(state: LoopState)
    requires
        state.phase is Waiting,
    ensures
        ({
            let reopening = state.next(LoopInput::StreamLost).0;
            let looking = reopening.next(LoopInput::Opened).0;
            let probing = looking.next(LoopInput::Scanned).0;
            &&& state.next(LoopInput::StreamLost).1 == LoopStep::OpenStream(Trigger::Reconnect)
            &&& reopening.next(LoopInput::Opened).1 == LoopStep::ScanRunning(Trigger::Reconnect)
            &&& reopening.next(LoopInput::NotOpened).1 == LoopStep::ScanRunning(Trigger::Reconnect)
            &&& looking.next(LoopInput::Scanned).1 == LoopStep::ProbePending(Trigger::Reconnect)
            &&& probing.next(LoopInput::Probed).1 == LoopStep::PumpAvailable(ClaimMode::Ready)
        }),
{
}

/// A loop that was told to stop claims nothing more and never goes back to work.
pub proof fn stopping_loop_claims_nothing(state: LoopState, input: LoopInput)
    requires
        state.is_stopping(),
    ensures
        state.next(input).0.is_stopping(),
        !(state.next(input).1 is PumpAvailable),
        !(state.next(input).1 is PumpExpired),
{
}

/// A stop is answered by failing what runs under the worker's id, before any handler is waited for.
/// Once that is done the loop waits for the handlers, and ends when none is left.
pub proof fn stop_fails_running_tasks_first(state: LoopState)
    requires
        state.phase is Waiting,
    ensures
        ({
            let sweeping = state.next(LoopInput::Stopped).0;
            let draining = sweeping.next(LoopInput::RunningFailed).0;
            &&& state.next(LoopInput::Stopped).1 == LoopStep::FailRunning
            &&& sweeping.next(LoopInput::RunningFailed).1 == LoopStep::JoinNext
            &&& draining.next(LoopInput::TaskEnded) == (draining, LoopStep::JoinNext)
            &&& draining.next(LoopInput::Drained).1 == LoopStep::Exit(Ok(()))
        }),
{
}

/// The loop ends well only once every handler has ended, which it waits for only once what ran under
/// the worker's id was failed; it ends with an error only where the deployment has no change streams.
pub proof fn loop_ends_only_when_swept_and_drained(state: LoopState, input: LoopInput)
    ensures
        state.next(input).1 == LoopStep::Exit(Ok(())) ==> state.phase is Draining && input
            is Drained,
        state.next(input).0.phase is Draining && !(state.phase is Draining)
            ==> state.phase is Sweeping && input is RunningFailed,
        state.next(input).0.phase is Sweeping && !(state.phase is Sweeping) ==> state.phase
            is Waiting && input is Stopped && state.next(input).1 is FailRunning,
        state.next(input).1 matches LoopStep::Exit(Err(_)) ==> input is Unsupported,
{
}

/// Abandoned tasks of other workers are claimed by the periodic look alone, as far as no deadline
/// calls for it.
pub proof fn stale_claims_are_periodic(state: LoopState, input: LoopInput)
    requires
        state.next(input).1 == LoopStep::PumpAvailable(ClaimMode::StaleRecovery),
    ensures
        state.phase == LoopPhase::Probing(Trigger::Periodic),
{
}

/// The expression that tells whether an update set the field with this name. The names of the
/// fields that an update sets stand in the event as they were written, dots included, so that they
/// cannot be reached as paths.
pub open spec fn updated_field_exists(name: Seq<char>) -> BsonValue {
    binary(
        "$ne"@,
        operator(
            "$type"@,
            operator(
                "$getField"@,
                BsonValue::Doc(
                    no_fields().insert(
                        "input"@,
                        BsonValue::Str("$updateDescription.updatedFields"@),
                    ).insert("field"@, BsonValue::Str(name)),
                ),
            ),
        ),
        BsonValue::Str("missing"@),
    )
}

/// The condition on updates: they set the status, the whole state of the worker, the heartbeat or
/// the switch timeout.
pub open spec fn relevant_update() -> Fields {
    no_fields().insert("operationType"@, BsonValue::Str("update"@)).insert(
        "$or"@,
        BsonValue::Array(
            seq![
                BsonValue::Doc(
                    no_fields().insert(
                        "updateDescription.updatedFields.status"@,
                        operator("$exists"@, BsonValue::Bool(true)),
                    ),
                ),
                BsonValue::Doc(
                    no_fields().insert(
                        "updateDescription.updatedFields.worker_state"@,
                        operator("$exists"@, BsonValue::Bool(true)),
                    ),
                ),
                operator("$expr"@, updated_field_exists("worker_state.heartbeat_at"@)),
                operator("$expr"@, updated_field_exists("worker_state.switch_timeout_ms"@)),
            ],
        ),
    )
}

/// The condition on the kinds of events that are relevant whatever they hold.
pub open spec fn relevant_kind() -> Fields {
    no_fields().insert(
        "operationType"@,
        operator(
            "$in"@,
            BsonValue::Array(
                seq![
                    BsonValue::Str("insert"@),
                    BsonValue::Str("replace"@),
                    BsonValue::Str("delete"@),
                ],
            ),
        ),
    )
}

/// The stage of the pipeline of a worker's change stream.
pub open spec fn change_stream_stage() -> Fields {
    no_fields().insert(
        "$match"@,
        operator(
            "$or"@,
            BsonValue::Array(
                seq![BsonValue::Doc(relevant_kind()), BsonValue::Doc(relevant_update())],
            ),
        ),
    )
}

fn updated_field_exists_document(name: &str) -> (document: Document)
    ensures
        BsonValue::Doc(document_fields(document)) == updated_field_exists(name@),
{
    let lookup = one_field("input", bson_str("$updateDescription.updatedFields"));
    let lookup = with_field(lookup, "field", bson_str(name));
    let get_field = one_field("$getField", bson_doc(lookup));
    let kind = one_field("$type", bson_doc(get_field));
    let mut operands: Vec<Bson> = Vec::new();
    operands.push(bson_doc(kind));
    operands.push(bson_str("missing"));
    proof {
        assert(bson_values(operands@) =~= seq![
            BsonValue::Doc(document_fields(kind)),
            BsonValue::Str("missing"@),
        ]);
    }
    one_field("$ne", bson_array(operands))
}

fn relevant_update_document() -> (document: Document)
    ensures
        document_fields(document) == relevant_update(),
{
    let status = one_field(
        "updateDescription.updatedFields.status",
        bson_doc(one_field("$exists", bson_bool(true))),
    );
    let worker_state = one_field(
        "updateDescription.updatedFields.worker_state",
        bson_doc(one_field("$exists", bson_bool(true))),
    );
    let heartbeat = one_field(
        "$expr",
        bson_doc(updated_field_exists_document("worker_state.heartbeat_at")),
    );
    let timeout = one_field(
        "$expr",
        bson_doc(updated_field_exists_document("worker_state.switch_timeout_ms")),
    );
    let mut alternatives: Vec<Bson> = Vec::new();
    alternatives.push(bson_doc(status));
    alternatives.push(bson_doc(worker_state));
    alternatives.push(bson_doc(heartbeat));
    alternatives.push(bson_doc(timeout));
    proof {
        assert(bson_values(alternatives@) =~= seq![
            BsonValue::Doc(document_fields(status)),
            BsonValue::Doc(document_fields(worker_state)),
            BsonValue::Doc(document_fields(heartbeat)),
            BsonValue::Doc(document_fields(timeout)),
        ]);
    }
    let update = one_field("operationType", bson_str("update"));
    with_field(update, "$or", bson_array(alternatives))
}

/// The pipeline of a worker's change stream: new and removed tasks, and updates that bear on what is
/// ready and on what expires when.
pub fn expiry_change_stream_pipeline() -> (pipeline: Vec<Document>)
    ensures
        all_fields(pipeline@) == seq![change_stream_stage()],
{
    let mut kinds: Vec<Bson> = Vec::new();
    kinds.push(bson_str("insert"));
    kinds.push(bson_str("replace"));
    kinds.push(bson_str("delete"));
    proof {
        assert(bson_values(kinds@) =~= seq![
            BsonValue::Str("insert"@),
            BsonValue::Str("replace"@),
            BsonValue::Str("delete"@),
        ]);
    }
    let kind = one_field("operationType", bson_doc(one_field("$in", bson_array(kinds))));
    let update = relevant_update_document();
    let mut alternatives: Vec<Bson> = Vec::new();
    alternatives.push(bson_doc(kind));
    alternatives.push(bson_doc(update));
    proof {
        assert(bson_values(alternatives@) =~= seq![
            BsonValue::Doc(relevant_kind()),
            BsonValue::Doc(relevant_update()),
        ]);
    }
    let stage = one_field("$match", bson_doc(one_field("$or", bson_array(alternatives))));
    let mut pipeline: Vec<Document> = Vec::new();
    pipeline.push(stage);
    proof {
        assert(all_fields(pipeline@) =~= seq![change_stream_stage()]);
    }
    pipeline
}

} // verus!
