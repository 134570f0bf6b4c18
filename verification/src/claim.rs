//! How a worker claims tasks, shows that it still owns them, and reports how they ended: the filters
//! and updates that go to the database.
use std::time::Duration;

use bson::{Bson, Document};
use uuid::Uuid;
use vstd::prelude::*;

use crate::document::{
    bson_array, bson_date, bson_doc, bson_i64, bson_object_id, bson_str, bson_strings, bson_value,
    bson_values, document_fields, document_insert, no_fields, now_millis, one_field, str_values,
    string_views, text_view, with_field, BsonValue, Fields,
};
use crate::object_key::{object_bytes, ObjectKey};
use crate::time::{duration_to_stored_millis, stored_millis};

verus! {

/// Which tasks a claim goes for.
#[derive(Clone, Copy, Debug, PartialEq, Eq, Structural)]
pub enum ClaimMode {
    /// Tasks that wait for a worker, and those that an earlier life of this worker left running.
    Ready,
    /// Running tasks whose heartbeat has lapsed, whoever ran them.
    StaleRecovery,
}

impl ClaimMode {
    /// The name of this way of claiming in metrics.
    pub fn metric_source(self) -> (source: &'static str)
        ensures
            source@ == match self {
                ClaimMode::Ready => "ready"@,
                ClaimMode::StaleRecovery => "stale_recovery"@,
            },
    {
        match self {
            ClaimMode::Ready => "ready",
            ClaimMode::StaleRecovery => "stale_recovery",
        }
    }
}

/// Whether a text is a random UUID in its usual form: 32 lower-case hexadecimal digits in groups of
/// 8, 4, 4, 4 and 12, with the digits that mark version and variant.
pub open spec fn is_random_uuid(text: Seq<char>) -> bool {
    &&& text.len() == 36
    &&& forall|i: int|
        0 <= i < 36 ==> if i == 8 || i == 13 || i == 18 || i == 23 {
            #[trigger] text[i] == '-'
        } else {
            ('0' <= text[i] && text[i] <= '9') || ('a' <= text[i] && text[i] <= 'f')
        }
    &&& text[14] == '4'
    &&& text[19] == '8' || text[19] == '9' || text[19] == 'a' || text[19] == 'b'
}

/// `uuid::Uuid::new_v4`, with `Display`: a random UUID. Which one is up to chance.
#[verifier::external_body]
pub(crate) fn random_uuid() -> (text: String)
    ensures
        is_random_uuid(text@),
{
    Uuid::new_v4().to_string()
}

/// The `worker_state` that a claim writes.
pub open spec fn claimed_state(
    worker_id: Seq<char>,
    claim_token: Seq<char>,
    claim_started_at: i64,
    switch_timeout_ms: i64,
) -> Fields {
    no_fields().insert("worker_id"@, BsonValue::Str(worker_id)).insert(
        "claim_token"@,
        BsonValue::Str(claim_token),
    ).insert("started_at"@, BsonValue::Date(claim_started_at)).insert(
        "heartbeat_at"@,
        BsonValue::Date(claim_started_at),
    ).insert("switch_timeout_ms"@, BsonValue::Int64(switch_timeout_ms))
}

/// What a claim sets.
pub open spec fn claim_changes(
    worker_id: Seq<char>,
    claim_token: Seq<char>,
    claim_started_at: i64,
    switch_timeout_ms: i64,
) -> Fields {
    no_fields().insert("status"@, BsonValue::Str("running"@)).insert(
        "updated_at"@,
        BsonValue::Date(claim_started_at),
    ).insert(
        "worker_state"@,
        BsonValue::Doc(
            claimed_state(worker_id, claim_token, claim_started_at, switch_timeout_ms),
        ),
    )
}

/// An update that sets fields.
pub open spec fn set_update(changes: Fields) -> Fields {
    no_fields().insert("$set"@, BsonValue::Doc(changes))
}

/// The update by which a worker claims a task. The token is new with every claim, so that a claim
/// that was taken over can be told from the one that holds the task now, even under one worker id.
pub fn claim_update(
    worker_id: &str,
    claim_token: &str,
    claim_started_at: i64,
    worker_switch_timeout: Duration,
) -> (update: Document)
    ensures
        document_fields(update) == set_update(
            claim_changes(
                worker_id@,
                claim_token@,
                claim_started_at,
                stored_millis(worker_switch_timeout),
            ),
        ),
{
    let state = one_field("worker_id", bson_str(worker_id));
    let state = with_field(state, "claim_token", bson_str(claim_token));
    let state = with_field(state, "started_at", bson_date(claim_started_at));
    let state = with_field(state, "heartbeat_at", bson_date(claim_started_at));
    let state = with_field(
        state,
        "switch_timeout_ms",
        bson_i64(duration_to_stored_millis(worker_switch_timeout)),
    );
    let changes = one_field("status", bson_str("running"));
    let changes = with_field(changes, "updated_at", bson_date(claim_started_at));
    let changes = with_field(changes, "worker_state", bson_doc(state));
    one_field("$set", bson_doc(changes))
}

/// A condition on one field by one operator.
pub open spec fn operator(name: Seq<char>, operand: BsonValue) -> BsonValue {
    BsonValue::Doc(no_fields().insert(name, operand))
}

/// A condition or expression of two operands.
pub open spec fn binary(name: Seq<char>, first: BsonValue, second: BsonValue) -> BsonValue {
    operator(name, BsonValue::Array(seq![first, second]))
}

/// The condition that a task id is none of these.
pub open spec fn not_in(task_ids: Seq<Seq<char>>) -> BsonValue {
    operator("$nin"@, BsonValue::Array(str_values(task_ids)))
}

/// The expression for the instant at which a running task expires: its heartbeat plus its own
/// timeout, or else the one that its claim recorded, or else `default_timeout_ms`.
pub open spec fn expiry_expression(default_timeout_ms: i64) -> BsonValue {
    binary(
        "$add"@,
        BsonValue::Str("$worker_state.heartbeat_at"@),
        binary(
            "$ifNull"@,
            BsonValue::Str("$worker_switch_timeout"@),
            binary(
                "$ifNull"@,
                BsonValue::Str("$worker_state.switch_timeout_ms"@),
                BsonValue::Int64(default_timeout_ms),
            ),
        ),
    )
}

/// The filter for running tasks that have expired by `now`.
pub open spec fn stale_filter(
    now: i64,
    default_timeout_ms: i64,
    excluded: Seq<Seq<char>>,
) -> Fields {
    no_fields().insert("status"@, BsonValue::Str("running"@)).insert(
        "worker_state.heartbeat_at"@,
        operator("$type"@, BsonValue::Str("date"@)),
    ).insert("task_id"@, not_in(excluded)).insert(
        "$expr"@,
        binary("$lte"@, expiry_expression(default_timeout_ms), BsonValue::Date(now)),
    )
}

/// A document with one operator of two operands.
fn binary_document(name: &str, first: Bson, second: Bson) -> (document: Document)
    ensures
        BsonValue::Doc(document_fields(document)) == binary(
            name@,
            bson_value(first),
            bson_value(second),
        ),
{
    let mut operands: Vec<Bson> = Vec::new();
    operands.push(first);
    operands.push(second);
    proof {
        assert(bson_values(operands@) =~= seq![bson_value(first), bson_value(second)]);
    }
    one_field(name, bson_array(operands))
}

/// The condition that a task id is none of these.
fn not_in_document(task_ids: &Vec<String>) -> (document: Document)
    ensures
        BsonValue::Doc(document_fields(document)) == not_in(string_views(task_ids@)),
{
    one_field("$nin", bson_array(bson_strings(task_ids)))
}

/// The filter for running tasks that have expired by `now` and are none of the excluded ones.
pub fn stale_claim_filter(
    now: i64,
    worker_switch_timeout: Duration,
    excluded_ids: &Vec<String>,
) -> (filter: Document)
    ensures
        document_fields(filter) == stale_filter(
            now,
            stored_millis(worker_switch_timeout),
            string_views(excluded_ids@),
        ),
{
    let default_timeout_ms: i64 = duration_to_stored_millis(worker_switch_timeout);
    let recorded_timeout = binary_document(
        "$ifNull",
        bson_str("$worker_state.switch_timeout_ms"),
        bson_i64(default_timeout_ms),
    );
    let timeout = binary_document(
        "$ifNull",
        bson_str("$worker_switch_timeout"),
        bson_doc(recorded_timeout),
    );
    let expires_at = binary_document(
        "$add",
        bson_str("$worker_state.heartbeat_at"),
        bson_doc(timeout),
    );
    let expired = binary_document("$lte", bson_doc(expires_at), bson_date(now));
    let filter = running_tasks_filter();
    let filter = with_field(
        filter,
        "worker_state.heartbeat_at",
        bson_doc(one_field("$type", bson_str("date"))),
    );
    let filter = with_field(filter, "task_id", bson_doc(not_in_document(excluded_ids)));
    with_field(filter, "$expr", bson_doc(expired))
}

/// The filter for tasks that wait for a worker.
pub open spec fn pending_filter() -> Fields {
    no_fields().insert("status"@, BsonValue::Str("pending"@))
}

/// The filter for tasks that wait for a worker.
pub fn pending_tasks_filter() -> (filter: Document)
    ensures
        document_fields(filter) == pending_filter(),
{
    one_field("status", bson_str("pending"))
}

/// The filter for running tasks, whoever runs them.
pub fn running_tasks_filter() -> (filter: Document)
    ensures
        document_fields(filter) == no_fields().insert("status"@, BsonValue::Str("running"@)),
{
    one_field("status", bson_str("running"))
}

/// The filter for tasks that run under this worker's id and are none of the excluded ones.
pub open spec fn own_running_filter(worker_id: Seq<char>, excluded: Seq<Seq<char>>) -> Fields {
    no_fields().insert("status"@, BsonValue::Str("running"@)).insert(
        "worker_state.worker_id"@,
        BsonValue::Str(worker_id),
    ).insert("task_id"@, not_in(excluded))
}

/// The filters that a claim tries, in order.
pub open spec fn claim_filters(
    mode: ClaimMode,
    worker_id: Seq<char>,
    now: i64,
    default_timeout_ms: i64,
    excluded: Seq<Seq<char>>,
) -> Seq<Fields> {
    match mode {
        ClaimMode::Ready => seq![pending_filter(), own_running_filter(worker_id, excluded)],
        ClaimMode::StaleRecovery => seq![stale_filter(now, default_timeout_ms, excluded)],
    }
}

/// The fields of several documents, in order.
pub open spec fn all_fields(documents: Seq<Document>) -> Seq<Fields> {
    documents.map_values(|document: Document| document_fields(document))
}

/// A claim ready to be made: the filters to try in order, and the update for the first match.
#[derive(Debug)]
pub struct PreparedClaim {
    pub filters: Vec<Document>,
    pub update: Document,
}

/// The claim made at `now`, with `claim_started_at` and `claim_token` for its mark.
pub fn prepare_claim_at(
    worker_id: &str,
    worker_switch_timeout: Duration,
    excluded_ids: &Vec<String>,
    mode: ClaimMode,
    now: i64,
    claim_token: &str,
    claim_started_at: i64,
) -> (claim: PreparedClaim)
    ensures
        all_fields(claim.filters@) == claim_filters(
            mode,
            worker_id@,
            now,
            stored_millis(worker_switch_timeout),
            string_views(excluded_ids@),
        ),
        document_fields(claim.update) == set_update(
            claim_changes(
                worker_id@,
                claim_token@,
                claim_started_at,
                stored_millis(worker_switch_timeout),
            ),
        ),
{
    let mut filters: Vec<Document> = Vec::new();
    match mode {
        ClaimMode::Ready => {
            filters.push(pending_tasks_filter());
            let filter = running_tasks_filter();
            let filter = with_field(filter, "worker_state.worker_id", bson_str(worker_id));
            let filter = with_field(filter, "task_id", bson_doc(not_in_document(excluded_ids)));
            filters.push(filter);
        },
        ClaimMode::StaleRecovery => {
            filters.push(stale_claim_filter(now, worker_switch_timeout, excluded_ids));
        },
    }
    proof {
        assert(all_fields(filters@) =~= claim_filters(
            mode,
            worker_id@,
            now,
            stored_millis(worker_switch_timeout),
            string_views(excluded_ids@),
        ));
    }
    let update = claim_update(worker_id, claim_token, claim_started_at, worker_switch_timeout);
    PreparedClaim { filters, update }
}

/// The claim for the next task, made now under a fresh token.
pub fn prepare_claim(
    worker_id: &str,
    worker_switch_timeout: Duration,
    excluded_ids: &Vec<String>,
    mode: ClaimMode,
) -> (claim: PreparedClaim)
    ensures
        exists|now: i64|
            all_fields(claim.filters@) == #[trigger] claim_filters(
                mode,
                worker_id@,
                now,
                stored_millis(worker_switch_timeout),
                string_views(excluded_ids@),
            ),
        exists|claim_token: Seq<char>, claim_started_at: i64|
            is_random_uuid(claim_token) && document_fields(claim.update) == set_update(
                #[trigger] claim_changes(
                    worker_id@,
                    claim_token,
                    claim_started_at,
                    stored_millis(worker_switch_timeout),
                ),
            ),
{
    let now: i64 = now_millis();
    let claim_token = random_uuid();
    let claim_started_at: i64 = now_millis();
    prepare_claim_at(
        worker_id,
        worker_switch_timeout,
        excluded_ids,
        mode,
        now,
        claim_token.as_str(),
        claim_started_at,
    )
}

/// The condition that a task id is this one and none of those.
pub open spec fn is_and_not_in(task_id: Seq<char>, task_ids: Seq<Seq<char>>) -> BsonValue {
    BsonValue::Doc(
        no_fields().insert("$eq"@, BsonValue::Str(task_id)).insert(
            "$nin"@,
            BsonValue::Array(str_values(task_ids)),
        ),
    )
}

/// The filter for one expired task, as long as it is none of the excluded ones. A task id that is
/// known must be the task's.
pub open spec fn expired_filter(
    id: Seq<u8>,
    task_id: Option<Seq<char>>,
    now: i64,
    default_timeout_ms: i64,
    excluded: Seq<Seq<char>>,
) -> Fields {
    let filter = stale_filter(now, default_timeout_ms, excluded).insert(
        "_id"@,
        BsonValue::ObjectId(id),
    );
    match task_id {
        Some(task_id) => filter.insert("task_id"@, is_and_not_in(task_id, excluded)),
        None => filter,
    }
}

/// The claim for one expired task, made at `now`, with `claim_started_at` and `claim_token` for its
/// mark.
pub fn prepare_expired_claim_at(
    id: ObjectKey,
    worker_id: &str,
    worker_switch_timeout: Duration,
    task_id: Option<&str>,
    excluded_ids: &Vec<String>,
    now: i64,
    claim_token: &str,
    claim_started_at: i64,
) -> (claim: PreparedClaim)
    ensures
        all_fields(claim.filters@) == seq![
            expired_filter(
                object_bytes(id@),
                text_view(task_id),
                now,
                stored_millis(worker_switch_timeout),
                string_views(excluded_ids@),
            ),
        ],
        document_fields(claim.update) == set_update(
            claim_changes(
                worker_id@,
                claim_token@,
                claim_started_at,
                stored_millis(worker_switch_timeout),
            ),
        ),
{
    let mut filter = stale_claim_filter(now, worker_switch_timeout, excluded_ids);
    let bytes = id.bytes();
    document_insert(&mut filter, "_id", bson_object_id(bytes));
    if let Some(task_id) = task_id {
        let condition = one_field("$eq", bson_str(task_id));
        let condition = with_field(condition, "$nin", bson_array(bson_strings(excluded_ids)));
        document_insert(&mut filter, "task_id", bson_doc(condition));
    }
    let mut filters: Vec<Document> = Vec::new();
    filters.push(filter);
    proof {
        assert(all_fields(filters@) =~= seq![
            expired_filter(
                bytes@,
                text_view(task_id),
                now,
                stored_millis(worker_switch_timeout),
                string_views(excluded_ids@),
            ),
        ]);
    }
    let update = claim_update(worker_id, claim_token, claim_started_at, worker_switch_timeout);
    PreparedClaim { filters, update }
}

/// The claim for one expired task, made now under a fresh token.
pub fn prepare_expired_claim(
    id: ObjectKey,
    worker_id: &str,
    worker_switch_timeout: Duration,
    task_id: Option<&str>,
    excluded_ids: &Vec<String>,
) -> (claim: PreparedClaim)
    ensures
        exists|now: i64|
            all_fields(claim.filters@) == seq![
                #[trigger] expired_filter(
                    object_bytes(id@),
                    text_view(task_id),
                    now,
                    stored_millis(worker_switch_timeout),
                    string_views(excluded_ids@),
                ),
            ],
        exists|claim_token: Seq<char>, claim_started_at: i64|
            is_random_uuid(claim_token) && document_fields(claim.update) == set_update(
                #[trigger] claim_changes(
                    worker_id@,
                    claim_token,
                    claim_started_at,
                    stored_millis(worker_switch_timeout),
                ),
            ),
{
    let now: i64 = now_millis();
    let claim_token = random_uuid();
    let claim_started_at: i64 = now_millis();
    prepare_expired_claim_at(
        id,
        worker_id,
        worker_switch_timeout,
        task_id,
        excluded_ids,
        now,
        claim_token.as_str(),
        claim_started_at,
    )
}

/// The filter for a task while it runs under one claim, and under no other.
pub open spec fn ownership(
    task_id: Seq<char>,
    worker_id: Seq<char>,
    claim_token: Seq<char>,
) -> Fields {
    no_fields().insert("task_id"@, BsonValue::Str(task_id)).insert(
        "status"@,
        BsonValue::Str("running"@),
    ).insert("worker_state.worker_id"@, BsonValue::Str(worker_id)).insert(
        "worker_state.claim_token"@,
        BsonValue::Str(claim_token),
    )
}

/// The filter for a task while it runs under one claim. Every write of a worker goes through it, so
/// that a claim that was taken over can no longer touch the task.
pub fn ownership_filter(task_id: &str, worker_id: &str, claim_token: &str) -> (filter: Document)
    ensures
        document_fields(filter) == ownership(task_id@, worker_id@, claim_token@),
{
    let filter = one_field("task_id", bson_str(task_id));
    let filter = with_field(filter, "status", bson_str("running"));
    let filter = with_field(filter, "worker_state.worker_id", bson_str(worker_id));
    with_field(filter, "worker_state.claim_token", bson_str(claim_token))
}

/// What a heartbeat sets.
pub open spec fn heartbeat_changes(now: i64) -> Fields {
    no_fields().insert("worker_state.heartbeat_at"@, BsonValue::Date(now))
}

/// The update for a heartbeat at `now`.
pub fn heartbeat_update_at(now: i64) -> (update: Document)
    ensures
        document_fields(update) == set_update(heartbeat_changes(now)),
{
    one_field("$set", bson_doc(one_field("worker_state.heartbeat_at", bson_date(now))))
}

/// The update for a heartbeat.
pub fn heartbeat_update() -> (update: Document)
    ensures
        exists|now: i64| document_fields(update) == set_update(#[trigger] heartbeat_changes(now)),
{
    heartbeat_update_at(now_millis())
}

/// What a worker sets when a task has succeeded.
pub open spec fn success_changes(output: BsonValue, updated_at: i64, finished_at: i64) -> Fields {
    no_fields().insert("status"@, BsonValue::Str("succeeded"@)).insert(
        "task_output"@,
        output,
    ).insert("updated_at"@, BsonValue::Date(updated_at)).insert(
        "worker_state.finished_at"@,
        BsonValue::Date(finished_at),
    )
}

/// The update for a task that has succeeded.
pub fn success_update_at(output: Bson, updated_at: i64, finished_at: i64) -> (update: Document)
    ensures
        document_fields(update) == set_update(
            success_changes(bson_value(output), updated_at, finished_at),
        ),
{
    let changes = one_field("status", bson_str("succeeded"));
    let changes = with_field(changes, "task_output", output);
    let changes = with_field(changes, "updated_at", bson_date(updated_at));
    let changes = with_field(changes, "worker_state.finished_at", bson_date(finished_at));
    one_field("$set", bson_doc(changes))
}

/// The update for a task that has just succeeded.
pub fn success_update(output: Bson) -> (update: Document)
    ensures
        exists|updated_at: i64, finished_at: i64|
            document_fields(update) == set_update(
                #[trigger] success_changes(bson_value(output), updated_at, finished_at),
            ),
{
    let updated_at: i64 = now_millis();
    let finished_at: i64 = now_millis();
    success_update_at(output, updated_at, finished_at)
}

/// What a worker sets when a task has failed.
pub open spec fn failure_changes(reason: Seq<char>, updated_at: i64, finished_at: i64) -> Fields {
    no_fields().insert("status"@, BsonValue::Str("failed"@)).insert(
        "error_reason"@,
        BsonValue::Str(reason),
    ).insert("updated_at"@, BsonValue::Date(updated_at)).insert(
        "worker_state.finished_at"@,
        BsonValue::Date(finished_at),
    )
}

/// The update for a task that has failed.
pub fn failure_update_at(reason: &str, updated_at: i64, finished_at: i64) -> (update: Document)
    ensures
        document_fields(update) == set_update(failure_changes(reason@, updated_at, finished_at)),
{
    let changes = one_field("status", bson_str("failed"));
    let changes = with_field(changes, "error_reason", bson_str(reason));
    let changes = with_field(changes, "updated_at", bson_date(updated_at));
    let changes = with_field(changes, "worker_state.finished_at", bson_date(finished_at));
    one_field("$set", bson_doc(changes))
}

/// The update for a task that has just failed.
pub fn failure_update(reason: &str) -> (update: Document)
    ensures
        exists|updated_at: i64, finished_at: i64|
            document_fields(update) == set_update(
                #[trigger] failure_changes(reason@, updated_at, finished_at),
            ),
{
    let updated_at: i64 = now_millis();
    let finished_at: i64 = now_millis();
    failure_update_at(reason, updated_at, finished_at)
}

/// The filter for the tasks that run under a worker's id.
pub open spec fn running_under(worker_id: Seq<char>) -> Fields {
    no_fields().insert("status"@, BsonValue::Str("running"@)).insert(
        "worker_state.worker_id"@,
        BsonValue::Str(worker_id),
    )
}

/// The filter for the tasks that run under a worker's id when the worker shuts down.
pub fn shutdown_filter(worker_id: &str) -> (filter: Document)
    ensures
        document_fields(filter) == running_under(worker_id@),
{
    let filter = running_tasks_filter();
    with_field(filter, "worker_state.worker_id", bson_str(worker_id))
}

/// What a worker that shuts down sets on the tasks that run under its id.
pub open spec fn shutdown_changes(updated_at: i64, finished_at: i64) -> Fields {
    failure_changes("worker shut down"@, updated_at, finished_at).insert(
        "worker_state.shutdown_reason"@,
        BsonValue::Str("worker shut down"@),
    )
}

/// The update for the tasks that run under a worker's id when the worker shuts down.
pub fn shutdown_update_at(updated_at: i64, finished_at: i64) -> (update: Document)
    ensures
        document_fields(update) == set_update(shutdown_changes(updated_at, finished_at)),
{
    let changes = one_field("status", bson_str("failed"));
    let changes = with_field(changes, "error_reason", bson_str("worker shut down"));
    let changes = with_field(changes, "updated_at", bson_date(updated_at));
    let changes = with_field(changes, "worker_state.finished_at", bson_date(finished_at));
    let changes = with_field(
        changes,
        "worker_state.shutdown_reason",
        bson_str("worker shut down"),
    );
    one_field("$set", bson_doc(changes))
}

/// The update for the tasks that run under a worker's id when the worker shuts down now.
pub fn shutdown_update() -> (update: Document)
    ensures
        exists|updated_at: i64, finished_at: i64|
            document_fields(update) == set_update(
                #[trigger] shutdown_changes(updated_at, finished_at),
            ),
{
    let updated_at: i64 = now_millis();
    let finished_at: i64 = now_millis();
    shutdown_update_at(updated_at, finished_at)
}

} // verus!
