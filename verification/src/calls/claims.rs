//! Calls by which a worker claims tasks, keeps them and ends them.
use std::time::Duration;

use bson::{Bson, Document};
use vstd::prelude::*;

use crate::calls::requests::{has_status, millis_in_64_bits};
use crate::claim::{
    all_fields, claim_changes, claim_filters, claim_update, expired_filter, failure_changes,
    failure_update, failure_update_at, heartbeat_changes, heartbeat_update, heartbeat_update_at,
    is_random_uuid, own_running_filter, ownership_filter, pending_filter, pending_tasks_filter,
    prepare_claim, prepare_claim_at, prepare_expired_claim, prepare_expired_claim_at,
    running_tasks_filter, set_update, shutdown_changes, shutdown_filter, shutdown_update,
    shutdown_update_at, stale_claim_filter, stale_filter, success_changes, success_update,
    success_update_at, ClaimMode, PreparedClaim,
};
use crate::document::{
    bson_value, document_fields, field, str_field, string_views, text_view, BsonValue,
    Fields,
};
use crate::laws::{
    expired_claim_reaches, has_id_among, own_running_means, ownership_means, pending_means,
    selects_without_alternatives, set_update_means, stale_means, stale_timeout, unrelated_at,
};
use crate::names::{
    paths_lead, task_names_differ, worker_field, worker_names_differ,
};
use crate::object_key::{object_bytes, object_bytes_read_back, ObjectKey};
use crate::query::{is_related, is_untouched, lookup, selects, updates};
use crate::time::stored_millis;

verus! {

/// Whether the id of a task is one of these.
pub open spec fn is_among(task: Fields, task_ids: Seq<String>) -> bool {
    exists|i: int|
        0 <= i < task_ids.len() && field(task, "task_id"@) == Some(
            BsonValue::Str((#[trigger] task_ids[i])@),
        )
}

/// Whether a task runs under a worker's id.
pub open spec fn runs_under(task: Fields, worker_id: Seq<char>) -> bool {
    &&& has_status(task, "running"@)
    &&& worker_field(task, "worker_id"@) == Some(BsonValue::Str(worker_id))
}

/// The timeout that counts for a task: its own, or else the one that its claim recorded, or else this
/// default.
pub open spec fn counting_timeout(task: Fields, default_millis: i64) -> BsonValue {
    if field(task, "worker_switch_timeout"@) is Some && field(task, "worker_switch_timeout"@) != Some(
        BsonValue::Null,
    ) {
        field(task, "worker_switch_timeout"@)->0
    } else if worker_field(task, "switch_timeout_ms"@) is Some && worker_field(
        task,
        "switch_timeout_ms"@,
    ) != Some(BsonValue::Null) {
        worker_field(task, "switch_timeout_ms"@)->0
    } else {
        BsonValue::Int64(default_millis)
    }
}

/// Whether so many milliseconds after the last heartbeat of a task is an instant that has come by
/// `now`.
pub open spec fn has_lapsed(task: Fields, millis: int, now: i64) -> bool {
    worker_field(task, "heartbeat_at"@) matches Some(BsonValue::Date(heartbeat_at)) && i64::MIN
        <= heartbeat_at + millis <= now
}

/// Whether a running task is abandoned at `now`: its timeout has passed since its last heartbeat.
pub open spec fn is_abandoned(task: Fields, default_millis: i64, now: i64) -> bool {
    &&& has_status(task, "running"@)
    &&& match counting_timeout(task, default_millis) {
        BsonValue::Int32(millis) => has_lapsed(task, millis as int, now),
        BsonValue::Int64(millis) => has_lapsed(task, millis as int, now),
        _ => false,
    }
}

/// Whether one of the filters of a claim selects a task.
pub open spec fn is_reached(claim: PreparedClaim, task: Fields) -> bool {
    exists|i: int|
        0 <= i < claim.filters@.len() && selects(
            document_fields(#[trigger] claim.filters@[i]),
            task,
        )
}

proof fn among_means(task: Fields, task_ids: Seq<String>)
    ensures
        is_among(task, task_ids) <==> has_id_among(task, string_views(task_ids)),
{
    let views = string_views(task_ids);
    if is_among(task, task_ids) {
        let i = choose|i: int|
            0 <= i < task_ids.len() && field(task, "task_id"@) == Some(
                BsonValue::Str((#[trigger] task_ids[i])@),
            );
        assert(views[i] == task_ids[i]@);
    }
    if has_id_among(task, views) {
        let i = choose|i: int| 0 <= i < views.len() && views[i] == str_field(task, "task_id"@)->0;
        assert(views[i] == task_ids[i]@);
    }
}

proof fn abandoned_means(task: Fields, now: i64, default_millis: i64, excluded: Seq<String>)
    ensures
        selects(stale_filter(now, default_millis, string_views(excluded)), task) <==> is_abandoned(
            task,
            default_millis,
            now,
        ) && !is_among(task, excluded),
{
    among_means(task, excluded);
    stale_means(task, now, default_millis, string_views(excluded));
    assert(stale_timeout(task, default_millis) == Some(counting_timeout(task, default_millis)));
}

proof fn filters_are(claim: PreparedClaim, filters: Seq<Fields>)
    requires
        all_fields(claim.filters@) == filters,
    ensures
        claim.filters@.len() == filters.len(),
        forall|i: int|
            0 <= i < filters.len() ==> document_fields(#[trigger] claim.filters@[i]) == filters[i],
{
    assert forall|i: int| 0 <= i < filters.len() implies document_fields(
        #[trigger] claim.filters@[i],
    ) == filters[i] by {
        assert(all_fields(claim.filters@)[i] == document_fields(claim.filters@[i]));
    }
}

/// The periodic recovery claims the abandoned tasks, whoever ran them, but for those in flight here;
/// it claims no other.
pub proof fn recovery_reaches_abandoned_tasks(
    worker_id: &str,
    timeout: Duration,
    excluded: Vec<String>,
    now: i64,
    claim_token: &str,
    claim_started_at: i64,
    claim: PreparedClaim,
    task: Fields,
)
    requires
        call_ensures(
            prepare_claim_at,
            (
                worker_id,
                timeout,
                &excluded,
                ClaimMode::StaleRecovery,
                now,
                claim_token,
                claim_started_at,
            ),
            claim,
        ),
    ensures
        is_reached(claim, task) <==> is_abandoned(task, millis_in_64_bits(timeout), now)
            && !is_among(task, excluded@),
        claim.filters@.len() == 1,
{
    recovery_filters_mean(worker_id@, timeout, excluded, now, claim, task);
}

proof fn recovery_filters_mean(
    worker_id: Seq<char>,
    timeout: Duration,
    excluded: Vec<String>,
    now: i64,
    claim: PreparedClaim,
    task: Fields,
)
    requires
        all_fields(claim.filters@) == claim_filters(
            ClaimMode::StaleRecovery,
            worker_id,
            now,
            millis_in_64_bits(timeout),
            string_views(excluded@),
        ),
    ensures
        is_reached(claim, task) <==> is_abandoned(task, millis_in_64_bits(timeout), now)
            && !is_among(task, excluded@),
        claim.filters@.len() == 1,
{
    let millis = millis_in_64_bits(timeout);
    let filters = seq![stale_filter(now, millis, string_views(excluded@))];
    filters_are(claim, filters);
    abandoned_means(task, now, millis, excluded@);
    assert(document_fields(claim.filters@[0]) == filters[0]);
}

/// The claims of ready tasks reach the tasks that wait, and the tasks that run under the worker's own
/// id without being in flight here; they reach no other. Those that wait come first.
pub proof fn ready_claim_reaches_waiting_and_own_tasks(
    worker_id: &str,
    timeout: Duration,
    excluded: Vec<String>,
    now: i64,
    claim_token: &str,
    claim_started_at: i64,
    claim: PreparedClaim,
    task: Fields,
)
    requires
        call_ensures(
            prepare_claim_at,
            (worker_id, timeout, &excluded, ClaimMode::Ready, now, claim_token, claim_started_at),
            claim,
        ),
    ensures
        is_reached(claim, task) <==> has_status(task, "pending"@) || (runs_under(task, worker_id@)
            && !is_among(task, excluded@)),
        claim.filters@.len() == 2,
        selects(document_fields(claim.filters@[0]), task) <==> has_status(task, "pending"@),
{
    ready_filters_mean(worker_id@, timeout, excluded, now, claim, task);
}

proof fn ready_filters_mean(
    worker_id: Seq<char>,
    timeout: Duration,
    excluded: Vec<String>,
    now: i64,
    claim: PreparedClaim,
    task: Fields,
)
    requires
        all_fields(claim.filters@) == claim_filters(
            ClaimMode::Ready,
            worker_id,
            now,
            millis_in_64_bits(timeout),
            string_views(excluded@),
        ),
    ensures
        is_reached(claim, task) <==> has_status(task, "pending"@) || (runs_under(task, worker_id)
            && !is_among(task, excluded@)),
        claim.filters@.len() == 2,
        selects(document_fields(claim.filters@[0]), task) <==> has_status(task, "pending"@),
{
    let filters = seq![pending_filter(), own_running_filter(worker_id, string_views(excluded@))];
    filters_are(claim, filters);
    pending_means(task);
    own_running_means(task, worker_id, string_views(excluded@));
    among_means(task, excluded@);
    assert(document_fields(claim.filters@[0]) == filters[0]);
    assert(document_fields(claim.filters@[1]) == filters[1]);
}

/// Whether a document is what a claim makes of one: it runs under this worker and this token, had its
/// last heartbeat when the claim was made, and is otherwise what it was.
pub open spec fn is_claimed(
    before: Fields,
    after: Fields,
    worker_id: Seq<char>,
    claim_token: Seq<char>,
    claim_started_at: i64,
    timeout: Duration,
) -> bool {
    &&& has_status(after, "running"@)
    &&& field(after, "updated_at"@) == Some(BsonValue::Date(claim_started_at))
    &&& worker_field(after, "worker_id"@) == Some(BsonValue::Str(worker_id))
    &&& worker_field(after, "claim_token"@) == Some(BsonValue::Str(claim_token))
    &&& worker_field(after, "started_at"@) == Some(BsonValue::Date(claim_started_at))
    &&& worker_field(after, "heartbeat_at"@) == Some(BsonValue::Date(claim_started_at))
    &&& worker_field(after, "switch_timeout_ms"@) == Some(
        BsonValue::Int64(millis_in_64_bits(timeout)),
    )
    &&& forall|path: Seq<char>|
        !is_related(path, "status"@) && !is_related(path, "updated_at"@) && !is_related(
            path,
            "worker_state"@,
        ) ==> #[trigger] lookup(after, path) == lookup(before, path)
}

proof fn claiming_means(
    before: Fields,
    after: Fields,
    worker_id: Seq<char>,
    claim_token: Seq<char>,
    claim_started_at: i64,
    timeout: Duration,
)
    requires
        updates(
            set_update(
                claim_changes(worker_id, claim_token, claim_started_at, millis_in_64_bits(timeout)),
            ),
            before,
            after,
            false,
        ),
    ensures
        is_claimed(before, after, worker_id, claim_token, claim_started_at, timeout),
{
    let changes = claim_changes(
        worker_id,
        claim_token,
        claim_started_at,
        millis_in_64_bits(timeout),
    );
    task_names_differ();
    worker_names_differ();
    paths_lead(after);
    set_update_means(changes, before, after, false);
    assert(changes.dom().contains("status"@));
    assert(changes.dom().contains("updated_at"@));
    assert(changes.dom().contains("worker_state"@));
    assert forall|path: Seq<char>|
        !is_related(path, "status"@) && !is_related(path, "updated_at"@) && !is_related(
            path,
            "worker_state"@,
        ) implies #[trigger] lookup(after, path) == lookup(before, path) by {
        assert(is_untouched(path, changes));
    }
}

/// A claim takes a task over in the name of the worker, under its token and with its timeout on
/// record.
pub proof fn claim_takes_the_task_over(
    worker_id: &str,
    timeout: Duration,
    excluded: Vec<String>,
    mode: ClaimMode,
    now: i64,
    claim_token: &str,
    claim_started_at: i64,
    claim: PreparedClaim,
    update: Document,
    before: Fields,
    after: Fields,
)
    requires
        call_ensures(
            prepare_claim_at,
            (worker_id, timeout, &excluded, mode, now, claim_token, claim_started_at),
            claim,
        ),
        call_ensures(claim_update, (worker_id, claim_token, claim_started_at, timeout), update),
        updates(document_fields(claim.update), before, after, false),
    ensures
        is_claimed(before, after, worker_id@, claim_token@, claim_started_at, timeout),
        document_fields(update) == document_fields(claim.update),
{
    claiming_means(before, after, worker_id@, claim_token@, claim_started_at, timeout);
}

/// Whether a claim reaches the tasks that wait and those that run under the worker's own id without
/// being among the excluded, and no other.
pub open spec fn reaches_ready(
    claim: PreparedClaim,
    worker_id: Seq<char>,
    excluded: Seq<String>,
) -> bool {
    forall|task: Fields| #[trigger]
        is_reached(claim, task) <==> has_status(task, "pending"@) || (runs_under(task, worker_id)
            && !is_among(task, excluded))
}

/// Whether a claim reaches the tasks that are abandoned at `now` and not excluded, and no other.
pub open spec fn reaches_abandoned(
    claim: PreparedClaim,
    timeout: Duration,
    excluded: Seq<String>,
    now: i64,
) -> bool {
    forall|task: Fields| #[trigger]
        is_reached(claim, task) <==> is_abandoned(task, millis_in_64_bits(timeout), now)
            && !is_among(task, excluded)
}

/// Whether a claim reaches one task alone, where it is abandoned at `now` and not excluded.
pub open spec fn reaches_expired(
    claim: PreparedClaim,
    bytes: Seq<u8>,
    task_id: Option<&str>,
    timeout: Duration,
    excluded: Seq<String>,
    now: i64,
) -> bool {
    forall|task: Fields| #[trigger]
        is_reached(claim, task) <==> is_the_one(task, bytes, task_id) && is_abandoned(
            task,
            millis_in_64_bits(timeout),
            now,
        ) && !is_among(task, excluded)
}

/// A claim made now reaches what is to be claimed now, and takes it over under a fresh token.
pub proof fn claim_of_the_moment(
    worker_id: &str,
    timeout: Duration,
    excluded: Vec<String>,
    mode: ClaimMode,
    claim: PreparedClaim,
    before: Fields,
    after: Fields,
)
    requires
        call_ensures(prepare_claim, (worker_id, timeout, &excluded, mode), claim),
        updates(document_fields(claim.update), before, after, false),
    ensures
        mode is Ready ==> reaches_ready(claim, worker_id@, excluded@),
        mode is StaleRecovery ==> exists|now: i64| #[trigger]
            reaches_abandoned(claim, timeout, excluded@, now),
        exists|claim_token: Seq<char>, claim_started_at: i64| #[trigger]
            is_claimed(before, after, worker_id@, claim_token, claim_started_at, timeout)
                && is_random_uuid(claim_token),
{
    let now = choose|now: i64|
        all_fields(claim.filters@) == #[trigger] claim_filters(
            mode,
            worker_id@,
            now,
            millis_in_64_bits(timeout),
            string_views(excluded@),
        );
    match mode {
        ClaimMode::Ready => {
            assert forall|task: Fields| #[trigger]
                is_reached(claim, task) <==> has_status(task, "pending"@) || (runs_under(
                    task,
                    worker_id@,
                ) && !is_among(task, excluded@)) by {
                ready_filters_mean(worker_id@, timeout, excluded, now, claim, task);
            }
        },
        ClaimMode::StaleRecovery => {
            assert forall|task: Fields| #[trigger]
                is_reached(claim, task) <==> is_abandoned(task, millis_in_64_bits(timeout), now)
                    && !is_among(task, excluded@) by {
                recovery_filters_mean(worker_id@, timeout, excluded, now, claim, task);
            }
            assert(reaches_abandoned(claim, timeout, excluded@, now));
        },
    }
    assert(stored_millis(timeout) == millis_in_64_bits(timeout));
    claim_is_marked(worker_id@, timeout, claim, before, after);
}

proof fn claim_is_marked(
    worker_id: Seq<char>,
    timeout: Duration,
    claim: PreparedClaim,
    before: Fields,
    after: Fields,
)
    requires
        exists|claim_token: Seq<char>, claim_started_at: i64|
            is_random_uuid(claim_token) && document_fields(claim.update) == set_update(
                #[trigger] claim_changes(
                    worker_id,
                    claim_token,
                    claim_started_at,
                    millis_in_64_bits(timeout),
                ),
            ),
        updates(document_fields(claim.update), before, after, false),
    ensures
        exists|claim_token: Seq<char>, claim_started_at: i64| #[trigger]
            is_claimed(before, after, worker_id, claim_token, claim_started_at, timeout)
                && is_random_uuid(claim_token),
{
    let (claim_token, claim_started_at) = choose|claim_token: Seq<char>, claim_started_at: i64|
        is_random_uuid(claim_token) && document_fields(claim.update) == set_update(
            #[trigger] claim_changes(
                worker_id,
                claim_token,
                claim_started_at,
                millis_in_64_bits(timeout),
            ),
        );
    claiming_means(before, after, worker_id, claim_token, claim_started_at, timeout);
}

/// Whether a document is the one that an expired claim goes for: the one with these bytes for its
/// object id, and with the known task id where there is one.
pub open spec fn is_the_one(task: Fields, bytes: Seq<u8>, task_id: Option<&str>) -> bool {
    &&& field(task, "_id"@) == Some(BsonValue::ObjectId(bytes))
    &&& task_id matches Some(task_id) ==> field(task, "task_id"@) == Some(BsonValue::Str(task_id@))
}

/// The claim for an expired task reaches that task alone, and only while it is abandoned and not in
/// flight here; it takes it over like any other claim.
pub proof fn expired_claim_reaches_its_task(
    bytes: [u8; 12],
    id: ObjectKey,
    worker_id: &str,
    timeout: Duration,
    task_id: Option<&str>,
    excluded: Vec<String>,
    now: i64,
    claim_token: &str,
    claim_started_at: i64,
    claim: PreparedClaim,
    before: Fields,
    after: Fields,
)
    requires
        call_ensures(ObjectKey::from_bytes, (bytes,), id),
        call_ensures(
            prepare_expired_claim_at,
            (id, worker_id, timeout, task_id, &excluded, now, claim_token, claim_started_at),
            claim,
        ),
        updates(document_fields(claim.update), before, after, false),
    ensures
        is_reached(claim, before) <==> is_the_one(before, bytes@, task_id) && is_abandoned(
            before,
            millis_in_64_bits(timeout),
            now,
        ) && !is_among(before, excluded@),
        is_claimed(before, after, worker_id@, claim_token@, claim_started_at, timeout),
{
    object_bytes_read_back(bytes@);
    expired_filters_mean(bytes@, timeout, task_id, excluded, now, claim, before);
    claiming_means(before, after, worker_id@, claim_token@, claim_started_at, timeout);
}

proof fn expired_filters_mean(
    bytes: Seq<u8>,
    timeout: Duration,
    task_id: Option<&str>,
    excluded: Vec<String>,
    now: i64,
    claim: PreparedClaim,
    task: Fields,
)
    requires
        all_fields(claim.filters@) == seq![
            expired_filter(
                bytes,
                text_view(task_id),
                now,
                millis_in_64_bits(timeout),
                string_views(excluded@),
            ),
        ],
    ensures
        is_reached(claim, task) <==> is_the_one(task, bytes, task_id) && is_abandoned(
            task,
            millis_in_64_bits(timeout),
            now,
        ) && !is_among(task, excluded@),
{
    let millis = millis_in_64_bits(timeout);
    let known = text_view(task_id);
    let filters = seq![expired_filter(bytes, known, now, millis, string_views(excluded@))];
    filters_are(claim, filters);
    abandoned_means(task, now, millis, excluded@);
    expired_claim_reaches(task, bytes, known, now, millis, string_views(excluded@));
    assert(document_fields(claim.filters@[0]) == filters[0]);
}

/// The same holds of a claim for an expired task that is made now.
pub proof fn expired_claim_of_the_moment(
    bytes: [u8; 12],
    id: ObjectKey,
    worker_id: &str,
    timeout: Duration,
    task_id: Option<&str>,
    excluded: Vec<String>,
    claim: PreparedClaim,
    before: Fields,
    after: Fields,
)
    requires
        call_ensures(ObjectKey::from_bytes, (bytes,), id),
        call_ensures(prepare_expired_claim, (id, worker_id, timeout, task_id, &excluded), claim),
        updates(document_fields(claim.update), before, after, false),
    ensures
        exists|now: i64| #[trigger]
            reaches_expired(claim, bytes@, task_id, timeout, excluded@, now),
        exists|claim_token: Seq<char>, claim_started_at: i64| #[trigger]
            is_claimed(before, after, worker_id@, claim_token, claim_started_at, timeout)
                && is_random_uuid(claim_token),
{
    object_bytes_read_back(bytes@);
    let millis = stored_millis(timeout);
    let ids = string_views(excluded@);
    let filters = all_fields(claim.filters@);
    let now = choose|now: i64|
        filters == seq![
            #[trigger] expired_filter(object_bytes(id@), text_view(task_id), now, millis, ids),
        ];
    assert(filters == seq![
        expired_filter(object_bytes(id@), text_view(task_id), now, millis, ids),
    ]);
    assert forall|task: Fields| #[trigger]
        is_reached(claim, task) <==> is_the_one(task, bytes@, task_id) && is_abandoned(
            task,
            millis_in_64_bits(timeout),
            now,
        ) && !is_among(task, excluded@) by {
        expired_filters_mean(bytes@, timeout, task_id, excluded, now, claim, task);
    }
    assert(reaches_expired(claim, bytes@, task_id, timeout, excluded@, now));
    assert(stored_millis(timeout) == millis_in_64_bits(timeout));
    claim_is_marked(worker_id@, timeout, claim, before, after);
}

/// The filters by which a worker looks through the collection select what they should.
pub proof fn filters_select_by_status(
    worker_id: &str,
    timeout: Duration,
    excluded: Vec<String>,
    now: i64,
    stale: Document,
    pending: Document,
    running: Document,
    own: Document,
    task: Fields,
)
    requires
        call_ensures(stale_claim_filter, (now, timeout, &excluded), stale),
        call_ensures(pending_tasks_filter, (), pending),
        call_ensures(running_tasks_filter, (), running),
        call_ensures(shutdown_filter, (worker_id,), own),
    ensures
        selects(document_fields(stale), task) <==> is_abandoned(
            task,
            millis_in_64_bits(timeout),
            now,
        ) && !is_among(task, excluded@),
        selects(document_fields(pending), task) <==> has_status(task, "pending"@),
        selects(document_fields(running), task) <==> has_status(task, "running"@),
        selects(document_fields(own), task) <==> runs_under(task, worker_id@),
{
    abandoned_means(task, now, millis_in_64_bits(timeout), excluded@);
    pending_means(task);
    task_names_differ();
    paths_lead(task);
    selects_without_alternatives(document_fields(running), task);
    selects_without_alternatives(document_fields(own), task);
    assert(document_fields(running).dom().contains("status"@));
    assert(document_fields(own).dom().contains("status"@));
    assert(document_fields(own).dom().contains("worker_state.worker_id"@));
}

/// The filter through which a worker writes selects the task while it runs under that very claim.
pub proof fn ownership_filter_selects_one_claim(
    task_id: &str,
    worker_id: &str,
    claim_token: &str,
    filter: Document,
    task: Fields,
)
    requires
        call_ensures(ownership_filter, (task_id, worker_id, claim_token), filter),
    ensures
        selects(document_fields(filter), task) <==> {
            &&& field(task, "task_id"@) == Some(BsonValue::Str(task_id@))
            &&& runs_under(task, worker_id@)
            &&& worker_field(task, "claim_token"@) == Some(BsonValue::Str(claim_token@))
        },
{
    ownership_means(task, task_id@, worker_id@, claim_token@);
}

/// Whether a document has had a heartbeat at `now`, and is otherwise what it was.
pub open spec fn is_kept_alive(before: Fields, after: Fields, now: i64) -> bool {
    &&& worker_field(after, "heartbeat_at"@) == Some(BsonValue::Date(now))
    &&& forall|path: Seq<char>|
        !is_related(path, "worker_state.heartbeat_at"@) ==> #[trigger] lookup(after, path) == lookup(
            before,
            path,
        )
}

/// A heartbeat moves the instant of the last heartbeat, and nothing else.
pub proof fn heartbeat_moves_the_heartbeat(
    now: i64,
    update: Document,
    before: Fields,
    after: Fields,
)
    requires
        call_ensures(heartbeat_update_at, (now,), update),
        updates(document_fields(update), before, after, false),
    ensures
        is_kept_alive(before, after, now),
{
    beating_means(now, before, after);
}

pub(crate) proof fn beating_means(now: i64, before: Fields, after: Fields)
    requires
        updates(set_update(heartbeat_changes(now)), before, after, false),
    ensures
        is_kept_alive(before, after, now),
{
    let changes = heartbeat_changes(now);
    paths_lead(after);
    set_update_means(changes, before, after, false);
    assert(changes.dom().contains("worker_state.heartbeat_at"@));
    assert forall|path: Seq<char>|
        !is_related(path, "worker_state.heartbeat_at"@) implies #[trigger] lookup(after, path)
        == lookup(before, path) by {
        assert(is_untouched(path, changes));
    }
}

/// A heartbeat sent now does the same.
pub proof fn heartbeat_of_the_moment(update: Document, before: Fields, after: Fields)
    requires
        call_ensures(heartbeat_update, (), update),
        updates(document_fields(update), before, after, false),
    ensures
        exists|now: i64| #[trigger] is_kept_alive(before, after, now),
{
    let now = choose|now: i64|
        document_fields(update) == set_update(#[trigger] heartbeat_changes(now));
    beating_means(now, before, after);
}

/// Whether a document says that its task has succeeded with this output, and is otherwise what it was.
pub open spec fn has_succeeded(
    before: Fields,
    after: Fields,
    output: BsonValue,
    updated_at: i64,
    finished_at: i64,
) -> bool {
    &&& has_status(after, "succeeded"@)
    &&& field(after, "task_output"@) == Some(output)
    &&& field(after, "updated_at"@) == Some(BsonValue::Date(updated_at))
    &&& worker_field(after, "finished_at"@) == Some(BsonValue::Date(finished_at))
    &&& forall|path: Seq<char>|
        !is_related(path, "status"@) && !is_related(path, "task_output"@) && !is_related(
            path,
            "updated_at"@,
        ) && !is_related(path, "worker_state.finished_at"@) ==> #[trigger] lookup(after, path)
            == lookup(before, path)
}

pub(crate) proof fn succeeding_means(
    before: Fields,
    after: Fields,
    output: BsonValue,
    updated_at: i64,
    finished_at: i64,
)
    requires
        updates(set_update(success_changes(output, updated_at, finished_at)), before, after, false),
    ensures
        has_succeeded(before, after, output, updated_at, finished_at),
{
    let changes = success_changes(output, updated_at, finished_at);
    task_names_differ();
    paths_lead(after);
    set_update_means(changes, before, after, false);
    assert(changes.dom().contains("status"@));
    assert(changes.dom().contains("task_output"@));
    assert(changes.dom().contains("updated_at"@));
    assert(changes.dom().contains("worker_state.finished_at"@));
    assert forall|path: Seq<char>|
        !is_related(path, "status"@) && !is_related(path, "task_output"@) && !is_related(
            path,
            "updated_at"@,
        ) && !is_related(path, "worker_state.finished_at"@) implies #[trigger] lookup(after, path)
        == lookup(before, path) by {
        assert(is_untouched(path, changes));
    }
}

/// The write of a worker whose task has succeeded stores the output.
pub proof fn success_stores_the_output(
    output: Bson,
    updated_at: i64,
    finished_at: i64,
    update: Document,
    before: Fields,
    after: Fields,
)
    requires
        call_ensures(success_update_at, (output, updated_at, finished_at), update),
        updates(document_fields(update), before, after, false),
    ensures
        has_succeeded(before, after, bson_value(output), updated_at, finished_at),
{
    succeeding_means(before, after, bson_value(output), updated_at, finished_at);
}

/// The write of a worker whose task has just succeeded does the same.
pub proof fn success_of_the_moment(
    output: Bson,
    update: Document,
    before: Fields,
    after: Fields,
)
    requires
        call_ensures(success_update, (output,), update),
        updates(document_fields(update), before, after, false),
    ensures
        exists|updated_at: i64, finished_at: i64| #[trigger]
            has_succeeded(before, after, bson_value(output), updated_at, finished_at),
{
    let (updated_at, finished_at) = choose|updated_at: i64, finished_at: i64|
        document_fields(update) == set_update(
            #[trigger] success_changes(bson_value(output), updated_at, finished_at),
        );
    succeeding_means(before, after, bson_value(output), updated_at, finished_at);
}

/// Whether a document says that its task has failed for this reason.
pub open spec fn has_failed(
    after: Fields,
    reason: Seq<char>,
    updated_at: i64,
    finished_at: i64,
) -> bool {
    &&& has_status(after, "failed"@)
    &&& field(after, "error_reason"@) == Some(BsonValue::Str(reason))
    &&& field(after, "updated_at"@) == Some(BsonValue::Date(updated_at))
    &&& worker_field(after, "finished_at"@) == Some(BsonValue::Date(finished_at))
}

/// Whether a failure has left the rest of a document as it was.
pub open spec fn failure_spares(before: Fields, after: Fields) -> bool {
    forall|path: Seq<char>|
        !is_related(path, "status"@) && !is_related(path, "error_reason"@) && !is_related(
            path,
            "updated_at"@,
        ) && !is_related(path, "worker_state.finished_at"@) && !is_related(
            path,
            "worker_state.shutdown_reason"@,
        ) ==> #[trigger] lookup(after, path) == lookup(before, path)
}

pub(crate) proof fn failing_means(
    before: Fields,
    after: Fields,
    changes: Fields,
    reason: Seq<char>,
    updated_at: i64,
    finished_at: i64,
)
    requires
        updates(set_update(changes), before, after, false),
        changes == failure_changes(reason, updated_at, finished_at) || (reason
            == "worker shut down"@ && changes == shutdown_changes(updated_at, finished_at)),
    ensures
        has_failed(after, reason, updated_at, finished_at),
        failure_spares(before, after),
        changes == shutdown_changes(updated_at, finished_at) ==> worker_field(
            after,
            "shutdown_reason"@,
        ) == Some(BsonValue::Str("worker shut down"@)),
        changes == failure_changes(reason, updated_at, finished_at) ==> (!is_related(
            "worker_state.shutdown_reason"@,
            "worker_state.finished_at"@,
        ) ==> worker_field(after, "shutdown_reason"@) == worker_field(before, "shutdown_reason"@)),
{
    task_names_differ();
    paths_lead(before);
    paths_lead(after);
    shutdown_path_is_apart();
    set_update_means(changes, before, after, false);
    assert(changes.dom().contains("status"@));
    assert(changes.dom().contains("error_reason"@));
    assert(changes.dom().contains("updated_at"@));
    assert(changes.dom().contains("worker_state.finished_at"@));
    if changes == shutdown_changes(updated_at, finished_at) {
        assert(changes.dom().contains("worker_state.shutdown_reason"@));
    }
    assert forall|path: Seq<char>|
        !is_related(path, "status"@) && !is_related(path, "error_reason"@) && !is_related(
            path,
            "updated_at"@,
        ) && !is_related(path, "worker_state.finished_at"@) && !is_related(
            path,
            "worker_state.shutdown_reason"@,
        ) implies #[trigger] lookup(after, path) == lookup(before, path) by {
        assert(is_untouched(path, changes));
    }
    if changes == failure_changes(reason, updated_at, finished_at) {
        assert(is_untouched("worker_state.shutdown_reason"@, changes));
    }
}

proof fn shutdown_path_is_apart()
    ensures
        !is_related("worker_state.shutdown_reason"@, "status"@),
        !is_related("worker_state.shutdown_reason"@, "error_reason"@),
        !is_related("worker_state.shutdown_reason"@, "updated_at"@),
        !is_related("worker_state.shutdown_reason"@, "worker_state.finished_at"@),
{
    reveal_strlit("worker_state.shutdown_reason");
    reveal_strlit("worker_state.finished_at");
    reveal_strlit("status");
    reveal_strlit("error_reason");
    reveal_strlit("updated_at");
    let path = "worker_state.shutdown_reason"@;
    unrelated_at(path, "status"@, 0);
    unrelated_at(path, "error_reason"@, 0);
    unrelated_at(path, "updated_at"@, 0);
    unrelated_at(path, "worker_state.finished_at"@, 13);
}

/// The write of a worker whose task has failed stores the reason, and no other.
pub proof fn failure_stores_the_reason(
    reason: &str,
    updated_at: i64,
    finished_at: i64,
    update: Document,
    before: Fields,
    after: Fields,
)
    requires
        call_ensures(failure_update_at, (reason, updated_at, finished_at), update),
        updates(document_fields(update), before, after, false),
    ensures
        has_failed(after, reason@, updated_at, finished_at),
        failure_spares(before, after),
        worker_field(after, "shutdown_reason"@) == worker_field(before, "shutdown_reason"@),
{
    shutdown_path_is_apart();
    failing_means(
        before,
        after,
        failure_changes(reason@, updated_at, finished_at),
        reason@,
        updated_at,
        finished_at,
    );
}

/// The write of a worker whose task has just failed does the same.
pub proof fn failure_of_the_moment(
    reason: &str,
    update: Document,
    before: Fields,
    after: Fields,
)
    requires
        call_ensures(failure_update, (reason,), update),
        updates(document_fields(update), before, after, false),
    ensures
        exists|updated_at: i64, finished_at: i64| #[trigger]
            has_failed(after, reason@, updated_at, finished_at),
        failure_spares(before, after),
{
    let (updated_at, finished_at) = choose|updated_at: i64, finished_at: i64|
        document_fields(update) == set_update(
            #[trigger] failure_changes(reason@, updated_at, finished_at),
        );
    failing_means(
        before,
        after,
        failure_changes(reason@, updated_at, finished_at),
        reason@,
        updated_at,
        finished_at,
    );
}

/// A worker that shuts down fails a task with that for its reason, and puts it on record.
pub proof fn shutdown_stores_its_reason(
    updated_at: i64,
    finished_at: i64,
    update: Document,
    before: Fields,
    after: Fields,
)
    requires
        call_ensures(shutdown_update_at, (updated_at, finished_at), update),
        updates(document_fields(update), before, after, false),
    ensures
        has_failed(after, "worker shut down"@, updated_at, finished_at),
        worker_field(after, "shutdown_reason"@) == Some(BsonValue::Str("worker shut down"@)),
        failure_spares(before, after),
{
    failing_means(
        before,
        after,
        shutdown_changes(updated_at, finished_at),
        "worker shut down"@,
        updated_at,
        finished_at,
    );
}

/// A worker that shuts down now does the same.
pub proof fn shutdown_of_the_moment(update: Document, before: Fields, after: Fields)
    requires
        call_ensures(shutdown_update, (), update),
        updates(document_fields(update), before, after, false),
    ensures
        exists|updated_at: i64, finished_at: i64| #[trigger]
            has_failed(after, "worker shut down"@, updated_at, finished_at),
        worker_field(after, "shutdown_reason"@) == Some(BsonValue::Str("worker shut down"@)),
        failure_spares(before, after),
{
    let (updated_at, finished_at) = choose|updated_at: i64, finished_at: i64|
        document_fields(update) == set_update(#[trigger] shutdown_changes(updated_at, finished_at));
    failing_means(
        before,
        after,
        shutdown_changes(updated_at, finished_at),
        "worker shut down"@,
        updated_at,
        finished_at,
    );
}

/// Claims are told apart in metrics by their names.
pub proof fn claims_are_named_in_metrics(ready: &'static str, stale: &'static str)
    requires
        call_ensures(ClaimMode::metric_source, (ClaimMode::Ready,), ready),
        call_ensures(ClaimMode::metric_source, (ClaimMode::StaleRecovery,), stale),
    ensures
        ready@ == "ready"@,
        stale@ == "stale_recovery"@,
{
}

} // verus!
