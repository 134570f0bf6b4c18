//! What a worker's change stream lets through. Nothing here runs: it is the ground on which the
//! table of deadlines can be trusted.
use std::time::Duration;

use vstd::prelude::*;

use crate::claim::operator;
use crate::document::{doc_field, field, no_fields, str_field, BsonValue, Fields};
use crate::expiry::TrackerState;
use crate::laws::one_operator;
use crate::names::{condition_names_differ, expression_names_differ};
use crate::query::{
    alternative_selects, evaluate, is_plain, lookup, lookup_inside, lookup_plain, name_of_type,
    nesting, one_selects, operator_holds, selects, selects_plainly,
};
use crate::schedule::{is_pending, leaves_running, updated_heartbeat, Change, ChangeKind};
use crate::worker::{
    change_stream_stage, relevant_kind, relevant_update, updated_field_exists,
};

verus! {

/// The name of a kind of event.
pub open spec fn kind_name(kind: ChangeKind) -> Option<Seq<char>> {
    match kind {
        ChangeKind::Insert => Some("insert"@),
        ChangeKind::Replace => Some("replace"@),
        ChangeKind::Update => Some("update"@),
        ChangeKind::Delete => Some("delete"@),
        ChangeKind::Other => None,
    }
}

/// Whether a document is the event that announces a change: it names the kind and, for an update,
/// the fields that the update has set.
pub open spec fn announces(event: Fields, change: Change) -> bool {
    &&& kind_name(change.kind) matches Some(name) ==> field(event, "operationType"@) == Some(
        BsonValue::Str(name),
    )
    &&& change.updated_fields matches Some(updated) ==> (doc_field(event, "updateDescription"@)
        matches Some(description) && doc_field(description, "updatedFields"@) == Some(updated))
}

/// Whether a worker's change stream lets an event through.
pub open spec fn is_reported(event: Fields) -> bool {
    match doc_field(change_stream_stage(), "$match"@) {
        Some(filter) => match field(filter, "$or"@) {
            Some(BsonValue::Array(alternatives)) => one_reports(alternatives, event),
            _ => false,
        },
        None => false,
    }
}

/// Whether one of several filters selects an event.
pub open spec fn one_reports(alternatives: Seq<BsonValue>, event: Fields) -> bool {
    exists|i: int| 0 <= i < alternatives.len() && #[trigger] reports(alternatives[i], event)
}

/// Whether a filter, given as a value, selects an event.
pub open spec fn reports(alternative: BsonValue, event: Fields) -> bool {
    match alternative {
        BsonValue::Doc(filter) => selects(filter, event),
        _ => false,
    }
}

/// The two filters of the stage.
proof fn stage_has_two_filters(event: Fields)
    ensures
        is_reported(event) <==> selects(relevant_kind(), event) || selects(
            relevant_update(),
            event,
        ),
{
    let alternatives = seq![BsonValue::Doc(relevant_kind()), BsonValue::Doc(relevant_update())];
    let filter = no_fields().insert("$or"@, BsonValue::Array(alternatives));
    let stage = change_stream_stage();
    assert(stage.dom().contains("$match"@));
    assert(stage["$match"@] == BsonValue::Doc(filter));
    assert(filter.dom().contains("$or"@));
    assert(reports(alternatives[0], event) == selects(relevant_kind(), event));
    assert(reports(alternatives[1], event) == selects(relevant_update(), event));
}

/// The names of events and the paths into them.
proof fn event_paths_lead(event: Fields)
    ensures
        lookup(event, "operationType"@) == field(event, "operationType"@),
        lookup(event, "updateDescription.updatedFields"@) == updated_part(event),
        lookup(event, "updateDescription.updatedFields.status"@) == updated_field(
            event,
            "status"@,
        ),
        lookup(event, "updateDescription.updatedFields.worker_state"@) == updated_field(
            event,
            "worker_state"@,
        ),
        "operationType"@ != "$or"@,
        "operationType"@ != "$expr"@,
        "updateDescription.updatedFields.status"@ != "$or"@,
        "updateDescription.updatedFields.status"@ != "$expr"@,
        "updateDescription.updatedFields.worker_state"@ != "$or"@,
        "updateDescription.updatedFields.worker_state"@ != "$expr"@,
        "$or"@ != "$expr"@,
{
    reveal_strlit("operationType");
    reveal_strlit("updateDescription");
    reveal_strlit("updatedFields");
    reveal_strlit("status");
    reveal_strlit("worker_state");
    reveal_strlit("updatedFields.status");
    reveal_strlit("updatedFields.worker_state");
    reveal_strlit("updateDescription.updatedFields");
    reveal_strlit("updateDescription.updatedFields.status");
    reveal_strlit("updateDescription.updatedFields.worker_state");
    reveal_strlit("$or");
    reveal_strlit("$expr");
    assert("operationType"@[0] != "$or"@[0]);
    assert("operationType"@[0] != "$expr"@[0]);
    assert("updateDescription.updatedFields.status"@[0] != "$or"@[0]);
    assert("updateDescription.updatedFields.status"@[0] != "$expr"@[0]);
    assert("updateDescription.updatedFields.worker_state"@[0] != "$or"@[0]);
    assert("updateDescription.updatedFields.worker_state"@[0] != "$expr"@[0]);
    assert("$or"@[1] != "$expr"@[1]);
    assert(is_plain("operationType"@));
    assert(is_plain("updateDescription"@));
    assert(is_plain("updatedFields"@));
    assert(is_plain("status"@));
    assert(is_plain("worker_state"@));
    lookup_plain(event, "operationType"@);
    assert("updateDescription.updatedFields"@ =~= "updateDescription"@ + seq!['.']
        + "updatedFields"@);
    assert("updateDescription.updatedFields.status"@ =~= "updateDescription"@ + seq!['.']
        + "updatedFields.status"@);
    assert("updateDescription.updatedFields.worker_state"@ =~= "updateDescription"@ + seq!['.']
        + "updatedFields.worker_state"@);
    assert("updatedFields.status"@ =~= "updatedFields"@ + seq!['.'] + "status"@);
    assert("updatedFields.worker_state"@ =~= "updatedFields"@ + seq!['.'] + "worker_state"@);
    lookup_inside(
        event,
        "updateDescription.updatedFields"@,
        "updateDescription"@,
        "updatedFields"@,
    );
    lookup_inside(
        event,
        "updateDescription.updatedFields.status"@,
        "updateDescription"@,
        "updatedFields.status"@,
    );
    lookup_inside(
        event,
        "updateDescription.updatedFields.worker_state"@,
        "updateDescription"@,
        "updatedFields.worker_state"@,
    );
    match doc_field(event, "updateDescription"@) {
        Some(description) => {
            lookup_plain(description, "updatedFields"@);
            lookup_inside(description, "updatedFields.status"@, "updatedFields"@, "status"@);
            lookup_inside(
                description,
                "updatedFields.worker_state"@,
                "updatedFields"@,
                "worker_state"@,
            );
            match doc_field(description, "updatedFields"@) {
                Some(updated) => {
                    lookup_plain(updated, "status"@);
                    lookup_plain(updated, "worker_state"@);
                },
                None => {},
            }
        },
        None => {},
    }
}

/// What stands in an event for the fields that an update has set.
pub open spec fn updated_part(event: Fields) -> Option<BsonValue> {
    match doc_field(event, "updateDescription"@) {
        Some(description) => field(description, "updatedFields"@),
        None => None,
    }
}

/// One of the fields that an update has set.
pub open spec fn updated_field(event: Fields, name: Seq<char>) -> Option<BsonValue> {
    match updated_part(event) {
        Some(BsonValue::Doc(updated)) => field(updated, name),
        _ => None,
    }
}

/// The expression on a literal name finds the field with that very name.
proof fn updated_field_exists_means(event: Fields, name: Seq<char>)
    ensures
        evaluate(updated_field_exists(name), event, nesting()) == Some(
            BsonValue::Bool(updated_field(event, name) is Some),
        ),
{
    expression_names_differ();
    event_paths_lead(event);
    reveal_strlit("$updateDescription.updatedFields");
    reveal_strlit("updateDescription.updatedFields");
    reveal_strlit("input");
    reveal_strlit("field");
    reveal_strlit("missing");
    assert("input"@[0] != "field"@[0]);
    assert("$updateDescription.updatedFields"@.skip(1) =~= "updateDescription.updatedFields"@);
    let input = BsonValue::Str("$updateDescription.updatedFields"@);
    assert(evaluate(input, event, 2) == updated_part(event));
    let arguments = no_fields().insert("input"@, input).insert("field"@, BsonValue::Str(name));
    assert(arguments["input"@] == input);
    assert(arguments["field"@] == BsonValue::Str(name));
    let get_field = no_fields().insert("$getField"@, BsonValue::Doc(arguments));
    assert(get_field.dom().contains("$getField"@));
    assert(evaluate(BsonValue::Doc(get_field), event, 3) == updated_field(event, name));
    let kind = no_fields().insert("$type"@, BsonValue::Doc(get_field));
    assert(kind.dom().contains("$type"@));
    assert(evaluate(BsonValue::Doc(kind), event, 4) == Some(
        BsonValue::Str(name_of_type(updated_field(event, name))),
    ));
    if let Some(value) = updated_field(event, name) {
        not_missing(value);
    }
    let missing = BsonValue::Str("missing"@);
    assert(evaluate(missing, event, 4) == Some(missing));
    let operands = seq![BsonValue::Doc(kind), missing];
    let not_equal = no_fields().insert("$ne"@, BsonValue::Array(operands));
    assert(not_equal.dom().contains("$ne"@));
    assert(not_equal["$ne"@] == BsonValue::Array(operands));
    assert(operands[0] == BsonValue::Doc(kind) && operands[1] == missing);
    assert(updated_field_exists(name) == BsonValue::Doc(not_equal));
}

/// What is there is not missing.
proof fn not_missing(value: BsonValue)
    ensures
        name_of_type(Some(value)) != "missing"@,
{
    reveal_strlit("missing");
    reveal_strlit("null");
    reveal_strlit("bool");
    reveal_strlit("int");
    reveal_strlit("long");
    reveal_strlit("string");
    reveal_strlit("date");
    reveal_strlit("objectId");
    reveal_strlit("array");
    reveal_strlit("object");
    reveal_strlit("other");
    assert("missing"@[0] == 'm');
    assert("null"@[0] != 'm');
    assert("bool"@[0] != 'm');
    assert("int"@[0] != 'm');
    assert("long"@[0] != 'm');
    assert("string"@[0] != 'm');
    assert("date"@[0] != 'm');
    assert("objectId"@[0] != 'm');
    assert("array"@[0] != 'm');
    assert("object"@[0] != 'm');
    assert("other"@[0] != 'm');
}

/// The condition that a field exists.
proof fn exists_filter_selects(event: Fields, path: Seq<char>)
    requires
        path != "$or"@,
        path != "$expr"@,
    ensures
        selects_plainly(
            no_fields().insert(path, operator("$exists"@, BsonValue::Bool(true))),
            event,
        ) <==> lookup(event, path) is Some,
{
    condition_names_differ();
    one_operator(lookup(event, path), "$exists"@, BsonValue::Bool(true));
    let filter = no_fields().insert(path, operator("$exists"@, BsonValue::Bool(true)));
    assert(filter.dom().contains(path));
}

/// Whether an update has set the status, the whole state of the worker, or, under its dotted name, the
/// heartbeat or the switch timeout.
pub open spec fn sets_what_matters(event: Fields) -> bool {
    ||| updated_field(event, "status"@) is Some
    ||| updated_field(event, "worker_state"@) is Some
    ||| updated_field(event, "worker_state.heartbeat_at"@) is Some
    ||| updated_field(event, "worker_state.switch_timeout_ms"@) is Some
}

/// The filter for updates selects those that set something that matters.
proof fn relevant_update_means(event: Fields)
    ensures
        selects(relevant_update(), event) <==> field(event, "operationType"@) == Some(
            BsonValue::Str("update"@),
        ) && sets_what_matters(event),
{
    event_paths_lead(event);
    let filter = relevant_update();
    let status_path = "updateDescription.updatedFields.status"@;
    let state_path = "updateDescription.updatedFields.worker_state"@;
    let present = operator("$exists"@, BsonValue::Bool(true));
    let heartbeat_set = updated_field_exists("worker_state.heartbeat_at"@);
    let timeout_set = updated_field_exists("worker_state.switch_timeout_ms"@);
    let alternatives = seq![
        BsonValue::Doc(no_fields().insert(status_path, present)),
        BsonValue::Doc(no_fields().insert(state_path, present)),
        operator("$expr"@, heartbeat_set),
        operator("$expr"@, timeout_set),
    ];
    assert(filter.dom().contains("$or"@));
    assert(filter["$or"@] == BsonValue::Array(alternatives));
    let plain = filter.remove("$or"@);
    assert(plain =~= no_fields().insert("operationType"@, BsonValue::Str("update"@)));
    assert(plain.dom().contains("operationType"@));
    assert(selects_plainly(plain, event) <==> field(event, "operationType"@) == Some(
        BsonValue::Str("update"@),
    ));
    exists_filter_selects(event, status_path);
    exists_filter_selects(event, state_path);
    updated_field_exists_means(event, "worker_state.heartbeat_at"@);
    updated_field_exists_means(event, "worker_state.switch_timeout_ms"@);
    assert(no_fields().insert("$expr"@, heartbeat_set).dom().contains("$expr"@));
    assert(no_fields().insert("$expr"@, timeout_set).dom().contains("$expr"@));
    assert(alternative_selects(alternatives[0], event) <==> updated_field(event, "status"@) is Some);
    assert(alternative_selects(alternatives[1], event) <==> updated_field(
        event,
        "worker_state"@,
    ) is Some);
    assert(alternative_selects(alternatives[2], event) <==> updated_field(
        event,
        "worker_state.heartbeat_at"@,
    ) is Some);
    assert(alternative_selects(alternatives[3], event) <==> updated_field(
        event,
        "worker_state.switch_timeout_ms"@,
    ) is Some);
    if one_selects(alternatives, event) {
        let i = choose|i: int|
            0 <= i < alternatives.len() && #[trigger] alternative_selects(alternatives[i], event);
        assert(i == 0 || i == 1 || i == 2 || i == 3);
    }
}

/// The filter for kinds selects the events of new, replaced and removed documents.
proof fn relevant_kind_means(event: Fields)
    ensures
        selects(relevant_kind(), event) <==> field(event, "operationType"@) == Some(
            BsonValue::Str("insert"@),
        ) || field(event, "operationType"@) == Some(BsonValue::Str("replace"@)) || field(
            event,
            "operationType"@,
        ) == Some(BsonValue::Str("delete"@)),
{
    event_paths_lead(event);
    condition_names_differ();
    let filter = relevant_kind();
    let kinds = seq![
        BsonValue::Str("insert"@),
        BsonValue::Str("replace"@),
        BsonValue::Str("delete"@),
    ];
    one_operator(lookup(event, "operationType"@), "$in"@, BsonValue::Array(kinds));
    assert(kinds[0] == BsonValue::Str("insert"@));
    assert(kinds[1] == BsonValue::Str("replace"@));
    assert(kinds[2] == BsonValue::Str("delete"@));
    assert(filter.remove("$or"@) =~= filter);
    assert(!filter.dom().contains("$or"@));
    assert(filter.dom().contains("operationType"@));
    assert(operator_holds(lookup(event, "operationType"@), "$in"@, BsonValue::Array(kinds)) <==> (
    field(event, "operationType"@) matches Some(value) && kinds.contains(value)));
    if let Some(value) = field(event, "operationType"@) {
        if kinds.contains(value) {
            let i = choose|i: int| 0 <= i < kinds.len() && kinds[i] == value;
            assert(i == 0 || i == 1 || i == 2);
        }
    }
}

/// A worker's change stream lets through the events of new, replaced and removed documents, and of
/// updates that set something that matters; it lets nothing else through.
pub proof fn change_stream_means(event: Fields)
    ensures
        is_reported(event) <==> {
            ||| field(event, "operationType"@) == Some(BsonValue::Str("insert"@))
            ||| field(event, "operationType"@) == Some(BsonValue::Str("replace"@))
            ||| field(event, "operationType"@) == Some(BsonValue::Str("delete"@))
            ||| field(event, "operationType"@) == Some(BsonValue::Str("update"@))
                && sets_what_matters(event)
        },
{
    stage_has_two_filters(event);
    relevant_kind_means(event);
    relevant_update_means(event);
}

/// Updates of the status, of the worker's whole state, or of the heartbeat under its dotted name are
/// reported.
proof fn relevant_updates_are_reported(event: Fields)
    requires
        field(event, "operationType"@) == Some(BsonValue::Str("update"@)),
        updated_field(event, "status"@) is Some || updated_field(event, "worker_state"@) is Some
            || updated_field(event, "worker_state.heartbeat_at"@) is Some,
    ensures
        is_reported(event),
{
    change_stream_means(event);
}

/// New, replaced and removed documents are reported.
proof fn relevant_kinds_are_reported(event: Fields)
    requires
        field(event, "operationType"@) == Some(BsonValue::Str("insert"@)) || field(
            event,
            "operationType"@,
        ) == Some(BsonValue::Str("replace"@)) || field(event, "operationType"@) == Some(
            BsonValue::Str("delete"@),
        ),
    ensures
        is_reported(event),
{
    change_stream_means(event);
}

/// A worker's change stream lets through every event that matters: one that makes a task ready, and
/// one that changes what the table of deadlines holds. In particular heartbeats come through, whose
/// field stands in the event under its dotted name.
pub proof fn change_stream_reports_what_matters(
    change: Change,
    event: Fields,
    state: TrackerState,
    fallback: Duration,
)
    requires
        announces(event, change),
        change.makes_ready() || change.expirations(state, fallback) != state,
    ensures
        is_reported(event),
{
    match change.kind {
        ChangeKind::Insert | ChangeKind::Replace | ChangeKind::Delete => {
            relevant_kinds_are_reported(event);
        },
        ChangeKind::Update => {
            let updated = change.updated_fields->0;
            assert(updated_part(event) == Some(BsonValue::Doc(updated)));
            if is_pending(updated) || leaves_running(updated) {
                assert(str_field(updated, "status"@) is Some);
                assert(updated_field(event, "status"@) is Some);
            } else {
                assert(updated_heartbeat(updated) is Some);
            }
            relevant_updates_are_reported(event);
        },
        ChangeKind::Other => {},
    }
}

} // verus!
