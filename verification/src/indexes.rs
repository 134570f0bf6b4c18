//! The indexes that a collection of tasks should have, and what to say where it lacks one.
use bson::Document;
use vstd::prelude::*;

use crate::database::DatabaseError;
use crate::document::{
    bson_i32, document_eq, document_fields, no_fields, one_field, with_field, BsonValue, Fields,
};

verus! {

/// An index of the collection.
#[derive(Debug)]
pub struct IndexInfo {
    pub keys: Document,
    pub unique: Option<bool>,
}

/// What came of listing the indexes of the collection.
#[derive(Debug)]
pub enum IndexListing {
    /// They could not be listed.
    Unavailable(DatabaseError),
    /// The listing broke off after these.
    Broken(Vec<IndexInfo>),
    /// These are all.
    Complete(Vec<IndexInfo>),
}

/// Something to tell the operator about indexes.
#[derive(Clone, Copy, Debug, PartialEq, Eq, Structural)]
pub enum IndexWarning {
    CannotInspect,
    ListingBroken,
    TaskIdNotUnique,
    MissingTaskId,
    MissingStatusUpdated,
    MissingWorkerState,
    MissingStatusCreated,
}

impl IndexWarning {
    /// The warning in words.
    pub open spec fn text(self) -> Seq<char> {
        match self {
            IndexWarning::CannotInspect =>
                "unable to inspect indexes; make sure task_id/status/worker_state indexes exist"@,
            IndexWarning::ListingBroken => "error iterating indexes"@,
            IndexWarning::TaskIdNotUnique =>
                "task_id index exists but is not unique; idempotency keys may break"@,
            IndexWarning::MissingTaskId =>
                "missing unique index on task_id; create one to enforce idempotency (db.collection.createIndex({ task_id: 1 }, { unique: true }))"@,
            IndexWarning::MissingStatusUpdated =>
                "missing index on { status: 1, updated_at: 1 }; fallback stale detection may require a scan"@,
            IndexWarning::MissingWorkerState =>
                "missing index on worker_state.worker_id; shutdown is slower"@,
            IndexWarning::MissingStatusCreated =>
                "Config.claim_sort is set but no { status: 1, created_at: -1/1 } index was found; sorted claims may require an in-memory sort at scale (db.collection.createIndex({ status: 1, created_at: -1 }))"@,
        }
    }

    /// The warning in words.
    pub fn message(self) -> (message: &'static str)
        ensures
            message@ == self.text(),
    {
        match self {
            IndexWarning::CannotInspect =>
                "unable to inspect indexes; make sure task_id/status/worker_state indexes exist",
            IndexWarning::ListingBroken => "error iterating indexes",
            IndexWarning::TaskIdNotUnique =>
                "task_id index exists but is not unique; idempotency keys may break",
            IndexWarning::MissingTaskId =>
                "missing unique index on task_id; create one to enforce idempotency (db.collection.createIndex({ task_id: 1 }, { unique: true }))",
            IndexWarning::MissingStatusUpdated =>
                "missing index on { status: 1, updated_at: 1 }; fallback stale detection may require a scan",
            IndexWarning::MissingWorkerState =>
                "missing index on worker_state.worker_id; shutdown is slower",
            IndexWarning::MissingStatusCreated =>
                "Config.claim_sort is set but no { status: 1, created_at: -1/1 } index was found; sorted claims may require an in-memory sort at scale (db.collection.createIndex({ status: 1, created_at: -1 }))",
        }
    }
}

/// The kinds of indexes that matter here.
#[derive(Clone, Copy, Debug, PartialEq, Eq, Structural)]
pub enum IndexKind {
    TaskId,
    StatusUpdated,
    WorkerState,
    StatusCreated,
    Other,
}

/// The keys of an index over one field.
pub open spec fn one_key(name: Seq<char>, direction: i32) -> Fields {
    no_fields().insert(name, BsonValue::Int32(direction))
}

/// The keys of an index over the status and another field.
pub open spec fn status_and(name: Seq<char>, direction: i32) -> Fields {
    one_key("status"@, 1).insert(name, BsonValue::Int32(direction))
}

/// The kind of an index with these keys.
pub open spec fn kind_of(keys: Fields) -> IndexKind {
    if keys == one_key("task_id"@, 1) {
        IndexKind::TaskId
    } else if keys == status_and("updated_at"@, 1) {
        IndexKind::StatusUpdated
    } else if keys == one_key("worker_state.worker_id"@, 1) {
        IndexKind::WorkerState
    } else if keys == status_and("created_at"@, -1i32) || keys == status_and("created_at"@, 1) {
        IndexKind::StatusCreated
    } else {
        IndexKind::Other
    }
}

/// Whether the index has keys of this kind.
pub open spec fn is_kind(index: IndexInfo, kind: IndexKind) -> bool {
    kind_of(document_fields(index.keys)) == kind
}

/// Whether the index admits each value once.
pub open spec fn is_unique(index: IndexInfo) -> bool {
    index.unique == Some(true)
}

/// Whether one of the indexes has keys of this kind.
pub open spec fn has_kind(indexes: Seq<IndexInfo>, kind: IndexKind) -> bool {
    exists|i: int| 0 <= i < indexes.len() && is_kind(#[trigger] indexes[i], kind)
}

/// Whether one of the indexes keeps task ids unique.
pub open spec fn has_unique_task_id(indexes: Seq<IndexInfo>) -> bool {
    exists|i: int|
        0 <= i < indexes.len() && is_kind(#[trigger] indexes[i], IndexKind::TaskId) && is_unique(
            indexes[i],
        )
}

/// The warnings about indexes that are there: one for each on the task id that is not unique.
pub open spec fn warnings_about(indexes: Seq<IndexInfo>) -> Seq<IndexWarning>
    decreases indexes.len(),
{
    if indexes.len() == 0 {
        Seq::empty()
    } else if is_kind(indexes.last(), IndexKind::TaskId) && !is_unique(indexes.last()) {
        warnings_about(indexes.drop_last()).push(IndexWarning::TaskIdNotUnique)
    } else {
        warnings_about(indexes.drop_last())
    }
}

/// The warning where the condition holds.
pub open spec fn warned_if(condition: bool, warning: IndexWarning) -> Seq<IndexWarning> {
    if condition {
        seq![warning]
    } else {
        Seq::empty()
    }
}

/// The warnings about indexes that are missing.
pub open spec fn warnings_about_missing(
    indexes: Seq<IndexInfo>,
    claim_sort_configured: bool,
) -> Seq<IndexWarning> {
    warned_if(!has_unique_task_id(indexes), IndexWarning::MissingTaskId) + warned_if(
        !has_kind(indexes, IndexKind::StatusUpdated),
        IndexWarning::MissingStatusUpdated,
    ) + warned_if(
        !has_kind(indexes, IndexKind::WorkerState),
        IndexWarning::MissingWorkerState,
    ) + warned_if(
        claim_sort_configured && !has_kind(indexes, IndexKind::StatusCreated),
        IndexWarning::MissingStatusCreated,
    )
}

/// All that is to be said about the indexes. A collection that does not exist yet has none, and
/// nothing is said of it.
pub open spec fn expected_warnings(
    listing: IndexListing,
    claim_sort_configured: bool,
) -> Seq<IndexWarning> {
    match listing {
        IndexListing::Unavailable(DatabaseError::Command { code, .. }) => warned_if(
            code != 26,
            IndexWarning::CannotInspect,
        ),
        IndexListing::Unavailable(_) => seq![IndexWarning::CannotInspect],
        IndexListing::Broken(indexes) => warnings_about(indexes@).push(
            IndexWarning::ListingBroken,
        ),
        IndexListing::Complete(indexes) => warnings_about(indexes@) + warnings_about_missing(
            indexes@,
            claim_sort_configured,
        ),
    }
}

/// Whether the keys are those of an index over one field.
fn is_one_key(keys: &Document, name: &str, direction: i32) -> (same: bool)
    ensures
        same == (document_fields(*keys) == one_key(name@, direction)),
{
    let expected = one_field(name, bson_i32(direction));
    document_eq(keys, &expected)
}

/// Whether the keys are those of an index over the status and another field.
fn is_status_and(keys: &Document, name: &str, direction: i32) -> (same: bool)
    ensures
        same == (document_fields(*keys) == status_and(name@, direction)),
{
    let expected = one_field("status", bson_i32(1));
    let expected = with_field(expected, name, bson_i32(direction));
    document_eq(keys, &expected)
}

/// The kind of an index with these keys.
pub fn index_kind(keys: &Document) -> (kind: IndexKind)
    ensures
        kind == kind_of(document_fields(*keys)),
{
    if is_one_key(keys, "task_id", 1) {
        IndexKind::TaskId
    } else if is_status_and(keys, "updated_at", 1) {
        IndexKind::StatusUpdated
    } else if is_one_key(keys, "worker_state.worker_id", 1) {
        IndexKind::WorkerState
    } else if is_status_and(keys, "created_at", -1) || is_status_and(keys, "created_at", 1) {
        IndexKind::StatusCreated
    } else {
        IndexKind::Other
    }
}

/// What a listing of indexes shows.
struct Survey {
    warnings: Vec<IndexWarning>,
    has_task_id_unique: bool,
    has_status_updated: bool,
    has_worker_state: bool,
    has_status_created: bool,
}

/// Goes through a listing of indexes.
fn survey(indexes: &Vec<IndexInfo>) -> (survey: Survey)
    ensures
        survey.warnings@ == warnings_about(indexes@),
        survey.has_task_id_unique == has_unique_task_id(indexes@),
        survey.has_status_updated == has_kind(indexes@, IndexKind::StatusUpdated),
        survey.has_worker_state == has_kind(indexes@, IndexKind::WorkerState),
        survey.has_status_created == has_kind(indexes@, IndexKind::StatusCreated),
{
    let mut warnings: Vec<IndexWarning> = Vec::new();
    let mut has_task_id_unique = false;
    let mut has_status_updated = false;
    let mut has_worker_state = false;
    let mut has_status_created = false;
    let mut next: usize = 0;
    proof {
        assert(indexes@.take(0) =~= Seq::<IndexInfo>::empty());
    }
    while next < indexes.len()
        invariant
            next <= indexes.len(),
            warnings@ == warnings_about(indexes@.take(next as int)),
            has_task_id_unique == has_unique_task_id(indexes@.take(next as int)),
            has_status_updated == has_kind(
                indexes@.take(next as int),
                IndexKind::StatusUpdated,
            ),
            has_worker_state == has_kind(indexes@.take(next as int), IndexKind::WorkerState),
            has_status_created == has_kind(
                indexes@.take(next as int),
                IndexKind::StatusCreated,
            ),
        decreases indexes.len() - next,
    {
        let index = &indexes[next];
        proof {
            let seen = indexes@.take(next as int);
            let now = indexes@.take(next + 1);
            assert(now.drop_last() =~= seen);
            assert(now.last() == *index);
            seen_one_more(seen, now);
        }
        match index_kind(&index.keys) {
            IndexKind::TaskId => {
                let unique = match index.unique {
                    Some(unique) => unique,
                    None => false,
                };
                if unique {
                    has_task_id_unique = true;
                } else {
                    warnings.push(IndexWarning::TaskIdNotUnique);
                }
            },
            IndexKind::StatusUpdated => {
                has_status_updated = true;
            },
            IndexKind::WorkerState => {
                has_worker_state = true;
            },
            IndexKind::StatusCreated => {
                has_status_created = true;
            },
            IndexKind::Other => {},
        }
        next = next + 1;
    }
    proof {
        assert(indexes@.take(next as int) =~= indexes@);
    }
    Survey {
        warnings,
        has_task_id_unique,
        has_status_updated,
        has_worker_state,
        has_status_created,
    }
}

/// What one more index adds.
proof fn seen_one_more(seen: Seq<IndexInfo>, now: Seq<IndexInfo>)
    requires
        now.len() == seen.len() + 1,
        now.drop_last() == seen,
    ensures
        forall|kind: IndexKind| #[trigger]
            has_kind(now, kind) == (has_kind(seen, kind) || is_kind(now.last(), kind)),
        has_unique_task_id(now) == (has_unique_task_id(seen) || (is_kind(
            now.last(),
            IndexKind::TaskId,
        ) && is_unique(now.last()))),
{
    assert(now =~= seen.push(now.last()));
    assert forall|kind: IndexKind| #[trigger]
        has_kind(now, kind) == (has_kind(seen, kind) || is_kind(now.last(), kind)) by {
        if has_kind(seen, kind) {
            let i = choose|i: int| 0 <= i < seen.len() && is_kind(#[trigger] seen[i], kind);
            assert(is_kind(now[i], kind));
        }
        if is_kind(now.last(), kind) {
            assert(is_kind(now[seen.len() as int], kind));
        }
        if has_kind(now, kind) {
            let i = choose|i: int| 0 <= i < now.len() && is_kind(#[trigger] now[i], kind);
            if i < seen.len() {
                assert(is_kind(seen[i], kind));
            }
        }
    }
    if has_unique_task_id(seen) {
        let i = choose|i: int|
            0 <= i < seen.len() && is_kind(#[trigger] seen[i], IndexKind::TaskId) && is_unique(
                seen[i],
            );
        assert(is_kind(now[i], IndexKind::TaskId) && is_unique(now[i]));
    }
    if is_kind(now.last(), IndexKind::TaskId) && is_unique(now.last()) {
        assert(is_kind(now[seen.len() as int], IndexKind::TaskId));
    }
    if has_unique_task_id(now) {
        let i = choose|i: int|
            0 <= i < now.len() && is_kind(#[trigger] now[i], IndexKind::TaskId) && is_unique(
                now[i],
            );
        if i < seen.len() {
            assert(is_kind(seen[i], IndexKind::TaskId) && is_unique(seen[i]));
        }
    }
}

/// What is to be said about the indexes of a collection of tasks, in order.
pub fn warn_if_missing_indexes(listing: &IndexListing, claim_sort_configured: bool) -> (warnings:
    Vec<IndexWarning>)
    ensures
        warnings@ == expected_warnings(*listing, claim_sort_configured),
{
    let mut warnings: Vec<IndexWarning> = Vec::new();
    match listing {
        IndexListing::Unavailable(error) => {
            if !error.is_namespace_not_found() {
                warnings.push(IndexWarning::CannotInspect);
            }
            assert(warnings@ =~= expected_warnings(*listing, claim_sort_configured));
            warnings
        },
        IndexListing::Broken(indexes) => {
            let mut warnings = survey(indexes).warnings;
            warnings.push(IndexWarning::ListingBroken);
            warnings
        },
        IndexListing::Complete(indexes) => {
            let survey = survey(indexes);
            let mut warnings = survey.warnings;
            if !survey.has_task_id_unique {
                warnings.push(IndexWarning::MissingTaskId);
            }
            if !survey.has_status_updated {
                warnings.push(IndexWarning::MissingStatusUpdated);
            }
            if !survey.has_worker_state {
                warnings.push(IndexWarning::MissingWorkerState);
            }
            if claim_sort_configured && !survey.has_status_created {
                warnings.push(IndexWarning::MissingStatusCreated);
            }
            assert(warnings@ =~= expected_warnings(*listing, claim_sort_configured));
            warnings
        },
    }
}

} // verus!
