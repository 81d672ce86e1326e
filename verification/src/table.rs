//! The table of time entries as a mathematical object: its invariant, what
//! each operation of the store does to it, and the facts that the store and
//! the laws are proved from.
//!
//! A table is a sequence of entries, most recent first. Every lookup names an
//! identifier and an owner together, so that an entry of another user and an
//! entry that does not exist cannot be told apart.

use crate::errors::StoreError;
use crate::models::{
    description_fits, CreateTimeEntryView, TimeEntryResponse, TimeEntryResponseView,
    TimeEntryView, Timestamp, UpdateTimeEntryView, Uuid, ValidationError,
};
use crate::sequences::lemma_kept_items_are_held;
use vstd::prelude::*;

verus! {

/// No two entries share an identifier.
pub open spec fn unique_ids(table: Seq<TimeEntryView>) -> bool {
    forall|i: int, j: int|
        0 <= i < table.len() && 0 <= j < table.len() && i != j ==> (#[trigger] table[i]).id != (
        #[trigger] table[j]).id
}

/// No user has two running entries.
pub open spec fn single_active(table: Seq<TimeEntryView>) -> bool {
    forall|i: int, j: int|
        0 <= i < table.len() && 0 <= j < table.len() && i != j && (#[trigger] table[i]).user_id
            == (#[trigger] table[j]).user_id && table[i].end_time is None
            ==> table[j].end_time is Some
}

/// Entries are kept by start time, most recent first.
pub open spec fn newest_first(table: Seq<TimeEntryView>) -> bool {
    forall|i: int, j: int|
        0 <= i < j < table.len() ==> (#[trigger] table[i]).start_time.nanos >= (
        #[trigger] table[j]).start_time.nanos
}

/// Every entry satisfies its own invariant.
pub open spec fn entries_well_formed(table: Seq<TimeEntryView>) -> bool {
    forall|i: int| 0 <= i < table.len() ==> (#[trigger] table[i]).well_formed()
}

/// The invariant of the table.
pub open spec fn table_wf(table: Seq<TimeEntryView>) -> bool {
    &&& unique_ids(table)
    &&& single_active(table)
    &&& newest_first(table)
    &&& entries_well_formed(table)
}

/// Whether `i` is the first position that holds the entry `id` of `user_id`.
pub open spec fn is_first_owned(
    table: Seq<TimeEntryView>,
    id: Uuid,
    user_id: Uuid,
    i: int,
) -> bool {
    &&& 0 <= i < table.len()
    &&& table[i].is_owned(id, user_id)
    &&& forall|j: int| 0 <= j < i ==> !(#[trigger] table[j]).is_owned(id, user_id)
}

/// Whether the table holds an entry `id` that belongs to `user_id`.
pub open spec fn has_owned(table: Seq<TimeEntryView>, id: Uuid, user_id: Uuid) -> bool {
    exists|i: int| 0 <= i < table.len() && (#[trigger] table[i]).is_owned(id, user_id)
}

/// The position of the entry `id` of `user_id`, where there is one.
pub open spec fn owned_index(table: Seq<TimeEntryView>, id: Uuid, user_id: Uuid) -> int {
    choose|i: int| is_first_owned(table, id, user_id, i)
}

/// Whether some entry carries the identifier `id`, whoever owns it.
pub open spec fn id_taken(table: Seq<TimeEntryView>, id: Uuid) -> bool {
    exists|i: int| 0 <= i < table.len() && (#[trigger] table[i]).id == id
}

/// Whether `user_id` has a running entry.
pub open spec fn has_active(table: Seq<TimeEntryView>, user_id: Uuid) -> bool {
    exists|i: int|
        0 <= i < table.len() && (#[trigger] table[i]).user_id == user_id
            && table[i].end_time is None
}

/// Whether an entry that starts at `start` belongs at position `i`: after
/// every entry that started later, before every other.
pub open spec fn is_insert_position(table: Seq<TimeEntryView>, start: Timestamp, i: int) -> bool {
    &&& 0 <= i <= table.len()
    &&& forall|j: int| 0 <= j < i ==> (#[trigger] table[j]).start_time.nanos > start.nanos
    &&& forall|j: int|
        i <= j < table.len() ==> (#[trigger] table[j]).start_time.nanos <= start.nanos
}

/// The position at which an entry that starts at `start` is inserted.
pub open spec fn insert_position(table: Seq<TimeEntryView>, start: Timestamp) -> int {
    choose|i: int| is_insert_position(table, start, i)
}

/// A successful change: the table it leaves and the entry it touched.
pub struct Change {
    pub table: Seq<TimeEntryView>,
    pub entry: TimeEntryView,
}

/// The entry that `create` makes.
pub open spec fn started_entry(
    id: Uuid,
    user_id: Uuid,
    request: CreateTimeEntryView,
    now: Timestamp,
) -> TimeEntryView {
    TimeEntryView {
        id,
        task_id: request.task_id->0,
        user_id,
        start_time: now,
        end_time: None,
        description: request.description,
        created_at: now,
        updated_at: now,
    }
}

/// Why `create` turns a request down before it draws an identifier and
/// reads the clock, if it does: the request is validated, and a user with a
/// running entry is refused, so that a second `create` cannot leave two.
pub open spec fn create_refusal(
    table: Seq<TimeEntryView>,
    user_id: Uuid,
    request: CreateTimeEntryView,
) -> Option<StoreError> {
    if request.validation() is Err {
        Some(StoreError::Invalid(request.validation()->Err_0))
    } else if has_active(table, user_id) {
        Some(StoreError::ActiveEntryExists)
    } else {
        None
    }
}

/// What `create` does. A request that `create_refusal` names is turned down,
/// and so is an identifier that is taken; otherwise the new entry, running
/// from `now`, takes its place by start time.
pub open spec fn create_outcome(
    table: Seq<TimeEntryView>,
    id: Uuid,
    user_id: Uuid,
    request: CreateTimeEntryView,
    now: Timestamp,
) -> Result<Change, StoreError> {
    match create_refusal(table, user_id, request) {
        Some(error) => Err(error),
        None => if id_taken(table, id) {
            Err(StoreError::DuplicateId)
        } else {
            let entry = started_entry(id, user_id, request, now);
            Ok(Change { table: table.insert(insert_position(table, now), entry), entry })
        },
    }
}

/// An entry as `stop` leaves it.
pub open spec fn stopped_entry(entry: TimeEntryView, now: Timestamp) -> TimeEntryView {
    TimeEntryView { end_time: Some(now), updated_at: now, ..entry }
}

/// Why `stop` turns a request down before it reads the clock, if it does:
/// the entry is looked up by identifier and owner together, and one that has
/// ended is refused.
pub open spec fn stop_refusal(table: Seq<TimeEntryView>, id: Uuid, user_id: Uuid) -> Option<
    StoreError,
> {
    if !has_owned(table, id, user_id) {
        Some(StoreError::NotFound)
    } else if table[owned_index(table, id, user_id)].end_time is Some {
        Some(StoreError::AlreadyStopped)
    } else {
        None
    }
}

/// What `stop` does. A request that `stop_refusal` names is turned down, and
/// so is an end before the start; otherwise the entry ends at `now`.
pub open spec fn stop_outcome(
    table: Seq<TimeEntryView>,
    id: Uuid,
    user_id: Uuid,
    now: Timestamp,
) -> Result<Change, StoreError> {
    match stop_refusal(table, id, user_id) {
        Some(error) => Err(error),
        None => {
            let i = owned_index(table, id, user_id);
            if now.nanos < table[i].start_time.nanos {
                Err(StoreError::InvalidRange)
            } else {
                let entry = stopped_entry(table[i], now);
                Ok(Change { table: table.update(i, entry), entry })
            }
        },
    }
}

/// An entry as `update` leaves it: the fields that the request provides are
/// overwritten, the others stay.
pub open spec fn updated_entry(
    entry: TimeEntryView,
    request: UpdateTimeEntryView,
    now: Timestamp,
) -> TimeEntryView {
    TimeEntryView {
        description: if request.description is Some {
            request.description
        } else {
            entry.description
        },
        end_time: if request.end_time is Some {
            request.end_time
        } else {
            entry.end_time
        },
        updated_at: now,
        ..entry
    }
}

/// Why `update` turns a request down, if it does. The entry is looked up by
/// identifier and owner together; a description over the length bound is
/// refused, and so is an end before the start. An entry that has ended may
/// be given another end.
pub open spec fn update_refusal(
    table: Seq<TimeEntryView>,
    id: Uuid,
    user_id: Uuid,
    request: UpdateTimeEntryView,
) -> Option<StoreError> {
    if !has_owned(table, id, user_id) {
        Some(StoreError::NotFound)
    } else if !description_fits(request.description) {
        Some(StoreError::Invalid(ValidationError::DescriptionTooLong))
    } else if request.end_time matches Some(end) && end.nanos < table[owned_index(
        table,
        id,
        user_id,
    )].start_time.nanos {
        Some(StoreError::InvalidRange)
    } else {
        None
    }
}

/// What `update` does. A request that `update_refusal` names is turned down;
/// otherwise the provided fields are overwritten at `now`.
pub open spec fn update_outcome(
    table: Seq<TimeEntryView>,
    id: Uuid,
    user_id: Uuid,
    request: UpdateTimeEntryView,
    now: Timestamp,
) -> Result<Change, StoreError> {
    match update_refusal(table, id, user_id, request) {
        Some(error) => Err(error),
        None => {
            let i = owned_index(table, id, user_id);
            let entry = updated_entry(table[i], request, now);
            Ok(Change { table: table.update(i, entry), entry })
        },
    }
}

/// What `delete` does: the entry of that identifier and owner leaves the
/// table; where there is none, nothing changes and the call fails.
pub open spec fn delete_outcome(table: Seq<TimeEntryView>, id: Uuid, user_id: Uuid) -> Result<
    Seq<TimeEntryView>,
    StoreError,
> {
    if !has_owned(table, id, user_id) {
        Err(StoreError::NotFound)
    } else {
        Ok(table.remove(owned_index(table, id, user_id)))
    }
}

/// The entries of `user_id`, in table order.
pub open spec fn entries_of_user(table: Seq<TimeEntryView>, user_id: Uuid) -> Seq<TimeEntryView> {
    table.filter(|entry: TimeEntryView| entry.user_id == user_id)
}

/// The entries of `user_id` on the task `task_id`, in table order.
pub open spec fn entries_of_task(
    table: Seq<TimeEntryView>,
    user_id: Uuid,
    task_id: Uuid,
) -> Seq<TimeEntryView> {
    table.filter(|entry: TimeEntryView| entry.user_id == user_id && entry.task_id == task_id)
}

/// The running entries of `user_id`, in table order.
pub open spec fn active_entries(table: Seq<TimeEntryView>, user_id: Uuid) -> Seq<TimeEntryView> {
    table.filter(|entry: TimeEntryView| entry.user_id == user_id && entry.end_time is None)
}

/// The running entry of `user_id`, where there is one.
pub open spec fn active_entry(table: Seq<TimeEntryView>, user_id: Uuid) -> Option<TimeEntryView> {
    let running = active_entries(table, user_id);
    if running.len() > 0 {
        Some(running[0])
    } else {
        None
    }
}

/// Whether a listing is ordered by start time, most recent first.
pub open spec fn listed_newest_first(listing: Seq<TimeEntryResponseView>) -> bool {
    forall|i: int, j: int|
        0 <= i < j < listing.len() ==> (#[trigger] listing[i]).start_time.nanos >= (
        #[trigger] listing[j]).start_time.nanos
}

/// The projections of a sequence of entries, in the same order.
pub open spec fn responses(entries: Seq<TimeEntryView>) -> Seq<TimeEntryResponseView> {
    entries.map_values(|entry: TimeEntryView| entry.response())
}

/// Whether a call that was turned down says so: the table is untouched and
/// the answer is the failure.
pub open spec fn refuses(
    error: StoreError,
    before: Seq<TimeEntryView>,
    after: Seq<TimeEntryView>,
    answer: Result<TimeEntryResponse, StoreError>,
) -> bool {
    after == before && answer == Err::<TimeEntryResponse, StoreError>(error)
}

/// Whether a call that found the table `before` and was to do `outcome` did
/// so: on success the table is the changed one and the answer is the touched
/// entry's projection; on failure the table is untouched and the answer is
/// the failure.
pub open spec fn answers(
    outcome: Result<Change, StoreError>,
    before: Seq<TimeEntryView>,
    after: Seq<TimeEntryView>,
    answer: Result<TimeEntryResponse, StoreError>,
) -> bool {
    match outcome {
        Ok(change) => {
            &&& after == change.table
            &&& answer matches Ok(response) && response@ == change.entry.response()
        },
        Err(error) => refuses(error, before, after, answer),
    }
}

/// An entry that starts at a given instant has one place in the table.
pub proof fn lemma_insert_position_is_unique(table: Seq<TimeEntryView>, start: Timestamp, i: int)
    requires
        is_insert_position(table, start, i),
    ensures
        insert_position(table, start) == i,
{
    let k = insert_position(table, start);
    assert(is_insert_position(table, start, k));
    if k < i {
        assert(table[k].start_time.nanos > start.nanos);
    }
    if i < k {
        assert(table[i].start_time.nanos > start.nanos);
    }
}

/// A table that is ordered by start time has a place for every new entry.
pub proof fn lemma_insert_position_exists(table: Seq<TimeEntryView>, start: Timestamp)
    requires
        newest_first(table),
    ensures
        is_insert_position(table, start, insert_position(table, start)),
    decreases table.len(),
{
    if table.len() == 0 {
        assert(is_insert_position(table, start, 0));
    } else {
        let rest = table.drop_last();
        lemma_prefix_is_ordered(table);
        lemma_insert_position_exists(rest, start);
        let p = insert_position(rest, start);
        assert forall|j: int| 0 <= j < p implies (#[trigger] table[j]).start_time.nanos
            > start.nanos by {
            assert(rest[j] == table[j]);
        }
        if p < rest.len() {
            assert(rest[p] == table[p]);
            assert forall|j: int| p <= j < table.len() implies (
            #[trigger] table[j]).start_time.nanos <= start.nanos by {
                assert(table[p].start_time.nanos >= table[j].start_time.nanos);
            }
            assert(is_insert_position(table, start, p));
        } else if table.last().start_time.nanos > start.nanos {
            assert(is_insert_position(table, start, table.len() as int));
        } else {
            assert(is_insert_position(table, start, p));
        }
    }
}

/// A table that is ordered stays ordered without its last entry.
pub proof fn lemma_prefix_is_ordered(table: Seq<TimeEntryView>)
    requires
        newest_first(table),
        table.len() > 0,
    ensures
        newest_first(table.drop_last()),
{
    let rest = table.drop_last();
    assert forall|i: int, j: int| 0 <= i < j < rest.len() implies (
    #[trigger] rest[i]).start_time.nanos >= (#[trigger] rest[j]).start_time.nanos by {
        assert(rest[i] == table[i] && rest[j] == table[j]);
    }
}

/// The first position of an owned entry is the one `owned_index` names.
pub proof fn lemma_first_owned_is_unique(table: Seq<TimeEntryView>, id: Uuid, user_id: Uuid, i: int)
    requires
        is_first_owned(table, id, user_id, i),
    ensures
        has_owned(table, id, user_id),
        owned_index(table, id, user_id) == i,
{
    let k = owned_index(table, id, user_id);
    assert(is_first_owned(table, id, user_id, k));
    if k < i {
        assert(!table[k].is_owned(id, user_id));
    }
    if i < k {
        assert(!table[i].is_owned(id, user_id));
    }
}

/// Where a user owns an entry of some identifier, `owned_index` names the
/// first position that holds it.
pub proof fn lemma_owned_index_is_owned(table: Seq<TimeEntryView>, id: Uuid, user_id: Uuid)
    requires
        has_owned(table, id, user_id),
    ensures
        is_first_owned(table, id, user_id, owned_index(table, id, user_id)),
{
    let k = choose|k: int| 0 <= k < table.len() && (#[trigger] table[k]).is_owned(id, user_id);
    lemma_first_owned_exists(table, id, user_id, k);
}

/// Below any position that holds an owned entry there is a first one.
proof fn lemma_first_owned_exists(table: Seq<TimeEntryView>, id: Uuid, user_id: Uuid, k: int)
    requires
        0 <= k < table.len(),
        table[k].is_owned(id, user_id),
    ensures
        exists|i: int| is_first_owned(table, id, user_id, i),
    decreases k,
{
    if exists|j: int| 0 <= j < k && (#[trigger] table[j]).is_owned(id, user_id) {
        let j = choose|j: int| 0 <= j < k && (#[trigger] table[j]).is_owned(id, user_id);
        lemma_first_owned_exists(table, id, user_id, j);
    } else {
        assert(is_first_owned(table, id, user_id, k));
    }
}

/// In a well-formed table an identifier names one entry, so nobody but the
/// owner of an entry holds an entry of that identifier.
pub proof fn lemma_foreign_entry_is_not_owned(table: Seq<TimeEntryView>, i: int, other: Uuid)
    requires
        table_wf(table),
        0 <= i < table.len(),
        table[i].user_id != other,
    ensures
        !has_owned(table, table[i].id, other),
{
    if has_owned(table, table[i].id, other) {
        let k = choose|k: int|
            0 <= k < table.len() && (#[trigger] table[k]).is_owned(table[i].id, other);
        assert(k != i && table[k].id == table[i].id);
    }
}

/// A filter keeps the order of the table: what it keeps of a table that is
/// ordered by start time is ordered by start time.
pub proof fn lemma_filter_keeps_order(
    table: Seq<TimeEntryView>,
    wanted: spec_fn(TimeEntryView) -> bool,
)
    requires
        newest_first(table),
    ensures
        newest_first(table.filter(wanted)),
    decreases table.len(),
{
    reveal(Seq::filter);
    if table.len() > 0 {
        let rest = table.drop_last();
        lemma_prefix_is_ordered(table);
        lemma_filter_keeps_order(rest, wanted);
        lemma_kept_items_are_held(rest, wanted);
        let kept = table.filter(wanted);
        assert forall|i: int, j: int| 0 <= i < j < kept.len() implies (
        #[trigger] kept[i]).start_time.nanos >= (#[trigger] kept[j]).start_time.nanos by {
            if j >= rest.filter(wanted).len() {
                let early = rest.filter(wanted)[i];
                assert(rest.contains(early));
                let at = choose|at: int| 0 <= at < rest.len() && rest[at] == early;
                assert(table[at] == early && kept[j] == table.last());
            }
        }
    }
}

/// A successful `create` keeps the table's invariant, makes the table one
/// entry longer, and leaves the new entry as one that its owner has running.
pub proof fn lemma_create_keeps_invariant(
    table: Seq<TimeEntryView>,
    id: Uuid,
    user_id: Uuid,
    request: CreateTimeEntryView,
    now: Timestamp,
)
    requires
        table_wf(table),
        create_outcome(table, id, user_id, request, now) is Ok,
    ensures
        table_wf(create_outcome(table, id, user_id, request, now)->Ok_0.table),
        has_active(create_outcome(table, id, user_id, request, now)->Ok_0.table, user_id),
        create_outcome(table, id, user_id, request, now)->Ok_0.table.len() == table.len() + 1,
{
    lemma_insert_position_exists(table, now);
    let p = insert_position(table, now);
    let entry = started_entry(id, user_id, request, now);
    let after = table.insert(p, entry);
    assert(after[p] == entry && entry.well_formed());
    assert forall|i: int| 0 <= i < p implies #[trigger] after[i] == table[i] by {}
    assert forall|i: int| p < i < after.len() implies #[trigger] after[i] == table[i - 1] by {}
}

} // verus!
