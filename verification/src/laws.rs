//! What holds of the store as a whole: ownership isolation, the single
//! running entry, durations, repeatable listings, the one-time stop and the
//! update of an end.
//!
//! Each law is proved from the outcome functions of `table`, which the
//! methods of the store are proved to follow.

use crate::errors::StoreError;
use crate::models::{
    CreateTimeEntryView, TimeEntryResponse, TimeEntryResponseView, TimeEntryView, Timestamp,
    UpdateTimeEntryView, Uuid,
};
use crate::sequences::{lemma_filter_skips_unwanted, lemma_kept_items_are_held};
use crate::table::{
    active_entries, active_entry, answers, create_outcome, delete_outcome, entries_of_task,
    entries_of_user, has_active, has_owned, id_taken, insert_position, is_first_owned,
    lemma_create_keeps_invariant, lemma_filter_keeps_order, lemma_first_owned_is_unique,
    lemma_foreign_entry_is_not_owned, lemma_insert_position_exists, lemma_owned_index_is_owned,
    listed_newest_first, owned_index, responses, started_entry, stop_outcome, stopped_entry,
    table_wf, update_outcome, updated_entry, Change,
};
use vstd::prelude::*;

verus! {

/// Ownership isolation. An entry that belongs to one user cannot be stopped,
/// updated or deleted by another: each attempt fails with `NotFound`, as it
/// would for an entry that does not exist. Nor is it ever shown to another
/// user: not in a listing, not in a task's listing, not as the running entry.
pub proof fn law_ownership_isolation(
    table: Seq<TimeEntryView>,
    i: int,
    other: Uuid,
    task_id: Uuid,
    update: UpdateTimeEntryView,
    now: Timestamp,
)
    requires
        table_wf(table),
        0 <= i < table.len(),
        table[i].user_id != other,
    ensures
        stop_outcome(table, table[i].id, other, now) == Err::<Change, StoreError>(
            StoreError::NotFound,
        ),
        update_outcome(table, table[i].id, other, update, now) == Err::<Change, StoreError>(
            StoreError::NotFound,
        ),
        delete_outcome(table, table[i].id, other) == Err::<Seq<TimeEntryView>, StoreError>(
            StoreError::NotFound,
        ),
        forall|k: int|
            0 <= k < entries_of_user(table, other).len() ==> (#[trigger] entries_of_user(
                table,
                other,
            )[k]).id != table[i].id,
        forall|k: int|
            0 <= k < entries_of_task(table, other, task_id).len() ==> (#[trigger] entries_of_task(
                table,
                other,
                task_id,
            )[k]).id != table[i].id,
        active_entry(table, other) matches Some(running) ==> running.id != table[i].id,
{
    lemma_foreign_entry_is_not_owned(table, i, other);
    lemma_kept_items_are_held(table, |entry: TimeEntryView| entry.user_id == other);
    lemma_kept_items_are_held(
        table,
        |entry: TimeEntryView| entry.user_id == other && entry.task_id == task_id,
    );
    lemma_kept_items_are_held(
        table,
        |entry: TimeEntryView| entry.user_id == other && entry.end_time is None,
    );
}

/// Changes stay with their owner. Whatever one user starts, stops, updates
/// or deletes, the entries of every other user are the same afterwards, in
/// the same order: what another user lists does not change.
pub proof fn law_changes_stay_with_owner(
    table: Seq<TimeEntryView>,
    user_id: Uuid,
    other: Uuid,
    id: Uuid,
    request: CreateTimeEntryView,
    update: UpdateTimeEntryView,
    now: Timestamp,
)
    requires
        table_wf(table),
        user_id != other,
    ensures
        create_outcome(table, id, user_id, request, now) matches Ok(change) ==> entries_of_user(
            change.table,
            other,
        ) == entries_of_user(table, other),
        stop_outcome(table, id, user_id, now) matches Ok(change) ==> entries_of_user(
            change.table,
            other,
        ) == entries_of_user(table, other),
        update_outcome(table, id, user_id, update, now) matches Ok(change) ==> entries_of_user(
            change.table,
            other,
        ) == entries_of_user(table, other),
        delete_outcome(table, id, user_id) matches Ok(after) ==> entries_of_user(after, other)
            == entries_of_user(table, other),
{
    let theirs = |entry: TimeEntryView| entry.user_id == other;
    if create_outcome(table, id, user_id, request, now) is Ok {
        lemma_insert_position_exists(table, now);
        let p = insert_position(table, now);
        let entry = started_entry(id, user_id, request, now);
        assert(table.insert(p, entry) == table.take(p).push(entry) + table.skip(p));
        assert(table == table.take(p) + table.skip(p));
        lemma_filter_skips_unwanted(table.take(p), entry, table.skip(p), theirs);
    }
    if has_owned(table, id, user_id) {
        lemma_owned_index_is_owned(table, id, user_id);
        let i = owned_index(table, id, user_id);
        let front = table.take(i);
        let back = table.skip(i + 1);
        assert(table == front.push(table[i]) + back);
        assert(table.remove(i) == front + back);
        lemma_filter_skips_unwanted(front, table[i], back, theirs);
        if stop_outcome(table, id, user_id, now) is Ok {
            let entry = stopped_entry(table[i], now);
            assert(table.update(i, entry) == front.push(entry) + back);
            lemma_filter_skips_unwanted(front, entry, back, theirs);
        }
        if update_outcome(table, id, user_id, update, now) is Ok {
            let entry = updated_entry(table[i], update, now);
            assert(table.update(i, entry) == front.push(entry) + back);
            lemma_filter_skips_unwanted(front, entry, back, theirs);
        }
    }
}

/// What is fixed at creation stays fixed. A successful `stop` or `update`
/// touches one entry and keeps its identifier, task, owner, start and
/// creation stamp; every other entry stays as it is, and no entry joins or
/// leaves the table. A `stop` sets the end of an entry that had none; an
/// `update` sets the end that the request provides and else leaves the end
/// as it is, so an entry that has ended stays ended.
pub proof fn law_identity_is_kept(
    table: Seq<TimeEntryView>,
    id: Uuid,
    user_id: Uuid,
    update: UpdateTimeEntryView,
    now: Timestamp,
    change: Change,
)
    requires
        table_wf(table),
        stop_outcome(table, id, user_id, now) == Ok::<Change, StoreError>(change)
            || update_outcome(table, id, user_id, update, now) == Ok::<Change, StoreError>(change),
    ensures
        change.table.len() == table.len(),
        change.table[owned_index(table, id, user_id)] == change.entry,
        forall|k: int|
            0 <= k < table.len() && k != owned_index(table, id, user_id)
                ==> #[trigger] change.table[k] == table[k],
        change.entry.id == id,
        change.entry.user_id == user_id,
        change.entry.task_id == table[owned_index(table, id, user_id)].task_id,
        change.entry.start_time == table[owned_index(table, id, user_id)].start_time,
        change.entry.created_at == table[owned_index(table, id, user_id)].created_at,
        change.entry.updated_at == now,
        stop_outcome(table, id, user_id, now) == Ok::<Change, StoreError>(change) ==> table[
            owned_index(table, id, user_id)
        ].end_time is None && change.entry.end_time == Some(now),
        update_outcome(table, id, user_id, update, now) == Ok::<Change, StoreError>(change)
            ==> change.entry.end_time == if update.end_time is Some {
            update.end_time
        } else {
            table[owned_index(table, id, user_id)].end_time
        },
        table[owned_index(table, id, user_id)].end_time is Some ==> change.entry.end_time is Some,
        table_wf(change.table),
{
    lemma_owned_index_is_owned(table, id, user_id);
    let i = owned_index(table, id, user_id);
    assert(change.table == table.update(i, change.entry));
}

/// The single running entry, as an invariant: in a well-formed table no user
/// has more than one entry without an end.
pub proof fn law_single_active_entry(table: Seq<TimeEntryView>, user_id: Uuid)
    requires
        table_wf(table),
    ensures
        active_entries(table, user_id).len() <= 1,
        has_active(table, user_id) <==> active_entries(table, user_id).len() == 1,
    decreases table.len(),
{
    reveal(Seq::filter);
    if table.len() > 0 {
        let rest = table.drop_last();
        let last = table.len() - 1;
        assert(table_wf(rest)) by {
            assert forall|i: int| 0 <= i < rest.len() implies rest[i] == table[i] by {}
        }
        law_single_active_entry(rest, user_id);
        if has_active(rest, user_id) {
            let k = choose|k: int|
                0 <= k < rest.len() && (#[trigger] rest[k]).user_id == user_id
                    && rest[k].end_time is None;
            assert(table[k] == rest[k]);
            assert(has_active(table, user_id));
        }
        if table[last].user_id == user_id && table[last].end_time is None {
            assert(has_active(table, user_id));
        }
        if has_active(table, user_id) {
            let k = choose|k: int|
                0 <= k < table.len() && (#[trigger] table[k]).user_id == user_id
                    && table[k].end_time is None;
            if k < last {
                assert(rest[k] == table[k]);
            }
        }
    }
}

/// One call of `create`: the identifier and the instant it was given, and
/// the request.
pub struct Attempt {
    pub id: Uuid,
    pub request: CreateTimeEntryView,
    pub now: Timestamp,
}

/// The table after a user's attempts to start an entry have been taken one
/// after another, in the order that the store serialised them in.
pub open spec fn after_attempts(
    table: Seq<TimeEntryView>,
    user_id: Uuid,
    attempts: Seq<Attempt>,
) -> Seq<TimeEntryView>
    decreases attempts.len(),
{
    if attempts.len() == 0 {
        table
    } else {
        let before = after_attempts(table, user_id, attempts.drop_last());
        let last = attempts.last();
        match create_outcome(before, last.id, user_id, last.request, last.now) {
            Ok(change) => change.table,
            Err(_) => before,
        }
    }
}

/// The outcome of the attempt at position `k`, given those before it.
pub open spec fn attempt_outcome(
    table: Seq<TimeEntryView>,
    user_id: Uuid,
    attempts: Seq<Attempt>,
    k: int,
) -> Result<Change, StoreError> {
    create_outcome(
        after_attempts(table, user_id, attempts.take(k)),
        attempts[k].id,
        user_id,
        attempts[k].request,
        attempts[k].now,
    )
}

/// The single running entry, under contention. A user without a running
/// entry makes any number of valid attempts to start one, the first of them
/// under an identifier that is free. Whatever order they are taken in, the
/// first succeeds, every other fails with `ActiveEntryExists`, and the user
/// is left with exactly one running entry in a well-formed table.
pub proof fn law_one_create_wins(table: Seq<TimeEntryView>, user_id: Uuid, attempts: Seq<Attempt>)
    requires
        table_wf(table),
        !has_active(table, user_id),
        attempts.len() >= 1,
        forall|k: int|
            0 <= k < attempts.len() ==> (#[trigger] attempts[k]).request.validation() is Ok,
        !id_taken(table, attempts[0].id),
    ensures
        attempt_outcome(table, user_id, attempts, 0) is Ok,
        forall|k: int|
            1 <= k < attempts.len() ==> #[trigger] attempt_outcome(table, user_id, attempts, k)
                == Err::<Change, StoreError>(StoreError::ActiveEntryExists),
        table_wf(after_attempts(table, user_id, attempts)),
        active_entries(after_attempts(table, user_id, attempts), user_id).len() == 1,
    decreases attempts.len(),
{
    let first = attempts[0];
    assert(attempts.take(0) == Seq::<Attempt>::empty());
    assert(after_attempts(table, user_id, attempts.take(0)) == table);
    if attempts.len() == 1 {
        assert(attempts.drop_last() == Seq::<Attempt>::empty());
        lemma_create_keeps_invariant(table, first.id, user_id, first.request, first.now);
        law_single_active_entry(after_attempts(table, user_id, attempts), user_id);
    } else {
        let earlier = attempts.drop_last();
        assert(earlier[0] == attempts[0]);
        assert(earlier.take(0) == attempts.take(0));
        law_one_create_wins(table, user_id, earlier);
        let before = after_attempts(table, user_id, earlier);
        law_single_active_entry(before, user_id);
        assert(after_attempts(table, user_id, attempts) == before);
        assert forall|k: int| 1 <= k < attempts.len() implies #[trigger] attempt_outcome(
            table,
            user_id,
            attempts,
            k,
        ) == Err::<Change, StoreError>(StoreError::ActiveEntryExists) by {
            if k < earlier.len() {
                assert(attempts.take(k) == earlier.take(k));
                assert(attempt_outcome(table, user_id, earlier, k) == attempt_outcome(
                    table,
                    user_id,
                    attempts,
                    k,
                ));
            } else {
                assert(attempts.take(k) == earlier);
            }
        }
    }
}

/// While a user has a running entry, every valid attempt to start another
/// fails with `ActiveEntryExists` and leaves the table as it is.
pub proof fn law_creates_conflict_while_running(
    table: Seq<TimeEntryView>,
    user_id: Uuid,
    attempts: Seq<Attempt>,
)
    requires
        has_active(table, user_id),
        forall|k: int|
            0 <= k < attempts.len() ==> (#[trigger] attempts[k]).request.validation() is Ok,
    ensures
        forall|k: int|
            0 <= k < attempts.len() ==> #[trigger] attempt_outcome(table, user_id, attempts, k)
                == Err::<Change, StoreError>(StoreError::ActiveEntryExists),
        after_attempts(table, user_id, attempts) == table,
    decreases attempts.len(),
{
    if attempts.len() > 0 {
        let earlier = attempts.drop_last();
        law_creates_conflict_while_running(table, user_id, earlier);
        assert forall|k: int| 0 <= k < attempts.len() implies #[trigger] attempt_outcome(
            table,
            user_id,
            attempts,
            k,
        ) == Err::<Change, StoreError>(StoreError::ActiveEntryExists) by {
            if k < earlier.len() {
                assert(attempts.take(k) == earlier.take(k));
                assert(attempt_outcome(table, user_id, earlier, k) == attempt_outcome(
                    table,
                    user_id,
                    attempts,
                    k,
                ));
            } else {
                assert(attempts.take(k) == earlier);
            }
        }
    }
}

/// One step of a user's attempts: the table after the first `k + 1` of them
/// is that after the first `k`, changed by the attempt at `k` where that
/// succeeded.
pub proof fn lemma_attempt_step(
    table: Seq<TimeEntryView>,
    user_id: Uuid,
    attempts: Seq<Attempt>,
    k: int,
)
    requires
        0 <= k < attempts.len(),
    ensures
        after_attempts(table, user_id, attempts.take(k + 1)) == match attempt_outcome(
            table,
            user_id,
            attempts,
            k,
        ) {
            Ok(change) => change.table,
            Err(_) => after_attempts(table, user_id, attempts.take(k)),
        },
{
    let upto = attempts.take(k + 1);
    assert(upto.drop_last() == attempts.take(k));
    assert(upto.last() == attempts[k]);
}

/// A user's attempts keep the table's invariant, and a running entry of the
/// user that is there after some of them is there after more of them.
pub proof fn lemma_attempts_keep_invariant(
    table: Seq<TimeEntryView>,
    user_id: Uuid,
    attempts: Seq<Attempt>,
    j: int,
    k: int,
)
    requires
        table_wf(table),
        0 <= j <= k <= attempts.len(),
    ensures
        table_wf(after_attempts(table, user_id, attempts.take(k))),
        has_active(after_attempts(table, user_id, attempts.take(j)), user_id) ==> has_active(
            after_attempts(table, user_id, attempts.take(k)),
            user_id,
        ),
    decreases k,
{
    if k > 0 {
        let last = attempts[k - 1];
        let before = after_attempts(table, user_id, attempts.take(k - 1));
        let from = if j < k { j } else { k - 1 };
        lemma_attempts_keep_invariant(table, user_id, attempts, from, k - 1);
        lemma_attempt_step(table, user_id, attempts, k - 1);
        if attempt_outcome(table, user_id, attempts, k - 1) is Ok {
            lemma_create_keeps_invariant(before, last.id, user_id, last.request, last.now);
        }
    } else {
        assert(attempts.take(0) == Seq::<Attempt>::empty());
    }
}

/// At most one create wins. A user makes any number of valid attempts to
/// start an entry, taken one after another in whatever order. Each succeeds
/// or fails with `ActiveEntryExists` or, where its identifier is taken, with
/// `DuplicateId`; once one has succeeded, every later one fails with
/// `ActiveEntryExists`. The table stays well-formed, the user is left with
/// at most one running entry, and with exactly one if any attempt succeeded
/// or an entry was running before.
pub proof fn law_at_most_one_create_wins(
    table: Seq<TimeEntryView>,
    user_id: Uuid,
    attempts: Seq<Attempt>,
)
    requires
        table_wf(table),
        forall|k: int|
            0 <= k < attempts.len() ==> (#[trigger] attempts[k]).request.validation() is Ok,
    ensures
        forall|k: int|
            0 <= k < attempts.len() ==> {
                let outcome = #[trigger] attempt_outcome(table, user_id, attempts, k);
                ||| outcome is Ok
                ||| outcome == Err::<Change, StoreError>(StoreError::ActiveEntryExists)
                ||| outcome == Err::<Change, StoreError>(StoreError::DuplicateId)
            },
        forall|j: int, k: int|
            0 <= j < k < attempts.len() && (#[trigger] attempt_outcome(
                table,
                user_id,
                attempts,
                j,
            )) is Ok ==> #[trigger] attempt_outcome(table, user_id, attempts, k) == Err::<
                Change,
                StoreError,
            >(StoreError::ActiveEntryExists),
        table_wf(after_attempts(table, user_id, attempts)),
        active_entries(after_attempts(table, user_id, attempts), user_id).len() <= 1,
        has_active(table, user_id) || (exists|k: int|
            0 <= k < attempts.len() && (#[trigger] attempt_outcome(
                table,
                user_id,
                attempts,
                k,
            )) is Ok) ==> active_entries(after_attempts(table, user_id, attempts), user_id).len()
            == 1,
{
    let n = attempts.len() as int;
    let after = after_attempts(table, user_id, attempts);
    assert(attempts.take(n) == attempts);
    assert(attempts.take(0) == Seq::<Attempt>::empty());
    lemma_attempts_keep_invariant(table, user_id, attempts, 0, n);
    law_single_active_entry(after, user_id);
    assert forall|j: int, k: int|
        0 <= j < k < attempts.len() && (#[trigger] attempt_outcome(table, user_id, attempts, j))
            is Ok implies #[trigger] attempt_outcome(table, user_id, attempts, k) == Err::<
        Change,
        StoreError,
    >(StoreError::ActiveEntryExists) by {
        lemma_attempts_keep_invariant(table, user_id, attempts, 0, j);
        lemma_attempt_step(table, user_id, attempts, j);
        lemma_create_keeps_invariant(
            after_attempts(table, user_id, attempts.take(j)),
            attempts[j].id,
            user_id,
            attempts[j].request,
            attempts[j].now,
        );
        lemma_attempts_keep_invariant(table, user_id, attempts, j + 1, k);
    }
    if exists|k: int|
        0 <= k < attempts.len() && (#[trigger] attempt_outcome(table, user_id, attempts, k)) is Ok {
        let k = choose|k: int|
            0 <= k < attempts.len() && (#[trigger] attempt_outcome(table, user_id, attempts, k))
                is Ok;
        lemma_attempts_keep_invariant(table, user_id, attempts, 0, k);
        lemma_attempt_step(table, user_id, attempts, k);
        lemma_create_keeps_invariant(
            after_attempts(table, user_id, attempts.take(k)),
            attempts[k].id,
            user_id,
            attempts[k].request,
            attempts[k].now,
        );
        lemma_attempts_keep_invariant(table, user_id, attempts, k + 1, n);
    }
}

/// The entries of a listing that are still running.
pub open spec fn running_listed(listing: Seq<TimeEntryResponseView>) -> Seq<
    TimeEntryResponseView,
> {
    listing.filter(|entry: TimeEntryResponseView| entry.end_time is None)
}

/// A user's listing shows as many running entries as the user has: the
/// entries without an end in `list_by_user` are the projections of the
/// user's running entries.
pub proof fn law_listing_shows_running_entries(table: Seq<TimeEntryView>, user_id: Uuid)
    ensures
        running_listed(responses(entries_of_user(table, user_id))) == responses(
            active_entries(table, user_id),
        ),
    decreases table.len(),
{
    reveal(Seq::filter);
    let project = |entry: TimeEntryView| entry.response();
    if table.len() > 0 {
        let rest = table.drop_last();
        let last = table.last();
        law_listing_shows_running_entries(rest, user_id);
        assert(table == rest.push(last));
        let listed = entries_of_user(rest, user_id);
        let running = active_entries(rest, user_id);
        rest.lemma_filter_push(last, |entry: TimeEntryView| entry.user_id == user_id);
        rest.lemma_filter_push(
            last,
            |entry: TimeEntryView| entry.user_id == user_id && entry.end_time is None,
        );
        if last.user_id == user_id {
            listed.lemma_push_map_commute(project, last);
            responses(listed).lemma_filter_push(
                last.response(),
                |entry: TimeEntryResponseView| entry.end_time is None,
            );
            if last.end_time is None {
                running.lemma_push_map_commute(project, last);
            }
        }
    }
}

/// Two creates for one user. A user without a running entry makes two valid
/// attempts to start one, and the identifier of the attempt that is taken
/// first is free. Then that attempt succeeds, the other fails with
/// `ActiveEntryExists` and changes nothing, and the user's listing holds
/// exactly one entry without an end: the one that the first attempt made.
/// This holds for either order in which the store takes the two.
pub proof fn law_two_creates_one_wins(
    table: Seq<TimeEntryView>,
    user_id: Uuid,
    first: Attempt,
    second: Attempt,
)
    requires
        table_wf(table),
        !has_active(table, user_id),
        first.request.validation() is Ok,
        second.request.validation() is Ok,
        !id_taken(table, first.id),
    ensures
        create_outcome(table, first.id, user_id, first.request, first.now) is Ok,
        create_outcome(
            create_outcome(table, first.id, user_id, first.request, first.now)->Ok_0.table,
            second.id,
            user_id,
            second.request,
            second.now,
        ) == Err::<Change, StoreError>(StoreError::ActiveEntryExists),
        after_attempts(table, user_id, seq![first, second]) == create_outcome(
            table,
            first.id,
            user_id,
            first.request,
            first.now,
        )->Ok_0.table,
        table_wf(after_attempts(table, user_id, seq![first, second])),
        running_listed(
            responses(
                entries_of_user(after_attempts(table, user_id, seq![first, second]), user_id),
            ),
        ).len() == 1,
{
    let attempts = seq![first, second];
    let won = create_outcome(table, first.id, user_id, first.request, first.now);
    law_one_create_wins(table, user_id, attempts);
    assert(attempts.take(0) == Seq::<Attempt>::empty());
    assert(attempts.take(1) == seq![first]);
    assert(seq![first].drop_last() == Seq::<Attempt>::empty());
    assert(attempt_outcome(table, user_id, attempts, 0) == won);
    assert(after_attempts(table, user_id, seq![first]) == won->Ok_0.table);
    assert(attempt_outcome(table, user_id, attempts, 1) == Err::<Change, StoreError>(
        StoreError::ActiveEntryExists,
    ));
    assert(attempts.drop_last() == seq![first]);
    law_listing_shows_running_entries(after_attempts(table, user_id, attempts), user_id);
}

/// An update that provides an end. For an entry of the caller and a
/// description within the bound, an end before the start is refused with
/// `InvalidRange`; any other end is taken over, whether the entry was
/// running or had ended, and the duration is computed from it: the whole
/// seconds from the start to the new end, which are not negative.
pub proof fn law_update_recomputes_duration(
    table: Seq<TimeEntryView>,
    i: int,
    update: UpdateTimeEntryView,
    now: Timestamp,
)
    requires
        table_wf(table),
        0 <= i < table.len(),
        update.validation() is Ok,
        update.end_time is Some,
    ensures
        update.end_time->0.nanos < table[i].start_time.nanos ==> update_outcome(
            table,
            table[i].id,
            table[i].user_id,
            update,
            now,
        ) == Err::<Change, StoreError>(StoreError::InvalidRange),
        update.end_time->0.nanos >= table[i].start_time.nanos ==> {
            let outcome = update_outcome(table, table[i].id, table[i].user_id, update, now);
            &&& outcome is Ok
            &&& outcome->Ok_0.entry.end_time == update.end_time
            &&& outcome->Ok_0.entry.response().duration == Some(
                ((update.end_time->0.nanos - table[i].start_time.nanos) / 1_000_000_000) as i64,
            )
            &&& outcome->Ok_0.entry.response().duration->0 >= 0
            &&& table_wf(outcome->Ok_0.table)
        },
{
    let id = table[i].id;
    let user_id = table[i].user_id;
    assert(table[i].is_owned(id, user_id));
    lemma_owned_index_is_owned(table, id, user_id);
    assert(owned_index(table, id, user_id) == i);
    if update.end_time->0.nanos >= table[i].start_time.nanos {
        let change = update_outcome(table, id, user_id, update, now)->Ok_0;
        law_duration_is_floor_of_span(change.entry);
        law_identity_is_kept(table, id, user_id, update, now, change);
    }
}

/// Duration correctness. Once an entry has an end that is not before its
/// start, its duration is the whole number of seconds between the two: the
/// largest `d` with `d` seconds not exceeding the span. It is never negative.
pub proof fn law_duration_is_floor_of_span(entry: TimeEntryView)
    requires
        entry.well_formed(),
        entry.end_time is Some,
    ensures
        entry.response().duration is Some,
        entry.response().duration->0 == (entry.end_time->0.nanos - entry.start_time.nanos)
            / 1_000_000_000,
        entry.response().duration->0 >= 0,
        entry.response().duration->0 * 1_000_000_000 <= entry.end_time->0.nanos
            - entry.start_time.nanos < (entry.response().duration->0 + 1) * 1_000_000_000,
{
    let span = entry.end_time->0.nanos - entry.start_time.nanos;
    assert(0 <= span / 1_000_000_000 <= i64::MAX);
}

/// A successful `stop` ends the entry at the given instant and reports the
/// whole seconds it ran, which are not negative.
pub proof fn law_stop_reports_duration(
    table: Seq<TimeEntryView>,
    id: Uuid,
    user_id: Uuid,
    now: Timestamp,
)
    requires
        table_wf(table),
        stop_outcome(table, id, user_id, now) is Ok,
    ensures
        stop_outcome(table, id, user_id, now)->Ok_0.entry.end_time == Some(now),
        stop_outcome(table, id, user_id, now)->Ok_0.entry.response().duration == Some(
            ((now.nanos - table[owned_index(table, id, user_id)].start_time.nanos)
                / 1_000_000_000) as i64,
        ),
        stop_outcome(table, id, user_id, now)->Ok_0.entry.response().duration->0 >= 0,
        table_wf(stop_outcome(table, id, user_id, now)->Ok_0.table),
{
    lemma_owned_index_is_owned(table, id, user_id);
    let i = owned_index(table, id, user_id);
    law_duration_is_floor_of_span(stopped_entry(table[i], now));
    law_identity_is_kept(
        table,
        id,
        user_id,
        UpdateTimeEntryView { description: None, end_time: None },
        now,
        stop_outcome(table, id, user_id, now)->Ok_0,
    );
}

/// Stop exactly once. After a successful `stop`, every further `stop` of the
/// same entry by its owner fails with `AlreadyStopped`, whatever the instant,
/// and leaves the table, and with it the entry's end and duration, as the
/// first `stop` left them.
pub proof fn law_stop_exactly_once(
    table: Seq<TimeEntryView>,
    id: Uuid,
    user_id: Uuid,
    first: Timestamp,
    second: Timestamp,
    after: Seq<TimeEntryView>,
    answer: Result<TimeEntryResponse, StoreError>,
)
    requires
        table_wf(table),
        stop_outcome(table, id, user_id, first) is Ok,
        answers(
            stop_outcome(stop_outcome(table, id, user_id, first)->Ok_0.table, id, user_id, second),
            stop_outcome(table, id, user_id, first)->Ok_0.table,
            after,
            answer,
        ),
    ensures
        answer == Err::<TimeEntryResponse, StoreError>(StoreError::AlreadyStopped),
        after == stop_outcome(table, id, user_id, first)->Ok_0.table,
        after[owned_index(table, id, user_id)].end_time == Some(first),
{
    lemma_owned_index_is_owned(table, id, user_id);
    let i = owned_index(table, id, user_id);
    let stopped = stop_outcome(table, id, user_id, first)->Ok_0.table;
    assert(is_first_owned(stopped, id, user_id, i)) by {
        assert forall|j: int| 0 <= j < i implies !(#[trigger] stopped[j]).is_owned(
            id,
            user_id,
        ) by {
            assert(stopped[j] == table[j]);
        }
    }
    lemma_first_owned_is_unique(stopped, id, user_id, i);
}

/// An entry that has ended cannot be stopped, by anybody, at any instant.
pub proof fn law_ended_entry_cannot_be_stopped(
    table: Seq<TimeEntryView>,
    i: int,
    user_id: Uuid,
    now: Timestamp,
)
    requires
        table_wf(table),
        0 <= i < table.len(),
        table[i].end_time is Some,
    ensures
        stop_outcome(table, table[i].id, user_id, now) is Err,
        table[i].user_id == user_id ==> stop_outcome(table, table[i].id, user_id, now) == Err::<
            Change,
            StoreError,
        >(StoreError::AlreadyStopped),
{
    let id = table[i].id;
    if has_owned(table, id, user_id) {
        lemma_owned_index_is_owned(table, id, user_id);
        assert(owned_index(table, id, user_id) == i);
    } else {
        assert(!table[i].is_owned(id, user_id));
    }
}

/// Repeatable listing. A listing is a function of the table and the user
/// alone, and listing does not change the table: two listings with nothing
/// in between are the same sequence, in the same order, most recent first.
pub proof fn law_listing_is_repeatable(
    table: Seq<TimeEntryView>,
    user_id: Uuid,
    first: Seq<TimeEntryResponseView>,
    second: Seq<TimeEntryResponseView>,
)
    requires
        table_wf(table),
        first == responses(entries_of_user(table, user_id)),
        second == responses(entries_of_user(table, user_id)),
    ensures
        first == second,
        listed_newest_first(first),
{
    lemma_filter_keeps_order(table, |entry: TimeEntryView| entry.user_id == user_id);
}

} // verus!
