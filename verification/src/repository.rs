//! The time-entry store: it holds the table of entries and keeps its
//! invariant, so that every lookup is filtered by owner and no user has two
//! running entries.
//!
//! What each operation does is stated in `table` as a function from the
//! table before the call to the table after it and the answer given; the
//! methods here are proved to compute exactly that. Operations that change
//! the table take the store by `&mut`, so two of them never overlap: that is
//! the critical section which the single running entry relies on.

use crate::bindings::{random_uuid_value, utc_now_nanos};
use crate::errors::StoreError;
use crate::models::{
    check_description, clone_text, CreateTimeEntry, TimeEntry, TimeEntryResponse, TimeEntryView,
    Timestamp, UpdateTimeEntry, Uuid, ValidationError,
};
use crate::sequences::{lemma_filter_keeps_prefix, lemma_filter_step};
use crate::table::{
    active_entries, active_entry, answers, create_outcome, create_refusal, delete_outcome,
    entries_of_task, entries_of_user, has_owned, is_first_owned, is_insert_position,
    lemma_filter_keeps_order, lemma_first_owned_is_unique, lemma_insert_position_is_unique,
    listed_newest_first, owned_index, refuses, responses, stop_outcome, stop_refusal, table_wf,
    update_outcome, update_refusal,
};
use vstd::prelude::*;

verus! {

/// The store.
pub struct TimeEntryRepository {
    entries: Vec<TimeEntry>,
}

impl View for TimeEntryRepository {
    type V = Seq<TimeEntryView>;

    closed spec fn view(&self) -> Seq<TimeEntryView> {
        self.entries.deep_view()
    }
}

impl TimeEntryRepository {
    /// The invariant that every operation keeps.
    pub open spec fn wf(&self) -> bool {
        table_wf(self@)
    }

    /// An empty store.
    pub fn new() -> (repository: Self)
        ensures
            repository@ == Seq::<TimeEntryView>::empty(),
            repository.wf(),
    {
        TimeEntryRepository { entries: Vec::new() }
    }

    /// A store over the given entries, where they satisfy the invariant of
    /// the table: distinct identifiers, at most one running entry for each
    /// user, most recent first, each entry well-formed.
    pub fn from_entries(entries: Vec<TimeEntry>) -> (made: Option<Self>)
        ensures
            made is Some <==> table_wf(entries.deep_view()),
            made matches Some(repository) ==> repository@ == entries.deep_view()
                && repository.wf(),
    {
        if check_table(&entries) {
            Some(TimeEntryRepository { entries })
        } else {
            None
        }
    }

    /// The number of entries held.
    pub fn len(&self) -> (count: usize)
        ensures
            count == self@.len(),
    {
        self.entries.len()
    }

    /// The entry `id` of `user_id`, with all its fields, if there is one.
    pub fn find(&self, id: Uuid, user_id: Uuid) -> (found: Option<TimeEntry>)
        ensures
            match found {
                Some(entry) => has_owned(self@, id, user_id) && entry@ == self@[owned_index(
                    self@,
                    id,
                    user_id,
                )],
                None => !has_owned(self@, id, user_id),
            },
    {
        match self.find_owned(id, user_id) {
            Some(i) => Some(self.entries[i].clone()),
            None => None,
        }
    }

    /// Starts an entry for `user_id` now, under a fresh random identifier.
    ///
    /// A request that `create_refusal` names is turned down before the
    /// identifier is drawn and the clock is read. Otherwise the outcome is
    /// that of `create_at` for whatever the two gave.
    pub fn create(&mut self, user_id: Uuid, entry: CreateTimeEntry) -> (answer: Result<
        TimeEntryResponse,
        StoreError,
    >)
        requires
            old(self).wf(),
        ensures
            final(self).wf(),
            match create_refusal(old(self)@, user_id, entry@) {
                Some(error) => refuses(error, old(self)@, final(self)@, answer),
                None => refuses(StoreError::Unavailable, old(self)@, final(self)@, answer)
                    || exists|id: Uuid, now: Timestamp|
                    answers(
                        #[trigger] create_outcome(old(self)@, id, user_id, entry@, now),
                        old(self)@,
                        final(self)@,
                        answer,
                    ),
            },
    {
        if let Some(error) = self.refusal_to_create(user_id, &entry) {
            return Err(error);
        }
        match current_time() {
            Some(now) => self.create_at(fresh_id(), user_id, entry, now),
            None => Err(StoreError::Unavailable),
        }
    }

    /// Starts an entry for `user_id` under the identifier `id` at the instant
    /// `now`.
    pub fn create_at(
        &mut self,
        id: Uuid,
        user_id: Uuid,
        entry: CreateTimeEntry,
        now: Timestamp,
    ) -> (answer: Result<TimeEntryResponse, StoreError>)
        requires
            old(self).wf(),
        ensures
            final(self).wf(),
            answers(
                create_outcome(old(self)@, id, user_id, entry@, now),
                old(self)@,
                final(self)@,
                answer,
            ),
    {
        if let Some(error) = self.refusal_to_create(user_id, &entry) {
            return Err(error);
        }
        let task_id = entry.task_id.unwrap();
        let mut position: usize = self.entries.len();
        let mut taken = false;
        let mut i: usize = 0;
        while i < self.entries.len()
            invariant
                i <= self.entries.len(),
                self.wf(),
                position == self.entries.len() || position < i,
                position < i ==> is_insert_position(self@, now, position as int),
                position == self.entries.len() ==> forall|j: int|
                    0 <= j < i ==> (#[trigger] self@[j]).start_time.nanos > now.nanos,
                taken <==> exists|j: int| 0 <= j < i && (#[trigger] self@[j]).id == id,
            decreases self.entries.len() - i,
        {
            let held = &self.entries[i];
            assert(held@ == self@[i as int]);
            if held.id == id {
                taken = true;
            }
            if position == self.entries.len() && held.start_time.nanos <= now.nanos {
                position = i;
            }
            i += 1;
        }
        if taken {
            return Err(StoreError::DuplicateId);
        }
        proof {
            lemma_insert_position_is_unique(self@, now, position as int);
        }
        let started = TimeEntry {
            id,
            task_id,
            user_id,
            start_time: now,
            end_time: None,
            description: entry.description,
            created_at: now,
            updated_at: now,
        };
        let response = started.to_response();
        let ghost inserted = started@;
        self.entries.insert(position, started);
        assert(self@ =~= old(self)@.insert(position as int, inserted));
        Ok(response)
    }

    /// Ends the running entry `id` of `user_id` now.
    ///
    /// A request that `stop_refusal` names is turned down before the clock
    /// is read. Otherwise the outcome is that of `stop_at` for whatever
    /// instant the clock gave.
    pub fn stop(&mut self, id: Uuid, user_id: Uuid) -> (answer: Result<
        TimeEntryResponse,
        StoreError,
    >)
        requires
            old(self).wf(),
        ensures
            final(self).wf(),
            match stop_refusal(old(self)@, id, user_id) {
                Some(error) => refuses(error, old(self)@, final(self)@, answer),
                None => refuses(StoreError::Unavailable, old(self)@, final(self)@, answer)
                    || exists|now: Timestamp|
                    answers(
                        #[trigger] stop_outcome(old(self)@, id, user_id, now),
                        old(self)@,
                        final(self)@,
                        answer,
                    ),
            },
    {
        if let Err(error) = self.lookup_to_stop(id, user_id) {
            return Err(error);
        }
        match current_time() {
            Some(now) => self.stop_at(id, user_id, now),
            None => Err(StoreError::Unavailable),
        }
    }

    /// Ends the running entry `id` of `user_id` at the instant `now`.
    pub fn stop_at(&mut self, id: Uuid, user_id: Uuid, now: Timestamp) -> (answer: Result<
        TimeEntryResponse,
        StoreError,
    >)
        requires
            old(self).wf(),
        ensures
            final(self).wf(),
            answers(stop_outcome(old(self)@, id, user_id, now), old(self)@, final(self)@, answer),
    {
        let i = match self.lookup_to_stop(id, user_id) {
            Ok(i) => i,
            Err(error) => {
                return Err(error);
            },
        };
        let current = &self.entries[i];
        assert(current@ == self@[i as int]);
        if now.nanos < current.start_time.nanos {
            return Err(StoreError::InvalidRange);
        }
        let entry = TimeEntry {
            id: current.id,
            task_id: current.task_id,
            user_id: current.user_id,
            start_time: current.start_time,
            end_time: Some(now),
            description: clone_text(&current.description),
            created_at: current.created_at,
            updated_at: now,
        };
        let response = entry.to_response();
        let ghost changed = entry@;
        self.entries.set(i, entry);
        assert(self@ =~= old(self)@.update(i as int, changed));
        Ok(response)
    }

    /// Changes the entry `id` of `user_id` now.
    ///
    /// A request that `update_refusal` names is turned down before the
    /// clock is read. Otherwise the outcome is that of `update_at` for
    /// whatever instant the clock gave.
    pub fn update(&mut self, id: Uuid, user_id: Uuid, update: UpdateTimeEntry) -> (answer: Result<
        TimeEntryResponse,
        StoreError,
    >)
        requires
            old(self).wf(),
        ensures
            final(self).wf(),
            match update_refusal(old(self)@, id, user_id, update@) {
                Some(error) => refuses(error, old(self)@, final(self)@, answer),
                None => refuses(StoreError::Unavailable, old(self)@, final(self)@, answer)
                    || exists|now: Timestamp|
                    answers(
                        #[trigger] update_outcome(old(self)@, id, user_id, update@, now),
                        old(self)@,
                        final(self)@,
                        answer,
                    ),
            },
    {
        if let Err(error) = self.lookup_to_update(id, user_id, &update) {
            return Err(error);
        }
        match current_time() {
            Some(now) => self.update_at(id, user_id, update, now),
            None => Err(StoreError::Unavailable),
        }
    }

    /// Changes the entry `id` of `user_id` at the instant `now`: the fields
    /// that `update` provides are overwritten.
    pub fn update_at(
        &mut self,
        id: Uuid,
        user_id: Uuid,
        update: UpdateTimeEntry,
        now: Timestamp,
    ) -> (answer: Result<TimeEntryResponse, StoreError>)
        requires
            old(self).wf(),
        ensures
            final(self).wf(),
            answers(
                update_outcome(old(self)@, id, user_id, update@, now),
                old(self)@,
                final(self)@,
                answer,
            ),
    {
        let i = match self.lookup_to_update(id, user_id, &update) {
            Ok(i) => i,
            Err(error) => {
                return Err(error);
            },
        };
        let current = &self.entries[i];
        assert(current@ == self@[i as int]);
        let end_time = match update.end_time {
            Some(end) => Some(end),
            None => current.end_time,
        };
        let description = match update.description {
            Some(text) => Some(text),
            None => clone_text(&current.description),
        };
        let entry = TimeEntry {
            id: current.id,
            task_id: current.task_id,
            user_id: current.user_id,
            start_time: current.start_time,
            end_time,
            description,
            created_at: current.created_at,
            updated_at: now,
        };
        let response = entry.to_response();
        let ghost changed = entry@;
        self.entries.set(i, entry);
        assert(self@ =~= old(self)@.update(i as int, changed));
        Ok(response)
    }

    /// All entries of `user_id`, most recent first.
    pub fn list_by_user(&self, user_id: Uuid) -> (listing: Vec<TimeEntryResponse>)
        ensures
            listing.deep_view() == responses(entries_of_user(self@, user_id)),
            self.wf() ==> listed_newest_first(listing.deep_view()),
    {
        let ghost wanted = |entry: TimeEntryView| entry.user_id == user_id;
        let ghost project = |entry: TimeEntryView| entry.response();
        let mut listing: Vec<TimeEntryResponse> = Vec::new();
        let mut i: usize = 0;
        while i < self.entries.len()
            invariant
                i <= self.entries.len(),
                wanted == (|entry: TimeEntryView| entry.user_id == user_id),
                project == (|entry: TimeEntryView| entry.response()),
                listing.deep_view() == self@.take(i as int).filter(wanted).map_values(project),
            decreases self.entries.len() - i,
        {
            let held = &self.entries[i];
            proof {
                lemma_filter_step(self@, wanted, i as int);
            }
            assert(held@ == self@[i as int]);
            if held.user_id == user_id {
                let ghost listed = listing.deep_view();
                let response = held.to_response();
                let ghost shown = response@;
                listing.push(response);
                assert(listing.deep_view() =~= listed.push(shown));
            }
            i += 1;
        }
        proof {
            assert(self@.take(i as int) == self@);
            if self.wf() {
                lemma_filter_keeps_order(self@, wanted);
            }
        }
        listing
    }

    /// The entries of `user_id` on the task `task_id`, most recent first.
    pub fn list_by_task(&self, user_id: Uuid, task_id: Uuid) -> (listing: Vec<TimeEntryResponse>)
        ensures
            listing.deep_view() == responses(entries_of_task(self@, user_id, task_id)),
            self.wf() ==> listed_newest_first(listing.deep_view()),
    {
        let ghost wanted = |entry: TimeEntryView|
            entry.user_id == user_id && entry.task_id == task_id;
        let ghost project = |entry: TimeEntryView| entry.response();
        let mut listing: Vec<TimeEntryResponse> = Vec::new();
        let mut i: usize = 0;
        while i < self.entries.len()
            invariant
                i <= self.entries.len(),
                wanted == (|entry: TimeEntryView|
                    entry.user_id == user_id && entry.task_id == task_id),
                project == (|entry: TimeEntryView| entry.response()),
                listing.deep_view() == self@.take(i as int).filter(wanted).map_values(project),
            decreases self.entries.len() - i,
        {
            let held = &self.entries[i];
            proof {
                lemma_filter_step(self@, wanted, i as int);
            }
            assert(held@ == self@[i as int]);
            if held.user_id == user_id && held.task_id == task_id {
                let ghost listed = listing.deep_view();
                let response = held.to_response();
                let ghost shown = response@;
                listing.push(response);
                assert(listing.deep_view() =~= listed.push(shown));
            }
            i += 1;
        }
        proof {
            assert(self@.take(i as int) == self@);
            if self.wf() {
                lemma_filter_keeps_order(self@, wanted);
            }
        }
        listing
    }

    /// The running entry of `user_id`, if there is one.
    pub fn get_active(&self, user_id: Uuid) -> (running: Option<TimeEntryResponse>)
        ensures
            running.deep_view() == match active_entry(self@, user_id) {
                Some(entry) => Some(entry.response()),
                None => None,
            },
    {
        let ghost wanted = |entry: TimeEntryView|
            entry.user_id == user_id && entry.end_time is None;
        let mut i: usize = 0;
        while i < self.entries.len()
            invariant
                i <= self.entries.len(),
                wanted == (|entry: TimeEntryView|
                    entry.user_id == user_id && entry.end_time is None),
                self@.take(i as int).filter(wanted).len() == 0,
            decreases self.entries.len() - i,
        {
            let held = &self.entries[i];
            proof {
                lemma_filter_step(self@, wanted, i as int);
            }
            assert(held@ == self@[i as int]);
            if held.user_id == user_id && held.is_active() {
                proof {
                    let found = self@.take(i as int + 1).filter(wanted);
                    assert(found[0] == self@[i as int]);
                    lemma_filter_keeps_prefix(self@, wanted, i as int + 1);
                    assert(active_entries(self@, user_id)[0] == found[0]);
                }
                return Some(held.to_response());
            }
            i += 1;
        }
        proof {
            assert(self@.take(i as int) == self@);
        }
        None
    }

    /// Removes the entry `id` of `user_id`.
    pub fn delete(&mut self, id: Uuid, user_id: Uuid) -> (answer: Result<(), StoreError>)
        requires
            old(self).wf(),
        ensures
            final(self).wf(),
            match delete_outcome(old(self)@, id, user_id) {
                Ok(table) => answer == Ok::<(), StoreError>(()) && final(self)@ == table,
                Err(error) => answer == Err::<(), StoreError>(error) && final(self)@ == old(
                    self,
                )@,
            },
    {
        match self.find_owned(id, user_id) {
            Some(i) => {
                self.entries.remove(i);
                assert(self@ =~= old(self)@.remove(i as int));
                Ok(())
            },
            None => Err(StoreError::NotFound),
        }
    }

    /// Why a request to start an entry is turned down before an identifier
    /// is drawn, if it is.
    fn refusal_to_create(&self, user_id: Uuid, entry: &CreateTimeEntry) -> (refusal: Option<
        StoreError,
    >)
        ensures
            refusal == create_refusal(self@, user_id, entry@),
    {
        if let Err(rule) = entry.validate() {
            return Some(StoreError::Invalid(rule));
        }
        let mut i: usize = 0;
        while i < self.entries.len()
            invariant
                i <= self.entries.len(),
                entry@.validation() is Ok,
                forall|j: int|
                    0 <= j < i ==> !((#[trigger] self@[j]).user_id == user_id
                        && self@[j].end_time is None),
            decreases self.entries.len() - i,
        {
            let held = &self.entries[i];
            assert(held@ == self@[i as int]);
            if held.user_id == user_id && held.is_active() {
                return Some(StoreError::ActiveEntryExists);
            }
            i += 1;
        }
        None
    }

    /// The position of the entry that a request to stop names, or why the
    /// request is turned down before the clock is read.
    fn lookup_to_stop(&self, id: Uuid, user_id: Uuid) -> (found: Result<usize, StoreError>)
        ensures
            match found {
                Ok(i) => stop_refusal(self@, id, user_id) is None && i == owned_index(
                    self@,
                    id,
                    user_id,
                ) && i < self@.len(),
                Err(error) => stop_refusal(self@, id, user_id) == Some(error),
            },
    {
        match self.find_owned(id, user_id) {
            None => Err(StoreError::NotFound),
            Some(i) => {
                assert(self.entries[i as int]@ == self@[i as int]);
                if self.entries[i].end_time.is_some() {
                    Err(StoreError::AlreadyStopped)
                } else {
                    Ok(i)
                }
            },
        }
    }

    /// The position of the entry that a request to change names, or why the
    /// request is turned down.
    fn lookup_to_update(&self, id: Uuid, user_id: Uuid, update: &UpdateTimeEntry) -> (found: Result<
        usize,
        StoreError,
    >)
        ensures
            match found {
                Ok(i) => update_refusal(self@, id, user_id, update@) is None && i == owned_index(
                    self@,
                    id,
                    user_id,
                ) && i < self@.len(),
                Err(error) => update_refusal(self@, id, user_id, update@) == Some(error),
            },
    {
        let i = match self.find_owned(id, user_id) {
            Some(i) => i,
            None => {
                return Err(StoreError::NotFound);
            },
        };
        if !check_description(&update.description) {
            return Err(StoreError::Invalid(ValidationError::DescriptionTooLong));
        }
        let current = &self.entries[i];
        assert(current@ == self@[i as int]);
        match update.end_time {
            Some(end) if end.nanos < current.start_time.nanos => Err(StoreError::InvalidRange),
            _ => Ok(i),
        }
    }

    /// The position of the entry `id` of `user_id`.
    fn find_owned(&self, id: Uuid, user_id: Uuid) -> (found: Option<usize>)
        ensures
            found is None <==> !has_owned(self@, id, user_id),
            found matches Some(i) ==> is_first_owned(self@, id, user_id, i as int) && i
                == owned_index(self@, id, user_id),
    {
        let mut i: usize = 0;
        while i < self.entries.len()
            invariant
                i <= self.entries.len(),
                forall|j: int| 0 <= j < i ==> !(#[trigger] self@[j]).is_owned(id, user_id),
            decreases self.entries.len() - i,
        {
            assert(self.entries[i as int]@ == self@[i as int]);
            if self.entries[i].is_owned(id, user_id) {
                proof {
                    lemma_first_owned_is_unique(self@, id, user_id, i as int);
                }
                return Some(i);
            }
            i += 1;
        }
        None
    }
}

/// Checks the invariant of the table.
pub fn check_table(entries: &Vec<TimeEntry>) -> (holds: bool)
    ensures
        holds == table_wf(entries.deep_view()),
{
    let ghost table = entries.deep_view();
    let mut i: usize = 0;
    while i < entries.len()
        invariant
            i <= entries.len(),
            table == entries.deep_view(),
            forall|k: int| 0 <= k < i ==> agrees_with_later(table, k),
            forall|k: int| 0 <= k < i ==> (#[trigger] table[k]).well_formed(),
        decreases entries.len() - i,
    {
        let entry = &entries[i];
        let ends_after_start = match entry.end_time {
            Some(end) => end.nanos >= entry.start_time.nanos,
            None => true,
        };
        if !ends_after_start || !check_description(&entry.description) {
            assert(!table[i as int].well_formed());
            return false;
        }
        if !check_against_later(entries, i) {
            return false;
        }
        i += 1;
    }
    proof {
        assert forall|a: int, b: int| 0 <= a < b < table.len() implies {
            &&& (#[trigger] table[a]).id != (#[trigger] table[b]).id
            &&& !(table[a].user_id == table[b].user_id && table[a].end_time is None
                && table[b].end_time is None)
            &&& table[a].start_time.nanos >= table[b].start_time.nanos
        } by {
            assert(agrees_with_later(table, a));
        }
    }
    true
}

/// Whether the entry at `i` agrees with every entry after it: no identifier
/// in common, not both running for one user, and not older than any.
pub open spec fn agrees_with_later(table: Seq<TimeEntryView>, i: int) -> bool {
    forall|j: int|
        i < j < table.len() ==> {
            &&& table[i].id != (#[trigger] table[j]).id
            &&& !(table[i].user_id == table[j].user_id && table[i].end_time is None
                && table[j].end_time is None)
            &&& table[i].start_time.nanos >= table[j].start_time.nanos
        }
}

/// Checks the entry at `i` against every entry after it.
fn check_against_later(entries: &Vec<TimeEntry>, i: usize) -> (agrees: bool)
    requires
        i < entries.len(),
    ensures
        agrees == agrees_with_later(entries.deep_view(), i as int),
{
    let ghost table = entries.deep_view();
    let entry = &entries[i];
    let mut j: usize = i + 1;
    while j < entries.len()
        invariant
            i < j <= entries.len(),
            table == entries.deep_view(),
            entry@ == table[i as int],
            forall|k: int|
                i < k < j ==> {
                    &&& table[i as int].id != (#[trigger] table[k]).id
                    &&& !(table[i as int].user_id == table[k].user_id
                        && table[i as int].end_time is None && table[k].end_time is None)
                    &&& table[i as int].start_time.nanos >= table[k].start_time.nanos
                },
        decreases entries.len() - j,
    {
        let later = &entries[j];
        if entry.id == later.id || (entry.user_id == later.user_id && entry.is_active()
            && later.is_active()) || entry.start_time.nanos < later.start_time.nanos {
            assert(later@ == table[j as int]);
            return false;
        }
        j += 1;
    }
    true
}

/// The present instant, where the clock gives one that a `Timestamp` holds.
fn current_time() -> Option<Timestamp> {
    match utc_now_nanos() {
        Some(nanos) => Some(Timestamp { nanos }),
        None => None,
    }
}

/// A fresh random identifier.
fn fresh_id() -> Uuid {
    Uuid { value: random_uuid_value() }
}

} // verus!
