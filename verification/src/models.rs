//! The data model: identifiers, instants, time entries and their projections.

use crate::bindings::{length_at_most, parse_uuid_value, uuid_value};
use vstd::prelude::*;

verus! {

/// The longest description an entry may carry, in characters.
pub const MAX_DESCRIPTION_CHARS: u64 = 500;

/// A 128-bit universally unique identifier, held as its numeric value.
#[derive(Clone, Copy, Debug, PartialEq, Eq, Structural)]
pub struct Uuid {
    pub value: u128,
}

/// An instant on the UTC time line, in nanoseconds since the Unix epoch.
#[derive(Clone, Copy, Debug, PartialEq, Eq, Structural)]
pub struct Timestamp {
    pub nanos: i64,
}

/// Whole seconds from `start` to `end`, rounded towards zero.
pub open spec fn seconds_between(start: Timestamp, end: Timestamp) -> int {
    let span = end.nanos - start.nanos;
    if span >= 0 {
        span / 1_000_000_000
    } else {
        -((-span) / 1_000_000_000)
    }
}

/// The duration of an entry: defined once it has ended, absent while it runs.
pub open spec fn duration_of(start: Timestamp, end: Option<Timestamp>) -> Option<i64> {
    match end {
        Some(end) => Some(seconds_between(start, end) as i64),
        None => None,
    }
}

/// Whether an optional description respects the length bound.
pub open spec fn description_fits(description: Option<Seq<char>>) -> bool {
    description matches Some(text) ==> text.len() <= MAX_DESCRIPTION_CHARS
}

impl Uuid {
    /// Reads an identifier from its text form.
    pub fn parse_str(text: &str) -> (parsed: Option<Uuid>)
        ensures
            parsed == match uuid_value(text@) {
                Some(value) => Some(Uuid { value }),
                None => None,
            },
    {
        match parse_uuid_value(text) {
            Some(value) => Some(Uuid { value }),
            None => None,
        }
    }
}

impl Timestamp {
    /// Whole seconds elapsed from `earlier` to `self`, rounded towards zero.
    pub fn seconds_since(&self, earlier: &Timestamp) -> (secs: i64)
        ensures
            secs == seconds_between(*earlier, *self),
    {
        let span: i128 = self.nanos as i128 - earlier.nanos as i128;
        if span >= 0 {
            (span / 1_000_000_000) as i64
        } else {
            let back: i128 = -span;
            -((back / 1_000_000_000) as i64)
        }
    }
}

/// A persisted record of one span of work on a task.
#[derive(Debug, PartialEq, Eq)]
pub struct TimeEntry {
    pub id: Uuid,
    pub task_id: Uuid,
    pub user_id: Uuid,
    pub start_time: Timestamp,
    pub end_time: Option<Timestamp>,
    pub description: Option<String>,
    pub created_at: Timestamp,
    pub updated_at: Timestamp,
}

/// The body of a request to start an entry.
#[derive(Debug, PartialEq, Eq)]
pub struct CreateTimeEntry {
    pub task_id: Option<Uuid>,
    pub description: Option<String>,
}

/// The body of a request to change an entry; absent fields stay as they are.
#[derive(Debug, PartialEq, Eq)]
pub struct UpdateTimeEntry {
    pub description: Option<String>,
    pub end_time: Option<Timestamp>,
}

/// What a caller sees of an entry: its fields and the derived duration in
/// seconds.
#[derive(Debug, PartialEq, Eq)]
pub struct TimeEntryResponse {
    pub id: Uuid,
    pub task_id: Uuid,
    pub user_id: Uuid,
    pub start_time: Timestamp,
    pub end_time: Option<Timestamp>,
    pub description: Option<String>,
    pub duration: Option<i64>,
}

/// What a `TimeEntry` stands for: the same record, with its description as
/// a sequence of characters.
pub struct TimeEntryView {
    pub id: Uuid,
    pub task_id: Uuid,
    pub user_id: Uuid,
    pub start_time: Timestamp,
    pub end_time: Option<Timestamp>,
    pub description: Option<Seq<char>>,
    pub created_at: Timestamp,
    pub updated_at: Timestamp,
}

/// What a `CreateTimeEntry` stands for.
pub struct CreateTimeEntryView {
    pub task_id: Option<Uuid>,
    pub description: Option<Seq<char>>,
}

/// What an `UpdateTimeEntry` stands for.
pub struct UpdateTimeEntryView {
    pub description: Option<Seq<char>>,
    pub end_time: Option<Timestamp>,
}

/// What a `TimeEntryResponse` stands for.
pub struct TimeEntryResponseView {
    pub id: Uuid,
    pub task_id: Uuid,
    pub user_id: Uuid,
    pub start_time: Timestamp,
    pub end_time: Option<Timestamp>,
    pub description: Option<Seq<char>>,
    pub duration: Option<i64>,
}

impl View for TimeEntry {
    type V = TimeEntryView;

    open spec fn view(&self) -> TimeEntryView {
        TimeEntryView {
            id: self.id,
            task_id: self.task_id,
            user_id: self.user_id,
            start_time: self.start_time,
            end_time: self.end_time,
            description: self.description.deep_view(),
            created_at: self.created_at,
            updated_at: self.updated_at,
        }
    }
}

impl DeepView for TimeEntry {
    type V = TimeEntryView;

    open spec fn deep_view(&self) -> TimeEntryView {
        self@
    }
}

impl View for CreateTimeEntry {
    type V = CreateTimeEntryView;

    open spec fn view(&self) -> CreateTimeEntryView {
        CreateTimeEntryView { task_id: self.task_id, description: self.description.deep_view() }
    }
}

impl View for UpdateTimeEntry {
    type V = UpdateTimeEntryView;

    open spec fn view(&self) -> UpdateTimeEntryView {
        UpdateTimeEntryView { description: self.description.deep_view(), end_time: self.end_time }
    }
}

impl View for TimeEntryResponse {
    type V = TimeEntryResponseView;

    open spec fn view(&self) -> TimeEntryResponseView {
        TimeEntryResponseView {
            id: self.id,
            task_id: self.task_id,
            user_id: self.user_id,
            start_time: self.start_time,
            end_time: self.end_time,
            description: self.description.deep_view(),
            duration: self.duration,
        }
    }
}

impl DeepView for TimeEntryResponse {
    type V = TimeEntryResponseView;

    open spec fn deep_view(&self) -> TimeEntryResponseView {
        self@
    }
}

/// Why a request body was turned down.
#[derive(Clone, Copy, Debug, PartialEq, Eq, Structural)]
pub enum ValidationError {
    /// No task was named.
    MissingTaskId,
    /// The description is longer than `MAX_DESCRIPTION_CHARS`.
    DescriptionTooLong,
}

/// A copy of an optional text.
pub fn clone_text(text: &Option<String>) -> (copy: Option<String>)
    ensures
        copy.deep_view() == text.deep_view(),
{
    match text {
        Some(t) => Some(t.clone()),
        None => None,
    }
}

/// Checks an optional description against the length bound.
pub fn check_description(description: &Option<String>) -> (fits: bool)
    ensures
        fits == description_fits(description.deep_view()),
{
    match description {
        Some(text) => length_at_most(text.as_str(), MAX_DESCRIPTION_CHARS),
        None => true,
    }
}

impl TimeEntryView {
    /// Whether the entry is still running.
    pub open spec fn is_active(self) -> bool {
        self.end_time is None
    }

    /// Whether `user_id` owns the entry named `id`: the one test every lookup
    /// applies, so that a foreign entry and a missing one look the same.
    pub open spec fn is_owned(self, id: Uuid, user_id: Uuid) -> bool {
        self.id == id && self.user_id == user_id
    }

    /// The entry's own invariant: it does not end before it starts, and its
    /// description respects the length bound.
    pub open spec fn well_formed(self) -> bool {
        &&& self.end_time matches Some(end) ==> end.nanos >= self.start_time.nanos
        &&& description_fits(self.description)
    }

    /// The projection handed to callers.
    pub open spec fn response(self) -> TimeEntryResponseView {
        TimeEntryResponseView {
            id: self.id,
            task_id: self.task_id,
            user_id: self.user_id,
            start_time: self.start_time,
            end_time: self.end_time,
            description: self.description,
            duration: duration_of(self.start_time, self.end_time),
        }
    }
}

impl TimeEntry {
    /// Whether the entry is still running.
    pub fn is_active(&self) -> (active: bool)
        ensures
            active == self@.is_active(),
    {
        self.end_time.is_none()
    }

    /// Whether `user_id` owns the entry named `id`.
    pub fn is_owned(&self, id: Uuid, user_id: Uuid) -> (owned: bool)
        ensures
            owned == self@.is_owned(id, user_id),
    {
        self.id == id && self.user_id == user_id
    }

    /// Builds the projection handed to callers, computing the duration of an
    /// entry that has ended.
    pub fn to_response(&self) -> (response: TimeEntryResponse)
        ensures
            response@ == self@.response(),
    {
        let duration = match &self.end_time {
            Some(end) => Some(end.seconds_since(&self.start_time)),
            None => None,
        };
        TimeEntryResponse {
            id: self.id,
            task_id: self.task_id,
            user_id: self.user_id,
            start_time: self.start_time,
            end_time: self.end_time,
            description: clone_text(&self.description),
            duration,
        }
    }
}

impl Clone for TimeEntry {
    fn clone(&self) -> (copy: Self)
        ensures
            copy@ == self@,
    {
        TimeEntry {
            id: self.id,
            task_id: self.task_id,
            user_id: self.user_id,
            start_time: self.start_time,
            end_time: self.end_time,
            description: clone_text(&self.description),
            created_at: self.created_at,
            updated_at: self.updated_at,
        }
    }
}

impl Clone for TimeEntryResponse {
    fn clone(&self) -> (copy: Self)
        ensures
            copy@ == self@,
    {
        TimeEntryResponse {
            id: self.id,
            task_id: self.task_id,
            user_id: self.user_id,
            start_time: self.start_time,
            end_time: self.end_time,
            description: clone_text(&self.description),
            duration: self.duration,
        }
    }
}

impl Clone for CreateTimeEntry {
    fn clone(&self) -> (copy: Self)
        ensures
            copy@ == self@,
    {
        CreateTimeEntry { task_id: self.task_id, description: clone_text(&self.description) }
    }
}

impl Clone for UpdateTimeEntry {
    fn clone(&self) -> (copy: Self)
        ensures
            copy@ == self@,
    {
        UpdateTimeEntry { description: clone_text(&self.description), end_time: self.end_time }
    }
}

impl CreateTimeEntryView {
    /// The outcome of validation: a task must be named, and the description
    /// must respect the length bound. The first rule broken is reported.
    pub open spec fn validation(self) -> Result<(), ValidationError> {
        if self.task_id is None {
            Err(ValidationError::MissingTaskId)
        } else if !description_fits(self.description) {
            Err(ValidationError::DescriptionTooLong)
        } else {
            Ok(())
        }
    }
}

impl CreateTimeEntry {
    /// Validates the request body.
    pub fn validate(&self) -> (outcome: Result<(), ValidationError>)
        ensures
            outcome == self@.validation(),
    {
        if self.task_id.is_none() {
            Err(ValidationError::MissingTaskId)
        } else if !check_description(&self.description) {
            Err(ValidationError::DescriptionTooLong)
        } else {
            Ok(())
        }
    }
}

impl UpdateTimeEntryView {
    /// The outcome of validation: the description, if given, must respect the
    /// length bound.
    pub open spec fn validation(self) -> Result<(), ValidationError> {
        if !description_fits(self.description) {
            Err(ValidationError::DescriptionTooLong)
        } else {
            Ok(())
        }
    }
}

impl UpdateTimeEntry {
    /// Validates the request body.
    pub fn validate(&self) -> (outcome: Result<(), ValidationError>)
        ensures
            outcome == self@.validation(),
    {
        if !check_description(&self.description) {
            Err(ValidationError::DescriptionTooLong)
        } else {
            Ok(())
        }
    }
}

} // verus!
