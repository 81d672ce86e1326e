//! The request handlers: each identifies the caller, calls one operation of
//! the store, and turns the outcome into a reply or a `ServiceError`.
//!
//! Every handler comes in two forms. The form whose name ends in `_as` is
//! given the outcome of authentication, and the instant and identifier where
//! it needs them; its reply is stated exactly. The other form is given the
//! request's header and leaves the clock to the store; its reply is that of
//! the first form for what authentication and the clock gave, and a request
//! that the store turns down whatever the clock says is turned down here
//! too.

use crate::auth::{identify, may_identify, Authorization};
use crate::errors::{
    auth_failure, store_failure, validation_failure, AuthError, ServiceError, ServiceErrorView,
    StoreError,
};
use crate::models::{
    CreateTimeEntry, CreateTimeEntryView, TimeEntryResponse, TimeEntryResponseView, TimeEntryView,
    Timestamp, Uuid,
};
use crate::repository::TimeEntryRepository;
use crate::table::{
    active_entry, answers, create_outcome, create_refusal, delete_outcome, entries_of_task,
    entries_of_user, responses, stop_outcome, stop_refusal,
};
use vstd::prelude::*;

verus! {

/// A successful reply.
#[derive(Debug, PartialEq, Eq)]
pub enum HandlerReply {
    /// An entry was started: status 201 with the entry.
    Created(TimeEntryResponse),
    /// Status 200 with one entry.
    Entry(TimeEntryResponse),
    /// Status 200 with a sequence of entries.
    Entries(Vec<TimeEntryResponse>),
    /// Status 204 without a body.
    NoContent,
    /// Status 200 with the health report `{"status": "ok"}`.
    Healthy,
}

/// What a reply stands for.
pub enum ReplyView {
    Created(TimeEntryResponseView),
    Entry(TimeEntryResponseView),
    Entries(Seq<TimeEntryResponseView>),
    NoContent,
    Healthy,
}

impl View for HandlerReply {
    type V = ReplyView;

    open spec fn view(&self) -> ReplyView {
        match *self {
            HandlerReply::Created(entry) => ReplyView::Created(entry@),
            HandlerReply::Entry(entry) => ReplyView::Entry(entry@),
            HandlerReply::Entries(entries) => ReplyView::Entries(entries.deep_view()),
            HandlerReply::NoContent => ReplyView::NoContent,
            HandlerReply::Healthy => ReplyView::Healthy,
        }
    }
}

/// The status code of each successful reply.
pub open spec fn reply_status(reply: ReplyView) -> u16 {
    match reply {
        ReplyView::Created(_) => 201,
        ReplyView::Entry(_) => 200,
        ReplyView::Entries(_) => 200,
        ReplyView::NoContent => 204,
        ReplyView::Healthy => 200,
    }
}

impl HandlerReply {
    /// The status code of the reply.
    pub fn status_code(&self) -> (status: u16)
        ensures
            status == reply_status(self@),
    {
        match self {
            HandlerReply::Created(_) => 201,
            HandlerReply::Entry(_) => 200,
            HandlerReply::Entries(_) => 200,
            HandlerReply::NoContent => 204,
            HandlerReply::Healthy => 200,
        }
    }
}

/// What a handler's result stands for.
pub open spec fn shown(result: Result<HandlerReply, ServiceError>) -> Result<
    ReplyView,
    ServiceErrorView,
> {
    match result {
        Ok(reply) => Ok(reply@),
        Err(error) => Err(error@),
    }
}

/// One request handled: the table it leaves and the reply it gives.
pub struct Exchange {
    pub table: Seq<TimeEntryView>,
    pub reply: Result<ReplyView, ServiceErrorView>,
}

/// Whether a handler that was to make `exchange` did so.
pub open spec fn gave(
    exchange: Exchange,
    after: Seq<TimeEntryView>,
    result: Result<HandlerReply, ServiceError>,
) -> bool {
    after == exchange.table && shown(result) == exchange.reply
}

/// A request that is turned down leaves the table as it is.
pub open spec fn refused(table: Seq<TimeEntryView>, failure: ServiceErrorView) -> Exchange {
    Exchange { table, reply: Err(failure) }
}

/// Starting an entry: the caller must be identified and the body valid;
/// then the store creates the entry, and the reply is `Created` with it.
pub open spec fn start_exchange(
    table: Seq<TimeEntryView>,
    who: Result<Uuid, AuthError>,
    entry: CreateTimeEntryView,
    id: Uuid,
    now: Timestamp,
) -> Exchange {
    match who {
        Err(error) => refused(table, auth_failure(error)),
        Ok(user_id) => match entry.validation() {
            Err(rule) => refused(table, validation_failure(rule)),
            Ok(_) => match create_outcome(table, id, user_id, entry, now) {
                Ok(change) => Exchange {
                    table: change.table,
                    reply: Ok(ReplyView::Created(change.entry.response())),
                },
                Err(error) => refused(table, store_failure(error)),
            },
        },
    }
}

/// Stopping an entry: the caller must be identified; then the store stops
/// the entry, and the reply is the entry with its duration.
pub open spec fn stop_exchange(
    table: Seq<TimeEntryView>,
    who: Result<Uuid, AuthError>,
    id: Uuid,
    now: Timestamp,
) -> Exchange {
    match who {
        Err(error) => refused(table, auth_failure(error)),
        Ok(user_id) => match stop_outcome(table, id, user_id, now) {
            Ok(change) => Exchange {
                table: change.table,
                reply: Ok(ReplyView::Entry(change.entry.response())),
            },
            Err(error) => refused(table, store_failure(error)),
        },
    }
}

/// Listing: the reply is the caller's entries, most recent first.
pub open spec fn list_exchange(
    table: Seq<TimeEntryView>,
    who: Result<Uuid, AuthError>,
) -> Exchange {
    match who {
        Err(error) => refused(table, auth_failure(error)),
        Ok(user_id) => Exchange {
            table,
            reply: Ok(ReplyView::Entries(responses(entries_of_user(table, user_id)))),
        },
    }
}

/// Listing by task: the reply is the caller's entries on the task, most
/// recent first.
pub open spec fn list_by_task_exchange(
    table: Seq<TimeEntryView>,
    who: Result<Uuid, AuthError>,
    task_id: Uuid,
) -> Exchange {
    match who {
        Err(error) => refused(table, auth_failure(error)),
        Ok(user_id) => Exchange {
            table,
            reply: Ok(ReplyView::Entries(responses(entries_of_task(table, user_id, task_id)))),
        },
    }
}

/// The running entry: the reply is the caller's running entry, or no
/// content where there is none.
pub open spec fn active_exchange(
    table: Seq<TimeEntryView>,
    who: Result<Uuid, AuthError>,
) -> Exchange {
    match who {
        Err(error) => refused(table, auth_failure(error)),
        Ok(user_id) => Exchange {
            table,
            reply: Ok(
                match active_entry(table, user_id) {
                    Some(entry) => ReplyView::Entry(entry.response()),
                    None => ReplyView::NoContent,
                },
            ),
        },
    }
}

/// Deleting: the caller must be identified; then the store deletes the
/// entry, and the reply has no content.
pub open spec fn delete_exchange(
    table: Seq<TimeEntryView>,
    who: Result<Uuid, AuthError>,
    id: Uuid,
) -> Exchange {
    match who {
        Err(error) => refused(table, auth_failure(error)),
        Ok(user_id) => match delete_outcome(table, id, user_id) {
            Ok(after) => Exchange { table: after, reply: Ok(ReplyView::NoContent) },
            Err(error) => refused(table, store_failure(error)),
        },
    }
}

/// The reply of a handler that could not read the clock: an internal error,
/// with the table as it was.
pub open spec fn clock_failed(
    before: Seq<TimeEntryView>,
    after: Seq<TimeEntryView>,
    result: Result<HandlerReply, ServiceError>,
) -> bool {
    gave(refused(before, store_failure(StoreError::Unavailable)), after, result)
}

/// What handling a request to start an entry may give, once authentication
/// gave `who`. A caller who is not identified is turned down, and so is a
/// body that is not valid or a request that the store refuses before it
/// reads the clock; for any other the identifier and the instant that were
/// drawn decide.
pub open spec fn may_start(
    before: Seq<TimeEntryView>,
    after: Seq<TimeEntryView>,
    who: Result<Uuid, AuthError>,
    entry: CreateTimeEntryView,
    result: Result<HandlerReply, ServiceError>,
) -> bool {
    match who {
        Err(error) => gave(refused(before, auth_failure(error)), after, result),
        Ok(user_id) => match entry.validation() {
            Err(rule) => gave(refused(before, validation_failure(rule)), after, result),
            Ok(_) => match create_refusal(before, user_id, entry) {
                Some(error) => gave(refused(before, store_failure(error)), after, result),
                None => clock_failed(before, after, result) || exists|id: Uuid, now: Timestamp|
                    gave(#[trigger] start_exchange(before, who, entry, id, now), after, result),
            },
        },
    }
}

/// What handling a request to stop an entry may give, once authentication
/// gave `who`. A caller who is not identified is turned down, and so is a
/// request that the store refuses before it reads the clock; for any other
/// the instant that was read decides.
pub open spec fn may_stop(
    before: Seq<TimeEntryView>,
    after: Seq<TimeEntryView>,
    who: Result<Uuid, AuthError>,
    id: Uuid,
    result: Result<HandlerReply, ServiceError>,
) -> bool {
    match who {
        Err(error) => gave(refused(before, auth_failure(error)), after, result),
        Ok(user_id) => match stop_refusal(before, id, user_id) {
            Some(error) => gave(refused(before, store_failure(error)), after, result),
            None => clock_failed(before, after, result) || exists|now: Timestamp|
                gave(#[trigger] stop_exchange(before, who, id, now), after, result),
        },
    }
}

/// Reports that the service is up.
pub fn health_check() -> (reply: HandlerReply)
    ensures
        reply@ == ReplyView::Healthy,
{
    HandlerReply::Healthy
}

/// Starts an entry for the caller that `who` names.
pub fn start_time_entry_as(
    repo: &mut TimeEntryRepository,
    who: Result<Uuid, AuthError>,
    entry: CreateTimeEntry,
    id: Uuid,
    now: Timestamp,
) -> (result: Result<HandlerReply, ServiceError>)
    requires
        old(repo).wf(),
    ensures
        final(repo).wf(),
        gave(start_exchange(old(repo)@, who, entry@, id, now), final(repo)@, result),
{
    let user_id = match who {
        Ok(user_id) => user_id,
        Err(error) => {
            return Err(ServiceError::from_auth(error));
        },
    };
    if let Err(rule) = entry.validate() {
        return Err(ServiceError::from_validation(rule));
    }
    match repo.create_at(id, user_id, entry, now) {
        Ok(created) => Ok(HandlerReply::Created(created)),
        Err(error) => Err(ServiceError::from_store(error)),
    }
}

/// Stops an entry of the caller that `who` names.
pub fn stop_time_entry_as(
    repo: &mut TimeEntryRepository,
    who: Result<Uuid, AuthError>,
    id: Uuid,
    now: Timestamp,
) -> (result: Result<HandlerReply, ServiceError>)
    requires
        old(repo).wf(),
    ensures
        final(repo).wf(),
        gave(stop_exchange(old(repo)@, who, id, now), final(repo)@, result),
{
    let user_id = match who {
        Ok(user_id) => user_id,
        Err(error) => {
            return Err(ServiceError::from_auth(error));
        },
    };
    match repo.stop_at(id, user_id, now) {
        Ok(stopped) => Ok(HandlerReply::Entry(stopped)),
        Err(error) => Err(ServiceError::from_store(error)),
    }
}

/// Lists the entries of the caller that `who` names.
pub fn list_time_entries_as(
    repo: &TimeEntryRepository,
    who: Result<Uuid, AuthError>,
) -> (result: Result<HandlerReply, ServiceError>)
    ensures
        gave(list_exchange(repo@, who), repo@, result),
{
    match who {
        Ok(user_id) => Ok(HandlerReply::Entries(repo.list_by_user(user_id))),
        Err(error) => Err(ServiceError::from_auth(error)),
    }
}

/// Lists the entries on a task of the caller that `who` names.
pub fn list_time_entries_by_task_as(
    repo: &TimeEntryRepository,
    who: Result<Uuid, AuthError>,
    task_id: Uuid,
) -> (result: Result<HandlerReply, ServiceError>)
    ensures
        gave(list_by_task_exchange(repo@, who, task_id), repo@, result),
{
    match who {
        Ok(user_id) => Ok(HandlerReply::Entries(repo.list_by_task(user_id, task_id))),
        Err(error) => Err(ServiceError::from_auth(error)),
    }
}

/// Gives the running entry of the caller that `who` names.
pub fn get_active_time_entry_as(
    repo: &TimeEntryRepository,
    who: Result<Uuid, AuthError>,
) -> (result: Result<HandlerReply, ServiceError>)
    ensures
        gave(active_exchange(repo@, who), repo@, result),
{
    match who {
        Ok(user_id) => match repo.get_active(user_id) {
            Some(entry) => Ok(HandlerReply::Entry(entry)),
            None => Ok(HandlerReply::NoContent),
        },
        Err(error) => Err(ServiceError::from_auth(error)),
    }
}

/// Deletes an entry of the caller that `who` names.
pub fn delete_time_entry_as(
    repo: &mut TimeEntryRepository,
    who: Result<Uuid, AuthError>,
    id: Uuid,
) -> (result: Result<HandlerReply, ServiceError>)
    requires
        old(repo).wf(),
    ensures
        final(repo).wf(),
        gave(delete_exchange(old(repo)@, who, id), final(repo)@, result),
{
    let user_id = match who {
        Ok(user_id) => user_id,
        Err(error) => {
            return Err(ServiceError::from_auth(error));
        },
    };
    match repo.delete(id, user_id) {
        Ok(()) => Ok(HandlerReply::NoContent),
        Err(error) => Err(ServiceError::from_store(error)),
    }
}

/// Handles `POST /time-entries`: starts an entry for the caller, now.
pub fn start_time_entry(
    repo: &mut TimeEntryRepository,
    jwt_secret: &str,
    authorization: Authorization,
    entry: CreateTimeEntry,
) -> (result: Result<HandlerReply, ServiceError>)
    requires
        old(repo).wf(),
    ensures
        final(repo).wf(),
        exists|who: Result<Uuid, AuthError>| #[trigger]
            may_identify(authorization@, who) && may_start(
                old(repo)@,
                final(repo)@,
                who,
                entry@,
                result,
            ),
{
    let who = identify(authorization, jwt_secret);
    let user_id = match who {
        Ok(user_id) => user_id,
        Err(error) => {
            return Err(ServiceError::from_auth(error));
        },
    };
    if let Err(rule) = entry.validate() {
        return Err(ServiceError::from_validation(rule));
    }
    let answer = repo.create(user_id, entry);
    proof {
        if create_refusal(old(repo)@, user_id, entry@) is None && answer != Err::<
            TimeEntryResponse,
            StoreError,
        >(StoreError::Unavailable) {
            let (id, now) = choose|id: Uuid, now: Timestamp|
                answers(
                    #[trigger] create_outcome(old(repo)@, id, user_id, entry@, now),
                    old(repo)@,
                    repo@,
                    answer,
                );
            assert(start_exchange(old(repo)@, who, entry@, id, now).table == repo@);
        }
    }
    match answer {
        Ok(created) => Ok(HandlerReply::Created(created)),
        Err(error) => Err(ServiceError::from_store(error)),
    }
}

/// Handles `PUT /time-entries/{id}/stop`: stops the caller's entry, now.
pub fn stop_time_entry(
    repo: &mut TimeEntryRepository,
    jwt_secret: &str,
    authorization: Authorization,
    id: Uuid,
) -> (result: Result<HandlerReply, ServiceError>)
    requires
        old(repo).wf(),
    ensures
        final(repo).wf(),
        exists|who: Result<Uuid, AuthError>| #[trigger]
            may_identify(authorization@, who) && may_stop(
                old(repo)@,
                final(repo)@,
                who,
                id,
                result,
            ),
{
    let who = identify(authorization, jwt_secret);
    let user_id = match who {
        Ok(user_id) => user_id,
        Err(error) => {
            return Err(ServiceError::from_auth(error));
        },
    };
    let answer = repo.stop(id, user_id);
    proof {
        if stop_refusal(old(repo)@, id, user_id) is None && answer != Err::<
            TimeEntryResponse,
            StoreError,
        >(StoreError::Unavailable) {
            let now = choose|now: Timestamp|
                answers(
                    #[trigger] stop_outcome(old(repo)@, id, user_id, now),
                    old(repo)@,
                    repo@,
                    answer,
                );
            assert(stop_exchange(old(repo)@, who, id, now).table == repo@);
        }
    }
    match answer {
        Ok(stopped) => Ok(HandlerReply::Entry(stopped)),
        Err(error) => Err(ServiceError::from_store(error)),
    }
}

/// Handles `GET /time-entries`: lists the caller's entries.
pub fn list_time_entries(
    repo: &TimeEntryRepository,
    jwt_secret: &str,
    authorization: Authorization,
) -> (result: Result<HandlerReply, ServiceError>)
    ensures
        exists|who: Result<Uuid, AuthError>| #[trigger]
            may_identify(authorization@, who) && gave(list_exchange(repo@, who), repo@, result),
{
    list_time_entries_as(repo, identify(authorization, jwt_secret))
}

/// Handles `GET /time-entries/task/{task_id}`: lists the caller's entries
/// on a task.
pub fn list_time_entries_by_task(
    repo: &TimeEntryRepository,
    jwt_secret: &str,
    authorization: Authorization,
    task_id: Uuid,
) -> (result: Result<HandlerReply, ServiceError>)
    ensures
        exists|who: Result<Uuid, AuthError>| #[trigger]
            may_identify(authorization@, who) && gave(
                list_by_task_exchange(repo@, who, task_id),
                repo@,
                result,
            ),
{
    list_time_entries_by_task_as(repo, identify(authorization, jwt_secret), task_id)
}

/// Handles `GET /time-entries/active`: gives the caller's running entry.
pub fn get_active_time_entry(
    repo: &TimeEntryRepository,
    jwt_secret: &str,
    authorization: Authorization,
) -> (result: Result<HandlerReply, ServiceError>)
    ensures
        exists|who: Result<Uuid, AuthError>| #[trigger]
            may_identify(authorization@, who) && gave(active_exchange(repo@, who), repo@, result),
{
    get_active_time_entry_as(repo, identify(authorization, jwt_secret))
}

/// Handles `DELETE /time-entries/{id}`: deletes the caller's entry.
pub fn delete_time_entry(
    repo: &mut TimeEntryRepository,
    jwt_secret: &str,
    authorization: Authorization,
    id: Uuid,
) -> (result: Result<HandlerReply, ServiceError>)
    requires
        old(repo).wf(),
    ensures
        final(repo).wf(),
        exists|who: Result<Uuid, AuthError>| #[trigger]
            may_identify(authorization@, who) && gave(
                delete_exchange(old(repo)@, who, id),
                final(repo)@,
                result,
            ),
{
    delete_time_entry_as(repo, identify(authorization, jwt_secret), id)
}

} // verus!
