use jsonwebtoken::{encode, get_current_timestamp, EncodingKey, Header};
use serde_json::{Number, Value};
use time_service::auth::Authorization;
use time_service::errors::{AuthError, ServiceError};
use time_service::handlers::{
    delete_time_entry, delete_time_entry_as, get_active_time_entry, get_active_time_entry_as,
    health_check, list_time_entries, list_time_entries_as, list_time_entries_by_task,
    list_time_entries_by_task_as, start_time_entry, start_time_entry_as, stop_time_entry,
    stop_time_entry_as, HandlerReply,
};
use time_service::models::{CreateTimeEntry, TimeEntryResponse, Timestamp, Uuid};
use time_service::repository::TimeEntryRepository;

const SECRET: &str = "a shared secret";
const ALICE: &str = "550e8400-e29b-41d4-a716-446655440000";
const BOB: &str = "6ba7b810-9dad-11d1-80b4-00c04fd430c8";
const SECOND: i64 = 1_000_000_000;

fn id(value: u128) -> Uuid {
    Uuid { value }
}

fn at(seconds: i64) -> Timestamp {
    Timestamp { nanos: seconds * SECOND }
}

fn request(task: u128) -> CreateTimeEntry {
    CreateTimeEntry { task_id: Some(id(task)), description: None }
}

fn bearer(subject: &str) -> String {
    let mut map = serde_json::Map::new();
    map.insert("sub".to_string(), Value::String(subject.to_string()));
    map.insert("exp".to_string(), Value::Number(Number::from(get_current_timestamp() + 3600)));
    let key = EncodingKey::from_secret(SECRET.as_bytes());
    let token = encode(&Header::default(), &Value::Object(map), &key).unwrap();
    format!("Bearer {}", token)
}

fn entry_of(reply: Result<HandlerReply, ServiceError>) -> TimeEntryResponse {
    match reply {
        Ok(HandlerReply::Created(entry)) | Ok(HandlerReply::Entry(entry)) => entry,
        other => panic!("no entry in {:?}", other),
    }
}

fn entries_of(reply: Result<HandlerReply, ServiceError>) -> Vec<TimeEntryResponse> {
    match reply {
        Ok(HandlerReply::Entries(entries)) => entries,
        other => panic!("no entries in {:?}", other),
    }
}

#[test]
fn health_check_reports_ok() {
    let reply = health_check();
    assert_eq!(reply, HandlerReply::Healthy);
    assert_eq!(reply.status_code(), 200);
}

#[test]
fn reply_status_codes() {
    let entry = TimeEntryResponse {
        id: id(1),
        task_id: id(2),
        user_id: id(3),
        start_time: at(0),
        end_time: None,
        description: None,
        duration: None,
    };
    assert_eq!(HandlerReply::Created(entry.clone()).status_code(), 201);
    assert_eq!(HandlerReply::Entry(entry.clone()).status_code(), 200);
    assert_eq!(HandlerReply::Entries(vec![entry]).status_code(), 200);
    assert_eq!(HandlerReply::NoContent.status_code(), 204);
}

#[test]
fn start_replies_created() {
    let mut repo = TimeEntryRepository::new();
    let reply = start_time_entry_as(&mut repo, Ok(id(1)), request(7), id(100), at(1000));
    match reply {
        Ok(HandlerReply::Created(entry)) => {
            assert_eq!(entry.id, id(100));
            assert_eq!(entry.user_id, id(1));
            assert_eq!(entry.task_id, id(7));
            assert_eq!(entry.duration, None);
        }
        other => panic!("unexpected reply {:?}", other),
    }
}

#[test]
fn unidentified_caller_is_unauthorized_everywhere() {
    let mut repo = TimeEntryRepository::new();
    start_time_entry_as(&mut repo, Ok(id(1)), request(7), id(100), at(1000)).unwrap();
    let nobody = || Err(AuthError::InvalidToken);
    let refused = Err(ServiceError::Unauthorized("Invalid token".to_string()));

    assert_eq!(start_time_entry_as(&mut repo, nobody(), request(7), id(101), at(1)), refused);
    assert_eq!(stop_time_entry_as(&mut repo, nobody(), id(100), at(2000)), refused);
    assert_eq!(list_time_entries_as(&repo, nobody()), refused);
    assert_eq!(list_time_entries_by_task_as(&repo, nobody(), id(7)), refused);
    assert_eq!(get_active_time_entry_as(&repo, nobody()), refused);
    assert_eq!(delete_time_entry_as(&mut repo, nobody(), id(100)), refused);

    assert_eq!(repo.len(), 1);
    assert_eq!(repo.get_active(id(1)).unwrap().id, id(100));
}

#[test]
fn authentication_comes_before_validation() {
    let mut repo = TimeEntryRepository::new();
    let invalid = CreateTimeEntry { task_id: None, description: None };
    let nobody = Err(AuthError::MissingHeader);
    let reply = start_time_entry_as(&mut repo, nobody, invalid, id(1), at(1));
    assert_eq!(reply.unwrap_err().status_code(), 401);
}

#[test]
fn invalid_body_is_bad_request() {
    let mut repo = TimeEntryRepository::new();
    let no_task = CreateTimeEntry { task_id: None, description: None };
    assert_eq!(
        start_time_entry_as(&mut repo, Ok(id(1)), no_task, id(100), at(1000)),
        Err(ServiceError::BadRequest("task_id is required".to_string()))
    );
    let long = CreateTimeEntry { task_id: Some(id(7)), description: Some("x".repeat(501)) };
    assert_eq!(
        start_time_entry_as(&mut repo, Ok(id(1)), long, id(100), at(1000)),
        Err(ServiceError::BadRequest("description must be at most 500 characters".to_string()))
    );
    assert_eq!(repo.len(), 0);
}

#[test]
fn second_start_is_a_conflict() {
    let mut repo = TimeEntryRepository::new();
    start_time_entry_as(&mut repo, Ok(id(1)), request(7), id(100), at(1000)).unwrap();
    let reply = start_time_entry_as(&mut repo, Ok(id(1)), request(8), id(101), at(1001));
    assert_eq!(
        reply,
        Err(ServiceError::Conflict("An active time entry already exists".to_string()))
    );
    assert_eq!(reply.unwrap_err().status_code(), 409);
}

#[test]
fn stop_replies_entry_with_duration() {
    let mut repo = TimeEntryRepository::new();
    start_time_entry_as(&mut repo, Ok(id(1)), request(7), id(100), at(1000)).unwrap();
    let reply = stop_time_entry_as(&mut repo, Ok(id(1)), id(100), at(1060));
    assert_eq!(reply.as_ref().unwrap().status_code(), 200);
    assert_eq!(entry_of(reply).duration, Some(60));

    assert_eq!(
        stop_time_entry_as(&mut repo, Ok(id(1)), id(100), at(1070)),
        Err(ServiceError::Conflict("Time entry is already stopped".to_string()))
    );
    assert_eq!(
        stop_time_entry_as(&mut repo, Ok(id(2)), id(100), at(1070)),
        Err(ServiceError::NotFound("Record not found".to_string()))
    );
}

#[test]
fn active_entry_or_no_content() {
    let mut repo = TimeEntryRepository::new();
    assert_eq!(get_active_time_entry_as(&repo, Ok(id(1))), Ok(HandlerReply::NoContent));
    start_time_entry_as(&mut repo, Ok(id(1)), request(7), id(100), at(1000)).unwrap();
    assert_eq!(entry_of(get_active_time_entry_as(&repo, Ok(id(1)))).id, id(100));
    assert_eq!(get_active_time_entry_as(&repo, Ok(id(2))), Ok(HandlerReply::NoContent));
}

#[test]
fn listings_reply_entries() {
    let mut repo = TimeEntryRepository::new();
    start_time_entry_as(&mut repo, Ok(id(1)), request(7), id(100), at(1000)).unwrap();
    stop_time_entry_as(&mut repo, Ok(id(1)), id(100), at(1010)).unwrap();
    start_time_entry_as(&mut repo, Ok(id(1)), request(8), id(101), at(1020)).unwrap();

    let all = entries_of(list_time_entries_as(&repo, Ok(id(1))));
    assert_eq!(all.iter().map(|e| e.id.value).collect::<Vec<_>>(), vec![101, 100]);
    let on_task = entries_of(list_time_entries_by_task_as(&repo, Ok(id(1)), id(7)));
    assert_eq!(on_task.iter().map(|e| e.id.value).collect::<Vec<_>>(), vec![100]);
    assert_eq!(list_time_entries_as(&repo, Ok(id(2))), Ok(HandlerReply::Entries(vec![])));
}

#[test]
fn delete_replies_no_content_or_not_found() {
    let mut repo = TimeEntryRepository::new();
    start_time_entry_as(&mut repo, Ok(id(1)), request(7), id(100), at(1000)).unwrap();
    assert_eq!(
        delete_time_entry_as(&mut repo, Ok(id(2)), id(100)),
        Err(ServiceError::NotFound("Record not found".to_string()))
    );
    let reply = delete_time_entry_as(&mut repo, Ok(id(1)), id(100));
    assert_eq!(reply, Ok(HandlerReply::NoContent));
    assert_eq!(reply.unwrap().status_code(), 204);
    assert_eq!(
        delete_time_entry_as(&mut repo, Ok(id(1)), id(100)).unwrap_err().status_code(),
        404
    );
}

#[test]
fn requests_with_tokens_run_end_to_end() {
    let alice_token = bearer(ALICE);
    let bob_token = bearer(BOB);
    let alice = Authorization::Value(&alice_token);
    let bob = Authorization::Value(&bob_token);
    let mut repo = TimeEntryRepository::new();

    let created = entry_of(start_time_entry(&mut repo, SECRET, alice, request(7)));
    assert_eq!(created.user_id, Uuid::parse_str(ALICE).unwrap());
    assert_eq!(created.end_time, None);

    let running = entry_of(get_active_time_entry(&repo, SECRET, alice));
    assert_eq!(running.id, created.id);
    assert_eq!(get_active_time_entry(&repo, SECRET, bob), Ok(HandlerReply::NoContent));

    let conflict = start_time_entry(&mut repo, SECRET, alice, request(8));
    assert_eq!(conflict.unwrap_err().status_code(), 409);

    let foreign = stop_time_entry(&mut repo, SECRET, bob, created.id);
    assert_eq!(foreign.unwrap_err().status_code(), 404);
    let foreign = delete_time_entry(&mut repo, SECRET, bob, created.id);
    assert_eq!(foreign.unwrap_err().status_code(), 404);

    let stopped = entry_of(stop_time_entry(&mut repo, SECRET, alice, created.id));
    assert!(stopped.duration.unwrap() >= 0);
    let again = stop_time_entry(&mut repo, SECRET, alice, created.id);
    assert_eq!(again.unwrap_err().status_code(), 409);

    assert_eq!(entries_of(list_time_entries(&repo, SECRET, alice)).len(), 1);
    let on_task = entries_of(list_time_entries_by_task(&repo, SECRET, alice, id(7)));
    assert_eq!(on_task.len(), 1);
    let elsewhere = entries_of(list_time_entries_by_task(&repo, SECRET, alice, id(8)));
    assert!(elsewhere.is_empty());
    assert!(entries_of(list_time_entries(&repo, SECRET, bob)).is_empty());

    let deleted = delete_time_entry(&mut repo, SECRET, alice, created.id);
    assert_eq!(deleted, Ok(HandlerReply::NoContent));
    assert!(entries_of(list_time_entries(&repo, SECRET, alice)).is_empty());
}

#[test]
fn requests_without_valid_token_are_unauthorized() {
    let mut repo = TimeEntryRepository::new();
    let missing = start_time_entry(&mut repo, SECRET, Authorization::Missing, request(7));
    assert_eq!(
        missing,
        Err(ServiceError::Unauthorized("Authorization header is missing".to_string()))
    );
    let malformed = stop_time_entry(&mut repo, SECRET, Authorization::Value("Bearer"), id(1));
    assert_eq!(malformed, Err(ServiceError::Unauthorized("Invalid token format".to_string())));
    let invalid = list_time_entries(&repo, SECRET, Authorization::Value("Bearer x.y.z"));
    assert_eq!(invalid, Err(ServiceError::Unauthorized("Invalid token".to_string())));
    let forged = bearer(ALICE);
    let header = Authorization::Value(&forged);
    let wrong_secret = get_active_time_entry(&repo, "another secret", header);
    assert_eq!(wrong_secret.unwrap_err().status_code(), 401);
    let deleted = delete_time_entry(&mut repo, SECRET, Authorization::Missing, id(1));
    assert_eq!(deleted.unwrap_err().status_code(), 401);
    let listed = list_time_entries_by_task(&repo, SECRET, Authorization::Missing, id(7));
    assert_eq!(listed.unwrap_err().status_code(), 401);
    let unreadable = list_time_entries(&repo, SECRET, Authorization::Unreadable);
    assert_eq!(
        unreadable,
        Err(ServiceError::Unauthorized("Invalid Authorization header".to_string()))
    );
    assert_eq!(repo.len(), 0);
}

#[test]
fn taken_identifier_is_an_internal_error() {
    let mut repo = TimeEntryRepository::new();
    start_time_entry_as(&mut repo, Ok(id(1)), request(7), id(100), at(1000)).unwrap();
    let reply = start_time_entry_as(&mut repo, Ok(id(2)), request(7), id(100), at(1001));
    assert_eq!(reply, Err(ServiceError::InternalServerError));
    let error = reply.unwrap_err();
    assert_eq!(error.status_code(), 500);
    assert_eq!(error.message(), "Internal Server Error");
    assert_eq!(repo.len(), 1);
}

#[test]
fn stop_before_start_is_bad_request() {
    let mut repo = TimeEntryRepository::new();
    start_time_entry_as(&mut repo, Ok(id(1)), request(7), id(100), at(1000)).unwrap();
    let reply = stop_time_entry_as(&mut repo, Ok(id(1)), id(100), at(999));
    assert_eq!(
        reply,
        Err(ServiceError::BadRequest("end_time must not be before start_time".to_string()))
    );
}
