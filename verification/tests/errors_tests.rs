use time_service::errors::{AuthError, ErrorKind, ServiceError, StoreError};
use time_service::models::{CreateTimeEntry, UpdateTimeEntry, Uuid, ValidationError};

#[test]
fn status_codes_follow_the_kind() {
    assert_eq!(ServiceError::InternalServerError.status_code(), 500);
    assert_eq!(ServiceError::BadRequest("b".to_string()).status_code(), 400);
    assert_eq!(ServiceError::Unauthorized("u".to_string()).status_code(), 401);
    assert_eq!(ServiceError::NotFound("n".to_string()).status_code(), 404);
    assert_eq!(ServiceError::Conflict("c".to_string()).status_code(), 409);
}

#[test]
fn kinds_are_stable() {
    assert_eq!(ServiceError::InternalServerError.kind(), ErrorKind::Internal);
    assert_eq!(ServiceError::BadRequest("b".to_string()).kind(), ErrorKind::BadRequest);
    assert_eq!(ServiceError::Unauthorized("u".to_string()).kind(), ErrorKind::Unauthorized);
    assert_eq!(ServiceError::NotFound("n".to_string()).kind(), ErrorKind::NotFound);
    assert_eq!(ServiceError::Conflict("c".to_string()).kind(), ErrorKind::Conflict);
}

#[test]
fn error_response_carries_status_and_message() {
    let response = ServiceError::NotFound("Record not found".to_string()).error_response();
    assert_eq!(response.status, 404);
    assert_eq!(response.body, "Record not found");
    let response = ServiceError::InternalServerError.error_response();
    assert_eq!(response.status, 500);
    assert_eq!(response.body, "Internal Server Error");
}

#[test]
fn errors_are_written_with_their_kind() {
    assert_eq!(ServiceError::InternalServerError.to_text(), "Internal Server Error");
    assert_eq!(ServiceError::BadRequest("bad".to_string()).to_text(), "BadRequest: bad");
    assert_eq!(ServiceError::Unauthorized("who".to_string()).to_text(), "Unauthorized: who");
    assert_eq!(ServiceError::NotFound("gone".to_string()).to_text(), "NotFound: gone");
    assert_eq!(ServiceError::Conflict("twice".to_string()).to_text(), "Conflict: twice");
}

#[test]
fn store_failures_surface_by_kind() {
    assert_eq!(
        ServiceError::from_store(StoreError::NotFound),
        ServiceError::NotFound("Record not found".to_string())
    );
    assert_eq!(
        ServiceError::from_store(StoreError::AlreadyStopped),
        ServiceError::Conflict("Time entry is already stopped".to_string())
    );
    assert_eq!(
        ServiceError::from_store(StoreError::ActiveEntryExists),
        ServiceError::Conflict("An active time entry already exists".to_string())
    );
    assert_eq!(
        ServiceError::from_store(StoreError::InvalidRange),
        ServiceError::BadRequest("end_time must not be before start_time".to_string())
    );
    assert_eq!(
        ServiceError::from_store(StoreError::Invalid(ValidationError::MissingTaskId)),
        ServiceError::BadRequest("task_id is required".to_string())
    );
    assert_eq!(
        ServiceError::from_store(StoreError::Invalid(ValidationError::DescriptionTooLong)),
        ServiceError::BadRequest("description must be at most 500 characters".to_string())
    );
    let internal = ServiceError::InternalServerError;
    assert_eq!(ServiceError::from_store(StoreError::DuplicateId), internal);
    assert_eq!(ServiceError::from_store(StoreError::Unavailable), internal);
}

#[test]
fn auth_failures_surface_as_unauthorized() {
    let cases = [
        (AuthError::MissingHeader, "Authorization header is missing"),
        (AuthError::UnreadableHeader, "Invalid Authorization header"),
        (AuthError::MalformedHeader, "Invalid token format"),
        (AuthError::InvalidToken, "Invalid token"),
        (AuthError::InvalidSubject, "Invalid user ID in token"),
    ];
    for (error, message) in cases {
        let surfaced = ServiceError::from_auth(error);
        assert_eq!(surfaced, ServiceError::Unauthorized(message.to_string()));
        assert_eq!(surfaced.status_code(), 401);
    }
}

#[test]
fn validation_failures_surface_as_bad_request() {
    assert_eq!(
        ServiceError::from_validation(ValidationError::MissingTaskId),
        ServiceError::BadRequest("task_id is required".to_string())
    );
    assert_eq!(
        ServiceError::from_validation(ValidationError::DescriptionTooLong).status_code(),
        400
    );
}

#[test]
fn create_request_validation() {
    let task = Some(Uuid { value: 7 });
    let valid = CreateTimeEntry { task_id: task, description: None };
    assert_eq!(valid.validate(), Ok(()));
    let no_task = CreateTimeEntry { task_id: None, description: None };
    assert_eq!(no_task.validate(), Err(ValidationError::MissingTaskId));
    let both = CreateTimeEntry { task_id: None, description: Some("x".repeat(600)) };
    assert_eq!(both.validate(), Err(ValidationError::MissingTaskId));
    let long = CreateTimeEntry { task_id: task, description: Some("x".repeat(501)) };
    assert_eq!(long.validate(), Err(ValidationError::DescriptionTooLong));
    let bound = CreateTimeEntry { task_id: task, description: Some("x".repeat(500)) };
    assert_eq!(bound.validate(), Ok(()));
    let wide = CreateTimeEntry { task_id: task, description: Some("日".repeat(500)) };
    assert_eq!(wide.validate(), Ok(()));
    let wider = CreateTimeEntry { task_id: task, description: Some("日".repeat(501)) };
    assert_eq!(wider.validate(), Err(ValidationError::DescriptionTooLong));
}

#[test]
fn update_request_validation() {
    let empty = UpdateTimeEntry { description: None, end_time: None };
    assert_eq!(empty.validate(), Ok(()));
    let long = UpdateTimeEntry { description: Some("x".repeat(501)), end_time: None };
    assert_eq!(long.validate(), Err(ValidationError::DescriptionTooLong));
}
