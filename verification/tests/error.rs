use dubs::error::{internal_server_error, not_found, plain_text_response, DbError, Error};

#[test]
fn error_texts() {
    assert_eq!(Error::NotFound.to_string(), "Error::NotFound");
    assert_eq!(Error::InternalServer.to_string(), "Error::InternalServer");
    assert_eq!(Error::RowNotFound.to_string(), "Error::RowNotFound");
    assert_eq!(Error::UserNotFound.to_string(), "Error::UserNotFound");
    assert_eq!(
        Error::Database("no such table".to_string()).to_string(),
        "Error::Database\n=== \u{21b4}\nno such table"
    );
}

#[test]
fn what_is_missing_is_a_404() {
    let response = Error::NotFound.into_response(false);
    assert_eq!(response.status, 404);
    assert_eq!(response.body, b"Error::NotFound".to_vec());
    assert_eq!(response.headers.get("content-type").unwrap(), "text/plain; charset=utf-8");
    let response = Error::RowNotFound.into_response(true);
    assert_eq!(response.status, 404);
    assert_eq!(response.body, b"Error::RowNotFound".to_vec());
}

#[test]
fn the_rest_is_a_500_without_detail() {
    let response = Error::Database("password=hunter2".to_string()).into_response(false);
    assert_eq!(response.status, 500);
    assert_eq!(response.body, b"internal server error".to_vec());
    let response = Error::InternalServer.into_response(false);
    assert_eq!(response.status, 500);
    assert_eq!(response.body, b"internal server error".to_vec());
    let response = Error::UserNotFound.into_response(false);
    assert_eq!(response.status, 500);
    assert_eq!(response.body, b"internal server error".to_vec());
}

#[test]
fn a_debug_build_shows_the_detail() {
    let response = Error::Database("no such table".to_string()).into_response(true);
    assert_eq!(response.status, 500);
    assert_eq!(response.body, "Error::Database\n=== \u{21b4}\nno such table".as_bytes().to_vec());
    let response = Error::InternalServer.into_response(true);
    assert_eq!(response.status, 500);
    assert_eq!(response.body, b"Error::InternalServer".to_vec());
}

#[test]
fn the_two_responses_by_themselves() {
    let response = not_found(Error::UserNotFound);
    assert_eq!(response.status, 404);
    assert_eq!(response.body, b"Error::UserNotFound".to_vec());
    let response = internal_server_error(Error::NotFound, true);
    assert_eq!(response.status, 500);
    assert_eq!(response.body, b"Error::NotFound".to_vec());
    let response = internal_server_error(Error::NotFound, false);
    assert_eq!(response.status, 500);
    assert_eq!(response.body, b"internal server error".to_vec());
    let response = plain_text_response(418, "tea");
    assert_eq!(response.status, 418);
    assert_eq!(response.body, b"tea".to_vec());
    assert_eq!(response.headers.len(), 1);
}

#[test]
fn datastore_failures_are_normalized() {
    assert!(matches!(Error::from(DbError::RowNotFound), Error::NotFound));
    assert!(matches!(Error::from(DbError::Other), Error::InternalServer));
    assert!(matches!(
        Error::from(DbError::Database("locked".to_string())),
        Error::Database(d) if d == "locked"
    ));
    assert!(matches!(Error::from_db(DbError::RowNotFound), Error::NotFound));
    assert!(matches!(Error::from_db(DbError::Other), Error::InternalServer));
    assert!(matches!(
        Error::from_db(DbError::Database("locked".to_string())),
        Error::Database(d) if d == "locked"
    ));
}
