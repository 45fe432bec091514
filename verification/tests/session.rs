use axum_extra::headers::{Cookie, Header, HeaderValue};
use dubs::error::{DbError, Error};
use dubs::model::{Session, SomeUser, User};
use dubs::session::{
    authenticate, session_cookie, session_cookie_string, AuthAction, AuthEvent, AuthState,
};

fn cookie(text: &'static str) -> Cookie {
    let value = HeaderValue::from_static(text);
    let values = [value];
    match Cookie::decode(&mut values.iter()) {
        Ok(cookie) => cookie,
        Err(_) => panic!("a cookie header is given"),
    }
}

fn user() -> User {
    User::from_parts("u1".to_string(), "s3cret".to_string(), 5)
}

fn session() -> Session {
    Session::from_parts("abc".to_string(), "u1".to_string(), 7)
}

#[test]
fn no_cookie_is_not_found() {
    let (state, action) = authenticate(AuthState::Start, AuthEvent::Request(None));
    assert_eq!(state, AuthState::Finished);
    assert!(matches!(action, AuthAction::Reject(Error::NotFound)));
}

#[test]
fn a_cookie_without_id_is_not_found() {
    let event = AuthEvent::Request(Some(cookie("lang=en; sid=abc")));
    let (state, action) = authenticate(AuthState::Start, event);
    assert_eq!(state, AuthState::Finished);
    assert!(matches!(action, AuthAction::Reject(Error::NotFound)));
}

#[test]
fn the_cookie_names_the_session() {
    let event = AuthEvent::Request(Some(cookie("lang=en; id=abc; theme=dark")));
    let (state, action) = authenticate(AuthState::Start, event);
    assert_eq!(state, AuthState::FindingSession);
    match action {
        AuthAction::FindSession(id) => assert_eq!(id, "abc"),
        _ => panic!("the session is asked for"),
    }
}

#[test]
fn the_first_id_counts() {
    let event = AuthEvent::Request(Some(cookie("id=first; id=second")));
    let (_, action) = authenticate(AuthState::Start, event);
    assert!(matches!(action, AuthAction::FindSession(id) if id == "first"));
}

#[test]
fn no_matching_session_is_not_found() {
    let event = AuthEvent::SessionRead(Err(DbError::RowNotFound));
    let (state, action) = authenticate(AuthState::FindingSession, event);
    assert_eq!(state, AuthState::Finished);
    assert!(matches!(action, AuthAction::Reject(Error::NotFound)));
}

#[test]
fn the_session_names_the_user() {
    let event = AuthEvent::SessionRead(Ok(session()));
    let (state, action) = authenticate(AuthState::FindingSession, event);
    assert_eq!(state, AuthState::FindingUser);
    assert!(matches!(action, AuthAction::FindUser(id) if id == "u1"));
}

#[test]
fn an_absent_user_is_not_found() {
    let event = AuthEvent::UserRead(Err(DbError::RowNotFound));
    let (state, action) = authenticate(AuthState::FindingUser, event);
    assert_eq!(state, AuthState::Finished);
    assert!(matches!(action, AuthAction::Reject(Error::NotFound)));
}

#[test]
fn the_user_is_the_caller() {
    let event = AuthEvent::UserRead(Ok(user()));
    let (state, action) = authenticate(AuthState::FindingUser, event);
    assert_eq!(state, AuthState::Finished);
    match action {
        AuthAction::Accept(found) => {
            assert_eq!(found.id, "u1");
            assert_eq!(found.secret, "s3cret");
            assert_eq!(found.created_at, 5);
        }
        _ => panic!("the user is accepted"),
    }
}

#[test]
fn a_whole_resolution_reads_twice() {
    let mut reads = 0;
    let (state, action) =
        authenticate(AuthState::Start, AuthEvent::Request(Some(cookie("id=abc"))));
    assert!(matches!(action, AuthAction::FindSession(_)));
    reads += 1;
    let (state, action) = authenticate(state, AuthEvent::SessionRead(Ok(session())));
    assert!(matches!(action, AuthAction::FindUser(_)));
    reads += 1;
    let (state, action) = authenticate(state, AuthEvent::UserRead(Ok(user())));
    assert!(matches!(action, AuthAction::Accept(_)));
    assert_eq!(state, AuthState::Finished);
    assert_eq!(reads, 2);
}

#[test]
fn a_datastore_failure_keeps_its_detail() {
    let event = AuthEvent::SessionRead(Err(DbError::Database("disk full".to_string())));
    let (_, action) = authenticate(AuthState::FindingSession, event);
    assert!(matches!(action, AuthAction::Reject(Error::Database(d)) if d == "disk full"));
    let event = AuthEvent::UserRead(Err(DbError::Other));
    let (_, action) = authenticate(AuthState::FindingUser, event);
    assert!(matches!(action, AuthAction::Reject(Error::InternalServer)));
}

#[test]
fn an_event_out_of_turn_is_an_internal_error() {
    let (state, action) = authenticate(AuthState::Start, AuthEvent::UserRead(Ok(user())));
    assert_eq!(state, AuthState::Finished);
    assert!(matches!(action, AuthAction::Reject(Error::InternalServer)));
    let (state, action) = authenticate(AuthState::FindingUser, AuthEvent::Request(None));
    assert_eq!(state, AuthState::Finished);
    assert!(matches!(action, AuthAction::Reject(Error::InternalServer)));
    let (state, action) = authenticate(AuthState::Finished, AuthEvent::UserRead(Ok(user())));
    assert_eq!(state, AuthState::Finished);
    assert!(matches!(action, AuthAction::Reject(Error::InternalServer)));
}

#[test]
fn an_optional_caller_never_fails() {
    let caller = SomeUser::from_outcome(Ok(user()));
    assert_eq!(caller.0.map(|u| u.id), Some("u1".to_string()));
    assert!(SomeUser::from_outcome(Err(Error::NotFound)).0.is_none());
    assert!(SomeUser::from_outcome(Err(Error::InternalServer)).0.is_none());
    assert!(SomeUser::from_outcome(Err(Error::Database("x".to_string()))).0.is_none());
}

#[test]
fn the_login_cookie() {
    assert_eq!(
        session_cookie_string(Some("abc"), false),
        "id=abc; HttpOnly; Max-Age=34560000; SameSite=Strict; Path=/"
    );
    assert_eq!(
        session_cookie_string(Some("abc"), true),
        "id=abc; HttpOnly; Max-Age=34560000; SameSite=Strict; Secure; Path=/"
    );
}

#[test]
fn the_logout_cookie() {
    assert_eq!(
        session_cookie_string(None, false),
        "id=; HttpOnly; Max-Age=0; SameSite=Strict; Path=/"
    );
    assert_eq!(
        session_cookie_string(None, true),
        "id=; HttpOnly; Max-Age=0; SameSite=Strict; Secure; Path=/"
    );
}

#[test]
fn the_cookie_as_a_header_value() {
    let value = session_cookie(Some("01HZX".to_string()), true);
    assert_eq!(
        value.as_bytes(),
        b"id=01HZX; HttpOnly; Max-Age=34560000; SameSite=Strict; Secure; Path=/"
    );
    let value = session_cookie(None, false);
    assert_eq!(value.as_bytes(), b"id=; HttpOnly; Max-Age=0; SameSite=Strict; Path=/");
}

#[test]
fn the_cookie_that_is_sent_is_read_back() {
    let value = session_cookie(Some("01HZX".to_string()), false);
    let values = [value];
    let parsed = match Cookie::decode(&mut values.iter()) {
        Ok(cookie) => cookie,
        Err(_) => panic!("the cookie parses"),
    };
    let (_, action) = authenticate(AuthState::Start, AuthEvent::Request(Some(parsed)));
    assert!(matches!(action, AuthAction::FindSession(id) if id == "01HZX"));
}
