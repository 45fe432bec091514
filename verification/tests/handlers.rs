use dubs::error::{DbError, Error};
use dubs::handlers::{
    create_set, create_set_step, delete_set, delete_set_done, logged_in, login, login_form,
    login_step, logout, profile, redirect_to, root, root_listed, set_list, set_list_listed,
    set_names, welcome, Action, CreateSetState, LoginState, Query, Reply,
};
use dubs::model::{ExerciseSet, LoginForm, Session, SetForm, SomeUser, User};
use dubs::pages::{document, login_form_part, profile_part, root_part};
use dubs::response::Response;
use dubs::route::Route;

fn user() -> User {
    User::from_parts("u1".to_string(), "s3cret".to_string(), 5)
}

fn session() -> Session {
    Session::from_parts("01HZX".to_string(), "u1".to_string(), 7)
}

fn set(name: &str) -> ExerciseSet {
    ExerciseSet::from_parts("s".to_string(), "u1".to_string(), name.to_string(), 5, 50, 0)
}

fn sent(action: Action) -> Response {
    match action {
        Action::Respond(responder) => responder.finalize(),
        _ => panic!("a response is sent"),
    }
}

#[test]
fn redirects_name_the_route() {
    let response = redirect_to(Route::Profile).finalize();
    assert_eq!(response.status, 200);
    assert_eq!(response.headers.get("location").unwrap(), "/profile");
    assert_eq!(response.headers.get("hx-location").unwrap(), "/profile");
}

#[test]
fn repeated_names_are_suggested_once() {
    let sets = vec![set("bench"), set("bench"), set("curl"), set("bench"), set("bench")];
    assert_eq!(set_names(&sets), vec!["bench", "curl", "bench"]);
    assert!(set_names(&Vec::new()).is_empty());
    assert_eq!(set_names(&vec![set("a")]), vec!["a"]);
    assert_eq!(set_names(&vec![set("a"), set("a"), set("a")]), vec!["a"]);
    assert_eq!(set_names(&vec![set("a"), set("b"), set("c")]), vec!["a", "b", "c"]);
}

#[test]
fn the_start_page_asks_for_the_callers_sets() {
    let (logged_in, query) = root(SomeUser(Some(user())));
    assert!(logged_in);
    assert!(matches!(query, Query::SetsByName { user_id, limit } if user_id == "u1" && limit == 30));
    let (logged_in, query) = root(SomeUser(None));
    assert!(!logged_in);
    assert!(matches!(query, Query::SetsByName { user_id, limit } if user_id == "" && limit == 30));
}

#[test]
fn the_start_page_suggests_the_names() {
    let page = match root_listed(true, Ok(vec![set("bench"), set("bench"), set("curl")])) {
        Ok(responder) => responder.finalize(),
        Err(_) => panic!("the page is shown"),
    };
    let expected = document(
        Route::Root,
        root_part(&true, vec!["bench".to_string(), "curl".to_string()], SetForm::default()),
    )
    .render_to_string();
    assert_eq!(page.status, 200);
    assert_eq!(page.body, expected.as_bytes().to_vec());
    assert_eq!(page.headers.get("content-type").unwrap(), "text/html; charset=utf-8");
}

#[test]
fn a_failed_read_fails_the_page() {
    assert!(matches!(root_listed(true, Err(DbError::RowNotFound)), Err(Error::NotFound)));
    assert!(matches!(
        root_listed(false, Err(DbError::Database("x".to_string()))),
        Err(Error::Database(d)) if d == "x"
    ));
    assert!(matches!(set_list_listed(user(), Err(DbError::Other)), Err(Error::InternalServer)));
    assert!(matches!(delete_set_done(Err(DbError::RowNotFound)), Err(Error::NotFound)));
}

#[test]
fn the_list_asks_newest_first() {
    let query = set_list(&user());
    assert!(
        matches!(query, Query::SetsByRecency { user_id, limit } if user_id == "u1" && limit == 30)
    );
    let page = match set_list_listed(user(), Ok(vec![set("bench")])) {
        Ok(responder) => responder.finalize(),
        Err(_) => panic!("the page is shown"),
    };
    let text = String::from_utf8(page.body).unwrap();
    assert!(text.starts_with("<!DOCTYPE html><html><head>"));
    assert!(text.contains("<div class=\"font-bold\">bench</div>"));
    assert!(!text.contains("s3cret"));
}

#[test]
fn the_profile_may_be_cached_for_a_minute() {
    let page = profile(user()).finalize();
    let expected = document(Route::Profile, profile_part(user())).render_to_string();
    assert_eq!(page.status, 200);
    assert_eq!(page.body, expected.as_bytes().to_vec());
    assert_eq!(page.headers.get("cache-control").unwrap(), "max_age=60,private");
    assert_eq!(page.headers.get("content-type").unwrap(), "text/html; charset=utf-8");
}

#[test]
fn logout_empties_the_cookie() {
    let response = logout(false).finalize();
    assert_eq!(response.status, 200);
    assert_eq!(response.headers.get("location").unwrap(), "/");
    assert_eq!(response.headers.get("hx-location").unwrap(), "/");
    assert_eq!(
        response.headers.get("set-cookie").unwrap(),
        "id=; HttpOnly; Max-Age=0; SameSite=Strict; Path=/"
    );
    assert!(response.body.is_empty());
    let response = logout(true).finalize();
    assert_eq!(
        response.headers.get("set-cookie").unwrap(),
        "id=; HttpOnly; Max-Age=0; SameSite=Strict; Secure; Path=/"
    );
}

#[test]
fn deleting_goes_back_to_the_list() {
    let query = delete_set(user(), "set9".to_string());
    assert!(
        matches!(query, Query::DeleteSet { id, user_id } if id == "set9" && user_id == "u1")
    );
    let response = match delete_set_done(Ok(0)) {
        Ok(responder) => responder.finalize(),
        Err(_) => panic!("the caller is sent on"),
    };
    assert_eq!(response.headers.get("location").unwrap(), "/sets");
    assert_eq!(response.headers.get("hx-location").unwrap(), "/sets");
    assert!(response.body.is_empty());
}

#[test]
fn the_login_page_starts_empty() {
    let page = match login_form() {
        Ok(responder) => responder.finalize(),
        Err(_) => panic!("the page is shown"),
    };
    let expected = document(
        Route::Login,
        login_form_part(LoginForm { secret: String::new(), error: None }),
    )
    .render_to_string();
    assert_eq!(page.body, expected.as_bytes().to_vec());
}

#[test]
fn a_known_secret_logs_in() {
    let (state, query) = login(LoginForm { secret: "s3cret".to_string(), error: None });
    assert!(matches!(&state, LoginState::FindingUser { params } if params.secret == "s3cret"));
    assert!(matches!(query, Query::UserBySecret { secret } if secret == "s3cret"));
    let (state, action) = login_step(state, Reply::User(Ok(user())), true);
    assert!(matches!(state, LoginState::SavingSession));
    let made = match action {
        Action::Ask(Query::InsertSession(made)) => made,
        _ => panic!("a session is stored"),
    };
    assert_eq!(made.user_id, "u1");
    assert_eq!(made.id.len(), 26);
    let (state, action) = login_step(state, Reply::Session(Ok(session())), true);
    assert!(matches!(state, LoginState::Done));
    let response = sent(action);
    assert_eq!(response.status, 200);
    assert_eq!(response.headers.get("location").unwrap(), "/");
    assert_eq!(response.headers.get("hx-location").unwrap(), "/");
    assert_eq!(
        response.headers.get("set-cookie").unwrap(),
        "id=01HZX; HttpOnly; Max-Age=34560000; SameSite=Strict; Secure; Path=/"
    );
    assert!(response.body.is_empty());
}

#[test]
fn an_unknown_secret_shows_the_form_again() {
    let (state, _) = login(LoginForm { secret: "nope".to_string(), error: None });
    let (state, action) = login_step(state, Reply::User(Err(DbError::RowNotFound)), false);
    assert!(matches!(state, LoginState::Done));
    let response = sent(action);
    let expected = document(
        Route::LoginForm,
        login_form_part(LoginForm { secret: "nope".to_string(), error: None }),
    )
    .render_to_string();
    assert_eq!(response.body, expected.as_bytes().to_vec());
    let (state, _) = login(LoginForm { secret: "nope".to_string(), error: None });
    let (_, action) = login_step(state, Reply::User(Err(DbError::Other)), false);
    assert_eq!(sent(action).body, expected.as_bytes().to_vec());
}

#[test]
fn a_session_that_cannot_be_stored_fails_the_login() {
    let (_, action) =
        login_step(LoginState::SavingSession, Reply::Session(Err(DbError::Other)), false);
    assert!(matches!(action, Action::Fail(Error::InternalServer)));
    let (_, action) = login_step(
        LoginState::SavingSession,
        Reply::Session(Err(DbError::Database("full".to_string()))),
        false,
    );
    assert!(matches!(action, Action::Fail(Error::Database(d)) if d == "full"));
}

#[test]
fn a_reply_out_of_turn_is_an_internal_error() {
    let (state, action) = login_step(LoginState::SavingSession, Reply::User(Ok(user())), false);
    assert!(matches!(state, LoginState::Done));
    assert!(matches!(action, Action::Fail(Error::InternalServer)));
    let (_, action) = login_step(LoginState::Done, Reply::Session(Ok(session())), false);
    assert!(matches!(action, Action::Fail(Error::InternalServer)));
    let (state, action) = create_set_step(CreateSetState::SavingSet, Reply::Deleted(Ok(1)), false);
    assert!(matches!(state, CreateSetState::Done));
    assert!(matches!(action, Action::Fail(Error::InternalServer)));
    let (_, action) = create_set_step(CreateSetState::Done, Reply::OneSet(Ok(set("a"))), false);
    assert!(matches!(action, Action::Fail(Error::InternalServer)));
}

#[test]
fn an_identifier_with_a_line_break_is_no_cookie() {
    let bad = Session::from_parts("a\r\nb".to_string(), "u1".to_string(), 0);
    assert!(matches!(logged_in(bad, false), Action::Fail(Error::InternalServer)));
    let bad = Session::from_parts("a\nb".to_string(), "u1".to_string(), 0);
    assert!(matches!(welcome(user(), bad, Vec::new(), false), Action::Fail(Error::InternalServer)));
}

#[test]
fn a_caller_who_is_logged_in_stores_the_set() {
    let form = SetForm { name: "squat".to_string(), reps: 5, weight: 100 };
    let (state, query) = create_set(Some(user()), form);
    assert!(matches!(state, CreateSetState::SavingSet));
    let made = match query {
        Query::InsertSet(made) => made,
        _ => panic!("the set is stored"),
    };
    assert_eq!(made.user_id, "u1");
    assert_eq!(made.name, "squat");
    assert_eq!(made.reps, 5);
    assert_eq!(made.weight, 100);
    assert_eq!(made.id.len(), 26);
    let (state, action) = create_set_step(state, Reply::OneSet(Ok(made)), false);
    assert!(matches!(state, CreateSetState::Done));
    let response = sent(action);
    assert_eq!(response.headers.get("location").unwrap(), "/sets");
    assert_eq!(response.headers.get("hx-location").unwrap(), "/sets");
    assert!(response.headers.get("set-cookie").is_none());
    assert!(response.body.is_empty());
}

#[test]
fn a_new_caller_gets_user_session_and_set() {
    let form = SetForm { name: "squat".to_string(), reps: 5, weight: 100 };
    let (state, query) = create_set(None, form);
    assert!(matches!(&state, CreateSetState::SavingUser { form } if form.name == "squat"));
    let made = match query {
        Query::InsertUser(made) => made,
        _ => panic!("a user is stored"),
    };
    assert_eq!(made.id.len(), 26);
    assert_eq!(made.secret.len(), 26);

    let (state, action) = create_set_step(state, Reply::User(Ok(user())), false);
    assert!(matches!(&state, CreateSetState::SavingSession { user, .. } if user.id == "u1"));
    assert!(
        matches!(&action, Action::Ask(Query::InsertSession(made)) if made.user_id == "u1" && made.id.len() == 26)
    );

    let (state, action) = create_set_step(state, Reply::Session(Ok(session())), false);
    assert!(
        matches!(&state, CreateSetState::SavingFirstSet { user, session } if user.id == "u1" && session.id == "01HZX")
    );
    let first = match action {
        Action::Ask(Query::InsertSet(first)) => first,
        _ => panic!("the set is stored"),
    };
    assert_eq!(first.user_id, "u1");
    assert_eq!(first.name, "squat");
    assert_eq!(first.reps, 5);
    assert_eq!(first.weight, 100);

    let (state, action) = create_set_step(state, Reply::OneSet(Ok(first)), false);
    assert!(matches!(&state, CreateSetState::Listing { .. }));
    assert!(matches!(
        &action,
        Action::Ask(Query::SetsByRecency { user_id, limit }) if user_id == "u1" && *limit == 30
    ));

    let (state, action) = create_set_step(state, Reply::Sets(Ok(vec![set("squat")])), false);
    assert!(matches!(state, CreateSetState::Done));
    let response = sent(action);
    assert_eq!(response.status, 200);
    assert_eq!(response.headers.get("location").unwrap(), "/sets");
    assert_eq!(response.headers.get("hx-location").unwrap(), "/sets");
    assert_eq!(
        response.headers.get("set-cookie").unwrap(),
        "id=01HZX; HttpOnly; Max-Age=34560000; SameSite=Strict; Path=/"
    );
    assert_eq!(response.headers.get("content-type").unwrap(), "text/html; charset=utf-8");
    let text = String::from_utf8(response.body).unwrap();
    assert!(text.starts_with("<div class=\"px-4 lg:px-0 flex flex-col gap-4\">"));
    assert!(text.contains("<div class=\"font-bold\">squat</div>"));
    assert!(text.contains("<span>5 reps</span>"));
    assert!(text.contains("y ago</div>"));
    assert!(text.ends_with("start another set</a></div></div>"));
}

#[test]
fn any_failed_write_ends_the_request() {
    let (state, action) =
        create_set_step(CreateSetState::SavingSet, Reply::OneSet(Err(DbError::Other)), false);
    assert!(matches!(state, CreateSetState::Done));
    assert!(matches!(action, Action::Fail(Error::InternalServer)));
    let form = SetForm { name: "squat".to_string(), reps: 5, weight: 100 };
    let (_, action) = create_set_step(
        CreateSetState::SavingUser { form },
        Reply::User(Err(DbError::Database("locked".to_string()))),
        false,
    );
    assert!(matches!(action, Action::Fail(Error::Database(d)) if d == "locked"));
    let form = SetForm { name: "squat".to_string(), reps: 5, weight: 100 };
    let (_, action) = create_set_step(
        CreateSetState::SavingSession { user: user(), form },
        Reply::Session(Err(DbError::RowNotFound)),
        false,
    );
    assert!(matches!(action, Action::Fail(Error::NotFound)));
    let (_, action) = create_set_step(
        CreateSetState::SavingFirstSet { user: user(), session: session() },
        Reply::OneSet(Err(DbError::Other)),
        false,
    );
    assert!(matches!(action, Action::Fail(Error::InternalServer)));
    let (_, action) = create_set_step(
        CreateSetState::Listing { user: user(), session: session() },
        Reply::Sets(Err(DbError::Other)),
        false,
    );
    assert!(matches!(action, Action::Fail(Error::InternalServer)));
}
