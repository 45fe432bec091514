//! The decisions of the route handlers.
//!
//! A handler talks to the datastore, which this library cannot do. Each
//! handler is therefore split where it talks: a function says what to ask,
//! and a function takes the answer and says what to ask next or how to
//! respond. The handlers that ask more than once keep their place in a state.

use crate::cache::{Cache, CacheType};
use crate::error::{error_of_db, DbError, DbErrorView, Error, ErrorView};
use crate::headers::{is_header_value, lemma_plain_text_is_header_value};
use crate::markup::render as rendered;
use crate::model::{
    is_ulid_text, ExerciseSet, ExerciseSetView, LoginForm, LoginFormView, Session, SessionView,
    SetForm, SetFormView, SomeUser, User, UserView,
};
use crate::pages::{
    document_view, login_form_part, login_form_part_view, profile_part, profile_part_view,
    render, response, root_part, root_part_view, set_list_part, set_list_part_view, sets_view,
    strings_view,
};
use crate::response::{res, Responder, ResponderView};
use crate::route::{lemma_route_path_is_plain, route_path, Route};
use crate::session::{is_header_text, session_cookie, session_cookie_text};
use vstd::prelude::*;
use vstd::utf8::encode_utf8;

verus! {

/// How many sets a page lists at most.
pub const PAGE_LIMIT: usize = 30;

/// What a handler asks of the datastore.
pub enum Query {
    /// The sets of a user, by name, at most `limit` of them.
    SetsByName { user_id: String, limit: usize },
    /// The sets of a user, newest first, at most `limit` of them.
    SetsByRecency { user_id: String, limit: usize },
    /// Store this set and hand it back.
    InsertSet(ExerciseSet),
    /// Store this user and hand it back.
    InsertUser(User),
    /// Store this session and hand it back.
    InsertSession(Session),
    /// Delete the set with this identifier if it belongs to this user.
    DeleteSet { id: String, user_id: String },
    /// The user with this secret.
    UserBySecret { secret: String },
}

/// The mathematical value of a [`Query`].
pub enum QueryView {
    SetsByName { user_id: Seq<char>, limit: usize },
    SetsByRecency { user_id: Seq<char>, limit: usize },
    InsertSet(ExerciseSetView),
    InsertUser(UserView),
    InsertSession(SessionView),
    DeleteSet { id: Seq<char>, user_id: Seq<char> },
    UserBySecret { secret: Seq<char> },
}

impl View for Query {
    type V = QueryView;

    open spec fn view(&self) -> QueryView {
        match self {
            Query::SetsByName { user_id, limit } => QueryView::SetsByName {
                user_id: user_id@,
                limit: *limit,
            },
            Query::SetsByRecency { user_id, limit } => QueryView::SetsByRecency {
                user_id: user_id@,
                limit: *limit,
            },
            Query::InsertSet(set) => QueryView::InsertSet(set@),
            Query::InsertUser(user) => QueryView::InsertUser(user@),
            Query::InsertSession(session) => QueryView::InsertSession(session@),
            Query::DeleteSet { id, user_id } => QueryView::DeleteSet { id: id@, user_id: user_id@ },
            Query::UserBySecret { secret } => QueryView::UserBySecret { secret: secret@ },
        }
    }
}

/// What the datastore answered.
pub enum Reply {
    Sets(Result<Vec<ExerciseSet>, DbError>),
    OneSet(Result<ExerciseSet, DbError>),
    User(Result<User, DbError>),
    Session(Result<Session, DbError>),
    Deleted(Result<u64, DbError>),
}

/// The mathematical value of a [`Reply`].
pub enum ReplyView {
    Sets(Result<Seq<ExerciseSetView>, DbErrorView>),
    OneSet(Result<ExerciseSetView, DbErrorView>),
    User(Result<UserView, DbErrorView>),
    Session(Result<SessionView, DbErrorView>),
    Deleted(Result<u64, DbErrorView>),
}

impl View for Reply {
    type V = ReplyView;

    open spec fn view(&self) -> ReplyView {
        match self {
            Reply::Sets(Ok(sets)) => ReplyView::Sets(Ok(sets_view(sets@))),
            Reply::Sets(Err(e)) => ReplyView::Sets(Err(e@)),
            Reply::OneSet(Ok(set)) => ReplyView::OneSet(Ok(set@)),
            Reply::OneSet(Err(e)) => ReplyView::OneSet(Err(e@)),
            Reply::User(Ok(user)) => ReplyView::User(Ok(user@)),
            Reply::User(Err(e)) => ReplyView::User(Err(e@)),
            Reply::Session(Ok(session)) => ReplyView::Session(Ok(session@)),
            Reply::Session(Err(e)) => ReplyView::Session(Err(e@)),
            Reply::Deleted(Ok(n)) => ReplyView::Deleted(Ok(*n)),
            Reply::Deleted(Err(e)) => ReplyView::Deleted(Err(e@)),
        }
    }
}

impl ReplyView {
    /// The failure that this reply reports, if it reports one.
    pub open spec fn failure(self) -> Option<DbErrorView> {
        match self {
            ReplyView::Sets(Err(e)) => Some(e),
            ReplyView::OneSet(Err(e)) => Some(e),
            ReplyView::User(Err(e)) => Some(e),
            ReplyView::Session(Err(e)) => Some(e),
            ReplyView::Deleted(Err(e)) => Some(e),
            _ => None,
        }
    }
}

/// What a handler does next.
pub enum Action {
    /// Ask the datastore and come back with its reply.
    Ask(Query),
    /// Send this response.
    Respond(Responder),
    /// Give up with this error.
    Fail(Error),
}

/// The mathematical value of an [`Action`].
pub enum ActionView {
    Ask(QueryView),
    Respond(ResponderView),
    Fail(ErrorView),
}

impl View for Action {
    type V = ActionView;

    open spec fn view(&self) -> ActionView {
        match self {
            Action::Ask(query) => ActionView::Ask(query@),
            Action::Respond(responder) => ActionView::Respond(responder@),
            Action::Fail(error) => ActionView::Fail(error@),
        }
    }
}

/// The bytes of a route's path.
pub open spec fn route_bytes(route: Route) -> Seq<u8> {
    encode_utf8(route_path(route))
}

/// A fresh response that sends the caller on to `route`.
pub fn redirect_to(route: Route) -> (r: Responder)
    ensures
        r@ == ResponderView::start().redirect(route_bytes(route)),
        r.header_names() <= 2,
{
    proof {
        lemma_route_path_is_plain(route);
        lemma_plain_text_is_header_value(route_path(route));
    }
    res().redirect(route.path())
}

/// A run of names without the repeats that follow one another.
pub open spec fn dedup(names: Seq<Seq<char>>) -> Seq<Seq<char>>
    decreases names.len(),
{
    if names.len() <= 1 {
        names
    } else if names.last() == names[names.len() - 2] {
        dedup(names.drop_last())
    } else {
        dedup(names.drop_last()).push(names.last())
    }
}

/// The names of a run of sets, in order.
pub open spec fn names_of(sets: Seq<ExerciseSetView>) -> Seq<Seq<char>> {
    Seq::new(sets.len(), |i: int| sets[i].name)
}

/// The names of `sets`, in order, without the repeats that follow one
/// another.
pub fn set_names(sets: &Vec<ExerciseSet>) -> (names: Vec<String>)
    ensures
        strings_view(names@) == dedup(names_of(sets_view(sets@))),
{
    let mut names: Vec<String> = Vec::new();
    let ghost all = names_of(sets_view(sets@));
    assert(strings_view(names@) =~= dedup(all.take(0)));
    for i in 0..sets.len()
        invariant
            all == names_of(sets_view(sets@)),
            strings_view(names@) == dedup(all.take(i as int)),
    {
        proof {
            assert(all.take(i + 1).drop_last() =~= all.take(i as int));
            assert(all.take(i + 1).last() == sets@[i as int].name@);
            if i > 0 {
                assert(all.take(i + 1)[i - 1] == sets@[i - 1].name@);
            }
        }
        if i == 0 || sets[i].name != sets[i - 1].name {
            let name = sets[i].name.clone();
            proof {
                assert(strings_view(names@.push(name)) =~= strings_view(names@).push(name@));
                if i == 0 {
                    assert(dedup(all.take(0)) =~= Seq::empty());
                    assert(all.take(1) =~= Seq::empty().push(name@));
                }
            }
            names.push(name);
        }
    }
    assert(all.take(sets.len() as int) =~= all);
    names
}

/// The identifier that the start page lists sets for: the caller's, or the
/// empty identifier of nobody.
pub open spec fn caller_id(caller: Option<UserView>) -> Seq<char> {
    match caller {
        Some(user) => user.id,
        None => Seq::empty(),
    }
}

/// The view of an optional user.
pub open spec fn user_of(user: Option<User>) -> Option<UserView> {
    match user {
        Some(user) => Some(user@),
        None => None,
    }
}

/// The start page, first part: whether the caller is logged in, and the
/// question for their sets by name.
pub fn root(caller: SomeUser) -> (asked: (bool, Query))
    ensures
        asked.0 == caller.0 is Some,
        asked.1@ == (QueryView::SetsByName {
            user_id: caller_id(user_of(caller.0)),
            limit: PAGE_LIMIT,
        }),
{
    let is_logged_in = caller.0.is_some();
    let user_id = match caller.0 {
        Some(user) => user.id,
        None => User::default().id,
    };
    (is_logged_in, Query::SetsByName { user_id, limit: PAGE_LIMIT })
}

/// The response of the start page for these sets.
pub open spec fn root_view(is_logged_in: bool, sets: Seq<ExerciseSetView>) -> ResponderView {
    ResponderView::start().render(
        rendered(
            document_view(
                Route::Root,
                root_part_view(
                    is_logged_in,
                    dedup(names_of(sets)),
                    SetFormView { name: Seq::empty(), reps: 0, weight: 0 },
                ),
            ),
        ),
    )
}

/// The start page, second part: the page with an empty form that suggests
/// the names of the caller's sets; or the error of a failed read.
pub fn root_listed(is_logged_in: bool, sets: Result<Vec<ExerciseSet>, DbError>) -> (r: Result<
    Responder,
    Error,
>)
    ensures
        match sets {
            Ok(sets) => r matches Ok(responder) && responder@ == root_view(
                is_logged_in,
                sets_view(sets@),
            ) && responder.header_names() <= 1,
            Err(e) => r matches Err(error) && error@ == error_of_db(e@),
        },
{
    match sets {
        Ok(sets) => {
            let names = set_names(&sets);
            render(Route::Root, root_part(&is_logged_in, names, SetForm::default()))
        },
        Err(e) => Err(Error::from_db(e)),
    }
}

/// The list of sets, first part: the question for the user's sets, newest
/// first.
pub fn set_list(user: &User) -> (query: Query)
    ensures
        query@ == (QueryView::SetsByRecency { user_id: user@.id, limit: PAGE_LIMIT }),
{
    Query::SetsByRecency { user_id: user.id.clone(), limit: PAGE_LIMIT }
}

/// The response of the list of sets, as seen at the time `now`.
pub open spec fn set_list_view(now: u64, user: UserView, sets: Seq<ExerciseSetView>) -> ResponderView {
    ResponderView::start().render(
        rendered(document_view(Route::SetList, set_list_part_view(now, user, sets))),
    )
}

/// The list of sets, second part: the page that lists them; or the error of
/// a failed read.
pub fn set_list_listed(user: User, sets: Result<Vec<ExerciseSet>, DbError>) -> (r: Result<
    Responder,
    Error,
>)
    ensures
        match sets {
            Ok(sets) => r matches Ok(responder) && responder.header_names() <= 1 && exists|
                now: u64,
            | responder@ == set_list_view(now, user@, sets_view(sets@)),
            Err(e) => r matches Err(error) && error@ == error_of_db(e@),
        },
{
    match sets {
        Ok(sets) => {
            let ghost user_view = user@;
            let ghost sets_seen = sets_view(sets@);
            let part = set_list_part(user, sets);
            let r = render(Route::SetList, part);
            proof {
                let now = choose|now: u64| part@ == set_list_part_view(now, user_view, sets_seen);
                assert(r->Ok_0@ == set_list_view(now, user_view, sets_seen));
            }
            r
        },
        Err(e) => Err(Error::from_db(e)),
    }
}

/// How the profile page may be cached: for a minute, by the caller alone.
pub open spec fn profile_cache() -> Cache {
    Cache { max_age: 60, cache_type: CacheType::Private, must_revalidate: false, no_cache: false }
}

/// The profile page of `user`. It may be cached for a minute, by the caller
/// alone.
pub fn profile(user: User) -> (r: Responder)
    ensures
        r@ == ResponderView::start().render(
            rendered(document_view(Route::Profile, profile_part_view(user@))),
        ).cache(profile_cache()),
        r.header_names() <= 2,
{
    response(Route::Profile, profile_part(user)).cache(
        Cache {
            max_age: 60,
            cache_type: CacheType::Private,
            must_revalidate: false,
            no_cache: false,
        },
    )
}

/// The response that logs the caller out: on to the start page, with a
/// session cookie that is empty and expires at once.
pub fn logout(secure: bool) -> (r: Responder)
    ensures
        r@ == ResponderView::start().redirect(route_bytes(Route::Root)).set_cookie(
            encode_utf8(session_cookie_text(None, secure)),
        ),
        r.header_names() <= 3,
{
    redirect_to(Route::Root).set_cookie(session_cookie(None, secure))
}

/// Deleting a set, first part: the question that deletes the set with the
/// form's identifier if it is the user's own.
pub fn delete_set(user: User, id: String) -> (query: Query)
    ensures
        query@ == (QueryView::DeleteSet { id: id@, user_id: user@.id }),
{
    Query::DeleteSet { id, user_id: user.id }
}

/// Deleting a set, second part: on to the list of sets, however many rows
/// went; or the error of a failed delete.
pub fn delete_set_done(deleted: Result<u64, DbError>) -> (r: Result<Responder, Error>)
    ensures
        match deleted {
            Ok(_) => r matches Ok(responder) && responder@ == ResponderView::start().redirect(
                route_bytes(Route::SetList),
            ) && responder.header_names() <= 2,
            Err(e) => r matches Err(error) && error@ == error_of_db(e@),
        },
{
    match deleted {
        Ok(_) => Ok(redirect_to(Route::SetList)),
        Err(e) => Err(Error::from_db(e)),
    }
}

/// The form of a caller who has not tried to log in yet.
pub open spec fn blank_login() -> LoginFormView {
    LoginFormView { secret: Seq::empty(), error: None }
}

/// The login page with an empty form.
pub fn login_form() -> (r: Result<Responder, Error>)
    ensures
        r matches Ok(responder) && responder@ == ResponderView::start().render(
            rendered(document_view(Route::Login, login_form_part_view(blank_login()))),
        ) && responder.header_names() <= 1,
{
    render(Route::Login, login_form_part(LoginForm { secret: String::new(), error: None }))
}

/// The response that logs a caller in: on to the start page, with the
/// session cookie.
pub open spec fn logged_in_view(session_id: Seq<char>, secure: bool) -> ResponderView {
    ResponderView::start().redirect(route_bytes(Route::Root)).set_cookie(
        encode_utf8(session_cookie_text(Some(session_id), secure)),
    )
}

/// Where a login stands.
pub enum LoginState {
    /// The user with the given secret has been asked for; the form is kept
    /// to show it again.
    FindingUser { params: LoginForm },
    /// The new session is being stored.
    SavingSession,
    /// The login has been answered.
    Done,
}

/// The mathematical value of a [`LoginState`].
pub enum LoginStateView {
    FindingUser { params: LoginFormView },
    SavingSession,
    Done,
}

impl View for LoginState {
    type V = LoginStateView;

    open spec fn view(&self) -> LoginStateView {
        match self {
            LoginState::FindingUser { params } => LoginStateView::FindingUser { params: params@ },
            LoginState::SavingSession => LoginStateView::SavingSession,
            LoginState::Done => LoginStateView::Done,
        }
    }
}

/// A login, first part: the question for the user with the form's secret.
pub fn login(params: LoginForm) -> (asked: (LoginState, Query))
    ensures
        asked.0@ == (LoginStateView::FindingUser { params: params@ }),
        asked.1@ == (QueryView::UserBySecret { secret: params@.secret }),
{
    let secret = params.secret.clone();
    (LoginState::FindingUser { params }, Query::UserBySecret { secret })
}

/// What a step of a login may do.
///
/// A user that is found gets a new session, and once that is stored the
/// caller is sent on with its cookie. A user that is not found, for whatever
/// reason, sees the form again. A session that cannot be stored is an error,
/// and so is one whose identifier cannot stand in a header.
pub open spec fn login_step_ok(
    state: LoginStateView,
    reply: ReplyView,
    secure: bool,
    next: LoginStateView,
    action: ActionView,
) -> bool {
    match (state, reply) {
        (LoginStateView::FindingUser { params }, ReplyView::User(Ok(user))) => {
            &&& next == LoginStateView::SavingSession
            &&& action matches ActionView::Ask(QueryView::InsertSession(session))
            &&& session.user_id == user.id
            &&& is_ulid_text(session.id)
        },
        (LoginStateView::FindingUser { params }, ReplyView::User(Err(_))) => {
            &&& next == LoginStateView::Done
            &&& action == ActionView::Respond(
                ResponderView::start().render(
                    rendered(document_view(Route::LoginForm, login_form_part_view(params))),
                ),
            )
        },
        (LoginStateView::SavingSession, ReplyView::Session(Ok(session))) => {
            &&& next == LoginStateView::Done
            &&& action == if is_header_text(session.id) {
                ActionView::Respond(logged_in_view(session.id, secure))
            } else {
                ActionView::Fail(ErrorView::InternalServer)
            }
        },
        (LoginStateView::SavingSession, ReplyView::Session(Err(e))) => {
            &&& next == LoginStateView::Done
            &&& action == ActionView::Fail(error_of_db(e))
        },
        _ => {
            &&& next == LoginStateView::Done
            &&& action == ActionView::Fail(ErrorView::InternalServer)
        },
    }
}

/// The response that logs a caller in with this session; an internal error
/// where the session's identifier cannot stand in a header.
pub fn logged_in(session: Session, secure: bool) -> (action: Action)
    ensures
        action@ == if is_header_text(session@.id) {
            ActionView::Respond(logged_in_view(session@.id, secure))
        } else {
            ActionView::Fail(ErrorView::InternalServer)
        },
{
    if is_header_value(session.id.as_str()) {
        let cookie = session_cookie(Some(session.id), secure);
        Action::Respond(redirect_to(Route::Root).set_cookie(cookie))
    } else {
        Action::Fail(Error::InternalServer)
    }
}

/// A login, from the first reply on.
pub fn login_step(state: LoginState, reply: Reply, secure: bool) -> (next: (LoginState, Action))
    ensures
        login_step_ok(state@, reply@, secure, next.0@, next.1@),
{
    match state {
        LoginState::FindingUser { params } => match reply {
            Reply::User(Ok(user)) => (
                LoginState::SavingSession,
                Action::Ask(Query::InsertSession(Session::new(&user))),
            ),
            Reply::User(Err(_)) => {
                let r = render(Route::LoginForm, login_form_part(params));
                match r {
                    Ok(responder) => (LoginState::Done, Action::Respond(responder)),
                    Err(e) => (LoginState::Done, Action::Fail(e)),
                }
            },
            _ => (LoginState::Done, Action::Fail(Error::InternalServer)),
        },
        LoginState::SavingSession => match reply {
            Reply::Session(Ok(session)) => (LoginState::Done, logged_in(session, secure)),
            Reply::Session(Err(e)) => (LoginState::Done, Action::Fail(Error::from_db(e))),
            _ => (LoginState::Done, Action::Fail(Error::InternalServer)),
        },
        LoginState::Done => (LoginState::Done, Action::Fail(Error::InternalServer)),
    }
}

/// Where the logging of a set stands.
pub enum CreateSetState {
    /// A caller who is logged in: their set is being stored.
    SavingSet,
    /// A caller who is not: a user is being made for them.
    SavingUser { form: SetForm },
    /// The new user's session is being stored.
    SavingSession { user: User, form: SetForm },
    /// The new user's first set is being stored.
    SavingFirstSet { user: User, session: Session },
    /// The new user's sets are being read.
    Listing { user: User, session: Session },
    /// The request has been answered.
    Done,
}

/// The mathematical value of a [`CreateSetState`].
pub enum CreateSetStateView {
    SavingSet,
    SavingUser { form: SetFormView },
    SavingSession { user: UserView, form: SetFormView },
    SavingFirstSet { user: UserView, session: SessionView },
    Listing { user: UserView, session: SessionView },
    Done,
}

impl View for CreateSetState {
    type V = CreateSetStateView;

    open spec fn view(&self) -> CreateSetStateView {
        match self {
            CreateSetState::SavingSet => CreateSetStateView::SavingSet,
            CreateSetState::SavingUser { form } => CreateSetStateView::SavingUser { form: form@ },
            CreateSetState::SavingSession { user, form } => CreateSetStateView::SavingSession {
                user: user@,
                form: form@,
            },
            CreateSetState::SavingFirstSet { user, session } => CreateSetStateView::SavingFirstSet {
                user: user@,
                session: session@,
            },
            CreateSetState::Listing { user, session } => CreateSetStateView::Listing {
                user: user@,
                session: session@,
            },
            CreateSetState::Done => CreateSetStateView::Done,
        }
    }
}

/// Whether `set` is a new set of the user `user_id` with the form's fields.
pub open spec fn is_new_set(set: ExerciseSetView, user_id: Seq<char>, form: SetFormView) -> bool {
    &&& is_ulid_text(set.id)
    &&& set.user_id == user_id
    &&& set.name == form.name
    &&& set.reps == form.reps
    &&& set.weight == form.weight
}

/// Logging a set, first part. For a caller who is logged in the set is
/// stored at once. For one who is not, a user is made first.
pub fn create_set(user: Option<User>, form: SetForm) -> (asked: (CreateSetState, Query))
    ensures
        match user {
            Some(user) => {
                &&& asked.0@ == CreateSetStateView::SavingSet
                &&& asked.1@ matches QueryView::InsertSet(set)
                &&& is_new_set(set, user@.id, form@)
            },
            None => {
                &&& asked.0@ == (CreateSetStateView::SavingUser { form: form@ })
                &&& asked.1@ matches QueryView::InsertUser(made)
                &&& is_ulid_text(made.id)
                &&& is_ulid_text(made.secret)
            },
        },
{
    match user {
        Some(user) => {
            let set = ExerciseSet::new(&user, form.name, form.reps, form.weight);
            (CreateSetState::SavingSet, Query::InsertSet(set))
        },
        None => (CreateSetState::SavingUser { form }, Query::InsertUser(User::new())),
    }
}

/// The response that welcomes a new user: on to the list of sets, with the
/// session cookie, and with the list itself as the body.
pub open spec fn welcome_view(
    now: u64,
    user: UserView,
    session_id: Seq<char>,
    sets: Seq<ExerciseSetView>,
    secure: bool,
) -> ResponderView {
    ResponderView::start().redirect(route_bytes(Route::SetList)).set_cookie(
        encode_utf8(session_cookie_text(Some(session_id), secure)),
    ).render(rendered(set_list_part_view(now, user, sets)))
}

/// What a step of logging a set may do.
///
/// A stored set of a caller who is logged in sends them on to the list. For
/// a new caller the user, the session and the set are stored one after the
/// other, the user's sets are read, and the answer sends them on with the
/// session cookie and shows the list. A reply that reports a failure ends
/// the request with the error that the failure becomes; a reply that does
/// not answer what was asked, and a session whose identifier cannot stand in
/// a header, end it with an internal error.
pub open spec fn create_set_step_ok(
    state: CreateSetStateView,
    reply: ReplyView,
    secure: bool,
    next: CreateSetStateView,
    action: ActionView,
) -> bool {
    match (state, reply) {
        (CreateSetStateView::SavingSet, ReplyView::OneSet(Ok(_))) => {
            &&& next == CreateSetStateView::Done
            &&& action == ActionView::Respond(
                ResponderView::start().redirect(route_bytes(Route::SetList)),
            )
        },
        (CreateSetStateView::SavingSet, ReplyView::OneSet(Err(e))) => {
            &&& next == CreateSetStateView::Done
            &&& action == ActionView::Fail(error_of_db(e))
        },
        (CreateSetStateView::SavingUser { form }, ReplyView::User(Ok(user))) => {
            &&& next == (CreateSetStateView::SavingSession { user: user, form: form })
            &&& action matches ActionView::Ask(QueryView::InsertSession(session))
            &&& session.user_id == user.id
            &&& is_ulid_text(session.id)
        },
        (CreateSetStateView::SavingUser { form }, ReplyView::User(Err(e))) => {
            &&& next == CreateSetStateView::Done
            &&& action == ActionView::Fail(error_of_db(e))
        },
        (CreateSetStateView::SavingSession { user, form }, ReplyView::Session(Ok(session))) => {
            &&& next == (CreateSetStateView::SavingFirstSet { user: user, session: session })
            &&& action matches ActionView::Ask(QueryView::InsertSet(set))
            &&& is_new_set(set, user.id, form)
        },
        (CreateSetStateView::SavingSession { user, form }, ReplyView::Session(Err(e))) => {
            &&& next == CreateSetStateView::Done
            &&& action == ActionView::Fail(error_of_db(e))
        },
        (CreateSetStateView::SavingFirstSet { user, session }, ReplyView::OneSet(Ok(_))) => {
            &&& next == (CreateSetStateView::Listing { user: user, session: session })
            &&& action == ActionView::Ask(
                QueryView::SetsByRecency { user_id: user.id, limit: PAGE_LIMIT },
            )
        },
        (CreateSetStateView::SavingFirstSet { user, session }, ReplyView::OneSet(Err(e))) => {
            &&& next == CreateSetStateView::Done
            &&& action == ActionView::Fail(error_of_db(e))
        },
        (CreateSetStateView::Listing { user, session }, ReplyView::Sets(Ok(sets))) => {
            &&& next == CreateSetStateView::Done
            &&& if is_header_text(session.id) {
                exists|now: u64|
                    action == ActionView::Respond(
                        welcome_view(now, user, session.id, sets, secure),
                    )
            } else {
                action == ActionView::Fail(ErrorView::InternalServer)
            }
        },
        (CreateSetStateView::Listing { user, session }, ReplyView::Sets(Err(e))) => {
            &&& next == CreateSetStateView::Done
            &&& action == ActionView::Fail(error_of_db(e))
        },
        _ => {
            &&& next == CreateSetStateView::Done
            &&& action == ActionView::Fail(ErrorView::InternalServer)
        },
    }
}

/// The answer to a new user whose first set is stored.
pub fn welcome(user: User, session: Session, sets: Vec<ExerciseSet>, secure: bool) -> (action:
    Action)
    ensures
        if is_header_text(session@.id) {
            exists|now: u64|
                action@ == ActionView::Respond(
                    welcome_view(now, user@, session@.id, sets_view(sets@), secure),
                )
        } else {
            action@ == ActionView::Fail(ErrorView::InternalServer)
        },
{
    if is_header_value(session.id.as_str()) {
        let ghost user_view = user@;
        let ghost session_id = session@.id;
        let ghost sets_seen = sets_view(sets@);
        let cookie = session_cookie(Some(session.id), secure);
        let part = set_list_part(user, sets);
        let r = redirect_to(Route::SetList).set_cookie(cookie).render(&part);
        proof {
            let now = choose|now: u64| part@ == set_list_part_view(now, user_view, sets_seen);
            assert(r@ == welcome_view(now, user_view, session_id, sets_seen, secure));
        }
        Action::Respond(r)
    } else {
        Action::Fail(Error::InternalServer)
    }
}

/// Logging a set, from the first reply on.
pub fn create_set_step(state: CreateSetState, reply: Reply, secure: bool) -> (next: (
    CreateSetState,
    Action,
))
    ensures
        create_set_step_ok(state@, reply@, secure, next.0@, next.1@),
{
    match state {
        CreateSetState::SavingSet => match reply {
            Reply::OneSet(Ok(_)) => (
                CreateSetState::Done,
                Action::Respond(redirect_to(Route::SetList)),
            ),
            Reply::OneSet(Err(e)) => (CreateSetState::Done, Action::Fail(Error::from_db(e))),
            _ => (CreateSetState::Done, Action::Fail(Error::InternalServer)),
        },
        CreateSetState::SavingUser { form } => match reply {
            Reply::User(Ok(user)) => {
                let session = Session::new(&user);
                (
                    CreateSetState::SavingSession { user, form },
                    Action::Ask(Query::InsertSession(session)),
                )
            },
            Reply::User(Err(e)) => (CreateSetState::Done, Action::Fail(Error::from_db(e))),
            _ => (CreateSetState::Done, Action::Fail(Error::InternalServer)),
        },
        CreateSetState::SavingSession { user, form } => match reply {
            Reply::Session(Ok(session)) => {
                let set = ExerciseSet::new(&user, form.name, form.reps, form.weight);
                (
                    CreateSetState::SavingFirstSet { user, session },
                    Action::Ask(Query::InsertSet(set)),
                )
            },
            Reply::Session(Err(e)) => (CreateSetState::Done, Action::Fail(Error::from_db(e))),
            _ => (CreateSetState::Done, Action::Fail(Error::InternalServer)),
        },
        CreateSetState::SavingFirstSet { user, session } => match reply {
            Reply::OneSet(Ok(_)) => {
                let query = Query::SetsByRecency { user_id: user.id.clone(), limit: PAGE_LIMIT };
                (CreateSetState::Listing { user, session }, Action::Ask(query))
            },
            Reply::OneSet(Err(e)) => (CreateSetState::Done, Action::Fail(Error::from_db(e))),
            _ => (CreateSetState::Done, Action::Fail(Error::InternalServer)),
        },
        CreateSetState::Listing { user, session } => match reply {
            Reply::Sets(Ok(sets)) => (CreateSetState::Done, welcome(user, session, sets, secure)),
            Reply::Sets(Err(e)) => (CreateSetState::Done, Action::Fail(Error::from_db(e))),
            _ => (CreateSetState::Done, Action::Fail(Error::InternalServer)),
        },
        CreateSetState::Done => (CreateSetState::Done, Action::Fail(Error::InternalServer)),
    }
}

} // verus!
