//! Sessions: the cookie that names one, and the steps that resolve the
//! caller of a request from it.
//!
//! Resolving a caller takes two reads of the datastore, which this library
//! cannot make. [`authenticate`] decides each step: it is given what has
//! happened and says what to do next. No expiry is checked against a
//! session's creation time: a session is valid for as long as its row exists,
//! and the cookie's `Max-Age` alone limits its life.

use crate::error::{error_of_db, DbError, DbErrorView, Error, ErrorView};
use crate::headers::{
    header_value, header_value_bytes, header_value_ok, lemma_header_value_concat,
    lemma_plain_text_is_header_value,
};
use crate::model::{Session, SessionView, SomeUser, User, UserView};
use crate::text::{decimal, lemma_decimal_digits, lemma_encode_concat, push_decimal};
use axum::http::HeaderValue;
use axum_extra::headers::Cookie;
use vstd::prelude::*;
use vstd::utf8::encode_utf8;

verus! {

/// `headers::Cookie`, the parsed `Cookie` header of a request.
#[verifier::external_type_specification]
#[verifier::external_body]
pub struct ExCookie(Cookie);

/// What a `Cookie` header holds: its name and value pairs, in the order in
/// which `Cookie::iter` gives them.
pub uninterp spec fn cookie_pairs(cookie: Cookie) -> Seq<(Seq<char>, Seq<char>)>;

/// The value of the first pair named `name`, if there is one.
pub open spec fn first_value(pairs: Seq<(Seq<char>, Seq<char>)>, name: Seq<char>) -> Option<
    Seq<char>,
>
    decreases pairs.len(),
{
    if pairs.len() == 0 {
        None
    } else if pairs[0].0 == name {
        Some(pairs[0].1)
    } else {
        first_value(pairs.drop_first(), name)
    }
}

/// The text of an optional string.
pub open spec fn text_of(s: Option<String>) -> Option<Seq<char>> {
    match s {
        Some(s) => Some(s@),
        None => None,
    }
}

/// `Cookie::get` gives the value of the first pair with the given name, and
/// nothing where no pair has it.
#[verifier::external_body]
pub(crate) fn cookie_get(cookie: &Cookie, name: &str) -> (value: Option<String>)
    ensures
        text_of(value) == first_value(cookie_pairs(*cookie), name@),
{
    match cookie.get(name) {
        Some(v) => Some(v.to_owned()),
        None => None,
    }
}

/// The seconds that a session cookie lives: four hundred days.
pub const SESSION_MAX_AGE: u64 = 34_560_000;

/// The seconds that the cookie lives: the full time for a cookie that logs
/// in, none for one that logs out.
pub open spec fn session_max_age(logged_in: bool) -> u64 {
    if logged_in {
        SESSION_MAX_AGE
    } else {
        0
    }
}

/// The text of the session cookie.
///
/// With an identifier the cookie names it and lives for four hundred days;
/// without one it is emptied and expires at once. `secure` adds the
/// `Secure` attribute.
pub open spec fn session_cookie_text(id: Option<Seq<char>>, secure: bool) -> Seq<char> {
    "id="@ + (match id {
        Some(v) => v,
        None => Seq::<char>::empty(),
    }) + "; HttpOnly; Max-Age="@ + decimal(session_max_age(id is Some) as nat)
        + "; SameSite=Strict; "@ + (if secure {
        "Secure; "@
    } else {
        Seq::<char>::empty()
    }) + "Path=/"@
}

/// Whether text can stand in a header value.
pub open spec fn is_header_text(s: Seq<char>) -> bool {
    header_value_ok(encode_utf8(s))
}

/// Header text joined to header text is header text.
pub proof fn lemma_header_text_concat(a: Seq<char>, b: Seq<char>)
    requires
        is_header_text(a),
        is_header_text(b),
    ensures
        is_header_text(a + b),
{
    lemma_encode_concat(a, b);
    lemma_header_value_concat(encode_utf8(a), encode_utf8(b));
}

/// The session cookie can stand in a header whenever the identifier can.
pub proof fn lemma_session_cookie_is_header_text(id: Option<Seq<char>>, secure: bool)
    requires
        id matches Some(v) ==> is_header_text(v),
    ensures
        is_header_text(session_cookie_text(id, secure)),
{
    reveal_strlit("id=");
    reveal_strlit("; HttpOnly; Max-Age=");
    reveal_strlit("; SameSite=Strict; ");
    reveal_strlit("Secure; ");
    reveal_strlit("Path=/");
    let empty = Seq::<char>::empty();
    lemma_plain_text_is_header_value(empty);
    lemma_plain_text_is_header_value("id="@);
    lemma_plain_text_is_header_value("; HttpOnly; Max-Age="@);
    let age = decimal(session_max_age(id is Some) as nat);
    lemma_decimal_digits(session_max_age(id is Some) as nat);
    lemma_plain_text_is_header_value(age);
    lemma_plain_text_is_header_value("; SameSite=Strict; "@);
    lemma_plain_text_is_header_value("Secure; "@);
    lemma_plain_text_is_header_value("Path=/"@);
    let named = match id {
        Some(v) => v,
        None => empty,
    };
    let flag = if secure {
        "Secure; "@
    } else {
        empty
    };
    let a = "id="@ + named;
    lemma_header_text_concat("id="@, named);
    let b = a + "; HttpOnly; Max-Age="@;
    lemma_header_text_concat(a, "; HttpOnly; Max-Age="@);
    let c = b + age;
    lemma_header_text_concat(b, age);
    let d = c + "; SameSite=Strict; "@;
    lemma_header_text_concat(c, "; SameSite=Strict; "@);
    let e = d + flag;
    lemma_header_text_concat(d, flag);
    lemma_header_text_concat(e, "Path=/"@);
}

/// The text of the session cookie for `id`.
pub fn session_cookie_string(id: Option<&str>, secure: bool) -> (s: String)
    ensures
        s@ == session_cookie_text(
            match id {
                Some(v) => Some(v@),
                None => None,
            },
            secure,
        ),
{
    let mut s = String::from_str("id=");
    match id {
        Some(v) => {
            s.append(v);
            s.append("; HttpOnly; Max-Age=");
            push_decimal(&mut s, SESSION_MAX_AGE);
        },
        None => {
            s.append("; HttpOnly; Max-Age=");
            push_decimal(&mut s, 0);
        },
    }
    s.append("; SameSite=Strict; ");
    if secure {
        s.append("Secure; ");
    }
    s.append("Path=/");
    proof {
        let idv: Option<Seq<char>> = match id {
            Some(v) => Some(v@),
            None => None,
        };
        assert(s@ =~= session_cookie_text(idv, secure));
    }
    s
}

/// The `Set-Cookie` value that logs a caller in (with an identifier) or out
/// (without one).
pub fn session_cookie(id: Option<String>, secure: bool) -> (value: HeaderValue)
    requires
        id matches Some(v) ==> is_header_text(v@),
    ensures
        header_value_bytes(value) == encode_utf8(session_cookie_text(text_of(id), secure)),
{
    let text = match &id {
        Some(v) => session_cookie_string(Some(v.as_str()), secure),
        None => session_cookie_string(None, secure),
    };
    proof {
        lemma_session_cookie_is_header_text(text_of(id), secure);
    }
    header_value(text.as_str())
}

/// Where the resolution of a caller stands.
#[derive(Clone, Copy, Debug, PartialEq, Eq, Structural)]
pub enum AuthState {
    /// Nothing has happened yet.
    Start,
    /// The session has been asked for.
    FindingSession,
    /// The session's user has been asked for.
    FindingUser,
    /// The caller is resolved or refused.
    Finished,
}

/// What has happened since the last step.
pub enum AuthEvent {
    /// The request has arrived, with its `Cookie` header if it has a valid
    /// one.
    Request(Option<Cookie>),
    /// The datastore has answered the read of the session.
    SessionRead(Result<Session, DbError>),
    /// The datastore has answered the read of the user.
    UserRead(Result<User, DbError>),
}

/// What to do next.
pub enum AuthAction {
    /// Read the session with this identifier.
    FindSession(String),
    /// Read the user with this identifier.
    FindUser(String),
    /// The caller is this user.
    Accept(User),
    /// The caller is not resolved.
    Reject(Error),
}

/// The mathematical value of an [`AuthEvent`].
pub enum AuthEventView {
    Request(Option<Seq<(Seq<char>, Seq<char>)>>),
    SessionRead(Result<SessionView, DbErrorView>),
    UserRead(Result<UserView, DbErrorView>),
}

/// The mathematical value of an [`AuthAction`].
pub enum AuthActionView {
    FindSession(Seq<char>),
    FindUser(Seq<char>),
    Accept(UserView),
    Reject(ErrorView),
}

impl View for AuthEvent {
    type V = AuthEventView;

    open spec fn view(&self) -> AuthEventView {
        match self {
            AuthEvent::Request(Some(cookie)) => AuthEventView::Request(
                Some(cookie_pairs(*cookie)),
            ),
            AuthEvent::Request(None) => AuthEventView::Request(None),
            AuthEvent::SessionRead(Ok(session)) => AuthEventView::SessionRead(Ok(session@)),
            AuthEvent::SessionRead(Err(e)) => AuthEventView::SessionRead(Err(e@)),
            AuthEvent::UserRead(Ok(user)) => AuthEventView::UserRead(Ok(user@)),
            AuthEvent::UserRead(Err(e)) => AuthEventView::UserRead(Err(e@)),
        }
    }
}

impl View for AuthAction {
    type V = AuthActionView;

    open spec fn view(&self) -> AuthActionView {
        match self {
            AuthAction::FindSession(id) => AuthActionView::FindSession(id@),
            AuthAction::FindUser(id) => AuthActionView::FindUser(id@),
            AuthAction::Accept(user) => AuthActionView::Accept(user@),
            AuthAction::Reject(e) => AuthActionView::Reject(e@),
        }
    }
}

/// One step of resolving a caller.
///
/// The request's cookie `id` names the session; without it the caller is
/// `NotFound`. The session names its user; the user is the caller. A read
/// that fails ends the resolution with the error that the failure becomes,
/// which for a missing row is `NotFound`. An event that does not answer what
/// was asked ends it with `InternalServer`.
pub open spec fn auth_step(state: AuthState, event: AuthEventView) -> (AuthState, AuthActionView) {
    match (state, event) {
        (AuthState::Start, AuthEventView::Request(Some(pairs))) => match first_value(
            pairs,
            "id"@,
        ) {
            Some(id) => (AuthState::FindingSession, AuthActionView::FindSession(id)),
            None => (AuthState::Finished, AuthActionView::Reject(ErrorView::NotFound)),
        },
        (AuthState::Start, AuthEventView::Request(None)) => (
            AuthState::Finished,
            AuthActionView::Reject(ErrorView::NotFound),
        ),
        (AuthState::FindingSession, AuthEventView::SessionRead(Ok(session))) => (
            AuthState::FindingUser,
            AuthActionView::FindUser(session.user_id),
        ),
        (AuthState::FindingSession, AuthEventView::SessionRead(Err(e))) => (
            AuthState::Finished,
            AuthActionView::Reject(error_of_db(e)),
        ),
        (AuthState::FindingUser, AuthEventView::UserRead(Ok(user))) => (
            AuthState::Finished,
            AuthActionView::Accept(user),
        ),
        (AuthState::FindingUser, AuthEventView::UserRead(Err(e))) => (
            AuthState::Finished,
            AuthActionView::Reject(error_of_db(e)),
        ),
        _ => (AuthState::Finished, AuthActionView::Reject(ErrorView::InternalServer)),
    }
}

/// One step of resolving the caller of a request: given where the resolution
/// stands and what has happened, where it stands now and what to do next.
pub fn authenticate(state: AuthState, event: AuthEvent) -> (next: (AuthState, AuthAction))
    ensures
        (next.0, next.1@) == auth_step(state, event@),
{
    match state {
        AuthState::Start => match event {
            AuthEvent::Request(Some(cookie)) => match cookie_get(&cookie, "id") {
                Some(id) => (AuthState::FindingSession, AuthAction::FindSession(id)),
                None => (AuthState::Finished, AuthAction::Reject(Error::NotFound)),
            },
            AuthEvent::Request(None) => (AuthState::Finished, AuthAction::Reject(Error::NotFound)),
            _ => (AuthState::Finished, AuthAction::Reject(Error::InternalServer)),
        },
        AuthState::FindingSession => match event {
            AuthEvent::SessionRead(Ok(session)) => (
                AuthState::FindingUser,
                AuthAction::FindUser(session.user_id),
            ),
            AuthEvent::SessionRead(Err(e)) => (
                AuthState::Finished,
                AuthAction::Reject(Error::from_db(e)),
            ),
            _ => (AuthState::Finished, AuthAction::Reject(Error::InternalServer)),
        },
        AuthState::FindingUser => match event {
            AuthEvent::UserRead(Ok(user)) => (AuthState::Finished, AuthAction::Accept(user)),
            AuthEvent::UserRead(Err(e)) => (
                AuthState::Finished,
                AuthAction::Reject(Error::from_db(e)),
            ),
            _ => (AuthState::Finished, AuthAction::Reject(Error::InternalServer)),
        },
        AuthState::Finished => (AuthState::Finished, AuthAction::Reject(Error::InternalServer)),
    }
}

/// How far a resolution has come.
pub open spec fn auth_rank(state: AuthState) -> nat {
    match state {
        AuthState::Start => 0,
        AuthState::FindingSession => 1,
        AuthState::FindingUser => 2,
        AuthState::Finished => 3,
    }
}

/// A resolution reads the datastore at most twice, the session first and the
/// user second, and accepts a caller only after both reads: every step moves
/// forward, the session is asked for only at the start, the user only once
/// the session is there, and a caller is accepted only once the user is.
pub proof fn lemma_two_reads_in_order(state: AuthState, event: AuthEventView)
    ensures
        ({
            let (next, action) = auth_step(state, event);
            &&& state != AuthState::Finished ==> auth_rank(next) > auth_rank(state)
            &&& state == AuthState::Finished ==> next == AuthState::Finished
            &&& action is FindSession ==> state == AuthState::Start && next
                == AuthState::FindingSession
            &&& action is FindUser ==> state == AuthState::FindingSession && next
                == AuthState::FindingUser
            &&& action is Accept ==> state == AuthState::FindingUser
            &&& (action is Accept || action is Reject) <==> next == AuthState::Finished
        }),
{
}

/// A resolution never blames the server for what is merely absent: without a
/// cookie, without the cookie `id`, and where a read finds no row, the caller
/// is refused with `NotFound`.
pub proof fn lemma_absent_is_not_found(state: AuthState, event: AuthEventView)
    requires
        match event {
            AuthEventView::Request(cookie) => state == AuthState::Start && (cookie matches Some(
                pairs,
            ) ==> first_value(pairs, "id"@) is None),
            AuthEventView::SessionRead(r) => state == AuthState::FindingSession && r == Err::<
                SessionView,
                DbErrorView,
            >(DbErrorView::RowNotFound),
            AuthEventView::UserRead(r) => state == AuthState::FindingUser && r == Err::<
                UserView,
                DbErrorView,
            >(DbErrorView::RowNotFound),
        },
    ensures
        auth_step(state, event) == (AuthState::Finished, AuthActionView::Reject(ErrorView::NotFound)),
{
}

impl SomeUser {
    /// The caller of a route that also serves callers who are not logged in:
    /// the user where one was resolved, nobody on any failure.
    pub fn from_outcome(outcome: Result<User, Error>) -> (caller: SomeUser)
        ensures
            match outcome {
                Ok(user) => caller.0 == Some(user),
                Err(_) => caller.0 is None,
            },
    {
        match outcome {
            Ok(user) => SomeUser(Some(user)),
            Err(_) => SomeUser(None),
        }
    }
}

} // verus!
