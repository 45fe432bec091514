//! The records of the application: users, sessions and exercise sets, and
//! the forms that arrive with requests.

use std::time::{Duration, SystemTimeError};
use vstd::prelude::*;

verus! {

/// `std::time::SystemTimeError`, the error of a clock that stands before the
/// moment it is compared with.
#[verifier::external_type_specification]
#[verifier::external_body]
pub struct ExSystemTimeError(SystemTimeError);

/// `SystemTime::elapsed`, asked of the Unix epoch: the time since then, or an
/// error where the clock stands before it. Nothing is known of the amount.
#[verifier::external_body]
pub(crate) fn since_epoch() -> (elapsed: Result<Duration, SystemTimeError>) {
    std::time::UNIX_EPOCH.elapsed()
}

/// `Duration::as_secs` gives the whole seconds of a duration, without the
/// fraction of a second that it may hold besides.
pub assume_specification[ Duration::as_secs ](d: &Duration) -> (secs: u64)
    ensures
        secs == duration_secs(*d),
;

/// The characters of Crockford's base 32, which identifiers are written in.
pub open spec fn is_ulid_char(c: char) -> bool {
    ('0' <= c && c <= '9') || ('A' <= c && c <= 'Z' && c != 'I' && c != 'L' && c != 'O' && c
        != 'U')
}

/// The shape of an identifier: 26 characters of Crockford's base 32.
pub open spec fn is_ulid_text(s: Seq<char>) -> bool {
    &&& s.len() == 26
    &&& forall|i: int| 0 <= i < s.len() ==> is_ulid_char(#[trigger] s[i])
}

/// A fresh identifier: `Ulid::new` of the `ulid` crate, written out. It is
/// made from the clock and from random bits, so only its shape is known.
#[verifier::external_body]
pub fn ulid() -> (id: String)
    ensures
        is_ulid_text(id@),
{
    ::ulid::Ulid::new().to_string()
}

/// The seconds since the Unix epoch; zero where the clock stands before it.
pub fn now() -> (secs: u64)
    ensures
        exists|elapsed: Result<Duration, SystemTimeError>| secs == seconds_of(elapsed),
{
    seconds_since_epoch(since_epoch())
}

/// The whole seconds of a duration, as `Duration::as_secs` gives them.
pub uninterp spec fn duration_secs(d: Duration) -> u64;

/// The seconds that a reading of the clock stands for: the whole seconds
/// since the Unix epoch, and zero for a clock that stands before it.
pub open spec fn seconds_of(elapsed: Result<Duration, SystemTimeError>) -> u64 {
    match elapsed {
        Ok(d) => duration_secs(d),
        Err(_) => 0,
    }
}

/// The seconds that a reading of the clock stands for.
pub fn seconds_since_epoch(elapsed: Result<Duration, SystemTimeError>) -> (secs: u64)
    ensures
        secs == seconds_of(elapsed),
{
    match elapsed {
        Ok(d) => d.as_secs(),
        Err(_) => 0,
    }
}

/// A user: an identifier, the secret that logs them in, and when they were
/// created, in seconds since the Unix epoch.
pub struct User {
    pub id: String,
    pub secret: String,
    pub created_at: u64,
}

/// The mathematical value of a [`User`].
pub struct UserView {
    pub id: Seq<char>,
    pub secret: Seq<char>,
    pub created_at: u64,
}

impl View for User {
    type V = UserView;

    open spec fn view(&self) -> UserView {
        UserView { id: self.id@, secret: self.secret@, created_at: self.created_at }
    }
}

/// A session: the association of an opaque cookie value with a user.
pub struct Session {
    pub id: String,
    pub user_id: String,
    pub created_at: u64,
}

/// The mathematical value of a [`Session`].
pub struct SessionView {
    pub id: Seq<char>,
    pub user_id: Seq<char>,
    pub created_at: u64,
}

impl View for Session {
    type V = SessionView;

    open spec fn view(&self) -> SessionView {
        SessionView { id: self.id@, user_id: self.user_id@, created_at: self.created_at }
    }
}

/// One exercise set that a user has logged.
pub struct ExerciseSet {
    pub id: String,
    pub user_id: String,
    pub name: String,
    pub weight: usize,
    pub reps: usize,
    pub created_at: u64,
}

/// The mathematical value of an [`ExerciseSet`].
pub struct ExerciseSetView {
    pub id: Seq<char>,
    pub user_id: Seq<char>,
    pub name: Seq<char>,
    pub weight: usize,
    pub reps: usize,
    pub created_at: u64,
}

impl View for ExerciseSet {
    type V = ExerciseSetView;

    open spec fn view(&self) -> ExerciseSetView {
        ExerciseSetView {
            id: self.id@,
            user_id: self.user_id@,
            name: self.name@,
            weight: self.weight,
            reps: self.reps,
            created_at: self.created_at,
        }
    }
}

/// The caller of a route that works with or without a login.
pub struct SomeUser(pub Option<User>);

/// The form that logs a set.
pub struct SetForm {
    pub name: String,
    pub reps: usize,
    pub weight: usize,
}

/// The mathematical value of a [`SetForm`].
pub struct SetFormView {
    pub name: Seq<char>,
    pub reps: usize,
    pub weight: usize,
}

impl View for SetForm {
    type V = SetFormView;

    open spec fn view(&self) -> SetFormView {
        SetFormView { name: self.name@, reps: self.reps, weight: self.weight }
    }
}

/// The login form, with the message of a failed attempt if there was one.
pub struct LoginForm {
    pub secret: String,
    pub error: Option<String>,
}

/// The mathematical value of a [`LoginForm`].
pub struct LoginFormView {
    pub secret: Seq<char>,
    pub error: Option<Seq<char>>,
}

impl View for LoginForm {
    type V = LoginFormView;

    open spec fn view(&self) -> LoginFormView {
        LoginFormView {
            secret: self.secret@,
            error: match self.error {
                Some(e) => Some(e@),
                None => None,
            },
        }
    }
}

impl Default for User {
    /// The user that stands for nobody: empty identifier, empty secret.
    fn default() -> (u: User)
        ensures
            u@ == (UserView { id: Seq::empty(), secret: Seq::empty(), created_at: 0 }),
    {
        User { id: String::new(), secret: String::new(), created_at: 0 }
    }
}

impl Default for SetForm {
    /// The empty form.
    fn default() -> (f: SetForm)
        ensures
            f@ == (SetFormView { name: Seq::empty(), reps: 0, weight: 0 }),
    {
        SetForm { name: String::new(), reps: 0, weight: 0 }
    }
}

impl User {
    /// The user with these fields.
    pub fn from_parts(id: String, secret: String, created_at: u64) -> (u: User)
        ensures
            u@ == (UserView { id: id@, secret: secret@, created_at: created_at }),
    {
        User { id, secret, created_at }
    }

    /// A new user with a fresh identifier, a fresh secret and the current
    /// time.
    pub fn new() -> (u: User)
        ensures
            is_ulid_text(u@.id),
            is_ulid_text(u@.secret),
    {
        let id = ulid();
        let secret = ulid();
        User::from_parts(id, secret, now())
    }
}

impl Session {
    /// The session with these fields.
    pub fn from_parts(id: String, user_id: String, created_at: u64) -> (s: Session)
        ensures
            s@ == (SessionView { id: id@, user_id: user_id@, created_at: created_at }),
    {
        Session { id, user_id, created_at }
    }

    /// A new session of `user`, with a fresh identifier and the current time.
    pub fn new(user: &User) -> (s: Session)
        ensures
            is_ulid_text(s@.id),
            s@.user_id == user@.id,
    {
        let id = ulid();
        Session::from_parts(id, user.id.clone(), now())
    }
}

impl ExerciseSet {
    /// The set with these fields.
    pub fn from_parts(
        id: String,
        user_id: String,
        name: String,
        reps: usize,
        weight: usize,
        created_at: u64,
    ) -> (s: ExerciseSet)
        ensures
            s@ == (ExerciseSetView {
                id: id@,
                user_id: user_id@,
                name: name@,
                weight: weight,
                reps: reps,
                created_at: created_at,
            }),
    {
        ExerciseSet { id, user_id, name, weight, reps, created_at }
    }

    /// A new set of `user`, with a fresh identifier and the current time.
    pub fn new(user: &User, name: String, reps: usize, weight: usize) -> (s: ExerciseSet)
        ensures
            is_ulid_text(s@.id),
            s@.user_id == user@.id,
            s@.name == name@,
            s@.reps == reps,
            s@.weight == weight,
    {
        let id = ulid();
        ExerciseSet::from_parts(id, user.id.clone(), name, reps, weight, now())
    }
}

} // verus!
