use dubs::model::{now, seconds_since_epoch, ulid, ExerciseSet, Session, SetForm, User};
use std::time::{Duration, SystemTime};
use dubs::route::{Method, Route};

fn is_ulid(s: &str) -> bool {
    s.len() == 26 && s.bytes().all(|b| b"0123456789ABCDEFGHJKMNPQRSTVWXYZ".contains(&b))
}

#[test]
fn identifiers_have_their_shape() {
    let id = ulid();
    assert!(is_ulid(&id));
    assert_ne!(ulid(), ulid());
}

#[test]
fn the_clock_has_passed_2020() {
    assert!(now() > 1_577_836_800);
}

#[test]
fn a_reading_of_the_clock_counts_whole_seconds() {
    assert_eq!(seconds_since_epoch(Ok(Duration::from_secs(5))), 5);
    assert_eq!(seconds_since_epoch(Ok(Duration::from_millis(5_999))), 5);
    assert_eq!(seconds_since_epoch(Ok(Duration::ZERO)), 0);
    assert_eq!(seconds_since_epoch(Ok(Duration::from_secs(u64::MAX))), u64::MAX);
}

#[test]
fn a_clock_before_the_epoch_reads_zero() {
    let ahead = SystemTime::now() + Duration::from_secs(3_600);
    let behind = ahead.elapsed();
    assert!(behind.is_err());
    assert_eq!(seconds_since_epoch(behind), 0);
}

#[test]
fn a_new_user_is_fresh() {
    let before = now();
    let user = User::new();
    assert!(is_ulid(&user.id));
    assert!(is_ulid(&user.secret));
    assert_ne!(user.id, user.secret);
    assert!(user.created_at >= before);
    assert_ne!(User::new().id, user.id);
}

#[test]
fn nobody_has_no_identifier() {
    let user = User::default();
    assert_eq!(user.id, "");
    assert_eq!(user.secret, "");
    assert_eq!(user.created_at, 0);
    let form = SetForm::default();
    assert_eq!(form.name, "");
    assert_eq!(form.reps, 0);
    assert_eq!(form.weight, 0);
}

#[test]
fn a_new_session_belongs_to_its_user() {
    let user = User::from_parts("u1".to_string(), "s".to_string(), 1);
    let session = Session::new(&user);
    assert!(is_ulid(&session.id));
    assert_eq!(session.user_id, "u1");
    assert!(session.created_at >= 1_577_836_800);
}

#[test]
fn a_new_set_keeps_the_form() {
    let user = User::from_parts("u1".to_string(), "s".to_string(), 1);
    let set = ExerciseSet::new(&user, "squat".to_string(), 5, 100);
    assert!(is_ulid(&set.id));
    assert_eq!(set.user_id, "u1");
    assert_eq!(set.name, "squat");
    assert_eq!(set.reps, 5);
    assert_eq!(set.weight, 100);
}

#[test]
fn records_from_their_parts() {
    let set = ExerciseSet::from_parts(
        "i".to_string(),
        "u".to_string(),
        "n".to_string(),
        3,
        40,
        9,
    );
    assert_eq!(set.id, "i");
    assert_eq!(set.user_id, "u");
    assert_eq!(set.name, "n");
    assert_eq!(set.reps, 3);
    assert_eq!(set.weight, 40);
    assert_eq!(set.created_at, 9);
    let session = Session::from_parts("i".to_string(), "u".to_string(), 9);
    assert_eq!(session.id, "i");
    assert_eq!(session.user_id, "u");
    assert_eq!(session.created_at, 9);
}

#[test]
fn routes_have_method_and_path() {
    assert_eq!(Route::Root.path(), "/");
    assert_eq!(Route::CreateSet.path(), "/sets");
    assert_eq!(Route::SetList.path(), "/sets");
    assert_eq!(Route::Profile.path(), "/profile");
    assert_eq!(Route::DeleteSet.path(), "/delete-set");
    assert_eq!(Route::Logout.path(), "/logout");
    assert_eq!(Route::LoginForm.path(), "/login");
    assert_eq!(Route::Login.path(), "/login");
    assert_eq!(Route::Root.method(), Method::Get);
    assert_eq!(Route::CreateSet.method(), Method::Post);
    assert_eq!(Route::SetList.method(), Method::Get);
    assert_eq!(Route::Profile.method(), Method::Get);
    assert_eq!(Route::DeleteSet.method(), Method::Post);
    assert_eq!(Route::Logout.method(), Method::Post);
    assert_eq!(Route::LoginForm.method(), Method::Get);
    assert_eq!(Route::Login.method(), Method::Post);
    assert_eq!(Route::DeleteSet.to_string(), "/delete-set");
}
