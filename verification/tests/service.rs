use be::crypto::verify_password;
use be::dao::UserDao;
use be::entity::{Gender, Model};
use be::error::AppError;
use be::handler::to_response;
use be::service::UserService;
use be::state::AppState;

const PASSWORD_DIGEST: &str = "$2a$04$UuTkLRZZ6QofpDOlMz32MuuxEHA43WOemOYHPz6.SjsVsyO1tDU96";

/// Stores an account whose password is "password", without the cost of hashing.
fn store(state: &mut AppState, username: &str) -> Model {
    UserDao::insert_at(
        state,
        username.to_string(),
        PASSWORD_DIGEST.to_string(),
        Some(30),
        Gender::Female,
        Some(format!("{}@example.com", username)),
        1_000,
    )
    .unwrap()
}

fn same_failure(a: &AppError, b: &AppError) -> bool {
    a.status() == b.status()
        && a.code() == b.code()
        && a.message() == b.message()
        && a.outward_message() == b.outward_message()
        && a.description() == b.description()
}

#[test]
fn accounts_come_and_go() {
    let mut state = AppState::new();

    let alice = UserService::create(
        &mut state,
        "alice".to_string(),
        "p@ss".to_string(),
        None,
        Gender::Male,
        None,
    )
    .unwrap();
    assert!(alice.id > 0);
    assert_eq!(alice.username, "alice");
    assert_eq!(alice.gender, Gender::Male);
    assert_eq!(alice.age, None);
    assert_eq!(alice.email, None);
    let shown = to_response(&alice).unwrap();
    assert_eq!(shown.id, alice.id);
    assert_eq!(shown.age, None);
    assert_eq!(shown.email, None);

    let again = UserService::create(
        &mut state,
        "alice".to_string(),
        "another".to_string(),
        Some(20),
        Gender::Female,
        None,
    )
    .err()
    .unwrap();
    assert!(matches!(again, AppError::AlreadyExists(_)));
    assert_eq!(again.status(), 409);
    assert_eq!(again.message(), "用户名已存在: alice");

    assert!(UserService::delete(&mut state, alice.id).is_ok());

    let reborn = UserService::create(
        &mut state,
        "alice".to_string(),
        "p@ss".to_string(),
        None,
        Gender::Male,
        None,
    )
    .unwrap();
    assert!(reborn.id > 0);
    assert_ne!(reborn.id, alice.id);
    assert_eq!(reborn.username, "alice");
}

#[test]
fn create_stores_a_digest_of_the_password() {
    let mut state = AppState::new();
    let user = UserService::create(
        &mut state,
        "alice".to_string(),
        "p@ss".to_string(),
        Some(30),
        Gender::Female,
        Some("alice@example.com".to_string()),
    )
    .unwrap();
    assert_ne!(user.password, "p@ss");
    assert_eq!(verify_password("p@ss", &user.password), Ok(true));
    assert_eq!(user.age, Some(30));
    assert_eq!(user.gender, Gender::Female);
    assert_eq!(user.email.as_deref(), Some("alice@example.com"));
    assert_eq!(user.created_at, user.updated_at);
    assert!(!user.is_deleted);
    let stored = UserService::find_by_id(&state, user.id).unwrap().unwrap();
    assert_eq!(stored.password, user.password);
}

#[test]
fn create_refuses_a_held_username_and_changes_nothing() {
    let mut state = AppState::new();
    let first = store(&mut state, "alice");
    let e = UserService::create(
        &mut state,
        "alice".to_string(),
        "p@ss".to_string(),
        None,
        Gender::Male,
        None,
    )
    .err()
    .unwrap();
    assert!(matches!(e, AppError::AlreadyExists(ref m) if m == "用户名已存在: alice"));
    let stored = UserService::find_by_username(&state, "alice").unwrap();
    assert_eq!(stored.id, first.id);
    assert_eq!(stored.age, Some(30));
    assert!(UserService::find_by_id(&state, 2).unwrap().is_none());
}

#[test]
fn usernames_differ_by_case() {
    let mut state = AppState::new();
    store(&mut state, "alice");
    let other = UserService::create(
        &mut state,
        "Alice".to_string(),
        "p@ss".to_string(),
        None,
        Gender::Male,
        None,
    )
    .unwrap();
    assert_eq!(other.id, 2);
}

#[test]
fn find_by_id_of_an_absent_account_is_no_failure() {
    let state = AppState::new();
    assert!(UserService::find_by_id(&state, 1).unwrap().is_none());
}

#[test]
fn find_by_username_of_an_absent_account_is_not_found() {
    let mut state = AppState::new();
    store(&mut state, "alice");
    assert_eq!(UserService::find_by_username(&state, "alice").unwrap().id, 1);
    let e = UserService::find_by_username(&state, "bob").err().unwrap();
    assert!(matches!(e, AppError::NotFound(ref m) if m == "用户不存在: bob"));
    assert_eq!(e.status(), 404);
}

#[test]
fn update_of_one_field_leaves_the_others() {
    let mut state = AppState::new();
    let before = store(&mut state, "alice");

    let after = UserService::update(&mut state, before.id, None, None, Some(Some(31)), None, None).unwrap();
    assert_eq!(after.age, Some(31));
    assert_eq!(after.id, before.id);
    assert_eq!(after.username, before.username);
    assert_eq!(after.password, before.password);
    assert_eq!(after.gender, before.gender);
    assert_eq!(after.email, before.email);
    assert_eq!(after.created_at, before.created_at);
    assert!(after.updated_at > before.updated_at);
    assert!(!after.is_deleted);

    let renamed =
        UserService::update(&mut state, before.id, Some("alicia".to_string()), None, None, None, None)
            .unwrap();
    assert_eq!(renamed.username, "alicia");
    assert_eq!(renamed.age, Some(31));
    assert_eq!(renamed.email, before.email);
    assert!(renamed.updated_at > after.updated_at);

    let regendered =
        UserService::update(&mut state, before.id, None, None, None, Some(Gender::Male), None).unwrap();
    assert_eq!(regendered.gender, Gender::Male);
    assert_eq!(regendered.username, "alicia");
    assert!(regendered.updated_at > renamed.updated_at);

    let readdressed = UserService::update(
        &mut state,
        before.id,
        None,
        None,
        None,
        None,
        Some(Some("a@b.c".to_string())),
    )
    .unwrap();
    assert_eq!(readdressed.email.as_deref(), Some("a@b.c"));
    assert_eq!(readdressed.gender, Gender::Male);
    assert_eq!(readdressed.password, before.password);
    assert!(readdressed.updated_at > regendered.updated_at);
}

#[test]
fn update_without_fields_still_moves_updated_at() {
    let mut state = AppState::new();
    let before = store(&mut state, "alice");
    let after = UserService::update(&mut state, before.id, None, None, None, None, None).unwrap();
    assert!(after.updated_at > before.updated_at);
    assert_eq!(after.username, before.username);
    assert_eq!(after.age, before.age);
}

#[test]
fn update_of_the_password_stores_its_digest() {
    let mut state = AppState::new();
    let before = store(&mut state, "alice");
    let after =
        UserService::update(&mut state, before.id, None, Some("n3w".to_string()), None, None, None).unwrap();
    assert_ne!(after.password, before.password);
    assert_ne!(after.password, "n3w");
    assert_eq!(verify_password("n3w", &after.password), Ok(true));
    assert_eq!(verify_password("password", &after.password), Ok(false));
    assert_eq!(after.username, before.username);
    assert_eq!(after.age, before.age);
}

#[test]
fn update_can_clear_a_field() {
    let mut state = AppState::new();
    let before = store(&mut state, "alice");
    let after = UserService::update(&mut state, before.id, None, None, Some(None), None, Some(None)).unwrap();
    assert_eq!(after.age, None);
    assert_eq!(after.email, None);
    assert_eq!(after.username, "alice");
}

#[test]
fn update_of_an_absent_account_is_not_found() {
    let mut state = AppState::new();
    store(&mut state, "alice");
    let e = UserService::update(&mut state, 7, None, None, Some(Some(1)), None, None).err().unwrap();
    assert!(matches!(e, AppError::NotFound(ref m) if m == "用户不存在: 7"));
    assert_eq!(e.status(), 404);
    let e = UserService::update(&mut state, -3, None, None, None, None, None).err().unwrap();
    assert_eq!(e.message(), "用户不存在: -3");
}

#[test]
fn update_refuses_a_username_held_by_another() {
    let mut state = AppState::new();
    let alice = store(&mut state, "alice");
    let bob = store(&mut state, "bob");
    let e = UserService::update(
        &mut state,
        bob.id,
        Some("alice".to_string()),
        None,
        Some(Some(99)),
        None,
        None,
    )
    .err()
    .unwrap();
    assert!(matches!(e, AppError::AlreadyExists(ref m) if m == "用户名已存在: alice"));
    assert_eq!(e.status(), 409);
    let stored = UserService::find_by_id(&state, bob.id).unwrap().unwrap();
    assert_eq!(stored.username, "bob");
    assert_eq!(stored.age, Some(30));
    assert_eq!(stored.updated_at, bob.updated_at);
    assert_eq!(UserService::find_by_username(&state, "alice").unwrap().id, alice.id);
}

#[test]
fn update_to_the_own_username_is_no_conflict() {
    let mut state = AppState::new();
    let alice = store(&mut state, "alice");
    let after =
        UserService::update(&mut state, alice.id, Some("alice".to_string()), None, None, None, None).unwrap();
    assert_eq!(after.username, "alice");
}

#[test]
fn update_may_take_the_username_of_a_deleted_account() {
    let mut state = AppState::new();
    let alice = store(&mut state, "alice");
    let bob = store(&mut state, "bob");
    UserService::delete(&mut state, alice.id).unwrap();
    let after =
        UserService::update(&mut state, bob.id, Some("alice".to_string()), None, None, None, None).unwrap();
    assert_eq!(after.username, "alice");
    assert_eq!(UserService::find_by_username(&state, "alice").unwrap().id, bob.id);
}

#[test]
fn delete_hides_the_account() {
    let mut state = AppState::new();
    let alice = store(&mut state, "alice");
    let bob = store(&mut state, "bob");
    assert!(UserService::delete(&mut state, alice.id).is_ok());
    assert!(UserService::find_by_id(&state, alice.id).unwrap().is_none());
    assert!(UserService::find_by_username(&state, "alice").is_err());
    assert_eq!(UserService::find_by_id(&state, bob.id).unwrap().unwrap().username, "bob");
}

#[test]
fn delete_is_final() {
    let mut state = AppState::new();
    let alice = store(&mut state, "alice");
    UserService::delete(&mut state, alice.id).unwrap();
    let e = UserService::delete(&mut state, alice.id).err().unwrap();
    assert!(matches!(e, AppError::NotFound(ref m) if m == "用户不存在: 1"));
    let e = UserService::update(&mut state, alice.id, None, None, Some(Some(1)), None, None).err().unwrap();
    assert!(matches!(e, AppError::NotFound(_)));
    assert!(UserService::verify_login(&state, "alice", "password").is_err());
    assert!(UserService::find_by_id(&state, alice.id).unwrap().is_none());
}

#[test]
fn delete_of_an_absent_account_is_not_found() {
    let mut state = AppState::new();
    let e = UserService::delete(&mut state, 12).err().unwrap();
    assert!(matches!(e, AppError::NotFound(ref m) if m == "用户不存在: 12"));
    assert_eq!(e.status(), 404);
}

#[test]
fn login_returns_the_account() {
    let mut state = AppState::new();
    let alice = store(&mut state, "alice");
    let user = UserService::verify_login(&state, "alice", "password").unwrap();
    assert_eq!(user.id, alice.id);
    assert_eq!(user.username, "alice");
    assert_eq!(user.email.as_deref(), Some("alice@example.com"));
}

#[test]
fn login_failures_cannot_be_told_apart() {
    let mut state = AppState::new();
    store(&mut state, "alice");
    let unknown = UserService::verify_login(&state, "no-such-user", "password").err().unwrap();
    let wrong = UserService::verify_login(&state, "alice", "wrong").err().unwrap();
    assert!(matches!(unknown, AppError::Unauthorized(_)));
    assert!(matches!(wrong, AppError::Unauthorized(_)));
    assert!(same_failure(&unknown, &wrong));
    assert_eq!(unknown.status(), 401);
    assert_eq!(unknown.code(), 4010);
    assert_eq!(unknown.message(), "密码错误");
    let (status_a, body_a) = unknown.into_response();
    let (status_b, body_b) = wrong.into_response();
    assert_eq!(status_a, status_b);
    assert_eq!(body_a.code, body_b.code);
    assert_eq!(body_a.message, body_b.message);
}

#[test]
fn login_against_an_unreadable_digest_is_a_wrong_password() {
    let mut state = AppState::new();
    UserDao::insert_at(
        &mut state,
        "mallory".to_string(),
        "not a digest".to_string(),
        None,
        Gender::Male,
        None,
        1,
    )
    .unwrap();
    let e = UserService::verify_login(&state, "mallory", "not a digest").err().unwrap();
    assert!(matches!(e, AppError::Unauthorized(ref m) if m == "密码错误"));
}

#[test]
fn login_after_create() {
    let mut state = AppState::new();
    UserService::create(&mut state, "carol".to_string(), "s3cret".to_string(), None, Gender::Female, None)
        .unwrap();
    assert_eq!(UserService::verify_login(&state, "carol", "s3cret").unwrap().username, "carol");
    assert!(UserService::verify_login(&state, "carol", "S3cret").is_err());
}
