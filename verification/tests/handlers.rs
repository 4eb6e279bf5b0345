use be::dao::UserDao;
use be::dto::{CreateUserRequest, LoginRequest, UpdateUserRequest};
use be::entity::Gender;
use be::error::AppError;
use be::handler::{
    account_reply, create_user, delete_user, deleted_reply, found_reply, get_user, login, update_user,
};
use be::state::AppState;

const PASSWORD_DIGEST: &str = "$2a$04$UuTkLRZZ6QofpDOlMz32MuuxEHA43WOemOYHPz6.SjsVsyO1tDU96";

fn alice() -> CreateUserRequest {
    CreateUserRequest {
        username: "alice".to_string(),
        password: "p@ss".to_string(),
        age: None,
        gender: Gender::Male,
        email: None,
    }
}

fn no_change() -> UpdateUserRequest {
    UpdateUserRequest { username: None, password: None, age: None, gender: None, email: None }
}

fn stored(state: &mut AppState, username: &str) -> i32 {
    UserDao::insert_at(
        state,
        username.to_string(),
        PASSWORD_DIGEST.to_string(),
        Some(30),
        Gender::Female,
        None,
        1_662_921_288_000_000,
    )
    .unwrap()
    .id
}

#[test]
fn requests_to_create_delete_and_create_again() {
    let mut state = AppState::new();

    let created = create_user(&mut state, alice()).unwrap();
    assert_eq!(created.code, 0);
    assert_eq!(created.message, "success");
    let account = created.data.unwrap();
    assert!(account.id > 0);
    assert_eq!(account.username, "alice");
    assert_eq!(account.gender, Gender::Male);
    assert_eq!(account.age, None);
    assert_eq!(account.email, None);

    let refused = create_user(&mut state, alice()).err().unwrap();
    assert!(matches!(refused, AppError::AlreadyExists(_)));
    let (status, body) = refused.into_response();
    assert_eq!(status, 409);
    assert_eq!(body.code, 4090);
    assert!(body.data.is_none());

    let deleted = delete_user(&mut state, account.id).unwrap();
    assert_eq!(deleted.code, 0);
    assert_eq!(deleted.message, "删除成功");
    assert!(deleted.data.is_none());

    let again = create_user(&mut state, alice()).unwrap();
    assert_eq!(again.code, 0);
    let reborn = again.data.unwrap();
    assert!(reborn.id > 0);
    assert_ne!(reborn.id, account.id);
    assert_eq!(reborn.username, "alice");
}

#[test]
fn request_for_an_account() {
    let mut state = AppState::new();
    let id = stored(&mut state, "alice");
    let reply = get_user(&state, id).unwrap();
    assert_eq!(reply.code, 0);
    assert_eq!(reply.message, "success");
    let account = reply.data.unwrap().unwrap();
    assert_eq!(account.id, id);
    assert_eq!(account.username, "alice");
    assert_eq!(account.age, Some(30));
    assert_eq!(account.created_at, "2022-09-11 18:34:48");
    assert_eq!(account.updated_at, "2022-09-11 18:34:48");
}

#[test]
fn request_for_an_absent_account_is_not_found() {
    let state = AppState::new();
    let e = get_user(&state, 4).err().unwrap();
    assert!(matches!(e, AppError::NotFound(ref m) if m == "用户不存在: 4"));
    let (status, body) = e.into_response();
    assert_eq!(status, 404);
    assert_eq!(body.code, 4040);
    assert_eq!(body.message, "用户不存在: 4");
    assert!(body.data.is_none());
}

#[test]
fn request_for_a_deleted_account_is_not_found() {
    let mut state = AppState::new();
    let id = stored(&mut state, "alice");
    assert!(get_user(&state, id).is_ok());
    delete_user(&mut state, id).unwrap();
    let e = get_user(&state, id).err().unwrap();
    assert_eq!(e.status(), 404);
    assert_eq!(e.message(), "用户不存在: 1");
}

#[test]
fn reply_to_a_lookup() {
    let e = found_reply(None, -12).err().unwrap();
    assert!(matches!(e, AppError::NotFound(ref m) if m == "用户不存在: -12"));
    let mut state = AppState::new();
    let id = stored(&mut state, "alice");
    let row = UserDao::find_by_id(&state, id).unwrap();
    let reply = found_reply(row, id).unwrap();
    assert_eq!(reply.code, 0);
    assert_eq!(reply.message, "success");
    assert_eq!(reply.data.unwrap().unwrap().username, "alice");
}

#[test]
fn reply_to_a_delete() {
    let reply = deleted_reply(Ok(())).unwrap();
    assert_eq!(reply.code, 0);
    assert_eq!(reply.message, "删除成功");
    assert!(reply.data.is_none());
    let e = deleted_reply(Err(AppError::NotFound("用户不存在: 3".to_string()))).err().unwrap();
    assert!(matches!(e, AppError::NotFound(ref m) if m == "用户不存在: 3"));
}

#[test]
fn request_to_update_one_field() {
    let mut state = AppState::new();
    let id = stored(&mut state, "alice");
    let reply = update_user(
        &mut state,
        id,
        UpdateUserRequest { email: Some(Some("alice@example.com".to_string())), ..no_change() },
    )
    .unwrap();
    let account = reply.data.unwrap();
    assert_eq!(account.email.as_deref(), Some("alice@example.com"));
    assert_eq!(account.username, "alice");
    assert_eq!(account.age, Some(30));
    assert_eq!(account.gender, Gender::Female);
    assert_eq!(account.created_at, "2022-09-11 18:34:48");
    assert_ne!(account.updated_at, account.created_at);
}

#[test]
fn request_to_update_an_absent_account() {
    let mut state = AppState::new();
    let e = update_user(&mut state, 3, no_change()).err().unwrap();
    let (status, body) = e.into_response();
    assert_eq!(status, 404);
    assert_eq!(body.code, 4040);
    assert_eq!(body.message, "用户不存在: 3");
}

#[test]
fn request_to_delete_an_absent_account() {
    let mut state = AppState::new();
    let e = delete_user(&mut state, 3).err().unwrap();
    assert_eq!(e.status(), 404);
    assert_eq!(e.message(), "用户不存在: 3");
}

#[test]
fn request_to_authenticate() {
    let mut state = AppState::new();
    let id = stored(&mut state, "alice");
    let reply = login(
        &state,
        LoginRequest { username: "alice".to_string(), password: "password".to_string() },
    )
    .unwrap();
    assert_eq!(reply.code, 0);
    assert_eq!(reply.data.unwrap().id, id);
}

#[test]
fn requests_that_fail_to_authenticate_are_answered_alike() {
    let mut state = AppState::new();
    stored(&mut state, "alice");
    let unknown = login(
        &state,
        LoginRequest { username: "no-such-user".to_string(), password: "password".to_string() },
    )
    .err()
    .unwrap();
    let wrong = login(
        &state,
        LoginRequest { username: "alice".to_string(), password: "wrong".to_string() },
    )
    .err()
    .unwrap();
    let (status_a, body_a) = unknown.into_response();
    let (status_b, body_b) = wrong.into_response();
    assert_eq!((status_a, body_a.code, body_a.message), (status_b, body_b.code, body_b.message));
    assert_eq!(status_a, 401);
}

#[test]
fn reply_of_a_failure_is_the_failure() {
    let e = account_reply(Err(AppError::Conflict("busy".to_string()))).err().unwrap();
    assert!(matches!(e, AppError::Conflict(ref m) if m == "busy"));
}
