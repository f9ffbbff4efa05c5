use opensync::api::{login, register, TOKEN_LIFETIME_SECS};
use opensync::users::{CreateUserDTO, Timestamp, UpdateUserDTO, UserError, UserService, UserStatus};

fn at(secs: i64) -> Timestamp {
    Timestamp { secs, nanos: 250 }
}

fn req(name: &str) -> CreateUserDTO {
    CreateUserDTO { username: name.to_string(), password: "pw".to_string(), status: UserStatus::Active }
}

#[test]
fn default_service_is_empty() {
    let s = UserService::default();
    assert_eq!(s.data.counter, 0);
    assert!(s.get_all_users().unwrap().is_empty());
}

#[test]
fn create_assigns_increasing_ids() {
    let mut s = UserService::default();
    let a = s.create_user_at(req("ann"), at(1000)).unwrap();
    let b = s.create_user_at(req("bob"), at(2000)).unwrap();
    assert_eq!(a.id, 1);
    assert_eq!(b.id, 2);
    assert_eq!(a.created_at, at(1000));
    assert_eq!(a.updated_at, at(1000));
    assert_eq!(a.last_login, None);
    assert_eq!(s.data.counter, 2);
}

#[test]
fn created_user_is_found_by_id() {
    let mut s = UserService::default();
    let a = s.create_user(req("ann")).unwrap();
    let found = s.get_user_by_id(a.id).unwrap();
    assert_eq!(found.username, "ann");
    assert_eq!(found.password, "pw");
    assert_eq!(found.status, UserStatus::Active);
    assert_eq!(found.created_at, a.created_at);
}

#[test]
fn missing_user_is_not_found() {
    let s = UserService::default();
    assert_eq!(s.get_user_by_id(7).unwrap_err(), UserError::NotFound(7));
    assert_eq!(UserError::NotFound(7).message(), "User not found: 7");
    assert_eq!(UserError::NotFound(-12).message(), "User not found: -12");
}

#[test]
fn update_changes_fields_but_keeps_identity() {
    let mut s = UserService::default();
    let a = s.create_user_at(req("ann"), at(5)).unwrap();
    let changed = s
        .update_user(
            a.id,
            UpdateUserDTO {
                username: "anne".to_string(),
                password: "new".to_string(),
                status: UserStatus::Inactive,
                last_login: Some(at(99)),
            },
        )
        .unwrap();
    assert_eq!(changed.id, a.id);
    assert_eq!(changed.username, "anne");
    assert_eq!(changed.password, "new");
    assert_eq!(changed.status, UserStatus::Inactive);
    assert_eq!(changed.last_login, Some(at(99)));
    assert_eq!(changed.created_at, at(5));
    assert_eq!(changed.updated_at, at(5));
    assert_eq!(s.get_user_by_id(a.id).unwrap().username, "anne");
}

#[test]
fn update_of_missing_user_fails() {
    let mut s = UserService::default();
    let r = s.update_user(
        3,
        UpdateUserDTO { username: "x".to_string(), password: "y".to_string(), status: UserStatus::Active, last_login: None },
    );
    assert_eq!(r.unwrap_err(), UserError::NotFound(3));
    assert!(s.get_all_users().unwrap().is_empty());
}

#[test]
fn delete_removes_user() {
    let mut s = UserService::default();
    let a = s.create_user_at(req("ann"), at(1)).unwrap();
    assert!(s.delete_user(a.id).is_ok());
    assert_eq!(s.get_user_by_id(a.id).unwrap_err(), UserError::NotFound(a.id));
    assert_eq!(s.delete_user(a.id).unwrap_err(), UserError::NotFound(a.id));
}

#[test]
fn get_all_lists_every_user() {
    let mut s = UserService::default();
    s.create_user_at(req("a"), at(1)).unwrap();
    s.create_user_at(req("b"), at(1)).unwrap();
    s.create_user_at(req("c"), at(1)).unwrap();
    let mut names: Vec<String> = s.get_all_users().unwrap().into_iter().map(|u| u.username).collect();
    names.sort();
    assert_eq!(names, vec!["a", "b", "c"]);
}

#[test]
fn get_by_name_finds_user() {
    let mut s = UserService::default();
    s.create_user_at(req("ann"), at(1)).unwrap();
    assert_eq!(s.get_user_by_name("ann").unwrap().id, 1);
    assert!(s.get_user_by_name("bob").is_none());
}

#[test]
fn login_issues_hour_long_claims() {
    let mut s = UserService::default();
    s.create_user_at(req("ann"), at(1)).unwrap();
    let c = login(&s, "ann".to_string(), 1_700_000_000).unwrap();
    assert_eq!(c.sub, "ann");
    assert_eq!(c.iat, 1_700_000_000);
    assert_eq!(c.exp, 1_700_000_000 + TOKEN_LIFETIME_SECS);
    let e = login(&s, "bob".to_string(), 10).unwrap_err();
    assert_eq!(e.status, 401);
    assert_eq!(e.message, "Invalid username or password");
}

#[test]
fn register_wraps_new_user() {
    let mut s = UserService::default();
    let resp = register(&mut s, req("zed")).unwrap();
    assert_eq!(resp.data.id, 1);
    assert_eq!(resp.data.username, "zed");
}

#[test]
fn login_now_uses_current_time() {
    let mut s = UserService::default();
    s.create_user(req("ann")).unwrap();
    let c = opensync::api::login_now(&s, "ann".to_string()).unwrap().unwrap();
    assert_eq!(c.exp - c.iat, TOKEN_LIFETIME_SECS);
    assert!(c.iat > 1_600_000_000);
    let e = opensync::api::login_now(&s, "nobody".to_string()).unwrap().unwrap_err();
    assert_eq!(e.status, 401);
}

#[test]
fn bearer_header_round_trip() {
    let h = opensync::api::bearer_header("tok");
    assert_eq!(h, "Bearer tok");
    assert_eq!(opensync::api::bearer_token(Some(&h)).unwrap(), "tok");
}

#[test]
fn create_user_stamps_the_current_time_to_the_nanosecond() {
    let mut s = UserService::default();
    let a = s.create_user(req("ann")).unwrap();
    assert!(a.created_at.secs > 1_600_000_000);
    assert!(a.created_at.nanos < 1_000_000_000);
    assert_eq!(a.created_at, a.updated_at);
    assert_eq!(a.last_login, None);
}
