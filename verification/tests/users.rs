use backend_core::auth::{
    bearer_token, check_password, claims_at, generate_token, generate_token_at, hash_password, is_phc_string,
    verify_password, verify_token,
};
use backend_core::handlers::{
    delete_user, get_user, get_users, login, login_checked, register, registered, token_issued,
    update_user, updated_user, LoginStep,
};
use backend_core::models::{LoginUser, RegisterUser, UpdateUser, UserData, UserData2};
use backend_core::reply::{Body, Field, Reply, Status};

fn msg(status: Status, field: Field, text: &str) -> Reply {
    Reply { status, body: Body::Message(field, text.to_string()) }
}

fn alice() -> UserData {
    UserData { id: 7, name: "Alice".to_string(), email: "alice@example.com".to_string() }
}

fn now_secs() -> i64 {
    std::time::SystemTime::now().duration_since(std::time::UNIX_EPOCH).unwrap().as_secs() as i64
}

#[test]
fn hashed_password_verifies_and_others_do_not() {
    let hash = hash_password("hunter2");
    assert_ne!(hash, "hunter2");
    assert!(hash.starts_with("$argon2id$v=19$m=19456,t=2,p=1$"));
    assert_eq!(hash.len(), 97);
    assert_eq!(&hash[53..54], "$");
    let b64 = |c: char| c.is_ascii_alphanumeric() || c == '+' || c == '/';
    assert!(hash[31..53].chars().all(b64) && hash[54..].chars().all(b64));
    assert!(is_phc_string(&hash));
    assert!(verify_password("hunter2", &hash));
    assert!(!verify_password("hunter3", &hash));
}

#[test]
fn two_hashes_of_one_password_differ_by_salt() {
    let a = hash_password("same");
    let b = hash_password("same");
    assert_ne!(a, b);
}

#[test]
fn check_password_rejects_a_string_that_is_no_hash() {
    assert!(!is_phc_string("plain text"));
    assert_eq!(check_password("x", "plain text"), None);
    assert_eq!(check_password("x", ""), None);
}

#[test]
fn claims_expire_two_hours_after_issue() {
    let c = claims_at(42, 1_700_000_000);
    assert_eq!(c.user_id, 42);
    assert_eq!(c.exp, 1_700_007_200);
}

#[test]
fn issued_claims_expire_two_hours_from_now() {
    let before = now_secs();
    let (c, token) = generate_token(9, "k");
    let after = now_secs();
    assert_eq!(c.user_id, 9);
    assert!(c.exp as i64 >= before + 7200 && c.exp as i64 <= after + 7200);
    assert_eq!(verify_token(&token, "k"), Some(c));
}

#[test]
fn token_at_a_given_time_carries_that_expiry() {
    let now = now_secs();
    let (c, token) = generate_token_at(11, now, "s");
    assert_eq!(c.user_id, 11);
    assert_eq!(c.exp as i64, now + 7200);
    assert_eq!(verify_token(&token, "s"), Some(c));
    let (_, again) = generate_token_at(11, now, "s");
    assert_eq!(again, token);
}

#[test]
fn token_issued_in_1970_has_expired() {
    let (c, token) = generate_token_at(11, 0, "s");
    assert_eq!(c.exp, 7200);
    assert_eq!(verify_token(&token, "s"), None);
}

#[test]
fn login_with_the_right_password_issues_a_token() {
    let hash = hash_password("s3cret");
    let payload = LoginUser { email: "alice@example.com".to_string(), password: "s3cret".to_string() };
    let step = login(&payload, Ok(Some(UserData2 { id: 7, password: hash })));
    match step {
        LoginStep::IssueToken(id) => assert_eq!(id, 7),
        other => panic!("expected a token, got {:?}", other),
    }
}

#[test]
fn login_with_a_wrong_password_is_unauthorized() {
    let hash = hash_password("s3cret");
    let payload = LoginUser { email: "alice@example.com".to_string(), password: "guess".to_string() };
    let step = login(&payload, Ok(Some(UserData2 { id: 7, password: hash })));
    assert_eq!(step, LoginStep::Respond(msg(Status::Unauthorized, Field::Error, "Password is incorrect")));
}

#[test]
fn login_of_an_unknown_email_is_not_found() {
    let payload = LoginUser { email: "bob@example.com".to_string(), password: "x".to_string() };
    assert_eq!(
        login(&payload, Ok(None)),
        LoginStep::Respond(msg(Status::NotFound, Field::Msg, "User not found"))
    );
}

#[test]
fn login_when_the_database_fails_is_a_server_error() {
    let payload = LoginUser { email: "bob@example.com".to_string(), password: "x".to_string() };
    assert_eq!(
        login(&payload, Err("connection refused".to_string())),
        LoginStep::Respond(msg(Status::InternalServerError, Field::Msg, "connection refused"))
    );
}

#[test]
fn login_checked_refuses_a_stored_value_that_is_no_hash() {
    let payload = LoginUser { email: "a@b.c".to_string(), password: "x".to_string() };
    assert_eq!(login_checked(&payload, Ok(Some(UserData2 { id: 1, password: "oops".to_string() }))), None);
    assert_eq!(
        login_checked(&payload, Ok(None)),
        Some(LoginStep::Respond(msg(Status::NotFound, Field::Msg, "User not found")))
    );
}

#[test]
fn token_issued_answers_with_the_token() {
    assert_eq!(token_issued("abc.def.ghi"), msg(Status::Success, Field::Token, "abc.def.ghi"));
}

#[test]
fn registered_password_logs_in() {
    let rec = register(RegisterUser {
        name: "Alice".to_string(),
        email: "alice@example.com".to_string(),
        password: "correct horse".to_string(),
    });
    assert_eq!(rec.name, "Alice");
    assert_eq!(rec.email, "alice@example.com");
    assert_ne!(rec.password_hash, "correct horse");
    assert_eq!((rec.id >> 76) & 0xf, 4);
    assert_eq!((rec.id >> 62) & 0x3, 2);
    let payload = LoginUser { email: rec.email.clone(), password: "correct horse".to_string() };
    match login(&payload, Ok(Some(UserData2 { id: rec.id, password: rec.password_hash.clone() }))) {
        LoginStep::IssueToken(id) => assert_eq!(id, rec.id),
        other => panic!("expected a token, got {:?}", other),
    }
}

#[test]
fn registrations_get_distinct_ids() {
    let p = || RegisterUser { name: "n".to_string(), email: "e".to_string(), password: "p".to_string() };
    assert_ne!(register(p()).id, register(p()).id);
}

#[test]
fn registered_answers_with_the_user_or_the_error() {
    assert_eq!(registered(Ok(alice())), Reply { status: Status::Success, body: Body::User(alice()) });
    assert_eq!(
        registered(Err("duplicate key value violates unique constraint".to_string())),
        msg(Status::InternalServerError, Field::Msg, "duplicate key value violates unique constraint")
    );
}

#[test]
fn get_users_answers_with_the_list_or_the_error() {
    assert_eq!(
        get_users(Ok(vec![alice()])),
        Reply { status: Status::Success, body: Body::Users(vec![alice()]) }
    );
    assert_eq!(get_users(Ok(vec![])), Reply { status: Status::Success, body: Body::Users(vec![]) });
    assert_eq!(get_users(Err("boom".to_string())), msg(Status::InternalServerError, Field::Msg, "boom"));
}

#[test]
fn single_user_queries_answer_user_404_or_500() {
    for f in [get_user, delete_user, updated_user] {
        assert_eq!(f(Ok(Some(alice()))), Reply { status: Status::Success, body: Body::User(alice()) });
        assert_eq!(f(Ok(None)), msg(Status::NotFound, Field::Msg, "user not found"));
        assert_eq!(f(Err("e".to_string())), msg(Status::InternalServerError, Field::Msg, "e"));
    }
}

#[test]
fn update_with_no_fields_is_refused() {
    assert_eq!(
        update_user(&UpdateUser { name: None, email: None }),
        Some(msg(Status::BadRequest, Field::Msg, "no fields to update"))
    );
    assert_eq!(update_user(&UpdateUser { name: Some("B".to_string()), email: None }), None);
    assert_eq!(update_user(&UpdateUser { name: None, email: Some("b@x".to_string()) }), None);
}

#[test]
fn generated_token_verifies_to_its_claims() {
    let (claims, token) = generate_token(0x1234_5678_9abc_4def_8123_456789abcdef, "top secret");
    assert_eq!(claims.user_id, 0x1234_5678_9abc_4def_8123_456789abcdef);
    assert_eq!(token.split('.').count(), 3);
    assert_eq!(verify_token(&token, "top secret"), Some(claims));
}

#[test]
fn token_with_another_secret_or_tampered_is_refused() {
    let (_, token) = generate_token(5, "one");
    assert_eq!(verify_token(&token, "two"), None);
    let mut tampered = token.clone();
    tampered.push('x');
    assert_eq!(verify_token(&tampered, "one"), None);
    assert_eq!(verify_token("not a token", "one"), None);
}

#[test]
fn bearer_token_takes_what_follows_the_scheme() {
    assert_eq!(bearer_token("Bearer abc.def.ghi"), Some("abc.def.ghi".to_string()));
    assert_eq!(bearer_token("Bearer "), Some(String::new()));
    assert_eq!(bearer_token("Bearer"), None);
    assert_eq!(bearer_token("bearer abc"), None);
    assert_eq!(bearer_token("Basic dXNlcjpwYXNz"), None);
    assert_eq!(bearer_token(""), None);
}
