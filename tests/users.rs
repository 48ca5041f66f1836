use photo_share::error::ApiError;
use photo_share::models::{GetUserByEmailRequest, Login, SignUp, Timestamp, User};
use photo_share::store::{Action, Reply, StoreOp};
use photo_share::user::{
    check_password, get_user_by_email, login, login_verdict, sign_up, user_found,
};

fn hashed_user(password: &str) -> User {
    let op = sign_up(SignUp {
        username: "ann".to_string(),
        email: "ann@example.com".to_string(),
        password: password.to_string(),
    })
    .unwrap();
    match op {
        StoreOp::InsertUser { username, email, password_hash } => User {
            user_id: 1,
            username,
            email,
            password_hash,
            created_at: Timestamp { micros: 0 },
        },
        other => panic!("unexpected {:?}", other),
    }
}

#[test]
fn sign_up_stores_a_bcrypt_hash() {
    let user = hashed_user("password123");
    assert_eq!(user.username, "ann");
    assert_eq!(user.email, "ann@example.com");
    assert_eq!(user.password_hash.len(), 60);
    assert_ne!(user.password_hash, "password123");
    assert!(user.password_hash.starts_with("$2"));
}

#[test]
fn right_password_logs_in() {
    let user = hashed_user("password123");
    assert_eq!(check_password(user.clone(), "password123"), Ok(user));
}

#[test]
fn wrong_password_is_auth_error() {
    let user = hashed_user("password123");
    let r = check_password(user, "password124");
    assert_eq!(r, Err(ApiError::Auth));
    assert_eq!(r.unwrap_err().status(), 401);
}

#[test]
fn unreadable_hash_is_internal_error() {
    let mut user = hashed_user("pw");
    user.password_hash = "not a hash".to_string();
    match check_password(user, "pw") {
        Err(ApiError::Internal(_)) => {}
        other => panic!("unexpected {:?}", other),
    }
}

#[test]
fn login_verdicts() {
    let user = hashed_user("pw");
    assert_eq!(login_verdict(user.clone(), Ok(true)), Ok(user.clone()));
    assert_eq!(login_verdict(user.clone(), Ok(false)), Err(ApiError::Auth));
    assert_eq!(
        login_verdict(user, Err("bad hash".to_string())),
        Err(ApiError::Internal("bad hash".to_string()))
    );
}

#[test]
fn login_flow() {
    let user = hashed_user("secret");
    let (flow, first) = login(Login { email: "ann@example.com".to_string(), password: "secret".to_string() });
    assert_eq!(first, Action::Store(StoreOp::FindUserByEmail { email: "ann@example.com".to_string() }));
    assert_eq!(flow.resume(Reply::UserRow(Some(user.clone()))), Action::Finish(Ok(user)));
    assert_eq!(flow.resume(Reply::UserRow(None)), Action::Finish(Err(ApiError::Auth)));
}

#[test]
fn user_lookup_by_email() {
    assert_eq!(
        get_user_by_email(GetUserByEmailRequest { email: "a@b.c".to_string() }),
        StoreOp::FindUserByEmail { email: "a@b.c".to_string() }
    );
    let user = User {
        user_id: 2,
        username: "bo".to_string(),
        email: "a@b.c".to_string(),
        password_hash: String::new(),
        created_at: Timestamp { micros: 0 },
    };
    assert_eq!(user_found(Some(user.clone())), Ok(user));
    assert_eq!(user_found(None).unwrap_err().status(), 500);
}
