use vstd::prelude::*;
use crate::error::ApiError;
use crate::models::{GetUserByEmailRequest, Login, SignUp, User};
use crate::store::{Action, Reply, StoreOp};

verus! {

/// Relies on bcrypt::hash at bcrypt::DEFAULT_COST: the salt is random, so a
/// hash is known only to be 60 characters in the crypt format, and one that
/// bcrypt::verify accepts for the same password.
#[verifier::external_body]
fn bcrypt_hash(password: &str) -> (r: Result<String, String>)
    ensures
        r matches Ok(h) ==> h@.len() == 60,
        r matches Ok(h) ==> bcrypt_verdict(password@, h@) == Some(true),
{
    match bcrypt::hash(password, bcrypt::DEFAULT_COST) {
        Ok(h) => Ok(h),
        Err(e) => Err(e.to_string()),
    }
}

/// Whether a password matches a bcrypt hash, or `None` where the hash is not
/// one bcrypt can read.
pub uninterp spec fn bcrypt_verdict(password: Seq<char>, hash: Seq<char>) -> Option<bool>;

/// Relies on bcrypt::verify: its answer depends on the password and the hash
/// alone, and a hash that is not 60 characters long is refused.
#[verifier::external_body]
fn bcrypt_verify(password: &str, hash: &str) -> (r: Result<bool, String>)
    ensures
        r matches Ok(b) ==> bcrypt_verdict(password@, hash@) == Some(b),
        r is Err ==> bcrypt_verdict(password@, hash@) is None,
        hash@.len() != 60 ==> r is Err,
{
    match bcrypt::verify(password, hash) {
        Ok(b) => Ok(b),
        Err(e) => Err(e.to_string()),
    }
}

/// The insert of a new user whose password is stored as a bcrypt hash that
/// verifies against that password. A
/// failure of the hashing is reported as an internal error.
pub fn sign_up(request: SignUp) -> (r: Result<StoreOp, ApiError>)
    ensures
        r matches Ok(op) ==> (op matches StoreOp::InsertUser { username, email, password_hash }
            && username == request.username && email == request.email && password_hash@.len()
            == 60 && bcrypt_verdict(request.password@, password_hash@) == Some(true)),
        r matches Err(e) ==> e is Internal,
{
    match bcrypt_hash(request.password.as_str()) {
        Ok(password_hash) => Ok(
            StoreOp::InsertUser { username: request.username, email: request.email, password_hash },
        ),
        Err(m) => Err(ApiError::Internal(m)),
    }
}

/// What a login answers for a found user, given bcrypt's verdict on the
/// password: the user on a match, Auth on a mismatch, and an internal error
/// where bcrypt could not read the hash.
pub fn login_verdict(user: User, verdict: Result<bool, String>) -> (r: Result<User, ApiError>)
    ensures
        verdict == Ok::<bool, String>(true) ==> r == Ok::<User, ApiError>(user),
        verdict == Ok::<bool, String>(false) ==> r == Err::<User, ApiError>(ApiError::Auth),
        verdict matches Err(m) ==> r == Err::<User, ApiError>(ApiError::Internal(m)),
{
    match verdict {
        Ok(true) => Ok(user),
        Ok(false) => Err(ApiError::Auth),
        Err(m) => Err(ApiError::Internal(m)),
    }
}

/// Checks a password against a user's stored hash.
pub fn check_password(user: User, password: &str) -> (r: Result<User, ApiError>)
    ensures
        bcrypt_verdict(password@, user.password_hash@) == Some(true) ==> r == Ok::<User, ApiError>(
            user,
        ),
        bcrypt_verdict(password@, user.password_hash@) == Some(false) ==> r == Err::<
            User,
            ApiError,
        >(ApiError::Auth),
        bcrypt_verdict(password@, user.password_hash@) is None ==> (r matches Err(e) && e is Internal),
{
    let verdict = bcrypt_verify(password, user.password_hash.as_str());
    login_verdict(user, verdict)
}

/// The login workflow: it looks the user up by email, then checks the
/// password.
#[derive(Debug)]
pub struct LoginFlow {
    pub request: Login,
}

/// Starts a login; the first operation looks the user up by email.
pub fn login(request: Login) -> (r: (LoginFlow, Action<User>))
    ensures
        r.0.request == request,
        r.1 == Action::<User>::Store(StoreOp::FindUserByEmail { email: request.email }),
{
    let email = request.email.clone();
    (LoginFlow { request }, Action::Store(StoreOp::FindUserByEmail { email }))
}

impl LoginFlow {
    /// Hands the flow the user row: an unknown email fails as a wrong
    /// password does.
    pub fn resume(&self, reply: Reply) -> (a: Action<User>)
        requires
            reply is UserRow || reply is Failed,
        ensures
            match reply {
                Reply::Failed(m) => a == Action::<User>::Finish(Err(ApiError::Internal(m))),
                Reply::UserRow(None) => a == Action::<User>::Finish(Err(ApiError::Auth)),
                Reply::UserRow(Some(u)) => match bcrypt_verdict(
                    self.request.password@,
                    u.password_hash@,
                ) {
                    Some(true) => a == Action::<User>::Finish(Ok(u)),
                    Some(false) => a == Action::<User>::Finish(Err(ApiError::Auth)),
                    None => a matches Action::Finish(Err(e)) && e is Internal,
                },
                _ => false,
            },
    {
        match reply {
            Reply::Failed(m) => Action::Finish(Err(ApiError::Internal(m))),
            Reply::UserRow(None) => Action::Finish(Err(ApiError::Auth)),
            Reply::UserRow(Some(u)) => Action::Finish(check_password(u, self.request.password.as_str())),
            _ => Action::Finish(Err(ApiError::Auth)),
        }
    }
}

/// The lookup of a user by email.
pub fn get_user_by_email(request: GetUserByEmailRequest) -> (op: StoreOp)
    ensures
        op == (StoreOp::FindUserByEmail { email: request.email }),
{
    StoreOp::FindUserByEmail { email: request.email }
}

/// The answer to a lookup by email: the user, or an internal error where no
/// user has that email.
pub fn user_found(row: Option<User>) -> (r: Result<User, ApiError>)
    ensures
        row matches Some(u) ==> r == Ok::<User, ApiError>(u),
        row is None ==> (r matches Err(ApiError::Internal(m)) && m@ == "No user with this email"@),
{
    match row {
        Some(u) => Ok(u),
        None => Err(
            ApiError::Internal(
                String::from_str("No user with this email"),
            ),
        ),
    }
}

} // verus!
