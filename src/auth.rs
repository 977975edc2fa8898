use crate::models::{Claims, User, UserResponse};
use crate::object_id::{lower_hex, RecordId};
use vstd::prelude::*;

verus! {

/// How long a session token stays valid, in seconds.
pub const SESSION_SECONDS: i64 = 86400;

/// The scheme word, with its trailing space, that opens a bearer
/// authorization header.
pub open spec fn bearer_prefix() -> Seq<char> {
    seq!['B', 'e', 'a', 'r', 'e', 'r', ' ']
}

pub open spec fn admin_role() -> Seq<char> {
    seq!['a', 'd', 'm', 'i', 'n']
}

pub open spec fn user_role() -> Seq<char> {
    seq!['u', 's', 'e', 'r']
}

/// Why signing up or signing in was refused.
#[derive(Clone, Copy, Debug, PartialEq, Eq, Structural)]
pub enum AuthError {
    /// An account with that e-mail address exists already.
    UserExists,
    /// No account with that e-mail address, or the wrong password.
    InvalidCredentials,
    /// The stored account has no identifier.
    MissingUserId,
}

impl AuthError {
    /// The text a client is shown.
    pub fn message(&self) -> (r: String)
        ensures
            *self == AuthError::UserExists ==> r@ == "User already exists"@,
            *self == AuthError::InvalidCredentials ==> r@ == "Invalid credentials"@,
            *self == AuthError::MissingUserId ==> r@ == "User ID not found"@,
    {
        match self {
            AuthError::UserExists => String::from_str("User already exists"),
            AuthError::InvalidCredentials => String::from_str("Invalid credentials"),
            AuthError::MissingUserId => String::from_str("User ID not found"),
        }
    }
}

/// Whether two texts are the same character for character.
fn same_text(a: &str, b: &str) -> (r: bool)
    ensures
        r == (a@ == b@),
{
    let n = a.unicode_len();
    if n != b.unicode_len() {
        return false;
    }
    let mut i: usize = 0;
    while i < n
        invariant
            n == a@.len(),
            n == b@.len(),
            i <= n,
            a@.subrange(0, i as int) == b@.subrange(0, i as int),
        decreases n - i,
    {
        if a.get_char(i) != b.get_char(i) {
            assert(a@[i as int] != b@[i as int]);
            return false;
        }
        assert(a@.subrange(0, i as int + 1) =~= a@.subrange(0, i as int).push(a@[i as int]));
        assert(b@.subrange(0, i as int + 1) =~= b@.subrange(0, i as int).push(b@[i as int]));
        i = i + 1;
    }
    assert(a@ =~= a@.subrange(0, n as int));
    assert(b@ =~= b@.subrange(0, n as int));
    true
}

/// The token of a bearer authorization header: what follows "Bearer ".
/// A header of another form carries none.
pub fn bearer_token(header: &str) -> (r: Option<&str>)
    ensures
        r is Some <==> (header@.len() >= 7 && header@.subrange(0, 7) == bearer_prefix()),
        r is Some ==> r->Some_0@ == header@.subrange(7, header@.len() as int),
{
    let n = header.unicode_len();
    if n < 7 {
        return None;
    }
    let prefix = "Bearer ";
    proof {
        reveal_strlit("Bearer ");
    }
    assert(prefix@ =~= bearer_prefix());
    if same_text(header.substring_char(0, 7), prefix) {
        Some(header.substring_char(7, n))
    } else {
        None
    }
}

/// Whether session claims grant administrator access.
pub fn is_admin(claims: &Claims) -> (r: bool)
    ensures
        r == (claims.role@ == admin_role()),
{
    proof {
        reveal_strlit("admin");
    }
    let admin = "admin";
    assert(admin@ =~= admin_role());
    same_text(claims.role.as_str(), admin)
}

/// The claims of a session opened at `now_secs` (seconds since the Unix
/// epoch) by the user `user_id` in the role `role`: it expires one day later.
pub fn session_claims(user_id: &RecordId, role: &str, now_secs: i64) -> (r: Claims)
    requires
        now_secs <= i64::MAX - SESSION_SECONDS,
    ensures
        r.sub@ == lower_hex(user_id.bytes@),
        r.role@ == role@,
        r.exp == (now_secs + SESSION_SECONDS) as usize,
{
    let expiry: i64 = now_secs + SESSION_SECONDS;
    Claims { sub: user_id.to_hex(), role: role.to_owned(), exp: expiry as usize }
}

/// The claims of the session that opens with a new account.
pub fn registration_claims(user_id: &RecordId, now_secs: i64) -> (r: Claims)
    requires
        now_secs <= i64::MAX - SESSION_SECONDS,
    ensures
        r.sub@ == lower_hex(user_id.bytes@),
        r.role@ == user_role(),
        r.exp == (now_secs + SESSION_SECONDS) as usize,
{
    proof {
        reveal_strlit("user");
    }
    let role = "user";
    assert(role@ =~= user_role());
    session_claims(user_id, role, now_secs)
}

/// Decides a sign-up: refused where an account with the address exists.
pub fn check_registration(existing_account: bool) -> (r: Result<(), AuthError>)
    ensures
        existing_account <==> r == Err::<(), AuthError>(AuthError::UserExists),
        !existing_account <==> r is Ok,
{
    if existing_account {
        Err(AuthError::UserExists)
    } else {
        Ok(())
    }
}

/// Decides a sign-in, given whether the password matched the stored account:
/// the session claims where it did, else the reason for refusal.
pub fn login_claims(password_matches: bool, user: &User, now_secs: i64) -> (r: Result<
    Claims,
    AuthError,
>)
    requires
        now_secs <= i64::MAX - SESSION_SECONDS,
    ensures
        !password_matches ==> r == Err::<Claims, AuthError>(AuthError::InvalidCredentials),
        password_matches && user.id is None ==> r == Err::<Claims, AuthError>(
            AuthError::MissingUserId,
        ),
        password_matches && user.id is Some ==> r is Ok && r->Ok_0.sub@ == lower_hex(
            user.id->Some_0.bytes@,
        ) && r->Ok_0.role@ == user.role@ && r->Ok_0.exp == (now_secs + SESSION_SECONDS) as usize,
{
    if !password_matches {
        return Err(AuthError::InvalidCredentials);
    }
    match &user.id {
        Some(id) => Ok(session_claims(id, user.role.as_str(), now_secs)),
        None => Err(AuthError::MissingUserId),
    }
}

/// What a client is told of the account `user_id`.
pub fn user_response(user_id: &RecordId, username: &str, email: &str, role: &str) -> (r:
    UserResponse)
    ensures
        r.id@ == lower_hex(user_id.bytes@),
        r.username@ == username@,
        r.email@ == email@,
        r.role@ == role@,
{
    UserResponse {
        id: user_id.to_hex(),
        username: username.to_owned(),
        email: email.to_owned(),
        role: role.to_owned(),
    }
}

} // verus!
