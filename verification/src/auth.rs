//! Sessions of the web pages: who is signed in, with which role, and who may
//! sign in at all.
use vstd::prelude::*;
use vstd::string::*;
use crate::jwt::{read_claims, sign_claims, signed_claims, token_fields};
use crate::text::text_eq;

verus! {

broadcast use vstd::string::group_string_axioms;

/// The claims a session token carries.
pub struct Claims {
    /// Subject: username
    pub sub: String,
    /// Expiry timestamp
    pub exp: usize,
    /// User role (e.g. Admin, Employee)
    pub role: String,
}

/// A user whose session token was accepted.
pub struct AuthenticatedUser {
    pub username: String,
    pub role: String,
    /// The raw token the request carried.
    pub token: String,
}

/// Managed state containing the JWT secret key
pub struct JwtSecret(pub Vec<u8>);

/// Sessions last one day.
pub const SESSION_SECONDS: i64 = 86400;

/// The claims of a session token issued at `now` (Unix seconds): valid for
/// 24 hours. The expiry is the Unix second cast to `usize`.
pub fn token_claims(username: &str, role: &str, now: i64) -> (c: Claims)
    requires
        now <= i64::MAX - SESSION_SECONDS,
    ensures
        c.sub@ == username@,
        c.role@ == role@,
        c.exp == (now + SESSION_SECONDS) as usize,
{
    let expiration = (now + SESSION_SECONDS) as usize;
    Claims { sub: username.to_owned(), exp: expiration, role: role.to_owned() }
}

/// The token of a web-site session: its claims signed in the order `sub`,
/// `exp`, `role`.
pub open spec fn session_token_text(sub: Seq<char>, exp: int, role: Seq<char>, secret: Seq<u8>) -> Seq<
    char,
> {
    signed_claims("sub"@, sub, "exp"@, exp, "role"@, role, secret)
}

/// Generate a JWT token valid for 24 hours using the managed secret key:
/// the claims of `token_claims`, signed with HS256. Signing cannot fail, and
/// the token reads back, with the same secret, as the claims it was made of.
pub fn create_token(username: &str, role: &str, secret: &[u8], now: i64) -> (r: Result<String, String>)
    requires
        now <= i64::MAX - SESSION_SECONDS,
    ensures
        r matches Ok(t) && t@ == session_token_text(
            username@,
            ((now + SESSION_SECONDS) as usize) as int,
            role@,
            secret@,
        ) && token_fields(t@, secret@, "sub"@, "exp"@, "role"@) == Some(
            (username@, ((now + SESSION_SECONDS) as usize) as int, role@),
        ),
{
    let claims = token_claims(username, role, now);
    proof {
        reveal_strlit("sub");
        reveal_strlit("exp");
        reveal_strlit("role");
        reveal_strlit("aud");
        assert("sub"@[0] != "exp"@[0]);
        assert("sub"@[0] != "aud"@[0]);
        assert("role"@[0] != "aud"@[0]);
        assert("sub"@[0] != "role"@[0]);
        assert("exp"@[0] != "role"@[0]);
    }
    let token = sign_claims(
        "sub",
        claims.sub.as_str(),
        "exp",
        claims.exp as u64,
        "role",
        claims.role.as_str(),
        secret,
    );
    Ok(token)
}

/// Decode and validate a JWT token using the managed secret key: the claims
/// it carries, when its form and signature hold and it has not expired. A
/// token that does not carry a `sub` text, an `exp` number that fits a
/// `usize` and a `role` text under this secret is refused whatever the time.
pub fn decode_token(token: &str, secret: &[u8]) -> (r: Option<Claims>)
    ensures
        r matches Some(c) ==> token_fields(token@, secret@, "sub"@, "exp"@, "role"@) == Some(
            (c.sub@, c.exp as int, c.role@),
        ),
        match token_fields(token@, secret@, "sub"@, "exp"@, "role"@) {
            Some(f) => f.1 > usize::MAX ==> r is None,
            None => r is None,
        },
{
    claims_from_read(read_claims(token, secret, "sub", "exp", "role"))
}

/// The claims of a web-site session from what was read of its token: the
/// `sub` text, the `exp` number and the `role` text when the token was
/// accepted and its expiry fits a `usize`; nothing otherwise.
pub fn claims_from_read(read: Option<(String, u64, String)>) -> (r: Option<Claims>)
    ensures
        match read {
            Some(c) => if c.1 <= usize::MAX {
                r matches Some(v) && v.sub == c.0 && v.exp == c.1 && v.role == c.2
            } else {
                r is None
            },
            None => r is None,
        },
{
    let (sub, exp, role) = match read {
        Some(c) => c,
        None => return None,
    };
    if exp > usize::MAX as u64 {
        return None;
    }
    Some(Claims { sub, exp: exp as usize, role })
}

/// A token a request offers, with the claims it decoded to when it was valid.
pub struct OfferedToken {
    pub token: String,
    pub claims: Option<Claims>,
}

/// The user a decoded token stands for.
pub open spec fn user_of(t: OfferedToken, u: AuthenticatedUser) -> bool {
    &&& t.claims matches Some(c)
    &&& u.username == c.sub
    &&& u.role == c.role
    &&& u.token == t.token
}

/// Who a request is: the `Authorization` bearer token when it is valid,
/// else the `session_token` cookie when it is valid, else nobody.
pub fn authenticate(bearer: Option<OfferedToken>, cookie: Option<OfferedToken>) -> (u: Option<
    AuthenticatedUser,
>)
    ensures
        match bearer {
            Some(b) if b.claims is Some => u matches Some(v) && user_of(b, v),
            _ => match cookie {
                Some(c) if c.claims is Some => u matches Some(v) && user_of(c, v),
                _ => u is None,
            },
        },
{
    if let Some(b) = bearer {
        if let Some(claims) = b.claims {
            return Some(AuthenticatedUser { username: claims.sub, role: claims.role, token: b.token });
        }
    }
    if let Some(c) = cookie {
        if let Some(claims) = c.claims {
            return Some(AuthenticatedUser { username: claims.sub, role: claims.role, token: c.token });
        }
    }
    None
}

/// The roles a user account can hold.
#[derive(PartialEq, Eq, Structural, Clone, Copy, Debug)]
pub enum UserRoleKind {
    Admin,
    Security,
    Employee,
}

/// The name of a role, as session tokens and pages spell it.
pub open spec fn role_name(r: UserRoleKind) -> Seq<char> {
    match r {
        UserRoleKind::Admin => "Admin"@,
        UserRoleKind::Security => "Security"@,
        UserRoleKind::Employee => "Employee"@,
    }
}

impl UserRoleKind {
    /// The name of this role.
    pub fn name(&self) -> (s: &'static str)
        ensures
            s@ == role_name(*self),
    {
        match self {
            UserRoleKind::Admin => "Admin",
            UserRoleKind::Security => "Security",
            UserRoleKind::Employee => "Employee",
        }
    }
}

/// An account as the sign-in check reads it.
pub struct StoredUser {
    pub username: String,
    pub password: String,
    pub role: UserRoleKind,
}

/// Why a sign-in or a session check was refused.
#[derive(PartialEq, Eq, Structural, Clone, Copy, Debug)]
pub enum LoginError {
    DatabaseError,
    EmployeeCannotLogIn,
    TokenGenerationFailed,
    InvalidCredentials,
    SessionInvalid,
}

/// The HTTP status of a refused sign-in.
pub open spec fn login_status_of(e: LoginError) -> u16 {
    match e {
        LoginError::DatabaseError => 500,
        LoginError::EmployeeCannotLogIn => 403,
        LoginError::TokenGenerationFailed => 500,
        LoginError::InvalidCredentials => 401,
        LoginError::SessionInvalid => 401,
    }
}

/// The message of a refused sign-in.
pub open spec fn login_message_of(e: LoginError) -> Seq<char> {
    match e {
        LoginError::DatabaseError => "Database error"@,
        LoginError::EmployeeCannotLogIn => "Employee users cannot log in"@,
        LoginError::TokenGenerationFailed => "Token generation failed"@,
        LoginError::InvalidCredentials => "Invalid username or password"@,
        LoginError::SessionInvalid => "Session expired or invalid"@,
    }
}

impl LoginError {
    /// The HTTP status of this refusal.
    pub fn status(&self) -> (s: u16)
        ensures
            s == login_status_of(*self),
    {
        match self {
            LoginError::DatabaseError => 500,
            LoginError::EmployeeCannotLogIn => 403,
            LoginError::TokenGenerationFailed => 500,
            LoginError::InvalidCredentials => 401,
            LoginError::SessionInvalid => 401,
        }
    }

    /// The message of this refusal.
    pub fn message(&self) -> (m: &'static str)
        ensures
            m@ == login_message_of(*self),
    {
        match self {
            LoginError::DatabaseError => "Database error",
            LoginError::EmployeeCannotLogIn => "Employee users cannot log in",
            LoginError::TokenGenerationFailed => "Token generation failed",
            LoginError::InvalidCredentials => "Invalid username or password",
            LoginError::SessionInvalid => "Session expired or invalid",
        }
    }
}

/// Who a session token is issued to: a username and a role name.
pub struct LoginGrant {
    pub username: String,
    pub role: String,
}

/// The outcome of a sign-in with the account found under the given name:
/// employees may not sign in at all; anyone else signs in with the stored
/// password; an unknown name or a wrong password is refused alike.
pub open spec fn login_outcome_ok(user: Option<StoredUser>, password: Seq<char>, g: LoginGrant) -> bool {
    &&& user matches Some(u)
    &&& u.role != UserRoleKind::Employee
    &&& u.password@ == password
    &&& g.username == u.username
    &&& g.role@ == role_name(u.role)
}

/// Checks a sign-in against the account stored under the submitted name.
pub fn check_login(user: Option<StoredUser>, password: &str) -> (r: Result<LoginGrant, LoginError>)
    ensures
        match r {
            Ok(g) => login_outcome_ok(user, password@, g),
            Err(e) => match user {
                Some(u) => if u.role == UserRoleKind::Employee {
                    e == LoginError::EmployeeCannotLogIn
                } else {
                    u.password@ != password@ && e == LoginError::InvalidCredentials
                },
                None => e == LoginError::InvalidCredentials,
            },
        },
{
    match user {
        Some(u) => {
            if u.role == UserRoleKind::Employee {
                return Err(LoginError::EmployeeCannotLogIn);
            }
            if text_eq(u.password.as_str(), password) {
                let role = String::from_str(u.role.name());
                Ok(LoginGrant { username: u.username, role })
            } else {
                Err(LoginError::InvalidCredentials)
            }
        },
        None => Err(LoginError::InvalidCredentials),
    }
}

/// An administrator account about to be created by the set-up command of
/// the web site; its password is stored as given.
pub struct NewSuperuser {
    pub username: String,
    pub password: String,
    pub email: String,
    pub full_name: String,
    pub role: UserRoleKind,
}

/// The refusal of a set-up whose username is taken.
pub open spec fn username_taken_text(username: Seq<char>) -> Seq<char> {
    "User with username '"@ + username + "' already exists"@
}

/// The administrator account the set-up creates, unless the username is
/// already taken.
pub fn superuser_account(
    username_taken: bool,
    username: String,
    password: String,
    email: String,
    full_name: String,
) -> (r: Result<NewSuperuser, String>)
    ensures
        username_taken ==> (r matches Err(e) && e@ == username_taken_text(username@)),
        !username_taken ==> (r matches Ok(a) && a.username == username && a.password == password
            && a.email == email && a.full_name == full_name && a.role == UserRoleKind::Admin),
{
    if username_taken {
        let mut msg = String::from_str("User with username '");
        msg.append(username.as_str());
        msg.append("' already exists");
        return Err(msg);
    }
    Ok(NewSuperuser { username, password, email, full_name, role: UserRoleKind::Admin })
}

/// What the session check answers a signed-in user with.
pub struct UserResponse {
    pub token: String,
    pub username: String,
    pub role: String,
}

/// The body of a refused request.
pub struct ErrorResponse {
    pub error: String,
}

/// The credentials of an API sign-in.
pub struct ApiLoginRequest {
    pub username: String,
    pub password: String,
}

/// The credentials of the sign-in form.
pub struct LoginForm {
    pub username: String,
    pub password: String,
}

/// The sign-in page: an error to show, and the name already typed.
pub struct LoginTemplate {
    pub error: Option<String>,
    pub username: Option<String>,
}

/// The sign-in page shown when a form sign-in is refused: the refusal's
/// message, and the name that was typed.
pub fn login_page_after(error: LoginError, username: &str) -> (t: LoginTemplate)
    ensures
        t.error matches Some(e) && e@ == login_message_of(error),
        t.username matches Some(n) && n@ == username@,
{
    LoginTemplate {
        error: Some(String::from_str(error.message())),
        username: Some(username.to_owned()),
    }
}

/// The sign-in page as first shown, with an optional error to show.
pub fn login(error: Option<String>) -> (t: LoginTemplate)
    ensures
        t.error == error,
        t.username is None,
{
    LoginTemplate { error, username: None }
}

/// The session check: a signed-in user other than an employee gets back
/// their token, name and role.
pub fn verify(user: Option<AuthenticatedUser>) -> (r: Result<UserResponse, LoginError>)
    ensures
        match user {
            Some(u) => if u.role@ == "Employee"@ {
                r == Err::<UserResponse, LoginError>(LoginError::EmployeeCannotLogIn)
            } else {
                r matches Ok(v) && v.token == u.token && v.username == u.username && v.role
                    == u.role
            },
            None => r == Err::<UserResponse, LoginError>(LoginError::SessionInvalid),
        },
{
    match user {
        Some(u) => {
            if text_eq(u.role.as_str(), "Employee") {
                return Err(LoginError::EmployeeCannotLogIn);
            }
            Ok(UserResponse { token: u.token, username: u.username, role: u.role })
        },
        None => Err(LoginError::SessionInvalid),
    }
}


/// Employees never sign in, and whoever does sign in holds a role that the
/// session check accepts: a granted role is never `Employee`.
pub proof fn law_signed_in_users_pass_session_check(
    user: Option<StoredUser>,
    password: Seq<char>,
    g: LoginGrant,
)
    ensures
        (user matches Some(u) && u.role == UserRoleKind::Employee) ==> !login_outcome_ok(
            user,
            password,
            g,
        ),
        login_outcome_ok(user, password, g) ==> g.role@ != "Employee"@,
{
    reveal_strlit("Admin");
    reveal_strlit("Security");
    reveal_strlit("Employee");
    if login_outcome_ok(user, password, g) {
        let u = user->0;
        if u.role == UserRoleKind::Admin {
            assert(role_name(u.role).len() != "Employee"@.len());
        } else {
            assert(role_name(u.role)[0] != "Employee"@[0]);
        }
    }
}

} // verus!
