//! Credentials carried by requests, and password checks.
use vstd::prelude::*;
use vstd::string::*;
use crate::error::AppError;
use crate::jwt::{read_claims, sign_claims, signed_claims, token_fields};
use crate::text::{
    chars_of, has_prefix, is_whitespace, range_has_prefix, trim, trim_bounds, trim_end, trim_start,
};

verus! {

broadcast use vstd::string::group_string_axioms;

/// The view of an optional text.
pub open spec fn opt_text(o: Option<&str>) -> Option<Seq<char>> {
    match o {
        Some(s) => Some(s@),
        None => None,
    }
}

/// The view of an optional owned text.
pub open spec fn opt_string(o: Option<String>) -> Option<Seq<char>> {
    match o {
        Some(s) => Some(s@),
        None => None,
    }
}

/// The token of an `Authorization` header: what follows the `Bearer ` scheme.
pub open spec fn bearer_credential(header: Seq<char>) -> Option<Seq<char>> {
    if has_prefix(header, "Bearer "@) {
        Some(header.subrange("Bearer "@.len() as int, header.len() as int))
    } else {
        None
    }
}

/// The number of characters before the first `;` (all of them when there is none).
pub open spec fn sep_index(s: Seq<char>) -> nat
    decreases s.len(),
{
    if s.len() == 0 || s[0] == ';' {
        0
    } else {
        1 + sep_index(s.drop_first())
    }
}

/// `sep_index` never passes the end of the text.
pub proof fn lemma_sep_index_bound(s: Seq<char>)
    ensures
        sep_index(s) <= s.len(),
    decreases s.len(),
{
    if s.len() > 0 && s[0] != ';' {
        lemma_sep_index_bound(s.drop_first());
    }
}

/// `sep_index` is the position of the first `;`.
pub proof fn lemma_sep_index_at(s: Seq<char>, j: int)
    requires
        0 <= j <= s.len(),
        forall|k: int| 0 <= k < j ==> s[k] != ';',
        j == s.len() || s[j] == ';',
    ensures
        sep_index(s) == j,
    decreases j,
{
    if j > 0 {
        lemma_sep_index_at(s.drop_first(), j - 1);
    }
}

/// The value of the first `auth_token` cookie in a `Cookie` header: the header
/// is cut at each `;`, each piece is trimmed, and the first piece that begins
/// with `auth_token=` gives what follows that name.
pub open spec fn cookie_credential(s: Seq<char>) -> Option<Seq<char>>
    decreases s.len(),
{
    let j = sep_index(s) as int;
    let piece = trim(s.subrange(0, j));
    if has_prefix(piece, "auth_token="@) {
        Some(piece.subrange("auth_token="@.len() as int, piece.len() as int))
    } else if j < s.len() {
        proof {
            lemma_sep_index_bound(s);
        }
        cookie_credential(s.subrange(j + 1, s.len() as int))
    } else {
        None
    }
}

/// The token a request carries: the bearer token of its `Authorization`
/// header when it has one, else the `auth_token` cookie.
pub open spec fn token_from_headers(
    authorization: Option<Seq<char>>,
    cookie: Option<Seq<char>>,
) -> Option<Seq<char>> {
    let bearer = match authorization {
        Some(h) => bearer_credential(h),
        None => None,
    };
    match bearer {
        Some(t) => Some(t),
        None => match cookie {
            Some(c) => cookie_credential(c),
            None => None,
        },
    }
}

/// The bearer token of an `Authorization` header value.
pub fn bearer_token(header: &str) -> (token: Option<String>)
    ensures
        opt_string(token) == bearer_credential(header@),
{
    let v = chars_of(header);
    let prefix = chars_of("Bearer ");
    proof {
        reveal_strlit("Bearer ");
    }
    if range_has_prefix(&v, 0, v.len(), &prefix) {
        assert(v@.subrange(0, v@.len() as int) =~= v@);
        let rest = header.substring_char(prefix.len(), v.len());
        Some(rest.to_owned())
    } else {
        assert(v@.subrange(0, v@.len() as int) =~= v@);
        None
    }
}

/// The value of the first `auth_token` cookie of a `Cookie` header value.
pub fn cookie_token(header: &str) -> (token: Option<String>)
    ensures
        opt_string(token) == cookie_credential(header@),
{
    let v = chars_of(header);
    let n = v.len();
    let name = chars_of("auth_token=");
    proof {
        reveal_strlit("auth_token=");
    }
    let mut start: usize = 0;
    assert(v@.subrange(0, n as int) =~= v@);
    loop
        invariant
            start <= n,
            n == v.len(),
            v@ == header@,
            name@ == "auth_token="@,
            cookie_credential(v@) == cookie_credential(v@.subrange(start as int, n as int)),
        decreases n - start,
    {
        let mut j = start;
        while j < n && v[j] != ';'
            invariant
                start <= j <= n,
                n == v.len(),
                forall|k: int| start <= k < j ==> v@[k] != ';',
            decreases n - j,
        {
            j = j + 1;
        }
        let ghost s = v@.subrange(start as int, n as int);
        proof {
            lemma_sep_index_at(s, j - start);
            assert(s.subrange(0, j - start) =~= v@.subrange(start as int, j as int));
        }
        let (lo, hi) = trim_bounds(&v, start, j);
        if range_has_prefix(&v, lo, hi, &name) {
            let t = header.substring_char(lo + name.len(), hi);
            assert(t@ =~= v@.subrange(lo as int, hi as int).subrange(
                "auth_token="@.len() as int,
                (hi - lo) as int,
            ));
            return Some(t.to_owned());
        }
        if j == n {
            return None;
        }
        assert(s.subrange(j - start + 1, s.len() as int) =~= v@.subrange(j + 1, n as int));
        start = j + 1;
    }
}

/// The token a request carries, read from its `Authorization` and `Cookie`
/// header values: a `Bearer` token first, else the `auth_token` cookie.
pub fn extract_token(authorization: Option<&str>, cookie: Option<&str>) -> (token: Option<String>)
    ensures
        opt_string(token) == token_from_headers(opt_text(authorization), opt_text(cookie)),
{
    let bearer = match authorization {
        Some(h) => bearer_token(h),
        None => None,
    };
    match bearer {
        Some(t) => Some(t),
        None => match cookie {
            Some(c) => cookie_token(c),
            None => None,
        },
    }
}

/// What `argon2` answers when a password is checked against a stored
/// password hash string: whether the hash parses and the password matches it.
pub uninterp spec fn argon2_verifies(password: Seq<char>, stored_hash: Seq<char>) -> bool;

/// Verify if the password is the same with the stored hash. Returns true if
/// match, false otherwise (a stored hash that does not parse never matches).
/// Calls `argon2::PasswordHash::new` and `Argon2::default().verify_password`;
/// claimed: the answer is a function of the password and the stored hash,
/// and a stored hash that does not begin with `$` is refused, since a PHC
/// string starts with its separator. That a different password is refused
/// holds only barring a hash collision, and is left unsaid.
#[verifier::external_body]
pub fn verify_password(password: &str, stored_hash: &str) -> (matched: bool)
    ensures
        matched == argon2_verifies(password@, stored_hash@),
        !has_prefix(stored_hash@, "$"@) ==> !matched,
{
    let parsed_hash = match argon2::PasswordHash::new(stored_hash) {
        Ok(hash) => hash,
        Err(_) => return false,
    };
    argon2::PasswordVerifier::verify_password(
        &argon2::Argon2::default(),
        password.as_bytes(),
        &parsed_hash,
    ).is_ok()
}

/// The error type of the `password-hash` crate that `argon2` re-exports.
#[verifier::external_type_specification]
#[verifier::external_body]
pub struct ExPasswordHashError(argon2::password_hash::Error);

/// Hash password using Argon2 algorithm, with a fresh random salt from the
/// operating system (`SaltString::generate(&mut OsRng)`, then
/// `Argon2::default().hash_password`, as a PHC string). Claimed: a hash that
/// is returned is a PHC string (it begins with `$`) and verifies the password
/// it was made from; hashing refuses only a password longer than
/// `0xFFFFFFFF` bytes (the drawn 16-byte salt and the default 32-byte output
/// pass every other check), so a password of at most `0x3FFF_FFFF`
/// characters, four bytes each at most, is hashed. The hash itself depends on
/// the salt drawn, so nothing more is stated of it.
#[verifier::external_body]
pub fn hash_password(password: &str) -> (r: Result<String, argon2::password_hash::Error>)
    ensures
        password@.len() <= 0x3FFF_FFFF ==> r is Ok,
        r matches Ok(h) ==> argon2_verifies(password@, h@) && has_prefix(h@, "$"@),
{
    let salt = argon2::password_hash::SaltString::generate(
        &mut argon2::password_hash::rand_core::OsRng,
    );
    let hashed = argon2::PasswordHasher::hash_password(
        &argon2::Argon2::default(),
        password.as_bytes(),
        &salt,
    )?;
    Ok(hashed.to_string())
}

/// A user account about to be created: its password only as a hash.
pub struct NewAccount {
    pub username: String,
    pub email: String,
    pub password_hash: String,
    pub full_name: String,
    pub user_role_id: i32,
}

/// The account the administrator set-up creates: the given details, with
/// the password replaced by an argon2 hash that verifies it; when hashing
/// fails (only for a password beyond `0x3FFF_FFFF` characters), the set-up
/// stops with `Failed to hash password`.
pub fn admin_account(
    username: String,
    password: &str,
    email: String,
    full_name: String,
    role_id: i32,
) -> (r: Result<NewAccount, String>)
    ensures
        match r {
            Ok(a) => a.username == username && a.email == email && a.full_name == full_name
                && a.user_role_id == role_id && argon2_verifies(password@, a.password_hash@),
            Err(e) => e@ == "Failed to hash password"@,
        },
        password@.len() <= 0x3FFF_FFFF ==> r is Ok,
{
    match hash_password(password) {
        Ok(h) => Ok(
            NewAccount { username, email, password_hash: h, full_name, user_role_id: role_id },
        ),
        Err(_) => Err(String::from_str("Failed to hash password")),
    }
}

/// The claims of an API session token.
pub struct SessionClaims {
    pub username: String,
    pub role_name: String,
    pub exp: usize,
}

/// An account as the API sign-in reads it: its password hash and role.
pub struct UserAuth {
    pub username: String,
    pub password: String,
    pub user_role_id: i32,
    pub user_role_name: String,
}

/// The credentials of an API sign-in.
pub struct LoginRequest {
    pub username: String,
    pub password: String,
}

/// API sessions last one hour.
pub const API_SESSION_SECONDS: i64 = 3600;

/// The claims to sign for an API sign-in, given the account found under the
/// submitted name and the current Unix second: an unknown name or a password
/// that does not match the stored hash are refused alike.
pub fn login_claims(user: Option<UserAuth>, request: LoginRequest, now: i64) -> (r: Result<
    SessionClaims,
    AppError,
>)
    requires
        now <= i64::MAX - API_SESSION_SECONDS,
    ensures
        match user {
            Some(u) => if argon2_verifies(request.password@, u.password@) {
                r matches Ok(c) && c.username == request.username && c.role_name
                    == u.user_role_name && c.exp == (now + API_SESSION_SECONDS) as usize
            } else {
                r matches Err(AppError::WrongCredentials)
            },
            None => r matches Err(AppError::WrongCredentials),
        },
{
    let user = match user {
        Some(u) => u,
        None => return Err(AppError::WrongCredentials),
    };
    if !verify_password(request.password.as_str(), user.password.as_str()) {
        return Err(AppError::WrongCredentials);
    }
    let expiration = (now + API_SESSION_SECONDS) as usize;
    Ok(SessionClaims { username: request.username, role_name: user.user_role_name, exp: expiration })
}

/// The token of an API session: its claims signed in the order `username`,
/// `exp`, `role_name`.
pub open spec fn api_token_text(c: SessionClaims, secret: Seq<u8>) -> Seq<char> {
    signed_claims("username"@, c.username@, "exp"@, c.exp as int, "role_name"@, c.role_name@, secret)
}

/// Crate JWT token by encoding claims with the secret key (HS256). Signing
/// cannot fail, and the token reads back, with the same secret, as the
/// claims it was made of.
pub fn encode_jwt(claims: SessionClaims, secret: &str) -> (r: Result<String, AppError>)
    ensures
        r matches Ok(t) && t@ == api_token_text(claims, secret.spec_bytes()) && token_fields(
            t@,
            secret.spec_bytes(),
            "username"@,
            "exp"@,
            "role_name"@,
        ) == Some((claims.username@, claims.exp as int, claims.role_name@)),
{
    proof {
        reveal_strlit("username");
        reveal_strlit("exp");
        reveal_strlit("role_name");
        reveal_strlit("aud");
        assert("username"@[0] != "exp"@[0]);
        assert("username"@[0] != "aud"@[0]);
        assert("role_name"@[0] != "aud"@[0]);
        assert("username"@[0] != "role_name"@[0]);
        assert("exp"@[0] != "role_name"@[0]);
    }
    let token = sign_claims(
        "username",
        claims.username.as_str(),
        "exp",
        claims.exp as u64,
        "role_name",
        claims.role_name.as_str(),
        secret.as_bytes(),
    );
    Ok(token)
}

/// Decode JWT token back into claim: every refusal is `InvalidToken`. A
/// token that does not carry, under this secret, a `username` text, an
/// `exp` number that fits a `usize` and a `role_name` text is refused
/// whatever the time; whether an accepted token has expired depends on the
/// clock.
pub fn decode_jwt(token: &str, secret: &str) -> (r: Result<SessionClaims, AppError>)
    ensures
        r matches Ok(c) ==> token_fields(
            token@,
            secret.spec_bytes(),
            "username"@,
            "exp"@,
            "role_name"@,
        ) == Some((c.username@, c.exp as int, c.role_name@)),
        r matches Err(e) ==> e is InvalidToken,
        match token_fields(token@, secret.spec_bytes(), "username"@, "exp"@, "role_name"@) {
            Some(f) => f.1 > usize::MAX ==> r is Err,
            None => r is Err,
        },
{
    session_claims_from_read(read_claims(token, secret.as_bytes(), "username", "exp", "role_name"))
}

/// The claims of an API session from what was read of its token: the
/// `username` text, the `exp` number and the `role_name` text when the token
/// was accepted and its expiry fits a `usize`; `InvalidToken` otherwise.
pub fn session_claims_from_read(read: Option<(String, u64, String)>) -> (r: Result<
    SessionClaims,
    AppError,
>)
    ensures
        match read {
            Some(c) => if c.1 <= usize::MAX {
                r matches Ok(s) && s.username == c.0 && s.exp == c.1 && s.role_name == c.2
            } else {
                r matches Err(AppError::InvalidToken)
            },
            None => r matches Err(AppError::InvalidToken),
        },
{
    let (username, exp, role_name) = match read {
        Some(c) => c,
        None => return Err(AppError::InvalidToken),
    };
    if exp > usize::MAX as u64 {
        return Err(AppError::InvalidToken);
    }
    Ok(SessionClaims { username, role_name, exp: exp as usize })
}

/// The token an API sign-in answers with: the claims of `login_claims`,
/// signed with the configured secret.
pub fn login_token(user: Option<UserAuth>, request: LoginRequest, now: i64, secret: &str) -> (r:
    Result<String, AppError>)
    requires
        now <= i64::MAX - API_SESSION_SECONDS,
    ensures
        match user {
            Some(u) => if argon2_verifies(request.password@, u.password@) {
                r matches Ok(t) && t@ == api_token_text(
                    SessionClaims {
                        username: request.username,
                        role_name: u.user_role_name,
                        exp: (now + API_SESSION_SECONDS) as usize,
                    },
                    secret.spec_bytes(),
                ) && token_fields(
                    t@,
                    secret.spec_bytes(),
                    "username"@,
                    "exp"@,
                    "role_name"@,
                ) == Some(
                    (request.username@, ((now + API_SESSION_SECONDS) as usize) as int, u.user_role_name@),
                )
            } else {
                r matches Err(AppError::WrongCredentials)
            },
            None => r matches Err(AppError::WrongCredentials),
        },
{
    let claims = login_claims(user, request, now)?;
    encode_jwt(claims, secret)
}

/// The token of a request to a protected route, or `InvalidToken` when it
/// carries none.
pub fn request_token(authorization: Option<&str>, cookie: Option<&str>) -> (r: Result<
    String,
    AppError,
>)
    ensures
        match token_from_headers(opt_text(authorization), opt_text(cookie)) {
            Some(t) => r matches Ok(s) && s@ == t,
            None => r matches Err(AppError::InvalidToken),
        },
{
    match extract_token(authorization, cookie) {
        Some(t) => Ok(t),
        None => Err(AppError::InvalidToken),
    }
}


/// A bearer token sent in the `Authorization` header is the token the
/// request carries, whatever its cookies hold.
pub proof fn law_bearer_token_read_back(token: Seq<char>, cookie: Option<Seq<char>>)
    ensures
        bearer_credential("Bearer "@ + token) == Some(token),
        token_from_headers(Some("Bearer "@ + token), cookie) == Some(token),
{
    let h = "Bearer "@ + token;
    assert(h.subrange(0, "Bearer "@.len() as int) =~= "Bearer "@);
    assert(h.subrange("Bearer "@.len() as int, h.len() as int) =~= token);
}

/// A lone `auth_token` cookie gives back its value, when the value holds
/// no `;` and does not end in whitespace.
pub proof fn law_cookie_token_read_back(token: Seq<char>)
    requires
        forall|i: int| 0 <= i < token.len() ==> token[i] != ';',
        token.len() > 0 ==> !is_whitespace(token.last()),
    ensures
        cookie_credential("auth_token="@ + token) == Some(token),
{
    reveal_strlit("auth_token=");
    let s = "auth_token="@ + token;
    assert forall|k: int| 0 <= k < s.len() implies s[k] != ';' by {
        if k >= 11 {
            assert(s[k] == token[k - 11]);
        }
    }
    lemma_sep_index_at(s, s.len() as int);
    assert(s.subrange(0, s.len() as int) =~= s);
    assert(!is_whitespace(s[0]));
    assert(trim_start(s) == s);
    assert(!is_whitespace(s.last())) by {
        if token.len() > 0 {
            assert(s.last() == token.last());
        } else {
            assert(s.last() == '=');
        }
    }
    assert(trim_end(s) == s);
    assert(s.subrange(0, 11) =~= "auth_token="@);
    assert(s.subrange(11, s.len() as int) =~= token);
}

} // verus!
