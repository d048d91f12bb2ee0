//! Signed session tokens: `jsonwebtoken` signs and checks them with HS256,
//! over a payload of two texts and one number under given keys.
use vstd::prelude::*;

verus! {

/// The token `jsonwebtoken::encode` gives, with the default header (HS256)
/// and the secret as key, for the JSON object whose members are, in this
/// order, the text `v1` under `k1`, the number `n` under `kn`, and the text
/// `v2` under `k2`.
pub uninterp spec fn signed_claims(
    k1: Seq<char>,
    v1: Seq<char>,
    kn: Seq<char>,
    n: int,
    k2: Seq<char>,
    v2: Seq<char>,
    secret: Seq<u8>,
) -> Seq<char>;

/// What a token carries under the keys `k1`, `kn`, `k2` (a text, an
/// unsigned number, a text) when `jsonwebtoken::decode` with the default
/// validation accepts its form, its HS256 signature under the secret and its
/// claims other than the expiry time (no `aud` member, an `exp` number),
/// whatever the clock says; `None` when it does not, or when those members
/// are missing or of other types. A repeated member counts with its last
/// value.
pub uninterp spec fn token_fields(
    token: Seq<char>,
    secret: Seq<u8>,
    k1: Seq<char>,
    kn: Seq<char>,
    k2: Seq<char>,
) -> Option<(Seq<char>, int, Seq<char>)>;

/// Signs a payload with `jsonwebtoken::encode`: the payload is a
/// `serde_json` object (which keeps its members in the order inserted),
/// the header the default one (HS256), the key the secret. Encoding with an
/// HMAC key under an HMAC algorithm does not fail, so the token is always
/// given. Claimed: the token is a function of its inputs, and when the keys
/// differ, the number sits under `exp` (the one claim the default
/// validation requires) and no text sits under `aud` (an audience, which the
/// default validation refuses since none is expected), reading it back with
/// the same secret gives the same members.
#[verifier::external_body]
pub(crate) fn sign_claims(
    k1: &str,
    v1: &str,
    kn: &str,
    n: u64,
    k2: &str,
    v2: &str,
    secret: &[u8],
) -> (t: String)
    ensures
        t@ == signed_claims(k1@, v1@, kn@, n as int, k2@, v2@, secret@),
        (k1@ != kn@ && k1@ != k2@ && kn@ != k2@ && kn@ == "exp"@ && k1@ != "aud"@ && k2@
            != "aud"@) ==> token_fields(
            t@,
            secret@,
            k1@,
            kn@,
            k2@,
        ) == Some((v1@, n as int, v2@)),
{
    let mut claims = serde_json::Map::new();
    claims.insert(k1.to_string(), serde_json::Value::from(v1));
    claims.insert(kn.to_string(), serde_json::Value::from(n));
    claims.insert(k2.to_string(), serde_json::Value::from(v2));
    let key = jsonwebtoken::EncodingKey::from_secret(secret);
    match jsonwebtoken::encode(&jsonwebtoken::Header::default(), &serde_json::Value::Object(claims), &key) {
        Ok(t) => t,
        Err(_) => String::new(),
    }
}

/// Reads a token with `jsonwebtoken::decode` and the default validation
/// (HS256, the `exp` claim required and not past, sixty seconds of leeway),
/// then takes the text under `k1`, the unsigned number under `kn` and the
/// text under `k2`. Claimed: what is read is what the token carries; a
/// token whose form, signature or members do not hold is refused whatever
/// the time. Whether an accepted form is refused for its expiry depends on
/// the clock and is left unsaid. The payload is read as a JSON value, in
/// which a repeated member keeps its last value.
#[verifier::external_body]
pub(crate) fn read_claims(token: &str, secret: &[u8], k1: &str, kn: &str, k2: &str) -> (r: Option<
    (String, u64, String),
>)
    ensures
        r matches Some(c) ==> token_fields(token@, secret@, k1@, kn@, k2@) == Some(
            (c.0@, c.1 as int, c.2@),
        ),
        token_fields(token@, secret@, k1@, kn@, k2@) is None ==> r is None,
{
    let key = jsonwebtoken::DecodingKey::from_secret(secret);
    let data = jsonwebtoken::decode::<serde_json::Value>(token, &key, &jsonwebtoken::Validation::default()).ok()?;
    let a = data.claims.get(k1)?.as_str()?.to_string();
    let n = data.claims.get(kn)?.as_u64()?;
    let b = data.claims.get(k2)?.as_str()?.to_string();
    Some((a, n, b))
}

} // verus!
