//! Passwords and login tokens: Argon2 password hashes and the claims that a
//! login token carries.
use argon2::password_hash::rand_core::OsRng;
use argon2::password_hash::{PasswordHasher, SaltString};
use argon2::{Argon2, PasswordHash, PasswordVerifier};
use jsonwebtoken::{decode, encode, DecodingKey, EncodingKey, Header, Validation};
use vstd::prelude::*;

verus! {

/// Whether `PasswordHash::new` accepts `hash` as a PHC string.
pub uninterp spec fn phc_parses(hash: Seq<char>) -> bool;

/// Whether `Argon2::default().verify_password` accepts `password` against the
/// parsed PHC string `hash`.
pub uninterp spec fn password_matches(password: Seq<char>, hash: Seq<char>) -> bool;

/// The start of every PHC string that `Argon2::default()` writes: the
/// algorithm Argon2id, version 19 and the default parameters
/// (`m_cost` 19456 KiB, `t_cost` 2, `p_cost` 1).
pub open spec fn argon2_default_prefix() -> Seq<char> {
    "$argon2id$v=19$m=19456,t=2,p=1$"@
}

/// A character of the unpadded Base64 alphabet of PHC strings.
pub open spec fn is_b64_char(c: char) -> bool {
    ||| ('A' <= c && c <= 'Z')
    ||| ('a' <= c && c <= 'z')
    ||| ('0' <= c && c <= '9')
    ||| c == '+'
    ||| c == '/'
}

/// `h` has the shape of a PHC string of `Argon2::default()` with a 16-byte
/// salt: the default prefix, 22 Base64 characters of salt, `$`, and 43 Base64
/// characters of the 32-byte hash.
pub open spec fn is_default_argon2_phc(h: Seq<char>) -> bool {
    &&& h.len() == 97
    &&& h.subrange(0, 31) == argon2_default_prefix()
    &&& h[53] == '$'
    &&& forall|i: int| 31 <= i < 53 ==> is_b64_char(#[trigger] h[i])
    &&& forall|i: int| 54 <= i < 97 ==> is_b64_char(#[trigger] h[i])
}

/// Largest password, in UTF-8 bytes, that Argon2 hashes (`argon2::MAX_PWD_LEN`).
pub open spec fn max_password_bytes() -> nat {
    0xFFFF_FFFF
}

/// Calls `argon2::PasswordHash::new` and reports whether it parsed; the result
/// is the name `phc_parses` of the string.
#[verifier::external_body]
fn phc_well_formed(hash: &str) -> (r: bool)
    ensures
        r == phc_parses(hash@),
{
    PasswordHash::new(hash).is_ok()
}

/// Parses `hash` with `argon2::PasswordHash::new` and checks `password`
/// against it with `PasswordVerifier::verify_password` of `Argon2::default()`.
/// The result is the name `password_matches`. The parse cannot fail, since
/// `phc_parses` is required.
#[verifier::external_body]
fn argon2_verify(password: &str, hash: &str) -> (r: bool)
    requires
        phc_parses(hash@),
    ensures
        r == password_matches(password@, hash@),
{
    Argon2::default().verify_password(password.as_bytes(), &PasswordHash::new(hash).unwrap()).is_ok()
}

/// Draws a salt with `SaltString::generate(&mut OsRng)` and hashes `password`
/// with `Argon2::default().hash_password`, rendering the PHC string.
/// The salt is random, so the string is not named; what holds of
/// every outcome is stated: the string parses again, and verifying the same
/// password against it with the default Argon2 succeeds (verification
/// recomputes the hash from the algorithm, version, parameters and salt that
/// the string records). Its shape is that of every PHC string of the default
/// hasher: `SaltString::generate` encodes 16 random bytes as 22 Base64
/// characters, the default output is 32 bytes (43 characters), and the
/// parameter string lists `m`, `t` and `p`. Hashing fails only on a password
/// over `argon2::MAX_PWD_LEN` bytes, which `requires` leaves out.
#[verifier::external_body]
fn argon2_hash(password: &str) -> (r: String)
    requires
        vstd::utf8::encode_utf8(password@).len() <= max_password_bytes(),
    ensures
        phc_parses(r@),
        password_matches(password@, r@),
        is_default_argon2_phc(r@),
{
    let salt = SaltString::generate(&mut OsRng);
    Argon2::default().hash_password(password.as_bytes(), &salt).unwrap().to_string()
}

/// Hashes a password with Argon2 and a fresh random salt, giving a PHC string.
pub fn hash_password(passwd: &str) -> (hash: String)
    requires
        vstd::utf8::encode_utf8(passwd@).len() <= max_password_bytes(),
    ensures
        phc_parses(hash@),
        password_matches(passwd@, hash@),
        is_default_argon2_phc(hash@),
{
    argon2_hash(passwd)
}

/// Checks a password against a stored PHC string. The stored string must be
/// well formed.
pub fn verify_password(passwd: &str, hash: &str) -> (ok: bool)
    requires
        phc_parses(hash@),
    ensures
        ok == password_matches(passwd@, hash@),
{
    argon2_verify(passwd, hash)
}

/// Whether a stored string is a PHC string that a password can be checked
/// against.
pub fn is_phc_string(hash: &str) -> (r: bool)
    ensures
        r == phc_parses(hash@),
{
    phc_well_formed(hash)
}

/// Checks a password against a stored string that may not be a PHC string:
/// `None` when it is not one, else whether the password matches.
pub fn check_password(passwd: &str, hash: &str) -> (r: Option<bool>)
    ensures
        r is None <==> !phc_parses(hash@),
        r matches Some(ok) ==> ok == password_matches(passwd@, hash@),
{
    if is_phc_string(hash) {
        Some(verify_password(passwd, hash))
    } else {
        None
    }
}

/// The claims that a login token carries: whose token it is and when it
/// expires, in seconds since the Unix epoch.
#[derive(Clone, Copy, Debug, PartialEq, Eq, Structural)]
pub struct Claims {
    pub user_id: u128,
    pub exp: usize,
}

/// How long a login token stays valid, in seconds.
pub open spec fn token_lifetime() -> int {
    7200
}

/// A range that holds every `OffsetDateTime::unix_timestamp` of the `time`
/// crate: its years lie within -9999..=9999, or -999_999..=999_999 with the
/// `large-dates` feature, and both fit well inside ±10^14 seconds.
pub open spec fn clock_range(t: i64) -> bool {
    -100_000_000_000_000 <= t <= 100_000_000_000_000
}

/// The expiry of a token issued at `now`, converted to `usize` as the claims
/// store it.
pub open spec fn expiry_at(now: i64) -> usize {
    (now + token_lifetime()) as usize
}

/// `exp` is the expiry of a token issued at some time the clock can show.
pub open spec fn is_token_expiry(exp: usize) -> bool {
    exists|now: i64| clock_range(now) && #[trigger] expiry_at(now) == exp
}

/// Reads the clock with `time::OffsetDateTime::now_utc().unix_timestamp()`.
/// The time is not named; what holds of every outcome is that it lies in the
/// range of dates that the `time` crate represents.
#[verifier::external_body]
fn unix_now() -> (t: i64)
    ensures
        clock_range(t),
{
    time::OffsetDateTime::now_utc().unix_timestamp()
}

/// The claims of a token for `user_id` issued at Unix time `now`.
pub fn claims_at(user_id: u128, now: i64) -> (c: Claims)
    requires
        now + token_lifetime() <= i64::MAX,
    ensures
        c.user_id == user_id,
        c.exp == expiry_at(now),
{
    Claims { user_id, exp: (now + 7200) as usize }
}

/// A password checks out against the hash that `hash_password` made of it.
pub proof fn password_verifies_against_its_own_hash(password: Seq<char>, hash: Seq<char>, ok: bool)
    requires
        phc_parses(hash),
        password_matches(password, hash),
        ok == password_matches(password, hash),
    ensures
        ok,
{
}

/// The token that `jsonwebtoken::encode` gives for the claims
/// `{"user_id": <the id as a hyphenated UUID>, "exp": exp}` under the default
/// header (HS256) and `EncodingKey::from_secret` of the secret's bytes.
pub uninterp spec fn jwt_hs256(user_id: u128, exp: usize, secret: Seq<char>) -> Seq<char>;

/// What `jsonwebtoken::decode` with `Validation::default()`, its expiry check
/// switched off, and `DecodingKey::from_secret` of the secret's bytes accepts
/// of `token`: the header must name HS256, the signature
/// must match, `exp` must be present; the result is the `user_id` (a UUID)
/// and `exp` of the claims, or `None`.
pub uninterp spec fn jwt_claims(token: Seq<char>, secret: Seq<char>) -> Option<(u128, usize)>;

/// Signs the claims with `jsonwebtoken::encode` (default header HS256, key
/// `EncodingKey::from_secret`), writing `user_id` as a hyphenated UUID. The
/// token is the name `jwt_hs256`. Encoding cannot fail: the key and the
/// header are both of the HMAC family. What holds of decoding it
/// again with the same secret is stated too: the header, signature and `exp`
/// are accepted and the claims come back.
#[verifier::external_body]
fn jwt_encode(claims: Claims, secret: &str) -> (t: String)
    ensures
        t@ == jwt_hs256(claims.user_id, claims.exp, secret@),
        jwt_claims(t@, secret@) == Some((claims.user_id, claims.exp)),
{
    let mut object = serde_json::Map::new();
    let id = uuid::Uuid::from_u128(claims.user_id).to_string();
    object.insert("user_id".to_string(), serde_json::Value::String(id));
    object.insert("exp".to_string(), serde_json::Value::from(claims.exp));
    let key = EncodingKey::from_secret(secret.as_bytes());
    encode(&Header::default(), &serde_json::Value::Object(object), &key).unwrap()
}

/// Checks a token with `jsonwebtoken::decode`, `DecodingKey::from_secret`
/// and `Validation::default()` with its expiry check switched off, and reads
/// the `user_id` and `exp` of the claims. The result is the name `jwt_claims`;
/// the expiry check, which reads the clock, is made by `verify_token_at`.
#[verifier::external_body]
fn jwt_decode(token: &str, secret: &str) -> (r: Option<Claims>)
    ensures
        r == claims_of(jwt_claims(token@, secret@)),
{
    let key = DecodingKey::from_secret(secret.as_bytes());
    let mut validation = Validation::default();
    validation.validate_exp = false;
    let data = decode::<serde_json::Value>(token, &key, &validation).ok()?;
    let id = uuid::Uuid::parse_str(data.claims.get("user_id")?.as_str()?).ok()?;
    let exp = usize::try_from(data.claims.get("exp")?.as_u64()?).ok()?;
    Some(Claims { user_id: id.as_u128(), exp })
}

/// The claims that a pair `(user_id, exp)` stands for.
pub open spec fn claims_of(p: Option<(u128, usize)>) -> Option<Claims> {
    match p {
        Some((user_id, exp)) => Some(Claims { user_id, exp }),
        None => None,
    }
}

/// The leeway, in seconds, that `jsonwebtoken::Validation::default()` gives
/// an expired token.
pub open spec fn token_leeway() -> int {
    60
}

/// What a check of `token` with `secret` at Unix time `now` accepts: the
/// claims, unless the signature or claims are refused, or `exp` lies more
/// than the leeway before `now` (the test of `jsonwebtoken`'s `validate`).
pub open spec fn token_accepted_at(token: Seq<char>, secret: Seq<char>, now: i64) -> Option<Claims> {
    match jwt_claims(token, secret) {
        Some((user_id, exp)) => if exp < now - token_leeway() {
            None
        } else {
            Some(Claims { user_id, exp })
        },
        None => None,
    }
}

/// Issues a login token for `user_id`, signed with `secret` and valid for two
/// hours from now. Returns the claims and the token.
pub fn generate_token(user_id: u128, secret: &str) -> (r: (Claims, String))
    ensures
        r.0.user_id == user_id,
        is_token_expiry(r.0.exp),
        r.1@ == jwt_hs256(r.0.user_id, r.0.exp, secret@),
        jwt_claims(r.1@, secret@) == Some((r.0.user_id, r.0.exp)),
{
    let now = unix_now();
    let r = generate_token_at(user_id, now, secret);
    assert(expiry_at(now) == r.0.exp);
    r
}

/// Issues a login token for `user_id` at Unix time `now`, signed with
/// `secret` and valid for two hours. Returns the claims and the token.
pub fn generate_token_at(user_id: u128, now: i64, secret: &str) -> (r: (Claims, String))
    requires
        now + token_lifetime() <= i64::MAX,
    ensures
        r.0 == (Claims { user_id, exp: expiry_at(now) }),
        r.1@ == jwt_hs256(user_id, expiry_at(now), secret@),
        jwt_claims(r.1@, secret@) == Some((user_id, expiry_at(now))),
{
    let claims = claims_at(user_id, now);
    let token = jwt_encode(claims, secret);
    (claims, token)
}

/// The claims of a token signed with `secret` that has not expired at Unix
/// time `now`, or `None`.
pub fn verify_token_at(token: &str, secret: &str, now: i64) -> (r: Option<Claims>)
    ensures
        r == token_accepted_at(token@, secret@, now),
{
    match jwt_decode(token, secret) {
        Some(c) => {
            if (c.exp as i128) < (now as i128) - 60 {
                None
            } else {
                Some(c)
            }
        },
        None => None,
    }
}

/// The claims of a token signed with `secret` that has not expired now, or
/// `None`.
pub fn verify_token(token: &str, secret: &str) -> (r: Option<Claims>)
    ensures
        r matches Some(c) ==> jwt_claims(token@, secret@) == Some((c.user_id, c.exp)),
        jwt_claims(token@, secret@) is None ==> r is None,
        exists|now: i64| clock_range(now) && r == #[trigger] token_accepted_at(token@, secret@, now),
{
    let now = unix_now();
    let r = verify_token_at(token, secret, now);
    assert(r == token_accepted_at(token@, secret@, now));
    r
}

/// A token that `generate_token` issued, checked with the same secret, gives
/// back the claims it was issued with, or nothing once it has expired.
pub proof fn issued_token_gives_back_its_claims(
    issued: (Claims, String),
    user_id: u128,
    secret: &str,
    checked: Option<Claims>,
)
    requires
        issued.0.user_id == user_id,
        jwt_claims(issued.1@, secret@) == Some((issued.0.user_id, issued.0.exp)),
        checked matches Some(c) ==> jwt_claims(issued.1@, secret@) == Some((c.user_id, c.exp)),
    ensures
        checked matches Some(c) ==> c == issued.0 && c.user_id == user_id,
{
}

/// A token whose signature and claims check out is accepted, with exactly
/// its claims, at every time up to the leeway after its expiry, whatever the
/// user id and the secret.
pub proof fn unexpired_token_is_accepted(
    token: Seq<char>,
    secret: Seq<char>,
    user_id: u128,
    exp: usize,
    now: i64,
)
    requires
        jwt_claims(token, secret) == Some((user_id, exp)),
        now <= exp + 60,
    ensures
        token_accepted_at(token, secret, now) == Some(Claims { user_id, exp }),
{
}

/// A token is refused once more than the leeway has passed since its
/// expiry, and always when its signature or claims do not check out.
pub proof fn expired_or_forged_token_is_refused(token: Seq<char>, secret: Seq<char>, now: i64)
    ensures
        jwt_claims(token, secret) is None ==> token_accepted_at(token, secret, now) is None,
        jwt_claims(token, secret) matches Some((_, exp)) && exp + 60 < now ==> token_accepted_at(
            token,
            secret,
            now,
        ) is None,
{
}

/// A token issued at Unix time `now` expires two hours later and is
/// accepted, with the claims it was issued with, at every time from its
/// issue until a minute after it expires.
pub proof fn issued_token_is_accepted_for_two_hours(
    user_id: u128,
    now: i64,
    secret: Seq<char>,
    issued: (Claims, String),
    later: i64,
)
    requires
        0 <= now,
        now + token_lifetime() <= i64::MAX,
        now + token_lifetime() <= usize::MAX,
        issued.0 == (Claims { user_id, exp: expiry_at(now) }),
        jwt_claims(issued.1@, secret) == Some((user_id, expiry_at(now))),
        now <= later <= now + 7200 + 60,
    ensures
        issued.0.exp == now + 7200,
        token_accepted_at(issued.1@, secret, later) == Some(issued.0),
{
}

/// Two tokens issued for one user at the same time with the same secret are
/// the same token; the secret plays no part in the claims.
pub proof fn token_claims_depend_on_user_and_time_only(
    user_id: u128,
    now: i64,
    secret_a: Seq<char>,
    secret_b: Seq<char>,
    a: (Claims, String),
    b: (Claims, String),
)
    requires
        a.0 == (Claims { user_id, exp: expiry_at(now) }),
        b.0 == (Claims { user_id, exp: expiry_at(now) }),
        a.1@ == jwt_hs256(user_id, expiry_at(now), secret_a),
        b.1@ == jwt_hs256(user_id, expiry_at(now), secret_b),
    ensures
        a.0 == b.0,
        secret_a == secret_b ==> a.1@ == b.1@,
{
}

/// The token that an `Authorization` header carries: what follows
/// `Bearer `, if the header starts so.
pub open spec fn bearer_of(header: Seq<char>) -> Option<Seq<char>> {
    if header.len() >= 7 && header.subrange(0, 7) == "Bearer "@ {
        Some(header.subrange(7, header.len() as int))
    } else {
        None
    }
}

/// For every token, the header `Bearer <token>` carries exactly that token.
pub proof fn bearer_header_carries_its_token(token: Seq<char>)
    ensures
        bearer_of("Bearer "@ + token) == Some(token),
{
    reveal_strlit("Bearer ");
    let h = "Bearer "@ + token;
    assert(h.subrange(0, 7) =~= "Bearer "@);
    assert(h.subrange(7, h.len() as int) =~= token);
}

/// A header that does not start with `Bearer ` carries no token.
pub proof fn other_headers_carry_no_token(header: Seq<char>)
    requires
        !(header.len() >= 7 && header.subrange(0, 7) == "Bearer "@),
    ensures
        bearer_of(header) is None,
{
}

/// The token of an `Authorization` header of the form `Bearer <token>`.
pub fn bearer_token(header: &str) -> (r: Option<String>)
    ensures
        r is Some <==> (header@.len() >= 7 && header@.subrange(0, 7) == "Bearer "@),
        r matches Some(t) ==> t@ == header@.subrange(7, header@.len() as int),
        r matches Some(t) ==> bearer_of(header@) == Some(t@),
        r is None ==> bearer_of(header@) is None,
{
    let prefix = "Bearer ";
    proof {
        reveal_strlit("Bearer ");
    }
    let n = header.unicode_len();
    if n < 7 {
        return None;
    }
    let mut i: usize = 0;
    while i < 7
        invariant
            i <= 7 <= n,
            n == header@.len(),
            prefix@ == "Bearer "@,
            prefix@.len() == 7,
            header@.subrange(0, i as int) == prefix@.subrange(0, i as int),
        decreases 7 - i,
    {
        if header.get_char(i) != prefix.get_char(i) {
            assert(header@.subrange(0, 7)[i as int] != prefix@[i as int]);
            return None;
        }
        assert(header@.subrange(0, i + 1) =~= header@.subrange(0, i as int).push(header@[i as int]));
        assert(prefix@.subrange(0, i + 1) =~= prefix@.subrange(0, i as int).push(prefix@[i as int]));
        i = i + 1;
    }
    assert(prefix@.subrange(0, 7) =~= prefix@);
    Some(String::from_str(header.substring_char(7, n)))
}

} // verus!
