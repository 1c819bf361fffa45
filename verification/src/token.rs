//! Minting and verification of signed, stateless identity tokens.
//!
//! A token carries three claims — the subject id, a display name, and an
//! absolute expiry timestamp — signed with a process-wide symmetric secret.
//! The signing and signature checking are done by an outside JWT library
//! behind the two trusted wrappers below; everything around them (the expiry
//! policy, the expiry check, the claim plumbing) is verified. Verification
//! reports one undifferentiated failure for any problem — malformed
//! encoding, bad signature, or expiry — so callers cannot distinguish why a
//! token was rejected.

use vstd::prelude::*;

verus! {

/// Fixed mint policy: a token expires sixty days after it was minted.
pub const TOKEN_LIFETIME_SECONDS: i64 = 5184000;

/// The signed payload of a token.
pub struct Claims {
    /// Integer id of the account the token speaks for.
    pub subject: i64,
    /// Display name recorded at mint time.
    pub name: String,
    /// Absolute Unix timestamp after which the token is dead.
    pub expiry: i64,
}

/// The token string that the outside JWT library produces for a secret and
/// the three claims. It is a deterministic function of its arguments; no
/// contract says what the string looks like.
pub uninterp spec fn spec_encode(secret: Seq<u8>, subject: int, name: Seq<char>, expiry: int) -> Seq<char>;

/// The claims that the outside JWT library reads back out of a token string
/// under a secret, `None` when the token is malformed or its signature does
/// not match. Deterministic in the secret and the token; the time-based
/// checks are done separately, in verified code.
pub uninterp spec fn spec_decode(secret: Seq<u8>, token: Seq<char>) -> Option<(int, Seq<char>, int)>;

/// Relies on jsonwebtoken::encode with the default (HS256) header and a key
/// from EncodingKey::from_secret: the token is a deterministic function of
/// the secret and the claims, and jsonwebtoken::decode with the same secret
/// reads the same claims back. For the HMAC family the call cannot fail, so
/// the error arm is never taken.
#[verifier::external_body]
fn jwt_encode(secret: &Vec<u8>, subject: i64, name: &String, expiry: i64) -> (token: String)
    ensures
        token@ == spec_encode(secret@, subject as int, name@, expiry as int),
        spec_decode(secret@, token@) == Some((subject as int, name@, expiry as int)),
{
    let key = jsonwebtoken::EncodingKey::from_secret(secret.as_slice());
    let mut claims = serde_json::Map::new();
    claims.insert("sub".to_string(), serde_json::Value::from(subject));
    claims.insert("name".to_string(), serde_json::Value::from(name.as_str()));
    claims.insert("exp".to_string(), serde_json::Value::from(expiry));
    let claims = serde_json::Value::Object(claims);
    jsonwebtoken::encode(&jsonwebtoken::Header::default(), &claims, &key).unwrap_or_default()
}

/// Relies on jsonwebtoken::decode with signature checking on and the
/// time-based checks off: the result is a deterministic function of the
/// secret and the token, `None` exactly when the token is malformed, signed
/// with another secret, or missing one of the three claims.
#[verifier::external_body]
fn jwt_decode(secret: &Vec<u8>, token: &str) -> (r: Option<(i64, String, i64)>)
    ensures
        (match r {
            Some(c) => spec_decode(secret@, token@) == Some((c.0 as int, c.1@, c.2 as int)),
            None => spec_decode(secret@, token@) is None,
        }),
{
    let key = jsonwebtoken::DecodingKey::from_secret(secret.as_slice());
    let mut validation = jsonwebtoken::Validation::new(jsonwebtoken::Algorithm::HS256);
    validation.validate_exp = false;
    validation.required_spec_claims = std::collections::HashSet::new();
    let data = jsonwebtoken::decode::<serde_json::Value>(token, &key, &validation).ok()?;
    let subject = data.claims.get("sub")?.as_i64()?;
    let name = data.claims.get("name")?.as_str()?;
    let expiry = data.claims.get("exp")?.as_i64()?;
    Some((subject, name.to_string(), expiry))
}

/// Relies on chrono::Utc::now, read as whole seconds since the Unix epoch.
/// The value depends on the clock, so nothing is assumed of it.
#[verifier::external_body]
pub(crate) fn now_timestamp() -> i64 {
    chrono::Utc::now().timestamp()
}

/// Mints and verifies tokens under one immutable symmetric secret, loaded
/// once at process start and shared read-only from then on.
pub struct TokenCodec {
    secret: Vec<u8>,
}

impl TokenCodec {
    /// The signing secret, immutable after construction.
    pub closed spec fn spec_secret(&self) -> Seq<u8> {
        self.secret@
    }

    pub fn new(secret: Vec<u8>) -> (codec: TokenCodec)
        ensures
            codec.spec_secret() == secret@,
    {
        TokenCodec { secret }
    }

    /// Mint a token for `subject` at time `now`; it expires sixty days
    /// later. Decoding the result under the same secret yields exactly the
    /// claims that went in.
    pub fn mint(&self, subject: i32, name: &String, now: i64) -> (token: String)
        requires
            now + TOKEN_LIFETIME_SECONDS <= i64::MAX,
        ensures
            token@ == spec_encode(
                self.spec_secret(),
                subject as int,
                name@,
                now + TOKEN_LIFETIME_SECONDS,
            ),
            spec_decode(self.spec_secret(), token@) == Some(
                (subject as int, name@, (now + TOKEN_LIFETIME_SECONDS) as int),
            ),
    {
        let expiry = now + TOKEN_LIFETIME_SECONDS;
        jwt_encode(&self.secret, subject as i64, name, expiry)
    }

    /// Mint a token expiring sixty days from the current time. `None` only
    /// when the clock stands so close to the end of the representable range
    /// that the expiry would not fit.
    pub fn generate_token(&self, subject: i32, name: &String) -> (r: Option<String>)
        ensures
            r matches Some(t) ==> (spec_decode(self.spec_secret(), t@) matches Some(c)
                && c.0 == subject as int && c.1 == name@),
    {
        let now = now_timestamp();
        if now <= i64::MAX - TOKEN_LIFETIME_SECONDS {
            Some(self.mint(subject, name, now))
        } else {
            None
        }
    }

    /// Check a token at time `now`: the claims come back exactly when the
    /// token decodes under this codec's secret and its expiry lies strictly
    /// in the future; every failure — malformed token, wrong signature, or
    /// expiry passed — looks the same.
    pub fn verify(&self, token: &str, now: i64) -> (r: Option<Claims>)
        ensures
            (match spec_decode(self.spec_secret(), token@) {
                Some(c) => {
                    if c.2 > now {
                        r matches Some(cl) && cl.subject as int == c.0 && cl.name@ == c.1
                            && cl.expiry as int == c.2
                    } else {
                        r is None
                    }
                },
                None => r is None,
            }),
    {
        match jwt_decode(&self.secret, token) {
            Some((subject, name, expiry)) => {
                if expiry > now {
                    Some(Claims { subject, name, expiry })
                } else {
                    None
                }
            },
            None => None,
        }
    }
}

/// Law: minting a token and verifying it at any instant before its expiry
/// yields exactly the claims that were minted — the same subject, the same
/// name, and the sixty-day expiry. Stated over the mint and verify
/// contracts, so every caller of the pair gets it for free.
pub fn minted_token_verifies(
    codec: &TokenCodec,
    subject: i32,
    name: &String,
    now: i64,
    later: i64,
) -> (r: Option<Claims>)
    requires
        now + TOKEN_LIFETIME_SECONDS <= i64::MAX,
        later < now + TOKEN_LIFETIME_SECONDS,
    ensures
        r matches Some(c) && c.subject == subject as i64 && c.name@ == name@ && c.expiry == now
            + TOKEN_LIFETIME_SECONDS,
{
    let token = codec.mint(subject, name, now);
    codec.verify(token.as_str(), later)
}

/// Law: a token whose expiry has been reached is rejected, its own valid
/// signature notwithstanding.
pub fn minted_token_expires(
    codec: &TokenCodec,
    subject: i32,
    name: &String,
    now: i64,
    later: i64,
) -> (r: Option<Claims>)
    requires
        now + TOKEN_LIFETIME_SECONDS <= i64::MAX,
        later >= now + TOKEN_LIFETIME_SECONDS,
    ensures
        r is None,
{
    let token = codec.mint(subject, name, now);
    codec.verify(token.as_str(), later)
}

} // verus!
