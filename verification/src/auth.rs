//! The request-boundary authentication guard and the password primitives.
//!
//! For a protected route the guard examines the single authorization header
//! value, which must have the shape `"<scheme> <token>"` with the scheme one
//! of the two accepted literals. Anything else — header absent, malformed,
//! unrecognized scheme, or a token the codec rejects — short-circuits the
//! request with one fixed response: status 401 and no body. Only on success
//! does the request carry a verified caller identity forward, and the
//! downstream handler never runs otherwise.

use vstd::prelude::*;
use vstd::string::StrSliceExecFns;
use vstd::string::StringExecFns;

use crate::error::Reply;
use crate::token::TokenCodec;
use crate::token::now_timestamp;
use crate::token::spec_decode;

verus! {

/// The verified caller identity attached to one request after the guard
/// accepted it; discarded when the request completes.
pub struct AuthId(pub i32);

/// What the guard decides for one request: forward it with the caller's
/// identity attached, or answer at once and never run the handler.
pub enum GuardDecision {
    Forward(AuthId),
    ShortCircuit(Reply),
}

/// Index of the first space at or after `i`, if any.
pub open spec fn spec_first_space(s: Seq<char>, i: int) -> Option<int>
    decreases s.len() - i,
{
    if i < 0 || i >= s.len() {
        Option::None
    } else if s[i] == ' ' {
        Option::Some(i)
    } else {
        spec_first_space(s, i + 1)
    }
}

/// A header value split at its first space into scheme and token, `None`
/// when it contains no space at all.
pub open spec fn spec_split_header(h: Seq<char>) -> Option<(Seq<char>, Seq<char>)> {
    match spec_first_space(h, 0) {
        Option::Some(i) => Option::Some((h.take(i), h.skip(i + 1))),
        Option::None => Option::None,
    }
}

/// The two accepted scheme literals, interchangeable.
pub open spec fn spec_scheme_ok(s: Seq<char>) -> bool {
    s == "Bearer"@ || s == "Token"@
}

/// The header value, if one was given.
pub open spec fn spec_header_view(header: Option<&String>) -> Option<Seq<char>> {
    match header {
        Option::Some(h) => Option::Some(h@),
        Option::None => Option::None,
    }
}

/// The subject the guard accepts at time `now` under `secret`, `None` on any
/// of the failure categories: missing header, malformed header, wrong
/// scheme, or a token that is unreadable, forged, expired, or carries a
/// subject outside the id range.
pub open spec fn spec_guard_subject(secret: Seq<u8>, header: Option<Seq<char>>, now: int) -> Option<
    int,
> {
    match header {
        Option::None => Option::None,
        Option::Some(h) => match spec_split_header(h) {
            Option::None => Option::None,
            Option::Some(parts) => if !spec_scheme_ok(parts.0) {
                Option::None
            } else {
                match spec_decode(secret, parts.1) {
                    Option::Some(c) => if c.2 > now && i32::MIN <= c.0 <= i32::MAX {
                        Option::Some(c.0)
                    } else {
                        Option::None
                    },
                    Option::None => Option::None,
                }
            },
        },
    }
}

proof fn lemma_first_space_skip(s: Seq<char>, i: int)
    requires
        0 <= i <= s.len(),
        forall|j: int| 0 <= j < i ==> s[j] != ' ',
    ensures
        spec_first_space(s, 0) == spec_first_space(s, i),
    decreases i,
{
    if i > 0 {
        lemma_first_space_skip(s, i - 1);
    }
}

/// Index of the first space in `h`, if any.
fn find_space(h: &str) -> (r: Option<usize>)
    ensures
        (match r {
            Option::Some(i) => i < h@.len() && spec_first_space(h@, 0) == Option::Some(i as int),
            Option::None => spec_first_space(h@, 0) is None,
        }),
{
    let len = h.unicode_len();
    let mut i: usize = 0;
    while i < len
        invariant
            len == h@.len(),
            0 <= i <= len,
            forall|j: int| 0 <= j < i ==> h@[j] != ' ',
        decreases len - i,
    {
        if h.get_char(i) == ' ' {
            proof {
                lemma_first_space_skip(h@, i as int);
            }
            return Option::Some(i);
        }
        i = i + 1;
    }
    proof {
        lemma_first_space_skip(h@, len as int);
    }
    Option::None
}

/// Split a header value at its first space into scheme and token.
pub fn split_header<'a>(h: &'a str) -> (r: Option<(&'a str, &'a str)>)
    ensures
        (match r {
            Option::Some(p) => spec_split_header(h@) == Option::Some((p.0@, p.1@)),
            Option::None => spec_split_header(h@) is None,
        }),
{
    let len = h.unicode_len();
    match find_space(h) {
        Option::Some(i) => {
            let scheme = h.substring_char(0, i);
            let token = h.substring_char(i + 1, len);
            Option::Some((scheme, token))
        },
        Option::None => Option::None,
    }
}

/// Is the scheme one of the two accepted literals?
fn scheme_ok(scheme: &str) -> (r: bool)
    ensures
        r == spec_scheme_ok(scheme@),
{
    let s = String::from_str(scheme);
    s == String::from_str("Bearer") || s == String::from_str("Token")
}

/// Examine the authorization header value at time `now` and return the
/// caller's identity exactly when the guard accepts: header present, shaped
/// `"<scheme> <token>"`, scheme accepted, and the token verified and alive.
/// Every failure category yields the same `None`.
pub fn validate_request(codec: &TokenCodec, header: Option<&String>, now: i64) -> (r: Option<
    AuthId,
>)
    ensures
        (match spec_guard_subject(codec.spec_secret(), spec_header_view(header), now as int) {
            Option::Some(s) => r matches Option::Some(id) && id.0 == s,
            Option::None => r is None,
        }),
{
    match header {
        Option::None => Option::None,
        Option::Some(h) => match split_header(h.as_str()) {
            Option::None => Option::None,
            Option::Some((scheme, token)) => {
                if !scheme_ok(scheme) {
                    Option::None
                } else {
                    match codec.verify(token, now) {
                        Option::Some(claims) => {
                            if claims.subject >= i32::MIN as i64 && claims.subject
                                <= i32::MAX as i64 {
                                Option::Some(AuthId(claims.subject as i32))
                            } else {
                                Option::None
                            }
                        },
                        Option::None => Option::None,
                    }
                }
            },
        },
    }
}

/// The guard itself, judged against the current clock. A rejected request —
/// whatever the failure category — gets the one fixed short-circuit
/// response, status 401 with an empty body; a forwarded request carries an
/// identity that only a token decoding under this codec's secret, with an
/// accepted scheme, can have produced.
pub fn auth_middleware(codec: &TokenCodec, header: Option<&String>) -> (r: GuardDecision)
    ensures
        (r matches GuardDecision::ShortCircuit(reply) ==> reply.status == 401 && reply.body@
            =~= Seq::<char>::empty()),
        (r matches GuardDecision::Forward(id) ==> (match spec_header_view(header) {
            Option::Some(h) => spec_split_header(h) matches Option::Some(parts)
                && spec_scheme_ok(parts.0) && (spec_decode(codec.spec_secret(), parts.1)
                matches Option::Some(c) && c.0 == id.0 as int),
            Option::None => false,
        })),
        spec_header_view(header) is None ==> r matches GuardDecision::ShortCircuit(_),
{
    let now = now_timestamp();
    match validate_request(codec, header, now) {
        Option::Some(id) => GuardDecision::Forward(id),
        Option::None => GuardDecision::ShortCircuit(
            Reply { status: 401, body: String::new() },
        ),
    }
}

/// Relies on bcrypt::verify: it recomputes the hash with the cost and salt
/// carried in `hashed_password` and compares, so the result is a
/// deterministic function of the two arguments; a malformed hash yields
/// `false`.
#[verifier::external_body]
pub fn verify_password(plain_password: &String, hashed_password: &String) -> (r: bool)
    ensures
        r == bcrypt_matches(plain_password@, hashed_password@),
{
    match bcrypt::verify(plain_password.as_str(), hashed_password.as_str()) {
        Ok(valid) => valid,
        Err(_) => false,
    }
}

/// Relies on bcrypt::hash with the library's default cost: on success the
/// result is a hash string that bcrypt::verify accepts for the same
/// password. The salt is drawn fresh from the operating system, so two
/// calls on one password differ and nothing more is assumed of the value.
#[verifier::external_body]
pub fn generate_password(plain_password: &String) -> (r: Option<String>)
    ensures
        r matches Option::Some(h) ==> bcrypt_matches(plain_password@, h@),
{
    bcrypt::hash(plain_password.as_str(), bcrypt::DEFAULT_COST).ok()
}

/// Whether bcrypt::verify accepts `password` against `hash`: a
/// deterministic function of the two, `true` exactly on the passwords the
/// hash was made from.
pub uninterp spec fn bcrypt_matches(password: Seq<char>, hash: Seq<char>) -> bool;

} // verus!
