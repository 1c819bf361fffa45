//! The decision core of each request handler.
//!
//! The host performs the waiting — body parsing, store lookups, offloading
//! the hash work through the permit pool — and hands the results here as
//! plain values. Each function below takes those values and decides the
//! whole outcome of the request: which error the response carries, or what
//! to hand back to the caller, or what to write to the store.

use vstd::prelude::*;

use crate::auth::bcrypt_matches;
use crate::auth::generate_password;
use crate::error::AppError;
use crate::error::AppErrors;
use crate::error::convert_validation_messages;
use crate::msg::NewUser;
use crate::msg::UpdateUser;
use crate::msg::UserResponse;
use crate::token::TOKEN_LIFETIME_SECONDS;
use crate::token::TokenCodec;
use crate::token::spec_decode;
use crate::user::User;

verus! {

/// What the login handler decides once the store lookup is in: the caller
/// gets the account payload exactly when the account exists and the
/// password matches its hash; an unknown email and a wrong password are
/// indistinguishable, both answered with the one invalid-login failure.
pub fn login(codec: &TokenCodec, user: Option<User>, password: &String, now: i64) -> (r: Result<
    UserResponse,
    AppError,
>)
    requires
        now + TOKEN_LIFETIME_SECONDS <= i64::MAX,
    ensures
        (match user {
            Option::None => r == Err::<UserResponse, AppError>(AppError::InvalidLogin),
            Option::Some(u) => {
                if bcrypt_matches(password@, u.hash.spec_hash()) {
                    r matches Ok(resp) && resp.user.email == u.email && resp.user.username
                        == u.username && resp.user.bio == u.bio && resp.user.image == u.image
                        && spec_decode(codec.spec_secret(), resp.user.token@) == Some(
                        (u.id as int, u.username@, (now + TOKEN_LIFETIME_SECONDS) as int),
                    )
                } else {
                    r == Err::<UserResponse, AppError>(AppError::InvalidLogin)
                }
            },
        }),
{
    match user {
        Option::None => Err(AppError::InvalidLogin),
        Option::Some(u) => {
            if u.compare_password(password) {
                Ok(u.to_user_response(codec, now))
            } else {
                Err(AppError::InvalidLogin)
            }
        },
    }
}

/// How a registration attempt proceeds after the field validation and the
/// two uniqueness checks are in.
pub enum RegistrationStep {
    /// The request is refused with these failures.
    Reject(AppErrors),
    /// Insert the account with this password hash.
    Proceed(String),
    /// The hashing primitive failed; the host surfaces its generic failure.
    HashFailure,
}

/// The uniqueness failures a registration reports, both checked
/// unconditionally: a request violating both constraints reports both, the
/// email collision first.
pub open spec fn spec_uniqueness_errors(email_taken: bool, username_taken: bool) -> Seq<AppError> {
    (if email_taken {
        seq![AppError::EmailTaken]
    } else {
        Seq::empty()
    }) + (if username_taken {
        seq![AppError::UsernameTaken]
    } else {
        Seq::empty()
    })
}

/// Law: a registration whose email and username are both already present
/// reports both collisions together, in that order — no short-circuit
/// after the first.
pub proof fn lemma_register_reports_both()
    ensures
        spec_uniqueness_errors(true, true) == seq![AppError::EmailTaken, AppError::UsernameTaken],
{
    assert(spec_uniqueness_errors(true, true) =~= seq![
        AppError::EmailTaken,
        AppError::UsernameTaken,
    ]);
}

/// What the registration handler decides. Field-validation failures refuse
/// the request before the store is consulted; otherwise both uniqueness
/// conditions are accumulated without short-circuiting; only a request
/// clean on all counts reaches the hashing step.
pub fn register_user(
    new_user: &NewUser,
    validation_msgs: &Vec<String>,
    email_taken: bool,
    username_taken: bool,
) -> (r: RegistrationStep)
    ensures
        validation_msgs@.len() > 0 ==> (r matches RegistrationStep::Reject(errs)
            && errs.spec_errors().len() == validation_msgs@.len() && (forall|i: int|
            0 <= i < validation_msgs@.len() ==> errs.spec_errors()[i] == AppError::Validator(
                validation_msgs@[i],
            ))),
        validation_msgs@.len() == 0 && (email_taken || username_taken) ==> (r
            matches RegistrationStep::Reject(errs) && errs.spec_errors()
            == spec_uniqueness_errors(email_taken, username_taken)),
        validation_msgs@.len() == 0 && !email_taken && !username_taken ==> ((r
            matches RegistrationStep::Proceed(h) && bcrypt_matches(new_user.password@, h@)) || r
            matches RegistrationStep::HashFailure),
{
    if validation_msgs.len() > 0 {
        RegistrationStep::Reject(convert_validation_messages(validation_msgs))
    } else {
        let mut db_errors = AppErrors::new();
        if email_taken {
            db_errors.add(AppError::EmailTaken);
        }
        if username_taken {
            db_errors.add(AppError::UsernameTaken);
        }
        if !db_errors.is_empty() {
            proof {
                assert(db_errors.spec_errors() =~= spec_uniqueness_errors(
                    email_taken,
                    username_taken,
                ));
            }
            RegistrationStep::Reject(db_errors)
        } else {
            match generate_password(&new_user.password) {
                Option::Some(h) => RegistrationStep::Proceed(h),
                Option::None => RegistrationStep::HashFailure,
            }
        }
    }
}

/// What the update handler decides once the field validation is in.
pub enum UpdateStep {
    /// The request is refused with these failures.
    Reject(AppErrors),
    /// Write these fields, with this hash when a new password was given.
    Apply(UpdateUser, Option<String>),
    /// The hashing primitive failed; the host surfaces its generic failure.
    HashFailure,
}

/// What the update handler decides: validation failures refuse the request;
/// otherwise the fields pass through unchanged, with a fresh hash exactly
/// when a new password was given.
pub fn update_user(update: UpdateUser, validation_msgs: &Vec<String>) -> (r: UpdateStep)
    ensures
        validation_msgs@.len() > 0 ==> (r matches UpdateStep::Reject(errs) && errs.spec_errors().len()
            == validation_msgs@.len() && (forall|i: int|
            0 <= i < validation_msgs@.len() ==> errs.spec_errors()[i] == AppError::Validator(
                validation_msgs@[i],
            ))),
        validation_msgs@.len() == 0 && update.password is None ==> r == UpdateStep::Apply(
            update,
            Option::<String>::None,
        ),
        validation_msgs@.len() == 0 ==> (update.password matches Option::Some(p) ==> ((r
            matches UpdateStep::Apply(u2, h) && u2 == update && (h matches Option::Some(hs)
            && bcrypt_matches(p@, hs@))) || r matches UpdateStep::HashFailure)),
{
    if validation_msgs.len() > 0 {
        UpdateStep::Reject(convert_validation_messages(validation_msgs))
    } else {
        match &update.password {
            Option::Some(p) => {
                match generate_password(p) {
                    Option::Some(h) => UpdateStep::Apply(update, Option::Some(h)),
                    Option::None => UpdateStep::HashFailure,
                }
            },
            Option::None => UpdateStep::Apply(update, Option::None),
        }
    }
}

} // verus!
