use account_core::auth::{generate_password, verify_password};
use account_core::error::AppError;
use account_core::handlers::{login, register_user, update_user, RegistrationStep, UpdateStep};
use account_core::msg::{NewUser, UpdateUser};
use account_core::token::TokenCodec;
use account_core::user::User;

const NOW: i64 = 1_700_000_000;

fn codec() -> TokenCodec {
    TokenCodec::new(b"a-test-signing-secret".to_vec())
}

fn stored_user(password: &str) -> User {
    let hash = generate_password(&password.to_string()).expect("hashing must succeed");
    User::new(
        42,
        "alice@example.com".to_string(),
        "alice".to_string(),
        Some("a bio".to_string()),
        None,
        hash,
    )
}

fn new_user() -> NewUser {
    NewUser {
        username: "alice".to_string(),
        email: "alice@example.com".to_string(),
        password: "secret123".to_string(),
    }
}

#[test]
fn login_with_correct_credentials_returns_verifiable_token() {
    let c = codec();
    let user = stored_user("secret123");
    let resp = login(&c, Some(user), &"secret123".to_string(), NOW).expect("login must succeed");
    assert_eq!(resp.user.email, "alice@example.com");
    assert_eq!(resp.user.username, "alice");
    assert_eq!(resp.user.bio, Some("a bio".to_string()));
    // The token verifies independently back to the stored user's id.
    let claims = c.verify(resp.user.token.as_str(), NOW + 1).expect("token must verify");
    assert_eq!(claims.subject, 42);
    assert_eq!(claims.name, "alice");
}

#[test]
fn login_with_wrong_password_reports_only_invalid_login() {
    let c = codec();
    let user = stored_user("secret123");
    let err = login(&c, Some(user), &"wrong-password".to_string(), NOW)
        .err()
        .expect("login must fail");
    assert_eq!(err.text(), "invalid login credentials");
    assert_eq!(err.json_text(), "{\"errors\":{\"body\":[\"invalid login credentials\"]}}");
}

#[test]
fn login_with_unknown_email_is_indistinguishable_from_wrong_password() {
    let c = codec();
    let unknown = login(&c, None, &"secret123".to_string(), NOW).err().expect("must fail");
    let user = stored_user("secret123");
    let wrong = login(&c, Some(user), &"nope".to_string(), NOW).err().expect("must fail");
    assert_eq!(unknown.text(), wrong.text());
    assert!(matches!(unknown, AppError::InvalidLogin));
    assert!(matches!(wrong, AppError::InvalidLogin));
}

#[test]
fn registration_reports_both_collisions_without_short_circuit() {
    let r = register_user(&new_user(), &Vec::new(), true, true);
    match r {
        RegistrationStep::Reject(errs) => {
            assert_eq!(errs.messages(), vec!["email already taken", "username already taken"]);
        }
        _ => panic!("registration must be rejected"),
    }
}

#[test]
fn registration_reports_single_collisions_exactly() {
    match register_user(&new_user(), &Vec::new(), true, false) {
        RegistrationStep::Reject(errs) => {
            assert_eq!(errs.messages(), vec!["email already taken"]);
        }
        _ => panic!("registration must be rejected"),
    }
    match register_user(&new_user(), &Vec::new(), false, true) {
        RegistrationStep::Reject(errs) => {
            assert_eq!(errs.messages(), vec!["username already taken"]);
        }
        _ => panic!("registration must be rejected"),
    }
}

#[test]
fn validation_failures_refuse_registration_before_the_store_is_consulted() {
    let msgs = vec!["invalid email".to_string()];
    match register_user(&new_user(), &msgs, true, true) {
        RegistrationStep::Reject(errs) => {
            // Only the validation message: the uniqueness flags are not reported.
            assert_eq!(errs.messages(), vec!["invalid email"]);
        }
        _ => panic!("registration must be rejected"),
    }
}

#[test]
fn clean_registration_proceeds_with_matching_hash() {
    match register_user(&new_user(), &Vec::new(), false, false) {
        RegistrationStep::Proceed(hash) => {
            assert!(verify_password(&"secret123".to_string(), &hash));
            assert!(!verify_password(&"other".to_string(), &hash));
        }
        _ => panic!("clean registration must proceed"),
    }
}

#[test]
fn update_without_password_applies_fields_unchanged() {
    let update = UpdateUser {
        email: Some("new@example.com".to_string()),
        username: None,
        password: None,
        image: None,
        bio: Some("new bio".to_string()),
    };
    match update_user(update, &Vec::new()) {
        UpdateStep::Apply(fields, hash) => {
            assert_eq!(fields.email, Some("new@example.com".to_string()));
            assert_eq!(fields.bio, Some("new bio".to_string()));
            assert!(hash.is_none());
        }
        _ => panic!("update must apply"),
    }
}

#[test]
fn update_with_password_carries_a_matching_hash() {
    let update = UpdateUser {
        email: None,
        username: None,
        password: Some("brand-new-pass".to_string()),
        image: None,
        bio: None,
    };
    match update_user(update, &Vec::new()) {
        UpdateStep::Apply(fields, hash) => {
            assert_eq!(fields.password, Some("brand-new-pass".to_string()));
            let hash = hash.expect("a new password must be hashed");
            assert!(verify_password(&"brand-new-pass".to_string(), &hash));
        }
        _ => panic!("update must apply"),
    }
}

#[test]
fn update_with_validation_failures_is_refused() {
    let update = UpdateUser { email: None, username: None, password: None, image: None, bio: None };
    let msgs = vec!["invalid bio, must not be empty".to_string()];
    match update_user(update, &msgs) {
        UpdateStep::Reject(errs) => {
            assert_eq!(errs.messages(), vec!["invalid bio, must not be empty"]);
        }
        _ => panic!("update must be rejected"),
    }
}

#[test]
fn compare_password_checks_the_stored_hash() {
    let user = stored_user("secret123");
    assert!(user.compare_password(&"secret123".to_string()));
    assert!(!user.compare_password(&"secret124".to_string()));
}

#[test]
fn to_user_response_carries_account_fields_and_fresh_token() {
    let c = codec();
    let user = stored_user("secret123");
    let resp = user.to_user_response(&c, NOW);
    assert_eq!(resp.user.email, "alice@example.com");
    assert_eq!(resp.user.username, "alice");
    let claims = c.verify(resp.user.token.as_str(), NOW + 1).expect("token must verify");
    assert_eq!(claims.subject, 42);
}
