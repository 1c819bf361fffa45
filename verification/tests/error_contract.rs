use account_core::error::{
    convert_validation_messages, error_middleware, AppError, AppErrors, CarriedError, Reply,
};

#[test]
fn invalid_login_translates_to_exact_body() {
    let passthrough = Reply { status: 200, body: String::new() };
    let r = error_middleware(passthrough, &Some(CarriedError::Single(AppError::InvalidLogin)));
    assert_eq!(r.status, 422);
    assert_eq!(r.body, "{\"errors\":{\"body\":[\"invalid login credentials\"]}}");
}

#[test]
fn json_text_of_each_kind() {
    assert_eq!(
        AppError::InvalidLogin.json_text(),
        "{\"errors\":{\"body\":[\"invalid login credentials\"]}}"
    );
    assert_eq!(AppError::EmailTaken.json_text(), "{\"errors\":{\"body\":[\"email already taken\"]}}");
    assert_eq!(
        AppError::UsernameTaken.json_text(),
        "{\"errors\":{\"body\":[\"username already taken\"]}}"
    );
    assert_eq!(
        AppError::Validator("invalid email".to_string()).json_text(),
        "{\"errors\":{\"body\":[\"invalid email\"]}}"
    );
}

#[test]
fn two_element_list_keeps_insertion_order() {
    let mut errs = AppErrors::new();
    errs.add(AppError::EmailTaken);
    errs.add(AppError::UsernameTaken);
    let r = error_middleware(
        Reply { status: 200, body: String::new() },
        &Some(CarriedError::Multiple(errs)),
    );
    assert_eq!(r.status, 422);
    assert_eq!(
        r.body,
        "{\"errors\":{\"body\":[\"email already taken\",\"username already taken\"]}}"
    );
}

#[test]
fn reversed_insertion_order_is_kept_too() {
    let mut errs = AppErrors::new();
    errs.add(AppError::UsernameTaken);
    errs.add(AppError::EmailTaken);
    let messages = errs.messages();
    assert_eq!(messages, vec!["username already taken", "email already taken"]);
}

#[test]
fn unrecognized_response_passes_through_unmodified() {
    let reply = Reply { status: 500, body: "kept as it was".to_string() };
    let r = error_middleware(reply, &None);
    assert_eq!(r.status, 500);
    assert_eq!(r.body, "kept as it was");
}

#[test]
fn same_status_whatever_kinds_the_list_contains() {
    let mut a = AppErrors::new();
    a.add(AppError::InvalidLogin);
    let mut b = AppErrors::new();
    b.add(AppError::Validator("invalid bio, must not be empty".to_string()));
    b.add(AppError::EmailTaken);
    let ra = error_middleware(Reply { status: 200, body: String::new() }, &Some(CarriedError::Multiple(a)));
    let rb = error_middleware(Reply { status: 200, body: String::new() }, &Some(CarriedError::Multiple(b)));
    assert_eq!(ra.status, rb.status);
    assert_eq!(ra.status, 422);
}

#[test]
fn validation_messages_convert_one_to_one_in_order() {
    let msgs = vec!["invalid email".to_string(), "invalid password, must be at least 6 characters".to_string()];
    let errs = convert_validation_messages(&msgs);
    assert!(!errs.is_empty());
    assert_eq!(errs.messages(), msgs);
}

#[test]
fn empty_error_list_is_empty() {
    let errs = AppErrors::new();
    assert!(errs.is_empty());
    assert_eq!(errs.messages().len(), 0);
}
